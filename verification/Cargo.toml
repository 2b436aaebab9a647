[package]
name = "spotify_playlist_notification"
version = "0.1.0"
edition = "2021"
publish = false

[dependencies]
serde_json = "1"
serde = { version = "1", features = ["derive"] }
reqwest = { version = "0.12", default-features = false, features = ["json"] }
tokio = { version = "1", features = ["macros", "rt-multi-thread"] }
lambda_runtime = "*"
aws-config = { version = "1", default-features = false, features = ["behavior-version-latest"] }
aws-sdk-dynamodb = { version = "1", default-features = false, features = ["behavior-version-latest"] }
