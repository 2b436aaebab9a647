//! What is said on the chat channel, and how the request that says it is
//! put together.

use vstd::prelude::*;
use vstd::string::StringExecFns;
use crate::error::RunError;
use crate::text::{join_lines, line_break, spec_join_lines, texts};

verus! {

/// The error type of `serde_json`.
#[verifier::external_type_specification]
#[verifier::external_body]
pub struct ExJsonError(serde_json::Error);

/// The text that `serde_json::to_string` gives for a JSON object with the
/// single member `key`, whose value is the JSON string `value`.
pub uninterp spec fn json_object_text(key: Seq<char>, value: Seq<char>) -> Seq<char>;

/// Serialises a JSON object with one string member. It builds a
/// `serde_json::Map` with `Map::insert` and hands it, as a
/// `serde_json::Value`, to `serde_json::to_string`. The contract claims that
/// a text comes back, and that it is the one that depends on `key` and
/// `value` alone. A text comes back because the serialiser fails only where
/// its writer does, where a map has a key that is no string, or where the
/// value's own `Serialize` gives up: here the writer is a `Vec<u8>`, the key
/// is a `String`, and the value is a `Value::String`.
#[verifier::external_body]
fn json_object_to_string(key: &str, value: &str) -> (json: Result<String, serde_json::Error>)
    ensures
        json is Ok,
        json matches Ok(text) ==> text@ == json_object_text(key@, value@),
{
    let mut object = serde_json::Map::new();
    object.insert(key.to_string(), serde_json::Value::String(value.to_string()));
    serde_json::to_string(&serde_json::Value::Object(object))
}

/// The credentials of the bot that posts to the chat channel.
pub struct DiscordClient {
    pub bot_token: String,
}

/// The line that names the playlist and links to it.
pub open spec fn spec_playlist_line(playlist_name: Seq<char>, playlist_url: Seq<char>) -> Seq<
    char,
> {
    "["@ + playlist_name + "]("@ + playlist_url + ")が更新されました！"@
}

/// The line that mentions the member whose turn is next.
pub open spec fn spec_mention_line(next_user_id: Seq<char>) -> Seq<char> {
    "<@"@ + next_user_id + ">"@
}

/// The announcement: a heading, the playlist, the tracks that were added,
/// one address per line, and the member whose turn is next.
pub open spec fn spec_announcement(
    playlist_name: Seq<char>,
    playlist_url: Seq<char>,
    latest_track_urls: Seq<Seq<char>>,
    next_user_id: Seq<char>,
) -> Seq<char> {
    spec_join_lines(
        seq![
            "## プレイリスト更新のお知らせ"@,
            line_break(),
            spec_playlist_line(playlist_name, playlist_url),
            "### 追加された曲"@,
            line_break(),
            spec_join_lines(latest_track_urls),
            "### 次の人"@,
            line_break(),
            spec_mention_line(next_user_id),
        ],
    )
}

impl DiscordClient {
    /// The value of the header that authorises the bot.
    pub fn authorization(&self) -> (value: String)
        ensures
            value@ == "Bot "@ + self.bot_token@,
    {
        String::from_str("Bot ").concat(self.bot_token.as_str())
    }

    /// The address to which a message for the channel is posted.
    pub fn messages_url(channel_id: &str) -> (url: String)
        ensures
            url@ == "https://discord.com/api/v10/channels/"@ + channel_id@ + "/messages"@,
    {
        String::from_str("https://discord.com/api/v10/channels/").concat(channel_id).concat(
            "/messages",
        )
    }

    /// The text of the announcement.
    pub fn latest_tracks_and_next_user_message(
        playlist_name: &str,
        playlist_url: &str,
        latest_track_urls: &Vec<&str>,
        next_user_id: &str,
    ) -> (content: String)
        ensures
            content@ == spec_announcement(
                playlist_name@,
                playlist_url@,
                texts(latest_track_urls@),
                next_user_id@,
            ),
    {
        let playlist_line = String::from_str("[").concat(playlist_name).concat("](").concat(
            playlist_url,
        ).concat(")が更新されました！");
        let track_lines = join_lines(latest_track_urls);
        let mention_line = String::from_str("<@").concat(next_user_id).concat(">");
        let mut lines: Vec<&str> = Vec::new();
        lines.push("## プレイリスト更新のお知らせ");
        lines.push("\n");
        lines.push(playlist_line.as_str());
        lines.push("### 追加された曲");
        lines.push("\n");
        lines.push(track_lines.as_str());
        lines.push("### 次の人");
        lines.push("\n");
        lines.push(mention_line.as_str());
        proof {
            reveal_strlit("\n");
            assert("\n"@ =~= line_break());
            assert(texts(lines@) =~= seq![
                "## プレイリスト更新のお知らせ"@,
                line_break(),
                spec_playlist_line(playlist_name@, playlist_url@),
                "### 追加された曲"@,
                line_break(),
                spec_join_lines(texts(latest_track_urls@)),
                "### 次の人"@,
                line_break(),
                spec_mention_line(next_user_id@),
            ]);
        }
        join_lines(&lines)
    }

    /// The request body for a serialisation that has been attempted: the
    /// text where it succeeded, `RunError::Encoding` where it did not.
    pub fn body_from_serialized(serialized: Result<String, serde_json::Error>) -> (body: Result<
        String,
        RunError,
    >)
        ensures
            match serialized {
                Ok(text) => body == Ok::<String, RunError>(text),
                Err(_) => body == Err::<String, RunError>(RunError::Encoding),
            },
    {
        match serialized {
            Ok(text) => Ok(text),
            Err(_) => Err(RunError::Encoding),
        }
    }

    /// The body of the request that posts `content`: a JSON object whose
    /// member `content` holds the text. There is one for every text.
    pub fn create_message_body(content: &str) -> (body: Result<String, RunError>)
        ensures
            body matches Ok(text) && text@ == json_object_text("content"@, content@),
    {
        Self::body_from_serialized(json_object_to_string("content", content))
    }
}

} // verus!
