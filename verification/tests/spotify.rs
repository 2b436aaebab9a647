use spotify_playlist_notification::spotify::{
    SpotifyClient, SpotifyExternalUrls, SpotifyPlaylistItem, SpotifyPlaylistTracksResponse,
    SpotifyTokenResponse, SpotifyTrack, SpotifyUser,
};

fn entry(track_id: &str, added_by: &str) -> SpotifyPlaylistItem {
    SpotifyPlaylistItem {
        added_at: "2023-01-01T00:00:00Z".to_string(),
        added_by: SpotifyUser { id: added_by.to_string() },
        track: SpotifyTrack {
            id: track_id.to_string(),
            name: format!("Track {track_id}"),
            external_urls: SpotifyExternalUrls {
                spotify: format!("https://open.spotify.com/track/{track_id}"),
            },
        },
    }
}

fn playlist_of(track_ids: &[&str]) -> SpotifyPlaylistTracksResponse {
    SpotifyPlaylistTracksResponse {
        next: None,
        items: track_ids.iter().map(|id| entry(id, "someone")).collect(),
    }
}

fn ids(tracks: &[&SpotifyPlaylistItem]) -> Vec<String> {
    tracks.iter().map(|t| t.track.id.clone()).collect()
}

fn client(refresh_token: Option<&str>) -> SpotifyClient {
    SpotifyClient {
        token_response: SpotifyTokenResponse {
            access_token: "access".to_string(),
            token_type: "Bearer".to_string(),
            expires_in: 3600,
            scope: "playlist-read-private".to_string(),
            refresh_token: refresh_token.map(|t| t.to_string()),
        },
    }
}

#[test]
fn latest_track_is_the_last_entry() {
    let playlist = playlist_of(&["t1", "t2", "t3"]);
    assert_eq!(playlist.get_latest_track().unwrap().track.id, "t3");
}

#[test]
fn latest_track_of_an_empty_playlist_is_none() {
    let playlist = playlist_of(&[]);
    assert!(playlist.get_latest_track().is_none());
}

#[test]
fn not_notified_tracks_follow_the_cursor() {
    let playlist = playlist_of(&["t1", "t2", "t3"]);
    assert_eq!(ids(&playlist.get_not_notified_tracks("t1")), vec!["t2", "t3"]);
    assert_eq!(ids(&playlist.get_not_notified_tracks("t2")), vec!["t3"]);
}

#[test]
fn not_notified_tracks_are_none_at_the_newest_track() {
    let playlist = playlist_of(&["t1", "t2", "t3"]);
    assert!(playlist.get_not_notified_tracks("t3").is_empty());
}

#[test]
fn not_notified_tracks_of_an_unknown_cursor_are_the_newest_alone() {
    let playlist = playlist_of(&["t1", "t2", "t3"]);
    assert_eq!(ids(&playlist.get_not_notified_tracks("unknown")), vec!["t3"]);
}

#[test]
fn not_notified_tracks_of_an_empty_playlist_are_none() {
    let playlist = playlist_of(&[]);
    assert!(playlist.get_not_notified_tracks("t1").is_empty());
    assert!(playlist.get_not_notified_tracks("").is_empty());
}

#[test]
fn not_notified_tracks_count_from_the_end() {
    let all = ["a", "b", "c", "d", "e"];
    let playlist = playlist_of(&all);
    for k in 1..=all.len() {
        let cursor = all[all.len() - k];
        let pending = playlist.get_not_notified_tracks(cursor);
        assert_eq!(pending.len(), k - 1);
        assert_eq!(ids(&pending), all[all.len() - k + 1..].to_vec());
    }
}

#[test]
fn not_notified_tracks_go_by_the_last_entry_with_the_identifier() {
    let playlist = playlist_of(&["x", "a", "x", "b"]);
    assert_eq!(ids(&playlist.get_not_notified_tracks("x")), vec!["b"]);
}

#[test]
fn nothing_is_pending_once_the_cursor_is_the_latest_track() {
    for tracks in [vec!["t1"], vec!["t1", "t2"], vec!["t1", "t2", "t1"]] {
        let playlist = playlist_of(&tracks);
        let latest = playlist.get_latest_track().unwrap().track.id.clone();
        assert!(playlist.get_not_notified_tracks(&latest).is_empty());
    }
}

#[test]
fn single_track_with_unknown_cursor_is_pending() {
    let playlist = playlist_of(&["only"]);
    assert_eq!(ids(&playlist.get_not_notified_tracks("gone")), vec!["only"]);
}

#[test]
fn new_playlist_is_empty() {
    let playlist = SpotifyPlaylistTracksResponse::new();
    assert!(playlist.items.is_empty());
    assert!(playlist.next.is_none());
}

#[test]
fn absorb_page_appends_in_order_and_takes_the_pointer() {
    let mut all = SpotifyPlaylistTracksResponse::new();
    let mut first = playlist_of(&["t1", "t2"]);
    first.next = Some("https://api.spotify.com/v1/playlists/p/tracks?offset=2".to_string());
    all.absorb_page(first);
    assert_eq!(
        all.next.as_deref(),
        Some("https://api.spotify.com/v1/playlists/p/tracks?offset=2")
    );
    let ids_so_far: Vec<&str> = all.items.iter().map(|t| t.track.id.as_str()).collect();
    assert_eq!(ids_so_far, vec!["t1", "t2"]);
    all.absorb_page(playlist_of(&["t3"]));
    assert!(all.next.is_none());
    let ids_at_end: Vec<&str> = all.items.iter().map(|t| t.track.id.as_str()).collect();
    assert_eq!(ids_at_end, vec!["t1", "t2", "t3"]);
    assert_eq!(all.get_latest_track().unwrap().track.id, "t3");
}

#[test]
fn playlist_tracks_url_of_the_first_page() {
    assert_eq!(
        SpotifyClient::playlist_tracks_url("abc123", None),
        "https://api.spotify.com/v1/playlists/abc123/tracks"
    );
}

#[test]
fn playlist_tracks_url_follows_the_pointer() {
    assert_eq!(
        SpotifyClient::playlist_tracks_url("abc123", Some("https://next.example/page2".to_string())),
        "https://next.example/page2"
    );
}

#[test]
fn playlist_url_names_the_playlist() {
    assert_eq!(
        SpotifyClient::playlist_url("abc123"),
        "https://api.spotify.com/v1/playlists/abc123"
    );
}

#[test]
fn access_token_is_the_one_of_the_last_refresh() {
    assert_eq!(client(None).get_access_token(), "access");
}

#[test]
fn next_refresh_token_is_there_only_when_issued() {
    assert_eq!(client(None).get_next_spotify_refresh_token(), &None);
    assert_eq!(
        client(Some("rotated")).get_next_spotify_refresh_token(),
        &Some("rotated".to_string())
    );
}
