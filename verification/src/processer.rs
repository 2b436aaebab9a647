//! The course of one run: load the stored state, fetch the playlist, work
//! out what is new, announce it, and write the new state back. The run
//! itself touches nothing outside: it names the next thing to do, and is
//! told what came of it.

use vstd::prelude::*;
use crate::discord::{spec_announcement, DiscordClient};
use crate::error::RunError;
use crate::spotify::{
    referents, track_urls, SpotifyPlaylistItem, SpotifyPlaylistResponse,
    SpotifyPlaylistTracksResponse,
};
use crate::text::texts;
use crate::user::UserMaster;

verus! {

/// The characters of a text that may be absent.
pub open spec fn opt_text(text: Option<String>) -> Option<Seq<char>> {
    match text {
        Some(t) => Some(t@),
        None => None,
    }
}

/// Where a run stands.
pub enum RunState {
    /// Waiting for the stored cursor, refresh token and roster.
    LoadState,
    /// Waiting for the playlist.
    FetchPlaylist { cursor: Option<String>, roster: UserMaster },
    /// Waiting for the announcement to be sent.
    Notify { latest_track_id: String, next_refresh_token: Option<String> },
    /// Waiting for the new cursor to be written.
    PersistCursor { next_refresh_token: Option<String> },
    /// Waiting for the new refresh token to be written.
    PersistCredential,
    /// The run has succeeded.
    Done,
    /// The run has been given up.
    Failed { error: RunError },
}

/// What a run is told.
pub enum RunEvent {
    /// The state store was read.
    StateLoaded { cursor: Option<String>, refresh_token: Option<String>, roster: UserMaster },
    /// The playlist was fetched; `next_refresh_token` is the refresh token
    /// that the music service issued in passing, if it issued one.
    PlaylistFetched {
        playlist: SpotifyPlaylistResponse,
        tracks: SpotifyPlaylistTracksResponse,
        next_refresh_token: Option<String>,
    },
    /// The announcement was sent.
    MessageSent,
    /// The cursor was written.
    CursorWritten,
    /// The refresh token was written.
    CredentialWritten,
    /// The last thing asked for could not be done.
    CallFailed,
}

/// What a run asks for next.
pub enum RunAction {
    /// Read the cursor, the refresh token and the roster from the state store.
    ReadState,
    /// Fetch the playlist and all of its tracks, authorised by `refresh_token`.
    FetchPlaylist { refresh_token: String },
    /// Post `content` to the chat channel.
    SendMessage { content: String },
    /// Write `track_id` to the state store as the new cursor.
    WriteCursor { track_id: String },
    /// Write `refresh_token` to the state store as the new refresh token.
    WriteCredential { refresh_token: String },
    /// Report success.
    Finish,
    /// Report `error`.
    Abort { error: RunError },
}

/// A state with its texts as sequences of characters.
pub enum RunStateView {
    LoadState,
    FetchPlaylist { cursor: Option<Seq<char>>, roster: UserMaster },
    Notify { latest_track_id: Seq<char>, next_refresh_token: Option<Seq<char>> },
    PersistCursor { next_refresh_token: Option<Seq<char>> },
    PersistCredential,
    Done,
    Failed { error: RunError },
}

/// An action with its texts as sequences of characters.
pub enum RunActionView {
    ReadState,
    FetchPlaylist { refresh_token: Seq<char> },
    SendMessage { content: Seq<char> },
    WriteCursor { track_id: Seq<char> },
    WriteCredential { refresh_token: Seq<char> },
    Finish,
    Abort { error: RunError },
}

impl View for RunState {
    type V = RunStateView;

    open spec fn view(&self) -> RunStateView {
        match *self {
            RunState::LoadState => RunStateView::LoadState,
            RunState::FetchPlaylist { cursor, roster } => RunStateView::FetchPlaylist {
                cursor: opt_text(cursor),
                roster,
            },
            RunState::Notify { latest_track_id, next_refresh_token } => RunStateView::Notify {
                latest_track_id: latest_track_id@,
                next_refresh_token: opt_text(next_refresh_token),
            },
            RunState::PersistCursor { next_refresh_token } => RunStateView::PersistCursor {
                next_refresh_token: opt_text(next_refresh_token),
            },
            RunState::PersistCredential => RunStateView::PersistCredential,
            RunState::Done => RunStateView::Done,
            RunState::Failed { error } => RunStateView::Failed { error },
        }
    }
}

impl View for RunAction {
    type V = RunActionView;

    open spec fn view(&self) -> RunActionView {
        match *self {
            RunAction::ReadState => RunActionView::ReadState,
            RunAction::FetchPlaylist { refresh_token } => RunActionView::FetchPlaylist {
                refresh_token: refresh_token@,
            },
            RunAction::SendMessage { content } => RunActionView::SendMessage { content: content@ },
            RunAction::WriteCursor { track_id } => RunActionView::WriteCursor {
                track_id: track_id@,
            },
            RunAction::WriteCredential { refresh_token } => RunActionView::WriteCredential {
                refresh_token: refresh_token@,
            },
            RunAction::Finish => RunActionView::Finish,
            RunAction::Abort { error } => RunActionView::Abort { error },
        }
    }
}

/// What is to be announced: nothing where no track is pending, else the
/// announcement addressed to the member who follows whoever added
/// `last_track`, and `RunError::NoNextUser` where the roster has no such
/// member.
pub open spec fn spec_notify(
    playlist: SpotifyPlaylistResponse,
    last_track: SpotifyPlaylistItem,
    target_tracks: Seq<SpotifyPlaylistItem>,
    roster: UserMaster,
) -> Result<Option<Seq<char>>, RunError> {
    if target_tracks.len() == 0 {
        Ok(None)
    } else {
        match roster.spec_next_user(last_track.added_by.id@) {
            None => Err(RunError::NoNextUser),
            Some(next_user) => Ok(
                Some(
                    spec_announcement(
                        playlist.name@,
                        playlist.external_urls.spotify@,
                        track_urls(target_tracks),
                        next_user.discord_user_id@,
                    ),
                ),
            ),
        }
    }
}

/// The cursor that a run works with: the stored one, or, on a first run
/// that finds none, the newest track, so that nothing older is announced.
pub open spec fn spec_effective_cursor(
    cursor: Option<Seq<char>>,
    latest: SpotifyPlaylistItem,
) -> Seq<char> {
    match cursor {
        Some(c) => c,
        None => latest.track.id@,
    }
}

/// What follows once the playlist is there. An empty playlist ends the run.
/// With nothing pending the run goes on to write the cursor at once; else it
/// sends the announcement first. The cursor to write is the newest track.
pub open spec fn spec_after_fetch(
    cursor: Option<Seq<char>>,
    roster: UserMaster,
    playlist: SpotifyPlaylistResponse,
    tracks: SpotifyPlaylistTracksResponse,
    next_refresh_token: Option<Seq<char>>,
) -> (RunStateView, RunActionView) {
    match tracks.spec_latest_track() {
        None => (
            RunStateView::Failed { error: RunError::NoLastTrack },
            RunActionView::Abort { error: RunError::NoLastTrack },
        ),
        Some(latest) => {
            let pending = tracks.spec_not_notified_tracks(spec_effective_cursor(cursor, latest));
            match spec_notify(playlist, latest, pending, roster) {
                Err(error) => (RunStateView::Failed { error }, RunActionView::Abort { error }),
                Ok(None) => (
                    RunStateView::PersistCursor { next_refresh_token },
                    RunActionView::WriteCursor { track_id: latest.track.id@ },
                ),
                Ok(Some(content)) => (
                    RunStateView::Notify { latest_track_id: latest.track.id@, next_refresh_token },
                    RunActionView::SendMessage { content },
                ),
            }
        },
    }
}

/// The state that follows `pre` on `event`, and what is asked for next.
/// A failed call ends the run, and so does an event that the state was not
/// waiting for. A run that has ended stays as it is.
pub open spec fn spec_execute(pre: RunStateView, event: RunEvent) -> (RunStateView, RunActionView) {
    match pre {
        RunStateView::Done => (RunStateView::Done, RunActionView::Finish),
        RunStateView::Failed { error } => (
            RunStateView::Failed { error },
            RunActionView::Abort { error },
        ),
        _ => match (pre, event) {
            (_, RunEvent::CallFailed) => (
                RunStateView::Failed { error: RunError::CallFailed },
                RunActionView::Abort { error: RunError::CallFailed },
            ),
            (RunStateView::LoadState, RunEvent::StateLoaded { cursor, refresh_token, roster }) => {
                match refresh_token {
                    None => (
                        RunStateView::Failed { error: RunError::NoRefreshToken },
                        RunActionView::Abort { error: RunError::NoRefreshToken },
                    ),
                    Some(token) => (
                        RunStateView::FetchPlaylist { cursor: opt_text(cursor), roster },
                        RunActionView::FetchPlaylist { refresh_token: token@ },
                    ),
                }
            },
            (
                RunStateView::FetchPlaylist { cursor, roster },
                RunEvent::PlaylistFetched { playlist, tracks, next_refresh_token },
            ) => spec_after_fetch(cursor, roster, playlist, tracks, opt_text(next_refresh_token)),
            (
                RunStateView::Notify { latest_track_id, next_refresh_token },
                RunEvent::MessageSent,
            ) => (
                RunStateView::PersistCursor { next_refresh_token },
                RunActionView::WriteCursor { track_id: latest_track_id },
            ),
            (RunStateView::PersistCursor { next_refresh_token }, RunEvent::CursorWritten) => {
                match next_refresh_token {
                    Some(token) => (
                        RunStateView::PersistCredential,
                        RunActionView::WriteCredential { refresh_token: token },
                    ),
                    None => (RunStateView::Done, RunActionView::Finish),
                }
            },
            (RunStateView::PersistCredential, RunEvent::CredentialWritten) => (
                RunStateView::Done,
                RunActionView::Finish,
            ),
            _ => (
                RunStateView::Failed { error: RunError::UnexpectedEvent },
                RunActionView::Abort { error: RunError::UnexpectedEvent },
            ),
        },
    }
}

/// The text of an announcement that may be absent.
pub open spec fn notify_view(outcome: Result<Option<String>, RunError>) -> Result<
    Option<Seq<char>>,
    RunError,
> {
    match outcome {
        Ok(content) => Ok(opt_text(content)),
        Err(error) => Err(error),
    }
}

/// The state and the action of a run that is given up with `error`.
fn give_up(error: RunError) -> (next: (RunState, RunAction))
    ensures
        next.0@ == (RunStateView::Failed { error }),
        next.1@ == (RunActionView::Abort { error }),
{
    (RunState::Failed { error }, RunAction::Abort { error })
}

/// The public address of each of the tracks.
fn urls_of<'a>(tracks: &Vec<&'a SpotifyPlaylistItem>) -> (urls: Vec<&'a str>)
    ensures
        texts(urls@) == track_urls(referents(tracks@)),
{
    let n: usize = tracks.len();
    let mut urls: Vec<&'a str> = Vec::new();
    let mut k: usize = 0;
    while k < n
        invariant
            n == tracks@.len(),
            k <= n,
            urls@.len() == k,
            forall|m: int| 0 <= m < k ==> urls@[m]@ == tracks@[m].track.external_urls.spotify@,
        decreases n - k,
    {
        let track: &'a SpotifyPlaylistItem = tracks[k];
        urls.push(track.track.external_urls.spotify.as_str());
        k = k + 1;
    }
    assert(texts(urls@) =~= track_urls(referents(tracks@)));
    urls
}

/// Decides what is announced for the pending tracks `target_tracks`, the
/// newest track of the playlist being `last_track`: nothing where none is
/// pending; else the announcement for the member whose turn follows that of
/// whoever added `last_track`.
pub fn notify(
    playlist: &SpotifyPlaylistResponse,
    last_track: &SpotifyPlaylistItem,
    target_tracks: &Vec<&SpotifyPlaylistItem>,
    user_master: &UserMaster,
) -> (outcome: Result<Option<String>, RunError>)
    ensures
        notify_view(outcome) == spec_notify(
            *playlist,
            *last_track,
            referents(target_tracks@),
            *user_master,
        ),
{
    if target_tracks.len() == 0 {
        return Ok(None);
    }
    match user_master.get_next_user_by_spotify_id(last_track.added_by.id.as_str()) {
        None => Err(RunError::NoNextUser),
        Some(next_user) => {
            let urls = urls_of(target_tracks);
            let content = DiscordClient::latest_tracks_and_next_user_message(
                playlist.name.as_str(),
                playlist.external_urls.spotify.as_str(),
                &urls,
                next_user.discord_user_id.as_str(),
            );
            Ok(Some(content))
        },
    }
}

/// Decides how a run goes on once the playlist is there.
fn after_fetch(
    cursor: Option<String>,
    roster: UserMaster,
    playlist: SpotifyPlaylistResponse,
    tracks: SpotifyPlaylistTracksResponse,
    next_refresh_token: Option<String>,
) -> (next: (RunState, RunAction))
    ensures
        (next.0@, next.1@) == spec_after_fetch(
            opt_text(cursor),
            roster,
            playlist,
            tracks,
            opt_text(next_refresh_token),
        ),
{
    let last_track = match tracks.get_latest_track() {
        None => {
            return give_up(RunError::NoLastTrack);
        },
        Some(last_track) => last_track,
    };
    let target_tracks = match &cursor {
        Some(last_notified_track_id) => tracks.get_not_notified_tracks(
            last_notified_track_id.as_str(),
        ),
        None => tracks.get_not_notified_tracks(last_track.track.id.as_str()),
    };
    match notify(&playlist, last_track, &target_tracks, &roster) {
        Err(error) => give_up(error),
        Ok(None) => (
            RunState::PersistCursor { next_refresh_token },
            RunAction::WriteCursor { track_id: last_track.track.id.clone() },
        ),
        Ok(Some(content)) => (
            RunState::Notify { latest_track_id: last_track.track.id.clone(), next_refresh_token },
            RunAction::SendMessage { content },
        ),
    }
}

impl RunState {
    /// A run at its start, and the first thing it asks for.
    pub fn init() -> (start: (RunState, RunAction))
        ensures
            start.0@ == RunStateView::LoadState,
            start.1@ == RunActionView::ReadState,
    {
        (RunState::LoadState, RunAction::ReadState)
    }

    /// The run has ended, in success or not.
    pub open spec fn spec_is_over(self) -> bool {
        self is Done || self is Failed
    }

    /// The run has ended, in success or not.
    pub fn is_over(&self) -> (over: bool)
        ensures
            over == self.spec_is_over(),
    {
        match self {
            RunState::Done => true,
            RunState::Failed { .. } => true,
            _ => false,
        }
    }

    /// Takes the run one step on: from the state it is in and what it is
    /// told, to the state that follows and what it asks for next.
    pub fn execute(self, event: RunEvent) -> (next: (RunState, RunAction))
        ensures
            (next.0@, next.1@) == spec_execute(self@, event),
    {
        match self {
            RunState::Done => (RunState::Done, RunAction::Finish),
            RunState::Failed { error } => give_up(error),
            RunState::LoadState => match event {
                RunEvent::CallFailed => give_up(RunError::CallFailed),
                RunEvent::StateLoaded { cursor, refresh_token, roster } => match refresh_token {
                    None => give_up(RunError::NoRefreshToken),
                    Some(token) => (
                        RunState::FetchPlaylist { cursor, roster },
                        RunAction::FetchPlaylist { refresh_token: token },
                    ),
                },
                _ => give_up(RunError::UnexpectedEvent),
            },
            RunState::FetchPlaylist { cursor, roster } => match event {
                RunEvent::CallFailed => give_up(RunError::CallFailed),
                RunEvent::PlaylistFetched { playlist, tracks, next_refresh_token } => after_fetch(
                    cursor,
                    roster,
                    playlist,
                    tracks,
                    next_refresh_token,
                ),
                _ => give_up(RunError::UnexpectedEvent),
            },
            RunState::Notify { latest_track_id, next_refresh_token } => match event {
                RunEvent::CallFailed => give_up(RunError::CallFailed),
                RunEvent::MessageSent => (
                    RunState::PersistCursor { next_refresh_token },
                    RunAction::WriteCursor { track_id: latest_track_id },
                ),
                _ => give_up(RunError::UnexpectedEvent),
            },
            RunState::PersistCursor { next_refresh_token } => match event {
                RunEvent::CallFailed => give_up(RunError::CallFailed),
                RunEvent::CursorWritten => match next_refresh_token {
                    Some(token) => (
                        RunState::PersistCredential,
                        RunAction::WriteCredential { refresh_token: token },
                    ),
                    None => (RunState::Done, RunAction::Finish),
                },
                _ => give_up(RunError::UnexpectedEvent),
            },
            RunState::PersistCredential => match event {
                RunEvent::CallFailed => give_up(RunError::CallFailed),
                RunEvent::CredentialWritten => (RunState::Done, RunAction::Finish),
                _ => give_up(RunError::UnexpectedEvent),
            },
        }
    }
}

/// A first run, which finds no cursor stored, announces nothing: it goes
/// straight on to store the newest track as the cursor.
pub proof fn lemma_first_run_announces_nothing(
    roster: UserMaster,
    playlist: SpotifyPlaylistResponse,
    tracks: SpotifyPlaylistTracksResponse,
    next_refresh_token: Option<Seq<char>>,
)
    requires
        tracks.spec_latest_track() is Some,
    ensures
        spec_after_fetch(None, roster, playlist, tracks, next_refresh_token) == (
            RunStateView::PersistCursor { next_refresh_token },
            RunActionView::WriteCursor { track_id: tracks.spec_latest_track()->0.track.id@ },
        ),
{
    tracks.lemma_nothing_pending_at_latest();
}

/// Whether or not an announcement goes out, the cursor that a run writes is
/// the newest track of the playlist it fetched. With the playlist there, a
/// run either writes that cursor at once, or sends the announcement and
/// writes that cursor once it is sent, or ends because whoever added the
/// newest track is not on the roster.
pub proof fn lemma_cursor_written_is_latest_track(
    cursor: Option<Seq<char>>,
    roster: UserMaster,
    playlist: SpotifyPlaylistResponse,
    tracks: SpotifyPlaylistTracksResponse,
    next_refresh_token: Option<Seq<char>>,
)
    requires
        tracks.spec_latest_track() is Some,
    ensures
        ({
            let next = spec_after_fetch(cursor, roster, playlist, tracks, next_refresh_token);
            let write = (
                RunStateView::PersistCursor { next_refresh_token },
                RunActionView::WriteCursor { track_id: tracks.spec_latest_track()->0.track.id@ },
            );
            let give_up = (
                RunStateView::Failed { error: RunError::NoNextUser },
                RunActionView::Abort { error: RunError::NoNextUser },
            );
            ||| next == write
            ||| next.0 is Notify && next.1 is SendMessage && spec_execute(
                next.0,
                RunEvent::MessageSent,
            ) == write
            ||| next == give_up
        }),
{
}

/// A call that fails ends the run, wherever the run stands: nothing is
/// written after it, and nothing is tried again.
pub proof fn lemma_failed_call_ends_the_run(pre: RunStateView)
    requires
        !(pre is Done),
        !(pre is Failed),
    ensures
        spec_execute(pre, RunEvent::CallFailed) == (
            RunStateView::Failed { error: RunError::CallFailed },
            RunActionView::Abort { error: RunError::CallFailed },
        ),
{
}

/// A run that has ended asks for nothing more, whatever it is told.
pub proof fn lemma_ended_run_stays_ended(pre: RunStateView, event: RunEvent)
    requires
        pre is Done || pre is Failed,
    ensures
        spec_execute(pre, event).0 == pre,
        pre is Done ==> spec_execute(pre, event).1 is Finish,
        pre is Failed ==> spec_execute(pre, event).1 is Abort,
{
}

} // verus!
