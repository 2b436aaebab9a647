//! The playlist as the music service reports it, and the tracks of it that
//! have not been announced yet.

use vstd::prelude::*;
use vstd::string::StringExecFns;

verus! {

/// What the token endpoint answers to a refresh.
#[derive(Debug)]
pub struct SpotifyTokenResponse {
    pub access_token: String,
    pub token_type: String,
    pub expires_in: i64,
    pub scope: String,
    pub refresh_token: Option<String>,
}

#[derive(Debug)]
pub struct SpotifyUser {
    pub id: String,
}

#[derive(Debug)]
pub struct SpotifyExternalUrls {
    pub spotify: String,
}

#[derive(Debug)]
pub struct SpotifyTrack {
    pub id: String,
    pub name: String,
    pub external_urls: SpotifyExternalUrls,
}

/// One entry of a playlist: a track and who added it.
#[derive(Debug)]
pub struct SpotifyPlaylistItem {
    pub added_at: String,
    pub added_by: SpotifyUser,
    pub track: SpotifyTrack,
}

/// A playlist's entries, oldest first, and the address of the page that
/// follows, if any.
#[derive(Debug)]
pub struct SpotifyPlaylistTracksResponse {
    pub next: Option<String>,
    pub items: Vec<SpotifyPlaylistItem>,
}

/// What the music service tells about the playlist itself.
#[derive(Debug)]
pub struct SpotifyPlaylistResponse {
    pub name: String,
    pub external_urls: SpotifyExternalUrls,
}

/// The public address of each entry's track.
pub open spec fn track_urls(items: Seq<SpotifyPlaylistItem>) -> Seq<Seq<char>> {
    Seq::new(items.len(), |k: int| items[k].track.external_urls.spotify@)
}

/// The entries that a list of references points to.
pub open spec fn referents(refs: Seq<&SpotifyPlaylistItem>) -> Seq<SpotifyPlaylistItem> {
    Seq::new(refs.len(), |k: int| *refs[k])
}

impl SpotifyPlaylistTracksResponse {
    /// Some entry's track carries the identifier `id`.
    pub open spec fn has_track(self, id: Seq<char>) -> bool {
        exists|i: int| 0 <= i < self.items@.len() && self.items@[i].track.id@ == id
    }

    /// `i` is the last position whose track carries the identifier `id`.
    pub open spec fn is_last_position(self, id: Seq<char>, i: int) -> bool {
        &&& 0 <= i < self.items@.len()
        &&& self.items@[i].track.id@ == id
        &&& forall|j: int| i < j < self.items@.len() ==> self.items@[j].track.id@ != id
    }

    /// The last position whose track carries the identifier `id`.
    pub open spec fn last_position(self, id: Seq<char>) -> int {
        choose|i: int| self.is_last_position(id, i)
    }

    /// No two entries share a track identifier.
    pub open spec fn distinct_ids(self) -> bool {
        forall|i: int, j: int|
            0 <= i < j < self.items@.len() ==> self.items@[i].track.id@
                != self.items@[j].track.id@
    }

    /// The newest entry, if the playlist has one.
    pub open spec fn spec_latest_track(self) -> Option<SpotifyPlaylistItem> {
        if self.items@.len() > 0 {
            Some(self.items@.last())
        } else {
            None
        }
    }

    /// The entries still to be announced when `cursor` identifies the track
    /// announced last: everything after that track. A cursor that no track
    /// carries leaves only the newest entry to announce, so that a stale
    /// cursor never brings the whole backlog up again.
    pub open spec fn spec_not_notified_tracks(self, cursor: Seq<char>) -> Seq<SpotifyPlaylistItem> {
        if self.has_track(cursor) {
            self.items@.subrange(self.last_position(cursor) + 1, self.items@.len() as int)
        } else if self.items@.len() > 0 {
            seq![self.items@.last()]
        } else {
            Seq::empty()
        }
    }

    /// From any position whose track carries `id` on there is a last such
    /// position.
    proof fn lemma_last_position_from(self, id: Seq<char>, i: int)
        requires
            0 <= i < self.items@.len(),
            self.items@[i].track.id@ == id,
        ensures
            exists|k: int| self.is_last_position(id, k),
        decreases self.items@.len() - i,
    {
        if forall|j: int| i < j < self.items@.len() ==> self.items@[j].track.id@ != id {
            assert(self.is_last_position(id, i));
        } else {
            let j = choose|j: int| i < j < self.items@.len() && self.items@[j].track.id@ == id;
            self.lemma_last_position_from(id, j);
        }
    }

    /// Where some track carries `id`, `last_position` names the last
    /// position whose track does.
    pub proof fn lemma_last_position_exists(self, id: Seq<char>)
        requires
            self.has_track(id),
        ensures
            self.is_last_position(id, self.last_position(id)),
    {
        let i = choose|i: int| 0 <= i < self.items@.len() && self.items@[i].track.id@ == id;
        self.lemma_last_position_from(id, i);
    }

    /// A position that is last for `id` is the one `last_position` names.
    pub proof fn lemma_last_position_unique(self, id: Seq<char>, i: int)
        requires
            self.is_last_position(id, i),
        ensures
            self.has_track(id),
            self.last_position(id) == i,
    {
        self.lemma_last_position_exists(id);
        let k = self.last_position(id);
        if k < i {
            assert(self.items@[i].track.id@ != id);
        }
        if i < k {
            assert(self.items@[k].track.id@ != id);
        }
    }

    /// With the cursor on the `k`-th entry from the end, and on no later one,
    /// the entries still to be announced are exactly the last `k - 1`, in
    /// playlist order.
    pub proof fn lemma_not_notified_is_suffix_after_cursor(self, cursor: Seq<char>, k: int)
        requires
            1 <= k <= self.items@.len(),
            self.items@[self.items@.len() - k].track.id@ == cursor,
            forall|j: int|
                self.items@.len() - k < j < self.items@.len() ==> self.items@[j].track.id@
                    != cursor,
        ensures
            self.spec_not_notified_tracks(cursor) == self.items@.subrange(
                self.items@.len() - k + 1,
                self.items@.len() as int,
            ),
            self.spec_not_notified_tracks(cursor).len() == k - 1,
    {
        self.lemma_last_position_unique(cursor, self.items@.len() - k);
    }

    /// In a playlist whose tracks all carry different identifiers, the
    /// cursor on the `k`-th entry from the end leaves exactly the last
    /// `k - 1` entries to announce.
    pub proof fn lemma_not_notified_in_distinct_playlist(self, k: int)
        requires
            self.distinct_ids(),
            1 <= k <= self.items@.len(),
        ensures
            self.spec_not_notified_tracks(self.items@[self.items@.len() - k].track.id@)
                == self.items@.subrange(self.items@.len() - k + 1, self.items@.len() as int),
    {
        self.lemma_not_notified_is_suffix_after_cursor(
            self.items@[self.items@.len() - k].track.id@,
            k,
        );
    }

    /// Once the cursor has moved to the newest entry, nothing is left to
    /// announce.
    pub proof fn lemma_nothing_pending_at_latest(self)
        requires
            self.spec_latest_track() is Some,
        ensures
            self.spec_not_notified_tracks(self.spec_latest_track()->0.track.id@)
                == Seq::<SpotifyPlaylistItem>::empty(),
    {
        let n = self.items@.len() as int;
        let cursor = self.items@.last().track.id@;
        self.lemma_last_position_unique(cursor, n - 1);
        assert(self.items@.subrange(n, n) =~= Seq::<SpotifyPlaylistItem>::empty());
    }

    /// A playlist with no entry yet and no page to follow: where the
    /// collection of a playlist's pages starts.
    pub fn new() -> (playlist: SpotifyPlaylistTracksResponse)
        ensures
            playlist.items@ == Seq::<SpotifyPlaylistItem>::empty(),
            playlist.next is None,
    {
        SpotifyPlaylistTracksResponse { next: None, items: Vec::new() }
    }

    /// Adds the entries of the page that was fetched last behind those
    /// collected so far, and takes over the page's pointer to the page that
    /// follows it. The collection is complete once that pointer is absent.
    pub fn absorb_page(&mut self, page: SpotifyPlaylistTracksResponse)
        ensures
            final(self).items@ == old(self).items@ + page.items@,
            final(self).next == page.next,
    {
        let mut page = page;
        self.items.append(&mut page.items);
        self.next = page.next;
    }

    /// The entry added most recently.
    pub fn get_latest_track(&self) -> (latest: Option<&SpotifyPlaylistItem>)
        ensures
            latest is Some <==> self.spec_latest_track() is Some,
            latest is Some ==> *latest->0 == self.spec_latest_track()->0,
    {
        let n: usize = self.items.len();
        if n == 0 {
            None
        } else {
            Some(&self.items[n - 1])
        }
    }

    /// The entries `from..` of the playlist, by reference.
    fn tail_from(&self, from: usize) -> (tail: Vec<&SpotifyPlaylistItem>)
        requires
            from <= self.items@.len(),
        ensures
            referents(tail@) == self.items@.subrange(from as int, self.items@.len() as int),
    {
        let n: usize = self.items.len();
        let mut tail: Vec<&SpotifyPlaylistItem> = Vec::new();
        let mut k: usize = from;
        while k < n
            invariant
                n == self.items@.len(),
                from <= k <= n,
                tail@.len() == k - from,
                forall|m: int| 0 <= m < tail@.len() ==> *tail@[m] == self.items@[from + m],
            decreases n - k,
        {
            tail.push(&self.items[k]);
            k = k + 1;
        }
        assert(referents(tail@) =~= self.items@.subrange(from as int, n as int));
        tail
    }

    /// The entries added after the track that `last_notified_track_id`
    /// identifies, oldest first. Where no track carries that identifier, the
    /// newest entry alone.
    pub fn get_not_notified_tracks(&self, last_notified_track_id: &str) -> (pending: Vec<
        &SpotifyPlaylistItem,
    >)
        ensures
            referents(pending@) == self.spec_not_notified_tracks(last_notified_track_id@),
    {
        let cursor: String = last_notified_track_id.to_owned();
        let n: usize = self.items.len();
        let mut i: usize = n;
        while i > 0
            invariant
                n == self.items@.len(),
                i <= n,
                cursor@ == last_notified_track_id@,
                forall|j: int| i <= j < n ==> self.items@[j].track.id@ != last_notified_track_id@,
            decreases i,
        {
            if self.items[i - 1].track.id == cursor {
                proof {
                    self.lemma_last_position_unique(last_notified_track_id@, i - 1);
                }
                return self.tail_from(i);
            }
            i = i - 1;
        }
        if n > 0 {
            let pending = self.tail_from(n - 1);
            assert(self.items@.subrange(n - 1, n as int) =~= seq![self.items@.last()]);
            pending
        } else {
            let pending = self.tail_from(0);
            assert(self.items@.subrange(0, 0) =~= Seq::<SpotifyPlaylistItem>::empty());
            pending
        }
    }
}

/// The credentials in use for the music service.
pub struct SpotifyClient {
    pub token_response: SpotifyTokenResponse,
}

impl SpotifyClient {
    /// The address from which the playlist's own description is fetched.
    pub fn playlist_url(playlist_id: &str) -> (url: String)
        ensures
            url@ == "https://api.spotify.com/v1/playlists/"@ + playlist_id@,
    {
        String::from_str("https://api.spotify.com/v1/playlists/").concat(playlist_id)
    }

    /// The address from which a page of the playlist's tracks is fetched:
    /// `url`, where the page before pointed to one, else the address of the
    /// playlist's first page.
    pub fn playlist_tracks_url(playlist_id: &str, url: Option<String>) -> (address: String)
        ensures
            address@ == match url {
                Some(next) => next@,
                None => "https://api.spotify.com/v1/playlists/"@ + playlist_id@ + "/tracks"@,
            },
    {
        match url {
            Some(next) => next,
            None => String::from_str("https://api.spotify.com/v1/playlists/").concat(
                playlist_id,
            ).concat("/tracks"),
        }
    }

    /// The token that authorises requests to the music service.
    pub fn get_access_token(&self) -> (token: &str)
        ensures
            token@ == self.token_response.access_token@,
    {
        self.token_response.access_token.as_str()
    }

    /// The refresh token that replaces the stored one, where the service
    /// issued a new one with the last refresh.
    pub fn get_next_spotify_refresh_token(&self) -> (token: &Option<String>)
        ensures
            *token == self.token_response.refresh_token,
    {
        &self.token_response.refresh_token
    }
}

} // verus!
