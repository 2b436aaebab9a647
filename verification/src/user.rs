//! The roster and the round-robin choice of the next member.

use vstd::prelude::*;
use crate::number::{parse_usize, spec_parse_usize};

verus! {

/// One participant of the rotation.
#[derive(Debug)]
pub struct User {
    pub name: String,
    pub spotify_user_id: String,
    pub discord_user_id: String,
    pub order: usize,
}

/// A member as the state store holds it: each attribute is there or not,
/// and the rank is written in decimal digits.
#[derive(Debug)]
pub struct UserRecord {
    pub name: Option<String>,
    pub spotify_user_id: Option<String>,
    pub discord_user_id: Option<String>,
    pub order: Option<String>,
}

/// The characters of a stored text; none where the text is absent.
pub open spec fn text_or_empty(text: Option<String>) -> Seq<char> {
    match text {
        Some(t) => t@,
        None => Seq::empty(),
    }
}

/// The rank that a stored text denotes; 0 where the text is absent or
/// denotes no number.
pub open spec fn order_or_zero(text: Option<String>) -> usize {
    match text {
        Some(t) => match spec_parse_usize(t@) {
            Some(order) => order,
            None => 0,
        },
        None => 0,
    }
}

/// The rank that each of the records denotes.
pub open spec fn record_orders(records: Seq<UserRecord>) -> Seq<usize> {
    Seq::new(records.len(), |k: int| order_or_zero(records[k].order))
}

/// A copy of a stored text; the empty text where it is absent.
fn text_of(text: &Option<String>) -> (copy: String)
    ensures
        copy@ == text_or_empty(*text),
{
    match text {
        Some(t) => t.clone(),
        None => String::new(),
    }
}

impl User {
    /// The member holds what `record` holds, with what is absent from the
    /// record left empty, and the rank 0 where the record denotes none.
    pub open spec fn is_from_record(self, record: UserRecord) -> bool {
        &&& self.name@ == text_or_empty(record.name)
        &&& self.spotify_user_id@ == text_or_empty(record.spotify_user_id)
        &&& self.discord_user_id@ == text_or_empty(record.discord_user_id)
        &&& self.order == order_or_zero(record.order)
    }

    /// The member that a record of the state store describes.
    pub fn from_record(record: &UserRecord) -> (user: User)
        ensures
            user.is_from_record(*record),
    {
        let order: usize = match &record.order {
            Some(t) => match parse_usize(t.as_str()) {
                Some(order) => order,
                None => 0,
            },
            None => 0,
        };
        User {
            name: text_of(&record.name),
            spotify_user_id: text_of(&record.spotify_user_id),
            discord_user_id: text_of(&record.discord_user_id),
            order,
        }
    }
}

/// The roster, in rotation order.
pub struct UserMaster {
    pub users: Vec<User>,
}

/// The rank of each member of a list.
pub open spec fn orders(users: Seq<User>) -> Seq<usize> {
    Seq::new(users.len(), |k: int| users[k].order)
}

/// `places` puts the positions `0..ranks.len()` in the order of a stable
/// sort by rank: `places[k]` is the position that comes `k`-th. Every
/// position comes once, ranks never fall, and positions of equal rank keep
/// their order.
pub open spec fn is_stable_order(places: Seq<int>, ranks: Seq<usize>) -> bool {
    &&& places.len() == ranks.len()
    &&& forall|k: int| 0 <= k < places.len() ==> 0 <= #[trigger] places[k] < ranks.len()
    &&& forall|i: int, j: int| 0 <= i < j < places.len() ==> places[i] != places[j]
    &&& forall|i: int, j: int|
        0 <= i < j < places.len() ==> ranks[places[i]] <= ranks[places[j]]
    &&& forall|i: int, j: int|
        0 <= i < j < places.len() && ranks[places[i]] == ranks[places[j]] ==> places[i]
            < places[j]
}

/// `sorted` holds the members of `given`, stably sorted by rank.
pub open spec fn is_sorted_by_order(sorted: Seq<User>, given: Seq<User>) -> bool {
    exists|places: Seq<int>|
        {
            &&& #[trigger] is_stable_order(places, orders(given))
            &&& sorted.len() == given.len()
            &&& forall|k: int| 0 <= k < sorted.len() ==> sorted[k] == given[places[k]]
        }
}

impl UserMaster {
    /// Some member carries the identifier `id`.
    pub open spec fn has_member(self, id: Seq<char>) -> bool {
        exists|i: int| 0 <= i < self.users@.len() && self.users@[i].spotify_user_id@ == id
    }

    /// `i` is the first position whose member carries the identifier `id`.
    pub open spec fn is_first_position(self, id: Seq<char>, i: int) -> bool {
        &&& 0 <= i < self.users@.len()
        &&& self.users@[i].spotify_user_id@ == id
        &&& forall|j: int| 0 <= j < i ==> self.users@[j].spotify_user_id@ != id
    }

    /// The first position whose member carries the identifier `id`.
    pub open spec fn first_position(self, id: Seq<char>) -> int {
        choose|i: int| self.is_first_position(id, i)
    }

    /// No two members share an identifier.
    pub open spec fn distinct_ids(self) -> bool {
        forall|i: int, j: int|
            0 <= i < j < self.users@.len() ==> self.users@[i].spotify_user_id@
                != self.users@[j].spotify_user_id@
    }

    /// The member after the one that carries `id`, going round at the end of
    /// the roster; nobody if no member carries `id`.
    pub open spec fn spec_next_user(self, id: Seq<char>) -> Option<User> {
        if self.has_member(id) {
            Some(self.users@[(self.first_position(id) + 1) % (self.users@.len() as int)])
        } else {
            None
        }
    }

    /// Before any position whose member carries `id` there is a first such
    /// position.
    proof fn lemma_first_position_before(self, id: Seq<char>, i: int)
        requires
            0 <= i < self.users@.len(),
            self.users@[i].spotify_user_id@ == id,
        ensures
            exists|k: int| self.is_first_position(id, k),
        decreases i,
    {
        if forall|j: int| 0 <= j < i ==> self.users@[j].spotify_user_id@ != id {
            assert(self.is_first_position(id, i));
        } else {
            let j = choose|j: int| 0 <= j < i && self.users@[j].spotify_user_id@ == id;
            self.lemma_first_position_before(id, j);
        }
    }

    /// Where some member carries `id`, `first_position` names the first
    /// position whose member does.
    pub proof fn lemma_first_position_exists(self, id: Seq<char>)
        requires
            self.has_member(id),
        ensures
            self.is_first_position(id, self.first_position(id)),
    {
        let i = choose|i: int| 0 <= i < self.users@.len() && self.users@[i].spotify_user_id@ == id;
        self.lemma_first_position_before(id, i);
    }

    /// A position that is first for `id` is the one `first_position` names.
    pub proof fn lemma_first_position_unique(self, id: Seq<char>, i: int)
        requires
            self.is_first_position(id, i),
        ensures
            self.has_member(id),
            self.first_position(id) == i,
    {
        self.lemma_first_position_exists(id);
        let k = self.first_position(id);
        if k < i {
            assert(self.users@[k].spotify_user_id@ != id);
        }
        if i < k {
            assert(self.users@[i].spotify_user_id@ != id);
        }
    }

    /// The rotation is cyclic: the successor of the member at position `i` is
    /// the member at position `(i + 1) mod len`, provided that no earlier
    /// member carries the same identifier.
    pub proof fn lemma_next_user_is_cyclic_successor(self, i: int)
        requires
            0 <= i < self.users@.len(),
            forall|j: int|
                0 <= j < i ==> self.users@[j].spotify_user_id@ != self.users@[i].spotify_user_id@,
        ensures
            self.spec_next_user(self.users@[i].spotify_user_id@) == Some(
                self.users@[(i + 1) % (self.users@.len() as int)],
            ),
    {
        self.lemma_first_position_unique(self.users@[i].spotify_user_id@, i);
    }

    /// In a roster whose members all carry different identifiers, every
    /// member's successor is the member one position on, and the last
    /// member's successor is the first.
    pub proof fn lemma_next_user_in_distinct_roster(self, i: int)
        requires
            self.distinct_ids(),
            0 <= i < self.users@.len(),
        ensures
            self.spec_next_user(self.users@[i].spotify_user_id@) == Some(
                self.users@[(i + 1) % (self.users@.len() as int)],
            ),
    {
        self.lemma_next_user_is_cyclic_successor(i);
    }

    /// An identifier that no member carries has no successor.
    pub proof fn lemma_next_user_of_stranger_is_none(self, id: Seq<char>)
        requires
            forall|i: int| 0 <= i < self.users@.len() ==> self.users@[i].spotify_user_id@ != id,
        ensures
            self.spec_next_user(id) is None,
    {
    }

    /// The roster of the members `users`, in the order of their ranks;
    /// members of equal rank stay in the order in which they were given.
    pub fn sorted_by_order(users: Vec<User>) -> (roster: UserMaster)
        ensures
            is_sorted_by_order(roster.users@, users@),
    {
        let ghost given = users@;
        let mut rest = users;
        let mut sorted: Vec<User> = Vec::new();
        let ghost mut places: Seq<int> = Seq::empty();
        while rest.len() > 0
            invariant
                rest@ == given.take(rest@.len() as int),
                rest@.len() <= given.len(),
                sorted@.len() == given.len() - rest@.len(),
                places.len() == sorted@.len(),
                forall|k: int|
                    0 <= k < places.len() ==> rest@.len() <= #[trigger] places[k] < given.len(),
                forall|k: int| 0 <= k < sorted@.len() ==> sorted@[k] == given[places[k]],
                forall|i: int, j: int| 0 <= i < j < places.len() ==> places[i] != places[j],
                forall|i: int, j: int|
                    0 <= i < j < sorted@.len() ==> sorted@[i].order <= sorted@[j].order,
                forall|i: int, j: int|
                    0 <= i < j < places.len() && sorted@[i].order == sorted@[j].order
                        ==> places[i] < places[j],
            decreases rest@.len(),
        {
            let ghost m = rest@.len() - 1;
            let user = rest.pop().unwrap();
            assert(user == given[m]);
            assert(rest@ =~= given.take(m));
            let n: usize = sorted.len();
            let mut at: usize = 0;
            while at < n && sorted[at].order < user.order
                invariant
                    n == sorted@.len(),
                    at <= n,
                    forall|k: int| 0 <= k < at ==> sorted@[k].order < user.order,
                decreases n - at,
            {
                at = at + 1;
            }
            let ghost before = sorted@;
            let ghost places_before = places;
            sorted.insert(at, user);
            proof {
                places = places_before.insert(at as int, m);
                before.insert_ensures(at as int, user);
                places_before.insert_ensures(at as int, m);
                assert forall|k: int| at < k < sorted@.len() implies sorted@[k] == before[k - 1]
                    && places[k] == places_before[k - 1] by {
                    assert(sorted@[(k - 1) + 1] == before[k - 1]);
                    assert(places[(k - 1) + 1] == places_before[k - 1]);
                }
            }
        }
        proof {
            assert(is_stable_order(places, orders(given)));
        }
        UserMaster { users: sorted }
    }

    /// The roster that the records of the state store describe: one member
    /// for each record, in the order of their ranks, records of equal rank in
    /// the order in which they were given.
    pub fn from_records(records: &Vec<UserRecord>) -> (roster: UserMaster)
        ensures
            roster.users@.len() == records@.len(),
            exists|places: Seq<int>|
                {
                    &&& #[trigger] is_stable_order(places, record_orders(records@))
                    &&& forall|k: int|
                        0 <= k < roster.users@.len() ==> roster.users@[k].is_from_record(
                            records@[places[k]],
                        )
                },
    {
        let n: usize = records.len();
        let mut users: Vec<User> = Vec::new();
        let mut i: usize = 0;
        while i < n
            invariant
                n == records@.len(),
                i <= n,
                users@.len() == i,
                forall|k: int| 0 <= k < i ==> users@[k].is_from_record(records@[k]),
            decreases n - i,
        {
            users.push(User::from_record(&records[i]));
            i = i + 1;
        }
        let ghost given = users@;
        let roster = UserMaster::sorted_by_order(users);
        proof {
            let places = choose|places: Seq<int>|
                {
                    &&& #[trigger] is_stable_order(places, orders(given))
                    &&& roster.users@.len() == given.len()
                    &&& forall|k: int|
                        0 <= k < roster.users@.len() ==> roster.users@[k] == given[places[k]]
                };
            assert(orders(given) =~= record_orders(records@));
            assert(is_stable_order(places, record_orders(records@)));
        }
        roster
    }

    /// Returns the member whose turn comes after the member identified by
    /// `spotify_user_id`. The successor of the last member is the first one.
    pub fn get_next_user_by_spotify_id(&self, spotify_user_id: &str) -> (next: Option<&User>)
        ensures
            next is Some <==> self.has_member(spotify_user_id@),
            next is Some ==> *next->0 == self.spec_next_user(spotify_user_id@)->0,
    {
        let wanted: String = spotify_user_id.to_owned();
        let n: usize = self.users.len();
        let mut i: usize = 0;
        while i < n
            invariant
                n == self.users@.len(),
                i <= n,
                wanted@ == spotify_user_id@,
                forall|j: int| 0 <= j < i ==> self.users@[j].spotify_user_id@ != spotify_user_id@,
            decreases n - i,
        {
            if self.users[i].spotify_user_id == wanted {
                proof {
                    self.lemma_first_position_unique(spotify_user_id@, i as int);
                }
                let k: usize = if i + 1 == n { 0 } else { i + 1 };
                assert(k as int == (i as int + 1) % (n as int)) by {
                    if i + 1 == n {
                    } else {
                        vstd::arithmetic::div_mod::lemma_small_mod((i + 1) as nat, n as nat);
                    }
                }
                return Some(&self.users[k]);
            }
            i = i + 1;
        }
        None
    }
}

} // verus!
