//! The state store: user records by identity and the cosmetic catalog.
//!
//! An identity is the 128-bit number of a player's UUID. The user table is a
//! `HashMap<u128, User>`, whose model is a `Map<u128, User>`; the catalog is a
//! `Vec<Cosmetic>`, whose model is a `Seq<Cosmetic>`.

use std::collections::HashMap;
use vstd::prelude::*;
use vstd::std_specs::iter::IteratorSpec;

use crate::bitflags::CosmeticFlags;

verus! {

/// One entry of the cosmetic catalog.
#[derive(Debug)]
pub struct Cosmetic {
    pub id: u8,
    pub name: String,
    pub description: String,
    /// The display payload, opaque to the hub.
    pub data: String,
    pub type_field: u8,
    /// The capabilities a user needs to wear this cosmetic.
    pub required_flags: CosmeticFlags,
}

impl Clone for Cosmetic {
    fn clone(&self) -> (copy: Cosmetic)
        ensures
            copy == *self,
    {
        Cosmetic {
            id: self.id,
            name: self.name.clone(),
            description: self.description.clone(),
            data: self.data.clone(),
            type_field: self.type_field,
            required_flags: self.required_flags,
        }
    }
}

/// What the hub knows of one identity.
#[derive(Clone, Copy, Debug, PartialEq, Eq, Structural)]
pub struct User {
    pub flags: CosmeticFlags,
    /// The cosmetic that is currently worn.
    pub enabled_prefix: Option<u8>,
    /// True while a session of this identity is live. Never persisted.
    pub connected: bool,
    /// The account on the external chat platform.
    pub linked_discord: Option<u64>,
    pub irc_blacklisted: bool,
}

impl User {
    /// The record that a first reference to an identity creates.
    pub open spec fn blank() -> User {
        User {
            flags: CosmeticFlags { bits: 0 },
            enabled_prefix: None,
            connected: false,
            linked_discord: None,
            irc_blacklisted: false,
        }
    }
}

impl Default for User {
    fn default() -> (user: User)
        ensures
            user == User::blank(),
    {
        User {
            flags: CosmeticFlags::empty(),
            enabled_prefix: None,
            connected: false,
            linked_discord: None,
            irc_blacklisted: false,
        }
    }
}

pub fn is_false(b: &bool) -> (negated: bool)
    ensures
        negated == !*b,
{
    !*b
}

/// Whether a session of `id` is live. An identity without a record is offline.
pub open spec fn online(users: Map<u128, User>, id: u128) -> bool {
    users.contains_key(id) && users[id].connected
}

/// Whether `id` is barred from the chat relay.
pub open spec fn blacklisted(users: Map<u128, User>, id: u128) -> bool {
    users.contains_key(id) && users[id].irc_blacklisted
}

/// The record of `id`, or the blank one that a first reference would create.
pub open spec fn record_or_blank(users: Map<u128, User>, id: u128) -> User {
    if users.contains_key(id) {
        users[id]
    } else {
        User::blank()
    }
}

/// `i` is the position of the first cosmetic of the catalog whose id is `id`.
pub open spec fn first_match(catalog: Seq<Cosmetic>, id: u8, i: int) -> bool {
    &&& 0 <= i < catalog.len()
    &&& catalog[i].id == id
    &&& forall|j: int| 0 <= j < i ==> (#[trigger] catalog[j]).id != id
}

/// The catalog holds a cosmetic whose id is `id`.
pub open spec fn listed(catalog: Seq<Cosmetic>, id: u8) -> bool {
    exists|i: int| first_match(catalog, id, i)
}

/// The cosmetic that a search for `id` finds: the first one with that id.
pub open spec fn lookup(catalog: Seq<Cosmetic>, id: u8) -> Option<Cosmetic> {
    if listed(catalog, id) {
        Some(catalog[choose|i: int| first_match(catalog, id, i)])
    } else {
        None
    }
}

/// No two cosmetics of the catalog share an id.
pub open spec fn unique_ids(catalog: Seq<Cosmetic>) -> bool {
    forall|i: int, j: int|
        0 <= i < j < catalog.len() ==> (#[trigger] catalog[i]).id != (#[trigger] catalog[j]).id
}

/// The worn cosmetic of `user`, if any, is in the catalog and `user` holds
/// every capability that it requires.
pub open spec fn entitled(user: User, catalog: Seq<Cosmetic>) -> bool {
    user.enabled_prefix matches Some(id) ==> {
        &&& lookup(catalog, id) is Some
        &&& user.flags.includes(lookup(catalog, id)->0.required_flags)
    }
}

/// A catalog has at most one first match for an id.
pub proof fn lemma_first_match_unique(catalog: Seq<Cosmetic>, id: u8, i: int, j: int)
    requires
        first_match(catalog, id, i),
        first_match(catalog, id, j),
    ensures
        i == j,
{
    if i < j {
        assert(catalog[i].id != id);
    } else if j < i {
        assert(catalog[j].id != id);
    }
}

/// Wherever `id` occurs in the catalog, a search for it finds a cosmetic.
pub proof fn lemma_occurrence_is_listed(catalog: Seq<Cosmetic>, id: u8, k: int)
    requires
        0 <= k < catalog.len(),
        catalog[k].id == id,
    ensures
        listed(catalog, id),
    decreases k,
{
    if forall|j: int| 0 <= j < k ==> (#[trigger] catalog[j]).id != id {
        assert(first_match(catalog, id, k));
    } else {
        let j = choose|j: int| 0 <= j < k && (#[trigger] catalog[j]).id == id;
        lemma_occurrence_is_listed(catalog, id, j);
    }
}

pub fn is_online(users: &HashMap<u128, User>, id: u128) -> (live: bool)
    ensures
        live == online(users@, id),
{
    match users.get(&id) {
        Some(user) => user.connected,
        None => false,
    }
}

pub fn is_blacklisted(users: &HashMap<u128, User>, id: u128) -> (barred: bool)
    ensures
        barred == blacklisted(users@, id),
{
    match users.get(&id) {
        Some(user) => user.irc_blacklisted,
        None => false,
    }
}

/// The record of `id`, or a blank one; the table is not changed.
pub fn get_or_default(users: &HashMap<u128, User>, id: u128) -> (user: User)
    ensures
        user == record_or_blank(users@, id),
{
    match users.get(&id) {
        Some(user) => *user,
        None => User::default(),
    }
}

/// Records that a session of `id` went live or ended. An identity without a
/// record gets none.
pub fn set_connected(users: &mut HashMap<u128, User>, id: u128, connected: bool)
    ensures
        old(users)@.contains_key(id) ==> final(users)@ == old(users)@.insert(
            id,
            (User { connected, ..old(users)@[id] }),
        ),
        !old(users)@.contains_key(id) ==> final(users)@ == old(users)@,
{
    let found = match users.get(&id) {
        Some(user) => Some(*user),
        None => None,
    };
    if let Some(user) = found {
        users.insert(id, User { connected, ..user });
    }
}

/// The first cosmetic of the catalog whose id is `id`.
pub fn find_cosmetic(catalog: &Vec<Cosmetic>, id: u8) -> (found: Option<&Cosmetic>)
    ensures
        found is Some <==> listed(catalog@, id),
        found matches Some(cosmetic) ==> lookup(catalog@, id) == Some(*cosmetic),
{
    let mut i: usize = 0;
    while i < catalog.len()
        invariant
            i <= catalog.len(),
            forall|j: int| 0 <= j < i ==> (#[trigger] catalog@[j]).id != id,
        decreases catalog.len() - i,
    {
        if catalog[i].id == id {
            proof {
                assert(first_match(catalog@, id, i as int));
                let k = choose|k: int| first_match(catalog@, id, k);
                lemma_first_match_unique(catalog@, id, i as int, k);
            }
            return Some(&catalog[i]);
        }
        i += 1;
    }
    proof {
        if listed(catalog@, id) {
            let k = choose|k: int| first_match(catalog@, id, k);
            assert(catalog@[k].id != id);
        }
    }
    None
}

/// The identities that have a record, each once, in no particular order.
pub fn user_ids(users: &HashMap<u128, User>) -> (ids: Vec<u128>)
    ensures
        ids@.no_duplicates(),
        ids@.to_set() == users@.dom(),
{
    let mut ids: Vec<u128> = Vec::new();
    let ghost all = users.keys().remaining().unref();
    for id in it: users.keys()
        invariant
            it.seq().unref() == all,
            ids@ == all.take(it.index() as int),
    {
        ids.push(*id);
    }
    proof {
        assert(ids@ =~= all);
    }
    ids
}

/// The identities whose session is live.
pub open spec fn connected_ids(users: Map<u128, User>) -> Set<u128> {
    users.dom().filter(|id: u128| users[id].connected)
}

/// The identities that are barred from the chat relay.
pub open spec fn blacklisted_ids(users: Map<u128, User>) -> Set<u128> {
    users.dom().filter(|id: u128| users[id].irc_blacklisted)
}

/// The identities that are barred from the chat relay, each once, in no
/// particular order.
pub fn blacklist(users: &HashMap<u128, User>) -> (barred: Vec<u128>)
    ensures
        barred@.no_duplicates(),
        barred@.to_set() == blacklisted_ids(users@),
{
    let ids = user_ids(users);
    let mut barred: Vec<u128> = Vec::new();
    let mut i: usize = 0;
    while i < ids.len()
        invariant
            i <= ids.len(),
            ids@.no_duplicates(),
            ids@.to_set() == users@.dom(),
            barred@.no_duplicates(),
            forall|id: u128| #[trigger]
                barred@.contains(id) <==> ids@.take(i as int).contains(id)
                    && users@[id].irc_blacklisted,
        decreases ids.len() - i,
    {
        let id = ids[i];
        proof {
            lemma_take_step(ids@, i as int);
            assert(!ids@.take(i as int).contains(id));
        }
        if is_blacklisted(users, id) {
            let ghost before = barred@;
            barred.push(id);
            proof {
                assert forall|other: u128| #[trigger]
                    barred@.contains(other) <==> before.contains(other) || other == id by {
                    vstd::seq_lib::lemma_seq_contains_after_push(before, id, other);
                }
                assert(ids@.contains(id));
                assert(ids@.to_set().contains(id));
                lemma_push_fresh(before, id);
            }
        }
        i += 1;
    }
    proof {
        assert(ids@.take(ids.len() as int) =~= ids@);
        assert forall|id: u128| barred@.to_set().contains(id) <==> blacklisted_ids(
            users@,
        ).contains(id) by {
            assert(ids@.contains(id) <==> ids@.to_set().contains(id));
        }
        assert(barred@.to_set() =~= blacklisted_ids(users@));
    }
    barred
}

/// How many identities have a live session.
pub fn count_connected(users: &HashMap<u128, User>) -> (count: usize)
    ensures
        count == connected_ids(users@).len(),
{
    let ids = user_ids(users);
    let ghost mut live: Seq<u128> = Seq::empty();
    let mut count: usize = 0;
    let mut i: usize = 0;
    while i < ids.len()
        invariant
            i <= ids.len(),
            ids@.no_duplicates(),
            ids@.to_set() == users@.dom(),
            live.no_duplicates(),
            count == live.len(),
            count <= i,
            forall|id: u128| #[trigger]
                live.contains(id) <==> ids@.take(i as int).contains(id) && users@[id].connected,
        decreases ids.len() - i,
    {
        let id = ids[i];
        proof {
            lemma_take_step(ids@, i as int);
            assert(!ids@.take(i as int).contains(id));
        }
        if is_online(users, id) {
            proof {
                let before = live;
                live = live.push(id);
                assert forall|other: u128| #[trigger]
                    live.contains(other) <==> before.contains(other) || other == id by {
                    vstd::seq_lib::lemma_seq_contains_after_push(before, id, other);
                }
                assert(ids@.contains(id));
                assert(ids@.to_set().contains(id));
                lemma_push_fresh(before, id);
            }
            count += 1;
        }
        i += 1;
    }
    proof {
        assert(ids@.take(ids.len() as int) =~= ids@);
        assert forall|id: u128| live.to_set().contains(id) <==> connected_ids(users@).contains(
            id,
        ) by {
            assert(ids@.contains(id) <==> ids@.to_set().contains(id));
        }
        assert(live.to_set() =~= connected_ids(users@));
        live.unique_seq_to_set();
    }
    count
}

/// What one more element adds to a prefix of a sequence without duplicates.
proof fn lemma_take_step(ids: Seq<u128>, i: int)
    requires
        0 <= i < ids.len(),
        ids.no_duplicates(),
    ensures
        !ids.take(i).contains(ids[i]),
        forall|id: u128| #[trigger]
            ids.take(i + 1).contains(id) <==> ids.take(i).contains(id) || id == ids[i],
{
    assert(ids.take(i + 1) =~= ids.take(i).push(ids[i]));
    assert forall|id: u128| #[trigger]
        ids.take(i + 1).contains(id) <==> ids.take(i).contains(id) || id == ids[i] by {
        vstd::seq_lib::lemma_seq_contains_after_push(ids.take(i), ids[i], id);
    }
    if ids.take(i).contains(ids[i]) {
        let k = choose|k: int| 0 <= k < i && ids.take(i)[k] == ids[i];
        assert(ids[k] == ids[i]);
    }
}

/// A sequence without duplicates has none after an element that it lacked
/// is added.
proof fn lemma_push_fresh(ids: Seq<u128>, id: u128)
    requires
        ids.no_duplicates(),
        !ids.contains(id),
    ensures
        ids.push(id).no_duplicates(),
{
    let after = ids.push(id);
    assert forall|i: int, j: int| 0 <= i < after.len() && 0 <= j < after.len() && i != j implies after[i]
        != after[j] by {
        if i < ids.len() {
            assert(ids.contains(after[i]));
        }
        if j < ids.len() {
            assert(ids.contains(after[j]));
        }
    }
}

} // verus!
