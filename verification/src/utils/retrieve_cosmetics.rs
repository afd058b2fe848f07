//! The snapshot of the store that is kept between runs.

use std::collections::HashMap;
use vstd::prelude::*;

use crate::api::cosmetics::catalog_copy;
use crate::app_state::{user_ids, Cosmetic, User};

verus! {

/// The persisted store: the catalog and the user table.
#[derive(Debug)]
pub struct CosmeticFile {
    pub cosmetics: Vec<Cosmetic>,
    pub users: HashMap<u128, User>,
}

/// The user table with every session ended: the same records, none of them
/// connected.
pub open spec fn at_rest(users: Map<u128, User>) -> Map<u128, User> {
    Map::new(
        |id: u128| users.contains_key(id),
        |id: u128| User { connected: false, ..users[id] },
    )
}

/// A copy of the user table in which nobody is connected.
pub fn disconnected(users: &HashMap<u128, User>) -> (rested: HashMap<u128, User>)
    ensures
        rested@ == at_rest(users@),
{
    let ids = user_ids(users);
    let mut rested: HashMap<u128, User> = HashMap::new();
    let mut i: usize = 0;
    while i < ids.len()
        invariant
            i <= ids.len(),
            ids@.to_set() == users@.dom(),
            forall|id: u128| #[trigger]
                rested@.contains_key(id) <==> ids@.take(i as int).contains(id),
            forall|id: u128| #[trigger]
                rested@.contains_key(id) ==> rested@[id] == (User {
                    connected: false,
                    ..users@[id]
                }),
        decreases ids.len() - i,
    {
        let id = ids[i];
        proof {
            assert(ids@.contains(id));
            assert(ids@.to_set().contains(id));
            assert(ids@.take(i + 1) =~= ids@.take(i as int).push(id));
            assert forall|other: u128| #[trigger]
                ids@.take(i + 1).contains(other) <==> ids@.take(i as int).contains(other) || other
                    == id by {
                vstd::seq_lib::lemma_seq_contains_after_push(ids@.take(i as int), id, other);
            }
        }
        match users.get(&id) {
            Some(user) => {
                rested.insert(id, User { connected: false, ..*user });
            },
            None => {},
        }
        i += 1;
    }
    proof {
        assert(ids@.take(ids.len() as int) =~= ids@);
        assert forall|id: u128| rested@.contains_key(id) <==> users@.contains_key(id) by {
            assert(ids@.contains(id) <==> ids@.to_set().contains(id));
        }
        assert(rested@ =~= at_rest(users@));
    }
    rested
}

/// The store to start with: the snapshot that was read, with every session
/// ended, or an empty store where no snapshot could be read.
pub fn retrieve_cosmetics(read: Option<CosmeticFile>) -> (file: CosmeticFile)
    ensures
        read is None ==> file.cosmetics@.len() == 0 && file.users@ == Map::<u128, User>::empty(),
        read matches Some(snapshot) ==> file.cosmetics@ == snapshot.cosmetics@ && file.users@
            == at_rest(snapshot.users@),
{
    match read {
        None => CosmeticFile { cosmetics: Vec::new(), users: HashMap::new() },
        Some(snapshot) => {
            let users = disconnected(&snapshot.users);
            CosmeticFile { cosmetics: snapshot.cosmetics, users }
        },
    }
}

/// The snapshot to save: the catalog as it is, and the user table with every
/// session ended, since a session does not outlive the process.
pub fn snapshot(users: &HashMap<u128, User>, cosmetics: &Vec<Cosmetic>) -> (file: CosmeticFile)
    ensures
        file.cosmetics@ == cosmetics@,
        file.users@ == at_rest(users@),
{
    CosmeticFile { cosmetics: catalog_copy(cosmetics), users: disconnected(users) }
}

} // verus!
