//! The public listing of the catalog and of who wears what.

use std::collections::HashMap;
use vstd::prelude::*;

use crate::app_state::{user_ids, Cosmetic, User};

verus! {

/// Who wears which cosmetic: the identities with a worn cosmetic, each with
/// the id of it.
pub open spec fn worn(users: Map<u128, User>) -> Map<u128, u8> {
    Map::new(
        |id: u128| users.contains_key(id) && users[id].enabled_prefix is Some,
        |id: u128| users[id].enabled_prefix->0,
    )
}

/// A copy of the catalog.
pub fn catalog_copy(cosmetics: &Vec<Cosmetic>) -> (copy: Vec<Cosmetic>)
    ensures
        copy@ == cosmetics@,
{
    let mut copy: Vec<Cosmetic> = Vec::new();
    let mut i: usize = 0;
    while i < cosmetics.len()
        invariant
            i <= cosmetics.len(),
            copy@ =~= cosmetics@.take(i as int),
        decreases cosmetics.len() - i,
    {
        copy.push(cosmetics[i].clone());
        i += 1;
    }
    proof {
        assert(cosmetics@.take(cosmetics.len() as int) =~= cosmetics@);
    }
    copy
}

/// The listing: the catalog, and who wears which cosmetic.
pub fn cosmetics(users: &HashMap<u128, User>, catalog: &Vec<Cosmetic>) -> (listing: (
    Vec<Cosmetic>,
    HashMap<u128, u8>,
))
    ensures
        listing.0@ == catalog@,
        listing.1@ == worn(users@),
{
    let ids = user_ids(users);
    let mut wearers: HashMap<u128, u8> = HashMap::new();
    let mut i: usize = 0;
    while i < ids.len()
        invariant
            i <= ids.len(),
            ids@.to_set() == users@.dom(),
            forall|id: u128| #[trigger]
                wearers@.contains_key(id) <==> ids@.take(i as int).contains(id)
                    && users@[id].enabled_prefix is Some,
            forall|id: u128| #[trigger]
                wearers@.contains_key(id) ==> wearers@[id] == users@[id].enabled_prefix->0,
        decreases ids.len() - i,
    {
        let id = ids[i];
        proof {
            assert(ids@.contains(id));
            assert(ids@.to_set().contains(id));
            assert(ids@.take(i + 1) =~= ids@.take(i as int).push(id));
            assert forall|other: u128| #[trigger]
                ids@.take(i + 1).contains(other) <==> ids@.take(i as int).contains(other) || other
                    == id by {
                vstd::seq_lib::lemma_seq_contains_after_push(ids@.take(i as int), id, other);
            }
        }
        match users.get(&id) {
            Some(user) => {
                if let Some(prefix) = user.enabled_prefix {
                    wearers.insert(id, prefix);
                }
            },
            None => {},
        }
        i += 1;
    }
    proof {
        assert(ids@.take(ids.len() as int) =~= ids@);
        assert forall|id: u128| wearers@.contains_key(id) <==> worn(users@).contains_key(id) by {
            assert(ids@.contains(id) <==> ids@.to_set().contains(id));
        }
        assert(wearers@ =~= worn(users@));
    }
    (catalog_copy(catalog), wearers)
}

} // verus!
