//! Adding and removing cosmetics of the catalog.

use vstd::prelude::*;

use crate::app_state::{
    first_match, lemma_first_match_unique, lemma_occurrence_is_listed, listed, lookup, unique_ids,
    Cosmetic,
};
use crate::bitflags::CosmeticFlags;

verus! {

/// A cosmetic to add to the catalog.
#[derive(Debug)]
pub struct AddCosmetic {
    pub id: u8,
    pub name: String,
    pub description: String,
    pub data: String,
    pub type_field: u8,
    pub required_flags: CosmeticFlags,
}

/// The id of the cosmetic to delete.
#[derive(Debug, Clone, Copy, PartialEq, Eq)]
pub struct DeleteCosmetic {
    pub id: u8,
}

/// The catalog without the cosmetics whose id is `id`, the others in their
/// order.
pub open spec fn without(catalog: Seq<Cosmetic>, id: u8) -> Seq<Cosmetic> {
    catalog.filter(|cosmetic: Cosmetic| cosmetic.id != id)
}

/// The catalog entry that `data` describes.
pub open spec fn entry_of(data: AddCosmetic) -> Cosmetic {
    Cosmetic {
        id: data.id,
        name: data.name,
        description: data.description,
        data: data.data,
        type_field: data.type_field,
        required_flags: data.required_flags,
    }
}

/// Removes every cosmetic whose id is `data.id`.
pub fn remove_cosmetic(cosmetics: &mut Vec<Cosmetic>, data: DeleteCosmetic)
    ensures
        final(cosmetics)@ == without(old(cosmetics)@, data.id),
{
    let ghost pred = |cosmetic: Cosmetic| cosmetic.id != data.id;
    let mut kept: Vec<Cosmetic> = Vec::new();
    let mut i: usize = 0;
    proof {
        assert(cosmetics@.subrange(0, 0) =~= Seq::<Cosmetic>::empty());
        reveal(Seq::filter);
    }
    while i < cosmetics.len()
        invariant
            i <= cosmetics.len(),
            *cosmetics == *old(cosmetics),
            pred == (|cosmetic: Cosmetic| cosmetic.id != data.id),
            kept@ == cosmetics@.subrange(0, i as int).filter(pred),
        decreases cosmetics.len() - i,
    {
        proof {
            let before = cosmetics@.subrange(0, i as int);
            let after = cosmetics@.subrange(0, i + 1);
            let c = cosmetics@[i as int];
            assert(after.drop_last() =~= before);
            assert(after.last() == c);
            reveal(Seq::filter);
            assert(after.filter(pred) == if pred(c) {
                before.filter(pred).push(c)
            } else {
                before.filter(pred)
            });
        }
        if cosmetics[i].id != data.id {
            kept.push(cosmetics[i].clone());
        }
        i += 1;
    }
    proof {
        assert(cosmetics@.subrange(0, cosmetics.len() as int) =~= cosmetics@);
    }
    *cosmetics = kept;
}

/// Adds a cosmetic at the end of the catalog. A cosmetic that had the same
/// id is removed: the last one written wins.
pub fn add_cosmetic(cosmetics: &mut Vec<Cosmetic>, data: AddCosmetic)
    ensures
        final(cosmetics)@ == without(old(cosmetics)@, data.id).push(entry_of(data)),
{
    remove_cosmetic(cosmetics, DeleteCosmetic { id: data.id });
    cosmetics.push(
        Cosmetic {
            id: data.id,
            name: data.name,
            description: data.description,
            data: data.data,
            type_field: data.type_field,
            required_flags: data.required_flags,
        },
    );
}

/// What a search finds in a catalog with one more cosmetic in front.
proof fn lemma_lookup_prepend(first: Cosmetic, rest: Seq<Cosmetic>, id: u8)
    ensures
        lookup(seq![first] + rest, id) == if first.id == id {
            Some(first)
        } else {
            lookup(rest, id)
        },
{
    let whole = seq![first] + rest;
    if first.id == id {
        assert(first_match(whole, id, 0));
        let k = choose|k: int| first_match(whole, id, k);
        lemma_first_match_unique(whole, id, 0, k);
    } else if listed(rest, id) {
        let j = choose|j: int| first_match(rest, id, j);
        assert forall|k: int| 0 <= k < j + 1 implies (#[trigger] whole[k]).id != id by {
            if k > 0 {
                assert(whole[k] == rest[k - 1]);
            }
        }
        assert(whole[j + 1] == rest[j]);
        assert(first_match(whole, id, j + 1));
        let k = choose|k: int| first_match(whole, id, k);
        lemma_first_match_unique(whole, id, j + 1, k);
    } else if listed(whole, id) {
        let k = choose|k: int| first_match(whole, id, k);
        assert(k > 0);
        assert(whole[k] == rest[k - 1]);
        lemma_occurrence_is_listed(rest, id, k - 1);
    }
}

/// Removing the cosmetics of one id leaves none of that id, keeps the ids
/// unique if they were, and changes no search for another id.
pub proof fn lemma_without(catalog: Seq<Cosmetic>, id: u8, other: u8)
    requires
        other != id,
    ensures
        !listed(without(catalog, id), id),
        unique_ids(catalog) ==> unique_ids(without(catalog, id)),
        lookup(without(catalog, id), other) == lookup(catalog, other),
    decreases catalog.len(),
{
    let pred = |cosmetic: Cosmetic| cosmetic.id != id;
    let kept = without(catalog, id);
    if listed(kept, id) {
        let k = choose|k: int| first_match(kept, id, k);
        catalog.lemma_filter_pred(pred, k);
    }
    if catalog.len() == 0 {
        reveal(Seq::filter);
        assert(kept =~= catalog);
    } else {
        let first = catalog[0];
        let rest = catalog.drop_first();
        assert(catalog =~= seq![first] + rest);
        rest.lemma_filter_prepend(first, pred);
        lemma_without(rest, id, other);
        lemma_lookup_prepend(first, rest, other);
        if pred(first) {
            assert(kept == seq![first] + without(rest, id));
            lemma_lookup_prepend(first, without(rest, id), other);
        }
        if unique_ids(catalog) {
            assert forall|i: int, j: int| 0 <= i < j < rest.len() implies (#[trigger] rest[i]).id
                != (#[trigger] rest[j]).id by {
                assert(rest[i] == catalog[i + 1] && rest[j] == catalog[j + 1]);
            }
            assert(unique_ids(rest));
            if pred(first) {
                let tail = without(rest, id);
                assert forall|i: int, j: int| 0 <= i < j < kept.len() implies (#[trigger] kept[i]).id
                    != (#[trigger] kept[j]).id by {
                    if i == 0 {
                        assert(kept[j] == tail[j - 1]);
                        assert(tail.contains(tail[j - 1]));
                        rest.lemma_filter_contains_rev(pred, tail[j - 1]);
                        let m = choose|m: int| 0 <= m < rest.len() && rest[m] == tail[j - 1];
                        assert(rest[m] == catalog[m + 1]);
                    } else {
                        assert(kept[i] == tail[i - 1] && kept[j] == tail[j - 1]);
                    }
                }
            }
        }
    }
}

/// After a cosmetic is added, a search for its id finds it, the ids of the
/// catalog are unique if they were, and a search for another id finds what
/// it found before.
pub proof fn lemma_last_write_wins(catalog: Seq<Cosmetic>, entry: Cosmetic, other: u8)
    requires
        other != entry.id,
    ensures
        lookup(without(catalog, entry.id).push(entry), entry.id) == Some(entry),
        unique_ids(catalog) ==> unique_ids(without(catalog, entry.id).push(entry)),
        lookup(without(catalog, entry.id).push(entry), other) == lookup(catalog, other),
{
    let pred = |cosmetic: Cosmetic| cosmetic.id != entry.id;
    let kept = without(catalog, entry.id);
    let after = kept.push(entry);
    lemma_without(catalog, entry.id, other);
    assert forall|k: int| 0 <= k < kept.len() implies (#[trigger] after[k]).id != entry.id by {
        catalog.lemma_filter_pred(pred, k);
    }
    assert(first_match(after, entry.id, kept.len() as int));
    let k = choose|k: int| first_match(after, entry.id, k);
    lemma_first_match_unique(after, entry.id, kept.len() as int, k);
    if listed(kept, other) {
        let j = choose|j: int| first_match(kept, other, j);
        assert forall|m: int| 0 <= m < j implies (#[trigger] after[m]).id != other by {
            assert(after[m] == kept[m]);
        }
        assert(after[j] == kept[j]);
        assert(first_match(after, other, j));
        let m = choose|m: int| first_match(after, other, m);
        lemma_first_match_unique(after, other, j, m);
    } else if listed(after, other) {
        let m = choose|m: int| first_match(after, other, m);
        assert(m < kept.len());
        assert(after[m] == kept[m]);
        lemma_occurrence_is_listed(kept, other, m);
    }
    if unique_ids(catalog) {
        assert forall|i: int, j: int| 0 <= i < j < after.len() implies (#[trigger] after[i]).id
            != (#[trigger] after[j]).id by {
            assert(after[i] == kept[i]);
            if j < kept.len() {
                assert(after[j] == kept[j]);
            }
        }
    }
}

} // verus!
