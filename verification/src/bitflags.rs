//! The capability bitset shared by user records and cosmetics.

use vstd::prelude::*;

verus! {

/// A set of capability bits. All eight bits of the set are named, so every
/// byte is a set, and the view of a value is the byte that holds them.
#[derive(Clone, Copy, Debug, PartialEq, Eq, Structural, Hash)]
pub struct CosmeticFlags {
    pub bits: u8,
}

impl View for CosmeticFlags {
    type V = u8;

    open spec fn view(&self) -> u8 {
        self.bits
    }
}

impl CosmeticFlags {
    pub const DEVELOPER: u32 = 0b0000_0001;

    pub const STAFF: u32 = 0b0000_0010;

    pub const CONTRIBUTOR: u32 = 0b0000_0100;

    pub const EARLY_USER: u32 = 0b0000_1000;

    pub const BETA_TESTER: u32 = 0b0001_0000;

    pub const SUPPORTER: u32 = 0b0010_0000;

    pub const CLAIMED_ONE: u32 = 0b0100_0000;

    pub const CLAIMED_TWOO: u32 = 0b1000_0000;

    /// Every named bit.
    pub const ALL: u32 = 0b1111_1111;

    /// `self` holds every bit that `other` holds.
    pub open spec fn includes(self, other: CosmeticFlags) -> bool {
        self@ & other@ == other@
    }

    /// The set without any capability.
    pub fn empty() -> (flags: CosmeticFlags)
        ensures
            flags@ == 0,
    {
        CosmeticFlags { bits: 0 }
    }

    /// The set whose bits are `bits`, unless `bits` holds a bit without a name.
    pub fn from_bits(bits: u32) -> (flags: Option<CosmeticFlags>)
        ensures
            bits <= Self::ALL ==> flags is Some && flags->0@ == bits,
            bits > Self::ALL ==> flags is None,
    {
        if bits <= Self::ALL {
            Some(CosmeticFlags { bits: bits as u8 })
        } else {
            None
        }
    }

    pub fn bits(&self) -> (bits: u32)
        ensures
            bits == self@,
    {
        self.bits as u32
    }

    pub fn is_empty(&self) -> (empty: bool)
        ensures
            empty == (self@ == 0),
    {
        self.bits == 0
    }

    /// Whether every capability of `other` is also one of `self`.
    pub fn contains(&self, other: CosmeticFlags) -> (held: bool)
        ensures
            held == self.includes(other),
    {
        self.bits & other.bits == other.bits
    }
}

impl Default for CosmeticFlags {
    fn default() -> (flags: CosmeticFlags)
        ensures
            flags@ == 0,
    {
        CosmeticFlags::empty()
    }
}

/// A set includes another exactly when no bit of the other is missing from it.
pub proof fn lemma_includes_bitwise(held: CosmeticFlags, wanted: CosmeticFlags)
    ensures
        held.includes(wanted) <==> wanted@ & !held@ == 0,
{
    let h = held@;
    let w = wanted@;
    assert((h & w == w) <==> (w & !h == 0)) by (bit_vector);
}

/// Inclusion is reflexive and transitive, and the empty set is included in
/// every set.
pub proof fn lemma_includes_order(a: CosmeticFlags, b: CosmeticFlags, c: CosmeticFlags)
    ensures
        a.includes(a),
        b@ == 0 ==> a.includes(b),
        a.includes(b) && b.includes(c) ==> a.includes(c),
{
    let x = a@;
    let y = b@;
    let z = c@;
    assert(x & x == x) by (bit_vector);
    assert(y == 0 ==> x & y == y) by (bit_vector);
    assert((x & y == y) && (y & z == z) ==> (x & z == z)) by (bit_vector);
}

} // verus!
