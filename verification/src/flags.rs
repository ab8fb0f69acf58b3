use vstd::prelude::*;
use crate::constants::{ALLEGRO_FLIP_HORIZONTAL, ALLEGRO_FLIP_VERTICAL};

verus! {

/// Flags for the bitmap drawing calls.
///
/// The binding stores each Allegro drawing flag one bit higher than Allegro
/// does, so that `FLIP_NONE` can have a bit of its own; the drawing calls
/// shift the bits back down before they reach Allegro.
#[derive(Clone, Copy, Debug, PartialEq, Eq, Structural)]
pub struct BitmapDrawingFlags {
    bits: u32,
}

/// No flipping.
#[allow(non_snake_case)]
pub fn FLIP_NONE() -> (r: BitmapDrawingFlags)
    ensures
        r.bits() == 0x1,
        r.bits() >> 1u32 == 0,
{
    assert(0x1u32 >> 1u32 == 0) by (bit_vector);
    BitmapDrawingFlags { bits: 0x1 }
}

/// Flip horizontally: `ALLEGRO_FLIP_HORIZONTAL`, one bit higher.
#[allow(non_snake_case)]
pub fn FLIP_HORIZONTAL() -> (r: BitmapDrawingFlags)
    ensures
        r.bits() == 0x2,
        r.bits() >> 1u32 == ALLEGRO_FLIP_HORIZONTAL,
{
    assert(0x2u32 >> 1u32 == 1) by (bit_vector);
    BitmapDrawingFlags { bits: 0x2 }
}

/// Flip vertically: `ALLEGRO_FLIP_VERTICAL`, one bit higher.
#[allow(non_snake_case)]
pub fn FLIP_VERTICAL() -> (r: BitmapDrawingFlags)
    ensures
        r.bits() == 0x4,
        r.bits() >> 1u32 == ALLEGRO_FLIP_VERTICAL,
{
    assert(0x4u32 >> 1u32 == 2) by (bit_vector);
    BitmapDrawingFlags { bits: 0x4 }
}

impl BitmapDrawingFlags {
    /// The bits of the flag set.
    pub closed spec fn bits(self) -> u32 {
        self.bits
    }

    /// The empty flag set.
    pub fn zero() -> (r: BitmapDrawingFlags)
        ensures
            r.bits() == 0,
    {
        BitmapDrawingFlags { bits: 0 }
    }

    /// The bits of the flag set.
    pub fn get(&self) -> (r: u32)
        ensures
            r == self.bits(),
    {
        self.bits
    }

    /// The `flags` argument that the bitmap drawing calls hand to Allegro:
    /// the bits shifted one place down.
    pub fn to_allegro_flags(&self) -> (r: i32)
        ensures
            r == self.bits() >> 1u32,
    {
        let b = self.bits;
        let shifted = b >> 1u32;
        assert(shifted < 0x80000000) by (bit_vector)
            requires shifted == b >> 1u32;
        shifted as i32
    }
}

impl std::ops::BitOr for BitmapDrawingFlags {
    type Output = BitmapDrawingFlags;

    /// `a | b` is the union of two flag sets.
    fn bitor(self, other: BitmapDrawingFlags) -> (r: BitmapDrawingFlags)
        ensures
            r.bits() == self.bits() | other.bits(),
    {
        BitmapDrawingFlags { bits: self.bits | other.bits }
    }
}

impl vstd::std_specs::ops::BitOrSpecImpl for BitmapDrawingFlags {
    open spec fn obeys_bitor_spec() -> bool {
        true
    }

    open spec fn bitor_req(self, rhs: BitmapDrawingFlags) -> bool {
        true
    }

    closed spec fn bitor_spec(self, rhs: BitmapDrawingFlags) -> BitmapDrawingFlags {
        BitmapDrawingFlags { bits: self.bits | rhs.bits }
    }
}

impl std::ops::BitAnd for BitmapDrawingFlags {
    type Output = bool;

    /// `a & b` tells whether two flag sets share a flag.
    fn bitand(self, other: BitmapDrawingFlags) -> (r: bool)
        ensures
            r == (self.bits() & other.bits() != 0),
    {
        self.bits & other.bits != 0
    }
}

impl vstd::std_specs::ops::BitAndSpecImpl for BitmapDrawingFlags {
    open spec fn obeys_bitand_spec() -> bool {
        true
    }

    open spec fn bitand_req(self, rhs: BitmapDrawingFlags) -> bool {
        true
    }

    closed spec fn bitand_spec(self, rhs: BitmapDrawingFlags) -> bool {
        self.bits & rhs.bits != 0
    }
}

/// The Allegro flags of a union are the union of the Allegro flags.
pub proof fn lemma_to_allegro_distributes(a: BitmapDrawingFlags, b: BitmapDrawingFlags)
    ensures
        (a.bits() | b.bits()) >> 1u32 == (a.bits() >> 1u32) | (b.bits() >> 1u32),
{
    let (x, y) = (a.bits(), b.bits());
    assert((x | y) >> 1u32 == (x >> 1u32) | (y >> 1u32)) by (bit_vector);
}

/// Union is commutative, associative and idempotent, with the empty set as
/// its unit.
pub proof fn lemma_bitor_laws(a: BitmapDrawingFlags, b: BitmapDrawingFlags, c: BitmapDrawingFlags)
    ensures
        a.bits() | b.bits() == b.bits() | a.bits(),
        (a.bits() | b.bits()) | c.bits() == a.bits() | (b.bits() | c.bits()),
        a.bits() | a.bits() == a.bits(),
        a.bits() | 0u32 == a.bits(),
{
    let (x, y, z) = (a.bits(), b.bits(), c.bits());
    assert(x | y == y | x) by (bit_vector);
    assert((x | y) | z == x | (y | z)) by (bit_vector);
    assert(x | x == x) by (bit_vector);
    assert(x | 0u32 == x) by (bit_vector);
}

/// A union shares a flag with each of its non-empty parts.
pub proof fn lemma_bitand_of_bitor(a: BitmapDrawingFlags, b: BitmapDrawingFlags)
    requires
        a.bits() != 0,
    ensures
        (a.bits() | b.bits()) & a.bits() != 0,
{
    let (x, y) = (a.bits(), b.bits());
    assert(x != 0 ==> (x | y) & x != 0) by (bit_vector);
}

} // verus!
