//! The modifier bitset: nine independently tracked modifier positions
//! (left/right shift, control, alt and meta, plus the screen reader's own
//! engagement modifier, repurposed from the caps-lock key).

use vstd::prelude::*;

verus! {

/// No modifier held.
pub const NONE: u16 = 0;
/// Left shift.
pub const SHIFT_L: u16 = 0x1;
/// Right shift.
pub const SHIFT_R: u16 = 0x2;
/// Left control.
pub const CONTROL_L: u16 = 0x4;
/// Right control.
pub const CONTROL_R: u16 = 0x8;
/// Left alt.
pub const ALT_L: u16 = 0x10;
/// Right alt (alt-gr).
pub const ALT_R: u16 = 0x20;
/// Left meta ("OS" key).
pub const META_L: u16 = 0x40;
/// Right meta ("OS" key).
pub const META_R: u16 = 0x80;
/// The screen reader's engagement modifier, taken from the caps-lock key.
pub const ODILIA: u16 = 0x100;

/// A set of held modifier keys, one bit per position. Bits are independent
/// and composable; equality is bitwise.
#[derive(Debug, Clone, Copy, PartialEq, Eq, Hash, Structural)]
pub struct Modifiers {
    pub bits: u16,
}

impl Modifiers {
    /// The empty modifier set.
    pub fn empty() -> (r: Modifiers)
        ensures
            r.bits == NONE,
    {
        Modifiers { bits: NONE }
    }

    /// The modifier set with exactly the given bits.
    pub fn from_bits(bits: u16) -> (r: Modifiers)
        ensures
            r.bits == bits,
    {
        Modifiers { bits }
    }

    /// Whether no modifier is held.
    pub open spec fn spec_is_empty(self) -> bool {
        self.bits == NONE
    }

    /// Whether no modifier is held.
    pub fn is_empty(self) -> (r: bool)
        ensures
            r == self.spec_is_empty(),
    {
        self.bits == NONE
    }

    /// Whether every modifier of `other` is also held in `self`.
    pub fn contains(self, other: Modifiers) -> (r: bool)
        ensures
            r == ((self.bits & other.bits) == other.bits),
    {
        (self.bits & other.bits) == other.bits
    }

    /// Whether `self` and `other` share at least one held modifier.
    pub fn intersects(self, other: Modifiers) -> (r: bool)
        ensures
            r == ((self.bits & other.bits) != 0),
    {
        (self.bits & other.bits) != 0
    }

    /// The modifiers held in `self` or in `other`.
    pub fn union(self, other: Modifiers) -> (r: Modifiers)
        ensures
            r.bits == (self.bits | other.bits),
    {
        Modifiers { bits: self.bits | other.bits }
    }
}

/// How a binding's modifier set is matched against an event's: two empty
/// sets match each other, and two non-empty sets match when they share at
/// least one bit. A binding requiring control therefore still matches an
/// event that holds control together with shift.
pub open spec fn mods_match(binding: Modifiers, event: Modifiers) -> bool {
    ||| (binding.bits == NONE && event.bits == NONE)
    ||| (binding.bits & event.bits) != 0
}

/// Executable form of [`mods_match`].
pub fn modifiers_match(binding: Modifiers, event: Modifiers) -> (r: bool)
    ensures
        r == mods_match(binding, event),
{
    (binding.bits == NONE && event.bits == NONE) || (binding.bits & event.bits) != 0
}

/// A binding with no modifiers matches an event with no modifiers, and only
/// that case — symmetrically: with the empty set on either side, matching
/// succeeds exactly when the other side is empty as well.
pub proof fn lemma_empty_mods_match_exactly_empty(m: Modifiers)
    ensures
        mods_match(Modifiers { bits: NONE }, m) <==> m.bits == NONE,
        mods_match(m, Modifiers { bits: NONE }) <==> m.bits == NONE,
{
    assert((0u16 & m.bits) == 0) by (bit_vector);
    assert((m.bits & 0u16) == 0) by (bit_vector);
}

/// One shared bit suffices: a non-empty binding matches every event whose
/// modifiers intersect the binding's, whatever else either side holds.
pub proof fn lemma_shared_bit_matches(binding: Modifiers, event: Modifiers)
    requires
        (binding.bits & event.bits) != 0,
    ensures
        mods_match(binding, event),
{
}

} // verus!
