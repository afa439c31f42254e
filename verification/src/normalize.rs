//! The key/modifier normalizer: a pure function from the ordered set of
//! currently-held raw codes to the event's single logical key plus its
//! modifier bitset.
//!
//! The key is chosen first-match-wins over the held set in insertion order:
//! two simultaneously held non-modifier keys always normalize to whichever
//! was pressed first, never to both. This is a documented limitation, not a
//! chord resolver.

use vstd::prelude::*;
use crate::keys::{Key, KeyCode, code_modifier, code_to_key, spec_code_modifier, spec_code_to_key};
use crate::modifiers::Modifiers;

verus! {

/// The modifier bits contributed by every held code, combined by bitwise or.
/// Codes that are not modifiers contribute no bits.
pub open spec fn fold_modifiers(held: Seq<KeyCode>) -> u16
    decreases held.len(),
{
    if held.len() == 0 {
        0u16
    } else {
        fold_modifiers(held.drop_last()) | spec_code_modifier(held.last())
    }
}

/// The first held code, in insertion order, that maps to a logical key;
/// `None` when only modifiers (or unknown codes) are held.
pub open spec fn first_logical_key(held: Seq<KeyCode>) -> Option<Key>
    decreases held.len(),
{
    if held.len() == 0 {
        None
    } else if spec_code_to_key(held[0]) is Some {
        spec_code_to_key(held[0])
    } else {
        first_logical_key(held.drop_first())
    }
}

/// Folds the held set into its modifier bitset.
pub fn held_to_modifiers(held: &Vec<KeyCode>) -> (r: Modifiers)
    ensures
        r.bits == fold_modifiers(held@),
{
    let mut bits: u16 = 0;
    let mut i: usize = 0;
    while i < held.len()
        invariant
            i <= held.len(),
            bits == fold_modifiers(held@.subrange(0, i as int)),
        decreases held.len() - i,
    {
        proof {
            assert(held@.subrange(0, i + 1).drop_last() =~= held@.subrange(0, i as int));
            assert(held@.subrange(0, i + 1).last() == held@[i as int]);
        }
        bits = bits | code_modifier(held[i]);
        i = i + 1;
    }
    proof {
        assert(held@.subrange(0, held@.len() as int) =~= held@);
    }
    Modifiers { bits }
}

/// Scans the held set in insertion order and returns the first code that
/// maps to a logical key, if any.
pub fn held_to_single_key(held: &Vec<KeyCode>) -> (r: Option<Key>)
    ensures
        r == first_logical_key(held@),
{
    let mut i: usize = 0;
    proof {
        assert(held@.skip(0) =~= held@);
    }
    while i < held.len()
        invariant
            i <= held.len(),
            first_logical_key(held@) == first_logical_key(held@.skip(i as int)),
            decreases held.len() - i,
    {
        proof {
            assert(held@.skip(i as int)[0] == held@[i as int]);
            assert(held@.skip(i as int).drop_first() =~= held@.skip(i + 1));
        }
        if let Some(k) = code_to_key(held[i]) {
            return Some(k);
        }
        i = i + 1;
    }
    proof {
        assert(held@.skip(held@.len() as int) =~= Seq::<KeyCode>::empty());
    }
    None
}

/// Normalizes the held set to its single logical key (if any non-modifier
/// key is held) and the combined modifier bitset.
pub fn normalize(held: &Vec<KeyCode>) -> (r: (Option<Key>, Modifiers))
    ensures
        r.0 == first_logical_key(held@),
        r.1.bits == fold_modifiers(held@),
{
    (held_to_single_key(held), held_to_modifiers(held))
}

} // verus!
