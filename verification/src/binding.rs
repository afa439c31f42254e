//! Key bindings and normalized key events, and the predicate that decides
//! whether a binding matches an event under the current screen-reader mode.

use vstd::prelude::*;
use crate::keys::Key;
use crate::mode::ScreenReaderMode;
use crate::modifiers::{Modifiers, mods_match};

verus! {

/// A normalized key event: the single logical key, the modifier bitset, and
/// how many times the key must be struck.
#[derive(Debug, Clone, Copy, PartialEq, Eq, Structural)]
pub struct KeyEvent {
    pub key: Key,
    pub mods: Modifiers,
    pub repeat: u8,
}

/// A key binding: the pattern a registry entry is looked up by. `mode`
/// `None` matches any screen-reader mode; `notify` and `consume` say what
/// the classifier does with a matched event.
#[derive(Debug)]
pub struct KeyBinding {
    pub key: Key,
    pub mods: Modifiers,
    pub repeat: u8,
    pub mode: Option<ScreenReaderMode>,
    pub notify: bool,
    pub consume: bool,
}

/// The mathematical value of a [`KeyBinding`]: the mode collapses to its
/// name, so that two bindings are the same exactly when every field agrees.
#[verifier::ext_equal]
pub struct KeyBindingView {
    pub key: Key,
    pub mods: Modifiers,
    pub repeat: u8,
    pub mode: Option<Seq<char>>,
    pub notify: bool,
    pub consume: bool,
}

impl View for KeyBinding {
    type V = KeyBindingView;

    open spec fn view(&self) -> KeyBindingView {
        KeyBindingView {
            key: self.key,
            mods: self.mods,
            repeat: self.repeat,
            mode: match self.mode {
                Some(m) => Some(m@),
                None => None,
            },
            notify: self.notify,
            consume: self.consume,
        }
    }
}

impl Clone for KeyBinding {
    fn clone(&self) -> (r: Self)
        ensures
            r@ == self@,
    {
        KeyBinding {
            key: self.key,
            mods: self.mods,
            repeat: self.repeat,
            mode: match &self.mode {
                Some(m) => Some(m.clone()),
                None => None,
            },
            notify: self.notify,
            consume: self.consume,
        }
    }
}

impl PartialEq for KeyBinding {
    fn eq(&self, other: &Self) -> (r: bool) {
        let mode_eq = match (&self.mode, &other.mode) {
            (Some(a), Some(b)) => *a == *b,
            (None, None) => true,
            _ => false,
        };
        self.key == other.key && self.mods == other.mods && self.repeat == other.repeat
            && mode_eq && self.notify == other.notify && self.consume == other.consume
    }
}

impl Eq for KeyBinding {

}

impl vstd::std_specs::cmp::PartialEqSpecImpl for KeyBinding {
    open spec fn obeys_eq_spec() -> bool {
        true
    }

    open spec fn eq_spec(&self, other: &Self) -> bool {
        self@ == other@
    }
}

/// Whether a binding's mode requirement admits the current mode: a binding
/// without a mode matches any mode, one with a mode only that mode.
pub open spec fn mode_gate(binding_mode: Option<Seq<char>>, current_mode: Seq<char>) -> bool {
    match binding_mode {
        Some(m) => m == current_mode,
        None => true,
    }
}

/// Whether a binding matches a normalized event under the current mode:
/// the key and the repeat count exactly, the modifiers by [`mods_match`]
/// (both empty, or at least one shared bit), and the mode by [`mode_gate`].
pub open spec fn binding_matches(
    binding: KeyBindingView,
    key: Key,
    mods: Modifiers,
    repeat: u8,
    current_mode: Seq<char>,
) -> bool {
    &&& binding.key == key
    &&& binding.repeat == repeat
    &&& mods_match(binding.mods, mods)
    &&& mode_gate(binding.mode, current_mode)
}

/// Whether a binding passes an optional consume filter: `None` admits any
/// binding, `Some(c)` only those whose consume flag equals `c`.
pub open spec fn consume_gate(binding: KeyBindingView, filter: Option<bool>) -> bool {
    match filter {
        Some(c) => binding.consume == c,
        None => true,
    }
}

/// Executable form of [`binding_matches`].
pub fn event_matches_binding(
    binding: &KeyBinding,
    key: &Key,
    mods: Modifiers,
    repeat: u8,
    current_mode: &ScreenReaderMode,
) -> (r: bool)
    ensures
        r == binding_matches(binding@, *key, mods, repeat, current_mode@),
{
    let mode_ok = match &binding.mode {
        Some(m) => *m == *current_mode,
        None => true,
    };
    binding.key == *key && binding.repeat == repeat
        && crate::modifiers::modifiers_match(binding.mods, mods) && mode_ok
}

} // verus!
