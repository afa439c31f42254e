//! Tests for the keybinding registry: add/remove round trips, modifier
//! intersection matching, mode gating, and the consume filter.

use odilia_input::binding::{KeyBinding, KeyEvent};
use odilia_input::keys::Key;
use odilia_input::mode::ScreenReaderMode;
use odilia_input::modifiers::{self, Modifiers};
use odilia_input::registry::KeybindingRegistry;

fn ctrl_a_binding(mode: Option<ScreenReaderMode>, notify: bool, consume: bool) -> KeyBinding {
    KeyBinding {
        key: Key::Other('a'),
        mods: Modifiers::from_bits(modifiers::CONTROL_L),
        repeat: 1,
        mode,
        notify,
        consume,
    }
}

fn ctrl_a_event() -> KeyEvent {
    KeyEvent {
        key: Key::Other('a'),
        mods: Modifiers::from_bits(modifiers::CONTROL_L),
        repeat: 1,
    }
}

#[test]
fn add_then_match_then_remove() {
    let mut registry: KeybindingRegistry<u32> = KeybindingRegistry::new();
    let mode = ScreenReaderMode::new("CommandMode");
    let binding = ctrl_a_binding(None, true, true);
    assert!(registry.add_keybind(binding.clone(), 7));
    assert_eq!(registry.len(), 1);

    // the matching event finds the binding and its action
    let matched = registry.keyevent_match(&ctrl_a_event(), &mode);
    assert_eq!(matched, Some(binding.clone()));
    assert_eq!(registry.get_action(&binding), Some(&7));

    // after removal the same event matches nothing
    assert!(registry.remove_keybind(&binding));
    assert_eq!(registry.keyevent_match(&ctrl_a_event(), &mode), None);
    assert_eq!(registry.get_action(&binding), None);
}

#[test]
fn add_overwrites_equal_binding() {
    let mut registry: KeybindingRegistry<u32> = KeybindingRegistry::new();
    let binding = ctrl_a_binding(None, true, true);
    assert!(registry.add_keybind(binding.clone(), 1));
    assert!(registry.add_keybind(binding.clone(), 2));
    assert_eq!(registry.len(), 1);
    assert_eq!(registry.get_action(&binding), Some(&2));
}

#[test]
fn remove_absent_binding_is_noop() {
    let mut registry: KeybindingRegistry<u32> = KeybindingRegistry::new();
    let binding = ctrl_a_binding(None, true, true);
    assert!(!registry.remove_keybind(&binding));
    assert_eq!(registry.len(), 0);
}

#[test]
fn empty_modifiers_match_only_empty() {
    let mut registry: KeybindingRegistry<u32> = KeybindingRegistry::new();
    let mode = ScreenReaderMode::new("CommandMode");
    let binding = KeyBinding {
        key: Key::Other('a'),
        mods: Modifiers::empty(),
        repeat: 1,
        mode: None,
        notify: true,
        consume: false,
    };
    registry.add_keybind(binding.clone(), 1);

    // empty binding modifiers match an event with empty modifiers
    let bare = KeyEvent { key: Key::Other('a'), mods: Modifiers::empty(), repeat: 1 };
    assert_eq!(registry.keyevent_match(&bare, &mode), Some(binding));

    // and only that case: any event modifier breaks the match
    let shifted = KeyEvent {
        key: Key::Other('a'),
        mods: Modifiers::from_bits(modifiers::SHIFT_L),
        repeat: 1,
    };
    assert_eq!(registry.keyevent_match(&shifted, &mode), None);
}

#[test]
fn one_shared_modifier_bit_suffices() {
    let mut registry: KeybindingRegistry<u32> = KeybindingRegistry::new();
    let mode = ScreenReaderMode::new("CommandMode");
    let binding = ctrl_a_binding(None, true, true);
    registry.add_keybind(binding.clone(), 1);

    // a binding requiring control matches an event with control plus shift
    let extra = KeyEvent {
        key: Key::Other('a'),
        mods: Modifiers::from_bits(modifiers::CONTROL_L | modifiers::SHIFT_L),
        repeat: 1,
    };
    assert_eq!(registry.keyevent_match(&extra, &mode), Some(binding));
}

#[test]
fn modifier_intersection_requires_a_shared_bit() {
    let mut registry: KeybindingRegistry<u32> = KeybindingRegistry::new();
    let mode = ScreenReaderMode::new("CommandMode");
    registry.add_keybind(ctrl_a_binding(None, true, true), 1);

    // shift alone shares no bit with the control binding
    let shifted = KeyEvent {
        key: Key::Other('a'),
        mods: Modifiers::from_bits(modifiers::SHIFT_L),
        repeat: 1,
    };
    assert_eq!(registry.keyevent_match(&shifted, &mode), None);
}

#[test]
fn mode_gated_binding_never_matches_other_mode() {
    let mut registry: KeybindingRegistry<u32> = KeybindingRegistry::new();
    let binding = ctrl_a_binding(Some(ScreenReaderMode::new("BrowseMode")), true, true);
    registry.add_keybind(binding.clone(), 1);

    // the key, modifiers and repeat all fit, but the mode does not
    let command = ScreenReaderMode::new("CommandMode");
    assert_eq!(registry.keyevent_match(&ctrl_a_event(), &command), None);

    // under the required mode the same event matches
    let browse = ScreenReaderMode::new("BrowseMode");
    assert_eq!(registry.keyevent_match(&ctrl_a_event(), &browse), Some(binding));
}

#[test]
fn modeless_binding_matches_any_mode() {
    let mut registry: KeybindingRegistry<u32> = KeybindingRegistry::new();
    let binding = ctrl_a_binding(None, true, true);
    registry.add_keybind(binding.clone(), 1);
    let odd = ScreenReaderMode::new("SomeUnheardOfMode");
    assert_eq!(registry.keyevent_match(&ctrl_a_event(), &odd), Some(binding));
}

#[test]
fn repeat_count_matches_exactly() {
    let mut registry: KeybindingRegistry<u32> = KeybindingRegistry::new();
    let mode = ScreenReaderMode::new("CommandMode");
    registry.add_keybind(ctrl_a_binding(None, true, true), 1);
    let double = KeyEvent {
        key: Key::Other('a'),
        mods: Modifiers::from_bits(modifiers::CONTROL_L),
        repeat: 2,
    };
    assert_eq!(registry.keyevent_match(&double, &mode), None);
}

#[test]
fn consume_filter_gates_match() {
    let mut registry: KeybindingRegistry<u32> = KeybindingRegistry::new();
    let mode = ScreenReaderMode::new("CommandMode");
    let binding = ctrl_a_binding(None, true, true);
    registry.add_keybind(binding.clone(), 1);

    let found = registry.keybind_match(
        &Key::Other('a'),
        Modifiers::from_bits(modifiers::CONTROL_L),
        1,
        &mode,
        Some(true),
    );
    assert!(found.is_some());
    assert_eq!(&found.unwrap().0, &binding);

    let excluded = registry.keybind_match(
        &Key::Other('a'),
        Modifiers::from_bits(modifiers::CONTROL_L),
        1,
        &mode,
        Some(false),
    );
    assert!(excluded.is_none());
}

#[test]
fn decide_action_reports_binding_flags() {
    let mut registry: KeybindingRegistry<u32> = KeybindingRegistry::new();
    let mode = ScreenReaderMode::new("CommandMode");
    registry.add_keybind(ctrl_a_binding(None, true, false), 1);
    assert_eq!(registry.decide_action(&ctrl_a_event(), &mode), (true, false));

    // an event that matches nothing is neither notified nor consumed
    let other = KeyEvent { key: Key::Other('z'), mods: Modifiers::empty(), repeat: 1 };
    assert_eq!(registry.decide_action(&other, &mode), (false, false));
}
