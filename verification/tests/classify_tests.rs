//! End-to-end classifier scenarios: a control-plus-letter binding against
//! presses, auto-repeats and unmodified presses, plus normalizer behaviour.

use odilia_input::EventAction;
use odilia_input::binding::KeyBinding;
use odilia_input::classify::classify;
use odilia_input::keys::{Key, KeyCode, code_modifier, code_to_key};
use odilia_input::mode::{ModeState, ScreenReaderMode};
use odilia_input::modifiers::{self, Modifiers, modifiers_match};
use odilia_input::normalize::normalize;
use odilia_input::registry::KeybindingRegistry;
use odilia_input::tracker::{PressedKeyTracker, RawKeyEvent, RawKeyEventKind};

fn press(code: KeyCode) -> RawKeyEvent {
    RawKeyEvent { kind: RawKeyEventKind::Press, code }
}

fn ctrl_a_consume_binding() -> KeyBinding {
    KeyBinding {
        key: Key::Other('a'),
        mods: Modifiers::from_bits(modifiers::CONTROL_L),
        repeat: 1,
        mode: None,
        notify: true,
        consume: true,
    }
}

#[test]
fn ctrl_a_press_is_consumed_and_scheduled_once() {
    let mut tracker = PressedKeyTracker::new();
    let mut registry: KeybindingRegistry<u32> = KeybindingRegistry::new();
    registry.add_keybind(ctrl_a_consume_binding(), 42);
    let mode = ModeState::new(ScreenReaderMode::new("CommandMode"));

    // the modifier press alone maps to no logical key: passthrough
    let r1 = classify(&mut tracker, &registry, &mode, press(KeyCode::ControlLeft));
    assert_eq!(r1.0, EventAction::Passthrough);
    assert_eq!(r1.1, None);

    // control + a matches the binding: consumed, action handed back once
    let r2 = classify(&mut tracker, &registry, &mode, press(KeyCode::KeyA));
    assert_eq!(r2.0, EventAction::Consume);
    assert_eq!(r2.1, Some(&42));
}

#[test]
fn auto_repeat_redelivery_passes_through() {
    let mut tracker = PressedKeyTracker::new();
    let mut registry: KeybindingRegistry<u32> = KeybindingRegistry::new();
    registry.add_keybind(ctrl_a_consume_binding(), 42);
    let mode = ModeState::new(ScreenReaderMode::new("CommandMode"));

    classify(&mut tracker, &registry, &mode, press(KeyCode::ControlLeft));
    let first = classify(&mut tracker, &registry, &mode, press(KeyCode::KeyA));
    assert_eq!(first.0, EventAction::Consume);
    assert_eq!(first.1, Some(&42));

    // the same press re-delivered without a release: no action scheduled again
    let second = classify(&mut tracker, &registry, &mode, press(KeyCode::KeyA));
    assert_eq!(second.0, EventAction::Passthrough);
    assert_eq!(second.1, None);
    let third = classify(&mut tracker, &registry, &mode, press(KeyCode::KeyA));
    assert_eq!(third.0, EventAction::Passthrough);
    assert_eq!(third.1, None);
}

#[test]
fn unmodified_press_does_not_match_modifier_binding() {
    let mut tracker = PressedKeyTracker::new();
    let mut registry: KeybindingRegistry<u32> = KeybindingRegistry::new();
    registry.add_keybind(ctrl_a_consume_binding(), 42);
    let mode = ModeState::new(ScreenReaderMode::new("CommandMode"));

    // Press(A) alone: modifier intersection fails, so the event passes through
    let r = classify(&mut tracker, &registry, &mode, press(KeyCode::KeyA));
    assert_eq!(r.0, EventAction::Passthrough);
    assert_eq!(r.1, None);
}

#[test]
fn release_passes_through() {
    let mut tracker = PressedKeyTracker::new();
    let mut registry: KeybindingRegistry<u32> = KeybindingRegistry::new();
    registry.add_keybind(ctrl_a_consume_binding(), 42);
    let mode = ModeState::new(ScreenReaderMode::new("CommandMode"));

    classify(&mut tracker, &registry, &mode, press(KeyCode::ControlLeft));
    classify(&mut tracker, &registry, &mode, press(KeyCode::KeyA));
    let r = classify(
        &mut tracker,
        &registry,
        &mode,
        RawKeyEvent { kind: RawKeyEventKind::Release, code: KeyCode::KeyA },
    );
    assert_eq!(r.0, EventAction::Passthrough);
    assert_eq!(r.1, None);
}

#[test]
fn notify_binding_yields_notify() {
    let mut tracker = PressedKeyTracker::new();
    let mut registry: KeybindingRegistry<u32> = KeybindingRegistry::new();
    let mut binding = ctrl_a_consume_binding();
    binding.consume = false;
    registry.add_keybind(binding, 9);
    let mode = ModeState::new(ScreenReaderMode::new("CommandMode"));

    classify(&mut tracker, &registry, &mode, press(KeyCode::ControlLeft));
    let r = classify(&mut tracker, &registry, &mode, press(KeyCode::KeyA));
    assert_eq!(r.0, EventAction::Notify);
    assert_eq!(r.1, Some(&9));
}

#[test]
fn event_action_notify_flag() {
    assert!(!EventAction::Passthrough.notify());
    assert!(EventAction::Notify.notify());
    assert!(EventAction::Consume.notify());
}

#[test]
fn normalizer_takes_first_logical_key() {
    let held = vec![KeyCode::ControlLeft, KeyCode::KeyA, KeyCode::KeyS];
    let (key, mods) = normalize(&held);
    // first-match policy: the earliest held non-modifier key wins, never both
    assert_eq!(key, Some(Key::Other('a')));
    assert_eq!(mods.bits, modifiers::CONTROL_L);
}

#[test]
fn normalizer_combines_modifier_bits() {
    let held = vec![KeyCode::ControlLeft, KeyCode::ShiftLeft, KeyCode::CapsLock];
    let (key, mods) = normalize(&held);
    assert_eq!(key, None);
    assert_eq!(mods.bits, modifiers::CONTROL_L | modifiers::SHIFT_L | modifiers::ODILIA);
}

#[test]
fn key_table_spot_checks() {
    assert_eq!(code_to_key(KeyCode::F5), Some(Key::F5));
    assert_eq!(code_to_key(KeyCode::BackQuote), Some(Key::Other('`')));
    assert_eq!(code_to_key(KeyCode::Num7), Some(Key::Kp7));
    assert_eq!(code_to_key(KeyCode::ControlLeft), None);
    assert_eq!(code_to_key(KeyCode::Unknown), None);
    assert_eq!(code_modifier(KeyCode::CapsLock), modifiers::ODILIA);
    assert_eq!(code_modifier(KeyCode::MetaRight), modifiers::META_R);
    assert_eq!(code_modifier(KeyCode::KeyA), modifiers::NONE);
}

#[test]
fn modifier_matching_cases() {
    let none = Modifiers::empty();
    let ctrl = Modifiers::from_bits(modifiers::CONTROL_L);
    let ctrl_shift = Modifiers::from_bits(modifiers::CONTROL_L | modifiers::SHIFT_L);
    let shift = Modifiers::from_bits(modifiers::SHIFT_L);
    assert!(modifiers_match(none, none));
    assert!(!modifiers_match(none, ctrl));
    assert!(!modifiers_match(ctrl, none));
    assert!(modifiers_match(ctrl, ctrl_shift));
    assert!(!modifiers_match(ctrl, shift));
    assert!(ctrl_shift.contains(ctrl));
    assert!(!ctrl.contains(ctrl_shift));
    assert!(ctrl.intersects(ctrl_shift));
    assert!(!ctrl.intersects(shift));
    assert_eq!(ctrl.union(shift).bits, ctrl_shift.bits);
    assert!(none.is_empty());
    assert!(!ctrl.is_empty());
}

#[test]
fn mode_state_read_after_write() {
    let mut state = ModeState::new(ScreenReaderMode::new("CommandMode"));
    assert_eq!(state.get_sr_mode(), ScreenReaderMode::new("CommandMode"));
    state.set_sr_mode(ScreenReaderMode::new("BrowseMode"));
    assert_eq!(state.get_sr_mode(), ScreenReaderMode::new("BrowseMode"));
}
