//! The classifier: the per-event decision function run synchronously on the
//! capture thread. It feeds the event through the pressed-key tracker,
//! normalizes the held set, consults the registry under the current mode,
//! and decides whether the event passes through, is notified, or is
//! consumed — handing back the matched action for the host to schedule.

use vstd::prelude::*;
use crate::EventAction;
use crate::binding::KeyBindingView;
use crate::keys::KeyCode;
use crate::mode::ModeState;
use crate::modifiers::Modifiers;
use crate::normalize::{first_logical_key, fold_modifiers, normalize};
use crate::registry::{KeybindingRegistry, spec_first_match};
use crate::tracker::{PressedKeyTracker, RawKeyEvent, RawKeyEventKind, TrackerOutcome, step_held};

verus! {

/// The repeat count the classifier matches with: every genuinely new press
/// counts as a single strike.
pub const MATCH_REPEAT: u8 = 1;

/// The decision for one raw event, given the keys held before it, the
/// registry entries and the current mode: releases, auto-repeat
/// re-deliveries, purely-modifier states and unmatched events pass through;
/// a matched binding is consumed or notified by its own consume flag, and
/// its entry is handed back for scheduling.
pub open spec fn spec_classify<A>(
    held_before: Seq<KeyCode>,
    registry: Seq<(KeyBindingView, A)>,
    current_mode: Seq<char>,
    event: RawKeyEvent,
) -> (EventAction, Option<(KeyBindingView, A)>) {
    match event.kind {
        RawKeyEventKind::Release => (EventAction::Passthrough, None),
        RawKeyEventKind::Press => if held_before.contains(event.code) {
            (EventAction::Passthrough, None)
        } else {
            let held = held_before.push(event.code);
            match first_logical_key(held) {
                None => (EventAction::Passthrough, None),
                Some(key) => match spec_first_match(
                    registry,
                    key,
                    Modifiers { bits: fold_modifiers(held) },
                    MATCH_REPEAT,
                    current_mode,
                    None,
                ) {
                    None => (EventAction::Passthrough, None),
                    Some(p) => (
                        if p.0.consume {
                            EventAction::Consume
                        } else {
                            EventAction::Notify
                        },
                        Some(p),
                    ),
                },
            }
        },
    }
}

/// Classifies one raw event. Must stay quick and non-blocking: the OS holds
/// the input pipeline open until it returns. The tracker advances by exactly
/// this event; the registry and mode are the snapshot the caller holds.
pub fn classify<'a, A>(
    tracker: &mut PressedKeyTracker,
    registry: &'a KeybindingRegistry<A>,
    mode: &ModeState,
    event: RawKeyEvent,
) -> (r: (EventAction, Option<&'a A>))
    requires
        old(tracker).wf(),
    ensures
        final(tracker).wf(),
        final(tracker).last_view() == old(tracker)@,
        final(tracker)@.to_set() == step_held(old(tracker)@.to_set(), event),
        (match event.kind {
            RawKeyEventKind::Press => {
                if old(tracker)@.contains(event.code) {
                    final(tracker)@ == old(tracker)@
                } else {
                    final(tracker)@ == old(tracker)@.push(event.code)
                }
            },
            RawKeyEventKind::Release => final(tracker)@ == old(tracker)@.remove_value(event.code),
        }),
        r.0 == spec_classify(old(tracker)@, registry@, mode@, event).0,
        (match spec_classify(old(tracker)@, registry@, mode@, event).1 {
            Some(p) => r.1 is Some && *r.1.unwrap() == p.1,
            None => r.1 is None,
        }),
{
    let outcome = tracker.observe(event);
    match outcome {
        TrackerOutcome::NewTransition => {
            let (key_opt, mods) = normalize(tracker.held());
            match key_opt {
                Some(key) => {
                    match registry.keybind_match(&key, mods, MATCH_REPEAT, mode.current(), None) {
                        Some(p) => {
                            if p.0.consume {
                                (EventAction::Consume, Some(&p.1))
                            } else {
                                (EventAction::Notify, Some(&p.1))
                            }
                        },
                        None => (EventAction::Passthrough, None),
                    }
                },
                None => (EventAction::Passthrough, None),
            }
        },
        TrackerOutcome::Repeat => (EventAction::Passthrough, None),
        TrackerOutcome::Release => (EventAction::Passthrough, None),
    }
}

} // verus!
