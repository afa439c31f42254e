//! Input-dispatch core of a screen reader: tracks which keys are held,
//! normalizes the held set to a logical key plus a modifier bitset, matches
//! the result against a registry of key bindings gated by the current
//! screen-reader mode, and decides whether each raw event is passed through,
//! notified, or consumed.

use vstd::prelude::*;

pub mod binding;
pub mod classify;
pub mod keys;
pub mod mode;
pub mod modifiers;
pub mod normalize;
pub mod queue;
pub mod registry;
pub mod tracker;

verus! {

/// An action to take when an input event arrives.
#[derive(Debug, Clone, Copy, PartialEq, Eq, Structural)]
pub enum EventAction {
    /// Don't consume the event, allow it to pass through to the application.
    Passthrough,
    /// Don't consume the event, but notify us that it happened. Useful for
    /// macros, where you want to record the events, but also want them to
    /// pass through.
    Notify,
    /// Consume the event, and notify us of it. Used for screen reader
    /// commands and key bindings.
    Consume,
}

impl EventAction {
    /// Returns `true` if this action will cause the event to be dispatched
    /// to observers on the notification channel.
    pub fn notify(self) -> (r: bool)
        ensures
            r == (self == EventAction::Notify || self == EventAction::Consume),
    {
        match self {
            EventAction::Notify => true,
            EventAction::Consume => true,
            EventAction::Passthrough => false,
        }
    }
}

} // verus!
