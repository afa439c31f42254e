//! The pressed-key tracker: the ordered, deduplicated set of currently-held
//! raw keys, together with the immediately preceding snapshot, used to tell
//! a genuinely new key-down from an auto-repeat re-delivery by the OS.
//!
//! The tracker is owned and mutated by the capture thread alone, one event
//! at a time, strictly in arrival order.

use vstd::prelude::*;
use crate::keys::KeyCode;

verus! {

/// A raw key-transition event as delivered by the platform hook.
#[derive(Debug, Clone, Copy, PartialEq, Eq, Structural)]
pub enum RawKeyEventKind {
    Press,
    Release,
}

/// One raw key transition: a press or release of a platform key code.
#[derive(Debug, Clone, Copy, PartialEq, Eq, Structural)]
pub struct RawKeyEvent {
    pub kind: RawKeyEventKind,
    pub code: KeyCode,
}

/// What the tracker saw in one event.
#[derive(Debug, Clone, Copy, PartialEq, Eq, Structural)]
pub enum TrackerOutcome {
    /// A genuinely new key-down: the held set grew.
    NewTransition,
    /// A re-delivered press of a key already held (OS auto-repeat).
    Repeat,
    /// A release; releases never trigger binding matches.
    Release,
}

/// The held set after one event: a press adds the code, a release removes
/// it. Re-pressing a held key and releasing an absent one are no-ops.
pub open spec fn step_held(held: Set<KeyCode>, event: RawKeyEvent) -> Set<KeyCode> {
    match event.kind {
        RawKeyEventKind::Press => held.insert(event.code),
        RawKeyEventKind::Release => held.remove(event.code),
    }
}

/// The held set after replaying a whole sequence of events from an empty
/// keyboard.
pub open spec fn replay_held(events: Seq<RawKeyEvent>) -> Set<KeyCode>
    decreases events.len(),
{
    if events.len() == 0 {
        Set::empty()
    } else {
        step_held(replay_held(events.drop_last()), events.last())
    }
}

/// Whether the most recent transition of `code` in `events` is a press:
/// the code was pressed at some point and not released since.
pub open spec fn pressed_and_not_released(events: Seq<RawKeyEvent>, code: KeyCode) -> bool
    decreases events.len(),
{
    if events.len() == 0 {
        false
    } else if events.last().code == code {
        events.last().kind == RawKeyEventKind::Press
    } else {
        pressed_and_not_released(events.drop_last(), code)
    }
}

/// Replay law: after any sequence of press and release events, the held set
/// holds exactly the keys whose most recent transition was a press — the
/// presses minus the releases, as a deduplicated set.
pub proof fn lemma_replay_held(events: Seq<RawKeyEvent>, code: KeyCode)
    ensures
        replay_held(events).contains(code) == pressed_and_not_released(events, code),
    decreases events.len(),
{
    if events.len() > 0 {
        lemma_replay_held(events.drop_last(), code);
    }
}

/// The set of currently-held raw key codes, in insertion order and free of
/// duplicates, beside the snapshot taken just before the latest event.
#[derive(Debug)]
pub struct PressedKeyTracker {
    current: Vec<KeyCode>,
    last: Vec<KeyCode>,
}

impl View for PressedKeyTracker {
    type V = Seq<KeyCode>;

    /// The currently-held codes, oldest press first.
    closed spec fn view(&self) -> Seq<KeyCode> {
        self.current@
    }
}

/// Copies a held-set vector. Key codes are plain values, so the copy is
/// element-for-element equal.
fn copy_codes(v: &Vec<KeyCode>) -> (r: Vec<KeyCode>)
    ensures
        r@ == v@,
{
    let mut r: Vec<KeyCode> = Vec::new();
    let mut i: usize = 0;
    while i < v.len()
        invariant
            i <= v.len(),
            r@ == v@.subrange(0, i as int),
        decreases v.len() - i,
    {
        r.push(v[i]);
        proof {
            assert(v@.subrange(0, i + 1) =~= v@.subrange(0, i as int).push(v@[i as int]));
        }
        i = i + 1;
    }
    proof {
        assert(v@.subrange(0, v@.len() as int) =~= v@);
    }
    r
}

/// Finds the first index holding `code`, if any.
fn find_code(v: &Vec<KeyCode>, code: KeyCode) -> (r: Option<usize>)
    ensures
        match r {
            Some(i) => i < v@.len() && v@[i as int] == code && forall|j: int|
                0 <= j < i ==> v@[j] != code,
            None => !v@.contains(code),
        },
{
    let mut i: usize = 0;
    while i < v.len()
        invariant
            i <= v.len(),
            forall|j: int| 0 <= j < i ==> v@[j] != code,
        decreases v.len() - i,
    {
        if v[i] == code {
            return Some(i);
        }
        i = i + 1;
    }
    None
}

impl PressedKeyTracker {
    /// The snapshot of the held set taken just before the latest event.
    pub closed spec fn last_view(&self) -> Seq<KeyCode> {
        self.last@
    }

    /// The held set never holds a code twice.
    pub open spec fn wf(&self) -> bool {
        forall|i: int, j: int|
            #![trigger self@[i], self@[j]]
            0 <= i < j < self@.len() ==> self@[i] != self@[j]
    }

    /// A tracker with nothing held.
    pub fn new() -> (r: PressedKeyTracker)
        ensures
            r.wf(),
            r@ == Seq::<KeyCode>::empty(),
            r.last_view() == Seq::<KeyCode>::empty(),
    {
        PressedKeyTracker { current: Vec::new(), last: Vec::new() }
    }

    /// Borrows the held set, oldest press first, for normalization.
    pub fn held(&self) -> (r: &Vec<KeyCode>)
        ensures
            r@ == self@,
    {
        &self.current
    }

    /// Observes one raw event, called exactly once per event in arrival
    /// order. A press of a new code grows the held set and reports a new
    /// transition; a press of a held code is an auto-repeat re-delivery and
    /// leaves the set alone; a release removes the code, and releasing a
    /// code that is not held is a no-op, not an error.
    pub fn observe(&mut self, event: RawKeyEvent) -> (o: TrackerOutcome)
        requires
            old(self).wf(),
        ensures
            final(self).wf(),
            final(self).last_view() == old(self)@,
            (match event.kind {
                RawKeyEventKind::Press => {
                    if old(self)@.contains(event.code) {
                        o == TrackerOutcome::Repeat && final(self)@ == old(self)@
                    } else {
                        o == TrackerOutcome::NewTransition && final(self)@ == old(self)@.push(
                            event.code,
                        )
                    }
                },
                RawKeyEventKind::Release => o == TrackerOutcome::Release && final(self)@ == old(
                    self,
                )@.remove_value(event.code),
            }),
            final(self)@.to_set() == step_held(old(self)@.to_set(), event),
    {
        let snapshot = copy_codes(&self.current);
        self.last = snapshot;
        proof {
            assert(self.current@ == old(self)@);
        }
        match event.kind {
            RawKeyEventKind::Press => {
                match find_code(&self.current, event.code) {
                    Some(_) => {
                        proof {
                            assert(self.current@.to_set() =~= self.current@.to_set().insert(
                                event.code,
                            ));
                        }
                        TrackerOutcome::Repeat
                    },
                    None => {
                        let ghost before = self.current@;
                        self.current.push(event.code);
                        proof {
                            assert forall|a: int, b: int|
                                0 <= a < b < self.current@.len() implies self.current@[a]
                                != self.current@[b] by {
                                if b == before.len() {
                                    assert(!before.contains(event.code));
                                    assert(before[a] == self.current@[a]);
                                } else {
                                    assert(before[a] != before[b]);
                                }
                            }
                            assert forall|x: KeyCode|
                                self.current@.to_set().contains(x)
                                    == before.to_set().insert(event.code).contains(x) by {
                                if before.to_set().insert(event.code).contains(x) {
                                    if x == event.code {
                                        assert(self.current@[before.len() as int] == x);
                                    } else {
                                        let i = choose|i: int|
                                            0 <= i < before.len() && before[i] == x;
                                        assert(self.current@[i] == x);
                                    }
                                }
                            }
                            assert(self.current@.to_set() =~= before.to_set().insert(event.code));
                        }
                        TrackerOutcome::NewTransition
                    },
                }
            },
            RawKeyEventKind::Release => {
                let ghost before = self.current@;
                match find_code(&self.current, event.code) {
                    Some(i) => {
                        self.current.remove(i);
                        proof {
                            before.index_of_first_ensures(event.code);
                            assert(before.index_of_first(event.code) == Some(i as int));
                            assert forall|a: int, b: int|
                                0 <= a < b < self.current@.len() implies self.current@[a]
                                != self.current@[b] by {
                                let cur = self.current@;
                                let a2: int = if a < i { a } else { a + 1 };
                                let b2: int = if b < i { b } else { b + 1 };
                                assert(cur[a] == before[a2]);
                                assert(cur[b] == before[b2]);
                                assert(before[a2] != before[b2]);
                            }
                            assert forall|x: KeyCode|
                                self.current@.to_set().contains(x) == before.to_set().remove(
                                    event.code,
                                ).contains(x) by {
                                let cur = self.current@;
                                if cur.to_set().contains(x) {
                                    let k = choose|k: int| 0 <= k < cur.len() && cur[k] == x;
                                    if k < i {
                                        assert(before[k] == x);
                                        assert(before[k] != before[i as int]);
                                    } else {
                                        assert(before[k + 1] == x);
                                        assert(before[i as int] != before[k + 1]);
                                    }
                                    assert(x != event.code);
                                } else if before.to_set().remove(event.code).contains(x) {
                                    let k = choose|k: int|
                                        0 <= k < before.len() && before[k] == x;
                                    if k < i {
                                        assert(cur[k] == x);
                                    } else {
                                        assert(k != i);
                                        assert(cur[k - 1] == x);
                                    }
                                }
                            }
                            assert(self.current@.to_set() =~= before.to_set().remove(event.code));
                            assert(self.current@ == before.remove_value(event.code));
                        }
                        TrackerOutcome::Release
                    },
                    None => {
                        proof {
                            before.index_of_first_ensures(event.code);
                            assert(before.remove_value(event.code) == before);
                            assert(self.current@.to_set() =~= before.to_set().remove(event.code));
                        }
                        TrackerOutcome::Release
                    },
                }
            },
        }
    }
}

} // verus!
