//! The keybinding registry: a mapping from key bindings to actions, with
//! unique keys, mutated by add/remove and read by the matcher. The action
//! type is left generic: the host hands in whatever it schedules, and this
//! core never looks inside it.
//!
//! Matching returns the first entry that fits; when several bindings'
//! modifier sets intersect one event, the result depends on the registry's
//! entry order, which callers must treat as unspecified (though it is
//! deterministic for a given insertion history).

use vstd::prelude::*;
use crate::binding::{KeyBinding, KeyBindingView, KeyEvent, binding_matches, consume_gate, event_matches_binding};
use crate::keys::Key;
use crate::mode::ScreenReaderMode;
use crate::modifiers::Modifiers;

verus! {

/// Whether some entry carries exactly this binding.
pub open spec fn spec_contains_binding<A>(s: Seq<(KeyBindingView, A)>, kb: KeyBindingView) -> bool {
    exists|i: int| 0 <= i < s.len() && s[i].0 == kb
}

/// The index carrying this binding; meaningful under key uniqueness.
pub open spec fn spec_binding_index<A>(s: Seq<(KeyBindingView, A)>, kb: KeyBindingView) -> int {
    choose|i: int| 0 <= i < s.len() && s[i].0 == kb
}

/// The first entry, in registry order, whose binding matches the event and
/// passes the consume filter.
pub open spec fn spec_first_match<A>(
    s: Seq<(KeyBindingView, A)>,
    key: Key,
    mods: Modifiers,
    repeat: u8,
    current_mode: Seq<char>,
    consume_filter: Option<bool>,
) -> Option<(KeyBindingView, A)>
    decreases s.len(),
{
    if s.len() == 0 {
        None
    } else if binding_matches(s[0].0, key, mods, repeat, current_mode) && consume_gate(
        s[0].0,
        consume_filter,
    ) {
        Some(s[0])
    } else {
        spec_first_match(s.drop_first(), key, mods, repeat, current_mode, consume_filter)
    }
}

/// Whatever the matcher returns does match: the first-match result always
/// satisfies the binding predicate, passes the consume filter, and is an
/// entry of the registry.
pub proof fn lemma_first_match_matches<A>(
    s: Seq<(KeyBindingView, A)>,
    key: Key,
    mods: Modifiers,
    repeat: u8,
    current_mode: Seq<char>,
    consume_filter: Option<bool>,
    p: (KeyBindingView, A),
)
    requires
        spec_first_match(s, key, mods, repeat, current_mode, consume_filter) == Some(p),
    ensures
        binding_matches(p.0, key, mods, repeat, current_mode),
        consume_gate(p.0, consume_filter),
        exists|i: int| 0 <= i < s.len() && s[i] == p,
    decreases s.len(),
{
    if s.len() > 0 {
        if binding_matches(s[0].0, key, mods, repeat, current_mode) && consume_gate(
            s[0].0,
            consume_filter,
        ) {
            assert(s[0] == p);
        } else {
            lemma_first_match_matches(
                s.drop_first(),
                key,
                mods,
                repeat,
                current_mode,
                consume_filter,
                p,
            );
            let i = choose|i: int| 0 <= i < s.drop_first().len() && s.drop_first()[i] == p;
            assert(s[i + 1] == p);
        }
    }
}

/// When no entry matches, the matcher returns nothing, and conversely.
pub proof fn lemma_first_match_none<A>(
    s: Seq<(KeyBindingView, A)>,
    key: Key,
    mods: Modifiers,
    repeat: u8,
    current_mode: Seq<char>,
    consume_filter: Option<bool>,
)
    requires
        forall|i: int|
            0 <= i < s.len() ==> !(binding_matches(#[trigger] s[i].0, key, mods, repeat,
            current_mode) && consume_gate(s[i].0, consume_filter)),
    ensures
        spec_first_match(s, key, mods, repeat, current_mode, consume_filter) is None,
    decreases s.len(),
{
    if s.len() > 0 {
        assert(forall|i: int|
            0 <= i < s.drop_first().len() ==> s.drop_first()[i] == s[i + 1]);
        lemma_first_match_none(s.drop_first(), key, mods, repeat, current_mode, consume_filter);
    }
}

/// Mode gating excludes absolutely: a binding that requires one mode is
/// never the match under a different current mode, whatever its key,
/// modifiers or repeat count say, and whatever else the registry holds.
pub proof fn lemma_mode_mismatch_never_matches<A>(
    s: Seq<(KeyBindingView, A)>,
    key: Key,
    mods: Modifiers,
    repeat: u8,
    current_mode: Seq<char>,
    consume_filter: Option<bool>,
    b: KeyBindingView,
    required: Seq<char>,
)
    requires
        b.mode == Some(required),
        required != current_mode,
    ensures
        !binding_matches(b, key, mods, repeat, current_mode),
        forall|a: A|
            spec_first_match(s, key, mods, repeat, current_mode, consume_filter) != Some(
                (b, a),
            ),
{
    assert forall|a: A|
        spec_first_match(s, key, mods, repeat, current_mode, consume_filter) != Some(
            (b, a),
        ) by {
        if spec_first_match(s, key, mods, repeat, current_mode, consume_filter) == Some((b, a)) {
            lemma_first_match_matches(s, key, mods, repeat, current_mode, consume_filter, (b, a));
        }
    }
}

/// Round trip: in a registry whose other entries do not match the event,
/// adding a binding that matches makes the matcher return that binding with
/// its action, and without it the matcher returns nothing — so removing the
/// binding again takes the match away.
pub proof fn lemma_match_round_trip<A>(
    s: Seq<(KeyBindingView, A)>,
    b: KeyBindingView,
    a: A,
    key: Key,
    mods: Modifiers,
    repeat: u8,
    current_mode: Seq<char>,
    consume_filter: Option<bool>,
)
    requires
        binding_matches(b, key, mods, repeat, current_mode),
        consume_gate(b, consume_filter),
        forall|i: int|
            0 <= i < s.len() ==> !(binding_matches(#[trigger] s[i].0, key, mods, repeat,
            current_mode) && consume_gate(s[i].0, consume_filter)),
    ensures
        spec_first_match(s.push((b, a)), key, mods, repeat, current_mode, consume_filter)
            == Some((b, a)),
        spec_first_match(s, key, mods, repeat, current_mode, consume_filter) is None,
    decreases s.len(),
{
    lemma_first_match_none(s, key, mods, repeat, current_mode, consume_filter);
    if s.len() == 0 {
        assert(s.push((b, a))[0] == (b, a));
    } else {
        let t = s.push((b, a));
        assert(t[0] == s[0]);
        assert(t.drop_first() =~= s.drop_first().push((b, a)));
        assert(forall|i: int|
            0 <= i < s.drop_first().len() ==> s.drop_first()[i] == s[i + 1]);
        lemma_match_round_trip(
            s.drop_first(),
            b,
            a,
            key,
            mods,
            repeat,
            current_mode,
            consume_filter,
        );
    }
}

/// The keybinding registry: bindings are unique keys, entry order is an
/// implementation detail of the insertion history.
#[derive(Debug)]
pub struct KeybindingRegistry<A> {
    entries: Vec<(KeyBinding, A)>,
}

impl<A> View for KeybindingRegistry<A> {
    type V = Seq<(KeyBindingView, A)>;

    /// The entries in registry order, bindings collapsed to their values.
    closed spec fn view(&self) -> Seq<(KeyBindingView, A)> {
        self.entries@.map_values(|p: (KeyBinding, A)| (p.0@, p.1))
    }
}

impl<A> KeybindingRegistry<A> {
    /// No two entries carry the same binding.
    pub open spec fn wf(&self) -> bool {
        forall|i: int, j: int|
            #![trigger self@[i], self@[j]]
            0 <= i < j < self@.len() ==> self@[i].0 != self@[j].0
    }

    /// An empty registry.
    pub fn new() -> (r: KeybindingRegistry<A>)
        ensures
            r.wf(),
            r@ == Seq::<(KeyBindingView, A)>::empty(),
    {
        let r = KeybindingRegistry { entries: Vec::new() };
        proof {
            assert(r@ =~= Seq::<(KeyBindingView, A)>::empty());
        }
        r
    }

    /// How many bindings are registered.
    pub fn len(&self) -> (r: usize)
        ensures
            r == self@.len(),
    {
        self.entries.len()
    }

    /// The first entry position carrying this binding, if any.
    fn position_of(&self, kb: &KeyBinding) -> (r: Option<usize>)
        ensures
            match r {
                Some(i) => i < self@.len() && self@[i as int].0 == kb@,
                None => !spec_contains_binding(self@, kb@),
            },
    {
        let mut i: usize = 0;
        while i < self.entries.len()
            invariant
                i <= self.entries.len(),
                self@.len() == self.entries@.len(),
                forall|j: int| 0 <= j < i ==> #[trigger] self@[j].0 != kb@,
            decreases self.entries.len() - i,
        {
            if self.entries[i].0 == *kb {
                return Some(i);
            }
            i = i + 1;
        }
        None
    }

    /// Inserts the action under this binding, replacing the action of an
    /// equal existing binding. Always succeeds (idempotent overwrite) and
    /// says so.
    pub fn add_keybind(&mut self, kb: KeyBinding, action: A) -> (r: bool)
        requires
            old(self).wf(),
        ensures
            final(self).wf(),
            r == true,
            spec_contains_binding(final(self)@, kb@),
            (if spec_contains_binding(old(self)@, kb@) {
                final(self)@ == old(self)@.remove(spec_binding_index(old(self)@, kb@)).push(
                    (kb@, action),
                )
            } else {
                final(self)@ == old(self)@.push((kb@, action))
            }),
    {
        let ghost before = self@;
        match self.position_of(&kb) {
            Some(i) => {
                self.entries.remove(i);
                proof {
                    assert(self@ =~= before.remove(i as int));
                    assert(spec_binding_index(before, kb@) == i as int) by {
                        let j = spec_binding_index(before, kb@);
                        assert(before[j].0 == kb@);
                    }
                    assert(forall|j: int|
                        0 <= j < self@.len() ==> #[trigger] self@[j].0 != kb@) by {
                        assert(forall|j: int|
                            0 <= j < before.len() && j != i ==> #[trigger] before[j].0 != kb@);
                    }
                }
            },
            None => {},
        }
        let ghost mid = self@;
        self.entries.push((kb, action));
        proof {
            assert(self@ =~= mid.push((kb@, action)));
            assert(forall|j: int| 0 <= j < mid.len() ==> #[trigger] mid[j].0 != kb@);
            assert(spec_contains_binding(self@, kb@)) by {
                assert(self@[self@.len() - 1].0 == kb@);
            }
        }
        true
    }

    /// Deletes the entry for this binding and reports whether anything was
    /// removed; removing an absent binding is a no-op, not an error.
    pub fn remove_keybind(&mut self, kb: &KeyBinding) -> (r: bool)
        requires
            old(self).wf(),
        ensures
            final(self).wf(),
            r == spec_contains_binding(old(self)@, kb@),
            !spec_contains_binding(final(self)@, kb@),
            (if spec_contains_binding(old(self)@, kb@) {
                final(self)@ == old(self)@.remove(spec_binding_index(old(self)@, kb@))
            } else {
                final(self)@ == old(self)@
            }),
    {
        let ghost before = self@;
        match self.position_of(kb) {
            Some(i) => {
                self.entries.remove(i);
                proof {
                    assert(self@ =~= before.remove(i as int));
                    assert(spec_binding_index(before, kb@) == i as int) by {
                        let j = spec_binding_index(before, kb@);
                        assert(before[j].0 == kb@);
                    }
                    assert(forall|j: int|
                        0 <= j < self@.len() ==> #[trigger] self@[j].0 != kb@) by {
                        assert(forall|j: int|
                            0 <= j < before.len() && j != i ==> #[trigger] before[j].0 != kb@);
                    }
                }
                true
            },
            None => false,
        }
    }

    /// The action bound to this binding, if registered.
    pub fn get_action(&self, kb: &KeyBinding) -> (r: Option<&A>)
        requires
            self.wf(),
        ensures
            match r {
                Some(a) => spec_contains_binding(self@, kb@) && *a == self@[spec_binding_index(
                    self@,
                    kb@,
                )].1,
                None => !spec_contains_binding(self@, kb@),
            },
    {
        match self.position_of(kb) {
            Some(i) => {
                proof {
                    assert(spec_binding_index(self@, kb@) == i as int) by {
                        let j = spec_binding_index(self@, kb@);
                        assert(self@[j].0 == kb@);
                    }
                }
                Some(&self.entries[i].1)
            },
            None => None,
        }
    }

    /// Returns the first entry, in registry order, whose binding matches
    /// the normalized event under the current mode and passes the consume
    /// filter — key and repeat exactly, modifiers by intersection (or both
    /// empty), mode gated by the binding's own requirement.
    pub fn keybind_match(
        &self,
        key: &Key,
        mods: Modifiers,
        repeat: u8,
        current_mode: &ScreenReaderMode,
        consume_filter: Option<bool>,
    ) -> (r: Option<&(KeyBinding, A)>)
        ensures
            match r {
                Some(p) => spec_first_match(
                    self@,
                    *key,
                    mods,
                    repeat,
                    current_mode@,
                    consume_filter,
                ) == Some((p.0@, p.1)),
                None => spec_first_match(
                    self@,
                    *key,
                    mods,
                    repeat,
                    current_mode@,
                    consume_filter,
                ) is None,
            },
    {
        let ghost s = self@;
        let mut i: usize = 0;
        proof {
            assert(s.skip(0) =~= s);
        }
        while i < self.entries.len()
            invariant
                i <= self.entries.len(),
                s == self@,
                s.len() == self.entries@.len(),
                spec_first_match(s, *key, mods, repeat, current_mode@, consume_filter)
                    == spec_first_match(
                    s.skip(i as int),
                    *key,
                    mods,
                    repeat,
                    current_mode@,
                    consume_filter,
                ),
            decreases self.entries.len() - i,
        {
            proof {
                assert(s.skip(i as int)[0] == s[i as int]);
                assert(s.skip(i as int).drop_first() =~= s.skip(i + 1));
            }
            let matched = event_matches_binding(&self.entries[i].0, key, mods, repeat, current_mode);
            let consume_ok = match consume_filter {
                Some(c) => self.entries[i].0.consume == c,
                None => true,
            };
            if matched && consume_ok {
                return Some(&self.entries[i]);
            }
            i = i + 1;
        }
        proof {
            assert(s.skip(s.len() as int) =~= Seq::<(KeyBindingView, A)>::empty());
        }
        None
    }

    /// Matches a whole normalized key event, returning a copy of the first
    /// matching binding, with no consume filter applied.
    pub fn keyevent_match(&self, ev: &KeyEvent, current_mode: &ScreenReaderMode) -> (r: Option<
        KeyBinding,
    >)
        ensures
            match spec_first_match(self@, ev.key, ev.mods, ev.repeat, current_mode@, None::<
                bool,
            >) {
                Some(p) => r is Some && r.unwrap()@ == p.0,
                None => r is None,
            },
    {
        match self.keybind_match(&ev.key, ev.mods, ev.repeat, current_mode, None) {
            Some(p) => Some(p.0.clone()),
            None => None,
        }
    }

    /// Decides, for a normalized key event, whether the event is notified
    /// and whether it is consumed: the matched binding's own flags, or
    /// neither when nothing matches.
    pub fn decide_action(&self, ev: &KeyEvent, current_mode: &ScreenReaderMode) -> (r: (
        bool,
        bool,
    ))
        ensures
            match spec_first_match(self@, ev.key, ev.mods, ev.repeat, current_mode@, None::<
                bool,
            >) {
                Some(p) => r == (p.0.notify, p.0.consume),
                None => r == (false, false),
            },
    {
        match self.keybind_match(&ev.key, ev.mods, ev.repeat, current_mode, None) {
            Some(p) => (p.0.notify, p.0.consume),
            None => (false, false),
        }
    }
}

} // verus!
