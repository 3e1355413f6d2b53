//! The press-state tracker: the shared set of currently held key or button
//! identifiers, and the dedup model it implements.
//!
//! A press of an identifier counts only when the identifier was not already
//! held; a release never counts and removing an absent identifier is a
//! no-op. This collapses auto-repeat and duplicate deliveries from several
//! live handler instances into exactly one counted action per physical hold.

use std::collections::HashSet;
use vstd::prelude::*;

verus! {

broadcast use vstd::std_specs::hash::group_hash_axioms;

/// One press or release transition of a single identifier.
#[derive(Clone, Copy, PartialEq, Eq, Structural, Debug)]
pub enum PressTransition {
    Press,
    Release,
}

/// Whether the identifier is held after one transition.
pub open spec fn step_held(held: bool, t: PressTransition) -> bool {
    match t {
        PressTransition::Press => true,
        PressTransition::Release => false,
    }
}

/// How many actions one transition contributes: a press counts only when
/// the identifier was not already held; a release never counts.
pub open spec fn step_count(held: bool, t: PressTransition) -> nat {
    if t is Press && !held {
        1
    } else {
        0
    }
}

/// Whether the identifier is held after a whole sequence of transitions,
/// starting from `init`.
pub open spec fn held_after(init: bool, evs: Seq<PressTransition>) -> bool
    decreases evs.len(),
{
    if evs.len() == 0 {
        init
    } else {
        step_held(held_after(init, evs.drop_last()), evs.last())
    }
}

/// How many actions a whole sequence of transitions contributes.
pub open spec fn counted_after(init: bool, evs: Seq<PressTransition>) -> nat
    decreases evs.len(),
{
    if evs.len() == 0 {
        0
    } else {
        counted_after(init, evs.drop_last()) + step_count(
            held_after(init, evs.drop_last()),
            evs.last(),
        )
    }
}

/// The held/absent timeline of the identifier: its state before any
/// transition, then after each transition in turn.
pub open spec fn held_timeline(init: bool, evs: Seq<PressTransition>) -> Seq<bool>
    decreases evs.len(),
{
    if evs.len() == 0 {
        seq![init]
    } else {
        held_timeline(init, evs.drop_last()).push(held_after(init, evs))
    }
}

/// The number of absent-to-held edges in a timeline: the number of maximal
/// contiguous held runs that begin during it.
pub open spec fn rising_edges(states: Seq<bool>) -> nat
    decreases states.len(),
{
    if states.len() <= 1 {
        0
    } else {
        rising_edges(states.drop_last()) + (if !states[states.len() - 2] && states[states.len()
            - 1] {
            1nat
        } else {
            0nat
        })
    }
}

/// The timeline of a sequence of transitions has one state per transition,
/// plus the initial state, and ends in the state the sequence produces.
pub proof fn lemma_timeline_shape(init: bool, evs: Seq<PressTransition>)
    ensures
        held_timeline(init, evs).len() == evs.len() + 1,
        held_timeline(init, evs).last() == held_after(init, evs),
    decreases evs.len(),
{
    if evs.len() > 0 {
        lemma_timeline_shape(init, evs.drop_last());
    }
}

/// Law: over any sequence of press/release transitions of one identifier,
/// the number of counted actions equals the number of maximal contiguous
/// held runs that begin during the sequence (the absent-to-held edges of
/// its timeline), not the number of press transitions delivered.
pub proof fn lemma_counted_equals_hold_runs(init: bool, evs: Seq<PressTransition>)
    ensures
        counted_after(init, evs) == rising_edges(held_timeline(init, evs)),
    decreases evs.len(),
{
    if evs.len() > 0 {
        let prefix = evs.drop_last();
        lemma_counted_equals_hold_runs(init, prefix);
        lemma_timeline_shape(init, prefix);
        let states = held_timeline(init, evs);
        assert(states.drop_last() =~= held_timeline(init, prefix));
        assert(states[states.len() - 2] == held_after(init, prefix));
        assert(states[states.len() - 1] == held_after(init, evs));
        assert(rising_edges(states) == rising_edges(held_timeline(init, prefix)) + (
        if !held_after(init, prefix) && held_after(init, evs) {
            1nat
        } else {
            0nat
        }));
    }
}

/// The set of identifiers currently considered held. Shared by reference
/// across every handler instance of a device class, so that duplicate
/// deliveries of one physical press are counted once.
pub struct PressedSet {
    ids: HashSet<u32>,
}

impl View for PressedSet {
    type V = Set<u32>;

    closed spec fn view(&self) -> Set<u32> {
        self.ids@
    }
}

impl PressedSet {
    pub fn new() -> (s: PressedSet)
        ensures
            s@ == Set::<u32>::empty(),
    {
        PressedSet { ids: HashSet::new() }
    }

    /// Records a press transition of `id`. Returns true exactly when the
    /// press begins a new hold and is therefore to be counted.
    pub fn press(&mut self, id: u32) -> (counted: bool)
        ensures
            final(self)@ == old(self)@.insert(id),
            counted == !old(self)@.contains(id),
            counted == (step_count(old(self)@.contains(id), PressTransition::Press) == 1),
            final(self)@.contains(id) == step_held(old(self)@.contains(id), PressTransition::Press),
            forall|other: u32|
                other != id ==> #[trigger] final(self)@.contains(other) == old(self)@.contains(
                    other,
                ),
    {
        self.ids.insert(id)
    }

    /// Records a release transition of `id`: the identifier is no longer
    /// held. Releasing an identifier that is not held is a no-op.
    pub fn release(&mut self, id: u32)
        ensures
            final(self)@ == old(self)@.remove(id),
            !old(self)@.contains(id) ==> final(self)@ == old(self)@,
            !final(self)@.contains(id),
            forall|other: u32|
                other != id ==> #[trigger] final(self)@.contains(other) == old(self)@.contains(
                    other,
                ),
    {
        self.ids.remove(&id);
        proof {
            if !old(self)@.contains(id) {
                assert(self@ =~= old(self)@);
            }
        }
    }

    /// Whether `id` is currently considered held.
    pub fn contains(&self, id: u32) -> (r: bool)
        ensures
            r == self@.contains(id),
    {
        self.ids.contains(&id)
    }
}

} // verus!
