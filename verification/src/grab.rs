//! The grab action: which source, if any, holds the handle.
//!
//! The action is idle or bound to one actor. An idle action binds the first
//! source of the frame, in the order of the snapshot, that reaches the capture
//! volume and grips. A bound action stays with its actor for as long as the
//! actor reaches and grips, and falls idle in the first frame in which it does
//! not; another source that qualifies in that frame is not taken over, and can
//! be bound in the next frame at the earliest.

use vstd::prelude::*;
use crate::source::Source;

verus! {

/// What a grab action is after a frame.
pub struct GrabState {
    /// The source that holds the handle.
    pub actor: Option<u64>,
    /// The actor was bound in this frame.
    pub started: bool,
    /// The actor was released in this frame.
    pub stopped: bool,
}

/// Whether sample `i` can keep or take the binding: it reaches and grips and,
/// where an actor is bound already, is a sample of that actor.
pub open spec fn candidate(sources: Seq<Source>, bound: Option<u64>, i: int) -> bool {
    &&& 0 <= i < sources.len()
    &&& sources[i].grabs()
    &&& bound matches Some(id) ==> sources[i].id == id
}

/// The index of the first candidate at or after `from`.
pub open spec fn first_candidate(sources: Seq<Source>, bound: Option<u64>, from: int) -> Option<
    int,
>
    decreases sources.len() - from,
{
    if from < 0 || from >= sources.len() {
        None
    } else if candidate(sources, bound, from) {
        Some(from)
    } else {
        first_candidate(sources, bound, from + 1)
    }
}

impl GrabState {
    /// The state before the first frame.
    pub open spec fn idle() -> GrabState {
        GrabState { actor: None, started: false, stopped: false }
    }

    /// The sample that carries the binding through the frame `sources`.
    pub open spec fn sample(self, sources: Seq<Source>) -> Option<int> {
        first_candidate(sources, self.actor, 0)
    }

    /// The state after the frame `sources`.
    pub open spec fn next(self, sources: Seq<Source>) -> GrabState {
        match self.sample(sources) {
            Some(i) => GrabState {
                actor: Some(sources[i].id),
                started: self.actor is None,
                stopped: false,
            },
            None => GrabState { actor: None, started: false, stopped: self.actor is Some },
        }
    }
}

/// The grab action of a controller.
#[derive(Debug)]
pub struct GrabAction {
    actor: Option<u64>,
    started: bool,
    stopped: bool,
}

impl View for GrabAction {
    type V = GrabState;

    closed spec fn view(&self) -> GrabState {
        GrabState { actor: self.actor, started: self.started, stopped: self.stopped }
    }
}

impl GrabAction {
    /// An idle action.
    pub fn new() -> (action: GrabAction)
        ensures
            action@ == GrabState::idle(),
    {
        GrabAction { actor: None, started: false, stopped: false }
    }

    /// Takes the action through one frame. Returns the index in `sources` of
    /// the sample that carries the binding, if the action is bound afterwards.
    pub fn update(&mut self, sources: &Vec<Source>) -> (sample: Option<usize>)
        ensures
            final(self)@ == old(self)@.next(sources@),
            match sample {
                Some(i) => i < sources.len() && old(self)@.sample(sources@) == Some(i as int),
                None => old(self)@.sample(sources@) is None,
            },
    {
        let bound: Option<u64> = self.actor;
        let mut i: usize = 0;
        while i < sources.len()
            invariant
                i <= sources.len(),
                bound == old(self).actor,
                *self == *old(self),
                first_candidate(sources@, bound, 0) == first_candidate(sources@, bound, i as int),
            decreases sources.len() - i,
        {
            let of_actor: bool = match bound {
                Some(id) => sources[i].id == id,
                None => true,
            };
            if of_actor && sources[i].is_grabbing() {
                self.actor = Some(sources[i].id);
                self.started = bound.is_none();
                self.stopped = false;
                return Some(i);
            }
            i += 1;
        }
        self.actor = None;
        self.started = false;
        self.stopped = bound.is_some();
        None
    }

    /// The bound actor.
    pub fn actor(&self) -> (actor: Option<u64>)
        ensures
            actor == self@.actor,
    {
        self.actor
    }

    /// Whether the actor was bound in the last frame.
    pub fn actor_started(&self) -> (r: bool)
        ensures
            r == self@.started,
    {
        self.started
    }

    /// Whether an actor is bound.
    pub fn actor_acting(&self) -> (r: bool)
        ensures
            r == self@.actor is Some,
    {
        self.actor.is_some()
    }

    /// Whether the actor was released in the last frame.
    pub fn actor_stopped(&self) -> (r: bool)
        ensures
            r == self@.stopped,
    {
        self.stopped
    }
}

/// The first candidate is a candidate, and no sample before it is one; where
/// there is none, no sample is a candidate.
pub proof fn lemma_first_candidate(sources: Seq<Source>, bound: Option<u64>, from: int)
    requires
        0 <= from,
    ensures
        match first_candidate(sources, bound, from) {
            Some(i) => from <= i && candidate(sources, bound, i) && forall|j: int|
                from <= j < i ==> !candidate(sources, bound, j),
            None => forall|j: int| from <= j ==> !candidate(sources, bound, j),
        },
    decreases sources.len() - from,
{
    if from < sources.len() && !candidate(sources, bound, from) {
        lemma_first_candidate(sources, bound, from + 1);
    }
}

/// An idle action becomes active in a frame if and only if some source of the
/// frame reaches and grips, and then binds the first such source.
pub proof fn lemma_idle_binds_first(state: GrabState, sources: Seq<Source>)
    requires
        state.actor is None,
    ensures
        state.next(sources).actor is Some <==> exists|i: int|
            0 <= i < sources.len() && #[trigger] sources[i].grabs(),
        state.next(sources).actor is Some ==> state.next(sources).started,
        forall|i: int|
            0 <= i < sources.len() && #[trigger] sources[i].grabs() && (forall|j: int|
                0 <= j < i ==> !#[trigger] sources[j].grabs()) ==> state.next(sources).actor
                == Some(sources[i].id),
{
    lemma_first_candidate(sources, None, 0);
    match first_candidate(sources, None, 0) {
        Some(i) => {
            assert(sources[i].grabs());
            assert forall|k: int|
                0 <= k < sources.len() && #[trigger] sources[k].grabs() && (forall|j: int|
                    0 <= j < k ==> !#[trigger] sources[j].grabs()) implies k == i by {
                assert(candidate(sources, None, k));
                if i < k {
                    assert(!sources[i].grabs());
                }
            }
        },
        None => {
            assert forall|i: int| 0 <= i < sources.len() implies !#[trigger] sources[i].grabs() by {
                assert(!candidate(sources, None, i));
            }
        },
    }
}

/// A bound action keeps its actor while some sample of the actor reaches and
/// grips, and falls idle in the first frame without one, whatever the other
/// sources do: the binding is never handed to another source.
pub proof fn lemma_no_hand_off(state: GrabState, sources: Seq<Source>)
    requires
        state.actor is Some,
    ensures
        state.next(sources).actor is Some <==> exists|i: int|
            0 <= i < sources.len() && #[trigger] sources[i].grabs() && sources[i].id
                == state.actor->0,
        state.next(sources).actor is Some ==> state.next(sources).actor == state.actor,
        state.next(sources).actor is None <==> state.next(sources).stopped,
        !state.next(sources).started,
{
    lemma_first_candidate(sources, state.actor, 0);
    match first_candidate(sources, state.actor, 0) {
        Some(i) => {
            assert(sources[i].grabs() && sources[i].id == state.actor->0);
        },
        None => {
            assert forall|i: int| 0 <= i < sources.len() && #[trigger] sources[i].grabs() implies
                sources[i].id != state.actor->0 by {
                assert(!candidate(sources, state.actor, i));
            }
        },
    }
}

} // verus!
