//! The glide action: which sources make the glide gesture.
//!
//! Every source is judged on its own, whether or not it holds the handle. The
//! action remembers the sources that glide in the current frame, and tells
//! which of them did not glide in the frame before and which sources of the
//! frame before glide no longer.

use vstd::prelude::*;
use crate::source::Source;

verus! {

/// What a glide action is after a frame: three sets of source ids.
pub struct GlideState {
    /// The sources that glide now and did not in the frame before.
    pub started: Set<u64>,
    /// The sources that glide now.
    pub current: Set<u64>,
    /// The sources that glided in the frame before and do not now.
    pub stopped: Set<u64>,
}

/// Whether some sample of source `id` in the frame makes the glide gesture.
pub open spec fn glides_in(sources: Seq<Source>, id: u64) -> bool {
    exists|i: int| 0 <= i < sources.len() && #[trigger] sources[i].id == id && sources[i].glides()
}

/// The sources of the frame that make the glide gesture.
pub open spec fn gliding(sources: Seq<Source>) -> Set<u64> {
    Set::new(|id: u64| glides_in(sources, id))
}

impl GlideState {
    /// The state before the first frame.
    pub open spec fn idle() -> GlideState {
        GlideState { started: Set::empty(), current: Set::empty(), stopped: Set::empty() }
    }

    /// The state after the frame `sources`.
    pub open spec fn next(self, sources: Seq<Source>) -> GlideState {
        GlideState {
            started: gliding(sources).difference(self.current),
            current: gliding(sources),
            stopped: self.current.difference(gliding(sources)),
        }
    }
}

/// The glide action of a controller.
#[derive(Debug)]
pub struct GlideAction {
    started: Vec<u64>,
    current: Vec<u64>,
    stopped: Vec<u64>,
}

impl View for GlideAction {
    type V = GlideState;

    closed spec fn view(&self) -> GlideState {
        GlideState {
            started: self.started@.to_set(),
            current: self.current@.to_set(),
            stopped: self.stopped@.to_set(),
        }
    }
}

/// What a list holds after one more entry.
proof fn lemma_push_lists(list: Seq<u64>, last: u64, id: u64)
    ensures
        list.push(last).contains(id) <==> list.contains(id) || id == last,
{
    if list.contains(id) {
        let k = choose|k: int| 0 <= k < list.len() && list[k] == id;
        assert(list.push(last)[k] == id);
    }
    if id == last {
        assert(list.push(last)[list.len() as int] == id);
    }
}

/// Which sources glide in a frame of one more sample.
proof fn lemma_push_glides(sources: Seq<Source>, last: Source, id: u64)
    ensures
        glides_in(sources.push(last), id) <==> glides_in(sources, id) || (last.id == id
            && last.glides()),
{
    let longer = sources.push(last);
    if glides_in(sources, id) {
        let i = choose|i: int|
            0 <= i < sources.len() && #[trigger] sources[i].id == id && sources[i].glides();
        assert(longer[i].id == id && longer[i].glides());
    }
    if last.id == id && last.glides() {
        assert(longer[sources.len() as int].id == id);
    }
    if glides_in(longer, id) {
        let i = choose|i: int|
            0 <= i < longer.len() && #[trigger] longer[i].id == id && longer[i].glides();
        if i < sources.len() {
            assert(sources[i].id == id && sources[i].glides());
        }
    }
}

/// Tests whether `id` is listed.
fn listed(list: &Vec<u64>, id: u64) -> (r: bool)
    ensures
        r == list@.contains(id),
{
    let mut i: usize = 0;
    while i < list.len()
        invariant
            i <= list.len(),
            forall|j: int| 0 <= j < i ==> list@[j] != id,
        decreases list.len() - i,
    {
        if list[i] == id {
            return true;
        }
        i += 1;
    }
    false
}

/// The entries of `list` that `other` does not list, in the order of `list`.
fn unlisted(list: &Vec<u64>, other: &Vec<u64>) -> (out: Vec<u64>)
    requires
        list@.no_duplicates(),
    ensures
        out@.no_duplicates(),
        out@.to_set() == list@.to_set().difference(other@.to_set()),
{
    let mut out: Vec<u64> = Vec::new();
    let mut i: usize = 0;
    while i < list.len()
        invariant
            i <= list.len(),
            list@.no_duplicates(),
            out@.no_duplicates(),
            forall|id: u64|
                out@.contains(id) <==> list@.take(i as int).contains(id) && !other@.contains(id),
        decreases list.len() - i,
    {
        let id: u64 = list[i];
        let ghost before = out@;
        let ghost seen = list@.take(i as int);
        proof {
            assert(list@.take(i + 1) =~= seen.push(id));
            if seen.contains(id) {
                let k = choose|k: int| 0 <= k < i && seen[k] == id;
                assert(list@[k] == list@[i as int]);
            }
        }
        if !listed(other, id) {
            out.push(id);
        }
        assert forall|any: u64|
            out@.contains(any) <==> list@.take(i + 1).contains(any) && !other@.contains(
                any,
            ) by {
            lemma_push_lists(seen, id, any);
            lemma_push_lists(before, id, any);
        }
        i += 1;
    }
    assert(list@.take(i as int) =~= list@);
    assert(out@.to_set() =~= list@.to_set().difference(other@.to_set()));
    out
}

/// The ids of the gliding sources of the frame, each once, in the order in
/// which the snapshot first shows them gliding.
fn gliding_ids(sources: &Vec<Source>) -> (out: Vec<u64>)
    ensures
        out@.no_duplicates(),
        out@.to_set() == gliding(sources@),
{
    let mut out: Vec<u64> = Vec::new();
    let mut i: usize = 0;
    while i < sources.len()
        invariant
            i <= sources.len(),
            out@.no_duplicates(),
            forall|id: u64| out@.contains(id) <==> glides_in(sources@.take(i as int), id),
        decreases sources.len() - i,
    {
        let id: u64 = sources[i].id;
        let ghost before = out@;
        let ghost seen = sources@.take(i as int);
        proof {
            assert(sources@.take(i + 1) =~= seen.push(sources@[i as int]));
        }
        if sources[i].is_gliding() && !listed(&out, id) {
            out.push(id);
        }
        assert forall|any: u64| out@.contains(any) <==> glides_in(sources@.take(i + 1), any) by {
            lemma_push_glides(seen, sources@[i as int], any);
            lemma_push_lists(before, id, any);
        }
        i += 1;
    }
    assert(sources@.take(i as int) =~= sources@);
    assert(out@.to_set() =~= gliding(sources@));
    out
}

impl GlideAction {
    #[verifier::type_invariant]
    spec fn listed_once(self) -> bool {
        &&& self.started@.no_duplicates()
        &&& self.current@.no_duplicates()
        &&& self.stopped@.no_duplicates()
    }

    /// An action in which no source glides.
    pub fn new() -> (action: GlideAction)
        ensures
            action@ == GlideState::idle(),
    {
        let action = GlideAction { started: Vec::new(), current: Vec::new(), stopped: Vec::new() };
        assert(action@.started =~= Set::empty());
        action
    }

    /// Takes the action through one frame.
    pub fn update(&mut self, sources: &Vec<Source>)
        ensures
            final(self)@ == old(self)@.next(sources@),
    {
        proof {
            use_type_invariant(&*self);
        }
        let now: Vec<u64> = gliding_ids(sources);
        let started: Vec<u64> = unlisted(&now, &self.current);
        let stopped: Vec<u64> = unlisted(&self.current, &now);
        *self = GlideAction { started, current: now, stopped };
    }

    /// The sources that began to glide in the last frame, each once.
    pub fn started_acting(&self) -> (ids: &Vec<u64>)
        ensures
            ids@.to_set() == self@.started,
            ids@.no_duplicates(),
    {
        proof {
            use_type_invariant(self);
        }
        &self.started
    }

    /// The sources that glide, each once.
    pub fn currently_acting(&self) -> (ids: &Vec<u64>)
        ensures
            ids@.to_set() == self@.current,
            ids@.no_duplicates(),
    {
        proof {
            use_type_invariant(self);
        }
        &self.current
    }

    /// The sources that ceased to glide in the last frame, each once.
    pub fn stopped_acting(&self) -> (ids: &Vec<u64>)
        ensures
            ids@.to_set() == self@.stopped,
            ids@.no_duplicates(),
    {
        proof {
            use_type_invariant(self);
        }
        &self.stopped
    }

    /// Whether source `id` began to glide in the last frame.
    pub fn has_started(&self, id: u64) -> (r: bool)
        ensures
            r == self@.started.contains(id),
    {
        listed(&self.started, id)
    }

    /// Whether source `id` glides.
    pub fn is_acting(&self, id: u64) -> (r: bool)
        ensures
            r == self@.current.contains(id),
    {
        listed(&self.current, id)
    }
}

/// After any frame, a source that has just started glides, one that has just
/// stopped does not, and a source has started exactly if it glides now and did
/// not before.
pub proof fn lemma_glide_edges(state: GlideState, sources: Seq<Source>, id: u64)
    ensures
        state.next(sources).current.contains(id) <==> glides_in(sources, id),
        state.next(sources).started.contains(id) <==> glides_in(sources, id)
            && !state.current.contains(id),
        state.next(sources).stopped.contains(id) <==> state.current.contains(id) && !glides_in(
            sources,
            id,
        ),
        state.next(sources).started.contains(id) ==> state.next(sources).current.contains(id),
        state.next(sources).stopped.contains(id) ==> !state.next(sources).current.contains(id),
{
}

} // verus!
