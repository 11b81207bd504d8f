//! The controller: one decision per frame.
//!
//! The caller owns the velocity and talks to the devices. Once per frame it
//! damps the velocity, reads the tracking offset, samples the input sources
//! and asks [`SolarSailer::frame`] what to do. The answer is a [`FramePlan`]:
//! whether to advance the offset along the velocity, whether the handle may
//! be taken by a zone, which source the handle follows, and between which two
//! positions the pull of this frame is measured.

use vstd::prelude::*;
use crate::glide::{GlideAction, GlideState};
use crate::grab::{candidate, lemma_first_candidate, GrabAction, GrabState};
use crate::scalar::Scalar;
use crate::source::{Point, Source};
use crate::tuning::MOTION_THRESHOLD;

verus! {

/// The stretch over which the handle was pulled in one frame, in real space.
/// The impulse points from `to` back to `from`.
#[derive(Clone, Copy, Debug, PartialEq, Eq, Structural)]
pub struct Pull {
    /// Where the handle was held before.
    pub from: Point,
    /// Where the handle is held now.
    pub to: Point,
}

impl Pull {
    /// Whether the pull has no length because it ends where it begins.
    pub open spec fn is_still(self) -> bool {
        self.from == self.to
    }
}

/// What the caller is to do in one frame.
#[derive(Clone, Copy, Debug, PartialEq, Eq, Structural)]
pub struct FramePlan {
    /// Move the tracking offset by the velocity times the frame's duration,
    /// turned into offset space, and write it to every tracking origin with
    /// the orientation unchanged. Where false, no offset is written.
    pub advance_offset: bool,
    /// `Some(false)`: the handle was grabbed, keep zones from taking it.
    /// `Some(true)`: the handle was released, let zones take it again.
    pub zoneable: Option<bool>,
    /// The source that holds the handle; the handle follows it.
    pub actor: Option<u64>,
    /// The pull whose impulse is added to the velocity, once the offset has
    /// been advanced.
    pub pull: Option<Pull>,
}

impl FramePlan {
    /// The plan of a frame in which nothing happens.
    pub open spec fn rest() -> FramePlan {
        FramePlan { advance_offset: false, zoneable: None, actor: None, pull: None }
    }
}

/// Whether a velocity of this squared length moves the offset.
pub open spec fn moving(speed_squared: Scalar) -> bool {
    speed_squared.gt(Scalar { bits: MOTION_THRESHOLD })
}

/// What a controller is between frames.
pub struct SailerState {
    pub grab: GrabState,
    pub glide: GlideState,
    /// Where the actor held the handle when it was last seen, in real space.
    pub previous_position: Point,
}

impl SailerState {
    /// The state before the first frame: nothing grabbed, nothing gliding,
    /// the last position at the origin.
    pub open spec fn initial() -> SailerState {
        SailerState {
            grab: GrabState::idle(),
            glide: GlideState::idle(),
            previous_position: Point {
                x: Scalar { bits: 0 },
                y: Scalar { bits: 0 },
                z: Scalar { bits: 0 },
            },
        }
    }

    /// Where the actor of this frame holds the handle, if the frame has one.
    pub open spec fn held_at(self, sources: Seq<Source>) -> Option<Point> {
        match self.grab.sample(sources) {
            Some(i) => sources[i].handle(),
            None => None,
        }
    }

    /// The state after a frame. Without a readable offset the frame changes
    /// nothing. With one, both actions take their step, and the position of
    /// the actor, if there is one, is remembered.
    pub open spec fn next(self, offset_known: bool, sources: Seq<Source>) -> SailerState {
        if !offset_known {
            self
        } else {
            SailerState {
                grab: self.grab.next(sources),
                glide: self.glide.next(sources),
                previous_position: match self.held_at(sources) {
                    Some(position) => position,
                    None => self.previous_position,
                },
            }
        }
    }

    /// The pull of a frame: none unless the actor glides; else from the
    /// remembered position to the actor's position, and from the actor's
    /// position itself where the actor began to glide in this frame.
    pub open spec fn pull(self, sources: Seq<Source>) -> Option<Pull> {
        let after = self.next(true, sources);
        match (after.grab.actor, self.held_at(sources)) {
            (Some(actor), Some(position)) => if after.glide.current.contains(actor) {
                Some(
                    Pull {
                        from: if after.glide.started.contains(actor) {
                            position
                        } else {
                            self.previous_position
                        },
                        to: position,
                    },
                )
            } else {
                None
            },
            _ => None,
        }
    }

    /// The plan of a frame.
    pub open spec fn plan(
        self,
        offset_known: bool,
        speed_squared: Scalar,
        sources: Seq<Source>,
    ) -> FramePlan {
        if !offset_known {
            FramePlan::rest()
        } else {
            let grab = self.grab.next(sources);
            FramePlan {
                advance_offset: moving(speed_squared),
                zoneable: if grab.started {
                    Some(false)
                } else if grab.stopped {
                    Some(true)
                } else {
                    None
                },
                actor: grab.actor,
                pull: self.pull(sources),
            }
        }
    }
}

/// The locomotion controller.
#[derive(Debug)]
pub struct SolarSailer {
    grab: GrabAction,
    glide: GlideAction,
    previous_position: Point,
}

impl View for SolarSailer {
    type V = SailerState;

    closed spec fn view(&self) -> SailerState {
        SailerState {
            grab: self.grab@,
            glide: self.glide@,
            previous_position: self.previous_position,
        }
    }
}

impl SolarSailer {
    /// A controller before its first frame.
    pub fn new() -> (sailer: SolarSailer)
        ensures
            sailer@ == SailerState::initial(),
    {
        let zero = Scalar { bits: 0 };
        SolarSailer {
            grab: GrabAction::new(),
            glide: GlideAction::new(),
            previous_position: Point { x: zero, y: zero, z: zero },
        }
    }

    /// Decides one frame.
    ///
    /// `offset_known` tells whether the offset of the first tracking origin
    /// could be read, `speed_squared` is the squared length of the velocity
    /// after damping, and `sources` is the snapshot of the input sources, with
    /// positions in real space.
    pub fn frame(&mut self, offset_known: bool, speed_squared: Scalar, sources: &Vec<Source>) -> (plan:
        FramePlan)
        ensures
            final(self)@ == old(self)@.next(offset_known, sources@),
            plan == old(self)@.plan(offset_known, speed_squared, sources@),
    {
        if !offset_known {
            return FramePlan { advance_offset: false, zoneable: None, actor: None, pull: None };
        }
        let advance_offset: bool = speed_squared.exceeds(Scalar { bits: MOTION_THRESHOLD });
        let sample: Option<usize> = self.grab.update(sources);
        self.glide.update(sources);
        let zoneable: Option<bool> = if self.grab.actor_started() {
            Some(false)
        } else if self.grab.actor_stopped() {
            Some(true)
        } else {
            None
        };
        match sample {
            None => FramePlan { advance_offset, zoneable, actor: None, pull: None },
            Some(i) => {
                proof {
                    lemma_actor_has_handle(old(self)@, sources@);
                }
                let actor: u64 = sources[i].id;
                let position: Point = match sources[i].handle_position() {
                    Some(position) => position,
                    None => unreached(),
                };
                let pull: Option<Pull> = if self.glide.is_acting(actor) {
                    let from: Point = if self.glide.has_started(actor) {
                        position
                    } else {
                        self.previous_position
                    };
                    Some(Pull { from, to: position })
                } else {
                    None
                };
                self.previous_position = position;
                FramePlan { advance_offset, zoneable, actor: Some(actor), pull }
            },
        }
    }

    /// The grab action.
    pub fn grab_action(&self) -> (grab: &GrabAction)
        ensures
            grab@ == self@.grab,
    {
        &self.grab
    }

    /// The glide action.
    pub fn glide_action(&self) -> (glide: &GlideAction)
        ensures
            glide@ == self@.glide,
    {
        &self.glide
    }

    /// Where the actor held the handle when it was last seen.
    pub fn previous_position(&self) -> (position: Point)
        ensures
            position == self@.previous_position,
    {
        self.previous_position
    }
}

/// The actor of a frame is a hand or a tip, so that it holds the handle at a
/// position: a frame has an actor exactly if it has a position for it.
pub proof fn lemma_actor_has_handle(state: SailerState, sources: Seq<Source>)
    ensures
        state.held_at(sources) is Some <==> state.grab.next(sources).actor is Some,
        state.grab.sample(sources) matches Some(i) ==> sources[i].handle() is Some,
{
    lemma_first_candidate(sources, state.grab.actor, 0);
    if let Some(i) = state.grab.sample(sources) {
        assert(candidate(sources, state.grab.actor, i));
        assert(sources[i].grips());
    }
}

/// A velocity whose squared length does not exceed the motion threshold
/// leaves the offset where it is, whatever the sources do.
pub proof fn lemma_slow_keeps_offset(
    state: SailerState,
    offset_known: bool,
    speed_squared: Scalar,
    sources: Seq<Source>,
)
    requires
        !moving(speed_squared),
    ensures
        !state.plan(offset_known, speed_squared, sources).advance_offset,
{
}

/// In the frame in which the actor begins to glide, the pull is measured from
/// the actor's present position to itself, and that position is remembered:
/// the first frame of a glide adds no impulse.
pub proof fn lemma_new_glide_is_still(
    state: SailerState,
    speed_squared: Scalar,
    sources: Seq<Source>,
    actor: u64,
)
    requires
        state.next(true, sources).grab.actor == Some(actor),
        state.next(true, sources).glide.started.contains(actor),
    ensures
        state.plan(true, speed_squared, sources).pull matches Some(pull) && pull.is_still()
            && state.next(true, sources).previous_position == pull.to
            && state.held_at(sources) == Some(pull.to),
{
    lemma_actor_has_handle(state, sources);
}

/// A pull ends at the position that the frame remembers, and the pull of the
/// frame after it begins there, unless that frame begins a glide anew and is
/// still.
pub proof fn lemma_pulls_chain(state: SailerState, first: Seq<Source>, second: Seq<Source>)
    requires
        state.pull(first) is Some,
        state.next(true, first).pull(second) is Some,
    ensures
        ({
            let one = state.pull(first)->0;
            let two = state.next(true, first).pull(second)->0;
            &&& one.to == state.next(true, first).previous_position
            &&& two.from == one.to || two.is_still()
        }),
{
}

} // verus!
