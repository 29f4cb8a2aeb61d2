//! The frame logic of a hover surface: which sources hover over it, which
//! one presses it, and which of them get a feedback line.

use vstd::prelude::*;
use crate::id_set::{IdSet, contains_id};
use crate::input_action::BaseInputAction;
use crate::single_actor_action::{SingleActorAction, kept_actor, candidates, next_actor_ok};
use crate::input::{InputKind, InputSource};

verus! {

/// A feedback line to draw for one source, in the interaction colours when
/// the source is pressing the surface.
#[derive(Clone, Copy, Debug, PartialEq, Eq, Structural)]
pub struct LineTarget {
    pub id: u64,
    pub interacting: bool,
}

/// The feedback lines for the sources of a frame, in their order: one for
/// each source that is not a pointer and either hovers or presses.
pub open spec fn line_targets_of(
    sources: Seq<InputSource>,
    hovered: Set<u64>,
    actor: Option<u64>,
) -> Seq<LineTarget>
    decreases sources.len(),
{
    if sources.len() == 0 {
        Seq::empty()
    } else {
        let s = sources.last();
        let front = line_targets_of(sources.drop_last(), hovered, actor);
        if s.kind != InputKind::Pointer && (hovered.contains(s.id) || actor == Some(s.id)) {
            front.push(LineTarget { id: s.id, interacting: actor == Some(s.id) })
        } else {
            front
        }
    }
}

/// A bounded surface that sources hover over and one source at a time
/// presses, once it was hovering before its press began.
pub struct HoverPlane {
    hover_action: BaseInputAction,
    interact_action: SingleActorAction,
}

impl HoverPlane {
    /// Tracking of the hovering sources.
    pub closed spec fn hover_spec(&self) -> BaseInputAction {
        self.hover_action
    }

    /// The press.
    pub closed spec fn interact_spec(&self) -> SingleActorAction {
        self.interact_action
    }

    /// The press claims its sources and is not taken over.
    pub open spec fn wf(&self) -> bool {
        &&& self.interact_spec().capture()
        &&& !self.interact_spec().may_change()
    }

    /// A surface that nothing hovers over or presses.
    pub fn new() -> (r: Self)
        ensures
            r.wf(),
            r.hover_spec().currently() == Set::<u64>::empty(),
            r.interact_spec().base_spec().currently() == Set::<u64>::empty(),
            r.interact_spec().actor_spec() is None,
    {
        HoverPlane {
            hover_action: BaseInputAction::new(false),
            interact_action: SingleActorAction::new(true, false),
        }
    }

    /// Moves to the next frame, in which the sources `hovering` hover over
    /// the surface and the sources `pressing` meet the press condition.
    pub fn update(&mut self, hovering: &Vec<u64>, pressing: &Vec<u64>)
        requires
            old(self).wf(),
        ensures
            final(self).wf(),
            final(self).hover_spec().currently() == hovering@.to_set(),
            final(self).hover_spec().started() == hovering@.to_set().difference(
                old(self).hover_spec().currently(),
            ),
            final(self).interact_spec().base_spec().currently() == pressing@.to_set(),
            final(self).interact_spec().base_spec().started() == pressing@.to_set().difference(
                old(self).interact_spec().base_spec().currently(),
            ),
            final(self).interact_spec().base_spec().stopped() == old(self).interact_spec().base_spec().currently().difference(
                pressing@.to_set(),
            ),
            next_actor_ok(
                final(self).interact_spec().actor_spec(),
                kept_actor(old(self).interact_spec().actor_spec(), final(self).interact_spec().base_spec().stopped()),
                candidates(&final(self).interact_spec().base_spec(), Some(&final(self).hover_spec())),
                false,
            ),
            final(self).interact_spec().started() == (old(self).interact_spec().actor_spec() is None
                && final(self).interact_spec().actor_spec() is Some),
            final(self).interact_spec().changed() == (old(self).interact_spec().actor_spec() is Some
                && final(self).interact_spec().actor_spec() is Some
                && old(self).interact_spec().actor_spec() != final(self).interact_spec().actor_spec()),
            final(self).interact_spec().stopped() == (old(self).interact_spec().actor_spec() is Some
                && final(self).interact_spec().actor_spec() is None),
    {
        self.hover_action.update(hovering);
        self.interact_action.base_mut().update(pressing);
        self.interact_action.update(Some(&self.hover_action));
    }

    /// The feedback lines for the sources `sources` of this frame.
    pub fn line_targets(&self, sources: &Vec<InputSource>) -> (r: Vec<LineTarget>)
        ensures
            r@ == line_targets_of(sources@, self.hover_spec().currently(), self.interact_spec().actor_spec()),
    {
        let hovered = self.hover_action.currently_acting();
        let actor = self.interact_action.actor();
        let mut r: Vec<LineTarget> = Vec::new();
        let mut i: usize = 0;
        while i < sources.len()
            invariant
                i <= sources@.len(),
                hovered@ == self.hover_spec().currently(),
                actor == self.interact_spec().actor_spec(),
                r@ == line_targets_of(sources@.subrange(0, i as int), hovered@, actor),
            decreases sources@.len() - i,
        {
            let s = sources[i];
            proof {
                assert(sources@.subrange(0, i + 1).drop_last() =~= sources@.subrange(0, i as int));
            }
            let pressing = match actor {
                Some(a) => a == s.id,
                None => false,
            };
            if s.kind != InputKind::Pointer && (contains_id(hovered, s.id) || pressing) {
                r.push(LineTarget { id: s.id, interacting: pressing });
            }
            i = i + 1;
        }
        assert(sources@.subrange(0, sources@.len() as int) =~= sources@);
        r
    }

    /// The sources hovering over the surface.
    pub fn hovering_inputs(&self) -> (r: &IdSet)
        ensures
            r@ == self.hover_spec().currently(),
    {
        self.hover_action.currently_acting()
    }

    /// The press: its actor and its edges.
    pub fn interact_status(&self) -> (r: &SingleActorAction)
        ensures
            *r == self.interact_spec(),
    {
        &self.interact_action
    }
}

} // verus!
