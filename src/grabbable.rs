//! The frame logic of a grab handle: one source at a time may hold the
//! content, which then follows it and returns to the input frame on release.

use vstd::prelude::*;
use crate::input_action::BaseInputAction;
use crate::single_actor_action::{SingleActorAction, kept_actor, candidates, next_actor_ok};

verus! {

/// The node that the content hangs from.
#[derive(Clone, Copy, Debug, PartialEq, Eq, Structural)]
pub enum ContentParent {
    /// The static frame of the input handler.
    InputFrame,
    /// The root that follows the grabbing source.
    Root,
}

/// One operation on the scene nodes of a grab handle, to be carried out in
/// order by the caller.
#[derive(Clone, Copy, Debug, PartialEq, Eq, Structural)]
pub enum NodeOp {
    /// Place the root at the pose of this source.
    FollowActor(u64),
    /// Allow or forbid zones to capture the content.
    SetZoneable(bool),
    /// Move the content onto this parent, keeping its pose in the world.
    ReparentInPlace(ContentParent),
}

/// Where the content hangs and whether zones may capture it.
pub struct Placement {
    pub parent: ContentParent,
    pub zoneable: bool,
}

/// The placement of content that nobody holds.
pub open spec fn released() -> Placement {
    Placement { parent: ContentParent::InputFrame, zoneable: true }
}

/// The placement after one operation.
pub open spec fn apply_op(p: Placement, op: NodeOp) -> Placement {
    match op {
        NodeOp::FollowActor(_) => p,
        NodeOp::SetZoneable(z) => Placement { zoneable: z, ..p },
        NodeOp::ReparentInPlace(parent) => Placement { parent, ..p },
    }
}

/// The placement after a list of operations, in order.
pub open spec fn apply_ops(p: Placement, ops: Seq<NodeOp>) -> Placement
    decreases ops.len(),
{
    if ops.len() == 0 {
        p
    } else {
        apply_ops(apply_op(p, ops[0]), ops.drop_first())
    }
}

/// The operations for a frame whose actor went from `before` to `after`:
/// the root follows the actor while there is one; when a grab starts the
/// content leaves the zones and moves onto the root, and when it ends it
/// moves back onto the input frame and rejoins the zones.
pub open spec fn grab_ops(before: Option<u64>, after: Option<u64>) -> Seq<NodeOp> {
    let follow = match after {
        Some(a) => seq![NodeOp::FollowActor(a)],
        None => Seq::<NodeOp>::empty(),
    };
    if before is None && after is Some {
        follow + seq![NodeOp::SetZoneable(false), NodeOp::ReparentInPlace(ContentParent::Root)]
    } else if before is Some && after is None {
        follow + seq![NodeOp::ReparentInPlace(ContentParent::InputFrame), NodeOp::SetZoneable(true)]
    } else {
        follow
    }
}

/// A grab handle: every source is tracked, those in reach meet the prerequisite, and
/// one whose trigger is pressed after it came in reach holds the content
/// until its trigger is let go.
pub struct Grabbable {
    global_action: BaseInputAction,
    condition_action: BaseInputAction,
    grab_action: SingleActorAction,
    content_parent: ContentParent,
    zoneable: bool,
}

impl Grabbable {
    /// Tracking of every source.
    pub closed spec fn global_spec(&self) -> BaseInputAction {
        self.global_action
    }

    /// Tracking of the sources in reach.
    pub closed spec fn condition_spec(&self) -> BaseInputAction {
        self.condition_action
    }

    /// The grab itself.
    pub closed spec fn grab_spec(&self) -> SingleActorAction {
        self.grab_action
    }

    /// Where the content hangs and whether zones may capture it.
    pub closed spec fn placement(&self) -> Placement {
        Placement { parent: self.content_parent, zoneable: self.zoneable }
    }

    /// The content hangs from the root, out of the zones, exactly while a
    /// source holds it; a held grab is not taken over.
    pub open spec fn wf(&self) -> bool {
        &&& self.placement().parent == (if self.grab_spec().actor_spec() is Some {
            ContentParent::Root
        } else {
            ContentParent::InputFrame
        })
        &&& self.placement().zoneable == (self.placement().parent == ContentParent::InputFrame)
        &&& !self.grab_spec().may_change()
        &&& self.grab_spec().capture()
    }

    /// A handle that nobody holds, with its content on the input frame.
    pub fn new() -> (r: Self)
        ensures
            r.wf(),
            r.placement() == released(),
            r.grab_spec().actor_spec() is None,
            r.grab_spec().capture(),
            !r.grab_spec().may_change(),
            r.global_spec().currently() == Set::<u64>::empty(),
            r.condition_spec().currently() == Set::<u64>::empty(),
            r.grab_spec().base_spec().currently() == Set::<u64>::empty(),
    {
        Grabbable {
            global_action: BaseInputAction::new(false),
            condition_action: BaseInputAction::new(false),
            grab_action: SingleActorAction::new(true, false),
            content_parent: ContentParent::InputFrame,
            zoneable: true,
        }
    }

    /// Moves to the next frame, in which `sources` are all the sources
    /// reported, `in_reach` those close enough to grab and `triggered`
    /// those whose grab trigger is pressed; returns the node operations
    /// that the frame calls for.
    pub fn update(&mut self, sources: &Vec<u64>, in_reach: &Vec<u64>, triggered: &Vec<u64>) -> (ops: Vec<NodeOp>)
        requires
            old(self).wf(),
        ensures
            final(self).wf(),
            final(self).global_spec().currently() == sources@.to_set(),
            final(self).condition_spec().currently() == in_reach@.to_set(),
            final(self).condition_spec().started() == in_reach@.to_set().difference(
                old(self).condition_spec().currently(),
            ),
            final(self).grab_spec().base_spec().currently() == triggered@.to_set(),
            final(self).grab_spec().base_spec().started() == triggered@.to_set().difference(
                old(self).grab_spec().base_spec().currently(),
            ),
            final(self).grab_spec().base_spec().stopped() == old(self).grab_spec().base_spec().currently().difference(
                triggered@.to_set(),
            ),
            next_actor_ok(
                final(self).grab_spec().actor_spec(),
                kept_actor(old(self).grab_spec().actor_spec(), final(self).grab_spec().base_spec().stopped()),
                candidates(&final(self).grab_spec().base_spec(), Some(&final(self).condition_spec())),
                false,
            ),
            final(self).grab_spec().started() == (old(self).grab_spec().actor_spec() is None
                && final(self).grab_spec().actor_spec() is Some),
            final(self).grab_spec().changed() == (old(self).grab_spec().actor_spec() is Some
                && final(self).grab_spec().actor_spec() is Some
                && old(self).grab_spec().actor_spec() != final(self).grab_spec().actor_spec()),
            final(self).grab_spec().stopped() == (old(self).grab_spec().actor_spec() is Some
                && final(self).grab_spec().actor_spec() is None),
            ops@ == grab_ops(old(self).grab_spec().actor_spec(), final(self).grab_spec().actor_spec()),
            final(self).placement() == apply_ops(old(self).placement(), ops@),
    {
        self.global_action.update(sources);
        self.condition_action.update(in_reach);
        self.grab_action.base_mut().update(triggered);
        self.grab_action.update(Some(&self.condition_action));
        let mut ops: Vec<NodeOp> = Vec::new();
        if let Some(a) = self.grab_action.actor() {
            ops.push(NodeOp::FollowActor(a));
        }
        if self.grab_action.actor_started() {
            ops.push(NodeOp::SetZoneable(false));
            ops.push(NodeOp::ReparentInPlace(ContentParent::Root));
            self.zoneable = false;
            self.content_parent = ContentParent::Root;
        }
        if self.grab_action.actor_stopped() {
            ops.push(NodeOp::ReparentInPlace(ContentParent::InputFrame));
            ops.push(NodeOp::SetZoneable(true));
            self.content_parent = ContentParent::InputFrame;
            self.zoneable = true;
        }
        proof {
            assert(ops@ =~= grab_ops(old(self).grab_spec().actor_spec(), self.grab_spec().actor_spec()));
            reveal_with_fuel(apply_ops, 4);
            let o = ops@;
            if o.len() >= 1 {
                assert(o.drop_first().len() + 1 == o.len());
            }
            if o.len() >= 2 {
                assert(o.drop_first().drop_first() =~= o.subrange(2, o.len() as int));
            }
            if o.len() == 3 {
                assert(o.drop_first().drop_first().drop_first() =~= Seq::<NodeOp>::empty());
            }
            if o.len() == 2 {
                assert(o.drop_first().drop_first() =~= Seq::<NodeOp>::empty());
            }
            if o.len() == 1 {
                assert(o.drop_first() =~= Seq::<NodeOp>::empty());
            }
        }
        ops
    }

    /// The grab itself: its actor and its edges.
    pub fn grab_action(&self) -> (r: &SingleActorAction)
        ensures
            *r == self.grab_spec(),
    {
        &self.grab_action
    }

    /// Tracking of every source, from which the caller reads the nearest
    /// distance.
    pub fn global_action(&self) -> (r: &BaseInputAction)
        ensures
            *r == self.global_spec(),
    {
        &self.global_action
    }

    /// Where the content hangs.
    pub fn content_parent(&self) -> (r: ContentParent)
        ensures
            r == self.placement().parent,
    {
        self.content_parent
    }

    /// Whether zones may capture the content.
    pub fn zoneable(&self) -> (r: bool)
        ensures
            r == self.placement().zoneable,
    {
        self.zoneable
    }
}

/// Grabbing content that nobody held and letting it go again puts it back
/// on the input frame and into the zones, as it was before the grab.
pub proof fn lemma_grab_round_trip(actor: u64)
    ensures
        apply_ops(
            apply_ops(released(), grab_ops(None, Some(actor))),
            grab_ops(Some(actor), None),
        ) == released(),
{
    reveal_with_fuel(apply_ops, 4);
    let g = grab_ops(None, Some(actor));
    assert(g.drop_first().drop_first() =~= seq![NodeOp::ReparentInPlace(ContentParent::Root)]);
    assert(g.drop_first().drop_first().drop_first() =~= Seq::<NodeOp>::empty());
    let r = grab_ops(Some(actor), None);
    assert(r.drop_first() =~= seq![NodeOp::SetZoneable(true)]);
    assert(r.drop_first().drop_first() =~= Seq::<NodeOp>::empty());
}

/// Whenever nobody holds a well-formed grab handle, its content hangs from
/// the input frame and zones may capture it, whatever grabs came before.
pub proof fn lemma_unheld_is_released(g: Grabbable)
    requires
        g.wf(),
        g.grab_spec().actor_spec() is None,
    ensures
        g.placement() == released(),
{
}

} // verus!
