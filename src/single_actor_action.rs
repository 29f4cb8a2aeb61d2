//! Narrowing the sources that satisfy a condition down to one actor.

use vstd::prelude::*;
use crate::id_set::{IdSet, ids_of, contains_id, id_set_difference};
use crate::input_action::BaseInputAction;

verus! {

/// The actor that survives the start of a frame: the previous one, unless it
/// stopped satisfying the eligibility condition.
pub open spec fn kept_actor(previous: Option<u64>, stopped: Set<u64>) -> Option<u64> {
    match previous {
        Some(a) => if stopped.contains(a) {
            None
        } else {
            Some(a)
        },
        None => None,
    }
}

/// The sources of a gate that may claim an action: those that already met
/// it before this frame.
pub open spec fn gate_passed(gate: &BaseInputAction) -> Set<u64> {
    gate.currently().difference(gate.started())
}

/// The sources that may become the actor this frame: those that began to be
/// eligible, and, with a gate, had already passed it before this frame.
pub open spec fn candidates(base: &BaseInputAction, gate: Option<&BaseInputAction>) -> Set<u64> {
    match gate {
        Some(g) => base.started().intersect(gate_passed(g)),
        None => base.started(),
    }
}

/// What the actor may be after a frame with the given candidates: with none,
/// the kept actor stays; otherwise a candidate takes over if there is no kept
/// actor or the actor may change, and else the kept actor stays.
pub open spec fn next_actor_ok(
    next: Option<u64>,
    kept: Option<u64>,
    cands: Set<u64>,
    change_actor: bool,
) -> bool {
    if cands.is_empty() || (kept is Some && !change_actor) {
        next == kept
    } else {
        next is Some && cands.contains(next->0)
    }
}

/// An action that at most one source holds at a time, chosen among the
/// sources that satisfy its eligibility condition.
pub struct SingleActorAction {
    base_action: BaseInputAction,
    capture_on_trigger: bool,
    change_actor: bool,
    actor_started: bool,
    actor_changed: bool,
    actor_acting: bool,
    actor_stopped: bool,
    actor: Option<u64>,
}

impl SingleActorAction {
    /// The eligibility condition's tracking.
    pub closed spec fn base_spec(&self) -> BaseInputAction {
        self.base_action
    }

    /// Whether eligible sources are to be claimed for this action alone.
    pub closed spec fn capture(&self) -> bool {
        self.capture_on_trigger
    }

    /// Whether an eligible source may take the action from the actor.
    pub closed spec fn may_change(&self) -> bool {
        self.change_actor
    }

    /// The source holding the action.
    pub closed spec fn actor_spec(&self) -> Option<u64> {
        self.actor
    }

    /// Whether the last frame went from no actor to one.
    pub closed spec fn started(&self) -> bool {
        self.actor_started
    }

    /// Whether the last frame went from one actor to another.
    pub closed spec fn changed(&self) -> bool {
        self.actor_changed
    }

    /// Whether there is an actor after the last frame.
    pub closed spec fn acting(&self) -> bool {
        self.actor_acting
    }

    /// Whether the last frame went from an actor to none.
    pub closed spec fn stopped(&self) -> bool {
        self.actor_stopped
    }

    /// No actor and no edge yet.
    pub fn new(capture_on_trigger: bool, change_actor: bool) -> (r: Self)
        ensures
            r.base_spec().capture() == false,
            r.base_spec().currently() == Set::<u64>::empty(),
            r.base_spec().started() == Set::<u64>::empty(),
            r.base_spec().stopped() == Set::<u64>::empty(),
            r.base_spec().wf(),
            r.capture() == capture_on_trigger,
            r.may_change() == change_actor,
            r.actor_spec() is None,
            !r.started() && !r.changed() && !r.acting() && !r.stopped(),
    {
        SingleActorAction {
            base_action: BaseInputAction::new(false),
            capture_on_trigger,
            change_actor,
            actor_started: false,
            actor_changed: false,
            actor_acting: false,
            actor_stopped: false,
            actor: None,
        }
    }

    /// Settles the actor for the frame that the eligibility condition (see
    /// `base_mut`) and, where given, the prerequisite `condition_action` have just
    /// moved to, and the edges between the previous actor and the new one.
    pub fn update(&mut self, condition_action: Option<&BaseInputAction>)
        ensures
            ({
                let kept = kept_actor(old(self).actor_spec(), old(self).base_spec().stopped());
                let cands = candidates(&old(self).base_spec(), condition_action);
                next_actor_ok(final(self).actor_spec(), kept, cands, old(self).may_change())
            }),
            final(self).started() == (old(self).actor_spec() is None && final(self).actor_spec() is Some),
            final(self).changed() == (old(self).actor_spec() is Some && final(self).actor_spec() is Some
                && old(self).actor_spec() != final(self).actor_spec()),
            final(self).acting() == final(self).actor_spec() is Some,
            final(self).stopped() == (old(self).actor_spec() is Some && final(self).actor_spec() is None),
            // a source that meets the prerequisite only from this frame on cannot newly take the action
            forall|x: u64|
                condition_action is Some && #[trigger] condition_action->0.started().contains(x)
                    && old(self).actor_spec() != Some(x) ==> final(self).actor_spec() != Some(x),
            // a held action is not taken away while the actor stays eligible
            !old(self).may_change() && old(self).actor_spec() is Some
                && !old(self).base_spec().stopped().contains(old(self).actor_spec()->0)
                ==> final(self).actor_spec() == old(self).actor_spec(),
            final(self).base_spec().capture() == match condition_action {
                Some(_) => old(self).capture() && !candidates(&old(self).base_spec(), condition_action).is_empty(),
                None => old(self).capture(),
            },
            final(self).base_spec().currently() == old(self).base_spec().currently(),
            final(self).base_spec().started() == old(self).base_spec().started(),
            final(self).base_spec().stopped() == old(self).base_spec().stopped(),
            final(self).capture() == old(self).capture(),
            final(self).may_change() == old(self).may_change(),
    {
        let old_actor = self.actor;
        if let Some(a) = self.actor {
            if contains_id(self.base_action.stopped_acting(), a) {
                self.actor = None;
            }
        }
        let started = ids_of(self.base_action.started_acting());
        let mut candidate: Option<u64> = None;
        match condition_action {
            Some(gate) => {
                let passed = id_set_difference(gate.currently_acting(), gate.started_acting());
                let mut i: usize = 0;
                while i < started.len() && candidate.is_none()
                    invariant
                        i <= started@.len(),
                        passed@ == gate_passed(gate),
                        candidate is None ==> forall|j: int|
                            0 <= j < i ==> !passed@.contains(#[trigger] started@[j]),
                        candidate is Some ==> started@.contains(candidate->0)
                            && passed@.contains(candidate->0),
                    decreases started@.len() - i,
                {
                    if contains_id(&passed, started[i]) {
                        candidate = Some(started[i]);
                    }
                    i = i + 1;
                }
                proof {
                    let cands = candidates(&self.base_action, condition_action);
                    if candidate is None {
                        assert forall|k: u64| !cands.contains(k) by {
                            if cands.contains(k) {
                                assert(started@.to_set().contains(k));
                                let j = choose|j: int| 0 <= j < started@.len() && started@[j] == k;
                                assert(!passed@.contains(started@[j]));
                            }
                        }
                        assert(cands =~= Set::<u64>::empty());
                    } else {
                        assert(started@.to_set().contains(candidate->0));
                    }
                }
                let capture = self.capture_on_trigger && candidate.is_some();
                self.base_action.set_capture_on_trigger(capture);
            },
            None => {
                if started.len() > 0 {
                    candidate = Some(started[0]);
                    assert(started@.to_set().contains(started@[0]));
                } else {
                    assert(started@.to_set() =~= Set::<u64>::empty());
                }
                let capture = self.capture_on_trigger;
                self.base_action.set_capture_on_trigger(capture);
            },
        }
        if let Some(c) = candidate {
            if self.actor.is_none() || self.change_actor {
                self.actor = Some(c);
            }
        }
        self.actor_started = old_actor.is_none() && self.actor.is_some();
        self.actor_changed = old_actor.is_some() && self.actor.is_some() && old_actor != self.actor;
        self.actor_acting = self.actor.is_some();
        self.actor_stopped = old_actor.is_some() && self.actor.is_none();
    }

    /// The eligibility condition's tracking.
    pub fn base(&self) -> (r: &BaseInputAction)
        ensures
            *r == self.base_spec(),
    {
        &self.base_action
    }

    /// The eligibility condition's tracking, to move it to the next frame
    /// before `update`; nothing else of the action changes through it.
    pub fn base_mut(&mut self) -> (r: &mut BaseInputAction)
        ensures
            *r == old(self).base_spec(),
            final(self).base_spec() == *final(r),
            final(self).capture() == old(self).capture(),
            final(self).may_change() == old(self).may_change(),
            final(self).actor_spec() == old(self).actor_spec(),
            final(self).started() == old(self).started(),
            final(self).changed() == old(self).changed(),
            final(self).acting() == old(self).acting(),
            final(self).stopped() == old(self).stopped(),
    {
        &mut self.base_action
    }

    /// Whether eligible sources are to be claimed for this action alone.
    pub fn capture_on_trigger(&self) -> (r: bool)
        ensures
            r == self.capture(),
    {
        self.capture_on_trigger
    }

    /// Whether an eligible source may take the action from the actor.
    pub fn change_actor(&self) -> (r: bool)
        ensures
            r == self.may_change(),
    {
        self.change_actor
    }

    /// Whether the last update went from no actor to one.
    pub fn actor_started(&self) -> (r: bool)
        ensures
            r == self.started(),
    {
        self.actor_started
    }

    /// Whether the last update went from one actor to another.
    pub fn actor_changed(&self) -> (r: bool)
        ensures
            r == self.changed(),
    {
        self.actor_changed
    }

    /// Whether there is an actor after the last update.
    pub fn actor_acting(&self) -> (r: bool)
        ensures
            r == self.acting(),
    {
        self.actor_acting
    }

    /// Whether the last update went from an actor to none.
    pub fn actor_stopped(&self) -> (r: bool)
        ensures
            r == self.stopped(),
    {
        self.actor_stopped
    }

    /// The source holding the action, if any.
    pub fn actor(&self) -> (r: Option<u64>)
        ensures
            r == self.actor_spec(),
    {
        self.actor
    }
}

} // verus!
