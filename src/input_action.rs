//! Tracking, frame by frame, which input sources satisfy a condition.

use vstd::prelude::*;
use crate::id_set::{IdSet, new_id_set, id_set_from, id_set_difference};

verus! {

/// The handles that satisfy a condition this frame, those that began to this
/// frame and those that ceased to.
pub struct BaseInputAction {
    /// Whether the sources acting on this action are claimed for it alone.
    capture_on_trigger: bool,
    currently_acting: IdSet,
    started_acting: IdSet,
    stopped_acting: IdSet,
}

impl BaseInputAction {
    /// Whether the sources acting on this action are claimed for it alone.
    pub closed spec fn capture(&self) -> bool {
        self.capture_on_trigger
    }

    /// The sources that satisfy the condition this frame.
    pub closed spec fn currently(&self) -> Set<u64> {
        self.currently_acting@
    }

    /// The sources that satisfy the condition this frame and did not in the
    /// previous one.
    pub closed spec fn started(&self) -> Set<u64> {
        self.started_acting@
    }

    /// The sources that satisfied the condition in the previous frame and do
    /// not in this one.
    pub closed spec fn stopped(&self) -> Set<u64> {
        self.stopped_acting@
    }

    /// Every source that started acting is acting, and none that stopped is.
    pub open spec fn wf(&self) -> bool {
        &&& self.started().subset_of(self.currently())
        &&& self.stopped().disjoint(self.currently())
    }

    /// An action on which no source has acted yet.
    pub fn new(capture_on_trigger: bool) -> (r: Self)
        ensures
            r.capture() == capture_on_trigger,
            r.currently() == Set::<u64>::empty(),
            r.started() == Set::<u64>::empty(),
            r.stopped() == Set::<u64>::empty(),
            r.wf(),
    {
        BaseInputAction {
            capture_on_trigger,
            currently_acting: new_id_set(),
            started_acting: new_id_set(),
            stopped_acting: new_id_set(),
        }
    }

    /// Moves to the next frame, in which the sources `satisfying` meet the
    /// condition.
    pub fn update(&mut self, satisfying: &Vec<u64>)
        ensures
            final(self).currently() == satisfying@.to_set(),
            final(self).started() == final(self).currently().difference(old(self).currently()),
            final(self).stopped() == old(self).currently().difference(final(self).currently()),
            final(self).capture() == old(self).capture(),
            final(self).wf(),
    {
        let current = id_set_from(satisfying);
        let started = id_set_difference(&current, &self.currently_acting);
        let stopped = id_set_difference(&self.currently_acting, &current);
        self.currently_acting = current;
        self.started_acting = started;
        self.stopped_acting = stopped;
        assert(self.started().subset_of(self.currently()));
        assert(self.stopped().disjoint(self.currently()));
    }

    /// Sets whether the sources acting on this action are claimed for it
    /// alone.
    pub fn set_capture_on_trigger(&mut self, capture: bool)
        ensures
            final(self).capture() == capture,
            final(self).currently() == old(self).currently(),
            final(self).started() == old(self).started(),
            final(self).stopped() == old(self).stopped(),
    {
        self.capture_on_trigger = capture;
    }

    /// Whether the sources acting on this action are claimed for it alone.
    pub fn capture_on_trigger(&self) -> (r: bool)
        ensures
            r == self.capture(),
    {
        self.capture_on_trigger
    }

    /// The sources that satisfy the condition this frame.
    pub fn currently_acting(&self) -> (r: &IdSet)
        ensures
            r@ == self.currently(),
    {
        &self.currently_acting
    }

    /// The sources that began to satisfy the condition this frame.
    pub fn started_acting(&self) -> (r: &IdSet)
        ensures
            r@ == self.started(),
    {
        &self.started_acting
    }

    /// The sources that ceased to satisfy the condition this frame.
    pub fn stopped_acting(&self) -> (r: &IdSet)
        ensures
            r@ == self.stopped(),
    {
        &self.stopped_acting
    }
}

} // verus!
