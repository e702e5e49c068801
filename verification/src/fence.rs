//! The execution timeline: the counter that submissions advance, the fence
//! that caches how far the device has come, and points on the timeline that
//! later work can wait for.
//!
//! The driver is never called from here. A function that would need the
//! driver says so in its result, and the caller reports the driver's answer
//! back with [`FenceVulkan::observe`].

use vstd::prelude::*;

verus! {

/// The value that a sync point without a fence reports: a value that every
/// timeline has reached.
pub const SATISFIED_VALUE: u64 = 0;

/// The counter that every submission advances by one. Its value is the
/// highest value that any submission so far will signal.
#[derive(Debug)]
pub struct Timeline {
    value: u64,
}

impl View for Timeline {
    type V = u64;

    closed spec fn view(&self) -> u64 {
        self.value
    }
}

impl Timeline {
    /// A timeline on which nothing was submitted.
    pub fn new() -> (timeline: Timeline)
        ensures
            timeline@ == 0,
    {
        Timeline { value: 0 }
    }

    /// The highest value that a submission will signal.
    pub fn pending(&self) -> (value: u64)
        ensures
            value == self@,
    {
        self.value
    }

    /// Whether another submission can be stamped.
    pub fn can_advance(&self) -> (room: bool)
        ensures
            room == (self@ < u64::MAX),
    {
        self.value < u64::MAX
    }

    /// Moves the timeline on by one and returns the new value, which the
    /// next submission signals.
    pub fn advance(&mut self) -> (value: u64)
        requires
            old(self)@ < u64::MAX,
        ensures
            value == old(self)@ + 1,
            final(self)@ == value,
    {
        self.value = self.value + 1;
        self.value
    }
}

/// What reading a fence's completed value takes.
#[derive(Clone, Copy, Debug, PartialEq, Eq, Structural)]
pub enum FenceQuery {
    /// The cached value is up to date: everything submitted has completed.
    Known(u64),
    /// Work is outstanding: the driver's completion counter must be read and
    /// reported with [`FenceVulkan::observe`].
    AskDriver,
}

/// What waiting for a value on a fence takes.
#[derive(Clone, Copy, Debug, PartialEq, Eq, Structural)]
pub enum WaitPlan {
    /// The value was reached already: there is nothing to wait for.
    Satisfied,
    /// Block on the driver's primitive until it reaches the given value, then
    /// report that value with [`FenceVulkan::observe`].
    Block(u64),
}

/// The completion side of the timeline for one queue: the driver's
/// primitive and the last completed value seen on it.
#[derive(Debug)]
pub struct FenceVulkan {
    timeline_semaphore: u64,
    last_seen_value: u64,
}

impl FenceVulkan {
    /// Handle of the driver's primitive; zero until the fence is initialised.
    pub closed spec fn semaphore(&self) -> u64 {
        self.timeline_semaphore
    }

    /// The last completed value seen.
    pub closed spec fn last_seen(&self) -> u64 {
        self.last_seen_value
    }

    /// The fence has seen nothing that was not submitted.
    pub open spec fn wf(&self, timeline: &Timeline) -> bool {
        self.last_seen() <= timeline@
    }

    /// A fence without a driver primitive that has seen nothing complete.
    pub fn new() -> (fence: FenceVulkan)
        ensures
            fence.semaphore() == 0,
            fence.last_seen() == 0,
    {
        FenceVulkan { timeline_semaphore: 0, last_seen_value: 0 }
    }

    /// Gives the fence the primitive that the driver created for it.
    pub fn init(&mut self, timeline_semaphore: u64)
        ensures
            final(self).semaphore() == timeline_semaphore,
            final(self).last_seen() == old(self).last_seen(),
    {
        self.timeline_semaphore = timeline_semaphore;
    }

    /// Handle of the driver's primitive.
    pub fn timeline_semaphore(&self) -> (handle: u64)
        ensures
            handle == self.semaphore(),
    {
        self.timeline_semaphore
    }

    /// The last completed value seen, without asking the driver.
    pub fn last_seen_value(&self) -> (value: u64)
        ensures
            value == self.last_seen(),
    {
        self.last_seen_value
    }

    /// The highest value that a submission will signal: the timeline's
    /// counter, which is left as it is.
    pub fn pending_value(&self, timeline: &Timeline) -> (value: u64)
        ensures
            value == timeline@,
    {
        timeline.pending()
    }

    /// What reading the completed value takes.
    pub open spec fn spec_current_value(&self, timeline: &Timeline) -> FenceQuery {
        if self.last_seen() >= timeline@ {
            FenceQuery::Known(self.last_seen())
        } else {
            FenceQuery::AskDriver
        }
    }

    /// The completed value, where the cache can tell: when everything
    /// submitted was seen to complete, the cached value is returned without
    /// asking the driver.
    pub fn current_value(&self, timeline: &Timeline) -> (query: FenceQuery)
        ensures
            query == self.spec_current_value(timeline),
    {
        if self.last_seen_value >= timeline.pending() {
            FenceQuery::Known(self.last_seen_value)
        } else {
            FenceQuery::AskDriver
        }
    }

    /// What waiting for `value` takes; without a value, the wait is for the
    /// last value seen, which is reached.
    pub open spec fn spec_wait(&self, value: Option<u64>) -> WaitPlan {
        match value {
            Some(target) => if self.last_seen() >= target {
                WaitPlan::Satisfied
            } else {
                WaitPlan::Block(target)
            },
            None => WaitPlan::Satisfied,
        }
    }

    /// Decides whether waiting for `value` has to block.
    pub fn wait(&self, value: Option<u64>) -> (plan: WaitPlan)
        ensures
            plan == self.spec_wait(value),
    {
        let target = match value {
            Some(target) => target,
            None => self.last_seen_value,
        };
        if self.last_seen_value >= target {
            WaitPlan::Satisfied
        } else {
            WaitPlan::Block(target)
        }
    }

    /// The value cached after the driver's counter was seen at `counter`:
    /// never less than the value cached before, and never more than what was
    /// submitted.
    pub open spec fn spec_observe(last_seen: u64, counter: u64, pending: u64) -> u64 {
        let capped = if counter <= pending {
            counter
        } else {
            pending
        };
        if capped >= last_seen {
            capped
        } else {
            last_seen
        }
    }

    /// Caches what the driver reported: the counter it returned, or the
    /// value that a blocking wait came back for. Returns the completed value.
    pub fn observe(&mut self, counter: u64, timeline: &Timeline) -> (value: u64)
        ensures
            value == Self::spec_observe(old(self).last_seen(), counter, timeline@),
            final(self).last_seen() == value,
            final(self).semaphore() == old(self).semaphore(),
            old(self).last_seen() <= value,
            old(self).wf(timeline) ==> final(self).wf(timeline),
    {
        let pending = timeline.pending();
        let capped = if counter <= pending {
            counter
        } else {
            pending
        };
        if capped >= self.last_seen_value {
            self.last_seen_value = capped;
        }
        self.last_seen_value
    }
}

/// A moment on a fence's timeline: which fence, and the value it has to
/// reach.
#[derive(Clone, Copy, Debug, PartialEq, Eq, Structural)]
pub struct SyncPoint {
    /// Handle of the referenced fence's primitive, if a fence is referenced.
    pub fence: Option<u64>,
    /// The value captured when the point was made.
    pub value: Option<u64>,
}

impl SyncPoint {
    /// A point that refers to no fence and is reached from the start.
    pub fn new() -> (point: SyncPoint)
        ensures
            point == (SyncPoint { fence: None, value: None }),
    {
        SyncPoint { fence: None, value: None }
    }

    /// The point at which everything submitted so far has completed on
    /// `fence`.
    pub fn new_from_fence(fence: &FenceVulkan, timeline: &Timeline) -> (point: SyncPoint)
        ensures
            point == (SyncPoint { fence: Some(fence.semaphore()), value: Some(timeline@) }),
    {
        SyncPoint { fence: Some(fence.timeline_semaphore()), value: Some(timeline.pending()) }
    }

    /// What waiting for the point takes on the fence it refers to.
    pub open spec fn spec_wait(&self, fence: &FenceVulkan) -> WaitPlan {
        if self.fence is Some {
            fence.spec_wait(self.value)
        } else {
            WaitPlan::Satisfied
        }
    }

    /// Whether `fence` can be asked about the point: the point refers to it,
    /// or to no fence at all.
    pub open spec fn spec_answers(&self, fence: &FenceVulkan) -> bool {
        self.fence matches Some(handle) ==> fence.semaphore() == handle
    }

    /// Whether `fence` can be asked about the point.
    pub fn answers(&self, fence: &FenceVulkan) -> (fits: bool)
        ensures
            fits == self.spec_answers(fence),
    {
        match self.fence {
            Some(handle) => fence.timeline_semaphore() == handle,
            None => true,
        }
    }

    /// Decides whether waiting for the point has to block. `fence` is the
    /// fence that the point refers to; a point without a fence is reached
    /// whatever fence is given.
    pub fn wait(&self, fence: &FenceVulkan) -> (plan: WaitPlan)
        requires
            self.spec_answers(fence),
        ensures
            plan == self.spec_wait(fence),
    {
        match self.fence {
            Some(_) => fence.wait(self.value),
            None => WaitPlan::Satisfied,
        }
    }

    /// The value of the point: the captured value; for a point that refers
    /// to a fence and captured nothing, what is submitted now; for a point
    /// without a fence, a value that is always reached.
    pub open spec fn spec_value(&self, timeline: &Timeline) -> u64 {
        match self.value {
            Some(value) => value,
            None => if self.fence is Some {
                timeline@
            } else {
                SATISFIED_VALUE
            },
        }
    }

    /// The value that the point stands for.
    pub fn value(&self, timeline: &Timeline) -> (value: u64)
        ensures
            value == self.spec_value(timeline),
    {
        match self.value {
            Some(value) => value,
            None => match self.fence {
                Some(_) => timeline.pending(),
                None => SATISFIED_VALUE,
            },
        }
    }

    /// The driver primitive and value that a submission has to wait for, if
    /// the point refers to a fence.
    pub open spec fn spec_wait_info(&self, timeline: &Timeline) -> Option<(u64, u64)> {
        match self.fence {
            Some(semaphore) => Some((semaphore, self.spec_value(timeline))),
            None => None,
        }
    }

    /// The driver primitive and value that a submission has to wait for.
    pub fn wait_info(&self, timeline: &Timeline) -> (info: Option<(u64, u64)>)
        ensures
            info == self.spec_wait_info(timeline),
    {
        match self.fence {
            Some(semaphore) => Some((semaphore, self.value(timeline))),
            None => None,
        }
    }
}

/// The cached value never decreases and never passes what was submitted.
pub proof fn law_observed_value_is_monotonic(last_seen: u64, counter: u64, pending: u64)
    requires
        last_seen <= pending,
    ensures
        last_seen <= FenceVulkan::spec_observe(last_seen, counter, pending) <= pending,
        last_seen <= counter <= pending ==> FenceVulkan::spec_observe(last_seen, counter, pending)
            == counter,
{
}

/// A point without a fence is reached on every fence, and its value is one
/// that every timeline has reached.
pub proof fn law_empty_sync_point_is_satisfied(
    point: SyncPoint,
    fence: FenceVulkan,
    timeline: Timeline,
)
    requires
        point.fence is None,
        point.value is None,
    ensures
        point.spec_wait(&fence) == WaitPlan::Satisfied,
        point.spec_value(&timeline) == SATISFIED_VALUE,
        point.spec_value(&timeline) <= fence.last_seen(),
        point.spec_wait_info(&timeline) is None,
{
}

/// After the driver reported that a value was reached, waiting for that
/// value or any lower one does not block.
pub proof fn law_wait_after_observe_is_satisfied(
    last_seen: u64,
    reached: u64,
    pending: u64,
    target: u64,
)
    requires
        reached <= pending,
        target <= reached,
    ensures
        FenceVulkan::spec_observe(last_seen, reached, pending) >= target,
{
}

} // verus!
