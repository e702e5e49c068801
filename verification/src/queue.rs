//! The queue: submission in timeline order, and the recycling of command
//! lists and their allocators once the timeline shows that the device is
//! done with them.
//!
//! Submitted command lists wait in a pending list, each stamped with the
//! timeline value at which it completes. The list is in submission order, so
//! its stamps never decrease, and everything that has completed is found at
//! its front.

use std::collections::VecDeque;
use vstd::prelude::*;
use crate::command_list::{CommandAllocator, CommandListVulkan};
use crate::deletion::{DeleteValue, DeletionQueue};
use crate::fence::{FenceQuery, FenceVulkan, SyncPoint, Timeline};
use crate::swapchain::{AcquireAnswer, SwapchainVulkan};

verus! {

/// What a command allocator holds.
pub ghost struct PoolView {
    pub command_pool: u64,
    /// The retired command lists of the pool, the one retired last at the
    /// end.
    pub available: Seq<CommandListVulkan>,
}

/// What a queue holds.
pub ghost struct QueueView {
    /// Every allocator that the queue was given, by position.
    pub pools: Seq<PoolView>,
    /// Positions of the allocators that no recording command list uses, the
    /// one freed last at the end.
    pub free: Seq<usize>,
    /// The submitted command lists with their stamps, oldest first.
    pub pending: Seq<(CommandListVulkan, u64)>,
}

/// Number of entries at the front of a pending list whose stamp has been
/// reached at `current`.
pub open spec fn ready_count(pending: Seq<(CommandListVulkan, u64)>, current: u64) -> nat
    decreases pending.len(),
{
    if pending.len() > 0 && pending[0].1 <= current {
        1 + ready_count(pending.skip(1), current)
    } else {
        0
    }
}

/// The command buffers of the given pending entries, in order.
pub open spec fn command_buffers(pending: Seq<(CommandListVulkan, u64)>) -> Seq<u64> {
    pending.map(|i: int, entry: (CommandListVulkan, u64)| entry.0.command_buffer)
}

/// The command pools of the allocators at the given positions, in order.
pub open spec fn pool_remains(pools: Seq<PoolView>, free: Seq<usize>) -> Seq<DeleteValue> {
    free.map(|i: int, at: usize| DeleteValue::CommandPool(pools[at as int].command_pool))
}

/// What beginning a command list asks of the caller once the completed
/// command buffers were reset.
#[derive(Debug)]
pub enum BeginStep {
    /// Record into this retired command list.
    Reuse(CommandListVulkan),
    /// Allocate a command buffer from the pool of the allocator at the given
    /// position, and record into a new command list of that allocator.
    Allocate { allocator: usize, command_pool: u64 },
    /// Create a command pool, hand it over with
    /// [`QueueVulkan::add_allocator`], allocate a command buffer from it and
    /// record into a new command list of the new allocator.
    CreatePool,
}

/// What beginning a command list takes.
#[derive(Debug)]
pub struct Begin {
    /// The command buffers that completed and were retired: reset each, in
    /// this order.
    pub reset: Vec<u64>,
    /// How to get the command list to record into.
    pub next: BeginStep,
}

/// What the driver is asked to submit.
#[derive(Clone, Copy, Debug, PartialEq, Eq)]
pub struct SubmitInfo {
    /// The command buffer to execute, if any.
    pub command_buffer: Option<u64>,
    /// A timeline semaphore and the value to wait for on it, if any.
    pub wait: Option<(u64, u64)>,
    /// A binary semaphore to wait for, if any.
    pub wait_binary: Option<u64>,
    /// A timeline semaphore and the value to signal on it, if any.
    pub signal: Option<(u64, u64)>,
    /// A binary semaphore to signal, if any.
    pub signal_binary: Option<u64>,
}

/// What acquiring the next image of a swapchain asks of the caller first.
#[derive(Clone, Copy, Debug, PartialEq, Eq, Structural)]
pub enum AcquireStep {
    /// The swapchain is dirty: rebuild it, then ask again.
    Recreate,
    /// Ask the driver for the next image of the swapchain, to be signalled
    /// on the semaphore.
    Acquire { swapchain: u64, semaphore: u64 },
}

/// What the driver is asked to present.
#[derive(Clone, Copy, Debug, PartialEq, Eq, Structural)]
pub struct PresentInfo {
    /// The binary semaphore to wait for.
    pub wait_semaphore: u64,
    pub swapchain: u64,
    pub image_index: u32,
}

impl QueueView {
    /// The positions that the queue holds are positions of its allocators,
    /// no allocator is free twice, every retired command list is kept by the
    /// allocator it came from, and the stamps of the pending list never
    /// decrease.
    pub open spec fn wf(self) -> bool {
        &&& forall|i: int| 0 <= i < self.free.len() ==> #[trigger] self.free[i] < self.pools.len()
        &&& self.free.no_duplicates()
        &&& forall|i: int|
            0 <= i < self.pending.len() ==> (#[trigger] self.pending[i]).0.allocator
                < self.pools.len()
        &&& forall|i: int, j: int|
            0 <= i <= j < self.pending.len() ==> (#[trigger] self.pending[i]).1 <= (
            #[trigger] self.pending[j]).1
        &&& forall|p: int, k: int|
            0 <= p < self.pools.len() && 0 <= k < self.pools[p].available.len() ==> (
            #[trigger] self.pools[p].available[k]).allocator == p
    }

    /// No pending command list is stamped beyond `pending_value`.
    pub open spec fn stamped_within(self, pending_value: u64) -> bool {
        forall|i: int| 0 <= i < self.pending.len() ==> (#[trigger] self.pending[i]).1 <= pending_value
    }

    /// The queue after the oldest pending command list went back to the
    /// allocator it came from.
    pub open spec fn retire_front(self) -> QueueView {
        if self.pending.len() == 0 {
            self
        } else {
            let list = self.pending[0].0;
            let pool = self.pools[list.allocator as int];
            QueueView {
                pools: self.pools.update(
                    list.allocator as int,
                    PoolView { available: pool.available.push(list), ..pool },
                ),
                free: self.free,
                pending: self.pending.skip(1),
            }
        }
    }

    /// The queue after the `count` oldest pending command lists went back to
    /// their allocators, oldest first.
    pub open spec fn retire(self, count: nat) -> QueueView
        decreases count,
    {
        if count == 0 {
            self
        } else {
            self.retire((count - 1) as nat).retire_front()
        }
    }

    /// The queue after a command list was submitted with the given stamp: its
    /// allocator is free again, and the command list is the newest pending
    /// one.
    pub open spec fn submitted(self, list: CommandListVulkan, stamp: u64) -> QueueView {
        QueueView {
            free: self.free.push(list.allocator),
            pending: self.pending.push((list, stamp)),
            ..self
        }
    }

    /// Whether a command list of the allocator at the given position can be
    /// submitted: the allocator exists and is in use.
    pub open spec fn in_use(self, allocator: usize) -> bool {
        allocator < self.pools.len() && !self.free.contains(allocator)
    }

    /// How a command list to record into is found, and the queue afterwards:
    /// the allocator that was freed last is taken, and with it the command
    /// list that it retired last.
    pub open spec fn pick(self) -> (QueueView, BeginStep) {
        if self.free.len() == 0 {
            (self, BeginStep::CreatePool)
        } else {
            let at = self.free.last();
            let pool = self.pools[at as int];
            if pool.available.len() == 0 {
                (
                    QueueView { free: self.free.drop_last(), ..self },
                    BeginStep::Allocate { allocator: at, command_pool: pool.command_pool },
                )
            } else {
                (
                    QueueView {
                        pools: self.pools.update(
                            at as int,
                            PoolView { available: pool.available.drop_last(), ..pool },
                        ),
                        free: self.free.drop_last(),
                        pending: self.pending,
                    },
                    BeginStep::Reuse(pool.available.last()),
                )
            }
        }
    }
}

/// Retiring the oldest pending command list keeps a queue well formed.
pub proof fn lemma_retire_front_keeps_wf(view: QueueView)
    requires
        view.wf(),
    ensures
        view.retire_front().wf(),
        view.retire_front().free == view.free,
        view.retire_front().pools.len() == view.pools.len(),
        forall|p: int|
            0 <= p < view.pools.len() ==> (#[trigger] view.retire_front().pools[p]).command_pool
                == view.pools[p].command_pool,
{
    if view.pending.len() > 0 {
        let after = view.retire_front();
        let list = view.pending[0].0;
        assert forall|i: int| 0 <= i < after.pending.len() implies (#[trigger] after.pending[i]).0.allocator
            < after.pools.len() by {
            assert(after.pending[i] == view.pending[i + 1]);
        }
        assert forall|i: int, j: int| 0 <= i <= j < after.pending.len() implies (
        #[trigger] after.pending[i]).1 <= (#[trigger] after.pending[j]).1 by {
            assert(after.pending[i] == view.pending[i + 1]);
            assert(after.pending[j] == view.pending[j + 1]);
        }
        assert forall|p: int, k: int|
            0 <= p < after.pools.len() && 0 <= k < after.pools[p].available.len() implies (
        #[trigger] after.pools[p].available[k]).allocator == p by {
            if p == list.allocator {
                if k < view.pools[p].available.len() {
                    assert(after.pools[p].available[k] == view.pools[p].available[k]);
                }
            } else {
                assert(after.pools[p].available[k] == view.pools[p].available[k]);
            }
        }
    }
}

/// Retiring pending command lists keeps a queue well formed and removes
/// exactly the retired entries from the front of the pending list.
pub proof fn lemma_retire_keeps_wf(view: QueueView, count: nat)
    requires
        view.wf(),
        count <= view.pending.len(),
    ensures
        view.retire(count).wf(),
        view.retire(count).free == view.free,
        view.retire(count).pools.len() == view.pools.len(),
        view.retire(count).pending == view.pending.skip(count as int),
        forall|p: int|
            0 <= p < view.pools.len() ==> (#[trigger] view.retire(count).pools[p]).command_pool
                == view.pools[p].command_pool,
    decreases count,
{
    if count == 0 {
        assert(view.pending.skip(0) =~= view.pending);
    } else {
        let before = view.retire((count - 1) as nat);
        lemma_retire_keeps_wf(view, (count - 1) as nat);
        lemma_retire_front_keeps_wf(before);
        assert(before.pending.skip(1) =~= view.pending.skip(count as int));
    }
}

/// The entries counted as ready are at the front of the pending list and
/// have stamps that were reached; in a list whose stamps never decrease, no
/// entry behind them has.
pub proof fn lemma_ready_count(pending: Seq<(CommandListVulkan, u64)>, current: u64)
    requires
        forall|i: int, j: int|
            0 <= i <= j < pending.len() ==> (#[trigger] pending[i]).1 <= (#[trigger] pending[j]).1,
    ensures
        ready_count(pending, current) <= pending.len(),
        forall|i: int| 0 <= i < ready_count(pending, current) ==> (#[trigger] pending[i]).1 <= current,
        forall|i: int|
            ready_count(pending, current) <= i < pending.len() ==> (#[trigger] pending[i]).1
                > current,
    decreases pending.len(),
{
    if pending.len() > 0 && pending[0].1 <= current {
        let rest = pending.skip(1);
        assert forall|i: int, j: int| 0 <= i <= j < rest.len() implies (#[trigger] rest[i]).1 <= (
        #[trigger] rest[j]).1 by {
            assert(rest[i] == pending[i + 1]);
            assert(rest[j] == pending[j + 1]);
        }
        lemma_ready_count(rest, current);
        assert forall|i: int| 0 <= i < ready_count(pending, current) implies (
        #[trigger] pending[i]).1 <= current by {
            if i > 0 {
                assert(rest[i - 1] == pending[i]);
            }
        }
        assert forall|i: int| ready_count(pending, current) <= i < pending.len() implies (
        #[trigger] pending[i]).1 > current by {
            assert(rest[i - 1] == pending[i]);
        }
    } else if pending.len() > 0 {
        assert forall|i: int| 0 <= i < pending.len() implies (#[trigger] pending[i]).1
            > current by {
            assert(pending[0].1 <= pending[i].1);
        }
    }
}

/// A queue of the device with its fence, its command allocators and the
/// command lists that it was given to execute.
#[derive(Debug)]
pub struct QueueVulkan {
    queue: u64,
    queue_family: u32,
    fence: FenceVulkan,
    pools: Vec<CommandAllocator>,
    allocators: VecDeque<usize>,
    pending_command_lists: VecDeque<(CommandListVulkan, u64)>,
}

impl View for QueueVulkan {
    type V = QueueView;

    closed spec fn view(&self) -> QueueView {
        QueueView {
            pools: self.pools@.map(
                |i: int, allocator: CommandAllocator|
                    PoolView {
                        command_pool: allocator.command_pool,
                        available: allocator.available_command_lists@,
                    },
            ),
            free: self.allocators@,
            pending: self.pending_command_lists@,
        }
    }
}

impl QueueVulkan {
    /// Handle of the driver's queue; zero until the queue is initialised.
    pub closed spec fn queue(&self) -> u64 {
        self.queue
    }

    /// Index of the queue family that the queue belongs to.
    pub closed spec fn queue_family(&self) -> u32 {
        self.queue_family
    }

    /// The fence of the queue.
    pub closed spec fn spec_fence(&self) -> FenceVulkan {
        self.fence
    }

    /// What the queue holds is well formed.
    pub open spec fn wf(&self) -> bool {
        self@.wf()
    }

    /// The queue has seen and stamped nothing beyond what was submitted on
    /// the timeline.
    pub open spec fn within(&self, timeline: &Timeline) -> bool {
        &&& self.spec_fence().wf(timeline)
        &&& self@.stamped_within(timeline@)
    }

    /// A queue without a driver queue, allocators or pending work.
    pub fn new() -> (made: QueueVulkan)
        ensures
            made.wf(),
            made.queue() == 0,
            made.queue_family() == 0,
            made.spec_fence().semaphore() == 0,
            made.spec_fence().last_seen() == 0,
            made@.pools.len() == 0,
            made@.free.len() == 0,
            made@.pending.len() == 0,
    {
        QueueVulkan {
            queue: 0,
            queue_family: 0,
            fence: FenceVulkan::new(),
            pools: Vec::new(),
            allocators: VecDeque::new(),
            pending_command_lists: VecDeque::new(),
        }
    }

    /// Gives the queue the driver's queue, its family and the timeline
    /// semaphore that the driver created for its fence.
    pub fn init(&mut self, queue: u64, queue_family: u32, timeline_semaphore: u64)
        ensures
            final(self)@ == old(self)@,
            final(self).queue() == queue,
            final(self).queue_family() == queue_family,
            final(self).spec_fence().semaphore() == timeline_semaphore,
            final(self).spec_fence().last_seen() == old(self).spec_fence().last_seen(),
    {
        self.fence.init(timeline_semaphore);
        self.queue = queue;
        self.queue_family = queue_family;
    }

    /// Handle of the driver's queue.
    pub fn handle(&self) -> (queue: u64)
        ensures
            queue == self.queue(),
    {
        self.queue
    }

    /// Index of the queue family that command pools are created for.
    pub fn family(&self) -> (family: u32)
        ensures
            family == self.queue_family(),
    {
        self.queue_family
    }

    /// The fence of the queue.
    pub fn fence(&self) -> (fence: &FenceVulkan)
        ensures
            *fence == self.spec_fence(),
    {
        &self.fence
    }

    /// What reading the completed value of the queue's fence takes.
    pub fn current_value(&self, timeline: &Timeline) -> (query: FenceQuery)
        ensures
            query == self.spec_fence().spec_current_value(timeline),
    {
        self.fence.current_value(timeline)
    }

    /// Caches what the driver reported of the queue's fence and returns the
    /// completed value.
    pub fn observe(&mut self, counter: u64, timeline: &Timeline) -> (value: u64)
        ensures
            value == FenceVulkan::spec_observe(
                old(self).spec_fence().last_seen(),
                counter,
                timeline@,
            ),
            final(self).spec_fence().last_seen() == value,
            final(self).spec_fence().semaphore() == old(self).spec_fence().semaphore(),
            final(self)@ == old(self)@,
            final(self).queue() == old(self).queue(),
            final(self).queue_family() == old(self).queue_family(),
            old(self).within(timeline) ==> final(self).within(timeline),
    {
        self.fence.observe(counter, timeline)
    }

    /// The command buffers of the pending command lists that the fence has
    /// seen completed, oldest first: those that [`QueueVulkan::begin`]
    /// retires. The caller resets each of them before it begins a command
    /// list, so that a reset that fails leaves the queue as it is.
    pub fn completed(&self) -> (buffers: Vec<u64>)
        requires
            self.wf(),
        ensures
            ready_count(self@.pending, self.spec_fence().last_seen()) <= self@.pending.len(),
            buffers@ == command_buffers(
                self@.pending.take(
                    ready_count(self@.pending, self.spec_fence().last_seen()) as int,
                ),
            ),
    {
        let current = self.fence.last_seen_value();
        let mut buffers: Vec<u64> = Vec::new();
        let mut count: usize = 0;
        proof {
            lemma_ready_count(self@.pending, current);
            assert(self@.pending.take(0) =~= Seq::<(CommandListVulkan, u64)>::empty());
            assert(self@.pending.skip(0) =~= self@.pending);
        }
        while count < self.pending_command_lists.len() && self.pending_command_lists[count].1
            <= current
            invariant
                self.wf(),
                current == self.fence.last_seen(),
                count <= self.pending_command_lists@.len(),
                ready_count(self@.pending, current) == count + ready_count(
                    self@.pending.skip(count as int),
                    current,
                ),
                buffers@ == command_buffers(self@.pending.take(count as int)),
            decreases self.pending_command_lists@.len() - count,
        {
            proof {
                let rest = self@.pending.skip(count as int);
                assert(rest[0] == self@.pending[count as int]);
                assert(rest.skip(1) =~= self@.pending.skip(count + 1));
            }
            buffers.push(self.pending_command_lists[count].0.command_buffer);
            assert(buffers@ =~= command_buffers(self@.pending.take(count + 1)));
            count += 1;
        }
        proof {
            let rest = self@.pending.skip(count as int);
            if count < self@.pending.len() {
                assert(rest[0] == self@.pending[count as int]);
            }
            assert(ready_count(rest, current) == 0);
        }
        buffers
    }

    /// Begins a command list.
    ///
    /// First, every pending command list whose stamp the fence has seen
    /// completed goes back to the allocator it came from; the pending list
    /// is emptied from its front up to the first command list that has not
    /// completed. Then the allocator that was freed last is taken, and with
    /// it the command list that it retired last; where nothing is free, the
    /// caller is asked to create what is missing.
    pub fn begin(&mut self) -> (plan: Begin)
        requires
            old(self).wf(),
        ensures
            final(self).wf(),
            final(self).queue() == old(self).queue(),
            final(self).queue_family() == old(self).queue_family(),
            final(self).spec_fence() == old(self).spec_fence(),
            ({
                let current = old(self).spec_fence().last_seen();
                let ready = ready_count(old(self)@.pending, current);
                let retired = old(self)@.retire(ready);
                &&& ready <= old(self)@.pending.len()
                &&& plan.reset@ == command_buffers(old(self)@.pending.take(ready as int))
                &&& final(self)@ == retired.pick().0
                &&& plan.next == retired.pick().1
                &&& final(self)@.pending == old(self)@.pending.skip(ready as int)
                &&& forall|k: int|
                    0 <= k < final(self)@.pending.len() ==> (#[trigger] final(self)@.pending[k]).1
                        > current
            }),
    {
        let current = self.fence.last_seen_value();
        let ghost start = self@;
        let mut reset: Vec<u64> = Vec::new();
        let mut count: usize = 0;
        let waiting = self.pending_command_lists.len();
        proof {
            lemma_ready_count(start.pending, current);
            assert(start.pending.take(0) =~= Seq::<(CommandListVulkan, u64)>::empty());
            assert(start.pending.skip(0) =~= start.pending);
        }
        while self.pending_command_lists.len() > 0 && self.pending_command_lists[0].1 <= current
            invariant
                start.wf(),
                start == old(self)@,
                self.queue == old(self).queue,
                self.queue_family == old(self).queue_family,
                self.fence == old(self).fence,
                current == self.fence.last_seen(),
                start.pending.len() <= usize::MAX,
                count + self.pending_command_lists@.len() == start.pending.len(),
                count <= ready_count(start.pending, current),
                ready_count(start.pending, current) == count + ready_count(
                    self@.pending,
                    current,
                ),
                self@ == start.retire(count as nat),
                self@.pending == start.pending.skip(count as int),
                reset@ == command_buffers(start.pending.take(count as int)),
            decreases self.pending_command_lists@.len(),
        {
            proof {
                lemma_retire_keeps_wf(start, count as nat);
            }
            let ghost before = self@;
            let entry = self.pending_command_lists.pop_front();
            assert(entry is Some);
            let list = entry.unwrap().0;
            assert(self.pending_command_lists@ =~= before.pending.skip(1));
            assert(list == start.pending[count as int].0) by {
                assert(before.pending[0] == start.pending[count as int]);
            }
            reset.push(list.command_buffer);
            let at = list.allocator;
            assert(at < self.pools@.len());
            self.pools[at].available_command_lists.push(list);
            proof {
                assert(self@.pools =~= before.retire_front().pools);
                assert(self@ == before.retire_front());
                assert(start.pending.skip(count as int).skip(1) =~= start.pending.skip(count + 1));
                assert(reset@ =~= command_buffers(start.pending.take(count + 1)));
            }
            count += 1;
        }
        proof {
            lemma_retire_keeps_wf(start, count as nat);
            assert(self.pending_command_lists@.len() == 0 || self.pending_command_lists@[0].1
                > current);
            assert(self@.pending == self.pending_command_lists@);
            assert(ready_count(self@.pending, current) == 0);
            assert forall|k: int| 0 <= k < self@.pending.len() implies (
            #[trigger] self@.pending[k]).1 > current by {
                assert(self@.pending[k] == start.pending[count + k]);
            }
        }
        let ghost retired = self@;
        let next = match self.allocators.pop_back() {
            None => BeginStep::CreatePool,
            Some(at) => {
                assert(self.allocators@ =~= retired.free.drop_last());
                assert(at == retired.free.last());
                assert(at < self.pools@.len());
                match self.pools[at].available_command_lists.pop() {
                    Some(list) => {
                        proof {
                            assert(self@.pools =~= retired.pick().0.pools);
                        }
                        BeginStep::Reuse(list)
                    },
                    None => {
                        proof {
                            assert(self@.pools =~= retired.pools);
                        }
                        BeginStep::Allocate {
                            allocator: at,
                            command_pool: self.pools[at].command_pool,
                        }
                    },
                }
            },
        };
        proof {
            lemma_pick_keeps_wf(retired);
        }
        Begin { reset, next }
    }

    /// Takes over a command pool that the driver created, as a new allocator
    /// that a command list is about to record with. Returns the position of
    /// the allocator.
    pub fn add_allocator(&mut self, command_pool: u64) -> (at: usize)
        requires
            old(self).wf(),
        ensures
            final(self).wf(),
            at == old(self)@.pools.len(),
            final(self)@ == (QueueView {
                pools: old(self)@.pools.push(PoolView { command_pool, available: Seq::empty() }),
                ..old(self)@
            }),
            final(self).queue() == old(self).queue(),
            final(self).queue_family() == old(self).queue_family(),
            final(self).spec_fence() == old(self).spec_fence(),
    {
        let at = self.pools.len();
        self.pools.push(CommandAllocator { command_pool, available_command_lists: Vec::new() });
        proof {
            assert(self@.pools =~= old(self)@.pools.push(
                PoolView { command_pool, available: Seq::empty() },
            ));
            let after = self@;
            assert forall|p: int, k: int|
                0 <= p < after.pools.len() && 0 <= k < after.pools[p].available.len() implies (
            #[trigger] after.pools[p].available[k]).allocator == p by {
                assert(after.pools[p] == old(self)@.pools[p]);
            }
        }
        at
    }

    /// Whether a command list of the allocator at the given position can be
    /// submitted: the allocator exists and is in use.
    pub open spec fn spec_in_use(&self, allocator: usize) -> bool {
        self@.in_use(allocator)
    }

    /// Whether a command list of the allocator at the given position can be
    /// submitted.
    pub fn in_use(&self, allocator: usize) -> (used: bool)
        ensures
            used == self.spec_in_use(allocator),
    {
        if allocator >= self.pools.len() {
            return false;
        }
        let mut i: usize = 0;
        while i < self.allocators.len()
            invariant
                i <= self.allocators@.len(),
                forall|k: int| 0 <= k < i ==> self.allocators@[k] != allocator,
            decreases self.allocators@.len() - i,
        {
            if self.allocators[i] == allocator {
                return false;
            }
            i += 1;
        }
        true
    }

    /// Stamps a submission: moves the timeline on and says what the driver
    /// is asked to submit. The command list is executed after the point to
    /// wait for, if there is one that refers to a fence, and the queue's
    /// fence is signalled at the new timeline value, which lies beyond the
    /// stamp of everything pending.
    pub fn submit(
        &self,
        cmd: &CommandListVulkan,
        wait: Option<&SyncPoint>,
        timeline: &mut Timeline,
    ) -> (info: SubmitInfo)
        requires
            old(timeline)@ < u64::MAX,
        ensures
            final(timeline)@ == old(timeline)@ + 1,
            info == (SubmitInfo {
                command_buffer: Some(cmd.command_buffer),
                wait: match wait {
                    Some(point) => point.spec_wait_info(old(timeline)),
                    None => None,
                },
                wait_binary: None,
                signal: Some((self.spec_fence().semaphore(), final(timeline)@)),
                signal_binary: None,
            }),
            self@.stamped_within(old(timeline)@) ==> forall|k: int|
                0 <= k < self@.pending.len() ==> (#[trigger] self@.pending[k]).1 < final(timeline)@,
            self.within(old(timeline)) ==> self.within(final(timeline)),
    {
        let wait_info = match wait {
            Some(point) => point.wait_info(timeline),
            None => None,
        };
        let value = timeline.advance();
        SubmitInfo {
            command_buffer: Some(cmd.command_buffer),
            wait: wait_info,
            wait_binary: None,
            signal: Some((self.fence.timeline_semaphore(), value)),
            signal_binary: None,
        }
    }

    /// Takes note that the driver accepted the submission of `cmd`: its
    /// allocator is free again, and the command list is pending until the
    /// timeline value that is submitted now has completed. Returns the point
    /// at which it has.
    pub fn complete_submit(&mut self, cmd: CommandListVulkan, timeline: &Timeline) -> (point:
        SyncPoint)
        requires
            old(self).wf(),
            old(self).within(timeline),
            old(self).spec_in_use(cmd.allocator),
        ensures
            final(self).wf(),
            final(self).within(timeline),
            final(self)@ == old(self)@.submitted(cmd, timeline@),
            point == (SyncPoint {
                fence: Some(old(self).spec_fence().semaphore()),
                value: Some(timeline@),
            }),
            final(self).queue() == old(self).queue(),
            final(self).queue_family() == old(self).queue_family(),
            final(self).spec_fence() == old(self).spec_fence(),
    {
        let stamp = self.fence.pending_value(timeline);
        proof {
            lemma_submitted_keeps_wf(self@, cmd, stamp);
        }
        self.allocators.push_back(cmd.allocator);
        self.pending_command_lists.push_back((cmd, stamp));
        proof {
            assert(self@.pools =~= old(self)@.pools);
        }
        SyncPoint::new_from_fence(&self.fence, timeline)
    }

    /// What acquiring the next image of a swapchain takes first: a dirty
    /// swapchain is rebuilt before anything is acquired from it.
    pub fn begin_acquire(&self, swapchain: &SwapchainVulkan) -> (step: AcquireStep)
        requires
            swapchain.wf(),
        ensures
            step == if swapchain.dirty() {
                AcquireStep::Recreate
            } else {
                AcquireStep::Acquire {
                    swapchain: swapchain.swapchain(),
                    semaphore: swapchain.semaphores()[swapchain.semaphore_index() as int],
                }
            },
    {
        match swapchain.state() {
            crate::swapchain::SwapchainState::Dirty => AcquireStep::Recreate,
            crate::swapchain::SwapchainState::Valid => AcquireStep::Acquire {
                swapchain: swapchain.handle(),
                semaphore: swapchain.current_semaphore(),
            },
        }
    }

    /// Takes note of the driver's answer to the request for the next image.
    ///
    /// With an image of a swapchain that still fits, the timeline moves on
    /// and a submission is returned that waits for the semaphore of the
    /// frame and signals the queue's fence at the new value. A suboptimal or
    /// outdated swapchain is marked dirty and yields nothing this frame. Any
    /// other result code is an error.
    pub fn acquire(
        &self,
        swapchain: &mut SwapchainVulkan,
        answer: AcquireAnswer,
        timeline: &mut Timeline,
    ) -> (outcome: Result<Option<SubmitInfo>, i32>)
        requires
            old(swapchain).wf(),
            answer matches Ok(found) ==> found.1 || found.0 < old(swapchain).images().len(),
            old(timeline)@ < u64::MAX,
        ensures
            final(swapchain).wf(),
            final(swapchain).surface() == old(swapchain).surface(),
            final(swapchain).surface_format() == old(swapchain).surface_format(),
            final(swapchain).swapchain() == old(swapchain).swapchain(),
            final(swapchain).images() == old(swapchain).images(),
            final(swapchain).semaphores() == old(swapchain).semaphores(),
            final(swapchain).semaphore_index() == old(swapchain).semaphore_index(),
            final(swapchain).spec_size() == old(swapchain).spec_size(),
            self.within(old(timeline)) ==> self.within(final(timeline)),
            match answer {
                Ok((index, suboptimal)) => if suboptimal {
                    &&& outcome == Ok::<Option<SubmitInfo>, i32>(None)
                    &&& final(swapchain).dirty()
                    &&& final(swapchain).image_index() == old(swapchain).image_index()
                    &&& final(timeline)@ == old(timeline)@
                } else {
                    &&& outcome == Ok::<Option<SubmitInfo>, i32>(
                        Some(
                            SubmitInfo {
                                command_buffer: None,
                                wait: None,
                                wait_binary: Some(
                                    old(swapchain).semaphores()[old(swapchain).semaphore_index() as int],
                                ),
                                signal: Some((self.spec_fence().semaphore(), final(timeline)@)),
                                signal_binary: None,
                            },
                        ),
                    )
                    &&& final(swapchain).dirty() == old(swapchain).dirty()
                    &&& final(swapchain).image_index() == index
                    &&& final(timeline)@ == old(timeline)@ + 1
                },
                Err(code) => {
                    &&& final(swapchain).image_index() == old(swapchain).image_index()
                    &&& final(timeline)@ == old(timeline)@
                    &&& if code == crate::swapchain::ERROR_OUT_OF_DATE {
                        outcome == Ok::<Option<SubmitInfo>, i32>(None) && final(swapchain).dirty()
                    } else {
                        outcome == Err::<Option<SubmitInfo>, i32>(code) && final(swapchain).dirty()
                            == old(swapchain).dirty()
                    }
                },
            },
    {
        match swapchain.note_acquire(answer) {
            Err(code) => Err(code),
            Ok(false) => Ok(None),
            Ok(true) => {
                let value = timeline.advance();
                Ok(
                    Some(
                        SubmitInfo {
                            command_buffer: None,
                            wait: None,
                            wait_binary: Some(swapchain.current_semaphore()),
                            signal: Some((self.fence.timeline_semaphore(), value)),
                            signal_binary: None,
                        },
                    ),
                )
            },
        }
    }

    /// Takes note that the driver accepted the submission that follows an
    /// acquired image: the swapchain moves on to the semaphore of the next
    /// frame. Returns the point at which the image is ready.
    pub fn complete_acquire(&self, swapchain: &mut SwapchainVulkan, timeline: &Timeline) -> (point:
        SyncPoint)
        requires
            old(swapchain).wf(),
        ensures
            final(swapchain).wf(),
            final(swapchain).semaphore_index() == old(swapchain).next_semaphore_index(),
            final(swapchain).surface() == old(swapchain).surface(),
            final(swapchain).surface_format() == old(swapchain).surface_format(),
            final(swapchain).swapchain() == old(swapchain).swapchain(),
            final(swapchain).images() == old(swapchain).images(),
            final(swapchain).image_index() == old(swapchain).image_index(),
            final(swapchain).semaphores() == old(swapchain).semaphores(),
            final(swapchain).spec_size() == old(swapchain).spec_size(),
            final(swapchain).dirty() == old(swapchain).dirty(),
            point == (SyncPoint {
                fence: Some(self.spec_fence().semaphore()),
                value: Some(timeline@),
            }),
    {
        swapchain.advance_semaphore();
        SyncPoint::new_from_fence(&self.fence, timeline)
    }

    /// What the driver is asked to submit before an image is presented: a
    /// wait for the given point, if it refers to a fence, and a signal on the
    /// semaphore of the frame.
    pub fn present(&self, swapchain: &SwapchainVulkan, wait: Option<&SyncPoint>, timeline: &Timeline)
        -> (info: SubmitInfo)
        requires
            swapchain.wf(),
        ensures
            info == (SubmitInfo {
                command_buffer: None,
                wait: match wait {
                    Some(point) => point.spec_wait_info(timeline),
                    None => None,
                },
                wait_binary: None,
                signal: None,
                signal_binary: Some(swapchain.semaphores()[swapchain.semaphore_index() as int]),
            }),
    {
        SubmitInfo {
            command_buffer: None,
            wait: match wait {
                Some(point) => point.wait_info(timeline),
                None => None,
            },
            wait_binary: None,
            signal: None,
            signal_binary: Some(swapchain.current_semaphore()),
        }
    }

    /// Takes note that the driver accepted the submission that precedes a
    /// presentation: the swapchain moves on to the semaphore of the next
    /// frame. Returns what the driver is asked to present: the current image,
    /// once the semaphore that was just submitted is signalled. The driver's
    /// answer goes to [`SwapchainVulkan::note_present`].
    pub fn complete_present(&self, swapchain: &mut SwapchainVulkan) -> (info: PresentInfo)
        requires
            old(swapchain).wf(),
        ensures
            final(swapchain).wf(),
            info == (PresentInfo {
                wait_semaphore: old(swapchain).semaphores()[old(swapchain).semaphore_index() as int],
                swapchain: old(swapchain).swapchain(),
                image_index: old(swapchain).image_index(),
            }),
            final(swapchain).semaphore_index() == old(swapchain).next_semaphore_index(),
            final(swapchain).surface() == old(swapchain).surface(),
            final(swapchain).surface_format() == old(swapchain).surface_format(),
            final(swapchain).swapchain() == old(swapchain).swapchain(),
            final(swapchain).images() == old(swapchain).images(),
            final(swapchain).image_index() == old(swapchain).image_index(),
            final(swapchain).semaphores() == old(swapchain).semaphores(),
            final(swapchain).spec_size() == old(swapchain).spec_size(),
            final(swapchain).dirty() == old(swapchain).dirty(),
    {
        let info = PresentInfo {
            wait_semaphore: swapchain.current_semaphore(),
            swapchain: swapchain.handle(),
            image_index: swapchain.current_image_index(),
        };
        swapchain.advance_semaphore();
        info
    }

    /// Ends the queue: queues the command pool of every free allocator, then
    /// the semaphore of the fence, for destruction.
    pub fn destroy(&mut self, deletion_queue: &mut DeletionQueue)
        requires
            old(self).wf(),
        ensures
            *final(self) == *old(self),
            final(deletion_queue)@ == old(deletion_queue)@ + pool_remains(
                old(self)@.pools,
                old(self)@.free,
            ).push(DeleteValue::Semaphore(old(self).spec_fence().semaphore())),
    {
        let ghost before = deletion_queue@;
        let mut i: usize = 0;
        while i < self.allocators.len()
            invariant
                *self == *old(self),
                self.wf(),
                i <= self.allocators@.len(),
                deletion_queue@ == before + pool_remains(
                    self@.pools,
                    self@.free.take(i as int),
                ),
            decreases self.allocators@.len() - i,
        {
            let at = self.allocators[i];
            assert(self@.free[i as int] == at);
            deletion_queue.push(DeleteValue::CommandPool(self.pools[at].command_pool));
            assert(deletion_queue@ =~= before + pool_remains(
                self@.pools,
                self@.free.take(i + 1),
            ));
            i += 1;
        }
        assert(self@.free.take(i as int) =~= self@.free);
        deletion_queue.push(DeleteValue::Semaphore(self.fence.timeline_semaphore()));
        assert(deletion_queue@ =~= before + pool_remains(self@.pools, self@.free).push(
            DeleteValue::Semaphore(self.spec_fence().semaphore()),
        ));
    }
}

/// Taking an allocator and a command list to record into keeps a queue well
/// formed and leaves the pending list alone.
pub proof fn lemma_pick_keeps_wf(view: QueueView)
    requires
        view.wf(),
    ensures
        view.pick().0.wf(),
        view.pick().0.pending == view.pending,
        view.pick().0.pools.len() == view.pools.len(),
{
    if view.free.len() > 0 {
        let after = view.pick().0;
        let at = view.free.last();
        assert(view.free[view.free.len() - 1] == at);
        assert forall|i: int| 0 <= i < after.free.len() implies #[trigger] after.free[i]
            < after.pools.len() by {
            assert(after.free[i] == view.free[i]);
        }
        assert forall|i: int, j: int|
            0 <= i < after.free.len() && 0 <= j < after.free.len() && i != j implies after.free[i]
            != after.free[j] by {
            assert(after.free[i] == view.free[i]);
            assert(after.free[j] == view.free[j]);
        }
        assert forall|p: int, k: int|
            0 <= p < after.pools.len() && 0 <= k < after.pools[p].available.len() implies (
        #[trigger] after.pools[p].available[k]).allocator == p by {
            assert(after.pools[p].available[k] == view.pools[p].available[k]);
        }
    }
}

/// Reclaiming at a completed value retires exactly the pending command
/// lists stamped at or below it: what stays pending has not completed, and
/// nothing that has completed stays pending.
pub proof fn law_reclaim_retires_exactly_the_completed(view: QueueView, current: u64)
    requires
        view.wf(),
    ensures
        ready_count(view.pending, current) <= view.pending.len(),
        view.retire(ready_count(view.pending, current)).wf(),
        view.retire(ready_count(view.pending, current)).pending == view.pending.skip(
            ready_count(view.pending, current) as int,
        ),
        forall|k: int|
            0 <= k < ready_count(view.pending, current) ==> (#[trigger] view.pending[k]).1
                <= current,
        forall|k: int|
            ready_count(view.pending, current) <= k < view.pending.len() ==> (
            #[trigger] view.pending[k]).1 > current,
{
    lemma_ready_count(view.pending, current);
    lemma_retire_keeps_wf(view, ready_count(view.pending, current));
}

/// Submitting a command list keeps a queue well formed: the newest pending
/// command list is stamped no lower than any older one.
pub proof fn lemma_submitted_keeps_wf(view: QueueView, list: CommandListVulkan, stamp: u64)
    requires
        view.wf(),
        view.in_use(list.allocator),
        forall|k: int| 0 <= k < view.pending.len() ==> (#[trigger] view.pending[k]).1 <= stamp,
    ensures
        view.submitted(list, stamp).wf(),
        view.submitted(list, stamp).stamped_within(stamp),
{
    let after = view.submitted(list, stamp);
    assert forall|i: int, j: int| 0 <= i <= j < after.pending.len() implies (
    #[trigger] after.pending[i]).1 <= (#[trigger] after.pending[j]).1 by {
        if j < view.pending.len() {
            assert(after.pending[i] == view.pending[i]);
            assert(after.pending[j] == view.pending[j]);
        } else if i < view.pending.len() {
            assert(after.pending[i] == view.pending[i]);
        }
    }
    assert forall|i: int| 0 <= i < after.pending.len() implies (
    #[trigger] after.pending[i]).0.allocator < after.pools.len() by {
        if i < view.pending.len() {
            assert(after.pending[i] == view.pending[i]);
        }
    }
    assert forall|i: int| 0 <= i < after.pending.len() implies (#[trigger] after.pending[i]).1
        <= stamp by {
        if i < view.pending.len() {
            assert(after.pending[i] == view.pending[i]);
        }
    }
    assert forall|i: int, j: int|
        0 <= i < after.free.len() && 0 <= j < after.free.len() && i != j implies after.free[i]
        != after.free[j] by {
        if i < view.free.len() && j < view.free.len() {
            assert(after.free[i] == view.free[i]);
            assert(after.free[j] == view.free[j]);
        } else if i < view.free.len() {
            assert(view.free.contains(view.free[i]));
        } else {
            assert(view.free.contains(view.free[j]));
        }
    }
    assert forall|i: int| 0 <= i < after.free.len() implies #[trigger] after.free[i]
        < after.pools.len() by {
        if i < view.free.len() {
            assert(after.free[i] == view.free[i]);
        }
    }
}

/// Of two submissions on one queue, the later one is stamped with the
/// higher value, whatever the timeline was advanced by in between; the
/// pending list holds them in that order, and once the fence has seen the
/// stamp of the later one, reclaiming retires both.
pub proof fn law_submissions_complete_in_submission_order(
    view: QueueView,
    first: CommandListVulkan,
    second: CommandListVulkan,
    pending_at_first: u64,
    pending_at_second: u64,
)
    requires
        view.wf(),
        view.stamped_within(pending_at_first),
        pending_at_first < u64::MAX,
        pending_at_first + 1 <= pending_at_second < u64::MAX,
        view.in_use(first.allocator),
        view.submitted(first, (pending_at_first + 1) as u64).in_use(second.allocator),
    ensures
        ({
            let first_stamp = (pending_at_first + 1) as u64;
            let second_stamp = (pending_at_second + 1) as u64;
            let after = view.submitted(first, first_stamp).submitted(second, second_stamp);
            &&& first_stamp < second_stamp
            &&& after.wf()
            &&& after.pending == view.pending.push((first, first_stamp)).push(
                (second, second_stamp),
            )
            &&& ready_count(after.pending, second_stamp) == after.pending.len()
            &&& after.retire(ready_count(after.pending, second_stamp)).pending.len() == 0
        }),
{
    let first_stamp = (pending_at_first + 1) as u64;
    let second_stamp = (pending_at_second + 1) as u64;
    lemma_submitted_keeps_wf(view, first, first_stamp);
    let middle = view.submitted(first, first_stamp);
    lemma_submitted_keeps_wf(middle, second, second_stamp);
    let after = middle.submitted(second, second_stamp);
    lemma_ready_count(after.pending, second_stamp);
    let ready = ready_count(after.pending, second_stamp);
    if ready < after.pending.len() {
        assert(after.pending[ready as int].1 > second_stamp);
        assert(after.pending[ready as int].1 <= second_stamp);
    }
    lemma_retire_keeps_wf(after, ready);
}

/// After the fence was seen to reach a submitted value, beginning a command
/// list leaves nothing pending that is stamped at or below that value, and
/// the command list that it hands out for reuse is none of those still
/// pending.
pub proof fn law_begin_after_wait_reuses_only_completed_lists(
    view: QueueView,
    last_seen: u64,
    pending_value: u64,
    waited: u64,
)
    requires
        view.wf(),
        last_seen <= pending_value,
        waited <= pending_value,
    ensures
        ({
            let current = FenceVulkan::spec_observe(last_seen, waited, pending_value);
            let after = view.retire(ready_count(view.pending, current)).pick();
            &&& waited <= current
            &&& after.0.wf()
            &&& forall|k: int|
                0 <= k < after.0.pending.len() ==> (#[trigger] after.0.pending[k]).1 > waited
            &&& after.0.pending == view.pending.skip(ready_count(view.pending, current) as int)
        }),
{
    let current = FenceVulkan::spec_observe(last_seen, waited, pending_value);
    let ready = ready_count(view.pending, current);
    lemma_ready_count(view.pending, current);
    lemma_retire_keeps_wf(view, ready);
    let retired = view.retire(ready);
    lemma_pick_keeps_wf(retired);
    let after = retired.pick();
    assert forall|k: int| 0 <= k < after.0.pending.len() implies (#[trigger] after.0.pending[k]).1
        > waited by {
        assert(after.0.pending[k] == view.pending[ready + k]);
    }
}

} // verus!
