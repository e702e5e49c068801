use cobra::command_list::CommandListVulkan;
use cobra::deletion::{DeleteValue, DeletionQueue};
use cobra::fence::{FenceQuery, SyncPoint, Timeline, WaitPlan};
use cobra::queue::{AcquireStep, BeginStep, PresentInfo, QueueVulkan, SubmitInfo};
use cobra::swapchain::{SurfaceFormat, SwapchainState, SwapchainVulkan, ERROR_OUT_OF_DATE};
use cobra::types::Extent;

fn queue() -> QueueVulkan {
    let mut queue = QueueVulkan::new();
    queue.init(7, 2, 900);
    queue
}

fn swapchain() -> SwapchainVulkan {
    SwapchainVulkan::new(
        1,
        SurfaceFormat { format: 37, color_space: 0 },
        2,
        &vec![(100, 200), (101, 201)],
        vec![300, 301, 302, 303],
        Extent { width: 8, height: 8 },
    )
}

fn begin_new(queue: &mut QueueVulkan, next_buffer: &mut u64) -> CommandListVulkan {
    let plan = queue.begin();
    match plan.next {
        BeginStep::Reuse(list) => list,
        BeginStep::Allocate { allocator, .. } => {
            *next_buffer += 1;
            CommandListVulkan::new(*next_buffer, allocator)
        }
        BeginStep::CreatePool => {
            let allocator = queue.add_allocator(5000 + *next_buffer);
            *next_buffer += 1;
            CommandListVulkan::new(*next_buffer, allocator)
        }
    }
}

fn submit(queue: &mut QueueVulkan, cmd: CommandListVulkan, timeline: &mut Timeline) -> SyncPoint {
    let _info = queue.submit(&cmd, None, timeline);
    queue.complete_submit(cmd, timeline)
}

#[test]
fn new_queue_knows_its_driver_objects() {
    let queue = queue();
    assert_eq!(queue.handle(), 7);
    assert_eq!(queue.family(), 2);
    assert_eq!(queue.fence().timeline_semaphore(), 900);
    assert_eq!(queue.fence().last_seen_value(), 0);
}

#[test]
fn first_begin_asks_for_a_pool() {
    let mut queue = queue();
    let plan = queue.begin();
    assert!(plan.reset.is_empty());
    assert!(matches!(plan.next, BeginStep::CreatePool));
    let allocator = queue.add_allocator(5000);
    assert_eq!(allocator, 0);
    assert!(queue.in_use(0));
    assert!(!queue.in_use(1));
    assert_eq!(queue.add_allocator(5001), 1);
}

#[test]
fn submit_signals_the_next_timeline_value() {
    let mut queue = queue();
    let mut timeline = Timeline::new();
    let allocator = queue.add_allocator(5000);
    let cmd = CommandListVulkan::new(41, allocator);
    let info = queue.submit(&cmd, None, &mut timeline);
    assert_eq!(info, SubmitInfo {
        command_buffer: Some(41),
        wait: None,
        wait_binary: None,
        signal: Some((900, 1)),
        signal_binary: None,
    });
    assert_eq!(timeline.pending(), 1);
    let point = queue.complete_submit(cmd, &timeline);
    assert_eq!(point, SyncPoint { fence: Some(900), value: Some(1) });
    assert!(!queue.in_use(allocator));
    let second = CommandListVulkan::new(42, queue.add_allocator(5001));
    let waited = queue.submit(&second, Some(&point), &mut timeline);
    assert_eq!(waited.wait, Some((900, 1)));
    assert_eq!(waited.signal, Some((900, 2)));
    let empty = SyncPoint::new();
    let third = CommandListVulkan::new(43, queue.add_allocator(5002));
    let unwaited = queue.submit(&third, Some(&empty), &mut timeline);
    assert_eq!(unwaited.wait, None);
    assert_eq!(unwaited.signal, Some((900, 3)));
}

#[test]
fn later_submission_completes_at_a_higher_value() {
    let mut queue = queue();
    let mut timeline = Timeline::new();
    let mut next = 0;
    let first = begin_new(&mut queue, &mut next);
    let s1 = submit(&mut queue, first, &mut timeline);
    let second = begin_new(&mut queue, &mut next);
    let s2 = submit(&mut queue, second, &mut timeline);
    assert_eq!(s1.value, Some(1));
    assert_eq!(s2.value, Some(2));
    assert!(s1.value(&timeline) <= s2.value(&timeline));
    assert_eq!(queue.current_value(&timeline), FenceQuery::AskDriver);
    assert_eq!(s2.wait(queue.fence()), WaitPlan::Block(2));
    assert_eq!(queue.observe(2, &timeline), 2);
    assert_eq!(queue.current_value(&timeline), FenceQuery::Known(2));
    assert!(s1.value(&timeline) <= queue.fence().last_seen_value());
    assert!(s2.value(&timeline) <= queue.fence().last_seen_value());
    assert_eq!(s1.wait(queue.fence()), WaitPlan::Satisfied);
    assert_eq!(s2.wait(queue.fence()), WaitPlan::Satisfied);
}

#[test]
fn begin_reclaims_only_completed_command_lists() {
    let mut queue = queue();
    let mut timeline = Timeline::new();
    let mut next = 0;
    let a = begin_new(&mut queue, &mut next);
    assert_eq!((a.command_buffer, a.allocator), (1, 0));
    submit(&mut queue, a, &mut timeline);
    let b = begin_new(&mut queue, &mut next);
    assert_eq!((b.command_buffer, b.allocator), (2, 0));
    submit(&mut queue, b, &mut timeline);
    let c = begin_new(&mut queue, &mut next);
    assert_eq!((c.command_buffer, c.allocator), (3, 0));
    submit(&mut queue, c, &mut timeline);

    let plan = queue.begin();
    assert!(plan.reset.is_empty());
    match plan.next {
        BeginStep::Allocate { allocator, command_pool } => {
            assert_eq!(allocator, 0);
            assert_eq!(command_pool, 5000);
        }
        other => panic!("expected an allocation, got {:?}", other),
    }
    let d = CommandListVulkan::new(4, 0);
    submit(&mut queue, d, &mut timeline);

    queue.observe(2, &timeline);
    let plan = queue.begin();
    assert_eq!(plan.reset, vec![1, 2]);
    match plan.next {
        BeginStep::Reuse(list) => {
            assert_eq!(list.command_buffer, 2);
            assert_eq!(list.allocator, 0);
            submit(&mut queue, list, &mut timeline);
        }
        other => panic!("expected a retired list, got {:?}", other),
    }

    queue.observe(3, &timeline);
    let plan = queue.begin();
    assert_eq!(plan.reset, vec![3]);
    match plan.next {
        BeginStep::Reuse(list) => assert_eq!(list.command_buffer, 3),
        other => panic!("expected a retired list, got {:?}", other),
    }
}

#[test]
fn begin_after_waiting_for_the_last_submission_returns_no_pending_list() {
    let mut queue = queue();
    let mut timeline = Timeline::new();
    let mut next = 0;
    let first = begin_new(&mut queue, &mut next);
    let s1 = submit(&mut queue, first, &mut timeline);
    let second = begin_new(&mut queue, &mut next);
    let s2 = submit(&mut queue, second, &mut timeline);
    if let WaitPlan::Block(target) = s2.wait(queue.fence()) {
        assert_eq!(target, 2);
        queue.observe(target, &timeline);
    } else {
        panic!("the second submission cannot have completed");
    }
    let plan = queue.begin();
    assert_eq!(plan.reset, vec![1, 2]);
    assert!(matches!(plan.next, BeginStep::Reuse(_)));
    let again = queue.begin();
    assert!(again.reset.is_empty());
    assert!(s1.value(&timeline) <= s2.value(&timeline));
}

#[test]
fn two_recordings_never_share_an_allocator() {
    let mut queue = queue();
    let mut next = 0;
    let a = begin_new(&mut queue, &mut next);
    let b = begin_new(&mut queue, &mut next);
    assert_ne!(a.allocator, b.allocator);
    assert!(queue.in_use(a.allocator));
    assert!(queue.in_use(b.allocator));
    let mut timeline = Timeline::new();
    submit(&mut queue, a, &mut timeline);
    assert!(!queue.in_use(0));
    assert!(queue.in_use(b.allocator));
    let c = begin_new(&mut queue, &mut next);
    assert_eq!(c.allocator, 0);
    assert_ne!(c.allocator, b.allocator);
}

#[test]
fn dirty_swapchain_is_rebuilt_before_acquiring() {
    let queue = queue();
    let mut chain = swapchain();
    assert_eq!(queue.begin_acquire(&chain), AcquireStep::Acquire { swapchain: 2, semaphore: 300 });
    chain.resize(Extent { width: 16, height: 16 });
    assert_eq!(queue.begin_acquire(&chain), AcquireStep::Recreate);
    let mut deletion = DeletionQueue::new();
    chain.recreate(&mut deletion, 3, &vec![(110, 210)], Extent { width: 16, height: 16 });
    assert_eq!(queue.begin_acquire(&chain), AcquireStep::Acquire { swapchain: 3, semaphore: 300 });
}

#[test]
fn acquire_waits_for_the_frame_semaphore_and_signals_the_fence() {
    let queue = queue();
    let mut chain = swapchain();
    let mut timeline = Timeline::new();
    let info = queue.acquire(&mut chain, Ok((1, false)), &mut timeline).unwrap().unwrap();
    assert_eq!(info, SubmitInfo {
        command_buffer: None,
        wait: None,
        wait_binary: Some(300),
        signal: Some((900, 1)),
        signal_binary: None,
    });
    assert_eq!(chain.current_image_index(), 1);
    let point = queue.complete_acquire(&mut chain, &timeline);
    assert_eq!(point, SyncPoint { fence: Some(900), value: Some(1) });
    assert_eq!(chain.current_semaphore(), 301);
}

#[test]
fn acquire_that_finds_the_swapchain_unfit_yields_no_image() {
    let queue = queue();
    let mut timeline = Timeline::new();
    let mut chain = swapchain();
    assert_eq!(queue.acquire(&mut chain, Ok((1, true)), &mut timeline), Ok(None));
    assert_eq!(chain.state(), SwapchainState::Dirty);
    assert_eq!(chain.current_image_index(), 0);
    assert_eq!(chain.current_semaphore(), 300);
    assert_eq!(timeline.pending(), 0);
    let mut chain = swapchain();
    assert_eq!(queue.acquire(&mut chain, Err(ERROR_OUT_OF_DATE), &mut timeline), Ok(None));
    assert_eq!(chain.state(), SwapchainState::Dirty);
    assert_eq!(timeline.pending(), 0);
    let mut chain = swapchain();
    assert_eq!(queue.acquire(&mut chain, Err(-2), &mut timeline), Err(-2));
    assert_eq!(chain.state(), SwapchainState::Valid);
    assert_eq!(timeline.pending(), 0);
    let mut chain = swapchain();
    assert_eq!(queue.acquire(&mut chain, Ok((77, true)), &mut timeline), Ok(None));
    assert_eq!(chain.state(), SwapchainState::Dirty);
    assert_eq!(chain.current_image_index(), 0);
    assert_eq!(timeline.pending(), 0);
}

#[test]
fn completed_lists_what_begin_will_retire_and_changes_nothing() {
    let mut queue = queue();
    let mut timeline = Timeline::new();
    let mut next = 0;
    for _ in 0..3 {
        let cmd = begin_new(&mut queue, &mut next);
        submit(&mut queue, cmd, &mut timeline);
    }
    assert!(queue.completed().is_empty());
    queue.observe(2, &timeline);
    assert_eq!(queue.completed(), vec![1, 2]);
    assert_eq!(queue.completed(), vec![1, 2]);
    let plan = queue.begin();
    assert_eq!(plan.reset, vec![1, 2]);
    assert!(queue.completed().is_empty());
    queue.observe(3, &timeline);
    assert_eq!(queue.completed(), vec![3]);
}

#[test]
fn present_signals_the_frame_semaphore_and_waits_for_it() {
    let queue = queue();
    let mut chain = swapchain();
    let mut timeline = Timeline::new();
    queue.acquire(&mut chain, Ok((1, false)), &mut timeline).unwrap();
    let ready = queue.complete_acquire(&mut chain, &timeline);
    let info = queue.present(&chain, Some(&ready), &timeline);
    assert_eq!(info, SubmitInfo {
        command_buffer: None,
        wait: Some((900, 1)),
        wait_binary: None,
        signal: None,
        signal_binary: Some(301),
    });
    assert_eq!(queue.present(&chain, None, &timeline).wait, None);
    assert_eq!(queue.present(&chain, Some(&SyncPoint::new()), &timeline).wait, None);
    let present = queue.complete_present(&mut chain);
    assert_eq!(present, PresentInfo { wait_semaphore: 301, swapchain: 2, image_index: 1 });
    assert_eq!(chain.current_semaphore(), 302);
    assert_eq!(chain.note_present(Ok(true)), Ok(()));
    assert_eq!(queue.begin_acquire(&chain), AcquireStep::Recreate);
}

#[test]
fn destroyed_queue_leaves_free_pools_and_its_semaphore() {
    let mut queue = queue();
    let mut timeline = Timeline::new();
    let mut next = 0;
    let a = begin_new(&mut queue, &mut next);
    let b = begin_new(&mut queue, &mut next);
    let _recording = begin_new(&mut queue, &mut next);
    submit(&mut queue, b, &mut timeline);
    submit(&mut queue, a, &mut timeline);
    let mut deletion = DeletionQueue::new();
    queue.destroy(&mut deletion);
    assert_eq!(deletion.flush(), vec![
        DeleteValue::CommandPool(5001),
        DeleteValue::CommandPool(5000),
        DeleteValue::Semaphore(900),
    ]);
}
