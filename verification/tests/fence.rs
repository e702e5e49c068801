use cobra::fence::{FenceQuery, FenceVulkan, SyncPoint, Timeline, WaitPlan, SATISFIED_VALUE};

#[test]
fn timeline_advances_by_one() {
    let mut timeline = Timeline::new();
    assert_eq!(timeline.pending(), 0);
    assert!(timeline.can_advance());
    assert_eq!(timeline.advance(), 1);
    assert_eq!(timeline.advance(), 2);
    assert_eq!(timeline.pending(), 2);
}

#[test]
fn fence_reads_the_cache_when_nothing_is_outstanding() {
    let mut timeline = Timeline::new();
    let mut fence = FenceVulkan::new();
    fence.init(77);
    assert_eq!(fence.timeline_semaphore(), 77);
    assert_eq!(fence.pending_value(&timeline), 0);
    assert_eq!(fence.current_value(&timeline), FenceQuery::Known(0));
    timeline.advance();
    timeline.advance();
    assert_eq!(fence.pending_value(&timeline), 2);
    assert_eq!(fence.current_value(&timeline), FenceQuery::AskDriver);
    assert_eq!(fence.observe(1, &timeline), 1);
    assert_eq!(fence.current_value(&timeline), FenceQuery::AskDriver);
    assert_eq!(fence.observe(2, &timeline), 2);
    assert_eq!(fence.current_value(&timeline), FenceQuery::Known(2));
}

#[test]
fn observed_value_never_decreases_and_never_passes_pending() {
    let mut timeline = Timeline::new();
    for _ in 0..5 {
        timeline.advance();
    }
    let mut fence = FenceVulkan::new();
    assert_eq!(fence.observe(3, &timeline), 3);
    assert_eq!(fence.observe(1, &timeline), 3);
    assert_eq!(fence.last_seen_value(), 3);
    assert_eq!(fence.observe(9, &timeline), 5);
    assert_eq!(fence.observe(0, &timeline), 5);
}

#[test]
fn wait_blocks_only_for_values_not_yet_seen() {
    let mut timeline = Timeline::new();
    for _ in 0..4 {
        timeline.advance();
    }
    let mut fence = FenceVulkan::new();
    fence.observe(2, &timeline);
    assert_eq!(fence.wait(None), WaitPlan::Satisfied);
    assert_eq!(fence.wait(Some(0)), WaitPlan::Satisfied);
    assert_eq!(fence.wait(Some(2)), WaitPlan::Satisfied);
    assert_eq!(fence.wait(Some(3)), WaitPlan::Block(3));
    assert_eq!(fence.wait(Some(4)), WaitPlan::Block(4));
    fence.observe(4, &timeline);
    assert_eq!(fence.wait(Some(4)), WaitPlan::Satisfied);
}

#[test]
fn sync_point_without_fence_is_already_satisfied() {
    let timeline = Timeline::new();
    let fence = FenceVulkan::new();
    let point = SyncPoint::new();
    assert_eq!(point.fence, None);
    assert_eq!(point.value, None);
    assert_eq!(point.wait(&fence), WaitPlan::Satisfied);
    assert_eq!(point.value(&timeline), SATISFIED_VALUE);
    assert_eq!(point.value(&timeline), 0);
    assert_eq!(point.wait_info(&timeline), None);
}

#[test]
fn sync_point_captures_the_pending_value_of_its_fence() {
    let mut timeline = Timeline::new();
    let mut fence = FenceVulkan::new();
    fence.init(5);
    timeline.advance();
    timeline.advance();
    timeline.advance();
    let point = SyncPoint::new_from_fence(&fence, &timeline);
    assert_eq!(point, SyncPoint { fence: Some(5), value: Some(3) });
    timeline.advance();
    assert_eq!(point.value(&timeline), 3);
    assert_eq!(point.wait_info(&timeline), Some((5, 3)));
    assert_eq!(point.wait(&fence), WaitPlan::Block(3));
    fence.observe(3, &timeline);
    assert_eq!(point.wait(&fence), WaitPlan::Satisfied);
}

#[test]
fn sync_point_with_fence_and_no_value_reads_the_timeline() {
    let mut timeline = Timeline::new();
    timeline.advance();
    timeline.advance();
    let mut fence = FenceVulkan::new();
    fence.init(9);
    let point = SyncPoint { fence: Some(9), value: None };
    assert_eq!(point.value(&timeline), 2);
    assert_eq!(point.wait_info(&timeline), Some((9, 2)));
    assert_eq!(point.wait(&fence), WaitPlan::Satisfied);
}

#[test]
fn fence_answers_only_for_points_that_refer_to_it() {
    let timeline = Timeline::new();
    let mut fence = FenceVulkan::new();
    fence.init(9);
    assert!(SyncPoint::new().answers(&fence));
    assert!(SyncPoint::new_from_fence(&fence, &timeline).answers(&fence));
    assert!(SyncPoint { fence: Some(9), value: None }.answers(&fence));
    assert!(!SyncPoint { fence: Some(8), value: Some(0) }.answers(&fence));
}
