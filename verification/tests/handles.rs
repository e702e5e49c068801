use cobra::handles::{capacity, HandleTable, ResourceHandle, ResourceType, IMAGE_CAPACITY, SAMPLER_CAPACITY};

#[test]
fn fresh_table_issues_ids_from_zero() {
    let mut table = HandleTable::new();
    assert_eq!(table.acquire(ResourceType::Image), 0);
    assert_eq!(table.acquire(ResourceType::Image), 1);
    assert_eq!(table.acquire(ResourceType::Image), 2);
}

#[test]
fn categories_have_independent_id_spaces() {
    let mut table = HandleTable::new();
    assert_eq!(table.acquire(ResourceType::Image), 0);
    assert_eq!(table.acquire(ResourceType::Sampler), 0);
    assert_eq!(table.acquire(ResourceType::Image), 1);
    assert_eq!(table.acquire(ResourceType::Sampler), 1);
    assert!(table.release(ResourceType::Image, 0));
    assert_eq!(table.acquire(ResourceType::Sampler), 2);
    assert_eq!(table.acquire(ResourceType::Image), 0);
}

#[test]
fn two_storage_images_get_distinct_ids_and_freed_id_is_reused() {
    let mut table = HandleTable::new();
    let first = ResourceHandle::new(&mut table, ResourceType::Image);
    let second = ResourceHandle::new(&mut table, ResourceType::Image);
    assert_ne!(first.id, second.id);
    let freed = first.id;
    assert!(first.release(&mut table));
    let third = ResourceHandle::new(&mut table, ResourceType::Image);
    assert_eq!(third.id, freed);
    assert_ne!(third.id, second.id);
    let fourth = ResourceHandle::new(&mut table, ResourceType::Image);
    assert_eq!(fourth.id, 2);
}

#[test]
fn smallest_released_id_comes_first() {
    let mut table = HandleTable::new();
    for expected in 0..6u32 {
        assert_eq!(table.acquire(ResourceType::Image), expected);
    }
    assert!(table.release(ResourceType::Image, 4));
    assert!(table.release(ResourceType::Image, 1));
    assert!(table.release(ResourceType::Image, 3));
    assert_eq!(table.acquire(ResourceType::Image), 1);
    assert_eq!(table.acquire(ResourceType::Image), 3);
    assert_eq!(table.acquire(ResourceType::Image), 4);
    assert_eq!(table.acquire(ResourceType::Image), 6);
}

#[test]
fn releasing_an_id_that_is_not_live_changes_nothing() {
    let mut table = HandleTable::new();
    assert!(!table.release(ResourceType::Sampler, 0));
    assert_eq!(table.acquire(ResourceType::Sampler), 0);
    assert!(!table.release(ResourceType::Sampler, 7));
    assert!(table.release(ResourceType::Sampler, 0));
    assert!(!table.release(ResourceType::Sampler, 0));
    assert_eq!(table.acquire(ResourceType::Sampler), 0);
    assert_eq!(table.acquire(ResourceType::Sampler), 1);
}

#[test]
fn live_ids_are_unique_over_a_mixed_sequence() {
    let mut table = HandleTable::new();
    let mut live: Vec<u32> = Vec::new();
    for round in 0..200u32 {
        if round % 3 == 2 && !live.is_empty() {
            let at = (round as usize * 7) % live.len();
            let id = live.remove(at);
            assert!(table.release(ResourceType::Image, id));
        } else {
            let id = table.acquire(ResourceType::Image);
            assert!(!live.contains(&id));
            live.push(id);
        }
    }
}

#[test]
fn capacities_match_the_descriptor_table() {
    assert_eq!(capacity(ResourceType::Sampler), 1 << 12);
    assert_eq!(capacity(ResourceType::Image), 1 << 20);
    assert_eq!(SAMPLER_CAPACITY, 4096);
    assert_eq!(IMAGE_CAPACITY, 1048576);
}

#[test]
fn sampler_space_runs_out_at_its_capacity() {
    let mut table = HandleTable::new();
    assert!(table.has_room(ResourceType::Sampler));
    for expected in 0..SAMPLER_CAPACITY {
        assert!(table.has_room(ResourceType::Sampler));
        assert_eq!(table.acquire(ResourceType::Sampler), expected);
    }
    assert!(!table.has_room(ResourceType::Sampler));
    assert!(table.has_room(ResourceType::Image));
    assert!(table.release(ResourceType::Sampler, 17));
    assert!(table.has_room(ResourceType::Sampler));
    assert_eq!(table.acquire(ResourceType::Sampler), 17);
    assert!(!table.has_room(ResourceType::Sampler));
}
