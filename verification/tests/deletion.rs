use cobra::deletion::{DeleteValue, DeletionQueue, Destroyer};

#[test]
fn flush_hands_out_everything_in_order_and_empties_the_queue() {
    let mut queue = DeletionQueue::new();
    assert_eq!(queue.len(), 0);
    assert!(queue.flush().is_empty());
    queue.push(DeleteValue::ImageView(3));
    queue.push(DeleteValue::Image((4, 5)));
    queue.push(DeleteValue::Sampler(6));
    assert_eq!(queue.len(), 3);
    assert_eq!(queue.flush(), vec![
        DeleteValue::ImageView(3),
        DeleteValue::Image((4, 5)),
        DeleteValue::Sampler(6),
    ]);
    assert_eq!(queue.len(), 0);
    queue.push(DeleteValue::Buffer((7, 8)));
    assert_eq!(queue.flush(), vec![DeleteValue::Buffer((7, 8))]);
    assert!(queue.flush().is_empty());
}

#[test]
fn each_kind_is_destroyed_by_its_part_of_the_driver() {
    assert_eq!(DeleteValue::Swapchain(1).destroyer(), Destroyer::SwapchainDevice);
    assert_eq!(DeleteValue::Surface(1).destroyer(), Destroyer::SurfaceInstance);
    assert_eq!(DeleteValue::CommandPool(1).destroyer(), Destroyer::Device);
    assert_eq!(DeleteValue::Semaphore(1).destroyer(), Destroyer::Device);
    assert_eq!(DeleteValue::ImageView(1).destroyer(), Destroyer::Device);
    assert_eq!(DeleteValue::Image((1, 2)).destroyer(), Destroyer::Allocator);
    assert_eq!(DeleteValue::Buffer((1, 2)).destroyer(), Destroyer::Allocator);
    assert_eq!(DeleteValue::Sampler(1).destroyer(), Destroyer::Device);
    assert_eq!(DeleteValue::ShaderModule(1).destroyer(), Destroyer::Device);
}

#[test]
fn object_is_the_drivers_handle() {
    assert_eq!(DeleteValue::Swapchain(11).object(), 11);
    assert_eq!(DeleteValue::Image((12, 13)).object(), 12);
    assert_eq!(DeleteValue::Buffer((14, 15)).object(), 14);
    assert_eq!(DeleteValue::ShaderModule(16).object(), 16);
}
