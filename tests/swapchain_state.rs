use lavapond::swapchain::{swapchain_image_count, Extent, SwapchainError, SwapchainState};

#[test]
fn image_count_is_min_plus_one_capped() {
    assert_eq!(swapchain_image_count(2, 0), 3);
    assert_eq!(swapchain_image_count(2, 8), 3);
    assert_eq!(swapchain_image_count(3, 3), 3);
    assert_eq!(swapchain_image_count(1, 2), 2);
}

#[test]
fn resize_to_zero_is_noop() {
    let mut s: SwapchainState<u8, u16> =
        SwapchainState::new(Extent { width: 800, height: 600 }, vec![1, 2, 3], vec![4, 5, 6]).unwrap();
    assert!(s.begin_recreate(0, 600).is_none());
    assert!(s.begin_recreate(800, 0).is_none());
    assert_eq!(s.extent(), Extent { width: 800, height: 600 });
    assert_eq!(s.image_views(), &vec![1, 2, 3]);
    assert_eq!(s.frame_buffer_list(), &vec![4, 5, 6]);
}

#[test]
fn resize_hands_back_old_resources() {
    let mut s: SwapchainState<u8, u16> =
        SwapchainState::new(Extent { width: 800, height: 600 }, vec![1, 2], vec![4, 5]).unwrap();
    let (views, buffers) = s.begin_recreate(1024, 768).unwrap();
    assert_eq!(views, vec![1, 2]);
    assert_eq!(buffers, vec![4, 5]);
    assert_eq!(s.extent(), Extent { width: 1024, height: 768 });
    assert!(s.image_views().is_empty());
    assert_eq!(s.finish_recreate(vec![7, 8, 9], vec![1, 2, 3]), Ok(()));
    assert_eq!(s.image_views().len(), 3);
}

#[test]
fn view_and_framebuffer_counts_must_match() {
    let r: Result<SwapchainState<u8, u8>, _> = SwapchainState::new(Extent { width: 1, height: 1 }, vec![1, 2], vec![1]);
    assert_eq!(r.err(), Some(SwapchainError::CountMismatch { image_views: 2, frame_buffers: 1 }));
    let mut s: SwapchainState<u8, u8> = SwapchainState::new(Extent { width: 1, height: 1 }, vec![1], vec![1]).unwrap();
    assert_eq!(
        s.finish_recreate(vec![1, 2], vec![]),
        Err(SwapchainError::CountMismatch { image_views: 2, frame_buffers: 0 })
    );
    assert_eq!(s.image_views(), &vec![1]);
}
