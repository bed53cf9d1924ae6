use lavapond::device::{
    device_suitable, find_queue_families, has_required_extensions, is_discrete_gpu, offers_mailbox,
    offers_wanted_format, select_device, DeviceCandidate, DeviceChoice, DeviceError, QueueFamily, SurfaceFormat,
};

fn swapchain_ext() -> Vec<Vec<u8>> {
    vec![b"VK_KHR_swapchain".to_vec()]
}

fn good_device() -> DeviceCandidate {
    DeviceCandidate {
        device_type: 2,
        extension_names: vec![b"VK_KHR_maintenance1".to_vec(), b"VK_KHR_swapchain".to_vec()],
        surface_formats: vec![SurfaceFormat { format: 44, color_space: 0 }, SurfaceFormat { format: 50, color_space: 0 }],
        present_modes: vec![2, 1],
        queue_families: vec![
            QueueFamily { queue_flags: 0b1111, present_support: true },
            QueueFamily { queue_flags: 0b0100, present_support: true },
        ],
    }
}

#[test]
fn picks_first_suitable_device() {
    let mut integrated = good_device();
    integrated.device_type = 1;
    let devices = vec![integrated, good_device(), good_device()];
    assert_eq!(
        select_device(&devices, &swapchain_ext()),
        Ok(DeviceChoice { device_index: 1, graphics_queue_index: 0, present_queue_index: 1 })
    );
}

#[test]
fn no_suitable_device() {
    let mut no_ext = good_device();
    no_ext.extension_names = vec![b"VK_KHR_swapchain_x".to_vec()];
    let mut no_format = good_device();
    no_format.surface_formats = vec![SurfaceFormat { format: 50, color_space: 1 }];
    let mut no_mailbox = good_device();
    no_mailbox.present_modes = vec![0, 2, 3];
    let mut one_family = good_device();
    one_family.queue_families = vec![QueueFamily { queue_flags: 1, present_support: true }];
    let devices = vec![no_ext, no_format, no_mailbox, one_family];
    assert_eq!(select_device(&devices, &swapchain_ext()), Err(DeviceError::NoSuitableDevice));
    assert_eq!(select_device(&vec![], &swapchain_ext()), Err(DeviceError::NoSuitableDevice));
}

#[test]
fn present_family_must_differ_from_graphics() {
    let fams = vec![
        QueueFamily { queue_flags: 0, present_support: true },
        QueueFamily { queue_flags: 1, present_support: true },
        QueueFamily { queue_flags: 1, present_support: false },
        QueueFamily { queue_flags: 0, present_support: true },
    ];
    assert_eq!(find_queue_families(&fams), (Some(1), Some(3)));
    let none = vec![QueueFamily { queue_flags: 2, present_support: true }];
    assert_eq!(find_queue_families(&none), (None, None));
}

#[test]
fn single_device_checks() {
    let good = good_device();
    assert!(is_discrete_gpu(2));
    assert!(!is_discrete_gpu(1));
    assert!(has_required_extensions(&good, &swapchain_ext()));
    assert!(offers_wanted_format(&good));
    assert!(offers_mailbox(&good));
    assert!(device_suitable(&good, &swapchain_ext()));
    let mut bare = good_device();
    bare.extension_names.clear();
    assert!(!has_required_extensions(&bare, &swapchain_ext()));
    assert!(!device_suitable(&bare, &swapchain_ext()));
    assert!(has_required_extensions(&bare, &vec![]));
}
