use lavapond::frame::{slot_resource, DrawCommand, FrameCycle, FrameError, SlotResource, MAX_FRAMES_INFLIGHT};
use lavapond::mesh::{ObjectData, CIRCLE};
use lavapond::shapes::ShapeType;

fn meshes(n: usize) -> Vec<ObjectData> {
    (0..n)
        .map(|i| ObjectData { name: format!("m{}", i).into_bytes(), index_count: 3 * (i + 1), index_offset: 10 * i })
        .collect()
}

#[test]
fn draw_pool_is_empty_after_request() {
    let mut cycle: FrameCycle<u32> = FrameCycle::new();
    for i in 0..5 {
        cycle.push(i, i as u32);
    }
    assert_eq!(cycle.pool_len(), 5);
    cycle.end_draw_request();
    assert_eq!(cycle.pool_len(), 0);
}

#[test]
fn frame_slot_rotates_modulo_frames_in_flight() {
    let mut cycle: FrameCycle<()> = FrameCycle::new();
    assert_eq!(cycle.current_frame(), 0);
    for k in 1..=7usize {
        cycle.end_draw_request();
        assert_eq!(cycle.current_frame(), k % MAX_FRAMES_INFLIGHT);
    }
}

#[test]
fn minimized_window_skips_frame() {
    let mut cycle: FrameCycle<()> = FrameCycle::new();
    cycle.push(1, ());
    cycle.push(2, ());
    assert_eq!(cycle.begin_draw_request(800, 600), Some(0));
    assert_eq!(cycle.pool_len(), 2);
    assert_eq!(cycle.begin_draw_request(0, 600), None);
    assert_eq!(cycle.pool_len(), 0);
    cycle.push(3, ());
    assert_eq!(cycle.begin_draw_request(800, 0), None);
    assert_eq!(cycle.pool_len(), 0);
    assert_eq!(cycle.current_frame(), 0);
    cycle.end_draw_request();
    cycle.push(4, ());
    assert_eq!(cycle.begin_draw_request(0, 0), None);
    assert_eq!(cycle.current_frame(), 1);
    assert_eq!(cycle.begin_draw_request(800, 600), Some(1));
}

#[test]
fn draw_commands_follow_queue_order() {
    let mut cycle: FrameCycle<&str> = FrameCycle::new();
    cycle.push(2, "b");
    cycle.push(0, "a");
    let cmds = cycle.draw_commands(&meshes(3)).unwrap();
    assert_eq!(cmds, vec![DrawCommand { index_count: 9, first_index: 20 }, DrawCommand { index_count: 3, first_index: 0 }]);
}

#[test]
fn unknown_mesh_is_an_error() {
    let mut cycle: FrameCycle<()> = FrameCycle::new();
    cycle.push(0, ());
    cycle.push(3, ());
    assert_eq!(cycle.draw_commands(&meshes(3)), Err(FrameError::UnknownMesh(3)));
}

#[test]
fn oversized_range_is_an_error() {
    let mut cycle: FrameCycle<()> = FrameCycle::new();
    cycle.push(0, ());
    let table = vec![ObjectData { name: b"big".to_vec(), index_count: u32::MAX as usize + 1, index_offset: 0 }];
    assert_eq!(cycle.draw_commands(&table), Err(FrameError::RangeTooLarge(0)));
}

#[test]
fn shape_uses_its_mesh() {
    let mut cycle: FrameCycle<i32> = FrameCycle::new();
    cycle.shape(ShapeType::Circle, 7);
    cycle.shape(ShapeType::Rectangle, 8);
    let pooled = cycle.pooled();
    assert_eq!(pooled[0].object_index, CIRCLE);
    assert_eq!(pooled[0].params, 7);
    assert_eq!(pooled[1].object_index, 57);
}

#[test]
fn extend_keeps_order() {
    let mut cycle: FrameCycle<i32> = FrameCycle::new();
    cycle.push(1, 1);
    cycle.extend(vec![lavapond::frame::PooledDraw { object_index: 2, params: 2 }, lavapond::frame::PooledDraw { object_index: 3, params: 3 }]);
    let idx: Vec<usize> = cycle.pooled().iter().map(|d| d.object_index).collect();
    assert_eq!(idx, vec![1, 2, 3]);
}

#[test]
fn slot_resource_bounds() {
    let fences = vec![10, 11];
    assert_eq!(slot_resource(&fences, 1, SlotResource::InflightFence), Ok(&11));
    assert_eq!(
        slot_resource(&fences, 2, SlotResource::InflightFence),
        Err(FrameError::IndexOutOfBounds(SlotResource::InflightFence))
    );
}
