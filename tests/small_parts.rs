use lavapond::shader::{shader_code, ShaderError};
use lavapond::camera::ProjectionCache;
use lavapond::memory::{find_memory_type, DataUsage, MEMORY_DEVICE_LOCAL, MEMORY_HOST_COHERENT, MEMORY_HOST_VISIBLE};
use lavapond::mesh::{CIRCLE_BORDER, RECTANGLE_BORDER, ROUNDED_RECTANGLE, ROUNDED_RECTANGLE_BORDER};
use lavapond::shapes::{AnchorType, ShapeType, SimulationState};

#[test]
fn memory_type_selection() {
    let flags = vec![MEMORY_DEVICE_LOCAL, MEMORY_HOST_VISIBLE, MEMORY_HOST_VISIBLE | MEMORY_HOST_COHERENT, MEMORY_DEVICE_LOCAL];
    let host = MEMORY_HOST_VISIBLE | MEMORY_HOST_COHERENT;
    assert_eq!(find_memory_type(0b1111, &flags, host), Some(2));
    assert_eq!(find_memory_type(0b1110, &flags, MEMORY_DEVICE_LOCAL), Some(3));
    assert_eq!(find_memory_type(0b0011, &flags, host), None);
    assert_eq!(find_memory_type(0xffff_ffff, &vec![], MEMORY_DEVICE_LOCAL), None);
}

#[test]
fn buffer_usage_flags() {
    assert_eq!(DataUsage::VERTEX.buffer_usage(), 0b1000_0010);
    assert_eq!(DataUsage::INDEX.buffer_usage(), 0b0100_0010);
}

#[test]
fn projection_recomputed_only_on_resize() {
    let mut c = ProjectionCache::new(800, 600);
    assert!(!c.update(800, 600));
    assert!(c.update(1024, 600));
    assert_eq!(c, ProjectionCache { width: 1024, height: 600 });
    assert!(!c.update(1024, 600));
}

#[test]
fn shapes_and_anchors() {
    assert_eq!(ShapeType::Circle.object_index(), 52);
    assert_eq!(ShapeType::CircleBorder.object_index(), CIRCLE_BORDER);
    assert_eq!(ShapeType::RoundedRectangle.object_index(), ROUNDED_RECTANGLE);
    assert_eq!(ShapeType::RectangleBorder.object_index(), RECTANGLE_BORDER);
    assert_eq!(ShapeType::RoundedRectangleBorder.object_index(), ROUNDED_RECTANGLE_BORDER);
    assert!(AnchorType::Locked.follows_camera());
    assert!(!AnchorType::Unlocked.follows_camera());
    assert_eq!(SimulationState::Run.switched(), SimulationState::Paused);
    assert_eq!(SimulationState::Paused.switched(), SimulationState::Run);
}

#[test]
fn shader_binary_words() {
    let words = shader_code(&vec![1, 0, 0, 0, 2, 0, 0, 0]).unwrap();
    assert_eq!(words.len(), 2);
    assert_eq!(shader_code(&vec![]), Err(ShaderError::Empty));
    assert_eq!(shader_code(&vec![1, 2, 3, 4, 5]), Err(ShaderError::Truncated { len: 5 }));
}
