use lavapond::input::{InputEvent, Inputs, Key, MouseButton};

#[test]
fn key_press_and_release_edges() {
    let mut i = Inputs::new();
    assert!(!i.held_down(Key::A));
    i.read(InputEvent::Key { key: Key::A, pressed: true });
    assert!(i.just_pressed(Key::A));
    assert!(i.held_down(Key::A));
    i.read(InputEvent::Other);
    assert!(!i.just_pressed(Key::A));
    assert!(i.held_down(Key::A));
    i.read(InputEvent::Key { key: Key::A, pressed: false });
    assert!(i.just_released(Key::A));
    assert!(!i.held_down(Key::B));
}

#[test]
fn mouse_buttons() {
    let mut i = Inputs::new();
    i.read(InputEvent::Mouse { button: MouseButton::Right, pressed: true });
    assert!(i.rmb_just_pressed());
    assert!(i.rmb_held_down());
    assert!(!i.lmb_held_down());
    i.read(InputEvent::Mouse { button: MouseButton::Middle, pressed: true });
    assert!(i.mmb_just_pressed());
    assert!(i.mmb_held_down());
    assert!(!i.lmb_held_down());
    i.read(InputEvent::Mouse { button: MouseButton::Left, pressed: true });
    assert!(i.lmb_just_pressed());
    assert!(!i.mmb_just_pressed());
    i.read(InputEvent::Mouse { button: MouseButton::Middle, pressed: false });
    assert!(i.mmb_just_released());
    i.read(InputEvent::Mouse { button: MouseButton::Left, pressed: false });
    assert!(i.lmb_just_released());
    assert!(!i.rmb_just_released());
}

#[test]
fn keys_from_text() {
    assert_eq!(Key::from_text("a"), Some(Key::A));
    assert_eq!(Key::from_text("Q"), Some(Key::Q));
    assert_eq!(Key::from_text("7"), Some(Key::Num7));
    assert_eq!(Key::from_text("ab"), None);
    assert_eq!(Key::from_text("é"), None);
    assert_eq!(Key::from_text(""), None);
    assert_eq!(Key::Space.index(), 0);
    assert_eq!(Key::Right.index(), 13);
    assert_eq!(Key::A.index(), 14);
    assert_eq!(Key::Num9.index(), 49);
}
