use vstd::prelude::*;
use vstd::string::StringSliceAdditionalSpecFns;

verus! {

/// Number of keys that the input state tracks.
pub const NUMBER_OF_KEYS: usize = 50;

/// The keys that the input state tracks.
#[derive(Clone, Copy, Debug, PartialEq, Eq, Structural)]
pub enum Key {
    Space,
    Enter,
    Escape,
    Delete,
    Tab,
    CapsLock,
    Backspace,
    Shift,
    Alt,
    Control,
    Up,
    Left,
    Down,
    Right,
    A,
    B,
    C,
    D,
    E,
    F,
    G,
    H,
    I,
    J,
    K,
    L,
    M,
    N,
    O,
    P,
    Q,
    R,
    S,
    T,
    U,
    V,
    W,
    X,
    Y,
    Z,
    Num0,
    Num1,
    Num2,
    Num3,
    Num4,
    Num5,
    Num6,
    Num7,
    Num8,
    Num9,
}

/// The slot of a key in the key state tables.
pub open spec fn key_slot(k: Key) -> int {
    match k {
            Key::Space => 0,
            Key::Enter => 1,
            Key::Escape => 2,
            Key::Delete => 3,
            Key::Tab => 4,
            Key::CapsLock => 5,
            Key::Backspace => 6,
            Key::Shift => 7,
            Key::Alt => 8,
            Key::Control => 9,
            Key::Up => 10,
            Key::Left => 11,
            Key::Down => 12,
            Key::Right => 13,
            Key::A => 14,
            Key::B => 15,
            Key::C => 16,
            Key::D => 17,
            Key::E => 18,
            Key::F => 19,
            Key::G => 20,
            Key::H => 21,
            Key::I => 22,
            Key::J => 23,
            Key::K => 24,
            Key::L => 25,
            Key::M => 26,
            Key::N => 27,
            Key::O => 28,
            Key::P => 29,
            Key::Q => 30,
            Key::R => 31,
            Key::S => 32,
            Key::T => 33,
            Key::U => 34,
            Key::V => 35,
            Key::W => 36,
            Key::X => 37,
            Key::Y => 38,
            Key::Z => 39,
            Key::Num0 => 40,
            Key::Num1 => 41,
            Key::Num2 => 42,
            Key::Num3 => 43,
            Key::Num4 => 44,
            Key::Num5 => 45,
            Key::Num6 => 46,
            Key::Num7 => 47,
            Key::Num8 => 48,
            Key::Num9 => 49,
    }
}

/// The key that a one-byte character names, letters in either case.
pub open spec fn key_of_byte(b: u8) -> Option<Key> {
    match b {
        97 | 65 => Some(Key::A),
        98 | 66 => Some(Key::B),
        99 | 67 => Some(Key::C),
        100 | 68 => Some(Key::D),
        101 | 69 => Some(Key::E),
        102 | 70 => Some(Key::F),
        103 | 71 => Some(Key::G),
        104 | 72 => Some(Key::H),
        105 | 73 => Some(Key::I),
        106 | 74 => Some(Key::J),
        107 | 75 => Some(Key::K),
        108 | 76 => Some(Key::L),
        109 | 77 => Some(Key::M),
        110 | 78 => Some(Key::N),
        111 | 79 => Some(Key::O),
        112 | 80 => Some(Key::P),
        113 | 81 => Some(Key::Q),
        114 | 82 => Some(Key::R),
        115 | 83 => Some(Key::S),
        116 | 84 => Some(Key::T),
        117 | 85 => Some(Key::U),
        118 | 86 => Some(Key::V),
        119 | 87 => Some(Key::W),
        120 | 88 => Some(Key::X),
        121 | 89 => Some(Key::Y),
        122 | 90 => Some(Key::Z),
        48 => Some(Key::Num0),
        49 => Some(Key::Num1),
        50 => Some(Key::Num2),
        51 => Some(Key::Num3),
        52 => Some(Key::Num4),
        53 => Some(Key::Num5),
        54 => Some(Key::Num6),
        55 => Some(Key::Num7),
        56 => Some(Key::Num8),
        57 => Some(Key::Num9),
        _ => None,
    }
}

impl Key {
    pub fn index(&self) -> (r: usize)
        ensures
            r == key_slot(*self),
            r < NUMBER_OF_KEYS,
    {
        match self {
            Key::Space => 0,
            Key::Enter => 1,
            Key::Escape => 2,
            Key::Delete => 3,
            Key::Tab => 4,
            Key::CapsLock => 5,
            Key::Backspace => 6,
            Key::Shift => 7,
            Key::Alt => 8,
            Key::Control => 9,
            Key::Up => 10,
            Key::Left => 11,
            Key::Down => 12,
            Key::Right => 13,
            Key::A => 14,
            Key::B => 15,
            Key::C => 16,
            Key::D => 17,
            Key::E => 18,
            Key::F => 19,
            Key::G => 20,
            Key::H => 21,
            Key::I => 22,
            Key::J => 23,
            Key::K => 24,
            Key::L => 25,
            Key::M => 26,
            Key::N => 27,
            Key::O => 28,
            Key::P => 29,
            Key::Q => 30,
            Key::R => 31,
            Key::S => 32,
            Key::T => 33,
            Key::U => 34,
            Key::V => 35,
            Key::W => 36,
            Key::X => 37,
            Key::Y => 38,
            Key::Z => 39,
            Key::Num0 => 40,
            Key::Num1 => 41,
            Key::Num2 => 42,
            Key::Num3 => 43,
            Key::Num4 => 44,
            Key::Num5 => 45,
            Key::Num6 => 46,
            Key::Num7 => 47,
            Key::Num8 => 48,
            Key::Num9 => 49,
        }
    }

    /// The key that a typed text names: a single ASCII letter (either case)
    /// or digit. Any other text names no key.
    pub fn from_text(text: &str) -> (r: Option<Key>)
        ensures
            text.spec_bytes().len() == 1 ==> r == key_of_byte(text.spec_bytes()[0]),
            text.spec_bytes().len() != 1 ==> r.is_none(),
    {
        let bytes = text.as_bytes();
        if bytes.len() != 1 {
            return None;
        }
        Self::from_byte(bytes[0])
    }

    pub fn from_byte(b: u8) -> (r: Option<Key>)
        ensures
            r == key_of_byte(b),
    {
        match b {
        97 | 65 => Some(Key::A),
        98 | 66 => Some(Key::B),
        99 | 67 => Some(Key::C),
        100 | 68 => Some(Key::D),
        101 | 69 => Some(Key::E),
        102 | 70 => Some(Key::F),
        103 | 71 => Some(Key::G),
        104 | 72 => Some(Key::H),
        105 | 73 => Some(Key::I),
        106 | 74 => Some(Key::J),
        107 | 75 => Some(Key::K),
        108 | 76 => Some(Key::L),
        109 | 77 => Some(Key::M),
        110 | 78 => Some(Key::N),
        111 | 79 => Some(Key::O),
        112 | 80 => Some(Key::P),
        113 | 81 => Some(Key::Q),
        114 | 82 => Some(Key::R),
        115 | 83 => Some(Key::S),
        116 | 84 => Some(Key::T),
        117 | 85 => Some(Key::U),
        118 | 86 => Some(Key::V),
        119 | 87 => Some(Key::W),
        120 | 88 => Some(Key::X),
        121 | 89 => Some(Key::Y),
        122 | 90 => Some(Key::Z),
        48 => Some(Key::Num0),
        49 => Some(Key::Num1),
        50 => Some(Key::Num2),
        51 => Some(Key::Num3),
        52 => Some(Key::Num4),
        53 => Some(Key::Num5),
        54 => Some(Key::Num6),
        55 => Some(Key::Num7),
        56 => Some(Key::Num8),
        57 => Some(Key::Num9),
            _ => None,
        }
    }
}

/// The mouse buttons that the input state tracks.
#[derive(Clone, Copy, Debug, PartialEq, Eq, Structural)]
pub enum MouseButton {
    Left,
    Right,
    Middle,
    Other,
}

#[derive(Clone, Copy, Debug, PartialEq, Eq, Structural, Default)]
pub struct MouseButtons {
    pub lmb: bool,
    pub rmb: bool,
    pub mmb: bool,
}

/// A window event, as the input state reads it.
#[derive(Clone, Copy, Debug, PartialEq, Eq, Structural)]
pub enum InputEvent {
    Key { key: Key, pressed: bool },
    Mouse { button: MouseButton, pressed: bool },
    /// Any other event: it only ends the previous frame of input.
    Other,
}

/// The key and button states after an event.
pub open spec fn after_event(keys: Seq<bool>, mouse: MouseButtons, event: InputEvent) -> (Seq<bool>, MouseButtons) {
    match event {
        InputEvent::Key { key, pressed } => (keys.update(key_slot(key), pressed), mouse),
        InputEvent::Mouse { button, pressed } => (
            keys,
            match button {
                MouseButton::Left => MouseButtons { lmb: pressed, ..mouse },
                MouseButton::Right => MouseButtons { rmb: pressed, ..mouse },
                MouseButton::Middle => MouseButtons { mmb: pressed, ..mouse },
                MouseButton::Other => mouse,
            },
        ),
        InputEvent::Other => (keys, mouse),
    }
}

/// Key and mouse button states of the current and of the previous event.
#[derive(Debug)]
pub struct Inputs {
    key_last_state: Vec<bool>,
    key_state: Vec<bool>,
    mouse_last_state: MouseButtons,
    mouse_state: MouseButtons,
}

impl Inputs {
    #[verifier::type_invariant]
    spec fn wf(&self) -> bool {
        self.key_last_state@.len() == NUMBER_OF_KEYS && self.key_state@.len() == NUMBER_OF_KEYS
    }

    pub closed spec fn keys(&self) -> Seq<bool> {
        self.key_state@
    }

    pub closed spec fn last_keys(&self) -> Seq<bool> {
        self.key_last_state@
    }

    pub closed spec fn mouse(&self) -> MouseButtons {
        self.mouse_state
    }

    pub closed spec fn last_mouse(&self) -> MouseButtons {
        self.mouse_last_state
    }

    /// No key or button is down.
    pub fn new() -> (r: Self)
        ensures
            r.keys().len() == NUMBER_OF_KEYS,
            r.last_keys().len() == NUMBER_OF_KEYS,
            forall|i: int| 0 <= i < NUMBER_OF_KEYS ==> !r.keys()[i] && !r.last_keys()[i],
            r.mouse() == (MouseButtons { lmb: false, rmb: false, mmb: false }),
            r.last_mouse() == r.mouse(),
    {
        let mut keys: Vec<bool> = Vec::new();
        let mut i: usize = 0;
        while i < NUMBER_OF_KEYS
            invariant
                i <= NUMBER_OF_KEYS,
                keys@.len() == i,
                forall|j: int| 0 <= j < i ==> !keys@[j],
            decreases NUMBER_OF_KEYS - i,
        {
            keys.push(false);
            i = i + 1;
        }
        let mut last: Vec<bool> = Vec::new();
        let mut i: usize = 0;
        while i < NUMBER_OF_KEYS
            invariant
                i <= NUMBER_OF_KEYS,
                last@.len() == i,
                forall|j: int| 0 <= j < i ==> !last@[j],
            decreases NUMBER_OF_KEYS - i,
        {
            last.push(false);
            i = i + 1;
        }
        let up = MouseButtons { lmb: false, rmb: false, mmb: false };
        Inputs { key_last_state: last, key_state: keys, mouse_last_state: up, mouse_state: up }
    }

    /// Reads one event: the current states become the previous ones, then
    /// the event's key or button takes its new state.
    pub fn read(&mut self, event: InputEvent)
        ensures
            final(self).keys().len() == NUMBER_OF_KEYS,
            final(self).last_keys() == old(self).keys(),
            final(self).last_mouse() == old(self).mouse(),
            (final(self).keys(), final(self).mouse()) == after_event(old(self).keys(), old(self).mouse(), event),
    {
        proof {
            use_type_invariant(&*self);
        }
        let mut last: Vec<bool> = Vec::new();
        let mut i: usize = 0;
        while i < NUMBER_OF_KEYS
            invariant
                i <= NUMBER_OF_KEYS,
                self.key_state@.len() == NUMBER_OF_KEYS,
                last@ == self.key_state@.take(i as int),
            decreases NUMBER_OF_KEYS - i,
        {
            last.push(self.key_state[i]);
            i = i + 1;
            assert(last@ =~= self.key_state@.take(i as int));
        }
        assert(self.key_state@.take(NUMBER_OF_KEYS as int) =~= self.key_state@);
        self.key_last_state = last;
        self.mouse_last_state = self.mouse_state;
        match event {
            InputEvent::Key { key, pressed } => {
                let k = key.index();
                let mut next: Vec<bool> = Vec::new();
                let mut i: usize = 0;
                while i < NUMBER_OF_KEYS
                    invariant
                        i <= NUMBER_OF_KEYS,
                        k < NUMBER_OF_KEYS,
                        self.key_state@.len() == NUMBER_OF_KEYS,
                        next@ == self.key_state@.update(k as int, pressed).take(i as int),
                    decreases NUMBER_OF_KEYS - i,
                {
                    if i == k {
                        next.push(pressed);
                    } else {
                        next.push(self.key_state[i]);
                    }
                    i = i + 1;
                    assert(next@ =~= self.key_state@.update(k as int, pressed).take(i as int));
                }
                assert(self.key_state@.update(k as int, pressed).take(NUMBER_OF_KEYS as int)
                    =~= self.key_state@.update(k as int, pressed));
                self.key_state = next;
            },
            InputEvent::Mouse { button, pressed } => {
                match button {
                    MouseButton::Left => {
                        self.mouse_state.lmb = pressed;
                    },
                    MouseButton::Right => {
                        self.mouse_state.rmb = pressed;
                    },
                    MouseButton::Middle => {
                        self.mouse_state.mmb = pressed;
                    },
                    MouseButton::Other => {},
                }
            },
            InputEvent::Other => {},
        }
    }

    pub fn just_pressed(&self, key: Key) -> (r: bool)
        ensures
            r == (!self.last_keys()[key_slot(key)] && self.keys()[key_slot(key)]),
    {
        proof {
            use_type_invariant(self);
        }
        let k = key.index();
        !self.key_last_state[k] && self.key_state[k]
    }

    pub fn just_released(&self, key: Key) -> (r: bool)
        ensures
            r == (self.last_keys()[key_slot(key)] && !self.keys()[key_slot(key)]),
    {
        proof {
            use_type_invariant(self);
        }
        let k = key.index();
        self.key_last_state[k] && !self.key_state[k]
    }

    pub fn held_down(&self, key: Key) -> (r: bool)
        ensures
            r == self.keys()[key_slot(key)],
    {
        proof {
            use_type_invariant(self);
        }
        self.key_state[key.index()]
    }

    pub fn lmb_just_pressed(&self) -> (r: bool)
        ensures
            r == (!self.last_mouse().lmb && self.mouse().lmb),
    {
        !self.mouse_last_state.lmb && self.mouse_state.lmb
    }

    pub fn lmb_just_released(&self) -> (r: bool)
        ensures
            r == (self.last_mouse().lmb && !self.mouse().lmb),
    {
        self.mouse_last_state.lmb && !self.mouse_state.lmb
    }

    pub fn lmb_held_down(&self) -> (r: bool)
        ensures
            r == self.mouse().lmb,
    {
        self.mouse_state.lmb
    }

    pub fn rmb_just_pressed(&self) -> (r: bool)
        ensures
            r == (!self.last_mouse().rmb && self.mouse().rmb),
    {
        !self.mouse_last_state.rmb && self.mouse_state.rmb
    }

    pub fn rmb_just_released(&self) -> (r: bool)
        ensures
            r == (self.last_mouse().rmb && !self.mouse().rmb),
    {
        self.mouse_last_state.rmb && !self.mouse_state.rmb
    }

    pub fn rmb_held_down(&self) -> (r: bool)
        ensures
            r == self.mouse().rmb,
    {
        self.mouse_state.rmb
    }

    pub fn mmb_just_pressed(&self) -> (r: bool)
        ensures
            r == (!self.last_mouse().mmb && self.mouse().mmb),
    {
        !self.mouse_last_state.mmb && self.mouse_state.mmb
    }

    pub fn mmb_just_released(&self) -> (r: bool)
        ensures
            r == (self.last_mouse().mmb && !self.mouse().mmb),
    {
        self.mouse_last_state.mmb && !self.mouse_state.mmb
    }

    pub fn mmb_held_down(&self) -> (r: bool)
        ensures
            r == self.mouse().mmb,
    {
        self.mouse_state.mmb
    }
}

} // verus!
