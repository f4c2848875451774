//! The keys of a keyboard that stand for the keypad.
use vstd::prelude::*;

verus! {

/// What a key of the keyboard means to the machine.
#[derive(Debug, Clone, Copy, PartialEq, Eq, Structural)]
pub enum Key {
    /// A key of the keypad, `0x0` to `0xF`.
    Symbol(u8),
    /// The request to leave.
    Exit,
}

/// A key of the keyboard.
#[derive(Debug, Clone, Copy, PartialEq, Eq, Structural)]
pub enum Keycode {
    Escape,
    Key0,
    Key1,
    Key2,
    Key3,
    Key4,
    Key5,
    Key6,
    Key7,
    Key8,
    Key9,
    A,
    B,
    C,
    D,
    E,
    F,
    /// Any other key.
    Other,
}

impl Keycode {
    /// The hexadecimal digit on the key, if it bears one.
    pub open spec fn digit(self) -> Option<u8> {
        match self {
            Keycode::Key0 => Some(0x0),
            Keycode::Key1 => Some(0x1),
            Keycode::Key2 => Some(0x2),
            Keycode::Key3 => Some(0x3),
            Keycode::Key4 => Some(0x4),
            Keycode::Key5 => Some(0x5),
            Keycode::Key6 => Some(0x6),
            Keycode::Key7 => Some(0x7),
            Keycode::Key8 => Some(0x8),
            Keycode::Key9 => Some(0x9),
            Keycode::A => Some(0xA),
            Keycode::B => Some(0xB),
            Keycode::C => Some(0xC),
            Keycode::D => Some(0xD),
            Keycode::E => Some(0xE),
            Keycode::F => Some(0xF),
            _ => None,
        }
    }

    /// What the key means: a key with a hexadecimal digit is that key of the
    /// keypad, escape is the request to leave, and other keys mean nothing.
    pub open spec fn event(self) -> Option<Key> {
        match self.digit() {
            Some(digit) => Some(Key::Symbol(digit)),
            None => if self == Keycode::Escape {
                Some(Key::Exit)
            } else {
                None
            },
        }
    }
}

/// What the key `key` means to the machine.
pub fn keycode_to_event(key: Keycode) -> (event: Option<Key>)
    ensures
        event == key.event(),
        event matches Some(Key::Symbol(value)) ==> value < 16,
{
    let value: u8 = match key {
        Keycode::Escape => 0xFE,
        Keycode::Key0 => 0x0,
        Keycode::Key1 => 0x1,
        Keycode::Key2 => 0x2,
        Keycode::Key3 => 0x3,
        Keycode::Key4 => 0x4,
        Keycode::Key5 => 0x5,
        Keycode::Key6 => 0x6,
        Keycode::Key7 => 0x7,
        Keycode::Key8 => 0x8,
        Keycode::Key9 => 0x9,
        Keycode::A => 0xA,
        Keycode::B => 0xB,
        Keycode::C => 0xC,
        Keycode::D => 0xD,
        Keycode::E => 0xE,
        Keycode::F => 0xF,
        _ => 0xFF,
    };

    match value {
        0xFF => None,
        0xFE => Some(Key::Exit),
        _ => Some(Key::Symbol(value)),
    }
}

/// What the keys that are down mean: the meaning of the last of them that
/// has one.
pub fn query(keys: &[Keycode]) -> (event: Option<Key>)
    ensures
        match event {
            Some(key) => exists|at: int|
                0 <= at < keys@.len() && #[trigger] keys@[at].event() == Some(key) && forall|
                    after: int,
                | at < after < keys@.len() ==> (#[trigger] keys@[after]).event() is None,
            None => forall|at: int|
                0 <= at < keys@.len() ==> (#[trigger] keys@[at]).event() is None,
        },
{
    let mut at = keys.len();
    while at > 0
        invariant
            at <= keys@.len(),
            forall|after: int|
                at <= after < keys@.len() ==> (#[trigger] keys@[after]).event() is None,
        decreases at,
    {
        at -= 1;
        if let Some(event) = keycode_to_event(keys[at]) {
            return Some(event);
        }
    }
    None
}

} // verus!
