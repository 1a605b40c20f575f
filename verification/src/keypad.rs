//! The ten keys of the console and the key-input word that reports them.

use vstd::prelude::*;

verus! {

/// A key of the console. Each key owns one bit of the key-input word.
#[derive(Debug, PartialEq, Eq, Clone, Copy, Structural)]
pub enum Keys {
    ButtonA,
    ButtonB,
    Select,
    Start,
    Right,
    Left,
    Up,
    Down,
    ButtonR,
    ButtonL,
}

/// Number of keys.
pub const NUM_KEYS: usize = 10;

/// The key-input word with no key held: the low ten bits set.
pub const KEYINPUT_ALL_RELEASED: u16 = 0b1111111111;

/// State of one key as the key-input word encodes it: a cleared bit means
/// pressed, a set bit released.
#[derive(Debug, PartialEq, Eq, Clone, Copy, Structural)]
pub enum KeyState {
    Pressed,
    Released,
}

impl Keys {
    /// Position of the key's bit in the key-input word.
    pub open spec fn spec_index(self) -> usize {
        match self {
            Keys::ButtonA => 0,
            Keys::ButtonB => 1,
            Keys::Select => 2,
            Keys::Start => 3,
            Keys::Right => 4,
            Keys::Left => 5,
            Keys::Up => 6,
            Keys::Down => 7,
            Keys::ButtonR => 8,
            Keys::ButtonL => 9,
        }
    }

    /// Position of the key's bit in the key-input word.
    #[verifier::when_used_as_spec(spec_index)]
    pub fn index(self) -> (r: usize)
        ensures
            r == self.spec_index(),
            r < NUM_KEYS,
    {
        match self {
            Keys::ButtonA => 0,
            Keys::ButtonB => 1,
            Keys::Select => 2,
            Keys::Start => 3,
            Keys::Right => 4,
            Keys::Left => 5,
            Keys::Up => 6,
            Keys::Down => 7,
            Keys::ButtonR => 8,
            Keys::ButtonL => 9,
        }
    }

    /// The key that owns bit `index`, if one does.
    pub fn from_index(index: usize) -> (r: Option<Keys>)
        ensures
            index < NUM_KEYS <==> r.is_some(),
            r matches Some(k) ==> k.spec_index() == index,
    {
        match index {
            0 => Some(Keys::ButtonA),
            1 => Some(Keys::ButtonB),
            2 => Some(Keys::Select),
            3 => Some(Keys::Start),
            4 => Some(Keys::Right),
            5 => Some(Keys::Left),
            6 => Some(Keys::Up),
            7 => Some(Keys::Down),
            8 => Some(Keys::ButtonR),
            9 => Some(Keys::ButtonL),
            _ => None,
        }
    }
}

impl KeyState {
    /// The value of the key's bit: `false` when pressed, `true` when released.
    pub open spec fn spec_bit(self) -> bool {
        self == KeyState::Released
    }

    /// The state that a bit of the key-input word stands for.
    pub fn from_bit(bit: bool) -> (r: KeyState)
        ensures
            r.spec_bit() == bit,
    {
        if bit {
            KeyState::Released
        } else {
            KeyState::Pressed
        }
    }
}

impl From<KeyState> for bool {
    fn from(val: KeyState) -> (r: bool) {
        match val {
            KeyState::Pressed => false,
            KeyState::Released => true,
        }
    }
}

impl vstd::std_specs::convert::FromSpecImpl<KeyState> for bool {
    open spec fn obeys_from_spec() -> bool {
        true
    }

    open spec fn from_spec(val: KeyState) -> bool {
        val.spec_bit()
    }
}

} // verus!
