//! Host input: which key of the console a host key, controller button or
//! controller axis stands for, and how an event changes the key-input word.
//!
//! The host's own event types are turned into the small enums of this module
//! by the shell; nothing here depends on a windowing library.

use crate::bits::set_bit;
use crate::bits::with_bit;
use crate::keypad::Keys;
use crate::keypad::KEYINPUT_ALL_RELEASED;
use vstd::prelude::*;

verus! {

/// A key of the host keyboard, named by its position. `Other` stands for
/// every key that the key map does not use.
#[derive(Debug, PartialEq, Eq, Clone, Copy, Structural)]
pub enum Scancode {
    Up,
    Down,
    Left,
    Right,
    Z,
    X,
    Return,
    Backspace,
    A,
    S,
    Other,
}

/// A button of a game controller. `Other` stands for every button that the
/// button map does not use.
#[derive(Debug, PartialEq, Eq, Clone, Copy, Structural)]
pub enum Button {
    DPadUp,
    DPadDown,
    DPadLeft,
    DPadRight,
    A,
    B,
    Start,
    Back,
    LeftShoulder,
    RightShoulder,
    Other,
}

/// An axis of a game controller. `Other` stands for every axis that moves no
/// key.
#[derive(Debug, PartialEq, Eq, Clone, Copy, Structural)]
pub enum Axis {
    LeftX,
    LeftY,
    TriggerLeft,
    TriggerRight,
    Other,
}

/// Axis values within this distance of the centre count as centred.
pub const AXIS_DEAD_ZONE: i16 = 10_000;

/// The key map of the keyboard.
pub open spec fn spec_scancode_to_keypad(scancode: Scancode) -> Option<Keys> {
    match scancode {
        Scancode::Up => Some(Keys::Up),
        Scancode::Down => Some(Keys::Down),
        Scancode::Left => Some(Keys::Left),
        Scancode::Right => Some(Keys::Right),
        Scancode::Z => Some(Keys::ButtonB),
        Scancode::X => Some(Keys::ButtonA),
        Scancode::Return => Some(Keys::Start),
        Scancode::Backspace => Some(Keys::Select),
        Scancode::A => Some(Keys::ButtonL),
        Scancode::S => Some(Keys::ButtonR),
        Scancode::Other => None,
    }
}

/// The button map of a controller. The host's A and B buttons are swapped
/// against the console's.
pub open spec fn spec_controller_button_to_keypad(button: Button) -> Option<Keys> {
    match button {
        Button::DPadUp => Some(Keys::Up),
        Button::DPadDown => Some(Keys::Down),
        Button::DPadLeft => Some(Keys::Left),
        Button::DPadRight => Some(Keys::Right),
        Button::A => Some(Keys::ButtonB),
        Button::B => Some(Keys::ButtonA),
        Button::Start => Some(Keys::Start),
        Button::Back => Some(Keys::Select),
        Button::LeftShoulder => Some(Keys::ButtonL),
        Button::RightShoulder => Some(Keys::ButtonR),
        Button::Other => None,
    }
}

/// The two keys that an axis moves: the first for negative values, the second
/// for positive ones.
pub open spec fn spec_axis_keys(axis: Axis) -> Option<(Keys, Keys)> {
    match axis {
        Axis::LeftX => Some((Keys::Left, Keys::Right)),
        Axis::LeftY => Some((Keys::Up, Keys::Down)),
        Axis::TriggerLeft => Some((Keys::ButtonL, Keys::ButtonL)),
        Axis::TriggerRight => Some((Keys::ButtonR, Keys::ButtonR)),
        Axis::Other => None,
    }
}

/// The key-input word after a mapped key went down or up: the key's bit is
/// cleared when it is down and set when it is up. An unmapped key changes
/// nothing.
pub open spec fn key_event(key_state: u16, key: Option<Keys>, released: bool) -> u16 {
    match key {
        Some(k) => with_bit(key_state, k.spec_index(), released),
        None => key_state,
    }
}

/// The key-input word after an axis moved to `val`.
///
/// Outside the dead zone the key of that direction is pressed and the other
/// one is left alone; inside it both keys are released.
pub open spec fn axis_event(key_state: u16, axis: Axis, val: i16) -> u16 {
    match spec_axis_keys(axis) {
        Some((negative, positive)) => {
            if val > AXIS_DEAD_ZONE || val < -AXIS_DEAD_ZONE {
                let key = if val < 0 {
                    negative
                } else {
                    positive
                };
                with_bit(key_state, key.spec_index(), false)
            } else {
                with_bit(
                    with_bit(key_state, negative.spec_index(), true),
                    positive.spec_index(),
                    true,
                )
            }
        },
        None => key_state,
    }
}

/// The console key that a keyboard key stands for.
pub fn scancode_to_keypad(scancode: Scancode) -> (r: Option<Keys>)
    ensures
        r == spec_scancode_to_keypad(scancode),
{
    match scancode {
        Scancode::Up => Some(Keys::Up),
        Scancode::Down => Some(Keys::Down),
        Scancode::Left => Some(Keys::Left),
        Scancode::Right => Some(Keys::Right),
        Scancode::Z => Some(Keys::ButtonB),
        Scancode::X => Some(Keys::ButtonA),
        Scancode::Return => Some(Keys::Start),
        Scancode::Backspace => Some(Keys::Select),
        Scancode::A => Some(Keys::ButtonL),
        Scancode::S => Some(Keys::ButtonR),
        Scancode::Other => None,
    }
}

/// The console key that a controller button stands for.
pub fn controller_button_to_keypad(button: Button) -> (r: Option<Keys>)
    ensures
        r == spec_controller_button_to_keypad(button),
{
    match button {
        Button::DPadUp => Some(Keys::Up),
        Button::DPadDown => Some(Keys::Down),
        Button::DPadLeft => Some(Keys::Left),
        Button::DPadRight => Some(Keys::Right),
        Button::A => Some(Keys::ButtonB),
        Button::B => Some(Keys::ButtonA),
        Button::Start => Some(Keys::Start),
        Button::Back => Some(Keys::Select),
        Button::LeftShoulder => Some(Keys::ButtonL),
        Button::RightShoulder => Some(Keys::ButtonR),
        Button::Other => None,
    }
}

/// Records in the key-input word that a keyboard key went down.
pub fn on_keyboard_key_down(key_state: &mut u16, scancode: Scancode)
    ensures
        *final(key_state) == key_event(*old(key_state), spec_scancode_to_keypad(scancode), false),
{
    if let Some(key) = scancode_to_keypad(scancode) {
        *key_state = set_bit(*key_state, key.index(), false);
    }
}

/// Records in the key-input word that a keyboard key went up.
pub fn on_keyboard_key_up(key_state: &mut u16, scancode: Scancode)
    ensures
        *final(key_state) == key_event(*old(key_state), spec_scancode_to_keypad(scancode), true),
{
    if let Some(key) = scancode_to_keypad(scancode) {
        *key_state = set_bit(*key_state, key.index(), true);
    }
}

/// Records in the key-input word that a controller button went down.
pub fn on_controller_button_down(key_state: &mut u16, button: Button)
    ensures
        *final(key_state) == key_event(
            *old(key_state),
            spec_controller_button_to_keypad(button),
            false,
        ),
{
    if let Some(key) = controller_button_to_keypad(button) {
        *key_state = set_bit(*key_state, key.index(), false);
    }
}

/// Records in the key-input word that a controller button went up.
pub fn on_controller_button_up(key_state: &mut u16, button: Button)
    ensures
        *final(key_state) == key_event(
            *old(key_state),
            spec_controller_button_to_keypad(button),
            true,
        ),
{
    if let Some(key) = controller_button_to_keypad(button) {
        *key_state = set_bit(*key_state, key.index(), true);
    }
}

/// Records in the key-input word that a controller axis moved to `val`, a
/// position between -32768 and 32767.
pub fn on_axis_motion(key_state: &mut u16, axis: Axis, val: i16)
    ensures
        *final(key_state) == axis_event(*old(key_state), axis, val),
{
    let keys: (Keys, Keys) = match axis {
        Axis::LeftX => (Keys::Left, Keys::Right),
        Axis::LeftY => (Keys::Up, Keys::Down),
        Axis::TriggerLeft => (Keys::ButtonL, Keys::ButtonL),
        Axis::TriggerRight => (Keys::ButtonR, Keys::ButtonR),
        Axis::Other => {
            return ;
        },
    };
    if val > AXIS_DEAD_ZONE || val < -AXIS_DEAD_ZONE {
        let key: Keys = if val < 0 {
            keys.0
        } else {
            keys.1
        };
        *key_state = set_bit(*key_state, key.index(), false);
    } else {
        *key_state = set_bit(*key_state, keys.0.index(), true);
        *key_state = set_bit(*key_state, keys.1.index(), true);
    }
}

/// The key-input word as a host front end keeps it between frames.
pub struct Sdl2Input {
    keyinput: u16,
}

impl Sdl2Input {
    /// The key-input word held.
    pub closed spec fn spec_keyinput(&self) -> u16 {
        self.keyinput
    }

    /// The key-input word as it stands now.
    pub fn poll(&mut self) -> (r: u16)
        ensures
            r == old(self).spec_keyinput(),
            final(self).spec_keyinput() == old(self).spec_keyinput(),
    {
        self.keyinput
    }

    /// Records that a keyboard key went down.
    pub fn on_keyboard_key_down(&mut self, scancode: Scancode)
        ensures
            final(self).spec_keyinput() == key_event(
                old(self).spec_keyinput(),
                spec_scancode_to_keypad(scancode),
                false,
            ),
    {
        on_keyboard_key_down(&mut self.keyinput, scancode);
    }

    /// Records that a keyboard key went up.
    pub fn on_keyboard_key_up(&mut self, scancode: Scancode)
        ensures
            final(self).spec_keyinput() == key_event(
                old(self).spec_keyinput(),
                spec_scancode_to_keypad(scancode),
                true,
            ),
    {
        on_keyboard_key_up(&mut self.keyinput, scancode);
    }

    /// Records that a controller button went down.
    pub fn on_controller_button_down(&mut self, button: Button)
        ensures
            final(self).spec_keyinput() == key_event(
                old(self).spec_keyinput(),
                spec_controller_button_to_keypad(button),
                false,
            ),
    {
        on_controller_button_down(&mut self.keyinput, button);
    }

    /// Records that a controller button went up.
    pub fn on_controller_button_up(&mut self, button: Button)
        ensures
            final(self).spec_keyinput() == key_event(
                old(self).spec_keyinput(),
                spec_controller_button_to_keypad(button),
                true,
            ),
    {
        on_controller_button_up(&mut self.keyinput, button);
    }
}

/// A front end's key-input word with no key held.
pub fn create_input() -> (r: Sdl2Input)
    ensures
        r.spec_keyinput() == KEYINPUT_ALL_RELEASED,
{
    Sdl2Input { keyinput: KEYINPUT_ALL_RELEASED }
}

/// A key that went down and then up again is released, whatever the word held
/// before, and no other key has changed.
pub proof fn lemma_key_down_then_up(key_state: u16, key: Keys, other: Keys)
    requires
        other != key,
    ensures
        crate::bits::bit_of(
            key_event(key_event(key_state, Some(key), false), Some(key), true),
            key.spec_index(),
        ),
        !crate::bits::bit_of(key_event(key_state, Some(key), false), key.spec_index()),
        crate::bits::bit_of(
            key_event(key_event(key_state, Some(key), false), Some(key), true),
            other.spec_index(),
        ) == crate::bits::bit_of(key_state, other.spec_index()),
{
    let down = key_event(key_state, Some(key), false);
    crate::bits::lemma_with_bit_reads_back(key_state, key.spec_index(), false);
    crate::bits::lemma_with_bit_reads_back(down, key.spec_index(), true);
    crate::bits::lemma_with_bit_keeps_others(key_state, key.spec_index(), false, other.spec_index());
    crate::bits::lemma_with_bit_keeps_others(down, key.spec_index(), true, other.spec_index());
}

} // verus!
