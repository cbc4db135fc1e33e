//! The machine's keypad.

use vstd::prelude::*;

use crate::data::Nibble;
use crate::model::Chip8Keyboard;

verus! {

/// A keypad that remembers the key pressed last, until it is released.
#[derive(Debug)]
pub struct Keyboard {
    pressed: Option<Nibble>,
}

impl Keyboard {
    /// Creates a keypad with no key pressed.
    pub fn new() -> (keyboard: Keyboard)
        ensures
            keyboard@ == None::<u8>,
    {
        Keyboard { pressed: None }
    }
}

impl Chip8Keyboard for Keyboard {
    closed spec fn view(&self) -> Option<u8> {
        match self.pressed {
            Some(key) => Some(key@),
            None => None,
        }
    }

    fn press(&mut self, key: Nibble) {
        self.pressed = Some(key);
    }

    fn release(&mut self, _key: Nibble) {
        self.clear();
    }

    fn is_pressed(&self, key: Nibble) -> (pressed: bool) {
        if let Some(n) = self.pressed {
            n.get_raw() == key.get_raw()
        } else {
            false
        }
    }

    fn clear(&mut self) {
        self.pressed = None;
    }
}

} // verus!
