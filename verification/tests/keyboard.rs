use chip8::{Chip8Keyboard, Keyboard, Nibble};

#[test]
fn new_keyboard_has_nothing_pressed() {
    let keyboard = Keyboard::new();

    for key in 0..16u8 {
        assert!(!keyboard.is_pressed(Nibble::new(key)));
    }
}

#[test]
fn press_remembers_the_last_key_only() {
    let mut keyboard = Keyboard::new();

    keyboard.press(Nibble::new(0x3));

    assert!(keyboard.is_pressed(Nibble::new(0x3)));
    assert!(!keyboard.is_pressed(Nibble::new(0x4)));

    keyboard.press(Nibble::new(0x4));

    assert!(!keyboard.is_pressed(Nibble::new(0x3)));
    assert!(keyboard.is_pressed(Nibble::new(0x4)));
}

#[test]
fn release_and_clear_empty_the_slot() {
    let mut keyboard = Keyboard::new();

    keyboard.press(Nibble::new(0xA));
    keyboard.release(Nibble::new(0x1));

    assert!(!keyboard.is_pressed(Nibble::new(0xA)));

    keyboard.press(Nibble::new(0xB));
    keyboard.clear();

    assert!(!keyboard.is_pressed(Nibble::new(0xB)));
}
