//! What a host needs around the machine: a machine of the standard
//! components, the layout of the keypad on the host's keyboard, and the
//! pixels to paint.

use vstd::prelude::*;

use crate::cpu::{VMState, VirtualMachine, FONTS};
use crate::data::Address;
use crate::framebuffer::FrameBuffer;
use crate::keyboard::Keyboard;
use crate::memory::Memory;
use crate::model::machine::overlaid;
use crate::model::{blank, Chip8VirtualMachine, Machine};
use crate::program_counter::ProgramCounter;
use crate::register_bank::RegisterBank;

verus! {

/// The machine that the standard components make.
pub type VM = VirtualMachine<Memory, ProgramCounter, RegisterBank, FrameBuffer, Keyboard>;

/// The address at which programs are loaded and started.
pub const PROGRAM_START: u16 = 0x200;

/// The number of rows of the standard display.
pub const DISPLAY_HEIGHT: usize = 32;

/// Creates a machine of the standard components: memory holds the font
/// and zeros, the program counter stands at `0x200`, the registers are
/// zero, the display is dark and has 32 rows, and no key is pressed.
pub fn get_vm() -> (vm: VM)
    ensures
        vm.inv(),
        vm@ == (Machine {
            memory: overlaid(Seq::new(4096, |address: int| 0u8), 0, FONTS@),
            stack: seq![0x200u16],
            v: Seq::new(16, |register: int| 0u8),
            i: 0,
            rows: blank(32),
            pressed: None,
            state: VMState::Initializing,
            delay_timer: 0,
            sound_timer: 0,
        }),
{
    VirtualMachine::new(
        Memory::new(),
        ProgramCounter::new(Address::new(PROGRAM_START)),
        RegisterBank::new(),
        FrameBuffer::new(DISPLAY_HEIGHT),
        Keyboard::new(),
    )
}

/// The key of the machine's keypad that a key of the host's keyboard
/// stands for. The host's key is given by its key code, which for these
/// keys is the code of the character that the key types.
///
/// The four by four block `1234`, `qwer`, `asdf`, `zxcv` of the host
/// stands for the keypad's rows `123C`, `456D`, `789E`, `A0BF`.
pub open spec fn keypad_key(keycode: i32) -> Option<u8> {
    if keycode == 0x31 {
        Some(0x1u8)
    } else if keycode == 0x32 {
        Some(0x2u8)
    } else if keycode == 0x33 {
        Some(0x3u8)
    } else if keycode == 0x34 {
        Some(0xCu8)
    } else if keycode == 0x71 {
        Some(0x4u8)
    } else if keycode == 0x77 {
        Some(0x5u8)
    } else if keycode == 0x65 {
        Some(0x6u8)
    } else if keycode == 0x72 {
        Some(0xDu8)
    } else if keycode == 0x61 {
        Some(0x7u8)
    } else if keycode == 0x73 {
        Some(0x8u8)
    } else if keycode == 0x64 {
        Some(0x9u8)
    } else if keycode == 0x66 {
        Some(0xEu8)
    } else if keycode == 0x7A {
        Some(0xAu8)
    } else if keycode == 0x78 {
        Some(0x0u8)
    } else if keycode == 0x63 {
        Some(0xBu8)
    } else if keycode == 0x76 {
        Some(0xFu8)
    } else {
        None
    }
}

/// Finds the key of the keypad that the host's key with the given key
/// code stands for, if it stands for one.
pub fn key_for_keycode(keycode: i32) -> (key: Option<u8>)
    ensures
        key == keypad_key(keycode),
        key matches Some(k) ==> k < 16,
{
    match keycode {
        // 1 2 3 4
        0x31 => Some(0x1),
        0x32 => Some(0x2),
        0x33 => Some(0x3),
        0x34 => Some(0xC),
        // q w e r
        0x71 => Some(0x4),
        0x77 => Some(0x5),
        0x65 => Some(0x6),
        0x72 => Some(0xD),
        // a s d f
        0x61 => Some(0x7),
        0x73 => Some(0x8),
        0x64 => Some(0x9),
        0x66 => Some(0xE),
        // z x c v
        0x7A => Some(0xA),
        0x78 => Some(0x0),
        0x63 => Some(0xB),
        0x76 => Some(0xF),
        _ => None,
    }
}

/// Presses the key of the keypad that the host's key stands for; a host
/// key that stands for none is ignored.
pub fn process_keycode(keycode: i32, vm: &mut VM)
    requires
        old(vm).inv(),
    ensures
        final(vm).inv(),
        final(vm)@ == match keypad_key(keycode) {
            Some(key) => (Machine { pressed: Some(key), ..old(vm)@ }),
            None => old(vm)@,
        },
{
    if let Some(key) = key_for_keycode(keycode) {
        vm.press_key(key);
    }
}

/// Whether the pixel in column `x` of screen row `y` is lit. Columns
/// count from the left, screen rows from the top; the scanlines hold the
/// top row first and the leftmost pixel in bit 63.
pub open spec fn pixel_lit(lines: Seq<u64>, x: int, y: int) -> bool {
    lines[y] & (1u64 << ((63 - x) as u64)) != 0
}

/// The lit ones among the first `count` pixels in reading order, row by
/// row from the top and from left to right within a row, each as its
/// column and its screen row.
pub open spec fn lit_among(lines: Seq<u64>, count: nat) -> Seq<(usize, usize)>
    decreases count,
{
    if count == 0 {
        Seq::empty()
    } else {
        let before = lit_among(lines, (count - 1) as nat);
        let x = (count - 1) % 64;
        let y = (count - 1) / 64;
        if pixel_lit(lines, x, y) {
            before.push((x as usize, y as usize))
        } else {
            before
        }
    }
}

/// Lists the lit pixels of a display in reading order, each as its
/// column and its screen row.
pub fn lit_pixels(lines: &[u64]) -> (lit: Vec<(usize, usize)>)
    ensures
        lit@ == lit_among(lines@, lines@.len() * 64),
{
    let mut lit: Vec<(usize, usize)> = Vec::new();
    let len = lines.len();

    let mut y: usize = 0;
    while y < len
        invariant
            y <= len,
            len == lines@.len(),
            lit@ == lit_among(lines@, (y * 64) as nat),
        decreases len - y,
    {
        let line = lines[y];

        let mut x: usize = 0;
        while x < 64
            invariant
                x <= 64,
                y < len,
                len == lines@.len(),
                line == lines@[y as int],
                lit@ == lit_among(lines@, (y * 64 + x) as nat),
            decreases 64 - x,
        {
            let pixel_mask: u64 = 1u64 << ((63 - x) as u64);

            assert((y * 64 + x) / 64 == y && (y * 64 + x) % 64 == x);
            if line & pixel_mask != 0 {
                lit.push((x, y));
            }
            x += 1;
        }
        y += 1;
    }
    lit
}

} // verus!
