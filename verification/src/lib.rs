//! A CHIP-8 execution core: instruction decoding, the per-cycle interpreter
//! and the components it drives.

pub mod cpu;
pub mod data;
pub mod emulator;
pub mod framebuffer;
pub mod instruction;
pub mod keyboard;
pub mod memory;
pub mod model;
pub mod program_counter;
pub mod register_bank;

pub use cpu::{VMState, VirtualMachine, FONTS};
pub use data::{Address, Byte, Nibble};
pub use emulator::{get_vm, key_for_keycode, lit_pixels, process_keycode, VM};
pub use framebuffer::FrameBuffer;
pub use instruction::Instruction;
pub use keyboard::Keyboard;
pub use memory::Memory;
pub use model::{
    Chip8FrameBuffer, Chip8Keyboard, Chip8Memory, Chip8ProgramCounter, Chip8RegisterBank,
    Chip8VirtualMachine, Fault, Register, RegisterIterator,
};
pub use program_counter::ProgramCounter;
pub use register_bank::RegisterBank;
