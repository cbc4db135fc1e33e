//! The instruction set and its decoder.
//!
//! An instruction is one 16-bit word, four nibbles. The first nibble names
//! the family. An address operand fills the other three nibbles; a first
//! register operand is the second nibble, a second register operand the
//! third; a byte literal is the low byte, a nibble literal the last nibble.
//! Families `8`, `E` and `F` tell their members apart by the last nibble or
//! the low byte.

pub mod utils;

use vstd::prelude::*;

use crate::data::{Address, Byte, Nibble};
use crate::model::Register;
use utils::{
    address_operand, byte_operand, first_register_operand, lemma_fields, nibble_operand,
    parse_raw_instruction, second_register_operand,
};

verus! {

/// An instruction to be executed by the machine.
#[derive(Clone, Copy, Debug, PartialEq, Eq, Structural)]
pub enum Instruction {
    /// A word that encodes no instruction; it carries the word.
    Invalid(u16),
    /// `0nnn`: jump to a machine code routine. It does nothing.
    Sys(Address),
    /// `00E0`: clear the display.
    Cls,
    /// `00EE`: return from a subroutine.
    Return,
    /// `1nnn`: jump to location `nnn`.
    Jump(Address),
    /// `2nnn`: call the subroutine at `nnn`.
    Call(Address),
    /// `3xkk`: skip the next instruction if `Vx == kk`.
    SkipEqualByte(Register, Byte),
    /// `4xkk`: skip the next instruction if `Vx != kk`.
    SkipNotEqualByte(Register, Byte),
    /// `5xy0`: skip the next instruction if `Vx == Vy`.
    SkipEqualReg(Register, Register),
    /// `6xkk`: load `kk` into `Vx`.
    Load(Register, Byte),
    /// `7xkk`: add `kk` to `Vx`.
    Add(Register, Byte),
    /// `8xy0`: store the value of `Vy` in `Vx`.
    LoadFromReg(Register, Register),
    /// `8xy1`: store `Vx | Vy` in `Vx`.
    Or(Register, Register),
    /// `8xy2`: store `Vx & Vy` in `Vx`.
    And(Register, Register),
    /// `8xy3`: store `Vx ^ Vy` in `Vx`.
    XOr(Register, Register),
    /// `8xy4`: store `Vx + Vy` in `Vx`.
    AddReg(Register, Register),
    /// `8xy5`: store `Vx - Vy` in `Vx`; `VF` becomes 1 if `Vx > Vy`.
    SubReg(Register, Register),
    /// `8xy6`: shift `Vx` right by one; `VF` takes the bit shifted out.
    ShiftRight(Register),
    /// `8xy7`: store `Vy - Vx` in `Vx`; `VF` becomes 1 if `Vy > Vx`, else 0.
    ReverseSub(Register, Register),
    /// `8xyE`: shift `Vx` left by one; `VF` takes the bit shifted out.
    ShiftLeft(Register),
    /// `9xy0`: skip the next instruction if `Vx != Vy`.
    SkipNotEqualReg(Register, Register),
    /// `Annn`: store `nnn` in the index register.
    LoadInstr(Address),
    /// `Bnnn`: jump to `nnn + V0`.
    JumpPlus(Address),
    /// `Cxkk`: store a random byte, masked by `kk`, in `Vx`.
    Rand(Register, Byte),
    /// `Dxyn`: draw the `n`-byte sprite at the index register at position
    /// `(Vx, Vy)`; `VF` reports a collision.
    Draw(Register, Register, Nibble),
    /// `Ex9E`: skip the next instruction if the key named by `Vx` is pressed.
    SkipPressed(Register),
    /// `ExA1`: skip the next instruction if the key named by `Vx` is not
    /// pressed.
    SkipNotPressed(Register),
    /// `Fx07`: load the delay timer into `Vx`.
    LoadDelayTimer(Register),
    /// `Fx0A`: wait for the key named by `Vx`.
    WaitForKey(Register),
    /// `Fx15`: set the delay timer to `Vx`.
    SetDelayTimer(Register),
    /// `Fx18`: set the sound timer to `Vx`.
    SetSoundTimer(Register),
    /// `Fx1E`: add `Vx` to the index register.
    IncrementAddress(Register),
    /// `Fx29`: point the index register at the glyph of the digit in `Vx`.
    LoadSpriteAddress(Register),
    /// `Fx33`: store the decimal digits of `Vx` at the index register.
    LoadBCD(Register),
    /// `Fx55`: copy `V0..=Vx` to memory at the index register.
    CopyToRam(Register),
    /// `Fx65`: copy memory at the index register to `V0..=Vx`.
    CopyToRegisters(Register),
}

/// The member of family `8` that `word` encodes: register arithmetic,
/// told apart by the last nibble.
pub open spec fn decode_arithmetic(word: u16) -> Instruction {
    let vx = first_register_operand(word);
    let vy = second_register_operand(word);
    let selector = word % 16;
    if selector == 0x0 {
        Instruction::LoadFromReg(vx, vy)
    } else if selector == 0x1 {
        Instruction::Or(vx, vy)
    } else if selector == 0x2 {
        Instruction::And(vx, vy)
    } else if selector == 0x3 {
        Instruction::XOr(vx, vy)
    } else if selector == 0x4 {
        Instruction::AddReg(vx, vy)
    } else if selector == 0x5 {
        Instruction::SubReg(vx, vy)
    } else if selector == 0x6 {
        Instruction::ShiftRight(vx)
    } else if selector == 0x7 {
        Instruction::ReverseSub(vx, vy)
    } else if selector == 0xE {
        Instruction::ShiftLeft(vx)
    } else {
        Instruction::Invalid(word)
    }
}

/// The member of family `E` that `word` encodes: keyboard tests, told
/// apart by the low byte.
pub open spec fn decode_keyboard(word: u16) -> Instruction {
    let vx = first_register_operand(word);
    let selector = word % 256;
    if selector == 0x9E {
        Instruction::SkipPressed(vx)
    } else if selector == 0xA1 {
        Instruction::SkipNotPressed(vx)
    } else {
        Instruction::Invalid(word)
    }
}

/// The member of family `F` that `word` encodes: timers, index register
/// and block transfers, told apart by the low byte.
pub open spec fn decode_system(word: u16) -> Instruction {
    let vx = first_register_operand(word);
    let selector = word % 256;
    if selector == 0x07 {
        Instruction::LoadDelayTimer(vx)
    } else if selector == 0x0A {
        Instruction::WaitForKey(vx)
    } else if selector == 0x15 {
        Instruction::SetDelayTimer(vx)
    } else if selector == 0x18 {
        Instruction::SetSoundTimer(vx)
    } else if selector == 0x1E {
        Instruction::IncrementAddress(vx)
    } else if selector == 0x29 {
        Instruction::LoadSpriteAddress(vx)
    } else if selector == 0x33 {
        Instruction::LoadBCD(vx)
    } else if selector == 0x55 {
        Instruction::CopyToRam(vx)
    } else if selector == 0x65 {
        Instruction::CopyToRegisters(vx)
    } else {
        Instruction::Invalid(word)
    }
}

/// The instruction that `word` encodes.
///
/// The two words `00E0` and `00EE` are taken first; every other word goes
/// by its first nibble. A word that no rule covers decodes to `Invalid`
/// and keeps the word.
pub open spec fn decode(word: u16) -> Instruction {
    let addr = address_operand(word);
    let vx = first_register_operand(word);
    let vy = second_register_operand(word);
    let byte = byte_operand(word);
    let family = word / 4096;
    if word == 0x00E0 {
        Instruction::Cls
    } else if word == 0x00EE {
        Instruction::Return
    } else if family == 0x0 {
        Instruction::Sys(addr)
    } else if family == 0x1 {
        Instruction::Jump(addr)
    } else if family == 0x2 {
        Instruction::Call(addr)
    } else if family == 0x3 {
        Instruction::SkipEqualByte(vx, byte)
    } else if family == 0x4 {
        Instruction::SkipNotEqualByte(vx, byte)
    } else if family == 0x5 {
        Instruction::SkipEqualReg(vx, vy)
    } else if family == 0x6 {
        Instruction::Load(vx, byte)
    } else if family == 0x7 {
        Instruction::Add(vx, byte)
    } else if family == 0x8 {
        decode_arithmetic(word)
    } else if family == 0x9 {
        Instruction::SkipNotEqualReg(vx, vy)
    } else if family == 0xA {
        Instruction::LoadInstr(addr)
    } else if family == 0xB {
        Instruction::JumpPlus(addr)
    } else if family == 0xC {
        Instruction::Rand(vx, byte)
    } else if family == 0xD {
        Instruction::Draw(vx, vy, nibble_operand(word))
    } else if family == 0xE {
        decode_keyboard(word)
    } else {
        decode_system(word)
    }
}

impl Instruction {
    /// Decodes a raw 16-bit word.
    pub fn new(instr: u16) -> (instruction: Instruction)
        ensures
            instruction == decode(instr),
    {
        let (addr, vx, vy, byte, nibble) = parse_raw_instruction(instr);
        proof {
            lemma_fields(instr);
        }

        match instr {
            0x00E0 => Instruction::Cls,
            0x00EE => Instruction::Return,
            _ => match instr & 0xF000 {
                0x0000 => Instruction::Sys(addr),
                0x1000 => Instruction::Jump(addr),
                0x2000 => Instruction::Call(addr),
                0x3000 => Instruction::SkipEqualByte(vx, byte),
                0x4000 => Instruction::SkipNotEqualByte(vx, byte),
                0x5000 => Instruction::SkipEqualReg(vx, vy),
                0x6000 => Instruction::Load(vx, byte),
                0x7000 => Instruction::Add(vx, byte),
                0x8000 => match instr & 0x000F {
                    0x0000 => Instruction::LoadFromReg(vx, vy),
                    0x0001 => Instruction::Or(vx, vy),
                    0x0002 => Instruction::And(vx, vy),
                    0x0003 => Instruction::XOr(vx, vy),
                    0x0004 => Instruction::AddReg(vx, vy),
                    0x0005 => Instruction::SubReg(vx, vy),
                    0x0006 => Instruction::ShiftRight(vx),
                    0x0007 => Instruction::ReverseSub(vx, vy),
                    0x000E => Instruction::ShiftLeft(vx),
                    _ => Instruction::Invalid(instr),
                },
                0x9000 => Instruction::SkipNotEqualReg(vx, vy),
                0xA000 => Instruction::LoadInstr(addr),
                0xB000 => Instruction::JumpPlus(addr),
                0xC000 => Instruction::Rand(vx, byte),
                0xD000 => Instruction::Draw(vx, vy, nibble),
                0xE000 => match instr & 0x00FF {
                    0x009E => Instruction::SkipPressed(vx),
                    0x00A1 => Instruction::SkipNotPressed(vx),
                    _ => Instruction::Invalid(instr),
                },
                0xF000 => match instr & 0x00FF {
                    0x0007 => Instruction::LoadDelayTimer(vx),
                    0x000A => Instruction::WaitForKey(vx),
                    0x0015 => Instruction::SetDelayTimer(vx),
                    0x0018 => Instruction::SetSoundTimer(vx),
                    0x001E => Instruction::IncrementAddress(vx),
                    0x0029 => Instruction::LoadSpriteAddress(vx),
                    0x0033 => Instruction::LoadBCD(vx),
                    0x0055 => Instruction::CopyToRam(vx),
                    0x0065 => Instruction::CopyToRegisters(vx),
                    _ => Instruction::Invalid(instr),
                },
                _ => Instruction::Invalid(instr),
            },
        }
    }
}

} // verus!
