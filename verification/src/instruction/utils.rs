//! The operand fields of a raw instruction word.

use vstd::pervasive::unreached;
use vstd::prelude::*;

use crate::data::{Address, Byte, Nibble};
use crate::model::Register;

verus! {

/// Bits 0 to 3 of `word`: a sprite's height.
pub open spec fn nibble_operand(word: u16) -> Nibble {
    Nibble::of((word % 16) as u8)
}

/// Bits 0 to 11 of `word`: an address.
pub open spec fn address_operand(word: u16) -> Address {
    Address::of((word % 4096) as u16)
}

/// Bits 0 to 7 of `word`: a byte literal.
pub open spec fn byte_operand(word: u16) -> Byte {
    Byte::of((word % 256) as u8)
}

/// Bits 8 to 11 of `word`: the first register operand.
pub open spec fn first_register_operand(word: u16) -> Register {
    Register::at((word as int / 256) % 16)
}

/// Bits 4 to 7 of `word`: the second register operand.
pub open spec fn second_register_operand(word: u16) -> Register {
    Register::at((word as int / 16) % 16)
}

/// The operands sit at fixed places of the word: the address in bits 0
/// to 11, the byte literal in bits 0 to 7, the nibble literal in bits 0 to
/// 3, the first register in bits 8 to 11 and the second in bits 4 to 7.
pub proof fn lemma_operands(word: u16)
    ensures
        address_operand(word)@ == word % 4096,
        byte_operand(word)@ == word % 256,
        nibble_operand(word)@ == word % 16,
        first_register_operand(word).ordinal() == (word / 256) % 16,
        second_register_operand(word).ordinal() == (word / 16) % 16,
{
    Address::lemma_of((word % 4096) as u16);
    Byte::lemma_of((word % 256) as u8);
    Nibble::lemma_of((word % 16) as u8);
    Register::lemma_at((word as int / 256) % 16);
    Register::lemma_at((word as int / 16) % 16);
}

/// What the masks and shifts of the decoder select, as arithmetic.
pub proof fn lemma_fields(word: u16)
    by (bit_vector)
    ensures
        word & 0x000F == word % 16,
        word & 0x00FF == word % 256,
        word & 0x0FFF == word % 4096,
        word & 0xF000 == (word / 4096) * 4096,
        (word & 0x00F0) >> 4 == (word / 16) % 16,
        (word & 0x0F00) >> 8 == (word / 256) % 16,
{
}

/// Splits the instruction into its operand fields: address, first and
/// second register, byte literal, nibble literal.
pub fn parse_raw_instruction(instr: u16) -> (fields: (Address, Register, Register, Byte, Nibble))
    ensures
        fields.0 == address_operand(instr),
        fields.1 == first_register_operand(instr),
        fields.2 == second_register_operand(instr),
        fields.3 == byte_operand(instr),
        fields.4 == nibble_operand(instr),
{
    let (vx, vy) = get_registers(instr);
    (get_address(instr), vx, vy, get_byte(instr), get_nibble(instr))
}

/// Gets the nibble literal from the instruction.
pub fn get_nibble(inst: u16) -> (nibble: Nibble)
    ensures
        nibble == nibble_operand(inst),
        nibble@ == inst % 16,
{
    proof {
        lemma_fields(inst);
    }
    Nibble::new((inst & 0x000F) as u8)
}

/// Gets the address from the instruction.
pub fn get_address(inst: u16) -> (address: Address)
    ensures
        address == address_operand(inst),
        address@ == inst % 4096,
{
    proof {
        lemma_fields(inst);
    }
    Address::new(inst & 0x0FFF)
}

/// Gets the two register operands from the instruction, first and second.
pub fn get_registers(inst: u16) -> (registers: (Register, Register))
    ensures
        registers.0 == first_register_operand(inst),
        registers.1 == second_register_operand(inst),
{
    proof {
        lemma_fields(inst);
    }
    let reg_bits = ((inst & 0x00F0) >> 4) as u8;
    let vy = Register::new(reg_bits);

    let reg_bits = ((inst & 0x0F00) >> 8) as u8;
    let vx = Register::new(reg_bits);

    match (vx, vy) {
        (Ok(vx), Ok(vy)) => (vx, vy),
        // Four bits always name a register.
        _ => unreached(),
    }
}

/// Gets the byte literal from the instruction.
pub fn get_byte(inst: u16) -> (byte: Byte)
    ensures
        byte == byte_operand(inst),
        byte@ == inst % 256,
{
    proof {
        lemma_fields(inst);
    }
    Byte::new((inst & 0x00FF) as u8)
}

} // verus!
