use chip8::instruction::utils::{
    get_address, get_byte, get_nibble, get_registers, parse_raw_instruction,
};
use chip8::{Address, Byte, Instruction, Nibble, Register};

#[test]
fn get_nibble_returns_the_correct_nibble() {
    let nib = get_nibble(0x1234);

    assert_eq!(nib, 0x4.into());
}

#[test]
fn get_byte_returns_the_correct_byte() {
    let byte = get_byte(0x1234);

    assert_eq!(byte, 0x34.into());
}

#[test]
fn get_address_returns_the_correct_address() {
    let address = get_address(0x1234);

    assert_eq!(address, 0x234.into());
}

#[test]
fn get_registers_returns_the_correct_registers() {
    let (vx, vy) = get_registers(0x1234);

    assert_eq!(vx, Register::V2);
    assert_eq!(vy, Register::V3);
}

#[test]
fn parse_raw_instruction_returns_every_field() {
    let (address, vx, vy, byte, nibble) = parse_raw_instruction(0xDABC);

    assert_eq!(address, Address::new(0xABC));
    assert_eq!(vx, Register::VA);
    assert_eq!(vy, Register::VB);
    assert_eq!(byte, Byte::new(0xBC));
    assert_eq!(nibble, Nibble::new(0xC));
}

#[test]
fn decodes_the_two_literal_words_before_the_families() {
    assert_eq!(Instruction::new(0x00E0), Instruction::Cls);
    assert_eq!(Instruction::new(0x00EE), Instruction::Return);
    assert_eq!(Instruction::new(0x00E1), Instruction::Sys(Address::new(0x0E1)));
    assert_eq!(Instruction::new(0x0000), Instruction::Sys(Address::new(0x000)));
    assert_eq!(Instruction::new(0x0123), Instruction::Sys(Address::new(0x123)));
}

#[test]
fn decodes_the_families_with_an_address() {
    assert_eq!(Instruction::new(0x1234), Instruction::Jump(Address::new(0x234)));
    assert_eq!(Instruction::new(0x2FFF), Instruction::Call(Address::new(0xFFF)));
    assert_eq!(Instruction::new(0xA123), Instruction::LoadInstr(Address::new(0x123)));
    assert_eq!(Instruction::new(0xB200), Instruction::JumpPlus(Address::new(0x200)));
}

#[test]
fn decodes_the_families_with_a_register_and_a_byte() {
    let v3 = Register::V3;
    let byte = Byte::new(0x4A);

    assert_eq!(Instruction::new(0x334A), Instruction::SkipEqualByte(v3, byte));
    assert_eq!(Instruction::new(0x434A), Instruction::SkipNotEqualByte(v3, byte));
    assert_eq!(Instruction::new(0x634A), Instruction::Load(v3, byte));
    assert_eq!(Instruction::new(0x734A), Instruction::Add(v3, byte));
    assert_eq!(Instruction::new(0xC34A), Instruction::Rand(v3, byte));
}

#[test]
fn decodes_the_families_with_two_registers() {
    let va = Register::VA;
    let vb = Register::VB;

    assert_eq!(Instruction::new(0x5AB0), Instruction::SkipEqualReg(va, vb));
    assert_eq!(Instruction::new(0x9AB0), Instruction::SkipNotEqualReg(va, vb));
    assert_eq!(
        Instruction::new(0xDAB5),
        Instruction::Draw(va, vb, Nibble::new(5))
    );
}

#[test]
fn decodes_register_arithmetic_by_the_last_nibble() {
    let v1 = Register::V1;
    let v2 = Register::V2;

    assert_eq!(Instruction::new(0x8120), Instruction::LoadFromReg(v1, v2));
    assert_eq!(Instruction::new(0x8121), Instruction::Or(v1, v2));
    assert_eq!(Instruction::new(0x8122), Instruction::And(v1, v2));
    assert_eq!(Instruction::new(0x8123), Instruction::XOr(v1, v2));
    assert_eq!(Instruction::new(0x8124), Instruction::AddReg(v1, v2));
    assert_eq!(Instruction::new(0x8125), Instruction::SubReg(v1, v2));
    assert_eq!(Instruction::new(0x8126), Instruction::ShiftRight(v1));
    assert_eq!(Instruction::new(0x8127), Instruction::ReverseSub(v1, v2));
    assert_eq!(Instruction::new(0x812E), Instruction::ShiftLeft(v1));
}

#[test]
fn decodes_keyboard_and_system_instructions_by_the_low_byte() {
    let v7 = Register::V7;

    assert_eq!(Instruction::new(0xE79E), Instruction::SkipPressed(v7));
    assert_eq!(Instruction::new(0xE7A1), Instruction::SkipNotPressed(v7));
    assert_eq!(Instruction::new(0xF707), Instruction::LoadDelayTimer(v7));
    assert_eq!(Instruction::new(0xF70A), Instruction::WaitForKey(v7));
    assert_eq!(Instruction::new(0xF715), Instruction::SetDelayTimer(v7));
    assert_eq!(Instruction::new(0xF718), Instruction::SetSoundTimer(v7));
    assert_eq!(Instruction::new(0xF71E), Instruction::IncrementAddress(v7));
    assert_eq!(Instruction::new(0xF729), Instruction::LoadSpriteAddress(v7));
    assert_eq!(Instruction::new(0xF733), Instruction::LoadBCD(v7));
    assert_eq!(Instruction::new(0xF755), Instruction::CopyToRam(v7));
    assert_eq!(Instruction::new(0xF765), Instruction::CopyToRegisters(v7));
}

#[test]
fn decodes_unknown_members_to_invalid_with_the_word() {
    assert_eq!(Instruction::new(0x8128), Instruction::Invalid(0x8128));
    assert_eq!(Instruction::new(0x812F), Instruction::Invalid(0x812F));
    assert_eq!(Instruction::new(0xE700), Instruction::Invalid(0xE700));
    assert_eq!(Instruction::new(0xE79F), Instruction::Invalid(0xE79F));
    assert_eq!(Instruction::new(0xF700), Instruction::Invalid(0xF700));
    assert_eq!(Instruction::new(0xFFFF), Instruction::Invalid(0xFFFF));
}

#[test]
fn decodes_every_word_of_the_plain_families_to_a_valid_instruction() {
    for word in 0x0000..0x8000u16 {
        assert!(!matches!(Instruction::new(word), Instruction::Invalid(_)));
    }
    for word in 0x9000..0xE000u16 {
        assert!(!matches!(Instruction::new(word), Instruction::Invalid(_)));
    }
}
