use chip8::{
    get_vm, Address, Byte, Chip8FrameBuffer, Chip8Keyboard, Chip8Memory, Chip8ProgramCounter,
    Chip8RegisterBank, Chip8VirtualMachine, Fault, FrameBuffer, Instruction, Keyboard, Memory,
    Nibble, ProgramCounter, Register, RegisterBank, VMState, VirtualMachine, FONTS, VM,
};

fn machine_with(program: &[u8]) -> VM {
    let mut vm = get_vm();

    assert_eq!(vm.load_rom(program), Ok(()));
    vm
}

fn reg(vm: &VM, register: Register) -> u8 {
    vm.registers.get_v(register).get_raw()
}

fn pc(vm: &VM) -> u16 {
    vm.pc.current().get_raw()
}

fn set(vm: &mut VM, register: Register, value: u8) {
    vm.registers.set_v(register, Byte::new(value));
}

#[test]
fn new_machine_holds_the_font_in_the_first_eighty_cells() {
    let vm = get_vm();

    for (address, byte) in FONTS.iter().enumerate() {
        assert_eq!(vm.memory.get(Address::new(address as u16)), Byte::new(*byte));
    }
    for address in 80..4096u16 {
        assert_eq!(vm.memory.get(Address::new(address)), Byte::new(0));
    }
    assert_eq!(pc(&vm), 0x200);
    assert_eq!(vm.pc.depth(), 1);
    assert_eq!(vm.state, VMState::Initializing);
    assert_eq!(vm.delay_timer, 0);
    assert_eq!(vm.sound_timer, 0);
    assert_eq!(vm.get_framebuffer().len(), 32);
}

#[test]
fn new_keeps_what_the_components_hold() {
    let mut memory = Memory::new();
    let mut registers = RegisterBank::new();
    let mut keyboard = Keyboard::new();

    memory.set(Address::new(0x10), Byte::new(0xEE));
    memory.set(Address::new(0x300), Byte::new(0x77));
    registers.set_v(Register::V4, Byte::new(9));
    registers.set_i(Address::new(0x123));
    keyboard.press(Nibble::new(5));

    let vm = VirtualMachine::new(
        memory,
        ProgramCounter::new(Address::new(0x400)),
        registers,
        FrameBuffer::new(16),
        keyboard,
    );

    assert_eq!(vm.memory.get(Address::new(0x10)), Byte::new(FONTS[0x10]));
    assert_eq!(vm.memory.get(Address::new(0x300)), Byte::new(0x77));
    assert_eq!(vm.registers.get_v(Register::V4), Byte::new(9));
    assert_eq!(vm.registers.get_i(), Address::new(0x123));
    assert!(vm.keyboard.is_pressed(Nibble::new(5)));
    assert_eq!(pc(&vm), 0x400);
    assert_eq!(vm.get_framebuffer().len(), 16);
}

#[test]
fn load_rom_copies_the_program_to_the_program_counter() {
    let vm = machine_with(&[0x12, 0x34, 0x56]);

    assert_eq!(vm.memory.get(Address::new(0x200)), Byte::new(0x12));
    assert_eq!(vm.memory.get(Address::new(0x201)), Byte::new(0x34));
    assert_eq!(vm.memory.get(Address::new(0x202)), Byte::new(0x56));
    assert_eq!(vm.memory.get(Address::new(0x203)), Byte::new(0));
    assert_eq!(vm.memory.get(Address::new(0x1FF)), Byte::new(0));
    assert_eq!(vm.state, VMState::Initializing);
    assert_eq!(pc(&vm), 0x200);
}

#[test]
fn load_rom_keeps_the_font() {
    let program = vec![0xAB; 4096 - 0x200];
    let vm = machine_with(&program);

    for (address, byte) in FONTS.iter().enumerate() {
        assert_eq!(vm.memory.get(Address::new(address as u16)), Byte::new(*byte));
    }
    assert_eq!(vm.memory.get(Address::new(0xFFF)), Byte::new(0xAB));
}

#[test]
fn load_rom_refuses_a_program_that_does_not_fit() {
    let mut vm = get_vm();
    let program = vec![0xAB; 4096 - 0x200 + 1];

    assert_eq!(vm.load_rom(&program), Err(Fault::OutOfBounds));

    assert_eq!(vm.memory.get(Address::new(0x200)), Byte::new(0));
    assert_eq!(vm.memory.get(Address::new(0x000)), Byte::new(FONTS[0]));
    assert_eq!(vm.state, VMState::Initializing);
}

#[test]
fn clear_screen_then_jump_to_self() {
    let mut vm = machine_with(&[0x00, 0xE0, 0x12, 0x00]);

    vm.framebuffer.draw(Byte::new(0), Byte::new(0), &[Byte::new(0xFF)]);

    assert_eq!(vm.execute_cycles(1), Ok(()));

    assert!(vm.get_framebuffer().iter().all(|line| *line == 0));
    assert_eq!(pc(&vm), 0x202);
    assert_eq!(vm.state, VMState::Executing(Instruction::Cls));

    assert_eq!(vm.execute_cycles(1), Ok(()));

    assert!(vm.get_framebuffer().iter().all(|line| *line == 0));
    assert_eq!(pc(&vm), 0x200);
}

#[test]
fn jump_to_self_leaves_the_program_counter_in_place() {
    let mut vm = machine_with(&[0x12, 0x00]);

    assert_eq!(vm.execute_cycles(1), Ok(()));

    assert!(vm.get_framebuffer().iter().all(|line| *line == 0));
    assert_eq!(pc(&vm), 0x200);

    assert_eq!(vm.execute_cycles(100), Ok(()));

    assert_eq!(pc(&vm), 0x200);
}

#[test]
fn load_byte_then_add_byte() {
    let mut vm = machine_with(&[0x60, 0x05, 0x70, 0x03]);

    assert_eq!(vm.execute_cycles(2), Ok(()));

    assert_eq!(reg(&vm, Register::V0), 0x08);
    assert_eq!(reg(&vm, Register::VF), 0x00);
    assert_eq!(pc(&vm), 0x204);
}

#[test]
fn add_byte_wraps_and_leaves_the_flag_alone() {
    let mut vm = machine_with(&[0x60, 0xFF, 0x6F, 0x07, 0x70, 0x02]);

    assert_eq!(vm.execute_cycles(3), Ok(()));

    assert_eq!(reg(&vm, Register::V0), 0x01);
    assert_eq!(reg(&vm, Register::VF), 0x07);
}

#[test]
fn execute_runs_one_cycle() {
    let mut vm = machine_with(&[0x61, 0x11, 0x62, 0x22]);

    assert_eq!(vm.execute(), Ok(()));

    assert_eq!(reg(&vm, Register::V1), 0x11);
    assert_eq!(reg(&vm, Register::V2), 0x00);
    assert_eq!(pc(&vm), 0x202);
    assert_eq!(
        vm.state,
        VMState::Executing(Instruction::Load(Register::V1, Byte::new(0x11)))
    );
}

#[test]
fn execute_cycles_of_zero_changes_nothing() {
    let mut vm = machine_with(&[0x61, 0x11]);

    vm.delay_timer = 5;

    assert_eq!(vm.execute_cycles(0), Ok(()));

    assert_eq!(pc(&vm), 0x200);
    assert_eq!(vm.delay_timer, 5);
    assert_eq!(vm.state, VMState::Initializing);
}

#[test]
fn timers_tick_once_per_cycle_and_stop_at_zero() {
    let mut vm = machine_with(&[0x12, 0x00]);

    vm.delay_timer = 3;
    vm.sound_timer = 1;

    assert_eq!(vm.execute_cycles(2), Ok(()));

    assert_eq!(vm.delay_timer, 1);
    assert_eq!(vm.sound_timer, 0);

    assert_eq!(vm.execute_cycles(5), Ok(()));

    assert_eq!(vm.delay_timer, 0);
    assert_eq!(vm.sound_timer, 0);
}

#[test]
fn paused_machine_ticks_once_and_ends_the_run() {
    let mut vm = machine_with(&[0x61, 0x11]);

    vm.state = VMState::Paused;
    vm.delay_timer = 10;

    assert_eq!(vm.execute_cycles(4), Ok(()));

    assert_eq!(vm.delay_timer, 9);
    assert_eq!(pc(&vm), 0x200);
    assert_eq!(reg(&vm, Register::V1), 0);
    assert_eq!(vm.state, VMState::Paused);
}

#[test]
fn wait_for_key_suspends_until_the_key_is_pressed() {
    // V3 = 0x17; wait for the key in V3; V1 = 0x11
    let mut vm = machine_with(&[0x63, 0x17, 0xF3, 0x0A, 0x61, 0x11]);

    assert_eq!(vm.execute_cycles(2), Ok(()));

    assert_eq!(vm.state, VMState::WaitingForKey(Some(Nibble::new(7))));
    assert_eq!(pc(&vm), 0x204);

    vm.delay_timer = 10;
    assert_eq!(vm.execute_cycles(3), Ok(()));

    assert_eq!(vm.delay_timer, 9);
    assert_eq!(pc(&vm), 0x204);
    assert_eq!(reg(&vm, Register::V1), 0);

    vm.press_key(6);
    assert_eq!(vm.execute_cycles(1), Ok(()));

    assert_eq!(pc(&vm), 0x204);
    assert_eq!(vm.state, VMState::WaitingForKey(Some(Nibble::new(7))));

    vm.press_key(7);
    assert_eq!(vm.execute_cycles(1), Ok(()));

    assert_eq!(pc(&vm), 0x206);
    assert_eq!(reg(&vm, Register::V1), 0x11);
    assert_eq!(reg(&vm, Register::V3), 0x17);
}

#[test]
fn waiting_for_no_key_does_not_suspend() {
    let mut vm = machine_with(&[0x61, 0x11]);

    vm.state = VMState::WaitingForKey(None);

    assert_eq!(vm.execute_cycles(1), Ok(()));

    assert_eq!(reg(&vm, Register::V1), 0x11);
}

#[test]
fn press_key_keeps_the_low_four_bits_and_release_keys_empties_the_keypad() {
    let mut vm = get_vm();

    vm.press_key(0x1C);

    assert!(vm.keyboard.is_pressed(Nibble::new(0xC)));

    vm.release_keys();

    assert!(!vm.keyboard.is_pressed(Nibble::new(0xC)));
}

#[test]
fn invalid_instruction_is_reported_and_stepped_over() {
    let mut vm = machine_with(&[0x61, 0x11, 0xFF, 0xFF, 0x62, 0x22]);

    vm.delay_timer = 10;

    assert_eq!(
        vm.execute_cycles(5),
        Err(Fault::InvalidInstruction(0xFFFF))
    );

    assert_eq!(reg(&vm, Register::V1), 0x11);
    assert_eq!(pc(&vm), 0x204);
    assert_eq!(vm.delay_timer, 8);
    assert_eq!(vm.state, VMState::Executing(Instruction::Invalid(0xFFFF)));

    assert_eq!(vm.execute_cycles(1), Ok(()));

    assert_eq!(reg(&vm, Register::V2), 0x22);
}

#[test]
fn return_without_a_call_is_a_stack_underflow() {
    let mut vm = machine_with(&[0x00, 0xEE]);

    assert_eq!(vm.execute(), Err(Fault::StackUnderflow));

    assert_eq!(pc(&vm), 0x200);
    assert_eq!(vm.pc.depth(), 1);

    assert_eq!(vm.execute_cycles(3), Err(Fault::StackUnderflow));
    assert_eq!(vm.fatal(Instruction::Return), Some(Fault::StackUnderflow));
    assert_eq!(pc(&vm), 0x200);
    assert_eq!(vm.pc.depth(), 1);
}

#[test]
fn return_with_a_call_to_return_from_drops_the_depth_by_one() {
    let mut vm = get_vm();

    assert_eq!(vm.interpret_with(Instruction::Call(Address::new(0x300)), 0), Ok(true));
    assert_eq!(vm.interpret_with(Instruction::Call(Address::new(0x400)), 0), Ok(true));
    assert_eq!(vm.pc.depth(), 3);
    assert_eq!(vm.fatal(Instruction::Return), None);

    assert_eq!(vm.interpret_with(Instruction::Return, 0), Ok(true));

    assert_eq!(vm.pc.depth(), 2);
    assert_eq!(pc(&vm), 0x302);
}

#[test]
fn fatal_finds_no_fault_in_instructions_that_cannot_have_one() {
    let vm = get_vm();

    assert_eq!(vm.fatal(Instruction::Cls), None);
    assert_eq!(vm.fatal(Instruction::Invalid(0xFFFF)), None);
    assert_eq!(vm.fatal(Instruction::Jump(Address::new(0xFFF))), None);
    assert_eq!(vm.fatal(Instruction::LoadBCD(Register::V0)), None);
    assert_eq!(vm.fatal(Instruction::Call(Address::new(0x300))), None);
}

#[test]
fn call_and_return_go_on_behind_the_call() {
    // 0x200: call 0x206; 0x202: V1 = 0x11; 0x206: V2 = 0x22; 0x208: return
    let mut vm = machine_with(&[0x22, 0x06, 0x61, 0x11, 0x00, 0x00, 0x62, 0x22, 0x00, 0xEE]);

    assert_eq!(vm.execute(), Ok(()));

    assert_eq!(pc(&vm), 0x206);
    assert_eq!(vm.pc.depth(), 2);

    assert_eq!(vm.execute_cycles(2), Ok(()));

    assert_eq!(reg(&vm, Register::V2), 0x22);
    assert_eq!(pc(&vm), 0x202);
    assert_eq!(vm.pc.depth(), 1);

    assert_eq!(vm.execute(), Ok(()));

    assert_eq!(reg(&vm, Register::V1), 0x11);
}

#[test]
fn the_seventeenth_frame_is_a_stack_overflow() {
    // 0x200: call 0x200
    let mut vm = machine_with(&[0x22, 0x00]);

    assert_eq!(vm.execute_cycles(15), Ok(()));
    assert_eq!(vm.pc.depth(), 16);

    assert_eq!(
        vm.fatal(Instruction::Call(Address::new(0x200))),
        Some(Fault::StackOverflow)
    );
    assert_eq!(vm.execute_cycles(1), Err(Fault::StackOverflow));

    assert_eq!(vm.pc.depth(), 16);
    assert_eq!(pc(&vm), 0x200);
}

#[test]
fn jump_sets_the_program_counter() {
    let mut vm = machine_with(&[0x1A, 0xBC]);

    assert_eq!(vm.execute(), Ok(()));

    assert_eq!(pc(&vm), 0xABC);
}

#[test]
fn jump_with_offset_adds_register_zero_to_the_address() {
    let mut vm = machine_with(&[0x60, 0x10, 0xB3, 0x00]);

    assert_eq!(vm.execute_cycles(2), Ok(()));

    assert_eq!(pc(&vm), 0x310);

    let mut vm = get_vm();
    set(&mut vm, Register::V0, 0xFF);

    assert_eq!(
        vm.interpret_with(Instruction::JumpPlus(Address::new(0xFFF)), 0),
        Ok(true)
    );
    assert_eq!(pc(&vm), 0x0FE);
}

#[test]
fn system_call_does_nothing() {
    let mut vm = machine_with(&[0x01, 0x23]);

    assert_eq!(vm.execute(), Ok(()));

    assert_eq!(pc(&vm), 0x202);
    for position in 0..16u8 {
        assert_eq!(reg(&vm, Register::new(position).unwrap()), 0);
    }
}

#[test]
fn skips_advance_by_two_instructions_when_taken() {
    let cases: [(Instruction, bool); 8] = [
        (Instruction::SkipEqualByte(Register::V1, Byte::new(7)), true),
        (Instruction::SkipEqualByte(Register::V1, Byte::new(8)), false),
        (Instruction::SkipNotEqualByte(Register::V1, Byte::new(8)), true),
        (Instruction::SkipNotEqualByte(Register::V1, Byte::new(7)), false),
        (Instruction::SkipEqualReg(Register::V1, Register::V2), true),
        (Instruction::SkipEqualReg(Register::V1, Register::V3), false),
        (Instruction::SkipNotEqualReg(Register::V1, Register::V3), true),
        (Instruction::SkipNotEqualReg(Register::V1, Register::V2), false),
    ];

    for (instruction, taken) in cases {
        let mut vm = get_vm();

        set(&mut vm, Register::V1, 7);
        set(&mut vm, Register::V2, 7);
        set(&mut vm, Register::V3, 9);

        assert_eq!(vm.interpret_with(instruction, 0), Ok(taken));
        assert_eq!(pc(&vm), if taken { 0x204 } else { 0x200 });
    }
}

#[test]
fn skips_take_four_or_two_bytes_in_a_cycle() {
    // V1 = 7; skip if V1 == 7; V2 = 1 (skipped); skip if V1 == 8; V3 = 3
    let mut vm = machine_with(&[0x61, 0x07, 0x31, 0x07, 0x62, 0x01, 0x31, 0x08, 0x63, 0x03]);

    assert_eq!(vm.execute_cycles(2), Ok(()));
    assert_eq!(pc(&vm), 0x206);

    assert_eq!(vm.execute_cycles(2), Ok(()));
    assert_eq!(pc(&vm), 0x20A);
    assert_eq!(reg(&vm, Register::V2), 0);
    assert_eq!(reg(&vm, Register::V3), 3);
}

#[test]
fn key_skips_test_the_low_nibble_of_the_register() {
    let mut vm = get_vm();

    set(&mut vm, Register::V5, 0x3A);
    vm.press_key(0xA);

    assert_eq!(vm.interpret_with(Instruction::SkipPressed(Register::V5), 0), Ok(true));
    assert_eq!(pc(&vm), 0x204);
    assert_eq!(vm.interpret_with(Instruction::SkipNotPressed(Register::V5), 0), Ok(false));
    assert_eq!(pc(&vm), 0x204);

    vm.release_keys();

    assert_eq!(vm.interpret_with(Instruction::SkipPressed(Register::V5), 0), Ok(false));
    assert_eq!(pc(&vm), 0x204);
    assert_eq!(vm.interpret_with(Instruction::SkipNotPressed(Register::V5), 0), Ok(true));
    assert_eq!(pc(&vm), 0x208);
}

#[test]
fn register_moves_and_bitwise_operations() {
    let mut vm = get_vm();

    set(&mut vm, Register::V1, 0b1100);
    set(&mut vm, Register::V2, 0b1010);

    assert_eq!(vm.interpret_with(Instruction::LoadFromReg(Register::V3, Register::V1), 0), Ok(false));
    assert_eq!(reg(&vm, Register::V3), 0b1100);

    assert_eq!(vm.interpret_with(Instruction::Or(Register::V3, Register::V2), 0), Ok(false));
    assert_eq!(reg(&vm, Register::V3), 0b1110);

    assert_eq!(vm.interpret_with(Instruction::And(Register::V3, Register::V2), 0), Ok(false));
    assert_eq!(reg(&vm, Register::V3), 0b1010);

    assert_eq!(vm.interpret_with(Instruction::XOr(Register::V3, Register::V1), 0), Ok(false));
    assert_eq!(reg(&vm, Register::V3), 0b0110);
    assert_eq!(reg(&vm, Register::VF), 0);
    assert_eq!(pc(&vm), 0x200);
}

#[test]
fn register_addition_wraps_without_touching_the_flag() {
    let mut vm = get_vm();

    set(&mut vm, Register::V1, 200);
    set(&mut vm, Register::V2, 100);
    set(&mut vm, Register::VF, 9);

    assert_eq!(vm.interpret_with(Instruction::AddReg(Register::V1, Register::V2), 0), Ok(false));

    assert_eq!(reg(&vm, Register::V1), 44);
    assert_eq!(reg(&vm, Register::VF), 9);
}

#[test]
fn subtraction_sets_the_flag_on_greater_and_leaves_it_otherwise() {
    let mut vm = get_vm();

    set(&mut vm, Register::V1, 10);
    set(&mut vm, Register::V2, 3);

    assert_eq!(vm.interpret_with(Instruction::SubReg(Register::V1, Register::V2), 0), Ok(false));
    assert_eq!(reg(&vm, Register::V1), 7);
    assert_eq!(reg(&vm, Register::VF), 1);

    set(&mut vm, Register::V1, 3);
    set(&mut vm, Register::V2, 10);

    assert_eq!(vm.interpret_with(Instruction::SubReg(Register::V1, Register::V2), 0), Ok(false));
    assert_eq!(reg(&vm, Register::V1), 249);
    assert_eq!(reg(&vm, Register::VF), 1);

    set(&mut vm, Register::VF, 0);
    set(&mut vm, Register::V1, 5);
    set(&mut vm, Register::V2, 5);

    assert_eq!(vm.interpret_with(Instruction::SubReg(Register::V1, Register::V2), 0), Ok(false));
    assert_eq!(reg(&vm, Register::V1), 0);
    assert_eq!(reg(&vm, Register::VF), 0);
}

#[test]
fn reverse_subtraction_sets_the_flag_both_ways() {
    let mut vm = get_vm();

    set(&mut vm, Register::V1, 3);
    set(&mut vm, Register::V2, 10);

    assert_eq!(vm.interpret_with(Instruction::ReverseSub(Register::V1, Register::V2), 0), Ok(false));
    assert_eq!(reg(&vm, Register::V1), 7);
    assert_eq!(reg(&vm, Register::VF), 1);

    set(&mut vm, Register::V1, 10);
    set(&mut vm, Register::V2, 3);

    assert_eq!(vm.interpret_with(Instruction::ReverseSub(Register::V1, Register::V2), 0), Ok(false));
    assert_eq!(reg(&vm, Register::V1), 249);
    assert_eq!(reg(&vm, Register::VF), 0);
}

#[test]
fn shifts_store_the_bit_pushed_out_in_the_flag() {
    let mut vm = get_vm();

    set(&mut vm, Register::V1, 0b1000_0101);

    assert_eq!(vm.interpret_with(Instruction::ShiftRight(Register::V1), 0), Ok(false));
    assert_eq!(reg(&vm, Register::V1), 0b0100_0010);
    assert_eq!(reg(&vm, Register::VF), 1);

    assert_eq!(vm.interpret_with(Instruction::ShiftRight(Register::V1), 0), Ok(false));
    assert_eq!(reg(&vm, Register::V1), 0b0010_0001);
    assert_eq!(reg(&vm, Register::VF), 0);

    set(&mut vm, Register::V2, 0b1100_0001);

    assert_eq!(vm.interpret_with(Instruction::ShiftLeft(Register::V2), 0), Ok(false));
    assert_eq!(reg(&vm, Register::V2), 0b1000_0010);
    assert_eq!(reg(&vm, Register::VF), 1);

    set(&mut vm, Register::V2, 0b0100_0001);

    assert_eq!(vm.interpret_with(Instruction::ShiftLeft(Register::V2), 0), Ok(false));
    assert_eq!(reg(&vm, Register::V2), 0b1000_0010);
    assert_eq!(reg(&vm, Register::VF), 0);
}

#[test]
fn the_result_overwrites_the_flag_when_the_flag_register_is_the_target() {
    let mut vm = get_vm();

    set(&mut vm, Register::VF, 0b0000_0111);

    assert_eq!(vm.interpret_with(Instruction::ShiftRight(Register::VF), 0), Ok(false));
    assert_eq!(reg(&vm, Register::VF), 0b0000_0011);

    set(&mut vm, Register::VF, 10);
    set(&mut vm, Register::V1, 3);

    assert_eq!(vm.interpret_with(Instruction::SubReg(Register::VF, Register::V1), 0), Ok(false));
    assert_eq!(reg(&vm, Register::VF), 7);
}

#[test]
fn random_is_masked_by_the_literal() {
    let mut vm = get_vm();

    assert_eq!(
        vm.interpret_with(Instruction::Rand(Register::V1, Byte::new(0x0F)), 0xAB),
        Ok(false)
    );
    assert_eq!(reg(&vm, Register::V1), 0x0B);

    assert_eq!(
        vm.interpret_with(Instruction::Rand(Register::V2, Byte::new(0xFF)), 0xAB),
        Ok(false)
    );
    assert_eq!(reg(&vm, Register::V2), 0xAB);

    for _ in 0..64 {
        assert_eq!(
            vm.interpret_instruction(Instruction::Rand(Register::V3, Byte::new(0x3C))),
            Ok(false)
        );
        assert_eq!(reg(&vm, Register::V3) & !0x3C, 0);
    }
}

#[test]
fn random_draws_different_bytes() {
    let mut vm = machine_with(&[0xC1, 0xFF, 0x12, 0x00]);
    let mut seen = [false; 256];

    for _ in 0..2000 {
        assert_eq!(vm.execute_cycles(2), Ok(()));
        seen[reg(&vm, Register::V1) as usize] = true;
    }

    assert!(seen.iter().filter(|hit| **hit).count() > 128);
}

#[test]
fn interpret_instruction_agrees_with_interpret_with_where_chance_has_no_say() {
    let mut left = get_vm();
    let mut right = get_vm();
    let program = [
        Instruction::Load(Register::V1, Byte::new(0x12)),
        Instruction::Add(Register::V1, Byte::new(0xFF)),
        Instruction::LoadInstr(Address::new(0x300)),
        Instruction::LoadBCD(Register::V1),
        Instruction::Call(Address::new(0x400)),
    ];

    for instruction in program {
        assert_eq!(
            left.interpret_instruction(instruction),
            right.interpret_with(instruction, 0x5A)
        );
    }

    assert_eq!(reg(&left, Register::V1), reg(&right, Register::V1));
    assert_eq!(pc(&left), pc(&right));
    assert_eq!(left.memory.get(Address::new(0x302)), right.memory.get(Address::new(0x302)));
}

#[test]
fn index_register_instructions() {
    let mut vm = get_vm();

    assert_eq!(vm.interpret_with(Instruction::LoadInstr(Address::new(0xFFE)), 0), Ok(false));
    assert_eq!(vm.registers.get_i(), Address::new(0xFFE));

    set(&mut vm, Register::V1, 5);

    assert_eq!(vm.interpret_with(Instruction::IncrementAddress(Register::V1), 0), Ok(false));
    assert_eq!(vm.registers.get_i(), Address::new(0x003));

    set(&mut vm, Register::V2, 0x1B);

    assert_eq!(vm.interpret_with(Instruction::LoadSpriteAddress(Register::V2), 0), Ok(false));
    assert_eq!(vm.registers.get_i(), Address::new(55));

    set(&mut vm, Register::V2, 0x0F);

    assert_eq!(vm.interpret_with(Instruction::LoadSpriteAddress(Register::V2), 0), Ok(false));
    assert_eq!(vm.registers.get_i(), Address::new(75));
}

#[test]
fn timer_instructions() {
    let mut vm = get_vm();

    set(&mut vm, Register::V1, 0x42);
    set(&mut vm, Register::V2, 0x24);

    assert_eq!(vm.interpret_with(Instruction::SetDelayTimer(Register::V1), 0), Ok(false));
    assert_eq!(vm.interpret_with(Instruction::SetSoundTimer(Register::V2), 0), Ok(false));

    assert_eq!(vm.delay_timer, 0x42);
    assert_eq!(vm.sound_timer, 0x24);

    assert_eq!(vm.interpret_with(Instruction::LoadDelayTimer(Register::V3), 0), Ok(false));

    assert_eq!(reg(&vm, Register::V3), 0x42);
}

#[test]
fn delay_timer_is_read_after_the_tick_of_the_cycle() {
    // V1 = 3; delay = V1; V2 = delay
    let mut vm = machine_with(&[0x61, 0x03, 0xF1, 0x15, 0xF2, 0x07]);

    assert_eq!(vm.execute_cycles(3), Ok(()));

    assert_eq!(reg(&vm, Register::V2), 2);
    assert_eq!(vm.delay_timer, 2);
}

#[test]
fn bcd_store_writes_three_digits_at_the_index_register() {
    let mut vm = get_vm();

    set(&mut vm, Register::V1, 234);
    vm.registers.set_i(Address::new(0x300));

    assert_eq!(vm.interpret_with(Instruction::LoadBCD(Register::V1), 0), Ok(false));

    assert_eq!(vm.memory.get(Address::new(0x300)), Byte::new(2));
    assert_eq!(vm.memory.get(Address::new(0x301)), Byte::new(3));
    assert_eq!(vm.memory.get(Address::new(0x302)), Byte::new(4));
    assert_eq!(vm.registers.get_i(), Address::new(0x300));
}

#[test]
fn bcd_store_wraps_at_the_end_of_memory() {
    let mut vm = get_vm();

    set(&mut vm, Register::V1, 159);
    vm.registers.set_i(Address::new(0xFFF));

    assert_eq!(vm.interpret_with(Instruction::LoadBCD(Register::V1), 0), Ok(false));

    assert_eq!(vm.memory.get(Address::new(0xFFF)), Byte::new(1));
    assert_eq!(vm.memory.get(Address::new(0x000)), Byte::new(5));
    assert_eq!(vm.memory.get(Address::new(0x001)), Byte::new(9));
}

#[test]
fn copy_to_ram_copies_the_registers_and_moves_the_index_register() {
    let mut vm = get_vm();

    for position in 0..16u8 {
        set(&mut vm, Register::new(position).unwrap(), 0x10 + position);
    }
    vm.registers.set_i(Address::new(0x300));

    assert_eq!(vm.interpret_with(Instruction::CopyToRam(Register::V2), 0), Ok(false));

    assert_eq!(vm.memory.get(Address::new(0x300)), Byte::new(0x10));
    assert_eq!(vm.memory.get(Address::new(0x301)), Byte::new(0x11));
    assert_eq!(vm.memory.get(Address::new(0x302)), Byte::new(0x12));
    assert_eq!(vm.memory.get(Address::new(0x303)), Byte::new(0));
    assert_eq!(vm.registers.get_i(), Address::new(0x303));

    assert_eq!(vm.interpret_with(Instruction::CopyToRam(Register::VF), 0), Ok(false));

    for position in 0..16u16 {
        assert_eq!(
            vm.memory.get(Address::new(0x303 + position)),
            Byte::new(0x10 + position as u8)
        );
    }
    assert_eq!(vm.registers.get_i(), Address::new(0x313));
}

#[test]
fn copy_to_registers_copies_memory_and_moves_the_index_register() {
    let mut vm = get_vm();

    for offset in 0..16u16 {
        vm.memory.set(Address::new(0x300 + offset), Byte::new(0x20 + offset as u8));
    }
    vm.registers.set_i(Address::new(0x300));
    set(&mut vm, Register::V3, 0x99);

    assert_eq!(vm.interpret_with(Instruction::CopyToRegisters(Register::V2), 0), Ok(false));

    assert_eq!(reg(&vm, Register::V0), 0x20);
    assert_eq!(reg(&vm, Register::V1), 0x21);
    assert_eq!(reg(&vm, Register::V2), 0x22);
    assert_eq!(reg(&vm, Register::V3), 0x99);
    assert_eq!(vm.registers.get_i(), Address::new(0x303));

    vm.registers.set_i(Address::new(0x300));

    assert_eq!(vm.interpret_with(Instruction::CopyToRegisters(Register::VF), 0), Ok(false));

    for position in 0..16u8 {
        assert_eq!(reg(&vm, Register::new(position).unwrap()), 0x20 + position);
    }
    assert_eq!(vm.registers.get_i(), Address::new(0x310));
}

#[test]
fn block_copies_up_to_the_last_cell_wrap_the_index_register() {
    let mut vm = get_vm();

    set(&mut vm, Register::V0, 0xAA);
    set(&mut vm, Register::V1, 0xBB);
    vm.registers.set_i(Address::new(0xFFE));

    assert_eq!(vm.interpret_with(Instruction::CopyToRam(Register::V1), 0), Ok(false));

    assert_eq!(vm.memory.get(Address::new(0xFFE)), Byte::new(0xAA));
    assert_eq!(vm.memory.get(Address::new(0xFFF)), Byte::new(0xBB));
    assert_eq!(vm.registers.get_i(), Address::new(0x000));
}

#[test]
fn block_copies_that_leave_memory_are_out_of_bounds() {
    // I = 0xFFE; copy V0..=V2 to memory
    let mut vm = machine_with(&[0xAF, 0xFE, 0xF2, 0x55]);

    set(&mut vm, Register::V0, 0xAA);

    assert_eq!(vm.execute_cycles(2), Err(Fault::OutOfBounds));

    assert_eq!(
        vm.fatal(Instruction::CopyToRam(Register::V2)),
        Some(Fault::OutOfBounds)
    );
    assert_eq!(
        vm.fatal(Instruction::CopyToRegisters(Register::V2)),
        Some(Fault::OutOfBounds)
    );
    assert_eq!(vm.fatal(Instruction::CopyToRam(Register::V1)), None);
    assert_eq!(vm.fatal(Instruction::CopyToRegisters(Register::V1)), None);
    assert_eq!(vm.memory.get(Address::new(0xFFE)), Byte::new(0));
    assert_eq!(vm.registers.get_i(), Address::new(0xFFE));
    assert_eq!(reg(&vm, Register::V0), 0xAA);
    assert_eq!(pc(&vm), 0x202);

    // I = 0xFFE; copy memory to V0..=V2
    let mut vm = machine_with(&[0xAF, 0xFE, 0xF2, 0x65]);

    assert_eq!(vm.execute_cycles(2), Err(Fault::OutOfBounds));
    assert_eq!(pc(&vm), 0x202);
}

#[test]
fn draw_reads_the_sprite_at_the_index_register_and_reports_collisions() {
    // I = glyph of 0; draw 5 rows at (V1, V2); draw again
    let mut vm = machine_with(&[0xA0, 0x00, 0xD1, 0x25, 0xD1, 0x25]);

    set(&mut vm, Register::V1, 4);
    set(&mut vm, Register::V2, 2);
    set(&mut vm, Register::VF, 9);

    assert_eq!(vm.execute_cycles(2), Ok(()));

    assert_eq!(reg(&vm, Register::VF), 0);
    {
        let lines = vm.get_framebuffer();

        assert_eq!(lines[0], 0);
        assert_eq!(lines[1], 0);
        assert_eq!(lines[2], 0xF0u64 << 52);
        assert_eq!(lines[3], 0x90u64 << 52);
        assert_eq!(lines[4], 0x90u64 << 52);
        assert_eq!(lines[5], 0x90u64 << 52);
        assert_eq!(lines[6], 0xF0u64 << 52);
        assert_eq!(lines[7], 0);
    }

    assert_eq!(vm.execute_cycles(1), Ok(()));

    assert_eq!(reg(&vm, Register::VF), 1);
    assert!(vm.get_framebuffer().iter().all(|line| *line == 0));
    assert_eq!(pc(&vm), 0x206);
}

#[test]
fn draw_of_no_rows_clears_the_flag() {
    let mut vm = get_vm();

    set(&mut vm, Register::VF, 9);

    assert_eq!(
        vm.interpret_with(Instruction::Draw(Register::V1, Register::V2, Nibble::new(0)), 0),
        Ok(false)
    );

    assert_eq!(reg(&vm, Register::VF), 0);
    assert!(vm.get_framebuffer().iter().all(|line| *line == 0));
}

#[test]
fn draw_past_the_end_of_memory_is_out_of_bounds() {
    // I = 0xFFC; draw 5 rows
    let mut vm = machine_with(&[0xAF, 0xFC, 0xD1, 0x25]);

    assert_eq!(vm.execute_cycles(2), Err(Fault::OutOfBounds));

    assert_eq!(pc(&vm), 0x202);
    assert!(vm.get_framebuffer().iter().all(|line| *line == 0));
    assert_eq!(
        vm.fatal(Instruction::Draw(Register::V1, Register::V2, Nibble::new(5))),
        Some(Fault::OutOfBounds)
    );
    assert_eq!(
        vm.fatal(Instruction::Draw(Register::V1, Register::V2, Nibble::new(4))),
        None
    );
    assert_eq!(
        vm.interpret_with(Instruction::Draw(Register::V1, Register::V2, Nibble::new(4)), 0),
        Ok(false)
    );
}

#[test]
fn draw_on_a_frame_buffer_without_rows_is_out_of_bounds() {
    let mut vm = VirtualMachine::new(
        Memory::new(),
        ProgramCounter::new(Address::new(0x200)),
        RegisterBank::new(),
        FrameBuffer::new(0),
        Keyboard::new(),
    );

    // draw 1 row
    assert_eq!(vm.load_rom(&[0xD1, 0x21]), Ok(()));
    assert_eq!(vm.execute(), Err(Fault::OutOfBounds));

    assert_eq!(
        vm.fatal(Instruction::Draw(Register::V1, Register::V2, Nibble::new(1))),
        Some(Fault::OutOfBounds)
    );
    assert_eq!(
        vm.fatal(Instruction::Draw(Register::V1, Register::V2, Nibble::new(0))),
        None
    );
    assert_eq!(
        vm.interpret_with(Instruction::Draw(Register::V1, Register::V2, Nibble::new(0)), 0),
        Ok(false)
    );
}

#[test]
fn invalid_instruction_is_a_fault_of_the_interpreter() {
    let mut vm = get_vm();

    assert_eq!(
        vm.interpret_with(Instruction::Invalid(0x8AB9), 0),
        Err(Fault::InvalidInstruction(0x8AB9))
    );
    assert_eq!(pc(&vm), 0x200);
}

#[test]
fn the_instruction_at_the_last_address_takes_its_second_byte_from_address_zero() {
    let mut vm = VirtualMachine::new(
        Memory::new(),
        ProgramCounter::new(Address::new(0xFFF)),
        RegisterBank::new(),
        FrameBuffer::new(32),
        Keyboard::new(),
    );

    // 0x61 at 0xFFF is followed by the first font byte, 0xF0, at 0x000.
    vm.memory.set(Address::new(0xFFF), Byte::new(0x61));

    assert_eq!(vm.execute(), Ok(()));

    assert_eq!(reg(&vm, Register::V1), 0xF0);
    assert_eq!(pc(&vm), 0x001);
}
