use chip8::{Address, Byte, Chip8ProgramCounter, ProgramCounter};

#[test]
fn new_has_current_set_to_provided_value() {
    let pc = ProgramCounter::new(0x200.into());

    assert_eq!(pc.current(), 0x200.into());
}

#[test]
fn increment_increases_current_by_1() {
    let mut pc = ProgramCounter::new(0x200.into());

    pc.inc();

    let new_pc = 0x200 + 1;
    assert_eq!(pc.current(), new_pc.into());
}

#[test]
fn inc_by_increases_current_by_the_provided_amount() {
    let mut pc = ProgramCounter::new(0x200.into());

    pc.inc_by(5.into());

    assert_eq!(pc.current(), (0x200 + 5).into());
}

#[test]
fn new_has_depth_one() {
    let pc = ProgramCounter::new(Address::new(0x200));

    assert_eq!(pc.depth(), 1);
}

#[test]
fn call_then_return_restores_the_current_address() {
    let mut pc = ProgramCounter::new(Address::new(0x234));

    pc.to_subroutine(Address::new(0x400));

    assert_eq!(pc.current(), Address::new(0x400));
    assert_eq!(pc.depth(), 2);

    pc.rtrn();

    assert_eq!(pc.current(), Address::new(0x234));
    assert_eq!(pc.depth(), 1);
}

#[test]
fn the_stack_holds_sixteen_frames() {
    let mut pc = ProgramCounter::new(Address::new(0x200));

    for frame in 1..16u16 {
        pc.to_subroutine(Address::new(0x200 + 2 * frame));
    }

    assert_eq!(pc.depth(), 16);
    assert_eq!(pc.current(), Address::new(0x21E));

    for frame in (0..15u16).rev() {
        pc.rtrn();
        assert_eq!(pc.current(), Address::new(0x200 + 2 * frame));
    }

    assert_eq!(pc.depth(), 1);
}

#[test]
fn increments_wrap_at_the_end_of_the_address_space() {
    let mut pc = ProgramCounter::new(Address::new(0xFFF));

    pc.inc();

    assert_eq!(pc.current(), Address::new(0x000));

    let mut pc = ProgramCounter::new(Address::new(0xFFE));

    pc.inc_by(Byte::new(4));

    assert_eq!(pc.current(), Address::new(0x002));
}

#[test]
fn set_replaces_the_current_address_and_keeps_the_depth() {
    let mut pc = ProgramCounter::new(Address::new(0x200));

    pc.to_subroutine(Address::new(0x300));
    pc.set(Address::new(0x456));

    assert_eq!(pc.current(), Address::new(0x456));
    assert_eq!(pc.depth(), 2);

    pc.rtrn();

    assert_eq!(pc.current(), Address::new(0x200));
}
