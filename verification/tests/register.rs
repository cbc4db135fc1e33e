use chip8::Register::{V0, V1, V2};
use chip8::{Register, RegisterIterator};

#[test]
fn register_iterator_test() {
    let mut iter = RegisterIterator::new(V2);

    assert_eq!(iter.next(), Some(V0));
    assert_eq!(iter.next(), Some(V1));
    assert_eq!(iter.next(), Some(V2));
    assert_eq!(iter.next(), None);

    let mut iter = RegisterIterator::new(V0);

    assert_eq!(iter.next(), Some(V0));
    assert_eq!(iter.next(), None);
}

#[test]
fn register_new_generates_correct_register_name() {
    assert_eq!(Register::new(0x0).unwrap(), Register::V0);
    assert_eq!(Register::new(0x1).unwrap(), Register::V1);
    assert_eq!(Register::new(0x2).unwrap(), Register::V2);
    assert_eq!(Register::new(0x3).unwrap(), Register::V3);
    assert_eq!(Register::new(0x4).unwrap(), Register::V4);
    assert_eq!(Register::new(0x5).unwrap(), Register::V5);
    assert_eq!(Register::new(0x6).unwrap(), Register::V6);
    assert_eq!(Register::new(0x7).unwrap(), Register::V7);
    assert_eq!(Register::new(0x8).unwrap(), Register::V8);
    assert_eq!(Register::new(0x9).unwrap(), Register::V9);
    assert_eq!(Register::new(0xA).unwrap(), Register::VA);
    assert_eq!(Register::new(0xB).unwrap(), Register::VB);
    assert_eq!(Register::new(0xC).unwrap(), Register::VC);
    assert_eq!(Register::new(0xD).unwrap(), Register::VD);
    assert_eq!(Register::new(0xE).unwrap(), Register::VE);
    assert_eq!(Register::new(0xF).unwrap(), Register::VF);
}

#[test]
fn register_compare() {
    let reg1 = Register::V0;
    let reg2 = Register::V1;

    assert_eq!(reg1.compare(reg2), -1);
    assert_eq!(reg2.compare(reg1), 1);
    assert_eq!(reg1.compare(reg1), 0);
}

#[test]
fn register_new_rejects_bytes_above_fifteen() {
    assert_eq!(Register::new(0x10), Err(String::from("Invalid register")));
    assert_eq!(Register::new(0xFF), Err(String::from("Invalid register")));
}

#[test]
fn register_index_is_its_position() {
    for position in 0..16u8 {
        let register = Register::new(position).unwrap();
        let converted: usize = register.into();

        assert_eq!(register.index(), position as usize);
        assert_eq!(converted, position as usize);
    }
}

#[test]
fn iteration_visits_the_registers_up_to_the_last_in_ascending_order() {
    for position in 0..16u8 {
        let last = Register::new(position).unwrap();
        let mut iter = Register::iter_to(last);
        let mut visited = Vec::new();

        while let Some(register) = iter.next() {
            visited.push(register);
        }

        assert_eq!(visited.len(), position as usize + 1);
        assert_eq!(visited[0], Register::V0);
        for (at, register) in visited.iter().enumerate() {
            assert_eq!(register.index(), at);
        }
        assert_eq!(iter.next(), None);
    }
}

#[test]
fn iteration_to_the_flag_register_visits_all_sixteen() {
    let mut iter = Register::iter_to(Register::VF);
    let mut count = 0;

    while let Some(register) = iter.next() {
        assert_eq!(register.index(), count);
        count += 1;
    }

    assert_eq!(count, 16);
}
