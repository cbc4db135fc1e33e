//! The machine's registers.

use vstd::prelude::*;

use crate::data::byte::values;
use crate::data::{Address, Byte};
use crate::model::{Chip8RegisterBank, Register, Registers};

verus! {

/// Sixteen byte registers and the index register.
pub struct RegisterBank {
    store: [Byte; 16],
    i: Address,
}

impl RegisterBank {
    /// Creates a bank with every register at zero.
    pub fn new() -> (bank: RegisterBank)
        ensures
            bank.inv(),
            bank@.v == Seq::new(16, |register: int| 0u8),
            bank@.i == 0,
    {
        let bank = RegisterBank { store: [Byte::new(0);16], i: Address::new(0) };
        assert(bank@.v =~= Seq::new(16, |register: int| 0u8));
        bank
    }
}

impl Chip8RegisterBank for RegisterBank {
    closed spec fn view(&self) -> Registers {
        Registers { v: values(self.store@), i: self.i@ }
    }

    closed spec fn inv(&self) -> bool {
        true
    }

    proof fn lemma_inv(&self) {
    }

    fn get_v(&self, r: Register) -> (byte: Byte) {
        self.store[r.index()]
    }

    fn set_v(&mut self, r: Register, b: Byte) {
        let index = r.index();
        self.store[index] = b;
        assert(self@.v =~= old(self)@.v.update(r.ordinal(), b@));
    }

    fn get_i(&self) -> (address: Address) {
        self.i
    }

    fn set_i(&mut self, addr: Address) {
        self.i = addr;
    }
}

} // verus!
