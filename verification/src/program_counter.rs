//! The program counter and its call stack.

use vstd::prelude::*;

use crate::data::{Address, Byte};
use crate::model::Chip8ProgramCounter;

verus! {

/// The number of frames the call stack has room for.
pub const STACK_SIZE: usize = 16;

/// The address of the current instruction, on top of the addresses that
/// the routines below it go on at.
pub struct ProgramCounter {
    items: [Address; 16],
    pointer: usize,
}

impl ProgramCounter {
    /// Creates a program counter with one frame, at `initial`.
    pub fn new(initial: Address) -> (counter: ProgramCounter)
        ensures
            counter.inv(),
            counter@ == seq![initial@],
    {
        let mut this = ProgramCounter { items: [Address::new(0);16], pointer: 0 };
        this.items[this.pointer] = initial;
        assert(this@ =~= seq![initial@]);
        this
    }
}

impl Chip8ProgramCounter for ProgramCounter {
    closed spec fn view(&self) -> Seq<u16> {
        Seq::new((self.pointer + 1) as nat, |frame: int| self.items@[frame]@)
    }

    closed spec fn inv(&self) -> bool {
        self.pointer < STACK_SIZE
    }

    proof fn lemma_inv(&self) {
    }

    fn current(&self) -> (address: Address) {
        self.items[self.pointer]
    }

    fn inc(&mut self) {
        let next = self.items[self.pointer] + 1u16;
        self.items[self.pointer] = next;
        assert(self@ =~= old(self)@.update(old(self)@.len() - 1, next@));
    }

    fn to_subroutine(&mut self, new_ptr: Address) {
        self.pointer += 1;
        self.items[self.pointer] = new_ptr;
        assert(self@ =~= old(self)@.push(new_ptr@));
    }

    fn rtrn(&mut self) {
        self.pointer -= 1;
        assert(self@ =~= old(self)@.drop_last());
    }

    fn inc_by(&mut self, amt: Byte) {
        let next = self.items[self.pointer] + amt;
        self.items[self.pointer] = next;
        assert(self@ =~= old(self)@.update(old(self)@.len() - 1, next@));
    }

    fn depth(&self) -> (depth: usize) {
        self.pointer + 1
    }

    fn set(&mut self, new_pc: Address) {
        self.items[self.pointer] = new_pc;
        assert(self@ =~= old(self)@.update(old(self)@.len() - 1, new_pc@));
    }
}

} // verus!
