//! The machine's memory.

use vstd::prelude::*;
use vstd::slice::slice_subrange;

use crate::data::byte::values;
use crate::data::{Address, Byte, Nibble};
use crate::model::Chip8Memory;

verus! {

/// A flat store of 4096 bytes.
pub struct Memory {
    store: [Byte; 4096],
}

impl Memory {
    /// Creates a memory with every cell at zero.
    pub fn new() -> (memory: Memory)
        ensures
            memory.inv(),
            memory@ == Seq::new(4096, |address: int| 0u8),
    {
        let memory = Memory { store: [Byte::new(0);4096] };
        assert(memory@ =~= Seq::new(4096, |address: int| 0u8));
        memory
    }
}

impl Chip8Memory for Memory {
    closed spec fn view(&self) -> Seq<u8> {
        values(self.store@)
    }

    closed spec fn inv(&self) -> bool {
        true
    }

    proof fn lemma_inv(&self) {
    }

    fn get(&self, addr: Address) -> (byte: Byte) {
        let addr = addr.get_raw() as usize;
        self.store[addr]
    }

    fn set(&mut self, addr: Address, byte: Byte) {
        let addr = addr.get_raw() as usize;
        self.store[addr] = byte;
        assert(self@ =~= old(self)@.update(addr as int, byte@));
    }

    fn get_slice(&self, address: Address, length: Nibble) -> (slice: &[Byte]) {
        let start: usize = address.get_raw() as usize;
        let length: usize = length.get_raw() as usize;
        let end = start + length;
        let slice = slice_subrange(self.store.as_slice(), start, end);
        assert(values(slice@) =~= self@.subrange(start as int, end as int));
        slice
    }
}

} // verus!
