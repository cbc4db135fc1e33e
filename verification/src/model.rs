//! The abstract machine: the names of its registers, its state as a
//! mathematical object, and the interfaces of its components.
//!
//! Each component interface comes with a view, the component's contents
//! as a mathematical value, and an invariant `inv`, which the component's
//! constructor establishes and every operation keeps.

pub mod machine;
pub mod register;

use vstd::prelude::*;

use crate::data::address::wrapped_address;
use crate::data::byte::values;
use crate::data::{Address, Byte, Nibble};
use crate::framebuffer::utils::{collides, drawn};

pub use machine::{blank, Fault, Machine, Outcome, Registers};
pub use register::{Register, RegisterIterator};

verus! {

/// The main functionality of a virtual machine.
pub trait Chip8VirtualMachine {
    /// The frame buffer that the machine draws on.
    type FrameBuffer: Chip8FrameBuffer;

    spec fn view(&self) -> Machine;

    spec fn inv(&self) -> bool;

    /// A machine in good order has the shape of one.
    proof fn lemma_inv(&self)
        requires
            self.inv(),
        ensures
            self@.wf(),
    ;

    /// Executes up to `n` cycles.
    ///
    /// The run ends early at the first cycle that finds the machine
    /// paused or waiting for a key, and at the first fault, which it
    /// returns. The bytes that chance deals to the cycles are not known
    /// beforehand: the machine ends in the state that some sequence of
    /// `n` bytes leads to.
    fn execute_cycles(&mut self, n: usize) -> (result: Result<(), Fault>)
        requires
            old(self).inv(),
        ensures
            final(self).inv(),
            exists|randoms: Seq<u8>|
                randoms.len() == n && final(self)@ == (#[trigger] old(self)@.run(randoms)).0
                    && result == old(self)@.run(randoms).1.verdict(),
    ;

    /// Executes a single cycle.
    fn execute(&mut self) -> (result: Result<(), Fault>)
        requires
            old(self).inv(),
        ensures
            final(self).inv(),
            exists|random: u8|
                final(self)@ == (#[trigger] old(self)@.cycle(random)).0 && result == old(self)@.cycle(random).1.verdict(),
    ;

    /// Copies the program into memory, from the program counter on.
    ///
    /// A program that does not fit between the program counter and the
    /// end of memory is refused, and the machine stays as it is.
    fn load_rom(&mut self, data: &[u8]) -> (result: Result<(), Fault>)
        requires
            old(self).inv(),
        ensures
            final(self).inv(),
            old(self)@.pc() + data@.len() <= 4096 ==> result == Ok::<(), Fault>(()) && final(self)@ == old(self)@.load(data@),
            old(self)@.pc() + data@.len() > 4096 ==> result == Err::<(), Fault>(
                Fault::OutOfBounds,
            ) && final(self)@ == old(self)@,
    ;

    /// Returns the frame buffer.
    fn get_framebuffer(&self) -> (framebuffer: &Self::FrameBuffer)
        ensures
            framebuffer@ == self@.rows,
    ;

    /// Sets the key to pressed. Of `key` the low four bits count.
    fn press_key(&mut self, key: u8)
        requires
            old(self).inv(),
        ensures
            final(self).inv(),
            final(self)@ == (Machine { pressed: Some((key % 16) as u8), ..old(self)@ }),
    ;

    /// Releases the pressed key.
    fn release_keys(&mut self)
        requires
            old(self).inv(),
        ensures
            final(self).inv(),
            final(self)@ == (Machine { pressed: None, ..old(self)@ }),
    ;
}

/// A bank of sixteen byte registers and one index register.
pub trait Chip8RegisterBank {
    spec fn view(&self) -> Registers;

    spec fn inv(&self) -> bool;

    /// A bank in good order has sixteen registers.
    proof fn lemma_inv(&self)
        requires
            self.inv(),
        ensures
            self@.v.len() == 16,
    ;

    /// Returns the byte contained in the register.
    fn get_v(&self, r: Register) -> (byte: Byte)
        requires
            self.inv(),
        ensures
            byte@ == self@.v[r.ordinal()],
    ;

    /// Sets the byte for the register.
    fn set_v(&mut self, r: Register, b: Byte)
        requires
            old(self).inv(),
        ensures
            final(self).inv(),
            final(self)@ == old(self)@.set_v(r, b@),
    ;

    /// Returns the contents of the index register.
    fn get_i(&self) -> (address: Address)
        requires
            self.inv(),
        ensures
            address@ == self@.i,
    ;

    /// Sets the value of the index register.
    fn set_i(&mut self, a: Address)
        requires
            old(self).inv(),
        ensures
            final(self).inv(),
            final(self)@ == old(self)@.set_i(a@),
    ;
}

/// The memory that the machine addresses: 4096 cells.
pub trait Chip8Memory {
    spec fn view(&self) -> Seq<u8>;

    spec fn inv(&self) -> bool;

    /// A memory in good order has 4096 cells.
    proof fn lemma_inv(&self)
        requires
            self.inv(),
        ensures
            self@.len() == 4096,
    ;

    /// Gets the byte stored at the address.
    fn get(&self, address: Address) -> (byte: Byte)
        requires
            self.inv(),
        ensures
            byte@ == self@[address@ as int],
    ;

    /// Sets the value at an address.
    fn set(&mut self, address: Address, byte: Byte)
        requires
            old(self).inv(),
        ensures
            final(self).inv(),
            final(self)@ == old(self)@.update(address@ as int, byte@),
    ;

    /// Gets the `nibble` cells from `address` on. They have to lie inside
    /// memory.
    fn get_slice(&self, address: Address, nibble: Nibble) -> (slice: &[Byte])
        requires
            self.inv(),
            address@ + nibble@ <= 4096,
        ensures
            values(slice@) == self@.subrange(address@ as int, address@ + nibble@),
    ;
}

/// A monochrome bitmap, 64 pixels wide. Each row is one 64-bit scanline,
/// bit 63 the leftmost pixel; the view holds the top scanline first.
pub trait Chip8FrameBuffer: core::ops::Deref<Target = [u64]> + core::fmt::Debug {
    spec fn view(&self) -> Seq<u64>;

    spec fn inv(&self) -> bool;

    /// Draws a sprite with its top left corner at `(x, y)` and tells
    /// whether that turned a lit pixel dark. A sprite that has rows needs
    /// a buffer that has rows.
    fn draw(&mut self, x: Byte, y: Byte, sprite: &[Byte]) -> (collision: bool)
        requires
            old(self).inv(),
            sprite@.len() > 0 ==> old(self)@.len() > 0,
        ensures
            final(self).inv(),
            final(self)@ == drawn(old(self)@, x@, y@, values(sprite@)),
            collision == collides(old(self)@, x@, y@, values(sprite@)),
    ;

    /// Clears the buffer: every pixel goes dark.
    fn clear(&mut self)
        requires
            old(self).inv(),
        ensures
            final(self).inv(),
            final(self)@ == blank(old(self)@.len()),
    ;

    /// The scanlines, the top one first.
    fn lines(&self) -> (lines: &[u64])
        requires
            self.inv(),
        ensures
            lines@ == self@,
    ;
}

/// The current instruction address on top of a stack of return
/// addresses. The view holds the oldest frame first; there are between 1
/// and 16 frames.
pub trait Chip8ProgramCounter {
    spec fn view(&self) -> Seq<u16>;

    spec fn inv(&self) -> bool;

    /// A counter in good order has between 1 and 16 frames.
    proof fn lemma_inv(&self)
        requires
            self.inv(),
        ensures
            1 <= self@.len() <= 16,
    ;

    /// Gets the address of the currently executing instruction.
    fn current(&self) -> (address: Address)
        requires
            self.inv(),
        ensures
            address@ == self@.last(),
    ;

    /// Increments the program counter by 1.
    fn inc(&mut self)
        requires
            old(self).inv(),
        ensures
            final(self).inv(),
            final(self)@ == old(self)@.update(
                old(self)@.len() - 1,
                wrapped_address(old(self)@.last() + 1),
            ),
    ;

    /// Opens a frame for the subroutine at `addr`. There has to be room
    /// for it.
    fn to_subroutine(&mut self, addr: Address)
        requires
            old(self).inv(),
            old(self)@.len() < 16,
        ensures
            final(self).inv(),
            final(self)@ == old(self)@.push(addr@),
    ;

    /// Returns from the current routine: closes its frame. There has to
    /// be a frame to return to.
    fn rtrn(&mut self)
        requires
            old(self).inv(),
            old(self)@.len() > 1,
        ensures
            final(self).inv(),
            final(self)@ == old(self)@.drop_last(),
    ;

    /// Increments the program counter by the provided amount, wrapping
    /// past `0xFFF` to `0x000`.
    fn inc_by(&mut self, amt: Byte)
        requires
            old(self).inv(),
        ensures
            final(self).inv(),
            final(self)@ == old(self)@.update(
                old(self)@.len() - 1,
                wrapped_address(old(self)@.last() + amt@),
            ),
    ;

    /// Returns the depth of the stack.
    fn depth(&self) -> (depth: usize)
        requires
            self.inv(),
        ensures
            depth == self@.len(),
    ;

    /// Sets the address of the currently executing instruction.
    fn set(&mut self, addr: Address)
        requires
            old(self).inv(),
        ensures
            final(self).inv(),
            final(self)@ == old(self)@.update(old(self)@.len() - 1, addr@),
    ;
}

/// Opening a frame and closing it again leaves the stack as it was, and
/// with it the current address: a return undoes a call.
pub proof fn lemma_return_undoes_call(stack: Seq<u16>, addr: u16)
    requires
        stack.len() >= 1,
    ensures
        stack.push(addr).len() > 1,
        stack.push(addr).drop_last() == stack,
        stack.push(addr).drop_last().last() == stack.last(),
{
    assert(stack.push(addr).drop_last() =~= stack);
}

/// A keypad that remembers one key: the one pressed last.
pub trait Chip8Keyboard {
    spec fn view(&self) -> Option<u8>;

    /// Presses the key.
    fn press(&mut self, key: Nibble)
        ensures
            final(self)@ == Some(key@),
    ;

    /// Releases the key, whichever is held.
    fn release(&mut self, key: Nibble)
        ensures
            final(self)@ == None::<u8>,
    ;

    /// Returns a boolean indicating if the key is pressed.
    fn is_pressed(&self, key: Nibble) -> (pressed: bool)
        ensures
            pressed == (self@ == Some(key@)),
    ;

    /// Resets the keyboard so nothing is pressed.
    fn clear(&mut self)
        ensures
            final(self)@ == None::<u8>,
    ;
}

} // verus!
