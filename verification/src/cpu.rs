//! The execution engine.

pub mod vm_state;

use rand::Rng;
use vstd::prelude::*;

use crate::data::byte::values;
use crate::data::{Address, Byte, Nibble};
use crate::instruction::{decode, Instruction};
use crate::model::machine::overlaid;
use crate::model::register::registers_through;
use crate::model::{
    Chip8FrameBuffer, Chip8Keyboard, Chip8Memory, Chip8ProgramCounter, Chip8RegisterBank,
    Chip8VirtualMachine, Fault, Machine, Outcome, Register,
};

pub use vm_state::VMState;

verus! {

/// The built-in font: the glyphs of the hexadecimal digits `0` to `F`,
/// five bytes each, in the order of the digits.
pub const FONTS: [u8; 80] = [
    0xF0, 0x90, 0x90, 0x90, 0xF0,
    0x20, 0x60, 0x20, 0x20, 0x70,
    0xF0, 0x10, 0xF0, 0x80, 0xF0,
    0xF0, 0x10, 0xF0, 0x10, 0xF0,
    0x90, 0x90, 0xF0, 0x10, 0x10,
    0xF0, 0x80, 0xF0, 0x10, 0xF0,
    0xF0, 0x80, 0xF0, 0x90, 0xF0,
    0xF0, 0x10, 0x20, 0x40, 0x40,
    0xF0, 0x90, 0xF0, 0x90, 0xF0,
    0xF0, 0x90, 0xF0, 0x10, 0xF0,
    0xF0, 0x90, 0xF0, 0x90, 0x90,
    0xE0, 0x90, 0xE0, 0x90, 0xE0,
    0xF0, 0x80, 0x80, 0x80, 0xF0,
    0xE0, 0x90, 0x90, 0x90, 0xE0,
    0xF0, 0x80, 0xF0, 0x80, 0xF0,
    0xF0, 0x80, 0xF0, 0x80, 0x80,
];

/// A virtual machine, put together from one implementation of each
/// component.
pub struct VirtualMachine<
    M: Chip8Memory,
    PC: Chip8ProgramCounter,
    R: Chip8RegisterBank,
    FB: Chip8FrameBuffer,
    KB: Chip8Keyboard,
> {
    pub memory: M,
    pub pc: PC,
    pub registers: R,
    pub framebuffer: FB,
    pub keyboard: KB,
    pub state: VMState,
    pub delay_timer: u8,
    pub sound_timer: u8,
}

/// Draws a byte from the thread's random number generator: `thread_rng`
/// and `Rng::gen` of `rand`. Nothing is known of the byte beforehand.
/// The generator takes its seed from the operating system, at the first
/// draw in a thread and again whenever it has handed out its share of
/// bytes; it ends the program if that source fails, at either time.
#[verifier::external_body]
fn random_byte() -> u8 {
    rand::thread_rng().gen()
}

/// A shift to the right by one place halves.
proof fn lemma_shift_right(x: u8)
    by (bit_vector)
    ensures
        x >> 1 == x / 2,
{
}

/// A shift to the left by one place doubles, modulo 256.
proof fn lemma_shift_left(x: u8)
    by (bit_vector)
    ensures
        (x << 1) as int == (x * 2) % 256,
{
}

/// Two bytes joined into a word, the high byte first.
proof fn lemma_word(high: u8, low: u8)
    by (bit_vector)
    ensures
        (high as u16) << 8 | (low as u16) == high * 256 + low,
{
}

impl<M, PC, R, FB, KB> VirtualMachine<M, PC, R, FB, KB> where
    M: Chip8Memory,
    PC: Chip8ProgramCounter,
    R: Chip8RegisterBank,
    FB: Chip8FrameBuffer,
    KB: Chip8Keyboard,
 {
    /// Constructs a machine from its components and stores the built-in
    /// font in the first 80 memory cells. The components keep what they
    /// hold otherwise; both timers start at zero.
    pub fn new(memory: M, pc: PC, registers: R, framebuffer: FB, keyboard: KB) -> (vm: Self)
        requires
            memory.inv(),
            pc.inv(),
            registers.inv(),
            framebuffer.inv(),
        ensures
            vm.inv(),
            vm@ == (Machine {
                memory: overlaid(memory@, 0, FONTS@),
                stack: pc@,
                v: registers@.v,
                i: registers@.i,
                rows: framebuffer@,
                pressed: keyboard@,
                state: VMState::Initializing,
                delay_timer: 0,
                sound_timer: 0,
            }),
    {
        let ghost initial = memory@;
        let mut vm = VirtualMachine {
            memory,
            pc,
            registers,
            framebuffer,
            keyboard,
            state: VMState::Initializing,
            delay_timer: 0,
            sound_timer: 0,
        };
        proof {
            vm.memory.lemma_inv();
            assert(vm.memory@ =~= overlaid(initial, 0, FONTS@.take(0)));
        }

        let mut i: usize = 0;
        while i < FONTS.len()
            invariant
                i <= 80,
                initial.len() == 4096,
                vm.memory.inv(),
                vm.memory@ == overlaid(initial, 0, FONTS@.take(i as int)),
                vm.pc == pc,
                vm.registers == registers,
                vm.framebuffer == framebuffer,
                vm.keyboard == keyboard,
                vm.state == VMState::Initializing,
                vm.delay_timer == 0,
                vm.sound_timer == 0,
            decreases 80 - i,
        {
            let byte = FONTS[i];
            let addr = Address::new(i as u16);

            vm.memory.set(addr, Byte::new(byte));
            assert(vm.memory@ =~= overlaid(initial, 0, FONTS@.take(i + 1)));
            i += 1;
        }
        assert(FONTS@.take(80) =~= FONTS@);

        vm
    }

    /// Gets the instruction at the program counter.
    fn get_instr(&self) -> (instruction: Instruction)
        requires
            self.inv(),
        ensures
            instruction == decode(self@.fetch()),
    {
        let pc_addr = self.pc.current();
        let left: u8 = self.memory.get(pc_addr).get_raw();
        let right: u8 = self.memory.get(pc_addr + 1u16).get_raw();
        proof {
            lemma_word(left, right);
        }

        Instruction::new((left as u16) << 8 | (right as u16))
    }

    /// Sets the flag register `VF`.
    fn set_carry(&mut self, value: u8)
        requires
            old(self).inv(),
        ensures
            final(self).inv(),
            final(self)@ == old(self)@.set_carry(value),
    {
        self.set_reg(Register::VF, Byte::new(value));
    }

    /// Sets the value of the register.
    fn set_reg(&mut self, r: Register, value: Byte)
        requires
            old(self).inv(),
        ensures
            final(self).inv(),
            final(self)@ == old(self)@.set_reg(r, value@),
    {
        self.registers.set_v(r, value);
    }

    /// Returns the contents of the register.
    fn get_reg(&self, r: Register) -> (value: Byte)
        requires
            self.inv(),
        ensures
            value@ == self@.reg(r),
    {
        self.registers.get_v(r)
    }

    /// Returns the contents of two registers.
    fn get_regs(&self, rx: Register, ry: Register) -> (values: (Byte, Byte))
        requires
            self.inv(),
        ensures
            values.0@ == self@.reg(rx),
            values.1@ == self@.reg(ry),
    {
        (self.get_reg(rx), self.get_reg(ry))
    }

    /// Moves the program counter on by one instruction.
    fn inc_pc(&mut self)
        requires
            old(self).inv(),
        ensures
            final(self).inv(),
            final(self)@ == old(self)@.advance(2),
    {
        self.pc.inc_by(Byte::new(2));
    }

    /// Returns a flag indicating if the machine waits for a key that is
    /// not pressed.
    fn is_waiting(&self) -> (waiting: bool)
        requires
            self.inv(),
        ensures
            waiting == self@.waiting(),
    {
        if let VMState::WaitingForKey(Some(n)) = self.state {
            !self.keyboard.is_pressed(n)
        } else {
            false
        }
    }

    /// Returns a flag indicating if the machine is paused.
    fn is_paused(&self) -> (paused: bool)
        ensures
            paused == self@.paused(),
    {
        self.state == VMState::Paused
    }

    /// Decrements the delay and sound timers, unless they are at zero.
    fn decrement_timers(&mut self)
        requires
            old(self).inv(),
        ensures
            final(self).inv(),
            final(self)@ == old(self)@.tick(),
    {
        if self.delay_timer > 0 {
            self.delay_timer -= 1;
        }
        if self.sound_timer > 0 {
            self.sound_timer -= 1;
        }
    }

    /// Moves the program counter past the next instruction if
    /// `condition` holds, and says whether it did.
    fn skip_if(&mut self, condition: bool) -> (redirected: bool)
        requires
            old(self).inv(),
        ensures
            final(self).inv(),
            final(self)@ == old(self)@.skip_if(condition),
            redirected == condition,
    {
        if condition {
            proof {
                self.pc.lemma_inv();
            }
            self.inc_pc();
            self.inc_pc();
            assert(self@.stack =~= old(self)@.advance(4).stack);
        }
        condition
    }

    /// Draws the sprite of `height` rows that the index register points
    /// at, at the position that `vx` and `vy` hold, and reports a
    /// collision in `VF`.
    fn draw_sprite(&mut self, vx: Register, vy: Register, height: Nibble)
        requires
            old(self).inv(),
            old(self)@.fatal(Instruction::Draw(vx, vy, height)) is None,
        ensures
            final(self).inv(),
            final(self)@ == old(self)@.effect(Instruction::Draw(vx, vy, height), 0),
    {
        let (x, y) = self.get_regs(vx, vy);
        let i = self.registers.get_i();
        let mem_slice = self.memory.get_slice(i, height);
        proof {
            self.memory.lemma_inv();
            assert(values(mem_slice@).len() == mem_slice@.len());
        }

        if self.framebuffer.draw(x, y, mem_slice) {
            self.set_carry(1);
        } else {
            self.set_carry(0);
        }
    }

    /// Copies the registers `V0` to `last` into memory at the index
    /// register and moves the index register past the copy.
    fn copy_to_ram(&mut self, last: Register)
        requires
            old(self).inv(),
            old(self)@.fatal(Instruction::CopyToRam(last)) is None,
        ensures
            final(self).inv(),
            final(self)@ == old(self)@.effect(Instruction::CopyToRam(last), 0),
    {
        let i = self.registers.get_i();
        proof {
            self.memory.lemma_inv();
            self.registers.lemma_inv();
            last.lemma_ordinal();
            assert(self.memory@ =~= overlaid(old(self)@.memory, i@ as int, old(self)@.v.take(0)));
        }

        let mut iter = Register::iter_to(last);
        let ghost mut copied: int = 0;
        loop
            invariant
                self.inv(),
                0 <= copied <= last.ordinal() + 1,
                i@ + last.ordinal() + 1 <= 4096,
                iter@ == registers_through(last).skip(copied),
                old(self)@.memory.len() == 4096,
                old(self)@.v.len() == 16,
                self.memory@ == overlaid(old(self)@.memory, i@ as int, old(self)@.v.take(copied)),
                self.pc == old(self).pc,
                self.registers == old(self).registers,
                self.framebuffer == old(self).framebuffer,
                self.keyboard == old(self).keyboard,
                self.state == old(self).state,
                self.delay_timer == old(self).delay_timer,
                self.sound_timer == old(self).sound_timer,
            ensures
                copied == last.ordinal() + 1,
            decreases iter@.len(),
        {
            match iter.next() {
                Some(reg) => {
                    proof {
                        Register::lemma_at(copied);
                    }
                    let value = self.registers.get_v(reg);
                    let addr = i + (reg.index() as u16);

                    self.memory.set(addr, value);
                    proof {
                        assert(self.memory@ =~= overlaid(
                            old(self)@.memory,
                            i@ as int,
                            old(self)@.v.take(copied + 1),
                        ));
                        assert(registers_through(last).skip(copied).skip(1) =~= registers_through(
                            last,
                        ).skip(copied + 1));
                        copied = copied + 1;
                    }
                },
                None => {
                    break ;
                },
            }
        }

        self.registers.set_i(i + (last.index() as u16 + 1));
    }

    /// Copies memory at the index register into the registers `V0` to
    /// `last` and moves the index register past what was copied.
    fn copy_to_registers(&mut self, last: Register)
        requires
            old(self).inv(),
            old(self)@.fatal(Instruction::CopyToRegisters(last)) is None,
        ensures
            final(self).inv(),
            final(self)@ == old(self)@.effect(Instruction::CopyToRegisters(last), 0),
    {
        let i = self.registers.get_i();
        let ghost block = old(self)@.memory.subrange(i@ as int, i@ + last.ordinal() + 1);
        proof {
            self.memory.lemma_inv();
            self.registers.lemma_inv();
            last.lemma_ordinal();
            assert(self.registers@.v =~= overlaid(old(self)@.v, 0, block.take(0)));
        }

        let mut iter = Register::iter_to(last);
        let ghost mut copied: int = 0;
        loop
            invariant
                self.inv(),
                0 <= copied <= last.ordinal() + 1,
                i@ + last.ordinal() + 1 <= 4096,
                iter@ == registers_through(last).skip(copied),
                old(self)@.memory.len() == 4096,
                old(self)@.v.len() == 16,
                block == old(self)@.memory.subrange(i@ as int, i@ + last.ordinal() + 1),
                self.registers@.v == overlaid(old(self)@.v, 0, block.take(copied)),
                self.registers@.i == i@,
                self.memory == old(self).memory,
                self.pc == old(self).pc,
                self.framebuffer == old(self).framebuffer,
                self.keyboard == old(self).keyboard,
                self.state == old(self).state,
                self.delay_timer == old(self).delay_timer,
                self.sound_timer == old(self).sound_timer,
            ensures
                copied == last.ordinal() + 1,
            decreases iter@.len(),
        {
            match iter.next() {
                Some(reg) => {
                    proof {
                        Register::lemma_at(copied);
                    }
                    let value = self.memory.get(i + (reg.index() as u16));

                    self.registers.set_v(reg, value);
                    proof {
                        assert(self.registers@.v =~= overlaid(
                            old(self)@.v,
                            0,
                            block.take(copied + 1),
                        ));
                        assert(registers_through(last).skip(copied).skip(1) =~= registers_through(
                            last,
                        ).skip(copied + 1));
                        copied = copied + 1;
                    }
                },
                None => {
                    break ;
                },
            }
        }
        proof {
            assert(block.take(copied) =~= block);
        }

        self.registers.set_i(i + (last.index() as u16 + 1));
    }

    /// Performs a jump, a call or a return.
    fn transfer_control(&mut self, instruction: Instruction)
        requires
            old(self).inv(),
            old(self)@.fatal(instruction) is None,
            instruction is Return || instruction is Jump || instruction is Call
                || instruction is JumpPlus,
        ensures
            final(self).inv(),
            final(self)@ == old(self)@.effect(instruction, 0),
    {
        proof {
            self.lemma_inv();
        }
        match instruction {
            Instruction::Return => {
                self.pc.rtrn();
            },
            Instruction::Jump(addr) => {
                self.pc.set(addr);
            },
            Instruction::Call(addr) => {
                self.inc_pc();
                self.pc.to_subroutine(addr);
            },
            Instruction::JumpPlus(addr) => {
                let summand = self.get_reg(Register::V0);
                let addr = addr + (summand.get_raw() as u16);
                self.pc.set(addr);
            },
            _ => {},
        }
    }

    /// Performs a conditional skip.
    fn skip(&mut self, instruction: Instruction) -> (redirected: bool)
        requires
            old(self).inv(),
            instruction is SkipEqualByte || instruction is SkipNotEqualByte
                || instruction is SkipEqualReg || instruction is SkipNotEqualReg
                || instruction is SkipPressed || instruction is SkipNotPressed,
        ensures
            final(self).inv(),
            final(self)@ == old(self)@.effect(instruction, 0),
            redirected == old(self)@.redirects(instruction),
    {
        let condition = match instruction {
            Instruction::SkipEqualByte(vx, byte) => {
                let contents = self.get_reg(vx);
                contents.get_raw() == byte.get_raw()
            },
            Instruction::SkipNotEqualByte(vx, byte) => {
                let contents = self.get_reg(vx);
                contents.get_raw() != byte.get_raw()
            },
            Instruction::SkipEqualReg(vx, vy) => {
                let (x, y) = self.get_regs(vx, vy);
                x.get_raw() == y.get_raw()
            },
            Instruction::SkipNotEqualReg(vx, vy) => {
                let (x, y) = self.get_regs(vx, vy);
                x.get_raw() != y.get_raw()
            },
            Instruction::SkipPressed(vx) => {
                let key = self.registers.get_v(vx);
                let n = Nibble::new(key.get_raw());
                self.keyboard.is_pressed(n)
            },
            Instruction::SkipNotPressed(vx) => {
                let key = self.registers.get_v(vx);
                let n = Nibble::new(key.get_raw());
                !self.keyboard.is_pressed(n)
            },
            _ => false,
        };
        self.skip_if(condition)
    }

    /// Performs an instruction that computes a register's new value from
    /// registers and literals.
    fn compute(&mut self, instruction: Instruction, random: u8)
        requires
            old(self).inv(),
            instruction is Load || instruction is Add || instruction is LoadFromReg
                || instruction is Or || instruction is And || instruction is XOr
                || instruction is AddReg || instruction is SubReg || instruction is ShiftRight
                || instruction is ReverseSub || instruction is ShiftLeft || instruction is Rand,
        ensures
            final(self).inv(),
            final(self)@ == old(self)@.effect(instruction, random),
    {
        match instruction {
            Instruction::Load(vx, byte) => {
                self.set_reg(vx, byte);
            },
            Instruction::Add(vx, byte) => {
                let contents = self.get_reg(vx);
                self.set_reg(vx, contents.wrapping_add(byte));
            },
            Instruction::LoadFromReg(vx, vy) => {
                let y = self.get_reg(vy);
                self.set_reg(vx, y);
            },
            Instruction::Or(vx, vy) => {
                let (x, y) = self.get_regs(vx, vy);
                proof {
                    Byte::lemma_of(x@ | y@);
                }
                self.set_reg(vx, x | y);
            },
            Instruction::And(vx, vy) => {
                let (x, y) = self.get_regs(vx, vy);
                proof {
                    Byte::lemma_of(x@ & y@);
                }
                self.set_reg(vx, x & y);
            },
            Instruction::XOr(vx, vy) => {
                let (x, y) = self.get_regs(vx, vy);
                proof {
                    Byte::lemma_of(x@ ^ y@);
                }
                self.set_reg(vx, x ^ y);
            },
            Instruction::AddReg(vx, vy) => {
                let (x, y) = self.get_regs(vx, vy);
                self.set_reg(vx, x.wrapping_add(y));
            },
            Instruction::SubReg(vx, vy) => {
                let (x, y) = self.get_regs(vx, vy);
                if x.get_raw() > y.get_raw() {
                    self.set_carry(1);
                }
                self.set_reg(vx, x.wrapping_sub(y));
            },
            Instruction::ShiftRight(vx) => {
                let x = self.get_reg(vx);
                self.set_carry(x.get_lsb());
                proof {
                    lemma_shift_right(x@);
                    Byte::lemma_of(x@ >> 1u8);
                }
                self.set_reg(vx, x >> 1);
            },
            Instruction::ReverseSub(vx, vy) => {
                let (x, y) = self.get_regs(vx, vy);
                if y.get_raw() > x.get_raw() {
                    self.set_carry(1);
                } else {
                    self.set_carry(0);
                }
                self.set_reg(vx, y.wrapping_sub(x));
            },
            Instruction::ShiftLeft(vx) => {
                let x = self.get_reg(vx);
                self.set_carry(x.get_msb());
                proof {
                    lemma_shift_left(x@);
                    Byte::lemma_of(x@ << 1u8);
                }
                self.set_reg(vx, x << 1);
            },
            Instruction::Rand(vx, byte) => {
                let n = Byte::new(random);
                proof {
                    Byte::lemma_of(random & byte@);
                }
                self.set_reg(vx, n & byte);
            },
            _ => {},
        }
    }

    /// Performs an instruction that serves the timers, the index
    /// register or the wait for a key.
    fn serve(&mut self, instruction: Instruction)
        requires
            old(self).inv(),
            instruction is LoadInstr || instruction is LoadDelayTimer || instruction is WaitForKey
                || instruction is SetDelayTimer || instruction is SetSoundTimer
                || instruction is IncrementAddress || instruction is LoadSpriteAddress
                || instruction is LoadBCD,
        ensures
            final(self).inv(),
            final(self)@ == old(self)@.effect(instruction, 0),
    {
        match instruction {
            Instruction::LoadInstr(addr) => {
                self.registers.set_i(addr);
            },
            Instruction::LoadDelayTimer(vx) => {
                self.registers.set_v(vx, Byte::new(self.delay_timer));
            },
            Instruction::WaitForKey(vx) => {
                let digit = self.registers.get_v(vx).get_raw();
                let nib = Nibble::new(digit);
                self.state = VMState::WaitingForKey(Some(nib));
            },
            Instruction::SetDelayTimer(vx) => {
                self.delay_timer = self.registers.get_v(vx).get_raw();
            },
            Instruction::SetSoundTimer(vx) => {
                self.sound_timer = self.registers.get_v(vx).get_raw();
            },
            Instruction::IncrementAddress(vx) => {
                let i = self.registers.get_i();
                let b = self.registers.get_v(vx);
                self.registers.set_i(i + b);
            },
            Instruction::LoadSpriteAddress(vx) => {
                // The glyphs lie at the start of memory, five bytes each,
                // in the order of the digits.
                let byte = self.registers.get_v(vx);
                let digit: u16 = Nibble::new(byte.get_raw()).get_raw() as u16;
                let address = Address::new(digit * 5);
                self.registers.set_i(address)
            },
            Instruction::LoadBCD(vx) => {
                let x = self.registers.get_v(vx);
                let i = self.registers.get_i();
                let (h, t, o) = x.get_bcd_rep();

                self.memory.set(i, Byte::new(h));
                self.memory.set(i + 1u16, Byte::new(t));
                self.memory.set(i + 2u16, Byte::new(o));
            },
            _ => {},
        }
    }

    /// Tells the fatal fault that keeps the machine from executing
    /// `instruction`, if there is one.
    pub fn fatal(&self, instruction: Instruction) -> (fault: Option<Fault>)
        requires
            self.inv(),
        ensures
            fault == self@.fatal(instruction),
    {
        match instruction {
            Instruction::Return => {
                if self.pc.depth() <= 1 {
                    Some(Fault::StackUnderflow)
                } else {
                    None
                }
            },
            Instruction::Call(_) => {
                if self.pc.depth() >= 16 {
                    Some(Fault::StackOverflow)
                } else {
                    None
                }
            },
            Instruction::Draw(_, _, height) => {
                let i = self.registers.get_i();
                if i.get_raw() as usize + height.get_raw() as usize > 4096 {
                    Some(Fault::OutOfBounds)
                } else if height.get_raw() > 0 && self.framebuffer.lines().len() == 0 {
                    Some(Fault::OutOfBounds)
                } else {
                    None
                }
            },
            Instruction::CopyToRam(last) | Instruction::CopyToRegisters(last) => {
                let i = self.registers.get_i();
                if i.get_raw() as usize + last.index() + 1 > 4096 {
                    Some(Fault::OutOfBounds)
                } else {
                    None
                }
            },
            _ => None,
        }
    }

    /// Performs the instruction, with `random` as the byte that chance
    /// contributes. Returns a flag indicating if the instruction has set
    /// the program counter itself, or reports the instruction as invalid.
    ///
    /// No fatal fault may keep the machine from executing the
    /// instruction; `fatal` tells whether one does.
    pub fn interpret_with(&mut self, instruction: Instruction, random: u8) -> (result: Result<
        bool,
        Fault,
    >)
        requires
            old(self).inv(),
            old(self)@.fatal(instruction) is None,
        ensures
            final(self).inv(),
            old(self)@.interpret(instruction, random) == (final(self)@, result),
    {
        match instruction {
            Instruction::Sys(_addr) => {
                // This is purposely left without effect.
                Ok(false)
            },
            Instruction::Invalid(instr) => Err(Fault::InvalidInstruction(instr)),
            Instruction::Cls => {
                self.framebuffer.clear();
                Ok(false)
            },
            Instruction::Return
            | Instruction::Jump(_)
            | Instruction::Call(_)
            | Instruction::JumpPlus(_) => {
                self.transfer_control(instruction);
                Ok(true)
            },
            Instruction::SkipEqualByte(_, _)
            | Instruction::SkipNotEqualByte(_, _)
            | Instruction::SkipEqualReg(_, _)
            | Instruction::SkipNotEqualReg(_, _)
            | Instruction::SkipPressed(_)
            | Instruction::SkipNotPressed(_) => Ok(self.skip(instruction)),
            Instruction::Load(_, _)
            | Instruction::Add(_, _)
            | Instruction::LoadFromReg(_, _)
            | Instruction::Or(_, _)
            | Instruction::And(_, _)
            | Instruction::XOr(_, _)
            | Instruction::AddReg(_, _)
            | Instruction::SubReg(_, _)
            | Instruction::ShiftRight(_)
            | Instruction::ReverseSub(_, _)
            | Instruction::ShiftLeft(_)
            | Instruction::Rand(_, _) => {
                self.compute(instruction, random);
                Ok(false)
            },
            Instruction::Draw(vx, vy, nibble) => {
                self.draw_sprite(vx, vy, nibble);
                Ok(false)
            },
            Instruction::LoadInstr(_)
            | Instruction::LoadDelayTimer(_)
            | Instruction::WaitForKey(_)
            | Instruction::SetDelayTimer(_)
            | Instruction::SetSoundTimer(_)
            | Instruction::IncrementAddress(_)
            | Instruction::LoadSpriteAddress(_)
            | Instruction::LoadBCD(_) => {
                self.serve(instruction);
                Ok(false)
            },
            Instruction::CopyToRam(vx) => {
                self.copy_to_ram(vx);
                Ok(false)
            },
            Instruction::CopyToRegisters(vx) => {
                self.copy_to_registers(vx);
                Ok(false)
            },
        }
    }

    /// Performs the instruction. Returns a flag indicating if the
    /// instruction has set the program counter itself, or reports the
    /// instruction as invalid.
    ///
    /// `Rand` takes its byte from the random number generator, so that
    /// the outcome is the one that `interpret_with` has for some byte.
    /// No fatal fault may keep the machine from executing the
    /// instruction; `fatal` tells whether one does.
    pub fn interpret_instruction(&mut self, instruction: Instruction) -> (result: Result<
        bool,
        Fault,
    >)
        requires
            old(self).inv(),
            old(self)@.fatal(instruction) is None,
        ensures
            final(self).inv(),
            exists|random: u8|
                #[trigger] old(self)@.interpret(instruction, random) == (final(self)@, result),
    {
        let random = match instruction {
            Instruction::Rand(_, _) => random_byte(),
            _ => 0,
        };
        self.interpret_with(instruction, random)
    }
}

impl<M, PC, R, FB, KB> Chip8VirtualMachine for VirtualMachine<M, PC, R, FB, KB> where
    M: Chip8Memory,
    PC: Chip8ProgramCounter,
    R: Chip8RegisterBank,
    FB: Chip8FrameBuffer,
    KB: Chip8Keyboard,
 {
    type FrameBuffer = FB;

    open spec fn view(&self) -> Machine {
        Machine {
            memory: self.memory@,
            stack: self.pc@,
            v: self.registers@.v,
            i: self.registers@.i,
            rows: self.framebuffer@,
            pressed: self.keyboard@,
            state: self.state,
            delay_timer: self.delay_timer,
            sound_timer: self.sound_timer,
        }
    }

    /// Every component is in good order.
    open spec fn inv(&self) -> bool {
        &&& self.memory.inv()
        &&& self.pc.inv()
        &&& self.registers.inv()
        &&& self.framebuffer.inv()
    }

    proof fn lemma_inv(&self) {
        self.memory.lemma_inv();
        self.pc.lemma_inv();
        self.registers.lemma_inv();
    }

    fn get_framebuffer(&self) -> (framebuffer: &FB) {
        &self.framebuffer
    }

    fn load_rom(&mut self, data: &[u8]) -> (result: Result<(), Fault>) {
        let start_addr = self.pc.current();
        proof {
            self.lemma_inv();
        }
        if data.len() > 4096 - start_addr.get_raw() as usize {
            return Err(Fault::OutOfBounds);
        }
        self.state = VMState::LoadingROM;
        proof {
            assert(self.memory@ =~= overlaid(old(self)@.memory, start_addr@ as int, data@.take(0)));
        }

        let mut i: usize = 0;
        while i < data.len()
            invariant
                i <= data@.len(),
                start_addr@ + data@.len() <= 4096,
                old(self)@.memory.len() == 4096,
                self.inv(),
                self.memory@ == overlaid(old(self)@.memory, start_addr@ as int, data@.take(i as int)),
                self.pc == old(self).pc,
                self.registers == old(self).registers,
                self.framebuffer == old(self).framebuffer,
                self.keyboard == old(self).keyboard,
                self.delay_timer == old(self).delay_timer,
                self.sound_timer == old(self).sound_timer,
            decreases data@.len() - i,
        {
            let addr = start_addr + (i as u16);
            let byte = Byte::new(data[i]);

            self.memory.set(addr, byte);
            assert(self.memory@ =~= overlaid(
                old(self)@.memory,
                start_addr@ as int,
                data@.take(i + 1),
            ));
            i += 1;
        }
        assert(data@.take(data@.len() as int) =~= data@);

        self.state = VMState::Initializing;
        Ok(())
    }

    fn press_key(&mut self, key: u8) {
        self.keyboard.press(Nibble::new(key));
    }

    fn execute(&mut self) -> (result: Result<(), Fault>) {
        let result = self.execute_cycles(1);
        proof {
            let randoms = choose|randoms: Seq<u8>|
                randoms.len() == 1 && self@ == (#[trigger] old(self)@.run(randoms)).0 && result
                    == old(self)@.run(randoms).1.verdict();
            old(self)@.lemma_run_goes_on(randoms.drop_last(), randoms.last());
            assert(randoms.drop_last().push(randoms.last()) =~= randoms);
            assert(old(self)@.run(randoms) == old(self)@.cycle(randoms.last()));
        }
        result
    }

    fn execute_cycles(&mut self, cycles: usize) -> (result: Result<(), Fault>) {
        let ghost mut randoms: Seq<u8> = Seq::empty();
        let mut done: usize = 0;

        while done < cycles
            invariant
                done <= cycles,
                randoms.len() == done,
                self.inv(),
                old(self)@.run(randoms) == (self@, Outcome::Completed),
            decreases cycles - done,
        {
            let ghost before = self@;
            let ghost rest = Seq::new((cycles - done - 1) as nat, |k: int| 0u8);
            self.decrement_timers();

            if self.is_waiting() || self.is_paused() {
                proof {
                    old(self)@.lemma_run_goes_on(randoms, 0);
                    old(self)@.lemma_run_ends(randoms.push(0), rest);
                }
                return Ok(());
            }
            let instruction = self.get_instr();

            self.state = VMState::Executing(instruction);
            let ghost begun = self@;

            if let Some(fault) = self.fatal(instruction) {
                proof {
                    old(self)@.lemma_run_goes_on(randoms, 0);
                    old(self)@.lemma_run_ends(randoms.push(0), rest);
                }
                return Err(fault);
            }
            let interpreted = self.interpret_instruction(instruction);
            let ghost random = choose|random: u8|
                #[trigger] begun.interpret(instruction, random) == (self@, interpreted);
            proof {
                old(self)@.lemma_run_goes_on(randoms, random);
            }
            match interpreted {
                Ok(redirected) => {
                    if !redirected {
                        self.inc_pc();
                    }
                },
                Err(report) => {
                    // The instruction is invalid: it is stepped over.
                    self.inc_pc();
                    proof {
                        old(self)@.lemma_run_ends(randoms.push(random), rest);
                    }
                    return Err(report);
                },
            }
            proof {
                randoms = randoms.push(random);
            }
            done += 1;
        }
        Ok(())
    }

    fn release_keys(&mut self) {
        self.keyboard.clear();
    }
}

} // verus!
