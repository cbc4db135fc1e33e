//! The machine as a mathematical object: its state, and what each
//! instruction and each cycle make of it.

use vstd::prelude::*;

use crate::cpu::vm_state::VMState;
use crate::data::address::wrapped_address;
use crate::data::byte::{wrapped_difference, wrapped_sum};
use crate::data::Nibble;
use crate::framebuffer::utils::{collides, drawn};
use crate::instruction::{decode, Instruction};
use crate::model::Register;

verus! {

/// Why a run stopped before its cycles were used up. An invalid
/// instruction is reported and the machine can run on; the other faults
/// are fatal: the machine cannot execute the instruction it stands at.
#[derive(Clone, Copy, Debug, PartialEq, Eq, Structural)]
pub enum Fault {
    /// The word at the program counter encodes no instruction. The
    /// counter has moved past the word, nothing else has happened, and the
    /// machine can run on.
    InvalidInstruction(u16),
    /// A return without a call to return from.
    StackUnderflow,
    /// A call from the sixteenth frame of the call stack.
    StackOverflow,
    /// A sprite read, a block copy or a program load that would leave
    /// memory, or a sprite drawn on a frame buffer without rows.
    OutOfBounds,
}

/// How a run of cycles ended.
#[derive(Clone, Copy, Debug, PartialEq, Eq, Structural)]
pub enum Outcome {
    /// Every cycle executed its instruction.
    Completed,
    /// A cycle found the machine paused or waiting for a key; it ticked
    /// the timers and ended the run.
    Suspended,
    /// A cycle met a fault and ended the run.
    Faulted(Fault),
}

impl Outcome {
    /// What a run that ended like this reports to its caller.
    pub open spec fn verdict(self) -> Result<(), Fault> {
        match self {
            Outcome::Faulted(fault) => Err(fault),
            _ => Ok(()),
        }
    }
}

/// The contents of a register bank.
pub struct Registers {
    /// The sixteen general purpose registers, `V0` first.
    pub v: Seq<u8>,
    /// The index register.
    pub i: u16,
}

impl Registers {
    pub open spec fn set_v(self, register: Register, value: u8) -> Registers {
        Registers { v: self.v.update(register.ordinal(), value), ..self }
    }

    pub open spec fn set_i(self, address: u16) -> Registers {
        Registers { i: address, ..self }
    }
}

/// The scanlines of a dark screen of `height` rows.
pub open spec fn blank(height: nat) -> Seq<u64> {
    Seq::new(height, |row: int| 0u64)
}

/// `cells` with `block` copied over the cells from `start` on.
pub open spec fn overlaid<T>(cells: Seq<T>, start: int, block: Seq<T>) -> Seq<T> {
    Seq::new(
        cells.len(),
        |at: int|
            if start <= at < start + block.len() {
                block[at - start]
            } else {
                cells[at]
            },
    )
}

/// The whole state of a machine.
pub struct Machine {
    /// The 4096 memory cells.
    pub memory: Seq<u8>,
    /// The call stack, the oldest frame first. Each frame is the address
    /// at which its routine goes on; the last one is the program counter.
    pub stack: Seq<u16>,
    /// The sixteen general purpose registers, `V0` first.
    pub v: Seq<u8>,
    /// The index register.
    pub i: u16,
    /// The scanlines of the frame buffer, the top one first.
    pub rows: Seq<u64>,
    /// The key that is held down, if any.
    pub pressed: Option<u8>,
    pub state: VMState,
    pub delay_timer: u8,
    pub sound_timer: u8,
}

impl Machine {
    /// The shape that every machine has: 4096 memory cells, 16 registers
    /// and between 1 and 16 stack frames.
    pub open spec fn wf(self) -> bool {
        &&& self.memory.len() == 4096
        &&& self.v.len() == 16
        &&& 1 <= self.stack.len() <= 16
    }

    /// The program counter.
    pub open spec fn pc(self) -> u16 {
        self.stack.last()
    }

    /// The machine with the program counter at `target`.
    pub open spec fn jump(self, target: u16) -> Machine {
        Machine { stack: self.stack.update(self.stack.len() - 1, target), ..self }
    }

    /// The machine with the program counter moved on by `by`, wrapping
    /// past `0xFFF` to `0x000`.
    pub open spec fn advance(self, by: int) -> Machine {
        self.jump(wrapped_address(self.pc() + by))
    }

    /// The machine with the program counter moved past the next
    /// instruction if `condition` holds, and unchanged if not.
    pub open spec fn skip_if(self, condition: bool) -> Machine {
        if condition {
            self.advance(4)
        } else {
            self
        }
    }

    pub open spec fn reg(self, register: Register) -> u8 {
        self.v[register.ordinal()]
    }

    pub open spec fn set_reg(self, register: Register, value: u8) -> Machine {
        Machine { v: self.v.update(register.ordinal(), value), ..self }
    }

    /// The machine with `value` in the flag register `VF`.
    pub open spec fn set_carry(self, value: u8) -> Machine {
        self.set_reg(Register::VF, value)
    }

    pub open spec fn set_index(self, address: u16) -> Machine {
        Machine { i: address, ..self }
    }

    /// The machine with `value` in the memory cell at `address`.
    pub open spec fn store(self, address: u16, value: u8) -> Machine {
        Machine { memory: self.memory.update(address as int, value), ..self }
    }

    /// The key that `register` names: the low four bits of its value.
    pub open spec fn key(self, register: Register) -> u8 {
        self.reg(register) % 16
    }

    /// The word at the program counter: two memory cells, the high byte
    /// first. The cell after `0xFFF` is `0x000`.
    pub open spec fn fetch(self) -> u16 {
        (self.memory[self.pc() as int] * 256 + self.memory[wrapped_address(self.pc() + 1) as int]) as u16
    }

    /// The machine with both timers one lower, unless they are at zero.
    pub open spec fn tick(self) -> Machine {
        Machine {
            delay_timer: if self.delay_timer > 0 {
                (self.delay_timer - 1) as u8
            } else {
                0
            },
            sound_timer: if self.sound_timer > 0 {
                (self.sound_timer - 1) as u8
            } else {
                0
            },
            ..self
        }
    }

    /// Whether the machine waits for a key that is not held down.
    pub open spec fn waiting(self) -> bool {
        self.state matches VMState::WaitingForKey(Some(key)) && self.pressed != Some(key@)
    }

    pub open spec fn paused(self) -> bool {
        self.state == VMState::Paused
    }

    /// The fatal fault that keeps the machine from executing
    /// `instruction`, if there is one: a return without a call, a call
    /// from the sixteenth frame, a sprite read or a block copy that would
    /// leave memory, a sprite drawn on a frame buffer without rows.
    pub open spec fn fatal(self, instruction: Instruction) -> Option<Fault> {
        match instruction {
            Instruction::Return => if self.stack.len() <= 1 {
                Some(Fault::StackUnderflow)
            } else {
                None
            },
            Instruction::Call(_) => if self.stack.len() >= 16 {
                Some(Fault::StackOverflow)
            } else {
                None
            },
            Instruction::Draw(_, _, height) => if self.i + height@ > 4096 || (height@ > 0
                && self.rows.len() == 0) {
                Some(Fault::OutOfBounds)
            } else {
                None
            },
            Instruction::CopyToRam(last) | Instruction::CopyToRegisters(last) => if self.i
                + last.ordinal() + 1 > 4096 {
                Some(Fault::OutOfBounds)
            } else {
                None
            },
            _ => None,
        }
    }

    /// Whether `instruction` sets the program counter itself, so that the
    /// cycle must not move it on.
    pub open spec fn redirects(self, instruction: Instruction) -> bool {
        match instruction {
            Instruction::Return => true,
            Instruction::Jump(_) => true,
            Instruction::Call(_) => true,
            Instruction::JumpPlus(_) => true,
            Instruction::SkipEqualByte(vx, byte) => self.reg(vx) == byte@,
            Instruction::SkipNotEqualByte(vx, byte) => self.reg(vx) != byte@,
            Instruction::SkipEqualReg(vx, vy) => self.reg(vx) == self.reg(vy),
            Instruction::SkipNotEqualReg(vx, vy) => self.reg(vx) != self.reg(vy),
            Instruction::SkipPressed(vx) => self.pressed == Some(self.key(vx)),
            Instruction::SkipNotPressed(vx) => self.pressed != Some(self.key(vx)),
            _ => false,
        }
    }

    /// The machine after `instruction`, where no fatal fault keeps it
    /// from executing. `random` is the byte that chance contributes; only
    /// `Rand` looks at it.
    ///
    /// A taken skip moves the program counter on by two instructions. A
    /// call moves the caller's frame past the call and opens a frame at
    /// the operand; a return closes the current frame, and so goes on
    /// behind the call. Subtraction sets the flag before it stores the
    /// difference; `SubReg` leaves the flag alone where there is no
    /// borrow to report. The shifts store the bit they push out in the
    /// flag, then the shifted value. Arithmetic on addresses and on bytes
    /// wraps around.
    pub open spec fn effect(self, instruction: Instruction, random: u8) -> Machine {
        match instruction {
            Instruction::Invalid(_) => self,
            Instruction::Sys(_) => self,
            Instruction::Cls => Machine { rows: blank(self.rows.len()), ..self },
            Instruction::Return => Machine { stack: self.stack.drop_last(), ..self },
            Instruction::Jump(target) => self.jump(target@),
            Instruction::Call(target) => Machine {
                stack: self.advance(2).stack.push(target@),
                ..self
            },
            Instruction::SkipEqualByte(vx, byte) => self.skip_if(self.reg(vx) == byte@),
            Instruction::SkipNotEqualByte(vx, byte) => self.skip_if(self.reg(vx) != byte@),
            Instruction::SkipEqualReg(vx, vy) => self.skip_if(self.reg(vx) == self.reg(vy)),
            Instruction::SkipNotEqualReg(vx, vy) => self.skip_if(self.reg(vx) != self.reg(vy)),
            Instruction::Load(vx, byte) => self.set_reg(vx, byte@),
            Instruction::Add(vx, byte) => self.set_reg(vx, wrapped_sum(self.reg(vx), byte@)),
            Instruction::LoadFromReg(vx, vy) => self.set_reg(vx, self.reg(vy)),
            Instruction::Or(vx, vy) => self.set_reg(vx, self.reg(vx) | self.reg(vy)),
            Instruction::And(vx, vy) => self.set_reg(vx, self.reg(vx) & self.reg(vy)),
            Instruction::XOr(vx, vy) => self.set_reg(vx, self.reg(vx) ^ self.reg(vy)),
            Instruction::AddReg(vx, vy) => self.set_reg(
                vx,
                wrapped_sum(self.reg(vx), self.reg(vy)),
            ),
            Instruction::SubReg(vx, vy) => {
                let x = self.reg(vx);
                let y = self.reg(vy);
                let flagged = if x > y {
                    self.set_carry(1)
                } else {
                    self
                };
                flagged.set_reg(vx, wrapped_difference(x, y))
            },
            Instruction::ShiftRight(vx) => {
                let x = self.reg(vx);
                self.set_carry(x % 2).set_reg(vx, x / 2)
            },
            Instruction::ReverseSub(vx, vy) => {
                let x = self.reg(vx);
                let y = self.reg(vy);
                self.set_carry(
                    if y > x {
                        1
                    } else {
                        0
                    },
                ).set_reg(vx, wrapped_difference(y, x))
            },
            Instruction::ShiftLeft(vx) => {
                let x = self.reg(vx);
                self.set_carry(x / 128).set_reg(vx, ((x * 2) % 256) as u8)
            },
            Instruction::LoadInstr(address) => self.set_index(address@),
            Instruction::JumpPlus(base) => self.jump(
                wrapped_address(base@ + self.reg(Register::V0)),
            ),
            Instruction::Rand(vx, mask) => self.set_reg(vx, random & mask@),
            Instruction::Draw(vx, vy, height) => {
                let x = self.reg(vx);
                let y = self.reg(vy);
                let sprite = self.memory.subrange(self.i as int, self.i + height@);
                Machine { rows: drawn(self.rows, x, y, sprite), ..self }.set_carry(
                    if collides(self.rows, x, y, sprite) {
                        1
                    } else {
                        0
                    },
                )
            },
            Instruction::SkipPressed(vx) => self.skip_if(self.pressed == Some(self.key(vx))),
            Instruction::SkipNotPressed(vx) => self.skip_if(self.pressed != Some(self.key(vx))),
            Instruction::LoadDelayTimer(vx) => self.set_reg(vx, self.delay_timer),
            Instruction::WaitForKey(vx) => Machine {
                state: VMState::WaitingForKey(Some(Nibble::of(self.reg(vx)))),
                ..self
            },
            Instruction::SetDelayTimer(vx) => Machine { delay_timer: self.reg(vx), ..self },
            Instruction::SetSoundTimer(vx) => Machine { sound_timer: self.reg(vx), ..self },
            Instruction::IncrementAddress(vx) => self.set_index(
                wrapped_address(self.i + self.reg(vx)),
            ),
            Instruction::LoadSpriteAddress(vx) => self.set_index((self.key(vx) * 5) as u16),
            Instruction::LoadBCD(vx) => {
                let x = self.reg(vx);
                self.store(self.i, x / 100).store(
                    wrapped_address(self.i + 1),
                    ((x / 10) % 10) as u8,
                ).store(wrapped_address(self.i + 2), x % 10)
            },
            Instruction::CopyToRam(last) => Machine {
                memory: overlaid(self.memory, self.i as int, self.v.take(last.ordinal() + 1)),
                ..self
            }.set_index(wrapped_address(self.i + last.ordinal() + 1)),
            Instruction::CopyToRegisters(last) => Machine {
                v: overlaid(
                    self.v,
                    0,
                    self.memory.subrange(self.i as int, self.i + last.ordinal() + 1),
                ),
                ..self
            }.set_index(wrapped_address(self.i + last.ordinal() + 1)),
        }
    }

    /// What interpreting `instruction` makes of the machine, where no
    /// fatal fault keeps it from executing. An invalid instruction is
    /// reported and leaves the machine as it is. Any other takes effect;
    /// the flag then tells whether it has set the program counter itself.
    pub open spec fn interpret(self, instruction: Instruction, random: u8) -> (
        Machine,
        Result<bool, Fault>,
    ) {
        match instruction {
            Instruction::Invalid(word) => (self, Err(Fault::InvalidInstruction(word))),
            _ => (self.effect(instruction, random), Ok(self.redirects(instruction))),
        }
    }

    /// The machine after `instruction` and the move of the program
    /// counter that belongs to it: on to the next instruction, unless the
    /// instruction has set the counter itself.
    pub open spec fn execute(self, instruction: Instruction, random: u8) -> Machine {
        let after = self.effect(instruction, random);
        if self.redirects(instruction) {
            after
        } else {
            after.advance(2)
        }
    }

    /// One cycle: the machine after it, and how it went.
    ///
    /// The timers tick first, in every cycle. A machine that is paused, or
    /// waits for a key that is not held down, does nothing more.
    /// Otherwise the word at the program counter is decoded, remembered
    /// as the state, and executed. A fatal fault leaves the machine at
    /// the instruction; an invalid word is stepped over and reported.
    pub open spec fn cycle(self, random: u8) -> (Machine, Outcome) {
        let ticked = self.tick();
        if ticked.waiting() || ticked.paused() {
            (ticked, Outcome::Suspended)
        } else {
            let instruction = decode(ticked.fetch());
            let begun = Machine { state: VMState::Executing(instruction), ..ticked };
            match begun.fatal(instruction) {
                Some(fault) => (begun, Outcome::Faulted(fault)),
                None => match instruction {
                    Instruction::Invalid(word) => (
                        begun.advance(2),
                        Outcome::Faulted(Fault::InvalidInstruction(word)),
                    ),
                    _ => (begun.execute(instruction, random), Outcome::Completed),
                },
            }
        }
    }

    /// A run of `randoms.len()` cycles, the k-th of which is dealt the
    /// k-th byte of `randoms`. The first cycle that does not complete ends
    /// the run: the cycles after it do not happen.
    pub open spec fn run(self, randoms: Seq<u8>) -> (Machine, Outcome)
        decreases randoms.len(),
    {
        if randoms.len() == 0 {
            (self, Outcome::Completed)
        } else {
            let (machine, outcome) = self.run(randoms.drop_last());
            if outcome is Completed {
                machine.cycle(randoms.last())
            } else {
                (machine, outcome)
            }
        }
    }

    /// A run that has ended early stays as it is, however many cycles
    /// were still to come.
    pub proof fn lemma_run_ends(self, randoms: Seq<u8>, more: Seq<u8>)
        requires
            !(self.run(randoms).1 is Completed),
        ensures
            self.run(randoms + more) == self.run(randoms),
        decreases more.len(),
    {
        if more.len() == 0 {
            assert(randoms + more =~= randoms);
        } else {
            self.lemma_run_ends(randoms, more.drop_last());
            assert((randoms + more).drop_last() =~= randoms + more.drop_last());
        }
    }

    /// A run that has gone through goes on with one more cycle.
    pub proof fn lemma_run_goes_on(self, randoms: Seq<u8>, random: u8)
        requires
            self.run(randoms).1 is Completed,
        ensures
            self.run(randoms.push(random)) == self.run(randoms).0.cycle(random),
    {
        assert(randoms.push(random).drop_last() =~= randoms);
    }

    /// The machine after `program` has been copied into memory from the
    /// program counter on.
    pub open spec fn load(self, program: Seq<u8>) -> Machine {
        Machine {
            memory: overlaid(self.memory, self.pc() as int, program),
            state: VMState::Initializing,
            ..self
        }
    }

    /// Loading a program leaves the memory below the program counter as
    /// it was: a program loaded at `0x200`, or anywhere from `0x050` on,
    /// keeps the font.
    pub proof fn lemma_load_keeps_lower_memory(self, program: Seq<u8>)
        requires
            self.wf(),
            self.pc() <= 4096,
        ensures
            self.load(program).memory.take(self.pc() as int) == self.memory.take(self.pc() as int),
            self.pc() >= 80 ==> self.load(program).memory.take(80) == self.memory.take(80),
    {
        assert(self.load(program).memory.take(self.pc() as int) =~= self.memory.take(
            self.pc() as int,
        ));
        if self.pc() >= 80 {
            assert(self.load(program).memory.take(80) =~= self.memory.take(80));
        }
    }

    /// After a call and the return from it the machine is what it was
    /// before the call, but for the program counter, which stands behind
    /// the call.
    pub proof fn lemma_return_undoes_call(self, target: crate::data::Address, random: u8)
        requires
            self.wf(),
            self.stack.len() < 16,
        ensures
            self.fatal(Instruction::Call(target)) is None,
            self.execute(Instruction::Call(target), random).fatal(Instruction::Return) is None,
            self.execute(Instruction::Call(target), random).execute(Instruction::Return, random)
                == self.advance(2),
    {
        let called = self.execute(Instruction::Call(target), random);
        assert(called.stack.drop_last() =~= self.advance(2).stack);
    }
}

} // verus!
