//! What the engine is doing.

use vstd::prelude::*;

use crate::data::Nibble;
use crate::instruction::Instruction;

verus! {

/// The states of the engine. Exactly one is active at a time.
#[derive(Clone, Copy, Debug, PartialEq, Eq, Structural)]
pub enum VMState {
    /// Nothing has been executed since the machine was built or a program
    /// was loaded.
    Initializing,
    /// A program is being copied into memory.
    LoadingROM,
    /// This instruction is being executed, or was the last one executed.
    Executing(Instruction),
    /// The host has paused the machine: cycles tick the timers and do
    /// nothing else.
    Paused,
    /// Execution is suspended until the given key is pressed.
    WaitingForKey(Option<Nibble>),
}

} // verus!
