//! Error and status values reported to the host.

use vstd::prelude::*;

verus! {

/// Why a program image could not be placed in memory.
#[derive(Clone, Copy, Debug, PartialEq, Eq, Structural)]
pub enum LoadError {
    /// The image has `size` bytes, more than the space above the reserved area holds.
    RomTooLarge { size: usize },
}

/// Why an instruction did not complete normally.
#[derive(Clone, Copy, Debug, PartialEq, Eq, Structural)]
pub enum ExecutionError {
    /// The fetched word matches no instruction pattern. The program counter has
    /// already moved past it, so the host may simply go on.
    UnknownOpcode { opcode: u16 },
    /// A subroutine call found all sixteen stack levels in use.
    StackOverflow,
    /// A return found the call stack empty.
    StackUnderflow,
    /// An access fell outside the 4096-byte memory or the sixteen-key latch.
    OutOfBoundsAccess,
}

/// Whether the host should currently emit sound.
#[derive(Clone, Copy, Debug, PartialEq, Eq, Structural)]
pub enum SoundState {
    Silent,
    Audible,
}

impl ExecutionError {
    /// True for every error after which the machine must be stopped.
    pub open spec fn fatal(self) -> bool {
        !(self is UnknownOpcode)
    }

    /// Tells the host whether execution has to stop.
    pub fn is_fatal(&self) -> (fatal: bool)
        ensures
            fatal == self.fatal(),
    {
        match self {
            ExecutionError::UnknownOpcode { .. } => false,
            _ => true,
        }
    }
}

} // verus!
