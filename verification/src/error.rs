//! The faults that end a run.

use vstd::prelude::*;

verus! {

/// A fatal condition met while accessing memory or executing an instruction.
/// Each variant carries the datum that identifies the offending access.
#[derive(Clone, Copy, Debug, PartialEq, Eq, Structural)]
pub enum VmError {
    /// The opcode byte matches no instruction.
    UnknownOpcode { opcode: u8 },
    /// A byte or word access at `address` does not lie inside memory.
    OutOfBounds { address: usize },
    /// A push was attempted on a full stack.
    StackOverflow,
    /// A pop was attempted on an empty stack.
    StackUnderflow,
    /// A register operand does not name one of the nine registers.
    InvalidRegister { index: u8 },
}

} // verus!
