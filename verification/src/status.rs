//! What the machine is doing between two instructions.

use vstd::prelude::*;

verus! {

/// A fatal condition. Once one is raised the machine executes nothing more
/// until it is reset.
#[derive(Clone, Copy, Debug, PartialEq, Eq, Structural)]
pub enum Fault {
    /// The instruction word matches no instruction.
    Decode,
    /// A subroutine call found the call stack full.
    StackOverflow,
    /// A return found the call stack empty.
    StackUnderflow,
    /// An instruction fetch, a memory operand or a computed jump target lies
    /// outside memory.
    AddressOutOfRange,
}

#[derive(Clone, Copy, Debug, PartialEq, Eq, Structural)]
pub enum Status {
    /// The next step fetches and executes an instruction.
    Running,
    /// A wait-for-key instruction is pending. The next key press is stored in
    /// the register with this index, and execution resumes behind the
    /// instruction.
    AwaitingKey(u8),
    /// A fault stopped the machine.
    Halted(Fault),
}

} // verus!
