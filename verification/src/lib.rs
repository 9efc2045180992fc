//! An interpreter core for the CHIP-8 virtual machine.
//!
//! * [`vm`] holds the executable machine: memory, registers, call stack,
//!   display and keys, and the fetch-decode-execute step.
//! * [`machine`] defines, as mathematical functions, what every operation of
//!   the machine does; the contracts in [`vm`] are stated over it.
//! * [`opcode`] reads the operand fields of an instruction word.
//! * [`rng`] is the random source behind the `RND` instruction.
//! * [`status`] names the states between instructions and the faults.
//! * [`theorems`] proves theorems about the instruction set.

pub mod machine;
pub mod opcode;
pub mod rng;
pub mod status;
pub mod theorems;
pub mod vm;
