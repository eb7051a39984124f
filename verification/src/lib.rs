//! A minimal virtual machine: a flat byte-addressable memory, a one-byte
//! instruction encoding, and a fetch-decode-execute engine with nine 16-bit
//! registers, a bounded value stack and a single comparison flag.
//!
//! Every executable function carries a contract over a mathematical model:
//! memory is a sequence of bytes, and the engine is a [`semantics::VmState`]
//! whose transitions are given by [`semantics::VmState::step`].

pub mod error;
pub mod memory;
pub mod instruction;
pub mod laws;
pub mod semantics;
pub mod register;
pub mod vm;
