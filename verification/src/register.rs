//! The names of the nine registers.

use crate::error::VmError;
use crate::semantics::REGISTER_COUNT;
use vstd::prelude::*;
use vstd::std_specs::convert::FromSpecImpl;

verus! {

/// A register: one of the eight general-purpose registers, or the
/// accumulator that receives the results of arithmetic.
#[derive(Clone, Copy, Debug, PartialEq, Eq, Structural)]
pub enum Register {
    R0,
    R1,
    R2,
    R3,
    R4,
    R5,
    R6,
    R7,
    ACC,
}

impl Register {
    /// The byte that selects this register in an instruction: 0 to 7 for
    /// `R0` to `R7`, 8 for the accumulator.
    pub open spec fn index_spec(self) -> u8 {
        match self {
            Register::R0 => 0,
            Register::R1 => 1,
            Register::R2 => 2,
            Register::R3 => 3,
            Register::R4 => 4,
            Register::R5 => 5,
            Register::R6 => 6,
            Register::R7 => 7,
            Register::ACC => 8,
        }
    }

    /// The register that `index` selects; a byte above 8 selects none and is
    /// an error that names the byte.
    pub open spec fn from_index_spec(index: u8) -> Result<Register, VmError> {
        if index < REGISTER_COUNT {
            Ok(choose|r: Register| r.index_spec() == index)
        } else {
            Err(VmError::InvalidRegister { index })
        }
    }

    /// The byte that selects this register in an instruction.
    #[verifier::when_used_as_spec(index_spec)]
    pub fn index(self) -> (index: u8)
        ensures
            index == self.index_spec(),
            index < REGISTER_COUNT,
    {
        match self {
            Register::R0 => 0,
            Register::R1 => 1,
            Register::R2 => 2,
            Register::R3 => 3,
            Register::R4 => 4,
            Register::R5 => 5,
            Register::R6 => 6,
            Register::R7 => 7,
            Register::ACC => 8,
        }
    }

    /// The register that `index` selects.
    pub fn from_index(index: u8) -> (register: Result<Register, VmError>)
        ensures
            register == Register::from_index_spec(index),
    {
        let register = match index {
            0 => Ok(Register::R0),
            1 => Ok(Register::R1),
            2 => Ok(Register::R2),
            3 => Ok(Register::R3),
            4 => Ok(Register::R4),
            5 => Ok(Register::R5),
            6 => Ok(Register::R6),
            7 => Ok(Register::R7),
            8 => Ok(Register::ACC),
            _ => Err(VmError::InvalidRegister { index }),
        };
        proof {
            if let Ok(found) = register {
                lemma_from_index_inverts_index(found);
            }
        }
        register
    }
}

/// Every register has an index below nine, and selecting by that index gives
/// the register back.
pub proof fn lemma_from_index_inverts_index(register: Register)
    ensures
        register.index_spec() < REGISTER_COUNT,
        Register::from_index_spec(register.index_spec()) == Ok::<Register, VmError>(register),
{
    let index = register.index_spec();
    let chosen = choose|r: Register| r.index_spec() == index;
    assert(chosen.index_spec() == index);
}

/// A byte selects a register exactly when it is that register's index, and
/// it selects some register exactly when it is below nine.
pub proof fn lemma_from_index_is_exact(index: u8, register: Register)
    ensures
        Register::from_index_spec(index) == Ok::<Register, VmError>(register)
            <==> register.index_spec() == index,
        Register::from_index_spec(index) is Ok <==> index < REGISTER_COUNT,
{
    if register.index_spec() == index {
        lemma_from_index_inverts_index(register);
    }
    if index < REGISTER_COUNT {
        let witness = if index == 0 {
            Register::R0
        } else if index == 1 {
            Register::R1
        } else if index == 2 {
            Register::R2
        } else if index == 3 {
            Register::R3
        } else if index == 4 {
            Register::R4
        } else if index == 5 {
            Register::R5
        } else if index == 6 {
            Register::R6
        } else if index == 7 {
            Register::R7
        } else {
            Register::ACC
        };
        lemma_from_index_inverts_index(witness);
    }
}

impl From<Register> for u8 {
    fn from(register: Register) -> (index: u8) {
        register.index()
    }
}

impl FromSpecImpl<Register> for u8 {
    open spec fn obeys_from_spec() -> bool {
        true
    }

    open spec fn from_spec(register: Register) -> u8 {
        register.index_spec()
    }
}

} // verus!
