//! The instruction set: twenty opcodes, each with a fixed one-byte code.

use crate::error::VmError;
use vstd::prelude::*;
use vstd::std_specs::convert::FromSpecImpl;
use vstd::std_specs::convert::TryFromSpecImpl;

verus! {

/// The operations of the machine.
#[derive(Clone, Copy, Debug, PartialEq, Eq, Structural)]
pub enum Instruction {
    /// No effect.
    NOP,
    /// Ends the run.
    HLT,
    /// Register, 16-bit literal: the register takes the literal.
    MoveLit,
    /// Source register, destination register: the destination takes the
    /// source's value.
    MoveReg,
    /// Register, 16-bit address: the register takes the word stored there.
    MoveRegMem,
    /// Register, 16-bit address: the register's value is stored there.
    MoveMemReg,
    /// Two registers: the accumulator takes their sum, modulo 2^16.
    Add,
    /// Two registers: the accumulator takes their difference, modulo 2^16.
    Sub,
    /// Two registers: the accumulator takes their product, modulo 2^16.
    Mul,
    /// 16-bit literal: pushed onto the stack.
    PushLit,
    /// Register: its value is pushed onto the stack.
    PushReg,
    /// Register: takes the value popped off the stack.
    Pop,
    /// Register: its value is emitted to the output.
    Print,
    /// Two registers: the flag is set if and only if their values are equal.
    Cmp,
    /// Two registers: the flag is set if and only if their values differ.
    CmpNot,
    /// Two registers: the flag is set if and only if the first is less.
    Lt,
    /// Two registers: the flag is set if and only if the first is greater.
    Gt,
    /// 16-bit address: execution continues there.
    Jmp,
    /// 16-bit address: execution continues there if the flag is set.
    JmpZ,
    /// 16-bit address: execution continues there if the flag is clear.
    JmpNZ,
}

/// The shape of what follows an opcode in the instruction stream. A register
/// operand is one byte; a literal or an address is a little-endian word.
#[derive(Clone, Copy, Debug, PartialEq, Eq, Structural)]
pub enum Operands {
    /// No operand.
    Nothing,
    /// One register.
    Register,
    /// One register, then one word.
    RegisterWord,
    /// Two registers.
    RegisterPair,
    /// One word.
    Word,
}

impl Operands {
    /// The number of bytes that operands of this shape occupy.
    pub open spec fn width_spec(self) -> usize {
        match self {
            Operands::Nothing => 0,
            Operands::Register => 1,
            Operands::RegisterWord => 3,
            Operands::RegisterPair => 2,
            Operands::Word => 2,
        }
    }

    /// The number of bytes that operands of this shape occupy.
    #[verifier::when_used_as_spec(width_spec)]
    pub fn width(self) -> (width: usize)
        ensures
            width == self.width_spec(),
    {
        match self {
            Operands::Nothing => 0,
            Operands::Register => 1,
            Operands::RegisterWord => 3,
            Operands::RegisterPair => 2,
            Operands::Word => 2,
        }
    }
}

impl Instruction {
    /// The byte that encodes this instruction.
    pub open spec fn opcode_spec(self) -> u8 {
        match self {
            Instruction::NOP => 0x00,
            Instruction::HLT => 0x01,
            Instruction::MoveLit => 0x10,
            Instruction::MoveReg => 0x11,
            Instruction::MoveRegMem => 0x12,
            Instruction::MoveMemReg => 0x13,
            Instruction::Add => 0x14,
            Instruction::Sub => 0x15,
            Instruction::Mul => 0x16,
            Instruction::PushLit => 0x1A,
            Instruction::PushReg => 0x1B,
            Instruction::Pop => 0x1C,
            Instruction::Print => 0x1D,
            Instruction::Cmp => 0x1E,
            Instruction::CmpNot => 0x1F,
            Instruction::Lt => 0x20,
            Instruction::Gt => 0x21,
            Instruction::Jmp => 0x30,
            Instruction::JmpZ => 0x31,
            Instruction::JmpNZ => 0x32,
        }
    }

    /// The shape of this instruction's operands.
    pub open spec fn operands_spec(self) -> Operands {
        match self {
            Instruction::NOP | Instruction::HLT => Operands::Nothing,
            Instruction::MoveLit | Instruction::MoveRegMem | Instruction::MoveMemReg =>
                Operands::RegisterWord,
            Instruction::MoveReg
            | Instruction::Add
            | Instruction::Sub
            | Instruction::Mul
            | Instruction::Cmp
            | Instruction::CmpNot
            | Instruction::Lt
            | Instruction::Gt => Operands::RegisterPair,
            Instruction::PushReg | Instruction::Pop | Instruction::Print => Operands::Register,
            Instruction::PushLit | Instruction::Jmp | Instruction::JmpZ | Instruction::JmpNZ =>
                Operands::Word,
        }
    }

    /// The instruction that `byte` encodes: the one whose opcode it is. A
    /// byte that is no instruction's opcode is an error that names the byte.
    pub open spec fn decode_spec(byte: u8) -> Result<Instruction, VmError> {
        if exists|i: Instruction| i.opcode_spec() == byte {
            Ok(choose|i: Instruction| i.opcode_spec() == byte)
        } else {
            Err(VmError::UnknownOpcode { opcode: byte })
        }
    }

    /// The byte that encodes this instruction.
    #[verifier::when_used_as_spec(opcode_spec)]
    pub fn opcode(self) -> (byte: u8)
        ensures
            byte == self.opcode_spec(),
    {
        match self {
            Instruction::NOP => 0x00,
            Instruction::HLT => 0x01,
            Instruction::MoveLit => 0x10,
            Instruction::MoveReg => 0x11,
            Instruction::MoveRegMem => 0x12,
            Instruction::MoveMemReg => 0x13,
            Instruction::Add => 0x14,
            Instruction::Sub => 0x15,
            Instruction::Mul => 0x16,
            Instruction::PushLit => 0x1A,
            Instruction::PushReg => 0x1B,
            Instruction::Pop => 0x1C,
            Instruction::Print => 0x1D,
            Instruction::Cmp => 0x1E,
            Instruction::CmpNot => 0x1F,
            Instruction::Lt => 0x20,
            Instruction::Gt => 0x21,
            Instruction::Jmp => 0x30,
            Instruction::JmpZ => 0x31,
            Instruction::JmpNZ => 0x32,
        }
    }

    /// The shape of this instruction's operands.
    #[verifier::when_used_as_spec(operands_spec)]
    pub fn operands(self) -> (operands: Operands)
        ensures
            operands == self.operands_spec(),
    {
        match self {
            Instruction::NOP | Instruction::HLT => Operands::Nothing,
            Instruction::MoveLit | Instruction::MoveRegMem | Instruction::MoveMemReg => {
                Operands::RegisterWord
            },
            Instruction::MoveReg
            | Instruction::Add
            | Instruction::Sub
            | Instruction::Mul
            | Instruction::Cmp
            | Instruction::CmpNot
            | Instruction::Lt
            | Instruction::Gt => Operands::RegisterPair,
            Instruction::PushReg | Instruction::Pop | Instruction::Print => Operands::Register,
            Instruction::PushLit | Instruction::Jmp | Instruction::JmpZ | Instruction::JmpNZ => {
                Operands::Word
            },
        }
    }

    /// The instruction that `byte` encodes. A byte that is no instruction's
    /// opcode is rejected, and the error names it.
    pub fn decode(byte: u8) -> (decoded: Result<Instruction, VmError>)
        ensures
            decoded == Instruction::decode_spec(byte),
    {
        let decoded = match byte {
            0x00 => Ok(Instruction::NOP),
            0x01 => Ok(Instruction::HLT),
            0x10 => Ok(Instruction::MoveLit),
            0x11 => Ok(Instruction::MoveReg),
            0x12 => Ok(Instruction::MoveRegMem),
            0x13 => Ok(Instruction::MoveMemReg),
            0x14 => Ok(Instruction::Add),
            0x15 => Ok(Instruction::Sub),
            0x16 => Ok(Instruction::Mul),
            0x1A => Ok(Instruction::PushLit),
            0x1B => Ok(Instruction::PushReg),
            0x1C => Ok(Instruction::Pop),
            0x1D => Ok(Instruction::Print),
            0x1E => Ok(Instruction::Cmp),
            0x1F => Ok(Instruction::CmpNot),
            0x20 => Ok(Instruction::Lt),
            0x21 => Ok(Instruction::Gt),
            0x30 => Ok(Instruction::Jmp),
            0x31 => Ok(Instruction::JmpZ),
            0x32 => Ok(Instruction::JmpNZ),
            _ => Err(VmError::UnknownOpcode { opcode: byte }),
        };
        proof {
            if let Ok(instruction) = decoded {
                lemma_decode_inverts_opcode(instruction);
            }
        }
        decoded
    }
}

/// No two instructions share an opcode.
pub proof fn lemma_opcode_is_injective(a: Instruction, b: Instruction)
    requires
        a.opcode_spec() == b.opcode_spec(),
    ensures
        a == b,
{
}

/// Decoding the opcode of an instruction gives that instruction back.
pub proof fn lemma_decode_inverts_opcode(instruction: Instruction)
    ensures
        Instruction::decode_spec(instruction.opcode_spec()) == Ok::<Instruction, VmError>(
            instruction,
        ),
{
    let byte = instruction.opcode_spec();
    let chosen = choose|i: Instruction| i.opcode_spec() == byte;
    lemma_opcode_is_injective(chosen, instruction);
}

/// A byte decodes to an instruction exactly when it is that instruction's
/// opcode. Every other byte is rejected with an error that names it: none
/// is taken for `NOP` or for any other instruction.
pub proof fn lemma_decode_is_exact(byte: u8, instruction: Instruction)
    ensures
        Instruction::decode_spec(byte) == Ok::<Instruction, VmError>(instruction)
            <==> instruction.opcode_spec() == byte,
        (forall|i: Instruction| i.opcode_spec() != byte) <==> Instruction::decode_spec(byte)
            == Err::<Instruction, VmError>(VmError::UnknownOpcode { opcode: byte }),
{
    if instruction.opcode_spec() == byte {
        lemma_decode_inverts_opcode(instruction);
    }
}

impl From<Instruction> for u8 {
    fn from(instruction: Instruction) -> (byte: u8) {
        instruction.opcode()
    }
}

impl FromSpecImpl<Instruction> for u8 {
    open spec fn obeys_from_spec() -> bool {
        true
    }

    open spec fn from_spec(instruction: Instruction) -> u8 {
        instruction.opcode_spec()
    }
}

impl TryFrom<u8> for Instruction {
    type Error = VmError;

    fn try_from(byte: u8) -> (decoded: Result<Instruction, VmError>) {
        Instruction::decode(byte)
    }
}

impl TryFromSpecImpl<u8> for Instruction {
    open spec fn obeys_try_from_spec() -> bool {
        true
    }

    open spec fn try_from_spec(byte: u8) -> Result<Instruction, VmError> {
        Instruction::decode_spec(byte)
    }
}

} // verus!
