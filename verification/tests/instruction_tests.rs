use minivm::error::VmError;
use minivm::instruction::Instruction;
use minivm::instruction::Operands;
use minivm::register::Register;

const TABLE: [(Instruction, u8); 20] = [
    (Instruction::NOP, 0x00),
    (Instruction::HLT, 0x01),
    (Instruction::MoveLit, 0x10),
    (Instruction::MoveReg, 0x11),
    (Instruction::MoveRegMem, 0x12),
    (Instruction::MoveMemReg, 0x13),
    (Instruction::Add, 0x14),
    (Instruction::Sub, 0x15),
    (Instruction::Mul, 0x16),
    (Instruction::PushLit, 0x1A),
    (Instruction::PushReg, 0x1B),
    (Instruction::Pop, 0x1C),
    (Instruction::Print, 0x1D),
    (Instruction::Cmp, 0x1E),
    (Instruction::CmpNot, 0x1F),
    (Instruction::Lt, 0x20),
    (Instruction::Gt, 0x21),
    (Instruction::Jmp, 0x30),
    (Instruction::JmpZ, 0x31),
    (Instruction::JmpNZ, 0x32),
];

#[test]
fn opcodes_have_their_fixed_values() {
    for (instruction, byte) in TABLE {
        assert_eq!(instruction.opcode(), byte);
        assert_eq!(u8::from(instruction), byte);
    }
}

#[test]
fn decode_inverts_opcode() {
    for (instruction, byte) in TABLE {
        assert_eq!(Instruction::decode(byte), Ok(instruction));
        assert_eq!(Instruction::decode(instruction.opcode()), Ok(instruction));
        assert_eq!(Instruction::try_from(byte), Ok(instruction));
    }
}

#[test]
fn decode_rejects_0xff() {
    assert_eq!(Instruction::decode(0xFF), Err(VmError::UnknownOpcode { opcode: 0xFF }));
    assert_eq!(Instruction::try_from(0xFFu8), Err(VmError::UnknownOpcode { opcode: 0xFF }));
}

#[test]
fn decode_rejects_every_byte_outside_the_table() {
    let mut accepted = 0;
    for byte in 0..=u8::MAX {
        match TABLE.iter().find(|(_, code)| *code == byte) {
            Some((instruction, _)) => {
                assert_eq!(Instruction::decode(byte), Ok(*instruction));
                accepted += 1;
            }
            None => {
                assert_eq!(Instruction::decode(byte), Err(VmError::UnknownOpcode { opcode: byte }));
            }
        }
    }
    assert_eq!(accepted, 20);
}

#[test]
fn decode_rejects_the_gaps_between_opcodes() {
    for byte in [0x02u8, 0x0F, 0x17, 0x18, 0x19, 0x22, 0x2F, 0x33, 0x80, 0xFE] {
        assert_eq!(Instruction::decode(byte), Err(VmError::UnknownOpcode { opcode: byte }));
    }
}

#[test]
fn conditional_jumps_decode() {
    assert_eq!(Instruction::decode(0x31), Ok(Instruction::JmpZ));
    assert_eq!(Instruction::decode(0x32), Ok(Instruction::JmpNZ));
}

#[test]
fn register_indices() {
    let registers = [
        Register::R0,
        Register::R1,
        Register::R2,
        Register::R3,
        Register::R4,
        Register::R5,
        Register::R6,
        Register::R7,
        Register::ACC,
    ];
    for (index, register) in registers.iter().enumerate() {
        assert_eq!(register.index(), index as u8);
        assert_eq!(u8::from(*register), index as u8);
        assert_eq!(Register::from_index(index as u8), Ok(*register));
    }
    assert_eq!(Register::ACC.index(), 8);
}

#[test]
fn register_index_above_eight_is_rejected() {
    for index in 9..=u8::MAX {
        assert_eq!(Register::from_index(index), Err(VmError::InvalidRegister { index }));
    }
}

#[test]
fn operand_shapes_follow_the_instruction_table() {
    let shapes = [
        (Instruction::NOP, Operands::Nothing),
        (Instruction::HLT, Operands::Nothing),
        (Instruction::MoveLit, Operands::RegisterWord),
        (Instruction::MoveReg, Operands::RegisterPair),
        (Instruction::MoveRegMem, Operands::RegisterWord),
        (Instruction::MoveMemReg, Operands::RegisterWord),
        (Instruction::Add, Operands::RegisterPair),
        (Instruction::Sub, Operands::RegisterPair),
        (Instruction::Mul, Operands::RegisterPair),
        (Instruction::PushLit, Operands::Word),
        (Instruction::PushReg, Operands::Register),
        (Instruction::Pop, Operands::Register),
        (Instruction::Print, Operands::Register),
        (Instruction::Cmp, Operands::RegisterPair),
        (Instruction::CmpNot, Operands::RegisterPair),
        (Instruction::Lt, Operands::RegisterPair),
        (Instruction::Gt, Operands::RegisterPair),
        (Instruction::Jmp, Operands::Word),
        (Instruction::JmpZ, Operands::Word),
        (Instruction::JmpNZ, Operands::Word),
    ];
    for (instruction, shape) in shapes {
        assert_eq!(instruction.operands(), shape);
    }
}

#[test]
fn operand_widths_in_bytes() {
    assert_eq!(Operands::Nothing.width(), 0);
    assert_eq!(Operands::Register.width(), 1);
    assert_eq!(Operands::RegisterWord.width(), 3);
    assert_eq!(Operands::RegisterPair.width(), 2);
    assert_eq!(Operands::Word.width(), 2);
}
