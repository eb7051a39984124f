//! The machine as a mathematical object: its state, and what each
//! instruction does to it.
//!
//! Every operation is total. One that can fail yields the state it reached
//! together with `Ok` or the fault: a fault leaves the state as it was when
//! the failing access was attempted, with the program counter past the
//! bytes already fetched.

use crate::error::VmError;
use crate::instruction::Instruction;
use crate::memory::read_byte_spec;
use crate::memory::read_word_spec;
use crate::memory::word_in_bounds;
use crate::memory::write_word_spec;
use crate::memory::out_of_bounds;
use vstd::prelude::*;

verus! {

/// The number of registers: eight general-purpose ones and the accumulator.
pub const REGISTER_COUNT: usize = 9;

/// The index of the accumulator in the register file.
pub const ACCUMULATOR: u8 = 8;

/// The largest number of values the stack holds.
pub const STACK_CAPACITY: usize = 256;

/// Where the engine stands: it runs until it halts or faults, and both of
/// those are final.
#[derive(Clone, Copy, Debug, PartialEq, Eq, Structural)]
pub enum State {
    Running,
    Halted,
    Faulted(VmError),
}

/// Something the program emitted for its host to observe.
#[derive(Clone, Copy, Debug, PartialEq, Eq, Structural)]
pub enum Event {
    /// `Print` showed the register numbered `register`, which held `value`.
    Print { register: u8, value: u16 },
    /// `Add` combined `left` and `right` into `result`.
    Add { left: u16, right: u16, result: u16 },
}

/// The value of `x` modulo 2^16.
pub open spec fn wrap16(x: int) -> u16 {
    (x % 0x10000) as u16
}

/// What an arithmetic instruction computes from two register values.
pub open spec fn arithmetic(instruction: Instruction, left: u16, right: u16) -> u16 {
    match instruction {
        Instruction::Add => wrap16(left + right),
        Instruction::Sub => wrap16(left - right),
        _ => wrap16(left * right),
    }
}

/// What a comparison instruction decides about two register values.
pub open spec fn comparison(instruction: Instruction, left: u16, right: u16) -> bool {
    match instruction {
        Instruction::Cmp => left == right,
        Instruction::CmpNot => left != right,
        Instruction::Lt => left < right,
        _ => left > right,
    }
}

/// Whether a jump instruction transfers control, given the flag.
pub open spec fn jump_taken(instruction: Instruction, zf: bool) -> bool {
    match instruction {
        Instruction::Jmp => true,
        Instruction::JmpZ => zf,
        _ => !zf,
    }
}

/// The whole state of the machine.
#[verifier::ext_equal]
pub struct VmState {
    /// The bytes of memory, in address order.
    pub memory: Seq<u8>,
    /// The registers: `R0` to `R7`, then the accumulator.
    pub registers: Seq<u16>,
    /// The values on the stack, the most recently pushed one last.
    pub stack: Seq<u16>,
    /// The address of the next byte to fetch.
    pub pc: nat,
    /// The flag that comparisons set and conditional jumps read.
    pub zf: bool,
    /// Whether the engine is running, has halted or has faulted.
    pub state: State,
    /// What the program has emitted so far, oldest first.
    pub output: Seq<Event>,
}

impl VmState {
    /// There are nine registers and the stack is within its capacity.
    pub open spec fn wf(self) -> bool {
        &&& self.registers.len() == REGISTER_COUNT
        &&& self.stack.len() <= STACK_CAPACITY
    }

    /// The state in which a run over `memory` starts.
    pub open spec fn initial(memory: Seq<u8>) -> VmState {
        VmState {
            memory,
            registers: Seq::new(REGISTER_COUNT as nat, |i: int| 0u16),
            stack: Seq::empty(),
            pc: 0,
            zf: false,
            state: State::Running,
            output: Seq::empty(),
        }
    }

    /// The stack pointer: the number of values on the stack.
    pub open spec fn sp(self) -> nat {
        self.stack.len()
    }

    /// Reads the byte at the program counter and steps over it.
    pub open spec fn fetch(self) -> (VmState, Result<u8, VmError>) {
        match read_byte_spec(self.memory, self.pc as int) {
            Ok(byte) => (VmState { pc: self.pc + 1, ..self }, Ok(byte)),
            Err(error) => (self, Err(error)),
        }
    }

    /// Reads the little-endian word at the program counter and steps over
    /// it.
    pub open spec fn fetch_word(self) -> (VmState, Result<u16, VmError>) {
        match read_word_spec(self.memory, self.pc as int) {
            Ok(word) => (VmState { pc: self.pc + 2, ..self }, Ok(word)),
            Err(error) => (self, Err(error)),
        }
    }

    /// Puts `value` on top of the stack, unless the stack is full.
    pub open spec fn push(self, value: u16) -> (VmState, Result<(), VmError>) {
        if self.stack.len() < STACK_CAPACITY {
            (VmState { stack: self.stack.push(value), ..self }, Ok(()))
        } else {
            (self, Err(VmError::StackOverflow))
        }
    }

    /// Takes the top value off the stack, unless the stack is empty.
    pub open spec fn pop(self) -> (VmState, Result<u16, VmError>) {
        if self.stack.len() > 0 {
            (VmState { stack: self.stack.drop_last(), ..self }, Ok(self.stack.last()))
        } else {
            (self, Err(VmError::StackUnderflow))
        }
    }

    /// The value of the register numbered `index`.
    pub open spec fn read_register(self, index: u8) -> Result<u16, VmError> {
        if index < REGISTER_COUNT {
            Ok(self.registers[index as int])
        } else {
            Err(VmError::InvalidRegister { index })
        }
    }

    /// Gives the register numbered `index` the value `value`.
    pub open spec fn write_register(self, index: u8, value: u16) -> (VmState, Result<(), VmError>) {
        if index < REGISTER_COUNT {
            (VmState { registers: self.registers.update(index as int, value), ..self }, Ok(()))
        } else {
            (self, Err(VmError::InvalidRegister { index }))
        }
    }

    /// Stores `value` as a little-endian word at `address`.
    pub open spec fn store_word(self, address: u16, value: u16) -> (VmState, Result<(), VmError>) {
        if word_in_bounds(self.memory, address as int) {
            (VmState { memory: write_word_spec(self.memory, address as int, value), ..self }, Ok(()))
        } else {
            (self, Err(out_of_bounds(address as int)))
        }
    }

    /// Appends `event` to the output.
    pub open spec fn emit(self, event: Event) -> VmState {
        VmState { output: self.output.push(event), ..self }
    }

    /// Fetches a register operand and reads the register it names.
    pub open spec fn fetch_value(self) -> (VmState, Result<u16, VmError>) {
        let (fetched, index) = self.fetch();
        match index {
            Ok(index) => (fetched, fetched.read_register(index)),
            Err(error) => (fetched, Err(error)),
        }
    }

    /// Fetches two register operands in turn, reading each register as soon
    /// as its operand is fetched.
    pub open spec fn fetch_values(self) -> (VmState, Result<(u16, u16), VmError>) {
        let (first, left) = self.fetch_value();
        match left {
            Ok(left) => {
                let (second, right) = first.fetch_value();
                match right {
                    Ok(right) => (second, Ok((left, right))),
                    Err(error) => (second, Err(error)),
                }
            },
            Err(error) => (first, Err(error)),
        }
    }

    /// `MoveLit`: a register operand and a literal; the register takes the
    /// literal.
    pub open spec fn move_lit(self) -> (VmState, Result<(), VmError>) {
        let (s1, register) = self.fetch();
        match register {
            Ok(register) => {
                let (s2, literal) = s1.fetch_word();
                match literal {
                    Ok(literal) => s2.write_register(register, literal),
                    Err(error) => (s2, Err(error)),
                }
            },
            Err(error) => (s1, Err(error)),
        }
    }

    /// `MoveReg`: a source and a destination operand; the destination takes
    /// the source's value.
    pub open spec fn move_reg(self) -> (VmState, Result<(), VmError>) {
        let (s1, source) = self.fetch();
        match source {
            Ok(source) => {
                let (s2, destination) = s1.fetch();
                match destination {
                    Ok(destination) => match s2.read_register(source) {
                        Ok(value) => s2.write_register(destination, value),
                        Err(error) => (s2, Err(error)),
                    },
                    Err(error) => (s2, Err(error)),
                }
            },
            Err(error) => (s1, Err(error)),
        }
    }

    /// `MoveRegMem`: a register operand and an address; the register takes
    /// the word stored at the address.
    pub open spec fn move_reg_mem(self) -> (VmState, Result<(), VmError>) {
        let (s1, register) = self.fetch();
        match register {
            Ok(register) => {
                let (s2, address) = s1.fetch_word();
                match address {
                    Ok(address) => match read_word_spec(s2.memory, address as int) {
                        Ok(word) => s2.write_register(register, word),
                        Err(error) => (s2, Err(error)),
                    },
                    Err(error) => (s2, Err(error)),
                }
            },
            Err(error) => (s1, Err(error)),
        }
    }

    /// `MoveMemReg`: a register operand and an address; the register's value
    /// is stored at the address.
    pub open spec fn move_mem_reg(self) -> (VmState, Result<(), VmError>) {
        let (s1, register) = self.fetch();
        match register {
            Ok(register) => {
                let (s2, address) = s1.fetch_word();
                match address {
                    Ok(address) => match s2.read_register(register) {
                        Ok(value) => s2.store_word(address, value),
                        Err(error) => (s2, Err(error)),
                    },
                    Err(error) => (s2, Err(error)),
                }
            },
            Err(error) => (s1, Err(error)),
        }
    }

    /// `Add`, `Sub`, `Mul`: two register operands; the accumulator takes
    /// what `arithmetic` makes of their values. `Add` also emits an event.
    pub open spec fn arithmetic_op(self, instruction: Instruction) -> (
        VmState,
        Result<(), VmError>,
    ) {
        let (s1, values) = self.fetch_values();
        match values {
            Ok((left, right)) => {
                let result = arithmetic(instruction, left, right);
                let s2 = VmState {
                    registers: s1.registers.update(ACCUMULATOR as int, result),
                    ..s1
                };
                if instruction == Instruction::Add {
                    (s2.emit(Event::Add { left, right, result }), Ok(()))
                } else {
                    (s2, Ok(()))
                }
            },
            Err(error) => (s1, Err(error)),
        }
    }

    /// `PushLit`: a literal, which is pushed.
    pub open spec fn push_lit(self) -> (VmState, Result<(), VmError>) {
        let (s1, literal) = self.fetch_word();
        match literal {
            Ok(literal) => s1.push(literal),
            Err(error) => (s1, Err(error)),
        }
    }

    /// `PushReg`: a register operand, whose value is pushed.
    pub open spec fn push_reg(self) -> (VmState, Result<(), VmError>) {
        let (s1, value) = self.fetch_value();
        match value {
            Ok(value) => s1.push(value),
            Err(error) => (s1, Err(error)),
        }
    }

    /// `Pop`: a register operand; the register takes the popped value.
    pub open spec fn pop_reg(self) -> (VmState, Result<(), VmError>) {
        let (s1, register) = self.fetch();
        match register {
            Ok(register) => {
                let (s2, value) = s1.pop();
                match value {
                    Ok(value) => s2.write_register(register, value),
                    Err(error) => (s2, Err(error)),
                }
            },
            Err(error) => (s1, Err(error)),
        }
    }

    /// `Print`: a register operand; the register's number and value are
    /// emitted.
    pub open spec fn print(self) -> (VmState, Result<(), VmError>) {
        let (s1, register) = self.fetch();
        match register {
            Ok(register) => match s1.read_register(register) {
                Ok(value) => (s1.emit(Event::Print { register, value }), Ok(())),
                Err(error) => (s1, Err(error)),
            },
            Err(error) => (s1, Err(error)),
        }
    }

    /// `Cmp`, `CmpNot`, `Lt`, `Gt`: two register operands; the flag takes
    /// what `comparison` decides about their values.
    pub open spec fn comparison_op(self, instruction: Instruction) -> (
        VmState,
        Result<(), VmError>,
    ) {
        let (s1, values) = self.fetch_values();
        match values {
            Ok((left, right)) => (
                VmState { zf: comparison(instruction, left, right), ..s1 },
                Ok(()),
            ),
            Err(error) => (s1, Err(error)),
        }
    }

    /// `Jmp`, `JmpZ`, `JmpNZ`: an address, which is always fetched; the
    /// program counter takes it if `jump_taken` says so.
    pub open spec fn jump_op(self, instruction: Instruction) -> (VmState, Result<(), VmError>) {
        let (s1, target) = self.fetch_word();
        match target {
            Ok(target) => if jump_taken(instruction, s1.zf) {
                (VmState { pc: target as nat, ..s1 }, Ok(()))
            } else {
                (s1, Ok(()))
            },
            Err(error) => (s1, Err(error)),
        }
    }

    /// Executes one decoded instruction, whose operands start at the program
    /// counter. `HLT` has no effect here: halting is a matter of `step`.
    pub open spec fn cycle(self, instruction: Instruction) -> (VmState, Result<(), VmError>) {
        match instruction {
            Instruction::NOP | Instruction::HLT => (self, Ok(())),
            Instruction::MoveLit => self.move_lit(),
            Instruction::MoveReg => self.move_reg(),
            Instruction::MoveRegMem => self.move_reg_mem(),
            Instruction::MoveMemReg => self.move_mem_reg(),
            Instruction::Add | Instruction::Sub | Instruction::Mul => self.arithmetic_op(
                instruction,
            ),
            Instruction::PushLit => self.push_lit(),
            Instruction::PushReg => self.push_reg(),
            Instruction::Pop => self.pop_reg(),
            Instruction::Print => self.print(),
            Instruction::Cmp | Instruction::CmpNot | Instruction::Lt | Instruction::Gt =>
                self.comparison_op(instruction),
            Instruction::Jmp | Instruction::JmpZ | Instruction::JmpNZ => self.jump_op(instruction),
        }
    }

    /// This state, faulted with `error`.
    pub open spec fn fault(self, error: VmError) -> VmState {
        VmState { state: State::Faulted(error), ..self }
    }

    /// This state, halted.
    pub open spec fn halt(self) -> VmState {
        VmState { state: State::Halted, ..self }
    }

    /// One transition. A machine that is not running stays as it is. A
    /// running one fetches an opcode and decodes it; `HLT` halts it, any
    /// other instruction is executed, and whatever fails on the way faults
    /// it.
    pub open spec fn step(self) -> VmState {
        if self.state != State::Running {
            self
        } else {
            let (fetched, opcode) = self.fetch();
            match opcode {
                Ok(opcode) => match Instruction::decode_spec(opcode) {
                    Ok(instruction) => if instruction == Instruction::HLT {
                        fetched.halt()
                    } else {
                        let (executed, result) = fetched.cycle(instruction);
                        match result {
                            Ok(_) => executed,
                            Err(error) => executed.fault(error),
                        }
                    },
                    Err(error) => fetched.fault(error),
                },
                Err(error) => fetched.fault(error),
            }
        }
    }

    /// The state after `steps` transitions.
    pub open spec fn run(self, steps: nat) -> VmState
        decreases steps,
    {
        if steps == 0 {
            self
        } else {
            self.step().run((steps - 1) as nat)
        }
    }

    /// What a caller is told of this state: the fault, if there is one.
    pub open spec fn outcome(self) -> Result<(), VmError> {
        match self.state {
            State::Faulted(error) => Err(error),
            _ => Ok(()),
        }
    }
}

} // verus!
