//! The execution engine: registers, stack, flag and program counter around
//! a memory, and the fetch-decode-execute loop that drives them.

use crate::error::VmError;
use crate::instruction::Instruction;
use crate::laws::lemma_stopped_stays;
use crate::memory::Memory;
use crate::register::Register;
use crate::semantics::Event;
use crate::semantics::State;
use crate::semantics::VmState;
use crate::semantics::ACCUMULATOR;
use crate::semantics::REGISTER_COUNT;
use crate::semantics::STACK_CAPACITY;
use vstd::prelude::*;

verus! {

/// The machine. Its view is the [`VmState`] it stands for: the stack of the
/// view holds the values pushed and not yet popped, so its length is the
/// stack pointer.
pub struct VM {
    memory: Memory,
    registers: [u16; REGISTER_COUNT],
    stack: [u16; STACK_CAPACITY],
    pc: usize,
    sp: usize,
    zf: bool,
    state: State,
    output: Vec<Event>,
}

impl View for VM {
    type V = VmState;

    closed spec fn view(&self) -> VmState {
        VmState {
            memory: self.memory@,
            registers: self.registers@,
            stack: Seq::new(self.sp as nat, |i: int| self.stack@[i]),
            pc: self.pc as nat,
            zf: self.zf,
            state: self.state,
            output: self.output@,
        }
    }
}

impl VM {
    /// The stack pointer is within the stack's capacity.
    pub closed spec fn wf(&self) -> bool {
        self.sp <= STACK_CAPACITY
    }

    /// A well-formed machine stands for a well-formed state.
    pub proof fn lemma_view_wf(&self)
        requires
            self.wf(),
        ensures
            self@.wf(),
    {
    }

    /// A machine about to run the program in `memory`: all registers zero,
    /// the stack empty, the flag clear, the program counter at address 0.
    pub fn new(memory: Memory) -> (vm: VM)
        ensures
            vm.wf(),
            vm@ == VmState::initial(memory@),
    {
        let vm = VM {
            memory,
            registers: [0u16; REGISTER_COUNT],
            stack: [0u16; STACK_CAPACITY],
            pc: 0,
            sp: 0,
            zf: false,
            state: State::Running,
            output: Vec::new(),
        };
        assert(vm@.registers =~= VmState::initial(memory@).registers);
        assert(vm@.stack =~= VmState::initial(memory@).stack);
        vm
    }

    /// Reads the byte at the program counter and advances past it.
    pub fn fetch(&mut self) -> (byte: Result<u8, VmError>)
        requires
            old(self).wf(),
        ensures
            final(self).wf(),
            final(self)@ == old(self)@.fetch().0,
            byte == old(self)@.fetch().1,
    {
        let byte: u8 = self.memory.read_byte(self.pc)?;
        proof {
            self.memory.lemma_size_fits();
        }
        self.pc += 1;
        Ok(byte)
    }

    /// Reads the little-endian word at the program counter and advances past
    /// it.
    pub fn fetch_word(&mut self) -> (word: Result<u16, VmError>)
        requires
            old(self).wf(),
        ensures
            final(self).wf(),
            final(self)@ == old(self)@.fetch_word().0,
            word == old(self)@.fetch_word().1,
    {
        let word: u16 = self.memory.read_word(self.pc)?;
        proof {
            self.memory.lemma_size_fits();
        }
        self.pc += 2;
        Ok(word)
    }

    /// Pushes `value`, or reports an overflow if the stack is full.
    pub fn push(&mut self, value: u16) -> (pushed: Result<(), VmError>)
        requires
            old(self).wf(),
        ensures
            final(self).wf(),
            final(self)@ == old(self)@.push(value).0,
            pushed == old(self)@.push(value).1,
    {
        if self.sp >= STACK_CAPACITY {
            return Err(VmError::StackOverflow);
        }
        self.stack[self.sp] = value;
        self.sp += 1;
        assert(self@.stack =~= old(self)@.stack.push(value));
        Ok(())
    }

    /// Pops the most recently pushed value, or reports an underflow if the
    /// stack is empty.
    pub fn pop(&mut self) -> (popped: Result<u16, VmError>)
        requires
            old(self).wf(),
        ensures
            final(self).wf(),
            final(self)@ == old(self)@.pop().0,
            popped == old(self)@.pop().1,
    {
        if self.sp == 0 {
            return Err(VmError::StackUnderflow);
        }
        self.sp -= 1;
        assert(self@.stack =~= old(self)@.stack.drop_last());
        Ok(self.stack[self.sp])
    }

    /// The value of the register numbered `index`, or an error if there is
    /// no such register.
    pub fn read_register(&self, index: u8) -> (value: Result<u16, VmError>)
        ensures
            value == self@.read_register(index),
    {
        if index as usize >= REGISTER_COUNT {
            return Err(VmError::InvalidRegister { index });
        }
        Ok(self.registers[index as usize])
    }

    /// Gives the register numbered `index` the value `value`, or reports an
    /// error if there is no such register.
    pub fn write_register(&mut self, index: u8, value: u16) -> (written: Result<(), VmError>)
        requires
            old(self).wf(),
        ensures
            final(self).wf(),
            final(self)@ == old(self)@.write_register(index, value).0,
            written == old(self)@.write_register(index, value).1,
    {
        if index as usize >= REGISTER_COUNT {
            return Err(VmError::InvalidRegister { index });
        }
        self.registers[index as usize] = value;
        Ok(())
    }

    /// Fetches a register operand and reads the register it names.
    pub fn fetch_value(&mut self) -> (value: Result<u16, VmError>)
        requires
            old(self).wf(),
        ensures
            final(self).wf(),
            final(self)@ == old(self)@.fetch_value().0,
            value == old(self)@.fetch_value().1,
    {
        let index: u8 = self.fetch()?;
        self.read_register(index)
    }

    /// Fetches two register operands and reads the registers they name, the
    /// first before the second operand is fetched.
    pub fn fetch_values(&mut self) -> (values: Result<(u16, u16), VmError>)
        requires
            old(self).wf(),
        ensures
            final(self).wf(),
            final(self)@ == old(self)@.fetch_values().0,
            values == old(self)@.fetch_values().1,
    {
        let left: u16 = self.fetch_value()?;
        let right: u16 = self.fetch_value()?;
        Ok((left, right))
    }

    /// Executes one decoded instruction, fetching its operands from the
    /// program counter on. On an error the machine keeps the state it had
    /// when the failing access was attempted.
    pub fn cycle(&mut self, instruction: Instruction) -> (done: Result<(), VmError>)
        requires
            old(self).wf(),
        ensures
            final(self).wf(),
            final(self)@ == old(self)@.cycle(instruction).0,
            done == old(self)@.cycle(instruction).1,
    {
        match instruction {
            Instruction::NOP => Ok(()),
            Instruction::HLT => Ok(()),
            Instruction::MoveLit => {
                let register: u8 = self.fetch()?;
                let value: u16 = self.fetch_word()?;
                self.write_register(register, value)
            },
            Instruction::MoveReg => {
                let source: u8 = self.fetch()?;
                let destination: u8 = self.fetch()?;
                let value: u16 = self.read_register(source)?;
                self.write_register(destination, value)
            },
            Instruction::MoveRegMem => {
                let register: u8 = self.fetch()?;
                let address: u16 = self.fetch_word()?;
                let value: u16 = self.memory.read_word(address as usize)?;
                self.write_register(register, value)
            },
            Instruction::MoveMemReg => {
                let register: u8 = self.fetch()?;
                let address: u16 = self.fetch_word()?;
                let value: u16 = self.read_register(register)?;
                self.memory.write_word(address as usize, value)?;
                Ok(())
            },
            Instruction::Add => {
                let (left, right): (u16, u16) = self.fetch_values()?;
                let result: u16 = left.wrapping_add(right);
                self.registers[ACCUMULATOR as usize] = result;
                self.output.push(Event::Add { left, right, result });
                Ok(())
            },
            Instruction::Sub => {
                let (left, right): (u16, u16) = self.fetch_values()?;
                self.registers[ACCUMULATOR as usize] = left.wrapping_sub(right);
                Ok(())
            },
            Instruction::Mul => {
                let (left, right): (u16, u16) = self.fetch_values()?;
                self.registers[ACCUMULATOR as usize] = left.wrapping_mul(right);
                Ok(())
            },
            Instruction::PushLit => {
                let value: u16 = self.fetch_word()?;
                self.push(value)
            },
            Instruction::PushReg => {
                let value: u16 = self.fetch_value()?;
                self.push(value)
            },
            Instruction::Pop => {
                let register: u8 = self.fetch()?;
                let value: u16 = self.pop()?;
                self.write_register(register, value)
            },
            Instruction::Print => {
                let register: u8 = self.fetch()?;
                let value: u16 = self.read_register(register)?;
                self.output.push(Event::Print { register, value });
                Ok(())
            },
            Instruction::Cmp => {
                let (left, right): (u16, u16) = self.fetch_values()?;
                self.zf = left == right;
                Ok(())
            },
            Instruction::CmpNot => {
                let (left, right): (u16, u16) = self.fetch_values()?;
                self.zf = left != right;
                Ok(())
            },
            Instruction::Lt => {
                let (left, right): (u16, u16) = self.fetch_values()?;
                self.zf = left < right;
                Ok(())
            },
            Instruction::Gt => {
                let (left, right): (u16, u16) = self.fetch_values()?;
                self.zf = left > right;
                Ok(())
            },
            Instruction::Jmp => {
                let target: u16 = self.fetch_word()?;
                self.pc = target as usize;
                Ok(())
            },
            Instruction::JmpZ => {
                let target: u16 = self.fetch_word()?;
                if self.zf {
                    self.pc = target as usize;
                }
                Ok(())
            },
            Instruction::JmpNZ => {
                let target: u16 = self.fetch_word()?;
                if !self.zf {
                    self.pc = target as usize;
                }
                Ok(())
            },
        }
    }

    /// Whether the engine is running, has halted or has faulted.
    pub fn state(&self) -> (state: State)
        ensures
            state == self@.state,
    {
        self.state
    }

    /// The address of the next byte to fetch.
    pub fn pc(&self) -> (pc: usize)
        ensures
            pc == self@.pc,
    {
        self.pc
    }

    /// The stack pointer: the number of values on the stack.
    pub fn sp(&self) -> (sp: usize)
        ensures
            sp == self@.sp(),
    {
        self.sp
    }

    /// The flag that the last comparison set.
    pub fn zf(&self) -> (zf: bool)
        ensures
            zf == self@.zf,
    {
        self.zf
    }

    /// The value that `register` holds.
    pub fn register(&self, register: Register) -> (value: u16)
        ensures
            value == self@.registers[register.index_spec() as int],
    {
        self.registers[register.index() as usize]
    }

    /// The memory the machine works on.
    pub fn memory(&self) -> (memory: &Memory)
        ensures
            memory@ == self@.memory,
    {
        &self.memory
    }

    /// The values on the stack, the most recently pushed one last.
    pub fn stack(&self) -> (values: Vec<u16>)
        requires
            self.wf(),
        ensures
            values@ == self@.stack,
    {
        let mut values: Vec<u16> = Vec::new();
        let mut i: usize = 0;
        while i < self.sp
            invariant
                self.wf(),
                i <= self.sp,
                values@ == self@.stack.take(i as int),
            decreases self.sp - i,
        {
            values.push(self.stack[i]);
            i += 1;
            assert(values@ =~= self@.stack.take(i as int));
        }
        assert(self@.stack.take(self.sp as int) =~= self@.stack);
        values
    }

    /// What the program has emitted and the host has not yet taken.
    pub fn output(&self) -> (events: &Vec<Event>)
        ensures
            events@ == self@.output,
    {
        &self.output
    }

    /// Hands over what the program has emitted, leaving the output empty.
    pub fn take_output(&mut self) -> (events: Vec<Event>)
        requires
            old(self).wf(),
        ensures
            final(self).wf(),
            events@ == old(self)@.output,
            final(self)@ == (VmState { output: Seq::empty(), ..old(self)@ }),
    {
        let mut events: Vec<Event> = Vec::new();
        std::mem::swap(&mut events, &mut self.output);
        events
    }

    /// Whether the machine is still running.
    pub fn is_running(&self) -> (running: bool)
        ensures
            running == (self@.state == State::Running),
    {
        match self.state {
            State::Running => true,
            _ => false,
        }
    }

    /// Performs one transition and reports the fault, if the machine has
    /// faulted. A machine that has halted or faulted is left untouched.
    pub fn step(&mut self) -> (outcome: Result<(), VmError>)
        requires
            old(self).wf(),
        ensures
            final(self).wf(),
            final(self)@ == old(self)@.step(),
            outcome == final(self)@.outcome(),
    {
        match self.state {
            State::Running => {},
            State::Halted => {
                return Ok(());
            },
            State::Faulted(error) => {
                return Err(error);
            },
        }
        let executed: Result<(), VmError> = match self.fetch() {
            Ok(opcode) => match Instruction::decode(opcode) {
                Ok(Instruction::HLT) => {
                    self.state = State::Halted;
                    Ok(())
                },
                Ok(instruction) => self.cycle(instruction),
                Err(error) => Err(error),
            },
            Err(error) => Err(error),
        };
        if let Err(error) = executed {
            self.state = State::Faulted(error);
        }
        executed
    }

    /// Performs transitions until the machine halts or faults, but at most
    /// `max_steps` of them, and reports the fault, if the machine has
    /// faulted. A machine that is still running afterwards can be run on.
    pub fn run(&mut self, max_steps: u64) -> (outcome: Result<(), VmError>)
        requires
            old(self).wf(),
        ensures
            final(self).wf(),
            final(self)@ == old(self)@.run(max_steps as nat),
            outcome == final(self)@.outcome(),
    {
        let mut remaining: u64 = max_steps;
        let mut outcome: Result<(), VmError> = self.outcome();
        while remaining > 0 && self.is_running()
            invariant
                self.wf(),
                self@.run(remaining as nat) == old(self)@.run(max_steps as nat),
                outcome == self@.outcome(),
            decreases remaining,
        {
            outcome = self.step();
            remaining -= 1;
        }
        proof {
            if remaining > 0 {
                lemma_stopped_stays(self@, remaining as nat);
            }
        }
        outcome
    }

    /// The fault, if the machine has faulted.
    pub fn outcome(&self) -> (outcome: Result<(), VmError>)
        ensures
            outcome == self@.outcome(),
    {
        match self.state {
            State::Faulted(error) => Err(error),
            _ => Ok(()),
        }
    }
}

} // verus!
