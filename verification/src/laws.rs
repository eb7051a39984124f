//! What holds of the machine on all inputs: the stack is last-in
//! first-out, arithmetic wraps at 2^16, comparisons and jumps do what their
//! names say, and a byte that is no opcode stops the run.

use crate::error::VmError;
use crate::instruction::lemma_decode_inverts_opcode;
use crate::instruction::Instruction;
use crate::memory::byte_in_bounds;
use crate::memory::word_in_bounds;
use crate::memory::lemma_word_round_trip;
use crate::memory::read_word_spec;
use crate::memory::word_of;
use crate::memory::write_word_spec;
use crate::semantics::Event;
use crate::semantics::wrap16;
use crate::semantics::State;
use crate::semantics::VmState;
use crate::semantics::ACCUMULATOR;
use crate::semantics::REGISTER_COUNT;
use crate::semantics::STACK_CAPACITY;
use vstd::prelude::*;

verus! {

/// The state after pushing `values` one by one, the first one first.
pub open spec fn push_all(s: VmState, values: Seq<u16>) -> VmState
    decreases values.len(),
{
    if values.len() == 0 {
        s
    } else {
        push_all(s.push(values.first()).0, values.drop_first())
    }
}

/// The state after popping `count` times, with the values popped, the first
/// one popped first. Popping ends early at an empty stack.
pub open spec fn pop_many(s: VmState, count: nat) -> (VmState, Seq<u16>)
    decreases count,
{
    if count == 0 {
        (s, Seq::empty())
    } else {
        match s.pop().1 {
            Ok(value) => {
                let (rest, values) = pop_many(s.pop().0, (count - 1) as nat);
                (rest, seq![value] + values)
            },
            Err(_) => (s, Seq::empty()),
        }
    }
}

/// Pushes that fit in the stack all succeed: they put their values on top
/// of what was there, in order, and touch nothing else.
pub proof fn lemma_push_all(s: VmState, values: Seq<u16>)
    requires
        s.stack.len() + values.len() <= STACK_CAPACITY,
    ensures
        push_all(s, values) == (VmState { stack: s.stack + values, ..s }),
    decreases values.len(),
{
    if values.len() == 0 {
        assert(s.stack + values =~= s.stack);
    } else {
        let next = s.push(values.first()).0;
        lemma_push_all(next, values.drop_first());
        assert(next.stack + values.drop_first() =~= s.stack + values);
    }
}

/// Popping as many values as lie on top of `base` returns them last one
/// first and leaves `base`.
pub proof fn lemma_pop_many(s: VmState, base: Seq<u16>, values: Seq<u16>)
    requires
        s.stack == base + values,
    ensures
        pop_many(s, values.len()) == ((VmState { stack: base, ..s }), values.reverse()),
    decreases values.len(),
{
    if values.len() == 0 {
        assert(base + values =~= base);
        assert(values.reverse() =~= Seq::<u16>::empty());
    } else {
        let next = s.pop().0;
        assert(s.stack.last() == values.last());
        assert(next.stack =~= base + values.drop_last());
        lemma_pop_many(next, base, values.drop_last());
        assert(seq![values.last()] + values.drop_last().reverse() =~= values.reverse());
    }
}

/// The stack is last-in first-out: after pushes that fit in the stack, as
/// many pops return the pushed values in reverse order and leave the
/// machine as it was before the pushes.
pub proof fn lemma_stack_is_lifo(s: VmState, values: Seq<u16>)
    requires
        s.stack.len() + values.len() <= STACK_CAPACITY,
    ensures
        pop_many(push_all(s, values), values.len()) == (s, values.reverse()),
{
    lemma_push_all(s, values);
    lemma_pop_many(push_all(s, values), s.stack, values);
}

/// Whether the two bytes at the program counter are the register operands
/// `first` and `second`, both naming registers.
pub open spec fn has_register_operands(s: VmState, first: u8, second: u8) -> bool {
    &&& s.wf()
    &&& word_in_bounds(s.memory, s.pc as int)
    &&& s.memory[s.pc as int] == first
    &&& s.memory[s.pc as int + 1] == second
    &&& first < REGISTER_COUNT
    &&& second < REGISTER_COUNT
}

/// Whether the three bytes at the program counter are the register operand
/// `register`, naming a register, and the little-endian word `word`.
pub open spec fn has_register_word_operands(s: VmState, register: u8, word: u16) -> bool {
    &&& s.wf()
    &&& s.pc + 2 < s.memory.len()
    &&& s.memory[s.pc as int] == register
    &&& register < REGISTER_COUNT
    &&& word == word_of(s.memory[s.pc as int + 1], s.memory[s.pc as int + 2])
}

/// Whether the two bytes at the program counter are the little-endian word
/// `word`.
pub open spec fn has_word_operand(s: VmState, word: u16) -> bool {
    &&& word_in_bounds(s.memory, s.pc as int)
    &&& word == word_of(s.memory[s.pc as int], s.memory[s.pc as int + 1])
}

/// `NOP` and, once decoded, `HLT` change nothing at all.
pub proof fn lemma_nop_is_idle(s: VmState)
    ensures
        s.cycle(Instruction::NOP) == (s, Ok::<(), VmError>(())),
        s.cycle(Instruction::HLT) == (s, Ok::<(), VmError>(())),
{
}

/// `MoveLit` gives the register the literal, and `MoveReg` gives the
/// destination, its second operand, the value of the source, its first.
/// Each steps over its operands and changes nothing else.
pub proof fn lemma_register_moves(s: VmState, first: u8, second: u8, literal: u16)
    ensures
        has_register_word_operands(s, first, literal) ==> s.cycle(Instruction::MoveLit) == ((
            VmState { pc: s.pc + 3, registers: s.registers.update(first as int, literal), ..s }
        ), Ok::<(), VmError>(())),
        has_register_operands(s, first, second) ==> s.cycle(Instruction::MoveReg) == ((
            VmState {
                pc: s.pc + 2,
                registers: s.registers.update(second as int, s.registers[first as int]),
                ..s
            }
        ), Ok::<(), VmError>(())),
{
}

/// `MoveRegMem` gives the register the word stored at the address, and
/// `MoveMemReg` stores the register's value at the address, low byte first,
/// so that loading from the same address gives it back. Each steps over its
/// operands and changes nothing else.
pub proof fn lemma_memory_moves(s: VmState, register: u8, address: u16)
    requires
        has_register_word_operands(s, register, address),
        word_in_bounds(s.memory, address as int),
    ensures
        s.cycle(Instruction::MoveRegMem) == ((
            VmState {
                pc: s.pc + 3,
                registers: s.registers.update(
                    register as int,
                    word_of(s.memory[address as int], s.memory[address as int + 1]),
                ),
                ..s
            }
        ), Ok::<(), VmError>(())),
        s.cycle(Instruction::MoveMemReg) == ((
            VmState {
                pc: s.pc + 3,
                memory: write_word_spec(s.memory, address as int, s.registers[register as int]),
                ..s
            }
        ), Ok::<(), VmError>(())),
        read_word_spec(s.cycle(Instruction::MoveMemReg).0.memory, address as int) == Ok::<
            u16,
            VmError,
        >(s.registers[register as int]),
{
    lemma_word_round_trip(s.memory, address as int, s.registers[register as int]);
}

/// On a stack with room, `PushLit` pushes its literal and `PushReg` the
/// value of its register; on a stack that is not empty, `Pop` gives its
/// register the top value and removes it. Each steps over its operand and
/// changes nothing else.
pub proof fn lemma_stack_instructions(s: VmState, register: u8, literal: u16)
    requires
        s.wf(),
    ensures
        has_word_operand(s, literal) && s.stack.len() < STACK_CAPACITY ==> s.cycle(
            Instruction::PushLit,
        ) == ((VmState { pc: s.pc + 2, stack: s.stack.push(literal), ..s }), Ok::<(), VmError>(())),
        byte_in_bounds(s.memory, s.pc as int) && s.memory[s.pc as int] == register && register
            < REGISTER_COUNT && s.stack.len() < STACK_CAPACITY ==> s.cycle(Instruction::PushReg)
            == ((
            VmState { pc: s.pc + 1, stack: s.stack.push(s.registers[register as int]), ..s }
        ), Ok::<(), VmError>(())),
        byte_in_bounds(s.memory, s.pc as int) && s.memory[s.pc as int] == register && register
            < REGISTER_COUNT && s.stack.len() > 0 ==> s.cycle(Instruction::Pop) == ((
            VmState {
                pc: s.pc + 1,
                stack: s.stack.drop_last(),
                registers: s.registers.update(register as int, s.stack.last()),
                ..s
            }
        ), Ok::<(), VmError>(())),
{
}

/// `Print` appends the number and the value of its register to the output,
/// steps over its operand and changes nothing else.
pub proof fn lemma_print_emits(s: VmState, register: u8)
    requires
        s.wf(),
        byte_in_bounds(s.memory, s.pc as int),
        s.memory[s.pc as int] == register,
        register < REGISTER_COUNT,
    ensures
        s.cycle(Instruction::Print) == ((
            VmState {
                pc: s.pc + 1,
                output: s.output.push(
                    Event::Print { register, value: s.registers[register as int] },
                ),
                ..s
            }
        ), Ok::<(), VmError>(())),
{
}

/// `Add`, `Sub` and `Mul` on registers holding `v1` and `v2` set the
/// accumulator to `v1 + v2`, `v1 - v2` and `v1 * v2` modulo 65536: sums and
/// products wrap, and so does a difference below zero. They step over their
/// two operands and leave the other registers, memory, the stack and the
/// flag alone. `Add` emits its operands and its result; the other two emit
/// nothing.
pub proof fn lemma_arithmetic_wraps(s: VmState, first: u8, second: u8)
    requires
        has_register_operands(s, first, second),
    ensures
        ({
            let v1: u16 = s.registers[first as int];
            let v2: u16 = s.registers[second as int];
            let sum: u16 = wrap16(v1 + v2);
            let difference: u16 = wrap16(v1 - v2);
            let product: u16 = wrap16(v1 * v2);
            let after = VmState { pc: s.pc + 2, ..s };
            &&& sum == (v1 + v2) % 65536
            &&& difference == (v1 - v2) % 65536
            &&& product == (v1 * v2) % 65536
            &&& s.cycle(Instruction::Add) == ((
                VmState {
                    registers: s.registers.update(ACCUMULATOR as int, sum),
                    output: s.output.push(Event::Add { left: v1, right: v2, result: sum }),
                    ..after
                }
            ), Ok::<(), VmError>(()))
            &&& s.cycle(Instruction::Sub) == ((
                VmState { registers: s.registers.update(ACCUMULATOR as int, difference), ..after }
            ), Ok::<(), VmError>(()))
            &&& s.cycle(Instruction::Mul) == ((
                VmState { registers: s.registers.update(ACCUMULATOR as int, product), ..after }
            ), Ok::<(), VmError>(()))
        }),
{
}

/// `Cmp` sets the flag exactly when the two register values are equal,
/// `CmpNot` exactly when they differ, `Lt` exactly when the first is less
/// and `Gt` exactly when the first is greater. Each overwrites whatever the
/// flag held, steps over its two operands and changes nothing else.
pub proof fn lemma_comparison_sets_flag(s: VmState, first: u8, second: u8)
    requires
        has_register_operands(s, first, second),
    ensures
        ({
            let v1: u16 = s.registers[first as int];
            let v2: u16 = s.registers[second as int];
            let after = VmState { pc: s.pc + 2, ..s };
            &&& s.cycle(Instruction::Cmp) == ((VmState { zf: v1 == v2, ..after }), Ok::<(), VmError>(()))
            &&& s.cycle(Instruction::CmpNot) == ((VmState { zf: v1 != v2, ..after }), Ok::<
                (),
                VmError,
            >(()))
            &&& s.cycle(Instruction::Lt) == ((VmState { zf: v1 < v2, ..after }), Ok::<(), VmError>(()))
            &&& s.cycle(Instruction::Gt) == ((VmState { zf: v1 > v2, ..after }), Ok::<(), VmError>(()))
            &&& s.cycle(Instruction::CmpNot).0.zf == !s.cycle(Instruction::Cmp).0.zf
        }),
{
}

/// `Jmp` always sets the program counter to its target. `JmpZ` does so
/// exactly when the flag is set and `JmpNZ` exactly when it is clear;
/// otherwise they leave the program counter just past the target operand.
/// Nothing else changes.
pub proof fn lemma_jump_targets(s: VmState)
    requires
        word_in_bounds(s.memory, s.pc as int),
    ensures
        ({
            let target: nat = word_of(s.memory[s.pc as int], s.memory[s.pc as int + 1]) as nat;
            let past: nat = s.pc + 2;
            &&& s.cycle(Instruction::Jmp) == ((VmState { pc: target, ..s }), Ok::<(), VmError>(()))
            &&& s.cycle(Instruction::JmpZ) == ((VmState { pc: if s.zf { target } else { past }, ..s }), Ok::<
                (),
                VmError,
            >(()))
            &&& s.cycle(Instruction::JmpNZ) == ((VmState { pc: if s.zf { past } else { target }, ..s }), Ok::<
                (),
                VmError,
            >(()))
        }),
{
}

/// Whether `instruction` is one of the three jumps.
pub open spec fn is_jump(instruction: Instruction) -> bool {
    instruction == Instruction::Jmp || instruction == Instruction::JmpZ || instruction
        == Instruction::JmpNZ
}

/// An instruction that succeeds has fetched exactly the operands of its
/// shape: they lay inside memory, and unless a jump took the program
/// counter elsewhere it now stands just past them. One that fails has not
/// gone beyond them. Either way the state stays well-formed, the size of
/// memory stays as it was, and whether the machine runs is not touched.
pub proof fn lemma_cycle_consumes_operands(s: VmState, instruction: Instruction)
    requires
        s.wf(),
    ensures
        ({
            let (t, done) = s.cycle(instruction);
            let past: int = s.pc + instruction.operands_spec().width_spec();
            &&& t.wf()
            &&& t.memory.len() == s.memory.len()
            &&& t.state == s.state
            &&& s.pc <= t.pc <= past || (is_jump(instruction) && done is Ok)
            &&& done is Ok && past > s.pc ==> past <= s.memory.len()
            &&& done is Ok && !is_jump(instruction) ==> t.pc == past
            &&& done is Ok && is_jump(instruction) ==> t.pc == past || t.pc == word_of(
                s.memory[s.pc as int],
                s.memory[s.pc as int + 1],
            )
        }),
{
}

/// A byte that is no instruction's opcode faults the machine: the fault
/// names the byte, and but for the program counter, which has passed the
/// byte, nothing is changed, as no instruction is executed in its place.
pub proof fn lemma_unknown_opcode_faults(s: VmState)
    requires
        s.state == State::Running,
        byte_in_bounds(s.memory, s.pc as int),
        forall|i: Instruction| i.opcode_spec() != s.memory[s.pc as int],
    ensures
        s.step() == (VmState {
            pc: s.pc + 1,
            state: State::Faulted(VmError::UnknownOpcode { opcode: s.memory[s.pc as int] }),
            ..s
        }),
        forall|steps: nat| steps > 0 ==> #[trigger] s.run(steps) == s.step(),
{
    assert forall|steps: nat| steps > 0 implies #[trigger] s.run(steps) == s.step() by {
        lemma_stopped_stays(s.step(), (steps - 1) as nat);
    }
}

/// `HLT` halts a running machine and has no other effect than to pass the
/// opcode.
pub proof fn lemma_hlt_halts(s: VmState)
    requires
        s.state == State::Running,
        byte_in_bounds(s.memory, s.pc as int),
        s.memory[s.pc as int] == Instruction::HLT.opcode_spec(),
    ensures
        s.step() == (VmState { pc: s.pc + 1, state: State::Halted, ..s }),
{
    lemma_decode_inverts_opcode(Instruction::HLT);
}

/// A machine that has halted or faulted stays exactly as it is, however
/// many transitions are asked of it.
pub proof fn lemma_stopped_stays(s: VmState, steps: nat)
    requires
        s.state != State::Running,
    ensures
        s.run(steps) == s,
    decreases steps,
{
    if steps > 0 {
        lemma_stopped_stays(s, (steps - 1) as nat);
    }
}

/// Once a run has stopped, a larger budget changes nothing: what `run`
/// reaches does not depend on the budget, as long as it suffices.
pub proof fn lemma_run_is_stable(s: VmState, enough: nat, more: nat)
    requires
        s.run(enough).state != State::Running,
        enough <= more,
    ensures
        s.run(more) == s.run(enough),
{
    lemma_run_composes(s, enough, (more - enough) as nat);
    lemma_stopped_stays(s.run(enough), (more - enough) as nat);
}

/// Running in two goes is running in one: `a` transitions and then `b` more
/// are `a + b` transitions.
pub proof fn lemma_run_composes(s: VmState, a: nat, b: nat)
    ensures
        s.run(a).run(b) == s.run(a + b),
    decreases a,
{
    if a > 0 {
        lemma_run_composes(s.step(), (a - 1) as nat, b);
    }
}

/// A transition keeps a well-formed state well-formed and never changes the
/// size of memory.
pub proof fn lemma_step_preserves_wf(s: VmState)
    requires
        s.wf(),
    ensures
        s.step().wf(),
        s.step().memory.len() == s.memory.len(),
{
}

} // verus!
