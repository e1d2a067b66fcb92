//! The mathematical model of the processor: its state as plain values, and what each
//! instruction and each step of the engine does to it.

use super::alu::{
    Operation, Rotation, decimal_adjust_flags, decimal_adjust_value, decrement_flags,
    decrement_value, double_add_carry, double_add_value, increment_flags, increment_value,
    operation_flags, operation_value, rotate_carry, rotate_value,
};
use super::condition::{Condition, lemma_status_byte_round_trip};
use super::decoder::{DecodeError, decode_spec, lemma_decode_total};
use super::instruction::Instruction;
use super::memory::{
    high_byte, lemma_bytes_of_word, lemma_word_bytes, lemma_word_read_back, low_byte,
    offset_address, with_word_at, word_at, word_of_bytes,
};
use super::register::{Register, RegisterPair};
use super::{Address, ExecutionError, StepResult};
use vstd::prelude::*;

verus! {

/// The state of the processor.
pub struct CpuState {
    /// The accumulator.
    pub a: u8,
    pub b: u8,
    pub c: u8,
    pub d: u8,
    pub e: u8,
    pub h: u8,
    pub l: u8,
    /// The stack pointer.
    pub sp: u16,
    /// The program counter.
    pub pc: u16,
    pub flags: Condition,
    /// The bytes of memory, indexed by address.
    pub memory: Seq<u8>,
    /// Whether interrupts are enabled: set by `EI`, cleared by `DI`.
    pub interrupts_enabled: bool,
    /// Whether `HLT` has been executed.
    pub halted: bool,
}

impl CpuState {
    /// The state after reset with the image `rom` loaded at address 0: the rest of
    /// memory, the registers, the stack pointer and the program counter are 0, the flags
    /// are clear, interrupts are disabled and the processor is not halted.
    pub open spec fn initial(rom: Seq<u8>) -> CpuState {
        CpuState {
            a: 0,
            b: 0,
            c: 0,
            d: 0,
            e: 0,
            h: 0,
            l: 0,
            sp: 0,
            pc: 0,
            flags: Condition { z: false, s: false, p: false, cy: false, ac: false },
            memory: Seq::new(
                65536,
                |i: int|
                    if i < rom.len() {
                        rom[i]
                    } else {
                        0u8
                    },
            ),
            interrupts_enabled: false,
            halted: false,
        }
    }

    /// Whether the state is one that a processor can be in: the memory has 65536 bytes.
    pub open spec fn wf(self) -> bool {
        self.memory.len() == 65536
    }

    /// The value of a register pair: for B:C, D:E and H:L the first register is the high
    /// byte.
    pub open spec fn pair(self, pair: RegisterPair) -> u16 {
        match pair {
            RegisterPair::BC => word_of_bytes(self.c, self.b),
            RegisterPair::DE => word_of_bytes(self.e, self.d),
            RegisterPair::HL => word_of_bytes(self.l, self.h),
            RegisterPair::SP => self.sp,
        }
    }

    /// The state with `value` in a register pair.
    pub open spec fn with_pair(self, pair: RegisterPair, value: u16) -> CpuState {
        match pair {
            RegisterPair::BC => CpuState { b: high_byte(value), c: low_byte(value), ..self },
            RegisterPair::DE => CpuState { d: high_byte(value), e: low_byte(value), ..self },
            RegisterPair::HL => CpuState { h: high_byte(value), l: low_byte(value), ..self },
            RegisterPair::SP => CpuState { sp: value, ..self },
        }
    }

    /// The value of an 8-bit operand: a register, or for `M` the byte of memory that HL
    /// addresses.
    pub open spec fn register(self, reg: Register) -> u8 {
        match reg {
            Register::A => self.a,
            Register::B => self.b,
            Register::C => self.c,
            Register::D => self.d,
            Register::E => self.e,
            Register::H => self.h,
            Register::L => self.l,
            Register::M => self.memory[self.pair(RegisterPair::HL) as int],
        }
    }

    /// The state with `value` in an 8-bit operand: in a register, or for `M` in the byte
    /// of memory that HL addresses.
    pub open spec fn with_register(self, reg: Register, value: u8) -> CpuState {
        match reg {
            Register::A => CpuState { a: value, ..self },
            Register::B => CpuState { b: value, ..self },
            Register::C => CpuState { c: value, ..self },
            Register::D => CpuState { d: value, ..self },
            Register::E => CpuState { e: value, ..self },
            Register::H => CpuState { h: value, ..self },
            Register::L => CpuState { l: value, ..self },
            Register::M => self.with_byte(self.pair(RegisterPair::HL), value),
        }
    }

    /// The state with `value` stored in memory at `address`.
    pub open spec fn with_byte(self, address: Address, value: u8) -> CpuState {
        CpuState { memory: self.memory.update(address as int, value), ..self }
    }

    /// The state with `value` stored in memory at `address`, low byte first.
    pub open spec fn with_word(self, address: Address, value: u16) -> CpuState {
        CpuState { memory: with_word_at(self.memory, address, value), ..self }
    }

    /// The state with the accumulator and the flags replaced.
    pub open spec fn with_result(self, a: u8, flags: Condition) -> CpuState {
        CpuState { a, flags, ..self }
    }

    /// The state after `word` is pushed: the stack pointer goes down by 2, modulo 65536,
    /// and the word lies at the new stack pointer, low byte first.
    pub open spec fn pushed(self, word: u16) -> CpuState {
        let sp = offset_address(self.sp, -2);
        CpuState { sp, memory: with_word_at(self.memory, sp, word), ..self }
    }

    /// The word on top of the stack.
    pub open spec fn top(self) -> u16 {
        word_at(self.memory, self.sp)
    }

    /// The state after the word on top of the stack is taken off: the stack pointer goes
    /// up by 2, modulo 65536.
    pub open spec fn popped(self) -> CpuState {
        CpuState { sp: offset_address(self.sp, 2), ..self }
    }

    /// The state after control goes to `address`.
    pub open spec fn jumped(self, address: Address) -> CpuState {
        CpuState { pc: address, ..self }
    }

    /// The address of the instruction that follows `instruction` when it stands at the
    /// program counter.
    pub open spec fn next_pc(self, instruction: Instruction) -> Address {
        offset_address(self.pc, instruction.size() as int)
    }

    /// The state after an operation of the arithmetic and logic group.
    pub open spec fn operated(self, operation: Operation, operand: u8) -> CpuState {
        self.with_result(
            operation_value(operation, self.a, operand, self.flags),
            operation_flags(operation, self.a, operand, self.flags),
        )
    }

    /// The state after a rotation of the accumulator: only the accumulator and the carry
    /// change.
    pub open spec fn rotated(self, rotation: Rotation) -> CpuState {
        CpuState {
            a: rotate_value(rotation, self.a, self.flags.cy),
            flags: Condition { cy: rotate_carry(rotation, self.a), ..self.flags },
            ..self
        }
    }

    /// The state after a call of the subroutine at `address` with `return_address` as
    /// the place to come back to.
    pub open spec fn called(self, address: Address, return_address: Address) -> CpuState {
        self.pushed(return_address).jumped(address)
    }

    /// The state after a return: control goes to the word on top of the stack, which is
    /// taken off.
    pub open spec fn returned(self) -> CpuState {
        self.popped().jumped(self.top())
    }

    /// The state after `instruction` is executed on a processor that is not halted: the
    /// program counter goes past the instruction, then the instruction takes effect.
    pub open spec fn execute(self, instruction: Instruction) -> CpuState {
        self.jumped(self.next_pc(instruction)).perform(instruction)
    }

    /// The effect of `instruction` on a state whose program counter is already past it.
    ///
    /// The program counter stays there unless the instruction sets it: a jump, a call, a
    /// return or a restart, where it is taken. A call and a restart push it as the
    /// address to come back to. `IN` and `OUT` change nothing: the caller does their
    /// work.
    pub open spec fn perform(self, instruction: Instruction) -> CpuState {
        let s = self;
        match instruction {
            Instruction::NOP => s,
            Instruction::LXI(pair, (hi, lo)) => s.with_pair(pair, word_of_bytes(lo, hi)),
            Instruction::STAX(pair) => s.with_byte(s.pair(pair), s.a),
            Instruction::LDAX(pair) => CpuState { a: s.memory[s.pair(pair) as int], ..s },
            Instruction::INX(pair) => s.with_pair(pair, offset_address(s.pair(pair), 1)),
            Instruction::DCX(pair) => s.with_pair(pair, offset_address(s.pair(pair), -1)),
            Instruction::INR(reg) => CpuState {
                flags: increment_flags(s.flags, s.register(reg)),
                ..s.with_register(reg, increment_value(s.register(reg)))
            },
            Instruction::DCR(reg) => CpuState {
                flags: decrement_flags(s.flags, s.register(reg)),
                ..s.with_register(reg, decrement_value(s.register(reg)))
            },
            Instruction::MVI(reg, value) => s.with_register(reg, value),
            Instruction::MOV(dst, src) => s.with_register(dst, s.register(src)),
            Instruction::RLC => s.rotated(Rotation::Left),
            Instruction::RRC => s.rotated(Rotation::Right),
            Instruction::RAL => s.rotated(Rotation::LeftThroughCarry),
            Instruction::RAR => s.rotated(Rotation::RightThroughCarry),
            Instruction::DAD(pair) => CpuState {
                flags: Condition {
                    cy: double_add_carry(s.pair(RegisterPair::HL), s.pair(pair)),
                    ..s.flags
                },
                ..s.with_pair(
                    RegisterPair::HL,
                    double_add_value(s.pair(RegisterPair::HL), s.pair(pair)),
                )
            },
            Instruction::SHLD(address) => s.with_word(address, s.pair(RegisterPair::HL)),
            Instruction::LHLD(address) => s.with_pair(RegisterPair::HL, word_at(s.memory, address)),
            Instruction::STA(address) => s.with_byte(address, s.a),
            Instruction::LDA(address) => CpuState { a: s.memory[address as int], ..s },
            Instruction::DAA => s.with_result(
                decimal_adjust_value(s.a, s.flags),
                decimal_adjust_flags(s.a, s.flags),
            ),
            Instruction::CMA => CpuState { a: (255 - s.a) as u8, ..s },
            Instruction::STC => CpuState { flags: Condition { cy: true, ..s.flags }, ..s },
            Instruction::CMC => CpuState { flags: Condition { cy: !s.flags.cy, ..s.flags }, ..s },
            Instruction::HLT => CpuState { halted: true, ..s },
            Instruction::ADD(reg) => s.operated(Operation::Add, s.register(reg)),
            Instruction::ADC(reg) => s.operated(Operation::AddWithCarry, s.register(reg)),
            Instruction::SUB(reg) => s.operated(Operation::Subtract, s.register(reg)),
            Instruction::SBB(reg) => s.operated(Operation::SubtractWithBorrow, s.register(reg)),
            Instruction::ANA(reg) => s.operated(Operation::And, s.register(reg)),
            Instruction::XRA(reg) => s.operated(Operation::Xor, s.register(reg)),
            Instruction::ORA(reg) => s.operated(Operation::Or, s.register(reg)),
            Instruction::CMP(reg) => s.operated(Operation::Compare, s.register(reg)),
            Instruction::ADI(value) => s.operated(Operation::Add, value),
            Instruction::ACI(value) => s.operated(Operation::AddWithCarry, value),
            Instruction::SUI(value) => s.operated(Operation::Subtract, value),
            Instruction::SBI(value) => s.operated(Operation::SubtractWithBorrow, value),
            Instruction::ANI(value) => s.operated(Operation::And, value),
            Instruction::XRI(value) => s.operated(Operation::Xor, value),
            Instruction::ORI(value) => s.operated(Operation::Or, value),
            Instruction::CPI(value) => s.operated(Operation::Compare, value),
            Instruction::JMP(address) => s.jumped(address),
            Instruction::JCOND(condition, address) => if condition.holds(s.flags) {
                s.jumped(address)
            } else {
                s
            },
            Instruction::CALL(address) => s.called(address, s.pc),
            Instruction::CCOND(condition, address) => if condition.holds(s.flags) {
                s.called(address, s.pc)
            } else {
                s
            },
            Instruction::RET => s.returned(),
            Instruction::RETCOND(condition) => if condition.holds(s.flags) {
                s.returned()
            } else {
                s
            },
            Instruction::RST(vector) => s.called((vector * 8) as u16, s.pc),
            Instruction::PCHL => s.jumped(s.pair(RegisterPair::HL)),
            Instruction::PUSH(pair) => s.pushed(s.pair(pair)),
            Instruction::PUSH_PSW => s.pushed(word_of_bytes(s.flags.status_byte() as u8, s.a)),
            Instruction::POP(pair) => s.popped().with_pair(pair, s.top()),
            Instruction::POP_PSW => CpuState {
                a: high_byte(s.top()),
                flags: Condition::of_status_byte(low_byte(s.top())),
                ..s.popped()
            },
            Instruction::XTHL => s.with_word(s.sp, s.pair(RegisterPair::HL)).with_pair(
                RegisterPair::HL,
                s.top(),
            ),
            Instruction::XCHG => s.with_pair(RegisterPair::HL, s.pair(RegisterPair::DE)).with_pair(
                RegisterPair::DE,
                s.pair(RegisterPair::HL),
            ),
            Instruction::SPHL => s.with_pair(RegisterPair::SP, s.pair(RegisterPair::HL)),
            Instruction::OUT(_) => s,
            Instruction::IN(_) => s,
            Instruction::DI => CpuState { interrupts_enabled: false, ..s },
            Instruction::EI => CpuState { interrupts_enabled: true, ..s },
        }
    }

    /// What the engine reports after it has executed `instruction` from this state.
    pub open spec fn report(self, instruction: Instruction) -> StepResult {
        match instruction {
            Instruction::HLT => StepResult::Halted,
            Instruction::IN(port) => StepResult::PortReadRequest(port),
            Instruction::OUT(port) => StepResult::PortWriteRequest(port, self.a),
            _ => StepResult::Continue,
        }
    }

    /// The state after one step of the engine, and what the step reports. A halted
    /// processor stays as it is; an instruction that cannot be decoded leaves the state
    /// as it is; else the instruction at the program counter is executed.
    pub open spec fn step(self) -> (CpuState, Result<StepResult, ExecutionError>) {
        if self.halted {
            (self, Ok(StepResult::Halted))
        } else {
            match decode_spec(self.memory, self.pc) {
                Ok((instruction, _)) => (self.execute(instruction), Ok(self.report(instruction))),
                Err(error) => (self, Err(ExecutionError::Decode(error))),
            }
        }
    }
}

/// A halted processor does not move: a step reports that it is halted and leaves the
/// state as it is, however many steps are made.
pub proof fn lemma_halted_is_terminal(s: CpuState)
    requires
        s.halted,
    ensures
        s.step().0 == s,
        s.step().1 == Ok::<StepResult, ExecutionError>(StepResult::Halted),
        s.step().0.step() == s.step(),
{
}

/// A step that finds `HLT` at the program counter halts the processor and reports it,
/// and the step after that reports the same and changes nothing.
pub proof fn lemma_hlt_halts(s: CpuState)
    requires
        s.wf(),
        !s.halted,
        decode_spec(s.memory, s.pc) matches Ok((instruction, _)) && instruction
            == Instruction::HLT,
    ensures
        s.step().0.halted,
        s.step().1 == Ok::<StepResult, ExecutionError>(StepResult::Halted),
        s.step().0.step().0 == s.step().0,
        s.step().0.step().1 == Ok::<StepResult, ExecutionError>(StepResult::Halted),
{
}

/// Only `HLT` halts: a running processor that is halted after an instruction has
/// executed `HLT`, and a step reports `Halted` only of a halted processor.
pub proof fn lemma_only_hlt_halts(s: CpuState, instruction: Instruction)
    requires
        !s.halted,
    ensures
        s.execute(instruction).halted <==> instruction == Instruction::HLT,
        s.report(instruction) == StepResult::Halted <==> instruction == Instruction::HLT,
{
}

/// A step that fails leaves the state as it is, and it fails only where the
/// instruction at the program counter reaches past the end of memory.
pub proof fn lemma_failed_step_changes_nothing(s: CpuState)
    requires
        s.wf(),
    ensures
        s.step().1 is Err ==> s.step().0 == s,
        s.step().1 is Err <==> !s.halted && decode_spec(s.memory, s.pc) is Err,
        s.step().1 matches Err(error) ==> error == ExecutionError::Decode(
            DecodeError { address: s.pc },
        ),
{
    lemma_decode_total(s.memory, s.pc);
}

/// Writing a register, a register pair, a byte or a word, and pushing a word, keep the
/// memory at its size.
pub proof fn lemma_writes_preserve_wf(
    s: CpuState,
    reg: Register,
    pair: RegisterPair,
    byte: u8,
    word: u16,
    address: Address,
)
    requires
        s.wf(),
    ensures
        s.with_register(reg, byte).wf(),
        s.with_pair(pair, word).wf(),
        s.with_byte(address, byte).wf(),
        s.with_word(address, word).wf(),
        s.pushed(word).wf(),
        s.popped().wf(),
        s.jumped(address).wf(),
{
}

/// The memory keeps its size: an instruction, and so a step, takes a well-formed state
/// to a well-formed state.
#[verifier::rlimit(60)]
pub proof fn lemma_execution_preserves_wf(s: CpuState, instruction: Instruction)
    requires
        s.wf(),
    ensures
        s.execute(instruction).wf(),
        s.step().0.wf(),
{
    assert forall|i: Instruction| (#[trigger] s.execute(i)).memory.len() == s.memory.len() by {
        let advanced = s.jumped(s.next_pc(i));
        assert(advanced.perform(i).memory.len() == advanced.memory.len());
    }
}

/// An instruction changes no flag but those that it is documented to affect. So the
/// increment and the decrement of a register never change the carry, the logical
/// operations never change the auxiliary carry, and the 16-bit addition and the
/// rotations change the carry alone.
#[verifier::rlimit(60)]
pub proof fn lemma_flags_change_only_where_documented(s: CpuState, instruction: Instruction)
    ensures
        !instruction.affected_flags().z ==> s.execute(instruction).flags.z == s.flags.z,
        !instruction.affected_flags().s ==> s.execute(instruction).flags.s == s.flags.s,
        !instruction.affected_flags().p ==> s.execute(instruction).flags.p == s.flags.p,
        !instruction.affected_flags().cy ==> s.execute(instruction).flags.cy == s.flags.cy,
        !instruction.affected_flags().ac ==> s.execute(instruction).flags.ac == s.flags.ac,
{
}

/// An instruction outside the branch group leaves the program counter at the
/// instruction after it, and so does a conditional jump, call or return whose condition
/// does not hold.
#[verifier::rlimit(60)]
pub proof fn lemma_program_counter_advances(s: CpuState, instruction: Instruction)
    ensures
        !instruction.transfers_control() ==> s.execute(instruction).pc == s.next_pc(instruction),
        instruction matches Instruction::JCOND(condition, _) && !condition.holds(s.flags)
            ==> s.execute(instruction) == s.jumped(s.next_pc(instruction)),
        instruction matches Instruction::CCOND(condition, _) && !condition.holds(s.flags)
            ==> s.execute(instruction) == s.jumped(s.next_pc(instruction)),
        instruction matches Instruction::RETCOND(condition) && !condition.holds(s.flags)
            ==> s.execute(instruction) == s.jumped(s.next_pc(instruction)),
{
}

/// A call pushes the address of the instruction after it, takes the stack pointer down
/// by 2 and goes to its target; the return that follows comes back to the pushed
/// address and restores the stack pointer.
#[verifier::rlimit(60)]
pub proof fn lemma_call_then_return(s: CpuState, address: Address)
    requires
        s.wf(),
    ensures
        s.execute(Instruction::CALL(address)).pc == address,
        s.execute(Instruction::CALL(address)).sp == offset_address(s.sp, -2),
        s.execute(Instruction::CALL(address)).top() == offset_address(s.pc, 3),
        s.execute(Instruction::CALL(address)).execute(Instruction::RET).pc == offset_address(
            s.pc,
            3,
        ),
        s.execute(Instruction::CALL(address)).execute(Instruction::RET).sp == s.sp,
{
    let next = offset_address(s.pc, 3);
    let called = s.execute(Instruction::CALL(address));
    assert(called == s.jumped(next).called(address, next));
    assert(called.sp == offset_address(s.sp, -2));
    assert(called.memory == with_word_at(s.memory, called.sp, next));
    lemma_word_read_back(s.memory, called.sp, next);
    assert(called.top() == next);
    let back = called.execute(Instruction::RET);
    assert(back == called.jumped(offset_address(called.pc, 1)).returned());
}

/// A restart is a call to 8 times its number.
pub proof fn lemma_restart_is_call(s: CpuState, vector: u8)
    requires
        vector < 8,
    ensures
        s.execute(Instruction::RST(vector)) == s.jumped(offset_address(s.pc, 1)).called(
            (vector * 8) as u16,
            offset_address(s.pc, 1),
        ),
        s.execute(Instruction::RST(vector)).pc == vector * 8,
{
}

/// A register pair that is pushed and popped again is as it was, and so is the stack
/// pointer.
#[verifier::rlimit(60)]
pub proof fn lemma_push_then_pop(s: CpuState, pair: RegisterPair)
    requires
        s.wf(),
        pair != RegisterPair::SP,
    ensures
        s.execute(Instruction::PUSH(pair)).execute(Instruction::POP(pair)).pair(pair) == s.pair(
            pair,
        ),
        s.execute(Instruction::PUSH(pair)).execute(Instruction::POP(pair)).sp == s.sp,
{
    let word = s.pair(pair);
    let pushed = s.execute(Instruction::PUSH(pair));
    assert(pushed == s.jumped(offset_address(s.pc, 1)).pushed(word));
    assert(pushed.sp == offset_address(s.sp, -2));
    assert(pushed.memory == with_word_at(s.memory, pushed.sp, word));
    lemma_word_read_back(s.memory, pushed.sp, word);
    assert(pushed.top() == word);
    let popped = pushed.execute(Instruction::POP(pair));
    assert(popped == pushed.jumped(offset_address(pushed.pc, 1)).popped().with_pair(pair, word));
    lemma_word_bytes(word);
    lemma_pair_read_back(pushed.jumped(offset_address(pushed.pc, 1)).popped(), pair, word);
}

/// A register pair holds the value that was written to it, and writing one of the pairs
/// B:C, D:E and H:L leaves the stack pointer as it was.
pub proof fn lemma_pair_read_back(s: CpuState, pair: RegisterPair, word: u16)
    ensures
        s.with_pair(pair, word).pair(pair) == word,
        pair != RegisterPair::SP ==> s.with_pair(pair, word).sp == s.sp,
{
    lemma_word_bytes(word);
}

/// The accumulator and the flags are as they were after the status word is pushed and
/// popped again, and so is the stack pointer.
#[verifier::rlimit(60)]
pub proof fn lemma_push_then_pop_status(s: CpuState)
    requires
        s.wf(),
    ensures
        s.execute(Instruction::PUSH_PSW).execute(Instruction::POP_PSW).a == s.a,
        s.execute(Instruction::PUSH_PSW).execute(Instruction::POP_PSW).flags == s.flags,
        s.execute(Instruction::PUSH_PSW).execute(Instruction::POP_PSW).sp == s.sp,
{
    let status = s.flags.status_byte() as u8;
    let word = word_of_bytes(status, s.a);
    let pushed = s.execute(Instruction::PUSH_PSW);
    assert(pushed == s.jumped(offset_address(s.pc, 1)).pushed(word));
    assert(pushed.sp == offset_address(s.sp, -2));
    assert(pushed.memory == with_word_at(s.memory, pushed.sp, word));
    lemma_word_read_back(s.memory, pushed.sp, word);
    assert(pushed.top() == word);
    lemma_bytes_of_word(status, s.a);
    assert(low_byte(word) == status && high_byte(word) == s.a);
    assert(Condition::of_status_byte(status) == s.flags) by {
        lemma_status_byte_round_trip(s.flags);
    }
    let t = pushed.jumped(offset_address(pushed.pc, 1));
    let popped = pushed.execute(Instruction::POP_PSW);
    assert(popped == (CpuState {
        a: high_byte(t.top()),
        flags: Condition::of_status_byte(low_byte(t.top())),
        ..t.popped()
    }));
    assert(t.top() == word);
}

/// Reading and writing `M` is reading and writing the byte of memory that HL addresses,
/// and touches no register.
pub proof fn lemma_m_is_memory_at_hl(s: CpuState, value: u8)
    requires
        s.wf(),
    ensures
        s.register(Register::M) == s.memory[s.pair(RegisterPair::HL) as int],
        s.with_register(Register::M, value).memory == s.memory.update(
            s.pair(RegisterPair::HL) as int,
            value,
        ),
        s.with_register(Register::M, value).register(Register::M) == value,
        s.with_register(Register::M, value) == (CpuState {
            memory: s.with_register(Register::M, value).memory,
            ..s
        }),
{
}

} // verus!
