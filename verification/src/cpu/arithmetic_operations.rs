//! The execution of decoded instructions on the processor.

use super::alu::{
    Operation, Rotation, decimal_adjust, decimal_adjust_flags, decimal_adjust_value, decrement,
    decrement_flags, decrement_value, double_add, double_add_carry, double_add_value, increment,
    increment_flags, increment_value, operate, rotate,
};
use super::condition::Condition;
use super::instruction::{Group, Instruction};
use super::memory::{join_word, offset_address, split_word};
use super::register::{Register, RegisterPair};
use super::state::CpuState;
use super::{Address, CPU, ExecutionError};
use vstd::prelude::*;

verus! {

/// Executes `instruction` and moves the program counter past it, or to where the
/// instruction sends it. A halted processor executes nothing, and an instruction that
/// no opcode encodes is refused; the processor then stays as it is.
pub fn execute_instruction(cpu: &mut CPU, instruction: Instruction) -> (result: Result<
    (),
    ExecutionError,
>)
    ensures
        old(cpu)@.halted ==> result == Err::<(), ExecutionError>(ExecutionError::Halted),
        old(cpu)@.halted ==> final(cpu)@ == old(cpu)@,
        !old(cpu)@.halted && !instruction.well_formed() ==> result == Err::<(), ExecutionError>(
            ExecutionError::WrongInstructionType,
        ) && final(cpu)@ == old(cpu)@,
        !old(cpu)@.halted && instruction.well_formed() ==> result == Ok::<(), ExecutionError>(())
            && final(cpu)@ == old(cpu)@.execute(instruction),
{
    if cpu.is_halted() {
        return Err(ExecutionError::Halted);
    }
    if !instruction.is_well_formed() {
        return Err(ExecutionError::WrongInstructionType);
    }
    let next = cpu.pc().wrapping_add(instruction.get_size());
    cpu.set_pc(next);
    match instruction.get_group() {
        Group::DataTransfer => execute_data_transfer(cpu, instruction),
        Group::Arithmetic => execute_arithmetic(cpu, instruction),
        Group::Logical => execute_logical(cpu, instruction),
        Group::Branch => execute_branch(cpu, instruction),
        Group::StackIoControl => execute_stack_io_control(cpu, instruction),
    }
    Ok(())
}

/// Executes an instruction of the data transfer group.
#[verifier::rlimit(40)]
fn execute_data_transfer(cpu: &mut CPU, instruction: Instruction)
    requires
        instruction.group() == Group::DataTransfer,
        instruction.well_formed(),
    ensures
        final(cpu)@ == old(cpu)@.perform(instruction),
{
    match instruction {
        Instruction::MOV(dst, src) => {
            let value = cpu.get_register(&src);
            cpu.set_register(dst, value);
        },
        Instruction::MVI(reg, value) => cpu.set_register(reg, value),
        Instruction::LXI(pair, (hi, lo)) => cpu.set_pair(pair, join_word(lo, hi)),
        Instruction::LDA(address) => {
            let value = cpu.read_memory(address);
            cpu.set_register(Register::A, value);
        },
        Instruction::STA(address) => cpu.write_memory(address, cpu.get_register(&Register::A)),
        Instruction::LHLD(address) => {
            let value = cpu.read_memory_word(address);
            cpu.set_pair(RegisterPair::HL, value);
        },
        Instruction::SHLD(address) => {
            let value = cpu.get_pair(RegisterPair::HL);
            cpu.write_memory_word(address, value);
        },
        Instruction::LDAX(pair) => {
            let value = cpu.read_memory(cpu.get_pair(pair));
            cpu.set_register(Register::A, value);
        },
        Instruction::STAX(pair) => {
            let address = cpu.get_pair(pair);
            cpu.write_memory(address, cpu.get_register(&Register::A));
        },
        Instruction::XCHG => {
            let de = cpu.get_pair(RegisterPair::DE);
            let hl = cpu.get_pair(RegisterPair::HL);
            cpu.set_pair(RegisterPair::HL, de);
            cpu.set_pair(RegisterPair::DE, hl);
        },
        _ => {},
    }
}

/// Executes an instruction of the arithmetic group.
#[verifier::rlimit(40)]
fn execute_arithmetic(cpu: &mut CPU, instruction: Instruction)
    requires
        instruction.group() == Group::Arithmetic,
        instruction.well_formed(),
    ensures
        final(cpu)@ == old(cpu)@.perform(instruction),
{
    match instruction {
        Instruction::ADD(reg) => execute_add(cpu, reg, false),
        Instruction::ADI(value) => execute_operation(cpu, Operation::Add, value),
        Instruction::ADC(reg) => execute_add(cpu, reg, true),
        Instruction::ACI(value) => execute_operation(cpu, Operation::AddWithCarry, value),
        Instruction::SUB(reg) => execute_on_register(cpu, Operation::Subtract, reg),
        Instruction::SUI(value) => execute_operation(cpu, Operation::Subtract, value),
        Instruction::SBB(reg) => execute_on_register(cpu, Operation::SubtractWithBorrow, reg),
        Instruction::SBI(value) => execute_operation(cpu, Operation::SubtractWithBorrow, value),
        Instruction::INR(reg) => execute_increment(cpu, reg),
        Instruction::DCR(reg) => execute_decrement(cpu, reg),
        Instruction::INX(pair) => execute_pair_step(cpu, pair, true),
        Instruction::DCX(pair) => execute_pair_step(cpu, pair, false),
        Instruction::DAD(pair) => execute_double_add(cpu, pair),
        Instruction::DAA => execute_decimal_adjust(cpu),
        _ => {},
    }
}

/// Executes an instruction of the logical group.
#[verifier::rlimit(40)]
fn execute_logical(cpu: &mut CPU, instruction: Instruction)
    requires
        instruction.group() == Group::Logical,
        instruction.well_formed(),
    ensures
        final(cpu)@ == old(cpu)@.perform(instruction),
{
    match instruction {
        Instruction::ANA(reg) => execute_on_register(cpu, Operation::And, reg),
        Instruction::ANI(value) => execute_operation(cpu, Operation::And, value),
        Instruction::XRA(reg) => execute_on_register(cpu, Operation::Xor, reg),
        Instruction::XRI(value) => execute_operation(cpu, Operation::Xor, value),
        Instruction::ORA(reg) => execute_on_register(cpu, Operation::Or, reg),
        Instruction::ORI(value) => execute_operation(cpu, Operation::Or, value),
        Instruction::CMP(reg) => execute_on_register(cpu, Operation::Compare, reg),
        Instruction::CPI(value) => execute_operation(cpu, Operation::Compare, value),
        Instruction::RLC => execute_rotation(cpu, Rotation::Left),
        Instruction::RRC => execute_rotation(cpu, Rotation::Right),
        Instruction::RAL => execute_rotation(cpu, Rotation::LeftThroughCarry),
        Instruction::RAR => execute_rotation(cpu, Rotation::RightThroughCarry),
        Instruction::CMA => {
            let value = 0xff - cpu.get_register(&Register::A);
            cpu.set_register(Register::A, value);
        },
        Instruction::CMC => {
            let flags = cpu.flags();
            cpu.set_flags(Condition { cy: !flags.cy, ..flags });
        },
        Instruction::STC => {
            let flags = cpu.flags();
            cpu.set_flags(Condition { cy: true, ..flags });
        },
        _ => {},
    }
}

/// Executes an instruction of the branch group. The program counter holds the address
/// to come back to.
#[verifier::rlimit(40)]
fn execute_branch(cpu: &mut CPU, instruction: Instruction)
    requires
        instruction.group() == Group::Branch,
        instruction.well_formed(),
    ensures
        final(cpu)@ == old(cpu)@.perform(instruction),
{
    match instruction {
        Instruction::JMP(address) => cpu.set_pc(address),
        Instruction::JCOND(condition, address) => {
            if condition.evaluate(&cpu.flags()) {
                cpu.set_pc(address);
            }
        },
        Instruction::CALL(address) => execute_call(cpu, address),
        Instruction::CCOND(condition, address) => {
            if condition.evaluate(&cpu.flags()) {
                execute_call(cpu, address);
            }
        },
        Instruction::RET => execute_return(cpu),
        Instruction::RETCOND(condition) => {
            if condition.evaluate(&cpu.flags()) {
                execute_return(cpu);
            }
        },
        Instruction::RST(vector) => execute_call(cpu, restart_address(vector)),
        Instruction::PCHL => {
            let address = cpu.get_pair(RegisterPair::HL);
            cpu.set_pc(address);
        },
        _ => {},
    }
}

/// Executes an instruction of the stack, input/output and machine control group.
#[verifier::rlimit(40)]
fn execute_stack_io_control(cpu: &mut CPU, instruction: Instruction)
    requires
        instruction.group() == Group::StackIoControl,
        instruction.well_formed(),
    ensures
        final(cpu)@ == old(cpu)@.perform(instruction),
{
    match instruction {
        Instruction::PUSH(pair) => {
            let value = cpu.get_pair(pair);
            cpu.push(value);
        },
        Instruction::PUSH_PSW => {
            let value = join_word(cpu.flags().to_byte(), cpu.get_register(&Register::A));
            cpu.push(value);
        },
        Instruction::POP(pair) => {
            let value = cpu.pop();
            cpu.set_pair(pair, value);
        },
        Instruction::POP_PSW => {
            let (status, a) = split_word(cpu.pop());
            cpu.set_register(Register::A, a);
            cpu.set_flags(Condition::from_byte(status));
        },
        Instruction::XTHL => {
            let sp = cpu.sp();
            let top = cpu.read_memory_word(sp);
            let value = cpu.get_pair(RegisterPair::HL);
            cpu.write_memory_word(sp, value);
            cpu.set_pair(RegisterPair::HL, top);
        },
        Instruction::SPHL => {
            let value = cpu.get_pair(RegisterPair::HL);
            cpu.set_pair(RegisterPair::SP, value);
        },
        Instruction::IN(_) => {},
        Instruction::OUT(_) => {},
        Instruction::EI => cpu.set_interrupts_enabled(true),
        Instruction::DI => cpu.set_interrupts_enabled(false),
        Instruction::HLT => cpu.halt(),
        Instruction::NOP => {},
        _ => {},
    }
}

/// Adds a register, or the byte of memory that HL addresses, to the accumulator, with
/// the carry where `add_carry` is set.
fn execute_add(cpu: &mut CPU, reg: Register, add_carry: bool)
    ensures
        final(cpu)@ == old(cpu)@.operated(
            if add_carry {
                Operation::AddWithCarry
            } else {
                Operation::Add
            },
            old(cpu)@.register(reg),
        ),
{
    let operand = cpu.get_register(&reg);
    if add_carry {
        execute_operation(cpu, Operation::AddWithCarry, operand);
    } else {
        execute_operation(cpu, Operation::Add, operand);
    }
}

/// Applies an operation of the arithmetic and logic group to the accumulator and a
/// register, or the byte of memory that HL addresses.
fn execute_on_register(cpu: &mut CPU, operation: Operation, reg: Register)
    ensures
        final(cpu)@ == old(cpu)@.operated(operation, old(cpu)@.register(reg)),
{
    let operand = cpu.get_register(&reg);
    execute_operation(cpu, operation, operand);
}

/// Increments a register, or the byte of memory that HL addresses.
fn execute_increment(cpu: &mut CPU, reg: Register)
    ensures
        final(cpu)@ == (CpuState {
            flags: increment_flags(old(cpu)@.flags, old(cpu)@.register(reg)),
            ..old(cpu)@.with_register(reg, increment_value(old(cpu)@.register(reg)))
        }),
{
    let (value, flags) = increment(cpu.flags(), cpu.get_register(&reg));
    cpu.set_register(reg, value);
    cpu.set_flags(flags);
}

/// Decrements a register, or the byte of memory that HL addresses.
fn execute_decrement(cpu: &mut CPU, reg: Register)
    ensures
        final(cpu)@ == (CpuState {
            flags: decrement_flags(old(cpu)@.flags, old(cpu)@.register(reg)),
            ..old(cpu)@.with_register(reg, decrement_value(old(cpu)@.register(reg)))
        }),
{
    let (value, flags) = decrement(cpu.flags(), cpu.get_register(&reg));
    cpu.set_register(reg, value);
    cpu.set_flags(flags);
}

/// Increments a register pair where `up` is set, else decrements it.
fn execute_pair_step(cpu: &mut CPU, pair: RegisterPair, up: bool)
    ensures
        final(cpu)@ == old(cpu)@.with_pair(
            pair,
            offset_address(
                old(cpu)@.pair(pair),
                if up {
                    1
                } else {
                    -1
                },
            ),
        ),
{
    let value = if up {
        cpu.get_pair(pair).wrapping_add(1)
    } else {
        cpu.get_pair(pair).wrapping_sub(1)
    };
    cpu.set_pair(pair, value);
}

/// Adds a register pair to HL.
fn execute_double_add(cpu: &mut CPU, pair: RegisterPair)
    ensures
        final(cpu)@ == (CpuState {
            flags: Condition {
                cy: double_add_carry(old(cpu)@.pair(RegisterPair::HL), old(cpu)@.pair(pair)),
                ..old(cpu)@.flags
            },
            ..old(cpu)@.with_pair(
                RegisterPair::HL,
                double_add_value(old(cpu)@.pair(RegisterPair::HL), old(cpu)@.pair(pair)),
            )
        }),
{
    let (value, carry) = double_add(cpu.get_pair(RegisterPair::HL), cpu.get_pair(pair));
    let flags = cpu.flags();
    cpu.set_pair(RegisterPair::HL, value);
    cpu.set_flags(Condition { cy: carry, ..flags });
}

/// Adjusts the accumulator to two decimal digits.
fn execute_decimal_adjust(cpu: &mut CPU)
    ensures
        final(cpu)@ == old(cpu)@.with_result(
            decimal_adjust_value(old(cpu)@.a, old(cpu)@.flags),
            decimal_adjust_flags(old(cpu)@.a, old(cpu)@.flags),
        ),
{
    let (value, flags) = decimal_adjust(cpu.get_register(&Register::A), cpu.flags());
    cpu.set_register(Register::A, value);
    cpu.set_flags(flags);
}

/// Rotates the accumulator.
fn execute_rotation(cpu: &mut CPU, rotation: Rotation)
    ensures
        final(cpu)@ == old(cpu)@.rotated(rotation),
{
    let flags = cpu.flags();
    let (value, carry) = rotate(rotation, cpu.get_register(&Register::A), flags.cy);
    cpu.set_register(Register::A, value);
    cpu.set_flags(Condition { cy: carry, ..flags });
}

/// Calls the subroutine at `address`: pushes the program counter, which is already past
/// the calling instruction, and goes there.
fn execute_call(cpu: &mut CPU, address: Address)
    ensures
        final(cpu)@ == old(cpu)@.called(address, old(cpu)@.pc),
{
    let return_address = cpu.pc();
    cpu.push(return_address);
    cpu.set_pc(address);
}

/// Returns from a subroutine: takes the return address off the stack and goes there.
fn execute_return(cpu: &mut CPU)
    ensures
        final(cpu)@ == old(cpu)@.returned(),
{
    let address = cpu.pop();
    cpu.set_pc(address);
}

/// The address that the restart with the number `vector` calls: 8 times the number.
fn restart_address(vector: u8) -> (address: Address)
    requires
        vector < 8,
    ensures
        address == vector * 8,
{
    vector as u16 * 8
}

/// Applies an operation of the arithmetic and logic group to the accumulator and
/// `operand`.
fn execute_operation(cpu: &mut CPU, operation: Operation, operand: u8)
    ensures
        final(cpu)@ == old(cpu)@.operated(operation, operand),
{
    let (value, flags) = operate(operation, cpu.get_register(&Register::A), operand, cpu.flags());
    cpu.set_register(Register::A, value);
    cpu.set_flags(flags);
}

} // verus!
