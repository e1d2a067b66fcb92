//! The processor: its state, the instruction decoder and the execution engine.

pub mod alu;
pub mod arithmetic_operations;
pub mod condition;
pub mod decoder;
pub mod encoding;
pub mod instruction;
pub mod memory;
pub mod register;
pub mod state;

use self::arithmetic_operations::execute_instruction;
use self::condition::Condition;
use self::decoder::{DecodeError, decode, decode_spec, lemma_decode_total};
use self::instruction::Instruction;
use self::memory::{Memory, join_word, lemma_memory_size, split_word};
use self::register::{Register, RegisterPair};
use self::state::CpuState;
use std::collections::VecDeque;
use vstd::prelude::*;

verus! {

/// The number of an input or output port.
pub type Port = u8;

/// A 16-bit memory address.
pub type Address = u16;

/// What a step of the engine reports to its caller.
#[derive(Debug, Clone, Copy, PartialEq, Eq, Hash, Structural)]
pub enum StepResult {
    /// An instruction was executed and the engine can go on.
    Continue,
    /// The processor is halted: `HLT` was executed, now or earlier.
    Halted,
    /// `IN` was executed: the caller is to read the port and hand the byte to the
    /// accumulator before the next step.
    PortReadRequest(Port),
    /// `OUT` was executed: the caller is to write the byte to the port.
    PortWriteRequest(Port, u8),
}

/// Why the engine did not execute an instruction. The state is then as it was.
#[derive(Debug, Clone, Copy, PartialEq, Eq, Hash, Structural)]
pub enum ExecutionError {
    /// The instruction is one that no opcode encodes.
    WrongInstructionType,
    /// The instruction at the program counter reaches past the end of memory.
    Decode(DecodeError),
    /// The processor is halted and executes nothing.
    Halted,
}

/// The processor with its memory.
#[derive(Clone)]
pub struct CPU {
    memory: Memory,
    flags: Condition,
    a: u8,
    b: u8,
    c: u8,
    d: u8,
    e: u8,
    h: u8,
    l: u8,
    sp: u16,
    pc: u16,
    interrupts_enabled: bool,
    halted: bool,
}

impl View for CPU {
    type V = CpuState;

    /// The state of the processor as plain values.
    closed spec fn view(&self) -> CpuState {
        CpuState {
            a: self.a,
            b: self.b,
            c: self.c,
            d: self.d,
            e: self.e,
            h: self.h,
            l: self.l,
            sp: self.sp,
            pc: self.pc,
            flags: self.flags,
            memory: self.memory@,
            interrupts_enabled: self.interrupts_enabled,
            halted: self.halted,
        }
    }
}

/// The state of a processor is always well formed.
pub broadcast proof fn lemma_cpu_wf(cpu: CPU)
    ensures
        #[trigger] cpu@.wf(),
{
    lemma_memory_size(cpu.memory);
}

impl CPU {
    /// A processor after reset with the image `rom_instructions` loaded at address 0
    /// and the rest of memory zero. The image must fit into the memory.
    pub fn new(mut rom_instructions: VecDeque<u8>) -> (result: Result<CPU, Vec<Instruction>>)
        requires
            rom_instructions@.len() <= 65536,
        ensures
            result matches Ok(cpu) && cpu@ == CpuState::initial(rom_instructions@),
    {
        let ghost image = rom_instructions@;
        let mut memory = Memory::new();
        let mut ind: usize = 0;
        while rom_instructions.len() > 0
            invariant
                image.len() <= 65536,
                ind + rom_instructions@.len() == image.len(),
                rom_instructions@ == image.subrange(ind as int, image.len() as int),
                memory@.len() == 65536,
                forall|i: int| 0 <= i < ind ==> memory@[i] == image[i],
                forall|i: int| ind <= i < 65536 ==> memory@[i] == 0,
            decreases rom_instructions@.len(),
        {
            match rom_instructions.pop_front() {
                Some(byte) => {
                    memory.store(ind as u16, byte);
                    ind += 1;
                },
                None => {},
            }
        }
        let cpu = CPU {
            memory,
            flags: Condition::new(),
            a: 0,
            b: 0,
            c: 0,
            d: 0,
            e: 0,
            h: 0,
            l: 0,
            sp: 0,
            pc: 0,
            interrupts_enabled: false,
            halted: false,
        };
        assert(cpu@.memory =~= CpuState::initial(image).memory);
        Ok(cpu)
    }

    /// Decodes the instruction at the program counter. The processor stays as it is.
    pub fn get_next_instruction(&mut self) -> (result: Result<Instruction, DecodeError>)
        ensures
            *final(self) == *old(self),
            match decode_spec(old(self)@.memory, old(self)@.pc) {
                Ok((instruction, _)) => result == Ok::<Instruction, DecodeError>(instruction),
                Err(error) => result == Err::<Instruction, DecodeError>(error),
            },
    {
        match decode(&self.memory, self.pc) {
            Ok((instruction, _)) => Ok(instruction),
            Err(error) => Err(error),
        }
    }

    /// Executes one step: decodes the instruction at the program counter and executes
    /// it. A halted processor does nothing and reports that it is halted. An
    /// instruction that reaches past the end of memory is reported as an error, and
    /// nothing changes.
    pub fn step(&mut self) -> (result: Result<StepResult, ExecutionError>)
        ensures
            final(self)@ == old(self)@.step().0,
            result == old(self)@.step().1,
    {
        if self.halted {
            return Ok(StepResult::Halted);
        }
        let instruction = match decode(&self.memory, self.pc) {
            Ok((instruction, _)) => instruction,
            Err(error) => {
                return Err(ExecutionError::Decode(error));
            },
        };
        let report = match instruction {
            Instruction::HLT => StepResult::Halted,
            Instruction::IN(port) => StepResult::PortReadRequest(port),
            Instruction::OUT(port) => StepResult::PortWriteRequest(port, self.a),
            _ => StepResult::Continue,
        };
        proof {
            lemma_memory_size(self.memory);
            lemma_decode_total(self@.memory, self@.pc);
        }
        match execute_instruction(self, instruction) {
            Ok(()) => Ok(report),
            Err(error) => Err(error),
        }
    }

    /// Hands the byte that the caller read from a port to the accumulator, in answer to
    /// a `PortReadRequest`.
    pub fn accept_input(&mut self, value: u8)
        ensures
            final(self)@ == old(self)@.with_register(Register::A, value),
    {
        self.a = value;
    }

    /// Sets the program counter to 0.
    pub fn reset_pc(&mut self)
        ensures
            final(self)@ == old(self)@.jumped(0),
    {
        self.pc = 0;
    }

    /// Writes `val` to a register, or for `M` to the byte of memory that HL addresses.
    pub fn set_register(&mut self, reg: Register, val: u8)
        ensures
            final(self)@ == old(self)@.with_register(reg, val),
    {
        match reg {
            Register::A => {
                self.a = val;
            },
            Register::B => {
                self.b = val;
            },
            Register::C => {
                self.c = val;
            },
            Register::D => {
                self.d = val;
            },
            Register::E => {
                self.e = val;
            },
            Register::H => {
                self.h = val;
            },
            Register::L => {
                self.l = val;
            },
            Register::M => {
                let address = join_word(self.l, self.h);
                self.memory.store(address, val);
            },
        }
    }

    /// Reads a register, or for `M` the byte of memory that HL addresses.
    pub fn get_register(&self, reg: &Register) -> (value: u8)
        ensures
            value == self@.register(*reg),
    {
        match reg {
            Register::A => self.a,
            Register::B => self.b,
            Register::C => self.c,
            Register::D => self.d,
            Register::E => self.e,
            Register::H => self.h,
            Register::L => self.l,
            Register::M => self.memory.load(join_word(self.l, self.h)),
        }
    }

    /// Reads a register pair as one 16-bit value.
    pub fn get_pair(&self, pair: RegisterPair) -> (value: u16)
        ensures
            value == self@.pair(pair),
    {
        match pair {
            RegisterPair::BC => join_word(self.c, self.b),
            RegisterPair::DE => join_word(self.e, self.d),
            RegisterPair::HL => join_word(self.l, self.h),
            RegisterPair::SP => self.sp,
        }
    }

    /// Writes a 16-bit value to a register pair.
    pub fn set_pair(&mut self, pair: RegisterPair, value: u16)
        ensures
            final(self)@ == old(self)@.with_pair(pair, value),
    {
        let (lo, hi) = split_word(value);
        match pair {
            RegisterPair::BC => {
                self.b = hi;
                self.c = lo;
            },
            RegisterPair::DE => {
                self.d = hi;
                self.e = lo;
            },
            RegisterPair::HL => {
                self.h = hi;
                self.l = lo;
            },
            RegisterPair::SP => {
                self.sp = value;
            },
        }
    }

    /// The flags.
    pub fn flags(&self) -> (flags: Condition)
        ensures
            flags == self@.flags,
    {
        self.flags
    }

    /// Replaces the flags.
    pub fn set_flags(&mut self, flags: Condition)
        ensures
            final(self)@ == (CpuState { flags, ..old(self)@ }),
    {
        self.flags = flags;
    }

    /// The program counter.
    pub fn pc(&self) -> (pc: Address)
        ensures
            pc == self@.pc,
    {
        self.pc
    }

    /// Sets the program counter.
    pub fn set_pc(&mut self, pc: Address)
        ensures
            final(self)@ == old(self)@.jumped(pc),
    {
        self.pc = pc;
    }

    /// The stack pointer.
    pub fn sp(&self) -> (sp: Address)
        ensures
            sp == self@.sp,
    {
        self.sp
    }

    /// Whether the processor is halted.
    pub fn is_halted(&self) -> (halted: bool)
        ensures
            halted == self@.halted,
    {
        self.halted
    }

    /// Whether interrupts are enabled.
    pub fn interrupts_enabled(&self) -> (enabled: bool)
        ensures
            enabled == self@.interrupts_enabled,
    {
        self.interrupts_enabled
    }

    /// The memory.
    pub fn memory(&self) -> (memory: &Memory)
        ensures
            memory@ == self@.memory,
    {
        &self.memory
    }

    /// The byte of memory at `address`.
    pub fn read_memory(&self, address: Address) -> (value: u8)
        ensures
            value == self@.memory[address as int],
    {
        self.memory.load(address)
    }

    /// Stores `value` in memory at `address`.
    pub fn write_memory(&mut self, address: Address, value: u8)
        ensures
            final(self)@ == old(self)@.with_byte(address, value),
    {
        self.memory.store(address, value);
    }

    /// The word of memory at `address`, low byte first.
    pub fn read_memory_word(&self, address: Address) -> (value: u16)
        ensures
            value == self::memory::word_at(self@.memory, address),
    {
        self.memory.load_word(address)
    }

    /// Stores `value` in memory at `address`, low byte first.
    pub fn write_memory_word(&mut self, address: Address, value: u16)
        ensures
            final(self)@ == old(self)@.with_word(address, value),
    {
        self.memory.store_word(address, value);
    }

    /// Pushes a word onto the stack.
    pub fn push(&mut self, word: u16)
        ensures
            final(self)@ == old(self)@.pushed(word),
    {
        let sp = self.sp.wrapping_sub(2);
        self.memory.store_word(sp, word);
        self.sp = sp;
    }

    /// Takes the word on top of the stack off it.
    pub fn pop(&mut self) -> (word: u16)
        ensures
            word == old(self)@.top(),
            final(self)@ == old(self)@.popped(),
    {
        let word = self.memory.load_word(self.sp);
        self.sp = self.sp.wrapping_add(2);
        word
    }

    /// Halts the processor.
    pub(crate) fn halt(&mut self)
        ensures
            final(self)@ == (CpuState { halted: true, ..old(self)@ }),
    {
        self.halted = true;
    }

    /// Enables or disables interrupts.
    pub(crate) fn set_interrupts_enabled(&mut self, enabled: bool)
        ensures
            final(self)@ == (CpuState { interrupts_enabled: enabled, ..old(self)@ }),
    {
        self.interrupts_enabled = enabled;
    }
}

} // verus!
