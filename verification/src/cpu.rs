//! The processor: its registers, the cycle count of the last instruction and
//! its run state, with operand fetch and the stack.

use vstd::prelude::*;
use crate::alu::wrap16;
use crate::memory::Memory;
use crate::memory::MemoryState;
use crate::registers::high_byte;
use crate::registers::low_byte;
use crate::registers::pair;
use crate::registers::Registers;

verus! {

/// The run state of the processor.
#[derive(PartialEq, Eq, Debug, Copy, Clone, Structural)]
pub enum CPUState {
    /// Waiting for an interrupt.
    Halt,
    /// Low-power stop.
    Stop,
    /// Fetching and executing.
    Active,
    /// Finished: nothing runs any more.
    Exit,
}

/// The processor.
#[derive(PartialEq, Eq, Debug, Copy, Clone)]
pub struct CPU {
    pub registers: Registers,
    /// Cycles that the last executed instruction took.
    pub cycle: usize,
    pub state: CPUState,
}

/// The stack: 16-bit values in memory below the stack pointer.
pub trait Stack {
    fn push(&mut self, memory: &mut Memory, a16: u16);

    fn pop(&mut self, memory: &Memory) -> u16;
}

/// The memory after a push of `value` with the stack pointer at `sp`: the
/// high byte at `sp - 1`, then the low byte at `sp - 2`.
pub open spec fn stack_after_push(memory: MemoryState, sp: u16, value: u16) -> MemoryState {
    memory.write(wrap16(sp - 1), high_byte(value)).write(wrap16(sp - 2), low_byte(value))
}

/// The value on top of the stack with the stack pointer at `sp`: the low
/// byte at `sp`, the high byte at `sp + 1`.
pub open spec fn stack_top(memory: MemoryState, sp: u16) -> u16 {
    pair(memory.read(wrap16(sp + 1)), memory.read(sp))
}

/// The immediate 16-bit operand at `pc`: low byte first.
pub open spec fn operand16(memory: MemoryState, pc: u16) -> u16 {
    pair(memory.read(wrap16(pc + 1)), memory.read(pc))
}

impl CPU {
    /// A processor with zeroed registers, no cycles counted, ready to run.
    pub fn new() -> (cpu: CPU)
        ensures
            cpu.registers == Registers::zeroed(),
            cpu.cycle == 0,
            cpu.state == CPUState::Active,
    {
        CPU { registers: Registers::new(), cycle: 0, state: CPUState::Active }
    }

    /// The registers as they stand.
    pub fn get_registers(&self) -> (registers: Registers)
        ensures
            registers == self.registers,
    {
        self.registers
    }

    /// Cycles that the last executed instruction took.
    pub fn get_cycles(&self) -> (cycles: usize)
        ensures
            cycles == self.cycle,
    {
        self.cycle
    }

    /// The run state.
    pub fn get_state(&self) -> (state: CPUState)
        ensures
            state == self.state,
    {
        self.state
    }

    /// These values with the registers replaced.
    pub open spec fn with_registers(&self, registers: Registers) -> CPU {
        CPU { registers, ..*self }
    }

    /// Reads the byte at the program counter and steps past it.
    pub fn get_next_byte8(&mut self, memory: &Memory) -> (byte: u8)
        ensures
            byte == memory@.read(old(self).registers.pc),
            *final(self) == old(self).with_registers(
                Registers { pc: wrap16(old(self).registers.pc + 1), ..old(self).registers },
            ),
    {
        let byte: u8 = memory.get_addr(self.registers.pc);
        self.registers.pc = self.registers.pc.wrapping_add(1);
        byte
    }

    /// Reads the 16-bit value at the program counter, low byte first, and
    /// steps past it.
    pub fn get_next_byte16(&mut self, memory: &Memory) -> (value: u16)
        ensures
            value == operand16(memory@, old(self).registers.pc),
            *final(self) == old(self).with_registers(
                Registers { pc: wrap16(old(self).registers.pc + 2), ..old(self).registers },
            ),
    {
        let low: u8 = self.get_next_byte8(memory);
        let high: u8 = self.get_next_byte8(memory);
        proof {
            crate::registers::lemma_pair_bits(high, low, 0);
        }
        (high as u16) << 8 | low as u16
    }
}

impl Stack for CPU {
    /// Pushes a 16-bit value: the stack pointer goes down by 2.
    fn push(&mut self, memory: &mut Memory, a16: u16)
        ensures
            final(memory)@ == stack_after_push(old(memory)@, old(self).registers.sp, a16),
            *final(self) == old(self).with_registers(
                Registers { sp: wrap16(old(self).registers.sp - 2), ..old(self).registers },
            ),
    {
        proof {
            crate::registers::lemma_pair_bits(0, 0, a16);
        }
        self.registers.sp = self.registers.sp.wrapping_sub(1);
        memory.set_addr(self.registers.sp, (a16 >> 8) as u8);
        self.registers.sp = self.registers.sp.wrapping_sub(1);
        memory.set_addr(self.registers.sp, (a16 & 0x00ff) as u8);
    }

    /// Pops a 16-bit value: the stack pointer goes up by 2.
    fn pop(&mut self, memory: &Memory) -> (value: u16)
        ensures
            value == stack_top(memory@, old(self).registers.sp),
            *final(self) == old(self).with_registers(
                Registers { sp: wrap16(old(self).registers.sp + 2), ..old(self).registers },
            ),
    {
        let low: u8 = memory.get_addr(self.registers.sp);
        self.registers.sp = self.registers.sp.wrapping_add(1);
        let high: u8 = memory.get_addr(self.registers.sp);
        self.registers.sp = self.registers.sp.wrapping_add(1);
        proof {
            crate::registers::lemma_pair_bits(high, low, 0);
        }
        (high as u16) << 8 | low as u16
    }
}

} // verus!
