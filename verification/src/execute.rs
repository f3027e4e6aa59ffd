//! Instruction execution: the processor carries out what `machine` states.

use vstd::prelude::*;
use crate::alu::wrap16;
use crate::cpu::CPU;
use crate::cpu::CPUState;
use crate::cpu::Stack;
use crate::instruction::decode;
use crate::instruction::decode_extended;
use crate::instruction::Address;
use crate::instruction::Arithmetic;
use crate::instruction::Condition;
use crate::instruction::Extended;
use crate::instruction::Instruction;
use crate::instruction::Operand8;
use crate::instruction::Register16;
use crate::instruction::Register8;
use crate::instruction::Rotation;
use crate::instruction::StackRegister;
use crate::interrupt::InterruptController;
use crate::machine::rotated;
use crate::machine::rotated_carry;
use crate::machine::sign_extended;
use crate::machine::ExecuteError;
use crate::machine::Machine;
use crate::memory::Memory;
use crate::memory::MemoryState;
use crate::registers::Registers;

verus! {

/// How the shifts of the rotations read in arithmetic; `c` is the incoming
/// carry as a number.
proof fn lemma_rotation_bits(value: u8, c: u8)
    requires
        c <= 1,
    ensures
        (value << 1) | (value >> 7) == value % 0x80 * 2 + value / 0x80,
        (value >> 1) | (value << 7) == value / 2 + value % 2 * 0x80,
        (value << 1) | c == value % 0x80 * 2 + c,
        (value >> 1) | (c << 7) == value / 2 + c * 0x80,
        value << 1 == value % 0x80 * 2,
        (value >> 1) | (value & 0x80) == value / 2 + value / 0x80 * 0x80,
        ((value & 0x0f) << 4) | ((value & 0xf0) >> 4) == value % 0x10 * 0x10 + value / 0x10,
        value >> 1 == value / 2,
        (value & 0x80 == 0x80) == (value >= 0x80),
        (value & 0x01 == 0x01) == (value % 2 == 1),
{
    assert(((value << 1) | (value >> 7)) == (value % 0x80) * 2 + value / 0x80
        && ((value >> 1) | (value << 7)) == value / 2 + (value % 2) * 0x80
        && ((value << 1) | c) == (value % 0x80) * 2 + c
        && ((value >> 1) | (c << 7)) == value / 2 + c * 0x80
        && (value << 1) == (value % 0x80) * 2
        && ((value >> 1) | (value & 0x80)) == value / 2 + (value / 0x80) * 0x80
        && (((value & 0x0f) << 4) | ((value & 0xf0) >> 4)) == (value % 0x10) * 0x10 + value / 0x10
        && (value >> 1) == value / 2
        && ((value & 0x80 == 0x80) == (value >= 0x80))
        && ((value & 0x01 == 0x01) == (value % 2 == 1))) by (bit_vector)
        requires
            c <= 1,
    ;
}

/// Rotates a byte; gives the result and the bit for the Carry flag.
fn rotate(rotation: Rotation, value: u8, carry: bool) -> (out: (u8, bool))
    ensures
        out.0 == rotated(rotation, value, carry),
        out.1 == rotated_carry(rotation, value),
{
    let c: u8 = if carry {
        1
    } else {
        0
    };
    proof {
        lemma_rotation_bits(value, c);
    }
    match rotation {
        Rotation::LeftCircular => ((value << 1) | (value >> 7), value & 0x80 == 0x80),
        Rotation::RightCircular => ((value >> 1) | (value << 7), value & 0x01 == 0x01),
        Rotation::Left => ((value << 1) | c, value & 0x80 == 0x80),
        Rotation::Right => ((value >> 1) | (c << 7), value & 0x01 == 0x01),
        Rotation::ShiftLeft => (value << 1, value & 0x80 == 0x80),
        Rotation::ShiftRightArithmetic => ((value >> 1) | (value & 0x80), value & 0x01 == 0x01),
        Rotation::Swap => (((value & 0x0f) << 4) | ((value & 0xf0) >> 4), false),
        Rotation::ShiftRightLogical => (value >> 1, value & 0x01 == 0x01),
    }
}

/// Widens a byte with its sign to 16 bits.
fn sign_extend(byte: u8) -> (wide: u16)
    ensures
        wide == sign_extended(byte),
{
    if byte < 0x80 {
        byte as u16
    } else {
        0xff00 + byte as u16
    }
}

impl CPU {
    /// The machine that this processor forms with a memory.
    pub open spec fn on(&self, memory: MemoryState) -> Machine {
        Machine { cpu: *self, memory }
    }

    fn read_register8(&self, register: Register8) -> (value: u8)
        ensures
            value == self.registers.register8(register),
    {
        match register {
            Register8::A => self.registers.a,
            Register8::B => self.registers.b,
            Register8::C => self.registers.c,
            Register8::D => self.registers.d,
            Register8::E => self.registers.e,
            Register8::H => self.registers.h,
            Register8::L => self.registers.l,
        }
    }

    fn write_register8(&mut self, register: Register8, value: u8)
        ensures
            *final(self) == old(self).with_registers(
                old(self).registers.with_register8(register, value),
            ),
    {
        match register {
            Register8::A => self.registers.a = value,
            Register8::B => self.registers.b = value,
            Register8::C => self.registers.c = value,
            Register8::D => self.registers.d = value,
            Register8::E => self.registers.e = value,
            Register8::H => self.registers.h = value,
            Register8::L => self.registers.l = value,
        }
    }

    fn read_operand(&self, memory: &Memory, operand: Operand8) -> (value: u8)
        ensures
            value == self.on(memory@).operand(operand),
    {
        match operand {
            Operand8::Register(register) => self.read_register8(register),
            Operand8::AtHL => memory.get_addr(self.registers.get_hl()),
        }
    }

    fn write_operand(&mut self, memory: &mut Memory, operand: Operand8, value: u8)
        ensures
            final(self).on(final(memory)@) == old(self).on(old(memory)@).with_operand(
                operand,
                value,
            ),
    {
        match operand {
            Operand8::Register(register) => self.write_register8(register, value),
            Operand8::AtHL => memory.set_addr(self.registers.get_hl(), value),
        }
    }

    fn read_register16(&self, register: Register16) -> (value: u16)
        ensures
            value == self.registers.register16(register),
    {
        match register {
            Register16::BC => self.registers.get_bc(),
            Register16::DE => self.registers.get_de(),
            Register16::HL => self.registers.get_hl(),
            Register16::SP => self.registers.sp,
        }
    }

    fn write_register16(&mut self, register: Register16, value: u16)
        ensures
            *final(self) == old(self).with_registers(
                old(self).registers.with_register16(register, value),
            ),
    {
        match register {
            Register16::BC => self.registers.set_bc(value),
            Register16::DE => self.registers.set_de(value),
            Register16::HL => self.registers.set_hl(value),
            Register16::SP => self.registers.sp = value,
        }
    }

    fn read_stack_register(&self, register: StackRegister) -> (value: u16)
        ensures
            value == self.registers.stack_register(register),
    {
        match register {
            StackRegister::BC => self.registers.get_bc(),
            StackRegister::DE => self.registers.get_de(),
            StackRegister::HL => self.registers.get_hl(),
            StackRegister::AF => self.registers.get_af(),
        }
    }

    fn write_stack_register(&mut self, register: StackRegister, value: u16)
        ensures
            *final(self) == old(self).with_registers(
                old(self).registers.with_stack_register(register, value),
            ),
    {
        match register {
            StackRegister::BC => self.registers.set_bc(value),
            StackRegister::DE => self.registers.set_de(value),
            StackRegister::HL => self.registers.set_hl(value),
            StackRegister::AF => self.registers.set_af(value),
        }
    }

    fn test_condition(&self, condition: Option<Condition>) -> (holds: bool)
        ensures
            holds == self.registers.holds(condition),
    {
        match condition {
            None => true,
            Some(Condition::NotZero) => !self.registers.get_z(),
            Some(Condition::Zero) => self.registers.get_z(),
            Some(Condition::NotCarry) => !self.registers.get_c(),
            Some(Condition::Carry) => self.registers.get_c(),
        }
    }

    /// Takes the address in HL and moves HL up by 1.
    fn take_hl_increment(&mut self) -> (addr: u16)
        ensures
            addr == old(self).registers.hl(),
            *final(self) == old(self).with_registers(
                old(self).registers.with_hl(wrap16(old(self).registers.hl() + 1)),
            ),
    {
        let addr: u16 = self.registers.get_hl();
        self.registers.set_hl(addr.wrapping_add(1));
        addr
    }

    /// Takes the address in HL and moves HL down by 1.
    fn take_hl_decrement(&mut self) -> (addr: u16)
        ensures
            addr == old(self).registers.hl(),
            *final(self) == old(self).with_registers(
                old(self).registers.with_hl(wrap16(old(self).registers.hl() - 1)),
            ),
    {
        let addr: u16 = self.registers.get_hl();
        self.registers.set_hl(addr.wrapping_sub(1));
        addr
    }

    /// Takes the address in the highest page that the byte after the opcode
    /// names.
    fn take_high_immediate(&mut self, memory: &Memory) -> (addr: u16)
        ensures
            addr == 0xff00 + memory@.read(old(self).registers.pc),
            *final(self) == old(self).with_registers(
                Registers { pc: wrap16(old(self).registers.pc + 1), ..old(self).registers },
            ),
    {
        let low: u8 = self.get_next_byte8(memory);
        0xff00 + low as u16
    }

    /// Takes the address of an accumulator load or store: reads its operand
    /// bytes, moves HL where the mode says so, and returns the address.
    fn take_address(&mut self, memory: &Memory, address: Address) -> (addr: u16)
        ensures
            addr == old(self).on(memory@).effective_address(address),
            final(self).on(memory@) == old(self).on(memory@).after_address(address),
    {
        match address {
            Address::AtBC => self.registers.get_bc(),
            Address::AtDE => self.registers.get_de(),
            Address::AtHLIncrement => self.take_hl_increment(),
            Address::AtHLDecrement => self.take_hl_decrement(),
            Address::Absolute => self.get_next_byte16(memory),
            Address::HighImmediate => self.take_high_immediate(memory),
            Address::HighC => 0xff00 + self.registers.c as u16,
        }
    }

    /// An 8-bit operation of the accumulator with `value`.
    fn accumulate(&mut self, operation: Arithmetic, value: u8)
        ensures
            *final(self) == old(self).with_registers(
                old(self).registers.accumulate(operation, value),
            ),
    {
        let a: u8 = self.registers.a;
        match operation {
            Arithmetic::Add => {
                self.registers.a = self.add8(a, value, false);
            },
            Arithmetic::AddCarry => {
                self.registers.a = self.add8(a, value, true);
            },
            Arithmetic::Subtract => {
                self.registers.a = self.sub8(a, value, false);
            },
            Arithmetic::SubtractCarry => {
                self.registers.a = self.sub8(a, value, true);
            },
            Arithmetic::And => {
                self.registers.a = a & value;
                self.registers.put_flags(a & value == 0x0, false, true, false);
            },
            Arithmetic::Xor => {
                self.registers.a = a ^ value;
                self.registers.put_flags(a ^ value == 0x0, false, false, false);
            },
            Arithmetic::Or => {
                self.registers.a = a | value;
                self.registers.put_flags(a | value == 0x0, false, false, false);
            },
            Arithmetic::Compare => {
                self.sub8(a, value, false);
            },
        }
    }
}

impl CPU {
    /// Carries out an instruction of the extended table. The program counter
    /// is past the instruction already.
    pub fn perform_extended(&mut self, memory: &mut Memory, instruction: Extended)
        ensures
            final(self).on(final(memory)@) == old(self).on(old(memory)@).perform_extended(
                instruction,
            ),
            old(self).registers.wf() ==> final(self).registers.wf(),
    {
        proof {
            if self.registers.wf() {
                crate::laws::lemma_extended_keeps_flag_invariant(self.on(memory@), instruction);
            }
        }
        match instruction {
            Extended::Rotate(rotation, operand) => {
                let value: u8 = self.read_operand(memory, operand);
                let (result, carry): (u8, bool) = rotate(rotation, value, self.registers.get_c());
                self.write_operand(memory, operand, result);
                self.registers.put_flags(result == 0x0, false, false, carry);
                self.cycle = match operand {
                    Operand8::Register(_) => 8,
                    Operand8::AtHL => 16,
                };
            },
            Extended::TestBit(bit, operand) => {
                let value: u8 = self.read_operand(memory, operand);
                let carry: bool = self.registers.get_c();
                self.registers.put_flags(value & (1u8 << (bit % 8)) == 0x0, false, true, carry);
                self.cycle = match operand {
                    Operand8::Register(_) => 8,
                    Operand8::AtHL => 12,
                };
            },
            Extended::ResetBit(bit, operand) => {
                let value: u8 = self.read_operand(memory, operand);
                self.write_operand(memory, operand, value & !(1u8 << (bit % 8)));
                self.cycle = match operand {
                    Operand8::Register(_) => 8,
                    Operand8::AtHL => 16,
                };
            },
            Extended::SetBit(bit, operand) => {
                let value: u8 = self.read_operand(memory, operand);
                self.write_operand(memory, operand, value | (1u8 << (bit % 8)));
                self.cycle = match operand {
                    Operand8::Register(_) => 8,
                    Operand8::AtHL => 16,
                };
            },
        }
    }
}

impl CPU {
    fn run_nop(&mut self, Ghost(memory): Ghost<MemoryState>)
        ensures
            final(self).on(memory) == old(self).on(memory).nop(),
    {
        reveal(Machine::nop);
        self.cycle = 4;
    }

    fn run_halt(&mut self, Ghost(memory): Ghost<MemoryState>)
        ensures
            final(self).on(memory) == old(self).on(memory).halt(),
    {
        reveal(Machine::halt);
        self.state = CPUState::Halt;
    }

    fn run_stop(&mut self, memory: &Memory)
        ensures
            final(self).on(memory@) == old(self).on(memory@).stop(),
    {
        reveal(Machine::stop);
        self.get_next_byte8(memory);
        self.state = CPUState::Stop;
        self.cycle = 4;
    }

    fn run_disable_interrupts(&mut self, Ghost(memory): Ghost<MemoryState>)
        ensures
            final(self).on(memory) == old(self).on(memory).disable_interrupts(),
    {
        reveal(Machine::disable_interrupts);
        self.cycle = 4;
    }

    fn run_enable_interrupts(&mut self, Ghost(memory): Ghost<MemoryState>)
        ensures
            final(self).on(memory) == old(self).on(memory).enable_interrupts(),
    {
        reveal(Machine::enable_interrupts);
        self.cycle = 4;
    }

    fn run_load(&mut self, memory: &mut Memory, to: Operand8, from: Operand8)
        ensures
            final(self).on(final(memory)@) == old(self).on(old(memory)@).load(to, from),
    {
        reveal(Machine::load);
        let value: u8 = self.read_operand(memory, from);
        self.write_operand(memory, to, value);
        self.cycle = match (to, from) {
            (Operand8::Register(_), Operand8::Register(_)) => 4,
            _ => 8,
        };
    }

    fn run_load_immediate(&mut self, memory: &mut Memory, to: Operand8)
        ensures
            final(self).on(final(memory)@) == old(self).on(old(memory)@).load_immediate(to),
    {
        reveal(Machine::load_immediate);
        let value: u8 = self.get_next_byte8(memory);
        self.write_operand(memory, to, value);
        self.cycle = match to {
            Operand8::Register(_) => 8,
            Operand8::AtHL => 12,
        };
    }

    fn run_load_accumulator(&mut self, memory: &Memory, address: Address)
        ensures
            final(self).on(memory@) == old(self).on(memory@).load_accumulator(address),
    {
        reveal(Machine::load_accumulator);
        let addr: u16 = self.take_address(memory, address);
        self.registers.a = memory.get_addr(addr);
        self.cycle = address_cycles(address);
    }

    fn run_store_accumulator(&mut self, memory: &mut Memory, address: Address)
        ensures
            final(self).on(final(memory)@) == old(self).on(old(memory)@).store_accumulator(address),
    {
        reveal(Machine::store_accumulator);
        let addr: u16 = self.take_address(memory, address);
        memory.set_addr(addr, self.registers.a);
        self.cycle = address_cycles(address);
    }

    fn run_load_immediate16(&mut self, memory: &Memory, register: Register16)
        ensures
            final(self).on(memory@) == old(self).on(memory@).load_immediate16(register),
    {
        reveal(Machine::load_immediate16);
        let value: u16 = self.get_next_byte16(memory);
        self.write_register16(register, value);
        self.cycle = 12;
    }

    fn run_load_stack_pointer(&mut self, Ghost(memory): Ghost<MemoryState>)
        ensures
            final(self).on(memory) == old(self).on(memory).load_stack_pointer(),
    {
        reveal(Machine::load_stack_pointer);
        self.registers.sp = self.registers.get_hl();
        self.cycle = 8;
    }

    fn run_load_stack_offset(&mut self, memory: &Memory)
        ensures
            final(self).on(memory@) == old(self).on(memory@).load_stack_offset(),
    {
        reveal(Machine::load_stack_offset);
        let byte: u8 = self.get_next_byte8(memory);
        let sp: u16 = self.registers.sp;
        let sum: u16 = self.add16(sp, sign_extend(byte), false);
        self.registers.set_hl(sum);
        let half: bool = self.registers.get_h();
        let carry: bool = self.registers.get_c();
        self.registers.put_flags(false, false, half, carry);
        self.cycle = 12;
    }

    fn run_store_stack_pointer(&mut self, memory: &mut Memory)
        ensures
            final(self).on(final(memory)@) == old(self).on(old(memory)@).store_stack_pointer(),
    {
        reveal(Machine::store_stack_pointer);
        let addr: u16 = self.get_next_byte16(memory);
        proof {
            crate::registers::lemma_pair_bits(0, 0, self.registers.sp);
        }
        memory.set_addr(addr, (self.registers.sp & 0x00ff) as u8);
        memory.set_addr(addr.wrapping_add(1), (self.registers.sp >> 8) as u8);
        self.cycle = 20;
    }

    fn run_push(&mut self, memory: &mut Memory, register: StackRegister)
        ensures
            final(self).on(final(memory)@) == old(self).on(old(memory)@).push(register),
    {
        reveal(Machine::push);
        let value: u16 = self.read_stack_register(register);
        self.push(memory, value);
        self.cycle = 16;
    }

    fn run_pop(&mut self, memory: &Memory, register: StackRegister)
        ensures
            final(self).on(memory@) == old(self).on(memory@).pop(register),
    {
        reveal(Machine::pop);
        let value: u16 = self.pop(memory);
        self.write_stack_register(register, value);
        self.cycle = 12;
    }

    fn run_alu(&mut self, memory: &Memory, operation: Arithmetic, operand: Operand8)
        ensures
            final(self).on(memory@) == old(self).on(memory@).alu(operation, operand),
    {
        reveal(Machine::alu);
        let value: u8 = self.read_operand(memory, operand);
        self.accumulate(operation, value);
        self.cycle = match operand {
            Operand8::Register(_) => 4,
            Operand8::AtHL => 8,
        };
    }

    fn run_alu_immediate(&mut self, memory: &Memory, operation: Arithmetic)
        ensures
            final(self).on(memory@) == old(self).on(memory@).alu_immediate(operation),
    {
        reveal(Machine::alu_immediate);
        let value: u8 = self.get_next_byte8(memory);
        self.accumulate(operation, value);
        self.cycle = 8;
    }

    fn run_increment(&mut self, memory: &mut Memory, operand: Operand8)
        ensures
            final(self).on(final(memory)@) == old(self).on(old(memory)@).increment(operand),
    {
        reveal(Machine::increment);
        let carry: bool = self.registers.get_c();
        let value: u8 = self.read_operand(memory, operand);
        let result: u8 = self.add8(value, 0x01, false);
        self.write_operand(memory, operand, result);
        let zero: bool = self.registers.get_z();
        let half: bool = self.registers.get_h();
        self.registers.put_flags(zero, false, half, carry);
        self.cycle = match operand {
            Operand8::Register(_) => 4,
            Operand8::AtHL => 12,
        };
    }

    fn run_decrement(&mut self, memory: &mut Memory, operand: Operand8)
        ensures
            final(self).on(final(memory)@) == old(self).on(old(memory)@).decrement(operand),
    {
        reveal(Machine::decrement);
        let carry: bool = self.registers.get_c();
        let value: u8 = self.read_operand(memory, operand);
        let result: u8 = self.sub8(value, 0x01, false);
        self.write_operand(memory, operand, result);
        let zero: bool = self.registers.get_z();
        let half: bool = self.registers.get_h();
        self.registers.put_flags(zero, true, half, carry);
        self.cycle = match operand {
            Operand8::Register(_) => 4,
            Operand8::AtHL => 12,
        };
    }

    fn run_add_hl(&mut self, Ghost(memory): Ghost<MemoryState>, register: Register16)
        ensures
            final(self).on(memory) == old(self).on(memory).add_hl(register),
    {
        reveal(Machine::add_hl);
        let zero: bool = self.registers.get_z();
        let hl: u16 = self.registers.get_hl();
        let value: u16 = self.read_register16(register);
        let sum: u16 = self.add16(hl, value, false);
        self.registers.set_hl(sum);
        let half: bool = self.registers.get_h();
        let carry: bool = self.registers.get_c();
        self.registers.put_flags(zero, false, half, carry);
        self.cycle = 8;
    }

    fn run_add_stack_pointer(&mut self, memory: &Memory)
        ensures
            final(self).on(memory@) == old(self).on(memory@).add_stack_pointer(),
    {
        reveal(Machine::add_stack_pointer);
        let byte: u8 = self.get_next_byte8(memory);
        let sp: u16 = self.registers.sp;
        self.registers.sp = self.add16(sp, sign_extend(byte), false);
        let half: bool = self.registers.get_h();
        let carry: bool = self.registers.get_c();
        self.registers.put_flags(false, false, half, carry);
        self.cycle = 16;
    }

    fn run_increment16(&mut self, Ghost(memory): Ghost<MemoryState>, register: Register16)
        ensures
            final(self).on(memory) == old(self).on(memory).increment16(register),
    {
        reveal(Machine::increment16);
        let value: u16 = self.read_register16(register);
        self.write_register16(register, value.wrapping_add(1));
        self.cycle = 8;
    }

    fn run_decrement16(&mut self, Ghost(memory): Ghost<MemoryState>, register: Register16)
        ensures
            final(self).on(memory) == old(self).on(memory).decrement16(register),
    {
        reveal(Machine::decrement16);
        let value: u16 = self.read_register16(register);
        self.write_register16(register, value.wrapping_sub(1));
        self.cycle = 8;
    }

    fn run_rotate_accumulator(&mut self, Ghost(memory): Ghost<MemoryState>, rotation: Rotation)
        ensures
            final(self).on(memory) == old(self).on(memory).rotate_accumulator(
                rotation,
            ),
    {
        reveal(Machine::rotate_accumulator);
        let (result, carry): (u8, bool) = rotate(
            rotation,
            self.registers.a,
            self.registers.get_c(),
        );
        self.registers.a = result;
        self.registers.put_flags(false, false, false, carry);
        self.cycle = 4;
    }

    fn run_decimal_adjust(&mut self, Ghost(memory): Ghost<MemoryState>)
        ensures
            final(self).on(memory) == old(self).on(memory).decimal_adjust(),
    {
        reveal(Machine::decimal_adjust);
        let a: u8 = self.registers.a;
        self.registers.a = self.daa(a);
        let zero: bool = self.registers.get_z();
        let subtract: bool = self.registers.get_n();
        let carry: bool = self.registers.get_c();
        self.registers.put_flags(zero, subtract, false, carry);
        self.cycle = 4;
    }

    fn run_complement(&mut self, Ghost(memory): Ghost<MemoryState>)
        ensures
            final(self).on(memory) == old(self).on(memory).complement(),
    {
        reveal(Machine::complement);
        self.registers.a = !self.registers.a;
        let zero: bool = self.registers.get_z();
        let carry: bool = self.registers.get_c();
        self.registers.put_flags(zero, true, true, carry);
        self.cycle = 4;
    }

    fn run_set_carry(&mut self, Ghost(memory): Ghost<MemoryState>)
        ensures
            final(self).on(memory) == old(self).on(memory).set_carry(),
    {
        reveal(Machine::set_carry);
        let zero: bool = self.registers.get_z();
        self.registers.put_flags(zero, false, false, true);
        self.cycle = 4;
    }

    fn run_complement_carry(&mut self, Ghost(memory): Ghost<MemoryState>)
        ensures
            final(self).on(memory) == old(self).on(memory).complement_carry(),
    {
        reveal(Machine::complement_carry);
        let zero: bool = self.registers.get_z();
        let carry: bool = self.registers.get_c();
        self.registers.put_flags(zero, false, false, !carry);
        self.cycle = 4;
    }

    fn run_jump(&mut self, memory: &Memory, condition: Option<Condition>)
        ensures
            final(self).on(memory@) == old(self).on(memory@).jump(condition),
    {
        reveal(Machine::jump);
        let target: u16 = self.get_next_byte16(memory);
        if self.test_condition(condition) {
            self.registers.pc = target;
            self.cycle = 16;
        } else {
            self.cycle = 12;
        }
    }

    fn run_jump_hl(&mut self, Ghost(memory): Ghost<MemoryState>)
        ensures
            final(self).on(memory) == old(self).on(memory).jump_hl(),
    {
        reveal(Machine::jump_hl);
        self.registers.pc = self.registers.get_hl();
        self.cycle = 4;
    }

    fn run_jump_relative(&mut self, memory: &Memory, condition: Option<Condition>)
        ensures
            final(self).on(memory@) == old(self).on(memory@).jump_relative(condition),
    {
        reveal(Machine::jump_relative);
        let byte: u8 = self.get_next_byte8(memory);
        if self.test_condition(condition) {
            if byte < 0x80 {
                self.registers.pc = self.registers.pc.wrapping_add(byte as u16);
            } else {
                self.registers.pc = self.registers.pc.wrapping_sub(0x100 - byte as u16);
            }
            self.cycle = 12;
        } else {
            self.cycle = 8;
        }
    }

    fn run_call(&mut self, memory: &mut Memory, condition: Option<Condition>)
        ensures
            final(self).on(final(memory)@) == old(self).on(old(memory)@).call(condition),
    {
        reveal(Machine::call);
        let target: u16 = self.get_next_byte16(memory);
        if self.test_condition(condition) {
            let back: u16 = self.registers.pc;
            self.push(memory, back);
            self.registers.pc = target;
            self.cycle = 24;
        } else {
            self.cycle = 12;
        }
    }

    fn run_return(&mut self, memory: &Memory, condition: Option<Condition>)
        ensures
            final(self).on(memory@) == old(self).on(memory@).ret(condition),
    {
        reveal(Machine::ret);
        if self.test_condition(condition) {
            let target: u16 = self.pop(memory);
            self.registers.pc = target;
            self.cycle = match condition {
                None => 16,
                Some(_) => 20,
            };
        } else {
            self.cycle = 8;
        }
    }

    fn run_return_from_interrupt(&mut self, memory: &Memory)
        ensures
            final(self).on(memory@) == old(self).on(memory@).return_from_interrupt(),
    {
        reveal(Machine::return_from_interrupt);
        let target: u16 = self.pop(memory);
        self.registers.pc = target;
        self.cycle = 16;
    }

    fn run_restart(&mut self, memory: &mut Memory, vector: u8)
        ensures
            final(self).on(final(memory)@) == old(self).on(old(memory)@).restart(vector),
    {
        reveal(Machine::restart);
        let back: u16 = self.registers.pc;
        self.push(memory, back);
        self.registers.pc = vector as u16;
        self.cycle = 16;
    }

    fn run_prefix(&mut self, memory: &mut Memory)
        ensures
            final(self).on(final(memory)@) == old(self).on(old(memory)@).prefix(),
    {
        reveal(Machine::prefix);
        let opcode: u8 = self.get_next_byte8(memory);
        self.perform_extended(memory, decode_extended(opcode));
    }

    /// Carries out an instruction of the primary table. The program counter
    /// is past the opcode already, at the operand bytes if there are any.
    pub fn perform(&mut self, memory: &mut Memory, instruction: Instruction)
        ensures
            final(self).on(final(memory)@) == old(self).on(old(memory)@).perform(instruction),
            old(self).registers.wf() ==> final(self).registers.wf(),
    {
        proof {
            if self.registers.wf() {
                crate::laws::lemma_perform_keeps_flag_invariant(self.on(memory@), instruction);
            }
        }
        match instruction {
            Instruction::Nop => self.run_nop(Ghost(memory@)),
            Instruction::Halt => self.run_halt(Ghost(memory@)),
            Instruction::Stop => self.run_stop(memory),
            Instruction::DisableInterrupts => self.run_disable_interrupts(Ghost(memory@)),
            Instruction::EnableInterrupts => self.run_enable_interrupts(Ghost(memory@)),
            Instruction::Load(to, from) => self.run_load(memory, to, from),
            Instruction::LoadImmediate(to) => self.run_load_immediate(memory, to),
            Instruction::LoadAccumulator(address) => self.run_load_accumulator(memory, address),
            Instruction::StoreAccumulator(address) => self.run_store_accumulator(memory, address),
            Instruction::LoadImmediate16(register) => self.run_load_immediate16(memory, register),
            Instruction::LoadStackPointer => self.run_load_stack_pointer(Ghost(memory@)),
            Instruction::LoadStackOffset => self.run_load_stack_offset(memory),
            Instruction::StoreStackPointer => self.run_store_stack_pointer(memory),
            Instruction::Push(register) => self.run_push(memory, register),
            Instruction::Pop(register) => self.run_pop(memory, register),
            Instruction::Alu(operation, operand) => self.run_alu(memory, operation, operand),
            Instruction::AluImmediate(operation) => self.run_alu_immediate(memory, operation),
            Instruction::Increment(operand) => self.run_increment(memory, operand),
            Instruction::Decrement(operand) => self.run_decrement(memory, operand),
            Instruction::AddHL(register) => self.run_add_hl(Ghost(memory@), register),
            Instruction::AddStackPointer => self.run_add_stack_pointer(memory),
            Instruction::Increment16(register) => self.run_increment16(Ghost(memory@), register),
            Instruction::Decrement16(register) => self.run_decrement16(Ghost(memory@), register),
            Instruction::RotateAccumulator(rotation) => {
                self.run_rotate_accumulator(Ghost(memory@), rotation)
            },
            Instruction::DecimalAdjust => self.run_decimal_adjust(Ghost(memory@)),
            Instruction::Complement => self.run_complement(Ghost(memory@)),
            Instruction::SetCarry => self.run_set_carry(Ghost(memory@)),
            Instruction::ComplementCarry => self.run_complement_carry(Ghost(memory@)),
            Instruction::Jump(condition) => self.run_jump(memory, condition),
            Instruction::JumpHL => self.run_jump_hl(Ghost(memory@)),
            Instruction::JumpRelative(condition) => self.run_jump_relative(memory, condition),
            Instruction::Call(condition) => self.run_call(memory, condition),
            Instruction::Return(condition) => self.run_return(memory, condition),
            Instruction::ReturnFromInterrupt => self.run_return_from_interrupt(memory),
            Instruction::Restart(vector) => self.run_restart(memory, vector),
            Instruction::Prefix => self.run_prefix(memory),
        }
    }
}

impl CPU {
    /// Executes one instruction: reads the opcode at the program counter,
    /// steps past it, carries the instruction out and records its cycles.
    /// The interrupt master enable changes through `interrupts` alone.
    ///
    /// A processor that is not active does nothing. A byte that is no
    /// instruction is returned as an error with its address, and nothing changes.
    pub fn execute(&mut self, memory: &mut Memory, interrupts: &mut InterruptController) -> (result:
        Result<(), ExecuteError>)
        ensures
            result == match old(self).on(old(memory)@).fault() {
                Some(error) => Err::<(), ExecuteError>(error),
                None => Ok::<(), ExecuteError>(()),
            },
            final(self).on(final(memory)@) == old(self).on(old(memory)@).step(),
            final(interrupts).ime == old(self).on(old(memory)@).interrupts_after_step(
                old(interrupts).ime,
            ),
            old(self).registers.wf() ==> final(self).registers.wf(),
    {
        match self.state {
            CPUState::Active => {},
            _ => {
                return Ok(());
            },
        }
        let pc: u16 = self.registers.pc;
        let opcode: u8 = memory.get_addr(pc);
        match decode(opcode) {
            None => Err(ExecuteError::UnrecognizedOpcode { opcode, pc }),
            Some(instruction) => {
                self.registers.pc = pc.wrapping_add(1);
                self.perform(memory, instruction);
                match instruction {
                    Instruction::ReturnFromInterrupt => interrupts.enable_interrupts(),
                    Instruction::EnableInterrupts => interrupts.enable_interrupts(),
                    Instruction::DisableInterrupts => interrupts.disable_interrupts(),
                    _ => {},
                }
                Ok(())
            },
        }
    }

    /// Accepts an interrupt: a call to its reset vector, with the program
    /// counter pushed. A halted processor becomes active again.
    pub fn rst(&mut self, memory: &mut Memory, rst_addr: u16)
        ensures
            final(self).on(final(memory)@) == old(self).on(old(memory)@).interrupted(rst_addr),
            old(self).registers.wf() ==> final(self).registers.wf(),
    {
        let back: u16 = self.registers.pc;
        self.push(memory, back);
        self.registers.pc = rst_addr;
        match self.state {
            CPUState::Halt => {
                self.state = CPUState::Active;
            },
            _ => {},
        }
    }
}

/// Cycles of an accumulator load or store.
fn address_cycles(address: Address) -> (cycles: usize)
    ensures
        cycles == crate::machine::address_cycles(address),
{
    match address {
        Address::Absolute => 16,
        Address::HighImmediate => 12,
        _ => 8,
    }
}

} // verus!
