//! What the instructions do, as functions on the state that they read and
//! change: the processor and the memory.
//!
//! Each instruction has a function of its own, which is opaque to the
//! solver: a proof reveals the ones that it reasons about.

use vstd::prelude::*;
use crate::alu::add16_flags;
use crate::alu::add16_value;
use crate::alu::add8_flags;
use crate::alu::add8_value;
use crate::alu::daa_flags;
use crate::alu::daa_value;
use crate::alu::sub8_flags;
use crate::alu::sub8_value;
use crate::alu::wrap16;
use crate::cpu::operand16;
use crate::cpu::stack_after_push;
use crate::cpu::stack_top;
use crate::cpu::CPUState;
use crate::cpu::CPU;
use crate::instruction::extended_of;
use crate::instruction::instruction_of;
use crate::instruction::Address;
use crate::instruction::Arithmetic;
use crate::instruction::Condition;
use crate::instruction::Extended;
use crate::instruction::Instruction;
use crate::instruction::Operand8;
use crate::instruction::Register16;
use crate::instruction::Register8;
use crate::instruction::Rotation;
use crate::instruction::StackRegister;
use crate::memory::MemoryState;
use crate::registers::carry_of;
use crate::registers::half_carry_of;
use crate::registers::high_byte;
use crate::registers::low_byte;
use crate::registers::pack_flags;
use crate::registers::subtract_of;
use crate::registers::zero_of;
use crate::registers::Registers;

verus! {

/// A byte read as a signed displacement, -128 to 127.
pub open spec fn displacement(byte: u8) -> int {
    if byte < 0x80 {
        byte as int
    } else {
        byte - 0x100
    }
}

/// A byte read as a signed displacement and widened to 16 bits: `0x00` to
/// `0x7F` stay, `0x80` to `0xFF` become `0xFF80` to `0xFFFF`.
pub open spec fn sign_extended(byte: u8) -> u16 {
    wrap16(displacement(byte))
}

/// The flag byte that keeps Half-carry and Carry of `f` and clears Zero and
/// Subtract.
pub open spec fn carries_of(f: u8) -> u8 {
    pack_flags(false, false, half_carry_of(f), carry_of(f))
}

/// The result of a rotation of `value`; `carry` is the incoming Carry flag,
/// which only the rotations through Carry use.
pub open spec fn rotated(rotation: Rotation, value: u8, carry: bool) -> u8 {
    let c: int = if carry {
        1
    } else {
        0
    };
    match rotation {
        Rotation::LeftCircular => (value % 0x80 * 2 + value / 0x80) as u8,
        Rotation::RightCircular => (value / 2 + value % 2 * 0x80) as u8,
        Rotation::Left => (value % 0x80 * 2 + c) as u8,
        Rotation::Right => (value / 2 + c * 0x80) as u8,
        Rotation::ShiftLeft => (value % 0x80 * 2) as u8,
        Rotation::ShiftRightArithmetic => (value / 2 + value / 0x80 * 0x80) as u8,
        Rotation::Swap => (value % 0x10 * 0x10 + value / 0x10) as u8,
        Rotation::ShiftRightLogical => (value / 2) as u8,
    }
}

/// The Carry flag after a rotation of `value`: the bit that left the byte,
/// and clear after a swap.
pub open spec fn rotated_carry(rotation: Rotation, value: u8) -> bool {
    match rotation {
        Rotation::LeftCircular => value >= 0x80,
        Rotation::Left => value >= 0x80,
        Rotation::ShiftLeft => value >= 0x80,
        Rotation::RightCircular => value % 2 == 1,
        Rotation::Right => value % 2 == 1,
        Rotation::ShiftRightArithmetic => value % 2 == 1,
        Rotation::ShiftRightLogical => value % 2 == 1,
        Rotation::Swap => false,
    }
}

/// The mask of bit `bit`, the bit number taken modulo 8.
pub open spec fn bit_mask(bit: u8) -> u8 {
    1u8 << (bit % 8)
}

/// The accumulator after an 8-bit operation with `value`.
pub open spec fn accumulated(operation: Arithmetic, a: u8, value: u8, carry: bool) -> u8 {
    let c: int = if carry {
        1
    } else {
        0
    };
    match operation {
        Arithmetic::Add => add8_value(a, value, 0),
        Arithmetic::AddCarry => add8_value(a, value, c),
        Arithmetic::Subtract => sub8_value(a, value, 0),
        Arithmetic::SubtractCarry => sub8_value(a, value, c),
        Arithmetic::And => a & value,
        Arithmetic::Xor => a ^ value,
        Arithmetic::Or => a | value,
        Arithmetic::Compare => a,
    }
}

/// The flag byte after an 8-bit operation of the accumulator `a` with
/// `value`, under the incoming Carry flag.
pub open spec fn accumulated_flags(operation: Arithmetic, a: u8, value: u8, carry: bool) -> u8 {
    let c: int = if carry {
        1
    } else {
        0
    };
    match operation {
        Arithmetic::Add => add8_flags(a, value, 0),
        Arithmetic::AddCarry => add8_flags(a, value, c),
        Arithmetic::Subtract => sub8_flags(a, value, 0),
        Arithmetic::SubtractCarry => sub8_flags(a, value, c),
        Arithmetic::And => pack_flags(a & value == 0, false, true, false),
        Arithmetic::Xor => pack_flags(a ^ value == 0, false, false, false),
        Arithmetic::Or => pack_flags(a | value == 0, false, false, false),
        Arithmetic::Compare => sub8_flags(a, value, 0),
    }
}

impl Registers {
    pub open spec fn register8(self, register: Register8) -> u8 {
        match register {
            Register8::A => self.a,
            Register8::B => self.b,
            Register8::C => self.c,
            Register8::D => self.d,
            Register8::E => self.e,
            Register8::H => self.h,
            Register8::L => self.l,
        }
    }

    pub open spec fn with_register8(self, register: Register8, value: u8) -> Registers {
        match register {
            Register8::A => Registers { a: value, ..self },
            Register8::B => Registers { b: value, ..self },
            Register8::C => Registers { c: value, ..self },
            Register8::D => Registers { d: value, ..self },
            Register8::E => Registers { e: value, ..self },
            Register8::H => Registers { h: value, ..self },
            Register8::L => Registers { l: value, ..self },
        }
    }

    pub open spec fn register16(self, register: Register16) -> u16 {
        match register {
            Register16::BC => self.bc(),
            Register16::DE => self.de(),
            Register16::HL => self.hl(),
            Register16::SP => self.sp,
        }
    }

    pub open spec fn with_register16(self, register: Register16, value: u16) -> Registers {
        match register {
            Register16::BC => self.with_bc(value),
            Register16::DE => self.with_de(value),
            Register16::HL => self.with_hl(value),
            Register16::SP => Registers { sp: value, ..self },
        }
    }

    pub open spec fn stack_register(self, register: StackRegister) -> u16 {
        match register {
            StackRegister::BC => self.bc(),
            StackRegister::DE => self.de(),
            StackRegister::HL => self.hl(),
            StackRegister::AF => self.af(),
        }
    }

    pub open spec fn with_stack_register(self, register: StackRegister, value: u16) -> Registers {
        match register {
            StackRegister::BC => self.with_bc(value),
            StackRegister::DE => self.with_de(value),
            StackRegister::HL => self.with_hl(value),
            StackRegister::AF => self.with_af(value),
        }
    }

    /// Whether a condition holds; no condition always holds.
    pub open spec fn holds(self, condition: Option<Condition>) -> bool {
        match condition {
            None => true,
            Some(Condition::NotZero) => !self.zero(),
            Some(Condition::Zero) => self.zero(),
            Some(Condition::NotCarry) => !self.carry(),
            Some(Condition::Carry) => self.carry(),
        }
    }

    /// The registers after an 8-bit operation of the accumulator with
    /// `value`.
    pub open spec fn accumulate(self, operation: Arithmetic, value: u8) -> Registers {
        Registers {
            a: accumulated(operation, self.a, value, self.carry()),
            f: accumulated_flags(operation, self.a, value, self.carry()),
            ..self
        }
    }
}

/// The state that instructions read and change.
pub struct Machine {
    pub cpu: CPU,
    pub memory: MemoryState,
}

impl Machine {
    pub open spec fn registers(self) -> Registers {
        self.cpu.registers
    }

    pub open spec fn with_registers(self, registers: Registers) -> Machine {
        Machine { cpu: CPU { registers, ..self.cpu }, ..self }
    }

    pub open spec fn with_cycle(self, cycle: usize) -> Machine {
        Machine { cpu: CPU { cycle, ..self.cpu }, ..self }
    }

    pub open spec fn with_state(self, state: CPUState) -> Machine {
        Machine { cpu: CPU { state, ..self.cpu }, ..self }
    }

    pub open spec fn with_f(self, f: u8) -> Machine {
        self.with_registers(self.registers().with_f(f))
    }

    pub open spec fn with_sp(self, sp: u16) -> Machine {
        self.with_registers(Registers { sp, ..self.registers() })
    }

    /// The machine with the program counter at `pc`.
    pub open spec fn with_pc(self, pc: u16) -> Machine {
        self.with_registers(Registers { pc, ..self.registers() })
    }

    /// The machine with the program counter `count` bytes on.
    pub open spec fn skip(self, count: int) -> Machine {
        self.with_pc(wrap16(self.registers().pc + count))
    }

    pub open spec fn read(self, addr: u16) -> u8 {
        self.memory.read(addr)
    }

    pub open spec fn write(self, addr: u16, value: u8) -> Machine {
        Machine { memory: self.memory.write(addr, value), ..self }
    }

    /// The byte at the program counter.
    pub open spec fn immediate8(self) -> u8 {
        self.read(self.registers().pc)
    }

    /// The 16-bit value at the program counter, low byte first.
    pub open spec fn immediate16(self) -> u16 {
        operand16(self.memory, self.registers().pc)
    }

    pub open spec fn operand(self, operand: Operand8) -> u8 {
        match operand {
            Operand8::Register(register) => self.registers().register8(register),
            Operand8::AtHL => self.read(self.registers().hl()),
        }
    }

    pub open spec fn with_operand(self, operand: Operand8, value: u8) -> Machine {
        match operand {
            Operand8::Register(register) => self.with_registers(
                self.registers().with_register8(register, value),
            ),
            Operand8::AtHL => self.write(self.registers().hl(), value),
        }
    }

    pub open spec fn register16(self, register: Register16) -> u16 {
        self.registers().register16(register)
    }

    pub open spec fn with_register16(self, register: Register16, value: u16) -> Machine {
        self.with_registers(self.registers().with_register16(register, value))
    }

    pub open spec fn stack_register(self, register: StackRegister) -> u16 {
        self.registers().stack_register(register)
    }

    pub open spec fn with_stack_register(self, register: StackRegister, value: u16) -> Machine {
        self.with_registers(self.registers().with_stack_register(register, value))
    }

    /// Whether a condition holds; no condition always holds.
    pub open spec fn holds(self, condition: Option<Condition>) -> bool {
        self.registers().holds(condition)
    }

    /// The machine after an 8-bit operation of the accumulator with `value`.
    pub open spec fn accumulate(self, operation: Arithmetic, value: u8) -> Machine {
        self.with_registers(self.registers().accumulate(operation, value))
    }

    /// The machine after a push of `value`.
    pub open spec fn pushed(self, value: u16) -> Machine {
        Machine {
            memory: stack_after_push(self.memory, self.registers().sp, value),
            ..self
        }.with_sp(wrap16(self.registers().sp - 2))
    }

    /// The value on top of the stack.
    pub open spec fn top(self) -> u16 {
        stack_top(self.memory, self.registers().sp)
    }

    /// The machine after a pop.
    pub open spec fn popped(self) -> Machine {
        self.with_sp(wrap16(self.registers().sp + 2))
    }

    /// The address that an accumulator load or store goes to.
    pub open spec fn effective_address(self, address: Address) -> u16 {
        match address {
            Address::AtBC => self.registers().bc(),
            Address::AtDE => self.registers().de(),
            Address::AtHLIncrement => self.registers().hl(),
            Address::AtHLDecrement => self.registers().hl(),
            Address::Absolute => self.immediate16(),
            Address::HighImmediate => (0xff00 + self.immediate8()) as u16,
            Address::HighC => (0xff00 + self.registers().c) as u16,
        }
    }

    /// The machine after an accumulator load or store has taken its address:
    /// past the operand bytes, HL moved where the mode says so.
    pub open spec fn after_address(self, address: Address) -> Machine {
        match address {
            Address::AtBC => self,
            Address::AtDE => self,
            Address::AtHLIncrement => self.with_registers(
                self.registers().with_hl(wrap16(self.registers().hl() + 1)),
            ),
            Address::AtHLDecrement => self.with_registers(
                self.registers().with_hl(wrap16(self.registers().hl() - 1)),
            ),
            Address::Absolute => self.skip(2),
            Address::HighImmediate => self.skip(1),
            Address::HighC => self,
        }
    }

}

/// Cycles of an accumulator load or store.
pub open spec fn address_cycles(address: Address) -> usize {
    match address {
        Address::Absolute => 16,
        Address::HighImmediate => 12,
        _ => 8,
    }
}

/// Cycles of an instruction on an 8-bit operand: `register` for a register
/// operand, `indirect` for the byte at HL.
pub open spec fn operand_cycles(operand: Operand8, register: usize, indirect: usize) -> usize {
    match operand {
        Operand8::Register(_) => register,
        Operand8::AtHL => indirect,
    }
}

impl Machine {
    /// The machine after an instruction of the extended table; the program
    /// counter is past the instruction already.
    pub open spec fn perform_extended(self, instruction: Extended) -> Machine {
        let r: Registers = self.registers();
        match instruction {
            Extended::Rotate(rotation, operand) => {
                let value: u8 = self.operand(operand);
                let result: u8 = rotated(rotation, value, r.carry());
                self.with_operand(operand, result).with_f(
                    pack_flags(result == 0, false, false, rotated_carry(rotation, value)),
                ).with_cycle(operand_cycles(operand, 8, 16))
            },
            Extended::TestBit(bit, operand) => {
                let value: u8 = self.operand(operand);
                self.with_f(
                    pack_flags(value & bit_mask(bit) == 0, false, true, r.carry()),
                ).with_cycle(operand_cycles(operand, 8, 12))
            },
            Extended::ResetBit(bit, operand) => {
                let value: u8 = self.operand(operand);
                self.with_operand(operand, value & !bit_mask(bit)).with_cycle(
                    operand_cycles(operand, 8, 16),
                )
            },
            Extended::SetBit(bit, operand) => {
                let value: u8 = self.operand(operand);
                self.with_operand(operand, value | bit_mask(bit)).with_cycle(
                    operand_cycles(operand, 8, 16),
                )
            },
        }
    }

    /// Nothing but 4 cycles.
    #[verifier::opaque]
    pub open spec fn nop(self) -> Machine {
        self.with_cycle(4)
    }

    /// The processor halts; the cycle count stays as it was.
    #[verifier::opaque]
    pub open spec fn halt(self) -> Machine {
        self.with_state(CPUState::Halt)
    }

    /// The processor stops; the byte after the opcode is passed over.
    #[verifier::opaque]
    pub open spec fn stop(self) -> Machine {
        self.skip(1).with_state(CPUState::Stop).with_cycle(4)
    }

    /// 4 cycles; the interrupt master enable is cleared.
    #[verifier::opaque]
    pub open spec fn disable_interrupts(self) -> Machine {
        self.with_cycle(4)
    }

    /// 4 cycles; the interrupt master enable is set.
    #[verifier::opaque]
    pub open spec fn enable_interrupts(self) -> Machine {
        self.with_cycle(4)
    }

    /// Copies `from` to `to`: 4 cycles between registers, 8 with the byte at HL.
    #[verifier::opaque]
    pub open spec fn load(self, to: Operand8, from: Operand8) -> Machine {
        self.with_operand(to, self.operand(from)).with_cycle(
            if to is AtHL || from is AtHL {
                8
            } else {
                4
            },
        )
    }

    /// Loads the byte after the opcode: 8 cycles into a register, 12 into the byte at HL.
    #[verifier::opaque]
    pub open spec fn load_immediate(self, to: Operand8) -> Machine {
        self.skip(1).with_operand(to, self.immediate8()).with_cycle(
            operand_cycles(to, 8, 12),
        )
    }

    /// Loads the accumulator from memory.
    #[verifier::opaque]
    pub open spec fn load_accumulator(self, address: Address) -> Machine {
        self.after_address(address).with_operand(
            Operand8::Register(Register8::A),
            self.read(self.effective_address(address)),
        ).with_cycle(address_cycles(address))
    }

    /// Stores the accumulator to memory.
    #[verifier::opaque]
    pub open spec fn store_accumulator(self, address: Address) -> Machine {
        let r: Registers = self.registers();
        self.after_address(address).write(
            self.effective_address(address),
            r.a,
        ).with_cycle(address_cycles(address))
    }

    /// Loads the 16-bit value after the opcode.
    #[verifier::opaque]
    pub open spec fn load_immediate16(self, register: Register16) -> Machine {
        self.skip(2).with_register16(
            register,
            self.immediate16(),
        ).with_cycle(12)
    }

    /// SP takes the value of HL.
    #[verifier::opaque]
    pub open spec fn load_stack_pointer(self) -> Machine {
        let r: Registers = self.registers();
        self.with_sp(r.hl()).with_cycle(8)
    }

    /// HL takes SP plus the signed byte after the opcode. Half-carry and
    /// Carry are those of the 16-bit addition of SP and the byte widened
    /// with its sign; Zero and Subtract are cleared.
    #[verifier::opaque]
    pub open spec fn load_stack_offset(self) -> Machine {
        let r: Registers = self.registers();
        let offset: u16 = sign_extended(self.immediate8());
        self.skip(1).with_register16(Register16::HL, add16_value(r.sp, offset, 0)).with_f(
            carries_of(add16_flags(r.sp, offset, 0)),
        ).with_cycle(12)
    }

    /// Stores SP at the address after the opcode, low byte first.
    #[verifier::opaque]
    pub open spec fn store_stack_pointer(self) -> Machine {
        let r: Registers = self.registers();
        let addr: u16 = self.immediate16();
        self.skip(2).write(addr, low_byte(r.sp)).write(
            wrap16(addr + 1),
            high_byte(r.sp),
        ).with_cycle(20)
    }

    /// Pushes a register pair.
    #[verifier::opaque]
    pub open spec fn push(self, register: StackRegister) -> Machine {
        self.pushed(self.stack_register(register)).with_cycle(16)
    }

    /// Pops a register pair; AF comes out without the low nibble of F.
    #[verifier::opaque]
    pub open spec fn pop(self, register: StackRegister) -> Machine {
        self.popped().with_stack_register(register, self.top()).with_cycle(
            12,
        )
    }

    /// An operation of the accumulator with a register or the byte at HL.
    #[verifier::opaque]
    pub open spec fn alu(self, operation: Arithmetic, operand: Operand8) -> Machine {
        self.accumulate(
            operation,
            self.operand(operand),
        ).with_cycle(operand_cycles(operand, 4, 8))
    }

    /// An operation of the accumulator with the byte after the opcode.
    #[verifier::opaque]
    pub open spec fn alu_immediate(self, operation: Arithmetic) -> Machine {
        self.skip(1).accumulate(operation, self.immediate8()).with_cycle(8)
    }

    /// Adds 1 to an operand; Carry stays as it was.
    #[verifier::opaque]
    pub open spec fn increment(self, operand: Operand8) -> Machine {
        let r: Registers = self.registers();
        let value: u8 = self.operand(operand);
        let flags: u8 = add8_flags(value, 1, 0);
        self.with_operand(operand, add8_value(value, 1, 0)).with_f(
            pack_flags(zero_of(flags), false, half_carry_of(flags), r.carry()),
        ).with_cycle(operand_cycles(operand, 4, 12))
    }

    /// Subtracts 1 from an operand; Carry stays as it was.
    #[verifier::opaque]
    pub open spec fn decrement(self, operand: Operand8) -> Machine {
        let r: Registers = self.registers();
        let value: u8 = self.operand(operand);
        let flags: u8 = sub8_flags(value, 1, 0);
        self.with_operand(operand, sub8_value(value, 1, 0)).with_f(
            pack_flags(zero_of(flags), true, half_carry_of(flags), r.carry()),
        ).with_cycle(operand_cycles(operand, 4, 12))
    }

    /// Adds a 16-bit register to HL; Zero stays as it was.
    #[verifier::opaque]
    pub open spec fn add_hl(self, register: Register16) -> Machine {
        let r: Registers = self.registers();
        let value: u16 = self.register16(register);
        let flags: u8 = add16_flags(r.hl(), value, 0);
        self.with_register16(Register16::HL, add16_value(r.hl(), value, 0)).with_f(
            pack_flags(r.zero(), false, half_carry_of(flags), carry_of(flags)),
        ).with_cycle(8)
    }

    /// Adds the signed byte after the opcode to SP. Half-carry and Carry are
    /// those of the 16-bit addition of SP and the byte widened with its
    /// sign; Zero and Subtract are cleared.
    #[verifier::opaque]
    pub open spec fn add_stack_pointer(self) -> Machine {
        let r: Registers = self.registers();
        let offset: u16 = sign_extended(self.immediate8());
        self.skip(1).with_sp(add16_value(r.sp, offset, 0)).with_f(
            carries_of(add16_flags(r.sp, offset, 0)),
        ).with_cycle(16)
    }

    /// Adds 1 to a 16-bit register; the flags stay as they were.
    #[verifier::opaque]
    pub open spec fn increment16(self, register: Register16) -> Machine {
        self.with_register16(
            register,
            wrap16(self.register16(register) + 1),
        ).with_cycle(8)
    }

    /// Subtracts 1 from a 16-bit register; the flags stay as they were.
    #[verifier::opaque]
    pub open spec fn decrement16(self, register: Register16) -> Machine {
        self.with_register16(
            register,
            wrap16(self.register16(register) - 1),
        ).with_cycle(8)
    }

    /// Rotates the accumulator; of the flags only Carry can be set afterwards.
    #[verifier::opaque]
    pub open spec fn rotate_accumulator(self, rotation: Rotation) -> Machine {
        let r: Registers = self.registers();
        self.with_registers(
            Registers {
                a: rotated(rotation, r.a, r.carry()),
                f: pack_flags(false, false, false, rotated_carry(rotation, r.a)),
                ..r
            },
        ).with_cycle(4)
    }

    /// Decimal correction of the accumulator; Half-carry is cleared afterwards.
    #[verifier::opaque]
    pub open spec fn decimal_adjust(self) -> Machine {
        let r: Registers = self.registers();
        let flags: u8 = daa_flags(r.a, r.f);
        self.with_registers(
            Registers {
                a: daa_value(r.a, r.half_carry(), r.carry()),
                f: pack_flags(zero_of(flags), subtract_of(flags), false, carry_of(flags)),
                ..r
            },
        ).with_cycle(4)
    }

    /// Inverts the accumulator; Subtract and Half-carry are set.
    #[verifier::opaque]
    pub open spec fn complement(self) -> Machine {
        let r: Registers = self.registers();
        self.with_registers(
            Registers { a: !r.a, f: pack_flags(r.zero(), true, true, r.carry()), ..r },
        ).with_cycle(4)
    }

    /// Sets Carry; Subtract and Half-carry are cleared.
    #[verifier::opaque]
    pub open spec fn set_carry(self) -> Machine {
        let r: Registers = self.registers();
        self.with_f(pack_flags(r.zero(), false, false, true)).with_cycle(4)
    }

    /// Inverts Carry; Subtract and Half-carry are cleared.
    #[verifier::opaque]
    pub open spec fn complement_carry(self) -> Machine {
        let r: Registers = self.registers();
        self.with_f(
            pack_flags(r.zero(), false, false, !r.carry()),
        ).with_cycle(4)
    }

    /// Jumps to the address after the opcode if the condition holds: 16 cycles, else 12.
    #[verifier::opaque]
    pub open spec fn jump(self, condition: Option<Condition>) -> Machine {
        if self.holds(condition) {
            self.with_pc(self.immediate16()).with_cycle(16)
        } else {
            self.skip(2).with_cycle(12)
        }
    }

    /// Jumps to the address in HL.
    #[verifier::opaque]
    pub open spec fn jump_hl(self) -> Machine {
        let r: Registers = self.registers();
        self.with_pc(r.hl()).with_cycle(4)
    }

    /// Jumps by the signed byte after the opcode if the condition holds: 12 cycles, else 8.
    /// The flags stay as they were.
    #[verifier::opaque]
    pub open spec fn jump_relative(self, condition: Option<Condition>) -> Machine {
        if self.holds(condition) {
            self.skip(1).skip(displacement(self.immediate8())).with_cycle(12)
        } else {
            self.skip(1).with_cycle(8)
        }
    }

    /// Calls the address after the opcode if the condition holds: 24 cycles, else 12.
    #[verifier::opaque]
    pub open spec fn call(self, condition: Option<Condition>) -> Machine {
        let r: Registers = self.registers();
        if self.holds(condition) {
            self.pushed(wrap16(r.pc + 2)).with_pc(self.immediate16()).with_cycle(24)
        } else {
            self.skip(2).with_cycle(12)
        }
    }

    /// Returns if the condition holds: 16 cycles without a condition, 20 with one that
    /// holds, 8 with one that does not.
    #[verifier::opaque]
    pub open spec fn ret(self, condition: Option<Condition>) -> Machine {
        if self.holds(condition) {
            self.popped().with_pc(self.top()).with_cycle(
                if condition is None {
                    16
                } else {
                    20
                },
            )
        } else {
            self.with_cycle(8)
        }
    }

    /// Returns; the interrupt master enable is set.
    #[verifier::opaque]
    pub open spec fn return_from_interrupt(self) -> Machine {
        self.popped().with_pc(self.top()).with_cycle(16)
    }

    /// Calls a fixed address.
    #[verifier::opaque]
    pub open spec fn restart(self, vector: u8) -> Machine {
        let r: Registers = self.registers();
        self.pushed(r.pc).with_pc(vector as u16).with_cycle(16)
    }

    /// An instruction of the extended table, selected by the byte after the prefix.
    #[verifier::opaque]
    pub open spec fn prefix(self) -> Machine {
        self.skip(1).perform_extended(extended_of(self.immediate8()))
    }

    /// The machine after an instruction; the program counter is past the
    /// opcode already and at the operand bytes, if there are any. The
    /// interrupt master enable, which three instructions change, is no part
    /// of the machine: see `interrupts_after`.
    pub open spec fn perform(self, instruction: Instruction) -> Machine {
        match instruction {
            Instruction::Nop => self.nop(),
            Instruction::Halt => self.halt(),
            Instruction::Stop => self.stop(),
            Instruction::DisableInterrupts => self.disable_interrupts(),
            Instruction::EnableInterrupts => self.enable_interrupts(),
            Instruction::Load(to, from) => self.load(to, from),
            Instruction::LoadImmediate(to) => self.load_immediate(to),
            Instruction::LoadAccumulator(address) => self.load_accumulator(address),
            Instruction::StoreAccumulator(address) => self.store_accumulator(address),
            Instruction::LoadImmediate16(register) => self.load_immediate16(register),
            Instruction::LoadStackPointer => self.load_stack_pointer(),
            Instruction::LoadStackOffset => self.load_stack_offset(),
            Instruction::StoreStackPointer => self.store_stack_pointer(),
            Instruction::Push(register) => self.push(register),
            Instruction::Pop(register) => self.pop(register),
            Instruction::Alu(operation, operand) => self.alu(operation, operand),
            Instruction::AluImmediate(operation) => self.alu_immediate(operation),
            Instruction::Increment(operand) => self.increment(operand),
            Instruction::Decrement(operand) => self.decrement(operand),
            Instruction::AddHL(register) => self.add_hl(register),
            Instruction::AddStackPointer => self.add_stack_pointer(),
            Instruction::Increment16(register) => self.increment16(register),
            Instruction::Decrement16(register) => self.decrement16(register),
            Instruction::RotateAccumulator(rotation) => self.rotate_accumulator(rotation),
            Instruction::DecimalAdjust => self.decimal_adjust(),
            Instruction::Complement => self.complement(),
            Instruction::SetCarry => self.set_carry(),
            Instruction::ComplementCarry => self.complement_carry(),
            Instruction::Jump(condition) => self.jump(condition),
            Instruction::JumpHL => self.jump_hl(),
            Instruction::JumpRelative(condition) => self.jump_relative(condition),
            Instruction::Call(condition) => self.call(condition),
            Instruction::Return(condition) => self.ret(condition),
            Instruction::ReturnFromInterrupt => self.return_from_interrupt(),
            Instruction::Restart(vector) => self.restart(vector),
            Instruction::Prefix => self.prefix(),
        }
    }
}

/// Why the processor could not go on.
#[derive(PartialEq, Eq, Debug, Copy, Clone, Structural)]
pub enum ExecuteError {
    /// The byte `opcode`, found at address `pc`, is no instruction.
    UnrecognizedOpcode { opcode: u8, pc: u16 },
}

impl Machine {
    /// Whether the processor fetches and executes.
    pub open spec fn runs(self) -> bool {
        self.cpu.state == CPUState::Active
    }

    /// The byte at the program counter, as an opcode.
    pub open spec fn opcode(self) -> u8 {
        self.read(self.registers().pc)
    }

    /// What stops the next step: the processor runs and the byte at the
    /// program counter is no instruction.
    pub open spec fn fault(self) -> Option<ExecuteError> {
        if self.runs() && instruction_of(self.opcode()) is None {
            Some(
                ExecuteError::UnrecognizedOpcode {
                    opcode: self.opcode(),
                    pc: self.registers().pc,
                },
            )
        } else {
            None
        }
    }

    /// The machine after one step. A processor that runs takes the opcode
    /// at the program counter and carries out its instruction; a processor
    /// that does not run, or that meets a byte that is no instruction,
    /// leaves everything as it is.
    pub open spec fn step(self) -> Machine {
        if self.runs() {
            match instruction_of(self.opcode()) {
                Some(instruction) => self.skip(1).perform(instruction),
                None => self,
            }
        } else {
            self
        }
    }

    /// The cycles that one step takes: those of the instruction carried out,
    /// and none where no instruction runs or the processor halts.
    pub open spec fn elapsed(self) -> usize {
        if self.runs() && self.step().cpu.state != CPUState::Halt {
            match instruction_of(self.opcode()) {
                Some(_) => self.step().cpu.cycle,
                None => 0,
            }
        } else {
            0
        }
    }

    /// The interrupt master enable after one step.
    pub open spec fn interrupts_after_step(self, enabled: bool) -> bool {
        if self.runs() {
            match instruction_of(self.opcode()) {
                Some(instruction) => interrupts_after(instruction, enabled),
                None => enabled,
            }
        } else {
            enabled
        }
    }

    /// The machine after an interrupt was accepted: a call to `vector`,
    /// which also takes a halted processor back to running.
    pub open spec fn interrupted(self, vector: u16) -> Machine {
        let called: Machine = self.pushed(self.registers().pc).with_pc(vector);
        if self.cpu.state == CPUState::Halt {
            called.with_state(CPUState::Active)
        } else {
            called
        }
    }
}

/// The interrupt master enable after an instruction: set by the return from
/// an interrupt and by the enabling instruction, cleared by the disabling
/// instruction, else as it was.
pub open spec fn interrupts_after(instruction: Instruction, enabled: bool) -> bool {
    match instruction {
        Instruction::ReturnFromInterrupt => true,
        Instruction::EnableInterrupts => true,
        Instruction::DisableInterrupts => false,
        _ => enabled,
    }
}

} // verus!
