//! The instruction set: what each opcode byte of the primary table and of the
//! extended table (reached through the prefix `0xCB`) stands for.

use vstd::prelude::*;

verus! {

/// An 8-bit register.
#[derive(PartialEq, Eq, Debug, Copy, Clone, Structural)]
pub enum Register8 {
    A,
    B,
    C,
    D,
    E,
    H,
    L,
}

/// An 8-bit operand: a register, or the byte in memory at the address in HL.
#[derive(PartialEq, Eq, Debug, Copy, Clone, Structural)]
pub enum Operand8 {
    Register(Register8),
    AtHL,
}

/// A 16-bit register of the load and arithmetic instructions.
#[derive(PartialEq, Eq, Debug, Copy, Clone, Structural)]
pub enum Register16 {
    BC,
    DE,
    HL,
    SP,
}

/// A 16-bit register of the stack instructions.
#[derive(PartialEq, Eq, Debug, Copy, Clone, Structural)]
pub enum StackRegister {
    BC,
    DE,
    HL,
    AF,
}

/// Where the accumulator is loaded from or stored to.
#[derive(PartialEq, Eq, Debug, Copy, Clone, Structural)]
pub enum Address {
    /// The address in BC.
    AtBC,
    /// The address in DE.
    AtDE,
    /// The address in HL; HL goes up by 1 afterwards.
    AtHLIncrement,
    /// The address in HL; HL goes down by 1 afterwards.
    AtHLDecrement,
    /// The 16-bit address that follows the opcode.
    Absolute,
    /// `0xFF00` plus the byte that follows the opcode.
    HighImmediate,
    /// `0xFF00` plus C.
    HighC,
}

/// The flag test of a conditional jump, call or return.
#[derive(PartialEq, Eq, Debug, Copy, Clone, Structural)]
pub enum Condition {
    NotZero,
    Zero,
    NotCarry,
    Carry,
}

/// An 8-bit operation on the accumulator.
#[derive(PartialEq, Eq, Debug, Copy, Clone, Structural)]
pub enum Arithmetic {
    Add,
    AddCarry,
    Subtract,
    SubtractCarry,
    And,
    Xor,
    Or,
    Compare,
}

/// A rotate, shift or nibble swap.
#[derive(PartialEq, Eq, Debug, Copy, Clone, Structural)]
pub enum Rotation {
    /// Rotate left; bit 7 goes to bit 0 and to Carry.
    LeftCircular,
    /// Rotate right; bit 0 goes to bit 7 and to Carry.
    RightCircular,
    /// Rotate left through Carry.
    Left,
    /// Rotate right through Carry.
    Right,
    /// Shift left; bit 7 goes to Carry.
    ShiftLeft,
    /// Shift right, bit 7 kept; bit 0 goes to Carry.
    ShiftRightArithmetic,
    /// Exchange the two nibbles.
    Swap,
    /// Shift right; bit 0 goes to Carry.
    ShiftRightLogical,
}

/// An instruction of the extended table.
#[derive(PartialEq, Eq, Debug, Copy, Clone, Structural)]
pub enum Extended {
    Rotate(Rotation, Operand8),
    /// Test bit `.0` (0 to 7) of the operand.
    TestBit(u8, Operand8),
    /// Clear bit `.0` (0 to 7) of the operand.
    ResetBit(u8, Operand8),
    /// Set bit `.0` (0 to 7) of the operand.
    SetBit(u8, Operand8),
}

/// An instruction of the primary table.
#[derive(PartialEq, Eq, Debug, Copy, Clone, Structural)]
pub enum Instruction {
    Nop,
    Halt,
    Stop,
    DisableInterrupts,
    EnableInterrupts,
    /// Copy the second operand to the first.
    Load(Operand8, Operand8),
    /// Load the byte that follows the opcode.
    LoadImmediate(Operand8),
    LoadAccumulator(Address),
    StoreAccumulator(Address),
    /// Load the 16-bit value that follows the opcode.
    LoadImmediate16(Register16),
    /// SP takes the value of HL.
    LoadStackPointer,
    /// HL takes SP plus the signed byte that follows the opcode.
    LoadStackOffset,
    /// Store SP at the 16-bit address that follows the opcode.
    StoreStackPointer,
    Push(StackRegister),
    Pop(StackRegister),
    Alu(Arithmetic, Operand8),
    /// The operation with the byte that follows the opcode.
    AluImmediate(Arithmetic),
    Increment(Operand8),
    Decrement(Operand8),
    /// Add a 16-bit register to HL.
    AddHL(Register16),
    /// Add the signed byte that follows the opcode to SP.
    AddStackPointer,
    Increment16(Register16),
    Decrement16(Register16),
    /// Rotate the accumulator; Zero is cleared whatever the result.
    RotateAccumulator(Rotation),
    DecimalAdjust,
    Complement,
    SetCarry,
    ComplementCarry,
    /// Jump to the address that follows the opcode, if the condition holds.
    Jump(Option<Condition>),
    /// Jump to the address in HL.
    JumpHL,
    /// Jump by the signed byte that follows the opcode, if the condition holds.
    JumpRelative(Option<Condition>),
    Call(Option<Condition>),
    Return(Option<Condition>),
    ReturnFromInterrupt,
    /// Call the fixed address `.0`, a multiple of 8 up to `0x38`.
    Restart(u8),
    /// The prefix of the extended table: the next byte selects the instruction.
    Prefix,
}

/// The operand that a 3-bit operand field names.
pub open spec fn operand_of(code: int) -> Operand8 {
    if code == 0 {
        Operand8::Register(Register8::B)
    } else if code == 1 {
        Operand8::Register(Register8::C)
    } else if code == 2 {
        Operand8::Register(Register8::D)
    } else if code == 3 {
        Operand8::Register(Register8::E)
    } else if code == 4 {
        Operand8::Register(Register8::H)
    } else if code == 5 {
        Operand8::Register(Register8::L)
    } else if code == 6 {
        Operand8::AtHL
    } else {
        Operand8::Register(Register8::A)
    }
}

/// The register that a 2-bit register field names in loads and arithmetic.
pub open spec fn register16_of(code: int) -> Register16 {
    if code == 0 {
        Register16::BC
    } else if code == 1 {
        Register16::DE
    } else if code == 2 {
        Register16::HL
    } else {
        Register16::SP
    }
}

/// The register that a 2-bit register field names in push and pop.
pub open spec fn stack_register_of(code: int) -> StackRegister {
    if code == 0 {
        StackRegister::BC
    } else if code == 1 {
        StackRegister::DE
    } else if code == 2 {
        StackRegister::HL
    } else {
        StackRegister::AF
    }
}

/// The condition that a 2-bit condition field names.
pub open spec fn condition_of(code: int) -> Condition {
    if code == 0 {
        Condition::NotZero
    } else if code == 1 {
        Condition::Zero
    } else if code == 2 {
        Condition::NotCarry
    } else {
        Condition::Carry
    }
}

/// The operation that a 3-bit operation field names.
pub open spec fn arithmetic_of(code: int) -> Arithmetic {
    if code == 0 {
        Arithmetic::Add
    } else if code == 1 {
        Arithmetic::AddCarry
    } else if code == 2 {
        Arithmetic::Subtract
    } else if code == 3 {
        Arithmetic::SubtractCarry
    } else if code == 4 {
        Arithmetic::And
    } else if code == 5 {
        Arithmetic::Xor
    } else if code == 6 {
        Arithmetic::Or
    } else {
        Arithmetic::Compare
    }
}

/// The rotation that a 3-bit operation field names.
pub open spec fn rotation_of(code: int) -> Rotation {
    if code == 0 {
        Rotation::LeftCircular
    } else if code == 1 {
        Rotation::RightCircular
    } else if code == 2 {
        Rotation::Left
    } else if code == 3 {
        Rotation::Right
    } else if code == 4 {
        Rotation::ShiftLeft
    } else if code == 5 {
        Rotation::ShiftRightArithmetic
    } else if code == 6 {
        Rotation::Swap
    } else {
        Rotation::ShiftRightLogical
    }
}

/// The address mode that the accumulator loads and stores of the first
/// quarter of the table name by a 2-bit field.
pub open spec fn indirect_of(code: int) -> Address {
    if code == 0 {
        Address::AtBC
    } else if code == 1 {
        Address::AtDE
    } else if code == 2 {
        Address::AtHLIncrement
    } else {
        Address::AtHLDecrement
    }
}

/// The instructions of the opcodes `0x00` to `0x3F`, by the low three bits
/// `z` and the middle three bits `y` of the opcode.
pub open spec fn first_quarter_of(y: int, z: int) -> Instruction {
    if z == 0 {
        if y == 0 {
            Instruction::Nop
        } else if y == 1 {
            Instruction::StoreStackPointer
        } else if y == 2 {
            Instruction::Stop
        } else if y == 3 {
            Instruction::JumpRelative(None)
        } else {
            Instruction::JumpRelative(Some(condition_of(y - 4)))
        }
    } else if z == 1 {
        if y % 2 == 0 {
            Instruction::LoadImmediate16(register16_of(y / 2))
        } else {
            Instruction::AddHL(register16_of(y / 2))
        }
    } else if z == 2 {
        if y % 2 == 0 {
            Instruction::StoreAccumulator(indirect_of(y / 2))
        } else {
            Instruction::LoadAccumulator(indirect_of(y / 2))
        }
    } else if z == 3 {
        if y % 2 == 0 {
            Instruction::Increment16(register16_of(y / 2))
        } else {
            Instruction::Decrement16(register16_of(y / 2))
        }
    } else if z == 4 {
        Instruction::Increment(operand_of(y))
    } else if z == 5 {
        Instruction::Decrement(operand_of(y))
    } else if z == 6 {
        Instruction::LoadImmediate(operand_of(y))
    } else {
        if y == 0 {
            Instruction::RotateAccumulator(Rotation::LeftCircular)
        } else if y == 1 {
            Instruction::RotateAccumulator(Rotation::RightCircular)
        } else if y == 2 {
            Instruction::RotateAccumulator(Rotation::Left)
        } else if y == 3 {
            Instruction::RotateAccumulator(Rotation::Right)
        } else if y == 4 {
            Instruction::DecimalAdjust
        } else if y == 5 {
            Instruction::Complement
        } else if y == 6 {
            Instruction::SetCarry
        } else {
            Instruction::ComplementCarry
        }
    }
}

/// The instructions of the opcodes `0xC0` to `0xFF`, by the low three bits
/// `z` and the middle three bits `y` of the opcode; `None` where the table
/// has no instruction.
pub open spec fn last_quarter_of(y: int, z: int) -> Option<Instruction> {
    if z == 0 {
        if y < 4 {
            Some(Instruction::Return(Some(condition_of(y))))
        } else if y == 4 {
            Some(Instruction::StoreAccumulator(Address::HighImmediate))
        } else if y == 5 {
            Some(Instruction::AddStackPointer)
        } else if y == 6 {
            Some(Instruction::LoadAccumulator(Address::HighImmediate))
        } else {
            Some(Instruction::LoadStackOffset)
        }
    } else if z == 1 {
        if y % 2 == 0 {
            Some(Instruction::Pop(stack_register_of(y / 2)))
        } else if y == 1 {
            Some(Instruction::Return(None))
        } else if y == 3 {
            Some(Instruction::ReturnFromInterrupt)
        } else if y == 5 {
            Some(Instruction::JumpHL)
        } else {
            Some(Instruction::LoadStackPointer)
        }
    } else if z == 2 {
        if y < 4 {
            Some(Instruction::Jump(Some(condition_of(y))))
        } else if y == 4 {
            Some(Instruction::StoreAccumulator(Address::HighC))
        } else if y == 5 {
            Some(Instruction::StoreAccumulator(Address::Absolute))
        } else if y == 6 {
            Some(Instruction::LoadAccumulator(Address::HighC))
        } else {
            Some(Instruction::LoadAccumulator(Address::Absolute))
        }
    } else if z == 3 {
        if y == 0 {
            Some(Instruction::Jump(None))
        } else if y == 1 {
            Some(Instruction::Prefix)
        } else if y == 6 {
            Some(Instruction::DisableInterrupts)
        } else if y == 7 {
            Some(Instruction::EnableInterrupts)
        } else {
            None
        }
    } else if z == 4 {
        if y < 4 {
            Some(Instruction::Call(Some(condition_of(y))))
        } else {
            None
        }
    } else if z == 5 {
        if y % 2 == 0 {
            Some(Instruction::Push(stack_register_of(y / 2)))
        } else if y == 1 {
            Some(Instruction::Call(None))
        } else {
            None
        }
    } else if z == 6 {
        Some(Instruction::AluImmediate(arithmetic_of(y)))
    } else {
        Some(Instruction::Restart((y * 8) as u8))
    }
}

/// The instruction of an opcode of the primary table; `None` for the eleven
/// bytes that are no instruction: `0xD3`, `0xDB`, `0xDD`, `0xE3`, `0xE4`,
/// `0xEB`, `0xEC`, `0xED`, `0xF4`, `0xFC`, `0xFD`.
pub open spec fn instruction_of(opcode: u8) -> Option<Instruction> {
    let y: int = opcode as int / 8 % 8;
    let z: int = opcode as int % 8;
    if opcode < 0x40 {
        Some(first_quarter_of(y, z))
    } else if opcode == 0x76 {
        Some(Instruction::Halt)
    } else if opcode < 0x80 {
        Some(Instruction::Load(operand_of(y), operand_of(z)))
    } else if opcode < 0xc0 {
        Some(Instruction::Alu(arithmetic_of(y), operand_of(z)))
    } else {
        last_quarter_of(y, z)
    }
}

/// The primary table has an instruction for every byte but eleven.
pub proof fn lemma_unrecognized_opcodes(opcode: u8)
    ensures
        instruction_of(opcode) is None <==> opcode == 0xd3 || opcode == 0xdb || opcode == 0xdd
            || opcode == 0xe3 || opcode == 0xe4 || opcode == 0xeb || opcode == 0xec || opcode
            == 0xed || opcode == 0xf4 || opcode == 0xfc || opcode == 0xfd,
{
}

/// The instruction of an opcode of the extended table. The table follows
/// one pattern but for `0x11`, which rotates C circularly, as `0x01` does.
pub open spec fn extended_of(opcode: u8) -> Extended {
    let y: int = opcode as int / 8 % 8;
    let z: int = opcode as int % 8;
    if opcode == 0x11 {
        Extended::Rotate(Rotation::LeftCircular, Operand8::Register(Register8::C))
    } else if opcode < 0x40 {
        Extended::Rotate(rotation_of(y), operand_of(z))
    } else if opcode < 0x80 {
        Extended::TestBit(y as u8, operand_of(z))
    } else if opcode < 0xc0 {
        Extended::ResetBit(y as u8, operand_of(z))
    } else {
        Extended::SetBit(y as u8, operand_of(z))
    }
}


fn decode_operand(code: u8) -> (operand: Operand8)
    ensures
        operand == operand_of(code as int),
{
    match code {
        0 => Operand8::Register(Register8::B),
        1 => Operand8::Register(Register8::C),
        2 => Operand8::Register(Register8::D),
        3 => Operand8::Register(Register8::E),
        4 => Operand8::Register(Register8::H),
        5 => Operand8::Register(Register8::L),
        6 => Operand8::AtHL,
        _ => Operand8::Register(Register8::A),
    }
}

fn decode_register16(code: u8) -> (register: Register16)
    ensures
        register == register16_of(code as int),
{
    match code {
        0 => Register16::BC,
        1 => Register16::DE,
        2 => Register16::HL,
        _ => Register16::SP,
    }
}

fn decode_stack_register(code: u8) -> (register: StackRegister)
    ensures
        register == stack_register_of(code as int),
{
    match code {
        0 => StackRegister::BC,
        1 => StackRegister::DE,
        2 => StackRegister::HL,
        _ => StackRegister::AF,
    }
}

fn decode_condition(code: u8) -> (condition: Condition)
    ensures
        condition == condition_of(code as int),
{
    match code {
        0 => Condition::NotZero,
        1 => Condition::Zero,
        2 => Condition::NotCarry,
        _ => Condition::Carry,
    }
}

fn decode_arithmetic(code: u8) -> (operation: Arithmetic)
    ensures
        operation == arithmetic_of(code as int),
{
    match code {
        0 => Arithmetic::Add,
        1 => Arithmetic::AddCarry,
        2 => Arithmetic::Subtract,
        3 => Arithmetic::SubtractCarry,
        4 => Arithmetic::And,
        5 => Arithmetic::Xor,
        6 => Arithmetic::Or,
        _ => Arithmetic::Compare,
    }
}

fn decode_rotation(code: u8) -> (rotation: Rotation)
    ensures
        rotation == rotation_of(code as int),
{
    match code {
        0 => Rotation::LeftCircular,
        1 => Rotation::RightCircular,
        2 => Rotation::Left,
        3 => Rotation::Right,
        4 => Rotation::ShiftLeft,
        5 => Rotation::ShiftRightArithmetic,
        6 => Rotation::Swap,
        _ => Rotation::ShiftRightLogical,
    }
}

fn decode_indirect(code: u8) -> (address: Address)
    ensures
        address == indirect_of(code as int),
{
    match code {
        0 => Address::AtBC,
        1 => Address::AtDE,
        2 => Address::AtHLIncrement,
        _ => Address::AtHLDecrement,
    }
}

fn decode_first_quarter(y: u8, z: u8) -> (instruction: Instruction)
    requires
        y < 8,
    ensures
        instruction == first_quarter_of(y as int, z as int),
{
    match z {
        0 => match y {
            0 => Instruction::Nop,
            1 => Instruction::StoreStackPointer,
            2 => Instruction::Stop,
            3 => Instruction::JumpRelative(None),
            _ => Instruction::JumpRelative(Some(decode_condition(y - 4))),
        },
        1 => if y % 2 == 0 {
            Instruction::LoadImmediate16(decode_register16(y / 2))
        } else {
            Instruction::AddHL(decode_register16(y / 2))
        },
        2 => if y % 2 == 0 {
            Instruction::StoreAccumulator(decode_indirect(y / 2))
        } else {
            Instruction::LoadAccumulator(decode_indirect(y / 2))
        },
        3 => if y % 2 == 0 {
            Instruction::Increment16(decode_register16(y / 2))
        } else {
            Instruction::Decrement16(decode_register16(y / 2))
        },
        4 => Instruction::Increment(decode_operand(y)),
        5 => Instruction::Decrement(decode_operand(y)),
        6 => Instruction::LoadImmediate(decode_operand(y)),
        _ => match y {
            0 => Instruction::RotateAccumulator(Rotation::LeftCircular),
            1 => Instruction::RotateAccumulator(Rotation::RightCircular),
            2 => Instruction::RotateAccumulator(Rotation::Left),
            3 => Instruction::RotateAccumulator(Rotation::Right),
            4 => Instruction::DecimalAdjust,
            5 => Instruction::Complement,
            6 => Instruction::SetCarry,
            _ => Instruction::ComplementCarry,
        },
    }
}

fn decode_last_quarter(y: u8, z: u8) -> (instruction: Option<Instruction>)
    requires
        y < 8,
    ensures
        instruction == last_quarter_of(y as int, z as int),
{
    match z {
        0 => match y {
            0 | 1 | 2 | 3 => Some(Instruction::Return(Some(decode_condition(y)))),
            4 => Some(Instruction::StoreAccumulator(Address::HighImmediate)),
            5 => Some(Instruction::AddStackPointer),
            6 => Some(Instruction::LoadAccumulator(Address::HighImmediate)),
            _ => Some(Instruction::LoadStackOffset),
        },
        1 => match y {
            0 | 2 | 4 | 6 => Some(Instruction::Pop(decode_stack_register(y / 2))),
            1 => Some(Instruction::Return(None)),
            3 => Some(Instruction::ReturnFromInterrupt),
            5 => Some(Instruction::JumpHL),
            _ => Some(Instruction::LoadStackPointer),
        },
        2 => match y {
            0 | 1 | 2 | 3 => Some(Instruction::Jump(Some(decode_condition(y)))),
            4 => Some(Instruction::StoreAccumulator(Address::HighC)),
            5 => Some(Instruction::StoreAccumulator(Address::Absolute)),
            6 => Some(Instruction::LoadAccumulator(Address::HighC)),
            _ => Some(Instruction::LoadAccumulator(Address::Absolute)),
        },
        3 => match y {
            0 => Some(Instruction::Jump(None)),
            1 => Some(Instruction::Prefix),
            6 => Some(Instruction::DisableInterrupts),
            7 => Some(Instruction::EnableInterrupts),
            _ => None,
        },
        4 => match y {
            0 | 1 | 2 | 3 => Some(Instruction::Call(Some(decode_condition(y)))),
            _ => None,
        },
        5 => match y {
            0 | 2 | 4 | 6 => Some(Instruction::Push(decode_stack_register(y / 2))),
            1 => Some(Instruction::Call(None)),
            _ => None,
        },
        6 => Some(Instruction::AluImmediate(decode_arithmetic(y))),
        _ => Some(Instruction::Restart(y * 8)),
    }
}

/// Decodes an opcode of the primary table.
pub fn decode(opcode: u8) -> (instruction: Option<Instruction>)
    ensures
        instruction == instruction_of(opcode),
{
    let y: u8 = opcode / 8 % 8;
    let z: u8 = opcode % 8;
    if opcode < 0x40 {
        Some(decode_first_quarter(y, z))
    } else if opcode == 0x76 {
        Some(Instruction::Halt)
    } else if opcode < 0x80 {
        Some(Instruction::Load(decode_operand(y), decode_operand(z)))
    } else if opcode < 0xc0 {
        Some(Instruction::Alu(decode_arithmetic(y), decode_operand(z)))
    } else {
        decode_last_quarter(y, z)
    }
}

/// Decodes an opcode of the extended table.
pub fn decode_extended(opcode: u8) -> (instruction: Extended)
    ensures
        instruction == extended_of(opcode),
{
    let y: u8 = opcode / 8 % 8;
    let z: u8 = opcode % 8;
    if opcode == 0x11 {
        Extended::Rotate(Rotation::LeftCircular, Operand8::Register(Register8::C))
    } else if opcode < 0x40 {
        Extended::Rotate(decode_rotation(y), decode_operand(z))
    } else if opcode < 0x80 {
        Extended::TestBit(y, decode_operand(z))
    } else if opcode < 0xc0 {
        Extended::ResetBit(y, decode_operand(z))
    } else {
        Extended::SetBit(y, decode_operand(z))
    }
}

} // verus!
