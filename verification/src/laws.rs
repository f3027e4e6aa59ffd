//! Laws that hold of the emulator as a whole.

use vstd::prelude::*;
use crate::alu::add16_flags;
use crate::alu::add8_flags;
use crate::alu::sub8_flags;
use crate::alu::wrap16;
use crate::instruction::Arithmetic;
use crate::instruction::Extended;
use crate::instruction::Instruction;
use crate::instruction::Operand8;
use crate::instruction::Rotation;
use crate::machine::accumulated_flags;
use crate::machine::bit_mask;
use crate::machine::carries_of;
use crate::machine::displacement;
use crate::machine::rotated;
use crate::machine::sign_extended;
use crate::machine::rotated_carry;
use crate::machine::Machine;
use crate::registers::half_carry_of;
use crate::registers::pack_flags;
use crate::registers::zero_of;
use crate::Console;

verus! {

/// Determinism: two consoles with the same registers, cycle counts, run
/// state, memory contents and interrupt master enable are in the same state
/// after one step of the processor, after one round and after any number of
/// rounds, and they stop on the same byte if they stop.
pub proof fn lemma_deterministic(first: Console, second: Console, limit: nat)
    requires
        first.machine.cpu == second.machine.cpu,
        first.machine.memory.bank =~= second.machine.memory.bank,
        first.machine.memory.boot =~= second.machine.memory.boot,
        first.ime == second.ime,
        first.cycle == second.cycle,
    ensures
        first.machine.step() == second.machine.step(),
        first.machine.fault() == second.machine.fault(),
        first.machine.interrupts_after_step(first.ime) == second.machine.interrupts_after_step(
            second.ime,
        ),
        first.round() == second.round(),
        first.run(limit) == second.run(limit),
        first.rounds(limit) == second.rounds(limit),
{
    assert(first.machine.memory == second.machine.memory);
    assert(first == second);
}

/// The flags after an arithmetic instruction on 8-bit operands are a
/// function of its two operands and of the incoming Carry flag: no other
/// register, no other flag and no other byte of memory enters. The same
/// holds of the two additions to the stack pointer, of the rotations and of
/// the bit test.
pub proof fn lemma_flags_of_operands(
    machine: Machine,
    operation: Arithmetic,
    operand: Operand8,
    rotation: Rotation,
    bit: u8,
)
    ensures
        machine.alu(operation, operand).registers().f == accumulated_flags(
            operation,
            machine.registers().a,
            machine.operand(operand),
            machine.registers().carry(),
        ),
        machine.alu_immediate(operation).registers().f == accumulated_flags(
            operation,
            machine.registers().a,
            machine.immediate8(),
            machine.registers().carry(),
        ),
        machine.increment(operand).registers().f == pack_flags(
            zero_of(add8_flags(machine.operand(operand), 1, 0)),
            false,
            half_carry_of(add8_flags(machine.operand(operand), 1, 0)),
            machine.registers().carry(),
        ),
        machine.decrement(operand).registers().f == pack_flags(
            zero_of(sub8_flags(machine.operand(operand), 1, 0)),
            true,
            half_carry_of(sub8_flags(machine.operand(operand), 1, 0)),
            machine.registers().carry(),
        ),
        machine.add_stack_pointer().registers().f == carries_of(
            add16_flags(machine.registers().sp, sign_extended(machine.immediate8()), 0),
        ),
        machine.load_stack_offset().registers().f == carries_of(
            add16_flags(machine.registers().sp, sign_extended(machine.immediate8()), 0),
        ),
        machine.rotate_accumulator(rotation).registers().f == pack_flags(
            false,
            false,
            false,
            rotated_carry(rotation, machine.registers().a),
        ),
        machine.perform_extended(Extended::Rotate(rotation, operand)).registers().f == pack_flags(
            rotated(rotation, machine.operand(operand), machine.registers().carry()) == 0,
            false,
            false,
            rotated_carry(rotation, machine.operand(operand)),
        ),
        machine.perform_extended(Extended::TestBit(bit, operand)).registers().f == pack_flags(
            machine.operand(operand) & bit_mask(bit) == 0,
            false,
            true,
            machine.registers().carry(),
        ),
{
    reveal(Machine::alu);
    reveal(Machine::alu_immediate);
    reveal(Machine::increment);
    reveal(Machine::decrement);
    reveal(Machine::add_stack_pointer);
    reveal(Machine::load_stack_offset);
    reveal(Machine::rotate_accumulator);
}

/// Two machines that agree on the accumulator, on the operand and on the
/// Carry flag have the same flags and the same accumulator after the same
/// 8-bit operation, whatever else they hold.
pub proof fn lemma_flags_agree(
    first: Machine,
    second: Machine,
    operation: Arithmetic,
    first_operand: Operand8,
    second_operand: Operand8,
)
    requires
        first.registers().a == second.registers().a,
        first.operand(first_operand) == second.operand(second_operand),
        first.registers().carry() == second.registers().carry(),
    ensures
        first.alu(operation, first_operand).registers().f == second.alu(
            operation,
            second_operand,
        ).registers().f,
        first.alu(operation, first_operand).registers().a == second.alu(
            operation,
            second_operand,
        ).registers().a,
{
    reveal(Machine::alu);
}

/// Stack symmetry: a pop after a push gives the value pushed and leaves the
/// stack pointer where it was, wherever the stack pointer stands.
pub proof fn lemma_stack_symmetry(machine: Machine, value: u16)
    requires
        machine.memory.wf(),
    ensures
        machine.pushed(value).top() == value,
        machine.pushed(value).popped().registers().sp == machine.registers().sp,
        machine.pushed(value).popped().registers() == machine.registers(),
{
    let sp: u16 = machine.registers().sp;
    let high: u16 = wrap16(sp - 1);
    let low: u16 = wrap16(sp - 2);
    let pushed = machine.pushed(value);
    assert(pushed.registers().sp == low);
    assert(wrap16(low + 1) == high);
    assert(wrap16(low + 2) == sp);
    assert(high != low);
    let first = machine.memory.write(high, crate::registers::high_byte(value));
    assert(first.wf());
    assert(pushed.memory == first.write(low, crate::registers::low_byte(value)));
    assert(pushed.memory.read(low) == crate::registers::low_byte(value));
    assert(pushed.memory.read(high) == crate::registers::high_byte(value));
    crate::registers::lemma_pair_round_trip(machine.registers(), value);
}

/// The conditional relative jump on a clear Zero flag, opcode `0x20`: with
/// Zero set it takes 8 cycles and leaves the program counter 2 past where
/// it was; with Zero clear it takes 12 cycles and leaves the program
/// counter 2 past where it was plus the displacement, which is the operand
/// byte read as a signed number. Either way the flags, every other
/// register and the memory stay as they were.
pub proof fn lemma_jump_relative_not_zero(machine: Machine)
    requires
        machine.runs(),
        machine.opcode() == 0x20,
    ensures
        machine.fault() is None,
        machine.registers().zero() ==> machine.step().cpu.cycle == 8 && machine.step().registers().pc
            == wrap16(machine.registers().pc + 2),
        !machine.registers().zero() ==> machine.step().cpu.cycle == 12
            && machine.step().registers().pc == wrap16(
            machine.registers().pc + 2 + displacement(
                machine.read(wrap16(machine.registers().pc + 1)),
            ),
        ),
        machine.step().registers() == (crate::registers::Registers {
            pc: machine.step().registers().pc,
            ..machine.registers()
        }),
        machine.step().memory == machine.memory,
        machine.step().cpu.state == machine.cpu.state,
{
    assert(crate::instruction::instruction_of(0x20) == Some(
        Instruction::JumpRelative(Some(crate::instruction::Condition::NotZero)),
    ));
    reveal(Machine::jump_relative);
}

/// The invariant of the flag byte holds after an instruction of the
/// extended table if it held before.
pub proof fn lemma_extended_keeps_flag_invariant(machine: Machine, instruction: Extended)
    requires
        machine.registers().wf(),
    ensures
        machine.perform_extended(instruction).registers().wf(),
{
}

/// The instructions that leave the flag byte alone keep its invariant.
proof fn lemma_flag_invariant_untouched(machine: Machine, instruction: Instruction)
    requires
        machine.registers().wf(),
    ensures
        match instruction {
            Instruction::Nop
            | Instruction::Halt
            | Instruction::Stop
            | Instruction::DisableInterrupts
            | Instruction::EnableInterrupts
            | Instruction::Load(_, _)
            | Instruction::LoadImmediate(_)
            | Instruction::LoadAccumulator(_)
            | Instruction::StoreAccumulator(_)
            | Instruction::LoadImmediate16(_)
            | Instruction::LoadStackPointer
            | Instruction::StoreStackPointer
            | Instruction::Push(_)
            | Instruction::Increment16(_)
            | Instruction::Decrement16(_)
            | Instruction::Jump(_)
            | Instruction::JumpHL
            | Instruction::JumpRelative(_)
            | Instruction::Call(_)
            | Instruction::Return(_)
            | Instruction::ReturnFromInterrupt
            | Instruction::Restart(_) => machine.perform(instruction).registers().wf(),
            _ => true,
        },
{
    reveal(Machine::nop);
    reveal(Machine::halt);
    reveal(Machine::stop);
    reveal(Machine::disable_interrupts);
    reveal(Machine::enable_interrupts);
    reveal(Machine::load);
    reveal(Machine::load_immediate);
    reveal(Machine::load_accumulator);
    reveal(Machine::store_accumulator);
    reveal(Machine::load_immediate16);
    reveal(Machine::load_stack_pointer);
    reveal(Machine::store_stack_pointer);
    reveal(Machine::push);
    reveal(Machine::increment16);
    reveal(Machine::decrement16);
    reveal(Machine::jump);
    reveal(Machine::jump_hl);
    reveal(Machine::jump_relative);
    reveal(Machine::call);
    reveal(Machine::ret);
    reveal(Machine::return_from_interrupt);
    reveal(Machine::restart);
}

proof fn lemma_wf_pop(machine: Machine, popped: crate::instruction::StackRegister)
    requires
        machine.registers().wf(),
    ensures
        machine.pop(popped).registers().wf(),
{
    reveal(Machine::pop);
}

proof fn lemma_wf_alu(machine: Machine, operation: Arithmetic, operand: Operand8)
    requires
        machine.registers().wf(),
    ensures
        machine.alu(operation, operand).registers().wf(),
{
    reveal(Machine::alu);
}

proof fn lemma_wf_alu_immediate(machine: Machine, operation: Arithmetic)
    requires
        machine.registers().wf(),
    ensures
        machine.alu_immediate(operation).registers().wf(),
{
    reveal(Machine::alu_immediate);
}

proof fn lemma_wf_increment(machine: Machine, operand: Operand8)
    requires
        machine.registers().wf(),
    ensures
        machine.increment(operand).registers().wf(),
{
    reveal(Machine::increment);
}

proof fn lemma_wf_decrement(machine: Machine, operand: Operand8)
    requires
        machine.registers().wf(),
    ensures
        machine.decrement(operand).registers().wf(),
{
    reveal(Machine::decrement);
}

proof fn lemma_wf_add_hl(machine: Machine, register: crate::instruction::Register16)
    requires
        machine.registers().wf(),
    ensures
        machine.add_hl(register).registers().wf(),
{
    reveal(Machine::add_hl);
}

proof fn lemma_wf_add_stack_pointer(machine: Machine)
    requires
        machine.registers().wf(),
    ensures
        machine.add_stack_pointer().registers().wf(),
{
    reveal(Machine::add_stack_pointer);
}

proof fn lemma_wf_load_stack_offset(machine: Machine)
    requires
        machine.registers().wf(),
    ensures
        machine.load_stack_offset().registers().wf(),
{
    reveal(Machine::load_stack_offset);
}

proof fn lemma_wf_rotate_accumulator(machine: Machine, rotation: Rotation)
    requires
        machine.registers().wf(),
    ensures
        machine.rotate_accumulator(rotation).registers().wf(),
{
    reveal(Machine::rotate_accumulator);
}

proof fn lemma_wf_decimal_adjust(machine: Machine)
    requires
        machine.registers().wf(),
    ensures
        machine.decimal_adjust().registers().wf(),
{
    reveal(Machine::decimal_adjust);
}

proof fn lemma_wf_complement(machine: Machine)
    requires
        machine.registers().wf(),
    ensures
        machine.complement().registers().wf(),
{
    reveal(Machine::complement);
}

proof fn lemma_wf_set_carry(machine: Machine)
    requires
        machine.registers().wf(),
    ensures
        machine.set_carry().registers().wf(),
{
    reveal(Machine::set_carry);
}

proof fn lemma_wf_complement_carry(machine: Machine)
    requires
        machine.registers().wf(),
    ensures
        machine.complement_carry().registers().wf(),
{
    reveal(Machine::complement_carry);
}

proof fn lemma_wf_prefix(machine: Machine)
    requires
        machine.registers().wf(),
    ensures
        machine.prefix().registers().wf(),
{
    reveal(Machine::prefix);
    lemma_extended_keeps_flag_invariant(
        machine.skip(1),
        crate::instruction::extended_of(machine.immediate8()),
    );
}

/// The invariant of the flag byte, a zero low nibble, holds after an
/// instruction if it held before.
pub proof fn lemma_perform_keeps_flag_invariant(machine: Machine, instruction: Instruction)
    requires
        machine.registers().wf(),
    ensures
        machine.perform(instruction).registers().wf(),
{
    match instruction {
        Instruction::Prefix => lemma_wf_prefix(machine),
        Instruction::Pop(register) => lemma_wf_pop(machine, register),
        Instruction::Alu(operation, operand) => lemma_wf_alu(machine, operation, operand),
        Instruction::AluImmediate(operation) => lemma_wf_alu_immediate(machine, operation),
        Instruction::Increment(operand) => lemma_wf_increment(machine, operand),
        Instruction::Decrement(operand) => lemma_wf_decrement(machine, operand),
        Instruction::AddHL(register) => lemma_wf_add_hl(machine, register),
        Instruction::AddStackPointer => lemma_wf_add_stack_pointer(machine),
        Instruction::LoadStackOffset => lemma_wf_load_stack_offset(machine),
        Instruction::RotateAccumulator(rotation) => lemma_wf_rotate_accumulator(machine, rotation),
        Instruction::DecimalAdjust => lemma_wf_decimal_adjust(machine),
        Instruction::Complement => lemma_wf_complement(machine),
        Instruction::SetCarry => lemma_wf_set_carry(machine),
        Instruction::ComplementCarry => lemma_wf_complement_carry(machine),
        _ => lemma_flag_invariant_untouched(machine, instruction),
    }
}

/// The invariant of the flag byte holds after a step of the processor, after
/// an accepted interrupt, after a round of the console and after any number
/// of rounds, if it held before.
pub proof fn lemma_flag_invariant(console: Console, vector: u16, limit: nat)
    requires
        console.machine.registers().wf(),
    ensures
        console.machine.step().registers().wf(),
        console.machine.interrupted(vector).registers().wf(),
        console.round().registers_wf(),
        console.run(limit).registers_wf(),
    decreases limit,
{
    let machine = console.machine;
    if machine.runs() && crate::instruction::instruction_of(machine.opcode()) is Some {
        lemma_perform_keeps_flag_invariant(
            machine.skip(1),
            crate::instruction::instruction_of(machine.opcode())->0,
        );
    }
    if limit > 0 && console.goes_on() {
        lemma_flag_invariant(console.round(), vector, (limit - 1) as nat);
    }
}

} // verus!
