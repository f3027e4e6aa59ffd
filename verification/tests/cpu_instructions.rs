use gumboi::cpu::CPUState;
use gumboi::cpu::CPU;
use gumboi::interrupt::InterruptController;
use gumboi::memory::Memory;
use gumboi::registers::Registers;

const SET_Z: u8 = 0b10000000;
const SET_N: u8 = 0b01000000;
const SET_H: u8 = 0b00100000;
const SET_C: u8 = 0b00010000;

const EMPTY_REGISTERS: Registers = Registers {
    a: 0x0,
    b: 0x0,
    c: 0x0,
    d: 0x0,
    e: 0x0,
    f: 0x0,
    h: 0x0,
    l: 0x0,
    sp: 0x0,
    pc: 0x0,
};

fn memory(entries: &[(u16, u8)]) -> Memory {
    let mut mem = Memory::new();
    for (addr, value) in entries {
        mem.set_addr(*addr, *value);
    }
    mem
}

fn run(current_state: (Registers, Memory, usize, bool)) -> (Registers, Memory, usize, bool) {
    let mut memory = current_state.1;
    let mut interrupts = InterruptController::new(current_state.3);
    let mut cpu = CPU { registers: current_state.0, cycle: current_state.2, state: CPUState::Active };
    while cpu.get_state() == CPUState::Active {
        cpu.execute(&mut memory, &mut interrupts).unwrap();
    }
    (cpu.get_registers(), memory, cpu.get_cycles(), interrupts.is_set_ime())
}

fn get_next_state(current_state: (Registers, Memory, usize)) -> (Registers, Memory, usize) {
    let next = run((current_state.0, current_state.1, current_state.2, false));
    (next.0, next.1, next.2)
}

#[test]
#[allow(non_snake_case)]
fn Ox76() {
    assert_eq!(
        get_next_state((Registers { ..EMPTY_REGISTERS }, memory(&[(0x0, 0x76)]), 0)),
        (Registers { pc: 1, ..EMPTY_REGISTERS }, memory(&[(0x0, 0x76)]), 0)
    );
}

#[test]
#[allow(non_snake_case)]
fn OxCB_Ox11() {
    assert_eq!(
        get_next_state((Registers { c: 0x85, ..EMPTY_REGISTERS }, memory(&[(0x0, 0xCB), (0x1, 0x11), (0x2, 0x76)]), 0)),
        (Registers { c: 0x0B, f: SET_C, pc: 0x3, ..EMPTY_REGISTERS }, memory(&[(0x0, 0xCB), (0x1, 0x11), (0x2, 0x76)]), 8)
    );
}

#[test]
#[allow(non_snake_case)]
fn Ox17() {
    assert_eq!(
        get_next_state((Registers { a: 0x95, ..EMPTY_REGISTERS }, memory(&[(0x0, 0x17), (0x1, 0x76)]), 0)),
        (Registers { a: 0x2A, f: SET_C, pc: 2, ..EMPTY_REGISTERS }, memory(&[(0x0, 0x17), (0x1, 0x76)]), 4)
    );
}

#[test]
#[allow(non_snake_case)]
fn Ox21() {
    assert_eq!(
        get_next_state((Registers { ..EMPTY_REGISTERS }, memory(&[(0x0, 0x21), (0x1, 0xff), (0x2, 0x9f), (0x3, 0x76)]), 0)),
        (Registers { h: 0x9F, l: 0xFF, pc: 4, ..EMPTY_REGISTERS }, memory(&[(0x0, 0x21), (0x1, 0xff), (0x2, 0x9f), (0x3, 0x76)]), 12)
    );
}

#[test]
#[allow(non_snake_case)]
fn Ox32() {
    assert_eq!(
        get_next_state((Registers { a: 0x0, h: 0x1, l: 0x1, ..EMPTY_REGISTERS }, memory(&[(0x0, 0x32), (0x1, 0x76)]), 0)),
        (Registers { a: 0x0, h: 0x1, l: 0x0, pc: 0x2, ..EMPTY_REGISTERS }, memory(&[(0x0, 0x32), (0x1, 0x76)]), 8)
    );
}

#[test]
#[allow(non_snake_case)]
fn Ox20_with_Z_set() {
    assert_eq!(
        get_next_state((Registers { f: SET_Z, ..EMPTY_REGISTERS }, memory(&[(0x0, 0x20), (0x1, 0x03), (0x2, 0x76), (0x3, 0xFF), (0x4, 0xFF)]), 0)),
        (Registers { f: SET_Z, pc: 3, ..EMPTY_REGISTERS }, memory(&[(0x0, 0x20), (0x1, 0x03), (0x2, 0x76), (0x3, 0xFF), (0x4, 0xFF)]), 8)
    );
}

#[test]
#[allow(non_snake_case)]
fn Ox20_with_Z_not_set() {
    assert_eq!(
        get_next_state((Registers { ..EMPTY_REGISTERS }, memory(&[(0x0, 0x20), (0x1, 0x03), (0x2, 0xFF), (0x3, 0xFF), (0x4, 0xFF), (0x5, 0x76)]), 0)),
        (Registers { pc: 6, ..EMPTY_REGISTERS }, memory(&[(0x0, 0x20), (0x1, 0x03), (0x2, 0xFF), (0x3, 0xFF), (0x4, 0xFF), (0x5, 0x76)]), 12)
    );
}

#[test]
#[allow(non_snake_case)]
fn OxCB_Ox7C() {
    assert_eq!(
        get_next_state((Registers { h: 0x80, ..EMPTY_REGISTERS }, memory(&[(0x0, 0xcb), (0x1, 0x7c), (0x2, 0x76)]), 0)),
        (Registers { h: 0x80, pc: 3, f: SET_H, ..EMPTY_REGISTERS }, memory(&[(0x0, 0xcb), (0x1, 0x7c), (0x2, 0x76)]), 8)
    );
}

#[test]
#[allow(non_snake_case)]
fn Ox28_with_Z_set() {
    assert_eq!(
        get_next_state((Registers { f: SET_Z, ..EMPTY_REGISTERS }, memory(&[(0x0, 0x28), (0x1, 0x02), (0x2, 0x76), (0x3, 0x76), (0x4, 0x76)]), 0)),
        (Registers { pc: 5, f: SET_Z, ..EMPTY_REGISTERS }, memory(&[(0x0, 0x28), (0x1, 0x02), (0x2, 0x76), (0x3, 0x76), (0x4, 0x76)]), 12)
    );
}

#[test]
#[allow(non_snake_case)]
fn Ox28_with_Z_not_set() {
    assert_eq!(
        get_next_state((Registers { ..EMPTY_REGISTERS }, memory(&[(0x0, 0x28), (0x1, 0x02), (0x2, 0x76), (0x3, 0x76), (0x4, 0x76)]), 0)),
        (Registers { pc: 3, ..EMPTY_REGISTERS }, memory(&[(0x0, 0x28), (0x1, 0x02), (0x2, 0x76), (0x3, 0x76), (0x4, 0x76)]), 8)
    );
}

#[test]
#[allow(non_snake_case)]
fn Ox18_negative_jump() {
    assert_eq!(
        get_next_state((Registers { a: 0x00, pc: 3, ..EMPTY_REGISTERS }, memory(&[(0x0, 0x76), (0x1, 0x3C), (0x2, 0x76), (0x3, 0x18), (0x4, 0xFC), (0x5, 0x76), (0x6, 0x76)]), 0)),
        (Registers { a: 0x01, pc: 3, ..EMPTY_REGISTERS }, memory(&[(0x0, 0x76), (0x1, 0x3C), (0x2, 0x76), (0x3, 0x18), (0x4, 0xFC), (0x5, 0x76), (0x6, 0x76)]), 4)
    );
}

#[test]
#[allow(non_snake_case)]
fn Ox18_positive_jump() {
    assert_eq!(
        get_next_state((Registers { a: 0x00, pc: 3, ..EMPTY_REGISTERS }, memory(&[(0x0, 0x76), (0x1, 0x3C), (0x2, 0x76), (0x3, 0x18), (0x4, 0x01), (0x5, 0x76), (0x6, 0x3c), (0x7, 0x76)]), 0)),
        (Registers { a: 0x01, pc: 8, ..EMPTY_REGISTERS }, memory(&[(0x0, 0x76), (0x1, 0x3C), (0x2, 0x76), (0x3, 0x18), (0x4, 0x01), (0x5, 0x76), (0x6, 0x3c), (0x7, 0x76)]), 4)
    );
}

#[test]
#[allow(non_snake_case)]
fn Ox3C_with_overflow() {
    assert_eq!(
        get_next_state((Registers { a: 0xFF, f: SET_N | SET_C, ..EMPTY_REGISTERS }, memory(&[(0x0, 0x3c), (0x1, 0x76)]), 0)),
        (Registers { a: 0x00, pc: 2, f: SET_H | SET_Z | SET_C, ..EMPTY_REGISTERS }, memory(&[(0x0, 0x3c), (0x1, 0x76)]), 4)
    );
}

#[test]
#[allow(non_snake_case)]
fn Ox3C_without_overflow() {
    assert_eq!(
        get_next_state((Registers { a: 0x0E, f: SET_C | SET_H | SET_N | SET_Z, ..EMPTY_REGISTERS }, memory(&[(0x0, 0x3C), (0x1, 0x76)]), 0)),
        (Registers { a: 0x0F, f: SET_C, pc: 2, ..EMPTY_REGISTERS }, memory(&[(0x0, 0x3C), (0x1, 0x76)]), 4)
    );
}

#[test]
#[allow(non_snake_case)]
fn Ox3E() {
    assert_eq!(
        get_next_state((Registers { ..EMPTY_REGISTERS }, memory(&[(0x0, 0x3E), (0x1, 0xFE), (0x2, 0x76)]), 0)),
        (Registers { a: 0xFE, pc: 3, ..EMPTY_REGISTERS }, memory(&[(0x0, 0x3E), (0x1, 0xFE), (0x2, 0x76)]), 8)
    );
}

#[test]
#[allow(non_snake_case)]
fn Ox06() {
    assert_eq!(
        get_next_state((Registers { ..EMPTY_REGISTERS }, memory(&[(0x0, 0x06), (0x1, 0xFE), (0x2, 0x76)]), 0)),
        (Registers { b: 0xFE, pc: 3, ..EMPTY_REGISTERS }, memory(&[(0x0, 0x06), (0x1, 0xFE), (0x2, 0x76)]), 8)
    );
}

#[test]
#[allow(non_snake_case)]
fn Ox0E() {
    assert_eq!(
        get_next_state((Registers { ..EMPTY_REGISTERS }, memory(&[(0x0, 0x0E), (0x1, 0xFE), (0x2, 0x76)]), 0)),
        (Registers { c: 0xFE, pc: 3, ..EMPTY_REGISTERS }, memory(&[(0x0, 0x0E), (0x1, 0xFE), (0x2, 0x76)]), 8)
    );
}

#[test]
#[allow(non_snake_case)]
fn Ox16() {
    assert_eq!(
        get_next_state((Registers { ..EMPTY_REGISTERS }, memory(&[(0x0, 0x16), (0x1, 0xFE), (0x2, 0x76)]), 0)),
        (Registers { d: 0xFE, pc: 3, ..EMPTY_REGISTERS }, memory(&[(0x0, 0x16), (0x1, 0xFE), (0x2, 0x76)]), 8)
    );
}

#[test]
#[allow(non_snake_case)]
fn Ox1E() {
    assert_eq!(
        get_next_state((Registers { ..EMPTY_REGISTERS }, memory(&[(0x0, 0x1E), (0x1, 0xFE), (0x2, 0x76)]), 0)),
        (Registers { e: 0xFE, pc: 3, ..EMPTY_REGISTERS }, memory(&[(0x0, 0x1E), (0x1, 0xFE), (0x2, 0x76)]), 8)
    );
}

#[test]
#[allow(non_snake_case)]
fn Ox26() {
    assert_eq!(
        get_next_state((Registers { ..EMPTY_REGISTERS }, memory(&[(0x0, 0x26), (0x1, 0xFE), (0x2, 0x76)]), 0)),
        (Registers { h: 0xFE, pc: 3, ..EMPTY_REGISTERS }, memory(&[(0x0, 0x26), (0x1, 0xFE), (0x2, 0x76)]), 8)
    );
}

#[test]
#[allow(non_snake_case)]
fn Ox2E() {
    assert_eq!(
        get_next_state((Registers { ..EMPTY_REGISTERS }, memory(&[(0x0, 0x2E), (0x1, 0xFE), (0x2, 0x76)]), 0)),
        (Registers { l: 0xFE, pc: 3, ..EMPTY_REGISTERS }, memory(&[(0x0, 0x2E), (0x1, 0xFE), (0x2, 0x76)]), 8)
    );
}

#[test]
#[allow(non_snake_case)]
fn Ox36() {
    assert_eq!(
        get_next_state((Registers { h: 0x01, l: 0x00, ..EMPTY_REGISTERS }, memory(&[(0x0, 0x36), (0x1, 0xFE), (0x2, 0x76)]), 0)),
        (Registers { h: 0x01, l: 0x00, pc: 3, ..EMPTY_REGISTERS }, memory(&[(0x0, 0x36), (0x1, 0xFE), (0x2, 0x76), (0x100, 0xFE)]), 12)
    );
}

#[test]
#[allow(non_snake_case)]
fn Ox87_Zero() {
    assert_eq!(
        get_next_state((Registers { a: 0x0, f: SET_N, ..EMPTY_REGISTERS }, memory(&[(0x0, 0x87), (0x1, 0x76)]), 0)),
        (Registers { a: 0x0, f: SET_Z, pc: 2, ..EMPTY_REGISTERS }, memory(&[(0x0, 0x87), (0x1, 0x76)]), 4)
    );
}

#[test]
#[allow(non_snake_case)]
fn Ox87_With_Half_Carry() {
    assert_eq!(
        get_next_state((Registers { a: 0x0f, f: SET_N, ..EMPTY_REGISTERS }, memory(&[(0x0, 0x87), (0x1, 0x76)]), 0)),
        (Registers { a: 0x1e, f: SET_H, pc: 2, ..EMPTY_REGISTERS }, memory(&[(0x0, 0x87), (0x1, 0x76)]), 4)
    );
}

#[test]
#[allow(non_snake_case)]
fn Ox87_With_Carry() {
    assert_eq!(
        get_next_state((Registers { a: 0x80, f: SET_N, ..EMPTY_REGISTERS }, memory(&[(0x0, 0x87), (0x1, 0x76)]), 0)),
        (Registers { a: 0x00, f: SET_Z|SET_C, pc: 2, ..EMPTY_REGISTERS }, memory(&[(0x0, 0x87), (0x1, 0x76)]), 4)
    );
}

#[test]
#[allow(non_snake_case)]
fn Ox87_With_Both_Carry() {
    assert_eq!(
        get_next_state((Registers { a: 0x88, f: SET_N, ..EMPTY_REGISTERS }, memory(&[(0x0, 0x87), (0x1, 0x76)]), 0)),
        (Registers { a: 0x10, f: SET_H|SET_C, pc: 2, ..EMPTY_REGISTERS }, memory(&[(0x0, 0x87), (0x1, 0x76)]), 4)
    );
}

#[test]
#[allow(non_snake_case)]
fn Ox80_Zero() {
    assert_eq!(
        get_next_state((Registers { a: 0x0, b: 0x0, f: SET_N, ..EMPTY_REGISTERS }, memory(&[(0x0, 0x80), (0x1, 0x76)]), 0)),
        (Registers { a: 0x0, f: SET_Z, pc: 2, ..EMPTY_REGISTERS }, memory(&[(0x0, 0x80), (0x1, 0x76)]), 4)
    );
}

#[test]
#[allow(non_snake_case)]
fn Ox80_With_Half_Carry() {
    assert_eq!(
        get_next_state((Registers { a: 0x0f, b: 0x01, f: SET_N, ..EMPTY_REGISTERS }, memory(&[(0x0, 0x80), (0x1, 0x76)]), 0)),
        (Registers { a: 0x10, b: 0x01, f: SET_H, pc: 2, ..EMPTY_REGISTERS }, memory(&[(0x0, 0x80), (0x1, 0x76)]), 4)
    );
}

#[test]
#[allow(non_snake_case)]
fn Ox80_With_Carry() {
    assert_eq!(
        get_next_state((Registers { a: 0xf0, b: 0x10, f: SET_N, ..EMPTY_REGISTERS }, memory(&[(0x0, 0x80), (0x1, 0x76)]), 0)),
        (Registers { a: 0x00, b: 0x10, f: SET_Z|SET_C, pc: 2, ..EMPTY_REGISTERS }, memory(&[(0x0, 0x80), (0x1, 0x76)]), 4)
    );
}

#[test]
#[allow(non_snake_case)]
fn Ox80_With_Both_Carry() {
    assert_eq!(
        get_next_state((Registers { a: 0xff, b: 0x01, f: SET_N, ..EMPTY_REGISTERS }, memory(&[(0x0, 0x80), (0x1, 0x76)]), 0)),
        (Registers { a: 0x00, b: 0x01, f: SET_H|SET_C|SET_Z, pc: 2, ..EMPTY_REGISTERS }, memory(&[(0x0, 0x80), (0x1, 0x76)]), 4)
    );
}

#[test]
#[allow(non_snake_case)]
fn OxC5() {
    assert_eq!(
        get_next_state((Registers { sp: 0xfffe, b: 0x01, c: 0x01, ..EMPTY_REGISTERS }, memory(&[(0x0, 0xC5), (0x1, 0x76)]), 0)),
        (Registers { sp: 0xfffc, b: 0x01, c: 0x01, pc: 0x02, ..EMPTY_REGISTERS }, memory(&[(0x0, 0xC5), (0x1, 0x76), (0xFFFC, 0x01), (0xFFFD, 0x01)]), 16)
    );
}

#[test]
#[allow(non_snake_case)]
fn OxD5() {
    assert_eq!(
        get_next_state((Registers { sp: 0xfffe, d: 0x01, e: 0x01, ..EMPTY_REGISTERS }, memory(&[(0x0, 0xD5), (0x1, 0x76)]), 0)),
        (Registers { sp: 0xfffc, d: 0x01, e: 0x01, pc: 0x02, ..EMPTY_REGISTERS }, memory(&[(0x0, 0xD5), (0x1, 0x76), (0xFFFC, 0x01), (0xFFFD, 0x01)]), 16)
    );
}

#[test]
#[allow(non_snake_case)]
fn OxE5() {
    assert_eq!(
        get_next_state((Registers { sp: 0xfffe, h: 0x01, l: 0x01, ..EMPTY_REGISTERS }, memory(&[(0x0, 0xE5), (0x1, 0x76)]), 0)),
        (Registers { sp: 0xfffc, h: 0x01, l: 0x01, pc: 0x02, ..EMPTY_REGISTERS }, memory(&[(0x0, 0xE5), (0x1, 0x76), (0xFFFC, 0x01), (0xFFFD, 0x01)]), 16)
    );
}

#[test]
#[allow(non_snake_case)]
fn OxF5() {
    assert_eq!(
        get_next_state((Registers { sp: 0xfffe, a: 0x01, f: 0x01, ..EMPTY_REGISTERS }, memory(&[(0x0, 0xF5), (0x1, 0x76)]), 0)),
        (Registers { sp: 0xfffc, a: 0x01, f: 0x01, pc: 0x02, ..EMPTY_REGISTERS }, memory(&[(0x0, 0xF5), (0x1, 0x76), (0xFFFC, 0x01), (0xFFFD, 0x01)]), 16)
    );
}

#[test]
#[allow(non_snake_case)]
fn OxC1() {
    assert_eq!(
        get_next_state((Registers { sp: 0xFFFC, ..EMPTY_REGISTERS }, memory(&[(0x0, 0xC1), (0x1, 0x76), (0xFFFC, 0x01), (0xFFFD, 0x02)]), 0)),
        (Registers { sp: 0xFFFE, b: 0x02, c: 0x01, pc: 2, ..EMPTY_REGISTERS }, memory(&[(0x0, 0xC1), (0x1, 0x76), (0xFFFC, 0x01), (0xFFFD, 0x02)]), 12)
    );
}

#[test]
#[allow(non_snake_case)]
fn OxD1() {
    assert_eq!(
        get_next_state((Registers { sp: 0xFFFC, ..EMPTY_REGISTERS }, memory(&[(0x0, 0xD1), (0x1, 0x76), (0xFFFC, 0x01), (0xFFFD, 0x02)]), 0)),
        (Registers { sp: 0xFFFE, d: 0x02, e: 0x01, pc: 2, ..EMPTY_REGISTERS }, memory(&[(0x0, 0xD1), (0x1, 0x76), (0xFFFC, 0x01), (0xFFFD, 0x02)]), 12)
    );
}

#[test]
#[allow(non_snake_case)]
fn OxE1() {
    assert_eq!(
        get_next_state((Registers { sp: 0xFFFC, ..EMPTY_REGISTERS }, memory(&[(0x0, 0xE1), (0x1, 0x76), (0xFFFC, 0x01), (0xFFFD, 0x02)]), 0)),
        (Registers { sp: 0xFFFE, h: 0x02, l: 0x01, pc: 2, ..EMPTY_REGISTERS }, memory(&[(0x0, 0xE1), (0x1, 0x76), (0xFFFC, 0x01), (0xFFFD, 0x02)]), 12)
    );
}

#[test]
#[allow(non_snake_case)]
fn OxF1() {
    assert_eq!(
        get_next_state((Registers { sp: 0xFFFC, ..EMPTY_REGISTERS }, memory(&[(0x0, 0xF1), (0x1, 0x76), (0xFFFC, 0x01), (0xFFFD, 0x02)]), 0)),
        (Registers { sp: 0xFFFE, a: 0x02, f: 0x00, pc: 2, ..EMPTY_REGISTERS }, memory(&[(0x0, 0xF1), (0x1, 0x76), (0xFFFC, 0x01), (0xFFFD, 0x02)]), 12)
    );
}

#[test]
#[allow(non_snake_case)]
fn OxCD() {
    assert_eq!(
        get_next_state((Registers { sp: 0xFFFE, ..EMPTY_REGISTERS }, memory(&[(0x0, 0xCD), (0x1, 0xFE), (0x2, 0x7F), (0x7FFE, 0x76)]), 0)),
        (Registers { sp: 0xFFFC, pc: 0x7FFF, ..EMPTY_REGISTERS }, memory(&[(0x0, 0xCD), (0x1, 0xFE), (0x2, 0x7F), (0x7FFE, 0x76), (0xFFFC, 0x03)]), 24)
    );
}

#[test]
#[allow(non_snake_case)]
fn OxC4_with_Z_reset() {
    assert_eq!(
        get_next_state((Registers { sp: 0xFFFE, ..EMPTY_REGISTERS }, memory(&[(0x0, 0xC4), (0x1, 0xFE), (0x2, 0x7F), (0x3, 0x76), (0x7FFE, 0x76)]), 0)),
        (Registers { sp: 0xFFFC, pc: 0x7FFF, ..EMPTY_REGISTERS }, memory(&[(0x0, 0xC4), (0x1, 0xFE), (0x2, 0x7F), (0x3, 0x76), (0x7FFE, 0x76), (0xFFFC, 0x03)]), 24)
    );
}

#[test]
#[allow(non_snake_case)]
fn OxC4_with_Z_set() {
    assert_eq!(
        get_next_state((Registers { sp: 0xFFFE, f: SET_Z, ..EMPTY_REGISTERS }, memory(&[(0x0, 0xC4), (0x1, 0xFE), (0x2, 0x7F), (0x3, 0x76), (0x7FFE, 0x76)]), 0)),
        (Registers { sp: 0xFFFE, f: SET_Z, pc: 0x04, ..EMPTY_REGISTERS }, memory(&[(0x0, 0xC4), (0x1, 0xFE), (0x2, 0x7F), (0x3, 0x76), (0x7FFE, 0x76)]), 12)
    );
}

#[test]
#[allow(non_snake_case)]
fn OxCC_with_Z_set() {
    assert_eq!(
        get_next_state((Registers { sp: 0xFFFE, f: SET_Z, ..EMPTY_REGISTERS }, memory(&[(0x0, 0xCC), (0x1, 0xFE), (0x2, 0x7F), (0x3, 0x76), (0x7FFE, 0x76)]), 0)),
        (Registers { sp: 0xFFFC, f: SET_Z, pc: 0x7FFF, ..EMPTY_REGISTERS }, memory(&[(0x0, 0xCC), (0x1, 0xFE), (0x2, 0x7F), (0x3, 0x76), (0x7FFE, 0x76), (0xFFFC, 0x03)]), 24)
    );
}

#[test]
#[allow(non_snake_case)]
fn OxCC_with_Z_reset() {
    assert_eq!(
        get_next_state((Registers { sp: 0xFFFE, ..EMPTY_REGISTERS }, memory(&[(0x0, 0xCC), (0x1, 0xFE), (0x2, 0x7F), (0x3, 0x76), (0x7FFE, 0x76)]), 0)),
        (Registers { sp: 0xFFFE, pc: 0x04, ..EMPTY_REGISTERS }, memory(&[(0x0, 0xCC), (0x1, 0xFE), (0x2, 0x7F), (0x3, 0x76), (0x7FFE, 0x76)]), 12)
    );
}

#[test]
#[allow(non_snake_case)]
fn OxD4_with_C_reset() {
    assert_eq!(
        get_next_state((Registers { sp: 0xFFFE, ..EMPTY_REGISTERS }, memory(&[(0x0, 0xD4), (0x1, 0xFE), (0x2, 0x7F), (0x3, 0x76), (0x7FFE, 0x76)]), 0)),
        (Registers { sp: 0xFFFC, pc: 0x7FFF, ..EMPTY_REGISTERS }, memory(&[(0x0, 0xD4), (0x1, 0xFE), (0x2, 0x7F), (0x3, 0x76), (0x7FFE, 0x76), (0xFFFC, 0x03)]), 24)
    );
}

#[test]
#[allow(non_snake_case)]
fn OxD4_with_C_set() {
    assert_eq!(
        get_next_state((Registers { sp: 0xFFFE, f: SET_C, ..EMPTY_REGISTERS }, memory(&[(0x0, 0xD4), (0x1, 0xFE), (0x2, 0x7F), (0x3, 0x76), (0x7FFE, 0x76)]), 0)),
        (Registers { sp: 0xFFFE, f: SET_C, pc: 0x04, ..EMPTY_REGISTERS }, memory(&[(0x0, 0xD4), (0x1, 0xFE), (0x2, 0x7F), (0x3, 0x76), (0x7FFE, 0x76)]), 12)
    );
}

#[test]
#[allow(non_snake_case)]
fn OxDC_with_C_set() {
    assert_eq!(
        get_next_state((Registers { sp: 0xFFFE, f: SET_C, ..EMPTY_REGISTERS }, memory(&[(0x0, 0xDC), (0x1, 0xFE), (0x2, 0x7F), (0x3, 0x76), (0x7FFE, 0x76)]), 0)),
        (Registers { sp: 0xFFFC, f: SET_C, pc: 0x7FFF, ..EMPTY_REGISTERS }, memory(&[(0x0, 0xDC), (0x1, 0xFE), (0x2, 0x7F), (0x3, 0x76), (0x7FFE, 0x76), (0xFFFC, 0x03)]), 24)
    );
}

#[test]
#[allow(non_snake_case)]
fn OxDC_with_C_reset() {
    assert_eq!(
        get_next_state((Registers { sp: 0xFFFE, ..EMPTY_REGISTERS }, memory(&[(0x0, 0xDC), (0x1, 0xFE), (0x2, 0x7F), (0x3, 0x76), (0x7FFE, 0x76)]), 0)),
        (Registers { sp: 0xFFFE, pc: 0x04, ..EMPTY_REGISTERS }, memory(&[(0x0, 0xDC), (0x1, 0xFE), (0x2, 0x7F), (0x3, 0x76), (0x7FFE, 0x76)]), 12)
    );
}

#[test]
#[allow(non_snake_case)]
fn OxC9() {
    assert_eq!(
        get_next_state((Registers { sp: 0xFFFC, ..EMPTY_REGISTERS }, memory(&[(0x0, 0xC9), (0x1, 0x76), (0x7FFF, 0x76), (0xFFFC, 0xFF), (0xFFFD, 0x7F)]), 0)),
        (Registers { sp: 0xFFFE, pc: 0x8000, ..EMPTY_REGISTERS }, memory(&[(0x0, 0xC9), (0x1, 0x76), (0x7FFF, 0x76), (0xFFFC, 0xFF), (0xFFFD, 0x7F)]), 16)
    );
}

#[test]
#[allow(non_snake_case)]
fn OxC0_with_Z_reset() {
    assert_eq!(
        get_next_state((Registers { sp: 0xFFFC, ..EMPTY_REGISTERS }, memory(&[(0x0, 0xC0), (0x1, 0x76), (0x7FFF, 0x76), (0xFFFC, 0xFF), (0xFFFD, 0x7F)]), 0)),
        (Registers { sp: 0xFFFE, pc: 0x8000, ..EMPTY_REGISTERS }, memory(&[(0x0, 0xC0), (0x1, 0x76), (0x7FFF, 0x76), (0xFFFC, 0xFF), (0xFFFD, 0x7F)]), 20)
    );
}

#[test]
#[allow(non_snake_case)]
fn OxC0_with_Z_set() {
    assert_eq!(
        get_next_state((Registers { sp: 0xFFFC, f: SET_Z, ..EMPTY_REGISTERS }, memory(&[(0x0, 0xC0), (0x1, 0x76), (0x7FFF, 0x76), (0xFFFC, 0xFF), (0xFFFD, 0x7F)]), 0)),
        (Registers { sp: 0xFFFC, f: SET_Z, pc: 0x02, ..EMPTY_REGISTERS }, memory(&[(0x0, 0xC0), (0x1, 0x76), (0x7FFF, 0x76), (0xFFFC, 0xFF), (0xFFFD, 0x7F)]), 8)
    );
}

#[test]
#[allow(non_snake_case)]
fn OxC8_with_Z_set() {
    assert_eq!(
        get_next_state((Registers { sp: 0xFFFC, f: SET_Z, ..EMPTY_REGISTERS }, memory(&[(0x0, 0xC8), (0x1, 0x76), (0x7FFF, 0x76), (0xFFFC, 0xFF), (0xFFFD, 0x7F)]), 0)),
        (Registers { sp: 0xFFFE, f: SET_Z, pc: 0x8000, ..EMPTY_REGISTERS }, memory(&[(0x0, 0xC8), (0x1, 0x76), (0x7FFF, 0x76), (0xFFFC, 0xFF), (0xFFFD, 0x7F)]), 20)
    );
}

#[test]
#[allow(non_snake_case)]
fn OxC8_with_Z_reset() {
    assert_eq!(
        get_next_state((Registers { sp: 0xFFFC, ..EMPTY_REGISTERS }, memory(&[(0x0, 0xC8), (0x1, 0x76), (0x7FFF, 0x76), (0xFFFC, 0xFF), (0xFFFD, 0x7F)]), 0)),
        (Registers { sp: 0xFFFC, pc: 0x02, ..EMPTY_REGISTERS }, memory(&[(0x0, 0xC8), (0x1, 0x76), (0x7FFF, 0x76), (0xFFFC, 0xFF), (0xFFFD, 0x7F)]), 8)
    );
}

#[test]
#[allow(non_snake_case)]
fn OxD0_with_C_reset() {
    assert_eq!(
        get_next_state((Registers { sp: 0xFFFC, ..EMPTY_REGISTERS }, memory(&[(0x0, 0xD0), (0x1, 0x76), (0x7FFF, 0x76), (0xFFFC, 0xFF), (0xFFFD, 0x7F)]), 0)),
        (Registers { sp: 0xFFFE, pc: 0x8000, ..EMPTY_REGISTERS }, memory(&[(0x0, 0xD0), (0x1, 0x76), (0x7FFF, 0x76), (0xFFFC, 0xFF), (0xFFFD, 0x7F)]), 20)
    );
}

#[test]
#[allow(non_snake_case)]
fn OxC0_with_C_set() {
    assert_eq!(
        get_next_state((Registers { sp: 0xFFFC, f: SET_C, ..EMPTY_REGISTERS }, memory(&[(0x0, 0xD0), (0x1, 0x76), (0x7FFF, 0x76), (0xFFFC, 0xFF), (0xFFFD, 0x7F)]), 0)),
        (Registers { sp: 0xFFFC, f: SET_C, pc: 0x02, ..EMPTY_REGISTERS }, memory(&[(0x0, 0xD0), (0x1, 0x76), (0x7FFF, 0x76), (0xFFFC, 0xFF), (0xFFFD, 0x7F)]), 8)
    );
}

#[test]
#[allow(non_snake_case)]
fn OxD8_with_C_set() {
    assert_eq!(
        get_next_state((Registers { sp: 0xFFFC, f: SET_C, ..EMPTY_REGISTERS }, memory(&[(0x0, 0xD8), (0x1, 0x76), (0x7FFF, 0x76), (0xFFFC, 0xFF), (0xFFFD, 0x7F)]), 0)),
        (Registers { sp: 0xFFFE, f: SET_C, pc: 0x8000, ..EMPTY_REGISTERS }, memory(&[(0x0, 0xD8), (0x1, 0x76), (0x7FFF, 0x76), (0xFFFC, 0xFF), (0xFFFD, 0x7F)]), 20)
    );
}

#[test]
#[allow(non_snake_case)]
fn OxD8_with_Z_reset() {
    assert_eq!(
        get_next_state((Registers { sp: 0xFFFC, ..EMPTY_REGISTERS }, memory(&[(0x0, 0xD8), (0x1, 0x76), (0x7FFF, 0x76), (0xFFFC, 0xFF), (0xFFFD, 0x7F)]), 0)),
        (Registers { sp: 0xFFFC, pc: 0x02, ..EMPTY_REGISTERS }, memory(&[(0x0, 0xD8), (0x1, 0x76), (0x7FFF, 0x76), (0xFFFC, 0xFF), (0xFFFD, 0x7F)]), 8)
    );
}

#[test]
#[allow(non_snake_case)]
fn OxD9() {
    let current_state = (
        Registers { sp: 0xFFFC, ..EMPTY_REGISTERS },
        memory(&[(0x0, 0xD9), (0x1, 0x76), (0x7FFF, 0x76), (0xFFFC, 0xFF), (0xFFFD, 0x7F)]),
        0,
        false,
    );
    let expected_state = (
        Registers { sp: 0xFFFE, pc: 0x8000, ..EMPTY_REGISTERS },
        memory(&[(0x0, 0xD9), (0x1, 0x76), (0x7FFF, 0x76), (0xFFFC, 0xFF), (0xFFFD, 0x7F)]),
        16,
        true,
    );
    assert_eq!(run(current_state), expected_state);
}

#[test]
#[allow(non_snake_case)]
fn OxC7() {
    assert_eq!(
        get_next_state((Registers { sp: 0xFFFE, pc: 0x04, ..EMPTY_REGISTERS }, memory(&[(0x0, 0x76), (0x04, 0xC7), (0x05, 0x76)]), 0)),
        (Registers { sp: 0xFFFC, pc: 0x01, ..EMPTY_REGISTERS }, memory(&[(0x0, 0x76), (0x04, 0xC7), (0x05, 0x76), (0xFFFC, 0x05)]), 16)
    );
}

#[test]
#[allow(non_snake_case)]
fn OxCF() {
    assert_eq!(
        get_next_state((Registers { sp: 0xFFFE, pc: 0x04, ..EMPTY_REGISTERS }, memory(&[(0x08, 0x76), (0x04, 0xCF), (0x05, 0x76)]), 0)),
        (Registers { sp: 0xFFFC, pc: 0x09, ..EMPTY_REGISTERS }, memory(&[(0x08, 0x76), (0x04, 0xCF), (0x05, 0x76), (0xFFFC, 0x05)]), 16)
    );
}

#[test]
#[allow(non_snake_case)]
fn OxD7() {
    assert_eq!(
        get_next_state((Registers { sp: 0xFFFE, pc: 0x04, ..EMPTY_REGISTERS }, memory(&[(0x10, 0x76), (0x04, 0xD7), (0x05, 0x76)]), 0)),
        (Registers { sp: 0xFFFC, pc: 0x11, ..EMPTY_REGISTERS }, memory(&[(0x10, 0x76), (0x04, 0xD7), (0x05, 0x76), (0xFFFC, 0x05)]), 16)
    );
}

#[test]
#[allow(non_snake_case)]
fn OxDF() {
    assert_eq!(
        get_next_state((Registers { sp: 0xFFFE, pc: 0x04, ..EMPTY_REGISTERS }, memory(&[(0x18, 0x76), (0x04, 0xDF), (0x05, 0x76)]), 0)),
        (Registers { sp: 0xFFFC, pc: 0x19, ..EMPTY_REGISTERS }, memory(&[(0x18, 0x76), (0x04, 0xDF), (0x05, 0x76), (0xFFFC, 0x05)]), 16)
    );
}

#[test]
#[allow(non_snake_case)]
fn OxE7() {
    assert_eq!(
        get_next_state((Registers { sp: 0xFFFE, pc: 0x04, ..EMPTY_REGISTERS }, memory(&[(0x20, 0x76), (0x04, 0xE7), (0x05, 0x76)]), 0)),
        (Registers { sp: 0xFFFC, pc: 0x21, ..EMPTY_REGISTERS }, memory(&[(0x20, 0x76), (0x04, 0xE7), (0x05, 0x76), (0xFFFC, 0x05)]), 16)
    );
}

#[test]
#[allow(non_snake_case)]
fn OxEF() {
    assert_eq!(
        get_next_state((Registers { sp: 0xFFFE, pc: 0x04, ..EMPTY_REGISTERS }, memory(&[(0x28, 0x76), (0x04, 0xEF), (0x05, 0x76)]), 0)),
        (Registers { sp: 0xFFFC, pc: 0x29, ..EMPTY_REGISTERS }, memory(&[(0x28, 0x76), (0x04, 0xEF), (0x05, 0x76), (0xFFFC, 0x05)]), 16)
    );
}

#[test]
#[allow(non_snake_case)]
fn OxF7() {
    assert_eq!(
        get_next_state((Registers { sp: 0xFFFE, pc: 0x04, ..EMPTY_REGISTERS }, memory(&[(0x30, 0x76), (0x04, 0xF7), (0x05, 0x76)]), 0)),
        (Registers { sp: 0xFFFC, pc: 0x31, ..EMPTY_REGISTERS }, memory(&[(0x30, 0x76), (0x04, 0xF7), (0x05, 0x76), (0xFFFC, 0x05)]), 16)
    );
}

#[test]
#[allow(non_snake_case)]
fn OxFF() {
    assert_eq!(
        get_next_state((Registers { sp: 0xFFFE, pc: 0x04, ..EMPTY_REGISTERS }, memory(&[(0x38, 0x76), (0x04, 0xFF), (0x05, 0x76)]), 0)),
        (Registers { sp: 0xFFFC, pc: 0x39, ..EMPTY_REGISTERS }, memory(&[(0x38, 0x76), (0x04, 0xFF), (0x05, 0x76), (0xFFFC, 0x05)]), 16)
    );
}
