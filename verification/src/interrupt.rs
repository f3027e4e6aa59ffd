//! The interrupt controller: it arbitrates between the five interrupt
//! sources and owns the interrupt master enable.

use vstd::prelude::*;
use crate::memory::Memory;
use crate::memory::MemoryState;

verus! {

/// Address of the interrupt request register.
pub const IF_ADDR: u16 = 0xFF0F;

/// Address of the interrupt enable register.
pub const IE_ADDR: u16 = 0xFFFF;

/// The five interrupt sources, highest priority first, and the request that
/// ends the intake of requests.
#[allow(non_camel_case_types)]
#[derive(Copy, Clone, PartialEq, Debug, Eq, Structural)]
pub enum InterruptType {
    VBLANK,
    LCD_STAT,
    TIMER,
    SERIAL,
    JOYPAD,
    EXIT,
}

impl InterruptType {
    /// The bit of this source in the request and enable registers.
    pub open spec fn register_bit(self) -> u8 {
        match self {
            InterruptType::VBLANK => 0,
            InterruptType::LCD_STAT => 1,
            InterruptType::TIMER => 2,
            InterruptType::SERIAL => 3,
            InterruptType::JOYPAD => 4,
            InterruptType::EXIT => 5,
        }
    }

    /// The address that execution goes to when this source is served.
    pub open spec fn rst_addr(self) -> u16 {
        (0x40 + 8 * self.register_bit()) as u16
    }

    /// The source of a register bit; bits above 4 name no source and give
    /// `JOYPAD`.
    pub open spec fn of_bit(bit: u8) -> InterruptType {
        if bit == 0 {
            InterruptType::VBLANK
        } else if bit == 1 {
            InterruptType::LCD_STAT
        } else if bit == 2 {
            InterruptType::TIMER
        } else if bit == 3 {
            InterruptType::SERIAL
        } else {
            InterruptType::JOYPAD
        }
    }

    pub fn get_register_bit(&self) -> (bit: u8)
        ensures
            bit == self.register_bit(),
    {
        match self {
            InterruptType::VBLANK => 0,
            InterruptType::LCD_STAT => 1,
            InterruptType::TIMER => 2,
            InterruptType::SERIAL => 3,
            InterruptType::JOYPAD => 4,
            InterruptType::EXIT => 5,
        }
    }

    /// The reset vector of an interrupt source. `EXIT` has none.
    pub fn get_rst_addr(&self) -> (addr: u16)
        requires
            *self != InterruptType::EXIT,
        ensures
            addr == self.rst_addr(),
    {
        match self {
            InterruptType::VBLANK => 0x40,
            InterruptType::LCD_STAT => 0x48,
            InterruptType::TIMER => 0x50,
            InterruptType::SERIAL => 0x58,
            _ => 0x60,
        }
    }

    /// The interrupt source of a register bit, 0 to 4.
    pub fn get_interrupt_from_bit(bit: u8) -> (interrupt: InterruptType)
        requires
            bit <= 4,
        ensures
            interrupt == InterruptType::of_bit(bit),
            interrupt.register_bit() == bit,
    {
        match bit {
            0 => InterruptType::VBLANK,
            1 => InterruptType::LCD_STAT,
            2 => InterruptType::TIMER,
            3 => InterruptType::SERIAL,
            _ => InterruptType::JOYPAD,
        }
    }
}

/// Whether bit `bit` is set in both the request and the enable register.
pub open spec fn line_raised(requests: u8, enables: u8, bit: u8) -> bool {
    (requests >> bit) & 1 == 1 && (enables >> bit) & 1 == 1
}

/// The source to serve: the one of highest priority that is both requested
/// and enabled, if there is one.
pub open spec fn pending(requests: u8, enables: u8) -> Option<InterruptType> {
    if line_raised(requests, enables, 0) {
        Some(InterruptType::VBLANK)
    } else if line_raised(requests, enables, 1) {
        Some(InterruptType::LCD_STAT)
    } else if line_raised(requests, enables, 2) {
        Some(InterruptType::TIMER)
    } else if line_raised(requests, enables, 3) {
        Some(InterruptType::SERIAL)
    } else if line_raised(requests, enables, 4) {
        Some(InterruptType::JOYPAD)
    } else {
        None
    }
}

/// The source that the controller serves next: none while the interrupt
/// master enable is clear.
pub open spec fn pending_interrupt(memory: MemoryState, ime: bool) -> Option<InterruptType> {
    if ime {
        pending(memory.read(IF_ADDR), memory.read(IE_ADDR))
    } else {
        None
    }
}

/// The memory with the request bit of a source set.
pub open spec fn requested(memory: MemoryState, interrupt: InterruptType) -> MemoryState {
    memory.write(IF_ADDR, memory.read(IF_ADDR) | (1u8 << interrupt.register_bit()))
}

/// The memory with the request bit of a source cleared.
pub open spec fn acknowledged(memory: MemoryState, interrupt: InterruptType) -> MemoryState {
    memory.write(IF_ADDR, memory.read(IF_ADDR) & !(1u8 << interrupt.register_bit()))
}

/// The memory after a queue of requests was taken in, in order, up to the
/// first `EXIT`.
pub open spec fn requested_all(memory: MemoryState, interrupts: Seq<InterruptType>) -> MemoryState
    decreases interrupts.len(),
{
    if interrupts.len() == 0 || interrupts[0] == InterruptType::EXIT {
        memory
    } else {
        requested_all(requested(memory, interrupts[0]), interrupts.drop_first())
    }
}

/// A request sets the bit of its source and an acknowledgement clears it;
/// neither touches another bit of the request register, the enable register
/// or the boot overlay.
pub proof fn lemma_request_bits(memory: MemoryState, interrupt: InterruptType, bit: u8)
    requires
        memory.wf(),
        bit < 8,
    ensures
        (requested(memory, interrupt).read(IF_ADDR) >> interrupt.register_bit()) & 1 == 1,
        (acknowledged(memory, interrupt).read(IF_ADDR) >> interrupt.register_bit()) & 1 == 0,
        bit != interrupt.register_bit() ==> (requested(memory, interrupt).read(IF_ADDR) >> bit) & 1
            == (memory.read(IF_ADDR) >> bit) & 1,
        bit != interrupt.register_bit() ==> (acknowledged(memory, interrupt).read(IF_ADDR) >> bit)
            & 1 == (memory.read(IF_ADDR) >> bit) & 1,
        requested(memory, interrupt).read(IE_ADDR) == memory.read(IE_ADDR),
        acknowledged(memory, interrupt).read(IE_ADDR) == memory.read(IE_ADDR),
        requested(memory, interrupt).boot == memory.boot,
        acknowledged(memory, interrupt).boot == memory.boot,
{
    let register: u8 = memory.read(IF_ADDR);
    let own: u8 = interrupt.register_bit();
    assert(((register | (1u8 << own)) >> own) & 1 == 1 && ((register & !(1u8 << own)) >> own) & 1
        == 0) by (bit_vector)
        requires
            own < 8,
    ;
    assert(bit != own ==> ((register | (1u8 << own)) >> bit) & 1 == (register >> bit) & 1 && ((
    register & !(1u8 << own)) >> bit) & 1 == (register >> bit) & 1) by (bit_vector)
        requires
            own < 8,
            bit < 8,
    ;
}

/// The interrupt controller. It holds the interrupt master enable; the
/// request and enable registers live in memory.
#[derive(Copy, Clone, PartialEq, Debug, Eq)]
pub struct InterruptController {
    pub ime: bool,
}

impl InterruptController {
    pub fn new(ime: bool) -> (controller: InterruptController)
        ensures
            controller.ime == ime,
    {
        InterruptController { ime }
    }

    /// Takes in one request: sets its bit in the request register. Returns
    /// `false` for `EXIT`, which changes nothing and ends the intake.
    pub fn request(memory: &mut Memory, interrupt: InterruptType) -> (more: bool)
        ensures
            more == (interrupt != InterruptType::EXIT),
            final(memory)@ == requested_all(old(memory)@, seq![interrupt]),
    {
        proof {
            reveal_with_fuel(requested_all, 2);
            assert(seq![interrupt].drop_first().len() == 0);
        }
        match interrupt {
            InterruptType::EXIT => false,
            _ => {
                let if_register: u8 = memory.get_addr(IF_ADDR);
                memory.set_addr(IF_ADDR, if_register | 1u8 << interrupt.get_register_bit());
                true
            },
        }
    }

    /// Takes in a queue of requests, in order, up to the first `EXIT`.
    pub fn request_handler(memory: &mut Memory, interrupts: &Vec<InterruptType>)
        ensures
            final(memory)@ == requested_all(old(memory)@, interrupts@),
    {
        let mut index: usize = 0;
        assert(interrupts@.skip(0) =~= interrupts@);
        while index < interrupts.len()
            invariant
                index <= interrupts.len(),
                requested_all(memory@, interrupts@.skip(index as int)) == requested_all(
                    old(memory)@,
                    interrupts@,
                ),
            decreases interrupts.len() - index,
        {
            let ghost before = memory@;
            let ghost rest = interrupts@.skip(index as int);
            assert(rest.len() > 0 && rest[0] == interrupts[index as int]);
            assert(rest.drop_first() =~= interrupts@.skip(index + 1));
            let more: bool = InterruptController::request(memory, interrupts[index]);
            proof {
                reveal_with_fuel(requested_all, 2);
                assert(seq![rest[0]].drop_first().len() == 0);
            }
            if !more {
                return ;
            }
            index += 1;
        }
        assert(interrupts@.skip(index as int).len() == 0);
    }

    /// Serves the pending interrupt of highest priority, if the interrupt
    /// master enable is set and there is one: clears the master enable and
    /// the request bit, and returns the reset vector. Otherwise nothing
    /// changes.
    pub fn execute(&mut self, memory: &mut Memory) -> (vector: Option<u16>)
        ensures
            match pending_interrupt(old(memory)@, old(self).ime) {
                Some(interrupt) => {
                    &&& vector == Some(interrupt.rst_addr())
                    &&& !final(self).ime
                    &&& final(memory)@ == acknowledged(old(memory)@, interrupt)
                },
                None => {
                    &&& vector is None
                    &&& *final(self) == *old(self)
                    &&& final(memory)@ == old(memory)@
                },
            },
    {
        match self.get_interrupt_request(memory) {
            Some(interrupt) => {
                self.clear_ime();
                self.disable_interrupt_request(memory, interrupt);
                Some(interrupt.get_rst_addr())
            },
            None => None,
        }
    }

    /// The source to serve next: none while the master enable is clear.
    pub fn get_interrupt_request(&self, memory: &Memory) -> (interrupt: Option<InterruptType>)
        ensures
            interrupt == pending_interrupt(memory@, self.ime),
            interrupt != Some(InterruptType::EXIT),
    {
        let interrupt_requests_register: u8 = memory.get_addr(IF_ADDR);
        let interrupt_enable_register: u8 = memory.get_addr(IE_ADDR);
        if self.is_set_ime() {
            let mut i: u8 = 0;
            while i < 5
                invariant
                    i <= 5,
                    self.ime,
                    interrupt_requests_register == memory@.read(IF_ADDR),
                    interrupt_enable_register == memory@.read(IE_ADDR),
                    forall|j: u8|
                        j < i ==> !#[trigger] line_raised(
                            interrupt_requests_register,
                            interrupt_enable_register,
                            j,
                        ),
                decreases 5 - i,
            {
                if (interrupt_requests_register >> i & 1 == 1) && (interrupt_enable_register >> i & 1
                    == 1) {
                    assert(line_raised(interrupt_requests_register, interrupt_enable_register, i));
                    return Some(InterruptType::get_interrupt_from_bit(i));
                }
                i += 1;
            }
        }
        None
    }

    /// Whether a source is enabled in the enable register.
    pub fn is_interrupt_enabled(&self, memory: &Memory, interrupt: InterruptType) -> (enabled: bool)
        ensures
            enabled == ((memory@.read(IE_ADDR) >> interrupt.register_bit()) & 1 == 1),
    {
        let ie_register: u8 = memory.get_addr(IE_ADDR);
        (ie_register >> interrupt.get_register_bit() & 0x01) == 1
    }

    /// Clears the request bit of a source.
    pub fn disable_interrupt_request(&self, memory: &mut Memory, interrupt: InterruptType)
        ensures
            final(memory)@ == acknowledged(old(memory)@, interrupt),
    {
        let if_register: u8 = memory.get_addr(IF_ADDR);
        memory.set_addr(IF_ADDR, if_register & !(1u8 << interrupt.get_register_bit()));
    }

    pub fn clear_ime(&mut self)
        ensures
            !final(self).ime,
    {
        self.ime = false;
    }

    pub fn is_set_ime(&self) -> (set: bool)
        ensures
            set == self.ime,
    {
        self.ime
    }

    /// Lets interrupts through: the processor calls this for its enabling
    /// instruction and on return from an interrupt.
    pub fn enable_interrupts(&mut self)
        ensures
            final(self).ime,
    {
        self.ime = true;
    }

    /// Holds interrupts back: the processor calls this for its disabling
    /// instruction.
    pub fn disable_interrupts(&mut self)
        ensures
            !final(self).ime,
    {
        self.ime = false;
    }
}

} // verus!
