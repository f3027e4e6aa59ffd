//! An emulator core for an 8-bit handheld console processor: register file,
//! flat 64 KiB memory with a boot overlay, flag arithmetic, instruction
//! dispatch and interrupt arbitration.

pub mod alu;
pub mod cpu;
pub mod execute;
pub mod instruction;
pub mod interrupt;
pub mod laws;
pub mod machine;
pub mod memory;
pub mod registers;

use vstd::prelude::*;
use crate::cpu::CPUState;
use crate::cpu::CPU;
use crate::interrupt::acknowledged;
use crate::interrupt::pending_interrupt;
use crate::interrupt::InterruptController;
use crate::machine::ExecuteError;
use crate::machine::Machine;
use crate::memory::CartridgeError;
use crate::memory::Memory;

verus! {

/// What a console holds: the machine, the interrupt master enable and the
/// cycles counted so far.
pub struct Console {
    pub machine: Machine,
    pub ime: bool,
    pub cycle: usize,
}

impl Console {
    /// The invariant of the flag byte: its low nibble is zero.
    pub open spec fn registers_wf(self) -> bool {
        self.machine.registers().wf()
    }

    /// Whether a round changes nothing: the processor has exited, or it
    /// runs into a byte that is no instruction.
    pub open spec fn stuck(self) -> bool {
        self.machine.cpu.state == CPUState::Exit || self.machine.fault() is Some
    }

    /// The console after one round: one step of the processor, whose cycles
    /// are added to the count, then one poll of the interrupt controller. A
    /// pending interrupt is accepted at once: its request bit and the master
    /// enable are cleared and the processor calls its vector. A processor
    /// that halted and meets no interrupt exits.
    pub open spec fn round(self) -> Console {
        if self.stuck() {
            self
        } else {
            let stepped: Machine = self.machine.step();
            let ime: bool = self.machine.interrupts_after_step(self.ime);
            let cycle: usize = vstd::wrapping::usize_specs::wrapping_add(
                self.cycle,
                self.machine.elapsed(),
            );
            match pending_interrupt(stepped.memory, ime) {
                Some(interrupt) => Console {
                    machine: Machine {
                        memory: acknowledged(stepped.memory, interrupt),
                        ..stepped
                    }.interrupted(interrupt.rst_addr()),
                    ime: false,
                    cycle,
                },
                None => Console {
                    machine: if stepped.cpu.state == CPUState::Halt {
                        stepped.with_state(CPUState::Exit)
                    } else {
                        stepped
                    },
                    ime,
                    cycle,
                },
            }
        }
    }

    /// Whether the driver goes on with another round: the processor is
    /// active and the byte at the program counter is an instruction.
    pub open spec fn goes_on(self) -> bool {
        self.machine.runs() && self.machine.fault() is None
    }

    /// How many rounds the driver runs when it may run `limit` at most.
    pub open spec fn rounds(self, limit: nat) -> nat
        decreases limit,
    {
        if limit == 0 || !self.goes_on() {
            0
        } else {
            1 + self.round().rounds((limit - 1) as nat)
        }
    }

    /// The console after the driver has run `limit` rounds at most.
    pub open spec fn run(self, limit: nat) -> Console
        decreases limit,
    {
        if limit == 0 || !self.goes_on() {
            self
        } else {
            self.round().run((limit - 1) as nat)
        }
    }
}

/// The console: processor, interrupt controller and memory under one owner.
#[derive(PartialEq, Eq, Debug, Copy, Clone)]
pub struct GumBoi {
    pub cpu: CPU,
    pub interrupt_controller: InterruptController,
    pub memory: Memory,
    /// Cycles of all the instructions executed so far; the count wraps.
    pub cycle: usize,
}

impl View for GumBoi {
    type V = Console;

    open spec fn view(&self) -> Console {
        Console {
            machine: Machine { cpu: self.cpu, memory: self.memory@ },
            ime: self.interrupt_controller.ime,
            cycle: self.cycle,
        }
    }
}

impl GumBoi {
    /// A console at reset: zeroed registers, an active processor, interrupts
    /// held back, a zeroed bank and the boot sequence in the overlay.
    pub fn new() -> (console: GumBoi)
        ensures
            console.cpu.registers == crate::registers::Registers::zeroed(),
            console.cpu.cycle == 0,
            console.cpu.state == CPUState::Active,
            !console.interrupt_controller.ime,
            console.memory@.wf(),
            console.memory@.bank == Seq::new(0x10000, |i: int| 0u8),
            console.memory@.boot == crate::memory::BOOT_ROM@,
            console.cycle == 0,
    {
        GumBoi {
            cpu: CPU::new(),
            interrupt_controller: InterruptController::new(false),
            memory: Memory::new(),
            cycle: 0,
        }
    }

    /// Loads a cartridge image at address 0. An image of more than 32,768
    /// bytes is refused and the console stays as it was.
    pub fn insert_cartridge(&mut self, cartridge_rom: Vec<u8>) -> (result: Result<(), CartridgeError>)
        ensures
            final(self).cpu == old(self).cpu,
            final(self).interrupt_controller == old(self).interrupt_controller,
            final(self).cycle == old(self).cycle,
            match result {
                Ok(()) => {
                    &&& cartridge_rom.len() <= crate::memory::CARTRIDGE_ROM_SIZE
                    &&& final(self).memory@.boot == old(self).memory@.boot
                    &&& final(self).memory@.bank == crate::memory::bank_with_image(
                        old(self).memory@.bank,
                        cartridge_rom@,
                    )
                },
                Err(error) => {
                    &&& cartridge_rom.len() > crate::memory::CARTRIDGE_ROM_SIZE
                    &&& error == (CartridgeError::TooLarge { size: cartridge_rom.len() })
                    &&& final(self).memory@ == old(self).memory@
                },
            },
    {
        self.memory.load_cartridge(cartridge_rom)
    }

    /// One round: one instruction, then one poll of the interrupt
    /// controller. A byte that is no instruction is returned as an error and nothing
    /// changes; a processor that has exited stays so.
    pub fn step(&mut self) -> (result: Result<(), ExecuteError>)
        ensures
            result == match old(self)@.machine.fault() {
                Some(error) => Err::<(), ExecuteError>(error),
                None => Ok::<(), ExecuteError>(()),
            },
            final(self)@ == old(self)@.round(),
            old(self)@.registers_wf() ==> final(self)@.registers_wf(),
    {
        proof {
            if self@.registers_wf() {
                crate::laws::lemma_flag_invariant(self@, 0, 0);
            }
        }
        match self.cpu.state {
            CPUState::Exit => {
                return Ok(());
            },
            _ => {},
        }
        let active: bool = match self.cpu.state {
            CPUState::Active => true,
            _ => false,
        };
        match self.cpu.execute(&mut self.memory, &mut self.interrupt_controller) {
            Err(error) => {
                return Err(error);
            },
            Ok(()) => {},
        }
        match self.cpu.state {
            CPUState::Halt => {},
            _ => {
                if active {
                    self.cycle = self.cycle.wrapping_add(self.cpu.get_cycles());
                }
            },
        }
        match self.interrupt_controller.execute(&mut self.memory) {
            Some(rst_addr) => self.cpu.rst(&mut self.memory, rst_addr),
            None => match self.cpu.state {
                CPUState::Halt => {
                    self.cpu.state = CPUState::Exit;
                },
                _ => {},
            },
        }
        Ok(())
    }

    /// Runs rounds while the processor is active, `limit` at most. Returns
    /// the number of rounds run, or the byte that is no instruction and
    /// stopped the run.
    pub fn start(&mut self, limit: usize) -> (result: Result<usize, ExecuteError>)
        ensures
            final(self)@ == old(self)@.run(limit as nat),
            result == match final(self)@.machine.fault() {
                Some(error) if old(self)@.rounds(limit as nat) < limit => Err::<usize, ExecuteError>(
                    error,
                ),
                _ => Ok::<usize, ExecuteError>(old(self)@.rounds(limit as nat) as usize),
            },
            old(self)@.registers_wf() ==> final(self)@.registers_wf(),
    {
        proof {
            if self@.registers_wf() {
                crate::laws::lemma_flag_invariant(self@, 0, limit as nat);
            }
        }
        let mut count: usize = 0;
        while count < limit
            invariant
                count <= limit,
                self@.run((limit - count) as nat) == old(self)@.run(limit as nat),
                count + self@.rounds((limit - count) as nat) == old(self)@.rounds(limit as nat),
                old(self)@.registers_wf() ==> old(self)@.run(limit as nat).registers_wf(),
            decreases limit - count,
        {
            match self.cpu.state {
                CPUState::Active => {},
                _ => {
                    return Ok(count);
                },
            }
            let ghost before: Console = self@;
            match self.step() {
                Err(error) => {
                    assert(!before.goes_on());
                    return Err(error);
                },
                Ok(()) => {},
            }
            assert(before.goes_on());
            assert(before.run((limit - count) as nat) == self@.run((limit - count - 1) as nat));
            assert(before.rounds((limit - count) as nat) == 1 + self@.rounds(
                (limit - count - 1) as nat,
            ));
            count += 1;
        }
        Ok(count)
    }

    /// Ends the run: the processor exits, and no round changes anything
    /// from then on.
    pub fn exit(&mut self)
        ensures
            final(self).cpu == (CPU { state: CPUState::Exit, ..old(self).cpu }),
            final(self).interrupt_controller == old(self).interrupt_controller,
            final(self).memory == old(self).memory,
            final(self).cycle == old(self).cycle,
    {
        self.cpu.state = CPUState::Exit;
    }
}

} // verus!
