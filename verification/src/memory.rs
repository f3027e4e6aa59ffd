//! The addressable memory: 64 KiB of bytes behind a 16-bit address, with a
//! 256-byte boot sequence laid over the lowest page while the latch at
//! `0xFF50` reads zero.

use vstd::prelude::*;

verus! {

/// Size of the address space in bytes.
pub const MEMORY_SIZE: usize = 0x10000;

/// Size of the boot sequence in bytes.
pub const BOOT_ROM_SIZE: usize = 0x100;

/// The largest cartridge image that can be loaded, in bytes.
pub const CARTRIDGE_ROM_SIZE: usize = 0x8000;

/// Address of the latch that switches the boot overlay off once it is nonzero.
pub const BOOT_LATCH_ADDR: u16 = 0xFF50;

/// The boot sequence.
pub const BOOT_ROM: [u8; 256] = [
    0x31, 0xFE, 0xFF, 0xAF, 0x21, 0xFF, 0x9F, 0x32, 0xCB, 0x7C, 0x20, 0xFB, 0x21, 0x26, 0xFF, 0x0E,
    0x11, 0x3E, 0x80, 0x32, 0xE2, 0x0C, 0x3E, 0xF3, 0xE2, 0x32, 0x3E, 0x77, 0x77, 0x3E, 0xFC, 0xE0,
    0x47, 0x11, 0x04, 0x01, 0x21, 0x10, 0x80, 0x1A, 0xCD, 0x95, 0x00, 0xCD, 0x96, 0x00, 0x13, 0x7B,
    0xFE, 0x34, 0x20, 0xF3, 0x11, 0xD8, 0x00, 0x06, 0x08, 0x1A, 0x13, 0x22, 0x23, 0x05, 0x20, 0xF9,
    0x3E, 0x19, 0xEA, 0x10, 0x99, 0x21, 0x2F, 0x99, 0x0E, 0x0C, 0x3D, 0x28, 0x08, 0x32, 0x0D, 0x20,
    0xF9, 0x2E, 0x0F, 0x18, 0xF3, 0x67, 0x3E, 0x64, 0x57, 0xE0, 0x42, 0x3E, 0x91, 0xE0, 0x40, 0x04,
    0x1E, 0x02, 0x0E, 0x0C, 0xF0, 0x44, 0xFE, 0x90, 0x20, 0xFA, 0x0D, 0x20, 0xF7, 0x1D, 0x20, 0xF2,
    0x0E, 0x13, 0x24, 0x7C, 0x1E, 0x83, 0xFE, 0x62, 0x28, 0x06, 0x1E, 0xC1, 0xFE, 0x64, 0x20, 0x06,
    0x7B, 0xE2, 0x0C, 0x3E, 0x87, 0xE2, 0xF0, 0x42, 0x90, 0xE0, 0x42, 0x15, 0x20, 0xD2, 0x05, 0x20,
    0x4F, 0x16, 0x20, 0x18, 0xCB, 0x4F, 0x06, 0x04, 0xC5, 0xCB, 0x11, 0x17, 0xC1, 0xCB, 0x11, 0x17,
    0x05, 0x20, 0xF5, 0x22, 0x23, 0x22, 0x23, 0xC9, 0xCE, 0xED, 0x66, 0x66, 0xCC, 0x0D, 0x00, 0x0B,
    0x03, 0x73, 0x00, 0x83, 0x00, 0x0C, 0x00, 0x0D, 0x00, 0x08, 0x11, 0x1F, 0x88, 0x89, 0x00, 0x0E,
    0xDC, 0xCC, 0x6E, 0xE6, 0xDD, 0xDD, 0xD9, 0x99, 0xBB, 0xBB, 0x67, 0x63, 0x6E, 0x0E, 0xEC, 0xCC,
    0xDD, 0xDC, 0x99, 0x9F, 0xBB, 0xB9, 0x33, 0x3E, 0x3C, 0x42, 0xB9, 0xA5, 0xB9, 0xA5, 0x42, 0x3C,
    0x21, 0x04, 0x01, 0x11, 0xA8, 0x00, 0x1A, 0x13, 0xBE, 0x20, 0xFE, 0x23, 0x7D, 0xFE, 0x34, 0x20,
    0xF5, 0x06, 0x19, 0x78, 0x86, 0x23, 0x05, 0x20, 0xFB, 0x86, 0x20, 0xFE, 0x3E, 0x01, 0xE0, 0x50,
];

/// What a memory holds: the 65,536 bytes of the bank and the 256 bytes of the
/// boot overlay.
pub struct MemoryState {
    pub bank: Seq<u8>,
    pub boot: Seq<u8>,
}

impl MemoryState {
    /// Both parts have their fixed sizes.
    pub open spec fn wf(&self) -> bool {
        self.bank.len() == 0x10000 && self.boot.len() == 0x100
    }

    /// Whether an access to `addr` goes to the boot overlay: the address lies
    /// in the lowest page and the latch reads zero.
    pub open spec fn overlaid(&self, addr: u16) -> bool {
        addr <= 0x00ff && self.bank[0xff50] == 0
    }

    /// The byte that a read of `addr` gives.
    pub open spec fn read(&self, addr: u16) -> u8 {
        if self.overlaid(addr) {
            self.boot[addr as int]
        } else {
            self.bank[addr as int]
        }
    }

    /// The memory after a write of `value` to `addr`.
    pub open spec fn write(&self, addr: u16, value: u8) -> MemoryState {
        if self.overlaid(addr) {
            MemoryState { boot: self.boot.update(addr as int, value), ..*self }
        } else {
            MemoryState { bank: self.bank.update(addr as int, value), ..*self }
        }
    }
}

/// A byte written is the byte read back. A write leaves every other address
/// reading as before, but for a write to the latch, which changes what the
/// lowest page reads.
pub proof fn lemma_write_then_read(memory: MemoryState, addr: u16, value: u8, other: u16)
    requires
        memory.wf(),
    ensures
        memory.write(addr, value).wf(),
        memory.write(addr, value).read(addr) == value,
        other != addr && (addr != BOOT_LATCH_ADDR || other > 0x00ff) ==> memory.write(
            addr,
            value,
        ).read(other) == memory.read(other),
{
}

/// Why a cartridge image was not loaded.
#[derive(Debug, PartialEq, Eq, Clone, Copy)]
pub enum CartridgeError {
    /// The image holds more than 32,768 bytes; `size` is its length.
    TooLarge { size: usize },
}

/// The bank after an image was copied to its start: the image, then the rest
/// of the old bank.
pub open spec fn bank_with_image(bank: Seq<u8>, image: Seq<u8>) -> Seq<u8> {
    image + bank.subrange(image.len() as int, bank.len() as int)
}

/// The addressable memory.
#[derive(Debug, PartialEq, Eq, Clone, Copy)]
pub struct Memory {
    bank: [u8; 65536],
    boot_rom: [u8; 256],
}

impl View for Memory {
    type V = MemoryState;

    closed spec fn view(&self) -> MemoryState {
        MemoryState { bank: self.bank@, boot: self.boot_rom@ }
    }
}

impl Memory {
    /// A memory with a zeroed bank and the boot sequence in the overlay.
    pub fn new() -> (memory: Memory)
        ensures
            memory@.wf(),
            memory@.bank == Seq::new(0x10000, |i: int| 0u8),
            memory@.boot == BOOT_ROM@,
    {
        let memory = Memory { bank: [0u8; 65536], boot_rom: BOOT_ROM };
        assert(memory@.bank =~= Seq::new(0x10000, |i: int| 0u8));
        memory
    }

    /// The two parts of any memory have their fixed sizes.
    pub proof fn lemma_view_wf(&self)
        ensures
            self@.wf(),
    {
    }

    pub fn get_addr(&self, addr: u16) -> (value: u8)
        ensures
            value == self@.read(addr),
    {
        if addr > 0x00ff {
            self.bank[addr as usize]
        } else {
            match self.bank[0xff50] {
                0x0 => self.boot_rom[addr as usize],
                _ => self.bank[addr as usize],
            }
        }
    }

    pub fn set_addr(&mut self, addr: u16, val: u8)
        ensures
            final(self)@ == old(self)@.write(addr, val),
    {
        if addr > 0x00ff {
            self.bank[addr as usize] = val;
        } else {
            match self.bank[0xff50] {
                0x0 => self.boot_rom[addr as usize] = val,
                _ => self.bank[addr as usize] = val,
            }
        }
    }
}

impl Memory {
    /// Copies a cartridge image into the bank from address 0 on. An image of
    /// more than 32,768 bytes is refused and the memory stays as it was. The
    /// copy goes to the bank itself, under the boot overlay.
    pub fn load_cartridge(&mut self, cartridge_rom: Vec<u8>) -> (result: Result<(), CartridgeError>)
        ensures
            final(self)@.wf(),
            match result {
                Ok(()) => {
                    &&& cartridge_rom.len() <= CARTRIDGE_ROM_SIZE
                    &&& final(self)@.boot == old(self)@.boot
                    &&& final(self)@.bank == bank_with_image(old(self)@.bank, cartridge_rom@)
                },
                Err(error) => {
                    &&& cartridge_rom.len() > CARTRIDGE_ROM_SIZE
                    &&& error == (CartridgeError::TooLarge { size: cartridge_rom.len() })
                    &&& final(self)@ == old(self)@
                },
            },
    {
        let size: usize = cartridge_rom.len();
        if size > CARTRIDGE_ROM_SIZE {
            return Err(CartridgeError::TooLarge { size });
        }
        let mut index: usize = 0;
        assert(self@.bank =~= bank_with_image(old(self)@.bank, cartridge_rom@.subrange(0, 0)));
        while index < size
            invariant
                index <= size,
                size == cartridge_rom.len(),
                size <= CARTRIDGE_ROM_SIZE,
                self@.boot == old(self)@.boot,
                self@.bank == bank_with_image(
                    old(self)@.bank,
                    cartridge_rom@.subrange(0, index as int),
                ),
            decreases size - index,
        {
            self.bank[index] = cartridge_rom[index];
            index += 1;
            assert(self@.bank =~= bank_with_image(
                old(self)@.bank,
                cartridge_rom@.subrange(0, index as int),
            ));
        }
        assert(cartridge_rom@.subrange(0, size as int) =~= cartridge_rom@);
        Ok(())
    }
}

} // verus!
