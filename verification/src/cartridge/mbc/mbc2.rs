use vstd::prelude::*;
use crate::memory::{copy_of, filled, mask_index, masked};
use crate::mmu::mmio::MMIO;

verus! {

/// MBC2: up to 256 KiB of ROM and 512 half-bytes of built-in RAM.
pub struct MBC2 {
    pub rom: Vec<u8>,
    /// 512 cells of which only the lower nibble is used.
    pub built_in_ram: Vec<u8>,
    pub rom_bank: u8,
    pub ram_enable: bool,
}

impl MBC2 {
    pub open spec fn wf(&self) -> bool {
        self.built_in_ram@.len() == 512
    }

    /// Cell of the built-in RAM that `address` in $A000-$BFFF reaches (the RAM is mirrored).
    pub open spec fn ram_cell(address: u16) -> int {
        if address <= 0xA1FF {
            address - 0xA000
        } else {
            (address % 0x200) as int
        }
    }

    pub open spec fn read_spec(&self, address: u16) -> u8 {
        if address <= 0x3FFF {
            self.rom@[address as int]
        } else if address <= 0x7FFF {
            self.rom@[masked((self.rom_bank as u32 * 0x4000 + (address - 0x4000)) as u32, self.rom@.len())]
        } else if self.ram_enable {
            // upper 4 bits are open bus
            0xF0 | (self.built_in_ram@[Self::ram_cell(address)] & 0xF)
        } else {
            0xFF
        }
    }

    pub open spec fn register_write_spec(self, address: u16, value: u8) -> MBC2 {
        if address <= 0x3FFF {
            if address & 0x100 == 0 {
                MBC2 { ram_enable: value & 0xF == 0xA, ..self }
            } else {
                MBC2 { rom_bank: if value & 0xF == 0 { 1 } else { value & 0xF }, ..self }
            }
        } else {
            self
        }
    }

    pub open spec fn ram_write_spec(&self, address: u16, value: u8) -> Seq<u8> {
        if 0xA000 <= address <= 0xBFFF && self.ram_enable {
            self.built_in_ram@.update(Self::ram_cell(address), value & 0xF)
        } else {
            self.built_in_ram@
        }
    }

    pub fn new(rom: &[u8]) -> (r: Self)
        ensures
            r.rom@ == rom@,
            r.built_in_ram@ == Seq::new(512, |i: int| 0xFFu8),
            r.rom_bank == 1,
            !r.ram_enable,
    {
        MBC2 { rom: copy_of(rom), built_in_ram: filled(512, 0xFF), rom_bank: 0x01, ram_enable: false }
    }
}

impl MBC2 {
    pub fn can_read(&self, address: u16) -> (r: bool)
        ensures
            r == self.read_ok(address),
    {
        self.built_in_ram.len() == 512 && (address <= 0x7FFF || (0xA000 <= address && address
            <= 0xBFFF)) && (address > 0x3FFF || (address as usize) < self.rom.len()) && (!(0x4000
            <= address && address <= 0x7FFF) || self.rom.len() > 0)
    }

    pub fn can_write(&self, address: u16, value: u8) -> (r: bool)
        ensures
            r == self.write_ok(address, value),
    {
        self.built_in_ram.len() == 512
    }
}

impl MMIO for MBC2 {
    open spec fn read_ok(&self, address: u16) -> bool {
        &&& self.wf()
        &&& (address <= 0x7FFF || 0xA000 <= address <= 0xBFFF)
        &&& address <= 0x3FFF ==> address < self.rom@.len()
        &&& 0x4000 <= address <= 0x7FFF ==> self.rom@.len() > 0
    }

    open spec fn write_ok(&self, address: u16, value: u8) -> bool {
        self.wf()
    }

    fn read(&mut self, address: u16) -> (r: u8)
        ensures
            *final(self) == *old(self),
            r == old(self).read_spec(address),
    {
        if address <= 0x3FFF {
            self.rom[address as usize]
        } else if address <= 0x7FFF {
            let address: u32 = (self.rom_bank as u32 * 0x4000) + (address as u32 - 0x4000);
            self.rom[mask_index(address, self.rom.len())]
        } else if address <= 0xA1FF {
            if self.ram_enable {
                0xF0 | (self.built_in_ram[(address - 0xA000) as usize] & 0xF)
            } else {
                0xFF
            }
        } else {
            if self.ram_enable {
                0xF0 | (self.built_in_ram[(address % 0x200) as usize] & 0xF)
            } else {
                0xFF
            }
        }
    }

    fn write(&mut self, address: u16, value: u8)
        ensures
            final(self).built_in_ram@ == old(self).ram_write_spec(address, value),
            *final(self) == (MBC2 {
                built_in_ram: final(self).built_in_ram,
                ..old(self).register_write_spec(address, value)
            }),
            final(self).wf(),
    {
        if address <= 0x3FFF {
            let bit8: u16 = (address & 0x100) >> 8;
            if bit8 == 0 {
                self.ram_enable = (value & 0xF) == 0xA;
            } else {
                let rom_bank: u8 = value & 0xF;
                self.rom_bank = if rom_bank == 0 { 1 } else { rom_bank };
            }
            assert(bit8 == 0 <==> address & 0x100 == 0) by (bit_vector)
                requires
                    bit8 == (address & 0x100) >> 8,
            ;
        } else if 0xA000 <= address && address <= 0xA1FF {
            if self.ram_enable {
                self.built_in_ram.set((address - 0xA000) as usize, value & 0xF);
            }
        } else if 0xA200 <= address && address <= 0xBFFF {
            if self.ram_enable {
                self.built_in_ram.set((address % 0x200) as usize, value & 0xF);
            }
        }
    }
}

} // verus!
