use vstd::prelude::*;
use crate::bits::{lemma_bit_facts, lemma_div_bits};
use crate::memory::{copy_of, filled, mask_index, masked};
use crate::mmu::mmio::MMIO;

verus! {

/// MBC5: up to 8 MiB of ROM (9-bit bank number) and 128 KiB of RAM in 16 banks.
pub struct MBC5 {
    pub rom: Vec<u8>,
    /// External RAM, banks of 0x2000 bytes one after another.
    pub external_ram: Vec<u8>,
    pub rom_size: usize,
    pub ram_size: u8,
    pub ram_enable: bool,
    pub rom_bank_number: u8,
    pub rom_bank_bit9: u8,
    pub ram_bank_number: u8,
}

impl MBC5 {
    /// ROM bank mapped at $4000-$7FFF.
    pub open spec fn high_bank(&self) -> u16 {
        (self.rom_bank_bit9 as u16) << 8 | self.rom_bank_number as u16
    }

    pub open spec fn ram_index(&self, address: u16) -> int {
        self.ram_bank_number * 0x2000 + (address - 0xA000)
    }

    pub open spec fn read_spec(&self, address: u16) -> u8 {
        if address <= 0x3FFF {
            self.rom@[address as int]
        } else if address <= 0x7FFF {
            self.rom@[masked((self.high_bank() as u32 * 0x4000 + (address - 0x4000)) as u32, self.rom@.len())]
        } else if self.ram_enable {
            self.external_ram@[self.ram_index(address)]
        } else {
            0xFF
        }
    }

    pub open spec fn register_write_spec(self, address: u16, value: u8) -> MBC5 {
        if address <= 0x1FFF {
            // 0x0A enables, any other value disables
            MBC5 { ram_enable: value == 0x0A, ..self }
        } else if address <= 0x2FFF {
            MBC5 { rom_bank_number: value, ..self }
        } else if address <= 0x3FFF {
            MBC5 { rom_bank_bit9: value & 0x1, ..self }
        } else if address <= 0x5FFF {
            MBC5 { ram_bank_number: value & 0x0F, ..self }
        } else {
            self
        }
    }

    pub open spec fn ram_write_spec(&self, address: u16, value: u8) -> Seq<u8> {
        if 0xA000 <= address <= 0xBFFF && self.ram_enable {
            self.external_ram@.update(self.ram_index(address), value)
        } else {
            self.external_ram@
        }
    }

    pub fn new(rom: &[u8], rom_size: usize, ram_size: u8) -> (r: Self)
        ensures
            r.rom@ == rom@,
            r.external_ram@ == Seq::new((ram_size / 8) as nat * 0x2000, |i: int| 0xFFu8),
            r.rom_size == rom_size,
            r.ram_size == ram_size,
            !r.ram_enable,
            r.rom_bank_number == 1,
            r.rom_bank_bit9 == 0,
            r.ram_bank_number == 0,
    {
        MBC5 {
            rom: copy_of(rom),
            external_ram: filled((ram_size / 8) as usize * 0x2000, 0xFF),
            rom_size,
            ram_size,
            ram_enable: false,
            rom_bank_number: 0x01,
            rom_bank_bit9: 0x00,
            ram_bank_number: 0x00,
        }
    }
}

impl MBC5 {
    pub fn can_read(&self, address: u16) -> (r: bool)
        ensures
            r == self.read_ok(address),
    {
        (address <= 0x7FFF || (0xA000 <= address && address <= 0xBFFF)) && (address > 0x3FFF
            || (address as usize) < self.rom.len()) && (!(0x4000 <= address && address <= 0x7FFF)
            || self.rom.len() > 0) && (!(0xA000 <= address && self.ram_enable) || (
        self.ram_bank_number as usize) * 0x2000 + (address as usize - 0xA000)
            < self.external_ram.len())
    }

    pub fn can_write(&self, address: u16, value: u8) -> (r: bool)
        ensures
            r == self.write_ok(address, value),
    {
        !(0xA000 <= address && address <= 0xBFFF && self.ram_enable) || (self.ram_bank_number
            as usize) * 0x2000 + (address as usize - 0xA000) < self.external_ram.len()
    }
}

impl MMIO for MBC5 {
    open spec fn read_ok(&self, address: u16) -> bool {
        &&& (address <= 0x7FFF || 0xA000 <= address <= 0xBFFF)
        &&& address <= 0x3FFF ==> address < self.rom@.len()
        &&& 0x4000 <= address <= 0x7FFF ==> self.rom@.len() > 0
        &&& (0xA000 <= address && self.ram_enable) ==> self.ram_index(address)
            < self.external_ram@.len()
    }

    open spec fn write_ok(&self, address: u16, value: u8) -> bool {
        (0xA000 <= address <= 0xBFFF && self.ram_enable) ==> self.ram_index(address)
            < self.external_ram@.len()
    }

    fn read(&mut self, address: u16) -> (r: u8)
        ensures
            *final(self) == *old(self),
            r == old(self).read_spec(address),
    {
        if address <= 0x3FFF {
            self.rom[address as usize]
        } else if address <= 0x7FFF {
            let rom_bank: u16 = ((self.rom_bank_bit9 as u16) << 8) | (self.rom_bank_number as u16);
            let address: u32 = (rom_bank as u32 * 0x4000) + (address as u32 - 0x4000);
            self.rom[mask_index(address, self.rom.len())]
        } else {
            if self.ram_enable {
                self.external_ram[self.ram_bank_number as usize * 0x2000 + address as usize
                    - 0xA000]
            } else {
                0xFF
            }
        }
    }

    fn write(&mut self, address: u16, value: u8)
        ensures
            final(self).external_ram@ == old(self).ram_write_spec(address, value),
            *final(self) == (MBC5 {
                external_ram: final(self).external_ram,
                ..old(self).register_write_spec(address, value)
            }),
    {
        if address <= 0x1FFF {
            self.ram_enable = value == 0x0A;
        } else if address <= 0x2FFF {
            self.rom_bank_number = value;
        } else if address <= 0x3FFF {
            self.rom_bank_bit9 = value & 0x1;
        } else if address <= 0x5FFF {
            self.ram_bank_number = value & 0x0F;
        } else if address >= 0xA000 && address <= 0xBFFF {
            if self.ram_enable {
                let index: usize = self.ram_bank_number as usize * 0x2000 + address as usize - 0xA000;
                self.external_ram.set(index, value);
            }
        }
    }
}


/// The ROM bank of $4000-$7FFF is 256 times bit 0 of the last write to $3000-$3FFF plus the
/// last write to $2000-$2FFF: after writing `low` and then `high`, a read of $4000 + o gives ROM
/// byte ((high mod 2) * 256 + low) * $4000 + o (taken modulo a power of two not below the ROM
/// size, as the controller does).
pub proof fn law_mbc5_rom_bank(m: MBC5, a1: u16, low: u8, a2: u16, high: u8, o: u16)
    requires
        0x2000 <= a1 <= 0x2FFF,
        0x3000 <= a2 <= 0x3FFF,
        o < 0x4000,
    ensures
        ({
            let n = m.register_write_spec(a1, low).register_write_spec(a2, high);
            n.read_spec((0x4000 + o) as u16) == m.rom@[masked(
                (((high % 2) * 256 + low) * 0x4000 + o) as u32,
                m.rom@.len(),
            )]
        }),
{
    lemma_bit_facts();
    lemma_div_bits();
    let n = m.register_write_spec(a1, low).register_write_spec(a2, high);
    assert(high & 0x1 == high % 2);
    let h = (high & 0x1) as u16;
    let l = low as u16;
    assert((h << 8u16) | l == h * 256 + l);
}
} // verus!
