use vstd::prelude::*;
use crate::memory::{copy_of, filled, mask_index, masked};
use crate::mmu::mmio::MMIO;

verus! {

/// MBC1: up to 2 MiB of ROM and 32 KiB of RAM, with a second banking register that selects
/// either the upper ROM bank bits or the RAM bank.
pub struct MBC1 {
    pub rom: Vec<u8>,
    /// External RAM, banks of 0x2000 bytes one after another.
    pub external_ram: Vec<u8>,
    pub rom_size: usize,
    pub ram_size: u8,
    pub ram_enable: bool,
    pub rom_bank_number: u8,
    pub ram_or_upper_rom: u8,
    pub banking_mode: u8,
}

impl MBC1 {
    /// ROM bank mapped at $0000-$3FFF in banking mode 1 of a large cartridge.
    pub open spec fn zero_bank(&self) -> u8 {
        self.ram_or_upper_rom << 5
    }

    /// ROM bank mapped at $4000-$7FFF.
    pub open spec fn high_bank(&self) -> u8 {
        if self.rom_size < 1024 {
            self.rom_bank_number
        } else {
            (self.ram_or_upper_rom << 5) | self.rom_bank_number
        }
    }

    /// Whether $A000-$BFFF reaches the RAM at all.
    pub open spec fn ram_active(&self) -> bool {
        self.ram_enable && self.ram_size > 0
    }

    /// Offset into the RAM buffer of a read of `address` in $A000-$BFFF.
    pub open spec fn ram_read_index(&self, address: u16) -> int {
        if self.banking_mode == 0 || self.ram_size <= 8 {
            address - 0xA000
        } else {
            self.ram_or_upper_rom * 0x2000 + address - 0xA000
        }
    }

    /// Offset into the RAM buffer of a write to `address` in $A000-$BFFF.
    pub open spec fn ram_write_index(&self, address: u16) -> int {
        if self.banking_mode == 0 {
            address - 0xA000
        } else {
            self.ram_or_upper_rom * 0x2000 + address - 0xA000
        }
    }

    pub open spec fn read_spec(&self, address: u16) -> u8 {
        if address <= 0x3FFF {
            if self.banking_mode == 0 || self.rom_size < 1024 {
                self.rom@[address as int]
            } else {
                self.rom@[masked((self.zero_bank() as u32 * 0x4000 + address) as u32, self.rom@.len())]
            }
        } else if address <= 0x7FFF {
            self.rom@[masked(
                (self.high_bank() as u32 * 0x4000 + (address - 0x4000)) as u32,
                self.rom@.len(),
            )]
        } else if self.ram_active() {
            self.external_ram@[self.ram_read_index(address)]
        } else {
            0xFF
        }
    }

    /// The banking registers after a write (the RAM contents are described separately).
    pub open spec fn register_write_spec(self, address: u16, value: u8) -> MBC1 {
        if address <= 0x1FFF {
            MBC1 { ram_enable: value & 0xF == 0xA, ..self }
        } else if address <= 0x3FFF {
            let rom_bank: u8 = if value & 0x1F == 0 { 1 } else { value & 0x1F };
            let max_banks_bits = self.rom_size / 16;
            MBC1 {
                rom_bank_number: if rom_bank as usize >= max_banks_bits {
                    rom_bank & ((max_banks_bits - 1) as u8)
                } else {
                    rom_bank
                },
                ..self
            }
        } else if address <= 0x5FFF {
            if self.rom_size >= 1024 || self.ram_size >= 32 {
                MBC1 { ram_or_upper_rom: value & 0x3, ..self }
            } else {
                self
            }
        } else if address <= 0x7FFF {
            MBC1 { banking_mode: value & 0x1, ..self }
        } else {
            self
        }
    }

    /// The RAM contents after a write.
    pub open spec fn ram_write_spec(&self, address: u16, value: u8) -> Seq<u8> {
        if 0xA000 <= address && self.ram_active() {
            self.external_ram@.update(self.ram_write_index(address), value)
        } else {
            self.external_ram@
        }
    }

    pub fn new(rom: &[u8], rom_size: usize, ram_size: u8) -> (r: Self)
        ensures
            r.rom@ == rom@,
            r.external_ram@ == Seq::new((ram_size / 8) as nat * 0x2000, |i: int| 0xFFu8),
            r.rom_size == rom_size,
            r.ram_size == ram_size,
            !r.ram_enable,
            r.rom_bank_number == 1,
            r.ram_or_upper_rom == 0,
            r.banking_mode == 0,
    {
        MBC1 {
            rom: copy_of(rom),
            external_ram: filled((ram_size / 8) as usize * 0x2000, 0xFF),
            rom_size,
            ram_size,
            ram_enable: false,
            rom_bank_number: 0x01,
            ram_or_upper_rom: 0x00,
            banking_mode: 0x00,
        }
    }
}

impl MBC1 {
    /// Whether a read of `address` is served (see `read_ok`).
    pub fn can_read(&self, address: u16) -> (r: bool)
        ensures
            r == self.read_ok(address),
    {
        if !(address <= 0x7FFF || (0xA000 <= address && address <= 0xBFFF)) {
            false
        } else if address <= 0x3FFF {
            if self.banking_mode == 0 || self.rom_size < 1024 {
                (address as usize) < self.rom.len()
            } else {
                self.rom.len() > 0
            }
        } else if address <= 0x7FFF {
            self.rom.len() > 0
        } else if self.ram_enable && self.ram_size > 0 {
            let index: usize = if self.banking_mode == 0 || self.ram_size <= 8 {
                address as usize - 0xA000
            } else {
                self.ram_or_upper_rom as usize * 0x2000 + address as usize - 0xA000
            };
            index < self.external_ram.len()
        } else {
            true
        }
    }

    /// Whether a write of `value` to `address` is accepted (see `write_ok`).
    pub fn can_write(&self, address: u16, value: u8) -> (r: bool)
        ensures
            r == self.write_ok(address, value),
    {
        if !(address <= 0x7FFF || (0xA000 <= address && address <= 0xBFFF)) {
            false
        } else if 0x2000 <= address && address <= 0x3FFF && self.rom_size / 16 == 0 {
            false
        } else if 0xA000 <= address && self.ram_enable && self.ram_size > 0 {
            let index: usize = if self.banking_mode == 0 {
                address as usize - 0xA000
            } else {
                self.ram_or_upper_rom as usize * 0x2000 + address as usize - 0xA000
            };
            index < self.external_ram.len()
        } else {
            true
        }
    }
}

impl MMIO for MBC1 {
    open spec fn read_ok(&self, address: u16) -> bool {
        &&& (address <= 0x7FFF || 0xA000 <= address <= 0xBFFF)
        &&& address <= 0x3FFF ==> if self.banking_mode == 0 || self.rom_size < 1024 {
            address < self.rom@.len()
        } else {
            self.rom@.len() > 0
        }
        &&& 0x4000 <= address <= 0x7FFF ==> self.rom@.len() > 0
        &&& (0xA000 <= address && self.ram_active()) ==> self.ram_read_index(address)
            < self.external_ram@.len()
    }

    open spec fn write_ok(&self, address: u16, value: u8) -> bool {
        &&& (address <= 0x7FFF || 0xA000 <= address <= 0xBFFF)
        &&& (0x2000 <= address <= 0x3FFF && self.rom_size / 16 == 0) ==> false
        &&& (0xA000 <= address && self.ram_active()) ==> self.ram_write_index(address)
            < self.external_ram@.len()
    }

    fn read(&mut self, address: u16) -> (r: u8)
        ensures
            *final(self) == *old(self),
            r == old(self).read_spec(address),
    {
        if address <= 0x3FFF {
            if self.banking_mode == 0 || self.rom_size < 1024 {
                self.rom[address as usize]
            } else {
                let rom_bank: u8 = self.ram_or_upper_rom << 5;
                let address: u32 = (rom_bank as u32 * 0x4000) + address as u32;
                self.rom[mask_index(address, self.rom.len())]
            }
        } else if address <= 0x7FFF {
            let rom_bank: u8 = if self.rom_size < 1024 {
                self.rom_bank_number
            } else {
                (self.ram_or_upper_rom << 5) | self.rom_bank_number
            };
            let address: u32 = (rom_bank as u32 * 0x4000) + (address as u32 - 0x4000);
            self.rom[mask_index(address, self.rom.len())]
        } else {
            if self.ram_enable && self.ram_size > 0 {
                if self.banking_mode == 0 || self.ram_size <= 8 {
                    self.external_ram[address as usize - 0xA000]
                } else {
                    self.external_ram[self.ram_or_upper_rom as usize * 0x2000 + address as usize
                        - 0xA000]
                }
            } else {
                0xFF
            }
        }
    }

    fn write(&mut self, address: u16, value: u8)
        ensures
            final(self).external_ram@ == old(self).ram_write_spec(address, value),
            *final(self) == (MBC1 {
                external_ram: final(self).external_ram,
                ..old(self).register_write_spec(address, value)
            }),
    {
        if address <= 0x1FFF {
            self.ram_enable = value & 0xF == 0xA;
        } else if address <= 0x3FFF {
            let rom_bank: u8 = if value & 0x1F == 0 { 1 } else { value & 0x1F };
            let max_banks_bits: usize = self.rom_size / 16;

            // bank numbers higher than the cartridge has are masked
            if (rom_bank as usize) >= max_banks_bits {
                self.rom_bank_number = rom_bank & ((max_banks_bits - 1) as u8);
            } else {
                self.rom_bank_number = rom_bank;
            }
        } else if address <= 0x5FFF {
            if self.rom_size >= 1024 || self.ram_size >= 32 {
                self.ram_or_upper_rom = value & 0x3;
            }
        } else if address <= 0x7FFF {
            self.banking_mode = value & 0x1;
        } else {
            if self.ram_enable && self.ram_size > 0 {
                if self.banking_mode == 0 {
                    self.external_ram.set(address as usize - 0xA000, value);
                } else {
                    let index: usize = self.ram_or_upper_rom as usize * 0x2000 + address as usize
                        - 0xA000;
                    self.external_ram.set(index, value);
                }
            }
        }
    }
}

} // verus!
