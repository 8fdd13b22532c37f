use vstd::prelude::*;
use crate::bits::lemma_bit_facts;
use crate::memory::{copy_of, filled};
use crate::mmu::mmio::MMIO;

verus! {

/// MBC3: up to 2 MiB of ROM, 32 KiB of RAM in four banks, and real time clock registers.
pub struct MBC3 {
    pub rom: Vec<u8>,
    /// External RAM, four banks of 0x2000 bytes one after another.
    pub external_ram: Vec<u8>,
    pub rtc: RealTimeClock,
    pub ram_timer_enable: bool,
    pub rom_bank_number: u8,
    pub ram_bank_rtc: u8,
    pub latch_data: u8,
}

/// The clock registers of the MBC3, selected as "RAM banks" $08-$0C. The clock does not run.
#[derive(Clone, Copy, PartialEq, Eq, Structural)]
pub struct RealTimeClock {
    pub seconds: u8,
    pub minutes: u8,
    pub hours: u8,
    pub dl: u8,
    pub dh: u8,
}

impl RealTimeClock {
    pub open spec fn read_spec(&self, address: u16) -> u8 {
        if address == 0x08 {
            self.seconds
        } else if address == 0x09 {
            self.minutes
        } else if address == 0x0A {
            self.hours
        } else if address == 0x0B {
            self.dl
        } else {
            self.dh
        }
    }

    pub open spec fn write_spec(self, address: u16, value: u8) -> RealTimeClock {
        if address == 0x08 {
            RealTimeClock { seconds: value & 0x3B, ..self }
        } else if address == 0x09 {
            RealTimeClock { minutes: value & 0x3B, ..self }
        } else if address == 0x0A {
            RealTimeClock { hours: value & 0x17, ..self }
        } else if address == 0x0B {
            RealTimeClock { dl: value, ..self }
        } else {
            RealTimeClock { dh: value, ..self }
        }
    }

    pub fn default() -> (r: Self)
        ensures
            r == (RealTimeClock { seconds: 0, minutes: 0, hours: 0, dl: 0, dh: 0 }),
    {
        RealTimeClock { seconds: 0, minutes: 0, hours: 0, dl: 0, dh: 0 }
    }
}

impl MMIO for RealTimeClock {
    open spec fn read_ok(&self, address: u16) -> bool {
        0x08 <= address <= 0x0C
    }

    open spec fn write_ok(&self, address: u16, value: u8) -> bool {
        0x08 <= address <= 0x0C
    }

    fn read(&mut self, address: u16) -> (r: u8)
        ensures
            *final(self) == *old(self),
            r == old(self).read_spec(address),
    {
        // no masking on read as writes are masked already
        match address {
            0x08 => self.seconds,
            0x09 => self.minutes,
            0x0A => self.hours,
            0x0B => self.dl,
            _ => self.dh,
        }
    }

    fn write(&mut self, address: u16, value: u8)
        ensures
            *final(self) == old(self).write_spec(address, value),
    {
        match address {
            0x08 => self.seconds = value & 0x3B,
            0x09 => self.minutes = value & 0x3B,
            0x0A => self.hours = value & 0x17,
            0x0B => self.dl = value,
            _ => self.dh = value,
        }
    }
}

impl MBC3 {
    pub open spec fn wf(&self) -> bool {
        self.external_ram@.len() == 4 * 0x2000
    }

    /// Byte of the ROM that `address` in $4000-$7FFF reaches.
    pub open spec fn high_rom_index(&self, address: u16) -> int {
        self.rom_bank_number * 0x4000 + (address - 0x4000)
    }

    /// Byte of the RAM that `address` in $A000-$BFFF reaches while a RAM bank is selected.
    pub open spec fn ram_index(&self, address: u16) -> int {
        (self.ram_bank_rtc & 0x03) * 0x2000 + (address - 0xA000)
    }

    pub open spec fn rtc_selected(&self) -> bool {
        0x08 <= self.ram_bank_rtc <= 0x0C
    }

    pub open spec fn read_spec(&self, address: u16) -> u8 {
        if address <= 0x3FFF {
            self.rom@[address as int]
        } else if address <= 0x7FFF {
            self.rom@[self.high_rom_index(address)]
        } else if self.ram_timer_enable {
            if self.ram_bank_rtc <= 0x03 {
                self.external_ram@[self.ram_index(address)]
            } else if self.rtc_selected() {
                self.rtc.read_spec(self.ram_bank_rtc as u16)
            } else {
                0xFF
            }
        } else {
            0xFF
        }
    }

    pub open spec fn register_write_spec(self, address: u16, value: u8) -> MBC3 {
        if address <= 0x1FFF {
            MBC3 { ram_timer_enable: value == 0x0A, ..self }
        } else if address <= 0x3FFF {
            MBC3 { rom_bank_number: value & 0x7F, ..self }
        } else if address <= 0x5FFF {
            // 0x00 - 0x03 select RAM, 0x08 - 0x0C the clock
            MBC3 { ram_bank_rtc: value, ..self }
        } else if 0xA000 <= address <= 0xBFFF && self.ram_timer_enable && self.ram_bank_rtc > 0x03
            && self.rtc_selected() {
            MBC3 { rtc: self.rtc.write_spec(self.ram_bank_rtc as u16, value), ..self }
        } else {
            self
        }
    }

    pub open spec fn ram_write_spec(&self, address: u16, value: u8) -> Seq<u8> {
        if 0xA000 <= address <= 0xBFFF && self.ram_timer_enable && self.ram_bank_rtc <= 0x03 {
            self.external_ram@.update(self.ram_index(address), value)
        } else {
            self.external_ram@
        }
    }

    pub fn new(rom: &[u8]) -> (r: Self)
        ensures
            r.rom@ == rom@,
            r.external_ram@ == Seq::new(4 * 0x2000, |i: int| 0xFFu8),
            r.rtc == (RealTimeClock { seconds: 0, minutes: 0, hours: 0, dl: 0, dh: 0 }),
            !r.ram_timer_enable,
            r.rom_bank_number == 1,
            r.ram_bank_rtc == 0,
            r.latch_data == 0,
    {
        MBC3 {
            rom: copy_of(rom),
            external_ram: filled(4 * 0x2000, 0xFF),
            rtc: RealTimeClock::default(),
            ram_timer_enable: false,
            rom_bank_number: 0x01,
            ram_bank_rtc: 0x00,
            latch_data: 0x00,
        }
    }
}

impl MBC3 {
    pub fn can_read(&self, address: u16) -> (r: bool)
        ensures
            r == self.read_ok(address),
    {
        self.external_ram.len() == 4 * 0x2000 && (address <= 0x7FFF || (0xA000 <= address
            && address <= 0xBFFF)) && (address > 0x3FFF || (address as usize) < self.rom.len())
            && (!(0x4000 <= address && address <= 0x7FFF) || (self.rom_bank_number as usize)
            * 0x4000 + (address as usize - 0x4000) < self.rom.len())
    }

    pub fn can_write(&self, address: u16, value: u8) -> (r: bool)
        ensures
            r == self.write_ok(address, value),
    {
        self.external_ram.len() == 4 * 0x2000
    }
}

impl MMIO for MBC3 {
    open spec fn read_ok(&self, address: u16) -> bool {
        &&& self.wf()
        &&& (address <= 0x7FFF || 0xA000 <= address <= 0xBFFF)
        &&& address <= 0x3FFF ==> address < self.rom@.len()
        &&& 0x4000 <= address <= 0x7FFF ==> self.high_rom_index(address) < self.rom@.len()
    }

    open spec fn write_ok(&self, address: u16, value: u8) -> bool {
        self.wf()
    }

    fn read(&mut self, address: u16) -> (r: u8)
        ensures
            *final(self) == *old(self),
            r == old(self).read_spec(address),
    {
        if address <= 0x3FFF {
            self.rom[address as usize]
        } else if address <= 0x7FFF {
            let address: u32 = (self.rom_bank_number as u32) * 0x4000 + (address as u32 - 0x4000);
            self.rom[address as usize]
        } else {
            if self.ram_timer_enable {
                if self.ram_bank_rtc <= 0x03 {
                    let bank: u8 = self.ram_bank_rtc;
                    assert(bank & 0x03 <= 3) by (bit_vector);
                    self.external_ram[(self.ram_bank_rtc & 0x03) as usize * 0x2000 + (address
                        - 0xA000) as usize]
                } else if self.ram_bank_rtc >= 0x08 && self.ram_bank_rtc <= 0x0C {
                    self.rtc.read(self.ram_bank_rtc as u16)
                } else {
                    0xFF
                }
            } else {
                0xFF
            }
        }
    }

    fn write(&mut self, address: u16, value: u8)
        ensures
            final(self).external_ram@ == old(self).ram_write_spec(address, value),
            *final(self) == (MBC3 {
                external_ram: final(self).external_ram,
                ..old(self).register_write_spec(address, value)
            }),
            final(self).wf(),
    {
        if address <= 0x1FFF {
            self.ram_timer_enable = value == 0x0A;
        } else if address <= 0x3FFF {
            self.rom_bank_number = value & 0x7F;
        } else if address <= 0x5FFF {
            self.ram_bank_rtc = value;
        } else if address <= 0x7FFF {
            // latching the clock is not supported
        } else if address >= 0xA000 && address <= 0xBFFF {
            if self.ram_timer_enable {
                if self.ram_bank_rtc <= 0x03 {
                    let bank: u8 = self.ram_bank_rtc;
                    assert(bank & 0x03 <= 3) by (bit_vector);
                    let index: usize = (self.ram_bank_rtc & 0x03) as usize * 0x2000 + (address
                        - 0xA000) as usize;
                    self.external_ram.set(index, value);
                } else {
                    if self.ram_bank_rtc >= 0x08 && self.ram_bank_rtc <= 0x0C {
                        self.rtc.write(self.ram_bank_rtc as u16, value);
                    }
                }
            }
        }
    }
}


/// Writing $2000-$3FFF selects the ROM bank of $4000-$7FFF with all seven low bits of the
/// value: a read of $4000 + o afterwards gives ROM byte (value mod 128) * $4000 + o.
pub proof fn law_mbc3_rom_bank(m: MBC3, address: u16, value: u8, o: u16)
    requires
        0x2000 <= address <= 0x3FFF,
        o < 0x4000,
    ensures
        m.register_write_spec(address, value).read_spec((0x4000 + o) as u16) == m.rom@[(value % 128)
            * 0x4000 + o],
{
    lemma_bit_facts();
    assert(value & 0x7F == value % 128);
}

} // verus!
