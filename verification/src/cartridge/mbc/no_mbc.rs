use vstd::prelude::*;
use crate::memory::copy_of;

verus! {

/// A cartridge without a memory bank controller: 32 KiB of ROM mapped directly.
pub struct NoMBC {
    pub rom: Vec<u8>,
}

impl NoMBC {
    pub open spec fn read_ok(&self, address: u16) -> bool {
        address < 0x8000 ==> address < self.rom@.len()
    }

    pub open spec fn read_spec(&self, address: u16) -> u8 {
        if address < 0x8000 {
            self.rom@[address as int]
        } else {
            0xFF
        }
    }

    pub fn new(rom: &[u8]) -> (r: Self)
        ensures
            r.rom@ == rom@,
    {
        NoMBC { rom: copy_of(rom) }
    }

    pub fn can_read(&self, address: u16) -> (r: bool)
        ensures
            r == self.read_ok(address),
    {
        address >= 0x8000 || (address as usize) < self.rom.len()
    }

    /// ROM below $8000, open bus (0xFF) elsewhere.
    pub fn read(&self, address: u16) -> (r: u8)
        requires
            self.read_ok(address),
        ensures
            r == self.read_spec(address),
    {
        if address < 0x8000 {
            self.rom[address as usize]
        } else {
            0xFF
        }
    }
}

} // verus!
