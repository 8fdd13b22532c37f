use vstd::prelude::*;
use crate::cpu::registers::{join_bytes, pair};
use crate::mmu::mmio::MMIO;

verus! {

/// CGB VRAM DMA registers HDMA1-HDMA5.
#[derive(Clone, Copy)]
pub struct Hdma {
    /// HDMA source (high, low)
    pub hdma1: u8,
    pub hdma2: u8,
    /// HDMA dest (high, low)
    pub hdma3: u8,
    pub hdma4: u8,
    /// VRAM DMA length/mode/start
    pub hdma5: u8,
    pub halted: bool,
    /// An H-Blank transfer has been started and not stopped.
    pub hdma_in_progress: bool,
}

impl Hdma {
    pub open spec fn source_spec(self) -> u16 {
        pair(self.hdma1, self.hdma2)
    }

    pub open spec fn dest_spec(self) -> u16 {
        pair(self.hdma3, self.hdma4)
    }

    pub open spec fn length_spec(self) -> u16 {
        ((self.hdma5 % 128 + 1) * 0x10) as u16
    }

    pub open spec fn write_spec(self, address: u16, value: u8) -> Hdma {
        if address == 0xFF51 {
            Hdma { hdma1: value, ..self }
        } else if address == 0xFF52 {
            Hdma { hdma2: value & 0xF0, ..self }
        } else if address == 0xFF53 {
            Hdma { hdma3: value & 0x1F, ..self }
        } else if address == 0xFF54 {
            Hdma { hdma4: value & 0xF0, ..self }
        } else if address == 0xFF55 {
            Hdma { hdma5: value, ..self }
        } else {
            self
        }
    }

    pub fn default() -> (r: Self)
        ensures
            r == (Hdma {
                hdma1: 0xFF,
                hdma2: 0xFF,
                hdma3: 0xFF,
                hdma4: 0xFF,
                hdma5: 0xFF,
                halted: false,
                hdma_in_progress: false,
            }),
    {
        Hdma {
            hdma1: 0xFF,
            hdma2: 0xFF,
            hdma3: 0xFF,
            hdma4: 0xFF,
            hdma5: 0xFF,
            halted: false,
            hdma_in_progress: false,
        }
    }

    /// General purpose DMA is selected when bit 7 of HDMA5 is clear.
    pub fn is_gdma(&self) -> (r: bool)
        ensures
            r == (self.hdma5 < 128),
    {
        self.hdma5 < 128
    }

    pub fn source(&self) -> (r: u16)
        ensures
            r == self.source_spec(),
    {
        join_bytes(self.hdma1, self.hdma2)
    }

    pub fn dest(&self) -> (r: u16)
        ensures
            r == self.dest_spec(),
    {
        join_bytes(self.hdma3, self.hdma4)
    }

    /// Number of bytes to transfer: (lower 7 bits of HDMA5 + 1) blocks of 16 bytes.
    pub fn length(&self) -> (r: u16)
        ensures
            r == self.length_spec(),
    {
        ((self.hdma5 % 128) as u16 + 1) * 0x10
    }

    pub fn complete_transfer(&mut self)
        ensures
            *final(self) == (Hdma { halted: false, hdma5: 0xFF, ..*old(self) }),
    {
        self.halted = false;
        self.hdma5 = 0xFF;
    }

    /// Stops a running H-Blank transfer; HDMA5 then reads with bit 7 set.
    pub fn terminate_transfer(&mut self)
        ensures
            *final(self) == (Hdma { hdma_in_progress: false, hdma5: old(self).hdma5 | 0x80, ..*old(self) }),
    {
        self.hdma_in_progress = false;
        self.hdma5 = self.hdma5 | 0x80;
    }
}

impl MMIO for Hdma {
    open spec fn read_ok(&self, address: u16) -> bool {
        0xFF51 <= address <= 0xFF55
    }

    open spec fn write_ok(&self, address: u16, value: u8) -> bool {
        0xFF51 <= address <= 0xFF55
    }

    fn read(&mut self, address: u16) -> (r: u8)
        ensures
            *final(self) == *old(self),
            r == if address == 0xFF51 {
                old(self).hdma1
            } else if address == 0xFF52 {
                old(self).hdma2
            } else if address == 0xFF53 {
                old(self).hdma3
            } else if address == 0xFF54 {
                old(self).hdma4
            } else {
                old(self).hdma5
            },
    {
        match address {
            0xFF51 => self.hdma1,
            0xFF52 => self.hdma2,
            0xFF53 => self.hdma3,
            0xFF54 => self.hdma4,
            _ => self.hdma5,
        }
    }

    fn write(&mut self, address: u16, value: u8)
        ensures
            *final(self) == old(self).write_spec(address, value),
    {
        match address {
            0xFF51 => self.hdma1 = value,
            0xFF52 => self.hdma2 = value & 0xF0,
            0xFF53 => self.hdma3 = value & 0x1F,
            0xFF54 => self.hdma4 = value & 0xF0,
            0xFF55 => self.hdma5 = value,
            _ => {},
        }
    }
}

/// The source and destination of a VRAM DMA are 16-byte aligned after they are written,
/// and the destination stays inside the 8 KiB of VRAM.
pub proof fn law_hdma_alignment(h: Hdma, v1: u8, v2: u8, v3: u8, v4: u8)
    ensures
        ({
            let h2 = h.write_spec(0xFF51, v1).write_spec(0xFF52, v2).write_spec(0xFF53, v3).write_spec(
                0xFF54,
                v4,
            );
            &&& h2.source_spec() % 16 == 0
            &&& h2.dest_spec() % 16 == 0
            &&& h2.dest_spec() < 0x2000
        }),
{
    assert((v2 & 0xF0u8) % 16 == 0 && (v4 & 0xF0u8) % 16 == 0 && (v3 & 0x1Fu8) < 0x20) by (bit_vector);
}

} // verus!
