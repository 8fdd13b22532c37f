use vstd::prelude::*;

verus! {

/// The register file of the Sharp SM83 core.
///
/// `F` holds the flags in its upper nibble: Z (bit 7), N (bit 6), H (bit 5), C (bit 4).
#[allow(non_snake_case)]
pub struct Registers {
    pub A: u8,
    pub F: u8,
    pub B: u8,
    pub C: u8,
    pub D: u8,
    pub E: u8,
    pub H: u8,
    pub L: u8,
    pub SP: u16,
    pub PC: u16,
}

#[derive(Debug, Clone, Copy, PartialEq, Eq, Structural)]
pub enum Flag {
    Zero,
    Substraction,
    HalfCarry,
    Carry,
}

#[derive(Debug, Clone, Copy, PartialEq, Eq, Structural)]
pub enum Regs {
    AF,
    BC,
    DE,
    HL,
    SP,
}

/// Bit mask of a flag inside `F`.
pub open spec fn flag_mask(flag: Flag) -> u8 {
    match flag {
        Flag::Zero => 0x80u8,
        Flag::Substraction => 0x40u8,
        Flag::HalfCarry => 0x20u8,
        Flag::Carry => 0x10u8,
    }
}

/// Whether `flag` is set in the flag byte `f`.
pub open spec fn flag_of(f: u8, flag: Flag) -> bool {
    f & flag_mask(flag) != 0
}

/// The flag byte `f` with the bit of `flag` set (`bit`) or cleared.
pub open spec fn with_flag(f: u8, flag: Flag, bit: bool) -> u8 {
    if bit { f | flag_mask(flag) } else { f & !flag_mask(flag) }
}

/// A flag reads back as it was set, and setting it leaves the other flags as they were.
pub proof fn law_set_flag_then_get(f: u8, flag: Flag, other: Flag, bit: bool)
    ensures
        flag_of(with_flag(f, flag, bit), flag) == bit,
        other != flag ==> flag_of(with_flag(f, flag, bit), other) == flag_of(f, other),
{
    let m = flag_mask(flag);
    let m2 = flag_mask(other);
    assert(m == 0x80 || m == 0x40 || m == 0x20 || m == 0x10);
    assert(m2 == 0x80 || m2 == 0x40 || m2 == 0x20 || m2 == 0x10);
    assert((f | m) & m != 0 && (f & !m) & m == 0) by (bit_vector)
        requires
            m == 0x80 || m == 0x40 || m == 0x20 || m == 0x10,
    ;
    if other != flag {
        assert(m != m2);
        assert(((f | m) & m2 != 0) == (f & m2 != 0) && ((f & !m) & m2 != 0) == (f & m2 != 0))
            by (bit_vector)
            requires
                m == 0x80 || m == 0x40 || m == 0x20 || m == 0x10,
                m2 == 0x80 || m2 == 0x40 || m2 == 0x20 || m2 == 0x10,
                m != m2,
        ;
    }
}

/// The 16-bit value of the register pair `hi:lo`.
pub open spec fn pair(hi: u8, lo: u8) -> u16 {
    (hi as int * 256 + lo as int) as u16
}

/// High byte of a 16-bit value.
pub open spec fn hi_byte(v: u16) -> u8 {
    (v as int / 256) as u8
}

/// Low byte of a 16-bit value.
pub open spec fn lo_byte(v: u16) -> u8 {
    (v as int % 256) as u8
}

/// Flag byte after booting a DMG: Z set; H and C set too unless the header checksum is 0.
pub open spec fn boot_flags(header_checksum: u8) -> u8 {
    if header_checksum == 0 { 0x80u8 } else { 0xB0u8 }
}


/// The flag byte `f` with Z, N, H and C replaced and the lower nibble kept.
pub open spec fn flags_byte(f: u8, z: bool, n: bool, h: bool, c: bool) -> u8 {
    (f & 0x0F) | (if z { 0x80u8 } else { 0u8 }) | (if n { 0x40u8 } else { 0u8 }) | (if h {
        0x20u8
    } else {
        0u8
    }) | (if c { 0x10u8 } else { 0u8 })
}

/// Reading back any flag of a flag byte built by `flags_byte` gives the flag that was put in,
/// and the lower nibble is untouched.
pub proof fn law_flags_byte_read_back(f: u8, z: bool, n: bool, h: bool, c: bool)
    ensures
        flag_of(flags_byte(f, z, n, h, c), Flag::Zero) == z,
        flag_of(flags_byte(f, z, n, h, c), Flag::Substraction) == n,
        flag_of(flags_byte(f, z, n, h, c), Flag::HalfCarry) == h,
        flag_of(flags_byte(f, z, n, h, c), Flag::Carry) == c,
        flags_byte(f, z, n, h, c) & 0x0F == f & 0x0F,
{
    let b = flags_byte(f, z, n, h, c);
    assert(b == (f & 0x0F) | (if z { 0x80u8 } else { 0u8 }) | (if n { 0x40u8 } else { 0u8 }) | (if h {
        0x20u8
    } else {
        0u8
    }) | (if c { 0x10u8 } else { 0u8 }));
    assert({
        &&& (b & 0x80 != 0 <==> z)
        &&& (b & 0x40 != 0 <==> n)
        &&& (b & 0x20 != 0 <==> h)
        &&& (b & 0x10 != 0 <==> c)
        &&& b & 0x0F == f & 0x0F
    }) by (bit_vector)
        requires
            b == (f & 0x0F) | (if z { 0x80u8 } else { 0u8 }) | (if n { 0x40u8 } else { 0u8 }) | (if h {
                0x20u8
            } else {
                0u8
            }) | (if c { 0x10u8 } else { 0u8 }),
    ;
}

pub proof fn lemma_pair_bytes(v: u16)
    ensures
        pair(hi_byte(v), lo_byte(v)) == v,
{
}

pub proof fn lemma_pair_split(hi: u8, lo: u8)
    ensures
        hi_byte(pair(hi, lo)) == hi,
        lo_byte(pair(hi, lo)) == lo,
{
}

pub fn join_bytes(hi: u8, lo: u8) -> (r: u16)
    ensures
        r == pair(hi, lo),
{
    let r: u16 = (hi as u16) << 8 | lo as u16;
    assert(r == hi as u16 * 256 + lo as u16) by (bit_vector)
        requires
            r == (hi as u16) << 8 | lo as u16,
    ;
    r
}

pub fn split_bytes(v: u16) -> (r: (u8, u8))
    ensures
        r.0 == hi_byte(v),
        r.1 == lo_byte(v),
{
    ((v / 256) as u8, (v % 256) as u8)
}

impl Registers {
    /// Register values after the DMG boot ROM has run, so that running it is not needed.
    ///
    /// `header_checksum` is `$014D` and decides the Carry and Half-Carry flags.
    pub fn new_dmg(header_checksum: u8) -> (r: Self)
        ensures
            r == (Registers {
                A: 0x01,
                F: boot_flags(header_checksum),
                B: 0x00,
                C: 0x13,
                D: 0x00,
                E: 0xD8,
                H: 0x01,
                L: 0x4D,
                SP: 0xFFFE,
                PC: 0x100,
            }),
    {
        let flag: u8 = if header_checksum == 0x00 {
            0b10000000
        } else {
            0b10110000
        };

        Registers {
            A: 0x01,
            F: flag,
            B: 0x00,
            C: 0x13,
            D: 0x00,
            E: 0xD8,
            H: 0x01,
            L: 0x4D,
            SP: 0xFFFE,
            PC: 0x100,
        }
    }

    /// Register values after the CGB boot ROM has run.
    pub fn new_cgb() -> (r: Self)
        ensures
            r == (Registers {
                A: 0x11,
                F: 0x80,
                B: 0x00,
                C: 0x00,
                D: 0xFF,
                E: 0x56,
                H: 0x00,
                L: 0x0D,
                SP: 0xFFFE,
                PC: 0x100,
            }),
    {
        Registers {
            A: 0x11,
            F: 0x80,
            B: 0x00,
            C: 0x00,
            D: 0xFF,
            E: 0x56,
            H: 0x00,
            L: 0x0D,
            SP: 0xFFFE,
            PC: 0x100,
        }
    }

    pub fn load_header_checksum(&mut self, header_checksum: u8)
        ensures
            *final(self) == (Registers { F: boot_flags(header_checksum), ..*old(self) }),
    {
        let flag: u8 = if header_checksum == 0x00 {
            0b10000000
        } else {
            0b10110000
        };

        self.F = flag;
    }

    pub fn get_af(&self) -> (r: u16)
        ensures
            r == pair(self.A, self.F),
    {
        join_bytes(self.A, self.F)
    }

    pub fn get_bc(&self) -> (r: u16)
        ensures
            r == pair(self.B, self.C),
    {
        join_bytes(self.B, self.C)
    }

    pub fn get_de(&self) -> (r: u16)
        ensures
            r == pair(self.D, self.E),
    {
        join_bytes(self.D, self.E)
    }

    pub fn get_hl(&self) -> (r: u16)
        ensures
            r == pair(self.H, self.L),
    {
        join_bytes(self.H, self.L)
    }

    pub fn set_af(&mut self, value: u16)
        ensures
            *final(self) == (Registers { A: hi_byte(value), F: lo_byte(value), ..*old(self) }),
    {
        let bytes = split_bytes(value);
        self.A = bytes.0;
        self.F = bytes.1;
    }

    pub fn set_bc(&mut self, value: u16)
        ensures
            *final(self) == (Registers { B: hi_byte(value), C: lo_byte(value), ..*old(self) }),
    {
        let bytes = split_bytes(value);
        self.B = bytes.0;
        self.C = bytes.1;
    }

    pub fn set_de(&mut self, value: u16)
        ensures
            *final(self) == (Registers { D: hi_byte(value), E: lo_byte(value), ..*old(self) }),
    {
        let bytes = split_bytes(value);
        self.D = bytes.0;
        self.E = bytes.1;
    }

    pub fn set_hl(&mut self, value: u16)
        ensures
            *final(self) == (Registers { H: hi_byte(value), L: lo_byte(value), ..*old(self) }),
    {
        let bytes = split_bytes(value);
        self.H = bytes.0;
        self.L = bytes.1;
    }

    /// Sets or clears the bit of `flag` in `F`; all other bits stay as they were.
    pub fn set_flag(&mut self, flag: Flag, bit: bool)
        ensures
            *final(self) == (Registers { F: with_flag(old(self).F, flag, bit), ..*old(self) }),
    {
        if bit {
            self.set_flag_bit(flag);
        } else {
            self.unset_flag_bit(flag);
        }
    }

    /// Sets all four flags at once, keeping the lower nibble of `F`.
    pub fn set_flags(&mut self, z: bool, n: bool, h: bool, c: bool)
        ensures
            *final(self) == (Registers { F: flags_byte(old(self).F, z, n, h, c), ..*old(self) }),
    {
        self.F = (self.F & 0x0F) | (if z { 0x80u8 } else { 0u8 }) | (if n { 0x40u8 } else { 0u8 })
            | (if h { 0x20u8 } else { 0u8 }) | (if c { 0x10u8 } else { 0u8 });
    }

    pub fn get_flag(&self, flag: Flag) -> (r: bool)
        ensures
            r == flag_of(self.F, flag),
    {
        match flag {
            Flag::Zero => (self.F & 0x80) != 0,
            Flag::Substraction => (self.F & 0x40) != 0,
            Flag::HalfCarry => (self.F & 0x20) != 0,
            Flag::Carry => (self.F & 0x10) != 0,
        }
    }

    pub fn set_flag_bit(&mut self, flag: Flag)
        ensures
            *final(self) == (Registers { F: old(self).F | flag_mask(flag), ..*old(self) }),
    {
        match flag {
            Flag::Zero => self.F = self.F | 0x80,
            Flag::Substraction => self.F = self.F | 0x40,
            Flag::HalfCarry => self.F = self.F | 0x20,
            Flag::Carry => self.F = self.F | 0x10,
        }
    }

    pub fn unset_flag_bit(&mut self, flag: Flag)
        ensures
            *final(self) == (Registers { F: old(self).F & !flag_mask(flag), ..*old(self) }),
    {
        match flag {
            Flag::Zero => self.F = self.F & !0x80u8,
            Flag::Substraction => self.F = self.F & !0x40u8,
            Flag::HalfCarry => self.F = self.F & !0x20u8,
            Flag::Carry => self.F = self.F & !0x10u8,
        }
    }
}

} // verus!
