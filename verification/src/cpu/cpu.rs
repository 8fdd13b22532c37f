use vstd::prelude::*;
use crate::bits::lemma_bit_facts;
use crate::cpu::alu::{
    add16, add8, offset16, rotl8, rotr8, sub16, sub8, swap8, wrapping_add16, wrapping_dec16,
    wrapping_dec8, wrapping_inc16, wrapping_inc8, wrapping_offset16,
};
use crate::cpu::registers::{
    flag_of, flags_byte, hi_byte, join_bytes, law_flags_byte_read_back, lemma_pair_bytes, lemma_pair_split, lo_byte, pair, Flag,
    Registers,
    Regs,
};
use crate::cpu::step::{
    alu_op_spec, alu_spec, at_pc, block0_spec, call_spec, cb_spec, cond_met, hl, inc_dec_group,
    inc_dec_spec, loads_group, loads_spec, misc_spec, block3_spec, cond_flow_group, cond_flow_spec,
    flow_group, flow_spec, stack_group, stack_spec, acc_spec, illegal, op_spec, step_spec,
    interrupt_spec,
    indirect_address, ld_spec, new_events, pop_spec, push_bytes, rd, reg16_of, reg8, ret_spec,
    rv, set_reg8, tk, wr,
};
use crate::cpu::interrupts::Interrupt;
use crate::mmu::bus::{Bus, BusEvent};
use crate::mmu::mmio::MMIO;

verus! {

/// The Sharp SM83 processor state.
#[allow(clippy::upper_case_acronyms)]
pub struct CPU {
    pub registers: Registers,
    pub ime: bool,
    pub halt: bool,
    pub stopped: bool,
    /// `EI` takes effect one instruction late: set here, moved into `ime` on the next tick.
    pub ei: bool,
    /// Running a Game Boy Color cartridge.
    pub cgb: bool,
    /// An opcode without an instruction was fetched: the processor hangs.
    pub locked: bool,
}

// ------------------------------------------------------------------
// Register-level semantics of the arithmetic / logic instructions.
// Each returns the whole register file after the instruction.
// ------------------------------------------------------------------

pub open spec fn zf(r: Registers) -> bool {
    flag_of(r.F, Flag::Zero)
}

pub open spec fn nf(r: Registers) -> bool {
    flag_of(r.F, Flag::Substraction)
}

pub open spec fn hf(r: Registers) -> bool {
    flag_of(r.F, Flag::HalfCarry)
}

pub open spec fn cf(r: Registers) -> bool {
    flag_of(r.F, Flag::Carry)
}

/// The carry flag as 0 or 1.
pub open spec fn carry_in(r: Registers) -> int {
    if cf(r) { 1 } else { 0 }
}

/// The register file with new flags.
pub open spec fn with_flags(r: Registers, z: bool, n: bool, h: bool, c: bool) -> Registers {
    Registers { F: flags_byte(r.F, z, n, h, c), ..r }
}

/// The register file with a new `A` and new flags.
pub open spec fn with_a_flags(r: Registers, a: u8, z: bool, n: bool, h: bool, c: bool) -> Registers {
    Registers { A: a, F: flags_byte(r.F, z, n, h, c), ..r }
}

pub open spec fn add_a_spec(r: Registers, v: u8) -> Registers {
    let res = add8(r.A as int, v as int);
    with_a_flags(r, res, res == 0, false, r.A % 16 + v % 16 >= 16, r.A + v >= 256)
}

pub open spec fn adc_a_spec(r: Registers, v: u8) -> Registers {
    let c = carry_in(r);
    let sum = r.A + v + c;
    let res = (sum % 256) as u8;
    with_a_flags(r, res, res == 0, false, r.A % 16 + v % 16 + c >= 16, sum >= 256)
}

pub open spec fn sub_a_spec(r: Registers, v: u8) -> Registers {
    let res = sub8(r.A as int, v as int);
    with_a_flags(r, res, res == 0, true, r.A % 16 < v % 16, r.A < v)
}

pub open spec fn sbc_a_spec(r: Registers, v: u8) -> Registers {
    let c = carry_in(r);
    let diff = r.A - v - c;
    let res = ((diff + 512) % 256) as u8;
    with_a_flags(r, res, res == 0, true, r.A % 16 - v % 16 - c < 0, diff < 0)
}

pub open spec fn and_a_spec(r: Registers, v: u8) -> Registers {
    let res = r.A & v;
    with_a_flags(r, res, res == 0, false, true, false)
}

pub open spec fn xor_a_spec(r: Registers, v: u8) -> Registers {
    let res = r.A ^ v;
    with_a_flags(r, res, res == 0, false, false, false)
}

pub open spec fn or_a_spec(r: Registers, v: u8) -> Registers {
    let res = r.A | v;
    with_a_flags(r, res, res == 0, false, false, false)
}

/// Compare: the flags of `A - v`, `A` unchanged.
pub open spec fn cp_a_spec(r: Registers, v: u8) -> Registers {
    with_flags(r, r.A == v, true, r.A % 16 < v % 16, r.A < v)
}

pub open spec fn cpl_a_spec(r: Registers) -> Registers {
    with_a_flags(r, !r.A, zf(r), true, true, cf(r))
}

pub open spec fn ccf_spec(r: Registers) -> Registers {
    with_flags(r, zf(r), false, false, !cf(r))
}

pub open spec fn scf_spec(r: Registers) -> Registers {
    with_flags(r, zf(r), false, false, true)
}

pub open spec fn rlca_spec(r: Registers) -> Registers {
    with_a_flags(r, rotl8(r.A), false, false, false, r.A >= 128)
}

pub open spec fn rrca_spec(r: Registers) -> Registers {
    with_a_flags(r, rotr8(r.A), false, false, false, r.A % 2 == 1)
}

pub open spec fn rla_spec(r: Registers) -> Registers {
    with_a_flags(r, ((r.A % 128) * 2 + carry_in(r)) as u8, false, false, false, r.A >= 128)
}

pub open spec fn rra_spec(r: Registers) -> Registers {
    with_a_flags(r, (r.A / 2 + carry_in(r) * 128) as u8, false, false, false, r.A % 2 == 1)
}

/// Decimal adjust of `A` after a BCD addition (N clear) or subtraction (N set).
pub open spec fn daa_spec(r: Registers) -> Registers {
    if nf(r) {
        let a1 = if cf(r) { sub8(r.A as int, 0x60) } else { r.A };
        let a2 = if hf(r) { sub8(a1 as int, 0x06) } else { a1 };
        with_a_flags(r, a2, a2 == 0, true, false, cf(r))
    } else {
        let adjust_high = cf(r) || r.A > 0x99;
        let a1 = if adjust_high { add8(r.A as int, 0x60) } else { r.A };
        let a2 = if hf(r) || a1 % 16 > 9 { add8(a1 as int, 0x06) } else { a1 };
        with_a_flags(r, a2, a2 == 0, false, false, adjust_high || cf(r))
    }
}

/// Whether both nibbles of `x` are decimal digits (packed BCD).
pub open spec fn is_bcd(x: u8) -> bool {
    x % 16 <= 9 && x / 16 <= 9
}

/// The number a packed BCD byte stands for.
pub open spec fn bcd_value(x: u8) -> int {
    10 * (x / 16) + x % 16
}

/// The packed BCD byte of a number below 100.
pub open spec fn to_bcd(n: int) -> int {
    (n / 10) * 16 + n % 10
}

/// The arithmetic of `ADD A, b` followed by `DAA` on two BCD bytes.
proof fn lemma_daa_after_add_arith(a: u8, b: u8)
    by (bit_vector)
    requires
        a % 16 <= 9,
        a / 16 <= 9,
        b % 16 <= 9,
        b / 16 <= 9,
    ensures
        ({
            let res = add8(a as int, b as int);
            let adjust_high = a + b >= 256 || res > 0x99;
            let a1 = if adjust_high { add8(res as int, 0x60) } else { res };
            let a2 = if a % 16 + b % 16 >= 16 || a1 % 16 > 9 { add8(a1 as int, 0x06) } else { a1 };
            let sum = 10 * (a / 16) + a % 16 + 10 * (b / 16) + b % 16;
            &&& a2 == ((sum % 100) / 10) * 16 + (sum % 100) % 10
            &&& (adjust_high || a + b >= 256) == (sum >= 100)
        }),
{
}

/// `DAA` right after `ADD A, b` on two packed BCD bytes gives their BCD sum: A holds the two
/// lowest decimal digits of the sum, the carry tells whether it reached 100, Z whether A is
/// zero, and N and H are clear.
pub proof fn law_daa_after_add(r: Registers, b: u8)
    requires
        is_bcd(r.A),
        is_bcd(b),
    ensures
        ({
            let d = daa_spec(add_a_spec(r, b));
            let sum = bcd_value(r.A) + bcd_value(b);
            &&& d.A == to_bcd(sum % 100)
            &&& cf(d) == (sum >= 100)
            &&& zf(d) == (d.A == 0)
            &&& !hf(d)
            &&& !nf(d)
        }),
{
    let a = r.A;
    let res = add8(a as int, b as int);
    let r1 = add_a_spec(r, b);
    law_flags_byte_read_back(r.F, res == 0, false, a % 16 + b % 16 >= 16, a + b >= 256);
    lemma_daa_after_add_arith(a, b);
    let adjust_high = cf(r1) || r1.A > 0x99;
    let a1 = if adjust_high { add8(r1.A as int, 0x60) } else { r1.A };
    let a2 = if hf(r1) || a1 % 16 > 9 { add8(a1 as int, 0x06) } else { a1 };
    law_flags_byte_read_back(r1.F, a2 == 0, false, false, adjust_high || cf(r1));
}

/// Result and flags of the CB-prefixed rotate / shift / swap family on a byte.
/// `op`: 0 RLC, 1 RRC, 2 RL, 3 RR, 4 SLA, 5 SRA, 6 SWAP, 7 SRL.
pub open spec fn shift_result(op: u8, v: u8, carry: bool) -> u8 {
    let c: int = if carry { 1 } else { 0 };
    if op == 0 {
        rotl8(v)
    } else if op == 1 {
        rotr8(v)
    } else if op == 2 {
        ((v % 128) * 2 + c) as u8
    } else if op == 3 {
        (v / 2 + c * 128) as u8
    } else if op == 4 {
        ((v % 128) * 2) as u8
    } else if op == 5 {
        (v / 2 + (if v >= 128 { 128int } else { 0 })) as u8
    } else if op == 6 {
        swap8(v)
    } else {
        (v / 2) as u8
    }
}

/// Carry flag after a CB-prefixed rotate / shift / swap.
pub open spec fn shift_carry(op: u8, v: u8) -> bool {
    if op == 0 || op == 2 || op == 4 {
        v >= 128
    } else if op == 6 {
        false
    } else {
        v % 2 == 1
    }
}

/// Registers after a CB-prefixed rotate / shift / swap of `v` (the result goes elsewhere).
pub open spec fn shift_flags_spec(r: Registers, op: u8, v: u8) -> Registers {
    let res = shift_result(op, v, cf(r));
    with_flags(r, res == 0, false, false, shift_carry(op, v))
}

pub open spec fn bit_spec(r: Registers, bit: u8, v: u8) -> Registers {
    with_flags(r, v & (1u8 << bit) == 0, false, true, cf(r))
}

pub open spec fn inc8_flags_spec(r: Registers, v: u8) -> Registers {
    let res = add8(v as int, 1);
    with_flags(r, res == 0, false, v % 16 == 15, cf(r))
}

pub open spec fn dec8_flags_spec(r: Registers, v: u8) -> Registers {
    let res = sub8(v as int, 1);
    with_flags(r, res == 0, true, v % 16 == 0, cf(r))
}

/// Value of a 16-bit register (pair).
pub open spec fn reg16_value(r: Registers, reg16: Regs) -> u16 {
    match reg16 {
        Regs::AF => pair(r.A, r.F),
        Regs::BC => pair(r.B, r.C),
        Regs::DE => pair(r.D, r.E),
        Regs::HL => pair(r.H, r.L),
        Regs::SP => r.SP,
    }
}

/// The register file with a 16-bit register (pair) replaced; AF is never written this way.
pub open spec fn with_reg16(r: Registers, reg16: Regs, v: u16) -> Registers {
    match reg16 {
        Regs::BC => Registers { B: hi_byte(v), C: lo_byte(v), ..r },
        Regs::DE => Registers { D: hi_byte(v), E: lo_byte(v), ..r },
        Regs::HL => Registers { H: hi_byte(v), L: lo_byte(v), ..r },
        Regs::SP => Registers { SP: v, ..r },
        Regs::AF => r,
    }
}

pub open spec fn add_hl_spec(r: Registers, reg16: Regs) -> Registers {
    if reg16 == Regs::AF {
        with_flags(r, zf(r), false, false, false)
    } else {
        let hl = pair(r.H, r.L);
        let v = reg16_value(r, reg16);
        let res = add16(hl as int, v as int);
        with_flags(
            with_reg16(r, Regs::HL, res),
            zf(r),
            false,
            hl % 4096 + v % 4096 >= 4096,
            hl + v >= 0x10000,
        )
    }
}

pub open spec fn add_sp_spec(r: Registers, v: u8) -> Registers {
    with_flags(
        Registers { SP: offset16(r.SP, v), ..r },
        false,
        false,
        r.SP % 16 + v % 16 >= 16,
        r.SP % 256 + v >= 256,
    )
}

pub open spec fn ld16_spec(r: Registers, reg16: Regs, low: u8, high: u8) -> Registers {
    with_reg16(r, reg16, pair(high, low))
}

pub open spec fn inc16_spec(r: Registers, reg16: Regs) -> Registers {
    with_reg16(r, reg16, add16(reg16_value(r, reg16) as int, 1))
}

pub open spec fn dec16_spec(r: Registers, reg16: Regs) -> Registers {
    with_reg16(r, reg16, sub16(reg16_value(r, reg16) as int, 1))
}

/// The processor at power on: the registers the DMG boot ROM leaves (header checksum 0),
/// interrupts disabled, running.
pub open spec fn power_on() -> CPU {
    CPU {
        registers: Registers {
            A: 0x01,
            F: 0x80,
            B: 0x00,
            C: 0x13,
            D: 0x00,
            E: 0xD8,
            H: 0x01,
            L: 0x4D,
            SP: 0xFFFE,
            PC: 0x100,
        },
        ime: false,
        halt: false,
        stopped: false,
        ei: false,
        cgb: false,
        locked: false,
    }
}

impl CPU {
    /// The CPU with another register file and everything else kept.
    pub open spec fn with_regs(self, r: Registers) -> CPU {
        CPU { registers: r, ..self }
    }

    pub fn new() -> (r: Self)
        ensures
            r == power_on(),
    {
        CPU {
            registers: Registers::new_dmg(0),
            ime: false,
            halt: false,
            stopped: false,
            ei: false,
            cgb: false,
            locked: false,
        }
    }

    pub fn rlc(&mut self, reg8: u8) -> (r: u8)
        ensures
            r == shift_result(0, reg8, cf(old(self).registers)),
            *final(self) == old(self).with_regs(shift_flags_spec(old(self).registers, 0, reg8)),
    {
        let carry = reg8 >= 128;
        let r: u8 = (reg8 % 128) * 2 + reg8 / 128;
        self.registers.set_flags(r == 0, false, false, carry);
        r
    }

    pub fn rrc(&mut self, reg8: u8) -> (r: u8)
        ensures
            r == shift_result(1, reg8, cf(old(self).registers)),
            *final(self) == old(self).with_regs(shift_flags_spec(old(self).registers, 1, reg8)),
    {
        let carry = reg8 % 2 == 1;
        let r: u8 = reg8 / 2 + (reg8 % 2) * 128;
        self.registers.set_flags(r == 0, false, false, carry);
        r
    }

    pub fn rl(&mut self, reg8: u8) -> (r: u8)
        ensures
            r == shift_result(2, reg8, cf(old(self).registers)),
            *final(self) == old(self).with_regs(shift_flags_spec(old(self).registers, 2, reg8)),
    {
        let bit7 = reg8 >= 128;
        let c: u8 = if self.registers.get_flag(Flag::Carry) { 1 } else { 0 };
        let r: u8 = (reg8 % 128) * 2 + c;
        self.registers.set_flags(r == 0, false, false, bit7);
        r
    }

    pub fn rr(&mut self, reg8: u8) -> (r: u8)
        ensures
            r == shift_result(3, reg8, cf(old(self).registers)),
            *final(self) == old(self).with_regs(shift_flags_spec(old(self).registers, 3, reg8)),
    {
        let bit0 = reg8 % 2 == 1;
        let c: u8 = if self.registers.get_flag(Flag::Carry) { 1 } else { 0 };
        let r: u8 = reg8 / 2 + c * 128;
        self.registers.set_flags(r == 0, false, false, bit0);
        r
    }

    pub fn sla(&mut self, reg8: u8) -> (r: u8)
        ensures
            r == shift_result(4, reg8, cf(old(self).registers)),
            *final(self) == old(self).with_regs(shift_flags_spec(old(self).registers, 4, reg8)),
    {
        let carry = reg8 >= 128;
        let r: u8 = (reg8 % 128) * 2;
        self.registers.set_flags(r == 0, false, false, carry);
        r
    }

    pub fn sra(&mut self, reg8: u8) -> (r: u8)
        ensures
            r == shift_result(5, reg8, cf(old(self).registers)),
            *final(self) == old(self).with_regs(shift_flags_spec(old(self).registers, 5, reg8)),
    {
        let carry = reg8 % 2 == 1;
        let r: u8 = if reg8 < 128 { reg8 / 2 } else { reg8 / 2 + 128 };
        self.registers.set_flags(r == 0, false, false, carry);
        r
    }

    pub fn swap(&mut self, reg8: u8) -> (r: u8)
        ensures
            r == shift_result(6, reg8, cf(old(self).registers)),
            *final(self) == old(self).with_regs(shift_flags_spec(old(self).registers, 6, reg8)),
    {
        let r: u8 = (reg8 % 16) * 16 + reg8 / 16;
        self.registers.set_flags(r == 0, false, false, false);
        r
    }

    pub fn srl(&mut self, reg8: u8) -> (r: u8)
        ensures
            r == shift_result(7, reg8, cf(old(self).registers)),
            *final(self) == old(self).with_regs(shift_flags_spec(old(self).registers, 7, reg8)),
    {
        let carry = reg8 % 2 == 1;
        let r: u8 = reg8 / 2;
        self.registers.set_flags(r == 0, false, false, carry);
        r
    }

    /// Tests bit `bit` of `reg8`: Z is set when it is clear; N cleared, H set, C kept.
    pub fn bit(&mut self, bit: u8, reg8: u8)
        requires
            bit < 8,
        ensures
            *final(self) == old(self).with_regs(bit_spec(old(self).registers, bit, reg8)),
    {
        let reg_bit = reg8 & (1u8 << bit);
        let c = self.registers.get_flag(Flag::Carry);
        self.registers.set_flags(reg_bit == 0, false, true, c);
    }

    pub fn res(&mut self, bit: u8, reg8: u8) -> (r: u8)
        requires
            bit < 8,
        ensures
            r == reg8 & !(1u8 << bit),
            *final(self) == *old(self),
    {
        reg8 & !(1u8 << bit)
    }

    pub fn set(&mut self, bit: u8, reg8: u8) -> (r: u8)
        requires
            bit < 8,
        ensures
            r == reg8 | (1u8 << bit),
            *final(self) == *old(self),
    {
        reg8 | (1u8 << bit)
    }

    pub fn ld_a(&mut self, value: u8)
        ensures
            *final(self) == old(self).with_regs(Registers { A: value, ..old(self).registers }),
    {
        self.registers.A = value;
    }

    /// `ADD SP, e8` (also the arithmetic of `LD HL, SP + e8`).
    pub fn add_sp(&mut self, value: u8)
        ensures
            *final(self) == old(self).with_regs(add_sp_spec(old(self).registers, value)),
    {
        let sp = self.registers.SP;
        let half_carry = self._check_if_half_carry_16(sp, value as u16, false, true);
        let carry = self._check_if_carry_16(sp, value as u16, false);
        self.registers.SP = wrapping_offset16(sp, value);
        self.registers.set_flags(false, false, half_carry, carry);
    }

    /// Loads two bytes of immediate data into `reg16`: `low` is the first byte, `high` the second.
    pub fn ld16(&mut self, reg16: Regs, low: u8, high: u8)
        ensures
            *final(self) == old(self).with_regs(ld16_spec(old(self).registers, reg16, low, high)),
    {
        match reg16 {
            Regs::BC => {
                self.registers.C = low;
                self.registers.B = high;
            },
            Regs::DE => {
                self.registers.E = low;
                self.registers.D = high;
            },
            Regs::HL => {
                self.registers.L = low;
                self.registers.H = high;
            },
            Regs::SP => {
                self.registers.SP = join_bytes(high, low);
            },
            _ => {},
        }
        proof {
            lemma_pair_split(high, low);
        }
    }

    pub fn inc8(&mut self, value: u8) -> (r: u8)
        ensures
            r == add8(value as int, 1),
            *final(self) == old(self).with_regs(inc8_flags_spec(old(self).registers, value)),
    {
        let r = wrapping_inc8(value);
        let c = self.registers.get_flag(Flag::Carry);
        let h = self._check_if_half_carry(value, 1, false);
        self.registers.set_flags(r == 0, false, h, c);
        r
    }

    pub fn dec8(&mut self, value: u8) -> (r: u8)
        ensures
            r == sub8(value as int, 1),
            *final(self) == old(self).with_regs(dec8_flags_spec(old(self).registers, value)),
    {
        let r = wrapping_dec8(value);
        let c = self.registers.get_flag(Flag::Carry);
        let h = self._check_if_half_carry(value, 1, true);
        self.registers.set_flags(r == 0, true, h, c);
        r
    }

    pub fn inc16(&mut self, reg16: Regs)
        ensures
            *final(self) == old(self).with_regs(inc16_spec(old(self).registers, reg16)),
    {
        match reg16 {
            Regs::BC => {
                let v = wrapping_inc16(self.registers.get_bc());
                self.registers.set_bc(v);
            },
            Regs::DE => {
                let v = wrapping_inc16(self.registers.get_de());
                self.registers.set_de(v);
            },
            Regs::HL => {
                let v = wrapping_inc16(self.registers.get_hl());
                self.registers.set_hl(v);
            },
            Regs::SP => self.registers.SP = wrapping_inc16(self.registers.SP),
            _ => {},
        }
    }

    pub fn dec16(&mut self, reg16: Regs)
        ensures
            *final(self) == old(self).with_regs(dec16_spec(old(self).registers, reg16)),
    {
        match reg16 {
            Regs::BC => {
                let v = wrapping_dec16(self.registers.get_bc());
                self.registers.set_bc(v);
            },
            Regs::DE => {
                let v = wrapping_dec16(self.registers.get_de());
                self.registers.set_de(v);
            },
            Regs::HL => {
                let v = wrapping_dec16(self.registers.get_hl());
                self.registers.set_hl(v);
            },
            Regs::SP => self.registers.SP = wrapping_dec16(self.registers.SP),
            _ => {},
        }
    }

    /// `ADD HL, rr`: 16-bit addition with carry out of bit 15 and half carry out of bit 11;
    /// N cleared, Z kept.
    pub fn add_hl(&mut self, reg16: Regs)
        ensures
            *final(self) == old(self).with_regs(add_hl_spec(old(self).registers, reg16)),
    {
        let hl = self.registers.get_hl();
        let value: u16 = match reg16 {
            Regs::BC => self.registers.get_bc(),
            Regs::DE => self.registers.get_de(),
            Regs::HL => hl,
            Regs::SP => self.registers.SP,
            _ => 0,
        };
        let z = self.registers.get_flag(Flag::Zero);
        if reg16 == Regs::AF {
            self.registers.set_flags(z, false, false, false);
        } else {
            let half_carry = self._check_if_half_carry_16(hl, value, false, false);
            let carry = hl as u32 + value as u32 >= 0x10000;
            self.registers.set_hl(hl.wrapping_add(value));
            self.registers.set_flags(z, false, half_carry, carry);
        }
    }

    pub fn add_a(&mut self, value: u8)
        ensures
            *final(self) == old(self).with_regs(add_a_spec(old(self).registers, value)),
    {
        let a = self.registers.A;
        let half_carry = self._check_if_half_carry(a, value, false);
        let carry = a as u16 + value as u16 >= 256;
        let result = a.wrapping_add(value);
        self.registers.A = result;
        self.registers.set_flags(result == 0, false, half_carry, carry);
    }

    pub fn adc_a(&mut self, value: u8)
        ensures
            *final(self) == old(self).with_regs(adc_a_spec(old(self).registers, value)),
    {
        let a = self.registers.A;
        let carry_bit: u8 = if self.registers.get_flag(Flag::Carry) { 1 } else { 0 };
        let half_carry = (a % 16) + (value % 16) + carry_bit >= 16;
        let sum: u16 = a as u16 + value as u16 + carry_bit as u16;
        let result: u8 = (sum % 256) as u8;
        self.registers.A = result;
        self.registers.set_flags(result == 0, false, half_carry, sum >= 256);
    }

    pub fn sub_a(&mut self, value: u8)
        ensures
            *final(self) == old(self).with_regs(sub_a_spec(old(self).registers, value)),
    {
        let a = self.registers.A;
        let half_carry = self._check_if_half_carry(a, value, true);
        let carry = a < value;
        let result = a.wrapping_sub(value);
        self.registers.A = result;
        self.registers.set_flags(result == 0, true, half_carry, carry);
    }

    pub fn sbc_a(&mut self, value: u8)
        ensures
            *final(self) == old(self).with_regs(sbc_a_spec(old(self).registers, value)),
    {
        let a = self.registers.A;
        let carry_bit: u8 = if self.registers.get_flag(Flag::Carry) { 1 } else { 0 };
        let half_carry = (a % 16) < (value % 16) + carry_bit;
        let carry = (a as u16) < value as u16 + carry_bit as u16;
        let result: u8 = ((a as u16 + 512 - value as u16 - carry_bit as u16) % 256) as u8;
        self.registers.A = result;
        self.registers.set_flags(result == 0, true, half_carry, carry);
    }

    pub fn and_a(&mut self, value: u8)
        ensures
            *final(self) == old(self).with_regs(and_a_spec(old(self).registers, value)),
    {
        self.registers.A = self.registers.A & value;
        let z = self.registers.A == 0;
        self.registers.set_flags(z, false, true, false);
    }

    pub fn xor_a(&mut self, value: u8)
        ensures
            *final(self) == old(self).with_regs(xor_a_spec(old(self).registers, value)),
    {
        self.registers.A = self.registers.A ^ value;
        let z = self.registers.A == 0;
        self.registers.set_flags(z, false, false, false);
    }

    pub fn or_a(&mut self, value: u8)
        ensures
            *final(self) == old(self).with_regs(or_a_spec(old(self).registers, value)),
    {
        self.registers.A = self.registers.A | value;
        let z = self.registers.A == 0;
        self.registers.set_flags(z, false, false, false);
    }

    pub fn cp_a(&mut self, value: u8)
        ensures
            *final(self) == old(self).with_regs(cp_a_spec(old(self).registers, value)),
    {
        let a = self.registers.A;
        let half_carry = self._check_if_half_carry(a, value, true);
        self.registers.set_flags(a == value, true, half_carry, a < value);
    }

    pub fn cpl_a(&mut self)
        ensures
            *final(self) == old(self).with_regs(cpl_a_spec(old(self).registers)),
    {
        self.registers.A = !self.registers.A;
        let z = self.registers.get_flag(Flag::Zero);
        let c = self.registers.get_flag(Flag::Carry);
        self.registers.set_flags(z, true, true, c);
    }

    pub fn ccf(&mut self)
        ensures
            *final(self) == old(self).with_regs(ccf_spec(old(self).registers)),
    {
        let z = self.registers.get_flag(Flag::Zero);
        let c = self.registers.get_flag(Flag::Carry);
        self.registers.set_flags(z, false, false, !c);
    }

    pub fn scf(&mut self)
        ensures
            *final(self) == old(self).with_regs(scf_spec(old(self).registers)),
    {
        let z = self.registers.get_flag(Flag::Zero);
        self.registers.set_flags(z, false, false, true);
    }

    pub fn jp_hl(&mut self)
        ensures
            *final(self) == old(self).with_regs(
                Registers { PC: pair(old(self).registers.H, old(self).registers.L), ..old(self).registers },
            ),
    {
        self.registers.PC = self.registers.get_hl();
    }

    pub fn nop(&mut self)
        ensures
            *final(self) == *old(self),
    {
    }

    pub fn rlca(&mut self)
        ensures
            *final(self) == old(self).with_regs(rlca_spec(old(self).registers)),
    {
        let a = self.registers.A;
        self.registers.A = (a % 128) * 2 + a / 128;
        self.registers.set_flags(false, false, false, a >= 128);
    }

    pub fn rla(&mut self)
        ensures
            *final(self) == old(self).with_regs(rla_spec(old(self).registers)),
    {
        let a = self.registers.A;
        let c: u8 = if self.registers.get_flag(Flag::Carry) { 1 } else { 0 };
        self.registers.A = (a % 128) * 2 + c;
        self.registers.set_flags(false, false, false, a >= 128);
    }

    pub fn rrca(&mut self)
        ensures
            *final(self) == old(self).with_regs(rrca_spec(old(self).registers)),
    {
        let a = self.registers.A;
        self.registers.A = a / 2 + (a % 2) * 128;
        self.registers.set_flags(false, false, false, a % 2 == 1);
    }

    pub fn rra(&mut self)
        ensures
            *final(self) == old(self).with_regs(rra_spec(old(self).registers)),
    {
        let a = self.registers.A;
        let c: u8 = if self.registers.get_flag(Flag::Carry) { 1 } else { 0 };
        self.registers.A = a / 2 + c * 128;
        self.registers.set_flags(false, false, false, a % 2 == 1);
    }

    /// Turns register A into a binary-coded decimal (BCD) after an addition or subtraction.
    pub fn daa(&mut self)
        ensures
            *final(self) == old(self).with_regs(daa_spec(old(self).registers)),
    {
        let z = self.registers.get_flag(Flag::Zero);
        let n = self.registers.get_flag(Flag::Substraction);
        let h = self.registers.get_flag(Flag::HalfCarry);
        let c = self.registers.get_flag(Flag::Carry);
        if n {
            if c {
                self.registers.A = self.registers.A.wrapping_sub(0x60);
            }
            if h {
                self.registers.A = self.registers.A.wrapping_sub(0x6);
            }
            let a = self.registers.A;
            self.registers.set_flags(a == 0, true, false, c);
        } else {
            let mut carry = c;
            if c || self.registers.A > 0x99 {
                self.registers.A = self.registers.A.wrapping_add(0x60);
                carry = true;
            }
            if h || (self.registers.A % 16) > 0x09 {
                self.registers.A = self.registers.A.wrapping_add(0x6);
            }
            let a = self.registers.A;
            self.registers.set_flags(a == 0, false, false, carry);
        }
    }

    pub fn jp(&mut self, value: u16)
        ensures
            *final(self) == old(self).with_regs(Registers { PC: value, ..old(self).registers }),
    {
        self.registers.PC = value;
    }

    /// `EI` enables interrupts after the next instruction.
    pub fn ei(&mut self)
        ensures
            *final(self) == (CPU { ei: true, ..*old(self) }),
    {
        self.ei = true;
    }

    pub fn di(&mut self)
        ensures
            *final(self) == (CPU { ime: false, ..*old(self) }),
    {
        self.ime = false;
    }

    /// Half carry of the low nibbles: carry out of bit 3 for an addition,
    /// borrow into bit 4 for a subtraction.
    pub fn _check_if_half_carry(&self, a: u8, b: u8, subtract: bool) -> (r: bool)
        ensures
            r == if subtract { a % 16 < b % 16 } else { a % 16 + b % 16 >= 16 },
    {
        if subtract {
            (a % 16) < (b % 16)
        } else {
            (a % 16) + (b % 16) >= 16
        }
    }

    /// Half carry of a 16-bit operation: out of bit 3 when `bit3`, otherwise out of bit 11.
    pub fn _check_if_half_carry_16(&self, a: u16, b: u16, subtract: bool, bit3: bool) -> (r: bool)
        ensures
            r == if bit3 {
                if subtract { a % 16 < b % 16 } else { a % 16 + b % 16 >= 16 }
            } else {
                if subtract { a % 4096 < b % 4096 } else { a % 4096 + b % 4096 >= 4096 }
            },
    {
        if !bit3 {
            if subtract {
                (a % 4096) < (b % 4096)
            } else {
                (a % 4096) + (b % 4096) >= 4096
            }
        } else {
            if subtract {
                (a % 16) < (b % 16)
            } else {
                (a % 16) + (b % 16) >= 16
            }
        }
    }

    /// Carry out of bit 7 of a 16-bit operation (on the low bytes).
    pub fn _check_if_carry_16(&self, a: u16, b: u16, subtract: bool) -> (r: bool)
        ensures
            r == if subtract { a % 256 < b % 256 } else { a % 256 + b % 256 >= 256 },
    {
        if subtract {
            (a % 256) < (b % 256)
        } else {
            (a % 256) + (b % 256) >= 256
        }
    }
}


/// The 16-bit register with code `code` in an opcode: BC, DE, HL, SP.
fn reg16_code(code: u8) -> (r: Regs)
    ensures
        r == reg16_of(code),
{
    if code == 0 {
        Regs::BC
    } else if code == 1 {
        Regs::DE
    } else if code == 2 {
        Regs::HL
    } else {
        Regs::SP
    }
}

/// Code of the register pairs that `PUSH` and `POP` use: BC, DE, HL, AF.
pub open spec fn stack_code(reg16: Regs) -> u8 {
    match reg16 {
        Regs::BC => 0,
        Regs::DE => 1,
        Regs::HL => 2,
        _ => 3,
    }
}

// ------------------------------------------------------------------
// Instructions that use the bus. Each states the bus events it makes (see `step`).
// ------------------------------------------------------------------

impl CPU {
    /// Reads the byte at PC and moves PC past it.
    fn fetch_operand(&mut self, bus: &mut Bus) -> (r: u8)
        requires
            old(bus).wf(),
        ensures
            final(bus).wf(),
            final(bus).continues(*old(bus)),
            final(bus).trace@ == old(bus).trace@.push(rd(old(self).registers.PC, r)),
            *final(self) == at_pc(*old(self), add16(old(self).registers.PC as int, 1)),
    {
        let operand = bus.read(self.registers.PC);
        self.registers.PC = wrapping_inc16(self.registers.PC);
        operand
    }

    /// The register with code `code` (not 6).
    fn get_reg8(&self, code: u8) -> (r: u8)
        requires
            code < 8,
            code != 6,
        ensures
            r == reg8(self.registers, code),
    {
        match code {
            0 => self.registers.B,
            1 => self.registers.C,
            2 => self.registers.D,
            3 => self.registers.E,
            4 => self.registers.H,
            5 => self.registers.L,
            _ => self.registers.A,
        }
    }

    /// The operand with code `code`: a register, or the byte at HL for 6.
    fn read_operand(&mut self, bus: &mut Bus, code: u8) -> (r: u8)
        requires
            old(bus).wf(),
            code < 8,
        ensures
            final(bus).wf(),
            final(bus).continues(*old(bus)),
            *final(self) == *old(self),
            code == 6 ==> final(bus).trace@ == old(bus).trace@.push(rd(hl(old(self).registers), r)),
            code != 6 ==> final(bus).trace@ == old(bus).trace@ && r == reg8(old(self).registers, code),
    {
        if code == 6 {
            bus.read(self.registers.get_hl())
        } else {
            self.get_reg8(code)
        }
    }

    /// Stores `value` into the operand with code `reg8_code`.
    fn ld8(&mut self, bus: &mut Bus, reg8_code: u8, value: u8)
        requires
            old(bus).wf(),
            reg8_code < 8,
        ensures
            final(bus).wf(),
            final(bus).continues(*old(bus)),
            reg8_code == 6 ==> final(bus).trace@ == old(bus).trace@.push(wr(hl(old(self).registers), value))
                && *final(self) == *old(self),
            reg8_code != 6 ==> final(bus).trace@ == old(bus).trace@ && *final(self) == old(self).with_regs(
                set_reg8(old(self).registers, reg8_code, value),
            ),
    {
        match reg8_code {
            0 => self.registers.B = value,
            1 => self.registers.C = value,
            2 => self.registers.D = value,
            3 => self.registers.E = value,
            4 => self.registers.H = value,
            5 => self.registers.L = value,
            6 => {
                bus.write(self.registers.get_hl(), value);
            },
            _ => self.registers.A = value,
        }
    }

    /// `LD (address), A`.
    fn st_a(&mut self, bus: &mut Bus, value: u16)
        requires
            old(bus).wf(),
        ensures
            final(bus).wf(),
            final(bus).continues(*old(bus)),
            final(bus).trace@ == old(bus).trace@.push(wr(value, old(self).registers.A)),
            *final(self) == *old(self),
    {
        bus.write(value, self.registers.A);
    }

    /// Relative jump by the signed offset `value`, one extra m-cycle.
    fn jr(&mut self, value: u8, bus: &mut Bus)
        requires
            old(bus).wf(),
        ensures
            final(bus).wf(),
            final(bus).continues(*old(bus)),
            final(bus).trace@ == old(bus).trace@.push(tk()),
            *final(self) == at_pc(*old(self), offset16(old(self).registers.PC, value)),
    {
        self.registers.PC = wrapping_offset16(self.registers.PC, value);
        bus.tick(1);
    }

    /// `JR cc`: jumps when `flag` equals `condition`; returns the m-cycles taken.
    fn jr_flag(&mut self, flag: Flag, value: u8, condition: bool, bus: &mut Bus) -> (r: u8)
        requires
            old(bus).wf(),
        ensures
            final(bus).wf(),
            final(bus).continues(*old(bus)),
            flag_of(old(self).registers.F, flag) == condition ==> {
                &&& final(bus).trace@ == old(bus).trace@.push(tk())
                &&& *final(self) == at_pc(*old(self), offset16(old(self).registers.PC, value))
                &&& r == 3
            },
            flag_of(old(self).registers.F, flag) != condition ==> {
                &&& final(bus).trace@ == old(bus).trace@
                &&& *final(self) == *old(self)
                &&& r == 2
            },
    {
        if self.registers.get_flag(flag) == condition {
            self.jr(value, bus);
            return 3;
        }
        2
    }

    /// `JP cc, nn`: jumps when `flag` equals `condition`; returns the m-cycles taken.
    fn jp_flag(&mut self, flag: Flag, value: u16, condition: bool, bus: &mut Bus) -> (r: u8)
        requires
            old(bus).wf(),
        ensures
            final(bus).wf(),
            final(bus).continues(*old(bus)),
            flag_of(old(self).registers.F, flag) == condition ==> {
                &&& final(bus).trace@ == old(bus).trace@.push(tk())
                &&& *final(self) == at_pc(*old(self), value)
                &&& r == 4
            },
            flag_of(old(self).registers.F, flag) != condition ==> {
                &&& final(bus).trace@ == old(bus).trace@
                &&& *final(self) == *old(self)
                &&& r == 3
            },
    {
        if self.registers.get_flag(flag) == condition {
            self.registers.PC = value;
            bus.tick(1);
            return 4;
        }
        3
    }

    /// `POP rr`: low byte first; the low nibble of F always reads as zero.
    fn pop(&mut self, reg16: Regs, bus: &mut Bus)
        requires
            old(bus).wf(),
            reg16 != Regs::SP,
        ensures
            final(bus).wf(),
            final(bus).continues(*old(bus)),
            ({
                let t = new_events(old(bus).trace@, final(bus).trace@);
                let sp = old(self).registers.SP;
                &&& final(bus).trace@ =~= old(bus).trace@ + seq![
                    rd(sp, rv(t, 0)),
                    rd(add16(sp as int, 1), rv(t, 1)),
                ]
                &&& *final(self) == old(self).with_regs(
                    pop_spec(old(self).registers, stack_code(reg16), rv(t, 0), rv(t, 1)),
                )
            }),
    {
        let ghost t0 = bus.trace@;
        let lo = bus.read(self.registers.SP);
        self.registers.SP = wrapping_inc16(self.registers.SP);
        let hi = bus.read(self.registers.SP);
        self.registers.SP = wrapping_inc16(self.registers.SP);
        match reg16 {
            Regs::BC => {
                self.registers.C = lo;
                self.registers.B = hi;
            },
            Regs::DE => {
                self.registers.E = lo;
                self.registers.D = hi;
            },
            Regs::HL => {
                self.registers.L = lo;
                self.registers.H = hi;
            },
            _ => {
                // the lower nibble of F is always zero
                self.registers.F = lo & 0xF0;
                self.registers.A = hi;
            },
        }
        proof {
            let t = new_events(t0, bus.trace@);
            assert(t =~= seq![rd(old(self).registers.SP, lo), rd(add16(old(self).registers.SP as int, 1), hi)]);
            assert(add16(add16(old(self).registers.SP as int, 1) as int, 1) == add16(old(self).registers.SP as int, 2));
        }
    }

    /// `PUSH rr`: an internal cycle, then the high byte and the low byte below SP.
    fn push(&mut self, reg16: Regs, bus: &mut Bus)
        requires
            old(bus).wf(),
            reg16 != Regs::SP,
        ensures
            final(bus).wf(),
            final(bus).continues(*old(bus)),
            ({
                let r = old(self).registers;
                let (hi, lo) = push_bytes(r, stack_code(reg16));
                &&& final(bus).trace@ =~= old(bus).trace@ + seq![
                    tk(),
                    wr(sub16(r.SP as int, 1), hi),
                    wr(sub16(r.SP as int, 2), lo),
                ]
                &&& *final(self) == old(self).with_regs(Registers { SP: sub16(r.SP as int, 2), ..r })
            }),
    {
        bus.tick(1);
        let (hi, lo) = match reg16 {
            Regs::BC => (self.registers.B, self.registers.C),
            Regs::DE => (self.registers.D, self.registers.E),
            Regs::HL => (self.registers.H, self.registers.L),
            _ => (self.registers.A, self.registers.F),
        };
        self.registers.SP = wrapping_dec16(self.registers.SP);
        bus.write(self.registers.SP, hi);
        self.registers.SP = wrapping_dec16(self.registers.SP);
        bus.write(self.registers.SP, lo);
        assert(sub16(sub16(old(self).registers.SP as int, 1) as int, 1) == sub16(old(self).registers.SP as int, 2));
    }

    /// `CALL value`: an internal cycle, PC pushed high byte first, then the jump.
    fn call(&mut self, bus: &mut Bus, value: u16)
        requires
            old(bus).wf(),
        ensures
            final(bus).wf(),
            final(bus).continues(*old(bus)),
            final(bus).trace@ =~= old(bus).trace@ + call_spec(*old(self), value).1,
            *final(self) == call_spec(*old(self), value).0,
    {
        bus.tick(1);
        let pc = self.registers.PC;
        self.registers.SP = wrapping_dec16(self.registers.SP);
        bus.write(self.registers.SP, (pc / 256) as u8);
        self.registers.SP = wrapping_dec16(self.registers.SP);
        bus.write(self.registers.SP, (pc % 256) as u8);
        self.registers.PC = value;
        assert(sub16(sub16(old(self).registers.SP as int, 1) as int, 1) == sub16(old(self).registers.SP as int, 2));
    }

    /// `CALL cc, nn`: calls when `flag` equals `condition`; returns the m-cycles taken.
    fn call_flag(&mut self, bus: &mut Bus, flag: Flag, value: u16, condition: bool) -> (r: u8)
        requires
            old(bus).wf(),
        ensures
            final(bus).wf(),
            final(bus).continues(*old(bus)),
            flag_of(old(self).registers.F, flag) == condition ==> {
                &&& final(bus).trace@ =~= old(bus).trace@ + call_spec(*old(self), value).1
                &&& *final(self) == call_spec(*old(self), value).0
                &&& r == 6
            },
            flag_of(old(self).registers.F, flag) != condition ==> {
                &&& final(bus).trace@ == old(bus).trace@
                &&& *final(self) == *old(self)
                &&& r == 3
            },
    {
        if self.registers.get_flag(flag) == condition {
            self.call(bus, value);
            return 6;
        }
        3
    }

    /// `RET`: pops PC, low byte first, then an internal cycle.
    fn ret(&mut self, bus: &mut Bus)
        requires
            old(bus).wf(),
        ensures
            final(bus).wf(),
            final(bus).continues(*old(bus)),
            ({
                let t = new_events(old(bus).trace@, final(bus).trace@);
                &&& final(bus).trace@ =~= old(bus).trace@ + ret_spec(*old(self), t).1
                &&& *final(self) == ret_spec(*old(self), t).0
            }),
    {
        let ghost t0 = bus.trace@;
        let sp = self.registers.SP;
        let lower_byte = bus.read(sp);
        let higher_byte = bus.read(wrapping_inc16(sp));
        self.registers.PC = join_bytes(higher_byte, lower_byte);
        self.registers.SP = wrapping_add16(sp, 2);
        bus.tick(1);
        proof {
            let t = new_events(t0, bus.trace@);
            assert(t =~= seq![rd(sp, lower_byte), rd(add16(sp as int, 1), higher_byte), tk()]);
        }
    }

    /// `RET cc`: returns when `flag` equals `condition`; returns the m-cycles taken.
    fn ret_flag(&mut self, bus: &mut Bus, flag: Flag, condition: bool) -> (r: u8)
        requires
            old(bus).wf(),
        ensures
            final(bus).wf(),
            final(bus).continues(*old(bus)),
            flag_of(old(self).registers.F, flag) == condition ==> {
                let t = new_events(old(bus).trace@, final(bus).trace@);
                &&& final(bus).trace@ =~= old(bus).trace@ + ret_spec(*old(self), t).1
                &&& *final(self) == ret_spec(*old(self), t).0
                &&& r == 5
            },
            flag_of(old(self).registers.F, flag) != condition ==> {
                &&& final(bus).trace@ == old(bus).trace@
                &&& *final(self) == *old(self)
                &&& r == 2
            },
    {
        if self.registers.get_flag(flag) == condition {
            self.ret(bus);
            return 5;
        }
        2
    }

    /// `RETI`: enables interrupts at once and returns.
    fn reti(&mut self, bus: &mut Bus)
        requires
            old(bus).wf(),
        ensures
            final(bus).wf(),
            final(bus).continues(*old(bus)),
            ({
                let t = new_events(old(bus).trace@, final(bus).trace@);
                let c = CPU { ime: true, ..*old(self) };
                &&& final(bus).trace@ =~= old(bus).trace@ + ret_spec(c, t).1
                &&& *final(self) == ret_spec(c, t).0
            }),
    {
        self.ime = true;
        self.ret(bus);
    }

    /// `RST n`: a call to the fixed address `value`.
    fn rst(&mut self, bus: &mut Bus, value: u8)
        requires
            old(bus).wf(),
        ensures
            final(bus).wf(),
            final(bus).continues(*old(bus)),
            final(bus).trace@ =~= old(bus).trace@ + call_spec(*old(self), value as u16).1,
            *final(self) == call_spec(*old(self), value as u16).0,
    {
        self.call(bus, value as u16);
    }

    /// `HALT`: the processor halts unless an enabled interrupt is already requested (the
    /// halt bug, which would run the next byte twice then, is not emulated).
    fn halt(&mut self, bus: &mut Bus)
        requires
            old(bus).wf(),
        ensures
            final(bus).wf(),
            final(bus).continues(*old(bus)),
            ({
                let t = new_events(old(bus).trace@, final(bus).trace@);
                let p = rv(t, 0);
                &&& final(bus).trace@ =~= old(bus).trace@.push(BusEvent::Pending { value: p })
                &&& *final(self) == if p & 0x1F == 0 { CPU { halt: true, ..*old(self) } } else { *old(self) }
            }),
    {
        let ghost t0 = bus.trace@;
        let pending = bus.pending_interrupts();
        if pending & 0x1F == 0 {
            self.halt = true;
        }
        proof {
            assert(new_events(t0, bus.trace@) =~= seq![BusEvent::Pending { value: pending }]);
        }
    }
}


/// The register pair with code `code` in `PUSH` and `POP`: BC, DE, HL, AF.
fn stack_reg(code: u8) -> (r: Regs)
    requires
        code < 4,
    ensures
        stack_code(r) == code,
        r != Regs::SP,
{
    if code == 0 {
        Regs::BC
    } else if code == 1 {
        Regs::DE
    } else if code == 2 {
        Regs::HL
    } else {
        Regs::AF
    }
}

impl CPU {
    /// The rotate / shift / swap of code `kind` (RLC, RRC, RL, RR, SLA, SRA, SWAP, SRL).
    fn shift_op(&mut self, kind: u8, v: u8) -> (r: u8)
        requires
            kind < 8,
        ensures
            r == shift_result(kind, v, cf(old(self).registers)),
            *final(self) == old(self).with_regs(shift_flags_spec(old(self).registers, kind, v)),
    {
        match kind {
            0 => self.rlc(v),
            1 => self.rrc(v),
            2 => self.rl(v),
            3 => self.rr(v),
            4 => self.sla(v),
            5 => self.sra(v),
            6 => self.swap(v),
            _ => self.srl(v),
        }
    }

    /// The accumulator operation of code `kind` (ADD, ADC, SUB, SBC, AND, XOR, OR, CP).
    fn alu(&mut self, kind: u8, v: u8)
        requires
            kind < 8,
        ensures
            *final(self) == old(self).with_regs(alu_spec(old(self).registers, kind, v)),
    {
        match kind {
            0 => self.add_a(v),
            1 => self.adc_a(v),
            2 => self.sub_a(v),
            3 => self.sbc_a(v),
            4 => self.and_a(v),
            5 => self.xor_a(v),
            6 => self.or_a(v),
            _ => self.cp_a(v),
        }
    }

    /// A CB-prefixed instruction.
    fn exec_cb(&mut self, bus: &mut Bus, cb: u8) -> (n: u8)
        requires
            old(bus).wf(),
        ensures
            final(bus).wf(),
            final(bus).continues(*old(bus)),
            ({
                let s = cb_spec(*old(self), cb, new_events(old(bus).trace@, final(bus).trace@));
                &&& final(bus).trace@ =~= old(bus).trace@ + s.1
                &&& *final(self) == s.0
                &&& n == s.2
            }),
    {
        reveal(cb_spec);
        let ghost t0 = bus.trace@;
        let code = cb % 8;
        let bit = (cb / 8) % 8;
        let v = self.read_operand(bus, code);
        let ghost t1 = bus.trace@;
        proof {
            assert(new_events(t0, t1).len() > 0 ==> new_events(t0, t1)[0] == t1[t0.len() as int]);
        }
        if cb < 0x40 {
            let res = self.shift_op(cb / 8, v);
            self.ld8(bus, code, res);
            proof {
                let t = new_events(t0, bus.trace@);
                if code == 6 {
                    assert(t =~= seq![rd(hl(old(self).registers), v), wr(hl(old(self).registers), res)]);
                } else {
                    assert(t =~= Seq::<BusEvent>::empty());
                }
            }
            if code == 6 { 4 } else { 2 }
        } else if cb < 0x80 {
            self.bit(bit, v);
            proof {
                let t = new_events(t0, bus.trace@);
                if code == 6 {
                    assert(t =~= seq![rd(hl(old(self).registers), v)]);
                } else {
                    assert(t =~= Seq::<BusEvent>::empty());
                }
            }
            if code == 6 { 3 } else { 2 }
        } else {
            let res = if cb < 0xC0 { self.res(bit, v) } else { self.set(bit, v) };
            self.ld8(bus, code, res);
            proof {
                let t = new_events(t0, bus.trace@);
                if code == 6 {
                    assert(t =~= seq![rd(hl(old(self).registers), v), wr(hl(old(self).registers), res)]);
                } else {
                    assert(t =~= Seq::<BusEvent>::empty());
                }
            }
            if code == 6 { 4 } else { 2 }
        }
    }

    /// Opcodes $40-$7F: register to register loads and HALT.
    fn exec_ld(&mut self, bus: &mut Bus, opcode: u8) -> (n: u8)
        requires
            old(bus).wf(),
            0x40 <= opcode < 0x80,
        ensures
            final(bus).wf(),
            final(bus).continues(*old(bus)),
            ({
                let s = ld_spec(*old(self), opcode, new_events(old(bus).trace@, final(bus).trace@));
                &&& final(bus).trace@ =~= old(bus).trace@ + s.1
                &&& *final(self) == s.0
                &&& n == s.2
            }),
    {
        let ghost t0 = bus.trace@;
        let dest = (opcode / 8) % 8;
        let source = opcode % 8;
        // LD (HL), (HL) does not exist: $76 is HALT
        if dest == 6 && source == 6 {
            self.halt(bus);
            return 1;
        }
        let v = self.read_operand(bus, source);
        self.ld8(bus, dest, v);
        proof {
            let t = new_events(t0, bus.trace@);
            let h = hl(old(self).registers);
            if source == 6 {
                assert(t =~= seq![rd(h, v)]);
            } else if dest == 6 {
                assert(t =~= seq![wr(h, v)]);
            } else {
                assert(t =~= Seq::<BusEvent>::empty());
            }
        }
        if source == 6 || dest == 6 { 2 } else { 1 }
    }

    /// Opcodes $80-$BF: accumulator operations on a register or the byte at HL.
    fn exec_alu(&mut self, bus: &mut Bus, opcode: u8) -> (n: u8)
        requires
            old(bus).wf(),
            0x80 <= opcode < 0xC0,
        ensures
            final(bus).wf(),
            final(bus).continues(*old(bus)),
            ({
                let s = alu_op_spec(*old(self), opcode, new_events(old(bus).trace@, final(bus).trace@));
                &&& final(bus).trace@ =~= old(bus).trace@ + s.1
                &&& *final(self) == s.0
                &&& n == s.2
            }),
    {
        let ghost t0 = bus.trace@;
        let code = opcode % 8;
        let v = self.read_operand(bus, code);
        self.alu((opcode / 8) % 8, v);
        proof {
            let t = new_events(t0, bus.trace@);
            if code == 6 {
                assert(t =~= seq![rd(hl(old(self).registers), v)]);
            } else {
                assert(t =~= Seq::<BusEvent>::empty());
            }
        }
        if code == 6 { 2 } else { 1 }
    }
}


impl CPU {
    /// Opcodes $00-$3F.
    fn exec_block0(&mut self, bus: &mut Bus, opcode: u8) -> (n: u8)
        requires
            old(bus).wf(),
            opcode < 0x40,
        ensures
            final(bus).wf(),
            final(bus).continues(*old(bus)),
            ({
                let s = block0_spec(*old(self), opcode, new_events(old(bus).trace@, final(bus).trace@));
                &&& final(bus).trace@ =~= old(bus).trace@ + s.1
                &&& *final(self) == s.0
                &&& n == s.2
            }),
    {
        let low = opcode % 16;
        if low == 0x01 || low == 0x02 || low == 0x06 || low == 0x0E || low == 0x0A || opcode == 0x08 {
            self.exec_loads(bus, opcode)
        } else if low == 0x03 || low == 0x04 || low == 0x05 || low == 0x09 || low == 0x0B || low == 0x0C
            || low == 0x0D {
            self.exec_inc_dec(bus, opcode)
        } else {
            self.exec_misc(bus, opcode)
        }
    }

    /// Loads among $00-$3F: `LD rr, nn`, `LD (rr), A`, `LD r, n`, `LD (nn), SP`, `LD A, (rr)`.
    fn exec_loads(&mut self, bus: &mut Bus, opcode: u8) -> (n: u8)
        requires
            old(bus).wf(),
            opcode < 0x40,
            loads_group(opcode),
        ensures
            final(bus).wf(),
            final(bus).continues(*old(bus)),
            ({
                let s = loads_spec(*old(self), opcode, new_events(old(bus).trace@, final(bus).trace@));
                &&& final(bus).trace@ =~= old(bus).trace@ + s.1
                &&& *final(self) == s.0
                &&& n == s.2
            }),
    {
        let low = opcode % 16;
        if low == 0x01 {
            self.exec_ld16(bus, opcode)
        } else if low == 0x02 {
            self.exec_st_indirect(bus, opcode)
        } else if low == 0x06 || low == 0x0E {
            self.exec_ld_imm(bus, opcode)
        } else if opcode == 0x08 {
            self.exec_st_sp(bus, opcode)
        } else {
            self.exec_ld_indirect(bus, opcode)
        }
    }

    /// `LD rr, nn`.
    fn exec_ld16(&mut self, bus: &mut Bus, opcode: u8) -> (n: u8)
        requires
            old(bus).wf(),
            opcode < 0x40,
            loads_group(opcode),
            opcode % 16 == 0x01,
        ensures
            final(bus).wf(),
            final(bus).continues(*old(bus)),
            ({
                let s = loads_spec(*old(self), opcode, new_events(old(bus).trace@, final(bus).trace@));
                &&& final(bus).trace@ =~= old(bus).trace@ + s.1
                &&& *final(self) == s.0
                &&& n == s.2
            }),
    {
        let ghost t0 = bus.trace@;
        let ghost pc = self.registers.PC;
        let rr = opcode / 16;
        let low_byte = self.fetch_operand(bus);
        let high_byte = self.fetch_operand(bus);
        self.ld16(reg16_code(rr), low_byte, high_byte);
        proof {
            assert(new_events(t0, bus.trace@) =~= seq![rd(pc, low_byte), rd(add16(pc as int, 1), high_byte)]);
        }
        3
    }

    /// `LD (rr), A`, with HL incremented or decremented after `LD (HL+), A` and `LD (HL-), A`.
    #[verifier::spinoff_prover]
    #[verifier::rlimit(60)]
    fn exec_st_indirect(&mut self, bus: &mut Bus, opcode: u8) -> (n: u8)
        requires
            old(bus).wf(),
            opcode < 0x40,
            loads_group(opcode),
            opcode % 16 == 0x02,
        ensures
            final(bus).wf(),
            final(bus).continues(*old(bus)),
            ({
                let s = loads_spec(*old(self), opcode, new_events(old(bus).trace@, final(bus).trace@));
                &&& final(bus).trace@ =~= old(bus).trace@ + s.1
                &&& *final(self) == s.0
                &&& n == s.2
            }),
    {
        let ghost t0 = bus.trace@;
        let ghost c0 = *self;
        let rr = opcode / 16;
        if rr == 0 {
            let address = self.registers.get_bc();
            self.st_a(bus, address);
        } else if rr == 1 {
            let address = self.registers.get_de();
            self.st_a(bus, address);
        } else if rr == 2 {
            let address = self.registers.get_hl();
            self.st_a(bus, address);
            self.inc16(Regs::HL);
        } else {
            let address = self.registers.get_hl();
            self.st_a(bus, address);
            self.dec16(Regs::HL);
        }
        proof {
            assert(new_events(t0, bus.trace@) =~= seq![wr(indirect_address(c0.registers, rr), c0.registers.A)]);
        }
        2
    }

    /// `LD r, n`.
    fn exec_ld_imm(&mut self, bus: &mut Bus, opcode: u8) -> (n: u8)
        requires
            old(bus).wf(),
            opcode < 0x40,
            loads_group(opcode),
            opcode % 16 == 0x06 || opcode % 16 == 0x0E,
        ensures
            final(bus).wf(),
            final(bus).continues(*old(bus)),
            ({
                let s = loads_spec(*old(self), opcode, new_events(old(bus).trace@, final(bus).trace@));
                &&& final(bus).trace@ =~= old(bus).trace@ + s.1
                &&& *final(self) == s.0
                &&& n == s.2
            }),
    {
        let ghost t0 = bus.trace@;
        let ghost c0 = *self;
        let ghost pc = self.registers.PC;
        let code = (opcode / 8) % 8;
        let value = self.fetch_operand(bus);
        self.ld8(bus, code, value);
        proof {
            let h = hl(c0.registers);
            if code == 6 {
                assert(new_events(t0, bus.trace@) =~= seq![rd(pc, value), wr(h, value)]);
            } else {
                assert(new_events(t0, bus.trace@) =~= seq![rd(pc, value)]);
            }
        }
        if code == 6 { 3 } else { 2 }
    }

    /// `LD (nn), SP`.
    fn exec_st_sp(&mut self, bus: &mut Bus, opcode: u8) -> (n: u8)
        requires
            old(bus).wf(),
            opcode < 0x40,
            loads_group(opcode),
            opcode == 0x08,
        ensures
            final(bus).wf(),
            final(bus).continues(*old(bus)),
            ({
                let s = loads_spec(*old(self), opcode, new_events(old(bus).trace@, final(bus).trace@));
                &&& final(bus).trace@ =~= old(bus).trace@ + s.1
                &&& *final(self) == s.0
                &&& n == s.2
            }),
    {
        let ghost t0 = bus.trace@;
        let ghost pc = self.registers.PC;
        let rr = opcode / 16;
        let address = bus.read_16(self.registers.PC);
        let sp = self.registers.SP;
        bus.write_16(address, sp);
        self.registers.PC = wrapping_add16(self.registers.PC, 2);
        proof {
            lemma_pair_bytes(address);
            assert(new_events(t0, bus.trace@) =~= seq![
                rd(pc, lo_byte(address)),
                rd(add16(pc as int, 1), hi_byte(address)),
                wr(address, lo_byte(sp)),
                wr(add16(address as int, 1), hi_byte(sp)),
            ]);
        }
        5
    }

    /// `LD A, (rr)`, with HL incremented or decremented after `LD A, (HL+)` and `LD A, (HL-)`.
    #[verifier::spinoff_prover]
    #[verifier::rlimit(60)]
    fn exec_ld_indirect(&mut self, bus: &mut Bus, opcode: u8) -> (n: u8)
        requires
            old(bus).wf(),
            opcode < 0x40,
            loads_group(opcode),
            opcode % 16 == 0x0A,
        ensures
            final(bus).wf(),
            final(bus).continues(*old(bus)),
            ({
                let s = loads_spec(*old(self), opcode, new_events(old(bus).trace@, final(bus).trace@));
                &&& final(bus).trace@ =~= old(bus).trace@ + s.1
                &&& *final(self) == s.0
                &&& n == s.2
            }),
    {
        let ghost t0 = bus.trace@;
        let rr = opcode / 16;
        let address = if rr == 0 {
            self.registers.get_bc()
        } else if rr == 1 {
            self.registers.get_de()
        } else {
            self.registers.get_hl()
        };
        let v = bus.read(address);
        self.ld_a(v);
        if rr == 2 {
            self.inc16(Regs::HL);
        } else if rr == 3 {
            self.dec16(Regs::HL);
        }
        proof { assert(new_events(t0, bus.trace@) =~= seq![rd(address, v)]); }
        2
    }

    /// Increments, decrements and `ADD HL, rr` among $00-$3F.
    #[verifier::spinoff_prover]
    #[verifier::rlimit(60)]
    fn exec_inc_dec(&mut self, bus: &mut Bus, opcode: u8) -> (n: u8)
        requires
            old(bus).wf(),
            opcode < 0x40,
            inc_dec_group(opcode),
        ensures
            final(bus).wf(),
            final(bus).continues(*old(bus)),
            ({
                let s = inc_dec_spec(*old(self), opcode, new_events(old(bus).trace@, final(bus).trace@));
                &&& final(bus).trace@ =~= old(bus).trace@ + s.1
                &&& *final(self) == s.0
                &&& n == s.2
            }),
    {
        let ghost t0 = bus.trace@;
        let ghost c0 = *self;
        let rr = opcode / 16;
        let code = (opcode / 8) % 8;
        let low = opcode % 16;
        if low == 0x03 {
            self.inc16(reg16_code(rr));
            bus.tick(1);
            proof { assert(new_events(t0, bus.trace@) =~= seq![tk()]); }
            2
        } else if low == 0x04 || low == 0x0C || low == 0x05 || low == 0x0D {
            let v = self.read_operand(bus, code);
            let r = if low == 0x04 || low == 0x0C { self.inc8(v) } else { self.dec8(v) };
            self.ld8(bus, code, r);
            proof {
                let h = hl(c0.registers);
                if code == 6 {
                    assert(new_events(t0, bus.trace@) =~= seq![rd(h, v), wr(h, r)]);
                } else {
                    assert(new_events(t0, bus.trace@) =~= Seq::<BusEvent>::empty());
                }
            }
            if code == 6 { 3 } else { 1 }
        } else if low == 0x09 {
            self.add_hl(reg16_code(rr));
            bus.tick(1);
            proof { assert(new_events(t0, bus.trace@) =~= seq![tk()]); }
            2
        } else {
            self.dec16(reg16_code(rr));
            bus.tick(1);
            proof { assert(new_events(t0, bus.trace@) =~= seq![tk()]); }
            2
        }
    }

    /// The rest of $00-$3F: NOP, STOP, accumulator rotates, relative jumps, DAA, CPL, SCF, CCF.
    #[verifier::spinoff_prover]
    #[verifier::rlimit(60)]
    fn exec_misc(&mut self, bus: &mut Bus, opcode: u8) -> (n: u8)
        requires
            old(bus).wf(),
            opcode < 0x40,
            !loads_group(opcode),
            !inc_dec_group(opcode),
        ensures
            final(bus).wf(),
            final(bus).continues(*old(bus)),
            ({
                let s = misc_spec(*old(self), opcode, new_events(old(bus).trace@, final(bus).trace@));
                &&& final(bus).trace@ =~= old(bus).trace@ + s.1
                &&& *final(self) == s.0
                &&& n == s.2
            }),
    {
        let ghost t0 = bus.trace@;
        let ghost c0 = *self;
        let ghost pc = self.registers.PC;
        if opcode == 0x00 {
            self.nop();
            proof { assert(new_events(t0, bus.trace@) =~= Seq::<BusEvent>::empty()); }
            1
        } else if opcode == 0x07 {
            self.rlca();
            proof { assert(new_events(t0, bus.trace@) =~= Seq::<BusEvent>::empty()); }
            1
        } else if opcode == 0x0F {
            self.rrca();
            proof { assert(new_events(t0, bus.trace@) =~= Seq::<BusEvent>::empty()); }
            1
        } else if opcode == 0x10 {
            // STOP: only the divider reset is emulated
            bus.reset_div();
            proof { assert(new_events(t0, bus.trace@) =~= seq![BusEvent::ResetDiv]); }
            1
        } else if opcode == 0x17 {
            self.rla();
            proof { assert(new_events(t0, bus.trace@) =~= Seq::<BusEvent>::empty()); }
            1
        } else if opcode == 0x18 {
            let value = self.fetch_operand(bus);
            self.jr(value, bus);
            proof { assert(new_events(t0, bus.trace@) =~= seq![rd(pc, value), tk()]); }
            3
        } else if opcode == 0x1F {
            self.rra();
            proof { assert(new_events(t0, bus.trace@) =~= Seq::<BusEvent>::empty()); }
            1
        } else if opcode == 0x20 || opcode == 0x28 || opcode == 0x30 || opcode == 0x38 {
            let condition = (opcode / 8) % 4;
            let value = self.fetch_operand(bus);
            let r = if condition < 2 {
                self.jr_flag(Flag::Zero, value, condition != 0, bus)
            } else {
                self.jr_flag(Flag::Carry, value, condition != 2, bus)
            };
            proof {
                if cond_met(c0.registers, condition) {
                    assert(new_events(t0, bus.trace@) =~= seq![rd(pc, value), tk()]);
                } else {
                    assert(new_events(t0, bus.trace@) =~= seq![rd(pc, value)]);
                }
            }
            r
        } else if opcode == 0x27 {
            self.daa();
            proof { assert(new_events(t0, bus.trace@) =~= Seq::<BusEvent>::empty()); }
            1
        } else if opcode == 0x2F {
            self.cpl_a();
            proof { assert(new_events(t0, bus.trace@) =~= Seq::<BusEvent>::empty()); }
            1
        } else if opcode == 0x37 {
            self.scf();
            proof { assert(new_events(t0, bus.trace@) =~= Seq::<BusEvent>::empty()); }
            1
        } else {
            self.ccf();
            proof { assert(new_events(t0, bus.trace@) =~= Seq::<BusEvent>::empty()); }
            1
        }
    }
}


impl CPU {
    /// Opcodes $C0-$FF other than the CB prefix.
    #[verifier::spinoff_prover]
    #[verifier::rlimit(60)]
    fn exec_block3(&mut self, bus: &mut Bus, opcode: u8) -> (n: u8)
        requires
            old(bus).wf(),
            0xC0 <= opcode,
            opcode != 0xCB,
        ensures
            final(bus).wf(),
            final(bus).continues(*old(bus)),
            ({
                let s = block3_spec(*old(self), opcode, new_events(old(bus).trace@, final(bus).trace@));
                &&& final(bus).trace@ =~= old(bus).trace@ + s.1
                &&& *final(self) == s.0
                &&& n == s.2
            }),
    {
        let low = opcode % 16;
        if opcode == 0xD3 || opcode == 0xDB || opcode == 0xDD || opcode == 0xE3 || opcode == 0xE4
            || opcode == 0xEB || opcode == 0xEC || opcode == 0xED || opcode == 0xF4 || opcode == 0xFC
            || opcode == 0xFD {
            // no instruction: the processor hangs
            self.locked = true;
            proof { assert(new_events(old(bus).trace@, bus.trace@) =~= Seq::<BusEvent>::empty()); }
            1
        } else if opcode == 0xC0 || opcode == 0xC8 || opcode == 0xD0 || opcode == 0xD8 || opcode == 0xC2
            || opcode == 0xCA || opcode == 0xD2 || opcode == 0xDA || opcode == 0xC4 || opcode == 0xCC
            || opcode == 0xD4 || opcode == 0xDC {
            self.exec_cond_flow(bus, opcode)
        } else if opcode == 0xC3 || opcode == 0xC9 || opcode == 0xCD || opcode == 0xD9 || opcode == 0xE9
            || opcode % 8 == 7 {
            self.exec_flow(bus, opcode)
        } else if low == 0x01 || low == 0x05 || opcode == 0xE8 || opcode == 0xF8 || opcode == 0xF9 {
            self.exec_stack(bus, opcode)
        } else {
            self.exec_acc(bus, opcode)
        }
    }

    /// `RET cc`, `JP cc, nn` and `CALL cc, nn`.
    fn exec_cond_flow(&mut self, bus: &mut Bus, opcode: u8) -> (n: u8)
        requires
            old(bus).wf(),
            cond_flow_group(opcode),
        ensures
            final(bus).wf(),
            final(bus).continues(*old(bus)),
            ({
                let s = cond_flow_spec(*old(self), opcode, new_events(old(bus).trace@, final(bus).trace@));
                &&& final(bus).trace@ =~= old(bus).trace@ + s.1
                &&& *final(self) == s.0
                &&& n == s.2
            }),
    {
        if opcode % 8 == 0 {
            self.exec_ret_cond(bus, opcode)
        } else if opcode % 8 == 2 {
            self.exec_jp_cond(bus, opcode)
        } else {
            self.exec_call_cond(bus, opcode)
        }
    }

    /// `RET cc`: an internal cycle, then the return when the condition holds.
    #[verifier::spinoff_prover]
    #[verifier::rlimit(60)]
    fn exec_ret_cond(&mut self, bus: &mut Bus, opcode: u8) -> (n: u8)
        requires
            old(bus).wf(),
            cond_flow_group(opcode),
            opcode % 8 == 0,
        ensures
            final(bus).wf(),
            final(bus).continues(*old(bus)),
            ({
                let s = cond_flow_spec(*old(self), opcode, new_events(old(bus).trace@, final(bus).trace@));
                &&& final(bus).trace@ =~= old(bus).trace@ + s.1
                &&& *final(self) == s.0
                &&& n == s.2
            }),
    {
        let ghost t0 = bus.trace@;
        let condition = (opcode / 8) % 4;
        let flag = if condition < 2 { Flag::Zero } else { Flag::Carry };
        let expected = condition == 1 || condition == 3;
        bus.tick(1);
        let ghost t1 = bus.trace@;
        let r = self.ret_flag(bus, flag, expected);
        proof {
            assert(new_events(t1, bus.trace@) =~= new_events(t0, bus.trace@).skip(1));
            if !cond_met(old(self).registers, condition) {
                assert(new_events(t0, bus.trace@) =~= seq![tk()]);
            }
        }
        r
    }

    /// `JP cc, nn`.
    #[verifier::spinoff_prover]
    #[verifier::rlimit(60)]
    fn exec_jp_cond(&mut self, bus: &mut Bus, opcode: u8) -> (n: u8)
        requires
            old(bus).wf(),
            cond_flow_group(opcode),
            opcode % 8 == 2,
        ensures
            final(bus).wf(),
            final(bus).continues(*old(bus)),
            ({
                let s = cond_flow_spec(*old(self), opcode, new_events(old(bus).trace@, final(bus).trace@));
                &&& final(bus).trace@ =~= old(bus).trace@ + s.1
                &&& *final(self) == s.0
                &&& n == s.2
            }),
    {
        let ghost t0 = bus.trace@;
        let ghost pc = self.registers.PC;
        let condition = (opcode / 8) % 4;
        let flag = if condition < 2 { Flag::Zero } else { Flag::Carry };
        let expected = condition == 1 || condition == 3;
        let value = bus.read_16(self.registers.PC);
        self.registers.PC = wrapping_add16(self.registers.PC, 2);
        proof { lemma_pair_bytes(value); }
        let r = self.jp_flag(flag, value, expected, bus);
        proof {
            let f2 = seq![rd(pc, lo_byte(value)), rd(add16(pc as int, 1), hi_byte(value))];
            if cond_met(old(self).registers, condition) {
                assert(new_events(t0, bus.trace@) =~= f2.push(tk()));
            } else {
                assert(new_events(t0, bus.trace@) =~= f2);
            }
        }
        r
    }

    /// `CALL cc, nn`.
    #[verifier::spinoff_prover]
    #[verifier::rlimit(60)]
    fn exec_call_cond(&mut self, bus: &mut Bus, opcode: u8) -> (n: u8)
        requires
            old(bus).wf(),
            cond_flow_group(opcode),
            opcode % 8 == 4,
        ensures
            final(bus).wf(),
            final(bus).continues(*old(bus)),
            ({
                let s = cond_flow_spec(*old(self), opcode, new_events(old(bus).trace@, final(bus).trace@));
                &&& final(bus).trace@ =~= old(bus).trace@ + s.1
                &&& *final(self) == s.0
                &&& n == s.2
            }),
    {
        let ghost t0 = bus.trace@;
        let ghost pc = self.registers.PC;
        let condition = (opcode / 8) % 4;
        let flag = if condition < 2 { Flag::Zero } else { Flag::Carry };
        let expected = condition == 1 || condition == 3;
        let value = bus.read_16(self.registers.PC);
        self.registers.PC = wrapping_add16(self.registers.PC, 2);
        proof { lemma_pair_bytes(value); }
        let ghost c1 = *self;
        let r = self.call_flag(bus, flag, value, expected);
        proof {
            let f2 = seq![rd(pc, lo_byte(value)), rd(add16(pc as int, 1), hi_byte(value))];
            if cond_met(old(self).registers, condition) {
                assert(new_events(t0, bus.trace@) =~= f2 + call_spec(c1, value).1);
            } else {
                assert(new_events(t0, bus.trace@) =~= f2);
            }
        }
        r
    }

    /// `JP nn`, `RST n`, `RET`, `CALL nn`, `RETI` and `JP HL`.
    #[verifier::spinoff_prover]
    #[verifier::rlimit(60)]
    fn exec_flow(&mut self, bus: &mut Bus, opcode: u8) -> (n: u8)
        requires
            old(bus).wf(),
            flow_group(opcode),
            !cond_flow_group(opcode),
        ensures
            final(bus).wf(),
            final(bus).continues(*old(bus)),
            ({
                let s = flow_spec(*old(self), opcode, new_events(old(bus).trace@, final(bus).trace@));
                &&& final(bus).trace@ =~= old(bus).trace@ + s.1
                &&& *final(self) == s.0
                &&& n == s.2
            }),
    {
        let ghost t0 = bus.trace@;
        let ghost pc = self.registers.PC;
        if opcode == 0xC3 {
            let value = bus.read_16(self.registers.PC);
            self.jp(value);
            bus.tick(1);
            proof {
                lemma_pair_bytes(value);
                assert(new_events(t0, bus.trace@) =~= seq![
                    rd(pc, lo_byte(value)),
                    rd(add16(pc as int, 1), hi_byte(value)),
                    tk(),
                ]);
            }
            4
        } else if opcode == 0xC9 {
            self.ret(bus);
            4
        } else if opcode == 0xCD {
            let address = bus.read_16(self.registers.PC);
            self.registers.PC = wrapping_add16(self.registers.PC, 2);
            let ghost c1 = *self;
            self.call(bus, address);
            proof {
                lemma_pair_bytes(address);
                assert(new_events(t0, bus.trace@) =~= seq![
                    rd(pc, lo_byte(address)),
                    rd(add16(pc as int, 1), hi_byte(address)),
                ] + call_spec(c1, address).1);
            }
            6
        } else if opcode == 0xD9 {
            self.reti(bus);
            4
        } else if opcode == 0xE9 {
            self.jp_hl();
            proof { assert(new_events(t0, bus.trace@) =~= Seq::<BusEvent>::empty()); }
            1
        } else {
            let rst_vec = opcode & 0b0011_1000;
            self.rst(bus, rst_vec);
            proof { assert(new_events(t0, bus.trace@) =~= call_spec(*old(self), rst_vec as u16).1); }
            4
        }
    }

    /// `POP rr`, `PUSH rr`, `ADD SP, e`, `LD HL, SP + e` and `LD SP, HL`.
    #[verifier::spinoff_prover]
    #[verifier::rlimit(60)]
    fn exec_stack(&mut self, bus: &mut Bus, opcode: u8) -> (n: u8)
        requires
            old(bus).wf(),
            0xC0 <= opcode,
            stack_group(opcode),
        ensures
            final(bus).wf(),
            final(bus).continues(*old(bus)),
            ({
                let s = stack_spec(*old(self), opcode, new_events(old(bus).trace@, final(bus).trace@));
                &&& final(bus).trace@ =~= old(bus).trace@ + s.1
                &&& *final(self) == s.0
                &&& n == s.2
            }),
    {
        let ghost t0 = bus.trace@;
        let ghost pc = self.registers.PC;
        if opcode % 16 == 0x01 {
            self.pop(stack_reg((opcode / 16) % 4), bus);
            3
        } else if opcode % 16 == 0x05 {
            self.push(stack_reg((opcode / 16) % 4), bus);
            4
        } else if opcode == 0xE8 {
            let value = self.fetch_operand(bus);
            bus.tick(1);
            self.add_sp(value);
            bus.tick(1);
            proof { assert(new_events(t0, bus.trace@) =~= seq![rd(pc, value), tk(), tk()]); }
            4
        } else if opcode == 0xF8 {
            let old_sp = self.registers.SP;
            let value = self.fetch_operand(bus);
            self.add_sp(value);
            let sp = self.registers.SP;
            self.registers.set_hl(sp);
            self.registers.SP = old_sp;
            bus.tick(1);
            proof { assert(new_events(t0, bus.trace@) =~= seq![rd(pc, value), tk()]); }
            3
        } else {
            self.registers.SP = self.registers.get_hl();
            bus.tick(1);
            proof { assert(new_events(t0, bus.trace@) =~= seq![tk()]); }
            2
        }
    }

    /// Immediate accumulator operations, high page and absolute loads, DI and EI.
    #[verifier::spinoff_prover]
    #[verifier::rlimit(60)]
    fn exec_acc(&mut self, bus: &mut Bus, opcode: u8) -> (n: u8)
        requires
            old(bus).wf(),
            0xC0 <= opcode,
            opcode != 0xCB,
            !illegal(opcode),
            !cond_flow_group(opcode),
            !flow_group(opcode),
            !stack_group(opcode),
        ensures
            final(bus).wf(),
            final(bus).continues(*old(bus)),
            ({
                let s = acc_spec(*old(self), opcode, new_events(old(bus).trace@, final(bus).trace@));
                &&& final(bus).trace@ =~= old(bus).trace@ + s.1
                &&& *final(self) == s.0
                &&& n == s.2
            }),
    {
        let ghost t0 = bus.trace@;
        let ghost pc = self.registers.PC;
        let ghost a = self.registers.A;
        if opcode % 8 == 6 {
            let value = self.fetch_operand(bus);
            self.alu((opcode / 8) % 8, value);
            proof { assert(new_events(t0, bus.trace@) =~= seq![rd(pc, value)]); }
            2
        } else if opcode == 0xE0 {
            let n = self.fetch_operand(bus);
            let address = 0xFF00 + (n as u16);
            bus.write(address, self.registers.A);
            proof { assert(new_events(t0, bus.trace@) =~= seq![rd(pc, n), wr(address, a)]); }
            3
        } else if opcode == 0xF0 {
            let n = self.fetch_operand(bus);
            let address = 0xFF00 + (n as u16);
            let v = bus.read(address);
            self.registers.A = v;
            proof { assert(new_events(t0, bus.trace@) =~= seq![rd(pc, n), rd(address, v)]); }
            3
        } else if opcode == 0xE2 {
            let address = 0xFF00 + (self.registers.C as u16);
            bus.write(address, self.registers.A);
            proof { assert(new_events(t0, bus.trace@) =~= seq![wr(address, a)]); }
            2
        } else if opcode == 0xF2 {
            let address = 0xFF00 + (self.registers.C as u16);
            let v = bus.read(address);
            self.registers.A = v;
            proof { assert(new_events(t0, bus.trace@) =~= seq![rd(address, v)]); }
            2
        } else if opcode == 0xF3 {
            self.di();
            proof { assert(new_events(t0, bus.trace@) =~= Seq::<BusEvent>::empty()); }
            1
        } else if opcode == 0xFB {
            self.ei();
            proof { assert(new_events(t0, bus.trace@) =~= Seq::<BusEvent>::empty()); }
            1
        } else if opcode == 0xEA {
            let address = bus.read_16(self.registers.PC);
            bus.write(address, self.registers.A);
            self.registers.PC = wrapping_add16(self.registers.PC, 2);
            proof {
                lemma_pair_bytes(address);
                assert(new_events(t0, bus.trace@) =~= seq![
                    rd(pc, lo_byte(address)),
                    rd(add16(pc as int, 1), hi_byte(address)),
                    wr(address, a),
                ]);
            }
            4
        } else {
            let address = bus.read_16(self.registers.PC);
            let v = bus.read(address);
            self.registers.A = v;
            self.registers.PC = wrapping_add16(self.registers.PC, 2);
            proof {
                lemma_pair_bytes(address);
                assert(new_events(t0, bus.trace@) =~= seq![
                    rd(pc, lo_byte(address)),
                    rd(add16(pc as int, 1), hi_byte(address)),
                    rd(address, v),
                ]);
            }
            4
        }
    }
}


impl CPU {
    /// An opcode other than the CB prefix.
    fn exec_op(&mut self, bus: &mut Bus, opcode: u8) -> (n: u8)
        requires
            old(bus).wf(),
            opcode != 0xCB,
        ensures
            final(bus).wf(),
            final(bus).continues(*old(bus)),
            ({
                let s = op_spec(*old(self), opcode, new_events(old(bus).trace@, final(bus).trace@));
                &&& final(bus).trace@ =~= old(bus).trace@ + s.1
                &&& *final(self) == s.0
                &&& n == s.2
            }),
    {
        reveal(op_spec);
        if opcode < 0x40 {
            self.exec_block0(bus, opcode)
        } else if opcode < 0x80 {
            self.exec_ld(bus, opcode)
        } else if opcode < 0xC0 {
            self.exec_alu(bus, opcode)
        } else {
            self.exec_block3(bus, opcode)
        }
    }

    /// Runs one instruction and returns the m-cycles it took; a halted (or hung) processor
    /// lets one m-cycle pass. The bus ticks during the instruction, at each access.
    pub fn tick(&mut self, bus: &mut Bus) -> (n: u8)
        requires
            old(bus).wf(),
        ensures
            final(bus).wf(),
            final(bus).continues(*old(bus)),
            ({
                let s = step_spec(*old(self), new_events(old(bus).trace@, final(bus).trace@));
                &&& final(bus).trace@ =~= old(bus).trace@ + s.1
                &&& *final(self) == s.0
                &&& n == s.2
            }),
    {
        let ghost t0 = bus.trace@;
        if self.halt || self.locked {
            bus.tick(1);
            proof { assert(new_events(t0, bus.trace@) =~= seq![tk()]); }
            return 1;
        }
        // EI takes effect one instruction late
        if self.ei {
            self.ime = true;
            self.ei = false;
        }
        let ghost pc = self.registers.PC;
        let opcode = self.fetch_operand(bus);
        if opcode == 0xCB {
            let cb_opcode = self.fetch_operand(bus);
            let ghost t2 = bus.trace@;
            let n = self.exec_cb(bus, cb_opcode);
            proof {
                let t = new_events(t0, bus.trace@);
                assert(t.skip(2) =~= new_events(t2, bus.trace@));
                assert(t =~= seq![rd(pc, opcode), rd(add16(pc as int, 1), cb_opcode)] + t.skip(2));
            }
            n
        } else {
            let ghost t1 = bus.trace@;
            let n = self.exec_op(bus, opcode);
            proof {
                let t = new_events(t0, bus.trace@);
                assert(t.skip(1) =~= new_events(t1, bus.trace@));
                assert(t =~= seq![rd(pc, opcode)] + t.skip(1));
            }
            n
        }
    }

    /// Services the requested and enabled interrupt of highest priority, if IME allows it,
    /// and says whether one was serviced; a requested and enabled interrupt also ends HALT.
    pub fn handle_interrupts(&mut self, bus: &mut Bus) -> (r: bool)
        requires
            old(bus).wf(),
        ensures
            final(bus).wf(),
            final(bus).continues(*old(bus)),
            ({
                let s = interrupt_spec(*old(self), new_events(old(bus).trace@, final(bus).trace@));
                &&& final(bus).trace@ =~= old(bus).trace@ + s.1
                &&& *final(self) == s.0
                &&& r == s.2
            }),
    {
        let ghost t0 = bus.trace@;
        let raw = bus.pending_interrupts();
        let pending = raw & 0x1F;
        if pending == 0 {
            proof { assert(new_events(t0, bus.trace@) =~= seq![BusEvent::Pending { value: raw }]); }
            return false;
        }
        self.halt = false;
        if !self.ime {
            proof { assert(new_events(t0, bus.trace@) =~= seq![BusEvent::Pending { value: raw }]); }
            return false;
        }
        self.ime = false;
        let interrupt = if pending & 1 != 0 {
            Interrupt::VBlank
        } else if pending & 2 != 0 {
            Interrupt::STAT
        } else if pending & 4 != 0 {
            Interrupt::Timer
        } else if pending & 8 != 0 {
            Interrupt::Serial
        } else {
            Interrupt::Joypad
        };
        bus.acknowledge(interrupt);
        bus.tick(2);
        let pc = self.registers.PC;
        let sp = self.registers.SP;
        self.registers.SP = wrapping_dec16(sp);
        bus.write(self.registers.SP, (pc / 256) as u8);
        self.registers.SP = wrapping_dec16(self.registers.SP);
        bus.write(self.registers.SP, (pc % 256) as u8);
        self.registers.PC = interrupt.vector();
        bus.tick(1);
        proof {
            assert(sub16(sub16(sp as int, 1) as int, 1) == sub16(sp as int, 2));
            assert(new_events(t0, bus.trace@) =~= seq![
                BusEvent::Pending { value: raw },
                BusEvent::Acknowledge { interrupt },
                BusEvent::Tick { cycles: 2 },
                wr(sub16(sp as int, 1), hi_byte(pc)),
                wr(sub16(sp as int, 2), lo_byte(pc)),
                tk(),
            ]);
        }
        true
    }
}


/// `OR` (ALU operation 6) sets exactly the bits of A that are set in A or in the operand; Z
/// tells whether the result is zero, N, H and C are cleared, and no other register changes.
pub proof fn law_or_a(r: Registers, v: u8)
    ensures
        ({
            let s = alu_spec(r, 6, v);
            &&& forall|i: u8|
                i < 8 ==> (((#[trigger] (s.A >> i)) & 1 == 1) <==> ((r.A >> i) & 1 == 1 || (v >> i)
                    & 1 == 1))
            &&& zf(s) == (s.A == 0)
            &&& !nf(s) && !hf(s) && !cf(s)
            &&& s == (Registers { A: s.A, F: s.F, ..r })
        }),
{
    lemma_bit_facts();
    let res = r.A | v;
    law_flags_byte_read_back(r.F, res == 0, false, false, false);
}


/// `AND` (ALU operation 4) keeps exactly the bits of A that are also set in the operand; Z
/// tells whether the result is zero, H is set, N and C are cleared, and no other register
/// changes.
pub proof fn law_and_a(r: Registers, v: u8)
    ensures
        ({
            let s = alu_spec(r, 4, v);
            &&& forall|i: u8|
                i < 8 ==> (((#[trigger] (s.A >> i)) & 1 == 1) <==> ((r.A >> i) & 1 == 1 && (v >> i)
                    & 1 == 1))
            &&& zf(s) == (s.A == 0)
            &&& !nf(s) && hf(s) && !cf(s)
            &&& s == (Registers { A: s.A, F: s.F, ..r })
        }),
{
    lemma_bit_facts();
    let res = r.A & v;
    law_flags_byte_read_back(r.F, res == 0, false, true, false);
}

/// `XOR` (ALU operation 5) sets exactly the bits that are set in one of A and the operand but
/// not in both; Z tells whether the result is zero, N, H and C are cleared, and no other
/// register changes.
pub proof fn law_xor_a(r: Registers, v: u8)
    ensures
        ({
            let s = alu_spec(r, 5, v);
            &&& forall|i: u8|
                i < 8 ==> (((#[trigger] (s.A >> i)) & 1 == 1) <==> (((r.A >> i) & 1 == 1) != ((v >> i)
                    & 1 == 1)))
            &&& zf(s) == (s.A == 0)
            &&& !nf(s) && !hf(s) && !cf(s)
            &&& s == (Registers { A: s.A, F: s.F, ..r })
        }),
{
    lemma_bit_facts();
    let res = r.A ^ v;
    law_flags_byte_read_back(r.F, res == 0, false, false, false);
}
} // verus!
