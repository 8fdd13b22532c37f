use vstd::prelude::*;
use crate::cpu::alu::{add16, add8, offset16, sub16, sub8};
use crate::cpu::cpu::{
    adc_a_spec, add_a_spec, add_hl_spec, add_sp_spec, and_a_spec, bit_spec, ccf_spec, cf,
    cp_a_spec, cpl_a_spec, daa_spec, dec16_spec, dec8_flags_spec, inc16_spec, inc8_flags_spec,
    ld16_spec, or_a_spec, rla_spec, rlca_spec, rra_spec, rrca_spec, sbc_a_spec, scf_spec,
    shift_flags_spec, shift_result, sub_a_spec, xor_a_spec, zf, CPU,
};
use crate::cpu::interrupts::{vector_of, Interrupt};
use crate::cpu::registers::{hi_byte, lo_byte, pair, Registers, Regs};
use crate::mmu::bus::BusEvent;

verus! {

// ------------------------------------------------------------------
// One instruction of the processor, as the bus sees it.
//
// The processor talks to the bus through reads, writes and extra cycles. Each function
// below takes the processor state and the bus events of the instruction, `t`, and gives
// the state after the instruction, the events the instruction makes, in order, and its
// length in m-cycles. The values read are taken from `t`: which address is read next only
// depends on the values read before it, so an instruction ran as specified exactly when
// the events it made are the events computed from them.
// ------------------------------------------------------------------

/// The value carried by event `k`: the byte of a read, or IE & IF of an interrupt check.
pub open spec fn rv(t: Seq<BusEvent>, k: int) -> u8 {
    match t[k] {
        BusEvent::Read { value, .. } => value,
        BusEvent::Pending { value } => value,
        _ => 0,
    }
}

pub open spec fn rd(address: u16, value: u8) -> BusEvent {
    BusEvent::Read { address, value }
}

pub open spec fn wr(address: u16, value: u8) -> BusEvent {
    BusEvent::Write { address, value }
}

/// One extra m-cycle.
pub open spec fn tk() -> BusEvent {
    BusEvent::Tick { cycles: 1 }
}

/// The events appended to a trace.
pub open spec fn new_events(before: Seq<BusEvent>, after: Seq<BusEvent>) -> Seq<BusEvent> {
    after.skip(before.len() as int)
}

pub open spec fn hl(r: Registers) -> u16 {
    pair(r.H, r.L)
}

/// The processor with another program counter.
pub open spec fn at_pc(c: CPU, pc: u16) -> CPU {
    c.with_regs(Registers { PC: pc, ..c.registers })
}

/// 8-bit register by its code in an opcode: B, C, D, E, H, L, -, A (6 is the byte at HL).
pub open spec fn reg8(r: Registers, code: u8) -> u8 {
    if code == 0 {
        r.B
    } else if code == 1 {
        r.C
    } else if code == 2 {
        r.D
    } else if code == 3 {
        r.E
    } else if code == 4 {
        r.H
    } else if code == 5 {
        r.L
    } else {
        r.A
    }
}

pub open spec fn set_reg8(r: Registers, code: u8, v: u8) -> Registers {
    if code == 0 {
        Registers { B: v, ..r }
    } else if code == 1 {
        Registers { C: v, ..r }
    } else if code == 2 {
        Registers { D: v, ..r }
    } else if code == 3 {
        Registers { E: v, ..r }
    } else if code == 4 {
        Registers { H: v, ..r }
    } else if code == 5 {
        Registers { L: v, ..r }
    } else {
        Registers { A: v, ..r }
    }
}

/// The operand with code `code` and the events taken to get it.
pub open spec fn operand(c: CPU, code: u8, t: Seq<BusEvent>) -> (u8, Seq<BusEvent>) {
    if code == 6 {
        (rv(t, 0), seq![rd(hl(c.registers), rv(t, 0))])
    } else {
        (reg8(c.registers, code), seq![])
    }
}

/// Storing `v` into the operand with code `code`.
pub open spec fn store_operand(c: CPU, code: u8, v: u8) -> (CPU, Seq<BusEvent>) {
    if code == 6 {
        (c, seq![wr(hl(c.registers), v)])
    } else {
        (c.with_regs(set_reg8(c.registers, code, v)), seq![])
    }
}

/// 16-bit register by its code in an opcode: BC, DE, HL, SP.
pub open spec fn reg16_of(code: u8) -> Regs {
    if code == 0 {
        Regs::BC
    } else if code == 1 {
        Regs::DE
    } else if code == 2 {
        Regs::HL
    } else {
        Regs::SP
    }
}

/// Address of `LD (rr), A` and `LD A, (rr)`: BC, DE, HL (then incremented), HL (then decremented).
pub open spec fn indirect_address(r: Registers, code: u8) -> u16 {
    if code == 0 {
        pair(r.B, r.C)
    } else if code == 1 {
        pair(r.D, r.E)
    } else {
        hl(r)
    }
}

/// HL after `LD (HL+), A` / `LD (HL-), A` and their loads.
pub open spec fn indirect_after(r: Registers, code: u8) -> Registers {
    if code == 2 {
        inc16_spec(r, Regs::HL)
    } else if code == 3 {
        dec16_spec(r, Regs::HL)
    } else {
        r
    }
}

/// Condition of a conditional jump, call or return: NZ, Z, NC, C.
pub open spec fn cond_met(r: Registers, cond: u8) -> bool {
    if cond == 0 {
        !zf(r)
    } else if cond == 1 {
        zf(r)
    } else if cond == 2 {
        !cf(r)
    } else {
        cf(r)
    }
}

/// The accumulator operation of code `kind`: ADD, ADC, SUB, SBC, AND, XOR, OR, CP.
pub open spec fn alu_spec(r: Registers, kind: u8, v: u8) -> Registers {
    if kind == 0 {
        add_a_spec(r, v)
    } else if kind == 1 {
        adc_a_spec(r, v)
    } else if kind == 2 {
        sub_a_spec(r, v)
    } else if kind == 3 {
        sbc_a_spec(r, v)
    } else if kind == 4 {
        and_a_spec(r, v)
    } else if kind == 5 {
        xor_a_spec(r, v)
    } else if kind == 6 {
        or_a_spec(r, v)
    } else {
        cp_a_spec(r, v)
    }
}

/// The registers after `POP rr` (code: BC, DE, HL, AF); the low nibble of F stays clear.
pub open spec fn pop_spec(r: Registers, code: u8, lo: u8, hi: u8) -> Registers {
    let sp = add16(r.SP as int, 2);
    if code == 0 {
        Registers { C: lo, B: hi, SP: sp, ..r }
    } else if code == 1 {
        Registers { E: lo, D: hi, SP: sp, ..r }
    } else if code == 2 {
        Registers { L: lo, H: hi, SP: sp, ..r }
    } else {
        Registers { F: lo & 0xF0, A: hi, SP: sp, ..r }
    }
}

/// The (high, low) bytes pushed by `PUSH rr` (code: BC, DE, HL, AF).
pub open spec fn push_bytes(r: Registers, code: u8) -> (u8, u8) {
    if code == 0 {
        (r.B, r.C)
    } else if code == 1 {
        (r.D, r.E)
    } else if code == 2 {
        (r.H, r.L)
    } else {
        (r.A, r.F)
    }
}

/// `CALL`: an internal cycle, the return address pushed high byte first, then the jump.
pub open spec fn call_spec(c: CPU, target: u16) -> (CPU, Seq<BusEvent>) {
    let r = c.registers;
    let sp1 = sub16(r.SP as int, 1);
    let sp2 = sub16(r.SP as int, 2);
    (
        c.with_regs(Registers { SP: sp2, PC: target, ..r }),
        seq![tk(), wr(sp1, hi_byte(r.PC)), wr(sp2, lo_byte(r.PC))],
    )
}

/// `RET`: the return address popped low byte first, then an internal cycle.
pub open spec fn ret_spec(c: CPU, t: Seq<BusEvent>) -> (CPU, Seq<BusEvent>) {
    let r = c.registers;
    let lo = rv(t, 0);
    let hi = rv(t, 1);
    (
        c.with_regs(Registers { PC: pair(hi, lo), SP: add16(r.SP as int, 2), ..r }),
        seq![rd(r.SP, lo), rd(add16(r.SP as int, 1), hi), tk()],
    )
}

/// The CB-prefixed instructions (the program counter is past the second byte): rotates,
/// shifts and SWAP, BIT, RES and SET, on a register or on the byte at HL.
#[verifier::opaque]
pub open spec fn cb_spec(c: CPU, cb: u8, t: Seq<BusEvent>) -> (CPU, Seq<BusEvent>, u8) {
    let code = cb % 8;
    let bit = (cb / 8) % 8;
    let (v, e1) = operand(c, code, t);
    let long: u8 = if code == 6 { 4 } else { 2 };
    if cb < 0x40 {
        let kind = cb / 8;
        let res = shift_result(kind, v, cf(c.registers));
        let c1 = c.with_regs(shift_flags_spec(c.registers, kind, v));
        let (c2, e2) = store_operand(c1, code, res);
        (c2, e1 + e2, long)
    } else if cb < 0x80 {
        (c.with_regs(bit_spec(c.registers, bit, v)), e1, if code == 6 { 3 } else { 2 })
    } else if cb < 0xC0 {
        let (c2, e2) = store_operand(c, code, v & !(1u8 << bit));
        (c2, e1 + e2, long)
    } else {
        let (c2, e2) = store_operand(c, code, v | (1u8 << bit));
        (c2, e1 + e2, long)
    }
}

/// Loads among $00-$3F: `LD rr, nn`, `LD (rr), A`, `LD r, n`, `LD (nn), SP`, `LD A, (rr)`.
pub open spec fn loads_group(op: u8) -> bool {
    let low = op % 16;
    low == 0x01 || low == 0x02 || low == 0x06 || low == 0x0E || low == 0x0A || op == 0x08
}

/// Increments, decrements and `ADD HL, rr` among $00-$3F.
pub open spec fn inc_dec_group(op: u8) -> bool {
    let low = op % 16;
    low == 0x03 || low == 0x04 || low == 0x05 || low == 0x09 || low == 0x0B || low == 0x0C || low == 0x0D
}

pub open spec fn loads_spec(c: CPU, op: u8, t: Seq<BusEvent>) -> (CPU, Seq<BusEvent>, u8) {
    let r = c.registers;
    let pc = r.PC;
    let low = op % 16;
    let code = (op / 8) % 8;
    let rr = op / 16;
    if low == 0x01 {
        let lo = rv(t, 0);
        let hi = rv(t, 1);
        let r1 = Registers { PC: add16(pc as int, 2), ..r };
        (c.with_regs(ld16_spec(r1, reg16_of(rr), lo, hi)), seq![rd(pc, lo), rd(add16(pc as int, 1), hi)], 3)
    } else if low == 0x02 {
        (c.with_regs(indirect_after(r, rr)), seq![wr(indirect_address(r, rr), r.A)], 2)
    } else if low == 0x06 || low == 0x0E {
        let n = rv(t, 0);
        let (c2, e2) = store_operand(at_pc(c, add16(pc as int, 1)), code, n);
        (c2, seq![rd(pc, n)] + e2, if code == 6 { 3 } else { 2 })
    } else if op == 0x08 {
        let lo = rv(t, 0);
        let hi = rv(t, 1);
        let address = pair(hi, lo);
        (
            at_pc(c, add16(pc as int, 2)),
            seq![
                rd(pc, lo),
                rd(add16(pc as int, 1), hi),
                wr(address, lo_byte(r.SP)),
                wr(add16(address as int, 1), hi_byte(r.SP)),
            ],
            5,
        )
    } else {
        let v = rv(t, 0);
        (
            c.with_regs(indirect_after(Registers { A: v, ..r }, rr)),
            seq![rd(indirect_address(r, rr), v)],
            2,
        )
    }
}

pub open spec fn inc_dec_spec(c: CPU, op: u8, t: Seq<BusEvent>) -> (CPU, Seq<BusEvent>, u8) {
    let r = c.registers;
    let low = op % 16;
    let code = (op / 8) % 8;
    let rr = op / 16;
    if low == 0x03 {
        (c.with_regs(inc16_spec(r, reg16_of(rr))), seq![tk()], 2)
    } else if low == 0x04 || low == 0x0C {
        let (v, e1) = operand(c, code, t);
        let c1 = c.with_regs(inc8_flags_spec(r, v));
        let (c2, e2) = store_operand(c1, code, add8(v as int, 1));
        (c2, e1 + e2, if code == 6 { 3 } else { 1 })
    } else if low == 0x05 || low == 0x0D {
        let (v, e1) = operand(c, code, t);
        let c1 = c.with_regs(dec8_flags_spec(r, v));
        let (c2, e2) = store_operand(c1, code, sub8(v as int, 1));
        (c2, e1 + e2, if code == 6 { 3 } else { 1 })
    } else if low == 0x09 {
        (c.with_regs(add_hl_spec(r, reg16_of(rr))), seq![tk()], 2)
    } else {
        (c.with_regs(dec16_spec(r, reg16_of(rr))), seq![tk()], 2)
    }
}

/// The rest of $00-$3F: NOP, STOP, accumulator rotates, relative jumps, DAA, CPL, SCF, CCF.
pub open spec fn misc_spec(c: CPU, op: u8, t: Seq<BusEvent>) -> (CPU, Seq<BusEvent>, u8) {
    let r = c.registers;
    let pc = r.PC;
    if op == 0x00 {
        (c, seq![], 1)
    } else if op == 0x07 {
        (c.with_regs(rlca_spec(r)), seq![], 1)
    } else if op == 0x0F {
        (c.with_regs(rrca_spec(r)), seq![], 1)
    } else if op == 0x10 {
        (c, seq![BusEvent::ResetDiv], 1)
    } else if op == 0x17 {
        (c.with_regs(rla_spec(r)), seq![], 1)
    } else if op == 0x18 {
        let e = rv(t, 0);
        (at_pc(c, offset16(add16(pc as int, 1), e)), seq![rd(pc, e), tk()], 3)
    } else if op == 0x1F {
        (c.with_regs(rra_spec(r)), seq![], 1)
    } else if op == 0x20 || op == 0x28 || op == 0x30 || op == 0x38 {
        let e = rv(t, 0);
        let next = add16(pc as int, 1);
        if cond_met(r, (op / 8) % 4) {
            (at_pc(c, offset16(next, e)), seq![rd(pc, e), tk()], 3)
        } else {
            (at_pc(c, next), seq![rd(pc, e)], 2)
        }
    } else if op == 0x27 {
        (c.with_regs(daa_spec(r)), seq![], 1)
    } else if op == 0x2F {
        (c.with_regs(cpl_a_spec(r)), seq![], 1)
    } else if op == 0x37 {
        (c.with_regs(scf_spec(r)), seq![], 1)
    } else {
        (c.with_regs(ccf_spec(r)), seq![], 1)
    }
}

/// Opcodes $00-$3F (the program counter is past the opcode).
pub open spec fn block0_spec(c: CPU, op: u8, t: Seq<BusEvent>) -> (CPU, Seq<BusEvent>, u8) {
    if loads_group(op) {
        loads_spec(c, op, t)
    } else if inc_dec_group(op) {
        inc_dec_spec(c, op, t)
    } else {
        misc_spec(c, op, t)
    }
}

/// Opcodes $40-$7F: `LD r, r'` and `HALT` ($76), which halts unless an enabled interrupt
/// is already requested.
pub open spec fn ld_spec(c: CPU, op: u8, t: Seq<BusEvent>) -> (CPU, Seq<BusEvent>, u8) {
    let dst = (op / 8) % 8;
    let src = op % 8;
    if dst == 6 && src == 6 {
        let p = rv(t, 0);
        (if p & 0x1F == 0 { CPU { halt: true, ..c } } else { c }, seq![BusEvent::Pending { value: p }], 1)
    } else {
        let (v, e1) = operand(c, src, t);
        let (c2, e2) = store_operand(c, dst, v);
        (c2, e1 + e2, if src == 6 || dst == 6 { 2 } else { 1 })
    }
}

/// Opcodes $80-$BF: the accumulator operations on a register or the byte at HL.
pub open spec fn alu_op_spec(c: CPU, op: u8, t: Seq<BusEvent>) -> (CPU, Seq<BusEvent>, u8) {
    let code = op % 8;
    let (v, e1) = operand(c, code, t);
    (c.with_regs(alu_spec(c.registers, (op / 8) % 8, v)), e1, if code == 6 { 2 } else { 1 })
}

/// Whether an opcode has no instruction.
pub open spec fn illegal(op: u8) -> bool {
    op == 0xD3 || op == 0xDB || op == 0xDD || op == 0xE3 || op == 0xE4 || op == 0xEB || op == 0xEC
        || op == 0xED || op == 0xF4 || op == 0xFC || op == 0xFD
}

/// The conditional control flow of $C0-$FF: `RET cc`, `JP cc, nn`, `CALL cc, nn`.
pub open spec fn cond_flow_spec(c: CPU, op: u8, t: Seq<BusEvent>) -> (CPU, Seq<BusEvent>, u8) {
    let r = c.registers;
    let pc = r.PC;
    let taken = cond_met(r, (op / 8) % 4);
    let next2 = add16(pc as int, 2);
    let nn = pair(rv(t, 1), rv(t, 0));
    let fetch2 = seq![rd(pc, rv(t, 0)), rd(add16(pc as int, 1), rv(t, 1))];
    if op % 8 == 0 {
        if taken {
            let (c2, e2) = ret_spec(c, t.skip(1));
            (c2, seq![tk()] + e2, 5)
        } else {
            (c, seq![tk()], 2)
        }
    } else if op % 8 == 2 {
        if taken {
            (at_pc(c, nn), fetch2.push(tk()), 4)
        } else {
            (at_pc(c, next2), fetch2, 3)
        }
    } else {
        if taken {
            let (c2, e2) = call_spec(at_pc(c, next2), nn);
            (c2, fetch2 + e2, 6)
        } else {
            (at_pc(c, next2), fetch2, 3)
        }
    }
}

/// The unconditional control flow of $C0-$FF: `JP nn`, `RST n`, `RET`, `CALL nn`, `RETI`,
/// `JP HL`.
pub open spec fn flow_spec(c: CPU, op: u8, t: Seq<BusEvent>) -> (CPU, Seq<BusEvent>, u8) {
    let r = c.registers;
    let pc = r.PC;
    let next2 = add16(pc as int, 2);
    let nn = pair(rv(t, 1), rv(t, 0));
    let fetch2 = seq![rd(pc, rv(t, 0)), rd(add16(pc as int, 1), rv(t, 1))];
    if op == 0xC3 {
        (at_pc(c, nn), fetch2.push(tk()), 4)
    } else if op == 0xC9 {
        let (c2, e2) = ret_spec(c, t);
        (c2, e2, 4)
    } else if op == 0xCD {
        let (c2, e2) = call_spec(at_pc(c, next2), nn);
        (c2, fetch2 + e2, 6)
    } else if op == 0xD9 {
        let (c2, e2) = ret_spec(CPU { ime: true, ..c }, t);
        (c2, e2, 4)
    } else if op == 0xE9 {
        (at_pc(c, hl(r)), seq![], 1)
    } else {
        let (c2, e2) = call_spec(c, (op & 0x38) as u16);
        (c2, e2, 4)
    }
}

/// The stack and SP arithmetic of $C0-$FF: `POP rr`, `PUSH rr`, `ADD SP, e`,
/// `LD HL, SP + e`, `LD SP, HL`.
pub open spec fn stack_spec(c: CPU, op: u8, t: Seq<BusEvent>) -> (CPU, Seq<BusEvent>, u8) {
    let r = c.registers;
    let pc = r.PC;
    let which = (op / 16) % 4;
    if op % 16 == 0x01 {
        let lo = rv(t, 0);
        let hi = rv(t, 1);
        (
            c.with_regs(pop_spec(r, which, lo, hi)),
            seq![rd(r.SP, lo), rd(add16(r.SP as int, 1), hi)],
            3,
        )
    } else if op % 16 == 0x05 {
        let (hi, lo) = push_bytes(r, which);
        let sp1 = sub16(r.SP as int, 1);
        let sp2 = sub16(r.SP as int, 2);
        (c.with_regs(Registers { SP: sp2, ..r }), seq![tk(), wr(sp1, hi), wr(sp2, lo)], 4)
    } else if op == 0xE8 {
        let e = rv(t, 0);
        (
            c.with_regs(add_sp_spec(Registers { PC: add16(pc as int, 1), ..r }, e)),
            seq![rd(pc, e), tk(), tk()],
            4,
        )
    } else if op == 0xF8 {
        let e = rv(t, 0);
        let r1 = add_sp_spec(Registers { PC: add16(pc as int, 1), ..r }, e);
        (
            c.with_regs(Registers { H: hi_byte(r1.SP), L: lo_byte(r1.SP), SP: r.SP, ..r1 }),
            seq![rd(pc, e), tk()],
            3,
        )
    } else {
        (c.with_regs(Registers { SP: hl(r), ..r }), seq![tk()], 2)
    }
}

/// The accumulator instructions of $C0-$FF: operations on an immediate byte, loads from and
/// to the high page and absolute addresses, and DI / EI.
pub open spec fn acc_spec(c: CPU, op: u8, t: Seq<BusEvent>) -> (CPU, Seq<BusEvent>, u8) {
    let r = c.registers;
    let pc = r.PC;
    let next2 = add16(pc as int, 2);
    let nn = pair(rv(t, 1), rv(t, 0));
    let fetch2 = seq![rd(pc, rv(t, 0)), rd(add16(pc as int, 1), rv(t, 1))];
    if op % 8 == 6 {
        let n = rv(t, 0);
        (
            c.with_regs(alu_spec(Registers { PC: add16(pc as int, 1), ..r }, (op / 8) % 8, n)),
            seq![rd(pc, n)],
            2,
        )
    } else if op == 0xE0 {
        let n = rv(t, 0);
        (at_pc(c, add16(pc as int, 1)), seq![rd(pc, n), wr((0xFF00 + n) as u16, r.A)], 3)
    } else if op == 0xF0 {
        let n = rv(t, 0);
        let v = rv(t, 1);
        (
            c.with_regs(Registers { A: v, PC: add16(pc as int, 1), ..r }),
            seq![rd(pc, n), rd((0xFF00 + n) as u16, v)],
            3,
        )
    } else if op == 0xE2 {
        (c, seq![wr((0xFF00 + r.C) as u16, r.A)], 2)
    } else if op == 0xF2 {
        let v = rv(t, 0);
        (c.with_regs(Registers { A: v, ..r }), seq![rd((0xFF00 + r.C) as u16, v)], 2)
    } else if op == 0xF3 {
        (CPU { ime: false, ..c }, seq![], 1)
    } else if op == 0xFB {
        (CPU { ei: true, ..c }, seq![], 1)
    } else if op == 0xEA {
        (at_pc(c, next2), fetch2.push(wr(nn, r.A)), 4)
    } else {
        let v = rv(t, 2);
        (c.with_regs(Registers { A: v, PC: next2, ..r }), fetch2.push(rd(nn, v)), 4)
    }
}

pub open spec fn cond_flow_group(op: u8) -> bool {
    op == 0xC0 || op == 0xC8 || op == 0xD0 || op == 0xD8 || op == 0xC2 || op == 0xCA || op == 0xD2
        || op == 0xDA || op == 0xC4 || op == 0xCC || op == 0xD4 || op == 0xDC
}

pub open spec fn flow_group(op: u8) -> bool {
    op == 0xC3 || op == 0xC9 || op == 0xCD || op == 0xD9 || op == 0xE9 || op % 8 == 7
}

pub open spec fn stack_group(op: u8) -> bool {
    op % 16 == 0x01 || op % 16 == 0x05 || op == 0xE8 || op == 0xF8 || op == 0xF9
}

/// Opcodes $C0-$FF (the program counter is past the opcode): jumps, calls, returns, the
/// stack, immediate accumulator operations and high page loads. An opcode without an
/// instruction locks the processor.
pub open spec fn block3_spec(c: CPU, op: u8, t: Seq<BusEvent>) -> (CPU, Seq<BusEvent>, u8) {
    if illegal(op) {
        (CPU { locked: true, ..c }, seq![], 1)
    } else if cond_flow_group(op) {
        cond_flow_spec(c, op, t)
    } else if flow_group(op) {
        flow_spec(c, op, t)
    } else if stack_group(op) {
        stack_spec(c, op, t)
    } else {
        acc_spec(c, op, t)
    }
}

/// An opcode other than the CB prefix (the program counter is past the opcode).
#[verifier::opaque]
pub open spec fn op_spec(c: CPU, op: u8, t: Seq<BusEvent>) -> (CPU, Seq<BusEvent>, u8) {
    if op < 0x40 {
        block0_spec(c, op, t)
    } else if op < 0x80 {
        ld_spec(c, op, t)
    } else if op < 0xC0 {
        alu_op_spec(c, op, t)
    } else {
        block3_spec(c, op, t)
    }
}

/// One tick of the processor: a halted or locked processor lets one m-cycle pass; otherwise
/// a pending `EI` takes effect and one instruction is fetched and executed.
pub open spec fn step_spec(c: CPU, t: Seq<BusEvent>) -> (CPU, Seq<BusEvent>, u8) {
    if c.halt || c.locked {
        (c, seq![tk()], 1)
    } else {
        let c1 = if c.ei { CPU { ime: true, ei: false, ..c } } else { c };
        let pc = c1.registers.PC;
        let op = rv(t, 0);
        let c2 = at_pc(c1, add16(pc as int, 1));
        if op == 0xCB {
            let cb = rv(t, 1);
            let (c3, e, n) = cb_spec(at_pc(c1, add16(pc as int, 2)), cb, t.skip(2));
            (c3, seq![rd(pc, op), rd(add16(pc as int, 1), cb)] + e, n)
        } else {
            let (c3, e, n) = op_spec(c2, op, t.skip(1));
            (c3, seq![rd(pc, op)] + e, n)
        }
    }
}

/// The interrupt with the highest priority among the bits of `p` (bit 0 first).
pub open spec fn first_interrupt(p: u8) -> Interrupt {
    if p & 1 != 0 {
        Interrupt::VBlank
    } else if p & 2 != 0 {
        Interrupt::STAT
    } else if p & 4 != 0 {
        Interrupt::Timer
    } else if p & 8 != 0 {
        Interrupt::Serial
    } else {
        Interrupt::Joypad
    }
}

/// Interrupt dispatch before an instruction. A requested and enabled interrupt wakes a
/// halted processor; with IME set the one of highest priority is serviced: IME cleared,
/// its request acknowledged, two internal cycles, the program counter pushed, a jump to its
/// vector and one more cycle. The result says whether an interrupt was serviced.
pub open spec fn interrupt_spec(c: CPU, t: Seq<BusEvent>) -> (CPU, Seq<BusEvent>, bool) {
    let p = rv(t, 0) & 0x1F;
    let check = seq![BusEvent::Pending { value: rv(t, 0) }];
    if p == 0 {
        (c, check, false)
    } else if !c.ime {
        (CPU { halt: false, ..c }, check, false)
    } else {
        let i = first_interrupt(p);
        let r = c.registers;
        let sp1 = sub16(r.SP as int, 1);
        let sp2 = sub16(r.SP as int, 2);
        (
            CPU {
                halt: false,
                ime: false,
                registers: Registers { SP: sp2, PC: vector_of(i), ..r },
                ..c
            },
            seq![
                BusEvent::Pending { value: rv(t, 0) },
                BusEvent::Acknowledge { interrupt: i },
                BusEvent::Tick { cycles: 2 },
                wr(sp1, hi_byte(r.PC)),
                wr(sp2, lo_byte(r.PC)),
                tk(),
            ],
            true,
        )
    }
}

/// `POP rr` gives back what `PUSH rr` saved: the pop reads the two cells the push wrote, low
/// byte first, and restores the register pair and the stack pointer (for AF, whose low nibble
/// of F always pops as zero, when that nibble was clear).
pub proof fn law_push_then_pop(r: Registers, which: u8)
    requires
        which < 4,
        which == 3 ==> r.F % 16 == 0,
    ensures
        ({
            let (hi, lo) = push_bytes(r, which);
            let pushed = Registers { SP: sub16(r.SP as int, 2), ..r };
            &&& pushed.SP == sub16(r.SP as int, 2)
            &&& add16(pushed.SP as int, 1) == sub16(r.SP as int, 1)
            &&& pop_spec(pushed, which, lo, hi) == r
        }),
{
    let f = r.F;
    assert(f % 16 == 0 ==> f & 0xF0 == f) by (bit_vector);
}

/// `RET` comes back from `CALL`: reading the two bytes that the call pushed gives back the
/// program counter the call saved and the stack pointer before the call.
pub proof fn law_call_then_ret(c: CPU, target: u16)
    ensures
        ({
            let (c1, e) = call_spec(c, target);
            let sp = c1.registers.SP;
            let t = seq![rd(sp, lo_byte(c.registers.PC)), rd(add16(sp as int, 1), hi_byte(c.registers.PC))];
            &&& e[1] == wr(add16(sp as int, 1), hi_byte(c.registers.PC))
            &&& e[2] == wr(sp, lo_byte(c.registers.PC))
            &&& c1.registers.PC == target
            &&& ret_spec(c1, t).0.registers.PC == c.registers.PC
            &&& ret_spec(c1, t).0.registers.SP == c.registers.SP
        }),
{
    crate::cpu::registers::lemma_pair_bytes(c.registers.PC);
}

/// Every tick takes at least one m-cycle.
pub proof fn lemma_step_takes_time(c: CPU, t: Seq<BusEvent>)
    ensures
        step_spec(c, t).2 >= 1,
{
    reveal(op_spec);
    reveal(cb_spec);
}

} // verus!
