use vstd::prelude::*;
use crate::bits::lemma_div_bits;
use crate::mmu::mmio::MMIO;
use crate::cpu::alu::add16;

verus! {

/// DIV, TIMA, TMA and TAC together with the internal state of the timer circuit.
#[derive(Clone, Copy)]
pub struct Timers {
    pub div: u16,
    pub tima: u8,
    pub tma: u8,
    pub tac: u8,
    pub irq: bool,
    pub and_result_falling_edge: bool,
    pub reload: bool,
}

/// Bit of the system counter selected by the lower two bits of TAC.
pub open spec fn sys_counter_bit(div: u16, tac: u8) -> bool {
    let sel = tac & 0b11;
    if sel == 0 {
        div & 0x200 != 0
    } else if sel == 1 {
        div & 0x8 != 0
    } else if sel == 2 {
        div & 0x20 != 0
    } else {
        div & 0x80 != 0
    }
}

/// The "AND result": selected counter bit and the timer enable bit of TAC.
pub open spec fn and_result(div: u16, tac: u8) -> bool {
    sys_counter_bit(div, tac) && tac & 0b100 != 0
}

/// One T-cycle of the timer: DIV counts up, TIMA counts on a falling edge of the AND result
/// unless an overflow is pending; on overflow TIMA reads 0 and an interrupt is pending.
pub open spec fn t_cycle(t: Timers) -> Timers {
    let div = add16(t.div as int, 1);
    let falling = !t.irq && t.and_result_falling_edge && !and_result(div, t.tac);
    let overflow = falling && t.tima == 255;
    Timers {
        div,
        tima: if falling { if overflow { 0 } else { (t.tima + 1) as u8 } } else { t.tima },
        irq: t.irq || overflow,
        and_result_falling_edge: and_result(div, t.tac),
        ..t
    }
}

/// `n` T-cycles of the timer.
pub open spec fn t_cycles(t: Timers, n: nat) -> Timers
    decreases n,
{
    if n == 0 {
        t
    } else {
        t_cycle(t_cycles(t, (n - 1) as nat))
    }
}

/// The timer after `tick(m)`: the reload marker cleared, then `4 * m` T-cycles.
pub open spec fn tick_spec(t: Timers, m: u16) -> Timers {
    t_cycles(Timers { reload: false, ..t }, (4 * m) as nat)
}

impl MMIO for Timers {
    open spec fn read_ok(&self, address: u16) -> bool {
        0xFF04 <= address <= 0xFF07
    }

    open spec fn write_ok(&self, address: u16, value: u8) -> bool {
        0xFF04 <= address <= 0xFF07
    }

    fn read(&mut self, address: u16) -> (r: u8)
        ensures
            *final(self) == *old(self),
            r == if address == 0xFF04 {
                (old(self).div / 256) as u8
            } else if address == 0xFF05 {
                old(self).tima
            } else if address == 0xFF06 {
                old(self).tma
            } else {
                old(self).tac
            },
    {
        match address {
            0xFF04 => (self.div / 256) as u8,
            0xFF05 => self.tima,
            0xFF06 => self.tma,
            _ => self.tac,
        }
    }

    fn write(&mut self, address: u16, value: u8)
        ensures
            *final(self) == old(self).write_spec(address, value),
    {
        match address {
            0xFF04 => self.div = 0,
            0xFF05 => {
                // during the cycle before the reload, writing TIMA cancels the interrupt
                if self.irq && self.tima == 0 {
                    self.irq = false;
                    self.reload = false;
                }
                if !self.reload {
                    self.tima = value;
                }
            },
            0xFF06 => {
                if self.reload {
                    self.tima = value;
                }
                self.tma = value;
            },
            _ => {
                self.tac = value | 0b1111_1000;
            },
        }
    }
}

impl Timers {
    /// The timer after a register write (DIV reset, TIMA / TMA with the reload quirks, TAC).
    pub open spec fn write_spec(self, address: u16, value: u8) -> Timers {
        if address == 0xFF04 {
            Timers { div: 0, ..self }
        } else if address == 0xFF05 {
            let cancel = self.irq && self.tima == 0;
            let irq = if cancel { false } else { self.irq };
            let reload = if cancel { false } else { self.reload };
            Timers { irq, reload, tima: if !reload { value } else { self.tima }, ..self }
        } else if address == 0xFF06 {
            Timers { tima: if self.reload { value } else { self.tima }, tma: value, ..self }
        } else {
            Timers { tac: value | 0b1111_1000, ..self }
        }
    }

    pub fn new() -> (r: Self)
        ensures
            r == (Timers {
                div: 0xABCC,
                tima: 0,
                tma: 0,
                tac: 0xF8,
                irq: false,
                and_result_falling_edge: false,
                reload: false,
            }),
    {
        Timers {
            div: 0xABCC,
            tima: 0,
            tma: 0,
            tac: 0xF8,
            irq: false,
            and_result_falling_edge: false,
            reload: false,
        }
    }

    /// Ticks the timer by `cycles_tima` m-cycles, advancing DIV and TIMA every T-cycle
    /// and updating the internal falling edge.
    pub fn tick(&mut self, cycles_tima: u16)
        requires
            cycles_tima <= 0x3FFF,
        ensures
            *final(self) == tick_spec(*old(self), cycles_tima),
    {
        self.reload = false;
        let n: u16 = cycles_tima * 4;
        let ghost start = *self;
        let mut i: u16 = 0;
        while i < n
            invariant
                i <= n,
                *self == t_cycles(start, i as nat),
            decreases n - i,
        {
            self.tick_div();
            self.tick_tima();
            self.and_result_falling_edge = self.get_timer_falling_edge();
            i = i + 1;
        }
    }

    /// Reloads TIMA from TMA after an overflow and marks the reload cycle.
    pub fn reload_tima(&mut self)
        ensures
            *final(self) == (Timers { tima: old(self).tma, irq: false, reload: true, ..*old(self) }),
    {
        self.tima = self.tma;
        self.irq = false;
        self.reload = true;
    }

    /// Bit of DIV selected by the lower two bits of TAC.
    pub fn get_sys_counter_bit(&self) -> (r: bool)
        ensures
            r == sys_counter_bit(self.div, self.tac),
    {
        let sel: u8 = self.tac & 0b11;
        if sel == 0 {
            (self.div & 0x200) != 0
        } else if sel == 1 {
            (self.div & 0x8) != 0
        } else if sel == 2 {
            (self.div & 0x20) != 0
        } else {
            (self.div & 0x80) != 0
        }
    }

    pub fn tick_div(&mut self)
        ensures
            *final(self) == (Timers { div: add16(old(self).div as int, 1), ..*old(self) }),
    {
        self.div = self.div.wrapping_add(1);
    }

    /// Increases TIMA on a falling edge of the AND result unless an overflow is pending.
    pub fn tick_tima(&mut self)
        ensures
            ({
                let falling = !old(self).irq && old(self).and_result_falling_edge && !and_result(
                    old(self).div,
                    old(self).tac,
                );
                let overflow = falling && old(self).tima == 255;
                *final(self) == (Timers {
                    tima: if falling {
                        if overflow { 0 } else { (old(self).tima + 1) as u8 }
                    } else {
                        old(self).tima
                    },
                    irq: old(self).irq || overflow,
                    ..*old(self)
                })
            }),
    {
        if !self.irq {
            if self.and_result_falling_edge && !self.get_timer_falling_edge() {
                if self.tima == 255 {
                    self.tima = 0x00;  // set to TMA next cycle
                    self.irq = true;
                } else {
                    self.tima = self.tima + 1;
                }
            }
        }
    }

    /// The AND result of the selected DIV bit and the timer enable bit.
    pub fn get_timer_falling_edge(&self) -> (r: bool)
        ensures
            r == and_result(self.div, self.tac),
    {
        self.get_sys_counter_bit() && self.is_timer_enabled()
    }

    pub fn is_timer_enabled(&self) -> (r: bool)
        ensures
            r == (self.tac & 0b100 != 0),
    {
        (self.tac & 0b100) != 0
    }
}

/// Writing DIV resets the whole counter, so DIV reads 0 right after.
pub proof fn law_div_write_resets(t: Timers, value: u8)
    ensures
        t.write_spec(0xFF04, value).div == 0,
        t.write_spec(0xFF04, value).tima == t.tima,
{
}

/// TAC always reads back with its five unused bits set.
pub proof fn law_tac_unused_bits(t: Timers, value: u8)
    ensures
        t.write_spec(0xFF07, value).tac & 0b1111_1000 == 0b1111_1000,
        t.write_spec(0xFF07, value).tac & 0b111 == value & 0b111,
{
    assert((value | 0b1111_1000u8) & 0b1111_1000 == 0b1111_1000 && (value | 0b1111_1000u8) & 0b111
        == value & 0b111) by (bit_vector);
}

/// With the timer disabled (and no falling edge left over from when it was enabled) TIMA never
/// changes, however long the timer runs.
pub proof fn law_disabled_timer_keeps_tima(t: Timers, n: nat)
    requires
        t.tac & 0b100 == 0,
        !t.and_result_falling_edge,
    ensures
        t_cycles(t, n).tima == t.tima,
        t_cycles(t, n).tac == t.tac,
        t_cycles(t, n).irq == t.irq,
        !t_cycles(t, n).and_result_falling_edge,
    decreases n,
{
    if n > 0 {
        law_disabled_timer_keeps_tima(t, (n - 1) as nat);
    }
}

/// DIV counts T-cycles modulo 2^16.
pub proof fn law_div_counts_cycles(t: Timers, n: nat)
    ensures
        t_cycles(t, n).div == (t.div + n) % 0x10000,
    decreases n,
{
    if n > 0 {
        law_div_counts_cycles(t, (n - 1) as nat);
    }
}


/// Half the period in T-cycles of the TIMA clock for the frequency code in TAC bits 0-1:
/// TIMA counts every 1024, 16, 64 or 256 T-cycles (4096, 262144, 65536, 16384 Hz).
pub open spec fn half_period(code: u8) -> int {
    if code == 0 {
        512
    } else if code == 1 {
        8
    } else if code == 2 {
        32
    } else {
        128
    }
}

/// The clock of TIMA is DIV divided by half its period, taken modulo 2: it falls once every
/// 1024, 16, 64 or 256 T-cycles for frequency codes 0, 1, 2 and 3.
pub proof fn law_timer_frequency(div: u16, tac: u8)
    ensures
        sys_counter_bit(div, tac) == ((div as int / half_period(tac & 0b11)) % 2 == 1),
{
    lemma_div_bits();
    assert(div & 0x200 != 0 <==> (div / 512) % 2 == 1);
    assert(div & 0x8 != 0 <==> (div / 8) % 2 == 1);
    assert(div & 0x20 != 0 <==> (div / 32) % 2 == 1);
    assert(div & 0x80 != 0 <==> (div / 128) % 2 == 1);
}


/// Within a period of `2h` that starts at a multiple of `2h`, the quotient by `h` is odd
/// exactly in the second half.
proof fn lemma_half_period_parity(m: int, h: int, j: int)
    requires
        h > 0,
        m >= 0,
        0 <= j <= 2 * h,
    ensures
        ((m * (2 * h) + j) / h) % 2 == 1 <==> h <= j < 2 * h,
{
    let q: int = if j < h { 0 } else if j < 2 * h { 1 } else { 2 };
    let r: int = j - q * h;
    assert(m * (2 * h) + j == (2 * m + q) * h + r) by (nonlinear_arith)
        requires
            r == j - q * h,
    ;
    vstd::arithmetic::div_mod::lemma_fundamental_div_mod_converse(m * (2 * h) + j, h, 2 * m + q, r);
}

/// With the timer enabled, TIMA counts once per period of its frequency (1024, 16, 64 or 256
/// T-cycles for codes 0-3): from a DIV that is a multiple of the period, with the edge detector
/// in step and no overflow pending, TIMA stays put for the first `2h - 1` T-cycles and has
/// gone up by one after `2h`, `h` being half the period.
pub proof fn law_timer_counts_once_per_period(t: Timers, j: nat)
    requires
        t.tac & 0b100 != 0,
        !t.irq,
        t.tima < 255,
        t.and_result_falling_edge == and_result(t.div, t.tac),
        (t.div as int) % (2 * half_period(t.tac & 0b11)) == 0,
        t.div + 2 * half_period(t.tac & 0b11) <= 0xFFFF,
        j <= 2 * half_period(t.tac & 0b11),
    ensures
        t_cycles(t, j).tima == if j == 2 * half_period(t.tac & 0b11) { t.tima + 1 } else { t.tima as int },
        t_cycles(t, j).div == t.div + j,
        t_cycles(t, j).tac == t.tac,
        !t_cycles(t, j).irq,
        t_cycles(t, j).and_result_falling_edge == and_result(t_cycles(t, j).div, t.tac),
    decreases j,
{
    let h = half_period(t.tac & 0b11);
    let m = (t.div as int) / (2 * h);
    assert(t.div as int == m * (2 * h)) by {
        vstd::arithmetic::div_mod::lemma_fundamental_div_mod(t.div as int, 2 * h);
    }
    if j > 0 {
        law_timer_counts_once_per_period(t, (j - 1) as nat);
        let u = t_cycles(t, (j - 1) as nat);
        law_timer_frequency(u.div, t.tac);
        law_timer_frequency((u.div + 1) as u16, t.tac);
        lemma_half_period_parity(m, h, j - 1);
        lemma_half_period_parity(m, h, j as int);
    }
}
} // verus!
