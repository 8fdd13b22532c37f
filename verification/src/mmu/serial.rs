use vstd::prelude::*;
use crate::cpu::interrupts::{Interrupt, InterruptHandler};
use crate::mmu::mmio::MMIO;

verus! {

/// It takes 128 m-cycles to receive / transfer one bit (8192Hz).
pub const DMG_CLOCK_FREQ_CYCLES: u16 = 128;

/// The serial port (link cable) registers SB and SC and the transfer progress.
#[derive(Clone, Copy)]
pub struct Serial {
    pub sb: u8,
    pub sc: u8,
    pub counter: u8,
    pub cycles_passed: u16,
}

/// SB after shifting in bit number `counter` of a byte of all ones (nothing is connected).
pub open spec fn shift_in(sb: u8, counter: u8) -> u8 {
    (sb << (counter % 8)) | (0xFFu8 >> ((8 - counter) % 8) as u8)
}

/// One bit period of the serial clock: shift a bit while a transfer is requested, and
/// after the eighth bit end the transfer and request the serial interrupt.
pub open spec fn bit_period(s: Serial, ih: InterruptHandler) -> (Serial, InterruptHandler) {
    let shifting = s.sc & 0x80 != 0 && s.counter <= 8;
    let sb = if shifting { shift_in(s.sb, s.counter) } else { s.sb };
    let counter = if shifting { (s.counter + 1) as u8 } else { s.counter };
    let done = counter > 8;
    (
        Serial {
            sb,
            sc: if done { 0x01 } else { s.sc },
            counter: if done { 1 } else { counter },
            cycles_passed: (s.cycles_passed - 128) as u16,
        },
        if done { InterruptHandler { intf: ih.intf | 0b1000, ..ih } } else { ih },
    )
}

/// Bit periods run while at least 128 cycles are banked.
pub open spec fn run_periods(s: Serial, ih: InterruptHandler) -> (Serial, InterruptHandler)
    decreases s.cycles_passed,
{
    if s.cycles_passed >= 128 {
        let (s2, ih2) = bit_period(s, ih);
        run_periods(s2, ih2)
    } else {
        (s, ih)
    }
}

/// The serial port and interrupt flags after `tick(ih, cycles)`.
pub open spec fn serial_tick_spec(s: Serial, ih: InterruptHandler, cycles: u16) -> (
    Serial,
    InterruptHandler,
) {
    run_periods(Serial { cycles_passed: (s.cycles_passed + cycles) as u16, ..s }, ih)
}

impl Serial {
    pub fn default() -> (r: Self)
        ensures
            r == (Serial { sb: 0x00, sc: 0x7E, counter: 1, cycles_passed: 0 }),
    {
        Serial { sb: 0x00, sc: 0x7E, counter: 1, cycles_passed: 0 }
    }

    /// Advances the serial clock by `cycles_passed` m-cycles. The internal clock is assumed
    /// and 0xFF is received, since no other device is connected.
    pub fn tick(&mut self, interrupt_handler: &mut InterruptHandler, cycles_passed: u16)
        requires
            old(self).cycles_passed + cycles_passed <= 0xFFFF,
        ensures
            (*final(self), *final(interrupt_handler)) == serial_tick_spec(
                *old(self),
                *old(interrupt_handler),
                cycles_passed,
            ),
            final(self).cycles_passed < 128,
    {
        self.cycles_passed = self.cycles_passed + cycles_passed;

        while self.cycles_passed >= DMG_CLOCK_FREQ_CYCLES
            invariant
                run_periods(*self, *interrupt_handler) == serial_tick_spec(
                    *old(self),
                    *old(interrupt_handler),
                    cycles_passed,
                ),
            decreases self.cycles_passed,
        {
            let ghost before = (*self, *interrupt_handler);
            if self.is_transfer_requested() && self.counter <= 8 {
                self.sb = (self.sb << (self.counter % 8)) | (0xFFu8 >> ((8 - self.counter) % 8));
                self.counter = self.counter + 1;
            }
            if self.counter > 8 {
                self.counter = 1;
                self.sc = 0x01;
                interrupt_handler.request_interrupt(Interrupt::Serial);
            }
            self.cycles_passed = self.cycles_passed - DMG_CLOCK_FREQ_CYCLES;
            assert((*self, *interrupt_handler) == bit_period(before.0, before.1));
        }
    }

    pub fn is_transfer_requested(&self) -> (r: bool)
        ensures
            r == (self.sc & 0x80 != 0),
    {
        self.sc & 0x80 != 0
    }
}

impl MMIO for Serial {
    open spec fn read_ok(&self, address: u16) -> bool {
        address == 0xFF01 || address == 0xFF02
    }

    open spec fn write_ok(&self, address: u16, value: u8) -> bool {
        address == 0xFF01 || address == 0xFF02
    }

    fn read(&mut self, address: u16) -> (r: u8)
        ensures
            *final(self) == *old(self),
            r == if address == 0xFF01 { old(self).sb } else { old(self).sc },
    {
        if address == 0xFF01 {
            self.sb
        } else {
            self.sc
        }
    }

    fn write(&mut self, address: u16, value: u8)
        ensures
            *final(self) == if address == 0xFF01 {
                Serial { sb: value, ..*old(self) }
            } else {
                Serial { sc: value, ..*old(self) }
            },
    {
        if address == 0xFF01 {
            self.sb = value;
        } else {
            self.sc = value;
        }
    }
}

/// A transfer in progress at bit `k` with enough cycles banked for the remaining bits ends
/// with SB = $FF, SC = $01 and the serial interrupt requested.
proof fn lemma_transfer_from(cur: Serial, cih: InterruptHandler, k: u8)
    requires
        1 <= k <= 8,
        cur.sc == 0x81,
        cur.counter == k,
        128 * (9 - k) <= cur.cycles_passed < 128 * (9 - k) + 128,
    ensures
        ({
            let (s2, ih2) = run_periods(cur, cih);
            &&& s2.sb == 0xFF
            &&& s2.sc == 0x01
            &&& s2.counter == 1
            &&& s2.cycles_passed == cur.cycles_passed - 128 * (9 - k)
            &&& ih2.intf & 0b1000 != 0
        }),
    decreases 8 - k,
{
    let b = cur.sb;
    let f = cih.intf;
    assert(((b << 0u8) | (0xFFu8 >> 0u8)) == 0xFF && (f | 0b1000) & 0b1000 != 0 && (0x81u8 & 0x80u8)
        != 0) by (bit_vector);
    let (n, nih) = bit_period(cur, cih);
    if k < 8 {
        lemma_transfer_from(n, nih, (k + 1) as u8);
    } else {
        assert(run_periods(n, nih) == (n, nih));
    }
}

/// A transfer started with the internal clock from the first bit ends after eight bit periods
/// of 128 m-cycles: nothing is connected, so SB then holds $FF, SC reads $01 and the serial
/// interrupt is requested.
pub proof fn law_serial_transfer_completes(s: Serial, ih: InterruptHandler)
    requires
        s.sc == 0x81,
        s.counter == 1,
        s.cycles_passed < 128,
    ensures
        ({
            let (s2, ih2) = serial_tick_spec(s, ih, 1024);
            &&& s2.sb == 0xFF
            &&& s2.sc == 0x01
            &&& s2.counter == 1
            &&& s2.cycles_passed == s.cycles_passed
            &&& ih2.intf & 0b1000 != 0
        }),
{
    lemma_transfer_from(Serial { cycles_passed: (s.cycles_passed + 1024) as u16, ..s }, ih, 1);
}

} // verus!
