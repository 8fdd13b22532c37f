use vstd::prelude::*;
use crate::cpu::alu::{add8, sub16, sub8};
use crate::memory::filled;

verus! {

/// Square wave duty patterns (12.5%, 25%, 50%, 75%): step `pos` of pattern `duty`.
pub open spec fn duty_bit(duty: u8, pos: u8) -> u8 {
    if duty == 0 {
        if pos == 7 { 1u8 } else { 0u8 }
    } else if duty == 1 {
        if pos == 0 || pos == 7 { 1u8 } else { 0u8 }
    } else if duty == 2 {
        if pos == 0 || pos == 5 || pos == 6 || pos == 7 { 1u8 } else { 0u8 }
    } else {
        if pos == 0 || pos == 7 { 0u8 } else { 1u8 }
    }
}

pub fn wave_duty(duty: u8, pos: u8) -> (r: u8)
    ensures
        r == duty_bit(duty, pos),
        r <= 1,
{
    if duty == 0 {
        if pos == 7 { 1 } else { 0 }
    } else if duty == 1 {
        if pos == 0 || pos == 7 { 1 } else { 0 }
    } else if duty == 2 {
        if pos == 0 || pos == 5 || pos == 6 || pos == 7 { 1 } else { 0 }
    } else {
        if pos == 0 || pos == 7 { 0 } else { 1 }
    }
}

/// Period of a square channel's frequency timer for the 11-bit frequency in NRx3/NRx4.
pub open spec fn square_period(hi: u8, lo: u8) -> u16 {
    ((2048 - (((hi & 0b111) as u16) << 8 | lo as u16)) * 4) as u16
}

/// One volume envelope step: the timer counts down; when it reaches zero it reloads from the
/// envelope period and the volume moves one step up or down within 0..=15.
pub open spec fn envelope(nrx2: u8, volume: u8, vol_timer: u8) -> (u8, u8) {
    if nrx2 & 0b111 == 0 {
        (volume, vol_timer)
    } else {
        let t = if vol_timer > 0 { (vol_timer - 1) as u8 } else { vol_timer };
        if t == 0 {
            let v = if nrx2 & 0x08 == 0 {
                if volume > 0 { (volume - 1) as u8 } else { volume }
            } else {
                if volume < 0xF { (volume + 1) as u8 } else { volume }
            };
            (v, nrx2 & 0b111)
        } else {
            (volume, t)
        }
    }
}

fn envelope_step(nrx2: u8, volume: &mut u8, vol_timer: &mut u8)
    ensures
        (*final(volume), *final(vol_timer)) == envelope(nrx2, *old(volume), *old(vol_timer)),
{
    if nrx2 & 0b111 != 0 {
        if *vol_timer > 0 {
            *vol_timer = *vol_timer - 1;
        }
        if *vol_timer == 0 {
            *vol_timer = nrx2 & 0b111;
            if nrx2 & 0x08 == 0 {
                if *volume > 0 {
                    *volume = *volume - 1;
                }
            } else {
                if *volume < 0xF {
                    *volume = *volume + 1;
                }
            }
        }
    }
}

/// Channel 1 produces square waves and uses both envelope and sweep.
#[derive(Clone, Copy)]
pub struct ChannelOne {
    pub volume: u8,
    pub vol_timer: u8,
    pub sweep_timer: u8,
    pub len_counter: u8,
    pub duty_cycle: u8,
    pub freq_timer: u16,
    pub nr10: u8,
    pub nr11: u8,
    pub nr12: u8,
    pub nr13: u8,
    pub nr14: u8,
}

/// Channel 2 produces square waves and uses the envelope.
#[derive(Clone, Copy)]
pub struct ChannelTwo {
    pub volume: u8,
    pub vol_timer: u8,
    pub len_counter: u8,
    pub duty_cycle: u8,
    pub freq_timer: u16,
    pub nr21: u8,
    pub nr22: u8,
    pub nr23: u8,
    pub nr24: u8,
}

/// Channel 3 plays custom waves from the 4-bit samples in Wave RAM.
#[derive(Clone, Copy)]
pub struct ChannelThree {
    pub current_index: u8,
    pub len_counter: u16,
    pub freq_timer: u16,
    pub nr30: u8,
    pub nr31: u8,
    pub nr32: u8,
    pub nr33: u8,
    pub nr34: u8,
}

/// Channel 4 produces pseudo random noise and uses the envelope.
#[derive(Clone, Copy)]
pub struct ChannelFour {
    pub volume: u8,
    pub vol_timer: u8,
    pub len_counter: u8,
    /// technically a 15 bit register
    pub lfsr: u16,
    pub freq_timer: u16,
    pub nr41: u8,
    pub nr42: u8,
    pub nr43: u8,
    pub nr44: u8,
}

// ------------------------------ Channel 1 ------------------------------

impl ChannelOne {
    pub open spec fn duty_spec(self) -> ChannelOne {
        let t = sub16(self.freq_timer as int, 1);
        if t == 0 {
            ChannelOne {
                freq_timer: square_period(self.nr14, self.nr13),
                duty_cycle: (add8(self.duty_cycle as int, 1) % 8) as u8,
                ..self
            }
        } else {
            ChannelOne { freq_timer: t, ..self }
        }
    }

    /// The 11-bit frequency after one sweep step.
    pub open spec fn swept(self) -> u16 {
        let wave_length = ((self.nr14 & 0b111) as u16) << 8 | self.nr13 as u16;
        let delta = wave_length >> (self.nr10 & 0b111);
        if self.nr10 & 0x08 == 0 {
            (wave_length + delta) as u16
        } else {
            (wave_length - delta) as u16
        }
    }

    /// The channel and NR52 after a frame sequencer step `div_apu`: length counter on even
    /// steps, frequency sweep every 4th, volume envelope every 8th.
    pub open spec fn tick_spec(self, div_apu: u8, nr52: u8) -> (ChannelOne, u8) {
        let len_step = div_apu % 2 == 0 && self.len_counter > 0 && self.nr14 & 0x40 != 0;
        let len = if len_step { (self.len_counter - 1) as u8 } else { self.len_counter };
        let nr52_1 = if len_step && len == 0 { nr52 & !1u8 } else { nr52 };
        let c1 = ChannelOne { len_counter: len, ..self };

        let pace = (self.nr10 & 0x70) >> 4;
        let sweep = div_apu % 4 == 0 && pace != 0;
        let st = if sweep && c1.sweep_timer > 0 { (c1.sweep_timer - 1) as u8 } else { c1.sweep_timer };
        let fire = sweep && st == 0;
        let new_len = c1.swept();
        let c2 = if fire {
            ChannelOne {
                sweep_timer: pace,
                nr13: new_len as u8,
                nr14: c1.nr14 | ((new_len & 0x700) >> 8) as u8,
                ..c1
            }
        } else {
            ChannelOne { sweep_timer: st, ..c1 }
        };
        let nr52_2 = if fire && self.nr10 & 0x08 == 0 && new_len > 0x7FF { nr52_1 & !1u8 } else { nr52_1 };

        let (v, t) = envelope(c2.nr12, c2.volume, c2.vol_timer);
        let c3 = if div_apu % 8 == 0 { ChannelOne { volume: v, vol_timer: t, ..c2 } } else { c2 };
        (c3, nr52_2)
    }

    pub open spec fn trigger_spec(self, nr52: u8) -> (ChannelOne, u8) {
        (
            ChannelOne {
                len_counter: if self.len_counter == 0 { 64 } else { self.len_counter },
                volume: (self.nr12 & 0xF0) >> 4,
                vol_timer: self.nr12 & 0b111,
                freq_timer: (self.nr12 & 0b111) as u16,
                sweep_timer: 0,
                ..self
            },
            if self.nr12 & 0xF8 != 0 { nr52 | 1 } else { nr52 },
        )
    }

    pub fn default() -> (r: Self)
        ensures
            r == (ChannelOne {
                volume: 0,
                vol_timer: 0,
                sweep_timer: 0,
                len_counter: 0,
                duty_cycle: 0,
                freq_timer: 0,
                nr10: 0x80,
                nr11: 0xBF,
                nr12: 0xF3,
                nr13: 0xFF,
                nr14: 0xBF,
            }),
    {
        ChannelOne {
            volume: 0,
            vol_timer: 0,
            sweep_timer: 0,
            len_counter: 0,
            duty_cycle: 0,
            freq_timer: 0,
            nr10: 0x80,
            nr11: 0xBF,
            nr12: 0xF3,
            nr13: 0xFF,
            nr14: 0xBF,
        }
    }

    /// Frequency timer; ticks every T-cycle and advances the duty step when it runs out.
    pub fn duty_cycle(&mut self)
        ensures
            *final(self) == old(self).duty_spec(),
    {
        self.freq_timer = self.freq_timer.wrapping_sub(1);
        if self.freq_timer == 0 {
            let hi: u8 = self.nr14;
            let lo: u8 = self.nr13;
            let freq: u16 = ((hi & 0b111) as u16) << 8 | lo as u16;
            assert(freq <= 2047) by (bit_vector)
                requires
                    freq == ((hi & 0b111) as u16) << 8 | lo as u16,
            ;
            self.freq_timer = (2048 - freq) * 4;
            self.duty_cycle = self.duty_cycle.wrapping_add(1) % 8;
        }
    }

    pub fn tick(&mut self, div_apu: u8, nr52: &mut u8)
        ensures
            (*final(self), *final(nr52)) == old(self).tick_spec(div_apu, *old(nr52)),
    {
        if div_apu % 2 == 0 {
            if self.len_counter > 0 && self.nr14 & 0x40 != 0 {
                self.len_counter = self.len_counter - 1;
                // turn the channel off when the length counter reaches zero
                if self.len_counter == 0 {
                    *nr52 = *nr52 & !1u8;
                }
            }
        }

        // frequency sweep
        if div_apu % 4 == 0 {
            let sweep_pace: u8 = (self.nr10 & 0x70) >> 4;
            if sweep_pace != 0 {
                if self.sweep_timer > 0 {
                    self.sweep_timer = self.sweep_timer - 1;
                }
                if self.sweep_timer == 0 {
                    self.sweep_timer = sweep_pace;
                    let hi: u8 = self.nr14;
                    let lo: u8 = self.nr13;
                    let wave_length: u16 = ((hi & 0b111) as u16) << 8 | lo as u16;
                    let n10: u8 = self.nr10;
                    let slope: u8 = n10 & 0b111;
                    assert(slope < 8) by (bit_vector)
                        requires
                            slope == n10 & 0b111,
                    ;
                    let delta: u16 = wave_length >> slope;
                    assert(wave_length <= 2047 && delta <= wave_length) by (bit_vector)
                        requires
                            wave_length == ((hi & 0b111) as u16) << 8 | lo as u16,
                            delta == wave_length >> slope,
                    ;
                    // 0 = increase, 1 = decrease
                    let new_wave_length: u16 = if self.nr10 & 0x08 == 0 {
                        wave_length + delta
                    } else {
                        wave_length - delta
                    };
                    // the channel turns off when the wave length overflows 11 bits in addition mode
                    if self.nr10 & 0x08 == 0 && new_wave_length > 0x7FF {
                        *nr52 = *nr52 & !1u8;
                    }
                    self.nr13 = new_wave_length as u8;
                    self.nr14 = self.nr14 | ((new_wave_length & 0x700) >> 8) as u8;
                }
            }
        }

        // volume envelope
        if div_apu % 8 == 0 {
            envelope_step(self.nr12, &mut self.volume, &mut self.vol_timer);
        }
    }

    /// The digital output (0..=15) of the square wave at the current duty step.
    pub fn digital_sample(&self) -> (r: u8)
        requires
            self.volume <= 15,
        ensures
            r == duty_bit((self.nr11 & 0xC0) >> 6, self.duty_cycle) * self.volume,
    {
        wave_duty((self.nr11 & 0xC0) >> 6, self.duty_cycle) * self.volume
    }

    pub fn clear(&mut self)
        ensures
            *final(self) == (ChannelOne { nr10: 0, nr11: 0, nr12: 0, nr13: 0, nr14: 0, ..*old(self) }),
    {
        self.nr10 = 0;
        self.nr11 = 0;
        self.nr12 = 0;
        self.nr13 = 0;
        self.nr14 = 0;
    }

    /// Starts the channel (bit 7 of NR14 written); it only turns on in NR52 if its DAC is on.
    pub fn trigger(&mut self, nr52: &mut u8)
        ensures
            (*final(self), *final(nr52)) == old(self).trigger_spec(*old(nr52)),
    {
        if self.len_counter == 0 {
            self.len_counter = 64;
        }
        self.volume = (self.nr12 & 0xF0) >> 4;
        self.vol_timer = self.nr12 & 0b111;
        self.freq_timer = (self.nr12 & 0b111) as u16;
        self.sweep_timer = 0;
        if self.is_dac_on() {
            *nr52 = *nr52 | 1;
        }
    }

    pub fn is_dac_on(&self) -> (r: bool)
        ensures
            r == (self.nr12 & 0xF8 != 0),
    {
        self.nr12 & 0xF8 != 0
    }
}

// ------------------------------ Channel 2 ------------------------------

impl ChannelTwo {
    pub open spec fn duty_spec(self) -> ChannelTwo {
        let t = sub16(self.freq_timer as int, 1);
        if t == 0 {
            ChannelTwo {
                freq_timer: square_period(self.nr24, self.nr23),
                duty_cycle: (add8(self.duty_cycle as int, 1) % 8) as u8,
                ..self
            }
        } else {
            ChannelTwo { freq_timer: t, ..self }
        }
    }

    pub open spec fn tick_spec(self, div_apu: u8, nr52: u8) -> (ChannelTwo, u8) {
        let len_step = div_apu % 2 == 0 && self.len_counter > 0 && self.nr24 & 0x40 != 0;
        let len = if len_step { (self.len_counter - 1) as u8 } else { self.len_counter };
        let nr52_1 = if len_step && len == 0 { nr52 & !2u8 } else { nr52 };
        let (v, t) = envelope(self.nr22, self.volume, self.vol_timer);
        let c = ChannelTwo { len_counter: len, ..self };
        (if div_apu % 8 == 0 { ChannelTwo { volume: v, vol_timer: t, ..c } } else { c }, nr52_1)
    }

    pub open spec fn trigger_spec(self, nr52: u8) -> (ChannelTwo, u8) {
        (
            ChannelTwo {
                len_counter: if self.len_counter == 0 { 64 } else { self.len_counter },
                volume: (self.nr22 & 0xF0) >> 4,
                vol_timer: self.nr22 & 0b111,
                freq_timer: (self.nr22 & 0b111) as u16,
                ..self
            },
            if self.nr22 & 0xF8 != 0 { nr52 | 2 } else { nr52 },
        )
    }

    pub fn default() -> (r: Self)
        ensures
            r == (ChannelTwo {
                volume: 0,
                vol_timer: 0,
                len_counter: 0,
                duty_cycle: 0,
                freq_timer: 0,
                nr21: 0x3F,
                nr22: 0x00,
                nr23: 0xFF,
                nr24: 0xBF,
            }),
    {
        ChannelTwo {
            volume: 0,
            vol_timer: 0,
            len_counter: 0,
            duty_cycle: 0,
            freq_timer: 0,
            nr21: 0x3F,
            nr22: 0x00,
            nr23: 0xFF,
            nr24: 0xBF,
        }
    }

    pub fn duty_cycle(&mut self)
        ensures
            *final(self) == old(self).duty_spec(),
    {
        self.freq_timer = self.freq_timer.wrapping_sub(1);
        if self.freq_timer == 0 {
            let hi: u8 = self.nr24;
            let lo: u8 = self.nr23;
            let freq: u16 = ((hi & 0b111) as u16) << 8 | lo as u16;
            assert(freq <= 2047) by (bit_vector)
                requires
                    freq == ((hi & 0b111) as u16) << 8 | lo as u16,
            ;
            self.freq_timer = (2048 - freq) * 4;
            self.duty_cycle = self.duty_cycle.wrapping_add(1) % 8;
        }
    }

    /// Frame sequencer step: length counter on even steps, volume envelope every 8th.
    pub fn tick(&mut self, div_apu: u8, nr52: &mut u8)
        ensures
            (*final(self), *final(nr52)) == old(self).tick_spec(div_apu, *old(nr52)),
    {
        if div_apu % 2 == 0 {
            if self.len_counter > 0 && self.nr24 & 0x40 != 0 {
                self.len_counter = self.len_counter - 1;
                if self.len_counter == 0 {
                    *nr52 = *nr52 & !2u8;
                }
            }
        }
        if div_apu % 8 == 0 {
            envelope_step(self.nr22, &mut self.volume, &mut self.vol_timer);
        }
    }

    pub fn digital_sample(&self) -> (r: u8)
        requires
            self.volume <= 15,
        ensures
            r == duty_bit((self.nr21 & 0xC0) >> 6, self.duty_cycle) * self.volume,
    {
        wave_duty((self.nr21 & 0xC0) >> 6, self.duty_cycle) * self.volume
    }

    pub fn clear(&mut self)
        ensures
            *final(self) == (ChannelTwo { nr21: 0, nr22: 0, nr23: 0, nr24: 0, ..*old(self) }),
    {
        self.nr21 = 0;
        self.nr22 = 0;
        self.nr23 = 0;
        self.nr24 = 0;
    }

    pub fn trigger(&mut self, nr52: &mut u8)
        ensures
            (*final(self), *final(nr52)) == old(self).trigger_spec(*old(nr52)),
    {
        if self.len_counter == 0 {
            self.len_counter = 64;
        }
        self.volume = (self.nr22 & 0xF0) >> 4;
        self.vol_timer = self.nr22 & 0b111;
        self.freq_timer = (self.nr22 & 0b111) as u16;
        if self.is_dac_on() {
            *nr52 = *nr52 | 2;
        }
    }

    pub fn is_dac_on(&self) -> (r: bool)
        ensures
            r == (self.nr22 & 0xF8 != 0),
    {
        self.nr22 & 0xF8 != 0
    }
}

// ------------------------------ Channel 3 ------------------------------

impl ChannelThree {
    pub open spec fn duty_spec(self) -> ChannelThree {
        let t = sub16(self.freq_timer as int, 1);
        if t == 0 {
            ChannelThree {
                freq_timer: ((2048 - (((self.nr34 & 0b111) as u16) << 8 | self.nr33 as u16)) * 2) as u16,
                current_index: (add8(self.current_index as int, 1) % 32) as u8,
                ..self
            }
        } else {
            ChannelThree { freq_timer: t, ..self }
        }
    }

    pub open spec fn tick_spec(self, div_apu: u8, nr52: u8) -> (ChannelThree, u8) {
        let len_step = div_apu % 2 == 0 && self.len_counter > 0;
        let len = if len_step { (self.len_counter - 1) as u16 } else { self.len_counter };
        (
            ChannelThree { len_counter: len, ..self },
            if len_step && len == 0 && self.nr34 & 0x40 != 0 { nr52 & !4u8 } else { nr52 },
        )
    }

    pub open spec fn trigger_spec(self, nr52: u8) -> (ChannelThree, u8) {
        (
            ChannelThree {
                len_counter: if self.len_counter == 0 { 256 } else { self.len_counter },
                current_index: 1,
                ..self
            },
            if self.nr30 & 0x80 != 0 { nr52 | 4 } else { nr52 },
        )
    }

    pub fn default() -> (r: Self)
        ensures
            r == (ChannelThree {
                current_index: 0,
                len_counter: 0,
                freq_timer: 0,
                nr30: 0x7F,
                nr31: 0xFF,
                nr32: 0x9F,
                nr33: 0xFF,
                nr34: 0xBF,
            }),
    {
        ChannelThree {
            current_index: 0,
            len_counter: 0,
            freq_timer: 0,
            nr30: 0x7F,
            nr31: 0xFF,
            nr32: 0x9F,
            nr33: 0xFF,
            nr34: 0xBF,
        }
    }

    pub fn duty_cycle(&mut self)
        ensures
            *final(self) == old(self).duty_spec(),
    {
        self.freq_timer = self.freq_timer.wrapping_sub(1);
        if self.freq_timer == 0 {
            let hi: u8 = self.nr34;
            let lo: u8 = self.nr33;
            let freq: u16 = ((hi & 0b111) as u16) << 8 | lo as u16;
            assert(freq <= 2047) by (bit_vector)
                requires
                    freq == ((hi & 0b111) as u16) << 8 | lo as u16,
            ;
            self.freq_timer = (2048 - freq) * 2;
            self.current_index = self.current_index.wrapping_add(1) % 32;
        }
    }

    /// Frame sequencer step: length counter on even steps.
    pub fn tick(&mut self, div_apu: u8, nr52: &mut u8)
        ensures
            (*final(self), *final(nr52)) == old(self).tick_spec(div_apu, *old(nr52)),
    {
        if div_apu % 2 == 0 {
            if self.len_counter > 0 {
                self.len_counter = self.len_counter - 1;
                if self.len_counter == 0 && self.nr34 & 0x40 != 0 {
                    *nr52 = *nr52 & !4u8;
                }
            }
        }
    }

    /// The current 4-bit sample of Wave RAM shifted by the output level of NR32.
    pub fn digital_sample(&self, wave_ram: &[u8]) -> (r: u8)
        requires
            wave_ram@.len() == 16,
            self.current_index < 32,
        ensures
            ({
                let b = wave_ram@[(self.current_index / 2) as int];
                let raw: u8 = if self.current_index % 2 == 0 { (b & 0xF0) >> 4 } else { b & 0x0F };
                let level = (self.nr32 & 0x60) >> 5;
                r == if level == 0 { 0 } else if level == 1 { raw } else if level == 2 { raw >> 1 } else { raw >> 2 }
            }),
    {
        let b = wave_ram[(self.current_index / 2) as usize];
        let raw_sample: u8 = if self.current_index % 2 == 0 { (b & 0xF0) >> 4 } else { b & 0x0F };
        let level: u8 = (self.nr32 & 0x60) >> 5;
        if level == 0 {
            0
        } else if level == 1 {
            raw_sample
        } else if level == 2 {
            raw_sample >> 1
        } else {
            raw_sample >> 2
        }
    }

    pub fn clear(&mut self)
        ensures
            *final(self) == (ChannelThree { nr30: 0, nr31: 0, nr32: 0, nr33: 0, nr34: 0, ..*old(self) }),
    {
        self.nr30 = 0;
        self.nr31 = 0;
        self.nr32 = 0;
        self.nr33 = 0;
        self.nr34 = 0;
    }

    /// Starts the channel; quirk: playback begins at index 1, the lower nibble of the first byte.
    pub fn trigger(&mut self, nr52: &mut u8)
        ensures
            (*final(self), *final(nr52)) == old(self).trigger_spec(*old(nr52)),
    {
        if self.len_counter == 0 {
            self.len_counter = 256;
        }
        self.current_index = 1;
        if self.is_dac_on() {
            *nr52 = *nr52 | 4;
        }
    }

    pub fn is_dac_on(&self) -> (r: bool)
        ensures
            r == (self.nr30 & 0x80 != 0),
    {
        self.nr30 & 0x80 != 0
    }
}

// ------------------------------ Channel 4 ------------------------------

/// Period of the noise channel's timer: divisor (8 for code 0, else 16 times the code)
/// shifted by the clock shift of NR43.
pub open spec fn noise_period(nr43: u8) -> u16 {
    let d = (nr43 & 0b111) * 16;
    let base: u16 = if d >= 8 { d as u16 } else { 8u16 };
    base << ((nr43 & 0xF0) >> 4)
}

/// One LFSR step: XOR of bits 0 and 1 shifted in at bit 14 (and bit 6 in 7-bit mode).
pub open spec fn lfsr_step(lfsr: u16, nr43: u8) -> u16 {
    let x = (lfsr & 1) ^ ((lfsr & 2) >> 1);
    let l = ((lfsr >> 1) & !(1u16 << 14)) | (x << 14);
    if nr43 & 0x08 != 0 {
        (l & !(1u16 << 6)) | (x << 6)
    } else {
        l
    }
}

fn noise_timer(nr43: u8) -> (r: u16)
    ensures
        r == noise_period(nr43),
{
    assert(nr43 & 0b111 < 8 && (nr43 & 0xF0) >> 4 < 16) by (bit_vector);
    let d: u8 = (nr43 & 0b111) * 16;
    let base: u16 = if d >= 8 { d as u16 } else { 8 };
    let clock_shift: u8 = (nr43 & 0xF0) >> 4;
    base << clock_shift
}

impl ChannelFour {
    pub open spec fn duty_spec(self) -> ChannelFour {
        let t = sub16(self.freq_timer as int, 1);
        if t == 0 {
            ChannelFour { freq_timer: noise_period(self.nr43), lfsr: lfsr_step(self.lfsr, self.nr43), ..self }
        } else {
            ChannelFour { freq_timer: t, ..self }
        }
    }

    pub open spec fn tick_spec(self, div_apu: u8, nr52: u8) -> (ChannelFour, u8) {
        let len_step = div_apu % 2 == 0 && self.len_counter > 0 && self.nr44 & 0x40 != 0;
        let len = if len_step { (self.len_counter - 1) as u8 } else { self.len_counter };
        let nr52_1 = if len_step && len == 0 { nr52 & !8u8 } else { nr52 };
        let (v, t) = envelope(self.nr42, self.volume, self.vol_timer);
        let c = ChannelFour { len_counter: len, ..self };
        (if div_apu % 8 == 0 { ChannelFour { volume: v, vol_timer: t, ..c } } else { c }, nr52_1)
    }

    pub open spec fn trigger_spec(self, nr52: u8) -> (ChannelFour, u8) {
        (
            ChannelFour {
                len_counter: if self.len_counter == 0 { 64 } else { self.len_counter },
                lfsr: 0xFFFF,
                volume: (self.nr42 & 0xF0) >> 4,
                vol_timer: self.nr42 & 0b111,
                freq_timer: noise_period(self.nr43),
                ..self
            },
            if self.nr42 & 0xF8 != 0 { nr52 | 8 } else { nr52 },
        )
    }

    pub fn default() -> (r: Self)
        ensures
            r == (ChannelFour {
                volume: 0,
                vol_timer: 0,
                len_counter: 0,
                lfsr: 0,
                freq_timer: 0,
                nr41: 0xFF,
                nr42: 0x00,
                nr43: 0x00,
                nr44: 0xBF,
            }),
    {
        ChannelFour {
            volume: 0,
            vol_timer: 0,
            len_counter: 0,
            lfsr: 0,
            freq_timer: 0,
            nr41: 0xFF,
            nr42: 0x00,
            nr43: 0x00,
            nr44: 0xBF,
        }
    }

    pub fn duty_cycle(&mut self)
        ensures
            *final(self) == old(self).duty_spec(),
    {
        self.freq_timer = self.freq_timer.wrapping_sub(1);
        if self.freq_timer == 0 {
            self.freq_timer = noise_timer(self.nr43);
            let xor_bit: u16 = (self.lfsr & 1) ^ ((self.lfsr & 2) >> 1);
            self.lfsr = ((self.lfsr >> 1) & !(1u16 << 14)) | (xor_bit << 14);
            // bit 6 as well in 7-bit mode
            if self.nr43 & 0x08 != 0 {
                self.lfsr = (self.lfsr & !(1u16 << 6)) | (xor_bit << 6);
            }
        }
    }

    pub fn tick(&mut self, div_apu: u8, nr52: &mut u8)
        ensures
            (*final(self), *final(nr52)) == old(self).tick_spec(div_apu, *old(nr52)),
    {
        if div_apu % 2 == 0 {
            if self.len_counter > 0 && self.nr44 & 0x40 != 0 {
                self.len_counter = self.len_counter - 1;
                if self.len_counter == 0 {
                    *nr52 = *nr52 & !8u8;
                }
            }
        }
        if div_apu % 8 == 0 {
            envelope_step(self.nr42, &mut self.volume, &mut self.vol_timer);
        }
    }

    /// The digital output: the volume while bit 0 of the LFSR is clear, else 0.
    pub fn digital_sample(&self) -> (r: u8)
        requires
            self.volume <= 15,
        ensures
            r == if self.lfsr & 1 == 0 { self.volume } else { 0 },
    {
        if self.lfsr & 1 == 0 {
            self.volume
        } else {
            0
        }
    }

    pub fn clear(&mut self)
        ensures
            *final(self) == (ChannelFour { nr41: 0, nr42: 0, nr43: 0, nr44: 0, ..*old(self) }),
    {
        self.nr41 = 0;
        self.nr42 = 0;
        self.nr43 = 0;
        self.nr44 = 0;
    }

    pub fn trigger(&mut self, nr52: &mut u8)
        ensures
            (*final(self), *final(nr52)) == old(self).trigger_spec(*old(nr52)),
    {
        if self.len_counter == 0 {
            self.len_counter = 64;
        }
        self.lfsr = 0xFFFF;
        self.volume = (self.nr42 & 0xF0) >> 4;
        self.vol_timer = self.nr42 & 0b111;
        self.freq_timer = noise_timer(self.nr43);
        if self.is_dac_on() {
            *nr52 = *nr52 | 8;
        }
    }

    pub fn is_dac_on(&self) -> (r: bool)
        ensures
            r == (self.nr42 & 0xF8 != 0),
    {
        self.nr42 & 0xF8 != 0
    }
}

/// The four sound channels with the global registers NR50-NR52 and Wave RAM.
///
/// - **Channel 1:** square waves (envelope + sweep)
/// - **Channel 2:** square waves (envelope)
/// - **Channel 3:** custom waves from the 4-bit samples in Wave RAM
/// - **Channel 4:** noise (envelope)
///
/// The frame sequencer counter `div_apu` advances on a falling edge of bit 4 of DIV's upper byte.
/// Turning channel values into audio samples and playing them is left to the front end.
#[allow(clippy::upper_case_acronyms)]
pub struct APU {
    /// Wave RAM holds 16 bytes of custom 4 bit samples for channel 3
    pub wave_ram: Vec<u8>,
    /// T-cycles since the last output sample
    pub internal_cycles: u8,
    /// Frame sequencer step counter
    pub div_apu: u8,
    /// Previous bit 4 of DIV, to detect the falling edge
    pub div_bit: u8,
    pub ch1: ChannelOne,
    pub ch2: ChannelTwo,
    pub ch3: ChannelThree,
    pub ch4: ChannelFour,
    /// Master volume
    pub nr50: u8,
    /// Panning
    pub nr51: u8,
    /// On/Off switch and channel status
    pub nr52: u8,
}

/// T-cycles per output sample (CPU frequency / 44.1 kHz).
pub const CYCLES_PER_SAMPLE: u8 = 95;

impl APU {
    pub open spec fn wf(&self) -> bool {
        self.wave_ram@.len() == 16
    }

    pub open spec fn enabled(&self) -> bool {
        self.nr52 & 0x80 != 0
    }

    pub open spec fn read_spec(&self, address: u16) -> u8 {
        if address == 0xFF10 { self.ch1.nr10 | 0x80 }
        else if address == 0xFF11 { self.ch1.nr11 | 0x3F }
        else if address == 0xFF12 { self.ch1.nr12 }
        else if address == 0xFF13 { self.ch1.nr13 | 0xFF }
        else if address == 0xFF14 { self.ch1.nr14 | 0xBF }
        else if address == 0xFF16 { self.ch2.nr21 | 0x3F }
        else if address == 0xFF17 { self.ch2.nr22 }
        else if address == 0xFF18 { self.ch2.nr23 | 0xFF }
        else if address == 0xFF19 { self.ch2.nr24 | 0xBF }
        else if address == 0xFF1A { self.ch3.nr30 | 0x7F }
        else if address == 0xFF1B { self.ch3.nr31 | 0xFF }
        else if address == 0xFF1C { self.ch3.nr32 | 0x9F }
        else if address == 0xFF1D { self.ch3.nr33 | 0xFF }
        else if address == 0xFF1E { self.ch3.nr34 | 0xBF }
        else if address == 0xFF20 { self.ch4.nr41 | 0xFF }
        else if address == 0xFF21 { self.ch4.nr42 }
        else if address == 0xFF22 { self.ch4.nr43 }
        else if address == 0xFF23 { self.ch4.nr44 | 0xBF }
        else if address == 0xFF24 { self.nr50 }
        else if address == 0xFF25 { self.nr51 }
        else if address == 0xFF26 { self.nr52 | 0x70 }
        else if 0xFF30 <= address <= 0xFF3F { self.wave_ram@[address - 0xFF30] }
        else { 0xFF }
    }

    /// The APU after writing NR52: only the power bit is writable; turning the APU off clears
    /// all registers of the channels and NR50/NR51.
    pub open spec fn power_write_spec(self, value: u8) -> APU {
        let a = APU { nr52: (value & 0x80) | (self.nr52 & 0x70), ..self };
        if !a.enabled() {
            APU {
                ch1: ChannelOne { nr10: 0, nr11: 0, nr12: 0, nr13: 0, nr14: 0, ..a.ch1 },
                ch2: ChannelTwo { nr21: 0, nr22: 0, nr23: 0, nr24: 0, ..a.ch2 },
                ch3: ChannelThree { nr30: 0, nr31: 0, nr32: 0, nr33: 0, nr34: 0, ..a.ch3 },
                ch4: ChannelFour { nr41: 0, nr42: 0, nr43: 0, nr44: 0, ..a.ch4 },
                nr50: 0,
                nr51: 0,
                ..a
            }
        } else {
            a
        }
    }

    /// A channel register write while the APU is on.
    pub open spec fn register_write_spec(self, address: u16, value: u8) -> APU {
        if address == 0xFF10 {
            APU { ch1: ChannelOne { nr10: value, ..self.ch1 }, ..self }
        } else if address == 0xFF11 {
            APU { ch1: ChannelOne { len_counter: (64 - (value & 0x3F)) as u8, nr11: value, ..self.ch1 }, ..self }
        } else if address == 0xFF12 {
            APU { ch1: ChannelOne { nr12: value, ..self.ch1 }, nr52: if value & 0xF8 == 0 { self.nr52 & !1u8 } else { self.nr52 }, ..self }
        } else if address == 0xFF13 {
            APU { ch1: ChannelOne { nr13: value, ..self.ch1 }, ..self }
        } else if address == 0xFF14 {
            let (c, n) = if value & 0x80 != 0 { self.ch1.trigger_spec(self.nr52) } else { (self.ch1, self.nr52) };
            APU { ch1: ChannelOne { nr14: value, ..c }, nr52: n, ..self }
        } else if address == 0xFF16 {
            APU { ch2: ChannelTwo { len_counter: (64 - (value & 0x3F)) as u8, nr21: value, ..self.ch2 }, ..self }
        } else if address == 0xFF17 {
            APU {
                ch2: ChannelTwo { volume: (value & 0xF0) >> 4, nr22: value, ..self.ch2 },
                nr52: if value & 0xF8 == 0 { self.nr52 & !2u8 } else { self.nr52 },
                ..self
            }
        } else if address == 0xFF18 {
            APU { ch2: ChannelTwo { nr23: value, ..self.ch2 }, ..self }
        } else if address == 0xFF19 {
            let (c, n) = if value & 0x80 != 0 { self.ch2.trigger_spec(self.nr52) } else { (self.ch2, self.nr52) };
            APU { ch2: ChannelTwo { nr24: value, ..c }, nr52: n, ..self }
        } else if address == 0xFF1A {
            APU { ch3: ChannelThree { nr30: value, ..self.ch3 }, nr52: if value & 0x80 == 0 { self.nr52 & !4u8 } else { self.nr52 }, ..self }
        } else if address == 0xFF1B {
            APU { ch3: ChannelThree { len_counter: (256 - value) as u16, nr31: value, ..self.ch3 }, ..self }
        } else if address == 0xFF1C {
            APU { ch3: ChannelThree { nr32: value, ..self.ch3 }, ..self }
        } else if address == 0xFF1D {
            APU { ch3: ChannelThree { nr33: value, ..self.ch3 }, ..self }
        } else if address == 0xFF1E {
            let (c, n) = if value & 0x80 != 0 { self.ch3.trigger_spec(self.nr52) } else { (self.ch3, self.nr52) };
            APU { ch3: ChannelThree { nr34: value, ..c }, nr52: n, ..self }
        } else if address == 0xFF20 {
            APU { ch4: ChannelFour { len_counter: (64 - (value & 0x3F)) as u8, nr41: value, ..self.ch4 }, ..self }
        } else if address == 0xFF21 {
            APU { ch4: ChannelFour { nr42: value, ..self.ch4 }, nr52: if value & 0xF8 == 0 { self.nr52 & !8u8 } else { self.nr52 }, ..self }
        } else if address == 0xFF22 {
            APU { ch4: ChannelFour { nr43: value, ..self.ch4 }, ..self }
        } else if address == 0xFF23 {
            let (c, n) = if value & 0x80 != 0 { self.ch4.trigger_spec(self.nr52) } else { (self.ch4, self.nr52) };
            APU { ch4: ChannelFour { nr44: value, ..c }, nr52: n, ..self }
        } else if address == 0xFF24 {
            APU { nr50: value, ..self }
        } else if address == 0xFF25 {
            APU { nr51: value, ..self }
        } else {
            self
        }
    }

    /// The APU after a write, Wave RAM aside: NR52 is writable even with the APU off,
    /// everything else only while it is on.
    pub open spec fn write_spec(self, address: u16, value: u8) -> APU {
        let a = if address == 0xFF26 { self.power_write_spec(value) } else { self };
        if a.enabled() { a.register_write_spec(address, value) } else { a }
    }

    /// Wave RAM after a write; it is writable whatever the APU state.
    pub open spec fn wave_write_spec(self, address: u16, value: u8) -> Seq<u8> {
        if 0xFF30 <= address <= 0xFF3F {
            self.wave_ram@.update(address - 0xFF30, value)
        } else {
            self.wave_ram@
        }
    }

    /// The channels after one T-cycle of their frequency timers and, on a falling edge of DIV
    /// bit 4 while the APU is on, one frame sequencer step.
    pub open spec fn step_spec(self, div: u8) -> APU {
        let a = APU {
            ch1: self.ch1.duty_spec(),
            ch2: self.ch2.duty_spec(),
            ch3: self.ch3.duty_spec(),
            ch4: self.ch4.duty_spec(),
            ..self
        };
        if a.enabled() && div & 0x10 != 0x10 && self.div_bit == 1 {
            let d = add8(a.div_apu as int, 1);
            let (c1, n1) = a.ch1.tick_spec(d, a.nr52);
            let (c2, n2) = a.ch2.tick_spec(d, n1);
            let (c3, n3) = a.ch3.tick_spec(d, n2);
            let (c4, n4) = a.ch4.tick_spec(d, n3);
            APU { div_apu: d, ch1: c1, ch2: c2, ch3: c3, ch4: c4, nr52: n4, ..a }
        } else {
            a
        }
    }

    /// The registers as the boot ROM leaves them.
    pub open spec fn at_power_on(self) -> bool {
        &&& self.wf()
        &&& self.wave_ram@ == Seq::new(16, |i: int| 0xFFu8)
        &&& self.internal_cycles == 0
        &&& self.div_apu == 0
        &&& self.div_bit == 0
        &&& self.ch1 == ChannelOne::default_spec()
        &&& self.ch2 == ChannelTwo::default_spec()
        &&& self.ch3 == ChannelThree::default_spec()
        &&& self.ch4 == ChannelFour::default_spec()
        &&& self.nr50 == 0x77
        &&& self.nr51 == 0xF3
        &&& self.nr52 == 0xF1
    }

    pub fn default() -> (r: Self)
        ensures
            r.at_power_on(),
    {
        APU {
            wave_ram: filled(0x10, 0xFF),
            internal_cycles: 0,
            div_apu: 0,
            div_bit: 0,
            ch1: ChannelOne::default(),
            ch2: ChannelTwo::default(),
            ch3: ChannelThree::default(),
            ch4: ChannelFour::default(),
            nr50: 0x77,
            nr51: 0xF3,
            nr52: 0xF1,
        }
    }

    /// Reads a sound register; write-only bits read back as 1, unmapped addresses as 0xFF.
    pub fn read(&self, address: u16) -> (r: u8)
        requires
            self.wf(),
        ensures
            r == self.read_spec(address),
    {
        match address {
            0xFF10 => self.ch1.nr10 | 0x80,
            0xFF11 => self.ch1.nr11 | 0x3F,
            0xFF12 => self.ch1.nr12,
            0xFF13 => self.ch1.nr13 | 0xFF,
            0xFF14 => self.ch1.nr14 | 0xBF,
            0xFF16 => self.ch2.nr21 | 0x3F,
            0xFF17 => self.ch2.nr22,
            0xFF18 => self.ch2.nr23 | 0xFF,
            0xFF19 => self.ch2.nr24 | 0xBF,
            0xFF1A => self.ch3.nr30 | 0x7F,
            0xFF1B => self.ch3.nr31 | 0xFF,
            0xFF1C => self.ch3.nr32 | 0x9F,
            0xFF1D => self.ch3.nr33 | 0xFF,
            0xFF1E => self.ch3.nr34 | 0xBF,
            0xFF20 => self.ch4.nr41 | 0xFF,
            0xFF21 => self.ch4.nr42,
            0xFF22 => self.ch4.nr43,
            0xFF23 => self.ch4.nr44 | 0xBF,
            0xFF24 => self.nr50,
            0xFF25 => self.nr51,
            0xFF26 => self.nr52 | 0x70,
            0xFF30..=0xFF3F => self.wave_ram[(address - 0xFF30) as usize],
            _ => 0xFF,
        }
    }

    /// Writes a sound register or Wave RAM.
    pub fn write(&mut self, address: u16, value: u8)
        requires
            old(self).wf(),
        ensures
            final(self).wf(),
            final(self).wave_ram@ == old(self).wave_write_spec(address, value),
            *final(self) == (APU { wave_ram: final(self).wave_ram, ..old(self).write_spec(address, value) }),
    {
        assert(value & 0x3F <= 63) by (bit_vector);
        // NR52 is writable even with the APU turned off
        if address == 0xFF26 {
            self.nr52 = (value & 0x80) | (self.nr52 & 0x70);
            // turning the APU off clears all registers besides NR52
            if !self.is_apu_enabled() {
                self.ch1.clear();
                self.ch2.clear();
                self.ch3.clear();
                self.ch4.clear();
                self.nr50 = 0;
                self.nr51 = 0;
            }
        }

        // Wave RAM is readable and writable whatever the APU state
        if 0xFF30 <= address && address <= 0xFF3F {
            self.wave_ram.set((address - 0xFF30) as usize, value);
        }

        // all registers are read-only while the APU is off
        if self.is_apu_enabled() {
            match address {
                0xFF10 => self.ch1.nr10 = value,
                0xFF11 => {
                    self.ch1.len_counter = 64 - (value & 0x3F);
                    self.ch1.nr11 = value;
                },
                0xFF12 => {
                    if value & 0xF8 == 0 {
                        // DAC and channel 1 off
                        self.nr52 = self.nr52 & !1u8;
                    }
                    self.ch1.nr12 = value;
                },
                0xFF13 => self.ch1.nr13 = value,
                0xFF14 => {
                    if value & 0x80 != 0 {
                        self.ch1.trigger(&mut self.nr52);
                    }
                    self.ch1.nr14 = value;
                },
                0xFF16 => {
                    self.ch2.len_counter = 64 - (value & 0x3F);
                    self.ch2.nr21 = value;
                },
                0xFF17 => {
                    if value & 0xF8 == 0 {
                        self.nr52 = self.nr52 & !2u8;
                    }
                    self.ch2.volume = (value & 0xF0) >> 4;
                    self.ch2.nr22 = value;
                },
                0xFF18 => self.ch2.nr23 = value,
                0xFF19 => {
                    if value & 0x80 != 0 {
                        self.ch2.trigger(&mut self.nr52);
                    }
                    self.ch2.nr24 = value;
                },
                0xFF1A => {
                    if value & 0x80 == 0 {
                        self.nr52 = self.nr52 & !4u8;
                    }
                    self.ch3.nr30 = value;
                },
                0xFF1B => {
                    self.ch3.len_counter = 256 - value as u16;
                    self.ch3.nr31 = value;
                },
                0xFF1C => self.ch3.nr32 = value,
                0xFF1D => self.ch3.nr33 = value,
                0xFF1E => {
                    if value & 0x80 != 0 {
                        self.ch3.trigger(&mut self.nr52);
                    }
                    self.ch3.nr34 = value;
                },
                0xFF20 => {
                    self.ch4.len_counter = 64 - (value & 0x3F);
                    self.ch4.nr41 = value;
                },
                0xFF21 => {
                    if value & 0xF8 == 0 {
                        self.nr52 = self.nr52 & !8u8;
                    }
                    self.ch4.nr42 = value;
                },
                0xFF22 => self.ch4.nr43 = value,
                0xFF23 => {
                    if value & 0x80 != 0 {
                        self.ch4.trigger(&mut self.nr52);
                    }
                    self.ch4.nr44 = value;
                },
                0xFF24 => self.nr50 = value,
                0xFF25 => self.nr51 = value,
                _ => {},
            }
        }
    }

    /// One T-cycle of the APU (see `step_spec`). Returns how many output samples are due now;
    /// the front end mixes that many samples from the channel outputs.
    pub fn tick(&mut self, div: u8) -> (samples: u8)
        ensures
            *final(self) == (APU {
                wave_ram: final(self).wave_ram,
                internal_cycles: (old(self).internal_cycles % 95 + 1) as u8,
                div_bit: (div & 0x10) >> 4,
                ..old(self).step_spec(div)
            }),
            final(self).wave_ram@ == old(self).wave_ram@,
            samples == old(self).internal_cycles / 95,
    {
        self.ch1.duty_cycle();
        self.ch2.duty_cycle();
        self.ch3.duty_cycle();
        self.ch4.duty_cycle();

        // DIV-APU is increased when bit 4 of DIV's upper byte goes from 1 to 0
        if self.is_apu_enabled() && (div & 0x10) != 0x10 && self.div_bit == 1 {
            self.div_apu = self.div_apu.wrapping_add(1);
            self.ch1.tick(self.div_apu, &mut self.nr52);
            self.ch2.tick(self.div_apu, &mut self.nr52);
            self.ch3.tick(self.div_apu, &mut self.nr52);
            self.ch4.tick(self.div_apu, &mut self.nr52);
        }

        let ghost mid = *self;
        let mut samples: u8 = 0;
        while self.internal_cycles >= CYCLES_PER_SAMPLE
            invariant
                *self == (APU { internal_cycles: self.internal_cycles, ..mid }),
                mid.internal_cycles == old(self).internal_cycles,
                samples + self.internal_cycles / 95 == old(self).internal_cycles / 95,
                self.internal_cycles % 95 == old(self).internal_cycles % 95,
                samples <= 3,
            decreases self.internal_cycles,
        {
            self.internal_cycles = self.internal_cycles - CYCLES_PER_SAMPLE;
            samples = samples + 1;
        }

        self.internal_cycles = self.internal_cycles + 1;
        self.div_bit = (div & 0x10) >> 4;
        samples
    }

    /// Bit 7 of NR52: when on, the channels are ticked; when off, only the frequency timers
    /// and the sample counter run.
    pub fn is_apu_enabled(&self) -> (r: bool)
        ensures
            r == self.enabled(),
    {
        self.nr52 & 0x80 != 0
    }

    pub fn is_ch1_enabled(&self) -> (r: bool)
        ensures
            r == (self.nr52 & 1 != 0),
    {
        self.nr52 & 1 != 0
    }

    pub fn is_ch2_enabled(&self) -> (r: bool)
        ensures
            r == (self.nr52 & 2 != 0),
    {
        self.nr52 & 2 != 0
    }

    pub fn is_ch3_enabled(&self) -> (r: bool)
        ensures
            r == (self.nr52 & 4 != 0),
    {
        self.nr52 & 4 != 0
    }

    pub fn is_ch4_enabled(&self) -> (r: bool)
        ensures
            r == (self.nr52 & 8 != 0),
    {
        self.nr52 & 8 != 0
    }
}

impl ChannelOne {
    pub open spec fn default_spec() -> ChannelOne {
        ChannelOne { volume: 0, vol_timer: 0, sweep_timer: 0, len_counter: 0, duty_cycle: 0, freq_timer: 0, nr10: 0x80, nr11: 0xBF, nr12: 0xF3, nr13: 0xFF, nr14: 0xBF }
    }
}

impl ChannelTwo {
    pub open spec fn default_spec() -> ChannelTwo {
        ChannelTwo { volume: 0, vol_timer: 0, len_counter: 0, duty_cycle: 0, freq_timer: 0, nr21: 0x3F, nr22: 0x00, nr23: 0xFF, nr24: 0xBF }
    }
}

impl ChannelThree {
    pub open spec fn default_spec() -> ChannelThree {
        ChannelThree { current_index: 0, len_counter: 0, freq_timer: 0, nr30: 0x7F, nr31: 0xFF, nr32: 0x9F, nr33: 0xFF, nr34: 0xBF }
    }
}

impl ChannelFour {
    pub open spec fn default_spec() -> ChannelFour {
        ChannelFour { volume: 0, vol_timer: 0, len_counter: 0, lfsr: 0, freq_timer: 0, nr41: 0xFF, nr42: 0x00, nr43: 0x00, nr44: 0xBF }
    }
}

/// With the APU off every channel register write is ignored; only NR52 and Wave RAM change.
pub proof fn law_apu_off_ignores_writes(a: APU, address: u16, value: u8)
    requires
        !a.enabled(),
        address != 0xFF26,
    ensures
        a.write_spec(address, value) == a,
{
}

/// Turning the APU off clears NR50/NR51 and reads back NR52 with bit 7 clear.
pub proof fn law_apu_power_off(a: APU, value: u8)
    requires
        value & 0x80 == 0,
    ensures
        a.write_spec(0xFF26, value).nr50 == 0,
        a.write_spec(0xFF26, value).nr51 == 0,
        a.write_spec(0xFF26, value).nr52 & 0x80 == 0,
{
    let n = a.nr52;
    assert(((value & 0x80) | (n & 0x70)) & 0x80 == 0) by (bit_vector)
        requires
            value & 0x80 == 0,
    ;
}


/// Bit facts of the channel updates: clearing NR52 bit 0 keeps the other bits, and one LFSR
/// step shifts the register right by one, feeding the XOR of its two lowest bits into bit 14
/// (and bit 6 in 7-bit mode).
proof fn lemma_channel_bits()
    by (bit_vector)
    ensures
        forall|x: u8| #![trigger x & !1u8] (x & !1u8) & 0xFE == x & 0xFE && (x & !1u8) & 1 == 0,
        forall|l: u16, n: u8|
            #![trigger lfsr_step(l, n)]
            lfsr_step(l, n) < 0x8000 && (lfsr_step(l, n) >> 14) & 1 == (l ^ (l >> 1)) & 1 && (n & 0x08
                != 0 ==> (lfsr_step(l, n) >> 6) & 1 == (l ^ (l >> 1)) & 1),
        forall|l: u16, n: u8, i: u16|
            #![trigger lfsr_step(l, n) >> i]
            i < 14 && !(n & 0x08 != 0 && i == 6) ==> (lfsr_step(l, n) >> i) & 1 == (l >> (i + 1)) & 1,
{
}

/// A frame sequencer step of channel 1 only ever turns its own status bit in NR52 off,
/// moves the volume by at most one step within 0..=15, never lengthens the length counter,
/// and leaves NR10-NR12 as they were.
pub proof fn law_channel_one_tick(c: ChannelOne, div_apu: u8, nr52: u8)
    requires
        c.volume <= 15,
    ensures
        ({
            let (d, n) = c.tick_spec(div_apu, nr52);
            &&& n & 0xFE == nr52 & 0xFE
            &&& n & 1 <= nr52 & 1
            &&& d.volume <= 15
            &&& d.volume - c.volume <= 1 && c.volume - d.volume <= 1
            &&& d.len_counter <= c.len_counter
            &&& d.nr10 == c.nr10 && d.nr11 == c.nr11 && d.nr12 == c.nr12
        }),
{
    lemma_channel_bits();
    let y = nr52 & !1u8;
    assert((y & !1u8) & 0xFE == y & 0xFE);
}

/// One step of channel 4's frequency timer: above 1 it only counts down; at 1 the LFSR
/// shifts right by one, with the XOR of its two lowest bits fed into bit 14 (and into bit 6
/// in 7-bit mode), so that it stays a 15-bit register.
pub proof fn law_channel_four_step(c: ChannelFour)
    requires
        c.freq_timer >= 1,
    ensures
        ({
            let d = c.duty_spec();
            let x = (c.lfsr ^ (c.lfsr >> 1)) & 1;
            &&& c.freq_timer > 1 ==> d.freq_timer == c.freq_timer - 1 && d.lfsr == c.lfsr
            &&& c.freq_timer == 1 ==> {
                &&& d.lfsr < 0x8000
                &&& (d.lfsr >> 14) & 1 == x
                &&& c.nr43 & 0x08 != 0 ==> (d.lfsr >> 6) & 1 == x
                &&& forall|i: u16|
                    i < 14 && !(c.nr43 & 0x08 != 0 && i == 6) ==> #[trigger] ((d.lfsr >> i) & 1) == (c.lfsr
                        >> (i + 1)) & 1
            }
        }),
{
    lemma_channel_bits();
    if c.freq_timer == 1 {
        assert(c.duty_spec().lfsr == lfsr_step(c.lfsr, c.nr43));
    }
}

} // verus!
