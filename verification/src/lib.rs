//! A Game Boy / Game Boy Color emulation core: CPU, memory bus, cartridges,
//! timers, serial port, picture and audio processing units.
#![allow(non_snake_case)]

pub mod apu;
pub mod bits;
pub mod cartridge;
pub mod cpu;
pub mod emulator;
pub mod input;
pub mod memory;
pub mod mmu;
pub mod ppu;
pub mod ui;

use vstd::prelude::*;

verus! {

} // verus!
