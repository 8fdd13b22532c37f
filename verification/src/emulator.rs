use vstd::prelude::*;
use vstd::utf8::{
    encode_utf8, encode_utf8_decode_utf8, encode_utf8_valid_utf8, is_ascii_chars,
    is_ascii_chars_encode_utf8, valid_utf8,
};
use crate::cartridge::base_cartridge::{Cartridge, CartridgeType};
use crate::cartridge::mbc::mbc1::MBC1;
use crate::cartridge::mbc::mbc2::MBC2;
use crate::cartridge::mbc::mbc3::MBC3;
use crate::cartridge::mbc::mbc5::MBC5;
use crate::cartridge::mbc::no_mbc::NoMBC;
use crate::cpu::alu::{add16, wrapping_add16};
use crate::cpu::cpu::{power_on, CPU};
use crate::cpu::registers::{boot_flags, Registers};
use crate::cpu::step::{interrupt_spec, lemma_step_takes_time, new_events, step_spec};
use crate::memory::copy_of;
use crate::mmu::bus::{Bus, BusEvent};

verus! {

/// The characters of a byte string that is valid UTF-8, nothing otherwise.
pub open spec fn utf8_text(bytes: Seq<u8>) -> Option<Seq<char>> {
    if valid_utf8(bytes) {
        Some(vstd::utf8::decode_utf8(bytes))
    } else {
        None
    }
}

/// Bytes below 0x80 (ASCII) are valid UTF-8 and decode to the characters with the same codes.
pub proof fn lemma_ascii_text(bytes: Seq<u8>)
    requires
        forall|i: int| 0 <= i < bytes.len() ==> bytes[i] < 0x80,
    ensures
        utf8_text(bytes) == Some(bytes.map_values(|b: u8| b as char)),
{
    let chars = bytes.map_values(|b: u8| b as char);
    assert(is_ascii_chars(chars));
    is_ascii_chars_encode_utf8(chars);
    assert(encode_utf8(chars) =~= bytes);
    encode_utf8_valid_utf8(chars);
    encode_utf8_decode_utf8(chars);
}

/// Calls `std::str::from_utf8`, and copies the text it gives into a `String`. The bytes are
/// accepted exactly when they are valid UTF-8, as `vstd::utf8` defines it (no overlong forms,
/// no surrogates, nothing above U+10FFFF), and the text is their decoding.
#[verifier::external_body]
fn str_from_utf8(bytes: &[u8]) -> (r: Option<String>)
    ensures
        r is Some <==> valid_utf8(bytes@),
        r matches Some(s) ==> s@ == vstd::utf8::decode_utf8(bytes@),
{
    match std::str::from_utf8(bytes) {
        Ok(s) => Some(String::from(s)),
        Err(_) => None,
    }
}

/// Why a ROM cannot be loaded.
#[derive(Debug, Clone, Copy, PartialEq, Eq, Structural)]
pub enum LoadError {
    /// The ROM ends before the end of its header ($0150).
    RomTooSmall,
    /// The ROM size the code at $0148 stands for (32 KiB << code) does not fit in a `usize`.
    RomSizeUnsupported,
    /// The RAM size code ($0149) is not 0, 2, 3, 4 or 5.
    RamSizeUnsupported,
    /// The cartridge type ($0147) has no supported memory bank controller.
    CartridgeUnsupported,
    /// None of the title fields ($0134-$0143, $0134-$0142, $0134-$013E) is valid UTF-8.
    InvalidTitle,
}

/// ROM size in KiB for the size code at $0148.
pub open spec fn rom_size_kb(code: u8) -> nat {
    32 * vstd::arithmetic::power2::pow2(code as nat)
}

/// RAM size in KiB for the size code at $0149, if supported.
pub open spec fn ram_size_kb(code: u8) -> Option<u8> {
    if code == 0x00 {
        Some(0)
    } else if code == 0x02 {
        Some(8)
    } else if code == 0x03 {
        Some(32)
    } else if code == 0x04 {
        Some(128)
    } else if code == 0x05 {
        Some(64)
    } else {
        None
    }
}

/// Whether the cartridge type at $0147 has a supported controller.
pub open spec fn cartridge_supported(code: u8) -> bool {
    code == 0x00 || (0x01 <= code <= 0x03) || (0x05 <= code <= 0x06) || (0x0F <= code <= 0x13) || (
    0x19 <= code <= 0x1E)
}

/// The title of the header: the first of the fields $0134-$0143, $0134-$0142 and $0134-$013E
/// that is valid UTF-8.
pub open spec fn header_title(rom: Seq<u8>) -> Option<Seq<char>> {
    let long = utf8_text(rom.subrange(0x134, 0x144));
    let medium = utf8_text(rom.subrange(0x134, 0x143));
    let short = utf8_text(rom.subrange(0x134, 0x13F));
    if long is Some {
        long
    } else if medium is Some {
        medium
    } else {
        short
    }
}

/// The first reason, in the order they are checked, why `rom` cannot be loaded.
pub open spec fn load_error(rom: Seq<u8>) -> Option<LoadError> {
    if rom.len() < 0x150 {
        Some(LoadError::RomTooSmall)
    } else if rom_size_kb(rom[0x148]) > usize::MAX {
        Some(LoadError::RomSizeUnsupported)
    } else if ram_size_kb(rom[0x149]) is None {
        Some(LoadError::RamSizeUnsupported)
    } else if !cartridge_supported(rom[0x147]) {
        Some(LoadError::CartridgeUnsupported)
    } else if header_title(rom) is None {
        Some(LoadError::InvalidTitle)
    } else {
        None
    }
}

/// A ROM whose header the emulator supports.
pub open spec fn header_ok(rom: Seq<u8>) -> bool {
    &&& rom.len() >= 0x150
    &&& rom_size_kb(rom[0x148]) <= usize::MAX
    &&& ram_size_kb(rom[0x149]) is Some
    &&& cartridge_supported(rom[0x147])
}

/// Whether the header asks for Game Boy Color mode ($0143 is $80 or $C0).
pub open spec fn cgb_header(rom: Seq<u8>) -> bool {
    rom[0x143] == 0x80 || rom[0x143] == 0xC0
}

/// The cartridge freshly built for `rom`: the controller of its type with the ROM, RAM of the
/// header's size (MBC2: 512 built-in cells, MBC3: four banks) filled with 0xFF, and every
/// register at its power-on value.
pub open spec fn fresh_cartridge(c: CartridgeType, rom: Seq<u8>) -> bool {
    let code = rom[0x147];
    let rom_size = rom_size_kb(rom[0x148]);
    let ram_size = ram_size_kb(rom[0x149])->0;
    if code == 0x00 {
        c matches CartridgeType::NoMBC(m) && m.rom@ == rom
    } else if code <= 0x03 {
        &&& c matches CartridgeType::MBC1(m)
        &&& m.rom@ == rom
        &&& m.external_ram@ == Seq::new((ram_size / 8) as nat * 0x2000, |i: int| 0xFFu8)
        &&& m.rom_size == rom_size
        &&& m.ram_size == ram_size
        &&& !m.ram_enable && m.rom_bank_number == 1 && m.ram_or_upper_rom == 0 && m.banking_mode == 0
    } else if code <= 0x06 {
        &&& c matches CartridgeType::MBC2(m)
        &&& m.rom@ == rom
        &&& m.built_in_ram@ == Seq::new(512, |i: int| 0xFFu8)
        &&& m.rom_bank == 1 && !m.ram_enable
    } else if code <= 0x13 {
        &&& c matches CartridgeType::MBC3(m)
        &&& m.rom@ == rom
        &&& m.external_ram@ == Seq::new(4 * 0x2000, |i: int| 0xFFu8)
        &&& !m.ram_timer_enable && m.rom_bank_number == 1 && m.ram_bank_rtc == 0 && m.latch_data == 0
    } else {
        &&& c matches CartridgeType::MBC5(m)
        &&& m.rom@ == rom
        &&& m.external_ram@ == Seq::new((ram_size / 8) as nat * 0x2000, |i: int| 0xFFu8)
        &&& m.rom_size == rom_size
        &&& m.ram_size == ram_size
        &&& !m.ram_enable && m.rom_bank_number == 1 && m.rom_bank_bit9 == 0 && m.ram_bank_number == 0
    }
}

/// The registers the boot ROM leaves: those of the CGB in color mode, those of the DMG with
/// flags from the header checksum ($014D) otherwise.
pub open spec fn boot_registers(rom: Seq<u8>) -> Registers {
    if cgb_header(rom) {
        Registers {
            A: 0x11,
            F: 0x80,
            B: 0x00,
            C: 0x00,
            D: 0xFF,
            E: 0x56,
            H: 0x00,
            L: 0x0D,
            SP: 0xFFFE,
            PC: 0x100,
        }
    } else {
        Registers {
            A: 0x01,
            F: boot_flags(rom[0x14D]),
            B: 0x00,
            C: 0x13,
            D: 0x00,
            E: 0xD8,
            H: 0x01,
            L: 0x4D,
            SP: 0xFFFE,
            PC: 0x100,
        }
    }
}

/// Name of the cartridge type at $0147, for display.
pub open spec fn mbc_title(code: u8) -> Option<Seq<char>> {
    if code == 0x00 {
        Some("ROM ONLY"@)
    } else if code == 0x01 {
        Some("MBC1"@)
    } else if code == 0x02 {
        Some("MBC1+RAM"@)
    } else if code == 0x03 {
        Some("MBC1+RAM+BATTERY"@)
    } else if code == 0x05 {
        Some("MBC2"@)
    } else if code == 0x06 {
        Some("MBC2+BATTERY"@)
    } else if code == 0x0F {
        Some("MBC3+TIMER+BATTERY"@)
    } else if code == 0x10 {
        Some("MBC3+TIMER+RAM+BATTERY"@)
    } else if code == 0x11 {
        Some("MBC3"@)
    } else if code == 0x12 {
        Some("MBC3+RAM"@)
    } else if code == 0x13 {
        Some("MBC3+RAM+BATTERY"@)
    } else if code == 0x19 {
        Some("MBC5"@)
    } else if code == 0x1A {
        Some("MBC5+RAM"@)
    } else if code == 0x1B {
        Some("MBC5+RAM+BATTERY"@)
    } else if code == 0x1C {
        Some("MBC5+RUMBLE"@)
    } else if code == 0x1D {
        Some("MBC5+RUMBLE+RAM"@)
    } else if code == 0x1E {
        Some("MBC5+RUMBLE+RAM+BATTERY"@)
    } else if code == 0x20 {
        Some("MBC6"@)
    } else if code == 0x22 {
        Some("MBC7+SENSOR+RUMBLE+RAM+BATTERY"@)
    } else {
        None
    }
}

/// Name of the destination code at $014A, for display.
pub open spec fn destination(code: u8) -> Option<Seq<char>> {
    if code == 0x00 {
        Some("Japan (and possibly overseas)"@)
    } else if code == 0x01 {
        Some("Overseas only"@)
    } else {
        None
    }
}

/// One step of the machine: interrupt dispatch, then one tick of the processor. Gives the
/// processor after it, the bus events in order, whether an interrupt was serviced and the
/// m-cycles of the tick.
pub open spec fn emulator_step_spec(c: CPU, t: Seq<BusEvent>) -> (CPU, Seq<BusEvent>, bool, u8) {
    let (c1, e1, serviced) = interrupt_spec(c, t);
    let (c2, e2, n) = step_spec(c1, t.skip(e1.len() as int));
    (c2, e1 + e2, serviced, n)
}

/// The m-cycle count of a frame after one step that gave `s` (see `emulator_step_spec`): 5
/// for a serviced interrupt, then the m-cycles of the tick.
pub open spec fn count_after(count: u16, s: (CPU, Seq<BusEvent>, bool, u8)) -> u16 {
    let c1 = if s.2 { add16(count as int, 5) } else { count };
    (c1 + s.3) as u16
}

/// The rounds of a frame: from the processor `c` and the m-cycle count `count`, each round
/// starts below 17 556 m-cycles, polls the keys (the event `poll`) and steps the machine
/// over the next chunk of bus events. Gives the processor and the count after the last
/// round, if `t` is exactly these rounds.
pub open spec fn frame_rounds(
    c: CPU,
    count: u16,
    t: Seq<BusEvent>,
    chunks: Seq<Seq<BusEvent>>,
    poll: BusEvent,
) -> Option<(CPU, u16)>
    decreases chunks.len(),
{
    if chunks.len() == 0 {
        if t.len() == 0 {
            Some((c, count))
        } else {
            None
        }
    } else {
        let k = chunks[0];
        let s = emulator_step_spec(c, k);
        if count < 17556 && s.1 == k && t.len() >= 1 + k.len() && t[0] == poll && t.subrange(
            1,
            1 + k.len() as int,
        ) == k {
            frame_rounds(s.0, count_after(count, s), t.skip(1 + k.len() as int), chunks.drop_first(), poll)
        } else {
            None
        }
    }
}

/// One more round after the rounds of `t`.
pub proof fn lemma_frame_rounds_push(
    c: CPU,
    count: u16,
    t: Seq<BusEvent>,
    chunks: Seq<Seq<BusEvent>>,
    poll: BusEvent,
    k: Seq<BusEvent>,
)
    requires
        frame_rounds(c, count, t, chunks, poll) is Some,
        (frame_rounds(c, count, t, chunks, poll)->0).1 < 17556,
        emulator_step_spec((frame_rounds(c, count, t, chunks, poll)->0).0, k).1 == k,
    ensures
        ({
            let (c1, n1) = frame_rounds(c, count, t, chunks, poll)->0;
            let s = emulator_step_spec(c1, k);
            frame_rounds(c, count, t + seq![poll] + k, chunks.push(k), poll) == Some((s.0, count_after(n1, s)))
        }),
    decreases chunks.len(),
{
    let (c1, n1) = frame_rounds(c, count, t, chunks, poll)->0;
    let s = emulator_step_spec(c1, k);
    let t2 = seq![poll] + k;
    if chunks.len() == 0 {
        assert(t.len() == 0);
        assert(t + t2 =~= t2);
        assert(chunks.push(k).drop_first() =~= Seq::<Seq<BusEvent>>::empty());
        assert(t2.subrange(1, 1 + k.len() as int) =~= k);
        assert(t2.skip(1 + k.len() as int) =~= Seq::<BusEvent>::empty());
        assert(frame_rounds(s.0, count_after(n1, s), Seq::<BusEvent>::empty(), Seq::<Seq<BusEvent>>::empty(), poll)
            == Some((s.0, count_after(n1, s))));
    } else {
        let k0 = chunks[0];
        let s0 = emulator_step_spec(c, k0);
        let rest = t.skip(1 + k0.len() as int);
        lemma_frame_rounds_push(s0.0, count_after(count, s0), rest, chunks.drop_first(), poll, k);
        assert(chunks.push(k)[0] == k0);
        assert(chunks.push(k).drop_first() =~= chunks.drop_first().push(k));
        assert((t + t2).subrange(1, 1 + k0.len() as int) =~= t.subrange(1, 1 + k0.len() as int));
        assert((t + t2).skip(1 + k0.len() as int) =~= rest + t2);
        assert(rest + seq![poll] + k =~= rest + t2);
        assert(t + seq![poll] + k =~= t + t2);
    }
}

/// The whole machine: processor, bus with everything on it, and the loaded ROM.
pub struct Emulator {
    pub cpu: CPU,
    pub bus: Bus,
    pub rom: Vec<u8>,
    pub cycle_count: u16,
    pub cgb: bool,
}

impl Emulator {
    /// The bus is well formed and the ROM is empty or has a supported header.
    pub open spec fn wf(&self) -> bool {
        &&& self.bus.wf()
        &&& self.rom@.len() == 0 || header_ok(self.rom@)
    }

    /// The machine at power on, without a cartridge.
    pub open spec fn power_on_state(&self) -> bool {
        &&& self.wf()
        &&& self.cpu == power_on()
        &&& self.rom@.len() == 0
        &&& self.cycle_count == 0
        &&& !self.cgb
        &&& self.bus.at_power_on()
    }

    pub fn new() -> (r: Self)
        ensures
            r.power_on_state(),
    {
        Emulator { cpu: CPU::new(), bus: Bus::new(), rom: Vec::new(), cycle_count: 0, cgb: false }
    }

    /// Resets the machine to its power-on state, without a cartridge.
    pub fn reset(&mut self)
        ensures
            final(self).power_on_state(),
    {
        self.cpu = CPU::new();
        self.bus = Bus::new();
        self.rom = Vec::new();
        self.cycle_count = 0;
        self.cgb = false;
    }

    /// Loads a ROM: resets the machine, builds the controller that the cartridge type asks
    /// for, reads the title and starts in color mode when the header asks for it, with the
    /// registers the boot ROM would leave.
    pub fn load_rom(&mut self, rom: &[u8]) -> (r: Result<(), LoadError>)
        ensures
            final(self).wf(),
            r is Err <==> load_error(rom@) is Some,
            r matches Err(e) ==> load_error(rom@) == Some(e) && final(self).power_on_state(),
            r is Ok ==> {
                &&& final(self).rom@ == rom@
                &&& final(self).cgb == cgb_header(rom@)
                &&& final(self).cpu == (CPU {
                    registers: boot_registers(rom@),
                    cgb: cgb_header(rom@),
                    ..power_on()
                })
                &&& fresh_cartridge(final(self).bus.cartridge.cartridge_type, rom@)
                &&& Some(final(self).bus.cartridge.title@) == header_title(rom@)
                &&& final(self).bus.ppu.cgb == cgb_header(rom@)
                &&& final(self).cycle_count == 0
                &&& final(self).bus.power_on_components()
            },
    {
        self.reset();
        if rom.len() < 0x150 {
            return Err(LoadError::RomTooSmall);
        }
        let rom_size_kb: usize = match rom_size_of(rom[0x0148]) {
            Some(size) => size,
            None => {
                return Err(LoadError::RomSizeUnsupported);
            },
        };
        let ram_size_kb: u8 = match rom[0x0149] {
            0x00 => 0,
            0x02 => 8,
            0x03 => 32,
            0x04 => 128,
            0x05 => 64,
            _ => {
                return Err(LoadError::RamSizeUnsupported);
            },
        };
        let kind = rom[0x0147];
        if !(kind == 0x00 || (0x01 <= kind && kind <= 0x03) || (0x05 <= kind && kind <= 0x06) || (0x0F
            <= kind && kind <= 0x13) || (0x19 <= kind && kind <= 0x1E)) {
            return Err(LoadError::CartridgeUnsupported);
        }
        let title = match str_from_utf8(slice_of(rom, 0x0134, 0x0144)) {
            Some(t) => t,
            None => match str_from_utf8(slice_of(rom, 0x0134, 0x0143)) {
                Some(t) => t,
                None => match str_from_utf8(slice_of(rom, 0x0134, 0x013F)) {
                    Some(t) => t,
                    None => {
                        return Err(LoadError::InvalidTitle);
                    },
                },
            },
        };
        let cartridge_type = if kind == 0x00 {
            CartridgeType::NoMBC(NoMBC::new(rom))
        } else if kind <= 0x03 {
            CartridgeType::MBC1(MBC1::new(rom, rom_size_kb, ram_size_kb))
        } else if kind <= 0x06 {
            CartridgeType::MBC2(MBC2::new(rom))
        } else if kind <= 0x13 {
            CartridgeType::MBC3(MBC3::new(rom))
        } else {
            CartridgeType::MBC5(MBC5::new(rom, rom_size_kb, ram_size_kb))
        };
        self.cgb = rom[0x0143] == 0x80 || rom[0x0143] == 0xC0;
        self.bus.cartridge = Cartridge::new(cartridge_type, title.as_str());
        self.rom = copy_of(rom);
        if self.cgb {
            self.cpu.cgb = true;
            self.cpu.registers = Registers::new_cgb();
            self.bus.ppu.enable_cgb();
        } else {
            self.cpu.registers = Registers::new_dmg(rom[0x014D]);
        }
        // the cartridge is part of the machine from the start: no access has been made yet
        self.bus.history = Ghost(Seq::empty().push(self.bus@));
        Ok(())
    }

    /// Steps the machine: services an interrupt if one is due (counting its 5 m-cycles in
    /// `cycle_count`), then runs one tick of the processor and returns its m-cycles.
    pub fn step(&mut self) -> (n: u8)
        requires
            old(self).wf(),
        ensures
            final(self).wf(),
            final(self).rom == old(self).rom,
            final(self).cgb == old(self).cgb,
            final(self).bus.continues(old(self).bus),
            ({
                let s = emulator_step_spec(
                    old(self).cpu,
                    new_events(old(self).bus.trace@, final(self).bus.trace@),
                );
                &&& final(self).bus.trace@ =~= old(self).bus.trace@ + s.1
                &&& final(self).cpu == s.0
                &&& final(self).cycle_count == if s.2 {
                    add16(old(self).cycle_count as int, 5)
                } else {
                    old(self).cycle_count
                }
                &&& n == s.3
            }),
            n >= 1,
    {
        let ghost t0 = self.bus.trace@;
        if self.cpu.handle_interrupts(&mut self.bus) {
            self.cycle_count = wrapping_add16(self.cycle_count, 5);
        }
        let ghost t1 = self.bus.trace@;
        let n = self.cpu.tick(&mut self.bus);
        proof {
            let t = new_events(t0, self.bus.trace@);
            assert(t.skip((t1.len() - t0.len()) as int) =~= new_events(t1, self.bus.trace@));
            lemma_step_takes_time(interrupt_spec(old(self).cpu, t).0, new_events(t1, self.bus.trace@));
        }
        n
    }

    /// Runs one frame: polls the keys and steps until the m-cycles counted reach 17 556 (one
    /// frame of the LCD), then clears the count and releases the keys.
    pub fn run_frame(&mut self, action_keys: [bool; 4], direction_keys: [bool; 4])
        requires
            old(self).wf(),
        ensures
            final(self).wf(),
            final(self).rom == old(self).rom,
            final(self).cgb == old(self).cgb,
            final(self).cycle_count == 0,
            final(self).bus.joypad.joyp & 0xF == 0xF,
            final(self).bus.continues(old(self).bus),
            ({
                let t = new_events(old(self).bus.trace@, final(self).bus.trace@);
                let poll = BusEvent::JoypadPoll { action: action_keys@, direction: direction_keys@ };
                &&& t.len() >= 1
                &&& t.last() == BusEvent::ReleaseKeys
                &&& exists|chunks: Seq<Seq<BusEvent>>|
                    #[trigger] frame_rounds(old(self).cpu, old(self).cycle_count, t.drop_last(), chunks, poll)
                        matches Some(r) && r.0 == final(self).cpu && r.1 >= 17556
            }),
    {
        let ghost poll = BusEvent::JoypadPoll { action: action_keys@, direction: direction_keys@ };
        let ghost t0 = self.bus.trace@;
        let ghost mut chunks: Seq<Seq<BusEvent>> = Seq::empty();
        proof {
            assert(new_events(t0, self.bus.trace@) =~= Seq::<BusEvent>::empty());
        }
        while self.cycle_count < 17_556
            invariant
                self.wf(),
                self.rom == old(self).rom,
                self.cgb == old(self).cgb,
                self.bus.continues(old(self).bus),
                t0 == old(self).bus.trace@,
                poll == (BusEvent::JoypadPoll { action: action_keys@, direction: direction_keys@ }),
                self.bus.trace@.len() >= t0.len(),
                self.bus.trace@.subrange(0, t0.len() as int) == t0,
                frame_rounds(old(self).cpu, old(self).cycle_count, new_events(t0, self.bus.trace@), chunks, poll)
                    == Some((self.cpu, self.cycle_count)),
            decreases 0x10000 - self.cycle_count,
        {
            let ghost before = self.bus.trace@;
            self.bus.poll_joypad(action_keys, direction_keys);
            let ghost mid = self.bus.trace@;
            let ghost c = self.cpu;
            let n = self.step();
            self.cycle_count = self.cycle_count + n as u16;
            proof {
                let k = new_events(mid, self.bus.trace@);
                let s = emulator_step_spec(c, k);
                assert(s.1 =~= k);
                lemma_frame_rounds_push(old(self).cpu, old(self).cycle_count, new_events(t0, before), chunks, poll, k);
                assert(new_events(t0, self.bus.trace@) =~= new_events(t0, before) + seq![poll] + k);
                assert(self.bus.trace@.subrange(0, t0.len() as int) =~= before.subrange(0, t0.len() as int));
                chunks = chunks.push(k);
            }
        }
        let ghost t1 = self.bus.trace@;
        let ghost end = self.cycle_count;
        self.cycle_count = 0;
        self.bus.release_keys();
        assert(forall|x: u8| (x | 0xF) & 0xF == 0xF) by (bit_vector);
        proof {
            assert(new_events(t0, self.bus.trace@).drop_last() =~= new_events(t0, t1));
            assert(frame_rounds(old(self).cpu, old(self).cycle_count, new_events(t0, t1), chunks, poll)
                == Some((self.cpu, end)));
        }
    }

    /// Name of the cartridge type, if a ROM is loaded and the type is known.
    pub fn get_full_mbc_title(&self) -> (r: Option<&str>)
        requires
            self.wf(),
        ensures
            self.rom@.len() == 0 ==> r is None,
            self.rom@.len() > 0 ==> (r matches Some(s) ==> mbc_title(self.rom@[0x147]) == Some(s@)) && (
            r is None <==> mbc_title(self.rom@[0x147]) is None),
    {
        if self.rom.len() == 0 {
            return None;
        }
        match self.rom[0x0147] {
            0x00 => Some("ROM ONLY"),
            0x01 => Some("MBC1"),
            0x02 => Some("MBC1+RAM"),
            0x03 => Some("MBC1+RAM+BATTERY"),
            0x05 => Some("MBC2"),
            0x06 => Some("MBC2+BATTERY"),
            0x0F => Some("MBC3+TIMER+BATTERY"),
            0x10 => Some("MBC3+TIMER+RAM+BATTERY"),
            0x11 => Some("MBC3"),
            0x12 => Some("MBC3+RAM"),
            0x13 => Some("MBC3+RAM+BATTERY"),
            0x19 => Some("MBC5"),
            0x1A => Some("MBC5+RAM"),
            0x1B => Some("MBC5+RAM+BATTERY"),
            0x1C => Some("MBC5+RUMBLE"),
            0x1D => Some("MBC5+RUMBLE+RAM"),
            0x1E => Some("MBC5+RUMBLE+RAM+BATTERY"),
            0x20 => Some("MBC6"),
            0x22 => Some("MBC7+SENSOR+RUMBLE+RAM+BATTERY"),
            _ => None,
        }
    }

    /// Destination of the cartridge, if a ROM is loaded and the code is known.
    pub fn get_destination_code(&self) -> (r: Option<&str>)
        requires
            self.wf(),
        ensures
            self.rom@.len() == 0 ==> r is None,
            self.rom@.len() > 0 ==> (r matches Some(s) ==> destination(self.rom@[0x14A]) == Some(s@))
                && (r is None <==> destination(self.rom@[0x14A]) is None),
    {
        if self.rom.len() == 0 {
            return None;
        }
        match self.rom[0x014A] {
            0x00 => Some("Japan (and possibly overseas)"),
            0x01 => Some("Overseas only"),
            _ => None,
        }
    }

    /// ROM size in KiB, if a ROM is loaded.
    pub fn get_rom_size(&self) -> (r: Option<usize>)
        requires
            self.wf(),
        ensures
            self.rom@.len() == 0 ==> r is None,
            self.rom@.len() > 0 ==> r == Some(rom_size_kb(self.rom@[0x148]) as usize),
    {
        if self.rom.len() == 0 {
            return None;
        }
        rom_size_of(self.rom[0x0148])
    }

    /// RAM size in KiB, if a ROM is loaded.
    pub fn get_ram_size(&self) -> (r: Option<u8>)
        requires
            self.wf(),
        ensures
            self.rom@.len() == 0 ==> r is None,
            self.rom@.len() > 0 ==> r == ram_size_kb(self.rom@[0x149]),
    {
        if self.rom.len() == 0 {
            return None;
        }
        match self.rom[0x0149] {
            0x00 => Some(0),
            0x02 => Some(8),
            0x03 => Some(32),
            0x04 => Some(128),
            _ => Some(64),
        }
    }

    pub fn is_cgb(&self) -> (r: bool)
        ensures
            r == self.cgb,
    {
        self.cgb
    }
}

/// The ROM size in KiB for the size code at $0148, if it fits in a `usize`.
fn rom_size_of(code: u8) -> (r: Option<usize>)
    ensures
        r == if rom_size_kb(code) <= usize::MAX { Some(rom_size_kb(code) as usize) } else { None::<usize> },
{
    let mut r: usize = 32;
    let mut i: u8 = 0;
    proof {
        vstd::arithmetic::power2::lemma2_to64();
    }
    while i < code
        invariant
            i <= code,
            r == rom_size_kb(i),
        decreases code - i,
    {
        proof {
            vstd::arithmetic::power2::lemma_pow2_unfold((i + 1) as nat);
        }
        match r.checked_mul(2) {
            Some(d) => {
                r = d;
            },
            None => {
                proof {
                    if i + 1 < code {
                        vstd::arithmetic::power2::lemma_pow2_strictly_increases((i + 1) as nat, code as nat);
                    }
                }
                return None;
            },
        }
        i = i + 1;
    }
    Some(r)
}

/// The bytes `start..end` of `rom`.
fn slice_of(rom: &[u8], start: usize, end: usize) -> (r: &[u8])
    requires
        start <= end <= rom@.len(),
    ensures
        r@ == rom@.subrange(start as int, end as int),
{
    vstd::slice::slice_subrange(rom, start, end)
}

} // verus!
