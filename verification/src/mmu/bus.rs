use vstd::prelude::*;
use crate::apu::apu::APU;
use crate::cartridge::base_cartridge::{Cartridge, CartridgeType};
use crate::cpu::alu::{add16, wrapping_add16};
use crate::cpu::interrupts::{interrupt_bit, Interrupt, InterruptHandler};
use crate::cpu::registers::{hi_byte, join_bytes, lemma_pair_split, lo_byte, pair, split_bytes};
use crate::input::joypad::Joypad;
use crate::memory::filled;
use crate::mmu::hdma_transfer::Hdma;
use crate::mmu::mmio::MMIO;
use crate::mmu::serial::{serial_tick_spec, Serial};
use crate::mmu::timer::{tick_spec, Timers};
use crate::ppu::ppu::{dots_spec, lemma_dots_keep_cgb, DMATransferState, PpuModel, PPU};

verus! {

/// What the CPU does on the bus, in order: reads, writes, extra cycles, reads of the pending
/// interrupts, acknowledgements of an interrupt, and the DIV reset of STOP.
pub enum BusEvent {
    Read { address: u16, value: u8 },
    Write { address: u16, value: u8 },
    Tick { cycles: u16 },
    Pending { value: u8 },
    Acknowledge { interrupt: Interrupt },
    ResetDiv,
    SpeedSwitch,
    JoypadPoll { action: Seq<bool>, direction: Seq<bool> },
    ReleaseKeys,
    LoadSave { save: Seq<u8> },
}

/// The memory bus with every memory mapped component of the system.
pub struct Bus {
    pub cartridge: Cartridge,
    /// Two banks of 8 KiB video RAM, one after the other
    pub vram: Vec<u8>,
    /// Eight banks of 4 KiB work RAM, one after the other
    pub wram: Vec<u8>,
    pub oam: Vec<u8>,
    pub joypad: Joypad,
    pub serial: Serial,
    pub timer: Timers,
    pub ppu: PPU,
    pub apu: APU,
    pub hram: Vec<u8>,
    pub interrupt_handler: InterruptHandler,
    pub disable_boot_rom: u8,
    pub vbk: u8,
    pub svbk: u8,
    pub hdma: Hdma,
    pub double_speed: bool,
    pub key1: u8,
    /// Set when an access reached memory the cartridge (or a VRAM DMA) cannot serve; such an
    /// access reads 0xFF and writes nothing. The emulation cannot go on correctly after it.
    pub fault: bool,
    /// The accesses made through the public interface, oldest first.
    pub trace: Ghost<Seq<BusEvent>>,
    /// The bus before the first access and after each access of `trace`.
    pub history: Ghost<Seq<BusView>>,
}

/// The bus as values.
#[verifier::ext_equal]
pub struct BusView {
    pub cartridge: Cartridge,
    pub vram: Seq<u8>,
    pub wram: Seq<u8>,
    pub oam: Seq<u8>,
    pub joypad: Joypad,
    pub serial: Serial,
    pub timer: Timers,
    pub ppu: PpuModel,
    pub apu: APU,
    pub hram: Seq<u8>,
    pub ih: InterruptHandler,
    pub disable_boot_rom: u8,
    pub vbk: u8,
    pub svbk: u8,
    pub hdma: Hdma,
    pub double_speed: bool,
    pub key1: u8,
    pub fault: bool,
}

impl View for Bus {
    type V = BusView;

    open spec fn view(&self) -> BusView {
        BusView {
            cartridge: self.cartridge,
            vram: self.vram@,
            wram: self.wram@,
            oam: self.oam@,
            joypad: self.joypad,
            serial: self.serial,
            timer: self.timer,
            ppu: self.ppu@,
            apu: self.apu,
            hram: self.hram@,
            ih: self.interrupt_handler,
            disable_boot_rom: self.disable_boot_rom,
            vbk: self.vbk,
            svbk: self.svbk,
            hdma: self.hdma,
            double_speed: self.double_speed,
            key1: self.key1,
            fault: self.fault,
        }
    }
}

/// Masking keeps a bank number in range.
pub proof fn lemma_bank_masks(x: u8)
    ensures
        x & 1 <= 1,
        x & 0x07 <= 7,
{
    assert(x & 1 <= 1 && x & 0x07 <= 7) by (bit_vector);
}

/// Addresses served by the cartridge: ROM and external RAM.
pub open spec fn cart_area(address: u16) -> bool {
    address <= 0x7FFF || 0xA000 <= address <= 0xBFFF
}

impl BusView {
    pub open spec fn wf(self) -> bool {
        &&& self.vram.len() == 0x4000
        &&& self.wram.len() == 0x8000
        &&& self.oam.len() == 0xA0
        &&& self.hram.len() == 0xAF
        &&& self.ppu.wf()
        &&& self.apu.wf()
        &&& self.serial.cycles_passed < 128
    }

    /// VRAM bank seen by the CPU (VBK bit 0, CGB only).
    pub open spec fn vram_bank(self) -> int {
        if self.ppu.cgb { (self.vbk & 1) as int } else { 0 }
    }

    /// Work RAM bank at $D000-$DFFF (SVBK bits 0-2 on the CGB, where 0 means 1; else bank 1).
    pub open spec fn wram_bank(self) -> int {
        if self.ppu.cgb {
            if self.svbk & 0x07 == 0 { 1 } else { (self.svbk & 0x07) as int }
        } else {
            1
        }
    }

    /// Offset in the work RAM buffer of an address in $C000-$FDFF (including the echo).
    pub open spec fn wram_index(self, address: u16) -> int {
        if address <= 0xCFFF || (0xE000 <= address <= 0xEFFF) {
            (address % 0x1000) as int
        } else {
            self.wram_bank() * 0x1000 + (address % 0x1000) as int
        }
    }

    /// Value of an I/O register $FF00-$FF7F.
    pub open spec fn io_peek(self, a: u16) -> u8 {
        if a == 0xFF00 {
            self.joypad.joyp
        } else if a == 0xFF01 {
            self.serial.sb
        } else if a == 0xFF02 {
            self.serial.sc
        } else if a == 0xFF04 {
            (self.timer.div / 256) as u8
        } else if a == 0xFF05 {
            self.timer.tima
        } else if a == 0xFF06 {
            self.timer.tma
        } else if a == 0xFF07 {
            self.timer.tac
        } else if a == 0xFF0F {
            self.ih.intf
        } else if 0xFF10 <= a <= 0xFF3F {
            self.apu.read_spec(a)
        } else if (0xFF40 <= a <= 0xFF4B) || (0xFF68 <= a <= 0xFF6B) {
            self.ppu.read_spec(a)
        } else if a == 0xFF4D {
            self.key1
        } else if a == 0xFF4F {
            self.vbk
        } else if a == 0xFF50 {
            self.disable_boot_rom
        } else if a == 0xFF51 {
            self.hdma.hdma1
        } else if a == 0xFF52 {
            self.hdma.hdma2
        } else if a == 0xFF53 {
            self.hdma.hdma3
        } else if a == 0xFF54 {
            self.hdma.hdma4
        } else if a == 0xFF55 {
            self.hdma.hdma5
        } else if a == 0xFF70 {
            self.svbk
        } else {
            0xFF
        }
    }

    /// The value at `address`, without any side effect.
    pub open spec fn peek(self, a: u16) -> u8 {
        if cart_area(a) {
            if self.cartridge.read_ok(a) { self.cartridge.read_spec(a) } else { 0xFF }
        } else if a <= 0x9FFF {
            self.vram[self.vram_bank() * 0x2000 + (a - 0x8000)]
        } else if a < 0xFE00 {
            self.wram[self.wram_index(a)]
        } else if a <= 0xFE9F {
            self.oam[a - 0xFE00]
        } else if a <= 0xFEFF {
            0xFF
        } else if a <= 0xFF7F {
            self.io_peek(a)
        } else if a <= 0xFFFE {
            self.hram[a - 0xFF80]
        } else {
            self.ih.inte
        }
    }

    /// Whether reading `address` reaches cartridge memory that is not there.
    pub open spec fn peek_fault(self, a: u16) -> bool {
        cart_area(a) && !self.cartridge.read_ok(a)
    }

    /// OAM DMA: while transferring, OAM gets the 160 bytes from page DMA and the transfer ends.
    pub open spec fn dma_spec(self) -> BusView {
        if self.ppu.dma_state == DMATransferState::Pending {
            BusView { ppu: PpuModel { dma_state: DMATransferState::Transferring, ..self.ppu }, ..self }
        } else if self.ppu.dma_state == DMATransferState::Transferring {
            let start = self.ppu.regs.dma as int * 0x100;
            BusView {
                oam: Seq::new(0xA0, |i: int| self.peek((start + i) as u16)),
                fault: self.fault || exists|i: int| 0 <= i < 0xA0 && #[trigger] self.peek_fault((start + i) as u16),
                ppu: PpuModel { dma_state: DMATransferState::Disabled, ..self.ppu },
                ..self
            }
        } else {
            self
        }
    }

    /// The timer (with its overflow interrupt and reload) and the serial port after `c`
    /// m-cycles of their clock.
    pub open spec fn clock_spec(self, c: u16) -> BusView {
        let t1 = tick_spec(self.timer, c);
        let overflow = t1.irq && self.timer.tima == 0;
        let t2 = if overflow { Timers { tima: t1.tma, irq: false, reload: true, ..t1 } } else { t1 };
        let ih1 = if overflow { InterruptHandler { intf: self.ih.intf | 0b100, ..self.ih } } else { self.ih };
        let (s2, ih2) = serial_tick_spec(self.serial, ih1, c);
        BusView { timer: t2, serial: s2, ih: ih2, ..self }
    }

    /// The bus after `n` PPU dots.
    pub open spec fn dots_view(self, n: nat) -> BusView {
        let (p, ih) = dots_spec(self.ppu, self.vram, self.oam, self.ih, n);
        BusView { ppu: p, ih: ih, ..self }
    }

    /// The bus after `cycles` m-cycles: the timer and the serial port (clocked twice as often
    /// at double speed), four PPU dots per m-cycle (half as many at double speed), then the
    /// OAM DMA step.
    #[verifier::opaque]
    pub closed spec fn tick_spec(self, cycles: u16) -> BusView {
        let factor: int = if self.double_speed { 2 } else { 1 };
        self.clock_spec((cycles * factor) as u16).dots_view(((cycles * 4) / factor) as nat).dma_spec()
    }

    /// Whether a CPU access ticks the bus first (not while OAM DMA runs or a VRAM DMA copies).
    pub open spec fn access_ticks(self) -> bool {
        self.ppu.dma_state != DMATransferState::Transferring && !self.hdma.halted
    }

    /// One step of a general purpose VRAM DMA: byte `i` is read from the source (reads do not
    /// tick while the copy runs) and stored in the VRAM bank of VBK; a destination beyond the
    /// 8 KiB bank is not stored and faults.
    pub open spec fn gdma_step(self, src: u16, dst: u16, i: int) -> BusView {
        let a = add16(src as int, i);
        let idx = add16(dst as int, i);
        let b = BusView { fault: self.fault || self.peek_fault(a), ..self };
        if idx < 0x2000 {
            BusView { vram: b.vram.update((self.vbk & 1) as int * 0x2000 + idx, self.peek(a)), ..b }
        } else {
            BusView { fault: true, ..b }
        }
    }

    /// The first `n` steps of a general purpose VRAM DMA.
    pub open spec fn gdma_steps(self, src: u16, dst: u16, n: nat) -> BusView
        decreases n,
    {
        if n == 0 {
            self
        } else {
            self.gdma_steps(src, dst, (n - 1) as nat).gdma_step(src, dst, n - 1)
        }
    }

    /// Writing HDMA5 on the CGB: a general purpose DMA copies the whole block at once; an
    /// H-Blank DMA is only marked as started.
    pub open spec fn vram_dma_spec(self) -> BusView {
        let h = self.hdma;
        if h.hdma5 < 128 && !h.hdma_in_progress {
            let b = BusView { hdma: Hdma { halted: true, ..h }, ..self };
            let c = b.gdma_steps(h.source_spec(), h.dest_spec(), h.length_spec() as nat);
            BusView { hdma: Hdma { halted: false, hdma5: 0xFF, ..c.hdma }, ..c }
        } else {
            BusView { hdma: Hdma { hdma5: h.hdma5 & 0x7F, hdma_in_progress: true, ..h }, ..self }
        }
    }

    /// Writing an I/O register other than a sound register.
    pub open spec fn io_store(self, a: u16, v: u8) -> BusView {
        if a == 0xFF00 {
            BusView { joypad: Joypad { joyp: 0xC0 | v | (self.joypad.joyp & 0xF), ..self.joypad }, ..self }
        } else if a == 0xFF01 {
            BusView { serial: Serial { sb: v, ..self.serial }, ..self }
        } else if a == 0xFF02 {
            BusView { serial: Serial { sc: v, ..self.serial }, ..self }
        } else if 0xFF04 <= a <= 0xFF07 {
            BusView { timer: self.timer.write_spec(a, v), ..self }
        } else if a == 0xFF0F {
            BusView { ih: InterruptHandler { intf: v | 0xE0, ..self.ih }, ..self }
        } else if (0xFF40 <= a <= 0xFF4B) || (0xFF68 <= a <= 0xFF6B) {
            let (p, ih) = self.ppu.write_spec(a, v, self.ih);
            BusView { ppu: p, ih: ih, ..self }
        } else if a == 0xFF4D {
            BusView { key1: (self.key1 & 0xFE) | (v & 1), ..self }
        } else if a == 0xFF4F {
            if self.ppu.cgb { BusView { vbk: 0xFE | v, ..self } } else { self }
        } else if 0xFF51 <= a <= 0xFF55 {
            let b = BusView { hdma: self.hdma.write_spec(a, v), ..self };
            if a == 0xFF55 && self.ppu.cgb {
                if v & 0x80 == 0 && b.hdma.hdma_in_progress {
                    BusView {
                        hdma: Hdma { hdma_in_progress: false, hdma5: b.hdma.hdma5 | 0x80, ..b.hdma },
                        ..b
                    }
                } else {
                    b.vram_dma_spec()
                }
            } else {
                b
            }
        } else if a == 0xFF70 {
            if self.ppu.cgb { BusView { svbk: 0xF8 | (v & 0x07), ..self } } else { self }
        } else {
            self
        }
    }

    /// Storing outside the cartridge and the sound registers, without ticking.
    pub open spec fn store_spec(self, a: u16, v: u8) -> BusView {
        if a <= 0x9FFF {
            BusView { vram: self.vram.update(self.vram_bank() * 0x2000 + (a - 0x8000), v), ..self }
        } else if a < 0xFE00 {
            BusView { wram: self.wram.update(self.wram_index(a), v), ..self }
        } else if a <= 0xFE9F {
            BusView { oam: self.oam.update(a - 0xFE00, v), ..self }
        } else if a <= 0xFEFF {
            self
        } else if a <= 0xFF7F {
            self.io_store(a, v)
        } else if a <= 0xFFFE {
            BusView { hram: self.hram.update(a - 0xFF80, v), ..self }
        } else {
            BusView { ih: InterruptHandler { inte: v, ..self.ih }, ..self }
        }
    }

    /// The bus `new` after storing `v` at `a` without ticking. The cartridge and the sound
    /// unit hold buffers, so their part is stated over the contents of those buffers.
    pub open spec fn store_rel(self, new: BusView, a: u16, v: u8) -> bool {
        if cart_area(a) {
            if self.cartridge.write_ok(a, v) {
                &&& self.cartridge.write_rel(new.cartridge, a, v)
                &&& new == BusView { cartridge: new.cartridge, ..self }
            } else {
                new == BusView { fault: true, ..self }
            }
        } else if 0xFF10 <= a <= 0xFF3F {
            &&& new.apu.wave_ram@ == self.apu.wave_write_spec(a, v)
            &&& new.apu == (APU { wave_ram: new.apu.wave_ram, ..self.apu.write_spec(a, v) })
            &&& new == BusView { apu: new.apu, ..self }
        } else {
            new == self.store_spec(a, v)
        }
    }

    /// A CPU write: one m-cycle passes (unless OAM DMA runs), then the value is stored.
    pub closed spec fn write_rel(self, new: BusView, a: u16, v: u8) -> bool {
        let b = if self.ppu.dma_state != DMATransferState::Transferring { self.tick_spec(1) } else { self };
        b.store_rel(new, a, v)
    }

    /// A CPU read: one m-cycle passes, then the value is taken.
    pub closed spec fn read_spec(self, a: u16) -> (BusView, u8) {
        let b = if self.access_ticks() { self.tick_spec(1) } else { self };
        (BusView { fault: b.fault || b.peek_fault(a), ..b }, b.peek(a))
    }
}

/// The bus `after` follows from `before` through the event `e`.
pub open spec fn event_rel(before: BusView, e: BusEvent, after: BusView) -> bool {
    match e {
        BusEvent::Read { address, value } => before.read_spec(address) == (after, value),
        BusEvent::Write { address, value } => before.write_rel(after, address, value),
        BusEvent::Tick { cycles } => after == before.tick_spec(cycles),
        BusEvent::Pending { value } => after == before && value == before.ih.inte & before.ih.intf,
        BusEvent::Acknowledge { interrupt } => after == (BusView {
            ih: InterruptHandler { intf: before.ih.intf & !interrupt_bit(interrupt), ..before.ih },
            ..before
        }),
        BusEvent::ResetDiv => after == (BusView { timer: Timers { div: 0, ..before.timer }, ..before }),
        BusEvent::SpeedSwitch => after == before.speed_switch_spec(),
        BusEvent::JoypadPoll { action, direction } => after == before.poll_spec(action, direction),
        BusEvent::ReleaseKeys => after == (BusView {
            joypad: Joypad { joyp: before.joypad.joyp | 0xF, ..before.joypad },
            ..before
        }),
        BusEvent::LoadSave { save } => {
            &&& before.cartridge.load_rel(after.cartridge, save)
            &&& after == (BusView { cartridge: after.cartridge, ..before })
        },
    }
}

/// `history` holds the bus before the events of `trace` and after each of them, each state
/// well formed.
pub open spec fn chained(history: Seq<BusView>, trace: Seq<BusEvent>) -> bool {
    &&& history.len() == trace.len() + 1
    &&& forall|i: int| 0 <= i < trace.len() ==> #[trigger] event_rel(history[i], trace[i], history[i + 1])
    &&& forall|i: int| 0 <= i < history.len() ==> #[trigger] history[i].wf()
}

/// Appending an event that relates the last state to a new one keeps the history chained.
pub proof fn lemma_chain_push(history: Seq<BusView>, trace: Seq<BusEvent>, e: BusEvent, v: BusView)
    requires
        chained(history, trace),
        event_rel(history.last(), e, v),
        v.wf(),
    ensures
        chained(history.push(v), trace.push(e)),
{
    let h = history.push(v);
    let t = trace.push(e);
    assert forall|i: int| 0 <= i < t.len() implies #[trigger] event_rel(h[i], t[i], h[i + 1]) by {
        if i < trace.len() {
            assert(event_rel(history[i], trace[i], history[i + 1]));
        }
    }
    assert forall|i: int| 0 <= i < h.len() implies #[trigger] h[i].wf() by {
        if i < history.len() {
            assert(history[i].wf());
        }
    }
}

impl BusView {
    /// The bus after a speed switch: double speed toggled, KEY1 bit 7 tells the new speed and
    /// the switch is disarmed.
    pub open spec fn speed_switch_spec(self) -> BusView {
        BusView {
            double_speed: self.key1 < 0x80,
            key1: if self.key1 < 0x80 { (self.key1 | 0x80) & 0xFE } else { self.key1 & 0x7E },
            ..self
        }
    }

    /// The bus after the keys are polled (see `Joypad::tick`).
    pub open spec fn poll_spec(self, action: Seq<bool>, direction: Seq<bool>) -> BusView {
        let j = self.joypad.poll_spec(action, direction);
        let fire = self.joypad.prev_joyp & 0xF == 0xF && j & 0xF != 0xF;
        BusView {
            joypad: Joypad { joyp: j, prev_joyp: j },
            ih: if fire { InterruptHandler { intf: self.ih.intf | 0b10000, ..self.ih } } else { self.ih },
            ..self
        }
    }
}

impl Bus {
    /// The components are well formed, and `history` holds the bus before the first access of
    /// `trace` and after each of them, the last being the bus now.
    pub open spec fn wf(&self) -> bool {
        &&& self@.wf()
        &&& chained(self.history@, self.trace@)
        &&& self.history@.last() == self@
    }

    /// The bus went on from `earlier`: the history of `earlier` is a beginning of its own.
    pub open spec fn continues(self, earlier: Bus) -> bool {
        &&& earlier.history@.len() <= self.history@.len()
        &&& forall|i: int| 0 <= i < earlier.history@.len() ==> #[trigger] self.history@[i] == earlier.history@[i]
    }

    /// The bus at power on, before any access: as `new` builds it, with no cartridge and in
    /// monochrome mode.
    pub open spec fn at_power_on(&self) -> bool {
        &&& self.power_on_components()
        &&& !self.ppu.cgb
        &&& self.cartridge.cartridge_type matches CartridgeType::NoMBC(m) && m.rom@.len() == 0
        &&& self.cartridge.title@ == Seq::<char>::empty()
    }

    /// Every component but the cartridge as at power on (the PPU in either mode), before any
    /// access.
    pub open spec fn power_on_components(&self) -> bool {
        &&& self.wf()
        &&& self.trace@ == Seq::<BusEvent>::empty()
        &&& !self.fault
        &&& self.vram@ == Seq::new(0x4000, |i: int| 0xFFu8)
        &&& self.wram@ == Seq::new(0x8000, |i: int| 0xFFu8)
        &&& self.oam@ == Seq::new(0xA0, |i: int| 0xFFu8)
        &&& self.hram@ == Seq::new(0xAF, |i: int| 0xFFu8)
        &&& self.disable_boot_rom == 0xFF
        &&& self.vbk == 0xFF
        &&& self.svbk == 0xF8
        &&& !self.double_speed
        &&& self.key1 == 0x7E
        &&& self.interrupt_handler == (InterruptHandler { inte: 0, intf: 0 })
        &&& self.joypad == (Joypad { joyp: 0xCF, prev_joyp: 0xCF })
        &&& self.serial == (Serial { sb: 0x00, sc: 0x7E, counter: 1, cycles_passed: 0 })
        &&& self.timer == (Timers {
            div: 0xABCC,
            tima: 0,
            tma: 0,
            tac: 0xF8,
            irq: false,
            and_result_falling_edge: false,
            reload: false,
        })
        &&& self.hdma == (Hdma {
            hdma1: 0xFF,
            hdma2: 0xFF,
            hdma3: 0xFF,
            hdma4: 0xFF,
            hdma5: 0xFF,
            halted: false,
            hdma_in_progress: false,
        })
        &&& self.ppu.power_on_registers()
        &&& self.apu.at_power_on()
    }

    pub fn new() -> (r: Self)
        ensures
            r.at_power_on(),
    {
        let mut b = Bus {
            cartridge: Cartridge::default(),
            vram: filled(0x4000, 0xFF),
            wram: filled(0x8000, 0xFF),
            oam: filled(0xA0, 0xFF),
            joypad: Joypad::default(),
            serial: Serial::default(),
            timer: Timers::new(),
            ppu: PPU::new(),
            apu: APU::default(),
            hram: filled(0xAF, 0xFF),
            interrupt_handler: InterruptHandler::default(),
            disable_boot_rom: 0xFF,  // not writable once unmapped
            vbk: 0xFF,
            svbk: 0xF8,
            hdma: Hdma::default(),
            double_speed: false,
            key1: 0x7E,
            fault: false,
            trace: Ghost(Seq::empty()),
            history: Ghost(Seq::empty()),
        };
        b.history = Ghost(Seq::empty().push(b@));
        b
    }

    /// Appends `e` to the trace and the bus now to the history; `e` led from the last state
    /// of the history to the bus now.
    fn record(&mut self, Ghost(e): Ghost<BusEvent>)
        requires
            old(self)@.wf(),
            chained(old(self).history@, old(self).trace@),
            event_rel(old(self).history@.last(), e, old(self)@),
        ensures
            final(self).wf(),
            final(self)@ == old(self)@,
            final(self).trace@ == old(self).trace@.push(e),
            final(self).history@ == old(self).history@.push(old(self)@),
            final(self).continues(*old(self)),
    {
        proof {
            lemma_chain_push(self.history@, self.trace@, e, self@);
        }
        self.history = Ghost(self.history@.push(self@));
        self.trace = Ghost(self.trace@.push(e));
    }

    fn io_peek(&mut self, address: u16) -> (r: u8)
        requires
            old(self)@.wf(),
            0xFF00 <= address <= 0xFF7F,
        ensures
            r == old(self)@.io_peek(address),
            *final(self) == *old(self),
    {
        if address == 0xFF00 {
            self.joypad.read(address)
        } else if address == 0xFF01 || address == 0xFF02 {
            self.serial.read(address)
        } else if 0xFF04 <= address && address <= 0xFF07 {
            self.timer.read(address)
        } else if address == 0xFF0F {
            self.interrupt_handler.intf
        } else if 0xFF10 <= address && address <= 0xFF3F {
            self.apu.read(address)
        } else if (0xFF40 <= address && address <= 0xFF4B) || (0xFF68 <= address && address <= 0xFF6B) {
            self.ppu.read(address)
        } else if address == 0xFF4D {
            self.key1
        } else if address == 0xFF4F {
            self.vbk
        } else if address == 0xFF50 {
            self.disable_boot_rom
        } else if 0xFF51 <= address && address <= 0xFF55 {
            self.hdma.read(address)
        } else if address == 0xFF70 {
            self.svbk
        } else {
            0xFF
        }
    }

    fn wram_offset(&self, address: u16) -> (r: usize)
        requires
            0xC000 <= address < 0xFE00,
        ensures
            r == self@.wram_index(address),
            r < 0x8000,
    {
        if address <= 0xCFFF || (0xE000 <= address && address <= 0xEFFF) {
            (address % 0x1000) as usize
        } else {
            let s: u8 = self.svbk;
            proof { lemma_bank_masks(s); }
            let bank: usize = if self.ppu.cgb {
                if s & 0x07 == 0 { 1 } else { (s & 0x07) as usize }
            } else {
                1
            };
            bank * 0x1000 + (address % 0x1000) as usize
        }
    }

    /// The value at `address` without ticking; a read the cartridge cannot serve gives 0xFF
    /// and sets the fault flag.
    fn peek(&mut self, address: u16) -> (r: u8)
        requires
            old(self)@.wf(),
        ensures
            r == old(self)@.peek(address),
            *final(self) == (Bus { fault: old(self).fault || old(self)@.peek_fault(address), ..*old(self) }),
    {
        if address <= 0x7FFF || (0xA000 <= address && address <= 0xBFFF) {
            if self.cartridge.can_read(address) {
                self.cartridge.read(address)
            } else {
                self.fault = true;
                0xFF
            }
        } else if address <= 0x9FFF {
            let v: u8 = self.vbk;
            proof { lemma_bank_masks(v); }
            let bank: usize = if self.ppu.cgb { (v & 1) as usize } else { 0 };
            self.vram[bank * 0x2000 + (address - 0x8000) as usize]
        } else if address < 0xFE00 {
            let i = self.wram_offset(address);
            self.wram[i]
        } else if address <= 0xFE9F {
            self.oam[(address - 0xFE00) as usize]
        } else if address <= 0xFEFF {
            0xFF  // not usable; reads may trigger OAM corruption on hardware
        } else if address <= 0xFF7F {
            self.io_peek(address)
        } else if address <= 0xFFFE {
            self.hram[(address - 0xFF80) as usize]
        } else {
            self.interrupt_handler.inte
        }
    }

    /// Advances the timer, the serial port, the PPU and the OAM DMA by `cycles` m-cycles.
    fn advance(&mut self, cycles: u16)
        requires
            old(self)@.wf(),
            cycles <= 0x3FFF,
            old(self).double_speed ==> cycles <= 0x1FFF,
        ensures
            final(self)@.wf(),
            final(self)@ == old(self)@.tick_spec(cycles),
            final(self).trace == old(self).trace,
            final(self).history == old(self).history,
    {
        reveal(BusView::tick_spec);
        let factor: u16 = if self.double_speed { 2 } else { 1 };
        self.clock(cycles * factor);
        // four PPU dots per m-cycle
        self.run_dots((cycles * 4) / factor);
        self.dma_step();
    }

    /// Clocks the timer and the serial port by `c` m-cycles.
    fn clock(&mut self, c: u16)
        requires
            old(self)@.wf(),
            c <= 0x3FFF,
        ensures
            final(self)@.wf(),
            final(self)@ == old(self)@.clock_spec(c),
            final(self).trace == old(self).trace,
            final(self).history == old(self).history,
    {
        let prev_tima = self.timer.tima;
        self.timer.tick(c);
        if self.timer.irq && prev_tima == 0 {
            self.timer.reload_tima();
            self.interrupt_handler.request_interrupt(Interrupt::Timer);
        }
        self.serial.tick(&mut self.interrupt_handler, c);
    }

    /// Runs `n` PPU dots.
    fn run_dots(&mut self, n: u16)
        requires
            old(self)@.wf(),
        ensures
            final(self)@.wf(),
            final(self)@ == old(self)@.dots_view(n as nat),
            final(self).trace == old(self).trace,
            final(self).history == old(self).history,
    {
        let ghost b = self@;
        let mut i: u16 = 0;
        while i < n
            invariant
                i <= n,
                b.wf(),
                self.ppu.wf(),
                self.vram@ == b.vram,
                self.oam@ == b.oam,
                self@ == b.dots_view(i as nat),
                self.trace == old(self).trace,
                self.history == old(self).history,
            decreases n - i,
        {
            self.ppu.tick(self.vram.as_slice(), self.oam.as_slice(), &mut self.interrupt_handler);
            i = i + 1;
        }
    }

    /// OAM DMA starts one m-cycle after the write to DMA, then copies at the next.
    fn dma_step(&mut self)
        requires
            old(self)@.wf(),
        ensures
            final(self)@.wf(),
            final(self)@ == old(self)@.dma_spec(),
            final(self).trace == old(self).trace,
            final(self).history == old(self).history,
    {
        match self.ppu.get_dma_state() {
            DMATransferState::Pending => {
                self.ppu.set_dma_enable();
                assert(self.ppu@ =~= (PpuModel { dma_state: DMATransferState::Transferring, ..old(self).ppu@ }));
            },
            DMATransferState::Transferring => self.oam_dma_transfer(),
            DMATransferState::Disabled => {},
        }
    }

    /// Copies the 160 bytes of page DMA into OAM and ends the transfer.
    fn oam_dma_transfer(&mut self)
        requires
            old(self)@.wf(),
            old(self).ppu.dma_state == DMATransferState::Transferring,
        ensures
            final(self)@.wf(),
            final(self)@ == old(self)@.dma_spec(),
            final(self).trace == old(self).trace,
            final(self).history == old(self).history,
    {
        let ghost b = self@;
        let start: u16 = (self.ppu.regs.dma as u16) * 0x100;
        let mut i: u16 = 0;
        while i < 0xA0
            invariant
                b.wf(),
                i <= 0xA0,
                start == b.ppu.regs.dma as int * 0x100,
                self.oam@.len() == 0xA0,
                forall|j: int| 0 <= j < i ==> self.oam@[j] == b.peek((start + j) as u16),
                forall|j: int| i <= j < 0xA0 ==> self.oam@[j] == b.oam[j],
                self.fault == (b.fault || exists|j: int| 0 <= j < i && #[trigger] b.peek_fault((start + j) as u16)),
                self@ == (BusView { oam: self.oam@, fault: self.fault, ..b }),
                self.trace == old(self).trace,
                self.history == old(self).history,
            decreases 0xA0 - i,
        {
            let ghost cur = self@;
            let ghost a = (start + i) as u16;
            assert(cur.peek(a) == b.peek(a));
            let v = self.peek(start + i);
            self.oam.set(i as usize, v);
            proof {
                if b.peek_fault(a) {
                    assert(0 <= i < i + 1 && b.peek_fault((start + i) as u16));
                }
            }
            i = i + 1;
        }
        self.ppu.reset_dma();
        assert(self.oam@ =~= Seq::new(0xA0, |j: int| b.peek((start + j) as u16)));
        assert(self.ppu@ =~= (PpuModel { dma_state: DMATransferState::Disabled, ..b.ppu }));
    }

    /// Ticks the bus by `cycles_passed` m-cycles: called for every memory access and for the
    /// extra cycles of some instructions. The T-cycles to run (four per m-cycle, twice as
    /// many for the timer at double speed) must fit in 16 bits.
    pub fn tick(&mut self, cycles_passed: u16)
        requires
            old(self).wf(),
            cycles_passed <= 0x3FFF,
            old(self).double_speed ==> cycles_passed <= 0x1FFF,
        ensures
            final(self).wf(),
            final(self)@ == old(self)@.tick_spec(cycles_passed),
            final(self).trace@ == old(self).trace@.push(BusEvent::Tick { cycles: cycles_passed }),
            final(self).continues(*old(self)),
    {
        self.advance(cycles_passed);
        self.record(Ghost(BusEvent::Tick { cycles: cycles_passed }));
    }

    /// A general purpose VRAM DMA or the start of an H-Blank DMA.
    fn vram_dma_transfer(&mut self)
        requires
            old(self)@.wf(),
        ensures
            final(self)@.wf(),
            final(self)@ == old(self)@.vram_dma_spec(),
            final(self).trace == old(self).trace,
            final(self).history == old(self).history,
    {
        let source = self.hdma.source();
        let dest = self.hdma.dest();
        let len = self.hdma.length();
        if self.hdma.is_gdma() && !self.hdma.hdma_in_progress {
            self.hdma.halted = true;
            let ghost b = self@;
            let mut i: u16 = 0;
            while i < len
                invariant
                    i <= len,
                    b.wf(),
                    self@.wf(),
                    self@ == b.gdma_steps(source, dest, i as nat),
                    self.vbk == b.vbk,
                    self.trace == old(self).trace,
                    self.history == old(self).history,
                decreases len - i,
            {
                let ghost cur = self@;
                let a = wrapping_add16(source, i);
                let v = self.peek(a);
                let idx = wrapping_add16(dest, i);
                if idx < 0x2000 {
                    let vbk: u8 = self.vbk;
                    proof { lemma_bank_masks(vbk); }
                    let bank: usize = (vbk & 1) as usize;
                    self.vram.set(bank * 0x2000 + idx as usize, v);
                } else {
                    self.fault = true;
                }
                assert(self@ =~= cur.gdma_step(source, dest, i as int));
                i = i + 1;
            }
            self.hdma.complete_transfer();
        } else {
            let hdma5 = self.hdma.read(0xFF55);
            self.hdma.write(0xFF55, hdma5 & 0x7F);
            self.hdma.hdma_in_progress = true;
        }
    }

    /// Writes an I/O register $FF00-$FF7F.
    fn io_store(&mut self, address: u16, value: u8)
        requires
            old(self)@.wf(),
            0xFF00 <= address <= 0xFF7F,
        ensures
            final(self)@.wf(),
            old(self)@.store_rel(final(self)@, address, value),
            final(self).trace == old(self).trace,
            final(self).history == old(self).history,
    {
        if address == 0xFF00 {
            self.joypad.write(address, value);
        } else if address == 0xFF01 || address == 0xFF02 {
            self.serial.write(address, value);
        } else if 0xFF04 <= address && address <= 0xFF07 {
            self.timer.write(address, value);
        } else if address == 0xFF0F {
            self.interrupt_handler.intf = value | 0b1110_0000;
        } else if 0xFF10 <= address && address <= 0xFF3F {
            self.apu.write(address, value);
        } else if (0xFF40 <= address && address <= 0xFF4B) || (0xFF68 <= address && address <= 0xFF6B) {
            self.ppu.write_with_callback(address, value, &mut self.interrupt_handler);
        } else if address == 0xFF4D {
            self.key1 = (self.key1 & 0xFE) | (value & 1);
        } else if address == 0xFF4F {
            if self.ppu.cgb {
                self.vbk = 0xFE | value;
            }
        } else if 0xFF51 <= address && address <= 0xFF55 {
            self.hdma.write(address, value);
            if address == 0xFF55 && self.ppu.cgb {
                if value & 0x80 == 0 && self.hdma.hdma_in_progress {
                    self.hdma.terminate_transfer();
                } else {
                    self.vram_dma_transfer();
                }
            }
        } else if address == 0xFF70 {
            if self.ppu.cgb {
                self.svbk = 0xF8 | (value & 0x07);
            }
        }
    }

    /// Stores `value` at `address` without ticking; a write the cartridge cannot take sets
    /// the fault flag.
    fn store(&mut self, address: u16, value: u8)
        requires
            old(self)@.wf(),
        ensures
            final(self)@.wf(),
            old(self)@.store_rel(final(self)@, address, value),
            final(self).trace == old(self).trace,
            final(self).history == old(self).history,
    {
        if address <= 0x7FFF || (0xA000 <= address && address <= 0xBFFF) {
            if self.cartridge.can_write(address, value) {
                self.cartridge.write(address, value);
            } else {
                self.fault = true;
            }
        } else if address <= 0x9FFF {
            let v: u8 = self.vbk;
            proof { lemma_bank_masks(v); }
            let bank: usize = if self.ppu.cgb { (v & 1) as usize } else { 0 };
            self.vram.set(bank * 0x2000 + (address - 0x8000) as usize, value);
        } else if address < 0xFE00 {
            let i = self.wram_offset(address);
            self.wram.set(i, value);
        } else if address <= 0xFE9F {
            self.oam.set((address - 0xFE00) as usize, value);
        } else if address <= 0xFEFF {
            // not usable
        } else if address <= 0xFF7F {
            self.io_store(address, value);
        } else if address <= 0xFFFE {
            self.hram.set((address - 0xFF80) as usize, value);
        } else {
            self.interrupt_handler.inte = value;
        }
    }
}

impl Bus {
    /// Reads two bytes, little endian: the byte at `address`, then the one after it.
    pub fn read_16(&mut self, address: u16) -> (r: u16)
        requires
            old(self).wf(),
        ensures
            final(self).wf(),
            ({
                let (b1, lo) = old(self)@.read_spec(address);
                let (b2, hi) = b1.read_spec(add16(address as int, 1));
                &&& final(self)@ == b2
                &&& r == pair(hi, lo)
            }),
            final(self).trace@ == old(self).trace@.push(
                BusEvent::Read { address, value: lo_byte(r) },
            ).push(BusEvent::Read { address: add16(address as int, 1), value: hi_byte(r) }),
            final(self).continues(*old(self)),
    {
        let lower_byte = self.read(address);
        let higher_byte = self.read(wrapping_add16(address, 1));
        proof {
            lemma_pair_split(higher_byte, lower_byte);
        }
        join_bytes(higher_byte, lower_byte)
    }

    /// Writes two bytes, little endian: the low byte at `address`, the high one after it.
    pub fn write_16(&mut self, address: u16, value: u16)
        requires
            old(self).wf(),
        ensures
            final(self).wf(),
            exists|mid: BusView|
                old(self)@.write_rel(mid, address, lo_byte(value)) && mid.write_rel(
                    final(self)@,
                    add16(address as int, 1),
                    hi_byte(value),
                ),
            final(self).trace@ == old(self).trace@.push(
                BusEvent::Write { address, value: lo_byte(value) },
            ).push(BusEvent::Write { address: add16(address as int, 1), value: hi_byte(value) }),
            final(self).continues(*old(self)),
    {
        let (high, low) = split_bytes(value);
        self.write(address, low);
        let ghost mid = self@;
        self.write(wrapping_add16(address, 1), high);
    }

    /// Toggles double speed mode (the switch armed by KEY1 bit 0 on the CGB) and disarms it.
    pub fn change_speed(&mut self)
        requires
            old(self).wf(),
        ensures
            final(self).wf(),
            final(self).double_speed == (old(self).key1 < 0x80),
            final(self).key1 == if old(self).key1 < 0x80 {
                (old(self).key1 | 0x80) & 0xFE
            } else {
                old(self).key1 & 0x7E
            },
            final(self)@ == old(self)@.speed_switch_spec(),
            final(self).trace@ == old(self).trace@.push(BusEvent::SpeedSwitch),
            final(self).continues(*old(self)),
    {
        let current_speed = (self.key1 & 0x80) >> 7;
        let k: u8 = self.key1;
        assert(((k & 0x80) >> 7 == 0 <==> k < 0x80) && (((k & 0x7F) | (1u8 << 7)) & !1u8) == ((k
            | 0x80) & 0xFE) && (((k & 0x7F) & !(1u8 << 7)) & !1u8) == (k & 0x7E)) by (bit_vector);
        if current_speed == 0 {
            self.key1 = (self.key1 & 0x7F) | (1 << 7);
            self.double_speed = true;
        } else {
            self.key1 = (self.key1 & 0x7F) & !(1u8 << 7);
            self.double_speed = false;
        }
        self.key1 = self.key1 & !1u8;
        self.record(Ghost(BusEvent::SpeedSwitch));
    }

    /// The interrupts that are both enabled and requested (IE & IF), read without a cycle.
    pub fn pending_interrupts(&mut self) -> (r: u8)
        requires
            old(self).wf(),
        ensures
            final(self).wf(),
            r == old(self).interrupt_handler.inte & old(self).interrupt_handler.intf,
            final(self)@ == old(self)@,
            final(self).trace@ == old(self).trace@.push(BusEvent::Pending { value: r }),
            final(self).continues(*old(self)),
    {
        let r = self.interrupt_handler.inte & self.interrupt_handler.intf;
        self.record(Ghost(BusEvent::Pending { value: r }));
        r
    }

    /// Clears the request of an interrupt the CPU is about to service.
    pub fn acknowledge(&mut self, interrupt: Interrupt)
        requires
            old(self).wf(),
        ensures
            final(self).wf(),
            final(self)@ == (BusView {
                ih: InterruptHandler {
                    intf: old(self).interrupt_handler.intf & !interrupt_bit(interrupt),
                    ..old(self).interrupt_handler
                },
                ..old(self)@
            }),
            final(self).trace@ == old(self).trace@.push(BusEvent::Acknowledge { interrupt }),
            final(self).continues(*old(self)),
    {
        self.interrupt_handler.reset_if(interrupt);
        self.record(Ghost(BusEvent::Acknowledge { interrupt }));
    }

    /// Resets the divider, as STOP does.
    pub fn reset_div(&mut self)
        requires
            old(self).wf(),
        ensures
            final(self).wf(),
            final(self)@ == (BusView { timer: Timers { div: 0, ..old(self).timer }, ..old(self)@ }),
            final(self).trace@ == old(self).trace@.push(BusEvent::ResetDiv),
            final(self).continues(*old(self)),
    {
        self.timer.div = 0;
        self.record(Ghost(BusEvent::ResetDiv));
    }

    /// Polls the keys (`true` = held down; A/Right, B/Left, Select/Up, Start/Down) into JOYP,
    /// requesting the joypad interrupt as `Joypad::tick` does.
    pub fn poll_joypad(&mut self, action_keys: [bool; 4], direction_keys: [bool; 4])
        requires
            old(self).wf(),
        ensures
            final(self).wf(),
            final(self)@ == old(self)@.poll_spec(action_keys@, direction_keys@),
            final(self).trace@ == old(self).trace@.push(
                BusEvent::JoypadPoll { action: action_keys@, direction: direction_keys@ },
            ),
            final(self).continues(*old(self)),
    {
        self.joypad.tick(&mut self.interrupt_handler, action_keys, direction_keys);
        self.record(Ghost(BusEvent::JoypadPoll { action: action_keys@, direction: direction_keys@ }));
    }

    /// Loads a `.sav` file into the cartridge RAM (see `Cartridge::load_sram`).
    pub fn load_sram(&mut self, save: &[u8])
        requires
            old(self).wf(),
            old(self).cartridge.load_ok(save@),
        ensures
            final(self).wf(),
            old(self).cartridge.load_rel(final(self).cartridge, save@),
            final(self)@ == (BusView { cartridge: final(self).cartridge, ..old(self)@ }),
            final(self).trace@ == old(self).trace@.push(BusEvent::LoadSave { save: save@ }),
            final(self).continues(*old(self)),
    {
        self.cartridge.load_sram(save);
        self.record(Ghost(BusEvent::LoadSave { save: save@ }));
    }

    /// All keys read as released.
    pub fn release_keys(&mut self)
        requires
            old(self).wf(),
        ensures
            final(self).wf(),
            final(self)@ == (BusView {
                joypad: Joypad { joyp: old(self).joypad.joyp | 0xF, ..old(self).joypad },
                ..old(self)@
            }),
            final(self).trace@ == old(self).trace@.push(BusEvent::ReleaseKeys),
            final(self).continues(*old(self)),
    {
        self.joypad.reset_pressed_keys();
        self.record(Ghost(BusEvent::ReleaseKeys));
    }
}

impl MMIO for Bus {
    open spec fn read_ok(&self, address: u16) -> bool {
        self.wf()
    }

    open spec fn write_ok(&self, address: u16, value: u8) -> bool {
        self.wf()
    }

    /// A CPU read: the bus ticks one m-cycle (not while OAM DMA or a VRAM DMA copies), then
    /// the value at `address` is returned.
    fn read(&mut self, address: u16) -> (r: u8)
        ensures
            final(self).wf(),
            (final(self)@, r) == old(self)@.read_spec(address),
            final(self).trace@ == old(self).trace@.push(BusEvent::Read { address, value: r }),
            final(self).continues(*old(self)),
    {
        if self.ppu.get_dma_state() != DMATransferState::Transferring && !self.hdma.halted {
            self.advance(1);
        }
        let r = self.peek(address);
        self.record(Ghost(BusEvent::Read { address, value: r }));
        r
    }

    /// A CPU write: the bus ticks one m-cycle (not while OAM DMA runs), then `value` is
    /// stored at `address`.
    fn write(&mut self, address: u16, value: u8)
        ensures
            final(self).wf(),
            old(self)@.write_rel(final(self)@, address, value),
            final(self).trace@ == old(self).trace@.push(BusEvent::Write { address, value }),
            final(self).continues(*old(self)),
    {
        if self.ppu.get_dma_state() != DMATransferState::Transferring {
            self.advance(1);
        }
        self.store(address, value);
        self.record(Ghost(BusEvent::Write { address, value }));
    }
}


/// What `tick_spec` is: the timer and the serial port clocked (twice as often at double
/// speed), four PPU dots per m-cycle (half as many at double speed), then the OAM DMA step.
pub proof fn lemma_tick_spec(b: BusView, cycles: u16)
    ensures
        ({
            let factor: int = if b.double_speed { 2 } else { 1 };
            b.tick_spec(cycles) == b.clock_spec((cycles * factor) as u16).dots_view(
                ((cycles * 4) / factor) as nat,
            ).dma_spec()
        }),
{
    reveal(BusView::tick_spec);
}

/// What a CPU read is: one m-cycle passes unless OAM DMA or a VRAM DMA is copying, then the
/// value at the address is taken (see `peek`); a read the cartridge cannot serve sets the
/// fault flag.
pub proof fn lemma_read_spec(b: BusView, a: u16)
    ensures
        ({
            let t = if b.access_ticks() { b.tick_spec(1) } else { b };
            b.read_spec(a) == (BusView { fault: t.fault || t.peek_fault(a), ..t }, t.peek(a))
        }),
{
}

/// What a CPU write is: one m-cycle passes unless OAM DMA is copying, then the value is
/// stored (see `store_rel`).
pub proof fn lemma_write_rel(b: BusView, after: BusView, a: u16, v: u8)
    ensures
        ({
            let t = if b.ppu.dma_state != DMATransferState::Transferring { b.tick_spec(1) } else { b };
            b.write_rel(after, a, v) == t.store_rel(after, a, v)
        }),
{
}

/// Ticking never touches video RAM, work RAM, high RAM, the bank registers or the CGB mode.
pub proof fn lemma_tick_keeps_ram(b: BusView, cycles: u16)
    ensures
        b.tick_spec(cycles).vram == b.vram,
        b.tick_spec(cycles).vbk == b.vbk,
        b.tick_spec(cycles).wram == b.wram,
        b.tick_spec(cycles).hram == b.hram,
        b.tick_spec(cycles).svbk == b.svbk,
        b.tick_spec(cycles).ppu.cgb == b.ppu.cgb,
{
    reveal(BusView::tick_spec);
    let factor: int = if b.double_speed { 2 } else { 1 };
    let c = b.clock_spec((cycles * factor) as u16);
    lemma_dots_keep_cgb(c.ppu, c.vram, c.oam, c.ih, ((cycles * 4) / factor) as nat);
}

/// Video RAM, work RAM and high RAM keep what the CPU writes: a read right after a write to
/// the same address gives the value written, and the echo area $E000-$FDFF reads and writes
/// the same cells as $C000-$DDFF.
#[verifier::spinoff_prover]
#[verifier::rlimit(40)]
pub proof fn law_ram_read_after_write(b: BusView, after: BusView, a: u16, v: u8)
    requires
        b.wf(),
        (0x8000 <= a <= 0x9FFF) || (0xC000 <= a <= 0xFDFF) || (0xFF80 <= a <= 0xFFFE),
        b.write_rel(after, a, v),
    ensures
        after.read_spec(a).1 == v,
        0xC000 <= a <= 0xDDFF ==> after.read_spec((a + 0x2000) as u16).1 == v,
        0xE000 <= a <= 0xFDFF ==> after.read_spec((a - 0x2000) as u16).1 == v,
{
    lemma_tick_keeps_ram(b, 1);
    lemma_tick_keeps_ram(after, 1);
    let b1 = if b.ppu.dma_state != DMATransferState::Transferring { b.tick_spec(1) } else { b };
    assert(after == b1.store_spec(a, v));
    let s = b1.svbk;
    lemma_bank_masks(s);
    lemma_bank_masks(b1.vbk);
}

/// On a bus that went through its accesses, a read of video, work or high RAM right after a
/// write to the same address gives the value written.
pub proof fn law_trace_read_after_write(bus: Bus, i: int, a: u16, v: u8, w: u8)
    requires
        bus.wf(),
        0 <= i,
        i + 1 < bus.trace@.len(),
        bus.trace@[i] == (BusEvent::Write { address: a, value: v }),
        bus.trace@[i + 1] == (BusEvent::Read { address: a, value: w }),
        (0x8000 <= a <= 0x9FFF) || (0xC000 <= a <= 0xFDFF) || (0xFF80 <= a <= 0xFFFE),
    ensures
        w == v,
{
    let h = bus.history@;
    let t = bus.trace@;
    assert(event_rel(h[i], t[i], h[i + 1]));
    let j = i + 1;
    assert(event_rel(h[j], t[j], h[j + 1]));
    assert(h[i].wf());
    law_ram_read_after_write(h[i], h[i + 1], a, v);
}

} // verus!
