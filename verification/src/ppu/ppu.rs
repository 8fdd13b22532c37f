use vstd::prelude::*;
use crate::bits::lemma_bit_facts;
use crate::ppu::color_palette::dmg_color;
use crate::cpu::alu::add8;
use crate::cpu::interrupts::{Interrupt, InterruptHandler};
use crate::ppu::color_palette::{color_of, convert_to_color, palette_number, Palette, ScreenColor};
use crate::ppu::ppu_regs::PPURegisters;
use crate::ppu::sprite::{get_current_sprites_per_line, sprites_on_line, Sprite};
use crate::ppu::tile_attributes::{tile_attribute_of, TileAttribute};

verus! {

// --------- PPU constants ---------
pub const LCD_WIDTH: usize = 160;
pub const LCD_HEIGHT: usize = 144;

pub const MODE3_START: i16 = 80;
pub const HBLANK_START: i16 = 252;
pub const LINE_END: i16 = 455;

#[derive(PartialEq, Eq, Clone, Copy, Debug, Structural)]
pub enum Mode {
    HBlank,
    VBlank,
    Mode2,
    Mode3,
}

/// STAT bits 1-0 of a mode.
pub open spec fn mode_bits(m: Mode) -> u8 {
    match m {
        Mode::HBlank => 0u8,
        Mode::VBlank => 1u8,
        Mode::Mode2 => 2u8,
        Mode::Mode3 => 3u8,
    }
}

fn mode_number(m: Mode) -> (r: u8)
    ensures
        r == mode_bits(m),
{
    match m {
        Mode::HBlank => 0,
        Mode::VBlank => 1,
        Mode::Mode2 => 2,
        Mode::Mode3 => 3,
    }
}

#[derive(PartialEq, Eq, Clone, Copy, Debug, Structural)]
pub enum DMATransferState {
    Pending,
    Transferring,
    Disabled,
}

#[allow(clippy::upper_case_acronyms)]
pub struct PPU {
    /// LCD screen, current viewport (double buffering), 160x144 row by row
    pub frame_buffer: Vec<ScreenColor>,
    pub ui_frame_buffer: Vec<ScreenColor>,
    /// Raw 256x256 background for debugging purposes
    pub raw_frame: Vec<ScreenColor>,
    /// Color RAM for CGB mode, stored as RGB555
    pub bg_cram: Vec<u8>,
    pub bgpi: u8,
    pub obj_cram: Vec<u8>,
    pub obpi: u8,
    /// Pixels of the current line (empty between lines)
    pub current_line: Vec<ScreenColor>,
    /// Up to 10 sprites that will be rendered this line
    pub current_sprites: Vec<Sprite>,
    /// All PPU registers needed for DMG, MMIO
    pub regs: PPURegisters,
    /// Current dot the PPU is at relative to the beginning of a line
    pub dots: i16,
    /// Current mode, based on bits 1-0 of STAT
    pub current_mode: Mode,
    /// Previous STAT interrupt line, to detect a rising edge
    pub stat_block: bool,
    /// Current DMA state to delay the DMA transfer one m-cycle
    pub dma_state: DMATransferState,
    pub internal_window_line: u8,
    pub cgb: bool,
}

// -------------------------------------------------------------
// Pixel level specification of the rendering
// -------------------------------------------------------------

/// Bit `i` of byte `b`, as 0 or 1.
pub open spec fn bit_of(b: u8, i: u8) -> u8 {
    (b & (1u8 << i)) >> i
}

/// Color number from the two bit planes of a tile row.
pub open spec fn color_number(first: u8, second: u8, i: u8) -> u8 {
    (bit_of(second, i) << 1) | bit_of(first, i)
}

proof fn lemma_color_number(first: u8, second: u8, i: u8)
    requires
        i < 8,
    ensures
        color_number(first, second, i) < 4,
        bit_of(first, i) <= 1,
        bit_of(second, i) <= 1,
{
    assert(((second & (1u8 << i)) >> i) <= 1 && ((first & (1u8 << i)) >> i) <= 1
        && ((((second & (1u8 << i)) >> i) << 1) | ((first & (1u8 << i)) >> i)) < 4) by (bit_vector)
        requires
            i < 8,
    ;
}

/// A color of the four DMG shades repeated `n` times.
pub open spec fn blank_line(n: nat) -> Seq<ScreenColor> {
    Seq::new(n, |i: int| ScreenColor::White)
}

/// `y + 1` with 16-bit signed wrap-around.
pub open spec fn next_dot(d: i16) -> i16 {
    if d == 0x7FFF { -0x8000i16 } else { (d + 1) as i16 }
}

/// STAT with its coincidence bit (2) set from LY == LYC.
pub open spec fn lyc_stat(r: PPURegisters) -> u8 {
    if r.ly == r.lyc { r.stat | 0b100 } else { r.stat & !0b100u8 }
}

/// The state of the PPU as values: the buffers as sequences.
#[verifier::ext_equal]
pub struct PpuModel {
    pub frame_buffer: Seq<ScreenColor>,
    pub ui_frame_buffer: Seq<ScreenColor>,
    pub raw_frame: Seq<ScreenColor>,
    pub bg_cram: Seq<u8>,
    pub bgpi: u8,
    pub obj_cram: Seq<u8>,
    pub obpi: u8,
    pub current_line: Seq<ScreenColor>,
    pub current_sprites: Seq<Sprite>,
    pub regs: PPURegisters,
    pub dots: i16,
    pub current_mode: Mode,
    pub stat_block: bool,
    pub dma_state: DMATransferState,
    pub internal_window_line: u8,
    pub cgb: bool,
}

impl View for PPU {
    type V = PpuModel;

    open spec fn view(&self) -> PpuModel {
        PpuModel {
            frame_buffer: self.frame_buffer@,
            ui_frame_buffer: self.ui_frame_buffer@,
            raw_frame: self.raw_frame@,
            bg_cram: self.bg_cram@,
            bgpi: self.bgpi,
            obj_cram: self.obj_cram@,
            obpi: self.obpi,
            current_line: self.current_line@,
            current_sprites: self.current_sprites@,
            regs: self.regs,
            dots: self.dots,
            current_mode: self.current_mode,
            stat_block: self.stat_block,
            dma_state: self.dma_state,
            internal_window_line: self.internal_window_line,
            cgb: self.cgb,
        }
    }
}

impl PPU {
    pub open spec fn wf(&self) -> bool {
        self@.wf()
    }
}

impl PpuModel {
    pub open spec fn wf(&self) -> bool {
        &&& self.frame_buffer.len() == 160 * 144
        &&& self.ui_frame_buffer.len() == 160 * 144
        &&& self.raw_frame.len() == 256 * 256
        &&& self.bg_cram.len() == 64
        &&& self.obj_cram.len() == 64
        &&& self.current_line.len() == 0
        &&& self.current_mode != Mode::VBlank ==> self.regs.ly < 144
    }

    /// The STAT interrupt line: LY=LYC, HBlank, OAM scan or VBlank condition enabled and met.
    pub open spec fn stat_line(self) -> bool {
        let s = self.regs.stat;
        ||| (self.regs.ly == self.regs.lyc && s & 0x40 != 0)
        ||| (self.current_mode == Mode::HBlank && s & 0x08 != 0)
        ||| (self.current_mode == Mode::Mode2 && s & 0x20 != 0)
        ||| (self.current_mode == Mode::VBlank && (s & 0x10 != 0 || s & 0x20 != 0))
    }

    /// Records the STAT line; a STAT interrupt is requested on its rising edge.
    pub open spec fn stat_check(self, ih: InterruptHandler) -> (PpuModel, InterruptHandler) {
        let fire = !self.stat_block && self.stat_line();
        (
            PpuModel { stat_block: self.stat_line(), ..self },
            if fire { InterruptHandler { intf: ih.intf | 0b10, ..ih } } else { ih },
        )
    }

    /// Mode change: entering VBlank always requests the VBlank interrupt; a change to the
    /// mode already current does nothing else; otherwise STAT bits 1-0 follow and the STAT
    /// line is checked.
    pub open spec fn change_mode_spec(self, to: Mode, ih: InterruptHandler) -> (
        PpuModel,
        InterruptHandler,
    ) {
        let ih1 = if to == Mode::VBlank {
            InterruptHandler { intf: ih.intf | 0b1, ..ih }
        } else {
            ih
        };
        if to != Mode::VBlank && to == self.current_mode {
            (self, ih1)
        } else {
            PpuModel {
                regs: PPURegisters { stat: (self.regs.stat & !0b11u8) | mode_bits(to), ..self.regs },
                current_mode: to,
                ..self
            }.stat_check(ih1)
        }
    }

    /// The PPU with new registers.
    pub open spec fn with_regs(self, regs: PPURegisters) -> PpuModel {
        PpuModel { regs, ..self }
    }

    /// Color of pixel `h` of row `y % 8` of the background / window tile whose map entry is at
    /// `index` (offset in a VRAM bank; the attributes are in bank 1).
    pub open spec fn tile_pixel(self, vram: Seq<u8>, unsigned_addressing: bool, index: int, y: u8, h: int) -> ScreenColor {
        let attr = tile_attribute_of(vram[0x2000 + index]);
        let vbk: int = if self.cgb { attr.vram_bank as int } else { 0 };
        let bgp = if self.cgb { attr.bgp } else { self.regs.bgp };
        let tile = vram[vbk * 0x2000 + index];
        let row = (y % 8) as int;
        let base: int = if unsigned_addressing {
            tile as int * 16
        } else if tile <= 127 {
            0x1000 + tile as int * 16
        } else {
            0x800 + (tile % 128) as int * 16
        };
        let first = vram[vbk * 0x2000 + base + 2 * row];
        let second = vram[vbk * 0x2000 + base + 2 * row + 1];
        let i: u8 = if attr.h_flip && self.cgb { h as u8 } else { (7 - h) as u8 };
        color_of(color_number(first, second, i), Palette::BGP(bgp), self.cgb, self.bg_cram)
    }

    pub open spec fn tile_row_spec(self, vram: Seq<u8>, unsigned_addressing: bool, index: int, y: u8) -> Seq<ScreenColor> {
        Seq::new(8, |h: int| self.tile_pixel(vram, unsigned_addressing, index, y, h))
    }

    pub open spec fn unsigned_addressing(self) -> bool {
        self.regs.lcdc & 0b10000 != 0
    }

    pub open spec fn bg_map_area(self) -> int {
        if self.regs.lcdc & 0b1000 == 0 { 0x1800 } else { 0x1C00 }
    }

    pub open spec fn win_map_area(self) -> int {
        if self.regs.lcdc & 0x40 == 0 { 0x1800 } else { 0x1C00 }
    }

    pub open spec fn window_active(self) -> bool {
        &&& self.regs.lcdc & 0x20 != 0
        &&& self.regs.window_visible()
        &&& self.regs.ly >= self.regs.wy
    }

    /// Background pixel `x` of the current line: the 256 pixel wide map line at LY + SCY,
    /// scrolled left by SCX.
    pub open spec fn bg_pixel(self, vram: Seq<u8>, x: int) -> ScreenColor {
        let ay = add8(self.regs.ly as int, self.regs.scy as int);
        let start = self.bg_map_area() + (ay / 8) as int * 32;
        let k = (x + self.regs.scx) % 256;
        self.tile_pixel(vram, self.unsigned_addressing(), start + k / 8, ay, k % 8)
    }

    /// Window pixel at offset `k` from the window's left edge (WX - 7).
    pub open spec fn win_pixel(self, vram: Seq<u8>, k: int) -> ScreenColor {
        let wl = self.internal_window_line;
        let start = self.win_map_area() + (wl / 8) as int * 32;
        self.tile_pixel(vram, self.unsigned_addressing(), start + k / 8, wl, k % 8)
    }

    /// Background and window layer of the current line (256 pixels).
    pub open spec fn bg_win_line_spec(self, vram: Seq<u8>) -> Seq<ScreenColor> {
        if self.regs.lcdc & 0x1 == 0 {
            blank_line(256)
        } else {
            Seq::new(
                256,
                |x: int|
                    {
                        let k = x - (self.regs.wx - 7);
                        if self.window_active() && 0 <= k < 256 {
                            self.win_pixel(vram, k)
                        } else {
                            self.bg_pixel(vram, x)
                        }
                    },
            )
        }
    }

    /// Palette a sprite is drawn with.
    pub open spec fn sprite_palette(self, s: Sprite) -> Palette {
        if !self.cgb {
            if (s.attr & 0x10) >> 4 == 0 {
                Palette::OBP(self.regs.opb0)
            } else {
                Palette::OBP(self.regs.opb1)
            }
        } else {
            Palette::OBP(s.attr & 0x07)
        }
    }

    /// Distance between the sprite's top line and LY.
    pub open spec fn sprite_dist(self, s: Sprite) -> int {
        let d = (s.y_pos as int - 16) - self.regs.ly as int;
        if d >= 0 { d } else { -d }
    }

    /// Tile of the sprite drawn on this line (8x16 sprites use two tiles).
    pub open spec fn sprite_tile(self, s: Sprite) -> u8 {
        let upper = s.tile_index & 0xFE;
        let lower = s.tile_index | 0x1;
        if self.regs.sprite_8x8() {
            s.tile_index
        } else if s.y_flipped() {
            if self.sprite_dist(s) >= 8 { upper } else { lower }
        } else {
            if self.sprite_dist(s) >= 8 { lower } else { upper }
        }
    }

    /// Offset in VRAM of the first bit plane of the sprite row drawn on this line.
    pub open spec fn sprite_row_addr(self, s: Sprite) -> int {
        let row = self.sprite_dist(s) % 8;
        let r = if !s.y_flipped() { row } else { 7 - row };
        ((s.attr & 0x08) >> 3) as int * 0x2000 + self.sprite_tile(s) as int * 16 + 2 * r
    }

    /// New color of pixel `x` of the line when sprite `s` is drawn over color `cur`.
    pub open spec fn sprite_pixel(self, vram: Seq<u8>, s: Sprite, cur: ScreenColor, x: int) -> ScreenColor {
        let k = x - (s.x_pos as int - 8);
        if 0 <= k < 8 {
            let i: u8 = if s.x_flipped() { k as u8 } else { (7 - k) as u8 };
            let first = vram[self.sprite_row_addr(s)];
            let second = vram[self.sprite_row_addr(s) + 1];
            let c = color_number(first, second, i);
            let pal = self.sprite_palette(s);
            if c == 0 {
                cur
            } else if s.obj_prio() {
                color_of(c, pal, self.cgb, self.obj_cram)
            } else if cur == color_of(0, pal, self.cgb, self.obj_cram) {
                color_of(c, pal, self.cgb, self.obj_cram)
            } else {
                cur
            }
        } else {
            cur
        }
    }

    pub open spec fn draw_sprite_spec(self, vram: Seq<u8>, line: Seq<ScreenColor>, s: Sprite) -> Seq<ScreenColor> {
        Seq::new(line.len(), |x: int| self.sprite_pixel(vram, s, line[x], x))
    }

    /// `sprites` drawn over `line`, the last first, so that earlier sprites end on top.
    pub open spec fn draw_sprites(self, vram: Seq<u8>, line: Seq<ScreenColor>, sprites: Seq<Sprite>) -> Seq<ScreenColor>
        decreases sprites.len(),
    {
        if sprites.len() == 0 {
            line
        } else {
            self.draw_sprite_spec(vram, self.draw_sprites(vram, line, sprites.drop_first()), sprites[0])
        }
    }

    pub open spec fn sprite_line_spec(self, vram: Seq<u8>, line: Seq<ScreenColor>) -> Seq<ScreenColor> {
        if self.regs.lcdc & 0x2 == 0 {
            line
        } else {
            self.draw_sprites(vram, line, self.current_sprites)
        }
    }

    /// The finished pixels of the current line (256 wide; the first 160 are shown).
    pub open spec fn current_line_spec(self, vram: Seq<u8>) -> Seq<ScreenColor> {
        self.sprite_line_spec(vram, self.bg_win_line_spec(vram))
    }

    /// The 256x256 background map, row by row.
    pub open spec fn bg_map_spec(self, vram: Seq<u8>) -> Seq<ScreenColor> {
        Seq::new(
            256 * 256,
            |p: int|
                {
                    let y = p / 256;
                    let x = p % 256;
                    self.tile_pixel(
                        vram,
                        self.unsigned_addressing(),
                        self.bg_map_area() + (y / 8) * 32 + x / 8,
                        y as u8,
                        x % 8,
                    )
                },
        )
    }

    /// Frame buffer with row `y` replaced by the first 160 pixels of `line`.
    pub open spec fn with_row(fb: Seq<ScreenColor>, y: int, line: Seq<ScreenColor>) -> Seq<ScreenColor> {
        Seq::new(fb.len(), |p: int| if y * 160 <= p < y * 160 + 160 { line[p - y * 160] } else { fb[p] })
    }

    /// Turning the LCD off: LY, window line and dot counter reset, HBlank.
    pub open spec fn lcd_off_spec(self) -> PpuModel {
        PpuModel {
            regs: PPURegisters { ly: 0, stat: self.regs.stat & !0b11u8, ..self.regs },
            internal_window_line: 0,
            dots: 0,
            current_mode: Mode::HBlank,
            ..self
        }
    }
}

impl PpuModel {
    pub open spec fn read_spec(&self, address: u16) -> u8 {
        if address == 0xFF40 {
            self.regs.lcdc
        } else if address == 0xFF41 {
            self.regs.stat
        } else if address == 0xFF42 {
            self.regs.scy
        } else if address == 0xFF43 {
            self.regs.scx
        } else if address == 0xFF44 {
            self.regs.ly
        } else if address == 0xFF45 {
            self.regs.lyc
        } else if address == 0xFF46 {
            self.regs.dma
        } else if address == 0xFF47 {
            self.regs.bgp
        } else if address == 0xFF48 {
            self.regs.opb0
        } else if address == 0xFF49 {
            self.regs.opb1
        } else if address == 0xFF4A {
            self.regs.wy
        } else if address == 0xFF4B {
            self.regs.wx
        } else if address == 0xFF68 {
            self.bgpi
        } else if address == 0xFF69 {
            self.bg_cram[(self.bgpi & 0x3F) as int]
        } else if address == 0xFF6A {
            self.obpi
        } else {
            self.obj_cram[(self.obpi & 0x3F) as int]
        }
    }

    /// The PPU after a register or color RAM write, with the interrupt flags after it.
    pub open spec fn write_spec(self, address: u16, value: u8, ih: InterruptHandler) -> (PpuModel, InterruptHandler) {
        if address == 0xFF40 {
            let p = PpuModel { regs: PPURegisters { lcdc: value, ..self.regs }, ..self };
            if value & 0x80 == 0 {
                (p.lcd_off_spec(), ih)
            } else {
                p.with_regs(PPURegisters { stat: lyc_stat(p.regs), ..p.regs }).stat_check(ih)
            }
        } else if address == 0xFF41 {
            PpuModel {
                regs: PPURegisters { stat: 0x80 | (value & !0b111u8) | (self.regs.stat & 0b111), ..self.regs },
                ..self
            }.stat_check(ih)
        } else if address == 0xFF42 {
            (self.with_regs(PPURegisters { scy: value, ..self.regs }), ih)
        } else if address == 0xFF43 {
            (self.with_regs(PPURegisters { scx: value, ..self.regs }), ih)
        } else if address == 0xFF44 {
            (self, ih)
        } else if address == 0xFF45 {
            let p = self.with_regs(PPURegisters { lyc: value, ..self.regs });
            let p2 = if p.regs.lcd_on() {
                p.with_regs(PPURegisters { stat: lyc_stat(p.regs), ..p.regs })
            } else {
                p
            };
            p2.stat_check(ih)
        } else if address == 0xFF46 {
            (PpuModel { regs: PPURegisters { dma: value, ..self.regs }, dma_state: DMATransferState::Pending, ..self }, ih)
        } else if address == 0xFF47 {
            (self.with_regs(PPURegisters { bgp: value, ..self.regs }), ih)
        } else if address == 0xFF48 {
            (self.with_regs(PPURegisters { opb0: value, ..self.regs }), ih)
        } else if address == 0xFF49 {
            (self.with_regs(PPURegisters { opb1: value, ..self.regs }), ih)
        } else if address == 0xFF4A {
            (self.with_regs(PPURegisters { wy: value, ..self.regs }), ih)
        } else if address == 0xFF4B {
            (self.with_regs(PPURegisters { wx: value, ..self.regs }), ih)
        } else if address == 0xFF68 {
            (PpuModel { bgpi: value, ..self }, ih)
        } else if address == 0xFF69 {
            (PpuModel {
                bgpi: if self.bgpi & 0x80 != 0 { add8(self.bgpi as int, 1) } else { self.bgpi },
                bg_cram: self.bg_cram.update((self.bgpi & 0x3F) as int, value),
                ..self
            }, ih)
        } else if address == 0xFF6A {
            (PpuModel { obpi: value, ..self }, ih)
        } else {
            (PpuModel {
                obpi: if self.obpi & 0x80 != 0 { add8(self.obpi as int, 1) } else { self.obpi },
                obj_cram: self.obj_cram.update((self.obpi & 0x3F) as int, value),
                ..self
            }, ih)
        }
    }

}

/// One dot of the PPU (4 per m-cycle, 456 per line: 80 OAM scan, 172 drawing, 204 HBlank;
/// lines 144-153 are VBlank), with the interrupt flags after it. Nothing happens while the
/// LCD is off.
pub open spec fn dot_spec(p: PpuModel, vram: Seq<u8>, oam: Seq<u8>, ih: InterruptHandler) -> (PpuModel, InterruptHandler) {
    if !p.regs.lcd_on() {
        (p, ih)
    } else {
        let (q, ih2) = match p.current_mode {
            Mode::Mode2 => {
                let (p1, ih1) = if p.dots >= MODE3_START {
                    p.change_mode_spec(Mode::Mode3, ih)
                } else {
                    (p, ih)
                };
                let sprites = if p.dots == 0 {
                    sprites_on_line(oam, p.regs.ly, p.regs.sprite_8x8(), (oam.len() / 4) as int)
                } else {
                    p.current_sprites
                };
                (PpuModel { current_sprites: sprites, ..p1 }, ih1)
            },
            Mode::Mode3 => {
                if p.dots >= HBLANK_START {
                    let line = p.current_line_spec(vram);
                    let wl = if p.regs.window_visible() && p.regs.ly >= p.regs.wy && p.regs.lcdc
                        & 0x20 != 0 {
                        add8(p.internal_window_line as int, 1)
                    } else {
                        p.internal_window_line
                    };
                    let fb = PpuModel::with_row(p.frame_buffer, p.regs.ly as int, line);
                    PpuModel {
                        internal_window_line: wl,
                        frame_buffer: fb,
                        current_line: Seq::empty(),
                        current_sprites: Seq::empty(),
                        ..p
                    }.change_mode_spec(Mode::HBlank, ih)
                } else {
                    (p, ih)
                }
            },
            Mode::HBlank => {
                if p.dots >= LINE_END {
                    let r1 = PPURegisters { ly: add8(p.regs.ly as int, 1), ..p.regs };
                    let r2 = PPURegisters { stat: lyc_stat(r1), ..r1 };
                    let (p3, ih3) = p.with_regs(r2).stat_check(ih);
                    if r2.ly >= 144 {
                        let (p4, ih4) = p3.change_mode_spec(Mode::VBlank, ih3);
                        (
                            PpuModel {
                                internal_window_line: 0,
                                frame_buffer: p4.ui_frame_buffer,
                                ui_frame_buffer: p4.frame_buffer,
                                dots: -1i16,
                                ..p4
                            },
                            ih4,
                        )
                    } else {
                        let (p4, ih4) = p3.change_mode_spec(Mode::Mode2, ih3);
                        (PpuModel { dots: -1i16, ..p4 }, ih4)
                    }
                } else {
                    (p, ih)
                }
            },
            Mode::VBlank => {
                if p.dots >= LINE_END {
                    let r1 = PPURegisters { ly: add8(p.regs.ly as int, 1), ..p.regs };
                    let r2 = PPURegisters { stat: lyc_stat(r1), ..r1 };
                    let (p3, ih3) = p.with_regs(r2).stat_check(ih);
                    if r2.ly >= 153 {
                        let r4 = PPURegisters { ly: 0, ..p3.regs };
                        let r5 = PPURegisters { stat: lyc_stat(r4), ..r4 };
                        let (p6, ih6) = p3.with_regs(r5).change_mode_spec(Mode::Mode2, ih3);
                        (PpuModel { dots: -1i16, raw_frame: p6.bg_map_spec(vram), ..p6 }, ih6)
                    } else {
                        (PpuModel { dots: -1i16, ..p3 }, ih3)
                    }
                } else {
                    (p, ih)
                }
            },
        };
        (PpuModel { dots: next_dot(q.dots), ..q }, ih2)
    }
}

/// `n` dots of the PPU.
pub open spec fn dots_spec(p: PpuModel, vram: Seq<u8>, oam: Seq<u8>, ih: InterruptHandler, n: nat) -> (PpuModel, InterruptHandler)
    decreases n,
{
    if n == 0 {
        (p, ih)
    } else {
        let (q, ih2) = dots_spec(p, vram, oam, ih, (n - 1) as nat);
        dot_spec(q, vram, oam, ih2)
    }
}

/// A dot never switches the PPU between DMG and CGB operation.
pub proof fn lemma_dot_keeps_cgb(p: PpuModel, vram: Seq<u8>, oam: Seq<u8>, ih: InterruptHandler)
    ensures
        dot_spec(p, vram, oam, ih).0.cgb == p.cgb,
{
}

/// Dots never switch the PPU between DMG and CGB operation.
pub proof fn lemma_dots_keep_cgb(p: PpuModel, vram: Seq<u8>, oam: Seq<u8>, ih: InterruptHandler, n: nat)
    ensures
        dots_spec(p, vram, oam, ih, n).0.cgb == p.cgb,
    decreases n,
{
    if n > 0 {
        lemma_dots_keep_cgb(p, vram, oam, ih, (n - 1) as nat);
        let (q, ih2) = dots_spec(p, vram, oam, ih, (n - 1) as nat);
        lemma_dot_keeps_cgb(q, vram, oam, ih2);
    }
}

impl PPU {
    /// The PPU at power on, in monochrome mode.
    pub open spec fn at_power_on(&self) -> bool {
        &&& self.power_on_registers()
        &&& !self.cgb
    }

    /// The PPU as it powers on, in either mode: blank screens, palette memory filled with
    /// 0xFF, the registers as the boot ROM leaves them, no OAM DMA.
    pub open spec fn power_on_registers(&self) -> bool {
        &&& self.wf()
        &&& self.frame_buffer@ == blank_line(160 * 144)
        &&& self.ui_frame_buffer@ == blank_line(160 * 144)
        &&& self.raw_frame@ == blank_line(256 * 256)
        &&& self.bg_cram@ == Seq::new(64, |i: int| 0xFFu8)
        &&& self.obj_cram@ == Seq::new(64, |i: int| 0xFFu8)
        &&& self.current_line@.len() == 0
        &&& self.current_sprites@.len() == 0
        &&& self.bgpi == 0xC8
        &&& self.obpi == 0xD0
        &&& self.regs == PPURegisters::default_spec()
        &&& self.dots == 0
        &&& self.current_mode == Mode::HBlank
        &&& !self.stat_block
        &&& self.dma_state == DMATransferState::Disabled
        &&& self.internal_window_line == 0
    }

    pub fn new() -> (r: Self)
        ensures
            r.at_power_on(),
    {
        PPU {
            frame_buffer: white_line(LCD_WIDTH * LCD_HEIGHT),
            ui_frame_buffer: white_line(LCD_WIDTH * LCD_HEIGHT),
            raw_frame: white_line(256 * 256),
            bg_cram: crate::memory::filled(64, 0xFF),
            bgpi: 0xC8,
            obj_cram: crate::memory::filled(64, 0xFF),
            obpi: 0xD0,
            current_line: Vec::new(),
            current_sprites: Vec::new(),
            regs: PPURegisters::default(),
            dots: 0,
            current_mode: Mode::HBlank,
            stat_block: false,
            dma_state: DMATransferState::Disabled,
            internal_window_line: 0,
            cgb: false,
        }
    }

    pub fn enable_cgb(&mut self)
        ensures
            *final(self) == (PPU { cgb: true, ..*old(self) }),
    {
        self.cgb = true;
    }

    // --------------------------
    //          DMA
    // --------------------------
    pub fn get_dma_state(&self) -> (r: DMATransferState)
        ensures
            r == self.dma_state,
    {
        self.dma_state
    }

    pub fn set_dma_enable(&mut self)
        ensures
            *final(self) == (PPU { dma_state: DMATransferState::Transferring, ..*old(self) }),
    {
        self.dma_state = DMATransferState::Transferring;
    }

    pub fn reset_dma(&mut self)
        ensures
            *final(self) == (PPU { dma_state: DMATransferState::Disabled, ..*old(self) }),
    {
        self.dma_state = DMATransferState::Disabled;
    }

    fn turn_lcd_off(&mut self)
        ensures
            final(self)@ == old(self)@.lcd_off_spec(),
    {
        self.regs.ly = 0;
        self.internal_window_line = 0;
        self.dots = 0;
        self.regs.stat = self.regs.stat & !0b11u8;
        self.current_mode = Mode::HBlank;
    }

    fn check_stat_interrupt(&mut self) -> (r: bool)
        ensures
            r == (!old(self).stat_block && old(self)@.stat_line()),
            final(self)@ == (PpuModel { stat_block: old(self)@.stat_line(), ..old(self)@ }),
    {
        let prev_stat = self.stat_block;
        let s = self.regs.stat;
        let current_stat = (self.regs.ly_lyc() && s & 0x40 != 0) || ((self.current_mode
            == Mode::HBlank) && s & 0x08 != 0) || ((self.current_mode == Mode::Mode2) && s & 0x20
            != 0) || ((self.current_mode == Mode::VBlank) && (s & 0x10 != 0 || s & 0x20 != 0));
        self.stat_block = current_stat;
        !prev_stat && current_stat
    }

    fn update_lyc_flag(&mut self)
        ensures
            final(self)@ == old(self)@.with_regs(
                PPURegisters { stat: lyc_stat(old(self).regs), ..old(self).regs },
            ),
    {
        if self.regs.ly_lyc() {
            self.regs.stat = self.regs.stat | 0b100;
        } else {
            self.regs.stat = self.regs.stat & !0b100u8;
        }
    }

    fn change_mode(&mut self, to: Mode, interrupt_handler: &mut InterruptHandler)
        ensures
            (final(self)@, *final(interrupt_handler)) == old(self)@.change_mode_spec(
                to,
                *old(interrupt_handler),
            ),
    {
        if to == Mode::VBlank {
            interrupt_handler.request_interrupt(Interrupt::VBlank);
        } else if to == self.current_mode {
            return ;
        }
        self.regs.stat = (self.regs.stat & !0b11u8) | mode_number(to);
        self.current_mode = to;

        if self.check_stat_interrupt() {
            interrupt_handler.request_interrupt(Interrupt::STAT);
        }
    }
}

impl PPU {
    /// The 8 pixels of row `y % 8` of the background / window tile whose map entry is at
    /// `index`. Not for sprites (object priority and flip bits differ).
    pub fn get_tile_row(&self, vram: &[u8], unsigned_addressing: bool, index: usize, y: u8) -> (r: Vec<ScreenColor>)
        requires
            self.wf(),
            vram@.len() == 0x4000,
            index < 0x2000,
        ensures
            r@ == self@.tile_row_spec(vram@, unsigned_addressing, index as int, y),
    {
        let tile_attribute = TileAttribute::from(vram[0x2000 + index]);
        let vbk: usize = if self.cgb { tile_attribute.vram_bank as usize } else { 0 };
        let bgp: u8 = if self.cgb { tile_attribute.bgp } else { self.regs.bgp };
        let tile: u8 = vram[vbk * 0x2000 + index];
        let row: usize = (y % 8) as usize;
        let base: usize = if unsigned_addressing {
            tile as usize * 16
        } else if tile <= 127 {
            0x1000 + tile as usize * 16
        } else {
            0x800 + (tile % 128) as usize * 16
        };
        let first_byte: u8 = vram[vbk * 0x2000 + base + 2 * row];
        let second_byte: u8 = vram[vbk * 0x2000 + base + 2 * row + 1];
        let flip = tile_attribute.h_flip && self.cgb;

        let mut current_line: Vec<ScreenColor> = Vec::with_capacity(8);
        let mut h: u8 = 0;
        while h < 8
            invariant
                h <= 8,
                self.wf(),
                bgp == (if self.cgb { tile_attribute_of(vram@[0x2000 + index]).bgp } else { self.regs.bgp }),
                self.cgb ==> bgp < 8,
                tile_attribute == tile_attribute_of(vram@[0x2000 + index]),
                flip == (tile_attribute.h_flip && self.cgb),
                vbk == (if self.cgb { tile_attribute.vram_bank as int } else { 0 }),
                tile == vram@[vbk * 0x2000 + index],
                base == (if unsigned_addressing {
                    tile as int * 16
                } else if tile <= 127 {
                    0x1000 + tile as int * 16
                } else {
                    0x800 + (tile % 128) as int * 16
                }),
                row == (y % 8) as int,
                first_byte == vram@[vbk * 0x2000 + base + 2 * row],
                second_byte == vram@[vbk * 0x2000 + base + 2 * row + 1],
                current_line@ == Seq::new(h as nat, |k: int| self@.tile_pixel(vram@, unsigned_addressing, index as int, y, k)),
            decreases 8 - h,
        {
            let i: u8 = if flip { h } else { 7 - h };
            let lsb: u8 = (first_byte & (1u8 << i)) >> i;
            let msb: u8 = (second_byte & (1u8 << i)) >> i;
            proof {
                lemma_color_number(first_byte, second_byte, i);
            }
            let color = convert_to_color((msb << 1) | lsb, Palette::BGP(bgp), self.cgb, self.bg_cram.as_slice());
            current_line.push(color);
            h = h + 1;
            assert(current_line@ =~= Seq::new(h as nat, |k: int| self@.tile_pixel(vram@, unsigned_addressing, index as int, y, k)));
        }
        current_line
    }

    /// Background and window pixels of the current line (256 wide).
    pub fn get_bg_win_line(&self, vram: &[u8]) -> (r: Vec<ScreenColor>)
        requires
            self.wf(),
            vram@.len() == 0x4000,
        ensures
            r@ == self@.bg_win_line_spec(vram@),
    {
        if !self.regs.is_bg_enabled() {
            return white_line(256);
        }
        let unsigned_addressing = self.regs.lcdc & 0b10000 != 0;
        let bg_tile_map_area: usize = if self.regs.lcdc & 0b1000 == 0 { 0x1800 } else { 0x1C00 };
        let adjusted_y: u8 = self.regs.ly.wrapping_add(self.regs.scy);
        let tile_map_start: usize = bg_tile_map_area + (adjusted_y / 8) as usize * 0x20;

        // the 256 pixels of the map line
        let mut map_line: Vec<ScreenColor> = Vec::with_capacity(256);
        let mut j: usize = 0;
        while j < 32
            invariant
                j <= 32,
                self.wf(),
                vram@.len() == 0x4000,
                unsigned_addressing == self@.unsigned_addressing(),
                bg_tile_map_area == self@.bg_map_area(),
                adjusted_y == add8(self.regs.ly as int, self.regs.scy as int),
                tile_map_start == bg_tile_map_area + (adjusted_y / 8) as int * 32,
                map_line@ == Seq::new((8 * j) as nat, |k: int| self@.tile_pixel(vram@, unsigned_addressing, tile_map_start + k / 8, adjusted_y, k % 8)),
            decreases 32 - j,
        {
            let tile_row = self.get_tile_row(vram, unsigned_addressing, tile_map_start + j, adjusted_y);
            let mut i: usize = 0;
            while i < 8
                invariant
                    i <= 8,
                    j < 32,
                    tile_row@ == self@.tile_row_spec(vram@, unsigned_addressing, tile_map_start + j, adjusted_y),
                    map_line@ == Seq::new((8 * j + i) as nat, |k: int| self@.tile_pixel(vram@, unsigned_addressing, tile_map_start + k / 8, adjusted_y, k % 8)),
                decreases 8 - i,
            {
                map_line.push(tile_row[i]);
                i = i + 1;
                assert(map_line@ =~= Seq::new((8 * j + i) as nat, |k: int| self@.tile_pixel(vram@, unsigned_addressing, tile_map_start + k / 8, adjusted_y, k % 8)));
            }
            j = j + 1;
        }

        // apply SCX: the line starts SCX pixels into the map line
        let scx: usize = self.regs.scx as usize;
        let mut current_line: Vec<ScreenColor> = Vec::with_capacity(256);
        let mut x: usize = 0;
        while x < 256
            invariant
                x <= 256,
                scx == self.regs.scx,
                map_line@.len() == 256,
                current_line@ == Seq::new(x as nat, |k: int| map_line@[(k + scx) % 256]),
            decreases 256 - x,
        {
            current_line.push(map_line[(x + scx) % 256]);
            x = x + 1;
            assert(current_line@ =~= Seq::new(x as nat, |k: int| map_line@[(k + scx) % 256]));
        }
        assert(current_line@ =~= Seq::new(256, |x: int| self@.bg_pixel(vram@, x)));

        // draw the window over the background if enabled and visible
        if self.regs.is_window_enabled() && self.regs.is_window_visible() && self.regs.ly >= self.regs.wy {
            let win_tile_map_area: usize = if self.regs.lcdc & 0x40 == 0 { 0x1800 } else { 0x1C00 };
            let win_y: u8 = self.internal_window_line;
            let win_start: usize = win_tile_map_area + (win_y / 8) as usize * 0x20;
            let left: i16 = self.regs.wx as i16 - 7;
            let ghost bg = current_line@;
            let mut j: usize = 0;
            while j < 32
                invariant
                    j <= 32,
                    self.wf(),
                    vram@.len() == 0x4000,
                    self@.window_active(),
                    unsigned_addressing == self@.unsigned_addressing(),
                    win_tile_map_area == self@.win_map_area(),
                    win_y == self.internal_window_line,
                    win_start == win_tile_map_area + (win_y / 8) as int * 32,
                    left == self.regs.wx - 7,
                    bg == Seq::new(256, |x: int| self@.bg_pixel(vram@, x)),
                    current_line@ == Seq::new(256, |x: int| if 0 <= x - left < 8 * j { self@.win_pixel(vram@, x - left) } else { bg[x] }),
                decreases 32 - j,
            {
                let tile_row = self.get_tile_row(vram, unsigned_addressing, win_start + j, win_y);
                let mut i: usize = 0;
                while i < 8
                    invariant
                        i <= 8,
                        j < 32,
                        left == self.regs.wx - 7,
                        tile_row@ == self@.tile_row_spec(vram@, unsigned_addressing, win_start + j, win_y),
                        win_start == self@.win_map_area() + (self.internal_window_line / 8) as int * 32,
                        win_y == self.internal_window_line,
                        unsigned_addressing == self@.unsigned_addressing(),
                        current_line@ == Seq::new(256, |x: int| if 0 <= x - left < 8 * j + i { self@.win_pixel(vram@, x - left) } else { bg[x] }),
                    decreases 8 - i,
                {
                    let win_index: i16 = left + i as i16 + (j as i16 * 8);
                    if 0 <= win_index && win_index < 256 {
                        current_line.set(win_index as usize, tile_row[i]);
                    }
                    i = i + 1;
                    assert(current_line@ =~= Seq::new(256, |x: int| if 0 <= x - left < 8 * j + i { self@.win_pixel(vram@, x - left) } else { bg[x] }));
                }
                j = j + 1;
            }
            assert(current_line@ =~= self@.bg_win_line_spec(vram@));
        } else {
            assert(current_line@ =~= self@.bg_win_line_spec(vram@));
        }
        current_line
    }
}

impl PPU {
    proof fn lemma_draw_sprites_len(self, vram: Seq<u8>, line: Seq<ScreenColor>, sprites: Seq<Sprite>)
        ensures
            self@.draw_sprites(vram, line, sprites).len() == line.len(),
        decreases sprites.len(),
    {
        if sprites.len() > 0 {
            self.lemma_draw_sprites_len(vram, line, sprites.drop_first());
        }
    }

    /// Draws sprite `s` over `line`.
    fn draw_sprite(&self, vram: &[u8], line: &mut Vec<ScreenColor>, sprite: Sprite)
        requires
            self.wf(),
            vram@.len() == 0x4000,
            old(line)@.len() == 256,
        ensures
            final(line)@ == self@.draw_sprite_spec(vram@, old(line)@, sprite),
    {
        let vbk: usize = sprite.vbk() as usize;
        let upper_tile: u8 = sprite.tile_index & 0xFE;
        let lower_tile: u8 = sprite.tile_index | 0x1;
        let real_x_pos: i16 = sprite.x_pos as i16 - 8;
        let real_y_pos: i16 = sprite.y_pos as i16 - 16;
        let ly: i16 = self.regs.ly as i16;
        let dist: usize = if real_y_pos >= ly { (real_y_pos - ly) as usize } else { (ly - real_y_pos) as usize };

        let current_tile: u8 = if self.regs.is_sprite_8x8() {
            sprite.tile_index
        } else if sprite.is_y_flipped() {
            if dist >= 8 { upper_tile } else { lower_tile }
        } else {
            if dist >= 8 { lower_tile } else { upper_tile }
        };
        let sprite_tile: usize = (current_tile as usize) * 16;
        let ly_bytes: usize = dist % 8;
        let r: usize = if !sprite.is_y_flipped() { ly_bytes } else { 7 - ly_bytes };

        let palette = if !self.cgb {
            if sprite.get_obp_num() == 0 {
                Palette::OBP(self.regs.opb0)
            } else {
                Palette::OBP(self.regs.opb1)
            }
        } else {
            Palette::OBP(sprite.get_cgb_obp_num())
        };
        assert(self@.sprite_dist(sprite) == dist);
        assert(self@.sprite_tile(sprite) == current_tile);
        assert(self@.sprite_row_addr(sprite) == vbk * 0x2000 + sprite_tile + 2 * r);
        let first_byte: u8 = vram[vbk * 0x2000 + sprite_tile + 2 * r];
        let second_byte: u8 = vram[vbk * 0x2000 + sprite_tile + 2 * r + 1];
        let x_flipped = sprite.is_x_flipped();
        let obj_prio = sprite.is_obj_prio();
        let transparent_color = convert_to_color(0, palette, self.cgb, self.obj_cram.as_slice());

        let ghost orig = line@;
        let mut k: i16 = 0;
        while k < 8
            invariant
                0 <= k <= 8,
                self.wf(),
                line@.len() == 256,
                orig.len() == 256,
                real_x_pos == sprite.x_pos - 8,
                first_byte == vram@[self@.sprite_row_addr(sprite)],
                second_byte == vram@[self@.sprite_row_addr(sprite) + 1],
                palette == self@.sprite_palette(sprite),
                self.cgb ==> palette_number(palette) < 8,
                x_flipped == sprite.x_flipped(),
                obj_prio == sprite.obj_prio(),
                transparent_color == color_of(0, palette, self.cgb, self.obj_cram@),
                line@ == Seq::new(256, |x: int| if real_x_pos <= x < real_x_pos + k { self@.sprite_pixel(vram@, sprite, orig[x], x) } else { orig[x] }),
            decreases 8 - k,
        {
            let i: u8 = if x_flipped { k as u8 } else { (7 - k) as u8 };
            let x: i16 = real_x_pos + k;
            if x >= 0 {
                let lsb: u8 = (first_byte & (1u8 << i)) >> i;
                let msb: u8 = (second_byte & (1u8 << i)) >> i;
                proof {
                    lemma_color_number(first_byte, second_byte, i);
                }
                let value: u8 = (msb << 1) | lsb;
                if value != 0 {
                    let cur = line[x as usize];
                    let color = if obj_prio {
                        convert_to_color(value, palette, self.cgb, self.obj_cram.as_slice())
                    } else if cur == transparent_color {
                        convert_to_color(value, palette, self.cgb, self.obj_cram.as_slice())
                    } else {
                        cur
                    };
                    line.set(x as usize, color);
                }
            }
            k = k + 1;
            assert(line@ =~= Seq::new(256, |x: int| if real_x_pos <= x < real_x_pos + k { self@.sprite_pixel(vram@, sprite, orig[x], x) } else { orig[x] }));
        }
        assert(line@ =~= self@.draw_sprite_spec(vram@, orig, sprite));
    }

    /// The line with the sprites of this line drawn over it (if objects are enabled).
    pub fn get_sprite_line(&self, vram: &[u8], current_line: &[ScreenColor]) -> (r: Vec<ScreenColor>)
        requires
            self.wf(),
            vram@.len() == 0x4000,
            current_line@.len() == 256,
        ensures
            r@ == self@.sprite_line_spec(vram@, current_line@),
    {
        let mut line: Vec<ScreenColor> = vstd::slice::slice_to_vec(current_line);
        if self.regs.is_obj_enabled() {
            let n: usize = self.current_sprites.len();
            let mut idx: usize = n;
            proof {
                assert(self.current_sprites@.subrange(n as int, n as int) =~= Seq::<Sprite>::empty());
            }
            while idx > 0
                invariant
                    idx <= n,
                    n == self.current_sprites@.len(),
                    self.wf(),
                    vram@.len() == 0x4000,
                    line@.len() == 256,
                    line@ == self@.draw_sprites(vram@, current_line@, self.current_sprites@.subrange(idx as int, n as int)),
                decreases idx,
            {
                let sprite = self.current_sprites[idx - 1];
                self.draw_sprite(vram, &mut line, sprite);
                proof {
                    let s = self.current_sprites@.subrange(idx - 1, n as int);
                    assert(s.drop_first() =~= self.current_sprites@.subrange(idx as int, n as int));
                    assert(s[0] == sprite);
                }
                idx = idx - 1;
            }
            assert(self.current_sprites@.subrange(0, n as int) =~= self.current_sprites@);
        }
        line
    }

    fn get_current_line(&self, vram: &[u8]) -> (r: Vec<ScreenColor>)
        requires
            self.wf(),
            vram@.len() == 0x4000,
        ensures
            r@ == self@.current_line_spec(vram@),
            r@.len() == 256,
    {
        let bg_win_line = self.get_bg_win_line(vram);
        proof {
            self.lemma_draw_sprites_len(vram@, bg_win_line@, self.current_sprites@);
        }
        self.get_sprite_line(vram, bg_win_line.as_slice())
    }

    /// Copies the first 160 pixels of the current line into row LY of the frame buffer and
    /// clears the line and its sprites.
    fn draw_current_line(&mut self)
        requires
            old(self).frame_buffer@.len() == 160 * 144,
            old(self).regs.ly < 144,
            old(self).current_line@.len() >= 160,
        ensures
            final(self).frame_buffer@ == PpuModel::with_row(old(self).frame_buffer@, old(self).regs.ly as int, old(self).current_line@),
            final(self).current_line@.len() == 0,
            final(self).current_sprites@.len() == 0,
            *final(self) == (PPU {
                frame_buffer: final(self).frame_buffer,
                current_line: final(self).current_line,
                current_sprites: final(self).current_sprites,
                ..*old(self)
            }),
    {
        let y: usize = self.regs.ly as usize;
        let ghost fb = self.frame_buffer@;
        let ghost start = *self;
        let mut i: usize = 0;
        while i < LCD_WIDTH
            invariant
                i <= 160,
                *self == (PPU { frame_buffer: self.frame_buffer, ..start }),
                y == start.regs.ly,
                fb == start.frame_buffer@,
                y < 144,
                self.current_line@.len() >= 160,
                self.frame_buffer@ == Seq::new(fb.len(), |p: int| if y * 160 <= p < y * 160 + i { self.current_line@[p - y * 160] } else { fb[p] }),
                fb.len() == 160 * 144,
            decreases 160 - i,
        {
            let c = self.current_line[i];
            self.frame_buffer.set(y * LCD_WIDTH + i, c);
            i = i + 1;
            assert(self.frame_buffer@ =~= Seq::new(fb.len(), |p: int| if y * 160 <= p < y * 160 + i { self.current_line@[p - y * 160] } else { fb[p] }));
        }
        self.current_line.clear();
        self.current_sprites.clear();
    }

    /// Dumps the 256x256 background map for the VRAM viewer.
    fn dump_bg_map(&mut self, vram: &[u8])
        requires
            old(self).wf(),
            vram@.len() == 0x4000,
        ensures
            final(self).raw_frame@ == old(self)@.bg_map_spec(vram@),
            *final(self) == (PPU { raw_frame: final(self).raw_frame, ..*old(self) }),
    {
        let unsigned_addressing = self.regs.lcdc & 0b10000 != 0;
        let bg_tile_map_area: usize = if self.regs.lcdc & 0b1000 == 0 { 0x1800 } else { 0x1C00 };
        let ghost start = *self;
        let mut y: usize = 0;
        while y < 256
            invariant
                y <= 256,
                start.wf(),
                vram@.len() == 0x4000,
                *self == (PPU { raw_frame: self.raw_frame, ..start }),
                self.raw_frame@.len() == 256 * 256,
                unsigned_addressing == start@.unsigned_addressing(),
                bg_tile_map_area == start@.bg_map_area(),
                forall|p: int| 0 <= p < y * 256 ==> self.raw_frame@[p] == #[trigger] start@.bg_map_spec(vram@)[p],
            decreases 256 - y,
        {
            let tile_map_start: usize = bg_tile_map_area + (y / 8) * 0x20;
            let mut t: usize = 0;
            while t < 32
                invariant
                    t <= 32,
                    y < 256,
                    start.wf(),
                    vram@.len() == 0x4000,
                    *self == (PPU { raw_frame: self.raw_frame, ..start }),
                    self.raw_frame@.len() == 256 * 256,
                    unsigned_addressing == start@.unsigned_addressing(),
                    tile_map_start == start@.bg_map_area() + (y / 8) * 32,
                    forall|p: int| 0 <= p < y * 256 + 8 * t ==> self.raw_frame@[p] == #[trigger] start@.bg_map_spec(vram@)[p],
                decreases 32 - t,
            {
                let tile_row = start_row(self, vram, unsigned_addressing, tile_map_start + t, y as u8);
                let mut x: usize = 0;
                while x < 8
                    invariant
                        x <= 8,
                        t < 32,
                        y < 256,
                        *self == (PPU { raw_frame: self.raw_frame, ..start }),
                        self.raw_frame@.len() == 256 * 256,
                        tile_row@ == start@.tile_row_spec(vram@, unsigned_addressing, tile_map_start + t, y as u8),
                        unsigned_addressing == start@.unsigned_addressing(),
                        tile_map_start == start@.bg_map_area() + (y / 8) * 32,
                        forall|p: int| 0 <= p < y * 256 + 8 * t + x ==> self.raw_frame@[p] == #[trigger] start@.bg_map_spec(vram@)[p],
                    decreases 8 - x,
                {
                    let pos: usize = y * 256 + 8 * t + x;
                    self.raw_frame.set(pos, tile_row[x]);
                    proof {
                        assert(pos / 256 == y && pos % 256 == 8 * t + x);
                        assert((8 * t + x) / 8 == t && (8 * t + x) % 8 == x);
                    }
                    x = x + 1;
                }
                t = t + 1;
            }
            y = y + 1;
        }
        assert(self.raw_frame@ =~= start@.bg_map_spec(vram@));
    }
}

impl PPU {
    /// Advances the PPU by one dot (4 dots per m-cycle, 456 per line:
    /// 80 in mode 2, 172 in mode 3, 204 in HBlank; lines 144-153 are VBlank).
    pub fn tick(&mut self, vram: &[u8], oam: &[u8], interrupt_handler: &mut InterruptHandler)
        requires
            old(self).wf(),
            vram@.len() == 0x4000,
            oam@.len() % 4 == 0,
        ensures
            (final(self)@, *final(interrupt_handler)) == dot_spec(old(self)@, vram@, oam@, *old(interrupt_handler)),
            final(self).wf(),
    {
        if !self.regs.is_lcd_on() {
            return ;
        }
        let ghost p = *self;
        let ghost ih0 = *interrupt_handler;
        match self.current_mode {
            Mode::Mode2 => {
                let dots = self.dots;
                if dots >= MODE3_START {
                    self.change_mode(Mode::Mode3, interrupt_handler);
                }
                // scan OAM for (up to) 10 sprites
                if dots == 0 {
                    self.current_sprites = get_current_sprites_per_line(
                        self.regs.ly,
                        self.regs.is_sprite_8x8(),
                        oam,
                    );
                }
            },
            Mode::Mode3 => {
                if self.dots >= HBLANK_START {
                    if self.current_line.is_empty() {
                        self.current_line = self.get_current_line(vram);
                    }
                    if self.regs.is_window_visible() && self.regs.ly >= self.regs.wy
                        && self.regs.is_window_enabled() {
                        self.internal_window_line = self.internal_window_line.wrapping_add(1);
                    }
                    self.draw_current_line();
                    self.change_mode(Mode::HBlank, interrupt_handler);
                }
            },
            Mode::HBlank => {
                if self.dots >= LINE_END {
                    self.regs.ly = self.regs.ly.wrapping_add(1);
                    self.update_lyc_flag();
                    if self.check_stat_interrupt() {
                        interrupt_handler.request_interrupt(Interrupt::STAT);
                    }
                    if self.regs.ly >= 144 {
                        self.change_mode(Mode::VBlank, interrupt_handler);
                        self.internal_window_line = 0;
                        // swap buffers to avoid screen tearing on VBlank
                        core::mem::swap(&mut self.frame_buffer, &mut self.ui_frame_buffer);
                    } else {
                        self.change_mode(Mode::Mode2, interrupt_handler);
                    }
                    self.dots = -1;
                }
            },
            Mode::VBlank => {
                if self.dots >= LINE_END {
                    self.regs.ly = self.regs.ly.wrapping_add(1);
                    self.update_lyc_flag();
                    if self.check_stat_interrupt() {
                        interrupt_handler.request_interrupt(Interrupt::STAT);
                    }
                    if self.regs.ly >= 153 {
                        self.regs.ly = 0;
                        self.update_lyc_flag();
                        self.change_mode(Mode::Mode2, interrupt_handler);
                        self.dump_bg_map(vram);
                    }
                    self.dots = -1;
                }
            },
        }
        self.dots = self.dots.wrapping_add(1);
    }

    /// Reads one of $FF40-$FF4B and $FF68-$FF6B.
    pub fn read(&self, address: u16) -> (r: u8)
        requires
            self.wf(),
            0xFF40 <= address <= 0xFF4B || 0xFF68 <= address <= 0xFF6B,
        ensures
            r == self@.read_spec(address),
    {
        match address {
            0xFF40 => self.regs.lcdc,
            0xFF41 => self.regs.stat,
            0xFF42 => self.regs.scy,
            0xFF43 => self.regs.scx,
            0xFF44 => self.regs.ly,
            0xFF45 => self.regs.lyc,
            0xFF46 => self.regs.dma,
            0xFF47 => self.regs.bgp,
            0xFF48 => self.regs.opb0,
            0xFF49 => self.regs.opb1,
            0xFF4A => self.regs.wy,
            0xFF4B => self.regs.wx,
            0xFF68 => self.bgpi,
            0xFF69 => {
                let a: u8 = self.bgpi;
                assert(a & 0x3F < 64) by (bit_vector);
                self.bg_cram[(a & 0x3F) as usize]
            },
            0xFF6A => self.obpi,
            _ => {
                let a: u8 = self.obpi;
                assert(a & 0x3F < 64) by (bit_vector);
                self.obj_cram[(a & 0x3F) as usize]
            },
        }
    }

    /// Writes one of the LCD registers or color RAM ports; a STAT interrupt is requested in
    /// `cb` when the write raises the STAT line.
    pub fn write_with_callback(&mut self, address: u16, value: u8, cb: &mut InterruptHandler)
        requires
            old(self).wf(),
            0xFF40 <= address <= 0xFF4B || 0xFF68 <= address <= 0xFF6B,
        ensures
            (final(self)@, *final(cb)) == old(self)@.write_spec(address, value, *old(cb)),
            final(self).wf(),
    {
        match address {
            0xFF40 => {
                self.regs.lcdc = value;
                if value & 0x80 == 0 {
                    self.turn_lcd_off();
                } else {
                    // the LY=LYC comparison starts again when the LCD is enabled
                    self.update_lyc_flag();
                    if self.check_stat_interrupt() {
                        cb.request_interrupt(Interrupt::STAT);
                    }
                }
            },
            0xFF41 => {
                self.regs.stat = 0x80 | (value & !0b111u8) | (self.regs.stat & 0b111);
                if self.check_stat_interrupt() {
                    cb.request_interrupt(Interrupt::STAT);
                }
            },
            0xFF42 => self.regs.scy = value,
            0xFF43 => self.regs.scx = value,
            0xFF44 => {},  // LY is read-only from the bus
            0xFF45 => {
                self.regs.lyc = value;
                if self.regs.is_lcd_on() {
                    self.update_lyc_flag();
                }
                if self.check_stat_interrupt() {
                    cb.request_interrupt(Interrupt::STAT);
                }
            },
            0xFF46 => {
                self.regs.dma = value;
                self.dma_state = DMATransferState::Pending;
            },
            0xFF47 => self.regs.bgp = value,
            0xFF48 => self.regs.opb0 = value,
            0xFF49 => self.regs.opb1 = value,
            0xFF4A => self.regs.wy = value,
            0xFF4B => self.regs.wx = value,
            0xFF68 => self.bgpi = value,
            0xFF69 => {
                let auto_inc = self.bgpi & 0x80 != 0;
                let a: u8 = self.bgpi;
                assert(a & 0x3F < 64) by (bit_vector);
                let address: u8 = a & 0x3F;
                if auto_inc {
                    self.bgpi = self.bgpi.wrapping_add(1);
                }
                self.bg_cram.set(address as usize, value);
            },
            0xFF6A => self.obpi = value,
            _ => {
                let auto_inc = self.obpi & 0x80 != 0;
                let a: u8 = self.obpi;
                assert(a & 0x3F < 64) by (bit_vector);
                let address: u8 = a & 0x3F;
                if auto_inc {
                    self.obpi = self.obpi.wrapping_add(1);
                }
                self.obj_cram.set(address as usize, value);
            },
        }
    }
}

/// The tile row of `p`, taken before the raw frame is touched.
fn start_row(p: &PPU, vram: &[u8], unsigned_addressing: bool, index: usize, y: u8) -> (r: Vec<ScreenColor>)
    requires
        p.wf(),
        vram@.len() == 0x4000,
        index < 0x2000,
    ensures
        r@ == p@.tile_row_spec(vram@, unsigned_addressing, index as int, y),
{
    p.get_tile_row(vram, unsigned_addressing, index, y)
}

/// A line of `n` white pixels.
fn white_line(n: usize) -> (v: Vec<ScreenColor>)
    ensures
        v@ == blank_line(n as nat),
{
    let mut v: Vec<ScreenColor> = Vec::with_capacity(n);
    let mut i: usize = 0;
    while i < n
        invariant
            i <= n,
            v@ == blank_line(i as nat),
        decreases n - i,
    {
        v.push(ScreenColor::White);
        i = i + 1;
        assert(v@ =~= blank_line(i as nat));
    }
    v
}

impl PPURegisters {
    pub open spec fn default_spec() -> PPURegisters {
        PPURegisters {
            lcdc: 0x91,
            stat: 0x81,
            scy: 0x00,
            scx: 0x00,
            ly: 0x00,
            lyc: 0x00,
            wy: 0x00,
            wx: 0x00,
            bgp: 0xFC,
            opb0: 0x00,
            opb1: 0x00,
            dma: 0xFF,
        }
    }
}


/// On the DMG, pixel `h` of a background / window tile row has the color number whose high
/// bit is bit 7 - h of the row's second byte and whose low bit is bit 7 - h of its first byte
/// (the bytes at offsets 2 * row and 2 * row + 1 of the tile's 16 bytes), shown through BGP.
pub proof fn law_tile_row_bit_planes(p: PpuModel, vram: Seq<u8>, unsigned_addressing: bool, index: int, y: u8, h: int)
    requires
        !p.cgb,
        0 <= h < 8,
    ensures
        ({
            let tile = vram[index];
            let row = (y % 8) as int;
            let base: int = if unsigned_addressing {
                tile * 16
            } else if tile <= 127 {
                0x1000 + tile * 16
            } else {
                0x800 + (tile % 128) * 16
            };
            let lo = vram[base + 2 * row];
            let hi = vram[base + 2 * row + 1];
            let i = (7 - h) as u8;
            p.tile_row_spec(vram, unsigned_addressing, index, y)[h] == dmg_color(
                (2 * ((hi >> i) & 1) + ((lo >> i) & 1)) as u8,
                p.regs.bgp,
            )
        }),
{
    lemma_bit_facts();
    let tile = vram[index];
    let row = (y % 8) as int;
    let base: int = if unsigned_addressing {
        tile * 16
    } else if tile <= 127 {
        0x1000 + tile * 16
    } else {
        0x800 + (tile % 128) * 16
    };
    let i = (7 - h) as u8;
    assert(color_number(vram[base + 2 * row], vram[base + 2 * row + 1], i) == 2 * ((vram[base + 2 * row
        + 1] >> i) & 1) + ((vram[base + 2 * row] >> i) & 1));
}


/// On the DMG, a pixel of a sprite with priority over the background has the color number
/// whose high bit comes from the second byte of the sprite's row and whose low bit from the
/// first (bit 7 - k for column k, bit k when flipped horizontally); color 0 is transparent.
pub proof fn law_sprite_bit_planes(p: PpuModel, vram: Seq<u8>, s: Sprite, cur: ScreenColor, x: int)
    requires
        !p.cgb,
        s.obj_prio(),
        0 <= x - (s.x_pos as int - 8) < 8,
    ensures
        ({
            let k = x - (s.x_pos as int - 8);
            let i: u8 = if s.x_flipped() { k as u8 } else { (7 - k) as u8 };
            let a = p.sprite_row_addr(s);
            let c = 2 * ((vram[a + 1] >> i) & 1) + ((vram[a] >> i) & 1);
            p.sprite_pixel(vram, s, cur, x) == if c == 0 {
                cur
            } else {
                color_of(c as u8, p.sprite_palette(s), false, p.obj_cram)
            }
        }),
{
    lemma_bit_facts();
    let k = x - (s.x_pos as int - 8);
    let i: u8 = if s.x_flipped() { k as u8 } else { (7 - k) as u8 };
    let a = p.sprite_row_addr(s);
    assert(color_number(vram[a], vram[a + 1], i) == 2 * ((vram[a + 1] >> i) & 1) + ((vram[a] >> i) & 1));
}
} // verus!
