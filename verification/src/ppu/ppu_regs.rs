use vstd::prelude::*;

verus! {

/// The DMG LCD registers $FF40-$FF4B.
#[derive(Clone, Copy)]
pub struct PPURegisters {
    pub lcdc: u8,
    pub stat: u8,
    pub scy: u8,
    pub scx: u8,
    pub ly: u8,
    pub lyc: u8,
    pub wy: u8,
    pub wx: u8,
    pub bgp: u8,
    pub opb0: u8,
    pub opb1: u8,
    pub dma: u8,
}

impl PPURegisters {
    pub open spec fn lcd_on(self) -> bool {
        self.lcdc & 0x80 != 0
    }

    pub open spec fn window_visible(self) -> bool {
        self.wx <= 166 && self.wy <= 143
    }

    pub open spec fn sprite_8x8(self) -> bool {
        self.lcdc & 0x4 == 0
    }

    pub fn default() -> (r: Self)
        ensures
            r == (PPURegisters {
                lcdc: 0x91,
                stat: 0x81,
                scy: 0x00,
                scx: 0x00,
                ly: 0x00,
                lyc: 0x00,
                wy: 0x00,
                wx: 0x00,
                bgp: 0xFC,
                opb0: 0x00,
                opb1: 0x00,
                dma: 0xFF,
            }),
    {
        PPURegisters {
            lcdc: 0x91,
            stat: 0x81,
            scy: 0x00,
            scx: 0x00,
            ly: 0x00,
            lyc: 0x00,
            wy: 0x00,
            wx: 0x00,
            bgp: 0xFC,
            opb0: 0x00,
            opb1: 0x00,
            dma: 0xFF,
        }
    }

    /// LCDC bit 7.
    pub fn is_lcd_on(&self) -> (r: bool)
        ensures
            r == self.lcd_on(),
    {
        self.lcdc & 0x80 != 0
    }

    /// LY equals LYC.
    pub fn ly_lyc(&self) -> (r: bool)
        ensures
            r == (self.ly == self.lyc),
    {
        self.ly == self.lyc
    }

    /// LCDC bit 0.
    pub fn is_bg_enabled(&self) -> (r: bool)
        ensures
            r == (self.lcdc & 0x1 != 0),
    {
        self.lcdc & 0x1 != 0
    }

    /// LCDC bit 1.
    pub fn is_obj_enabled(&self) -> (r: bool)
        ensures
            r == (self.lcdc & 0x2 != 0),
    {
        self.lcdc & 0x2 != 0
    }

    /// LCDC bit 5.
    pub fn is_window_enabled(&self) -> (r: bool)
        ensures
            r == (self.lcdc & 0x20 != 0),
    {
        self.lcdc & 0x20 != 0
    }

    /// The window position lies on the screen: WX in 0..=166 and WY in 0..=143.
    pub fn is_window_visible(&self) -> (r: bool)
        ensures
            r == self.window_visible(),
    {
        self.wx <= 166 && self.wy <= 143
    }

    /// LCDC bit 2 clear: sprites are 8x8 (otherwise 8x16).
    pub fn is_sprite_8x8(&self) -> (r: bool)
        ensures
            r == self.sprite_8x8(),
    {
        self.lcdc & 0x4 == 0
    }
}

} // verus!
