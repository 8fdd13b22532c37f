use vstd::prelude::*;

verus! {

/// An RGBA color with 8 bits per channel.
#[derive(Debug, Clone, Copy, PartialEq, Eq, Structural)]
pub struct Rgba {
    pub r: u8,
    pub g: u8,
    pub b: u8,
    pub a: u8,
}

/// Palette with the according palette register as the associated value.
///
/// In CGB mode, `BGP` and `OBP` hold a palette number between 0 and 7.
/// `OBP` is used for both OBP0 and OBP1 as long as the correct register is passed.
#[allow(clippy::upper_case_acronyms)]
#[derive(Clone, Copy, PartialEq, Eq, Structural)]
pub enum Palette {
    BGP(u8),
    OBP(u8),
}

/// Abstraction for screen color; the four DMG shades are turned into the chosen colors by
/// the front end, CGB colors are given in full.
#[derive(Clone, Copy, Debug, PartialEq, Eq, Structural)]
pub enum ScreenColor {
    White,
    LightGray,
    Gray,
    Black,
    FullColor(Rgba),
}

pub open spec fn opaque(r: u8, g: u8, b: u8) -> Rgba {
    Rgba { r, g, b, a: 255 }
}

/// Fully transparent black.
pub open spec fn transparent() -> Rgba {
    Rgba { r: 0, g: 0, b: 0, a: 0 }
}

// Pre-defined color palettes for the four DMG shades.
#[derive(Debug, Clone, Copy, PartialEq, Eq, Structural)]
pub struct Monochrome;

#[derive(Debug, Clone, Copy, PartialEq, Eq, Structural)]
pub struct Green;

#[derive(Debug, Clone, Copy, PartialEq, Eq, Structural)]
pub struct Chocolate;

impl Monochrome {
    pub fn white() -> (c: Rgba)
        ensures
            c == opaque(255, 255, 255),
    {
        Rgba { r: 255, g: 255, b: 255, a: 255 }
    }

    pub fn light_gray() -> (c: Rgba)
        ensures
            c == opaque(220, 220, 220),
    {
        Rgba { r: 220, g: 220, b: 220, a: 255 }
    }

    pub fn gray() -> (c: Rgba)
        ensures
            c == opaque(160, 160, 160),
    {
        Rgba { r: 160, g: 160, b: 160, a: 255 }
    }

    pub fn black() -> (c: Rgba)
        ensures
            c == opaque(0, 0, 0),
    {
        Rgba { r: 0, g: 0, b: 0, a: 255 }
    }
}

impl Green {
    pub fn white() -> (c: Rgba)
        ensures
            c == opaque(127, 134, 15),
    {
        Rgba { r: 127, g: 134, b: 15, a: 255 }
    }

    pub fn light_gray() -> (c: Rgba)
        ensures
            c == opaque(87, 124, 68),
    {
        Rgba { r: 87, g: 124, b: 68, a: 255 }
    }

    pub fn gray() -> (c: Rgba)
        ensures
            c == opaque(54, 93, 72),
    {
        Rgba { r: 54, g: 93, b: 72, a: 255 }
    }

    pub fn black() -> (c: Rgba)
        ensures
            c == opaque(42, 69, 59),
    {
        Rgba { r: 42, g: 69, b: 59, a: 255 }
    }
}

impl Chocolate {
    pub fn white() -> (c: Rgba)
        ensures
            c == opaque(255, 228, 194),
    {
        Rgba { r: 255, g: 228, b: 194, a: 255 }
    }

    pub fn light_gray() -> (c: Rgba)
        ensures
            c == opaque(220, 164, 86),
    {
        Rgba { r: 220, g: 164, b: 86, a: 255 }
    }

    pub fn gray() -> (c: Rgba)
        ensures
            c == opaque(169, 96, 76),
    {
        Rgba { r: 169, g: 96, b: 76, a: 255 }
    }

    pub fn black() -> (c: Rgba)
        ensures
            c == opaque(66, 41, 54),
    {
        Rgba { r: 66, g: 41, b: 54, a: 255 }
    }
}

/// The DMG shade of a two-bit value.
pub open spec fn shade(value: u8) -> ScreenColor {
    if value == 0 {
        ScreenColor::White
    } else if value == 1 {
        ScreenColor::LightGray
    } else if value == 2 {
        ScreenColor::Gray
    } else {
        ScreenColor::Black
    }
}

/// The shade that a DMG palette register maps color number `value` to (two bits per color).
pub open spec fn dmg_color(value: u8, palette: u8) -> ScreenColor {
    shade(
        if value == 0 {
            palette & 0b11
        } else if value == 1 {
            (palette & 0b1100) >> 2
        } else if value == 2 {
            (palette & 0b110000) >> 4
        } else {
            (palette & 0b11000000) >> 6
        },
    )
}

/// A 5-bit color channel widened to 8 bits.
pub open spec fn widen5(c: u8) -> u8 {
    (c << 3) | (c >> 2)
}

/// The color of an RGB555 value.
pub open spec fn rgb555(rgb: u16) -> Rgba {
    opaque(
        widen5((rgb & 0x1F) as u8),
        widen5(((rgb >> 5) & 0x1F) as u8),
        widen5(((rgb >> 10) & 0x1F) as u8),
    )
}

/// The CGB color of color number `value` in palette `palette` of color RAM `cram`
/// (two bytes per color, little endian, eight bytes per palette).
pub open spec fn cram_color(cram: Seq<u8>, palette: u8, value: u8) -> ScreenColor {
    let p = palette * 8 + value * 2;
    ScreenColor::FullColor(rgb555((cram[p] + cram[p + 1] * 256) as u16))
}

/// The screen color of a color number under a palette. On the DMG, color 0 of an object
/// palette is mapped by its two lowest bits like any other (it is only ever compared against,
/// never drawn); on the CGB it is transparent.
pub open spec fn color_of(value: u8, palette: Palette, cgb: bool, cram: Seq<u8>) -> ScreenColor {
    match palette {
        Palette::BGP(bgp) => if !cgb {
            dmg_color(value, bgp)
        } else {
            cram_color(cram, bgp, value)
        },
        Palette::OBP(obp) => if !cgb {
            dmg_color(value, obp)
        } else if value == 0 {
            ScreenColor::FullColor(transparent())
        } else {
            cram_color(cram, obp, value)
        },
    }
}

/// Palette number of a palette (meaningful on the CGB).
pub open spec fn palette_number(palette: Palette) -> u8 {
    match palette {
        Palette::BGP(n) => n,
        Palette::OBP(n) => n,
    }
}

/// Takes the color number of a pixel and turns it into a screen color based on the palette.
pub fn convert_to_color(value: u8, palette: Palette, cgb: bool, cram: &[u8]) -> (r: ScreenColor)
    requires
        value < 4,
        cgb ==> palette_number(palette) < 8 && cram@.len() >= 64,
    ensures
        r == color_of(value, palette, cgb, cram@),
{
    match palette {
        Palette::BGP(bgp) => {
            if !cgb {
                color_from_dmg_palette(value, bgp)
            } else {
                let p: usize = (bgp * 8 + value * 2) as usize;
                let color_bytes: u16 = cram[p] as u16 + cram[p + 1] as u16 * 256;
                ScreenColor::FullColor(rgb555_to_color(color_bytes))
            }
        },
        Palette::OBP(obp) => {
            if !cgb {
                color_from_dmg_palette(value, obp)
            } else if value == 0 {
                ScreenColor::FullColor(Rgba { r: 0, g: 0, b: 0, a: 0 })
            } else {
                let p: usize = (obp * 8 + value * 2) as usize;
                let color_bytes: u16 = cram[p] as u16 + cram[p + 1] as u16 * 256;
                ScreenColor::FullColor(rgb555_to_color(color_bytes))
            }
        },
    }
}

fn color_from_dmg_palette(value: u8, palette: u8) -> (r: ScreenColor)
    requires
        value < 4,
    ensures
        r == dmg_color(value, palette),
{
    let bits: u8 = if value == 0 {
        palette & 0b11
    } else if value == 1 {
        (palette & 0b1100) >> 2
    } else if value == 2 {
        (palette & 0b110000) >> 4
    } else {
        (palette & 0b11000000) >> 6
    };
    color_from_value(bits)
}

fn color_from_value(value: u8) -> (r: ScreenColor)
    ensures
        r == shade(value),
{
    if value == 0 {
        ScreenColor::White
    } else if value == 1 {
        ScreenColor::LightGray
    } else if value == 2 {
        ScreenColor::Gray
    } else {
        ScreenColor::Black
    }
}

fn widen(c: u8) -> (r: u8)
    ensures
        r == widen5(c),
{
    (c << 3) | (c >> 2)
}

/// Widens an RGB555 value (red in the lowest bits) to 8 bits per channel.
pub fn rgb555_to_color(rgb: u16) -> (r: Rgba)
    ensures
        r == rgb555(rgb),
{
    let red = (rgb & 0x1F) as u8;
    let green = ((rgb >> 5) & 0x1F) as u8;
    let blue = ((rgb >> 10) & 0x1F) as u8;
    Rgba { r: widen(red), g: widen(green), b: widen(blue), a: 255 }
}

/// The widened channels keep the 5-bit value in their upper bits, and white stays white.
pub proof fn law_rgb555_extremes()
    ensures
        rgb555(0x7FFF) == opaque(255, 255, 255),
        rgb555(0) == opaque(0, 0, 0),
{
    assert(widen5(0x1F) == 255 && widen5(0) == 0) by (bit_vector);
    assert((0x7FFFu16 & 0x1F) as u8 == 0x1F && ((0x7FFFu16 >> 5) & 0x1F) as u8 == 0x1F && ((
    0x7FFFu16 >> 10) & 0x1F) as u8 == 0x1F) by (bit_vector);
    assert((0u16 & 0x1F) as u8 == 0 && ((0u16 >> 5) & 0x1F) as u8 == 0 && ((0u16 >> 10) & 0x1F) as u8
        == 0) by (bit_vector);
}

} // verus!
