use vstd::prelude::*;
use crate::ppu::color_palette::{Chocolate, Green, Monochrome};

verus! {

/// The color palette chosen for the four DMG shades: one of the predefined ones, or colors
/// picked one by one.
#[derive(Clone, Copy, PartialEq, Eq, Structural, Debug)]
pub enum Palette {
    Monochrome(Monochrome),
    Green(Green),
    Chocolate(Chocolate),
    Custom,
}

} // verus!
