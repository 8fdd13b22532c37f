pub mod color_palette;
pub mod ppu;
pub mod ppu_regs;
pub mod sprite;
pub mod tile_attributes;
