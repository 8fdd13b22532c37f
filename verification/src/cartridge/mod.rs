pub mod base_cartridge;
pub mod mbc;
