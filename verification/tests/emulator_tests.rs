use kevboy::cartridge::base_cartridge::CartridgeType;
use kevboy::emulator::{Emulator, LoadError};
use kevboy::mmu::mmio::MMIO;

/// A 32 KiB ROM with a header: cartridge type, RAM size code, title, CGB flag.
fn rom_with(kind: u8, ram_code: u8, title: &[u8], cgb_flag: u8) -> Vec<u8> {
    let mut rom = vec![0u8; 0x8000];
    rom[0x0134..0x0134 + title.len()].copy_from_slice(title);
    rom[0x0143] = cgb_flag;
    rom[0x0147] = kind;
    rom[0x0148] = 0x00;
    rom[0x0149] = ram_code;
    rom[0x014A] = 0x01;
    rom[0x014D] = 0x42;
    rom
}

#[test]
fn rom_too_small_is_refused() {
    let mut emu = Emulator::new();
    assert_eq!(emu.load_rom(&[0u8; 0x100]), Err(LoadError::RomTooSmall));
    assert_eq!(emu.get_rom_size(), None);
}

#[test]
fn unsupported_ram_size_is_refused() {
    let mut emu = Emulator::new();
    let rom = rom_with(0x01, 0x01, b"GAME", 0x00);
    assert_eq!(emu.load_rom(&rom), Err(LoadError::RamSizeUnsupported));
}

#[test]
fn unsupported_rom_size_is_refused() {
    let mut emu = Emulator::new();
    let mut rom = rom_with(0x00, 0x00, b"GAME", 0x00);
    rom[0x0148] = 0x52;
    assert_eq!(emu.load_rom(&rom), Err(LoadError::RomSizeUnsupported));
}

#[test]
fn large_rom_size_code_is_taken_as_written() {
    let mut emu = Emulator::new();
    let mut rom = rom_with(0x00, 0x00, b"GAME", 0x00);
    rom[0x0148] = 0x09;
    assert_eq!(emu.load_rom(&rom), Ok(()));
    assert_eq!(emu.get_rom_size(), Some(16384));
}

#[test]
fn unsupported_cartridge_is_refused() {
    let mut emu = Emulator::new();
    let rom = rom_with(0x20, 0x00, b"GAME", 0x00);
    assert_eq!(emu.load_rom(&rom), Err(LoadError::CartridgeUnsupported));
}

#[test]
fn invalid_title_is_refused() {
    let mut emu = Emulator::new();
    let rom = rom_with(0x00, 0x00, &[0xFF, 0xFE, 0x41], 0x00);
    assert_eq!(emu.load_rom(&rom), Err(LoadError::InvalidTitle));
}

#[test]
fn title_falls_back_to_shorter_field() {
    let mut emu = Emulator::new();
    // a lone lead byte of a two byte sequence at $0143 spoils only the longest field
    let mut rom = rom_with(0x00, 0x00, b"POKEMON", 0x00);
    rom[0x0143] = 0xC3;
    assert_eq!(emu.load_rom(&rom), Ok(()));
    assert_eq!(emu.bus.cartridge.title.len(), 15);
    assert!(emu.bus.cartridge.title.starts_with("POKEMON"));
}

#[test]
fn mbc1_rom_loads() {
    let mut emu = Emulator::new();
    let rom = rom_with(0x03, 0x02, b"TETRIS", 0x00);
    assert_eq!(emu.load_rom(&rom), Ok(()));
    assert!(!emu.is_cgb());
    assert_eq!(emu.get_full_mbc_title(), Some("MBC1+RAM+BATTERY"));
    assert_eq!(emu.get_destination_code(), Some("Overseas only"));
    assert_eq!(emu.get_rom_size(), Some(32));
    assert_eq!(emu.get_ram_size(), Some(8));
    assert!(emu.bus.cartridge.title.starts_with("TETRIS"));
    assert_eq!(emu.bus.cartridge.title.len(), 16);
    assert_eq!(emu.cpu.registers.F, 0xB0);
    assert_eq!(emu.cpu.registers.PC, 0x0100);
    assert_eq!(emu.rom.len(), 0x8000);
    match &emu.bus.cartridge.cartridge_type {
        CartridgeType::MBC1(m) => {
            assert_eq!(m.external_ram.len(), 0x2000);
            assert_eq!(m.rom_size, 32);
        },
        _ => panic!("expected an MBC1"),
    }
}

#[test]
fn color_rom_starts_in_color_mode() {
    let mut emu = Emulator::new();
    let rom = rom_with(0x19, 0x03, b"SHANTAE", 0x80);
    assert_eq!(emu.load_rom(&rom), Ok(()));
    assert!(emu.is_cgb());
    assert!(emu.cpu.cgb);
    assert!(emu.bus.ppu.cgb);
    assert_eq!(emu.cpu.registers.A, 0x11);
    assert_eq!(emu.get_full_mbc_title(), Some("MBC5"));
    assert_eq!(emu.get_ram_size(), Some(32));
}

#[test]
fn rom_size_from_header() {
    let mut emu = Emulator::new();
    let mut rom = rom_with(0x00, 0x00, b"BIG", 0x00);
    rom[0x0148] = 0x02;
    assert_eq!(emu.load_rom(&rom), Ok(()));
    assert_eq!(emu.get_rom_size(), Some(128));
}

#[test]
fn nothing_loaded_gives_no_info() {
    let emu = Emulator::new();
    assert_eq!(emu.get_full_mbc_title(), None);
    assert_eq!(emu.get_destination_code(), None);
    assert_eq!(emu.get_ram_size(), None);
    assert!(!emu.is_cgb());
}

#[test]
fn reset_unloads() {
    let mut emu = Emulator::new();
    let rom = rom_with(0x00, 0x00, b"GAME", 0x00);
    assert_eq!(emu.load_rom(&rom), Ok(()));
    emu.cycle_count = 7;
    emu.reset();
    assert_eq!(emu.get_rom_size(), None);
    assert_eq!(emu.cycle_count, 0);
    assert_eq!(emu.cpu.registers.PC, 0x0100);
}

#[test]
fn steps_run_the_program() {
    let mut emu = Emulator::new();
    let mut rom = rom_with(0x00, 0x00, b"GAME", 0x00);
    rom[0x0100] = 0x00; // NOP
    rom[0x0101] = 0x3E; // LD A, $42
    rom[0x0102] = 0x42;
    rom[0x0103] = 0xC3; // JP $0150
    rom[0x0104] = 0x50;
    rom[0x0105] = 0x01;
    assert_eq!(emu.load_rom(&rom), Ok(()));
    assert_eq!(emu.step(), 1);
    assert_eq!(emu.step(), 2);
    assert_eq!(emu.cpu.registers.A, 0x42);
    assert_eq!(emu.step(), 4);
    assert_eq!(emu.cpu.registers.PC, 0x0150);
    assert!(!emu.bus.fault);
}

#[test]
fn step_services_interrupt() {
    let mut emu = Emulator::new();
    let rom = rom_with(0x00, 0x00, b"GAME", 0x00);
    assert_eq!(emu.load_rom(&rom), Ok(()));
    emu.cpu.ime = true;
    emu.bus.interrupt_handler.inte = 0x04;
    emu.bus.interrupt_handler.intf = 0x04;
    emu.step();
    assert_eq!(emu.cycle_count, 5);
    assert_eq!(emu.cpu.registers.PC, 0x0051);
}

#[test]
fn frame_runs_until_a_full_frame_of_cycles() {
    let mut emu = Emulator::new();
    let mut rom = rom_with(0x00, 0x00, b"GAME", 0x00);
    rom[0x0100] = 0xC3; // JP $0150
    rom[0x0101] = 0x50;
    rom[0x0102] = 0x01;
    rom[0x0150] = 0x18; // JR -2
    rom[0x0151] = 0xFE;
    assert_eq!(emu.load_rom(&rom), Ok(()));
    emu.run_frame([false; 4], [false; 4]);
    assert_eq!(emu.cycle_count, 0);
    assert_eq!(emu.cpu.registers.PC, 0x0150);
    assert_eq!(emu.bus.joypad.joyp & 0x0F, 0x0F);
    assert!(!emu.bus.fault);
}

#[test]
fn frame_polls_the_keys_and_releases_them() {
    let mut emu = Emulator::new();
    let mut rom = rom_with(0x00, 0x00, b"GAME", 0x00);
    rom[0x0100] = 0x18; // JR -2
    rom[0x0101] = 0xFE;
    assert_eq!(emu.load_rom(&rom), Ok(()));
    emu.bus.write(0xFF00, 0x20); // select the direction pad
    emu.run_frame([false; 4], [true, false, false, false]);
    assert_ne!(emu.bus.interrupt_handler.intf & 0x10, 0);
    assert_eq!(emu.bus.joypad.joyp, 0xEF);
    assert_eq!(emu.bus.joypad.prev_joyp, 0xEE);
}
