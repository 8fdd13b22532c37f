use kevboy::apu::apu::{ChannelFour, ChannelOne, APU};
use kevboy::cartridge::base_cartridge::{Cartridge, CartridgeType};
use kevboy::cartridge::mbc::mbc1::MBC1;
use kevboy::cartridge::mbc::mbc2::MBC2;
use kevboy::cartridge::mbc::mbc3::MBC3;
use kevboy::cartridge::mbc::mbc5::MBC5;
use kevboy::cpu::interrupts::InterruptHandler;
use kevboy::input::joypad::{ButtonType, Joypad};
use kevboy::mmu::mmio::MMIO;
use kevboy::ppu::color_palette::{rgb555_to_color, Green, Monochrome, Rgba};
use kevboy::ppu::sprite::{get_current_sprites_per_line, Sprite};
use kevboy::ui::memory_viewer::MemoryViewer;
use kevboy::ui::palette_picker::Palette;

#[test]
fn save_ram_load_then_dump() {
    let rom = vec![0u8; 0x8000];
    let mut cart = Cartridge::new(CartridgeType::MBC1(MBC1::new(&rom, 32, 8)), "GAME");
    let save: Vec<u8> = (0..0x2000u32).map(|i| (i % 251) as u8).collect();
    cart.load_sram(&save);
    assert_eq!(cart.dump_sram(), Some(save));
}

#[test]
fn mbc2_save_ram_round_trip() {
    let rom = vec![0u8; 0x8000];
    let mut cart = Cartridge::new(CartridgeType::MBC2(MBC2::new(&rom)), "GAME");
    let save: Vec<u8> = (0..512u32).map(|i| (i % 16) as u8).collect();
    cart.load_sram(&save);
    assert_eq!(cart.dump_sram(), Some(save));
}

#[test]
fn cartridge_without_battery_has_no_save() {
    let cart = Cartridge::default();
    assert_eq!(cart.dump_sram(), None);
}

#[test]
fn cartridge_without_ram_has_no_save() {
    let rom = vec![0u8; 0x8000];
    let cart = Cartridge::new(CartridgeType::MBC1(MBC1::new(&rom, 32, 0)), "GAME");
    assert_eq!(cart.dump_sram(), None);
    let cart = Cartridge::new(CartridgeType::MBC5(MBC5::new(&rom, 32, 0)), "GAME");
    assert_eq!(cart.dump_sram(), None);
}

#[test]
fn mbc1_switches_rom_banks() {
    let mut rom = vec![0u8; 0x10000];
    for bank in 0..4usize {
        rom[bank * 0x4000] = bank as u8 + 0x10;
    }
    let mut cart = Cartridge::new(CartridgeType::MBC1(MBC1::new(&rom, 64, 0)), "GAME");
    assert_eq!(cart.read(0x0000), 0x10);
    assert_eq!(cart.read(0x4000), 0x11);
    cart.write(0x2000, 0x02);
    assert_eq!(cart.read(0x4000), 0x12);
    cart.write(0x2000, 0x00);
    assert_eq!(cart.read(0x4000), 0x11);
}

#[test]
fn mbc1_ram_needs_enable() {
    let rom = vec![0u8; 0x8000];
    let mut cart = Cartridge::new(CartridgeType::MBC1(MBC1::new(&rom, 32, 8)), "GAME");
    cart.write(0x0000, 0x0A);
    cart.write(0xA010, 0x5A);
    assert_eq!(cart.read(0xA010), 0x5A);
    cart.write(0x0000, 0x00);
    assert_eq!(cart.read(0xA010), 0xFF);
}

#[test]
fn joypad_selects_group() {
    let mut j = Joypad::default();
    j.write(0xFF00, 0x10);
    assert_eq!(j.get_button_type(), ButtonType::Action);
    j.write(0xFF00, 0x20);
    assert_eq!(j.get_button_type(), ButtonType::Direction);
    j.write(0xFF00, 0x30);
    assert_eq!(j.get_button_type(), ButtonType::Neither);
    assert_eq!(j.read(0xFF00) & 0xC0, 0xC0);
}

#[test]
fn joypad_press_requests_interrupt() {
    let mut j = Joypad::default();
    let mut ih = InterruptHandler::default();
    j.write(0xFF00, 0x10); // action buttons
    j.tick(&mut ih, [false; 4], [false; 4]);
    j.tick(&mut ih, [true, false, false, false], [false; 4]);
    assert_eq!(j.joyp & 0x01, 0x00);
    assert_eq!(ih.intf & 0x10, 0x10);
    j.reset_pressed_keys();
    assert_eq!(j.joyp & 0x0F, 0x0F);
}

#[test]
fn apu_off_ignores_register_writes() {
    let mut apu = APU::default();
    apu.write(0xFF26, 0x00);
    assert!(!apu.is_apu_enabled());
    apu.write(0xFF12, 0xF3);
    assert_eq!(apu.read(0xFF12), 0x00);
    apu.write(0xFF30, 0xAB);
    assert_eq!(apu.read(0xFF30), 0xAB);
    apu.write(0xFF26, 0x80);
    assert!(apu.is_apu_enabled());
    apu.write(0xFF12, 0xF3);
    assert_eq!(apu.read(0xFF12), 0xF3);
}

#[test]
fn rgb555_extremes() {
    assert_eq!(rgb555_to_color(0x7FFF), Rgba { r: 255, g: 255, b: 255, a: 255 });
    assert_eq!(rgb555_to_color(0x0000), Rgba { r: 0, g: 0, b: 0, a: 255 });
    assert_eq!(rgb555_to_color(0x001F).r, 255);
    assert_eq!(rgb555_to_color(0x001F).g, 0);
}

#[test]
fn predefined_palettes() {
    assert_eq!(Monochrome::white(), Rgba { r: 255, g: 255, b: 255, a: 255 });
    assert_eq!(Monochrome::light_gray().r, 220);
    assert_eq!(Monochrome::gray().r, 160);
    assert_eq!(Monochrome::black(), Rgba { r: 0, g: 0, b: 0, a: 255 });
    assert_ne!(Green::white(), Green::black());
    assert_eq!(Palette::Green(Green), Palette::Green(Green));
    assert_ne!(Palette::Custom, Palette::Monochrome(Monochrome));
}

#[test]
fn sprites_on_a_line_sorted_by_x() {
    // sprite 0 at x = 40, sprite 1 at x = 20, both covering line 0 in 8x8 mode
    let mut oam = vec![0u8; 0xA0];
    oam[0] = 16;
    oam[1] = 40;
    oam[4] = 16;
    oam[5] = 20;
    oam[8] = 100; // not on line 0
    oam[9] = 10;
    let sprites = get_current_sprites_per_line(0, true, &oam);
    assert_eq!(sprites.len(), 2);
    assert!(sprites[0].x_pos < sprites[1].x_pos);
    // the positions are kept as OAM holds them
    assert_eq!((sprites[0].y_pos, sprites[0].x_pos), (16, 20));
    assert_eq!((sprites[1].y_pos, sprites[1].x_pos), (16, 40));
    let s = Sprite::new(16, 8, 1, 0x60);
    assert!(s.is_y_flipped());
    assert!(s.is_x_flipped());
}

#[test]
fn sprite_partly_above_the_screen_covers_its_visible_lines() {
    let mut oam = vec![0u8; 0xA0];
    oam[0] = 10; // top line -6, 16 lines high: lines 0..=9
    oam[1] = 8;
    assert_eq!(get_current_sprites_per_line(9, false, &oam).len(), 1);
    assert_eq!(get_current_sprites_per_line(10, false, &oam).len(), 0);
    assert_eq!(get_current_sprites_per_line(2, true, &oam).len(), 0);
    assert_eq!(get_current_sprites_per_line(1, true, &oam).len(), 1);
}

#[test]
fn memory_viewer_copies_memory() {
    let v = MemoryViewer::new();
    assert!(!v.open);
    assert!(v.memory.is_empty());
    let data = [1u8, 2, 3];
    let w = MemoryViewer::new_with_memory(&data, true);
    assert_eq!(w.memory, vec![1, 2, 3]);
    assert!(w.show_ascii);
}

#[test]
fn mbc2_ram_keeps_low_nibble() {
    let rom = vec![0u8; 0x8000];
    let mut cart = Cartridge::new(CartridgeType::MBC2(MBC2::new(&rom)), "GAME");
    cart.write(0x0000, 0x0A);
    cart.write(0xA005, 0x5C);
    assert_eq!(cart.read(0xA005), 0xFC);
    // the 512 cells repeat through $A000-$BFFF
    assert_eq!(cart.read(0xA205), 0xFC);
}

#[test]
fn mbc3_ram_banks_and_clock() {
    let rom = vec![0u8; 0x8000];
    let mut cart = Cartridge::new(CartridgeType::MBC3(MBC3::new(&rom)), "GAME");
    cart.write(0x0000, 0x0A);
    cart.write(0x4000, 0x02);
    cart.write(0xA000, 0x77);
    assert_eq!(cart.read(0xA000), 0x77);
    cart.write(0x4000, 0x01);
    assert_eq!(cart.read(0xA000), 0xFF);
    cart.write(0x4000, 0x08);
    cart.write(0xA000, 0x3F);
    assert_eq!(cart.read(0xA000), 0x3B);
}

#[test]
fn mbc5_switches_rom_banks() {
    let mut rom = vec![0u8; 0x20000];
    for bank in 0..8usize {
        rom[bank * 0x4000 + 1] = bank as u8;
    }
    let mut cart = Cartridge::new(CartridgeType::MBC5(MBC5::new(&rom, 128, 0)), "GAME");
    assert_eq!(cart.read(0x4001), 1);
    cart.write(0x2000, 0x05);
    assert_eq!(cart.read(0x4001), 5);
    cart.write(0x2000, 0x00);
    assert_eq!(cart.read(0x4001), 0);
}

#[test]
fn channel_one_frame_step_moves_volume_and_length() {
    let mut ch = ChannelOne::default();
    ch.nr12 = 0x09; // envelope up, period 1
    ch.volume = 3;
    ch.vol_timer = 1;
    ch.nr14 = 0x40; // length enabled
    ch.len_counter = 1;
    let mut nr52: u8 = 0xF1;
    ch.tick(0, &mut nr52);
    assert_eq!(ch.volume, 4);
    assert_eq!(ch.len_counter, 0);
    assert_eq!(nr52, 0xF0);
    assert_eq!((ch.nr10, ch.nr11, ch.nr12), (0x80, 0xBF, 0x09));
}

#[test]
fn channel_four_lfsr_shifts_in_the_xor_of_its_low_bits() {
    let mut ch = ChannelFour::default();
    ch.freq_timer = 3;
    ch.lfsr = 0x7FFF;
    ch.duty_cycle();
    assert_eq!(ch.freq_timer, 2);
    assert_eq!(ch.lfsr, 0x7FFF);
    ch.freq_timer = 1;
    ch.duty_cycle();
    assert_eq!(ch.lfsr, 0x3FFF);
    ch.freq_timer = 1;
    ch.nr43 = 0x08; // 7-bit mode
    ch.lfsr = 0x0001;
    ch.duty_cycle();
    assert_eq!(ch.lfsr, 0x4040);
}
