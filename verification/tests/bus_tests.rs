use kevboy::cartridge::base_cartridge::{Cartridge, CartridgeType};
use kevboy::cartridge::mbc::mbc2::MBC2;
use kevboy::cpu::interrupts::Interrupt;
use kevboy::mmu::bus::Bus;
use kevboy::mmu::hdma_transfer::Hdma;
use kevboy::mmu::mmio::MMIO;
use kevboy::mmu::serial::Serial;
use kevboy::mmu::timer::Timers;
use kevboy::cpu::interrupts::InterruptHandler;

#[test]
fn work_ram_keeps_writes_and_echoes() {
    let mut bus = Bus::new();
    bus.write(0xC123, 0x5A);
    assert_eq!(bus.read(0xC123), 0x5A);
    assert_eq!(bus.read(0xE123), 0x5A);
    bus.write(0xF456, 0x77);
    assert_eq!(bus.read(0xD456), 0x77);
    assert!(!bus.fault);
}

#[test]
fn high_ram_and_interrupt_enable() {
    let mut bus = Bus::new();
    bus.write(0xFF80, 0x12);
    bus.write(0xFFFE, 0x34);
    bus.write(0xFFFF, 0x1F);
    assert_eq!(bus.read(0xFF80), 0x12);
    assert_eq!(bus.read(0xFFFE), 0x34);
    assert_eq!(bus.read(0xFFFF), 0x1F);
    assert_eq!(bus.interrupt_handler.inte, 0x1F);
}

#[test]
fn interrupt_flag_upper_bits_read_as_one() {
    let mut bus = Bus::new();
    bus.write(0xFF0F, 0x01);
    assert_eq!(bus.interrupt_handler.intf & 0xE1, 0xE1);
}

#[test]
fn sixteen_bit_access_is_little_endian() {
    let mut bus = Bus::new();
    bus.write_16(0xC000, 0xABCD);
    assert_eq!(bus.read(0xC000), 0xCD);
    assert_eq!(bus.read(0xC001), 0xAB);
    assert_eq!(bus.read_16(0xC000), 0xABCD);
}

#[test]
fn unusable_area_reads_open_bus() {
    let mut bus = Bus::new();
    bus.write(0xFEA0, 0x12);
    assert_eq!(bus.read(0xFEA0), 0xFF);
}

#[test]
fn reading_missing_cartridge_faults() {
    let mut bus = Bus::new();
    assert_eq!(bus.read(0x0150), 0xFF);
    assert!(bus.fault);
}

#[test]
fn oam_dma_copies_a_page() {
    let mut bus = Bus::new();
    for i in 0..0xA0u16 {
        bus.write(0xC000 + i, i as u8);
    }
    bus.write(0xFF46, 0xC0);
    bus.tick(1);
    bus.tick(1);
    for i in 0..0xA0usize {
        assert_eq!(bus.oam[i], i as u8);
    }
}

#[test]
fn divider_counts_m_cycles() {
    let mut bus = Bus::new();
    bus.write(0xFF04, 0x00);
    let before = bus.timer.div;
    bus.tick(64);
    assert_eq!(bus.timer.div, before.wrapping_add(256));
    assert_eq!(bus.read(0xFF04), ((before.wrapping_add(256) + 4) / 256) as u8);
}

#[test]
fn divider_write_resets() {
    let mut t = Timers::new();
    t.write(0xFF04, 0x55);
    assert_eq!(t.div, 0);
    assert_eq!(t.read(0xFF04), 0);
}

#[test]
fn timer_overflow_requests_interrupt_and_reloads() {
    let mut bus = Bus::new();
    bus.write(0xFF06, 0xAB); // TMA
    bus.write(0xFF05, 0xFF); // TIMA
    bus.write(0xFF07, 0x05); // enabled, 16 clocks
    bus.interrupt_handler.intf = 0;
    for _ in 0..12 {
        bus.tick(1);
    }
    assert_eq!(bus.interrupt_handler.intf & 0x04, 0x04);
    assert!(bus.timer.tima >= 0xAB);
}

#[test]
fn serial_transfer_shifts_in_ones() {
    let mut bus = Bus::new();
    bus.write(0xFF01, 0x00);
    bus.write(0xFF02, 0x81);
    bus.interrupt_handler.intf = 0;
    bus.tick(8 * 128);
    assert_eq!(bus.serial.sb, 0xFF);
    assert_eq!(bus.serial.sc, 0x01);
    assert_eq!(bus.interrupt_handler.intf & 0x08, 0x08);
}

#[test]
fn serial_without_transfer_keeps_data() {
    let mut s = Serial::default();
    let mut ih = InterruptHandler::default();
    s.sb = 0x42;
    s.tick(&mut ih, 1000);
    assert_eq!(s.sb, 0x42);
    assert!(!s.is_transfer_requested());
    assert!(s.cycles_passed < 128);
}

#[test]
fn speed_switch_toggles() {
    let mut bus = Bus::new();
    bus.key1 = 0x7F;
    bus.change_speed();
    assert!(bus.double_speed);
    assert_eq!(bus.key1, 0xFE);
    bus.change_speed();
    assert!(!bus.double_speed);
    assert_eq!(bus.key1, 0x7E);
}

#[test]
fn cgb_work_ram_banks() {
    let mut bus = Bus::new();
    bus.ppu.enable_cgb();
    bus.write(0xFF70, 0x02);
    bus.write(0xD000, 0x11);
    bus.write(0xFF70, 0x03);
    bus.write(0xD000, 0x22);
    assert_eq!(bus.read(0xD000), 0x22);
    bus.write(0xFF70, 0x02);
    assert_eq!(bus.read(0xD000), 0x11);
    assert_eq!(bus.read(0xFF70), 0xFA);
}

#[test]
fn dmg_ignores_bank_registers() {
    let mut bus = Bus::new();
    bus.write(0xFF70, 0x03);
    bus.write(0xFF4F, 0x01);
    assert_eq!(bus.read(0xFF70), 0xF8);
    assert_eq!(bus.read(0xFF4F), 0xFF);
}

#[test]
fn general_purpose_vram_dma() {
    let mut bus = Bus::new();
    bus.ppu.enable_cgb();
    bus.write(0xFF4F, 0x00);
    for i in 0..0x20u16 {
        bus.write(0xC000 + i, 0x80 + i as u8);
    }
    bus.write(0xFF51, 0xC0);
    bus.write(0xFF52, 0x00);
    bus.write(0xFF53, 0x01);
    bus.write(0xFF54, 0x00);
    bus.write(0xFF55, 0x01); // two blocks of 16 bytes, general purpose
    for i in 0..0x20usize {
        assert_eq!(bus.vram[0x100 + i], 0x80 + i as u8);
    }
    assert_eq!(bus.read(0xFF55), 0xFF);
}

#[test]
fn hblank_dma_is_only_marked() {
    let mut bus = Bus::new();
    bus.ppu.enable_cgb();
    bus.write(0xFF55, 0x83);
    assert_eq!(bus.read(0xFF55), 0x03);
    bus.write(0xFF55, 0x00);
    assert_eq!(bus.read(0xFF55) & 0x80, 0x80);
}

#[test]
fn hdma_registers_are_aligned() {
    let mut h = Hdma::default();
    h.write(0xFF51, 0x12);
    h.write(0xFF52, 0x3F);
    h.write(0xFF53, 0xFF);
    h.write(0xFF54, 0xFF);
    assert_eq!(h.source(), 0x1230);
    assert_eq!(h.dest(), 0x1FF0);
    h.write(0xFF55, 0x81);
    assert!(!h.is_gdma());
    assert_eq!(h.length(), 0x20);
}

#[test]
fn pending_and_acknowledge() {
    let mut bus = Bus::new();
    bus.interrupt_handler.inte = 0x06;
    bus.interrupt_handler.intf = 0x03;
    assert_eq!(bus.pending_interrupts(), 0x02);
    bus.acknowledge(Interrupt::STAT);
    assert_eq!(bus.interrupt_handler.intf, 0x01);
}

#[test]
fn key_poll_reads_pressed_keys_of_selected_group() {
    let mut bus = Bus::new();
    // JOYP starts with both groups selected: the action buttons are read
    bus.poll_joypad([false, true, false, true], [true; 4]);
    assert_eq!(bus.joypad.joyp, 0xC5);
    assert_eq!(bus.joypad.prev_joyp, 0xC5);
    assert_eq!(bus.interrupt_handler.intf & 0x10, 0x10);
    bus.release_keys();
    assert_eq!(bus.joypad.joyp, 0xCF);
    assert_eq!(bus.joypad.prev_joyp, 0xC5);
}

#[test]
fn video_ram_keeps_writes_per_bank() {
    let mut bus = Bus::new();
    bus.write(0x8010, 0x3C);
    assert_eq!(bus.read(0x8010), 0x3C);
    assert_eq!(bus.vram[0x0010], 0x3C);
    // without color mode the bank register has no effect
    bus.write(0xFF4F, 0x01);
    assert_eq!(bus.read(0x8010), 0x3C);
    bus.ppu.enable_cgb();
    bus.write(0x9FFF, 0x99);
    assert_eq!(bus.read(0x9FFF), 0x99);
    assert_eq!(bus.vram[0x3FFF], 0x99);
}

#[test]
fn save_loads_into_cartridge_ram() {
    let mut bus = Bus::new();
    let rom = vec![0u8; 0x8000];
    bus.cartridge = Cartridge::new(CartridgeType::MBC2(MBC2::new(&rom)), "GAME");
    let save: Vec<u8> = (0..512).map(|i| (i % 16) as u8).collect();
    assert!(bus.cartridge.can_load_sram(&save));
    bus.load_sram(&save);
    assert_eq!(bus.cartridge.dump_sram(), Some(save));
}

#[test]
fn tima_counts_at_the_selected_frequency() {
    let mut t = Timers::new();
    t.write(0xFF04, 0x00); // DIV = 0
    t.write(0xFF05, 0x00);
    t.write(0xFF07, 0x05); // enabled, every 16 T-cycles
    t.tick(4);
    assert_eq!(t.tima, 1);
    t.tick(40);
    assert_eq!(t.tima, 11);
    t.write(0xFF07, 0x04); // every 1024 T-cycles
    t.write(0xFF04, 0x00);
    t.tick(255);
    assert_eq!(t.tima, 11);
    t.tick(1);
    assert_eq!(t.tima, 12);
}
