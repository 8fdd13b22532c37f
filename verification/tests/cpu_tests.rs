use kevboy::cpu::cpu::CPU;
use kevboy::cpu::debug::{empty, run_case, State};
use kevboy::cpu::interrupts::{Interrupt, InterruptHandler};
use kevboy::cpu::registers::{Flag, Registers};
use kevboy::mmu::bus::Bus;
use kevboy::mmu::mmio::MMIO;

/// A processor about to run `program` from work RAM at $C000.
fn machine(program: &[u8]) -> (CPU, Bus) {
    let mut bus = Bus::new();
    for (i, b) in program.iter().enumerate() {
        bus.write(0xC000 + i as u16, *b);
    }
    let mut cpu = CPU::new();
    cpu.registers.PC = 0xC000;
    (cpu, bus)
}

#[test]
fn ld_immediate_then_inc() {
    let (mut cpu, mut bus) = machine(&[0x3E, 0x42, 0x3C]);
    assert_eq!(cpu.tick(&mut bus), 2);
    assert_eq!(cpu.registers.A, 0x42);
    assert_eq!(cpu.registers.PC, 0xC002);
    assert_eq!(cpu.tick(&mut bus), 1);
    assert_eq!(cpu.registers.A, 0x43);
    assert!(!cpu.registers.get_flag(Flag::Zero));
    assert!(!cpu.registers.get_flag(Flag::Substraction));
}

#[test]
fn add_sets_zero_half_carry_and_carry() {
    let (mut cpu, mut bus) = machine(&[0xC6, 0xC6]);
    cpu.registers.A = 0x3A;
    assert_eq!(cpu.tick(&mut bus), 2);
    assert_eq!(cpu.registers.A, 0x00);
    assert_eq!(cpu.registers.F, 0xB0);
}

#[test]
fn daa_after_bcd_addition() {
    let (mut cpu, mut bus) = machine(&[0xC6, 0x27, 0x27]);
    cpu.registers.A = 0x15;
    cpu.registers.F = 0x00;
    cpu.tick(&mut bus);
    assert_eq!(cpu.registers.A, 0x3C);
    cpu.tick(&mut bus);
    assert_eq!(cpu.registers.A, 0x42);
    assert!(!cpu.registers.get_flag(Flag::Carry));
}

#[test]
fn daa_after_bcd_addition_with_carry() {
    let (mut cpu, mut bus) = machine(&[0xC6, 0x45, 0x27]);
    cpu.registers.A = 0x99;
    cpu.registers.F = 0x00;
    cpu.tick(&mut bus);
    cpu.tick(&mut bus);
    assert_eq!(cpu.registers.A, 0x44);
    assert!(cpu.registers.get_flag(Flag::Carry));
}

#[test]
fn push_then_pop_restores_pair() {
    // LD BC, $1234; PUSH BC; POP DE
    let (mut cpu, mut bus) = machine(&[0x01, 0x34, 0x12, 0xC5, 0xD1]);
    assert_eq!(cpu.tick(&mut bus), 3);
    assert_eq!(cpu.tick(&mut bus), 4);
    assert_eq!(cpu.registers.SP, 0xFFFC);
    assert_eq!(cpu.tick(&mut bus), 3);
    assert_eq!(cpu.registers.get_de(), 0x1234);
    assert_eq!(cpu.registers.SP, 0xFFFE);
}

#[test]
fn pop_af_clears_low_nibble() {
    // LD BC, $12FF; PUSH BC; POP AF
    let (mut cpu, mut bus) = machine(&[0x01, 0xFF, 0x12, 0xC5, 0xF1]);
    cpu.tick(&mut bus);
    cpu.tick(&mut bus);
    cpu.tick(&mut bus);
    assert_eq!(cpu.registers.A, 0x12);
    assert_eq!(cpu.registers.F, 0xF0);
}

#[test]
fn call_then_ret_comes_back() {
    let mut program = vec![0u8; 0x11];
    program[0] = 0xCD; // CALL $C010
    program[1] = 0x10;
    program[2] = 0xC0;
    program[0x10] = 0xC9; // RET
    let (mut cpu, mut bus) = machine(&program);
    assert_eq!(cpu.tick(&mut bus), 6);
    assert_eq!(cpu.registers.PC, 0xC010);
    assert_eq!(cpu.registers.SP, 0xFFFC);
    assert_eq!(bus.read(0xFFFD), 0xC0);
    assert_eq!(bus.read(0xFFFC), 0x03);
    assert_eq!(cpu.tick(&mut bus), 4);
    assert_eq!(cpu.registers.PC, 0xC003);
    assert_eq!(cpu.registers.SP, 0xFFFE);
}

#[test]
fn rst_jumps_to_vector() {
    let (mut cpu, mut bus) = machine(&[0xEF]);
    assert_eq!(cpu.tick(&mut bus), 4);
    assert_eq!(cpu.registers.PC, 0x0028);
    assert_eq!(cpu.registers.SP, 0xFFFC);
}

#[test]
fn jr_backwards_to_itself() {
    let (mut cpu, mut bus) = machine(&[0x18, 0xFE]);
    assert_eq!(cpu.tick(&mut bus), 3);
    assert_eq!(cpu.registers.PC, 0xC000);
}

#[test]
fn jr_nz_not_taken_when_zero() {
    let (mut cpu, mut bus) = machine(&[0x20, 0x05]);
    cpu.registers.F = 0x80;
    assert_eq!(cpu.tick(&mut bus), 2);
    assert_eq!(cpu.registers.PC, 0xC002);
}

#[test]
fn jp_conditional_taken() {
    let (mut cpu, mut bus) = machine(&[0xDA, 0x34, 0x12]);
    cpu.registers.F = 0x10;
    assert_eq!(cpu.tick(&mut bus), 4);
    assert_eq!(cpu.registers.PC, 0x1234);
}

#[test]
fn swap_and_bit_on_memory() {
    // LD HL, $C100; SWAP (HL); BIT 7, (HL); RES 7, (HL)
    let (mut cpu, mut bus) = machine(&[0x21, 0x00, 0xC1, 0xCB, 0x36, 0xCB, 0x7E, 0xCB, 0xBE]);
    bus.write(0xC100, 0xAB);
    cpu.tick(&mut bus);
    assert_eq!(cpu.tick(&mut bus), 4);
    assert_eq!(bus.read(0xC100), 0xBA);
    assert_eq!(cpu.tick(&mut bus), 3);
    assert!(!cpu.registers.get_flag(Flag::Zero));
    assert!(cpu.registers.get_flag(Flag::HalfCarry));
    assert_eq!(cpu.tick(&mut bus), 4);
    assert_eq!(bus.read(0xC100), 0x3A);
}

#[test]
fn store_with_post_increment() {
    // LD HL, $C100; LD A, $77; LD (HL+), A
    let (mut cpu, mut bus) = machine(&[0x21, 0x00, 0xC1, 0x3E, 0x77, 0x22]);
    cpu.tick(&mut bus);
    cpu.tick(&mut bus);
    assert_eq!(cpu.tick(&mut bus), 2);
    assert_eq!(cpu.registers.get_hl(), 0xC101);
    assert_eq!(bus.read(0xC100), 0x77);
}

#[test]
fn high_page_load_and_store() {
    // LD A, $5A; LDH ($80), A; LD A, 0; LDH A, ($80)
    let (mut cpu, mut bus) = machine(&[0x3E, 0x5A, 0xE0, 0x80, 0x3E, 0x00, 0xF0, 0x80]);
    cpu.tick(&mut bus);
    assert_eq!(cpu.tick(&mut bus), 3);
    cpu.tick(&mut bus);
    assert_eq!(cpu.tick(&mut bus), 3);
    assert_eq!(cpu.registers.A, 0x5A);
}

#[test]
fn add_sp_negative_offset() {
    let (mut cpu, mut bus) = machine(&[0xE8, 0xFE]);
    cpu.registers.SP = 0xFFF8;
    assert_eq!(cpu.tick(&mut bus), 4);
    assert_eq!(cpu.registers.SP, 0xFFF6);
    assert!(!cpu.registers.get_flag(Flag::Zero));
}

#[test]
fn ld_hl_sp_offset_keeps_sp() {
    let (mut cpu, mut bus) = machine(&[0xF8, 0x02]);
    cpu.registers.SP = 0xFFF8;
    assert_eq!(cpu.tick(&mut bus), 3);
    assert_eq!(cpu.registers.get_hl(), 0xFFFA);
    assert_eq!(cpu.registers.SP, 0xFFF8);
}

#[test]
fn ei_takes_effect_after_next_instruction() {
    let (mut cpu, mut bus) = machine(&[0xFB, 0x00, 0xF3]);
    cpu.tick(&mut bus);
    assert!(!cpu.ime);
    cpu.tick(&mut bus);
    assert!(cpu.ime);
    cpu.tick(&mut bus);
    assert!(!cpu.ime);
}

#[test]
fn halt_then_wake_on_interrupt() {
    let (mut cpu, mut bus) = machine(&[0x76, 0x00]);
    bus.interrupt_handler.inte = 0x00;
    bus.interrupt_handler.intf = 0x00;
    assert_eq!(cpu.tick(&mut bus), 1);
    assert!(cpu.halt);
    let pc = cpu.registers.PC;
    assert_eq!(cpu.tick(&mut bus), 1);
    assert_eq!(cpu.registers.PC, pc);
    bus.interrupt_handler.inte = 0x01;
    bus.interrupt_handler.intf = 0x01;
    assert!(!cpu.handle_interrupts(&mut bus));
    assert!(!cpu.halt);
}

#[test]
fn halt_does_not_halt_with_pending_interrupt() {
    let (mut cpu, mut bus) = machine(&[0x76]);
    bus.interrupt_handler.inte = 0x04;
    bus.interrupt_handler.intf = 0x04;
    cpu.tick(&mut bus);
    assert!(!cpu.halt);
}

#[test]
fn interrupt_dispatch_by_priority() {
    let (mut cpu, mut bus) = machine(&[0x00]);
    cpu.ime = true;
    bus.interrupt_handler.inte = 0x05;
    bus.interrupt_handler.intf = 0x05;
    assert!(cpu.handle_interrupts(&mut bus));
    assert_eq!(cpu.registers.PC, 0x0040);
    assert_eq!(cpu.registers.SP, 0xFFFC);
    assert!(!cpu.ime);
    assert_eq!(bus.interrupt_handler.intf & 0x01, 0);
    assert_eq!(bus.interrupt_handler.intf & 0x04, 0x04);
    assert_eq!(bus.read(0xFFFD), 0xC0);
    assert_eq!(bus.read(0xFFFC), 0x00);
}

#[test]
fn no_interrupt_without_enable() {
    let (mut cpu, mut bus) = machine(&[0x00]);
    cpu.ime = true;
    bus.interrupt_handler.inte = 0x00;
    bus.interrupt_handler.intf = 0x1F;
    assert!(!cpu.handle_interrupts(&mut bus));
    assert_eq!(cpu.registers.PC, 0xC000);
}

#[test]
fn illegal_opcode_hangs() {
    let (mut cpu, mut bus) = machine(&[0xD3, 0x00]);
    assert_eq!(cpu.tick(&mut bus), 1);
    assert!(cpu.locked);
    let pc = cpu.registers.PC;
    assert_eq!(cpu.tick(&mut bus), 1);
    assert_eq!(cpu.registers.PC, pc);
}

#[test]
fn stop_resets_divider() {
    let (mut cpu, mut bus) = machine(&[0x10, 0x00]);
    cpu.tick(&mut bus);
    assert_eq!(bus.timer.div, 0);
}

#[test]
fn cb_rotates_and_shifts() {
    let mut cpu = CPU::new();
    cpu.registers.F = 0x00;
    assert_eq!(cpu.rlc(0x85), 0x0B);
    assert!(cpu.registers.get_flag(Flag::Carry));
    assert_eq!(cpu.rrc(0x0B), 0x85);
    assert_eq!(cpu.swap(0xF1), 0x1F);
    assert!(!cpu.registers.get_flag(Flag::Carry));
    assert_eq!(cpu.sra(0x81), 0xC0);
    assert!(cpu.registers.get_flag(Flag::Carry));
    assert_eq!(cpu.srl(0x01), 0x00);
    assert!(cpu.registers.get_flag(Flag::Zero));
    assert_eq!(cpu.sla(0x80), 0x00);
    assert!(cpu.registers.get_flag(Flag::Carry));
    assert_eq!(cpu.rl(0x80), 0x01);
    assert_eq!(cpu.rr(0x00), 0x80);
}

#[test]
fn rotate_left_then_right_is_identity() {
    let mut cpu = CPU::new();
    for v in [0x00u8, 0x01, 0x5A, 0x80, 0xFF] {
        let l = cpu.rlc(v);
        assert_eq!(cpu.rrc(l), v);
        let s = cpu.swap(v);
        assert_eq!(cpu.swap(s), v);
    }
}

#[test]
fn subtraction_with_borrow() {
    let mut cpu = CPU::new();
    cpu.registers.A = 0x3E;
    cpu.sub_a(0x3F);
    assert_eq!(cpu.registers.A, 0xFF);
    assert_eq!(cpu.registers.F, 0x70);
    cpu.registers.A = 0x10;
    cpu.registers.F = 0x10;
    cpu.sbc_a(0x01);
    assert_eq!(cpu.registers.A, 0x0E);
    assert!(cpu.registers.get_flag(Flag::HalfCarry));
    assert!(!cpu.registers.get_flag(Flag::Carry));
}

#[test]
fn add_then_subtract_gives_back() {
    let mut cpu = CPU::new();
    for (a, b) in [(0x12u8, 0x34u8), (0xF0, 0x20), (0xFF, 0xFF)] {
        cpu.registers.A = a;
        cpu.add_a(b);
        cpu.sub_a(b);
        assert_eq!(cpu.registers.A, a);
    }
}

#[test]
fn compare_keeps_accumulator() {
    let mut cpu = CPU::new();
    cpu.registers.A = 0x42;
    cpu.cp_a(0x42);
    assert_eq!(cpu.registers.A, 0x42);
    assert!(cpu.registers.get_flag(Flag::Zero));
    assert!(cpu.registers.get_flag(Flag::Substraction));
}

#[test]
fn add_hl_half_carry_from_bit_11() {
    let mut cpu = CPU::new();
    cpu.registers.set_hl(0x0FFF);
    cpu.registers.set_bc(0x0001);
    cpu.registers.F = 0x80;
    cpu.add_hl(kevboy::cpu::registers::Regs::BC);
    assert_eq!(cpu.registers.get_hl(), 0x1000);
    assert_eq!(cpu.registers.F, 0xA0);
}

#[test]
fn half_carry_helpers() {
    let cpu = CPU::new();
    assert!(cpu._check_if_half_carry(0x0F, 0x01, false));
    assert!(!cpu._check_if_half_carry(0x0E, 0x01, false));
    assert!(cpu._check_if_half_carry(0x10, 0x01, true));
    assert!(cpu._check_if_half_carry_16(0x0FFF, 0x0001, false, false));
    assert!(cpu._check_if_carry_16(0x00FF, 0x0001, false));
}

#[test]
fn register_pairs_round_trip() {
    let mut r = Registers::new_dmg(0);
    r.set_bc(0xBEEF);
    assert_eq!(r.get_bc(), 0xBEEF);
    assert_eq!(r.B, 0xBE);
    assert_eq!(r.C, 0xEF);
    r.set_de(0x1234);
    assert_eq!(r.get_de(), 0x1234);
    r.set_hl(0xC0DE);
    assert_eq!(r.get_hl(), 0xC0DE);
    r.set_af(0xAB10);
    assert_eq!(r.get_af(), 0xAB10);
}

#[test]
fn flags_set_and_get() {
    let mut r = Registers::new_dmg(0);
    r.F = 0x00;
    r.set_flag(Flag::Carry, true);
    assert!(r.get_flag(Flag::Carry));
    assert!(!r.get_flag(Flag::Zero));
    r.set_flag(Flag::Zero, true);
    r.set_flag(Flag::Carry, false);
    assert!(r.get_flag(Flag::Zero));
    assert!(!r.get_flag(Flag::Carry));
    assert_eq!(r.F, 0x80);
}

#[test]
fn boot_registers() {
    let r = Registers::new_dmg(0);
    assert_eq!(r.F, 0x80);
    let r = Registers::new_dmg(0x42);
    assert_eq!(r.F, 0xB0);
    assert_eq!(r.get_af(), 0x01B0);
    assert_eq!(r.get_bc(), 0x0013);
    assert_eq!(r.get_de(), 0x00D8);
    assert_eq!(r.get_hl(), 0x014D);
    assert_eq!(r.SP, 0xFFFE);
    assert_eq!(r.PC, 0x0100);
    let c = Registers::new_cgb();
    assert_eq!(c.A, 0x11);
    assert_eq!(c.get_de(), 0xFF56);
}

#[test]
fn registers_from_test_state() {
    let s = State {
        pc: 0x1234,
        sp: 0xFFFE,
        a: 1,
        b: 2,
        c: 3,
        d: 4,
        e: 5,
        f: 0xB0,
        h: 6,
        l: 7,
        ime: empty(),
        ie: None,
        ram: vec![vec![0xC000, 0x12]],
    };
    let r: Registers = s.into();
    assert_eq!(r.PC, 0x1234);
    assert_eq!(r.get_bc(), 0x0203);
    assert_eq!(r.get_hl(), 0x0607);
    assert_eq!(r.F, 0xB0);
    assert_eq!(empty(), None);
}

#[test]
fn interrupt_request_and_reset() {
    let mut ih = InterruptHandler::default();
    ih.request_interrupt(Interrupt::Timer);
    assert!(ih.is_interrupt_requested(Interrupt::Timer));
    assert!(!ih.is_interrupt_requested(Interrupt::VBlank));
    assert_eq!(ih.intf & 0x04, 0x04);
    ih.reset_if(Interrupt::Timer);
    assert!(!ih.is_interrupt_requested(Interrupt::Timer));
    assert_eq!(Interrupt::Joypad.vector(), 0x60);
    assert_eq!(Interrupt::STAT.vector(), 0x48);
}

#[test]
fn enabled_interrupts_listed_in_order() {
    let mut ih = InterruptHandler::default();
    ih.inte = 0b10101;
    let e = ih.get_enabled_interrupts();
    assert!(matches!(e[0], Some(Interrupt::VBlank)));
    assert!(e[1].is_none());
    assert!(matches!(e[2], Some(Interrupt::Timer)));
    assert!(e[3].is_none());
    assert!(matches!(e[4], Some(Interrupt::Joypad)));
}

#[test]
fn daa_gives_the_bcd_sum_of_every_pair() {
    let bcd = |n: u32| -> u8 { ((n / 10) * 16 + n % 10) as u8 };
    // ADD A, y; DAA
    let (mut cpu, mut bus) = machine(&[0xC6, 0x00, 0x27]);
    for x in 0..100u32 {
        for y in 0..100u32 {
            bus.write(0xC001, bcd(y));
            cpu.registers.PC = 0xC000;
            cpu.registers.A = bcd(x);
            cpu.tick(&mut bus);
            cpu.tick(&mut bus);
            assert_eq!(cpu.registers.A, bcd((x + y) % 100));
            assert_eq!(cpu.registers.get_flag(Flag::Carry), x + y >= 100);
            assert_eq!(cpu.registers.get_flag(Flag::Zero), (x + y) % 100 == 0);
            assert!(!cpu.registers.get_flag(Flag::HalfCarry));
            assert!(!cpu.registers.get_flag(Flag::Substraction));
        }
    }
}

#[test]
fn single_step_case_runs_one_instruction() {
    // LD (HL), A at $C000 with HL = $C100
    let initial = State {
        pc: 0xC000,
        sp: 0xFFFE,
        a: 0x5A,
        b: 0,
        c: 0,
        d: 0,
        e: 0,
        f: 0xB0,
        h: 0xC1,
        l: 0x00,
        ime: empty(),
        ie: empty(),
        ram: vec![vec![0xC000, 0x77], vec![0xC100, 0x00]],
    };
    let after = run_case(&initial, &[0xC000, 0xC100]);
    assert_eq!(after.pc, 0xC001);
    assert_eq!(after.a, 0x5A);
    assert_eq!(after.f, 0xB0);
    assert_eq!(after.ime, None);
    assert_eq!(after.ram, vec![vec![0xC000, 0x77], vec![0xC100, 0x5A]]);
}
