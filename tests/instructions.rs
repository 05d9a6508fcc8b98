use gameboy_core::cpu::CPU;
use gameboy_core::memory::Memory;
use gameboy_core::mmu::MMU;
use gameboy_core::ppu::PPU;

fn fresh_cpu() -> CPU {
    CPU::new(MMU::new(PPU::new()))
}

fn assert_flags(cpu: &CPU, z: bool, n: bool, h: bool, c: bool) {
    let flags = cpu.registers.f;
    assert_eq!(flags.z(), z, "zero flag");
    assert_eq!(flags.n(), n, "subtract flag");
    assert_eq!(flags.h(), h, "half-carry flag");
    assert_eq!(flags.c(), c, "carry flag");
    assert_eq!(flags.0 & 0x0F, 0, "low nibble of F");
}

#[test]
fn test_inc() {
    let mut cpu = fresh_cpu();
    cpu.registers.a = 0x07;
    cpu.registers.a = cpu.inc(cpu.registers.a);
    assert_eq!(cpu.registers.a, 0x08);
    assert_flags(&cpu, false, false, false, false);
}

#[test]
fn test_inc_half_carry() {
    let mut cpu = fresh_cpu();
    cpu.registers.a = 0x0F;
    cpu.registers.a = cpu.inc(cpu.registers.a);
    assert_eq!(cpu.registers.a, 0x10);
    assert_flags(&cpu, false, false, true, false);
}

#[test]
fn test_inc_overflow() {
    let mut cpu = fresh_cpu();
    cpu.registers.a = 0xFF;
    cpu.registers.a = cpu.inc(cpu.registers.a);
    assert_eq!(cpu.registers.a, 0x00);
    assert_flags(&cpu, true, false, true, false);
}

#[test]
fn inc_keeps_carry() {
    let mut cpu = fresh_cpu();
    cpu.registers.a = 0xFF;
    cpu.registers.f.set_c(true);
    cpu.registers.a = cpu.inc(cpu.registers.a);
    assert_eq!(cpu.registers.a, 0x00);
    assert_flags(&cpu, true, false, true, true);
}

#[test]
fn inc_clears_zero_flag() {
    let mut cpu = fresh_cpu();
    cpu.registers.f.set_z(true);
    let r = cpu.inc(0x41);
    assert_eq!(r, 0x42);
    assert_flags(&cpu, false, false, false, false);
}

#[test]
fn test_dec() {
    let mut cpu = fresh_cpu();
    cpu.registers.a = 0x07;
    cpu.registers.a = cpu.dec(cpu.registers.a);
    assert_eq!(cpu.registers.a, 0x06);
    assert_flags(&cpu, false, true, false, false);
}

#[test]
fn test_dec_half_carry() {
    let mut cpu = fresh_cpu();
    cpu.registers.a = 0x80;
    cpu.registers.a = cpu.dec(cpu.registers.a);
    assert_eq!(cpu.registers.a, 0x7F);
    assert_flags(&cpu, false, true, true, false);
}

#[test]
fn test_dec_overflow() {
    let mut cpu = fresh_cpu();
    cpu.registers.a = 0x00;
    cpu.registers.a = cpu.dec(cpu.registers.a);
    assert_eq!(cpu.registers.a, 0xFF);
    assert_flags(&cpu, false, true, true, false);
}

#[test]
fn dec_to_zero() {
    let mut cpu = fresh_cpu();
    let r = cpu.dec(0x01);
    assert_eq!(r, 0x00);
    assert_flags(&cpu, true, true, false, false);
}

#[test]
fn inc_dec_round_trip_every_value() {
    for v in 0..=255u8 {
        let mut cpu = fresh_cpu();
        let d = cpu.dec(v);
        let back = cpu.inc(d);
        assert_eq!(back, v);
        assert_flags(&cpu, v == 0, false, v & 0x0F == 0, false);

        let mut cpu2 = fresh_cpu();
        cpu2.registers.f.set_c(true);
        let i = cpu2.inc(v);
        let back2 = cpu2.dec(i);
        assert_eq!(back2, v);
        assert_flags(&cpu2, v == 0, true, v & 0x0F == 0x0F, true);
    }
}

#[test]
fn add_scenario() {
    let mut cpu = fresh_cpu();
    cpu.registers.a = 0x3C;
    cpu.add(0x2F);
    assert_eq!(cpu.registers.a, 0x6B);
    assert_flags(&cpu, false, false, true, false);
}

#[test]
fn add_overflow_to_zero() {
    let mut cpu = fresh_cpu();
    cpu.registers.a = 0x80;
    cpu.add(0x80);
    assert_eq!(cpu.registers.a, 0x00);
    assert_flags(&cpu, true, false, false, true);
}

#[test]
fn adc_adds_carry_in() {
    let mut cpu = fresh_cpu();
    cpu.registers.a = 0xE1;
    cpu.registers.f.set_c(true);
    cpu.adc(0x0F);
    assert_eq!(cpu.registers.a, 0xF1);
    assert_flags(&cpu, false, false, true, false);

    cpu.registers.a = 0xFF;
    cpu.registers.f.set_c(true);
    cpu.adc(0x00);
    assert_eq!(cpu.registers.a, 0x00);
    assert_flags(&cpu, true, false, true, true);
}

#[test]
fn sub_borrow() {
    let mut cpu = fresh_cpu();
    cpu.registers.a = 0x3E;
    cpu.sub(0x3E);
    assert_eq!(cpu.registers.a, 0x00);
    assert_flags(&cpu, true, true, false, false);

    cpu.registers.a = 0x3E;
    cpu.sub(0x0F);
    assert_eq!(cpu.registers.a, 0x2F);
    assert_flags(&cpu, false, true, true, false);

    cpu.registers.a = 0x3E;
    cpu.sub(0x40);
    assert_eq!(cpu.registers.a, 0xFE);
    assert_flags(&cpu, false, true, false, true);
}

#[test]
fn sbc_subtracts_carry_in() {
    let mut cpu = fresh_cpu();
    cpu.registers.a = 0x3B;
    cpu.registers.f.set_c(true);
    cpu.sbc(0x2A);
    assert_eq!(cpu.registers.a, 0x10);
    assert_flags(&cpu, false, true, false, false);

    cpu.registers.a = 0x3B;
    cpu.registers.f.set_c(true);
    cpu.sbc(0x4F);
    assert_eq!(cpu.registers.a, 0xEB);
    assert_flags(&cpu, false, true, true, true);
}

#[test]
fn cp_keeps_a_and_matches_sub_flags() {
    for a in [0x00u8, 0x01, 0x3C, 0x80, 0xFF] {
        for v in [0x00u8, 0x01, 0x0F, 0x3C, 0x40, 0xFF] {
            let mut by_cp = fresh_cpu();
            by_cp.registers.a = a;
            by_cp.cp(v);
            let mut by_sub = fresh_cpu();
            by_sub.registers.a = a;
            by_sub.sub(v);
            assert_eq!(by_cp.registers.a, a);
            assert_eq!(by_cp.registers.f, by_sub.registers.f);
        }
    }
}

#[test]
fn logic_ops_set_all_flags() {
    let mut cpu = fresh_cpu();
    cpu.registers.f.set_z(true);
    cpu.registers.f.set_c(true);
    cpu.registers.a = 0x5A;
    cpu.and(0x3F);
    assert_eq!(cpu.registers.a, 0x1A);
    assert_flags(&cpu, false, false, true, false);

    cpu.and(0x00);
    assert_eq!(cpu.registers.a, 0x00);
    assert_flags(&cpu, true, false, true, false);

    cpu.or(0x00);
    assert_flags(&cpu, true, false, false, false);
    cpu.or(0x11);
    assert_eq!(cpu.registers.a, 0x11);
    assert_flags(&cpu, false, false, false, false);

    cpu.xor(0x11);
    assert_eq!(cpu.registers.a, 0x00);
    assert_flags(&cpu, true, false, false, false);
}

#[test]
fn daa_after_bcd_additions() {
    for x in 0..100u8 {
        for y in 0..100u8 {
            let mut cpu = fresh_cpu();
            cpu.registers.a = (x / 10) * 16 + x % 10;
            cpu.add((y / 10) * 16 + y % 10);
            cpu.daa();
            let sum = x as u16 + y as u16;
            let expected = sum % 100;
            assert_eq!(cpu.registers.a, ((expected / 10) * 16 + expected % 10) as u8);
            assert_eq!(cpu.registers.f.c(), sum >= 100);
            assert_eq!(cpu.registers.f.z(), expected == 0);
            assert!(!cpu.registers.f.h());
        }
    }
}

#[test]
fn daa_digit_sums() {
    let mut cpu = fresh_cpu();
    cpu.registers.a = 0x09;
    cpu.add(0x08);
    cpu.daa();
    assert_eq!(cpu.registers.a, 0x17);
    assert!(!cpu.registers.f.c());
}

#[test]
fn daa_after_subtraction() {
    let mut cpu = fresh_cpu();
    cpu.registers.a = 0x42;
    cpu.sub(0x15);
    cpu.daa();
    assert_eq!(cpu.registers.a, 0x27);
    assert!(!cpu.registers.f.c());
    assert!(cpu.registers.f.n());
}

#[test]
fn cpl_scf_ccf() {
    let mut cpu = fresh_cpu();
    cpu.registers.a = 0x35;
    cpu.cpl();
    assert_eq!(cpu.registers.a, 0xCA);
    assert_flags(&cpu, false, true, true, false);
    cpu.scf();
    assert_flags(&cpu, false, false, false, true);
    cpu.ccf();
    assert_flags(&cpu, false, false, false, false);
    cpu.ccf();
    assert_flags(&cpu, false, false, false, true);
}

#[test]
fn add16_hl_carries() {
    let mut cpu = fresh_cpu();
    cpu.registers.set_hl(0x8A23);
    cpu.registers.f.set_z(true);
    cpu.add16_hl(0x0605);
    assert_eq!(cpu.registers.hl(), 0x9028);
    assert_flags(&cpu, true, false, true, false);
    cpu.registers.set_hl(0x8A23);
    cpu.add16_hl(0x8A23);
    assert_eq!(cpu.registers.hl(), 0x1446);
    assert_flags(&cpu, true, false, true, true);
}

#[test]
fn add16_sp_sign_extends() {
    let mut cpu = fresh_cpu();
    cpu.registers.sp = 0xFFF8;
    cpu.add16_sp(0x02);
    assert_eq!(cpu.registers.sp, 0xFFFA);
    assert_flags(&cpu, false, false, false, false);
    cpu.add16_sp(0xFE);
    assert_eq!(cpu.registers.sp, 0xFFF8);
    assert_flags(&cpu, false, false, true, true);
}

#[test]
fn inc16_dec16_wrap() {
    let mut cpu = fresh_cpu();
    assert_eq!(cpu.inc16(0xFFFF), 0x0000);
    assert_eq!(cpu.dec16(0x0000), 0xFFFF);
    assert_eq!(cpu.inc16(0x1234), 0x1235);
}

#[test]
fn rotates_and_shifts() {
    let mut cpu = fresh_cpu();
    assert_eq!(cpu.rlc(0x85), 0x0B);
    assert_flags(&cpu, false, false, false, true);
    assert_eq!(cpu.rrc(0x01), 0x80);
    assert_flags(&cpu, false, false, false, true);
    cpu.registers.f.set_c(false);
    assert_eq!(cpu.rl(0x80), 0x00);
    assert_flags(&cpu, true, false, false, true);
    assert_eq!(cpu.rr(0x01), 0x80);
    assert_flags(&cpu, false, false, false, true);
    assert_eq!(cpu.sla(0xFF), 0xFE);
    assert_flags(&cpu, false, false, false, true);
    assert_eq!(cpu.sra(0x8A), 0xC5);
    assert_flags(&cpu, false, false, false, false);
    assert_eq!(cpu.srl(0x01), 0x00);
    assert_flags(&cpu, true, false, false, true);
    assert_eq!(cpu.swap(0xF0), 0x0F);
    assert_flags(&cpu, false, false, false, false);
    assert_eq!(cpu.swap(0x00), 0x00);
    assert_flags(&cpu, true, false, false, false);
}

#[test]
fn accumulator_rotates_clear_zero() {
    let mut cpu = fresh_cpu();
    cpu.registers.a = 0x80;
    cpu.rlca();
    assert_eq!(cpu.registers.a, 0x01);
    assert_flags(&cpu, false, false, false, true);
    cpu.registers.a = 0x00;
    cpu.rla();
    assert_eq!(cpu.registers.a, 0x01);
    assert_flags(&cpu, false, false, false, false);
    cpu.registers.a = 0x01;
    cpu.rrca();
    assert_eq!(cpu.registers.a, 0x80);
    assert_flags(&cpu, false, false, false, true);
    cpu.registers.a = 0x00;
    cpu.rra();
    assert_eq!(cpu.registers.a, 0x80);
    assert_flags(&cpu, false, false, false, false);
}

#[test]
fn bit_set_res() {
    let mut cpu = fresh_cpu();
    cpu.registers.f.set_c(true);
    cpu.bit(0x80, 7);
    assert_flags(&cpu, false, false, true, true);
    cpu.bit(0x80, 6);
    assert_flags(&cpu, true, false, true, true);
    assert_eq!(cpu.set(0x00, 3), 0x08);
    assert_eq!(cpu.res(0xFF, 0), 0xFE);
    assert_flags(&cpu, true, false, true, true);
}

#[test]
fn push_pop_scenario() {
    let mut cpu = fresh_cpu();
    cpu.registers.sp = 0xFFFE;
    cpu.push(0x1234);
    assert_eq!(cpu.registers.sp, 0xFFFC);
    assert_eq!(cpu.mmu.read_byte(0xFFFC), 0x34);
    assert_eq!(cpu.mmu.read_byte(0xFFFD), 0x12);
    assert_eq!(cpu.pop(), 0x1234);
    assert_eq!(cpu.registers.sp, 0xFFFE);
}

#[test]
fn push_pop_round_trip_values() {
    for x in [0x0000u16, 0x0001, 0x00FF, 0x1234, 0x8000, 0xFFFF] {
        for sp in [0xFFFEu16, 0xC100, 0x0001, 0x0000] {
            let mut cpu = fresh_cpu();
            cpu.registers.sp = sp;
            cpu.push(x);
            assert_eq!(cpu.pop(), x);
            assert_eq!(cpu.registers.sp, sp);
        }
    }
}

#[test]
fn jr_scenario() {
    // The offset byte sits at 0x00FF; once it is consumed PC is 0x0100,
    // and the offset -2 takes it to 0x00FE.
    let mut cpu = fresh_cpu();
    cpu.registers.pc = 0x00FF;
    cpu.mmu.write_byte(0x00FF, 0xFE);
    cpu.jr();
    assert_eq!(cpu.registers.pc, 0x00FE);
}

#[test]
fn jr_forward() {
    let mut cpu = fresh_cpu();
    cpu.registers.pc = 0x0200;
    cpu.mmu.write_byte(0x0200, 0x05);
    cpu.jr();
    assert_eq!(cpu.registers.pc, 0x0206);
}

#[test]
fn jp_call_ret_rst() {
    let mut cpu = fresh_cpu();
    cpu.registers.sp = 0xFFFE;
    cpu.registers.pc = 0x0150;
    cpu.mmu.write_word(0x0150, 0x4000);
    cpu.call();
    assert_eq!(cpu.registers.pc, 0x4000);
    assert_eq!(cpu.registers.sp, 0xFFFC);
    assert_eq!(cpu.mmu.read_word(0xFFFC), 0x0152);
    cpu.ret();
    assert_eq!(cpu.registers.pc, 0x0152);
    assert_eq!(cpu.registers.sp, 0xFFFE);

    cpu.mmu.write_word(0x0152, 0x1234);
    cpu.jp();
    assert_eq!(cpu.registers.pc, 0x1234);

    cpu.rst(0x0038);
    assert_eq!(cpu.registers.pc, 0x0038);
    assert_eq!(cpu.pop(), 0x1234);
}

#[test]
fn nop_changes_nothing() {
    let mut cpu = fresh_cpu();
    cpu.registers.a = 0x12;
    let before = cpu.registers;
    cpu.nop();
    assert_eq!(cpu.registers, before);
}
