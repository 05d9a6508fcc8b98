use gameboy_core::cpu::decode::{Instruction, Operand, AluOp, CbInstruction, ShiftOp};
use gameboy_core::cpu::{CpuError, ImeFlag, ImeFlagTimer, CPU};
use gameboy_core::memory::Memory;
use gameboy_core::mmu::MMU;
use gameboy_core::ppu::PPU;

/// A CPU at 0xC000 with `program` loaded there and the stack at 0xFFFE.
fn cpu_with(program: &[u8]) -> CPU {
    let mut cpu = CPU::new(MMU::new(PPU::new()));
    for (i, byte) in program.iter().enumerate() {
        cpu.mmu.write_byte(0xC000 + i as u16, *byte);
    }
    cpu.registers.pc = 0xC000;
    cpu.registers.sp = 0xFFFE;
    cpu
}

#[test]
fn new_cpu_is_zeroed_and_enabled() {
    let cpu = CPU::new(MMU::new(PPU::new()));
    assert_eq!(cpu.registers.pc, 0);
    assert_eq!(cpu.registers.sp, 0);
    assert_eq!(cpu.registers.a, 0);
    assert_eq!(cpu.registers.f.0, 0);
    assert!(cpu.interrupts_enabled());
    assert!(!cpu.halt);
    assert_eq!(ImeFlagTimer::new().flag, ImeFlag::Enabled);
}

#[test]
fn di_takes_effect_after_next_instruction() {
    let mut cpu = cpu_with(&[0xF3, 0x00, 0x00]);
    assert_eq!(cpu.step(), Ok(1));
    assert!(cpu.interrupts_enabled());
    assert_eq!(cpu.step(), Ok(1));
    assert!(!cpu.interrupts_enabled());
    assert_eq!(cpu.registers.pc, 0xC002);
}

#[test]
fn ei_takes_effect_after_next_instruction() {
    let mut cpu = cpu_with(&[0xF3, 0x00, 0xFB, 0x00, 0x00]);
    cpu.step().unwrap();
    cpu.step().unwrap();
    assert!(!cpu.interrupts_enabled());
    assert_eq!(cpu.step(), Ok(1));
    assert!(!cpu.interrupts_enabled());
    assert_eq!(cpu.step(), Ok(1));
    assert!(cpu.interrupts_enabled());
}

#[test]
fn reti_enables_at_once() {
    let mut cpu = cpu_with(&[0xF3, 0x00, 0xD9]);
    cpu.step().unwrap();
    cpu.step().unwrap();
    assert!(!cpu.interrupts_enabled());
    cpu.push(0x1234);
    assert_eq!(cpu.step(), Ok(4));
    assert!(cpu.interrupts_enabled());
    assert_eq!(cpu.registers.pc, 0x1234);
}

#[test]
fn ime_timer_transitions() {
    let mut t = ImeFlagTimer { flag: ImeFlag::WillEnable };
    assert!(!t.interrupts_enabled());
    t.tick();
    assert_eq!(t.flag, ImeFlag::Enabled);
    t.tick();
    assert_eq!(t.flag, ImeFlag::Enabled);
    let mut u = ImeFlagTimer { flag: ImeFlag::WillDisable };
    assert!(u.interrupts_enabled());
    u.tick();
    assert_eq!(u.flag, ImeFlag::Disabled);
    u.tick();
    assert_eq!(u.flag, ImeFlag::Disabled);
}

#[test]
fn undefined_opcodes_are_reported() {
    for op in [0x10u8, 0xD3, 0xDB, 0xDD, 0xE3, 0xE4, 0xEB, 0xEC, 0xED, 0xF4, 0xFC, 0xFD] {
        let mut cpu = cpu_with(&[op]);
        assert_eq!(cpu.step(), Err(CpuError::UnimplementedOpcode { opcode: op, pc: 0xC000 }));
        assert_eq!(Instruction::decode(op), None);
    }
}

#[test]
fn every_other_opcode_decodes() {
    let undefined = [0x10u8, 0xD3, 0xDB, 0xDD, 0xE3, 0xE4, 0xEB, 0xEC, 0xED, 0xF4, 0xFC, 0xFD];
    for op in 0..=255u8 {
        assert_eq!(Instruction::decode(op).is_some(), !undefined.contains(&op), "opcode {:#04x}", op);
    }
}

#[test]
fn decode_examples() {
    assert_eq!(Instruction::decode(0x41), Some(Instruction::Load(Operand::B, Operand::C)));
    assert_eq!(Instruction::decode(0x76), Some(Instruction::Halt));
    assert_eq!(Instruction::decode(0x9A), Some(Instruction::Alu(AluOp::Sbc, Operand::D)));
    assert_eq!(Instruction::decode(0xFE), Some(Instruction::AluImm(AluOp::Cp)));
    assert_eq!(Instruction::decode(0xFF), Some(Instruction::Rst(0x38)));
    assert_eq!(CbInstruction::decode(0x37), CbInstruction::Shift(ShiftOp::Swap, Operand::A));
    assert_eq!(CbInstruction::decode(0x7E), CbInstruction::TestBit(7, Operand::AtHl));
}

#[test]
fn halt_idles_without_fetching() {
    let mut cpu = cpu_with(&[0x76, 0x3C]);
    assert_eq!(cpu.step(), Ok(1));
    assert!(cpu.halt);
    let pc = cpu.registers.pc;
    assert_eq!(cpu.step(), Ok(1));
    assert_eq!(cpu.registers.pc, pc);
    assert_eq!(cpu.registers.a, 0);
    cpu.resume();
    assert_eq!(cpu.step(), Ok(1));
    assert_eq!(cpu.registers.a, 1);
}

#[test]
fn loads_and_cycles() {
    // LD B,0x12; LD C,B; LD HL,0xC100; LD (HL),C; LD A,(HL); LD (0xC102),A
    let mut cpu = cpu_with(&[0x06, 0x12, 0x48, 0x21, 0x00, 0xC1, 0x71, 0x7E, 0xEA, 0x02, 0xC1]);
    assert_eq!(cpu.step(), Ok(2));
    assert_eq!(cpu.registers.b, 0x12);
    assert_eq!(cpu.step(), Ok(1));
    assert_eq!(cpu.registers.c, 0x12);
    assert_eq!(cpu.step(), Ok(3));
    assert_eq!(cpu.registers.hl(), 0xC100);
    assert_eq!(cpu.step(), Ok(2));
    assert_eq!(cpu.mmu.read_byte(0xC100), 0x12);
    assert_eq!(cpu.step(), Ok(2));
    assert_eq!(cpu.registers.a, 0x12);
    assert_eq!(cpu.step(), Ok(4));
    assert_eq!(cpu.mmu.read_byte(0xC102), 0x12);
}

#[test]
fn hl_increment_and_decrement_stores() {
    // LD HL,0xC200; LD A,0x77; LD (HL+),A; LD (HL-),A
    let mut cpu = cpu_with(&[0x21, 0x00, 0xC2, 0x3E, 0x77, 0x22, 0x32]);
    for _ in 0..4 {
        cpu.step().unwrap();
    }
    assert_eq!(cpu.mmu.read_byte(0xC200), 0x77);
    assert_eq!(cpu.mmu.read_byte(0xC201), 0x77);
    assert_eq!(cpu.registers.hl(), 0xC200);
}

#[test]
fn conditional_jumps_charge_by_outcome() {
    // XOR A sets Z; JR NZ,+2 not taken (2); JR Z,+1 taken (3)
    let mut cpu = cpu_with(&[0xAF, 0x20, 0x02, 0x28, 0x01, 0x00, 0x00]);
    assert_eq!(cpu.step(), Ok(1));
    assert_eq!(cpu.step(), Ok(2));
    assert_eq!(cpu.registers.pc, 0xC003);
    assert_eq!(cpu.step(), Ok(3));
    assert_eq!(cpu.registers.pc, 0xC006);
}

#[test]
fn conditional_call_and_return() {
    // SCF; CALL C,0xC010 (6); at 0xC010: RET NC not taken (2); RET C taken (5)
    let mut program = vec![0x37, 0xDC, 0x10, 0xC0];
    program.resize(0x10, 0x00);
    program.extend_from_slice(&[0xD0, 0xD8]);
    let mut cpu = cpu_with(&program);
    assert_eq!(cpu.step(), Ok(1));
    assert_eq!(cpu.step(), Ok(6));
    assert_eq!(cpu.registers.pc, 0xC010);
    assert_eq!(cpu.step(), Ok(2));
    assert_eq!(cpu.step(), Ok(5));
    assert_eq!(cpu.registers.pc, 0xC004);
    assert_eq!(cpu.registers.sp, 0xFFFE);
}

#[test]
fn call_not_taken_skips_operand() {
    // AND A leaves C clear; CALL C,nn not taken (3)
    let mut cpu = cpu_with(&[0xA7, 0xDC, 0x10, 0xC0]);
    cpu.step().unwrap();
    assert_eq!(cpu.step(), Ok(3));
    assert_eq!(cpu.registers.pc, 0xC004);
    assert_eq!(cpu.registers.sp, 0xFFFE);
}

#[test]
fn push_pop_af_masks_low_nibble() {
    // LD BC,0x12FF; PUSH BC; POP AF; PUSH AF; POP DE
    let mut cpu = cpu_with(&[0x01, 0xFF, 0x12, 0xC5, 0xF1, 0xF5, 0xD1]);
    assert_eq!(cpu.step(), Ok(3));
    assert_eq!(cpu.step(), Ok(4));
    assert_eq!(cpu.step(), Ok(3));
    assert_eq!(cpu.registers.a, 0x12);
    assert_eq!(cpu.registers.f.0, 0xF0);
    assert_eq!(cpu.registers.af(), 0x12F0);
    assert_eq!(cpu.step(), Ok(4));
    assert_eq!(cpu.step(), Ok(3));
    assert_eq!(cpu.registers.de(), 0x12F0);
}

#[test]
fn sbc_opcodes_use_carry() {
    // SCF; LD A,0x10; LD B,0x01; SBC A,B
    let mut cpu = cpu_with(&[0x37, 0x3E, 0x10, 0x06, 0x01, 0x98]);
    for _ in 0..3 {
        cpu.step().unwrap();
    }
    assert_eq!(cpu.step(), Ok(1));
    assert_eq!(cpu.registers.a, 0x0E);
}

#[test]
fn high_page_loads() {
    // LD A,0x5A; LDH (0x80),A; LD C,0x80; LD A,0; LD A,(C); LDH A,(0x80)
    let mut cpu = cpu_with(&[0x3E, 0x5A, 0xE0, 0x80, 0x0E, 0x80, 0x3E, 0x00, 0xF2, 0xF0, 0x80]);
    cpu.step().unwrap();
    assert_eq!(cpu.step(), Ok(3));
    assert_eq!(cpu.mmu.read_byte(0xFF80), 0x5A);
    cpu.step().unwrap();
    cpu.step().unwrap();
    assert_eq!(cpu.step(), Ok(2));
    assert_eq!(cpu.registers.a, 0x5A);
    assert_eq!(cpu.step(), Ok(3));
    assert_eq!(cpu.registers.a, 0x5A);
}

#[test]
fn stack_pointer_loads() {
    // LD SP,0xFFF8; LD HL,SP+2; LD SP,HL; ADD SP,-8; LD (0xC100),SP
    let mut cpu = cpu_with(&[0x31, 0xF8, 0xFF, 0xF8, 0x02, 0xF9, 0xE8, 0xF8, 0x08, 0x00, 0xC1]);
    assert_eq!(cpu.step(), Ok(3));
    assert_eq!(cpu.step(), Ok(3));
    assert_eq!(cpu.registers.hl(), 0xFFFA);
    assert_eq!(cpu.step(), Ok(2));
    assert_eq!(cpu.registers.sp, 0xFFFA);
    assert_eq!(cpu.step(), Ok(4));
    assert_eq!(cpu.registers.sp, 0xFFF2);
    assert_eq!(cpu.step(), Ok(5));
    assert_eq!(cpu.mmu.read_word(0xC100), 0xFFF2);
}

#[test]
fn inc_at_hl_and_rst() {
    // LD HL,0xC100; INC (HL); DEC (HL); DEC (HL); RST 0x28
    let mut cpu = cpu_with(&[0x21, 0x00, 0xC1, 0x34, 0x35, 0x35, 0xEF]);
    cpu.step().unwrap();
    assert_eq!(cpu.step(), Ok(3));
    assert_eq!(cpu.mmu.read_byte(0xC100), 1);
    assert_eq!(cpu.step(), Ok(3));
    assert!(cpu.registers.f.z());
    assert_eq!(cpu.step(), Ok(3));
    assert_eq!(cpu.mmu.read_byte(0xC100), 0xFF);
    assert_eq!(cpu.step(), Ok(4));
    assert_eq!(cpu.registers.pc, 0x0028);
    assert_eq!(cpu.pop(), 0xC007);
}

#[test]
fn cb_prefixed_instructions() {
    // LD A,0x0F; SWAP A; LD HL,0xC100; SET 7,(HL); BIT 7,(HL); RES 7,(HL); SRL A
    let mut cpu = cpu_with(&[
        0x3E, 0x0F, 0xCB, 0x37, 0x21, 0x00, 0xC1, 0xCB, 0xFE, 0xCB, 0x7E, 0xCB, 0xBE, 0xCB, 0x3F,
    ]);
    cpu.step().unwrap();
    assert_eq!(cpu.step(), Ok(2));
    assert_eq!(cpu.registers.a, 0xF0);
    cpu.step().unwrap();
    assert_eq!(cpu.step(), Ok(4));
    assert_eq!(cpu.mmu.read_byte(0xC100), 0x80);
    assert_eq!(cpu.step(), Ok(3));
    assert!(!cpu.registers.f.z());
    assert_eq!(cpu.step(), Ok(4));
    assert_eq!(cpu.mmu.read_byte(0xC100), 0x00);
    assert_eq!(cpu.step(), Ok(2));
    assert_eq!(cpu.registers.a, 0x78);
}

#[test]
fn execute_cb_on_registers() {
    let mut cpu = cpu_with(&[]);
    cpu.registers.b = 0x81;
    assert_eq!(cpu.execute_cb(0x00), 2);
    assert_eq!(cpu.registers.b, 0x03);
    assert!(cpu.registers.f.c());
    assert_eq!(cpu.execute_cb(0xC1), 2);
    assert_eq!(cpu.registers.c, 0x01);
}

#[test]
fn execute_base_opcode() {
    let mut cpu = cpu_with(&[]);
    cpu.registers.a = 0x3C;
    cpu.registers.b = 0x2F;
    assert_eq!(cpu.execute(0x80), Ok(1));
    assert_eq!(cpu.registers.a, 0x6B);
    assert_eq!(cpu.execute(0x2F), Ok(1));
    assert_eq!(cpu.registers.a, 0x94);
}
