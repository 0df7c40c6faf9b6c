use rusty_boy::cpu::state::{DecodeError, CPU};
use rusty_boy::memory::MMU;

/// A bus whose cartridge holds `program` at `origin` and zeros elsewhere.
fn bus_with(origin: u16, program: &[u8]) -> MMU {
    let mut rom = vec![0u8; 0x8000];
    for (i, byte) in program.iter().enumerate() {
        rom[origin as usize + i] = *byte;
    }
    let mut mmu = MMU::new();
    mmu.load(rom);
    mmu
}

fn cpu_at(pc: u16) -> CPU {
    let mut cpu = CPU::new();
    cpu.pc = pc;
    cpu.sp = 0xFFFE;
    cpu
}

#[test]
fn flag_accurate_add() {
    let mut mmu = bus_with(0, &[0x80]);
    let mut cpu = cpu_at(0);
    cpu.a = 0x3A;
    cpu.b = 0xC6;
    let cycles = cpu.step(&mut mmu);
    assert_eq!(cycles, Ok(4));
    assert_eq!(cpu.a, 0x00);
    assert_eq!(cpu.f, 0b1011_0000);
}

#[test]
fn daa_after_addition() {
    let mut mmu = bus_with(0, &[0xC6, 0x38, 0x27]);
    let mut cpu = cpu_at(0);
    cpu.a = 0x45;
    assert_eq!(cpu.step(&mut mmu), Ok(8));
    assert_eq!(cpu.a, 0x7D);
    assert_eq!(cpu.step(&mut mmu), Ok(4));
    assert_eq!(cpu.a, 0x83);
    assert_eq!(cpu.f, 0x00);
}

#[test]
fn daa_after_subtraction() {
    // 0x42 - 0x09 = 0x39 in binary, 33 in decimal.
    let mut mmu = bus_with(0, &[0xD6, 0x09, 0x27]);
    let mut cpu = cpu_at(0);
    cpu.a = 0x42;
    cpu.step(&mut mmu).unwrap();
    assert_eq!(cpu.a, 0x39);
    assert_eq!(cpu.f, 0x60);
    cpu.step(&mut mmu).unwrap();
    assert_eq!(cpu.a, 0x33);
    assert_eq!(cpu.f, 0x40);
}

#[test]
fn daa_sets_carry_above_99() {
    // 0x99 + 0x01 = 0x9A, adjusted to 0x00 with carry.
    let mut mmu = bus_with(0, &[0xC6, 0x01, 0x27]);
    let mut cpu = cpu_at(0);
    cpu.a = 0x99;
    cpu.step(&mut mmu).unwrap();
    cpu.step(&mut mmu).unwrap();
    assert_eq!(cpu.a, 0x00);
    assert_eq!(cpu.f, 0x90);
}

#[test]
fn signed_relative_jump() {
    let mut mmu = bus_with(0x0200, &[0x18, 0xFE]);
    let mut cpu = cpu_at(0x0200);
    assert_eq!(cpu.step(&mut mmu), Ok(12));
    assert_eq!(cpu.pc, 0x0200);
}

#[test]
fn relative_jump_forward() {
    let mut mmu = bus_with(0x0200, &[0x18, 0x05]);
    let mut cpu = cpu_at(0x0200);
    assert_eq!(cpu.step(&mut mmu), Ok(12));
    assert_eq!(cpu.pc, 0x0207);
}

#[test]
fn stack_round_trip() {
    let mut mmu = bus_with(0, &[0x01, 0xEF, 0xBE, 0xC5, 0xD1]);
    let mut cpu = cpu_at(0);
    assert_eq!(cpu.step(&mut mmu), Ok(12));
    assert_eq!((cpu.b, cpu.c), (0xBE, 0xEF));
    assert_eq!(cpu.step(&mut mmu), Ok(16));
    assert_eq!(cpu.sp, 0xFFFC);
    assert_eq!(mmu.read_byte(0xFFFD), 0xBE);
    assert_eq!(mmu.read_byte(0xFFFC), 0xEF);
    assert_eq!(cpu.step(&mut mmu), Ok(12));
    assert_eq!((cpu.d, cpu.e), (0xBE, 0xEF));
    assert_eq!(cpu.sp, 0xFFFE);
}

#[test]
fn stack_pointer_wraps() {
    let mut mmu = bus_with(0, &[0xC5, 0xC1]);
    let mut cpu = cpu_at(0);
    cpu.sp = 0x0001;
    cpu.b = 0x12;
    cpu.c = 0x34;
    cpu.step(&mut mmu).unwrap();
    assert_eq!(cpu.sp, 0xFFFF);
    // The high byte went to 0x0000, which is cartridge; the low byte to
    // the interrupt enable register.
    assert_eq!(mmu.read_byte(0xFFFF), 0x34);
    cpu.step(&mut mmu).unwrap();
    assert_eq!(cpu.sp, 0x0001);
    assert_eq!(cpu.c, 0x34);
    assert_eq!(cpu.b, 0xC5);
}

#[test]
fn add_then_sub_restores_a() {
    for a in [0x00u8, 0x01, 0x0F, 0x3A, 0x80, 0xFF] {
        for n in [0x00u8, 0x01, 0x0F, 0xC6, 0xFF] {
            let mut mmu = bus_with(0, &[0xC6, n, 0xD6, n]);
            let mut cpu = cpu_at(0);
            cpu.a = a;
            cpu.step(&mut mmu).unwrap();
            cpu.step(&mut mmu).unwrap();
            assert_eq!(cpu.a, a);
            assert_eq!(cpu.f & 0x40, 0x40);
        }
    }
}

#[test]
fn xor_a_clears_a() {
    for a in [0x00u8, 0x5A, 0xFF] {
        let mut mmu = bus_with(0, &[0xAF]);
        let mut cpu = cpu_at(0);
        cpu.a = a;
        cpu.f = 0x70;
        assert_eq!(cpu.step(&mut mmu), Ok(4));
        assert_eq!(cpu.a, 0);
        assert_eq!(cpu.f, 0x80);
    }
}

#[test]
fn operations_of_a_with_itself() {
    // SUB A, AND A, OR A, CP A
    let mut mmu = bus_with(0, &[0x97, 0xA7, 0xB7, 0xBF]);
    let mut cpu = cpu_at(0);
    cpu.a = 0x5A;
    cpu.step(&mut mmu).unwrap();
    assert_eq!((cpu.a, cpu.f), (0x00, 0xC0));
    cpu.a = 0x5A;
    cpu.step(&mut mmu).unwrap();
    assert_eq!((cpu.a, cpu.f), (0x5A, 0x20));
    cpu.step(&mut mmu).unwrap();
    assert_eq!((cpu.a, cpu.f), (0x5A, 0x00));
    cpu.step(&mut mmu).unwrap();
    assert_eq!((cpu.a, cpu.f), (0x5A, 0xC0));
}

#[test]
fn adc_and_sbc_use_the_carry() {
    // SCF; ADC A,0x0F; SCF; SBC A,0x10
    let mut mmu = bus_with(0, &[0x37, 0xCE, 0x0F, 0x37, 0xDE, 0x10]);
    let mut cpu = cpu_at(0);
    cpu.a = 0xF0;
    cpu.step(&mut mmu).unwrap();
    assert_eq!(cpu.f, 0x10);
    cpu.step(&mut mmu).unwrap();
    // 0xF0 + 0x0F + 1 = 0x100
    assert_eq!((cpu.a, cpu.f), (0x00, 0xB0));
    cpu.step(&mut mmu).unwrap();
    cpu.step(&mut mmu).unwrap();
    // 0x00 - 0x10 - 1 = -0x11
    assert_eq!((cpu.a, cpu.f), (0xEF, 0x70));
}

#[test]
fn compare_sets_flags_only() {
    let mut mmu = bus_with(0, &[0xFE, 0x40, 0xFE, 0x3C, 0xFE, 0x2F]);
    let mut cpu = cpu_at(0);
    cpu.a = 0x3C;
    cpu.step(&mut mmu).unwrap();
    assert_eq!((cpu.a, cpu.f), (0x3C, 0x50));
    cpu.step(&mut mmu).unwrap();
    assert_eq!((cpu.a, cpu.f), (0x3C, 0xC0));
    cpu.step(&mut mmu).unwrap();
    assert_eq!((cpu.a, cpu.f), (0x3C, 0x60));
}

#[test]
fn increment_keeps_carry() {
    // INC B from 0x0F, INC B from 0xFF, DEC B from 0x10, DEC B from 0x01
    let mut mmu = bus_with(0, &[0x04, 0x04, 0x05, 0x05]);
    let mut cpu = cpu_at(0);
    cpu.f = 0x10;
    cpu.b = 0x0F;
    assert_eq!(cpu.step(&mut mmu), Ok(4));
    assert_eq!((cpu.b, cpu.f), (0x10, 0x30));
    cpu.b = 0xFF;
    cpu.step(&mut mmu).unwrap();
    assert_eq!((cpu.b, cpu.f), (0x00, 0xB0));
    cpu.b = 0x10;
    cpu.step(&mut mmu).unwrap();
    assert_eq!((cpu.b, cpu.f), (0x0F, 0x70));
    cpu.b = 0x01;
    cpu.step(&mut mmu).unwrap();
    assert_eq!((cpu.b, cpu.f), (0x00, 0xD0));
}

#[test]
fn increment_through_hl() {
    let mut mmu = bus_with(0, &[0x34, 0x35, 0x35]);
    let mut cpu = cpu_at(0);
    cpu.h = 0xC0;
    cpu.l = 0x10;
    mmu.write_byte(0xC010, 0x0F);
    assert_eq!(cpu.step(&mut mmu), Ok(12));
    assert_eq!(mmu.read_byte(0xC010), 0x10);
    assert_eq!(cpu.f, 0x20);
    assert_eq!(cpu.step(&mut mmu), Ok(12));
    assert_eq!(mmu.read_byte(0xC010), 0x0F);
    assert_eq!(cpu.f, 0x60);
    mmu.write_byte(0xC010, 0x01);
    cpu.step(&mut mmu).unwrap();
    assert_eq!(mmu.read_byte(0xC010), 0x00);
    assert_eq!(cpu.f, 0xC0);
}

#[test]
fn add_hl_keeps_zero_flag() {
    // ADD HL,BC
    let mut mmu = bus_with(0, &[0x09, 0x09]);
    let mut cpu = cpu_at(0);
    cpu.f = 0x80;
    cpu.h = 0x8A;
    cpu.l = 0x23;
    cpu.b = 0x06;
    cpu.c = 0x05;
    assert_eq!(cpu.step(&mut mmu), Ok(8));
    assert_eq!((cpu.h, cpu.l), (0x90, 0x28));
    assert_eq!(cpu.f, 0xA0);
    cpu.h = 0xFF;
    cpu.l = 0xFF;
    cpu.b = 0x00;
    cpu.c = 0x01;
    cpu.step(&mut mmu).unwrap();
    assert_eq!((cpu.h, cpu.l), (0x00, 0x00));
    assert_eq!(cpu.f, 0xB0);
}

#[test]
fn add_sp_uses_the_low_byte_for_flags() {
    // ADD SP,-1 from 0x0001: the result is 0x0000; 0x01 + 0xFF carries out
    // of bit 3 and out of bit 7.
    let mut mmu = bus_with(0, &[0xE8, 0xFF, 0xE8, 0x01, 0xE8, 0x10]);
    let mut cpu = cpu_at(0);
    cpu.sp = 0x0001;
    cpu.f = 0xC0;
    assert_eq!(cpu.step(&mut mmu), Ok(16));
    assert_eq!(cpu.sp, 0x0000);
    assert_eq!(cpu.f, 0x30);
    // ADD SP,+1 from 0x00FF: carries out of bit 3 and bit 7 of the low
    // byte, though the 16-bit sum does not overflow.
    cpu.sp = 0x00FF;
    cpu.step(&mut mmu).unwrap();
    assert_eq!(cpu.sp, 0x0100);
    assert_eq!(cpu.f, 0x30);
    // ADD SP,+0x10 from 0xFFF0: the 16-bit sum wraps, and so does the low
    // byte.
    cpu.sp = 0xFFF0;
    cpu.step(&mut mmu).unwrap();
    assert_eq!(cpu.sp, 0x0000);
    assert_eq!(cpu.f, 0x10);
}

#[test]
fn ld_hl_sp_offset() {
    let mut mmu = bus_with(0, &[0xF8, 0xFE, 0xF8, 0x08]);
    let mut cpu = cpu_at(0);
    cpu.sp = 0xFFF8;
    assert_eq!(cpu.step(&mut mmu), Ok(12));
    assert_eq!((cpu.h, cpu.l), (0xFF, 0xF6));
    assert_eq!(cpu.sp, 0xFFF8);
    // 0xF8 + 0xFE: carry out of bit 3 (8 + 14) and out of bit 7.
    assert_eq!(cpu.f, 0x30);
    cpu.step(&mut mmu).unwrap();
    assert_eq!((cpu.h, cpu.l), (0x00, 0x00));
    assert_eq!(cpu.f, 0x30);
}

#[test]
fn accumulator_rotates_clear_zero() {
    // RLCA, RRCA, RLA, RRA
    let mut mmu = bus_with(0, &[0x07, 0x0F, 0x17, 0x1F]);
    let mut cpu = cpu_at(0);
    cpu.a = 0x80;
    cpu.f = 0x80;
    assert_eq!(cpu.step(&mut mmu), Ok(4));
    assert_eq!((cpu.a, cpu.f), (0x01, 0x10));
    cpu.step(&mut mmu).unwrap();
    assert_eq!((cpu.a, cpu.f), (0x80, 0x10));
    cpu.step(&mut mmu).unwrap();
    // 0x80 rotated left through a set carry: 0x01, carry set.
    assert_eq!((cpu.a, cpu.f), (0x01, 0x10));
    cpu.a = 0x00;
    cpu.f = 0x00;
    cpu.step(&mut mmu).unwrap();
    // The result is zero, yet the zero flag stays clear.
    assert_eq!((cpu.a, cpu.f), (0x00, 0x00));
}

#[test]
fn complement_and_carry_flags() {
    // CPL, SCF, CCF, CCF
    let mut mmu = bus_with(0, &[0x2F, 0x37, 0x3F, 0x3F]);
    let mut cpu = cpu_at(0);
    cpu.a = 0x35;
    cpu.f = 0x80;
    cpu.step(&mut mmu).unwrap();
    assert_eq!((cpu.a, cpu.f), (0xCA, 0xE0));
    cpu.step(&mut mmu).unwrap();
    assert_eq!(cpu.f, 0x90);
    cpu.step(&mut mmu).unwrap();
    assert_eq!(cpu.f, 0x80);
    cpu.step(&mut mmu).unwrap();
    assert_eq!(cpu.f, 0x90);
}

#[test]
fn prefixed_rotates_and_shifts() {
    // RLC B, RRC C, RL D, RR E, SLA H, SRA L, SWAP A, SRL A
    let mut mmu = bus_with(
        0,
        &[
            0xCB, 0x00, 0xCB, 0x09, 0xCB, 0x12, 0xCB, 0x1B, 0xCB, 0x24, 0xCB, 0x2D, 0xCB, 0x37,
            0xCB, 0x3F,
        ],
    );
    let mut cpu = cpu_at(0);
    cpu.b = 0x85;
    assert_eq!(cpu.step(&mut mmu), Ok(8));
    assert_eq!((cpu.b, cpu.f), (0x0B, 0x10));
    cpu.c = 0x01;
    cpu.step(&mut mmu).unwrap();
    assert_eq!((cpu.c, cpu.f), (0x80, 0x10));
    cpu.d = 0x80;
    cpu.f = 0x00;
    cpu.step(&mut mmu).unwrap();
    assert_eq!((cpu.d, cpu.f), (0x00, 0x90));
    cpu.e = 0x01;
    cpu.f = 0x00;
    cpu.step(&mut mmu).unwrap();
    assert_eq!((cpu.e, cpu.f), (0x00, 0x90));
    cpu.h = 0xFF;
    cpu.step(&mut mmu).unwrap();
    assert_eq!((cpu.h, cpu.f), (0xFE, 0x10));
    cpu.l = 0x81;
    cpu.step(&mut mmu).unwrap();
    assert_eq!((cpu.l, cpu.f), (0xC0, 0x10));
    cpu.a = 0xF1;
    cpu.step(&mut mmu).unwrap();
    assert_eq!((cpu.a, cpu.f), (0x1F, 0x00));
    cpu.a = 0x01;
    cpu.step(&mut mmu).unwrap();
    assert_eq!((cpu.a, cpu.f), (0x00, 0x90));
}

#[test]
fn prefixed_bit_operations() {
    // BIT 7,H; BIT 0,A; RES 3,B; SET 6,C; SET 1,(HL); BIT 1,(HL)
    let mut mmu = bus_with(
        0,
        &[0xCB, 0x7C, 0xCB, 0x47, 0xCB, 0x98, 0xCB, 0xF1, 0xCB, 0xCE, 0xCB, 0x4E],
    );
    let mut cpu = cpu_at(0);
    cpu.h = 0x80;
    cpu.f = 0x10;
    assert_eq!(cpu.step(&mut mmu), Ok(8));
    assert_eq!(cpu.f, 0x30);
    cpu.a = 0xFE;
    cpu.step(&mut mmu).unwrap();
    assert_eq!(cpu.f, 0xB0);
    cpu.b = 0xFF;
    cpu.step(&mut mmu).unwrap();
    assert_eq!((cpu.b, cpu.f), (0xF7, 0xB0));
    cpu.c = 0x00;
    cpu.step(&mut mmu).unwrap();
    assert_eq!(cpu.c, 0x40);
    cpu.h = 0xC1;
    cpu.l = 0x00;
    assert_eq!(cpu.step(&mut mmu), Ok(16));
    assert_eq!(mmu.read_byte(0xC100), 0x02);
    assert_eq!(cpu.step(&mut mmu), Ok(12));
    assert_eq!(cpu.f, 0x30);
}

#[test]
fn loads_between_registers_and_memory() {
    // LD B,0x12; LD C,B; LD HL,0xC000; LD (HL),C; LD A,(HL); LD (HL+),A;
    // LD (HL-),A; LD A,(HL+); LD (HL),0x77; LD E,(HL)
    let mut mmu = bus_with(
        0,
        &[
            0x06, 0x12, 0x48, 0x21, 0x00, 0xC0, 0x71, 0x7E, 0x22, 0x32, 0x2A, 0x36, 0x77, 0x5E,
        ],
    );
    let mut cpu = cpu_at(0);
    assert_eq!(cpu.step(&mut mmu), Ok(8));
    assert_eq!(cpu.step(&mut mmu), Ok(4));
    assert_eq!(cpu.c, 0x12);
    assert_eq!(cpu.step(&mut mmu), Ok(12));
    assert_eq!(cpu.step(&mut mmu), Ok(8));
    assert_eq!(mmu.read_byte(0xC000), 0x12);
    assert_eq!(cpu.step(&mut mmu), Ok(8));
    assert_eq!(cpu.a, 0x12);
    assert_eq!(cpu.step(&mut mmu), Ok(8));
    assert_eq!((cpu.h, cpu.l), (0xC0, 0x01));
    assert_eq!(cpu.step(&mut mmu), Ok(8));
    assert_eq!(mmu.read_byte(0xC001), 0x12);
    assert_eq!((cpu.h, cpu.l), (0xC0, 0x00));
    cpu.a = 0;
    assert_eq!(cpu.step(&mut mmu), Ok(8));
    assert_eq!(cpu.a, 0x12);
    assert_eq!((cpu.h, cpu.l), (0xC0, 0x01));
    assert_eq!(cpu.step(&mut mmu), Ok(12));
    assert_eq!(mmu.read_byte(0xC001), 0x77);
    assert_eq!(cpu.step(&mut mmu), Ok(8));
    assert_eq!(cpu.e, 0x77);
}

#[test]
fn loads_through_page_ff_and_absolute() {
    // LDH (0x80),A; LDH A,(0x80); LD (C),A; LD A,(C); LD (0xC123),A;
    // LD A,(0xC123); LD (0xC200),SP
    let mut mmu = bus_with(
        0,
        &[
            0xE0, 0x80, 0xF0, 0x80, 0xE2, 0xF2, 0xEA, 0x23, 0xC1, 0xFA, 0x23, 0xC1, 0x08, 0x00,
            0xC2,
        ],
    );
    let mut cpu = cpu_at(0);
    cpu.a = 0x5C;
    assert_eq!(cpu.step(&mut mmu), Ok(12));
    assert_eq!(mmu.read_byte(0xFF80), 0x5C);
    cpu.a = 0;
    assert_eq!(cpu.step(&mut mmu), Ok(12));
    assert_eq!(cpu.a, 0x5C);
    cpu.c = 0x81;
    assert_eq!(cpu.step(&mut mmu), Ok(8));
    assert_eq!(mmu.read_byte(0xFF81), 0x5C);
    cpu.a = 0;
    assert_eq!(cpu.step(&mut mmu), Ok(8));
    assert_eq!(cpu.a, 0x5C);
    assert_eq!(cpu.step(&mut mmu), Ok(16));
    assert_eq!(mmu.read_byte(0xC123), 0x5C);
    cpu.a = 0;
    assert_eq!(cpu.step(&mut mmu), Ok(16));
    assert_eq!(cpu.a, 0x5C);
    cpu.sp = 0xABCD;
    assert_eq!(cpu.step(&mut mmu), Ok(20));
    assert_eq!(mmu.read_byte(0xC200), 0xCD);
    assert_eq!(mmu.read_byte(0xC201), 0xAB);
}

#[test]
fn conditional_branches_count_cycles() {
    // JR NZ (taken), JR Z (not taken), JP C (not taken), JP NC (taken)
    let mut mmu = bus_with(0, &[0x20, 0x02, 0x00, 0x00, 0x28, 0x10, 0xDA, 0x00, 0x10, 0xD2, 0x00, 0x20]);
    let mut cpu = cpu_at(0);
    assert_eq!(cpu.step(&mut mmu), Ok(12));
    assert_eq!(cpu.pc, 0x0004);
    assert_eq!(cpu.step(&mut mmu), Ok(8));
    assert_eq!(cpu.pc, 0x0006);
    assert_eq!(cpu.step(&mut mmu), Ok(12));
    assert_eq!(cpu.pc, 0x0009);
    assert_eq!(cpu.step(&mut mmu), Ok(16));
    assert_eq!(cpu.pc, 0x2000);
}

#[test]
fn calls_and_returns_count_cycles() {
    // 0x0000: CALL Z,0x0010 (not taken); CALL NZ,0x0010 (taken)
    // 0x0010: RET Z (not taken); RET NZ (taken)
    let mut rom = vec![0u8; 0x8000];
    rom[0..6].copy_from_slice(&[0xCC, 0x10, 0x00, 0xC4, 0x10, 0x00]);
    rom[0x10..0x12].copy_from_slice(&[0xC8, 0xC0]);
    let mut mmu = MMU::new();
    mmu.load(rom);
    let mut cpu = cpu_at(0);
    assert_eq!(cpu.step(&mut mmu), Ok(12));
    assert_eq!(cpu.pc, 0x0003);
    assert_eq!(cpu.step(&mut mmu), Ok(24));
    assert_eq!(cpu.pc, 0x0010);
    assert_eq!(cpu.sp, 0xFFFC);
    assert_eq!(mmu.rw(0xFFFC), 0x0006);
    assert_eq!(cpu.step(&mut mmu), Ok(8));
    assert_eq!(cpu.pc, 0x0011);
    assert_eq!(cpu.step(&mut mmu), Ok(20));
    assert_eq!(cpu.pc, 0x0006);
    assert_eq!(cpu.sp, 0xFFFE);
}

#[test]
fn call_ret_and_reti() {
    // 0x0000: CALL 0x0020; 0x0020: RET; 0x0003: CALL 0x0030; 0x0030: RETI
    let mut rom = vec![0u8; 0x8000];
    rom[0..6].copy_from_slice(&[0xCD, 0x20, 0x00, 0xCD, 0x30, 0x00]);
    rom[0x20] = 0xC9;
    rom[0x30] = 0xD9;
    let mut mmu = MMU::new();
    mmu.load(rom);
    let mut cpu = cpu_at(0);
    assert_eq!(cpu.step(&mut mmu), Ok(24));
    assert_eq!(cpu.pc, 0x0020);
    assert_eq!(cpu.step(&mut mmu), Ok(16));
    assert_eq!(cpu.pc, 0x0003);
    assert_eq!(cpu.step(&mut mmu), Ok(24));
    assert!(!cpu.ime);
    assert_eq!(cpu.step(&mut mmu), Ok(16));
    assert_eq!(cpu.pc, 0x0006);
    assert!(cpu.ime);
}

#[test]
fn restarts_enter_their_vectors() {
    let opcodes = [0xC7u8, 0xCF, 0xD7, 0xDF, 0xE7, 0xEF, 0xF7, 0xFF];
    for (i, opcode) in opcodes.iter().enumerate() {
        let mut mmu = bus_with(0x0150, &[*opcode]);
        let mut cpu = cpu_at(0x0150);
        assert_eq!(cpu.step(&mut mmu), Ok(16));
        assert_eq!(cpu.pc, 8 * i as u16);
        assert_eq!(mmu.rw(cpu.sp), 0x0151);
    }
}

#[test]
fn jp_hl_and_ld_sp_hl() {
    let mut mmu = bus_with(0, &[0xF9, 0xE9]);
    let mut cpu = cpu_at(0);
    cpu.h = 0x12;
    cpu.l = 0x34;
    assert_eq!(cpu.step(&mut mmu), Ok(8));
    assert_eq!(cpu.sp, 0x1234);
    assert_eq!(cpu.step(&mut mmu), Ok(4));
    assert_eq!(cpu.pc, 0x1234);
}

#[test]
fn pop_af_clears_the_low_nibble() {
    let mut mmu = bus_with(0, &[0xF1, 0xF5]);
    let mut cpu = cpu_at(0);
    cpu.sp = 0xC000;
    mmu.ww(0xC000, 0x12FF);
    assert_eq!(cpu.step(&mut mmu), Ok(12));
    assert_eq!((cpu.a, cpu.f), (0x12, 0xF0));
    assert_eq!(cpu.step(&mut mmu), Ok(16));
    assert_eq!(mmu.rw(0xC000), 0x12F0);
}

#[test]
fn every_defined_opcode_takes_a_positive_multiple_of_four() {
    let undefined = [0xD3u8, 0xDB, 0xDD, 0xE3, 0xE4, 0xEB, 0xEC, 0xED, 0xF4, 0xFC, 0xFD];
    for opcode in 0..=255u8 {
        for flags in [0x00u8, 0xF0] {
            let mut mmu = bus_with(0x0100, &[opcode, 0x00, 0x00]);
            let mut cpu = cpu_at(0x0100);
            cpu.f = flags;
            cpu.h = 0xC0;
            let result = cpu.step(&mut mmu);
            if undefined.contains(&opcode) {
                assert_eq!(result, Err(DecodeError { pc: 0x0100, opcode }));
            } else {
                let cycles = result.unwrap();
                assert!(cycles > 0 && cycles % 4 == 0, "opcode {:02X}", opcode);
            }
            assert_eq!(cpu.f & 0x0F, 0, "opcode {:02X}", opcode);
        }
    }
}

#[test]
fn every_prefixed_opcode_takes_a_positive_multiple_of_four() {
    for opcode in 0..=255u8 {
        let mut mmu = bus_with(0x0100, &[0xCB, opcode]);
        let mut cpu = cpu_at(0x0100);
        cpu.h = 0xC0;
        let cycles = cpu.step(&mut mmu).unwrap();
        let through_hl = opcode & 0x07 == 6;
        let expected = if !through_hl {
            8
        } else if (0x40..0x80).contains(&opcode) {
            12
        } else {
            16
        };
        assert_eq!(cycles, expected, "opcode CB {:02X}", opcode);
        assert_eq!(cpu.pc, 0x0102);
        assert_eq!(cpu.f & 0x0F, 0);
    }
}

#[test]
fn undefined_opcode_stops_the_core() {
    let mut mmu = bus_with(0x0300, &[0xD3]);
    let mut cpu = cpu_at(0x0300);
    assert_eq!(cpu.step(&mut mmu), Err(DecodeError { pc: 0x0300, opcode: 0xD3 }));
    assert!(cpu.is_stopped());
    assert_eq!(cpu.pc, 0x0300);
    // A stopped core stays where it is.
    assert_eq!(cpu.step(&mut mmu), Ok(4));
    assert_eq!(cpu.pc, 0x0300);
}

#[test]
fn halt_waits_for_an_interrupt() {
    let mut mmu = bus_with(0, &[0x76, 0x3C]);
    let mut cpu = cpu_at(0);
    assert_eq!(cpu.step(&mut mmu), Ok(4));
    assert!(cpu.is_halted());
    assert_eq!(cpu.pc, 0x0001);
    assert_eq!(cpu.step(&mut mmu), Ok(4));
    assert_eq!(cpu.pc, 0x0001);
    assert_eq!(cpu.a, 0);
    // Nothing pending: still halted.
    assert!(!cpu.handle_interrupts(&mut mmu, 0x00));
    assert!(cpu.is_halted());
    // Pending with the master enable clear: woken, not dispatched.
    assert!(!cpu.handle_interrupts(&mut mmu, 0x04));
    assert!(!cpu.is_halted());
    assert_eq!(cpu.pc, 0x0001);
    assert_eq!(cpu.step(&mut mmu), Ok(4));
    assert_eq!(cpu.a, 1);
}

#[test]
fn stop_is_terminal() {
    let mut mmu = bus_with(0, &[0x10, 0x3C]);
    let mut cpu = cpu_at(0);
    assert_eq!(cpu.step(&mut mmu), Ok(4));
    assert!(cpu.is_stopped());
    assert!(!cpu.handle_interrupts(&mut mmu, 0x01));
    assert!(cpu.is_stopped());
    assert_eq!(cpu.step(&mut mmu), Ok(4));
    assert_eq!(cpu.a, 0);
}

#[test]
fn interrupt_dispatch_takes_the_lowest_line() {
    let mut mmu = bus_with(0, &[0x00]);
    let mut cpu = cpu_at(0x1234);
    cpu.ime = true;
    cpu.halt = true;
    mmu.write_byte(0xFFFF, 0x1F);
    mmu.write_byte(0xFF0F, 0x16);
    let pending = mmu.pending_interrupts();
    assert_eq!(pending, 0x16);
    assert!(cpu.handle_interrupts(&mut mmu, pending));
    assert_eq!(cpu.pc, 0x0048);
    assert!(!cpu.ime);
    assert!(!cpu.is_halted());
    assert_eq!(cpu.sp, 0xFFFC);
    assert_eq!(mmu.rw(0xFFFC), 0x1234);
    assert_eq!(mmu.read_byte(0xFF0F), 0x14);
    // The master enable is clear now: nothing more is dispatched.
    let pending = mmu.pending_interrupts();
    assert!(!cpu.handle_interrupts(&mut mmu, pending));
    assert_eq!(cpu.pc, 0x0048);
}

#[test]
fn each_line_has_its_vector() {
    for line in 0..5u8 {
        let mut mmu = bus_with(0, &[0x00]);
        let mut cpu = cpu_at(0x0200);
        cpu.ime = true;
        mmu.write_byte(0xFFFF, 0x1F);
        mmu.write_byte(0xFF0F, 1 << line);
        let pending = mmu.pending_interrupts();
        assert!(cpu.handle_interrupts(&mut mmu, pending));
        assert_eq!(cpu.pc, 0x0040 + 8 * line as u16);
        assert_eq!(mmu.read_byte(0xFF0F), 0x00);
    }
}

#[test]
fn di_and_ei() {
    let mut mmu = bus_with(0, &[0xFB, 0xF3]);
    let mut cpu = cpu_at(0);
    assert_eq!(cpu.step(&mut mmu), Ok(4));
    assert!(cpu.ime);
    assert_eq!(cpu.step(&mut mmu), Ok(4));
    assert!(!cpu.ime);
}

#[test]
fn program_counter_wraps() {
    let mut mmu = MMU::new();
    let mut cpu = cpu_at(0xFFFF);
    // The interrupt enable register holds the opcode: NOP.
    assert_eq!(cpu.step(&mut mmu), Ok(4));
    assert_eq!(cpu.pc, 0x0000);
}

#[test]
fn registers_without_a_boot_image() {
    let cpu = CPU::post_boot();
    assert_eq!((cpu.a, cpu.f), (0x01, 0xB0));
    assert_eq!((cpu.b, cpu.c), (0x00, 0x13));
    assert_eq!((cpu.d, cpu.e), (0x00, 0xD8));
    assert_eq!((cpu.h, cpu.l), (0x01, 0x4D));
    assert_eq!(cpu.sp, 0xFFFE);
    assert_eq!(cpu.pc, 0x0100);
    let cold = CPU::new();
    assert_eq!(cold.pc, 0x0000);
    assert!(!cold.is_stopped());
}
