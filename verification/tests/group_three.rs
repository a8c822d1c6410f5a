use nes::bus::Bus;
use nes::cpu::Mem;
use nes::cpu::CPU;
use nes::flags::CpuFlags;
use nes::rom::Mirroring;
use nes::rom::Rom;

// Endings of group two, which LDX and STX belong to
const G2_IMMEDIATE: u8 = 0x02;
const G2_ZP: u8 = 0x06;
const G2_ABS: u8 = 0x0E;

const IMMEDIATE: u8 = 0x00;
const ZP: u8 = 0x04; // Used with zp; zp, X
const ABS: u8 = 0x0C; // Used with abs; abs, X

const CPY: u8 = 0xC0;
const CPX: u8 = 0xE0;
const FIRST_LDY: u8 = 0xA0; // LDX is the exact same
const SECOND_LDY: u8 = 0xB0;
const FIRST_STY: u8 = 0x80;
const SECOND_STY: u8 = 0x90; // Only used with zp, X
const JMP: u8 = 0x4C;
const JMP_REL: u8 = 0x6C;
const BIT: u8 = 0x20;

fn new_cpu() -> CPU {
    CPU::new(Bus::new(Rom {
        prg_rom: vec![],
        chr_rom: vec![0; 2048],
        mapper: 0,
        screen_mirroring: Mirroring::HORIZONTAL,
    }))
}

fn test_name(code: u8) -> &'static str {
    match code {
        0xA | 0xB => "LDX/LDY",
        _ => "UNKNOWN",
    }
}

fn cmp_flag_tester(cpu: &CPU, carry: bool, zero: bool, negative: bool) {
    assert!(cpu.flags.contains(CpuFlags::CARRY) == carry, "Expected carry flag to be {}", carry);
    assert!(cpu.flags.contains(CpuFlags::ZERO) == zero, "Expected zero flag to be {}", zero);
    assert!(
        cpu.flags.contains(CpuFlags::NEGATIVE) == negative,
        "Expected negative flag to be {}",
        negative
    );
}

fn test_cmp_helper(
    cpu: &mut CPU,
    load_a: u8,
    load_mem: u8,
    first_half: u8,
    x: bool,
    carry: bool,
    zero: bool,
    negative: bool,
) {
    // Zero Page Testing
    cpu.load_and_reset(vec![first_half + ZP, 0xFF]);
    cpu.mem_write(0xFF, load_mem);
    cpu.x = load_a;
    if !x {
        cpu.x = 0;
        cpu.y = load_a;
    }
    cpu.run();
    cmp_flag_tester(cpu, carry, zero, negative);

    // Immediate testing
    cpu.load_and_reset(vec![first_half + IMMEDIATE, load_mem]);
    cpu.x = load_a;
    if !x {
        cpu.x = 0;
        cpu.y = load_a;
    }
    cpu.run();
    cmp_flag_tester(cpu, carry, zero, negative);

    // Absolute testing
    cpu.load_and_reset(vec![first_half + ABS, 0xFE, 0x01]);
    cpu.mem_write(0x01FE, load_mem);
    cpu.x = load_a;
    if !x {
        cpu.x = 0;
        cpu.y = load_a;
    }
    cpu.run();
    cmp_flag_tester(cpu, carry, zero, negative);
}

#[test]
fn test_cpy_cpx() {
    // Set x to be true for cpx, false for cpy
    for i in 0..2 {
        let mut cpu = new_cpu();
        let mut fh = CPX;
        let mut x = true;
        if i == 1 {
            x = false;
            fh = CPY;
        }
        test_cmp_helper(&mut cpu, 0x10, 0x10, fh, x, true, true, false); // A == M
        test_cmp_helper(&mut cpu, 0x20, 0x10, fh, x, true, false, false); // A > M
        test_cmp_helper(&mut cpu, 0x10, 0x20, fh, x, false, false, true); // A < M
    }
}

fn reg_loader(cpu: &mut CPU, x: bool, val: u8) {
    if x {
        cpu.x = val
    } else {
        cpu.y = val
    }
}

fn reg_output(cpu: &CPU, x: bool) -> u8 {
    if x {
        return cpu.x;
    }
    return cpu.y;
}

// The register that indexes the operand: an instruction on X cannot index
// with X, so LDX and STX index with Y where LDY and STY index with X.
fn index_register(cpu: &CPU, x: bool) -> u16 {
    if x {
        cpu.y as u16
    } else {
        cpu.x as u16
    }
}

fn gen_test(cpu: &mut CPU, x: bool, load_reg: u8, load_mem: u8, expected_val: u8) {
    let first_half = FIRST_LDY;
    let second_half = SECOND_LDY;
    let mut zp_end = ZP;
    let mut im_end = IMMEDIATE;
    let mut abs_end = ABS;

    if x {
        zp_end = G2_ZP;
        im_end = G2_IMMEDIATE;
        abs_end = G2_ABS;
    }

    // Zero Page Testing
    cpu.load_and_reset(vec![first_half + zp_end, 0xFF]);
    cpu.mem_write(0xFF, load_mem);
    reg_loader(cpu, x, load_reg);
    cpu.run();
    assert!(
        reg_output(cpu, x) == expected_val,
        "Failed on Zero Page test with {}. cpu.a is {:#b}, expected_val is {:#b}",
        test_name(first_half),
        cpu.a,
        expected_val
    );

    // Immediate testing
    cpu.load_and_reset(vec![first_half + im_end, load_mem]);
    cpu.mem_write(0xFF, load_mem);
    reg_loader(cpu, x, load_reg);
    cpu.run();
    assert!(
        reg_output(cpu, x) == expected_val,
        "Failed on Immediate test with {}. cpu.a is {:#b}, expected_val is {:#b}",
        test_name(first_half),
        cpu.a,
        expected_val
    );

    // Absolute testing
    cpu.load_and_reset(vec![first_half + abs_end, 0xFE, 0x01]);
    cpu.mem_write(0x01FE, load_mem);
    reg_loader(cpu, x, load_reg);
    cpu.run();
    assert!(
        reg_output(cpu, x) == expected_val,
        "Failed on Absolute test with {}. cpu.a is {:#b}, expected_val is {:#b}",
        test_name(first_half),
        cpu.a,
        expected_val
    );

    // Zero Page, indexed
    cpu.load_and_reset(vec![second_half + zp_end, 0xA0]);
    reg_loader(cpu, x, load_reg);
    cpu.mem_write(0xA0 + index_register(cpu, x), load_mem);
    cpu.run();
    assert!(
        reg_output(cpu, x) == expected_val,
        "Failed on Zero Page, indexed with {}. cpu reg is {:#b}, expected_val is {:#b}",
        test_name(first_half),
        if x { cpu.x } else { cpu.y },
        expected_val
    );

    // Absolute, indexed
    cpu.load_and_reset(vec![second_half + abs_end, 0x00, 0x02]);
    reg_loader(cpu, x, load_reg);
    cpu.mem_write(0x0200 + index_register(cpu, x), load_mem);
    cpu.run();
    assert!(
        reg_output(cpu, x) == expected_val,
        "Failed on Absolute, indexed with {}. cpu.a is {:#b}, expected_val is {:#b}",
        test_name(first_half),
        cpu.a,
        expected_val
    );
}

// LDY and LDX
#[test]
fn ldx_ldy_test() {
    for i in 0..2 {
        let mut cpu = new_cpu();
        let x = i == 1;
        gen_test(&mut cpu, x, 0, 0x05, 0x05);
        assert!(!cpu.flags.contains(CpuFlags::NEGATIVE) && !cpu.flags.contains(CpuFlags::ZERO));

        // Zero Test
        gen_test(&mut cpu, x, 0x20, 0, 0);
        assert!(!cpu.flags.contains(CpuFlags::NEGATIVE) && cpu.flags.contains(CpuFlags::ZERO));

        // Negative test
        gen_test(&mut cpu, x, 0x20, 0xFF, 0xFF);
        assert!(cpu.flags.contains(CpuFlags::NEGATIVE) && !cpu.flags.contains(CpuFlags::ZERO));
    }
}

// STY done first, STX done second
#[test]
fn test_stx_sty() {
    let mut cpu = new_cpu();
    let first_half = FIRST_STY;
    let second_half = SECOND_STY;
    let mut second_half_zp = ZP;
    let mut second_half_abs = ABS;
    let load_reg: u8 = 0x0E;

    for i in 0..2 {
        // Zero Page Testing
        let x = i == 1;
        if x {
            second_half_zp = G2_ZP;
            second_half_abs = G2_ABS;
        }
        cpu.load_and_reset(vec![first_half + second_half_zp, 0xA1]);
        reg_loader(&mut cpu, x, load_reg);
        cpu.run();
        assert!(
            cpu.mem_read(0xA1) == reg_output(&cpu, x),
            "Failed on zero page test for test_stx_sty"
        );

        // Absolute testing
        cpu.load_and_reset(vec![first_half + second_half_abs, 0xFE, 0x01]);
        reg_loader(&mut cpu, x, load_reg);
        cpu.run();
        assert!(
            cpu.mem_read(0x01FE) == reg_output(&cpu, x),
            "Failed on absolute test for test_stx_sty"
        );

        // Zero Page, indexed
        cpu.load_and_reset(vec![second_half + second_half_zp, 0xA0]);
        reg_loader(&mut cpu, x, load_reg);
        cpu.run();
        let stored = cpu.mem_read(0xA0 + index_register(&cpu, x));
        assert!(reg_output(&cpu, x) == stored, "Failed on zero page, indexed for test_stx_sty");
    }
}

// JMP and JMP(), one is absolute, other is indirect
#[test]
fn test_jump() {
    let mut cpu = new_cpu();
    cpu.load_and_reset(vec![JMP, 0x04, 0x06]);
    cpu.mem_write(0x0604, 0xE8); // INX instruction
    cpu.run();
    assert!(cpu.x == 1, "Jump failed, cpu.x value is {}", cpu.x);

    // JMP() test
    for addr in 0x0600..0x0605u16 {
        cpu.mem_write(addr, 0);
    }
    cpu.load_and_reset(vec![JMP_REL, 0x04, 0x06]);
    cpu.mem_write(0x0604, 0xAA);
    cpu.mem_write(0x0605, 0x01);
    // Should jump to 0x01AA
    cpu.mem_write(0x01AA, 0xE8);
    cpu.mem_write(0x01AB, 0x00); // BRK
    cpu.run();
    assert!(cpu.x == 1, "Relative jump failed, cpu.x value is {}", cpu.x);

    // JMP test with page bug
    cpu.load_and_reset(vec![JMP_REL, 0xFF, 0x06]);
    cpu.mem_write(0x06FF, 0xAA);
    cpu.mem_write(0x0600, 0x01);
    cpu.mem_write(0x01AA, 0xE8);
    cpu.run();
    assert!(cpu.x == 1, "Relative jump failed with page bug, cpu.x value is {}", cpu.x);
}

fn bit_flag_tester(cpu: &CPU, overflow: bool, zero: bool, negative: bool) {
    assert!(
        cpu.flags.contains(CpuFlags::OVERFLOW) == overflow,
        "Expected overflow flag to be {}",
        overflow
    );
    assert!(cpu.flags.contains(CpuFlags::ZERO) == zero, "Expected zero flag to be {}", zero);
    assert!(
        cpu.flags.contains(CpuFlags::NEGATIVE) == negative,
        "Expected negative flag to be {}",
        negative
    );
}

fn test_bit_helper(
    cpu: &mut CPU,
    load_a: u8,
    load_mem: u8,
    zero: bool,
    overflow: bool,
    negative: bool,
) {
    let first_half = BIT;

    // Zero Page Testing
    cpu.load_and_reset(vec![first_half + ZP, 0xFF]);
    cpu.mem_write(0xFF, load_mem);
    cpu.a = load_a;
    cpu.run();
    bit_flag_tester(cpu, overflow, zero, negative);

    // Absolute testing
    cpu.load_and_reset(vec![first_half + ABS, 0xFE, 0x01]);
    cpu.mem_write(0x01FE, load_mem);
    cpu.a = load_a;
    cpu.run();
    bit_flag_tester(cpu, overflow, zero, negative);
}

#[test]
fn test_bit() {
    let mut cpu = new_cpu();
    // Zero Test
    test_bit_helper(&mut cpu, 0b11111111, 0b00000000, true, false, false);
    // Overflow Test
    test_bit_helper(&mut cpu, 0xFF, 0b0100_0000, false, true, false);
    // Negative Test
    test_bit_helper(&mut cpu, 0xFF, 0b1000_0000, false, false, true)
}
