use nes::bus::Bus;
use nes::cpu::Mem;
use nes::cpu::CPU;
use nes::cpu::STACK_RESET;
use nes::flags::CpuFlags;
use nes::rom::Mirroring;
use nes::rom::Rom;

const PHP: u8 = 0x08;
const CLC: u8 = 0x18;
const PLP: u8 = 0x28;
const SEC: u8 = 0x38;
const PHA: u8 = 0x48;
const CLI: u8 = 0x58;
const PLA: u8 = 0x68;
const SEI: u8 = 0x78;
const DEY: u8 = 0x88;
const TYA: u8 = 0x98;
const TAY: u8 = 0xA8;
const CLV: u8 = 0xB8;
const INY: u8 = 0xC8;
const CLD: u8 = 0xD8;
const INX: u8 = 0xE8;
const SED: u8 = 0xF8;

const TXA: u8 = 0x8A;
const TXS: u8 = 0x9A;
const TAX: u8 = 0xAA;
const TSX: u8 = 0xba;
const DEX: u8 = 0xca;
const NOP: u8 = 0xea;

const FULLFLAGS: u8 = 0b11111111;
const EMPTYFLAGS: u8 = 0b00000000;

fn new_cpu() -> CPU {
    CPU::new(Bus::new(Rom {
        prg_rom: vec![],
        chr_rom: vec![0; 2048],
        mapper: 0,
        screen_mirroring: Mirroring::HORIZONTAL,
    }))
}

fn stack_push_test(cpu: &mut CPU, instructions: Vec<u8>, check: u8) {
    cpu.load_and_run(instructions);
    // 4 up from the stack pointer, as BRK pushes three bytes after it
    let pushed = cpu.mem_read(0x0100 + cpu.sp.wrapping_add(4) as u16);
    assert!(pushed == check, "pushed value is {:#b}, comparing against {:#b}", pushed, check)
}

fn flag_removal_test(cpu: &mut CPU, instructions: Vec<u8>, check: u8) {
    cpu.flags = CpuFlags::from_bits_truncate(FULLFLAGS);
    cpu.load(instructions);
    cpu.pc = cpu.mem_read_u16(0xFFFC);
    cpu.run();
    assert!(!cpu.flags.contains(check), "Cpu Flags is {:#b}", cpu.flags.bits());
}

fn flag_insert_test(cpu: &mut CPU, instructions: Vec<u8>, check: u8) {
    cpu.flags = CpuFlags::from_bits_truncate(EMPTYFLAGS);
    cpu.load(instructions);
    cpu.pc = cpu.mem_read_u16(0xFFFC);
    cpu.run();
    assert!(cpu.flags.contains(check), "Cpu Flags is {:#b}", cpu.flags.bits());
}

// Tests LDA, a = 5
#[test]
fn sb1_test_test_0xa9_lda_immediate_load_data() {
    let mut cpu = new_cpu();
    cpu.load_and_run(vec![0xa9, 0x05, 0x00]);
    assert_eq!(cpu.a, 0x05);
    assert!(cpu.flags.bits() & 0b0000_0010 == 0b00);
    assert!(cpu.flags.bits() & 0b1000_0000 == 0);
}

// Tests for zero flag being activated when loading 0
#[test]
fn sb1_test_test_0xa9_lda_zero_flag() {
    let mut cpu = new_cpu();
    cpu.load_and_run(vec![0xa9, 0x00, 0x00]);
    assert!(cpu.flags.bits() & 0b0000_0010 == 0b10);
}

#[test]
fn sb1_test_test_php() {
    let mut cpu = new_cpu();
    stack_push_test(&mut cpu, vec![0x08], 0b00110100);
}

#[test]
fn test_clc() {
    let mut cpu = new_cpu();
    flag_removal_test(&mut cpu, vec![CLC], CpuFlags::CARRY);
}

#[test]
fn test_plp() {
    let mut cpu = new_cpu();
    cpu.load_and_run(vec![SEC, SEI, SED, PHP, PLP]);
    assert!(cpu.flags.bits() == 0b00111101, "Cpu Flags are {:#b}", cpu.flags.bits());
}

#[test]
fn test_sec() {
    let mut cpu = new_cpu();
    flag_insert_test(&mut cpu, vec![0x38], CpuFlags::CARRY);
}

#[test]
fn test_pha() {
    let mut cpu = new_cpu();
    // Increments Y register twice and transfers from Y to A
    stack_push_test(&mut cpu, vec![INY, INY, TYA, PHA], 0x02);
}

#[test]
fn test_cli() {
    // BRK disables interrupts again, so the flags are pushed with PHP and
    // checked on the stack.
    let mut cpu = new_cpu();
    cpu.flags = CpuFlags::from_bits_truncate(FULLFLAGS);
    cpu.load(vec![CLI, PHP]);
    cpu.pc = cpu.mem_read_u16(0xFFFC);
    cpu.run();
    let check = 0b1111_1011;
    let pushed = cpu.mem_read(0x0100 + cpu.sp.wrapping_add(4) as u16);
    assert!(pushed == check, "pushed value is {:#b}, comparing against {:#b}", pushed, check)
}

#[test]
fn test_pla() {
    let mut cpu = new_cpu();
    cpu.load_and_run(vec![INY, INY, TYA, PHA, TXA, PLA]);
    assert!(cpu.a == 0x02);
}

#[test]
fn test_sei() {
    let mut cpu = new_cpu();
    flag_insert_test(&mut cpu, vec![0x78], CpuFlags::INTERRUPT_DISABLE);
}

#[test]
fn test_dey() {
    let mut cpu = new_cpu();
    // Adds Y register twice and then subtracts once
    cpu.load_and_run(vec![0xC8, 0xC8, 0x88]);
    assert!(cpu.y == 1);
}

#[test]
fn test_tya() {
    let mut cpu = new_cpu();
    cpu.load_and_run(vec![0xC8, 0x98]);
    assert!(cpu.a == 1);
}

#[test]
fn test_tay() {
    let mut cpu = new_cpu();
    cpu.load_and_run(vec![INX, TXA, TAY]);
    assert!(cpu.a == cpu.y);
}

#[test]
fn test_clv() {
    let mut cpu = new_cpu();
    flag_removal_test(&mut cpu, vec![CLV], CpuFlags::OVERFLOW);
}

#[test]
fn test_iny() {
    let mut cpu = new_cpu();
    cpu.load_and_run(vec![0xC8]);
    assert!(cpu.y == 1);
}

#[test]
fn test_cld() {
    let mut cpu = new_cpu();
    flag_removal_test(&mut cpu, vec![CLD], CpuFlags::DECIMAL_MODE);
}

#[test]
fn test_inx() {
    let mut cpu = new_cpu();
    cpu.load_and_run(vec![0xE8]);
    assert!(cpu.x == 1)
}

#[test]
fn test_sed() {
    let mut cpu = new_cpu();
    flag_insert_test(&mut cpu, vec![0xF8], CpuFlags::DECIMAL_MODE);
}

#[test]
fn test_txa() {
    let mut cpu = new_cpu();
    // Increments X and transfers to A
    cpu.load_and_run(vec![INX, TXA]);
    assert!(cpu.a == cpu.x);
    assert!(!cpu.flags.contains(CpuFlags::ZERO) && !cpu.flags.contains(CpuFlags::NEGATIVE));

    cpu.load_and_run(vec![TXA]);
    assert!(cpu.flags.contains(CpuFlags::ZERO) && !cpu.flags.contains(CpuFlags::NEGATIVE));

    // Decrements X and tranfers to A
    cpu.load_and_run(vec![DEX, TXA]);
    assert!(cpu.flags.contains(CpuFlags::NEGATIVE))
}

#[test]
fn test_txs() {
    let mut cpu = new_cpu();
    cpu.load_and_run(vec![TXS]);
    // BRK pushes three bytes
    assert!(cpu.sp.wrapping_add(3) == cpu.x);
}

#[test]
fn test_tax() {
    let mut cpu = new_cpu();
    cpu.load_and_run(vec![INX, TAX]);
    assert!(cpu.x == cpu.a);
    assert!(cpu.flags.contains(CpuFlags::ZERO) && !cpu.flags.contains(CpuFlags::NEGATIVE));

    cpu.load_and_run(vec![INY, TYA, TAX]);
    assert!(cpu.x == cpu.a);
    assert!(!cpu.flags.contains(CpuFlags::ZERO) && !cpu.flags.contains(CpuFlags::NEGATIVE));

    cpu.load_and_run(vec![DEY, TYA, TAX]);
    assert!(cpu.x == cpu.a);
    assert!(!cpu.flags.contains(CpuFlags::ZERO) && cpu.flags.contains(CpuFlags::NEGATIVE));
}

#[test]
fn test_tsx() {
    let mut cpu = new_cpu();
    cpu.load_and_run(vec![TSX]);
    assert!(cpu.x == STACK_RESET);
    assert!(!cpu.flags.contains(CpuFlags::ZERO) && cpu.flags.contains(CpuFlags::NEGATIVE));

    cpu.load_and_run(vec![PHP, TSX]);
    assert!(
        cpu.x == STACK_RESET.wrapping_sub(1),
        "x is {:#b}, stack_reset-1 is {:#b}",
        cpu.x,
        STACK_RESET
    );
    assert!(!cpu.flags.contains(CpuFlags::ZERO) && cpu.flags.contains(CpuFlags::NEGATIVE));
}

#[test]
fn test_dex() {
    let mut cpu = new_cpu();
    cpu.load_and_run(vec![DEX]);
    assert!(cpu.x == 0xFF);
    assert!(!cpu.flags.contains(CpuFlags::ZERO) && cpu.flags.contains(CpuFlags::NEGATIVE));

    cpu.load_and_run(vec![INX, DEX]);
    assert!(cpu.flags.contains(CpuFlags::ZERO) && !cpu.flags.contains(CpuFlags::NEGATIVE));

    cpu.load_and_run(vec![INX, INX, DEX]);
    assert!(!cpu.flags.contains(CpuFlags::ZERO) && !cpu.flags.contains(CpuFlags::NEGATIVE));
}

#[test]
fn test_nop() {
    let mut cpu = new_cpu();
    cpu.load_and_run(vec![NOP]);
    assert!(
        cpu.x == 0
            && cpu.y == 0
            && cpu.a == 0
            && cpu.flags == CpuFlags::from_bits_truncate(0b00100100)
    );
}

// Tests LDA, a = 5
#[test]
fn tests_test_0xa9_lda_immediate_load_data() {
    let mut cpu = new_cpu();
    cpu.load_and_run(vec![0xa9, 0x05, 0x00]);
    assert_eq!(cpu.a, 0x05);
    assert!(cpu.flags.bits() & 0b0000_0010 == 0b00);
    assert!(cpu.flags.bits() & 0b1000_0000 == 0);
}

#[test]
fn tests_test_0xa9_lda_zero_flag() {
    let mut cpu = new_cpu();
    cpu.load_and_run(vec![0xa9, 0x00, 0x00]);
    assert!(cpu.flags.bits() & 0b0000_0010 == 0b10);
}

#[test]
fn test_lda_from_memory() {
    let mut cpu = new_cpu();
    cpu.mem_write(0x10, 0x55);

    cpu.load_and_run(vec![0xa5, 0x10, 0x00]);

    assert_eq!(cpu.a, 0x55);
}

// The byte on top of the stack is the status that BRK pushed
#[test]
fn tests_test_php() {
    let mut cpu = new_cpu();
    cpu.load_and_run(vec![0x08, 0x00]);
    let pushed = cpu.mem_read(0x0100 + cpu.sp.wrapping_add(1) as u16);
    assert!(pushed == 0b00110100, "pushed value is {:#b}", pushed)
}
