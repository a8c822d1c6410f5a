use nes::bus::Bus;
use nes::cpu::CPU;
use nes::flags::CpuFlags;
use nes::rom::Mirroring;
use nes::rom::Rom;

const INX: u8 = 0xE8;
const INY: u8 = 0xC8;
const JSR: u8 = 0x20;
const RTS: u8 = 0x60;

const BPL: u8 = 0x10;
const BMI: u8 = 0x30;
const BVC: u8 = 0x50;
const BVS: u8 = 0x70;
const BCC: u8 = 0x90;
const BCS: u8 = 0xB0;
const BNE: u8 = 0xD0;
const BEQ: u8 = 0xF0;

// Where `load` puts a program
const PROGRAM_START: u16 = 0x8000;

fn new_cpu() -> CPU {
    CPU::new(Bus::new(Rom {
        prg_rom: vec![],
        chr_rom: vec![0; 2048],
        mapper: 0,
        screen_mirroring: Mirroring::HORIZONTAL,
    }))
}

// JSR and RTS are tested together to see if INX is called
#[test]
fn test_jsr_rts() {
    let mut cpu = new_cpu();
    let target_addr = PROGRAM_START + 5; // Address of INX
    let lil_end = (target_addr & 0xFF) as u8;
    let big_end = ((target_addr >> 8) & 0xFF) as u8;
    cpu.load_and_run(vec![JSR, lil_end, big_end, INY, 0x00, INX, RTS]);
    assert!(
        cpu.x == 1 && cpu.y == 1,
        "JSR and RTS test failed! cpu.x is {}, cpu.y is {}",
        cpu.x,
        cpu.y
    );
}

// Runs [op 0x01 0x00 INX]. With `clear` every flag but the chosen one is
// set, else the chosen one is set. If x == 1 the branch was taken.
fn jump(cpu: &mut CPU, op: u8, clear: bool, flag: u8) {
    cpu.load_and_reset(vec![op, 0x01, 0x00, INX]);
    if clear {
        cpu.flags = CpuFlags::from_bits_truncate(0b1111_1111);
        cpu.flags.remove(flag);
    } else {
        cpu.flags.insert(flag);
    }
    cpu.run();
}

// The same with a branch backwards, to an INX two bytes below the program.
// Nothing can be written below where `load` puts a program, so the
// cartridge is made by hand, with the program two bytes into it.
fn jump_neg(cpu: &mut CPU, op: u8, clear: bool, flag: u8) {
    let start = PROGRAM_START + 2;
    let mut prg_rom = vec![0u8; 0x8000];
    prg_rom[(start - 2 - PROGRAM_START) as usize] = INX;
    prg_rom[(start - 1 - PROGRAM_START) as usize] = 0x00;
    prg_rom[(start - PROGRAM_START) as usize] = op;
    prg_rom[(start + 1 - PROGRAM_START) as usize] = 0xFC;
    prg_rom[(start + 2 - PROGRAM_START) as usize] = 0x00;
    prg_rom[0x7FFC] = (start & 0xFF) as u8;
    prg_rom[0x7FFD] = (start >> 8) as u8;
    cpu.bus.prg_rom = prg_rom;
    cpu.reset();
    if clear {
        cpu.flags = CpuFlags::from_bits_truncate(0b1111_1111);
        cpu.flags.remove(flag);
    } else {
        cpu.flags.insert(flag);
    }
    cpu.run();
}

// Each test checks when the branch should be taken and when not
fn helper_test(op: u8, clear: bool, flag: u8) {
    let mut cpu = new_cpu();
    jump(&mut cpu, op, clear, flag);
    assert!(cpu.x == 1, "Helper_test positive failed on {:#x}, cpu.x is {}", op, cpu.x);

    jump_neg(&mut cpu, op, clear, flag);
    assert!(cpu.x == 1, "jump neg Helper_test positive failed on {:#x}, cpu.x is {}", op, cpu.x);

    jump(&mut cpu, op, !clear, flag);
    assert!(cpu.x == 0, "Helper_test negative failed on {:#x}, cpu.x is {}", op, cpu.x);

    jump_neg(&mut cpu, op, !clear, flag);
    assert!(cpu.x == 0, "jump neg Helper_test negative failed on {:#x}, cpu.x is {}", op, cpu.x);
}

#[test]
fn bpl_test() {
    helper_test(BPL, true, CpuFlags::NEGATIVE);
}

#[test]
fn bmi_test() {
    helper_test(BMI, false, CpuFlags::NEGATIVE);
}

#[test]
fn bvc_test() {
    helper_test(BVC, true, CpuFlags::OVERFLOW);
}

#[test]
fn bvs_test() {
    helper_test(BVS, false, CpuFlags::OVERFLOW);
}

#[test]
fn bcc_test() {
    helper_test(BCC, true, CpuFlags::CARRY);
}

#[test]
fn bcs_test() {
    helper_test(BCS, false, CpuFlags::CARRY);
}

#[test]
fn bne_test() {
    helper_test(BNE, true, CpuFlags::ZERO);
}

#[test]
fn beq_test() {
    helper_test(BEQ, false, CpuFlags::ZERO);
}
