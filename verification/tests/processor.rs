use nes::bus::Bus;
use nes::cpu::exec::Stop;
use nes::cpu::AddressingMode;
use nes::cpu::Mem;
use nes::cpu::CPU;
use nes::flags::CpuFlags;
use nes::rom::Mirroring;
use nes::rom::Rom;

fn cpu_with(prg_rom: Vec<u8>) -> CPU {
    CPU::new(Bus::new(Rom {
        prg_rom,
        chr_rom: vec![0; 2048],
        mapper: 0,
        screen_mirroring: Mirroring::HORIZONTAL,
    }))
}

fn new_cpu() -> CPU {
    cpu_with(vec![])
}

#[test]
fn power_on_state() {
    let cpu = new_cpu();
    assert_eq!(cpu.flags.bits(), 0b0010_0100);
    assert_eq!(cpu.sp, 0xFD);
    assert_eq!((cpu.a, cpu.x, cpu.y, cpu.pc), (0, 0, 0, 0));
    assert!(!cpu.halted);
}

#[test]
fn load_puts_the_program_at_0x8000() {
    let mut cpu = new_cpu();
    cpu.load_and_reset(vec![0xA9, 0x05]);
    assert_eq!(cpu.pc, 0x8000);
    assert_eq!(cpu.mem_read(0x8000), 0xA9);
    assert_eq!(cpu.mem_read(0x8001), 0x05);
    assert_eq!(cpu.mem_read(0x8002), 0x00);
    assert_eq!(cpu.mem_read_u16(0xFFFC), 0x8000);
}

#[test]
fn run_says_why_it_stopped() {
    let mut cpu = new_cpu();
    assert_eq!(cpu.load_and_run(vec![0xE8, 0x00]), Some(Stop::Break));
    assert_eq!(cpu.load_and_run(vec![0xE8, 0x02]), Some(Stop::UnknownOpcode(0x02)));
    assert_eq!(cpu.x, 1);
    // the unknown opcode is not stepped over
    assert_eq!(cpu.pc, 0x8001);

    cpu.load_and_reset(vec![0xE8]);
    cpu.halted = true;
    assert_eq!(cpu.run(), Some(Stop::HaltSignal));
    assert_eq!(cpu.x, 0);
}

#[test]
fn every_unknown_opcode_stops_the_processor() {
    let unknown = [
        0x02, 0x12, 0x22, 0x32, 0x42, 0x52, 0x62, 0x72, 0x92, 0xB2, 0xD2, 0xF2, 0x2B, 0x8B, 0xAB,
        0x93, 0x9B, 0x9F, 0xBB,
    ];
    for op in 0..=255u8 {
        let mut cpu = new_cpu();
        // somewhere to go for the indirect jump
        cpu.mem_write(0x0210, 0x34);
        cpu.mem_write(0x0211, 0x12);
        cpu.load_and_reset(vec![op, 0x10, 0x02]);
        let stop = cpu.execute();
        if unknown.contains(&op) {
            assert_eq!(stop, Some(Stop::UnknownOpcode(op)));
            assert_eq!(cpu.pc, 0x8000);
        } else if op == 0x00 {
            assert_eq!(stop, Some(Stop::Break));
        } else {
            assert_eq!(stop, None, "opcode {:#04x}", op);
        }
    }
}

#[test]
fn run_steps_gives_up_at_its_limit() {
    let mut cpu = new_cpu();
    // JMP $8000
    cpu.load_and_reset(vec![0x4C, 0x00, 0x80]);
    assert_eq!(cpu.run_steps(10), None);
    assert_eq!(cpu.pc, 0x8000);
    assert_eq!(cpu.bus.cycles, 7 + 30);
}

#[test]
fn the_end_of_the_address_space_ends_a_program() {
    let mut cpu = new_cpu();
    // JMP $FFFF leaves the program counter one below, and the step on
    // ends the program
    cpu.load_and_reset(vec![0x4C, 0xFF, 0xFF]);
    assert_eq!(cpu.step(), None);
    assert_eq!(cpu.pc, 0xFFFF);
    assert_eq!(cpu.step(), Some(Stop::EndOfProgram));
    assert_eq!(cpu.pc, 0xFFFF);
}

#[test]
fn two_runs_from_the_same_state_agree() {
    let program = vec![
        0xA2, 0x05, 0xA9, 0x37, 0x69, 0xF0, 0x48, 0x2A, 0x9D, 0x00, 0x02, 0xCA, 0xD0, 0xF6, 0x68,
        0x20, 0x14, 0x80, 0xC8, 0x00, 0xE6, 0x10, 0x60,
    ];
    let mut first = new_cpu();
    let mut second = new_cpu();
    first.load_and_reset(program.clone());
    second.load_and_reset(program);
    loop {
        let a = first.step();
        let b = second.step();
        assert_eq!(a, b);
        assert_eq!(
            (first.pc, first.a, first.x, first.y, first.sp, first.flags, first.cycles),
            (second.pc, second.a, second.x, second.y, second.sp, second.flags, second.cycles)
        );
        assert_eq!(first.bus.cpu_vram, second.bus.cpu_vram);
        assert_eq!(first.bus.cycles, second.bus.cycles);
        if a.is_some() {
            break;
        }
    }
    assert_eq!(first.y, 1);
    assert_eq!(first.mem_read(0x10), 1);
}

#[test]
fn php_then_plp_restores_the_flags() {
    let mut cpu = new_cpu();
    // SEC SEI SED PHP CLC CLI CLD PLP
    cpu.load_and_reset(vec![0x38, 0x78, 0xF8, 0x08, 0x18, 0x58, 0xD8, 0x28]);
    cpu.flags = CpuFlags::from_bits_truncate(0);
    for _ in 0..7 {
        assert_eq!(cpu.step(), None);
    }
    assert_eq!(cpu.flags.bits(), 0);
    assert_eq!(cpu.step(), None);
    assert!(cpu.flags.contains(CpuFlags::CARRY));
    assert!(cpu.flags.contains(CpuFlags::INTERRUPT_DISABLE));
    assert!(cpu.flags.contains(CpuFlags::DECIMAL_MODE));
    // the break bits come back as PHP pushed them: set
    assert_eq!(cpu.flags.bits(), 0b0011_1101);
    assert_eq!(cpu.sp, 0xFD);
}

#[test]
fn php_then_plp_for_every_status_byte() {
    for bits in 0..=255u8 {
        let mut cpu = new_cpu();
        cpu.flags = CpuFlags::from_bits_truncate(bits);
        cpu.sp = bits;
        cpu.php();
        cpu.plp();
        assert_eq!(cpu.flags.bits(), bits | 0x30);
        assert_eq!(cpu.sp, bits);
    }
}

#[test]
fn rti_takes_all_eight_bits_of_the_status() {
    let mut cpu = new_cpu();
    cpu.stack_push_u16(0x1234);
    cpu.stack_push(0b1101_0011);
    cpu.rti();
    assert_eq!(cpu.flags.bits(), 0b1101_0011);
    assert_eq!(cpu.pc, 0x1233);
    assert_eq!(cpu.cycles, 7 + 6);
}

#[test]
fn sbc_is_adc_of_the_complement() {
    for carry in [false, true] {
        for a in 0..=255u8 {
            for operand in 0..=255u8 {
                let mut sub = new_cpu();
                sub.a = a;
                sub.flags.set(CpuFlags::CARRY, carry);
                sub.mem_write(0x10, operand);
                sub.sbc(0x10);

                let mut add = new_cpu();
                add.a = a;
                add.flags.set(CpuFlags::CARRY, carry);
                add.mem_write(0x10, !operand);
                add.adc(0x10);

                assert_eq!(sub.a, add.a);
                assert_eq!(sub.flags, add.flags);

                let borrow = if carry { 0 } else { 1 };
                let difference = a as i32 - operand as i32 - borrow;
                assert_eq!(sub.a, (difference & 0xFF) as u8);
                assert_eq!(sub.flags.contains(CpuFlags::CARRY), difference >= 0);
                let signed = a as i8 as i32 - operand as i8 as i32 - borrow;
                assert_eq!(sub.flags.contains(CpuFlags::OVERFLOW), signed < -128 || signed > 127);
                assert_eq!(sub.flags.contains(CpuFlags::ZERO), sub.a == 0);
                assert_eq!(sub.flags.contains(CpuFlags::NEGATIVE), sub.a >= 0x80);
            }
        }
    }
}

#[test]
fn adc_sets_its_four_flags() {
    let mut cpu = new_cpu();
    cpu.a = 0x50;
    cpu.add_to_a(0x50);
    assert_eq!(cpu.a, 0xA0);
    assert!(cpu.flags.contains(CpuFlags::OVERFLOW));
    assert!(cpu.flags.contains(CpuFlags::NEGATIVE));
    assert!(!cpu.flags.contains(CpuFlags::CARRY));
    assert!(!cpu.flags.contains(CpuFlags::ZERO));

    cpu.a = 0xFF;
    cpu.flags.insert(CpuFlags::CARRY);
    cpu.add_to_a(0x00);
    assert_eq!(cpu.a, 0x00);
    assert!(cpu.flags.contains(CpuFlags::CARRY));
    assert!(cpu.flags.contains(CpuFlags::ZERO));
    assert!(!cpu.flags.contains(CpuFlags::OVERFLOW));
}

#[test]
fn compare_leaves_the_register() {
    let mut cpu = new_cpu();
    // CPX #$10
    cpu.load_and_reset(vec![0xE0, 0x10]);
    cpu.x = 0x20;
    cpu.flags = CpuFlags::from_bits_truncate(0b1110_0110);
    cpu.run();
    assert_eq!(cpu.x, 0x20);
    assert!(cpu.flags.contains(CpuFlags::CARRY));
    assert!(!cpu.flags.contains(CpuFlags::ZERO));
    assert!(!cpu.flags.contains(CpuFlags::NEGATIVE));
    // the other flags are as they were
    assert!(cpu.flags.contains(CpuFlags::OVERFLOW));
    assert!(cpu.flags.contains(CpuFlags::BREAK2));

    for register in [0u8, 1, 0x7F, 0x80, 0xFF] {
        for operand in [0u8, 1, 0x7F, 0x80, 0xFF] {
            let mut cpu = new_cpu();
            cpu.a = register;
            cpu.mem_write(0x40, operand);
            cpu.cmp(0x40);
            assert_eq!(cpu.a, register);
            assert_eq!(cpu.flags.contains(CpuFlags::CARRY), register >= operand);
            assert_eq!(cpu.flags.contains(CpuFlags::ZERO), register == operand);
            assert_eq!(
                cpu.flags.contains(CpuFlags::NEGATIVE),
                register.wrapping_sub(operand) >= 0x80
            );
        }
    }
}

#[test]
fn crossing_a_page_costs_a_cycle() {
    let mut cpu = new_cpu();
    // LDA $01FF,X with X = 1 crosses into page 2
    cpu.load_and_reset(vec![0xBD, 0xFF, 0x01]);
    cpu.x = 1;
    assert_eq!(cpu.execute(), None);
    let crossing = cpu.cycles;

    // LDA $0100,X with X = 1 stays in page 1
    cpu.load_and_reset(vec![0xBD, 0x00, 0x01]);
    cpu.x = 1;
    assert_eq!(cpu.execute(), None);
    let staying = cpu.cycles;

    assert_eq!(staying, 4);
    assert_eq!(crossing, staying + 1);

    // a store pays the cycle without crossing
    cpu.load_and_reset(vec![0x9D, 0x00, 0x01]);
    cpu.x = 1;
    assert_eq!(cpu.execute(), None);
    assert_eq!(cpu.cycles, 5);
}

#[test]
fn cycles_of_some_instructions() {
    let cases: [(&[u8], u8); 14] = [
        (&[0xEA], 2),
        (&[0xA9, 0x01], 2),
        (&[0xA5, 0x01], 3),
        (&[0xB5, 0x01], 4),
        (&[0xAD, 0x01, 0x02], 4),
        (&[0xA1, 0x01], 6),
        (&[0xB1, 0x01], 5),
        (&[0xE6, 0x01], 5),
        (&[0xFE, 0x01, 0x02], 7),
        (&[0x4C, 0x01, 0x02], 3),
        (&[0x6C, 0x01, 0x02], 5),
        (&[0x20, 0x01, 0x02], 6),
        (&[0x08], 3),
        (&[0x28], 4),
    ];
    for (program, cycles) in cases {
        let mut cpu = new_cpu();
        // somewhere to go for the indirect jump
        cpu.mem_write(0x0201, 0x34);
        cpu.mem_write(0x0202, 0x12);
        cpu.load_and_reset(program.to_vec());
        assert_eq!(cpu.execute(), None);
        assert_eq!(cpu.cycles, cycles, "opcode {:#04x}", program[0]);
        assert_eq!(cpu.bus.cycles, 7 + cycles as usize);
    }
    let mut cpu = new_cpu();
    cpu.load_and_reset(vec![0x00]);
    assert_eq!(cpu.execute(), Some(Stop::Break));
    assert_eq!(cpu.cycles, 7);
}

#[test]
fn a_branch_costs_what_it_does() {
    // not taken: 2 cycles
    let mut cpu = new_cpu();
    cpu.load_and_reset(vec![0xD0, 0x01]);
    cpu.flags.insert(CpuFlags::ZERO);
    assert_eq!(cpu.execute(), None);
    assert_eq!((cpu.cycles, cpu.pc), (2, 0x8002));

    // taken within the page: 3 cycles
    cpu.load_and_reset(vec![0xD0, 0x01]);
    cpu.flags.remove(CpuFlags::ZERO);
    assert_eq!(cpu.execute(), None);
    assert_eq!((cpu.cycles, cpu.pc), (3, 0x8003));

    // taken into another page: 4 cycles
    cpu.load_and_reset(vec![0xD0, 0xFC]);
    cpu.flags.remove(CpuFlags::ZERO);
    assert_eq!(cpu.execute(), None);
    assert_eq!((cpu.cycles, cpu.pc), (4, 0x7FFE));
}

#[test]
fn branch_taken_and_not_taken() {
    // BNE +1, BRK, INX
    let mut cpu = new_cpu();
    cpu.load_and_reset(vec![0xD0, 0x01, 0x00, 0xE8]);
    cpu.flags.remove(CpuFlags::ZERO);
    cpu.run();
    assert_eq!(cpu.x, 1);

    cpu.load_and_reset(vec![0xD0, 0x01, 0x00, 0xE8]);
    cpu.flags.insert(CpuFlags::ZERO);
    cpu.run();
    assert_eq!(cpu.x, 0);
}

#[test]
fn jsr_and_rts_meet() {
    // JSR $8005, INY, BRK, INX, RTS
    let mut cpu = new_cpu();
    cpu.load_and_reset(vec![0x20, 0x05, 0x80, 0xC8, 0x00, 0xE8, 0x60]);
    assert_eq!(cpu.step(), None);
    assert_eq!(cpu.pc, 0x8005);
    // the return address on the stack is that of the last byte of JSR
    assert_eq!(cpu.mem_read(0x01FD), 0x80);
    assert_eq!(cpu.mem_read(0x01FC), 0x02);
    assert_eq!(cpu.run(), Some(Stop::Break));
    assert_eq!((cpu.x, cpu.y), (1, 1));
}

#[test]
fn indirect_jump_reads_its_high_byte_from_the_same_page() {
    let mut cpu = new_cpu();
    cpu.mem_write(0x06FF, 0xAA);
    cpu.mem_write(0x0600, 0x01);
    cpu.mem_write(0x0700, 0x05);
    cpu.load_and_reset(vec![0x6C, 0xFF, 0x06]);
    assert_eq!(cpu.get_relative_address(&AddressingMode::Indirect, cpu.pc), 0x01AA);
    assert_eq!(cpu.execute(), None);
    assert_eq!(cpu.pc, 0x01AA);

    // elsewhere the pointer is read as it lies
    cpu.mem_write(0x0610, 0x34);
    cpu.mem_write(0x0611, 0x12);
    cpu.load_and_reset(vec![0x6C, 0x10, 0x06]);
    assert_eq!(cpu.get_relative_address(&AddressingMode::Indirect, cpu.pc), 0x1234);
}

#[test]
fn addressing_modes_resolve() {
    let mut cpu = new_cpu();
    cpu.load_and_reset(vec![0x00, 0xF0, 0x03]);
    cpu.x = 0x20;
    cpu.y = 0x30;
    cpu.mem_write(0x10, 0x78);
    cpu.mem_write(0x11, 0x56);
    cpu.mem_write(0xF0, 0xF0);
    cpu.mem_write(0xF1, 0x04);
    let pc = cpu.pc;
    assert_eq!(cpu.get_relative_address(&AddressingMode::Immediate, pc), 0x8001);
    assert_eq!(cpu.get_relative_address(&AddressingMode::ZeroPage, pc), 0x00F0);
    // the sum stays in page 0
    assert_eq!(cpu.get_relative_address(&AddressingMode::ZeroPage_X, pc), 0x0010);
    assert_eq!(cpu.get_relative_address(&AddressingMode::ZeroPage_Y, pc), 0x0020);
    assert_eq!(cpu.get_relative_address(&AddressingMode::Absolute, pc), 0x03F0);
    assert_eq!(cpu.get_relative_address(&AddressingMode::Absolute_X, pc), 0x0410);
    assert_eq!(cpu.get_relative_address(&AddressingMode::Absolute_Y, pc), 0x0420);
    // the pointer is at 0xF0 + X, in page 0
    assert_eq!(cpu.get_relative_address(&AddressingMode::Indirect_X, pc), 0x5678);
    // the pointer at 0xF0 plus Y
    assert_eq!(cpu.get_relative_address(&AddressingMode::Indirect_Y, pc), 0x04F0 + 0x30);
    assert_eq!(cpu.pc, pc);

    assert_eq!(cpu.peek_relative_address(&AddressingMode::Indirect_X, pc), 0x5678);
    assert_eq!(cpu.get_operand_address(&AddressingMode::Absolute), 0x03F0);
    assert_eq!(cpu.pc, pc + 2);
    assert_eq!(cpu.get_operand_address(&AddressingMode::Immediate), 0x8003);
    assert_eq!(cpu.pc, pc + 3);
}

#[test]
fn the_stack_wraps_round() {
    let mut cpu = new_cpu();
    cpu.sp = 0x00;
    cpu.stack_push(0x11);
    assert_eq!(cpu.sp, 0xFF);
    assert_eq!(cpu.mem_read(0x0100), 0x11);
    cpu.stack_push_u16(0xABCD);
    assert_eq!(cpu.sp, 0xFD);
    assert_eq!(cpu.mem_read(0x01FF), 0xAB);
    assert_eq!(cpu.mem_read(0x01FE), 0xCD);
    assert_eq!(cpu.stack_pop_u16(), 0xABCD);
    assert_eq!(cpu.stack_pop(), 0x11);
    assert_eq!(cpu.sp, 0x00);
}

#[test]
fn brk_pushes_and_goes_through_its_vector() {
    let mut prg_rom = vec![0u8; 0x8000];
    prg_rom[0x7FFE] = 0x34;
    prg_rom[0x7FFF] = 0x92;
    let mut cpu = cpu_with(prg_rom);
    cpu.pc = 0x8010;
    cpu.flags = CpuFlags::from_bits_truncate(0b1100_0001);
    cpu.cycles = 0;
    cpu.brk();
    assert_eq!(cpu.pc, 0x9234);
    assert_eq!(cpu.mem_read(0x01FD), 0x80);
    assert_eq!(cpu.mem_read(0x01FC), 0x12);
    assert_eq!(cpu.mem_read(0x01FB), 0b1111_0001);
    assert_eq!(cpu.flags.bits(), 0b1100_0101);
    assert_eq!(cpu.cycles, 7);
}

#[test]
fn an_interrupt_is_serviced_in_place_of_an_instruction() {
    let mut prg_rom = vec![0u8; 0x8000];
    // the handler, at 0x9000: INY, then BRK
    prg_rom[0x1000] = 0xC8;
    // the program, at 0x8000: INX
    prg_rom[0x0000] = 0xE8;
    prg_rom[0x7FFA] = 0x00;
    prg_rom[0x7FFB] = 0x90;
    prg_rom[0x7FFC] = 0x00;
    prg_rom[0x7FFD] = 0x80;
    let mut cpu = cpu_with(prg_rom);
    cpu.reset();
    cpu.flags = CpuFlags::from_bits_truncate(0b0001_0001);
    cpu.bus.ppu.nmi_interrupt = Some(1);
    let cycles = cpu.bus.cycles;

    assert_eq!(cpu.step(), None);
    assert_eq!(cpu.pc, 0x9000);
    assert_eq!((cpu.x, cpu.y), (0, 0));
    assert_eq!(cpu.bus.ppu.nmi_interrupt, None);
    assert_eq!(cpu.bus.cycles, cycles + 2);
    assert_eq!(cpu.mem_read(0x01FD), 0x80);
    assert_eq!(cpu.mem_read(0x01FC), 0x00);
    // Break clear, the unused bit set
    assert_eq!(cpu.mem_read(0x01FB), 0b0010_0001);
    assert!(cpu.flags.contains(CpuFlags::INTERRUPT_DISABLE));

    // the request was taken: the next turn executes the handler
    assert_eq!(cpu.step(), None);
    assert_eq!((cpu.x, cpu.y), (0, 1));
    assert!(!cpu.service_nmi());
}

#[test]
fn the_picture_processor_interrupts_a_running_program() {
    let mut prg_rom = vec![0u8; 0x8000];
    // 0x8000: LDA #$80, STA $2000, JMP $8005
    let program = [0xA9, 0x80, 0x8D, 0x00, 0x20, 0x4C, 0x05, 0x80];
    prg_rom[..program.len()].copy_from_slice(&program);
    // the handler, at 0x9000: INX, then an unknown opcode to stop
    prg_rom[0x1000] = 0xE8;
    prg_rom[0x1001] = 0x02;
    prg_rom[0x7FFA] = 0x00;
    prg_rom[0x7FFB] = 0x90;
    prg_rom[0x7FFC] = 0x00;
    prg_rom[0x7FFD] = 0x80;
    let mut cpu = cpu_with(prg_rom);
    cpu.reset();
    assert_eq!(cpu.run_steps(100_000), Some(Stop::UnknownOpcode(0x02)));
    assert_eq!(cpu.x, 1);
    assert_eq!(cpu.bus.ppu.scanline, 241);
}

#[test]
fn shifts_and_rotates() {
    let mut cpu = new_cpu();
    cpu.a = 0b1000_0001;
    cpu.flags.insert(CpuFlags::CARRY);
    cpu.ror(0, true);
    assert_eq!(cpu.a, 0b1100_0000);
    assert!(cpu.flags.contains(CpuFlags::CARRY));
    assert!(cpu.flags.contains(CpuFlags::NEGATIVE));

    cpu.a = 0b1000_0001;
    cpu.flags.remove(CpuFlags::CARRY);
    cpu.ror(0, true);
    assert_eq!(cpu.a, 0b0100_0000);
    assert!(cpu.flags.contains(CpuFlags::CARRY));

    cpu.a = 0b0100_0000;
    cpu.rol(0, true);
    assert_eq!(cpu.a, 0b1000_0001);
    assert!(!cpu.flags.contains(CpuFlags::CARRY));

    cpu.mem_write(0x20, 0b1000_0001);
    cpu.asl(0x20, false);
    assert_eq!(cpu.mem_read(0x20), 0b0000_0010);
    assert!(cpu.flags.contains(CpuFlags::CARRY));
    cpu.lsr(0x20, false);
    assert_eq!(cpu.mem_read(0x20), 0b0000_0001);
    assert!(!cpu.flags.contains(CpuFlags::CARRY));
    // the accumulator was not touched
    assert_eq!(cpu.a, 0b1000_0001);
}

#[test]
fn unofficial_instructions() {
    // LAX $10 loads A and X
    let mut cpu = new_cpu();
    cpu.mem_write(0x10, 0x8F);
    cpu.load_and_reset(vec![0xA7, 0x10]);
    assert_eq!(cpu.execute(), None);
    assert_eq!((cpu.a, cpu.x, cpu.cycles), (0x8F, 0x8F, 3));
    assert!(cpu.flags.contains(CpuFlags::NEGATIVE));

    // SAX $11 stores A & X
    cpu.load_and_reset(vec![0x87, 0x11]);
    cpu.a = 0b1100_1100;
    cpu.x = 0b1010_1010;
    assert_eq!(cpu.execute(), None);
    assert_eq!(cpu.mem_read(0x11), 0b1000_1000);

    // DCP $12 decrements and compares
    cpu.mem_write(0x12, 0x11);
    cpu.load_and_reset(vec![0xC7, 0x12]);
    cpu.a = 0x10;
    assert_eq!(cpu.execute(), None);
    assert_eq!(cpu.mem_read(0x12), 0x10);
    assert!(cpu.flags.contains(CpuFlags::ZERO) && cpu.flags.contains(CpuFlags::CARRY));
    assert_eq!(cpu.cycles, 5);

    // ISB $13 increments and subtracts
    cpu.mem_write(0x13, 0x01);
    cpu.load_and_reset(vec![0xE7, 0x13]);
    cpu.a = 0x10;
    cpu.flags.insert(CpuFlags::CARRY);
    assert_eq!(cpu.execute(), None);
    assert_eq!(cpu.mem_read(0x13), 0x02);
    assert_eq!(cpu.a, 0x0E);

    // SLO $14 shifts and ORs
    cpu.mem_write(0x14, 0x81);
    cpu.load_and_reset(vec![0x07, 0x14]);
    cpu.a = 0x01;
    assert_eq!(cpu.execute(), None);
    assert_eq!(cpu.mem_read(0x14), 0x02);
    assert_eq!(cpu.a, 0x03);
    assert!(cpu.flags.contains(CpuFlags::CARRY));

    // RLA, SRE, RRA
    cpu.mem_write(0x15, 0x40);
    cpu.load_and_reset(vec![0x27, 0x15]);
    cpu.a = 0xFF;
    cpu.flags.insert(CpuFlags::CARRY);
    assert_eq!(cpu.execute(), None);
    assert_eq!((cpu.mem_read(0x15), cpu.a), (0x81, 0x81));

    cpu.mem_write(0x16, 0x03);
    cpu.load_and_reset(vec![0x47, 0x16]);
    cpu.a = 0xFF;
    assert_eq!(cpu.execute(), None);
    assert_eq!((cpu.mem_read(0x16), cpu.a), (0x01, 0xFE));

    cpu.mem_write(0x17, 0x02);
    cpu.load_and_reset(vec![0x67, 0x17]);
    cpu.a = 0x10;
    cpu.flags.remove(CpuFlags::CARRY);
    assert_eq!(cpu.execute(), None);
    assert_eq!((cpu.mem_read(0x17), cpu.a), (0x01, 0x11));

    // the unofficial SBC is SBC
    cpu.load_and_reset(vec![0xEB, 0x01]);
    cpu.a = 0x10;
    cpu.flags.insert(CpuFlags::CARRY);
    assert_eq!(cpu.execute(), None);
    assert_eq!((cpu.a, cpu.cycles), (0x0F, 2));

    // the unofficial NOPs skip their operands
    for (program, len, cycles) in [
        (vec![0x1A], 1u16, 2u8),
        (vec![0x80, 0xFF], 2, 2),
        (vec![0x04, 0xFF], 2, 3),
        (vec![0x14, 0xFF], 2, 4),
        (vec![0x0C, 0xFF, 0xFF], 3, 4),
        (vec![0x1C, 0xFF, 0x01], 3, 4),
    ] {
        cpu.load_and_reset(program);
        cpu.x = 0;
        assert_eq!(cpu.execute(), None);
        assert_eq!((cpu.pc, cpu.cycles), (0x8000 + len, cycles));
    }
    // with an index that crosses a page, one cycle more
    cpu.load_and_reset(vec![0x1C, 0xFF, 0x01]);
    cpu.x = 1;
    assert_eq!(cpu.execute(), None);
    assert_eq!(cpu.cycles, 5);

    // ANC copies Negative into Carry
    cpu.load_and_reset(vec![0x0B, 0x80]);
    cpu.a = 0xFF;
    assert_eq!(cpu.execute(), None);
    assert_eq!(cpu.a, 0x80);
    assert!(cpu.flags.contains(CpuFlags::CARRY));
}

#[test]
fn ldx_and_stx_index_with_y() {
    let mut cpu = new_cpu();
    cpu.mem_write(0x25, 0x99);
    // LDX $20,Y
    cpu.load_and_reset(vec![0xB6, 0x20]);
    cpu.y = 5;
    cpu.x = 9;
    assert_eq!(cpu.execute(), None);
    assert_eq!(cpu.x, 0x99);
    // STX $30,Y
    cpu.load_and_reset(vec![0x96, 0x30]);
    cpu.y = 5;
    cpu.x = 0x42;
    assert_eq!(cpu.execute(), None);
    assert_eq!(cpu.mem_read(0x35), 0x42);
    // LDX $0220,Y
    cpu.mem_write(0x0225, 0x77);
    cpu.load_and_reset(vec![0xBE, 0x20, 0x02]);
    cpu.y = 5;
    assert_eq!(cpu.execute(), None);
    assert_eq!(cpu.x, 0x77);
}

#[test]
fn zero_and_negative_follow_the_value() {
    let mut cpu = new_cpu();
    cpu.flags = CpuFlags::from_bits_truncate(0b0100_0001);
    cpu.zero_negative_flag(0);
    assert_eq!(cpu.flags.bits(), 0b0100_0011);
    cpu.zero_negative_flag(0x80);
    assert_eq!(cpu.flags.bits(), 0b1100_0001);
    cpu.zero_negative_flag(0x7F);
    assert_eq!(cpu.flags.bits(), 0b0100_0001);
}

#[test]
fn bit_tests_without_touching_the_accumulator() {
    let mut cpu = new_cpu();
    cpu.a = 0x0F;
    cpu.mem_write(0x50, 0xC0);
    cpu.bit(0x50);
    assert_eq!(cpu.a, 0x0F);
    assert!(cpu.flags.contains(CpuFlags::ZERO));
    assert!(cpu.flags.contains(CpuFlags::OVERFLOW));
    assert!(cpu.flags.contains(CpuFlags::NEGATIVE));
}

#[test]
fn mode_names() {
    assert_eq!(AddressingMode::ZeroPage_X.name(), "ZeroPage_X");
    assert_eq!(AddressingMode::NoneAddressing.name(), "NoneAddressing");
    assert_eq!(AddressingMode::Indirect.name(), "Indirect");
}

#[test]
fn instructions_are_as_long_as_the_table_says() {
    for op in 0..=255u8 {
        let jumps = [0x00, 0x20, 0x40, 0x60, 0x4C, 0x6C].contains(&op) || op % 32 == 0x10;
        let mut cpu = new_cpu();
        // somewhere to go for the indirect jump
        cpu.mem_write(0x0210, 0x34);
        cpu.mem_write(0x0211, 0x12);
        cpu.load_and_reset(vec![op, 0x10, 0x02]);
        cpu.x = 3;
        cpu.y = 5;
        let clock = cpu.bus.cycles;
        match cpu.execute() {
            None => {
                // the cycles of the instruction have reached the bus
                assert!(cpu.cycles >= 2 && cpu.cycles <= 8, "opcode {:#04x}", op);
                assert_eq!(cpu.bus.cycles, clock + cpu.cycles as usize);
                assert_eq!(cpu.bus.ppu.cycles, 21 + 3 * cpu.cycles as usize);
                if !jumps {
                    let row = nes::op::OpCode::lookup(op).unwrap();
                    assert_eq!(cpu.pc, 0x8000 + row.len as u16, "opcode {:#04x}", op);
                }
            }
            Some(Stop::Break) => assert_eq!(op, 0x00),
            Some(Stop::UnknownOpcode(unknown)) => {
                assert_eq!(unknown, op);
                assert_eq!(cpu.bus.cycles, clock);
            }
            Some(stop) => panic!("opcode {:#04x} stopped with {:?}", op, stop),
        }
    }
}

#[test]
fn the_processor_can_test_its_bus() {
    let mut cpu = new_cpu();
    assert!(cpu.is_well_formed());
    cpu.bus.ppu.scanline = 1000;
    assert!(!cpu.is_well_formed());
}

#[test]
fn the_stack_guard_halts_on_the_outermost_return() {
    // INX, RTS
    let mut cpu = new_cpu();
    cpu.stack_guard = true;
    assert_eq!(cpu.load_and_run(vec![0xE8, 0x60]), Some(Stop::HaltSignal));
    assert_eq!(cpu.x, 1);
    assert!(cpu.halted);
    assert_eq!(cpu.sp, 0xFF);

    // a return from a subroutine that was called is not its business
    let mut cpu = new_cpu();
    cpu.stack_guard = true;
    assert_eq!(
        cpu.load_and_run(vec![0x20, 0x05, 0x80, 0xC8, 0x00, 0xE8, 0x60]),
        Some(Stop::Break)
    );
    assert_eq!((cpu.x, cpu.y), (1, 1));
    assert!(!cpu.halted);

    // without the guard the stack wraps as the hardware's does
    let mut cpu = new_cpu();
    cpu.mem_write(0x01FE, 0x33);
    cpu.mem_write(0x01FF, 0x02);
    cpu.load_and_reset(vec![0x60]);
    assert_eq!(cpu.step(), None);
    assert_eq!(cpu.pc, 0x0234);
    assert!(!cpu.halted);
}

#[test]
fn rti_returns_from_handlers() {
    let mut prg_rom = vec![0u8; 0x8000];
    // 0x8000: INX, INX; the interrupt handler at 0x9000: INY, RTI
    prg_rom[0x0000] = 0xE8;
    prg_rom[0x0001] = 0xE8;
    prg_rom[0x1000] = 0xC8;
    prg_rom[0x1001] = 0x40;
    prg_rom[0x7FFA] = 0x00;
    prg_rom[0x7FFB] = 0x90;
    prg_rom[0x7FFC] = 0x00;
    prg_rom[0x7FFD] = 0x80;
    let mut cpu = cpu_with(prg_rom);
    cpu.reset();
    cpu.flags = CpuFlags::from_bits_truncate(0b1101_0001);
    assert_eq!(cpu.step(), None);
    cpu.bus.ppu.nmi_interrupt = Some(1);
    // the interrupt, INY, RTI
    assert_eq!(cpu.step(), None);
    assert_eq!(cpu.step(), None);
    assert_eq!(cpu.step(), None);
    assert_eq!(cpu.pc, 0x8001);
    assert_eq!(cpu.sp, 0xFD);
    // as pushed: Break clear, the unused bit set, the rest as INX left it
    assert_eq!(cpu.flags.bits(), 0b0110_0001);
    assert_eq!(cpu.step(), None);
    assert_eq!((cpu.x, cpu.y), (2, 1));

    // BRK and RTI right after it
    let mut cpu = new_cpu();
    cpu.pc = 0x0300;
    cpu.cycles = 0;
    cpu.flags = CpuFlags::from_bits_truncate(0b1100_0001);
    cpu.brk();
    cpu.rti();
    assert_eq!(cpu.pc, 0x0301);
    assert_eq!(cpu.flags.bits(), 0b1111_0001);
    assert_eq!(cpu.sp, 0xFD);
}
