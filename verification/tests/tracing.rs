use nes::bus::Bus;
use nes::cpu::AddressingMode;
use nes::cpu::Mem;
use nes::cpu::CPU;
use nes::op::OpCode;
use nes::rom::Mirroring;
use nes::rom::Rom;
use nes::text::digit_str;
use nes::text::push_decimal;
use nes::text::push_hex_byte;
use nes::text::push_hex_number;
use nes::text::push_hex_word;
use nes::text::push_padded_left;
use nes::text::push_padded_right;
use nes::text::push_spaces;
use nes::trace::trace;

fn cpu_at(pc: u16, code: &[u8]) -> CPU {
    let mut prg_rom = vec![0u8; 0x8000];
    let start = pc as usize - 0x8000;
    prg_rom[start..start + code.len()].copy_from_slice(code);
    let mut cpu = CPU::new(Bus::new(Rom {
        prg_rom,
        chr_rom: vec![0; 2048],
        mapper: 0,
        screen_mirroring: Mirroring::HORIZONTAL,
    }));
    cpu.pc = pc;
    cpu
}

#[test]
fn trace_of_the_first_line_of_the_reference_log() {
    let cpu = cpu_at(0xC000, &[0x4C, 0xF5, 0xC5]);
    assert_eq!(
        trace(&cpu).unwrap(),
        "C000  4C F5 C5  JMP $C5F5                       A:00 X:00 Y:00 P:24 SP:FD PPU:  0, 21 CYC:7"
    );
}

#[test]
fn trace_of_each_addressing_mode() {
    let mut cpu = cpu_at(0x8000, &[0xA2, 0x01]);
    cpu.a = 1;
    cpu.x = 2;
    cpu.y = 3;
    assert_eq!(
        trace(&cpu).unwrap(),
        "8000  A2 01     LDX #$01                        A:01 X:02 Y:03 P:24 SP:FD PPU:  0, 21 CYC:7"
    );

    let mut cpu = cpu_at(0x8000, &[0x86, 0x10]);
    cpu.mem_write(0x10, 0x7F);
    assert!(trace(&cpu).unwrap().starts_with("8000  86 10     STX $10 = 7F                    A:00"));

    let mut cpu = cpu_at(0x8000, &[0xAD, 0x00, 0x02]);
    cpu.mem_write(0x0200, 0x5A);
    assert!(trace(&cpu).unwrap().starts_with("8000  AD 00 02  LDA $0200 = 5A                  A:00"));

    let cpu = cpu_at(0x8000, &[0x20, 0x34, 0x12]);
    assert!(trace(&cpu).unwrap().starts_with("8000  20 34 12  JSR $1234                       A:00"));

    let mut cpu = cpu_at(0x8000, &[0xB5, 0xF0]);
    cpu.x = 0x20;
    cpu.mem_write(0x10, 0x33);
    assert!(trace(&cpu).unwrap().starts_with("8000  B5 F0     LDA $F0,X @ 10 = 33             A:00"));

    let mut cpu = cpu_at(0x8000, &[0xB6, 0xF0]);
    cpu.y = 0x20;
    cpu.mem_write(0x10, 0x33);
    assert!(trace(&cpu).unwrap().starts_with("8000  B6 F0     LDX $F0,Y @ 10 = 33             A:00"));

    let mut cpu = cpu_at(0x8000, &[0xBD, 0xFF, 0x01]);
    cpu.x = 1;
    cpu.mem_write(0x0200, 0x44);
    assert!(trace(&cpu).unwrap().starts_with("8000  BD FF 01  LDA $01FF,X @ 0200 = 44         A:00"));

    let mut cpu = cpu_at(0x8000, &[0xB9, 0xFF, 0x01]);
    cpu.y = 1;
    cpu.mem_write(0x0200, 0x44);
    assert!(trace(&cpu).unwrap().starts_with("8000  B9 FF 01  LDA $01FF,Y @ 0200 = 44         A:00"));

    let mut cpu = cpu_at(0x8000, &[0x6C, 0xFF, 0x06]);
    cpu.mem_write(0x06FF, 0xAA);
    cpu.mem_write(0x0600, 0x01);
    assert!(trace(&cpu).unwrap().starts_with("8000  6C FF 06  JMP ($06FF) = 01AA              A:00"));

    let mut cpu = cpu_at(0x8000, &[0xA1, 0x80]);
    cpu.x = 0x90;
    cpu.mem_write(0x10, 0x00);
    cpu.mem_write(0x11, 0x03);
    cpu.mem_write(0x0300, 0x5B);
    assert!(trace(&cpu).unwrap().starts_with("8000  A1 80     LDA ($80,X) @ 10 = 0300 = 5B    A:00"));

    let mut cpu = cpu_at(0x8000, &[0xB1, 0x10]);
    cpu.y = 0x34;
    cpu.mem_write(0x10, 0xF0);
    cpu.mem_write(0x11, 0x02);
    cpu.mem_write(0x0324, 0x89);
    assert!(trace(&cpu).unwrap().starts_with("8000  B1 10     LDA ($10),Y = 02F0 @ 0324 = 89  A:00"));

    let cpu = cpu_at(0x8000, &[0x0A]);
    assert!(trace(&cpu).unwrap().starts_with("8000  0A        ASL A                           A:00"));

    let cpu = cpu_at(0x8000, &[0xEA]);
    assert!(trace(&cpu).unwrap().starts_with("8000  EA        NOP                             A:00"));

    // forwards, backwards, and an offset of 127, which the two bytes of
    // the branch wrap round
    let cpu = cpu_at(0x8000, &[0xD0, 0x05]);
    assert!(trace(&cpu).unwrap().starts_with("8000  D0 05     BNE $8007                       A:00"));
    let cpu = cpu_at(0x8000, &[0xD0, 0xFC]);
    assert!(trace(&cpu).unwrap().starts_with("8000  D0 FC     BNE $7FFE                       A:00"));
    let cpu = cpu_at(0x8000, &[0xD0, 0x7F]);
    assert!(trace(&cpu).unwrap().starts_with("8000  D0 7F     BNE $7F81                       A:00"));

    // an unofficial instruction starts a column earlier
    let mut cpu = cpu_at(0x8000, &[0xA7, 0x10]);
    cpu.mem_write(0x10, 0x7F);
    assert!(trace(&cpu).unwrap().starts_with("8000  A7 10    *LAX $10 = 7F                    A:00"));
}

#[test]
fn trace_changes_nothing() {
    let mut cpu = cpu_at(0x8000, &[0xAD, 0x02, 0x20]);
    cpu.bus.ppu.status.set_vblank_status(true);
    let line = trace(&cpu).unwrap();
    assert!(line.starts_with("8000  AD 02 20  LDA $2002 = 80"));
    assert!(cpu.bus.ppu.status.is_in_vblank());
    assert_eq!(trace(&cpu).unwrap(), line);
}

#[test]
fn trace_shows_the_clocks() {
    let mut cpu = cpu_at(0x8000, &[0xEA]);
    cpu.bus.ppu.scanline = 241;
    cpu.bus.ppu.cycles = 7;
    cpu.bus.cycles = 123456;
    cpu.sp = 0x0A;
    assert!(trace(&cpu).unwrap().ends_with("SP:0A PPU:241,  7 CYC:123456"));
}

#[test]
fn trace_knows_what_the_table_knows() {
    let cpu = cpu_at(0x8000, &[0x02]);
    assert_eq!(trace(&cpu), None);
    for code in 0..=255u8 {
        let cpu = cpu_at(0x8000, &[code, 0, 0]);
        assert_eq!(trace(&cpu).is_some(), OpCode::lookup(code).is_some());
    }
}

#[test]
fn table_of_opcodes() {
    let row = OpCode::lookup(0xBE).unwrap();
    assert_eq!((row.code, row.lit, row.len, row.mode), (0xBE, "LDX", 3, AddressingMode::Absolute_Y));
    let row = OpCode::lookup(0x00).unwrap();
    assert_eq!((row.lit, row.len, row.mode), ("BRK", 1, AddressingMode::NoneAddressing));
    let row = OpCode::lookup(0xE3).unwrap();
    assert_eq!((row.lit, row.len, row.mode), ("*ISB", 2, AddressingMode::Indirect_X));
    let row = OpCode::lookup(0x90).unwrap();
    assert_eq!((row.lit, row.len, row.mode), ("BCC", 2, AddressingMode::Relative));
    let row = OpCode::new(0x01, "ORA", 2, AddressingMode::Indirect_X);
    assert_eq!((row.code, row.lit, row.len), (0x01, "ORA", 2));

    let missing: Vec<u8> = (0..=255u8).filter(|code| OpCode::lookup(*code).is_none()).collect();
    assert_eq!(
        missing,
        vec![
            0x02, 0x12, 0x22, 0x32, 0x42, 0x52, 0x62, 0x72, 0x8B, 0x92, 0x9B, 0xAB, 0xB2, 0xBB,
            0xD2, 0xF2
        ]
    );
    for code in 0..=255u8 {
        if let Some(row) = OpCode::lookup(code) {
            assert_eq!(row.code, code);
            let len = match row.mode {
                AddressingMode::NoneAddressing | AddressingMode::Accumulator => 1,
                AddressingMode::Absolute
                | AddressingMode::Absolute_X
                | AddressingMode::Absolute_Y
                | AddressingMode::Indirect => 3,
                _ => 2,
            };
            assert_eq!(row.len, len);
        }
    }
}

#[test]
fn numbers_as_text() {
    assert_eq!(digit_str(0), "0");
    assert_eq!(digit_str(9), "9");
    assert_eq!(digit_str(10), "A");
    assert_eq!(digit_str(15), "F");

    let mut out = String::from(">");
    push_hex_byte(&mut out, 0x0F);
    push_hex_word(&mut out, 0x01AB);
    out.push('|');
    push_hex_number(&mut out, 0x0);
    out.push('|');
    push_hex_number(&mut out, 0xAB0);
    out.push('|');
    push_decimal(&mut out, 0);
    out.push('|');
    push_decimal(&mut out, 90210);
    assert_eq!(out, ">0F01AB|0|AB0|0|90210");

    let mut out = String::new();
    push_padded_right(&mut out, "ab", 4);
    out.push('|');
    push_padded_right(&mut out, "abcdef", 4);
    out.push('|');
    push_padded_left(&mut out, "7", 3);
    out.push('|');
    push_padded_left(&mut out, "1234", 3);
    out.push('|');
    push_spaces(&mut out, 2);
    out.push('|');
    assert_eq!(out, "ab  |abcdef|  7|1234|  |");
}
