//! The 6502 processor: its registers, its view of memory and its stack.
//!
//! The instructions themselves are in the modules below: what they compute
//! (`alu`), where they find their operand (`addressing`), what each does to
//! the processor (`ops`), and how an opcode byte selects among them
//! (`decode`, `exec`).

pub mod addressing;
pub mod alu;
pub mod decode;
pub mod exec;
pub mod laws;
pub mod ops;

use crate::bus::Bus;
use crate::bus::BusState;
use crate::flags::CpuFlags;
use vstd::prelude::*;

verus! {

/// Something the processor can read bytes from and write bytes to, by
/// 16-bit address. A read may change what is read from: some devices
/// notice being looked at.
pub trait Mem {
    /// The device as a mathematical value.
    type State;

    /// The value of this device.
    spec fn mem_state(&self) -> Self::State;

    /// What the device needs to hold of itself to work.
    spec fn mem_wf(&self) -> bool;

    /// What a read of `addr` returns.
    spec fn read_value(state: Self::State, addr: u16) -> u8;

    /// The device after a read of `addr`.
    spec fn after_read(state: Self::State, addr: u16) -> Self::State;

    /// The device after `data` was written to `addr`.
    spec fn after_write(state: Self::State, addr: u16, data: u8) -> Self::State;

    fn mem_read(&mut self, addr: u16) -> (data: u8)
        requires
            old(self).mem_wf(),
        ensures
            final(self).mem_wf(),
            data == Self::read_value(old(self).mem_state(), addr),
            final(self).mem_state() == Self::after_read(old(self).mem_state(), addr),
    ;

    fn mem_write(&mut self, addr: u16, data: u8)
        requires
            old(self).mem_wf(),
        ensures
            final(self).mem_wf(),
            final(self).mem_state() == Self::after_write(old(self).mem_state(), addr, data),
    ;

    /// Reads two bytes, low byte first; the second address wraps round.
    fn mem_read_u16(&mut self, pos: u16) -> (data: u16)
        requires
            old(self).mem_wf(),
        ensures
            final(self).mem_wf(),
            data == Self::read_value(
                Self::after_read(old(self).mem_state(), pos),
                next_address(pos),
            ) * 256 + Self::read_value(old(self).mem_state(), pos),
            final(self).mem_state() == Self::after_read(
                Self::after_read(old(self).mem_state(), pos),
                next_address(pos),
            ),
    ;

    /// Writes two bytes, low byte first; the second address wraps round.
    fn mem_write_u16(&mut self, pos: u16, data: u16)
        requires
            old(self).mem_wf(),
        ensures
            final(self).mem_wf(),
            final(self).mem_state() == Self::after_write(
                Self::after_write(old(self).mem_state(), pos, (data % 256) as u8),
                next_address(pos),
                (data / 256) as u8,
            ),
    ;
}

/// The address behind `pos`, wrapping round at the top.
pub open spec fn next_address(pos: u16) -> u16 {
    if pos == 0xffff {
        0
    } else {
        (pos + 1) as u16
    }
}

/// Where an instruction finds its operand.
#[allow(non_camel_case_types)]
#[derive(Clone, Copy, Debug, PartialEq, Eq, Structural)]
pub enum AddressingMode {
    Immediate,
    ZeroPage,
    ZeroPage_X,
    ZeroPage_Y,
    Absolute,
    Absolute_X,
    Absolute_Y,
    Indirect,
    Indirect_X,
    Indirect_Y,
    NoneAddressing,
    Accumulator,
    Relative,
}

impl AddressingMode {
    /// The mode's name.
    pub fn name(&self) -> (s: &'static str)
        ensures
            s@ == match *self {
                AddressingMode::Immediate => "Immediate"@,
                AddressingMode::ZeroPage => "ZeroPage"@,
                AddressingMode::ZeroPage_X => "ZeroPage_X"@,
                AddressingMode::ZeroPage_Y => "ZeroPage_Y"@,
                AddressingMode::Absolute => "Absolute"@,
                AddressingMode::Absolute_X => "Absolute_X"@,
                AddressingMode::Absolute_Y => "Absolute_Y"@,
                AddressingMode::Indirect => "Indirect"@,
                AddressingMode::Indirect_X => "Indirect_X"@,
                AddressingMode::Indirect_Y => "Indirect_Y"@,
                AddressingMode::NoneAddressing => "NoneAddressing"@,
                AddressingMode::Accumulator => "Accumulator"@,
                AddressingMode::Relative => "Relative"@,
            },
    {
        match self {
            AddressingMode::Immediate => "Immediate",
            AddressingMode::ZeroPage => "ZeroPage",
            AddressingMode::ZeroPage_X => "ZeroPage_X",
            AddressingMode::ZeroPage_Y => "ZeroPage_Y",
            AddressingMode::Absolute => "Absolute",
            AddressingMode::Absolute_X => "Absolute_X",
            AddressingMode::Absolute_Y => "Absolute_Y",
            AddressingMode::Indirect => "Indirect",
            AddressingMode::Indirect_X => "Indirect_X",
            AddressingMode::Indirect_Y => "Indirect_Y",
            AddressingMode::NoneAddressing => "NoneAddressing",
            AddressingMode::Accumulator => "Accumulator",
            AddressingMode::Relative => "Relative",
        }
    }
}

/// The stack pointer at power-on and after a reset.
pub const STACK_RESET: u8 = 0xFD;

/// The page that holds the stack.
pub const STACK: u16 = 0x0100;

/// The status byte at power-on and after a reset: interrupts disabled.
pub const FLAGS_RESET: u8 = 0b0010_0100;

/// Where the address of the interrupt handler is kept.
pub const NMI_VECTOR: u16 = 0xFFFA;

/// Where the address of the first instruction is kept.
pub const RESET_VECTOR: u16 = 0xFFFC;

/// Where the address of the software-break handler is kept.
pub const BRK_VECTOR: u16 = 0xFFFE;

pub struct CPU {
    pub pc: u16,
    pub a: u8,
    pub x: u8,
    pub y: u8,
    pub sp: u8,
    pub flags: CpuFlags,
    pub bus: Bus,
    /// Makes the processor stop before its next instruction. It is set from
    /// outside, or by the stack guard.
    pub halted: bool,
    /// The cycles of the instruction being executed.
    pub cycles: u8,
    /// Switches the stack guard on: a pop that moves the stack pointer
    /// above its reset value then halts the processor in place of
    /// reading the stack. The hardware has no such guard; it serves
    /// programs that end by returning from their outermost subroutine.
    pub stack_guard: bool,
}

/// The processor, with the bus and all on it, as a mathematical value.
pub struct CpuState {
    pub pc: u16,
    pub a: u8,
    pub x: u8,
    pub y: u8,
    pub sp: u8,
    pub flags: CpuFlags,
    pub bus: BusState,
    pub halted: bool,
    pub cycles: u8,
    pub stack_guard: bool,
}

impl View for CPU {
    type V = CpuState;

    open spec fn view(&self) -> CpuState {
        CpuState {
            pc: self.pc,
            a: self.a,
            x: self.x,
            y: self.y,
            sp: self.sp,
            flags: self.flags,
            bus: self.bus@,
            halted: self.halted,
            cycles: self.cycles,
            stack_guard: self.stack_guard,
        }
    }
}

/// The size of the cartridge code that `load` makes.
pub const PROGRAM_IMAGE_SIZE: usize = 0x8000;

/// The cartridge code that holds `program`: 32 KiB, with the program at the
/// start, zeros behind it, and the address `0x8000`, low byte first, in the
/// two bytes that the processor reads as the reset vector.
pub open spec fn program_image(program: Seq<u8>) -> Seq<u8> {
    Seq::new(
        PROGRAM_IMAGE_SIZE as nat,
        |i: int|
            if i == PROGRAM_IMAGE_SIZE - 4 {
                0x00u8
            } else if i == PROGRAM_IMAGE_SIZE - 3 {
                0x80u8
            } else if i < program.len() {
                program[i]
            } else {
                0u8
            },
    )
}

/// An address after a step up or down of less than 64 KiB, wrapped round
/// at both ends of the address space.
pub open spec fn wrap16(addr: int) -> u16 {
    if addr >= 0x10000 {
        (addr - 0x10000) as u16
    } else if addr < 0 {
        (addr + 0x10000) as u16
    } else {
        addr as u16
    }
}

/// A byte after a step up or down of less than 256, wrapped round at both
/// ends.
pub open spec fn wrap8(v: int) -> u8 {
    if v >= 0x100 {
        (v - 0x100) as u8
    } else if v < 0 {
        (v + 0x100) as u8
    } else {
        v as u8
    }
}

impl CpuState {
    pub open spec fn wf(self) -> bool {
        self.bus.wf()
    }

    /// A read of one byte: what it returns, and the processor after it.
    pub open spec fn read(self, addr: u16) -> (u8, CpuState) {
        (self.bus.read_value(addr), CpuState { bus: self.bus.after_read(addr), ..self })
    }

    /// A read of two bytes, low byte first.
    pub open spec fn read_u16(self, pos: u16) -> (u16, CpuState) {
        (self.bus.read_u16_value(pos), CpuState { bus: self.bus.after_read_u16(pos), ..self })
    }

    pub open spec fn write(self, addr: u16, data: u8) -> CpuState {
        CpuState { bus: self.bus.write(addr, data), ..self }
    }

    pub open spec fn write_u16(self, pos: u16, data: u16) -> CpuState {
        CpuState { bus: self.bus.write_u16(pos, data), ..self }
    }

    /// Zero and Negative set from `value`.
    pub open spec fn with_zn(self, value: u8) -> CpuState {
        CpuState { flags: self.flags.with_zn(value), ..self }
    }

    pub open spec fn with_flag(self, mask: u8, on: bool) -> CpuState {
        CpuState { flags: self.flags.with(mask, on), ..self }
    }

    pub open spec fn add_cycles(self, n: int) -> CpuState {
        CpuState { cycles: (self.cycles + n) as u8, ..self }
    }

    /// The address of the stack cell that `sp` points at.
    pub open spec fn stack_addr(sp: u8) -> u16 {
        (STACK + sp) as u16
    }

    /// A byte pushed: it lands where the stack pointer points, and the
    /// pointer moves down, from 0 round to 255.
    pub open spec fn push(self, data: u8) -> CpuState {
        CpuState { sp: wrap8(self.sp - 1), ..self.write(Self::stack_addr(self.sp), data) }
    }

    /// Two bytes pushed, high byte first.
    pub open spec fn push_u16(self, data: u16) -> CpuState {
        self.push((data / 256) as u8).push((data % 256) as u8)
    }

    /// The stack guard is on and a pop would move the stack pointer above
    /// its reset value.
    pub open spec fn pop_is_guarded(self) -> bool {
        self.stack_guard && wrap8(self.sp + 1) > STACK_RESET
    }

    /// A byte popped: the pointer moves up, from 255 round to 0, and the
    /// byte is read where it then points. Where the stack guard steps in,
    /// nothing is read: the processor is halted and the byte is 0.
    pub open spec fn pop(self) -> (u8, CpuState) {
        let sp = wrap8(self.sp + 1);
        if self.pop_is_guarded() {
            (0, CpuState { sp, halted: true, ..self })
        } else {
            CpuState { sp, ..self }.read(Self::stack_addr(sp))
        }
    }

    /// Two bytes popped, low byte first.
    pub open spec fn pop_u16(self) -> (u16, CpuState) {
        let (lo, s1) = self.pop();
        let (hi, s2) = s1.pop();
        ((hi * 256 + lo) as u16, s2)
    }

    /// A program loaded: the cartridge's code is replaced by an image of
    /// 32 KiB that holds the program from `0x8000` up and the address
    /// `0x8000` in the reset vector.
    pub open spec fn load(self, program: Seq<u8>) -> CpuState {
        CpuState { bus: BusState { prg_rom: program_image(program), ..self.bus }, ..self }
    }

    /// After a reset: registers cleared, stack pointer and status at their
    /// power-on values, the program counter read from the reset vector.
    pub open spec fn reset(self) -> CpuState {
        let s = CpuState {
            a: 0,
            x: 0,
            y: 0,
            flags: CpuFlags { bits: FLAGS_RESET },
            sp: STACK_RESET,
            ..self
        };
        let (pc, s1) = s.read_u16(RESET_VECTOR);
        CpuState { pc, ..s1 }
    }
}

impl Mem for CPU {
    type State = CpuState;

    open spec fn mem_state(&self) -> CpuState {
        self@
    }

    open spec fn mem_wf(&self) -> bool {
        self.wf()
    }

    open spec fn read_value(state: CpuState, addr: u16) -> u8 {
        state.read(addr).0
    }

    open spec fn after_read(state: CpuState, addr: u16) -> CpuState {
        state.read(addr).1
    }

    open spec fn after_write(state: CpuState, addr: u16, data: u8) -> CpuState {
        state.write(addr, data)
    }

    fn mem_read(&mut self, addr: u16) -> (data: u8)
        ensures
            (data, final(self)@) == old(self)@.read(addr),
    {
        self.bus.mem_read(addr)
    }

    fn mem_write(&mut self, addr: u16, data: u8) {
        self.bus.mem_write(addr, data);
    }

    fn mem_read_u16(&mut self, pos: u16) -> (data: u16)
        ensures
            (data, final(self)@) == old(self)@.read_u16(pos),
    {
        self.bus.mem_read_u16(pos)
    }

    fn mem_write_u16(&mut self, pos: u16, data: u16)
        ensures
            final(self)@ == old(self)@.write_u16(pos, data),
    {
        self.bus.mem_write_u16(pos, data);
    }
}

impl CPU {
    pub open spec fn wf(&self) -> bool {
        self@.wf()
    }

    /// Whether the devices on the bus are as they must be for the
    /// processor to run.
    pub fn is_well_formed(&self) -> (ok: bool)
        ensures
            ok == self.wf(),
    {
        self.bus.is_well_formed()
    }

    /// A processor at power-on, on the given bus.
    pub fn new(bus: Bus) -> (cpu: CPU)
        ensures
            cpu@ == (CpuState {
                pc: 0,
                a: 0,
                x: 0,
                y: 0,
                halted: false,
                sp: STACK_RESET,
                flags: CpuFlags { bits: FLAGS_RESET },
                bus: bus@,
                cycles: 7,
                stack_guard: false,
            }),
    {
        CPU {
            pc: 0,
            a: 0,
            x: 0,
            y: 0,
            halted: false,
            sp: STACK_RESET,
            flags: CpuFlags::from_bits_truncate(FLAGS_RESET),
            bus: bus,
            cycles: 7,
            stack_guard: false,
        }
    }

    /// Clears the registers and starts over at the address in the reset
    /// vector.
    pub fn reset(&mut self)
        requires
            old(self).wf(),
        ensures
            final(self).wf(),
            final(self)@ == old(self)@.reset(),
    {
        self.a = 0;
        self.x = 0;
        self.y = 0;
        self.flags = CpuFlags::from_bits_truncate(FLAGS_RESET);
        self.sp = STACK_RESET;
        self.pc = self.mem_read_u16(RESET_VECTOR);
    }

    pub fn reset_cycles(&mut self)
        ensures
            final(self)@ == (CpuState { cycles: 0, ..old(self)@ }),
    {
        self.cycles = 0;
    }

    pub fn add_cycles(&mut self, val: u8)
        requires
            old(self).cycles + val <= u8::MAX,
        ensures
            final(self)@ == old(self)@.add_cycles(val as int),
    {
        self.cycles += val;
    }

    /// Plugs a program in as the cartridge's code, from `0x8000` up, and
    /// points the reset vector at it. What of the program does not fit
    /// into 32 KiB is dropped.
    pub fn load(&mut self, program: Vec<u8>)
        ensures
            final(self)@ == old(self)@.load(program@),
            old(self).wf() ==> final(self).wf(),
    {
        let mut image: Vec<u8> = Vec::new();
        let mut i: usize = 0;
        while i < PROGRAM_IMAGE_SIZE
            invariant
                i <= PROGRAM_IMAGE_SIZE,
                image@.len() == i,
                forall|k: int| 0 <= k < i ==> image@[k] == program_image(program@)[k],
            decreases PROGRAM_IMAGE_SIZE - i,
        {
            let byte = if i == PROGRAM_IMAGE_SIZE - 4 {
                0x00
            } else if i == PROGRAM_IMAGE_SIZE - 3 {
                0x80
            } else if i < program.len() {
                program[i]
            } else {
                0
            };
            image.push(byte);
            i += 1;
        }
        assert(image@ =~= program_image(program@));
        self.bus.prg_rom = image;
    }

    /// Loads a program and resets the processor, ready to run it.
    pub fn load_and_reset(&mut self, program: Vec<u8>)
        requires
            old(self).wf(),
        ensures
            final(self).wf(),
            final(self)@ == old(self)@.load(program@).reset(),
    {
        self.load(program);
        self.reset();
    }

    /// Sets Zero if `value` is 0 and Negative if its top bit is set, and
    /// clears them otherwise. No other flag changes.
    pub fn zero_negative_flag(&mut self, value: u8)
        ensures
            final(self)@ == old(self)@.with_zn(value),
    {
        if value == 0 {
            self.flags.insert(CpuFlags::ZERO);
        } else {
            self.flags.remove(CpuFlags::ZERO);
        }
        if value >= 0x80 {
            self.flags.insert(CpuFlags::NEGATIVE);
        } else {
            self.flags.remove(CpuFlags::NEGATIVE);
        }
    }

    pub fn stack_push(&mut self, data: u8)
        requires
            old(self).wf(),
        ensures
            final(self).wf(),
            final(self)@ == old(self)@.push(data),
    {
        self.mem_write(STACK + self.sp as u16, data);
        self.sp = self.sp.wrapping_sub(1);
    }

    pub fn stack_push_u16(&mut self, data: u16)
        requires
            old(self).wf(),
        ensures
            final(self).wf(),
            final(self)@ == old(self)@.push_u16(data),
    {
        let hi = (data / 256) as u8;
        let lo = (data % 256) as u8;
        self.stack_push(hi);
        self.stack_push(lo);
    }

    pub fn stack_pop(&mut self) -> (data: u8)
        requires
            old(self).wf(),
        ensures
            final(self).wf(),
            (data, final(self)@) == old(self)@.pop(),
    {
        self.sp = self.sp.wrapping_add(1);
        if self.stack_guard && self.sp > STACK_RESET {
            self.halted = true;
            return 0;
        }
        self.mem_read(STACK + self.sp as u16)
    }

    pub fn stack_pop_u16(&mut self) -> (data: u16)
        requires
            old(self).wf(),
        ensures
            final(self).wf(),
            (data, final(self)@) == old(self)@.pop_u16(),
    {
        let lo = self.stack_pop() as u16;
        let hi = self.stack_pop() as u16;
        hi * 256 + lo
    }
}

} // verus!
