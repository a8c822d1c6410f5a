//! The memory bus: it routes each 16-bit address of the processor to work
//! memory, to a register of the picture processor, to the joypad or to the
//! cartridge, and passes the processor's clock on.

use crate::controller::Controller;
use crate::cpu::next_address;
use crate::cpu::Mem;
use crate::ppu::PpuState;
use crate::ppu::PPU;
use crate::rom::Rom;
use vstd::prelude::*;

verus! {

/// The first address of the picture processor's registers.
pub const PPU_REGISTERS: u16 = 0x2000;

/// The first address behind the mirrors of those registers.
pub const IO_REGISTERS: u16 = 0x4000;

/// The address that copies a page into sprite memory.
pub const OAM_DMA: u16 = 0x4014;

/// The address of the first joypad.
pub const JOYPAD1: u16 = 0x4016;

/// The first address behind the input and output registers.
pub const UNMAPPED: u16 = 0x4018;

/// The first address of the cartridge's program code.
pub const PROGRAM_ROM: u16 = 0x8000;

/// Dots of the picture processor per cycle of the processor.
pub const DOTS_PER_CYCLE: u8 = 3;

pub struct Bus {
    pub cpu_vram: [u8; 2048],
    pub prg_rom: Vec<u8>,
    pub ppu: PPU,
    /// Processor cycles since power-on, counted modulo the machine word.
    pub cycles: usize,
    /// Frames completed since power-on, counted modulo the machine word.
    pub frames: usize,
    /// Reads and writes that reached nothing, counted modulo the machine
    /// word.
    pub ignored: usize,
    pub controller1: Controller,
}

/// The bus and the devices on it as a mathematical value.
pub struct BusState {
    pub ram: Seq<u8>,
    pub prg_rom: Seq<u8>,
    pub ppu: PpuState,
    pub cycles: usize,
    pub frames: usize,
    pub ignored: usize,
    pub pad: Controller,
}

impl BusState {
    pub open spec fn wf(self) -> bool {
        self.ram.len() == 2048 && self.ppu.wf()
    }

    /// The byte of program code behind `addr`, which is `0x8000` or above.
    /// A cartridge of exactly 16 KiB shows twice; behind the end of the
    /// code the bus reads 0.
    pub open spec fn prg_byte(self, addr: u16) -> u8 {
        let offset = addr - PROGRAM_ROM;
        let index = if self.prg_rom.len() == 0x4000 {
            offset % 0x4000
        } else {
            offset
        };
        if index < self.prg_rom.len() {
            self.prg_rom[index]
        } else {
            0
        }
    }

    /// No device answers a read of `addr`: it lies between the input and
    /// output registers and the cartridge's code.
    pub open spec fn read_is_ignored(addr: u16) -> bool {
        UNMAPPED <= addr < PROGRAM_ROM
    }

    /// No device takes a write to `addr`: it lies between the input and
    /// output registers and the cartridge's code, or is the status
    /// register of the picture processor, or is in the cartridge's code.
    pub open spec fn write_is_ignored(addr: u16) -> bool {
        UNMAPPED <= addr || (PPU_REGISTERS <= addr < IO_REGISTERS && addr % 8 == 2)
    }

    /// What a read of `addr` returns.
    ///
    /// Work memory shows four times below `0x2000`, the eight registers of
    /// the picture processor repeat up to `0x4000`, and of those only
    /// status (2), sprite data (4) and data (7) can be read. Whatever else
    /// is not the joypad or program code reads 0: the registers that can
    /// only be written, the sound registers, the second joypad, and what
    /// is on no device at all.
    #[verifier::opaque]
    pub open spec fn read_value(self, addr: u16) -> u8 {
        if addr < PPU_REGISTERS {
            self.ram[(addr % 0x800) as int]
        } else if addr < IO_REGISTERS {
            if addr % 8 == 2 {
                self.ppu.status.bits
            } else if addr % 8 == 4 {
                self.ppu.oam[self.ppu.oam_addr as int]
            } else if addr % 8 == 7 {
                self.ppu.data_value()
            } else {
                0
            }
        } else if addr == JOYPAD1 {
            self.pad.read_value()
        } else if addr >= PROGRAM_ROM {
            self.prg_byte(addr)
        } else {
            0
        }
    }

    /// The bus after a read of `addr`: reading the status or the data
    /// register of the picture processor, or the joypad, changes them, and
    /// a read that reaches no device is counted.
    #[verifier::opaque]
    pub open spec fn after_read(self, addr: u16) -> BusState {
        if PPU_REGISTERS <= addr < IO_REGISTERS && addr % 8 == 2 {
            BusState { ppu: self.ppu.read_status(), ..self }
        } else if PPU_REGISTERS <= addr < IO_REGISTERS && addr % 8 == 7 {
            BusState { ppu: self.ppu.read_data(), ..self }
        } else if addr == JOYPAD1 {
            BusState { pad: self.pad.after_read(), ..self }
        } else if Self::read_is_ignored(addr) {
            BusState { ignored: Self::counted(self.ignored, 1), ..self }
        } else {
            self
        }
    }

    /// The bus after the first `n` bytes of page `page` were read in turn.
    pub open spec fn dma_reads(self, page: u8, n: nat) -> BusState
        decreases n,
    {
        if n == 0 {
            self
        } else {
            self.dma_reads(page, (n - 1) as nat).after_read((page * 256 + n - 1) as u16)
        }
    }

    /// The 256 bytes that reading page `page` in turn returns.
    pub open spec fn dma_page(self, page: u8) -> Seq<u8> {
        Seq::new(
            256,
            |i: int| self.dma_reads(page, i as nat).read_value((page * 256 + i) as u16),
        )
    }

    /// The bus after `data` was written to `addr`.
    ///
    /// A write to `0x4014` reads the page numbered `data` and copies it
    /// into sprite memory. A write to what cannot be written (the status
    /// register, program code, what is on no device) is dropped and
    /// counted.
    #[verifier::opaque]
    pub open spec fn write(self, addr: u16, data: u8) -> BusState {
        if addr < PPU_REGISTERS {
            BusState { ram: self.ram.update((addr % 0x800) as int, data), ..self }
        } else if addr < IO_REGISTERS {
            let ppu = self.ppu;
            BusState {
                ppu: if addr % 8 == 0 {
                    ppu.write_ctrl(data)
                } else if addr % 8 == 1 {
                    PpuState { mask: crate::ppu_reg::maskreg::MaskRegister { bits: data }, ..ppu }
                } else if addr % 8 == 2 {
                    ppu
                } else if addr % 8 == 3 {
                    PpuState { oam_addr: data, ..ppu }
                } else if addr % 8 == 4 {
                    ppu.write_oam_data(data)
                } else if addr % 8 == 5 {
                    PpuState { scroll: ppu.scroll.written(data), ..ppu }
                } else if addr % 8 == 6 {
                    PpuState { addr: ppu.addr.updated(data), ..ppu }
                } else {
                    ppu.write_data(data)
                },
                ignored: if addr % 8 == 2 {
                    Self::counted(self.ignored, 1)
                } else {
                    self.ignored
                },
                ..self
            }
        } else if addr == OAM_DMA {
            let read = self.dma_reads(data, 256);
            BusState { ppu: read.ppu.oam_dma(self.dma_page(data)), ..read }
        } else if addr == JOYPAD1 {
            BusState { pad: self.pad.after_write(data), ..self }
        } else if Self::write_is_ignored(addr) {
            BusState { ignored: Self::counted(self.ignored, 1), ..self }
        } else {
            self
        }
    }

    /// The two bytes at `pos` as they stand, low byte first.
    pub open spec fn peek_u16(self, pos: u16) -> u16 {
        (self.read_value(next_address(pos)) * 256 + self.read_value(pos)) as u16
    }

    /// What a read of two bytes at `pos` returns, low byte first.
    pub open spec fn read_u16_value(self, pos: u16) -> u16 {
        (self.after_read(pos).read_value(next_address(pos)) * 256 + self.read_value(pos)) as u16
    }

    /// The bus after a read of two bytes at `pos`.
    pub open spec fn after_read_u16(self, pos: u16) -> BusState {
        self.after_read(pos).after_read(next_address(pos))
    }

    /// The bus after two bytes were written at `pos`, low byte first.
    pub open spec fn write_u16(self, pos: u16, data: u16) -> BusState {
        self.write(pos, (data % 256) as u8).write(next_address(pos), (data / 256) as u8)
    }

    /// A counter moved on by `step`, from the largest machine word round
    /// to 0.
    pub open spec fn counted(counter: usize, step: int) -> usize {
        if counter + step > usize::MAX {
            (counter + step - usize::MAX - 1) as usize
        } else {
            (counter + step) as usize
        }
    }

    /// The bus after `cycles` cycles of the processor, each worth three
    /// dots of the picture processor. A frame that they complete is
    /// counted.
    pub open spec fn tick(self, cycles: u8) -> BusState {
        BusState {
            cycles: Self::counted(self.cycles, cycles as int),
            frames: if self.ppu.frame_ends((cycles * DOTS_PER_CYCLE) as u8) {
                Self::counted(self.frames, 1)
            } else {
                self.frames
            },
            ppu: self.ppu.tick((cycles * DOTS_PER_CYCLE) as u8),
            ..self
        }
    }

    /// Where the clocks stand: the cycles and frames counted, and the dot
    /// and scanline of the beam.
    pub open spec fn clock(self) -> (usize, usize, usize, u16) {
        (self.cycles, self.frames, self.ppu.dots, self.ppu.scanline)
    }

    /// The bus after the processor took the interrupt request, if any.
    pub open spec fn nmi_taken(self) -> BusState {
        BusState { ppu: PpuState { nmi: None, ..self.ppu }, ..self }
    }
}

impl View for Bus {
    type V = BusState;

    open spec fn view(&self) -> BusState {
        BusState {
            ram: self.cpu_vram@,
            prg_rom: self.prg_rom@,
            ppu: self.ppu@,
            cycles: self.cycles,
            frames: self.frames,
            ignored: self.ignored,
            pad: self.controller1,
        }
    }
}

/// Reads and writes keep the devices on the bus well formed.
pub proof fn lemma_access_keeps_wf(b: BusState, addr: u16, data: u8)
    requires
        b.wf(),
    ensures
        b.after_read(addr).wf(),
        b.write(addr, data).wf(),
{
    reveal(BusState::after_read);
    reveal(BusState::write);
    lemma_dma_reads_keep_wf(b, data, 256);
}

/// Work memory shows four times: an address below `0x2000` stands for the
/// same cell as the address 2 KiB below it, for reading and for writing;
/// and a cell of work memory keeps what was written to it.
pub proof fn lemma_work_memory_mirrors(b: BusState, addr: u16, data: u8)
    requires
        b.wf(),
        addr < PPU_REGISTERS,
    ensures
        b.read_value(addr) == b.read_value((addr % 0x800) as u16),
        b.after_read(addr) == b,
        b.write(addr, data) == b.write((addr % 0x800) as u16, data),
        b.write(addr, data).read_value(addr) == data,
        forall|other: u16|
            other < PPU_REGISTERS && other % 0x800 != addr % 0x800 ==> b.write(
                addr,
                data,
            ).read_value(other) == b.read_value(other),
{
    reveal(BusState::read_value);
    reveal(BusState::after_read);
    reveal(BusState::write);
}

/// Reading work memory changes nothing, and no read changes what work
/// memory holds.
pub proof fn lemma_reads_keep_work_memory(b: BusState, addr: u16, cell: u16)
    requires
        cell < PPU_REGISTERS,
    ensures
        b.after_read(cell) == b,
        b.after_read(addr).read_value(cell) == b.read_value(cell),
        b.after_read_u16(addr).read_value(cell) == b.read_value(cell),
{
    reveal(BusState::read_value);
    reveal(BusState::after_read);
}

/// The clock moves nothing in work memory.
pub proof fn lemma_tick_keeps_work_memory(b: BusState, cycles: u8, cell: u16)
    requires
        cell < PPU_REGISTERS,
    ensures
        b.tick(cycles).read_value(cell) == b.read_value(cell),
{
    reveal(BusState::read_value);
}

/// The eight registers of the picture processor repeat every eight bytes
/// up to `0x4000`.
pub proof fn lemma_picture_registers_mirror(b: BusState, addr: u16, data: u8)
    requires
        PPU_REGISTERS <= addr < IO_REGISTERS,
    ensures
        b.read_value(addr) == b.read_value((PPU_REGISTERS + addr % 8) as u16),
        b.after_read(addr) == b.after_read((PPU_REGISTERS + addr % 8) as u16),
        b.write(addr, data) == b.write((PPU_REGISTERS + addr % 8) as u16, data),
{
    reveal(BusState::read_value);
    reveal(BusState::after_read);
    reveal(BusState::write);
}

/// The cartridge's code cannot be written, reading it changes nothing, and
/// a cartridge of 16 KiB shows in both halves of the window.
pub proof fn lemma_program_code_is_read_only(b: BusState, addr: u16, data: u8)
    requires
        addr >= PROGRAM_ROM,
    ensures
        b.after_read(addr) == b,
        b.write(addr, data) == (BusState { ignored: BusState::counted(b.ignored, 1), ..b }),
        forall|other: u16| #[trigger] b.write(addr, data).read_value(other) == b.read_value(other),
        b.prg_rom.len() == 0x4000 && addr >= 0xC000 ==> b.read_value(addr) == b.read_value(
            (addr - 0x4000) as u16,
        ),
{
    let counted = BusState { ignored: BusState::counted(b.ignored, 1), ..b };
    assert(b.after_read(addr) == b) by {
        reveal(BusState::after_read);
    }
    assert(b.write(addr, data) == counted) by {
        reveal(BusState::write);
    }
    assert forall|other: u16| #[trigger] counted.read_value(other) == b.read_value(other) by {
        reveal(BusState::read_value);
    }
    assert(b.prg_rom.len() == 0x4000 && addr >= 0xC000 ==> b.read_value(addr) == b.read_value(
        (addr - 0x4000) as u16,
    )) by {
        reveal(BusState::read_value);
    }
}

/// What is on no device reads 0, and reading it or writing to it changes
/// nothing but the count of such accesses.
pub proof fn lemma_unmapped_is_ignored(b: BusState, addr: u16, data: u8)
    requires
        UNMAPPED <= addr < PROGRAM_ROM,
    ensures
        b.read_value(addr) == 0,
        b.after_read(addr) == (BusState { ignored: BusState::counted(b.ignored, 1), ..b }),
        b.write(addr, data) == (BusState { ignored: BusState::counted(b.ignored, 1), ..b }),
{
    reveal(BusState::read_value);
    reveal(BusState::after_read);
    reveal(BusState::write);
}

/// No read and no write moves a clock: time passes only where the
/// processor tells the bus of its cycles.
pub proof fn lemma_access_keeps_the_clock(b: BusState, addr: u16, data: u8)
    ensures
        b.after_read(addr).clock() == b.clock(),
        b.write(addr, data).clock() == b.clock(),
{
    reveal(BusState::after_read);
    reveal(BusState::write);
    lemma_dma_reads_keep_the_clock(b, data, 256);
}

/// The reads of a page copy move no clock.
pub proof fn lemma_dma_reads_keep_the_clock(b: BusState, page: u8, n: nat)
    ensures
        b.dma_reads(page, n).clock() == b.clock(),
    decreases n,
{
    reveal(BusState::after_read);
    if n > 0 {
        lemma_dma_reads_keep_the_clock(b, page, (n - 1) as nat);
    }
}

/// The reads of a page copy keep the devices on the bus well formed.
pub proof fn lemma_dma_reads_keep_wf(b: BusState, page: u8, n: nat)
    requires
        b.wf(),
    ensures
        b.dma_reads(page, n).wf(),
    decreases n,
{
    reveal(BusState::after_read);
    if n > 0 {
        lemma_dma_reads_keep_wf(b, page, (n - 1) as nat);
    }
}

impl Bus {
    pub open spec fn wf(&self) -> bool {
        self@.wf()
    }

    /// The state at power-on with a cartridge in the slot: work memory
    /// cleared, seven cycles on the clock, no button pressed.
    pub open spec fn initial(rom: Rom) -> BusState {
        BusState {
            ram: Seq::new(2048, |i: int| 0u8),
            prg_rom: rom.prg_rom@,
            ppu: PPU::initial(rom.chr_rom@, rom.screen_mirroring),
            cycles: 7,
            frames: 0,
            ignored: 0,
            pad: Controller {
                strobe: false,
                button_index: 0,
                button_status: crate::controller::ControllerButton { bits: 0 },
            },
        }
    }

    /// Whether the devices on the bus are as they must be for the bus to
    /// work: the beam inside the frame, the video address inside its
    /// space.
    pub fn is_well_formed(&self) -> (ok: bool)
        ensures
            ok == self.wf(),
    {
        self.ppu.is_well_formed()
    }

    pub fn new(rom: Rom) -> (bus: Bus)
        ensures
            bus.wf(),
            bus@ == Bus::initial(rom),
    {
        let ppu = PPU::new(rom.chr_rom, rom.screen_mirroring);
        let bus = Bus {
            cpu_vram: [0;2048],
            prg_rom: rom.prg_rom,
            ppu: ppu,
            cycles: 7,
            frames: 0,
            ignored: 0,
            controller1: Controller::new(),
        };
        assert(bus.cpu_vram@ =~= Seq::new(2048, |i: int| 0u8));
        bus
    }

    pub fn read_prg_rom(&self, addr: u16) -> (data: u8)
        requires
            addr >= PROGRAM_ROM,
        ensures
            data == self@.prg_byte(addr),
    {
        let mut offset = addr - PROGRAM_ROM;
        if self.prg_rom.len() == 0x4000 && offset >= 0x4000 {
            offset = offset % 0x4000;
        }
        if (offset as usize) < self.prg_rom.len() {
            self.prg_rom[offset as usize]
        } else {
            0
        }
    }

    /// What a read of `addr` would return, without the read taking place.
    pub fn peek(&self, addr: u16) -> (data: u8)
        ensures
            data == self@.read_value(addr),
    {
        reveal(BusState::read_value);
        if addr < PPU_REGISTERS {
            self.cpu_vram[(addr % 0x800) as usize]
        } else if addr < IO_REGISTERS {
            let register = addr % 8;
            if register == 2 {
                self.ppu.status.get_status()
            } else if register == 4 {
                self.ppu.read_oam_data()
            } else if register == 7 {
                self.ppu.peek_data()
            } else {
                0
            }
        } else if addr == JOYPAD1 {
            self.controller1.peek()
        } else if addr >= PROGRAM_ROM {
            self.read_prg_rom(addr)
        } else {
            0
        }
    }

    /// The two bytes at `pos`, low byte first, without a read taking
    /// place.
    pub fn peek_u16(&self, pos: u16) -> (data: u16)
        ensures
            data == self@.peek_u16(pos),
    {
        let lo = self.peek(pos) as u16;
        let hi = self.peek(pos.wrapping_add(1)) as u16;
        hi * 256 + lo
    }

    /// Passes `cycles` cycles of the processor on to the clock and to the
    /// picture processor, and says whether that completed a frame.
    pub fn tick(&mut self, cycles: u8) -> (new_frame: bool)
        requires
            old(self).wf(),
            cycles * DOTS_PER_CYCLE <= u8::MAX,
        ensures
            final(self).wf(),
            final(self)@ == old(self)@.tick(cycles),
            new_frame == old(self)@.ppu.frame_ends((cycles * DOTS_PER_CYCLE) as u8),
    {
        self.cycles = self.cycles.wrapping_add(cycles as usize);
        let new_frame = self.ppu.tick(cycles * DOTS_PER_CYCLE);
        if new_frame {
            self.frames = self.frames.wrapping_add(1);
        }
        new_frame
    }

    /// Takes the interrupt request of the picture processor, if there is
    /// one: a request is handed out once.
    pub fn poll_nmi_status(&mut self) -> (nmi: Option<u8>)
        ensures
            nmi == old(self)@.ppu.nmi,
            final(self)@ == old(self)@.nmi_taken(),
    {
        let nmi = self.ppu.nmi_interrupt;
        self.ppu.nmi_interrupt = None;
        nmi
    }

    /// Reads page `page` byte by byte, as the sprite copy does.
    fn read_page(&mut self, page: u8) -> (buffer: [u8; 256])
        requires
            old(self).wf(),
        ensures
            final(self).wf(),
            buffer@ == old(self)@.dma_page(page),
            final(self)@ == old(self)@.dma_reads(page, 256),
    {
        let mut buffer: [u8; 256] = [0;256];
        let hi: u16 = page as u16 * 256;
        let mut i: u16 = 0;
        while i < 256
            invariant
                i <= 256,
                hi == page * 256,
                self.wf(),
                self@ == old(self)@.dma_reads(page, i as nat),
                forall|k: int| 0 <= k < i ==> buffer@[k] == old(self)@.dma_page(page)[k],
            decreases 256 - i,
        {
            buffer[i as usize] = self.mem_read(hi + i);
            i += 1;
        }
        assert(buffer@ =~= old(self)@.dma_page(page));
        buffer
    }
}

impl Mem for Bus {
    type State = BusState;

    open spec fn mem_state(&self) -> BusState {
        self@
    }

    open spec fn mem_wf(&self) -> bool {
        self.wf()
    }

    open spec fn read_value(state: BusState, addr: u16) -> u8 {
        state.read_value(addr)
    }

    open spec fn after_read(state: BusState, addr: u16) -> BusState {
        state.after_read(addr)
    }

    open spec fn after_write(state: BusState, addr: u16, data: u8) -> BusState {
        state.write(addr, data)
    }

    fn mem_read(&mut self, addr: u16) -> (data: u8) {
        reveal(BusState::read_value);
        reveal(BusState::after_read);
        if addr < PPU_REGISTERS {
            let mirror_down_addr = addr % 0x800;
            self.cpu_vram[mirror_down_addr as usize]
        } else if addr < IO_REGISTERS {
            let register = addr % 8;
            if register == 2 {
                self.ppu.read_status()
            } else if register == 4 {
                self.ppu.read_oam_data()
            } else if register == 7 {
                self.ppu.read_data()
            } else {
                0
            }
        } else if addr == JOYPAD1 {
            self.controller1.read()
        } else if addr >= PROGRAM_ROM {
            self.read_prg_rom(addr)
        } else if addr >= UNMAPPED {
            self.ignored = self.ignored.wrapping_add(1);
            0
        } else {
            0
        }
    }

    fn mem_write(&mut self, addr: u16, data: u8) {
        reveal(BusState::write);
        if addr < PPU_REGISTERS {
            let mirror_down_addr = addr % 0x800;
            self.cpu_vram[mirror_down_addr as usize] = data;
        } else if addr < IO_REGISTERS {
            let register = addr % 8;
            if register == 0 {
                self.ppu.write_to_ctrl(data);
            } else if register == 1 {
                self.ppu.write_to_mask(data);
            } else if register == 2 {
                self.ignored = self.ignored.wrapping_add(1);
            } else if register == 3 {
                self.ppu.write_to_oam_addr(data);
            } else if register == 4 {
                self.ppu.write_to_oam_data(data);
            } else if register == 5 {
                self.ppu.write_to_ppuscroll(data);
            } else if register == 6 {
                self.ppu.write_to_ppu_addr(data);
            } else {
                self.ppu.write_to_data(data);
            }
        } else if addr == OAM_DMA {
            let buffer = self.read_page(data);
            self.ppu.write_oam_dma(&buffer);
        } else if addr == JOYPAD1 {
            self.controller1.write(data);
        } else if addr >= UNMAPPED {
            self.ignored = self.ignored.wrapping_add(1);
        }
    }

    fn mem_read_u16(&mut self, pos: u16) -> (data: u16)
        ensures
            data == old(self)@.read_u16_value(pos),
            final(self)@ == old(self)@.after_read_u16(pos),
    {
        let lo = self.mem_read(pos) as u16;
        let hi = self.mem_read(pos.wrapping_add(1)) as u16;
        hi * 256 + lo
    }

    fn mem_write_u16(&mut self, pos: u16, data: u16)
        ensures
            final(self)@ == old(self)@.write_u16(pos, data),
    {
        let hi = (data / 256) as u8;
        let lo = (data % 256) as u8;
        self.mem_write(pos, lo);
        self.mem_write(pos.wrapping_add(1), hi);
    }
}

} // verus!
