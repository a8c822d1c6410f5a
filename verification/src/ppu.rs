//! The picture processing unit, as far as the processor can observe it: its
//! eight registers, its memories, and the beam position that decides when a
//! frame ends and when the processor is interrupted.

use crate::ppu_reg::addrreg::AddrRegister;
use crate::ppu_reg::controlreg::ControlRegister;
use crate::ppu_reg::maskreg::MaskRegister;
use crate::ppu_reg::scrollreg::ScrollRegister;
use crate::ppu_reg::statusreg::StatusRegister;
use crate::rom::Mirroring;
use vstd::prelude::*;

verus! {

/// Dots in one scanline.
pub const DOTS_PER_LINE: usize = 341;

/// Scanlines in one frame.
pub const LINES_PER_FRAME: u16 = 262;

/// The scanline on which vertical blanking starts.
pub const VBLANK_LINE: u16 = 241;

pub struct PPU {
    pub chr_rom: Vec<u8>,
    pub palette_table: [u8; 32],
    pub vram: [u8; 2048],
    pub oam_data: [u8; 256],
    pub oam_addr: u8,
    pub internal_data_buf: u8,
    pub addr: AddrRegister,
    pub status: StatusRegister,
    pub ctrl: ControlRegister,
    pub mask: MaskRegister,
    pub scroll: ScrollRegister,
    pub mirroring: Mirroring,
    pub scanline: u16,
    pub cycles: usize,
    pub nmi_interrupt: Option<u8>,
}

/// The picture processor as a mathematical value.
pub struct PpuState {
    pub chr_rom: Seq<u8>,
    pub palette: Seq<u8>,
    pub vram: Seq<u8>,
    pub oam: Seq<u8>,
    pub oam_addr: u8,
    pub data_buf: u8,
    pub addr: AddrRegister,
    pub status: StatusRegister,
    pub ctrl: ControlRegister,
    pub mask: MaskRegister,
    pub scroll: ScrollRegister,
    pub mirroring: Mirroring,
    pub scanline: u16,
    pub dots: usize,
    pub nmi: Option<u8>,
}

/// The cell of the 2 KiB of nametable memory that video address `addr`,
/// from `0x2000` up to `0x3EFF`, falls on under the given wiring.
///
/// The four logical tables of 1 KiB are laid over the two physical ones:
/// side by side under vertical wiring, one above the other under horizontal
/// wiring. A four-screen cartridge brings memory of its own, which is not
/// modelled: its upper two tables fall on the lower two.
pub open spec fn mirror_index(mirroring: Mirroring, addr: u16) -> int {
    let index = (addr - 0x2000) % 0x1000;
    let table = index / 0x400;
    let offset = index % 0x400;
    match mirroring {
        Mirroring::VERTICAL => (table % 2) * 0x400 + offset,
        Mirroring::HORIZONTAL => (table / 2) * 0x400 + offset,
        Mirroring::FOURSCREEN => index % 0x800,
    }
}

/// The palette cell that video address `addr`, from `0x3F00` up, falls on.
/// The 32 cells repeat, and the first cell of each sprite palette is the
/// first cell of the background palette of the same number.
pub open spec fn palette_index(addr: u16) -> int {
    let index = (addr - 0x3f00) % 32;
    if index % 4 == 0 && index >= 16 {
        index - 16
    } else {
        index
    }
}

impl PpuState {
    /// The memories have their sizes and the beam is inside the frame.
    pub open spec fn wf(self) -> bool {
        &&& self.palette.len() == 32
        &&& self.vram.len() == 2048
        &&& self.oam.len() == 256
        &&& self.addr.wf()
        &&& self.scanline < LINES_PER_FRAME
        &&& self.dots < DOTS_PER_LINE
    }

    /// Sprite 0 sits on the current scanline, at or left of dot `dot`, and
    /// sprites are shown.
    pub open spec fn sprite_zero_hit(self, dot: int) -> bool {
        self.oam[0] == self.scanline && self.oam[3] <= dot && self.mask.sprites_shown()
    }

    /// The beam after `cycles` more dots. At most one scanline ends.
    ///
    /// At the end of a scanline the sprite 0 flag is raised if sprite 0 was
    /// hit on it. When line 241 starts, vertical blanking starts: the flag
    /// is raised, the sprite 0 flag dropped, and the interrupt requested if
    /// the control register enables it. When the last line ends the frame
    /// is over: the beam is back on line 0, both flags are dropped and a
    /// request not yet taken is withdrawn.
    pub open spec fn tick(self, cycles: u8) -> PpuState {
        let total = self.dots + cycles;
        if total < DOTS_PER_LINE {
            PpuState { dots: total as usize, ..self }
        } else {
            let hit = if self.sprite_zero_hit(total) {
                self.status.with(StatusRegister::ZEROHIT, true)
            } else {
                self.status
            };
            let line = self.scanline + 1;
            let blank = if line == VBLANK_LINE {
                hit.with(StatusRegister::VBLANK, true).with(StatusRegister::ZEROHIT, false)
            } else {
                hit
            };
            let nmi = if line == VBLANK_LINE && self.ctrl.nmi_enabled() {
                Some(1u8)
            } else {
                self.nmi
            };
            if line >= LINES_PER_FRAME {
                PpuState {
                    dots: (total - DOTS_PER_LINE) as usize,
                    scanline: 0,
                    nmi: None,
                    status: blank.with(StatusRegister::ZEROHIT, false).with(
                        StatusRegister::VBLANK,
                        false,
                    ),
                    ..self
                }
            } else {
                PpuState {
                    dots: (total - DOTS_PER_LINE) as usize,
                    scanline: line as u16,
                    nmi,
                    status: blank,
                    ..self
                }
            }
        }
    }

    /// `cycles` more dots end the frame.
    pub open spec fn frame_ends(self, cycles: u8) -> bool {
        self.dots + cycles >= DOTS_PER_LINE && self.scanline + 1 >= LINES_PER_FRAME
    }

    /// After a write to the control register. Enabling the interrupt while
    /// vertical blanking is on requests it at once.
    pub open spec fn write_ctrl(self, value: u8) -> PpuState {
        let ctrl = ControlRegister { bits: value };
        PpuState {
            ctrl,
            nmi: if !self.ctrl.nmi_enabled() && ctrl.nmi_enabled() && self.status.in_vblank() {
                Some(1u8)
            } else {
                self.nmi
            },
            ..self
        }
    }

    /// After a read of the status register: blanking flag dropped, both
    /// write latches back at their first byte.
    pub open spec fn read_status(self) -> PpuState {
        PpuState {
            status: self.status.with(StatusRegister::VBLANK, false),
            addr: AddrRegister { hi_ptr: true, ..self.addr },
            scroll: ScrollRegister { latch: false, ..self.scroll },
            ..self
        }
    }

    /// After a write to the sprite data port.
    pub open spec fn write_oam_data(self, value: u8) -> PpuState {
        PpuState {
            oam: self.oam.update(self.oam_addr as int, value),
            oam_addr: ((self.oam_addr + 1) % 256) as u8,
            ..self
        }
    }

    /// After a write to the data port: the byte lands in nametable or
    /// palette memory (pattern memory is read-only), and the address moves
    /// on by the step of the control register.
    pub open spec fn write_data(self, value: u8) -> PpuState {
        let addr = self.addr.value;
        let moved = PpuState { addr: self.addr.incremented(self.ctrl.step()), ..self };
        if addr < 0x2000 {
            moved
        } else if addr < 0x3f00 {
            PpuState { vram: self.vram.update(mirror_index(self.mirroring, addr), value), ..moved }
        } else {
            PpuState { palette: self.palette.update(palette_index(addr), value), ..moved }
        }
    }

    /// What a read of the data port returns: a palette cell at once, else
    /// what the previous read left in the buffer.
    pub open spec fn data_value(self) -> u8 {
        if self.addr.value < 0x3f00 {
            self.data_buf
        } else {
            self.palette[palette_index(self.addr.value)]
        }
    }

    /// After a read of the data port: the buffer holds the addressed cell
    /// of pattern or nametable memory (0 behind the end of the cartridge's
    /// pattern memory), and the address has moved on.
    pub open spec fn read_data(self) -> PpuState {
        let addr = self.addr.value;
        let moved = PpuState { addr: self.addr.incremented(self.ctrl.step()), ..self };
        if addr < 0x2000 {
            PpuState {
                data_buf: if addr < self.chr_rom.len() {
                    self.chr_rom[addr as int]
                } else {
                    0
                },
                ..moved
            }
        } else if addr < 0x3f00 {
            PpuState { data_buf: self.vram[mirror_index(self.mirroring, addr)], ..moved }
        } else {
            moved
        }
    }

    /// After a page of 256 bytes was copied into sprite memory, starting at
    /// the sprite address and wrapping round: the address is where it was.
    pub open spec fn oam_dma(self, data: Seq<u8>) -> PpuState {
        PpuState {
            oam: Seq::new(256, |j: int| data[(j - self.oam_addr + 256) % 256]),
            ..self
        }
    }
}

/// The interrupt is requested when vertical blanking starts, if the
/// control register enables it, and only then: dots that do not start
/// line 241 leave a request as it is, unless they end the frame, which
/// withdraws it.
pub proof fn lemma_blanking_requests_interrupt(p: PpuState, cycles: u8)
    requires
        p.wf(),
    ensures
        p.tick(cycles).wf(),
        p.scanline == VBLANK_LINE - 1 && p.dots + cycles >= DOTS_PER_LINE ==> p.tick(
            cycles,
        ).status.in_vblank() && (p.ctrl.nmi_enabled() ==> p.tick(cycles).nmi == Some(1u8)) && (
        !p.ctrl.nmi_enabled() ==> p.tick(cycles).nmi == p.nmi),
        !(p.dots + cycles >= DOTS_PER_LINE && (p.scanline == VBLANK_LINE - 1 || p.scanline
            == LINES_PER_FRAME - 1)) ==> p.tick(cycles).nmi == p.nmi && p.tick(
            cycles,
        ).status.in_vblank() == p.status.in_vblank(),
        p.frame_ends(cycles) ==> p.tick(cycles).nmi is None && !p.tick(cycles).status.in_vblank()
            && p.tick(cycles).scanline == 0,
{
    let b = p.status.bits;
    assert(((b | 0x40u8) & 0x80u8 == 0x80u8) == (b & 0x80u8 == 0x80u8) && ((((b | 0x40u8) | 0x80u8)
        & !0x40u8) & 0x80u8 == 0x80u8) && (((b | 0x80u8) & !0x40u8) & 0x80u8 == 0x80u8) && (((b
        & !0x40u8) & !0x80u8) & 0x80u8 != 0x80u8) && ((((b | 0x40u8) & !0x40u8) & !0x80u8) & 0x80u8
        != 0x80u8)) by (bit_vector);
}

/// Switching the interrupt on while vertical blanking lasts requests it at
/// once; any other write to the control register leaves a request as it
/// is.
pub proof fn lemma_enabling_in_blanking_requests_interrupt(p: PpuState, value: u8)
    ensures
        !p.ctrl.nmi_enabled() && value & 0x80 == 0x80 && p.status.in_vblank() ==> p.write_ctrl(
            value,
        ).nmi == Some(1u8),
        p.ctrl.nmi_enabled() || value & 0x80 != 0x80 || !p.status.in_vblank() ==> p.write_ctrl(
            value,
        ).nmi == p.nmi,
{
}

impl View for PPU {
    type V = PpuState;

    open spec fn view(&self) -> PpuState {
        PpuState {
            chr_rom: self.chr_rom@,
            palette: self.palette_table@,
            vram: self.vram@,
            oam: self.oam_data@,
            oam_addr: self.oam_addr,
            data_buf: self.internal_data_buf,
            addr: self.addr,
            status: self.status,
            ctrl: self.ctrl,
            mask: self.mask,
            scroll: self.scroll,
            mirroring: self.mirroring,
            scanline: self.scanline,
            dots: self.cycles,
            nmi: self.nmi_interrupt,
        }
    }
}

impl PPU {
    /// The beam is inside the frame and the video address inside its space.
    pub open spec fn wf(&self) -> bool {
        self@.wf()
    }

    /// Whether the beam is inside the frame and the video address inside
    /// its space.
    pub fn is_well_formed(&self) -> (ok: bool)
        ensures
            ok == self.wf(),
    {
        self.addr.get() < 0x4000 && self.scanline < LINES_PER_FRAME && self.cycles < DOTS_PER_LINE
    }

    /// A picture processor over 2 KiB of empty pattern memory.
    pub fn new_empty_rom() -> (ppu: PPU)
        ensures
            ppu.wf(),
            ppu@ == PPU::initial(Seq::new(2048, |i: int| 0u8), Mirroring::HORIZONTAL),
    {
        let chr_rom: Vec<u8> = vec![0; 2048];
        assert(chr_rom@ =~= Seq::new(2048, |i: int| 0u8));
        PPU::new(chr_rom, Mirroring::HORIZONTAL)
    }

    /// The state at power-on: memories cleared, registers zero, the beam
    /// 21 dots into line 0, no interrupt requested.
    pub open spec fn initial(chr_rom: Seq<u8>, mirroring: Mirroring) -> PpuState {
        PpuState {
            chr_rom,
            palette: Seq::new(32, |i: int| 0u8),
            vram: Seq::new(2048, |i: int| 0u8),
            oam: Seq::new(256, |i: int| 0u8),
            oam_addr: 0,
            data_buf: 0,
            addr: AddrRegister { value: 0, hi_ptr: true },
            status: StatusRegister { bits: 0 },
            ctrl: ControlRegister { bits: 0 },
            mask: MaskRegister { bits: 0 },
            scroll: ScrollRegister { scroll_x: 0, scroll_y: 0, latch: false },
            mirroring,
            scanline: 0,
            dots: 21,
            nmi: None,
        }
    }

    pub fn new(chr_rom: Vec<u8>, mirroring: Mirroring) -> (ppu: PPU)
        ensures
            ppu.wf(),
            ppu@ == PPU::initial(chr_rom@, mirroring),
    {
        let ppu = PPU {
            chr_rom: chr_rom,
            palette_table: [0;32],
            vram: [0;2048],
            oam_data: [0;256],
            oam_addr: 0,
            internal_data_buf: 0,
            addr: AddrRegister::new(),
            status: StatusRegister::new(),
            ctrl: ControlRegister::new(),
            mask: MaskRegister::new(),
            scroll: ScrollRegister::new(),
            mirroring: mirroring,
            scanline: 0,
            cycles: 21,
            nmi_interrupt: None,
        };
        assert(ppu.palette_table@ =~= Seq::new(32, |i: int| 0u8));
        assert(ppu.vram@ =~= Seq::new(2048, |i: int| 0u8));
        assert(ppu.oam_data@ =~= Seq::new(256, |i: int| 0u8));
        ppu
    }

    pub fn is_sprite_zero_hit(&self, cycle: usize) -> (hit: bool)
        ensures
            hit == self@.sprite_zero_hit(cycle as int),
    {
        let y = self.oam_data[0] as usize;
        let x = self.oam_data[3] as usize;
        (y == self.scanline as usize) && x <= cycle && self.mask.show_sprites()
    }

    /// Moves the beam on by `cycles` dots and says whether that ended the
    /// frame.
    pub fn tick(&mut self, cycles: u8) -> (new_frame: bool)
        requires
            old(self).wf(),
        ensures
            final(self).wf(),
            final(self)@ == old(self)@.tick(cycles),
            new_frame == old(self)@.frame_ends(cycles),
    {
        self.cycles += cycles as usize;
        if self.cycles >= DOTS_PER_LINE {
            if self.is_sprite_zero_hit(self.cycles) {
                self.status.set_sprite_zero_hit(true);
            }
            self.cycles = self.cycles - DOTS_PER_LINE;
            self.scanline += 1;

            if self.scanline == VBLANK_LINE {
                self.status.set_vblank_status(true);
                self.status.set_sprite_zero_hit(false);
                if self.ctrl.generate_vblank_nmi() {
                    self.nmi_interrupt = Some(1);
                }
            }
            if self.scanline >= LINES_PER_FRAME {
                self.scanline = 0;
                self.nmi_interrupt = None;
                self.status.set_sprite_zero_hit(false);
                self.status.reset_vblank_status();
                return true;
            }
        }
        return false;
    }

    /// A write to `$2000`.
    pub fn write_to_ctrl(&mut self, value: u8)
        ensures
            final(self)@ == old(self)@.write_ctrl(value),
    {
        let before_nmi_status = self.ctrl.generate_vblank_nmi();
        self.ctrl.update(value);
        if !before_nmi_status && self.ctrl.generate_vblank_nmi() && self.status.is_in_vblank() {
            self.nmi_interrupt = Some(1);
        }
    }

    /// A write to `$2001`.
    pub fn write_to_mask(&mut self, val: u8)
        ensures
            final(self)@ == (PpuState { mask: MaskRegister { bits: val }, ..old(self)@ }),
    {
        self.mask.update(val);
    }

    /// A read of `$2002`.
    pub fn read_status(&mut self) -> (ret: u8)
        ensures
            ret == old(self).status.bits,
            final(self)@ == old(self)@.read_status(),
    {
        let ret = self.status.get_status();
        self.status.clear_vblank();
        self.addr.reset_latch();
        self.scroll.reset_latch();
        ret
    }

    /// A write to `$2003`.
    pub fn write_to_oam_addr(&mut self, val: u8)
        ensures
            final(self)@ == (PpuState { oam_addr: val, ..old(self)@ }),
    {
        self.oam_addr = val;
    }

    /// A read of `$2004`.
    pub fn read_oam_data(&self) -> (ret: u8)
        ensures
            ret == self@.oam[self.oam_addr as int],
    {
        self.oam_data[self.oam_addr as usize]
    }

    /// A write to `$2004`.
    pub fn write_to_oam_data(&mut self, val: u8)
        ensures
            final(self)@ == old(self)@.write_oam_data(val),
    {
        self.oam_data[self.oam_addr as usize] = val;
        self.oam_addr = self.oam_addr.wrapping_add(1);
    }

    /// A write to `$2005`.
    pub fn write_to_ppuscroll(&mut self, val: u8)
        ensures
            final(self)@ == (PpuState { scroll: old(self).scroll.written(val), ..old(self)@ }),
    {
        self.scroll.write(val);
    }

    /// A write to `$2006`.
    pub fn write_to_ppu_addr(&mut self, val: u8)
        ensures
            final(self)@ == (PpuState { addr: old(self).addr.updated(val), ..old(self)@ }),
            final(self).addr.wf(),
    {
        self.addr.update(val);
    }

    /// A write to `$2007`.
    pub fn write_to_data(&mut self, val: u8)
        requires
            old(self).addr.wf(),
        ensures
            final(self)@ == old(self)@.write_data(val),
            final(self).addr.wf(),
    {
        let addr = self.addr.get();
        if addr < 0x2000 {
        } else if addr < 0x3f00 {
            let index = self.mirror_vram_addr(addr);
            self.vram[index as usize] = val;
        } else {
            let index = PPU::mirror_palette_addr(addr);
            self.palette_table[index as usize] = val;
        }
        self.increment_vram_addr();
    }

    fn increment_vram_addr(&mut self)
        requires
            old(self).addr.wf(),
        ensures
            final(self)@ == (PpuState {
                addr: old(self).addr.incremented(old(self).ctrl.step()),
                ..old(self)@
            }),
            final(self).addr.wf(),
    {
        self.addr.increment(self.ctrl.vram_addr_increment());
    }

    /// A read of `$2007`.
    pub fn read_data(&mut self) -> (ret: u8)
        requires
            old(self).addr.wf(),
        ensures
            ret == old(self)@.data_value(),
            final(self)@ == old(self)@.read_data(),
            final(self).addr.wf(),
    {
        let addr = self.addr.get();
        self.increment_vram_addr();

        if addr < 0x2000 {
            let result = self.internal_data_buf;
            self.internal_data_buf = if (addr as usize) < self.chr_rom.len() {
                self.chr_rom[addr as usize]
            } else {
                0
            };
            result
        } else if addr < 0x3f00 {
            let result = self.internal_data_buf;
            let index = self.mirror_vram_addr(addr);
            self.internal_data_buf = self.vram[index as usize];
            result
        } else {
            let index = PPU::mirror_palette_addr(addr);
            self.palette_table[index as usize]
        }
    }

    /// What a read of `$2007` would return, without the read taking
    /// place.
    pub fn peek_data(&self) -> (ret: u8)
        ensures
            ret == self@.data_value(),
    {
        let addr = self.addr.get();
        if addr < 0x3f00 {
            self.internal_data_buf
        } else {
            let index = PPU::mirror_palette_addr(addr);
            self.palette_table[index as usize]
        }
    }

    /// The cell of nametable memory behind a video address.
    pub fn mirror_vram_addr(&self, addr: u16) -> (index: u16)
        requires
            0x2000 <= addr < 0x3f00,
        ensures
            index == mirror_index(self.mirroring, addr),
            index < 2048,
    {
        let vram_index = (addr - 0x2000) % 0x1000;
        let name_table = vram_index / 0x400;
        match (&self.mirroring, name_table) {
            (Mirroring::VERTICAL, 2) | (Mirroring::VERTICAL, 3) => vram_index - 0x800,
            (Mirroring::HORIZONTAL, 2) => vram_index - 0x400,
            (Mirroring::HORIZONTAL, 1) => vram_index - 0x400,
            (Mirroring::HORIZONTAL, 3) => vram_index - 0x800,
            (Mirroring::FOURSCREEN, _) => vram_index % 0x800,
            _ => vram_index,
        }
    }

    /// The palette cell behind a video address.
    pub fn mirror_palette_addr(addr: u16) -> (index: u16)
        requires
            0x3f00 <= addr,
        ensures
            index == palette_index(addr),
            index < 32,
    {
        let index = (addr - 0x3f00) % 32;
        if index == 0x10 || index == 0x14 || index == 0x18 || index == 0x1c {
            index - 0x10
        } else {
            index
        }
    }

    /// Copies a page into sprite memory, as a write to `$4014` does.
    pub fn write_oam_dma(&mut self, data: &[u8; 256])
        ensures
            final(self)@ == old(self)@.oam_dma(data@),
    {
        let ghost start = self.oam_addr;
        let mut i: usize = 0;
        while i < 256
            invariant
                i <= 256,
                self.oam_addr == (start + i) % 256,
                self@ == (PpuState { oam: self@.oam, oam_addr: self.oam_addr, ..old(self)@ }),
                forall|k: int| 0 <= k < i ==> self.oam_data@[(start + k) % 256] == data@[k],
            decreases 256 - i,
        {
            self.oam_data[self.oam_addr as usize] = data[i];
            self.oam_addr = self.oam_addr.wrapping_add(1);
            i += 1;
        }
        assert forall|j: int| 0 <= j < 256 implies self.oam_data@[j] == data@[(j - start + 256)
            % 256] by {
            let k = (j - start + 256) % 256;
            assert((start + k) % 256 == j);
        }
        assert(self@.oam =~= old(self)@.oam_dma(data@).oam);
    }
}

} // verus!
