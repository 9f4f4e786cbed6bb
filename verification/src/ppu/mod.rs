//! The picture processor: video memory, sprite memory, palette, the
//! memory-mapped registers and the scanline clock.

pub mod registers;
pub mod timing;

use vstd::prelude::*;
use crate::bits::{has_bits, with_bits};
use crate::cartridge::Mirroring;
use registers::addr::{addr_after_increment, addr_after_write, AddrRegister, VIDEO_ADDRESS_SPACE};
use registers::control::{ControlRegister, GENERATE_NMI, VRAM_ADDR_INCREMENT};
use registers::mask::{MaskRegister, SPRITE_RENDERING};
use registers::scroll::ScrollRegister;
use registers::status::{StatusRegister, SPRITE_0_HIT, VBLANK};

verus! {

/// Dots in one scanline.
pub const CYCLES_PER_SCANLINE: u16 = 341;

/// Scanlines in one frame.
pub const SCANLINES_PER_FRAME: u16 = 262;

/// The scanline on which vertical blanking starts.
pub const VBLANK_SCANLINE: u16 = 241;

/// First video address of the nametables.
pub const NAMETABLE_START: u16 = 0x2000;

/// First video address of the palette.
pub const PALETTE_START: u16 = 0x3F00;

pub const VRAM_SIZE: usize = 2048;

pub const OAM_SIZE: usize = 256;

pub const PALETTE_SIZE: usize = 32;

#[derive(Debug)]
pub struct NesPPU {
    pub chr_rom: Vec<u8>,
    pub palette_table: [u8; 32],
    pub vram: [u8; 2048],
    pub oam_data: [u8; 256],
    pub oam_addr: u8,
    pub addr: AddrRegister,
    pub ctrl: ControlRegister,
    pub mask: MaskRegister,
    pub status: StatusRegister,
    pub scroll: ScrollRegister,
    pub internal_data_buf: u8,
    pub scanline: u16,
    pub cycles: u16,
    pub mirroring: Mirroring,
    pub nmi_interrupt: Option<u8>,
}

/// The register file as the processor sees it.
pub trait PPU {
    fn write_to_ctrl(&mut self, value: u8);

    fn write_to_mask(&mut self, value: u8);

    fn read_status(&mut self) -> u8;

    fn write_to_oam_addr(&mut self, value: u8);

    fn write_to_oam_data(&mut self, value: u8);

    fn read_oam_data(&self) -> u8;

    fn write_to_scroll(&mut self, value: u8);

    fn write_to_ppu_addr(&mut self, value: u8);

    fn write_to_data(&mut self, value: u8);

    fn read_data(&mut self) -> u8;

    fn write_oam_dma(&mut self, value: &[u8; 256]);
}

/// The picture processor as a mathematical value.
pub struct PpuState {
    pub chr_rom: Seq<u8>,
    pub palette_table: Seq<u8>,
    pub vram: Seq<u8>,
    pub oam_data: Seq<u8>,
    pub oam_addr: u8,
    pub addr: u16,
    /// Whether the next byte written to the address register is the high one.
    pub addr_expects_high: bool,
    pub ctrl: u8,
    pub mask: u8,
    pub status: u8,
    pub scroll_x: u8,
    pub scroll_y: u8,
    /// Whether the next byte written to the scroll register is the vertical one.
    pub scroll_latch: bool,
    pub data_buffer: u8,
    pub scanline: u16,
    pub cycles: u16,
    pub mirroring: Mirroring,
    pub nmi_interrupt: Option<u8>,
}

/// Index into the two physical nametable banks of a video address: the
/// address is reduced to its 12 low bits, then the four logical tables are
/// folded onto the two banks.
pub open spec fn mirrored_vram_index(mirroring: Mirroring, addr: u16) -> u16 {
    let index = addr % 0x1000;
    let table = index / 0x400;
    match mirroring {
        Mirroring::VERTICAL => if table >= 2 {
            (index - 0x800) as u16
        } else {
            index
        },
        Mirroring::HORIZONTAL => if table == 0 {
            index
        } else if table == 3 {
            (index - 0x800) as u16
        } else {
            (index - 0x400) as u16
        },
    }
}

/// Index into the palette of a video address at or above its start: the
/// 32 entries repeat, and every fourth sprite entry is the background entry.
pub open spec fn palette_index(addr: u16) -> int {
    let index = (addr - PALETTE_START) % 32;
    if index >= 16 && index % 4 == 0 {
        index - 16
    } else {
        index
    }
}

/// Sprite memory after 256 bytes were written through the sprite address,
/// which started at `start` and wrapped: byte `k` lands at `start + k`.
pub open spec fn oam_after_dma(start: u8, data: Seq<u8>) -> Seq<u8> {
    Seq::new(OAM_SIZE as nat, |i: int| data[(i - start + 256) % 256])
}

/// Cycles that a sequence of ticks adds up to.
pub open spec fn total_cycles(ticks: Seq<u8>) -> nat
    decreases ticks.len(),
{
    if ticks.len() == 0 {
        0
    } else {
        ticks[0] as nat + total_cycles(ticks.drop_first())
    }
}

impl PpuState {
    /// The state at power-on.
    pub open spec fn power_on(chr_rom: Seq<u8>, mirroring: Mirroring) -> PpuState {
        PpuState {
            chr_rom,
            palette_table: Seq::new(PALETTE_SIZE as nat, |i: int| 0u8),
            vram: Seq::new(VRAM_SIZE as nat, |i: int| 0u8),
            oam_data: Seq::new(OAM_SIZE as nat, |i: int| 0u8),
            oam_addr: 0,
            addr: 0,
            addr_expects_high: true,
            ctrl: 0,
            mask: 0,
            status: 0,
            scroll_x: 0,
            scroll_y: 0,
            scroll_latch: false,
            data_buffer: 0,
            scanline: 0,
            cycles: 0,
            mirroring,
            nmi_interrupt: None,
        }
    }

    /// Whether the memories have their sizes and the counters and the
    /// address are in range.
    pub open spec fn wf(self) -> bool {
        &&& self.palette_table.len() == PALETTE_SIZE
        &&& self.vram.len() == VRAM_SIZE
        &&& self.oam_data.len() == OAM_SIZE
        &&& self.addr < VIDEO_ADDRESS_SPACE
        &&& self.scanline < SCANLINES_PER_FRAME
        &&& self.cycles < CYCLES_PER_SCANLINE
    }

    /// Cycles since the start of the frame.
    pub open spec fn frame_position(self) -> int {
        self.scanline * CYCLES_PER_SCANLINE + self.cycles
    }

    /// Sprite 0 lies on the current scanline at or before `cycle`, and
    /// sprites are rendered.
    pub open spec fn sprite_zero_hit(self, cycle: int) -> bool {
        &&& self.oam_data[0] == self.scanline
        &&& self.oam_data[3] <= cycle
        &&& has_bits(self.mask, SPRITE_RENDERING)
    }

    /// The pattern byte at a video address; past the end of the pattern
    /// data it is 0.
    pub open spec fn pattern_byte(self, addr: u16) -> u8 {
        if addr < self.chr_rom.len() {
            self.chr_rom[addr as int]
        } else {
            0
        }
    }

    pub open spec fn increment_vram_addr(self) -> PpuState {
        let step = if has_bits(self.ctrl, VRAM_ADDR_INCREMENT) {
            32u8
        } else {
            1u8
        };
        PpuState { addr: addr_after_increment(self.addr, step), ..self }
    }

    /// Storing the control byte raises the interrupt when that switches
    /// its generation on during vertical blanking.
    pub open spec fn write_to_ctrl(self, value: u8) -> PpuState {
        let raised = !has_bits(self.ctrl, GENERATE_NMI) && has_bits(value, GENERATE_NMI)
            && has_bits(self.status, VBLANK);
        PpuState {
            ctrl: value,
            nmi_interrupt: if raised {
                Some(1u8)
            } else {
                self.nmi_interrupt
            },
            ..self
        }
    }

    pub open spec fn write_to_mask(self, value: u8) -> PpuState {
        PpuState { mask: value, ..self }
    }

    /// Reading the status clears the blanking bit and resets both write
    /// latches; the byte read is the status before that.
    pub open spec fn read_status(self) -> (PpuState, u8) {
        (
            PpuState {
                status: with_bits(self.status, VBLANK, false),
                addr_expects_high: true,
                scroll_latch: false,
                ..self
            },
            self.status,
        )
    }

    pub open spec fn write_to_oam_addr(self, value: u8) -> PpuState {
        PpuState { oam_addr: value, ..self }
    }

    pub open spec fn write_to_oam_data(self, value: u8) -> PpuState {
        PpuState {
            oam_data: self.oam_data.update(self.oam_addr as int, value),
            oam_addr: ((self.oam_addr + 1) % 256) as u8,
            ..self
        }
    }

    pub open spec fn read_oam_data(self) -> u8 {
        self.oam_data[self.oam_addr as int]
    }

    pub open spec fn write_to_scroll(self, value: u8) -> PpuState {
        PpuState {
            scroll_x: if self.scroll_latch {
                self.scroll_x
            } else {
                value
            },
            scroll_y: if self.scroll_latch {
                value
            } else {
                self.scroll_y
            },
            scroll_latch: !self.scroll_latch,
            ..self
        }
    }

    pub open spec fn write_to_ppu_addr(self, value: u8) -> PpuState {
        PpuState {
            addr: addr_after_write(self.addr, self.addr_expects_high, value),
            addr_expects_high: !self.addr_expects_high,
            ..self
        }
    }

    /// A data write goes to the nametables or the palette; pattern memory
    /// is read-only. The address then moves on.
    pub open spec fn write_to_data(self, value: u8) -> PpuState {
        let stored = if self.addr < NAMETABLE_START {
            self
        } else if self.addr < PALETTE_START {
            PpuState {
                vram: self.vram.update(
                    mirrored_vram_index(self.mirroring, self.addr) as int,
                    value,
                ),
                ..self
            }
        } else {
            PpuState {
                palette_table: self.palette_table.update(palette_index(self.addr), value),
                ..self
            }
        };
        stored.increment_vram_addr()
    }

    /// A data read below the palette returns the buffer and refills it
    /// with the byte addressed; a palette read returns the byte addressed
    /// and refills the buffer with it. The address then moves on.
    pub open spec fn read_data(self) -> (PpuState, u8) {
        let moved = self.increment_vram_addr();
        if self.addr < NAMETABLE_START {
            (PpuState { data_buffer: self.pattern_byte(self.addr), ..moved }, self.data_buffer)
        } else if self.addr < PALETTE_START {
            (
                PpuState {
                    data_buffer: self.vram[mirrored_vram_index(self.mirroring, self.addr) as int],
                    ..moved
                },
                self.data_buffer,
            )
        } else {
            let value = self.palette_table[palette_index(self.addr)];
            (PpuState { data_buffer: value, ..moved }, value)
        }
    }

    pub open spec fn write_oam_dma(self, data: Seq<u8>) -> PpuState {
        PpuState { oam_data: oam_after_dma(self.oam_addr, data), ..self }
    }

    pub open spec fn poll_nmi_interrupt(self) -> (PpuState, Option<u8>) {
        (PpuState { nmi_interrupt: None, ..self }, self.nmi_interrupt)
    }

    /// One tick: the state after `cycles` more cycles, and whether that
    /// completed a frame.
    pub open spec fn tick(self, cycles: u8) -> (PpuState, bool) {
        let total = self.cycles + cycles;
        let status = if self.sprite_zero_hit(total) {
            with_bits(self.status, SPRITE_0_HIT, true)
        } else {
            self.status
        };
        if total < CYCLES_PER_SCANLINE {
            (PpuState { cycles: total as u16, status, ..self }, false)
        } else {
            let cycles_left = (total - CYCLES_PER_SCANLINE) as u16;
            let line = self.scanline + 1;
            let blanking = line == VBLANK_SCANLINE;
            let status = if blanking {
                with_bits(with_bits(status, VBLANK, true), SPRITE_0_HIT, false)
            } else {
                status
            };
            let nmi_interrupt = if blanking && has_bits(self.ctrl, GENERATE_NMI) {
                Some(1u8)
            } else {
                self.nmi_interrupt
            };
            if line >= SCANLINES_PER_FRAME {
                (
                    PpuState {
                        cycles: cycles_left,
                        scanline: 0,
                        nmi_interrupt: None,
                        status: with_bits(with_bits(status, SPRITE_0_HIT, false), VBLANK, false),
                        ..self
                    },
                    true,
                )
            } else {
                (
                    PpuState {
                        cycles: cycles_left,
                        scanline: line as u16,
                        nmi_interrupt,
                        status,
                        ..self
                    },
                    false,
                )
            }
        }
    }

    /// A sequence of ticks: the state after them, and how many of them
    /// completed a frame.
    pub open spec fn tick_all(self, ticks: Seq<u8>) -> (PpuState, nat)
        decreases ticks.len(),
    {
        if ticks.len() == 0 {
            (self, 0)
        } else {
            let (next, frame) = self.tick(ticks[0]);
            let (last, frames) = next.tick_all(ticks.drop_first());
            (
                last,
                if frame {
                    frames + 1
                } else {
                    frames
                },
            )
        }
    }
}

impl View for NesPPU {
    type V = PpuState;

    open spec fn view(&self) -> PpuState {
        PpuState {
            chr_rom: self.chr_rom@,
            palette_table: self.palette_table@,
            vram: self.vram@,
            oam_data: self.oam_data@,
            oam_addr: self.oam_addr,
            addr: self.addr.value(),
            addr_expects_high: self.addr.expects_high(),
            ctrl: self.ctrl@,
            mask: self.mask@,
            status: self.status@,
            scroll_x: self.scroll.scroll_x,
            scroll_y: self.scroll.scroll_y,
            scroll_latch: self.scroll.latch,
            data_buffer: self.internal_data_buf,
            scanline: self.scanline,
            cycles: self.cycles,
            mirroring: self.mirroring,
            nmi_interrupt: self.nmi_interrupt,
        }
    }
}

impl NesPPU {
    pub fn new_empty_rom() -> (ppu: NesPPU)
        ensures
            ppu@ == PpuState::power_on(Seq::new(2048, |i: int| 0u8), Mirroring::HORIZONTAL),
    {
        let chr_rom: Vec<u8> = vec![0; 2048];
        assert(chr_rom@ =~= Seq::new(2048, |i: int| 0u8));
        NesPPU::new(chr_rom, Mirroring::HORIZONTAL)
    }

    /// Takes the pending interrupt, if there is one.
    pub fn poll_nmi_interrupt(&mut self) -> (pending: Option<u8>)
        ensures
            (final(self)@, pending) == old(self)@.poll_nmi_interrupt(),
    {
        self.nmi_interrupt.take()
    }

    /// Advances the clock; the result says whether a frame was completed.
    pub fn tick(&mut self, cycles: u8) -> (frame: bool)
        ensures
            (final(self)@, frame) == old(self)@.tick(cycles),
    {
        let total: u32 = self.cycles as u32 + cycles as u32;
        if self.is_sprite_0_hit(total as usize) {
            self.status.set_sprite_zero_hit(true);
        }
        if total >= CYCLES_PER_SCANLINE as u32 {
            self.cycles = (total - CYCLES_PER_SCANLINE as u32) as u16;
            let line: u32 = self.scanline as u32 + 1;
            if line == VBLANK_SCANLINE as u32 {
                self.status.set_vblank_status(true);
                self.status.set_sprite_zero_hit(false);
                if self.ctrl.generate_vblank_nmi() {
                    self.nmi_interrupt = Some(1);
                }
            }
            if line >= SCANLINES_PER_FRAME as u32 {
                self.scanline = 0;
                self.nmi_interrupt = None;
                self.status.set_sprite_zero_hit(false);
                self.status.reset_vblank_status();
                return true;
            }
            self.scanline = line as u16;
            return false;
        }
        self.cycles = total as u16;
        false
    }

    pub fn new(chr_rom: Vec<u8>, mirroring: Mirroring) -> (ppu: NesPPU)
        ensures
            ppu@ == PpuState::power_on(chr_rom@, mirroring),
    {
        let ppu = NesPPU {
            chr_rom,
            mirroring,
            ctrl: ControlRegister::new(),
            mask: MaskRegister::new(),
            status: StatusRegister::new(),
            oam_addr: 0,
            scroll: ScrollRegister::new(),
            addr: AddrRegister::new(),
            palette_table: [0;32],
            vram: [0;2048],
            oam_data: [0;256],
            internal_data_buf: 0,
            scanline: 0,
            cycles: 0,
            nmi_interrupt: None,
        };
        assert(ppu@.palette_table =~= Seq::new(PALETTE_SIZE as nat, |i: int| 0u8));
        assert(ppu@.vram =~= Seq::new(VRAM_SIZE as nat, |i: int| 0u8));
        assert(ppu@.oam_data =~= Seq::new(OAM_SIZE as nat, |i: int| 0u8));
        ppu
    }

    fn increment_vram_addr(&mut self)
        ensures
            final(self)@ == old(self)@.increment_vram_addr(),
    {
        self.addr.increment(self.ctrl.vram_addr_increment());
    }

    fn is_sprite_0_hit(&self, cycle: usize) -> (hit: bool)
        ensures
            hit == self@.sprite_zero_hit(cycle as int),
    {
        let y = self.oam_data[0] as usize;
        let x = self.oam_data[3] as usize;
        (y == self.scanline as usize) && x <= cycle && self.mask.show_sprites()
    }

    /// Folds a video address onto the two physical nametable banks.
    pub fn mirror_vram_addr(&self, addr: u16) -> (index: u16)
        ensures
            index == mirrored_vram_index(self@.mirroring, addr),
            index < VRAM_SIZE,
    {
        let vram_index = addr % 0x1000;
        let name_table = vram_index / 0x0400;
        match (&self.mirroring, name_table) {
            (Mirroring::VERTICAL, 2) | (Mirroring::VERTICAL, 3) => vram_index - 0x0800,
            (Mirroring::HORIZONTAL, 2) | (Mirroring::HORIZONTAL, 1) => vram_index - 0x0400,
            (Mirroring::HORIZONTAL, 3) => vram_index - 0x0800,
            _ => vram_index,
        }
    }

    /// Folds a video address at or above the palette's start onto its 32
    /// entries.
    fn mirror_palette_addr(addr: u16) -> (index: usize)
        requires
            addr >= PALETTE_START,
        ensures
            index == palette_index(addr),
            index < PALETTE_SIZE,
    {
        let index = (addr - PALETTE_START) % 32;
        if index >= 16 && index % 4 == 0 {
            (index - 16) as usize
        } else {
            index as usize
        }
    }

    fn read_pattern(&self, addr: u16) -> (value: u8)
        ensures
            value == self@.pattern_byte(addr),
    {
        if (addr as usize) < self.chr_rom.len() {
            self.chr_rom[addr as usize]
        } else {
            0
        }
    }
}

impl PPU for NesPPU {
    fn write_to_ppu_addr(&mut self, value: u8)
        ensures
            final(self)@ == old(self)@.write_to_ppu_addr(value),
    {
        self.addr.update(value);
    }

    fn write_to_ctrl(&mut self, value: u8)
        ensures
            final(self)@ == old(self)@.write_to_ctrl(value),
    {
        let before_nmi_status = self.ctrl.generate_vblank_nmi();
        self.ctrl.update(value);
        if !before_nmi_status && self.ctrl.generate_vblank_nmi() && self.status.is_in_vblank() {
            self.nmi_interrupt = Some(1);
        }
    }

    fn write_to_data(&mut self, value: u8)
        ensures
            final(self)@ == old(self)@.write_to_data(value),
    {
        let addr = self.addr.get();
        if addr < NAMETABLE_START {
        } else if addr < PALETTE_START {
            let index = self.mirror_vram_addr(addr);
            self.vram[index as usize] = value;
        } else {
            let index = NesPPU::mirror_palette_addr(addr);
            self.palette_table[index] = value;
        }
        self.increment_vram_addr();
    }

    fn read_data(&mut self) -> (value: u8)
        ensures
            (final(self)@, value) == old(self)@.read_data(),
    {
        let addr = self.addr.get();
        self.increment_vram_addr();
        if addr < NAMETABLE_START {
            let result = self.internal_data_buf;
            self.internal_data_buf = self.read_pattern(addr);
            result
        } else if addr < PALETTE_START {
            let result = self.internal_data_buf;
            let index = self.mirror_vram_addr(addr);
            self.internal_data_buf = self.vram[index as usize];
            result
        } else {
            let result = self.palette_table[NesPPU::mirror_palette_addr(addr)];
            self.internal_data_buf = result;
            result
        }
    }

    fn write_to_mask(&mut self, value: u8)
        ensures
            final(self)@ == old(self)@.write_to_mask(value),
    {
        self.mask.update(value);
    }

    fn read_status(&mut self) -> (data: u8)
        ensures
            (final(self)@, data) == old(self)@.read_status(),
    {
        let data = self.status.snapshot();
        self.status.reset_vblank_status();
        self.addr.reset_latch();
        self.scroll.reset_latch();
        data
    }

    fn write_to_oam_addr(&mut self, value: u8)
        ensures
            final(self)@ == old(self)@.write_to_oam_addr(value),
    {
        self.oam_addr = value;
    }

    fn write_to_oam_data(&mut self, value: u8)
        ensures
            final(self)@ == old(self)@.write_to_oam_data(value),
    {
        self.oam_data[self.oam_addr as usize] = value;
        self.oam_addr = self.oam_addr.wrapping_add(1);
    }

    fn read_oam_data(&self) -> (value: u8)
        ensures
            value == self@.read_oam_data(),
    {
        self.oam_data[self.oam_addr as usize]
    }

    fn write_to_scroll(&mut self, value: u8)
        ensures
            final(self)@ == old(self)@.write_to_scroll(value),
    {
        self.scroll.write(value);
    }

    fn write_oam_dma(&mut self, value: &[u8; 256])
        ensures
            final(self)@ == old(self)@.write_oam_dma(value@),
    {
        let ghost start = self.oam_addr;
        let ghost before = self@;
        let mut k: usize = 0;
        while k < 256
            invariant
                k <= 256,
                self.oam_addr == (start + k) % 256,
                self@ == (PpuState { oam_data: self@.oam_data, oam_addr: self.oam_addr, ..before }),
                self@.oam_data.len() == 256,
                forall|i: int|
                    0 <= i < 256 && (i - start + 256) % 256 < k ==> self@.oam_data[i] == value@[(i
                        - start + 256) % 256],
            decreases 256 - k,
        {
            self.oam_data[self.oam_addr as usize] = value[k];
            self.oam_addr = self.oam_addr.wrapping_add(1);
            k += 1;
        }
        assert(self@.oam_data =~= oam_after_dma(start, value@));
    }
}

} // verus!
