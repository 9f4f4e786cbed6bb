//! What holds of the picture processor in every state: of its clock over
//! any sequence of ticks, of its memories under every access.

use vstd::prelude::*;
use crate::bits::{has_bits, lemma_other_bits_kept, lemma_written_bit_reads_back};
use crate::ppu::registers::status::{SPRITE_0_HIT, VBLANK};
use crate::cartridge::Mirroring;
use crate::ppu::{mirrored_vram_index, palette_index, total_cycles, PpuState, VBLANK_SCANLINE};

verus! {

/// Cycles in one frame.
pub open spec fn cycles_per_frame() -> int {
    89342
}

/// A tick keeps the counters in range, and moves the position in the
/// frame on by its cycles, less one frame where it completed one.
pub proof fn lemma_tick_advances_position(s: PpuState, cycles: u8)
    requires
        s.wf(),
    ensures
        s.tick(cycles).0.wf(),
        s.tick(cycles).1 ==> s.frame_position() + cycles == cycles_per_frame() + s.tick(
            cycles,
        ).0.frame_position(),
        !s.tick(cycles).1 ==> s.frame_position() + cycles == s.tick(cycles).0.frame_position(),
{
}

/// Over any sequence of ticks, the cycles spent are the frames completed
/// and the distance moved inside the frame.
pub proof fn lemma_ticks_account_for_cycles(s: PpuState, ticks: Seq<u8>)
    requires
        s.wf(),
    ensures
        s.tick_all(ticks).0.wf(),
        s.frame_position() + total_cycles(ticks) == s.tick_all(ticks).1 * cycles_per_frame()
            + s.tick_all(ticks).0.frame_position(),
    decreases ticks.len(),
{
    if ticks.len() > 0 {
        lemma_tick_advances_position(s, ticks[0]);
        lemma_ticks_account_for_cycles(s.tick(ticks[0]).0, ticks.drop_first());
    }
}

/// From the start of a frame, ticks that add up to 341 x 262 cycles
/// complete a frame exactly once, however the cycles are split over the
/// ticks, and end at the start of the next frame.
pub proof fn lemma_one_frame_per_full_count(s: PpuState, ticks: Seq<u8>)
    requires
        s.wf(),
        s.frame_position() == 0,
        total_cycles(ticks) == 341 * 262,
    ensures
        s.tick_all(ticks).1 == 1,
        s.tick_all(ticks).0.frame_position() == 0,
{
    lemma_ticks_account_for_cycles(s, ticks);
    let frames = s.tick_all(ticks).1;
    let position = s.tick_all(ticks).0.frame_position();
    assert(0 <= position < cycles_per_frame());
    if frames == 0 {
        assert(false);
    } else if frames >= 2 {
        assert(frames * cycles_per_frame() >= 2 * cycles_per_frame()) by (nonlinear_arith)
            requires
                frames >= 2,
                cycles_per_frame() > 0,
        ;
        assert(false);
    }
}

/// Ticks that add up to less than a frame's cycles complete none from
/// the start of a frame.
pub proof fn lemma_no_frame_before_full_count(s: PpuState, ticks: Seq<u8>)
    requires
        s.wf(),
        s.frame_position() == 0,
        total_cycles(ticks) < 341 * 262,
    ensures
        s.tick_all(ticks).1 == 0,
{
    lemma_ticks_account_for_cycles(s, ticks);
    let frames = s.tick_all(ticks).1;
    if frames >= 1 {
        assert(frames * cycles_per_frame() >= cycles_per_frame()) by (nonlinear_arith)
            requires
                frames >= 1,
                cycles_per_frame() > 0,
        ;
        assert(false);
    }
}

/// The tick that brings the scanline to 241 leaves the blanking bit set
/// and the sprite 0 bit clear.
pub proof fn lemma_blanking_starts_on_scanline_241(s: PpuState, cycles: u8)
    requires
        s.scanline != VBLANK_SCANLINE,
        s.tick(cycles).0.scanline == VBLANK_SCANLINE,
    ensures
        has_bits(s.tick(cycles).0.status, VBLANK),
        !has_bits(s.tick(cycles).0.status, SPRITE_0_HIT),
{
    let total = s.cycles + cycles;
    let status = if s.sprite_zero_hit(total) {
        s.status | SPRITE_0_HIT
    } else {
        s.status
    };
    assert(SPRITE_0_HIT & VBLANK == 0) by (bit_vector);
    lemma_written_bit_reads_back(status, VBLANK, true);
    lemma_other_bits_kept(status | VBLANK, SPRITE_0_HIT, false, VBLANK);
    lemma_written_bit_reads_back(status | VBLANK, SPRITE_0_HIT, false);
}

/// The tick that completes a frame leaves the blanking bit and the
/// sprite 0 bit clear and no interrupt pending.
pub proof fn lemma_frame_end_clears_blanking(s: PpuState, cycles: u8)
    requires
        s.tick(cycles).1,
    ensures
        !has_bits(s.tick(cycles).0.status, VBLANK),
        !has_bits(s.tick(cycles).0.status, SPRITE_0_HIT),
        s.tick(cycles).0.nmi_interrupt is None,
        s.tick(cycles).0.scanline == 0,
{
    let after = s.tick(cycles).0.status;
    let before = choose|b: u8| after == (b & !SPRITE_0_HIT) & !VBLANK;
    assert(VBLANK & SPRITE_0_HIT == 0) by (bit_vector);
    lemma_written_bit_reads_back(before, SPRITE_0_HIT, false);
    lemma_other_bits_kept(before & !SPRITE_0_HIT, VBLANK, false, SPRITE_0_HIT);
    lemma_written_bit_reads_back(before & !SPRITE_0_HIT, VBLANK, false);
}

/// Every access through the registers keeps the memories at their
/// sizes and the address inside the video address space.
pub proof fn lemma_register_access_keeps_wf(s: PpuState, value: u8)
    requires
        s.wf(),
    ensures
        s.write_to_ctrl(value).wf(),
        s.write_to_mask(value).wf(),
        s.read_status().0.wf(),
        s.write_to_oam_addr(value).wf(),
        s.write_to_oam_data(value).wf(),
        s.write_to_scroll(value).wf(),
        s.write_to_ppu_addr(value).wf(),
        s.write_to_data(value).wf(),
        s.read_data().0.wf(),
        s.poll_nmi_interrupt().0.wf(),
        forall|page: Seq<u8>| (#[trigger] s.write_oam_dma(page)).wf(),
{
}

/// With horizontal mirroring the two upper logical nametables share one
/// bank and the two lower ones the other; with vertical mirroring the
/// two left ones share one bank and the two right ones the other. The
/// range above the nametables repeats them.
pub proof fn lemma_nametables_fold(offset: u16)
    requires
        offset < 0x400,
    ensures
        mirrored_vram_index(Mirroring::HORIZONTAL, (0x2000 + offset) as u16) == offset,
        mirrored_vram_index(Mirroring::HORIZONTAL, (0x2400 + offset) as u16) == offset,
        mirrored_vram_index(Mirroring::HORIZONTAL, (0x2800 + offset) as u16) == 0x400 + offset,
        mirrored_vram_index(Mirroring::HORIZONTAL, (0x2C00 + offset) as u16) == 0x400 + offset,
        mirrored_vram_index(Mirroring::VERTICAL, (0x2000 + offset) as u16) == offset,
        mirrored_vram_index(Mirroring::VERTICAL, (0x2400 + offset) as u16) == 0x400 + offset,
        mirrored_vram_index(Mirroring::VERTICAL, (0x2800 + offset) as u16) == offset,
        mirrored_vram_index(Mirroring::VERTICAL, (0x2C00 + offset) as u16) == 0x400 + offset,
        forall|mirroring: Mirroring, addr: u16|
            0x2000 <= addr < 0x2F00 ==> mirrored_vram_index(mirroring, (addr + 0x1000) as u16)
                == #[trigger] mirrored_vram_index(mirroring, addr),
{
}

/// A byte written through the data register to a nametable address is
/// what the second of two reads from any address that folds onto the
/// same place returns: the first read only fills the buffer.
pub proof fn lemma_nametable_write_then_read(s: PpuState, value: u8, once: PpuState, twice: PpuState)
    requires
        s.wf(),
        0x2000 <= s.addr < 0x3F00,
        0x2000 <= once.addr < 0x3F00,
        once.wf(),
        once.vram == s.write_to_data(value).vram,
        once.mirroring == s.mirroring,
        mirrored_vram_index(once.mirroring, once.addr) == mirrored_vram_index(s.mirroring, s.addr),
        twice == once.read_data().0,
        twice.addr < 0x3F00,
    ensures
        twice.read_data().1 == value,
{
}

/// Palette addresses fold onto the 32 entries, and the first entry of
/// each sprite palette is the first entry of the background palette of
/// the same number.
pub proof fn lemma_palette_folds(addr: u16)
    requires
        0x3F00 <= addr < 0x4000,
    ensures
        0 <= palette_index(addr) < 32,
        addr + 32 < 0x4000 ==> palette_index((addr + 32) as u16) == palette_index(addr),
        palette_index(0x3F10) == 0,
        palette_index(0x3F14) == 4,
        palette_index(0x3F18) == 8,
        palette_index(0x3F1C) == 12,
{
}

} // verus!
