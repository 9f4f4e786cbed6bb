//! The memory bus: routes every access of the processor to work memory,
//! the picture processor's registers or the cartridge, and clocks the
//! picture processor.
//!
//! ```text
//! $0000-$1FFF  2 KiB of work memory, repeated four times
//! $2000-$3FFF  8 registers of the picture processor, repeated
//! $4014        sprite memory transfer (write only)
//! $4000-$4017  sound and controller ports: read as 0, writes ignored
//! $8000-$FFFF  cartridge program memory, read-only
//! ```

use vstd::prelude::*;
use crate::cartridge::Rom;
use crate::cpu::Memory;
use crate::ppu::{NesPPU, PpuState, PPU};

verus! {

pub const RAM: u16 = 0x0000;

pub const RAM_MIRRORS_END: u16 = 0x1FFF;

pub const PPU_REGISTERS: u16 = 0x2000;

pub const PPU_REGISTERS_MIRRORS_END: u16 = 0x3FFF;

pub const OAM_DMA: u16 = 0x4014;

pub const PRG_ROM: u16 = 0x8000;

pub const RAM_SIZE: usize = 2048;

/// Cycles of the picture processor per cycle of the processor.
pub const PPU_CLOCK_RATIO: u8 = 3;

/// The most processor cycles that one call of `tick` can take: three
/// times as many must fit in a byte.
pub const MAX_TICK: u8 = 85;

/// Who is told when a frame is complete.
pub trait FrameCallback: Sized {
    /// What one notification may make of the callback: whether a callback
    /// that was `before` and was shown `ppu` can be `after`. Every
    /// callback says this of itself; one that says nothing may become
    /// anything.
    open spec fn notified(before: Self, ppu: PpuState, after: Self) -> bool {
        true
    }

    /// Called once for each completed frame, from inside `Bus::tick`,
    /// after the clock has wrapped.
    fn frame_ready(&mut self, ppu: &NesPPU)
        ensures
            Self::notified(*old(self), ppu@, *final(self)),
    ;
}

/// A callback that does nothing.
#[derive(Debug, Clone, Copy)]
pub struct IgnoreFrames;

impl FrameCallback for IgnoreFrames {
    fn frame_ready(&mut self, ppu: &NesPPU) {
    }
}

pub struct Bus<F: FrameCallback> {
    cpu_vram: [u8; 2048],
    prg_rom: Vec<u8>,
    ppu: NesPPU,
    cycles: usize,
    gameloop_callback: F,
}

/// The bus and what hangs on it as a mathematical value.
pub struct BusState {
    pub cpu_vram: Seq<u8>,
    pub prg_rom: Seq<u8>,
    pub ppu: PpuState,
    /// Processor cycles since power-on, modulo the width of `usize`.
    pub cycles: usize,
}

/// The little-endian word made of two bytes.
pub open spec fn word(lo: u8, hi: u8) -> u16 {
    (hi * 256 + lo) as u16
}

/// The address after `addr`, wrapping at the end of the address space.
pub open spec fn next_addr(addr: u16) -> u16 {
    if addr == 0xFFFF {
        0
    } else {
        (addr + 1) as u16
    }
}

impl BusState {
    pub open spec fn power_on(prg_rom: Seq<u8>, ppu: PpuState) -> BusState {
        BusState { cpu_vram: Seq::new(RAM_SIZE as nat, |i: int| 0u8), prg_rom, ppu, cycles: 0 }
    }

    /// Whether the memories have their sizes and the picture processor is
    /// well-formed.
    pub open spec fn wf(self) -> bool {
        &&& self.cpu_vram.len() == RAM_SIZE
        &&& self.ppu.wf()
    }

    /// The program byte at an address at or above `PRG_ROM`: the image
    /// repeats through the window, so that one of 16 KiB appears twice.
    pub open spec fn prg_byte(self, addr: u16) -> u8 {
        if self.prg_rom.len() == 0 {
            0
        } else {
            self.prg_rom[(addr - PRG_ROM) % (self.prg_rom.len() as int)]
        }
    }

    /// A read, and what it does to the devices.
    #[verifier::opaque]
    pub open spec fn read(self, addr: u16) -> (BusState, u8) {
        if addr <= RAM_MIRRORS_END {
            (self, self.cpu_vram[(addr % 0x800) as int])
        } else if addr <= PPU_REGISTERS_MIRRORS_END {
            let register = addr % 8;
            if register == 2 {
                let (ppu, value) = self.ppu.read_status();
                (BusState { ppu, ..self }, value)
            } else if register == 4 {
                (self, self.ppu.read_oam_data())
            } else if register == 7 {
                let (ppu, value) = self.ppu.read_data();
                (BusState { ppu, ..self }, value)
            } else {
                (self, 0)
            }
        } else if addr >= PRG_ROM {
            (self, self.prg_byte(addr))
        } else {
            (self, 0)
        }
    }

    /// `count` reads of consecutive addresses from `base` on, in rising
    /// order.
    pub open spec fn read_block(self, base: u16, count: nat) -> (BusState, Seq<u8>)
        decreases count,
    {
        if count == 0 {
            (self, Seq::empty())
        } else {
            let (before, bytes) = self.read_block(base, (count - 1) as nat);
            let (after, value) = before.read((base + count - 1) as u16);
            (after, bytes.push(value))
        }
    }

    /// A write. Writes to the status register, to the sound and
    /// controller ports, to unmapped addresses and to the cartridge are
    /// ignored.
    #[verifier::opaque]
    pub open spec fn write(self, addr: u16, data: u8) -> BusState {
        if addr <= RAM_MIRRORS_END {
            BusState { cpu_vram: self.cpu_vram.update((addr % 0x800) as int, data), ..self }
        } else if addr <= PPU_REGISTERS_MIRRORS_END {
            let register = addr % 8;
            let ppu = if register == 0 {
                self.ppu.write_to_ctrl(data)
            } else if register == 1 {
                self.ppu.write_to_mask(data)
            } else if register == 2 {
                self.ppu
            } else if register == 3 {
                self.ppu.write_to_oam_addr(data)
            } else if register == 4 {
                self.ppu.write_to_oam_data(data)
            } else if register == 5 {
                self.ppu.write_to_scroll(data)
            } else if register == 6 {
                self.ppu.write_to_ppu_addr(data)
            } else {
                self.ppu.write_to_data(data)
            };
            BusState { ppu, ..self }
        } else if addr == OAM_DMA {
            let (after, page) = self.read_block((data * 256) as u16, 256);
            BusState { ppu: after.ppu.write_oam_dma(page), ..after }
        } else {
            self
        }
    }

    #[verifier::opaque]
    pub open spec fn read_u16(self, pos: u16) -> (BusState, u16) {
        let (first, lo) = self.read(pos);
        let (second, hi) = first.read(next_addr(pos));
        (second, word(lo, hi))
    }

    #[verifier::opaque]
    pub open spec fn write_u16(self, pos: u16, data: u16) -> BusState {
        self.write(pos, (data % 256) as u8).write(next_addr(pos), (data / 256) as u8)
    }

    /// The clock moves on by `cycles` processor cycles; the flag says
    /// whether that completed a frame.
    #[verifier::opaque]
    pub open spec fn tick(self, cycles: u8) -> (BusState, bool) {
        let (ppu, frame) = self.ppu.tick((cycles * PPU_CLOCK_RATIO) as u8);
        (
            BusState {
                ppu,
                cycles: if self.cycles + cycles > usize::MAX {
                    (self.cycles + cycles - usize::MAX - 1) as usize
                } else {
                    (self.cycles + cycles) as usize
                },
                ..self
            },
            frame,
        )
    }

    pub open spec fn poll_nmi_status(self) -> (BusState, Option<u8>) {
        let (ppu, pending) = self.ppu.poll_nmi_interrupt();
        (BusState { ppu, ..self }, pending)
    }
}

/// Work memory keeps what is written to it: a read of an address in
/// work memory changes nothing and returns the byte last written there.
pub proof fn lemma_ram_read_after_write(bus: BusState, addr: u16, data: u8)
    requires
        bus.wf(),
        addr <= RAM_MIRRORS_END,
    ensures
        bus.write(addr, data).wf(),
        bus.write(addr, data).read(addr) == (bus.write(addr, data), data),
        bus.write(addr, data).ppu == bus.ppu,
        bus.write(addr, data).prg_rom == bus.prg_rom,
        bus.write(addr, data).cycles == bus.cycles,
{
    reveal(BusState::read);
    reveal(BusState::write);
}

/// A write to work memory does not show at an address of work memory
/// that is no mirror of the one written.
pub proof fn lemma_ram_read_after_other_write(bus: BusState, addr: u16, data: u8, other: u16)
    requires
        bus.wf(),
        addr <= RAM_MIRRORS_END,
        other <= RAM_MIRRORS_END,
        other % 0x800 != addr % 0x800,
    ensures
        bus.write(addr, data).read(other) == (bus.write(addr, data), bus.read(other).1),
        bus.read(other).0 == bus,
{
    reveal(BusState::read);
    reveal(BusState::write);
}

/// The cartridge is read-only: a write at or above `PRG_ROM` changes
/// nothing.
pub proof fn lemma_rom_write_is_ignored(bus: BusState, addr: u16, data: u8)
    requires
        addr >= PRG_ROM,
    ensures
        bus.write(addr, data) == bus,
{
    reveal(BusState::write);
}

/// Reads of work memory and of the cartridge change nothing.
pub proof fn lemma_memory_reads_change_nothing(bus: BusState, addr: u16)
    requires
        addr <= RAM_MIRRORS_END || addr >= PRG_ROM,
    ensures
        bus.read(addr).0 == bus,
        bus.read_u16(addr).0 == bus,
{
    reveal(BusState::read);
    reveal(BusState::read_u16);
}

/// A program image of 16 KiB shows twice in the window of the
/// cartridge, one of 32 KiB once.
pub proof fn lemma_prg_rom_window(bus: BusState, addr: u16)
    requires
        addr >= PRG_ROM,
    ensures
        bus.prg_rom.len() == 0x8000 ==> bus.read(addr).1 == bus.prg_rom[addr - PRG_ROM],
        bus.prg_rom.len() == 0x4000 ==> bus.read(addr).1 == bus.prg_rom[(addr - PRG_ROM) % 0x4000],
{
    reveal(BusState::read);
}

/// Reading a block keeps the memories at their sizes and returns as
/// many bytes as were asked for.
pub proof fn lemma_read_block_keeps_wf(bus: BusState, base: u16, count: nat)
    requires
        bus.wf(),
    ensures
        bus.read_block(base, count).0.wf(),
        bus.read_block(base, count).1.len() == count,
    decreases count,
{
    if count > 0 {
        lemma_read_block_keeps_wf(bus, base, (count - 1) as nat);
        lemma_access_keeps_wf(
            bus.read_block(base, (count - 1) as nat).0,
            (base + count - 1) as u16,
            0,
        );
    }
}

/// Every access but the sprite memory transfer, and every tick, keeps
/// the memories at their sizes.
pub proof fn lemma_access_keeps_wf(bus: BusState, addr: u16, data: u8)
    requires
        bus.wf(),
    ensures
        bus.read(addr).0.wf(),
        bus.tick(data).0.wf(),
        bus.poll_nmi_status().0.wf(),
        addr != OAM_DMA ==> bus.write(addr, data).wf(),
{
    reveal(BusState::read);
    reveal(BusState::write);
    reveal(BusState::tick);
    crate::ppu::timing::lemma_register_access_keeps_wf(bus.ppu, data);
    crate::ppu::timing::lemma_tick_advances_position(bus.ppu, (data * PPU_CLOCK_RATIO) as u8);
}

/// Every write keeps the memories at their sizes.
pub proof fn lemma_write_keeps_wf(bus: BusState, addr: u16, data: u8)
    requires
        bus.wf(),
    ensures
        bus.write(addr, data).wf(),
{
    if addr == OAM_DMA {
        reveal(BusState::write);
        lemma_read_block_keeps_wf(bus, (data * 256) as u16, 256);
        crate::ppu::timing::lemma_register_access_keeps_wf(
            bus.read_block((data * 256) as u16, 256).0.ppu,
            data,
        );
    } else {
        lemma_access_keeps_wf(bus, addr, data);
    }
}

/// Whatever is done on the bus keeps the memories at their sizes.
pub proof fn lemma_bus_stays_wf()
    ensures
        forall|bus: BusState, addr: u16| bus.wf() ==> (#[trigger] bus.read(addr)).0.wf(),
        forall|bus: BusState, addr: u16| bus.wf() ==> (#[trigger] bus.read_u16(addr)).0.wf(),
        forall|bus: BusState, addr: u16, data: u8|
            bus.wf() ==> (#[trigger] bus.write(addr, data)).wf(),
        forall|bus: BusState, addr: u16, data: u16|
            bus.wf() ==> (#[trigger] bus.write_u16(addr, data)).wf(),
        forall|bus: BusState, cycles: u8| bus.wf() ==> (#[trigger] bus.tick(cycles)).0.wf(),
        forall|bus: BusState| bus.wf() ==> (#[trigger] bus.poll_nmi_status()).0.wf(),
{
    assert forall|bus: BusState, addr: u16| bus.wf() implies (#[trigger] bus.read(addr)).0.wf() by {
        lemma_access_keeps_wf(bus, addr, 0);
    }
    assert forall|bus: BusState, addr: u16| bus.wf() implies (#[trigger] bus.read_u16(
        addr,
    )).0.wf() by {
        reveal(BusState::read_u16);
        lemma_access_keeps_wf(bus, addr, 0);
        lemma_access_keeps_wf(bus.read(addr).0, next_addr(addr), 0);
    }
    assert forall|bus: BusState, addr: u16, data: u8| bus.wf() implies (#[trigger] bus.write(
        addr,
        data,
    )).wf() by {
        lemma_write_keeps_wf(bus, addr, data);
    }
    assert forall|bus: BusState, addr: u16, data: u16| bus.wf() implies (#[trigger] bus.write_u16(
        addr,
        data,
    )).wf() by {
        reveal(BusState::write_u16);
        lemma_write_keeps_wf(bus, addr, (data % 256) as u8);
        lemma_write_keeps_wf(
            bus.write(addr, (data % 256) as u8),
            next_addr(addr),
            (data / 256) as u8,
        );
    }
    assert forall|bus: BusState, cycles: u8| bus.wf() implies (#[trigger] bus.tick(
        cycles,
    )).0.wf() by {
        lemma_access_keeps_wf(bus, 0, cycles);
    }
    assert forall|bus: BusState| bus.wf() implies (#[trigger] bus.poll_nmi_status()).0.wf() by {
        lemma_access_keeps_wf(bus, 0, 0);
    }
}

impl<F: FrameCallback> View for Bus<F> {
    type V = BusState;

    closed spec fn view(&self) -> BusState {
        BusState {
            cpu_vram: self.cpu_vram@,
            prg_rom: self.prg_rom@,
            ppu: self.ppu@,
            cycles: self.cycles,
        }
    }
}

impl<F: FrameCallback> Bus<F> {
    /// The callback as it now is.
    pub closed spec fn callback(&self) -> F {
        self.gameloop_callback
    }

    /// A bus at power-on with the cartridge plugged in.
    pub fn new(rom: Rom, gameloop_callback: F) -> (bus: Bus<F>)
        ensures
            bus@ == BusState::power_on(
                rom.prg_rom@,
                PpuState::power_on(rom.chr_rom@, rom.screen_mirroring),
            ),
            bus.callback() == gameloop_callback,
    {
        let ppu = NesPPU::new(rom.chr_rom, rom.screen_mirroring);
        let bus = Bus { cpu_vram: [0;2048], prg_rom: rom.prg_rom, ppu, cycles: 0, gameloop_callback };
        assert(bus@.cpu_vram =~= Seq::new(RAM_SIZE as nat, |i: int| 0u8));
        bus
    }

    fn read_prg_rom(&self, addr: u16) -> (value: u8)
        requires
            addr >= PRG_ROM,
        ensures
            value == self@.prg_byte(addr),
    {
        let size = self.prg_rom.len();
        if size == 0 {
            0
        } else {
            self.prg_rom[((addr - PRG_ROM) as usize) % size]
        }
    }

    /// Moves the clock on and advances the picture processor three
    /// cycles for each of the processor's. When that completes a frame
    /// the callback is called, once, with the picture processor as it
    /// then is, and the result is `true`.
    pub fn tick(&mut self, cycles: u8) -> (frame: bool)
        requires
            cycles <= MAX_TICK,
        ensures
            (final(self)@, frame) == old(self)@.tick(cycles),
            frame ==> F::notified(old(self).callback(), final(self)@.ppu, final(self).callback()),
            !frame ==> final(self).callback() == old(self).callback(),
    {
        reveal(BusState::tick);
        self.cycles = self.cycles.wrapping_add(cycles as usize);
        let new_frame = self.ppu.tick(cycles * PPU_CLOCK_RATIO);
        if new_frame {
            self.gameloop_callback.frame_ready(&self.ppu);
        }
        new_frame
    }

    /// Takes the pending interrupt of the picture processor, if any.
    pub fn poll_nmi_status(&mut self) -> (pending: Option<u8>)
        ensures
            (final(self)@, pending) == old(self)@.poll_nmi_status(),
            final(self).callback() == old(self).callback(),
    {
        self.ppu.poll_nmi_interrupt()
    }

    /// The picture processor.
    pub fn ppu(&self) -> (ppu: &NesPPU)
        ensures
            ppu@ == self@.ppu,
    {
        &self.ppu
    }

    /// Processor cycles since power-on, modulo the width of `usize`.
    pub fn cycles(&self) -> (cycles: usize)
        ensures
            cycles == self@.cycles,
    {
        self.cycles
    }
}

impl<F: FrameCallback> Memory for Bus<F> {
    fn mem_read(&mut self, addr: u16) -> (value: u8)
        ensures
            (final(self)@, value) == old(self)@.read(addr),
            final(self).callback() == old(self).callback(),
    {
        reveal(BusState::read);
        if addr <= RAM_MIRRORS_END {
            self.cpu_vram[(addr % 0x800) as usize]
        } else if addr <= PPU_REGISTERS_MIRRORS_END {
            match addr % 8 {
                2 => self.ppu.read_status(),
                4 => self.ppu.read_oam_data(),
                7 => self.ppu.read_data(),
                _ => 0,
            }
        } else if addr >= PRG_ROM {
            self.read_prg_rom(addr)
        } else {
            0
        }
    }

    fn mem_write(&mut self, addr: u16, data: u8)
        ensures
            final(self)@ == old(self)@.write(addr, data),
            final(self).callback() == old(self).callback(),
    {
        reveal(BusState::write);
        if addr <= RAM_MIRRORS_END {
            self.cpu_vram[(addr % 0x800) as usize] = data;
        } else if addr <= PPU_REGISTERS_MIRRORS_END {
            match addr % 8 {
                0 => self.ppu.write_to_ctrl(data),
                1 => self.ppu.write_to_mask(data),
                2 => {},
                3 => self.ppu.write_to_oam_addr(data),
                4 => self.ppu.write_to_oam_data(data),
                5 => self.ppu.write_to_scroll(data),
                6 => self.ppu.write_to_ppu_addr(data),
                _ => self.ppu.write_to_data(data),
            }
        } else if addr == OAM_DMA {
            let ghost before = self@;
            let mut buffer: [u8; 256] = [0;256];
            let hi: u16 = (data as u16) * 256;
            let mut i: u16 = 0;
            while i < 256
                invariant
                    i <= 256,
                    hi == data * 256,
                    self.callback() == old(self).callback(),
                    self@ == before.read_block(hi, i as nat).0,
                    before.read_block(hi, i as nat).1.len() == i,
                    forall|j: int| 0 <= j < i ==> buffer@[j] == before.read_block(hi, i as nat).1[j],
                decreases 256 - i,
            {
                let value = self.mem_read(hi + i);
                buffer[i as usize] = value;
                i += 1;
            }
            assert(buffer@ =~= before.read_block(hi, 256).1);
            self.ppu.write_oam_dma(&buffer);
        }
    }

    fn mem_read_u16(&mut self, pos: u16) -> (value: u16)
        ensures
            (final(self)@, value) == old(self)@.read_u16(pos),
            final(self).callback() == old(self).callback(),
    {
        reveal(BusState::read_u16);
        let lo = self.mem_read(pos) as u16;
        let hi = self.mem_read(pos.wrapping_add(1)) as u16;
        hi * 256 + lo
    }

    fn mem_write_u16(&mut self, pos: u16, data: u16)
        ensures
            final(self)@ == old(self)@.write_u16(pos, data),
            final(self).callback() == old(self).callback(),
    {
        reveal(BusState::write_u16);
        let hi = (data / 256) as u8;
        let lo = (data % 256) as u8;
        self.mem_write(pos, lo);
        self.mem_write(pos.wrapping_add(1), hi);
    }
}

} // verus!
