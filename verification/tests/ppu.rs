use nes::cartridge::Mirroring;
use nes::ppu::registers::addr::AddrRegister;
use nes::ppu::registers::control::ControlRegister;
use nes::ppu::registers::mask::{Color, MaskRegister};
use nes::ppu::registers::scroll::ScrollRegister;
use nes::ppu::registers::status::StatusRegister;
use nes::ppu::{NesPPU, PPU};

#[test]
fn test_ppu_vram_writes() {
    let mut ppu = NesPPU::new_empty_rom();
    ppu.write_to_ppu_addr(0x23);
    ppu.write_to_ppu_addr(0x05);
    ppu.write_to_data(0x66);

    assert_eq!(ppu.vram[0x0305], 0x66);
}

#[test]
fn test_ppu_vram_reads() {
    let mut ppu = NesPPU::new_empty_rom();
    ppu.write_to_ctrl(0);
    ppu.vram[0x0305] = 0x66;

    ppu.write_to_ppu_addr(0x23);
    ppu.write_to_ppu_addr(0x05);

    ppu.read_data(); //load_into_buffer
    assert_eq!(ppu.addr.get(), 0x2306);
    assert_eq!(ppu.read_data(), 0x66);
}

#[test]
fn test_ppu_vram_reads_cross_page() {
    let mut ppu = NesPPU::new_empty_rom();
    ppu.write_to_ctrl(0);
    ppu.vram[0x01ff] = 0x66;
    ppu.vram[0x0200] = 0x77;

    ppu.write_to_ppu_addr(0x21);
    ppu.write_to_ppu_addr(0xff);

    ppu.read_data(); //load_into_buffer
    assert_eq!(ppu.read_data(), 0x66);
    assert_eq!(ppu.read_data(), 0x77);
}

#[test]
fn test_ppu_vram_reads_step_32() {
    let mut ppu = NesPPU::new_empty_rom();
    ppu.write_to_ctrl(0b100);
    ppu.vram[0x01ff] = 0x66;
    ppu.vram[0x01ff + 32] = 0x77;
    ppu.vram[0x01ff + 64] = 0x88;

    ppu.write_to_ppu_addr(0x21);
    ppu.write_to_ppu_addr(0xff);

    ppu.read_data(); //load_into_buffer
    assert_eq!(ppu.read_data(), 0x66);
    assert_eq!(ppu.read_data(), 0x77);
    assert_eq!(ppu.read_data(), 0x88);
}

// Horizontal:
//   [0x2000 A ] [0x2400 a ]
//   [0x2800 B ] [0x2C00 b ]
#[test]
fn test_vram_horizontal_mirror() {
    let mut ppu = NesPPU::new_empty_rom();
    ppu.write_to_ppu_addr(0x24);
    ppu.write_to_ppu_addr(0x05);

    ppu.write_to_data(0x66); //write to a

    ppu.write_to_ppu_addr(0x28);
    ppu.write_to_ppu_addr(0x05);

    ppu.write_to_data(0x77); //write to B

    ppu.write_to_ppu_addr(0x20);
    ppu.write_to_ppu_addr(0x05);

    ppu.read_data(); //load into buffer
    assert_eq!(ppu.read_data(), 0x66); //read from A

    ppu.write_to_ppu_addr(0x2C);
    ppu.write_to_ppu_addr(0x05);

    ppu.read_data(); //load into buffer
    assert_eq!(ppu.read_data(), 0x77); //read from b
}

// Vertical:
//   [0x2000 A ] [0x2400 B ]
//   [0x2800 a ] [0x2C00 b ]
#[test]
fn test_vram_vertical_mirror() {
    let mut ppu = NesPPU::new(vec![0; 2048], Mirroring::VERTICAL);

    ppu.write_to_ppu_addr(0x20);
    ppu.write_to_ppu_addr(0x05);

    ppu.write_to_data(0x66); //write to A

    ppu.write_to_ppu_addr(0x2C);
    ppu.write_to_ppu_addr(0x05);

    ppu.write_to_data(0x77); //write to b

    ppu.write_to_ppu_addr(0x28);
    ppu.write_to_ppu_addr(0x05);

    ppu.read_data(); //load into buffer
    assert_eq!(ppu.read_data(), 0x66); //read from a

    ppu.write_to_ppu_addr(0x24);
    ppu.write_to_ppu_addr(0x05);

    ppu.read_data(); //load into buffer
    assert_eq!(ppu.read_data(), 0x77); //read from B
}

#[test]
fn test_read_status_resets_latch() {
    let mut ppu = NesPPU::new_empty_rom();
    ppu.vram[0x0305] = 0x66;

    ppu.write_to_ppu_addr(0x21);
    ppu.write_to_ppu_addr(0x23);
    ppu.write_to_ppu_addr(0x05);

    ppu.read_data(); //load_into_buffer
    assert_ne!(ppu.read_data(), 0x66);

    ppu.read_status();

    ppu.write_to_ppu_addr(0x23);
    ppu.write_to_ppu_addr(0x05);

    ppu.read_data(); //load_into_buffer
    assert_eq!(ppu.read_data(), 0x66);
}

#[test]
fn test_ppu_vram_mirroring() {
    let mut ppu = NesPPU::new_empty_rom();
    ppu.write_to_ctrl(0);
    ppu.vram[0x0305] = 0x66;

    ppu.write_to_ppu_addr(0x63); //0x6305 -> 0x2305
    ppu.write_to_ppu_addr(0x05);

    ppu.read_data(); //load into_buffer
    assert_eq!(ppu.read_data(), 0x66);
}

#[test]
fn test_read_status_resets_vblank() {
    let mut ppu = NesPPU::new_empty_rom();
    ppu.status.set_vblank_status(true);

    let status = ppu.read_status();

    assert_eq!(status >> 7, 1);
    assert_eq!(ppu.status.snapshot() >> 7, 0);
}

#[test]
fn test_oam_read_write() {
    let mut ppu = NesPPU::new_empty_rom();
    ppu.write_to_oam_addr(0x10);
    ppu.write_to_oam_data(0x66);
    ppu.write_to_oam_data(0x77);

    ppu.write_to_oam_addr(0x10);
    assert_eq!(ppu.read_oam_data(), 0x66);

    ppu.write_to_oam_addr(0x11);
    assert_eq!(ppu.read_oam_data(), 0x77);
}

#[test]
fn test_oam_dma() {
    let mut ppu = NesPPU::new_empty_rom();

    let mut data = [0x66; 256];
    data[0] = 0x77;
    data[255] = 0x88;

    ppu.write_to_oam_addr(0x10);
    ppu.write_oam_dma(&data);

    ppu.write_to_oam_addr(0xf); //wrap around
    assert_eq!(ppu.read_oam_data(), 0x88);

    ppu.write_to_oam_addr(0x10);
    assert_eq!(ppu.read_oam_data(), 0x77);

    ppu.write_to_oam_addr(0x11);
    assert_eq!(ppu.read_oam_data(), 0x66);
}

#[test]
fn oam_dma_leaves_the_sprite_address_where_it_was() {
    let mut ppu = NesPPU::new_empty_rom();
    let mut data = [0u8; 256];
    for i in 0..256 {
        data[i] = i as u8;
    }
    ppu.write_to_oam_addr(0xF0);
    ppu.write_oam_dma(&data);
    assert_eq!(ppu.oam_addr, 0xF0);
    assert_eq!(ppu.oam_data[0xF0], 0);
    assert_eq!(ppu.oam_data[0xFF], 15);
    assert_eq!(ppu.oam_data[0x00], 16);
    assert_eq!(ppu.oam_data[0xEF], 255);
}

#[test]
fn oam_address_wraps() {
    let mut ppu = NesPPU::new_empty_rom();
    ppu.write_to_oam_addr(0xFF);
    ppu.write_to_oam_data(0x12);
    assert_eq!(ppu.oam_addr, 0);
    ppu.write_to_oam_data(0x34);
    assert_eq!(ppu.oam_data[0xFF], 0x12);
    assert_eq!(ppu.oam_data[0x00], 0x34);
}

#[test]
fn mirror_vram_addr_folds_the_tables() {
    let horizontal = NesPPU::new_empty_rom();
    assert_eq!(horizontal.mirror_vram_addr(0x2000), 0x0000);
    assert_eq!(horizontal.mirror_vram_addr(0x23FF), 0x03FF);
    assert_eq!(horizontal.mirror_vram_addr(0x2400), 0x0000);
    assert_eq!(horizontal.mirror_vram_addr(0x2805), 0x0405);
    assert_eq!(horizontal.mirror_vram_addr(0x2C05), 0x0405);
    assert_eq!(horizontal.mirror_vram_addr(0x2FFF), 0x07FF);
    // the range above the nametables repeats them
    assert_eq!(horizontal.mirror_vram_addr(0x3005), 0x0005);
    assert_eq!(horizontal.mirror_vram_addr(0x3C05), 0x0405);

    let vertical = NesPPU::new(vec![0; 2048], Mirroring::VERTICAL);
    assert_eq!(vertical.mirror_vram_addr(0x2005), 0x0005);
    assert_eq!(vertical.mirror_vram_addr(0x2405), 0x0405);
    assert_eq!(vertical.mirror_vram_addr(0x2805), 0x0005);
    assert_eq!(vertical.mirror_vram_addr(0x2C05), 0x0405);
    assert_eq!(vertical.mirror_vram_addr(0x2FFF), 0x07FF);
}

#[test]
fn writes_above_the_nametables_reach_their_mirror() {
    let mut ppu = NesPPU::new_empty_rom();
    ppu.write_to_ppu_addr(0x30);
    ppu.write_to_ppu_addr(0x07);
    ppu.write_to_data(0x5C);
    assert_eq!(ppu.vram[0x0007], 0x5C);
    ppu.write_to_ppu_addr(0x3E);
    ppu.write_to_ppu_addr(0xFF);
    ppu.write_to_data(0x5D);
    // 0x3EFF -> 0x2EFF: table 3, horizontal: second bank
    assert_eq!(ppu.vram[0x06FF], 0x5D);
}

#[test]
fn pattern_memory_is_read_only() {
    let mut ppu = NesPPU::new(vec![7; 0x2000], Mirroring::HORIZONTAL);
    ppu.write_to_ppu_addr(0x01);
    ppu.write_to_ppu_addr(0x00);
    ppu.write_to_data(0x99);
    assert_eq!(ppu.addr.get(), 0x0101);
    assert!(ppu.chr_rom.iter().all(|b| *b == 7));
    assert!(ppu.vram.iter().all(|b| *b == 0));
    ppu.write_to_ppu_addr(0x01);
    ppu.write_to_ppu_addr(0x00);
    assert_eq!(ppu.read_data(), 0);
    assert_eq!(ppu.read_data(), 7);
}

#[test]
fn pattern_reads_past_the_data_return_zero() {
    let mut ppu = NesPPU::new(vec![7; 16], Mirroring::HORIZONTAL);
    ppu.write_to_ppu_addr(0x00);
    ppu.write_to_ppu_addr(0x0F);
    assert_eq!(ppu.read_data(), 0);
    assert_eq!(ppu.read_data(), 7);
    assert_eq!(ppu.read_data(), 0);
}

#[test]
fn palette_reads_are_not_delayed() {
    let mut ppu = NesPPU::new_empty_rom();
    ppu.write_to_ppu_addr(0x3F);
    ppu.write_to_ppu_addr(0x01);
    ppu.write_to_data(0x2A);
    assert_eq!(ppu.palette_table[1], 0x2A);
    ppu.write_to_ppu_addr(0x3F);
    ppu.write_to_ppu_addr(0x01);
    assert_eq!(ppu.read_data(), 0x2A);
    assert_eq!(ppu.addr.get(), 0x3F02);
}

#[test]
fn palette_read_refills_the_buffer() {
    let mut ppu = NesPPU::new_empty_rom();
    ppu.vram[0x0000] = 0x11;
    ppu.palette_table[3] = 0x2B;
    ppu.write_to_ppu_addr(0x3F);
    ppu.write_to_ppu_addr(0x03);
    assert_eq!(ppu.read_data(), 0x2B);
    ppu.write_to_ppu_addr(0x20);
    ppu.write_to_ppu_addr(0x00);
    // the buffer holds what the palette read put there
    assert_eq!(ppu.read_data(), 0x2B);
    assert_eq!(ppu.read_data(), 0x11);
}

#[test]
fn palette_mirrors() {
    let mut ppu = NesPPU::new_empty_rom();
    for (hi, lo, index) in [
        (0x3Fu8, 0x10u8, 0usize),
        (0x3F, 0x14, 4),
        (0x3F, 0x18, 8),
        (0x3F, 0x1C, 12),
        (0x3F, 0x11, 17),
        (0x3F, 0x1F, 31),
        (0x3F, 0x20, 0),
        (0x3F, 0x31, 17),
        (0x3F, 0xF0, 0),
        (0x3F, 0xFF, 31),
    ] {
        ppu.write_to_ppu_addr(hi);
        ppu.write_to_ppu_addr(lo);
        let value = 0x80 | lo;
        ppu.write_to_data(value);
        assert_eq!(ppu.palette_table[index], value);
    }
}

#[test]
fn address_wraps_after_the_last_palette_entry() {
    let mut ppu = NesPPU::new_empty_rom();
    ppu.write_to_ppu_addr(0x3F);
    ppu.write_to_ppu_addr(0xFF);
    ppu.write_to_data(1);
    assert_eq!(ppu.addr.get(), 0x0000);
    ppu.write_to_ctrl(0b100);
    ppu.write_to_ppu_addr(0x3F);
    ppu.write_to_ppu_addr(0xF0);
    ppu.write_to_data(1);
    assert_eq!(ppu.addr.get(), 0x0010);
}

#[test]
fn scroll_and_address_have_their_own_latches() {
    let mut ppu = NesPPU::new_empty_rom();
    ppu.write_to_scroll(0x11);
    assert_eq!(ppu.scroll.scroll_x, 0x11);
    assert_eq!(ppu.scroll.latch, true);
    ppu.write_to_scroll(0x22);
    assert_eq!(ppu.scroll.scroll_y, 0x22);
    assert_eq!(ppu.scroll.latch, false);
    ppu.write_to_scroll(0x33);
    ppu.read_status();
    assert_eq!(ppu.scroll.latch, false);
    ppu.write_to_scroll(0x44);
    assert_eq!(ppu.scroll.scroll_x, 0x44);
    assert_eq!(ppu.scroll.scroll_y, 0x22);
}

#[test]
fn tick_counts_scanlines() {
    let mut ppu = NesPPU::new_empty_rom();
    assert_eq!(ppu.tick(200), false);
    assert_eq!(ppu.scanline, 0);
    assert_eq!(ppu.tick(140), false);
    assert_eq!(ppu.scanline, 0);
    assert_eq!(ppu.tick(1), false);
    assert_eq!(ppu.scanline, 1);
    // 341 more in two parts
    ppu.tick(255);
    assert_eq!(ppu.scanline, 1);
    ppu.tick(86);
    assert_eq!(ppu.scanline, 2);
}

#[test]
fn a_frame_of_cycles_completes_exactly_one_frame() {
    let mut ppu = NesPPU::new_empty_rom();
    let mut completed = 0;
    let mut seen_vblank_at_241 = false;
    for line in 0..262 {
        for part in [170u8, 171u8] {
            let before = ppu.scanline;
            let frame = ppu.tick(part);
            if frame {
                completed += 1;
                assert_eq!(line, 261);
                assert_eq!(part, 171);
            }
            if before == 240 && ppu.scanline == 241 {
                seen_vblank_at_241 = true;
                assert_eq!(ppu.status.snapshot() & 0x80, 0x80);
            }
        }
    }
    assert_eq!(completed, 1);
    assert!(seen_vblank_at_241);
    assert_eq!(ppu.scanline, 0);
    assert_eq!(ppu.status.snapshot() & 0x80, 0);
}

#[test]
fn a_frame_in_single_cycles() {
    let mut ppu = NesPPU::new_empty_rom();
    let mut completed = 0;
    for i in 0..(341u32 * 262) {
        if ppu.tick(1) {
            completed += 1;
            assert_eq!(i, 341 * 262 - 1);
        }
    }
    assert_eq!(completed, 1);
    for _ in 0..(341u32 * 262 - 1) {
        assert_eq!(ppu.tick(1), false);
    }
    assert_eq!(ppu.tick(1), true);
}

#[test]
fn vblank_raises_nmi_when_enabled() {
    let mut ppu = NesPPU::new_empty_rom();
    ppu.write_to_ctrl(0x80);
    for _ in 0..240 {
        ppu.tick(171);
        ppu.tick(170);
    }
    assert_eq!(ppu.scanline, 240);
    assert_eq!(ppu.nmi_interrupt, None);
    ppu.tick(171);
    ppu.tick(170);
    assert_eq!(ppu.scanline, 241);
    assert_eq!(ppu.nmi_interrupt, Some(1));
    assert_eq!(ppu.poll_nmi_interrupt(), Some(1));
    assert_eq!(ppu.poll_nmi_interrupt(), None);
}

#[test]
fn vblank_without_nmi_enabled() {
    let mut ppu = NesPPU::new_empty_rom();
    for _ in 0..241 {
        ppu.tick(171);
        ppu.tick(170);
    }
    assert_eq!(ppu.scanline, 241);
    assert_eq!(ppu.status.is_in_vblank(), true);
    assert_eq!(ppu.nmi_interrupt, None);
    // switching the bit on during vertical blanking raises it at once
    ppu.write_to_ctrl(0x80);
    assert_eq!(ppu.nmi_interrupt, Some(1));
    ppu.poll_nmi_interrupt();
    // but only on the change from 0 to 1
    ppu.write_to_ctrl(0x80);
    assert_eq!(ppu.nmi_interrupt, None);
    ppu.write_to_ctrl(0x00);
    assert_eq!(ppu.nmi_interrupt, None);
}

#[test]
fn ctrl_write_outside_vblank_raises_nothing() {
    let mut ppu = NesPPU::new_empty_rom();
    ppu.write_to_ctrl(0x80);
    assert_eq!(ppu.nmi_interrupt, None);
}

#[test]
fn end_of_frame_clears_pending_nmi_and_flags() {
    let mut ppu = NesPPU::new_empty_rom();
    ppu.write_to_ctrl(0x80);
    for _ in 0..261 {
        ppu.tick(171);
        ppu.tick(170);
    }
    assert_eq!(ppu.scanline, 261);
    assert_eq!(ppu.nmi_interrupt, Some(1));
    assert_eq!(ppu.status.is_in_vblank(), true);
    ppu.tick(171);
    assert_eq!(ppu.tick(170), true);
    assert_eq!(ppu.nmi_interrupt, None);
    assert_eq!(ppu.status.snapshot(), 0);
}

#[test]
fn sprite_zero_hit() {
    let mut ppu = NesPPU::new_empty_rom();
    ppu.write_to_mask(0b0001_0000);
    ppu.oam_data[0] = 2; // y
    ppu.oam_data[3] = 100; // x
    ppu.tick(255);
    ppu.tick(255);
    assert_eq!(ppu.scanline, 1);
    ppu.tick(171);
    assert_eq!(ppu.scanline, 1);
    assert_eq!(ppu.status.snapshot() & 0x40, 0);
    // the tick that ends scanline 1 still looks at scanline 1
    ppu.tick(1);
    assert_eq!(ppu.scanline, 2);
    assert_eq!(ppu.status.snapshot() & 0x40, 0);
    ppu.tick(99);
    assert_eq!(ppu.status.snapshot() & 0x40, 0);
    // the count reaches the sprite's column while on its scanline
    ppu.tick(1);
    assert_eq!(ppu.status.snapshot() & 0x40, 0x40);
}

#[test]
fn sprite_zero_needs_sprites_enabled_and_column_reached() {
    let mut ppu = NesPPU::new_empty_rom();
    ppu.oam_data[0] = 0;
    ppu.oam_data[3] = 50;
    ppu.tick(100);
    assert_eq!(ppu.status.snapshot() & 0x40, 0);
    ppu.write_to_mask(0b0001_0000);
    ppu.oam_data[3] = 200;
    ppu.tick(50);
    assert_eq!(ppu.status.snapshot() & 0x40, 0);
    ppu.tick(50);
    assert_eq!(ppu.status.snapshot() & 0x40, 0x40);
}

#[test]
fn address_register() {
    let mut addr = AddrRegister::new();
    assert_eq!(addr.get(), 0);
    addr.update(0x21);
    assert_eq!(addr.get(), 0x2100);
    addr.update(0xFE);
    assert_eq!(addr.get(), 0x21FE);
    addr.increment(1);
    assert_eq!(addr.get(), 0x21FF);
    addr.increment(1);
    assert_eq!(addr.get(), 0x2200);
    addr.increment(32);
    assert_eq!(addr.get(), 0x2220);
    // the two top bits of the high byte are dropped
    addr.update(0xFF);
    assert_eq!(addr.get(), 0x3F20);
    addr.update(0xF0);
    assert_eq!(addr.get(), 0x3FF0);
    addr.increment(32);
    assert_eq!(addr.get(), 0x0010);
    addr.update(0x12);
    addr.reset_latch();
    addr.update(0x34);
    assert_eq!(addr.get(), 0x3410);
}

#[test]
fn control_register() {
    let mut ctrl = ControlRegister::new();
    assert_eq!(ctrl.nametable_addr(), 0x2000);
    assert_eq!(ctrl.vram_addr_increment(), 1);
    assert_eq!(ctrl.sprite_pattern_addr(), 0);
    assert_eq!(ctrl.background_pattern_addr(), 0);
    assert_eq!(ctrl.sprite_size(), 0);
    assert_eq!(ctrl.master_slave_select(), 0);
    assert_eq!(ctrl.generate_vblank_nmi(), false);
    ctrl.update(0xFF);
    assert_eq!(ctrl.nametable_addr(), 0x2C00);
    assert_eq!(ctrl.vram_addr_increment(), 32);
    assert_eq!(ctrl.sprite_pattern_addr(), 0x1000);
    assert_eq!(ctrl.background_pattern_addr(), 0x1000);
    assert_eq!(ctrl.sprite_size(), 16);
    assert_eq!(ctrl.master_slave_select(), 1);
    assert_eq!(ctrl.generate_vblank_nmi(), true);
    ctrl.update(0b0000_0001);
    assert_eq!(ctrl.nametable_addr(), 0x2400);
    ctrl.update(0b0001_0010);
    assert_eq!(ctrl.nametable_addr(), 0x2800);
    assert_eq!(ctrl.background_pattern_addr(), 0x1000);
    assert_eq!(ctrl.sprite_pattern_addr(), 0);
}

#[test]
fn mask_register() {
    let mut mask = MaskRegister::new();
    assert_eq!(mask.is_grayscale(), false);
    assert_eq!(mask.show_sprites(), false);
    assert_eq!(mask.emphasize(), Vec::<Color>::new());
    mask.update(0b1010_0101);
    assert_eq!(mask.is_grayscale(), true);
    assert_eq!(mask.leftmost_8pixels_background(), false);
    assert_eq!(mask.leftmost_8pixels_sprite(), true);
    assert_eq!(mask.show_background(), false);
    assert_eq!(mask.show_sprites(), false);
    assert_eq!(mask.emphasize(), vec![Color::Red, Color::Blue]);
    mask.update(0b1111_1010);
    assert_eq!(mask.is_grayscale(), false);
    assert_eq!(mask.leftmost_8pixels_background(), true);
    assert_eq!(mask.leftmost_8pixels_sprite(), false);
    assert_eq!(mask.show_background(), true);
    assert_eq!(mask.show_sprites(), true);
    assert_eq!(mask.emphasize(), vec![Color::Red, Color::Blue, Color::Green]);
    mask.update(0b0100_0000);
    assert_eq!(mask.emphasize(), vec![Color::Green]);
}

#[test]
fn status_register() {
    let mut status = StatusRegister::new();
    assert_eq!(status.snapshot(), 0);
    status.set_vblank_status(true);
    status.set_sprite_zero_hit(true);
    status.set_sprite_overflow(true);
    assert_eq!(status.snapshot(), 0b1110_0000);
    assert_eq!(status.is_in_vblank(), true);
    status.set_sprite_zero_hit(false);
    assert_eq!(status.snapshot(), 0b1010_0000);
    status.reset_vblank_status();
    assert_eq!(status.snapshot(), 0b0010_0000);
    assert_eq!(status.is_in_vblank(), false);
    status.set_sprite_overflow(false);
    status.set_vblank_status(false);
    assert_eq!(status.snapshot(), 0);
}

#[test]
fn scroll_register() {
    let mut scroll = ScrollRegister::new();
    scroll.write(1);
    scroll.write(2);
    assert_eq!((scroll.scroll_x, scroll.scroll_y, scroll.latch), (1, 2, false));
    scroll.write(3);
    assert_eq!((scroll.scroll_x, scroll.scroll_y, scroll.latch), (3, 2, true));
    scroll.reset_latch();
    scroll.write(4);
    assert_eq!((scroll.scroll_x, scroll.scroll_y, scroll.latch), (4, 2, true));
}
