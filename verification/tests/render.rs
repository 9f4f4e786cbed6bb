use nes::cartridge::Mirroring;
use nes::ppu::{NesPPU, PPU};
use nes::render::frame::Frame;
use nes::render::{bg_palette, can_render, render, sprite_palette, Rect};

fn colors() -> [(u8, u8, u8); 64] {
    let mut colors = [(0u8, 0u8, 0u8); 64];
    for i in 0..64 {
        colors[i] = (i as u8, 100 + i as u8, 200 - i as u8);
    }
    colors
}

/// Pattern memory whose tile 1 has, in its first row, colour number 1 in
/// column 0 and colour number 2 in column 1, and in its last row colour
/// number 3 in column 7.
fn patterns() -> Vec<u8> {
    let mut chr = vec![0u8; 0x2000];
    chr[16] = 0b1000_0000;
    chr[16 + 8] = 0b0100_0000;
    chr[16 + 7] = 0b0000_0001;
    chr[16 + 15] = 0b0000_0001;
    chr
}

fn pixel(frame: &Frame, x: usize, y: usize) -> (u8, u8, u8) {
    let base = y * 3 * 256 + x * 3;
    (frame.data[base], frame.data[base + 1], frame.data[base + 2])
}

#[test]
fn frame_starts_black_and_takes_pixels() {
    let mut frame = Frame::new();
    assert_eq!(frame.data.len(), 256 * 240 * 3);
    assert!(frame.data.iter().all(|b| *b == 0));
    frame.set_pixel(3, 2, (1, 2, 3));
    assert_eq!(&frame.data[2 * 768 + 9..2 * 768 + 12], &[1, 2, 3]);
    assert_eq!(frame.data.iter().filter(|b| **b != 0).count(), 3);
    frame.set_pixel(255, 239, (4, 5, 6));
    assert_eq!(pixel(&frame, 255, 239), (4, 5, 6));
    // outside the picture: dropped
    frame.set_pixel(0, 240, (7, 8, 9));
    frame.set_pixel(256, 239, (7, 8, 9));
    assert_eq!(frame.data.iter().filter(|b| **b != 0).count(), 6);
    // past the right edge of a row above the last: the start of the next row
    frame.set_pixel(256, 0, (9, 9, 9));
    assert_eq!(pixel(&frame, 0, 1), (9, 9, 9));
}

#[test]
fn rect_new_takes_corners_in_order() {
    let rect = Rect::new(1, 2, 3, 4);
    assert_eq!((rect.x1, rect.y1, rect.x2, rect.y2), (1, 2, 3, 4));
}

#[test]
fn background_palette_by_quarter() {
    let mut ppu = NesPPU::new(patterns(), Mirroring::HORIZONTAL);
    for i in 0..32 {
        ppu.palette_table[i] = 32 + i as u8;
    }
    let mut attributes = [0u8; 64];
    // block of tiles 4..7 x 8..11: quarters take palettes 1, 2, 3, 0
    attributes[2 * 8 + 1] = 0b00_11_10_01;
    assert_eq!(bg_palette(&ppu, &attributes, 4, 8), [32, 32 + 5, 32 + 6, 32 + 7]);
    assert_eq!(bg_palette(&ppu, &attributes, 5, 9), [32, 32 + 5, 32 + 6, 32 + 7]);
    assert_eq!(bg_palette(&ppu, &attributes, 6, 8), [32, 32 + 9, 32 + 10, 32 + 11]);
    assert_eq!(bg_palette(&ppu, &attributes, 7, 9), [32, 32 + 9, 32 + 10, 32 + 11]);
    assert_eq!(bg_palette(&ppu, &attributes, 4, 10), [32, 32 + 13, 32 + 14, 32 + 15]);
    assert_eq!(bg_palette(&ppu, &attributes, 6, 11), [32, 32 + 1, 32 + 2, 32 + 3]);
    assert_eq!(bg_palette(&ppu, &attributes, 0, 0), [32, 32 + 1, 32 + 2, 32 + 3]);
    attributes[63] = 0b11_00_00_00;
    assert_eq!(bg_palette(&ppu, &attributes, 31, 29), [32, 32 + 1, 32 + 2, 32 + 3]);
    attributes[7 * 8 + 7] = 0b00_00_11_00;
    assert_eq!(bg_palette(&ppu, &attributes, 31, 29), [32, 32 + 13, 32 + 14, 32 + 15]);
    // a shorter table serves the blocks it holds
    assert_eq!(bg_palette(&ppu, &attributes[0..10], 5, 5), [32, 32 + 1, 32 + 2, 32 + 3]);
}

#[test]
fn sprite_palette_by_number() {
    let mut ppu = NesPPU::new(patterns(), Mirroring::HORIZONTAL);
    for i in 0..32 {
        ppu.palette_table[i] = 32 + i as u8;
    }
    assert_eq!(sprite_palette(&ppu, 0), [0, 32 + 0x11, 32 + 0x12, 32 + 0x13]);
    assert_eq!(sprite_palette(&ppu, 1), [0, 32 + 0x15, 32 + 0x16, 32 + 0x17]);
    assert_eq!(sprite_palette(&ppu, 3), [0, 32 + 0x1D, 32 + 0x1E, 32 + 0x1F]);
}

#[test]
fn can_render_tells_what_render_takes() {
    let mut ppu = NesPPU::new(patterns(), Mirroring::HORIZONTAL);
    assert_eq!(can_render(&ppu), true);
    ppu.palette_table[31] = 64;
    assert_eq!(can_render(&ppu), false);
    ppu.palette_table[31] = 63;
    assert_eq!(can_render(&ppu), true);
    ppu.write_to_scroll(0);
    ppu.write_to_scroll(241);
    assert_eq!(can_render(&ppu), false);
    ppu.write_to_scroll(1);
    ppu.write_to_scroll(241);
    assert_eq!(can_render(&ppu), true);
    let short = NesPPU::new(vec![0; 0x1FFF], Mirroring::HORIZONTAL);
    assert_eq!(can_render(&short), false);
    assert_eq!(can_render(&NesPPU::new_empty_rom()), false);
}

#[test]
fn blank_screen_shows_the_backdrop() {
    let mut ppu = NesPPU::new(patterns(), Mirroring::HORIZONTAL);
    ppu.palette_table[0] = 5;
    let mut frame = Frame::new();
    render(&ppu, &mut frame, &colors());
    for y in [0usize, 1, 100, 239] {
        for x in [0usize, 1, 128, 255] {
            assert_eq!(pixel(&frame, x, y), (5, 105, 195));
        }
    }
    assert!(frame.data.chunks(3).all(|p| p == [5, 105, 195]));
}

#[test]
fn a_tile_with_its_palette() {
    let mut ppu = NesPPU::new(patterns(), Mirroring::HORIZONTAL);
    ppu.palette_table[0] = 1;
    ppu.palette_table[9] = 2;
    ppu.palette_table[10] = 3;
    ppu.palette_table[11] = 4;
    // tile 1 at column 2, row 1: the upper right quarter of its block,
    // which takes palette 2
    ppu.vram[32 + 2] = 1;
    ppu.vram[0x3C0] = 0b00_00_10_00;
    let mut frame = Frame::new();
    render(&ppu, &mut frame, &colors());
    let c = colors();
    assert_eq!(pixel(&frame, 16, 8), c[2]);
    assert_eq!(pixel(&frame, 17, 8), c[3]);
    assert_eq!(pixel(&frame, 18, 8), c[1]);
    assert_eq!(pixel(&frame, 23, 15), c[4]);
    assert_eq!(pixel(&frame, 22, 15), c[1]);
    assert_eq!(pixel(&frame, 15, 8), c[1]);
    assert_eq!(pixel(&frame, 16, 7), c[1]);
}

#[test]
fn background_pattern_table_follows_the_control_register() {
    let mut chr = patterns();
    // the same tile number in the second pattern table: colour 3 in column 0
    chr[0x1000 + 16] = 0b1000_0000;
    chr[0x1000 + 24] = 0b1000_0000;
    let mut ppu = NesPPU::new(chr, Mirroring::HORIZONTAL);
    ppu.palette_table[1] = 11;
    ppu.palette_table[3] = 13;
    ppu.vram[0] = 1;
    let mut frame = Frame::new();
    render(&ppu, &mut frame, &colors());
    assert_eq!(pixel(&frame, 0, 0), colors()[11]);
    ppu.write_to_ctrl(0b0001_0000);
    render(&ppu, &mut frame, &colors());
    assert_eq!(pixel(&frame, 0, 0), colors()[13]);
}

#[test]
fn horizontal_scroll_shows_the_other_nametable_at_the_right() {
    let mut ppu = NesPPU::new(patterns(), Mirroring::VERTICAL);
    ppu.palette_table[0] = 1;
    ppu.palette_table[1] = 7;
    ppu.palette_table[2] = 8;
    // first nametable: tile 1 at column 1; second: tile 1 at column 0
    ppu.vram[1] = 1;
    ppu.vram[0x400] = 1;
    ppu.write_to_scroll(8);
    ppu.write_to_scroll(0);
    let mut frame = Frame::new();
    render(&ppu, &mut frame, &colors());
    let c = colors();
    // column 1 of the first nametable has moved to the left edge
    assert_eq!(pixel(&frame, 0, 0), c[7]);
    assert_eq!(pixel(&frame, 1, 0), c[8]);
    assert_eq!(pixel(&frame, 2, 0), c[1]);
    // column 0 of the second nametable shows in the last eight columns
    assert_eq!(pixel(&frame, 248, 0), c[7]);
    assert_eq!(pixel(&frame, 249, 0), c[8]);
    assert_eq!(pixel(&frame, 247, 0), c[1]);
}

#[test]
fn control_register_chooses_the_main_nametable() {
    let mut ppu = NesPPU::new(patterns(), Mirroring::VERTICAL);
    ppu.palette_table[0] = 1;
    ppu.palette_table[1] = 7;
    ppu.vram[0x400] = 1;
    let mut frame = Frame::new();
    render(&ppu, &mut frame, &colors());
    assert_eq!(pixel(&frame, 0, 0), colors()[1]);
    // vertical mirroring: nametable 1 lies in the second bank
    ppu.write_to_ctrl(0b01);
    render(&ppu, &mut frame, &colors());
    assert_eq!(pixel(&frame, 0, 0), colors()[7]);
    // nametable 2 mirrors nametable 0
    ppu.write_to_ctrl(0b10);
    render(&ppu, &mut frame, &colors());
    assert_eq!(pixel(&frame, 0, 0), colors()[1]);

    let mut ppu = NesPPU::new(patterns(), Mirroring::HORIZONTAL);
    ppu.palette_table[0] = 1;
    ppu.palette_table[1] = 7;
    ppu.vram[0x400] = 1;
    // horizontal mirroring: nametable 1 mirrors nametable 0, nametable 2 lies in the second bank
    ppu.write_to_ctrl(0b01);
    render(&ppu, &mut frame, &colors());
    assert_eq!(pixel(&frame, 0, 0), colors()[1]);
    ppu.write_to_ctrl(0b10);
    render(&ppu, &mut frame, &colors());
    assert_eq!(pixel(&frame, 0, 0), colors()[7]);
}

#[test]
fn vertical_scroll_shows_the_other_nametable_at_the_bottom() {
    let mut ppu = NesPPU::new(patterns(), Mirroring::HORIZONTAL);
    ppu.palette_table[0] = 1;
    ppu.palette_table[1] = 7;
    // first nametable: tile 1 at row 1; second (nametable 2): tile 1 at row 0
    ppu.vram[32] = 1;
    ppu.vram[0x400] = 1;
    ppu.write_to_scroll(0);
    ppu.write_to_scroll(8);
    let mut frame = Frame::new();
    render(&ppu, &mut frame, &colors());
    let c = colors();
    assert_eq!(pixel(&frame, 0, 0), c[7]);
    assert_eq!(pixel(&frame, 0, 232), c[7]);
    assert_eq!(pixel(&frame, 0, 231), c[1]);
}

#[test]
fn sprites_are_drawn_over_the_background_and_flipped() {
    let mut ppu = NesPPU::new(patterns(), Mirroring::HORIZONTAL);
    ppu.palette_table[0] = 1;
    ppu.palette_table[0x15] = 21;
    ppu.palette_table[0x16] = 22;
    ppu.palette_table[0x17] = 23;
    // all sprites but two lie hidden with the empty tile 0
    ppu.oam_data[4 * 5] = 10; // y
    ppu.oam_data[4 * 5 + 1] = 1; // tile
    ppu.oam_data[4 * 5 + 2] = 0b0000_0001; // palette 1
    ppu.oam_data[4 * 5 + 3] = 20; // x
    ppu.oam_data[4 * 6] = 50;
    ppu.oam_data[4 * 6 + 1] = 1;
    ppu.oam_data[4 * 6 + 2] = 0b1100_0001; // flipped both ways
    ppu.oam_data[4 * 6 + 3] = 60;
    let mut frame = Frame::new();
    render(&ppu, &mut frame, &colors());
    let c = colors();
    assert_eq!(pixel(&frame, 20, 10), c[21]);
    assert_eq!(pixel(&frame, 21, 10), c[22]);
    assert_eq!(pixel(&frame, 27, 17), c[23]);
    // transparent pixels leave the backdrop
    assert_eq!(pixel(&frame, 22, 10), c[1]);
    // flipped: column 0 of row 0 lands at the bottom right
    assert_eq!(pixel(&frame, 67, 57), c[21]);
    assert_eq!(pixel(&frame, 66, 57), c[22]);
    assert_eq!(pixel(&frame, 60, 50), c[23]);
}

#[test]
fn the_first_sprite_is_on_top() {
    let mut ppu = NesPPU::new(patterns(), Mirroring::HORIZONTAL);
    ppu.palette_table[0x11] = 31;
    ppu.palette_table[0x15] = 35;
    // sprites 0 and 1 at the same place with different palettes
    ppu.oam_data[0] = 30;
    ppu.oam_data[1] = 1;
    ppu.oam_data[2] = 0;
    ppu.oam_data[3] = 40;
    ppu.oam_data[4] = 30;
    ppu.oam_data[5] = 1;
    ppu.oam_data[6] = 1;
    ppu.oam_data[7] = 40;
    let mut frame = Frame::new();
    render(&ppu, &mut frame, &colors());
    assert_eq!(pixel(&frame, 40, 30), colors()[31]);
}

#[test]
fn sprite_pattern_table_follows_the_control_register() {
    let mut chr = patterns();
    chr[0x1000 + 16] = 0b1000_0000;
    chr[0x1000 + 24] = 0b1000_0000;
    let mut ppu = NesPPU::new(chr, Mirroring::HORIZONTAL);
    ppu.palette_table[0x11] = 31;
    ppu.palette_table[0x13] = 33;
    ppu.oam_data[0] = 30;
    ppu.oam_data[1] = 1;
    ppu.oam_data[3] = 40;
    ppu.write_to_ctrl(0b0000_1000);
    let mut frame = Frame::new();
    render(&ppu, &mut frame, &colors());
    assert_eq!(pixel(&frame, 40, 30), colors()[33]);
}
