//! Drawing: from the memory of the picture processor to a picture. The
//! background goes first, scrolled: a window on one nametable and, where
//! the scroll leaves room, on the other. The sprites go over it, the
//! first of them last.

pub mod frame;

use vstd::prelude::*;
use crate::bits::has_bits;
use crate::cartridge::Mirroring;
use crate::ppu::registers::control::{BACKGROUND_PATTERN_ADDR, SPRITE_PATTERN_ADDR};
use crate::ppu::{NesPPU, PpuState};
use frame::{painted, Frame, Rgb};

verus! {

/// Tiles in a nametable; the attribute table follows them.
pub const TILES: usize = 0x03C0;

/// Bytes in a nametable.
pub const NAMETABLE_SIZE: usize = 0x0400;

/// Sprites in sprite memory, of four bytes each.
pub const SPRITES: usize = 64;

/// Bytes of pattern memory that the two pattern tables fill.
pub const PATTERN_SIZE: usize = 0x2000;

/// Colours that a palette entry can name.
pub const COLORS: usize = 64;

/// A part of the picture: columns `x1` up to `x2`, rows `y1` up to `y2`.
pub struct Rect {
    pub x1: usize,
    pub x2: usize,
    pub y1: usize,
    pub y2: usize,
}

impl Rect {
    pub fn new(x1: usize, y1: usize, x2: usize, y2: usize) -> (rect: Rect)
        ensures
            rect.x1 == x1,
            rect.x2 == x2,
            rect.y1 == y1,
            rect.y2 == y2,
    {
        Rect { x1, x2, y1, y2 }
    }

    pub open spec fn contains(self, x: int, y: int) -> bool {
        self.x1 <= x < self.x2 && self.y1 <= y < self.y2
    }
}

/// Bit `index` of a byte, as 0 or 1.
pub open spec fn bit_of(value: u8, index: u8) -> u8 {
    (value >> index) & 1
}

/// The colour number, 0 to 3, of the pixel in column `x` of a row of a
/// tile: the row's byte in the second plane gives the high bit, the one
/// in the first plane the low bit; column 0 is bit 7.
pub open spec fn tile_pixel(upper: u8, lower: u8, x: u8) -> u8 {
    (2 * bit_of(lower, (7 - x) as u8) + bit_of(upper, (7 - x) as u8)) as u8
}

/// Where the attribute byte of a tile lies in the attribute table: one
/// byte for every block of 4 x 4 tiles.
pub open spec fn attribute_index(tile_column: int, tile_row: int) -> int {
    tile_row / 4 * 8 + tile_column / 4
}

/// The number of the palette of a tile: two bits of the attribute byte,
/// chosen by the quarter of the block in which the tile lies.
pub open spec fn palette_number(attr_byte: u8, tile_column: int, tile_row: int) -> u8 {
    if tile_column % 4 / 2 == 0 && tile_row % 4 / 2 == 0 {
        attr_byte % 4
    } else if tile_row % 4 / 2 == 0 {
        attr_byte / 4 % 4
    } else if tile_column % 4 / 2 == 0 {
        attr_byte / 16 % 4
    } else {
        attr_byte / 64 % 4
    }
}

/// The four colours of a background tile: the backdrop and the three
/// of the tile's palette.
pub open spec fn background_palette(
    palette_table: Seq<u8>,
    attribute_table: Seq<u8>,
    tile_column: int,
    tile_row: int,
) -> Seq<u8> {
    let start = 1 + palette_number(
        attribute_table[attribute_index(tile_column, tile_row)],
        tile_column,
        tile_row,
    ) * 4;
    seq![
        palette_table[0],
        palette_table[start],
        palette_table[start + 1],
        palette_table[start + 2],
    ]
}

/// The four colours of a sprite palette; the first stands for
/// transparent.
pub open spec fn sprite_colors(palette_table: Seq<u8>, palette_idx: u8) -> Seq<u8> {
    let start = 0x11 + palette_idx * 4;
    seq![0u8, palette_table[start], palette_table[start + 1], palette_table[start + 2]]
}

/// Whether the first physical bank holds the nametable that the control
/// register names.
pub open spec fn first_bank_is_main(mirroring: Mirroring, ctrl: u8) -> bool {
    match mirroring {
        Mirroring::VERTICAL => ctrl % 2 == 0,
        Mirroring::HORIZONTAL => ctrl % 4 < 2,
    }
}

/// What can be drawn: the pattern memory covers both pattern tables and
/// every palette entry names a colour.
pub open spec fn drawable(ppu: PpuState) -> bool {
    &&& ppu.chr_rom.len() >= PATTERN_SIZE
    &&& ppu.palette_table.len() == 32
    &&& ppu.vram.len() == 2 * NAMETABLE_SIZE
    &&& ppu.oam_data.len() == 4 * SPRITES
    &&& forall|i: int| 0 <= i < 32 ==> #[trigger] ppu.palette_table[i] < COLORS
}

/// A window on a nametable: the pixels of the nametable inside `view`
/// appear in the picture moved by `shift_x` and `shift_y`.
pub struct Layer {
    pub ppu: PpuState,
    pub colors: Seq<Rgb>,
    pub name_table: Seq<u8>,
    pub view: Rect,
    pub shift_x: int,
    pub shift_y: int,
}

impl Layer {
    /// Where the pattern of a tile starts.
    pub open spec fn pattern_start(self, tile: int) -> int {
        (if has_bits(self.ppu.ctrl, BACKGROUND_PATTERN_ADDR) {
            0x1000int
        } else {
            0int
        }) + self.name_table[tile] * 16
    }

    /// The colour of a pixel of a tile.
    pub open spec fn color(self, tile: int, x: int, y: int) -> Rgb {
        let start = self.pattern_start(tile);
        let value = tile_pixel(self.ppu.chr_rom[start + y], self.ppu.chr_rom[start + y + 8], x as u8);
        let palette = background_palette(
            self.ppu.palette_table,
            self.name_table.subrange(TILES as int, NAMETABLE_SIZE as int),
            tile % 32,
            tile / 32,
        );
        self.colors[palette[value as int] as int]
    }

    /// The picture after one pixel of a tile was drawn, if it shows.
    pub open spec fn pixel(self, data: Seq<u8>, tile: int, x: int, y: int) -> Seq<u8> {
        let pixel_x = tile % 32 * 8 + x;
        let pixel_y = tile / 32 * 8 + y;
        if self.view.contains(pixel_x, pixel_y) {
            painted(data, self.shift_x + pixel_x, self.shift_y + pixel_y, self.color(tile, x, y))
        } else {
            data
        }
    }

    /// The picture after the `count` rightmost pixels of a row of a tile
    /// were drawn, from the right.
    pub open spec fn row(self, data: Seq<u8>, tile: int, y: int, count: nat) -> Seq<u8>
        decreases count,
    {
        if count == 0 {
            data
        } else {
            self.pixel(self.row(data, tile, y, (count - 1) as nat), tile, 8 - count, y)
        }
    }

    /// The picture after the first `rows` rows of a tile were drawn.
    pub open spec fn rows(self, data: Seq<u8>, tile: int, rows: nat) -> Seq<u8>
        decreases rows,
    {
        if rows == 0 {
            data
        } else {
            self.row(self.rows(data, tile, (rows - 1) as nat), tile, rows - 1, 8)
        }
    }

    /// The picture after the first `count` tiles were drawn.
    pub open spec fn tiles(self, data: Seq<u8>, count: nat) -> Seq<u8>
        decreases count,
    {
        if count == 0 {
            data
        } else {
            self.rows(self.tiles(data, (count - 1) as nat), count - 1, 8)
        }
    }

    /// Whether every pixel that shows lands at coordinates that can be
    /// counted with.
    pub open spec fn in_reach(self) -> bool {
        &&& 0 <= self.shift_x + self.view.x1
        &&& 0 <= self.shift_y + self.view.y1
        &&& self.shift_x <= 0x10000
        &&& self.shift_y <= 0x10000
    }
}

/// The sprites over a picture.
pub struct Sprites {
    pub ppu: PpuState,
    pub colors: Seq<Rgb>,
}

impl Sprites {
    /// Where the pattern of a sprite starts.
    pub open spec fn pattern_start(self, sprite: int) -> int {
        (if has_bits(self.ppu.ctrl, SPRITE_PATTERN_ADDR) {
            0x1000int
        } else {
            0int
        }) + self.ppu.oam_data[4 * sprite + 1] * 16
    }

    /// The picture after one pixel of a sprite was drawn. Colour number
    /// 0 is transparent; bits 6 and 7 of the sprite's attributes flip it
    /// from left to right and upside down.
    pub open spec fn pixel(self, data: Seq<u8>, sprite: int, x: int, y: int) -> Seq<u8> {
        let oam = self.ppu.oam_data;
        let attributes = oam[4 * sprite + 2];
        let start = self.pattern_start(sprite);
        let value = tile_pixel(self.ppu.chr_rom[start + y], self.ppu.chr_rom[start + y + 8], x as u8);
        let palette = sprite_colors(self.ppu.palette_table, attributes % 4);
        if value == 0 {
            data
        } else {
            painted(
                data,
                oam[4 * sprite + 3] + (if bit_of(attributes, 6) == 1 {
                    7 - x
                } else {
                    x
                }),
                oam[4 * sprite] + (if bit_of(attributes, 7) == 1 {
                    7 - y
                } else {
                    y
                }),
                self.colors[palette[value as int] as int],
            )
        }
    }

    /// The picture after the `count` rightmost pixels of a row of a
    /// sprite were drawn, from the right.
    pub open spec fn row(self, data: Seq<u8>, sprite: int, y: int, count: nat) -> Seq<u8>
        decreases count,
    {
        if count == 0 {
            data
        } else {
            self.pixel(self.row(data, sprite, y, (count - 1) as nat), sprite, 8 - count, y)
        }
    }

    /// The picture after the first `rows` rows of a sprite were drawn.
    pub open spec fn rows(self, data: Seq<u8>, sprite: int, rows: nat) -> Seq<u8>
        decreases rows,
    {
        if rows == 0 {
            data
        } else {
            self.row(self.rows(data, sprite, (rows - 1) as nat), sprite, rows - 1, 8)
        }
    }

    /// The picture after the last `count` sprites were drawn, the last
    /// of them first.
    pub open spec fn sprites(self, data: Seq<u8>, count: nat) -> Seq<u8>
        decreases count,
    {
        if count == 0 {
            data
        } else {
            self.rows(self.sprites(data, (count - 1) as nat), SPRITES - count, 8)
        }
    }
}

/// The window on the nametable that the control register names: what
/// lies right of and below the scroll position, moved to the top left.
pub open spec fn main_layer(ppu: PpuState, colors: Seq<Rgb>) -> Layer {
    Layer {
        ppu,
        colors,
        name_table: if first_bank_is_main(ppu.mirroring, ppu.ctrl) {
            ppu.vram.subrange(0, NAMETABLE_SIZE as int)
        } else {
            ppu.vram.subrange(NAMETABLE_SIZE as int, 2 * NAMETABLE_SIZE)
        },
        view: Rect { x1: ppu.scroll_x as usize, x2: 256, y1: ppu.scroll_y as usize, y2: 240 },
        shift_x: -(ppu.scroll_x as int),
        shift_y: -(ppu.scroll_y as int),
    }
}

/// The window on the other nametable: with a horizontal scroll its
/// left part, shown at the right; else, with a vertical scroll, its
/// upper part, shown at the bottom.
pub open spec fn second_layer(ppu: PpuState, colors: Seq<Rgb>) -> Layer {
    Layer {
        ppu,
        colors,
        name_table: if first_bank_is_main(ppu.mirroring, ppu.ctrl) {
            ppu.vram.subrange(NAMETABLE_SIZE as int, 2 * NAMETABLE_SIZE)
        } else {
            ppu.vram.subrange(0, NAMETABLE_SIZE as int)
        },
        view: if ppu.scroll_x > 0 {
            Rect { x1: 0, x2: ppu.scroll_x as usize, y1: 0, y2: 240 }
        } else {
            Rect { x1: 0, x2: 256, y1: 0, y2: ppu.scroll_y as usize }
        },
        shift_x: if ppu.scroll_x > 0 {
            256 - ppu.scroll_x
        } else {
            0
        },
        shift_y: if ppu.scroll_x > 0 {
            0
        } else {
            240 - ppu.scroll_y
        },
    }
}

/// The picture after a frame was drawn over it.
pub open spec fn rendered(ppu: PpuState, colors: Seq<Rgb>, data: Seq<u8>) -> Seq<u8> {
    let first = main_layer(ppu, colors).tiles(data, TILES as nat);
    let background = if ppu.scroll_x > 0 || ppu.scroll_y > 0 {
        second_layer(ppu, colors).tiles(first, TILES as nat)
    } else {
        first
    };
    (Sprites { ppu, colors }).sprites(background, SPRITES as nat)
}

/// Bit `index` of a byte.
fn bit(value: u8, index: u8) -> (bit: u8)
    requires
        index < 8,
    ensures
        bit == bit_of(value, index),
        bit <= 1,
{
    assert((value >> index) & 1 <= 1) by (bit_vector);
    (value >> index) & 1
}

/// The colour number of a pixel of a row of a tile.
fn tile_value(upper: u8, lower: u8, x: u8) -> (value: u8)
    requires
        x < 8,
    ensures
        value == tile_pixel(upper, lower, x),
        value <= 3,
{
    2 * bit(lower, 7 - x) + bit(upper, 7 - x)
}

/// The four colours of the background tile at a column and row of a
/// nametable.
pub fn bg_palette(
    ppu: &NesPPU,
    attribute_table: &[u8],
    tile_column: usize,
    tile_row: usize,
) -> (palette: [u8; 4])
    requires
        attribute_index(tile_column as int, tile_row as int) < attribute_table@.len(),
    ensures
        palette@ == background_palette(
            ppu@.palette_table,
            attribute_table@,
            tile_column as int,
            tile_row as int,
        ),
{
    let table_size = attribute_table.len();
    assert(tile_row / 4 * 8 + tile_column / 4 < table_size);
    let attr_table_idx = tile_row / 4 * 8 + tile_column / 4;
    let attr_byte = attribute_table[attr_table_idx];
    let palette_idx = match (tile_column % 4 / 2, tile_row % 4 / 2) {
        (0, 0) => attr_byte % 4,
        (_, 0) => attr_byte / 4 % 4,
        (0, _) => attr_byte / 16 % 4,
        (_, _) => attr_byte / 64 % 4,
    };
    let palette_start: usize = 1 + (palette_idx as usize) * 4;
    let palette = [
        ppu.palette_table[0],
        ppu.palette_table[palette_start],
        ppu.palette_table[palette_start + 1],
        ppu.palette_table[palette_start + 2],
    ];
    assert(palette@ =~= background_palette(
        ppu@.palette_table,
        attribute_table@,
        tile_column as int,
        tile_row as int,
    ));
    palette
}

/// The four colours of a sprite palette.
pub fn sprite_palette(ppu: &NesPPU, palette_idx: u8) -> (palette: [u8; 4])
    requires
        palette_idx <= 3,
    ensures
        palette@ == sprite_colors(ppu@.palette_table, palette_idx),
{
    let start = 0x11 + (palette_idx * 4) as usize;
    let palette = [
        0,
        ppu.palette_table[start],
        ppu.palette_table[start + 1],
        ppu.palette_table[start + 2],
    ];
    assert(palette@ =~= sprite_colors(ppu@.palette_table, palette_idx));
    palette
}

/// Draws the part of a nametable that lies inside `view_port`, moved
/// by `shift_x` and `shift_y`.
#[verifier::loop_isolation(false)]
fn render_name_table(
    ppu: &NesPPU,
    frame: &mut Frame,
    name_table: &[u8],
    view_port: Rect,
    shift_x: isize,
    shift_y: isize,
    colors: &[Rgb; 64],
)
    requires
        drawable(ppu@),
        name_table@.len() == NAMETABLE_SIZE,
        0 <= shift_x + view_port.x1,
        0 <= shift_y + view_port.y1,
        -0x10000 <= shift_x <= 0x10000,
        -0x10000 <= shift_y <= 0x10000,
    ensures
        final(frame).data@ == (Layer {
            ppu: ppu@,
            colors: colors@,
            name_table: name_table@,
            view: view_port,
            shift_x: shift_x as int,
            shift_y: shift_y as int,
        }).tiles(old(frame).data@, TILES as nat),
{
    let ghost layer = Layer {
        ppu: ppu@,
        colors: colors@,
        name_table: name_table@,
        view: view_port,
        shift_x: shift_x as int,
        shift_y: shift_y as int,
    };
    let ghost start = frame.data@;
    let bank = ppu.ctrl.background_pattern_addr();
    let attribute_table = &name_table[0x03C0..0x0400];
    let mut i: usize = 0;
    while i < TILES
        invariant
            i <= TILES,
            frame.data@ == layer.tiles(start, i as nat),
        decreases TILES - i,
    {
        let tile_column = i % 32;
        let tile_row = i / 32;
        let tile_idx = name_table[i] as u16;
        let tile_start = (bank + tile_idx * 16) as usize;
        let palette = bg_palette(ppu, attribute_table, tile_column, tile_row);
        let ghost before_tile = frame.data@;
        let mut y: usize = 0;
        while y < 8
            invariant
                y <= 8,
                frame.data@ == layer.rows(before_tile, i as int, y as nat),
            decreases 8 - y,
        {
            let upper = ppu.chr_rom[tile_start + y];
            let lower = ppu.chr_rom[tile_start + y + 8];
            let ghost before_row = frame.data@;
            let mut count: usize = 0;
            while count < 8
                invariant
                    count <= 8,
                    frame.data@ == layer.row(before_row, i as int, y as int, count as nat),
                decreases 8 - count,
            {
                let x = 7 - count;
                let value = tile_value(upper, lower, x as u8);
                let rgb = colors[palette[value as usize] as usize];
                let pixel_x = tile_column * 8 + x;
                let pixel_y = tile_row * 8 + y;
                assert(rgb == layer.color(i as int, x as int, y as int));
                if pixel_x >= view_port.x1 && pixel_x < view_port.x2 && pixel_y >= view_port.y1
                    && pixel_y < view_port.y2 {
                    frame.set_pixel(
                        (shift_x + pixel_x as isize) as usize,
                        (shift_y + pixel_y as isize) as usize,
                        rgb,
                    );
                }
                count += 1;
            }
            y += 1;
        }
        i += 1;
    }
}

/// Draws the sprites, the last of them first.
#[verifier::loop_isolation(false)]
fn render_sprites(ppu: &NesPPU, frame: &mut Frame, colors: &[Rgb; 64])
    requires
        drawable(ppu@),
    ensures
        final(frame).data@ == (Sprites { ppu: ppu@, colors: colors@ }).sprites(
            old(frame).data@,
            SPRITES as nat,
        ),
{
    let ghost scene = Sprites { ppu: ppu@, colors: colors@ };
    let ghost start = frame.data@;
    let bank: u16 = ppu.ctrl.sprite_pattern_addr();
    let mut drawn: usize = 0;
    while drawn < SPRITES
        invariant
            drawn <= SPRITES,
            frame.data@ == scene.sprites(start, drawn as nat),
        decreases SPRITES - drawn,
    {
        let i = (SPRITES - 1 - drawn) * 4;
        let tile_idx = ppu.oam_data[i + 1] as u16;
        let tile_x = ppu.oam_data[i + 3] as usize;
        let tile_y = ppu.oam_data[i] as usize;
        let flip_vertical = bit(ppu.oam_data[i + 2], 7) == 1;
        let flip_horizontal = bit(ppu.oam_data[i + 2], 6) == 1;
        let palette_idx = ppu.oam_data[i + 2] % 4;
        let sprite_palette = sprite_palette(ppu, palette_idx);
        let tile_start = (bank + tile_idx * 16) as usize;
        let ghost before_sprite = frame.data@;
        let ghost sprite = (SPRITES - 1 - drawn) as int;
        let mut y: usize = 0;
        while y < 8
            invariant
                y <= 8,
                frame.data@ == scene.rows(before_sprite, sprite, y as nat),
            decreases 8 - y,
        {
            let upper = ppu.chr_rom[tile_start + y];
            let lower = ppu.chr_rom[tile_start + y + 8];
            let ghost before_row = frame.data@;
            let mut count: usize = 0;
            while count < 8
                invariant
                    count <= 8,
                    frame.data@ == scene.row(before_row, sprite, y as int, count as nat),
                decreases 8 - count,
            {
                let x = 7 - count;
                let value = tile_value(upper, lower, x as u8);
                if value != 0 {
                    let rgb = colors[sprite_palette[value as usize] as usize];
                    let pixel_x = if flip_horizontal {
                        tile_x + 7 - x
                    } else {
                        tile_x + x
                    };
                    let pixel_y = if flip_vertical {
                        tile_y + 7 - y
                    } else {
                        tile_y + y
                    };
                    frame.set_pixel(pixel_x, pixel_y, rgb);
                }
                count += 1;
            }
            y += 1;
        }
        drawn += 1;
    }
}

/// Whether `render` can draw the picture processor as it is.
pub open spec fn renderable(ppu: PpuState) -> bool {
    &&& drawable(ppu)
    &&& ppu.scroll_x == 0 ==> ppu.scroll_y <= 240
}

/// Tests whether `render` can draw the picture processor as it is.
pub fn can_render(ppu: &NesPPU) -> (ok: bool)
    ensures
        ok == renderable(ppu@),
{
    if ppu.chr_rom.len() < PATTERN_SIZE {
        return false;
    }
    if ppu.scroll.scroll_x == 0 && ppu.scroll.scroll_y > 240 {
        return false;
    }
    let mut i: usize = 0;
    while i < 32
        invariant
            i <= 32,
            forall|j: int| 0 <= j < i ==> #[trigger] ppu@.palette_table[j] < COLORS,
        decreases 32 - i,
    {
        if ppu.palette_table[i] >= COLORS as u8 {
            return false;
        }
        i += 1;
    }
    true
}

/// Draws a frame: the background, scrolled, and over it the sprites.
/// `colors` gives the colour that each palette entry names. A vertical
/// scroll must leave a row of the picture to the other nametable.
pub fn render(ppu: &NesPPU, frame: &mut Frame, colors: &[Rgb; 64])
    requires
        renderable(ppu@),
    ensures
        final(frame).data@ == rendered(ppu@, colors@, old(frame).data@),
{
    let scroll_x = (ppu.scroll.scroll_x) as usize;
    let scroll_y = (ppu.scroll.scroll_y) as usize;
    let first_is_main = match (&ppu.mirroring, ppu.ctrl.nametable_addr()) {
        (Mirroring::VERTICAL, 0x2000)
        | (Mirroring::VERTICAL, 0x2800)
        | (Mirroring::HORIZONTAL, 0x2000)
        | (Mirroring::HORIZONTAL, 0x2400) => true,
        _ => false,
    };
    assert(first_is_main == first_bank_is_main(ppu@.mirroring, ppu@.ctrl));
    let (main_nametable, second_nametable) = if first_is_main {
        (&ppu.vram[0..0x0400], &ppu.vram[0x0400..0x0800])
    } else {
        (&ppu.vram[0x0400..0x0800], &ppu.vram[0..0x0400])
    };
    render_name_table(
        ppu,
        frame,
        main_nametable,
        Rect::new(scroll_x, scroll_y, 256, 240),
        -(scroll_x as isize),
        -(scroll_y as isize),
        colors,
    );
    assert(frame.data@ == main_layer(ppu@, colors@).tiles(old(frame).data@, TILES as nat));
    if scroll_x > 0 {
        render_name_table(
            ppu,
            frame,
            second_nametable,
            Rect::new(0, 0, scroll_x, 240),
            (256 - scroll_x) as isize,
            0,
            colors,
        );
    } else if scroll_y > 0 {
        render_name_table(
            ppu,
            frame,
            second_nametable,
            Rect::new(0, 0, 256, scroll_y),
            0,
            (240 - scroll_y) as isize,
            colors,
        );
    }
    render_sprites(ppu, frame, colors);
}

} // verus!
