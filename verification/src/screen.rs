//! A screen of 32 x 32 cells that a program paints by writing colour
//! numbers to work memory, one byte for each cell.

use vstd::prelude::*;
use crate::bus::FrameCallback;
use crate::cpu::{CpuState, Memory, CPU};
use crate::render::frame::Rgb;

verus! {

/// The first address of the cells.
pub const SCREEN_START: u16 = 0x0200;

/// Number of cells.
pub const SCREEN_CELLS: usize = 1024;

/// Bytes in the picture of the cells: three for each.
pub const SCREEN_BYTES: usize = 3072;

/// Number of colours.
pub const SCREEN_COLORS: usize = 9;

/// The colours of the cells.
#[derive(Debug, Clone, Copy, PartialEq, Eq, Structural)]
pub enum ScreenColor {
    Black,
    White,
    Grey,
    Red,
    Green,
    Blue,
    Magenta,
    Yellow,
    Cyan,
}

impl ScreenColor {
    /// The place of a colour in a table of shades.
    pub open spec fn spec_index(self) -> usize {
        match self {
            ScreenColor::Black => 0,
            ScreenColor::White => 1,
            ScreenColor::Grey => 2,
            ScreenColor::Red => 3,
            ScreenColor::Green => 4,
            ScreenColor::Blue => 5,
            ScreenColor::Magenta => 6,
            ScreenColor::Yellow => 7,
            ScreenColor::Cyan => 8,
        }
    }

    /// The place of a colour in a table of shades.
    #[verifier::when_used_as_spec(spec_index)]
    pub fn index(self) -> (index: usize)
        ensures
            index == self.spec_index(),
            index < SCREEN_COLORS,
    {
        match self {
            ScreenColor::Black => 0,
            ScreenColor::White => 1,
            ScreenColor::Grey => 2,
            ScreenColor::Red => 3,
            ScreenColor::Green => 4,
            ScreenColor::Blue => 5,
            ScreenColor::Magenta => 6,
            ScreenColor::Yellow => 7,
            ScreenColor::Cyan => 8,
        }
    }
}

/// The colour that a byte of screen memory stands for: 0 is black, 1
/// white, then seven colours twice over, and all above is cyan.
pub open spec fn color_of(byte: u8) -> ScreenColor {
    if byte == 0 {
        ScreenColor::Black
    } else if byte == 1 {
        ScreenColor::White
    } else if byte == 2 || byte == 9 {
        ScreenColor::Grey
    } else if byte == 3 || byte == 10 {
        ScreenColor::Red
    } else if byte == 4 || byte == 11 {
        ScreenColor::Green
    } else if byte == 5 || byte == 12 {
        ScreenColor::Blue
    } else if byte == 6 || byte == 13 {
        ScreenColor::Magenta
    } else if byte == 7 || byte == 14 {
        ScreenColor::Yellow
    } else {
        ScreenColor::Cyan
    }
}

/// One of the three bytes of a shade.
pub open spec fn channel(shade: Rgb, which: int) -> u8 {
    if which == 0 {
        shade.0
    } else if which == 1 {
        shade.1
    } else {
        shade.2
    }
}

/// The picture of the cells: for each cell the three bytes of the shade
/// of its colour.
pub open spec fn screen_picture(cells: Seq<u8>, shades: Seq<Rgb>) -> Seq<u8> {
    Seq::new(
        SCREEN_BYTES as nat,
        |k: int| channel(shades[color_of(cells[k / 3]).spec_index() as int], k % 3),
    )
}

/// The colour that a byte of screen memory stands for.
pub fn color(byte: u8) -> (color: ScreenColor)
    ensures
        color == color_of(byte),
{
    match byte {
        0 => ScreenColor::Black,
        1 => ScreenColor::White,
        2 | 9 => ScreenColor::Grey,
        3 | 10 => ScreenColor::Red,
        4 | 11 => ScreenColor::Green,
        5 | 12 => ScreenColor::Blue,
        6 | 13 => ScreenColor::Magenta,
        7 | 14 => ScreenColor::Yellow,
        _ => ScreenColor::Cyan,
    }
}

/// Reads the cells and brings their picture up to date; `shades` gives
/// the red, green and blue of each colour. The result says whether the
/// picture changed.
pub fn read_screen_state<F: FrameCallback>(
    cpu: &mut CPU<F>,
    frame: &mut [u8; 3072],
    shades: &[Rgb; 9],
) -> (update: bool)
    ensures
        final(cpu)@.bus == old(cpu)@.bus.read_block(SCREEN_START, SCREEN_CELLS as nat).0,
        final(cpu)@ == (CpuState { bus: final(cpu)@.bus, ..old(cpu)@ }),
        final(frame)@ == screen_picture(
            old(cpu)@.bus.read_block(SCREEN_START, SCREEN_CELLS as nat).1,
            shades@,
        ),
        update == (final(frame)@ != old(frame)@),
{
    let ghost machine = cpu@;
    let ghost before = frame@;
    let mut frame_idx: usize = 0;
    let mut update = false;
    let mut i: usize = 0;
    while i < SCREEN_CELLS
        invariant
            i <= SCREEN_CELLS,
            frame_idx == 3 * i,
            cpu@ == (CpuState {
                bus: machine.bus.read_block(SCREEN_START, i as nat).0,
                ..machine
            }),
            machine.bus.read_block(SCREEN_START, i as nat).1.len() == i,
            forall|k: int|
                0 <= k < 3 * i ==> #[trigger] frame@[k] == channel(
                    shades@[color_of(
                        machine.bus.read_block(SCREEN_START, i as nat).1[k / 3],
                    ).spec_index() as int],
                    k % 3,
                ),
            forall|k: int| 3 * i <= k < SCREEN_BYTES ==> #[trigger] frame@[k] == before[k],
            update == (exists|k: int| 0 <= k < 3 * i && #[trigger] frame@[k] != before[k]),
        decreases SCREEN_CELLS - i,
    {
        let ghost cells = machine.bus.read_block(SCREEN_START, i as nat).1;
        let ghost earlier = frame@;
        let color_idx = cpu.mem_read(SCREEN_START + i as u16);
        let shade = shades[color(color_idx).index()];
        let (b1, b2, b3) = shade;
        if frame[frame_idx] != b1 || frame[frame_idx + 1] != b2 || frame[frame_idx + 2] != b3 {
            frame[frame_idx] = b1;
            frame[frame_idx + 1] = b2;
            frame[frame_idx + 2] = b3;
            update = true;
        }
        proof {
            let more = machine.bus.read_block(SCREEN_START, (i + 1) as nat).1;
            assert(more == cells.push(color_idx));
            assert forall|k: int| 0 <= k < 3 * (i + 1) implies #[trigger] frame@[k] == channel(
                shades@[color_of(more[k / 3]).spec_index() as int],
                k % 3,
            ) by {
                if k < 3 * i {
                    assert(frame@[k] == earlier[k]);
                    assert(more[k / 3] == cells[k / 3]);
                }
            }
            if update {
                if exists|k: int| 0 <= k < 3 * i && #[trigger] earlier[k] != before[k] {
                    let k = choose|k: int| 0 <= k < 3 * i && #[trigger] earlier[k] != before[k];
                    assert(frame@[k] != before[k]);
                } else {
                    let k = if frame@[3 * i] != before[3 * i] {
                        3 * i
                    } else if frame@[3 * i + 1] != before[3 * i + 1] {
                        3 * i + 1
                    } else {
                        3 * i + 2
                    };
                    assert(frame@[k] != before[k]);
                }
            }
        }
        frame_idx += 3;
        i += 1;
    }
    proof {
        assert(frame@ =~= screen_picture(
            machine.bus.read_block(SCREEN_START, SCREEN_CELLS as nat).1,
            shades@,
        ));
        if update {
            let k = choose|k: int| 0 <= k < 3 * SCREEN_CELLS && #[trigger] frame@[k] != before[k];
            assert(frame@ != before);
        } else {
            assert(frame@ =~= before);
        }
    }
    update
}

} // verus!
