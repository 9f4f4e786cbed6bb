//! The picture: 256 x 240 pixels of three bytes each, row by row.

use vstd::prelude::*;

verus! {

pub const WIDTH: usize = 256;

pub const HEIGHT: usize = 240;

/// Bytes in the picture.
pub const FRAME_SIZE: usize = 184320;

/// A colour: red, green, blue.
pub type Rgb = (u8, u8, u8);

pub struct Frame {
    pub data: Vec<u8>,
}

/// Where the three bytes of a pixel start.
pub open spec fn pixel_offset(x: int, y: int) -> int {
    y * 3 * WIDTH + x * 3
}

/// The bytes of a picture after one pixel was coloured. A pixel whose
/// bytes do not all lie inside the picture is dropped.
pub open spec fn painted(data: Seq<u8>, x: int, y: int, rgb: Rgb) -> Seq<u8> {
    let base = pixel_offset(x, y);
    if 0 <= base && base + 2 < data.len() {
        data.update(base, rgb.0).update(base + 1, rgb.1).update(base + 2, rgb.2)
    } else {
        data
    }
}

impl Frame {
    /// A black picture.
    pub fn new() -> (frame: Frame)
        ensures
            frame.data@ == Seq::new(FRAME_SIZE as nat, |i: int| 0u8),
    {
        let data: Vec<u8> = vec![0; FRAME_SIZE];
        assert(data@ =~= Seq::new(FRAME_SIZE as nat, |i: int| 0u8));
        Frame { data }
    }

    /// Colours one pixel.
    pub fn set_pixel(&mut self, x: usize, y: usize, rgb: Rgb)
        requires
            pixel_offset(x as int, y as int) + 2 <= usize::MAX,
        ensures
            final(self).data@ == painted(old(self).data@, x as int, y as int, rgb),
    {
        let base = y * 3 * WIDTH + x * 3;
        if base + 2 < self.data.len() {
            self.data[base] = rgb.0;
            self.data[base + 1] = rgb.1;
            self.data[base + 2] = rgb.2;
        }
    }
}

} // verus!
