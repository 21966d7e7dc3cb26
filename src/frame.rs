//! The 256x240 RGB frame buffer.
use vstd::prelude::*;

verus! {

pub const WIDTH: usize = 256;
pub const HEIGHT: usize = 240;
pub const FRAME_BYTES: usize = 256 * 240 * 3;

/// Pixels row by row, three bytes (red, green, blue) each.
pub struct Frame {
    pub data: Vec<u8>,
}

impl Frame {
    pub fn new() -> (r: Self)
        ensures
            r.data@ == Seq::new(FRAME_BYTES as nat, |i| 0u8),
    {
        let mut data: Vec<u8> = Vec::with_capacity(FRAME_BYTES);
        let mut i: usize = 0;
        while i < FRAME_BYTES
            invariant
                i <= FRAME_BYTES,
                data@ == Seq::new(i as nat, |j| 0u8),
            decreases FRAME_BYTES - i,
        {
            data.push(0);
            i += 1;
            assert(data@ =~= Seq::new(i as nat, |j| 0u8));
        }
        Frame { data }
    }

    /// Writes the pixel at column `x`, row `y`; a pixel outside the frame is
    /// ignored.
    pub fn set_pixcel(&mut self, x: usize, y: usize, rgb: (u8, u8, u8))
        requires
            old(self).data@.len() == FRAME_BYTES,
        ensures
            x < WIDTH && y < HEIGHT ==> final(self).data@ == old(self).data@.update(
                (y * 256 + x) * 3,
                rgb.0,
            ).update((y * 256 + x) * 3 + 1, rgb.1).update((y * 256 + x) * 3 + 2, rgb.2),
            !(x < WIDTH && y < HEIGHT) ==> final(self).data@ == old(self).data@,
    {
        if x < WIDTH && y < HEIGHT {
            let base = y * 3 * WIDTH + x * 3;
            self.data.set(base, rgb.0);
            self.data.set(base + 1, rgb.1);
            self.data.set(base + 2, rgb.2);
        }
    }
}

} // verus!
