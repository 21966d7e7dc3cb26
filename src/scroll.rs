//! The PPU scroll register (`$2005`): an X write, then a Y write.
use vstd::prelude::*;

verus! {

#[derive(Clone, Copy, Debug, PartialEq, Eq, Structural)]
pub struct ScrollRegister {
    pub scroll_x: u8,
    pub scroll_y: u8,
    /// Set when the next write goes to Y.
    pub latch: bool,
}

impl ScrollRegister {
    pub fn new() -> (r: Self)
        ensures
            r.scroll_x == 0,
            r.scroll_y == 0,
            !r.latch,
    {
        ScrollRegister { scroll_x: 0, scroll_y: 0, latch: false }
    }

    pub fn write(&mut self, data: u8)
        ensures
            final(self).latch == !old(self).latch,
            !old(self).latch ==> final(self).scroll_x == data && final(self).scroll_y
                == old(self).scroll_y,
            old(self).latch ==> final(self).scroll_y == data && final(self).scroll_x
                == old(self).scroll_x,
    {
        if !self.latch {
            self.scroll_x = data;
        } else {
            self.scroll_y = data;
        }
        self.latch = !self.latch;
    }

    pub fn reset_latch(&mut self)
        ensures
            *final(self) == (ScrollRegister { latch: false, ..*old(self) }),
    {
        self.latch = false;
    }
}

} // verus!
