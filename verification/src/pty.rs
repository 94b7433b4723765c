//! Terminal geometry reported by the peer.

use vstd::prelude::*;

use crate::error::Error;

verus! {

/// Width and height of a pseudo-terminal in character cells, together with
/// the pixel dimensions the peer reported (zero when unknown).
#[derive(Debug, Clone, Copy, PartialEq, Eq, Structural)]
pub struct PtySize {
    pub width: u32,
    pub height: u32,
    pub pixel_width: u32,
    pub pixel_height: u32,
}

impl Default for PtySize {
    /// The conventional 80x24 cell grid, with unknown pixel dimensions.
    fn default() -> (r: Self)
        ensures
            r.width == 80,
            r.height == 24,
            r.pixel_width == 0,
            r.pixel_height == 0,
    {
        PtySize { width: 80, height: 24, pixel_width: 0, pixel_height: 0 }
    }
}

impl PtySize {
    /// True when both cell dimensions fit the 16-bit extents a drawing
    /// surface expects.
    pub open spec fn fits_rect(self) -> bool {
        self.width <= u16::MAX && self.height <= u16::MAX
    }

    /// Cell dimensions narrowed to 16 bits, as a drawing surface expects
    /// them; the numeric-conversion error when either does not fit.
    pub fn rect_dims(&self) -> (r: Result<(u16, u16), Error>)
        ensures
            self.fits_rect() <==> r is Ok,
            r matches Ok(d) ==> d.0 == self.width && d.1 == self.height,
            r matches Err(e) ==> e is Int,
    {
        if self.width > u16::MAX as u32 || self.height > u16::MAX as u32 {
            Err(Error::int_conversion())
        } else {
            Ok((self.width as u16, self.height as u16))
        }
    }
}

} // verus!
