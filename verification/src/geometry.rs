//! The height of a character cell of the terminal, in pixels.

use vstd::prelude::*;

verus! {

/// The height that is assumed where the terminal does not report its size in
/// pixels.
pub const FALLBACK_HEIGHT: usize = 28;

/// The height of a character cell of a window that is `rows` rows and
/// `height` pixels high; the fallback where the pixel height is not reported
/// (terminals that do not know it report zero, some a dummy of one or two).
pub open spec fn cell_height(rows: u16, height: u16) -> int {
    if height > 2 {
        height as int / rows as int
    } else {
        FALLBACK_HEIGHT as int
    }
}

/// The height of a character cell, from the window size that the terminal
/// reports: its number of rows and its height in pixels.
pub fn char_pixel_height(rows: u16, height: u16) -> (pixels: usize)
    requires
        height > 2 ==> rows > 0,
    ensures
        pixels == cell_height(rows, height),
{
    if height > 2 {
        height as usize / rows as usize
    } else {
        FALLBACK_HEIGHT
    }
}

} // verus!
