//! Windows: which layers show where on a line.

use vstd::prelude::*;
use crate::ppu::LCD_WIDTH;

verus! {

/// The window layers of a line: no window covers any pixel, and every pixel
/// has the lowest priority.
pub fn window_line() -> (r: (Vec<u16>, Vec<u16>))
    ensures
        r.0@ == Seq::new(240, |i: int| 0u16),
        r.1@ == Seq::new(240, |i: int| 3u16),
{
    let covered: Vec<u16> = vec![0; LCD_WIDTH];
    let priorities: Vec<u16> = vec![3; LCD_WIDTH];
    assert(covered@ =~= Seq::new(240, |i: int| 0u16));
    assert(priorities@ =~= Seq::new(240, |i: int| 3u16));
    (covered, priorities)
}

} // verus!
