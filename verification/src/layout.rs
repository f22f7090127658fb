//! Layout: horizontal centering and vertical stacking of the two rendered
//! blocks on a fixed canvas.
//!
//! Centering is plain integer arithmetic with no clamping: a block wider
//! than the canvas gets a negative offset and overflows the canvas edges by
//! design, and the date block's vertical offset is added as-is, negative
//! values deliberately pulling it up over the time block.  Coordinates are
//! wide enough to hold any block and canvas size without restriction.

use vstd::prelude::*;

verus! {

/// Where the two blocks go: the canvas origin is the top-left corner.
pub struct LayoutResult {
    pub time_x: i128,
    pub time_y: i128,
    pub date_x: i128,
    pub date_y: i128,
}

/// The centering offset: half the leftover width, rounding down, negative
/// when the block is wider than the canvas.
fn center_x(canvas_width: i32, block_width: usize) -> (x: i128)
    ensures
        x == (canvas_width - block_width) / 2,
{
    let d: i128 = canvas_width as i128 - block_width as i128;
    if d >= 0 {
        d / 2
    } else {
        -((1 - d) / 2)
    }
}

/// Positions the time and date blocks: each centered horizontally, the time
/// block at the top, the date block below it shifted by the configured
/// vertical offset.
pub fn layout(
    time_width: usize,
    time_height: usize,
    date_width: usize,
    canvas_width: i32,
    vertical_offset: i32,
) -> (r: LayoutResult)
    ensures
        r.time_x == (canvas_width - time_width) / 2,
        r.time_y == 0,
        r.date_x == (canvas_width - date_width) / 2,
        r.date_y == time_height + vertical_offset,
{
    LayoutResult {
        time_x: center_x(canvas_width, time_width),
        time_y: 0,
        date_x: center_x(canvas_width, date_width),
        date_y: time_height as i128 + vertical_offset as i128,
    }
}

/// Layout centering: a block no wider than the canvas lands fully inside
/// it, with a non-negative offset.
pub proof fn lemma_centering(canvas_width: int, block_width: int)
    requires
        0 <= block_width <= canvas_width,
    ensures
        0 <= (canvas_width - block_width) / 2,
        (canvas_width - block_width) / 2 + block_width <= canvas_width,
{
    let d = canvas_width - block_width;
    assert(0 <= d / 2);
    assert(d / 2 <= d);
}

} // verus!
