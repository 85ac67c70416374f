//! Frame layout: how one terminal frame is split into panes.
//!
//! The frame gets a one-cell margin on all sides. The inner area is split
//! horizontally into a channels pane (the share of the width nearest to one
//! fifth; on the impossible tie the right pane would win) and a chat pane.
//! The chat pane stacks a main area over an input line that is normally two
//! rows tall; on very short frames the input line shrinks to one row, then
//! disappears, and the main area never drops below one row while any room
//! is left.

use vstd::prelude::*;

verus! {

/// A rectangle of terminal cells; `x`, `y` is the top-left corner, `w` and
/// `h` the extent in columns and rows.
#[derive(Clone, Copy, PartialEq, Eq, Structural, Debug)]
pub struct Rect {
    pub x: u16,
    pub y: u16,
    pub w: u16,
    pub h: u16,
}

/// The three panes of one frame: the channels list on the left, the main
/// area (messages or choice prompt) top right, and the input line bottom
/// right.
#[derive(Clone, Copy, PartialEq, Eq, Structural, Debug)]
pub struct LayoutRects {
    pub channels: Rect,
    pub main: Rect,
    pub input: Rect,
}

/// Width of the area inside the one-cell margin.
pub open spec fn inner_width(cols: int) -> int {
    if cols >= 2 {
        cols - 2
    } else {
        0
    }
}

/// Height of the area inside the one-cell margin.
pub open spec fn inner_height(rows: int) -> int {
    if rows >= 2 {
        rows - 2
    } else {
        0
    }
}

/// Channels-pane width: the integer nearest to a fifth of the inner width.
/// A fifth of an integer is never exactly halfway between two integers, so
/// rounding is unambiguous and `(w + 2) / 5` computes it.
pub open spec fn left_width(cols: int) -> int {
    (inner_width(cols) + 2) / 5
}

/// Chat-pane width: the rest of the inner width.
pub open spec fn right_width(cols: int) -> int {
    inner_width(cols) - left_width(cols)
}

/// Height of the input line. Two rows whenever the chat pane is at least
/// seven rows tall, one row down to two rows of chat pane, otherwise none.
pub open spec fn input_height(rows: int) -> int {
    if inner_height(rows) >= 7 {
        2
    } else if inner_height(rows) >= 2 {
        1
    } else {
        0
    }
}

/// Height of the main area: whatever the input line leaves of the chat
/// pane, never below one row while the chat pane has any row at all.
pub open spec fn main_height(rows: int) -> int {
    inner_height(rows) - input_height(rows)
}

/// The full layout, as a predicate over the produced rectangles.
pub open spec fn is_layout(r: LayoutRects, cols: int, rows: int) -> bool {
    &&& r.channels.x == 1 && r.channels.y == 1
    &&& r.channels.w == left_width(cols)
    &&& r.channels.h == inner_height(rows)
    &&& r.main.x == 1 + left_width(cols) && r.main.y == 1
    &&& r.main.w == right_width(cols)
    &&& r.main.h == main_height(rows)
    &&& r.input.x == 1 + left_width(cols) && r.input.y == 1 + main_height(rows)
    &&& r.input.w == right_width(cols)
    &&& r.input.h == input_height(rows)
}

/// Split a frame of `cols` by `rows` cells into the three panes.
pub fn compute_layout(cols: u16, rows: u16) -> (r: LayoutRects)
    ensures
        is_layout(r, cols as int, rows as int),
{
    let iw: u16 = if cols >= 2 {
        cols - 2
    } else {
        0
    };
    let ih: u16 = if rows >= 2 {
        rows - 2
    } else {
        0
    };
    let left: u16 = (iw + 2) / 5;
    let right: u16 = iw - left;
    let input_h: u16 = if ih >= 7 {
        2
    } else if ih >= 2 {
        1
    } else {
        0
    };
    let main_h: u16 = ih - input_h;
    LayoutRects {
        channels: Rect { x: 1, y: 1, w: left, h: ih },
        main: Rect { x: 1 + left, y: 1, w: right, h: main_h },
        input: Rect { x: 1 + left, y: 1 + main_h, w: right, h: input_h },
    }
}

/// Law: on every frame at least 10 columns wide and 9 rows tall, the
/// channels pane is the integer nearest to a fifth of the inner width
/// (`5 * left` is within two cells of the inner width), the two pane
/// widths tile the inner width exactly, and the input line is exactly two
/// rows tall. (On frames 7 or 8 rows tall the chat pane is under seven
/// rows and the input line already shrinks to one row.)
/// Law: as long as the frame has any row inside its margin, the main
/// area keeps at least one of them — the input line gives way first.
pub proof fn lemma_main_area_survives(rows: int)
    requires
        3 <= rows <= u16::MAX,
    ensures
        main_height(rows) >= 1,
{
}

pub proof fn lemma_frame_partition(cols: int, rows: int)
    requires
        10 <= cols <= u16::MAX,
        9 <= rows <= u16::MAX,
    ensures
        left_width(cols) + right_width(cols) == cols - 2,
        -2 <= 5 * left_width(cols) - (cols - 2) <= 2,
        input_height(rows) == 2,
        main_height(rows) + input_height(rows) == rows - 2,
{
    let w = cols - 2;
    assert(5 * ((w + 2) / 5) == (w + 2) - (w + 2) % 5) by (nonlinear_arith);
    assert(0 <= (w + 2) % 5 < 5) by (nonlinear_arith)
        requires
            w >= 0,
    ;
}

} // verus!
