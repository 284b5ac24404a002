//! Where the canvas and the palette sit in a window, and the colours.
//!
//! Positions are in pixels, with the origin at the top left corner of the
//! window and y growing downwards. The canvas and the palette are centred
//! horizontally, so their edges may fall on half pixels; a `Rect` therefore
//! holds twice its coordinates, which keeps every position exact.

use vstd::prelude::*;

verus! {

/// Width of the canvas.
pub const CANVAS_WIDTH: i64 = 600;

/// Height of the canvas.
pub const CANVAS_HEIGHT: i64 = 400;

/// Distance from the top of the window to the top of the canvas.
pub const CANVAS_TOP: i64 = 50;

/// Side of one palette swatch.
pub const SWATCH_SIZE: i64 = 30;

/// Number of swatches in the palette.
pub const PALETTE_LEN: usize = 5;

/// Width of the whole palette.
pub const PALETTE_WIDTH: i64 = 150;

/// Distance from the bottom of the window up to the top of the palette.
pub const PALETTE_RISE: i64 = 50;

/// Distance from the bottom of the window up to the lowest point that a
/// brush may reach while picking a colour.
pub const PALETTE_FLOOR: i64 = 20;

/// The size of the window's drawable area, in whole pixels.
#[derive(Clone, Copy, Debug, PartialEq, Eq, Structural)]
pub struct WindowSize {
    pub width: u32,
    pub height: u32,
}

/// An axis-aligned rectangle, every field doubled: the left edge lies at
/// `x2 / 2`, the top edge at `y2 / 2`, and it is `width2 / 2` wide and
/// `height2 / 2` high.
#[derive(Clone, Copy, Debug, PartialEq, Eq, Structural)]
pub struct Rect {
    pub x2: i64,
    pub y2: i64,
    pub width2: i64,
    pub height2: i64,
}

/// The colours that the program paints with.
#[derive(Clone, Copy, Debug, PartialEq, Eq, Structural)]
pub enum Color {
    Black,
    White,
    Red,
    Green,
    Blue,
    Yellow,
}

/// One swatch of the palette: its top left corner, doubled, and its colour.
#[derive(Clone, Copy, Debug, PartialEq, Eq, Structural)]
pub struct ColorSelector {
    pub x2: i64,
    pub y2: i64,
    pub color: Color,
}

/// The colour of the swatch in slot `i`, from left to right.
pub open spec fn palette_color(i: int) -> Color {
    if i == 0 {
        Color::Red
    } else if i == 1 {
        Color::Green
    } else if i == 2 {
        Color::Blue
    } else if i == 3 {
        Color::Yellow
    } else {
        Color::White
    }
}

/// Twice the x coordinate of the canvas's left edge.
pub open spec fn canvas_left2(w: WindowSize) -> int {
    w.width - CANVAS_WIDTH
}

/// Twice the x coordinate of the palette's left edge.
pub open spec fn palette_left2(w: WindowSize) -> int {
    w.width - PALETTE_WIDTH
}

/// Twice the y coordinate of the palette's top edge.
pub open spec fn palette_top2(w: WindowSize) -> int {
    2 * (w.height - PALETTE_RISE)
}

/// The swatch in slot `i`: the palette is a row of touching swatches,
/// centred in the window and standing `PALETTE_RISE` above its bottom.
pub open spec fn swatch_spec(w: WindowSize, i: int) -> ColorSelector {
    ColorSelector {
        x2: (palette_left2(w) + 2 * SWATCH_SIZE * i) as i64,
        y2: palette_top2(w) as i64,
        color: palette_color(i),
    }
}

/// The canvas's outline, centred horizontally and `CANVAS_TOP` below the
/// top of the window.
pub open spec fn canvas_rect_spec(w: WindowSize) -> Rect {
    Rect {
        x2: canvas_left2(w) as i64,
        y2: (2 * CANVAS_TOP) as i64,
        width2: (2 * CANVAS_WIDTH) as i64,
        height2: (2 * CANVAS_HEIGHT) as i64,
    }
}

/// The slot of the swatch whose column holds the point at x coordinate
/// `x`, if the point lies above the palette's width at all.
pub open spec fn swatch_at_spec(x: int, w: WindowSize) -> Option<usize> {
    let d = 2 * x - palette_left2(w);
    if 0 <= d < 2 * PALETTE_WIDTH {
        Some((d / (2 * SWATCH_SIZE)) as usize)
    } else {
        None
    }
}

/// `v` brought into the range of a window dimension `m` by wrapping
/// around: a non-negative `v` gives its remainder, in `[0, m)`; a negative
/// one is counted back from `m`, in `(0, m]`.
pub open spec fn wrap_spec(v: int, m: int) -> int
    recommends
        m > 0,
{
    if v < 0 {
        m - (-v) % m
    } else {
        v % m
    }
}

/// The palette of a window of size `w`, from left to right.
pub fn palette(w: WindowSize) -> (r: Vec<ColorSelector>)
    ensures
        r@.len() == PALETTE_LEN,
        forall|i: int| 0 <= i < PALETTE_LEN ==> #[trigger] r@[i] == swatch_spec(w, i),
{
    let colors: [Color; 5] = [Color::Red, Color::Green, Color::Blue, Color::Yellow, Color::White];
    let left2: i64 = w.width as i64 - PALETTE_WIDTH;
    let top2: i64 = 2 * (w.height as i64 - PALETTE_RISE);
    let mut r: Vec<ColorSelector> = Vec::new();
    let mut i: usize = 0;
    while i < PALETTE_LEN
        invariant
            i <= PALETTE_LEN,
            left2 == palette_left2(w),
            top2 == palette_top2(w),
            colors@ == seq![Color::Red, Color::Green, Color::Blue, Color::Yellow, Color::White],
            r@.len() == i,
            forall|j: int| 0 <= j < i ==> #[trigger] r@[j] == swatch_spec(w, j),
        decreases PALETTE_LEN - i,
    {
        r.push(
            ColorSelector {
                x2: left2 + 2 * SWATCH_SIZE * (i as i64),
                y2: top2,
                color: colors[i],
            },
        );
        i = i + 1;
    }
    r
}

/// The slot of the palette swatch under the point at x coordinate `x` in a
/// window of size `w`, or `None` where the point is left or right of the
/// palette.
pub fn swatch_at(x: i32, w: WindowSize) -> (r: Option<usize>)
    ensures
        r == swatch_at_spec(x as int, w),
        r matches Some(i) ==> i < PALETTE_LEN,
{
    let d: i64 = 2 * (x as i64) - (w.width as i64 - PALETTE_WIDTH);
    if 0 <= d && d < 2 * PALETTE_WIDTH {
        Some((d / (2 * SWATCH_SIZE)) as usize)
    } else {
        None
    }
}

/// `v` wrapped into `[0, m]` as `wrap_spec` describes.
pub fn wrap_coordinate(v: i64, m: i64) -> (r: i64)
    requires
        m > 0,
        v > i64::MIN,
    ensures
        r == wrap_spec(v as int, m as int),
        0 <= r <= m,
{
    if v < 0 {
        m - (-v) % m
    } else {
        v % m
    }
}

} // verus!
