//! The paint program's state, what each input event does to it, and what a
//! frame draws.

use vstd::prelude::*;
use crate::layout::{
    canvas_left2, canvas_rect_spec, palette, palette_color, palette_left2, palette_top2,
    swatch_at, swatch_at_spec, swatch_spec, wrap_coordinate, wrap_spec, Color, Rect, WindowSize,
    CANVAS_HEIGHT, CANVAS_TOP, CANVAS_WIDTH, PALETTE_FLOOR, PALETTE_LEN, PALETTE_WIDTH,
    PALETTE_RISE, SWATCH_SIZE,
};

verus! {

/// Side of the brush when the program starts.
pub const INITIAL_SIDE: i64 = 5;

/// Scrolling down shrinks the brush only while its side is above this.
pub const MIN_SIDE: i64 = 5;

/// Scrolling up grows the brush only while its side is below this.
pub const MAX_SIDE: i64 = 50;

/// How much one step of the scroll wheel changes the brush's side.
pub const SIDE_STEP: i64 = 5;

/// A bound on the magnitude of a brush side that scrolling can reach.
pub const SIDE_BOUND: i64 = 68_719_476_736;

/// A bound on the magnitude of the doubled left edge of a brush.
pub const EDGE_BOUND: i64 = 137_438_953_472;

/// A square of paint on the canvas, and also the brush that stamps them.
///
/// `x2` is twice the x coordinate of the left edge, `y` the y coordinate of
/// the middle row, `side` the length of a side.
#[derive(Clone, Copy, Debug, PartialEq, Eq, Structural)]
pub struct AppSquare {
    pub x2: i64,
    pub y: i32,
    pub side: i64,
    pub color: Color,
}

/// Whether the last button event was a press or a release.
#[derive(Clone, Copy, Debug, PartialEq, Eq, Structural)]
pub enum ButtonState {
    Press,
    Release,
}

/// A mouse button.
#[derive(Clone, Copy, Debug, PartialEq, Eq, Structural)]
pub enum MouseButton {
    Left,
    Right,
    Middle,
    Other,
}

/// A button of any input device.
#[derive(Clone, Copy, Debug, PartialEq, Eq, Structural)]
pub enum Button {
    Mouse(MouseButton),
    Keyboard,
    Other,
}

/// An input event, as far as the program looks at it.
#[derive(Clone, Copy, Debug, PartialEq, Eq, Structural)]
pub enum Input {
    /// The pointer moved to the given position.
    Move(i32, i32),
    /// The wheel scrolled by the given number of steps; upwards is positive.
    Scroll(i32),
    Press(Button),
    Release(Button),
    /// Any other event, a request to render among them.
    Other,
}

/// One step of drawing a frame.
#[derive(Clone, Copy, Debug, PartialEq, Eq, Structural)]
pub enum DrawOp {
    /// Paint the whole window.
    Clear(Color),
    /// Draw a one pixel wide border inside the rectangle.
    Outline(Rect, Color),
    /// Paint the rectangle.
    Fill(Rect, Color),
}

/// The state of the program between two events.
pub struct App {
    /// The brush.
    pub cur: AppSquare,
    /// Where the pointer was last seen.
    pub cursor_x: i32,
    pub cursor_y: i32,
    /// Whether the last button event pressed or released a button.
    pub button_state: ButtonState,
    /// The mouse button held down since its press, if any.
    pub prev_mouse_button: Option<MouseButton>,
    /// Every square painted so far, oldest first.
    pub squares: Vec<AppSquare>,
}

/// The brush side after scrolling `dy` steps: it shrinks only from above
/// `MIN_SIDE` and grows only from below `MAX_SIDE`, by `SIDE_STEP` a step.
pub open spec fn resize_spec(side: int, dy: int) -> int {
    if dy < 0 && side > MIN_SIDE {
        side + SIDE_STEP * dy
    } else if dy > 0 && side < MAX_SIDE {
        side + SIDE_STEP * dy
    } else {
        side
    }
}

/// The square lies within the canvas's outline.
pub open spec fn inside_canvas_spec(cur: AppSquare, w: WindowSize) -> bool {
    &&& cur.x2 >= canvas_left2(w)
    &&& cur.x2 + 2 * cur.side <= canvas_left2(w) + 2 * CANVAS_WIDTH
    &&& 2 * cur.y - cur.side >= 2 * CANVAS_TOP
    &&& 2 * cur.y + cur.side <= 2 * (CANVAS_TOP + CANVAS_HEIGHT)
}

/// The square lies within the palette's columns, between its top and
/// `PALETTE_FLOOR` above the bottom of the window.
pub open spec fn on_palette_spec(cur: AppSquare, w: WindowSize) -> bool {
    &&& cur.x2 >= palette_left2(w)
    &&& cur.x2 + 2 * cur.side <= palette_left2(w) + 2 * PALETTE_WIDTH
    &&& 2 * cur.y - cur.side >= palette_top2(w)
    &&& 2 * cur.y + cur.side <= 2 * (w.height - PALETTE_FLOOR)
}

/// The magnitudes of the square's side and edge stay within the bounds
/// that scrolling and pointer positions can reach.
pub open spec fn bounded(s: AppSquare) -> bool {
    &&& -SIDE_BOUND <= s.side <= SIDE_BOUND
    &&& -EDGE_BOUND <= s.x2 <= EDGE_BOUND
}

/// Where the rectangle of a square lies.
pub open spec fn square_rect(s: AppSquare) -> Rect {
    Rect {
        x2: s.x2,
        y2: (2 * s.y - s.side) as i64,
        width2: (2 * s.side) as i64,
        height2: (2 * s.side) as i64,
    }
}

/// Drawing one square of paint.
pub open spec fn square_op(s: AppSquare) -> DrawOp {
    DrawOp::Fill(square_rect(s), s.color)
}

/// The palette's drawing steps, two for each swatch: its outline, then its
/// colour one pixel short of the outline's right and bottom sides.
pub open spec fn palette_op(w: WindowSize, k: int) -> DrawOp {
    let s = swatch_spec(w, k / 2);
    if k % 2 == 0 {
        DrawOp::Outline(
            Rect { x2: s.x2, y2: s.y2, width2: (2 * SWATCH_SIZE) as i64, height2: (2 * SWATCH_SIZE) as i64 },
            Color::Black,
        )
    } else {
        DrawOp::Fill(
            Rect {
                x2: s.x2,
                y2: s.y2,
                width2: (2 * (SWATCH_SIZE - 1)) as i64,
                height2: (2 * (SWATCH_SIZE - 1)) as i64,
            },
            s.color,
        )
    }
}

/// All of the palette's drawing steps, swatch by swatch from the left.
pub open spec fn palette_ops(w: WindowSize) -> Seq<DrawOp> {
    Seq::new((2 * PALETTE_LEN) as nat, |k: int| palette_op(w, k))
}

/// The brush drawn where the pointer is, each coordinate of its corner
/// wrapped into the window; nothing in a window without area.
pub open spec fn preview_ops(cur: AppSquare, w: WindowSize) -> Seq<DrawOp> {
    if w.width > 0 && w.height > 0 {
        seq![
            DrawOp::Fill(
                Rect {
                    x2: wrap_spec(cur.x2 as int, 2 * w.width) as i64,
                    y2: (wrap_spec(2 * cur.y, 2 * w.height) - cur.side) as i64,
                    width2: (2 * cur.side) as i64,
                    height2: (2 * cur.side) as i64,
                },
                cur.color,
            ),
        ]
    } else {
        seq![]
    }
}

/// The brush when the program starts: red, at the origin.
pub open spec fn initial_brush() -> AppSquare {
    AppSquare { x2: 0, y: 0, side: INITIAL_SIDE, color: Color::Red }
}

/// The button state after `input`.
pub open spec fn button_state_after(s: ButtonState, input: Input) -> ButtonState {
    match input {
        Input::Press(_) => ButtonState::Press,
        Input::Release(_) => ButtonState::Release,
        _ => s,
    }
}

/// The held mouse button after `input`: a mouse press records its button,
/// and any release forgets it.
pub open spec fn prev_after(p: Option<MouseButton>, input: Input) -> Option<MouseButton> {
    match input {
        Input::Press(Button::Mouse(b)) => Some(b),
        Input::Release(_) => None,
        _ => p,
    }
}

impl App {
    /// The state's invariant: every square, the brush among them, is
    /// bounded.
    pub open spec fn wf(&self) -> bool {
        &&& bounded(self.cur)
        &&& forall|i: int| 0 <= i < self.squares@.len() ==> bounded(#[trigger] self.squares@[i])
    }

    /// The pointer's x coordinate after `input`.
    pub open spec fn cursor_x_after(&self, input: Input) -> i32 {
        match input {
            Input::Move(x, _) => x,
            _ => self.cursor_x,
        }
    }

    /// The pointer's y coordinate after `input`.
    pub open spec fn cursor_y_after(&self, input: Input) -> i32 {
        match input {
            Input::Move(_, y) => y,
            _ => self.cursor_y,
        }
    }

    /// The brush after `input` has moved or resized it: a move puts its
    /// middle under the pointer, at its side at that moment; a scroll
    /// changes the side and leaves the left edge where it was.
    pub open spec fn brush_after(&self, input: Input) -> AppSquare {
        match input {
            Input::Move(x, y) => AppSquare { x2: (2 * x - self.cur.side) as i64, y: y, ..self.cur },
            Input::Scroll(dy) => AppSquare { side: resize_spec(self.cur.side as int, dy as int) as i64, ..self.cur },
            _ => self.cur,
        }
    }

    /// Whether the left mouse button is held down after `input`, so that
    /// the brush paints or picks a colour.
    pub open spec fn painting_after(&self, input: Input) -> bool {
        button_state_after(self.button_state, input) == ButtonState::Press
            && self.prev_mouse_button == Some(MouseButton::Left)
    }

    /// The square stamped by the brush after `input`: centred on the
    /// pointer, with the brush's side and colour.
    pub open spec fn stamp_after(&self, input: Input) -> AppSquare {
        let b = self.brush_after(input);
        AppSquare {
            x2: (2 * self.cursor_x_after(input) - b.side) as i64,
            y: self.cursor_y_after(input),
            side: b.side,
            color: b.color,
        }
    }

    /// The painted squares after `input`: one more, the stamp, when the
    /// left button is held and the brush lies within the canvas.
    pub open spec fn squares_after(&self, input: Input, w: WindowSize) -> Seq<AppSquare> {
        if self.painting_after(input) && inside_canvas_spec(self.brush_after(input), w) {
            self.squares@.push(self.stamp_after(input))
        } else {
            self.squares@
        }
    }

    /// The brush after `input`: where the left button is held and the brush
    /// lies on the palette, it takes the colour of the swatch under the
    /// pointer.
    pub open spec fn cur_after(&self, input: Input, w: WindowSize) -> AppSquare {
        let b = self.brush_after(input);
        if self.painting_after(input) && on_palette_spec(b, w) {
            match swatch_at_spec(self.cursor_x_after(input) as int, w) {
                Some(i) => AppSquare { color: palette_color(i as int), ..b },
                None => b,
            }
        } else {
            b
        }
    }

    /// What a frame draws, in order: the background, the canvas's outline,
    /// the palette, the brush, and the squares painted so far.
    pub open spec fn frame(&self, w: WindowSize) -> Seq<DrawOp> {
        seq![DrawOp::Clear(Color::White), DrawOp::Outline(canvas_rect_spec(w), Color::Black)]
            + palette_ops(w) + preview_ops(self.cur, w) + self.squares@.map_values(
            |s: AppSquare| square_op(s),
        )
    }

    /// The program at its start: a small red brush at the origin, no button
    /// held, nothing painted.
    pub fn new() -> (r: App)
        ensures
            r.wf(),
            r.cur == initial_brush(),
            r.cursor_x == 0,
            r.cursor_y == 0,
            r.button_state == ButtonState::Release,
            r.prev_mouse_button == None::<MouseButton>,
            r.squares@ == Seq::<AppSquare>::empty(),
    {
        App {
            cur: AppSquare { x2: 0, y: 0, side: INITIAL_SIDE, color: Color::Red },
            cursor_x: 0,
            cursor_y: 0,
            button_state: ButtonState::Release,
            prev_mouse_button: None,
            squares: Vec::new(),
        }
    }

    /// Whether the brush `cur` lies within the canvas of a window of size
    /// `window_size`.
    pub fn cursor_inside_canvas(&self, cur: &AppSquare, window_size: &WindowSize) -> (r: bool)
        ensures
            r == inside_canvas_spec(*cur, *window_size),
    {
        let left2: i128 = window_size.width as i128 - CANVAS_WIDTH as i128;
        let x2: i128 = cur.x2 as i128;
        let side: i128 = cur.side as i128;
        let y2: i128 = 2 * (cur.y as i128);
        if !(x2 >= left2 && x2 + 2 * side <= left2 + 2 * CANVAS_WIDTH as i128) {
            return false;
        }
        if !(y2 - side >= 2 * CANVAS_TOP as i128 && y2 + side <= 2 * (CANVAS_TOP + CANVAS_HEIGHT) as i128) {
            return false;
        }
        true
    }

    /// Whether the brush `cur` lies on the palette of a window of size
    /// `window_size`.
    pub fn cursor_on_palette(&self, cur: &AppSquare, window_size: &WindowSize) -> (r: bool)
        ensures
            r == on_palette_spec(*cur, *window_size),
    {
        let left2: i128 = window_size.width as i128 - PALETTE_WIDTH as i128;
        let height: i128 = window_size.height as i128;
        let x2: i128 = cur.x2 as i128;
        let side: i128 = cur.side as i128;
        let y2: i128 = 2 * (cur.y as i128);
        if !(x2 >= left2 && x2 + 2 * side <= left2 + 2 * PALETTE_WIDTH as i128) {
            return false;
        }
        if !(y2 - side >= 2 * (height - PALETTE_RISE as i128) && y2 + side <= 2 * (height - PALETTE_FLOOR as i128)) {
            return false;
        }
        true
    }

    /// Applies one input event, in a window of size `window_size`.
    ///
    /// The event first moves the pointer and the brush, resizes the brush,
    /// or records a button's press or release. Then, while the left mouse
    /// button is held, the brush stamps a square where it lies within the
    /// canvas, and takes a swatch's colour where it lies on the palette.
    /// Last, a mouse press records its button and any release forgets it.
    pub fn handle_event(&mut self, input: Input, window_size: WindowSize)
        requires
            old(self).wf(),
        ensures
            final(self).wf(),
            final(self).cursor_x == old(self).cursor_x_after(input),
            final(self).cursor_y == old(self).cursor_y_after(input),
            final(self).button_state == button_state_after(old(self).button_state, input),
            final(self).prev_mouse_button == prev_after(old(self).prev_mouse_button, input),
            final(self).squares@ == old(self).squares_after(input, window_size),
            final(self).cur == old(self).cur_after(input, window_size),
    {
        match input {
            Input::Move(x, y) => {
                self.cursor_x = x;
                self.cursor_y = y;
                self.cur.x2 = 2 * (x as i64) - self.cur.side;
                self.cur.y = y;
            },
            Input::Scroll(dy) => {
                self.cur.side = resized(self.cur.side, dy);
            },
            Input::Press(_) => {
                self.button_state = ButtonState::Press;
            },
            Input::Release(_) => {
                self.button_state = ButtonState::Release;
            },
            Input::Other => {},
        }
        let held_left: bool = match (self.button_state, self.prev_mouse_button) {
            (ButtonState::Press, Some(MouseButton::Left)) => true,
            _ => false,
        };
        if held_left {
            if self.cursor_inside_canvas(&self.cur, &window_size) {
                let sq = AppSquare {
                    x2: 2 * (self.cursor_x as i64) - self.cur.side,
                    y: self.cursor_y,
                    side: self.cur.side,
                    color: self.cur.color,
                };
                self.squares.push(sq);
            }
            if self.cursor_on_palette(&self.cur, &window_size) {
                match swatch_at(self.cursor_x, window_size) {
                    Some(i) => {
                        let swatches = palette(window_size);
                        self.cur.color = swatches[i].color;
                    },
                    None => {},
                }
            }
        }
        match input {
            Input::Press(Button::Mouse(b)) => {
                self.prev_mouse_button = Some(b);
            },
            Input::Release(_) => {
                self.prev_mouse_button = None;
            },
            _ => {},
        }
    }

    /// The steps that draw a frame in a window of size `window_size`.
    pub fn render(&self, window_size: WindowSize) -> (r: Vec<DrawOp>)
        requires
            self.wf(),
        ensures
            r@ == self.frame(window_size),
    {
        let mut r: Vec<DrawOp> = Vec::new();
        r.push(DrawOp::Clear(Color::White));
        let canvas = Rect {
            x2: window_size.width as i64 - CANVAS_WIDTH,
            y2: 2 * CANVAS_TOP,
            width2: 2 * CANVAS_WIDTH,
            height2: 2 * CANVAS_HEIGHT,
        };
        r.push(DrawOp::Outline(canvas, Color::Black));
        let head: Ghost<Seq<DrawOp>> = Ghost(r@);
        assert(head@ =~= seq![DrawOp::Clear(Color::White), DrawOp::Outline(canvas_rect_spec(window_size), Color::Black)]);
        let swatches = palette(window_size);
        let mut i: usize = 0;
        while i < swatches.len()
            invariant
                swatches@.len() == PALETTE_LEN,
                forall|j: int| 0 <= j < PALETTE_LEN ==> #[trigger] swatches@[j] == swatch_spec(window_size, j),
                i <= PALETTE_LEN,
                r@ =~= head@ + palette_ops(window_size).subrange(0, 2 * i as int),
            decreases PALETTE_LEN - i,
        {
            let s = swatches[i];
            r.push(DrawOp::Outline(Rect { x2: s.x2, y2: s.y2, width2: 2 * SWATCH_SIZE, height2: 2 * SWATCH_SIZE }, Color::Black));
            r.push(DrawOp::Fill(Rect { x2: s.x2, y2: s.y2, width2: 2 * (SWATCH_SIZE - 1), height2: 2 * (SWATCH_SIZE - 1) }, s.color));
            proof {
                assert((2 * i as int) / 2 == i as int);
                assert((2 * i as int + 1) / 2 == i as int);
            }
            i = i + 1;
        }
        assert(palette_ops(window_size).subrange(0, 2 * PALETTE_LEN as int) =~= palette_ops(window_size));
        if window_size.width > 0 && window_size.height > 0 {
            let x2 = wrap_coordinate(self.cur.x2, 2 * (window_size.width as i64));
            let y2 = wrap_coordinate(2 * (self.cur.y as i64), 2 * (window_size.height as i64));
            r.push(DrawOp::Fill(
                Rect { x2: x2, y2: y2 - self.cur.side, width2: 2 * self.cur.side, height2: 2 * self.cur.side },
                self.cur.color,
            ));
        }
        let base: Ghost<Seq<DrawOp>> = Ghost(r@);
        assert(base@ =~= head@ + palette_ops(window_size) + preview_ops(self.cur, window_size));
        let mut k: usize = 0;
        while k < self.squares.len()
            invariant
                self.wf(),
                k <= self.squares@.len(),
                r@ =~= base@ + self.squares@.subrange(0, k as int).map_values(|s: AppSquare| square_op(s)),
            decreases self.squares@.len() - k,
        {
            let sq = self.squares[k];
            assert(bounded(self.squares@[k as int]));
            r.push(DrawOp::Fill(
                Rect { x2: sq.x2, y2: 2 * (sq.y as i64) - sq.side, width2: 2 * sq.side, height2: 2 * sq.side },
                sq.color,
            ));
            assert(self.squares@.subrange(0, k + 1 as int) =~= self.squares@.subrange(0, k as int).push(sq));
            k = k + 1;
        }
        assert(self.squares@.subrange(0, k as int) =~= self.squares@);
        r
    }
}

/// Painting only adds: after any event the squares painted before are still
/// there, in their order, and at most one has joined them, at the end.
pub proof fn squares_only_grow(app: App, input: Input, w: WindowSize)
    ensures
        app.squares@.is_prefix_of(app.squares_after(input, w)),
        app.squares_after(input, w).len() <= app.squares@.len() + 1,
{
    assert(app.squares@.is_prefix_of(app.squares@));
    assert(app.squares@.is_prefix_of(app.squares@.push(app.stamp_after(input))));
}

/// The brush side after scrolling `dy` steps.
fn resized(side: i64, dy: i32) -> (r: i64)
    ensures
        r == resize_spec(side as int, dy as int),
        -SIDE_BOUND <= side <= SIDE_BOUND ==> -SIDE_BOUND <= r <= SIDE_BOUND,
{
    if dy < 0 && side > MIN_SIDE {
        side + SIDE_STEP * (dy as i64)
    } else if dy > 0 && side < MAX_SIDE {
        side + SIDE_STEP * (dy as i64)
    } else {
        side
    }
}

} // verus!
