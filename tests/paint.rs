use paint::{
    palette, swatch_at, wrap_coordinate, App, AppSquare, Button, ButtonState, Color,
    ColorSelector, DrawOp, Input, MouseButton, Rect, WindowSize,
};

const WINDOW: WindowSize = WindowSize { width: 800, height: 500 };

fn left_press() -> Input {
    Input::Press(Button::Mouse(MouseButton::Left))
}

fn left_release() -> Input {
    Input::Release(Button::Mouse(MouseButton::Left))
}

fn brush(x2: i64, y: i32, side: i64) -> AppSquare {
    AppSquare { x2, y, side, color: Color::Red }
}

#[test]
fn palette_is_centred_above_the_bottom() {
    let p = palette(WINDOW);
    let colors = [Color::Red, Color::Green, Color::Blue, Color::Yellow, Color::White];
    assert_eq!(p.len(), 5);
    for i in 0..5 {
        assert_eq!(p[i], ColorSelector { x2: 650 + 60 * i as i64, y2: 900, color: colors[i] });
    }
}

#[test]
fn palette_of_an_odd_width_sits_on_half_pixels() {
    let p = palette(WindowSize { width: 801, height: 300 });
    assert_eq!(p[0].x2, 651);
    assert_eq!(p[4].x2, 891);
    assert_eq!(p[4].y2, 500);
}

#[test]
fn swatch_under_the_pointer() {
    assert_eq!(swatch_at(324, WINDOW), None);
    assert_eq!(swatch_at(325, WINDOW), Some(0));
    assert_eq!(swatch_at(354, WINDOW), Some(0));
    assert_eq!(swatch_at(355, WINDOW), Some(1));
    assert_eq!(swatch_at(430, WINDOW), Some(3));
    assert_eq!(swatch_at(474, WINDOW), Some(4));
    assert_eq!(swatch_at(475, WINDOW), None);
}

#[test]
fn wrapping_coordinates() {
    assert_eq!(wrap_coordinate(23, 10), 3);
    assert_eq!(wrap_coordinate(0, 10), 0);
    assert_eq!(wrap_coordinate(10, 10), 0);
    assert_eq!(wrap_coordinate(-3, 10), 7);
    assert_eq!(wrap_coordinate(-10, 10), 10);
    assert_eq!(wrap_coordinate(-23, 10), 7);
}

#[test]
fn canvas_bounds_are_inclusive() {
    let app = App::new();
    assert!(app.cursor_inside_canvas(&brush(200, 53, 5), &WINDOW));
    assert!(!app.cursor_inside_canvas(&brush(199, 53, 5), &WINDOW));
    assert!(!app.cursor_inside_canvas(&brush(200, 52, 5), &WINDOW));
    assert!(app.cursor_inside_canvas(&brush(1390, 447, 5), &WINDOW));
    assert!(!app.cursor_inside_canvas(&brush(1391, 447, 5), &WINDOW));
    assert!(!app.cursor_inside_canvas(&brush(1390, 448, 5), &WINDOW));
}

#[test]
fn canvas_check_with_extreme_values() {
    let app = App::new();
    let huge = AppSquare { x2: i64::MAX, y: i32::MAX, side: i64::MAX, color: Color::Blue };
    assert!(!app.cursor_inside_canvas(&huge, &WINDOW));
    assert!(!app.cursor_on_palette(&huge, &WINDOW));
    let low = AppSquare { x2: i64::MIN, y: i32::MIN, side: i64::MIN, color: Color::Blue };
    assert!(!app.cursor_inside_canvas(&low, &WINDOW));
}

#[test]
fn palette_bounds_are_inclusive() {
    let app = App::new();
    assert!(app.cursor_on_palette(&brush(650, 453, 5), &WINDOW));
    assert!(!app.cursor_on_palette(&brush(649, 453, 5), &WINDOW));
    assert!(!app.cursor_on_palette(&brush(650, 452, 5), &WINDOW));
    assert!(app.cursor_on_palette(&brush(940, 477, 5), &WINDOW));
    assert!(!app.cursor_on_palette(&brush(941, 477, 5), &WINDOW));
    assert!(!app.cursor_on_palette(&brush(940, 478, 5), &WINDOW));
}

#[test]
fn new_app_starts_with_a_small_red_brush() {
    let app = App::new();
    assert_eq!(app.cur, brush(0, 0, 5));
    assert_eq!(app.button_state, ButtonState::Release);
    assert_eq!(app.prev_mouse_button, None);
    assert!(app.squares.is_empty());
}

#[test]
fn moving_puts_the_brush_under_the_pointer() {
    let mut app = App::new();
    app.handle_event(Input::Move(400, 200), WINDOW);
    assert_eq!((app.cursor_x, app.cursor_y), (400, 200));
    assert_eq!(app.cur, brush(795, 200, 5));
}

#[test]
fn scrolling_resizes_the_brush_within_limits() {
    let mut app = App::new();
    app.handle_event(Input::Scroll(-1), WINDOW);
    assert_eq!(app.cur.side, 5);
    app.handle_event(Input::Scroll(1), WINDOW);
    assert_eq!(app.cur.side, 10);
    app.handle_event(Input::Scroll(7), WINDOW);
    assert_eq!(app.cur.side, 45);
    app.handle_event(Input::Scroll(2), WINDOW);
    assert_eq!(app.cur.side, 55);
    app.handle_event(Input::Scroll(1), WINDOW);
    assert_eq!(app.cur.side, 55);
    app.handle_event(Input::Scroll(-1), WINDOW);
    assert_eq!(app.cur.side, 50);
    app.handle_event(Input::Scroll(0), WINDOW);
    assert_eq!(app.cur.side, 50);
}

#[test]
fn scrolling_keeps_the_left_edge() {
    let mut app = App::new();
    app.handle_event(Input::Move(400, 200), WINDOW);
    app.handle_event(Input::Scroll(1), WINDOW);
    assert_eq!(app.cur, brush(795, 200, 10));
}

#[test]
fn holding_the_left_button_paints_squares() {
    let mut app = App::new();
    app.handle_event(Input::Move(400, 200), WINDOW);
    app.handle_event(left_press(), WINDOW);
    assert!(app.squares.is_empty());
    assert_eq!(app.prev_mouse_button, Some(MouseButton::Left));
    app.handle_event(Input::Other, WINDOW);
    assert_eq!(app.squares, vec![brush(795, 200, 5)]);
    app.handle_event(Input::Move(410, 220), WINDOW);
    assert_eq!(app.squares, vec![brush(795, 200, 5), brush(815, 220, 5)]);
    app.handle_event(left_release(), WINDOW);
    assert_eq!(app.button_state, ButtonState::Release);
    assert_eq!(app.prev_mouse_button, None);
    app.handle_event(Input::Move(420, 220), WINDOW);
    assert_eq!(app.squares.len(), 2);
}

#[test]
fn a_stamp_is_centred_on_the_pointer_at_the_current_side() {
    let mut app = App::new();
    app.handle_event(Input::Move(400, 200), WINDOW);
    app.handle_event(Input::Scroll(1), WINDOW);
    app.handle_event(left_press(), WINDOW);
    app.handle_event(Input::Other, WINDOW);
    assert_eq!(app.squares, vec![brush(790, 200, 10)]);
}

#[test]
fn nothing_is_painted_outside_the_canvas() {
    let mut app = App::new();
    app.handle_event(Input::Move(50, 200), WINDOW);
    app.handle_event(left_press(), WINDOW);
    app.handle_event(Input::Other, WINDOW);
    app.handle_event(Input::Move(400, 20), WINDOW);
    assert!(app.squares.is_empty());
}

#[test]
fn the_right_button_does_not_paint() {
    let mut app = App::new();
    app.handle_event(Input::Move(400, 200), WINDOW);
    app.handle_event(Input::Press(Button::Mouse(MouseButton::Right)), WINDOW);
    app.handle_event(Input::Other, WINDOW);
    assert!(app.squares.is_empty());
    assert_eq!(app.prev_mouse_button, Some(MouseButton::Right));
}

#[test]
fn a_key_press_keeps_painting_and_its_release_stops_it() {
    let mut app = App::new();
    app.handle_event(Input::Move(400, 200), WINDOW);
    app.handle_event(left_press(), WINDOW);
    app.handle_event(Input::Press(Button::Keyboard), WINDOW);
    assert_eq!(app.squares.len(), 1);
    assert_eq!(app.prev_mouse_button, Some(MouseButton::Left));
    app.handle_event(Input::Release(Button::Keyboard), WINDOW);
    assert_eq!(app.prev_mouse_button, None);
    app.handle_event(Input::Other, WINDOW);
    assert_eq!(app.squares.len(), 1);
}

#[test]
fn clicking_a_swatch_picks_its_colour() {
    let mut app = App::new();
    app.handle_event(Input::Move(355, 470), WINDOW);
    app.handle_event(left_press(), WINDOW);
    assert_eq!(app.cur.color, Color::Red);
    app.handle_event(Input::Other, WINDOW);
    assert_eq!(app.cur.color, Color::Green);
    app.handle_event(Input::Move(430, 470), WINDOW);
    assert_eq!(app.cur.color, Color::Yellow);
    assert!(app.squares.is_empty());
    app.handle_event(left_release(), WINDOW);
    app.handle_event(Input::Move(400, 200), WINDOW);
    app.handle_event(left_press(), WINDOW);
    app.handle_event(Input::Other, WINDOW);
    assert_eq!(app.squares[0].color, Color::Yellow);
}

#[test]
fn frame_of_a_fresh_app() {
    let app = App::new();
    let ops = app.render(WINDOW);
    assert_eq!(ops.len(), 13);
    assert_eq!(ops[0], DrawOp::Clear(Color::White));
    assert_eq!(
        ops[1],
        DrawOp::Outline(Rect { x2: 200, y2: 100, width2: 1200, height2: 800 }, Color::Black)
    );
    assert_eq!(
        ops[2],
        DrawOp::Outline(Rect { x2: 650, y2: 900, width2: 60, height2: 60 }, Color::Black)
    );
    assert_eq!(
        ops[3],
        DrawOp::Fill(Rect { x2: 650, y2: 900, width2: 58, height2: 58 }, Color::Red)
    );
    assert_eq!(
        ops[11],
        DrawOp::Fill(Rect { x2: 890, y2: 900, width2: 58, height2: 58 }, Color::White)
    );
    assert_eq!(
        ops[12],
        DrawOp::Fill(Rect { x2: 0, y2: -5, width2: 10, height2: 10 }, Color::Red)
    );
}

#[test]
fn frame_wraps_the_brush_into_the_window() {
    let mut app = App::new();
    app.handle_event(Input::Move(-10, -3), WINDOW);
    let ops = app.render(WINDOW);
    assert_eq!(
        ops[12],
        DrawOp::Fill(Rect { x2: 1575, y2: 989, width2: 10, height2: 10 }, Color::Red)
    );
    app.handle_event(Input::Move(900, 600), WINDOW);
    let ops = app.render(WINDOW);
    assert_eq!(
        ops[12],
        DrawOp::Fill(Rect { x2: 195, y2: 195, width2: 10, height2: 10 }, Color::Red)
    );
}

#[test]
fn frame_draws_painted_squares_last() {
    let mut app = App::new();
    app.handle_event(Input::Move(400, 200), WINDOW);
    app.handle_event(left_press(), WINDOW);
    app.handle_event(Input::Other, WINDOW);
    app.handle_event(Input::Move(500, 300), WINDOW);
    let ops = app.render(WINDOW);
    assert_eq!(ops.len(), 15);
    assert_eq!(
        ops[12],
        DrawOp::Fill(Rect { x2: 995, y2: 595, width2: 10, height2: 10 }, Color::Red)
    );
    assert_eq!(
        ops[13],
        DrawOp::Fill(Rect { x2: 795, y2: 395, width2: 10, height2: 10 }, Color::Red)
    );
    assert_eq!(
        ops[14],
        DrawOp::Fill(Rect { x2: 995, y2: 595, width2: 10, height2: 10 }, Color::Red)
    );
}

#[test]
fn frame_of_an_empty_window_has_no_brush() {
    let app = App::new();
    let ops = app.render(WindowSize { width: 0, height: 0 });
    assert_eq!(ops.len(), 12);
    assert_eq!(
        ops[1],
        DrawOp::Outline(Rect { x2: -600, y2: 100, width2: 1200, height2: 800 }, Color::Black)
    );
}
