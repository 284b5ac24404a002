//! A small square-stamping paint program: a bordered canvas, a palette of
//! colour swatches under it, and a square brush whose size the scroll wheel
//! changes. The library keeps the program's state, decides what each input
//! event does to it, and lists what a frame draws; the window, the event
//! queue and the drawing itself are left to the caller.

pub mod layout;
pub mod painter;

pub use layout::{palette, swatch_at, wrap_coordinate, Color, ColorSelector, Rect, WindowSize};
pub use painter::{App, AppSquare, Button, ButtonState, DrawOp, Input, MouseButton};
