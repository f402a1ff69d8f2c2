//! Drawing commands the widgets emit.
//!
//! The toolkit renders by appending [`DrawCmd`] values to a frame-local list;
//! the host executes them against its real surface in order.  Text layout
//! (shaping, measuring) lives entirely on the host side: commands carry the
//! string and the pixel height, and the host resolves widths — including the
//! caret offset, which sits after the rendered form of `Caret::after`.

use vstd::prelude::*;

verus! {

/// One primitive drawing operation, in the order the host must run them.
pub enum DrawCmd {
    /// Set the current draw color.
    SetColor { r: u8, g: u8, b: u8, a: u8 },
    /// Fill a rectangle with the current color.
    FillRect { x: i32, y: i32, w: i32, h: i32 },
    /// Outline a rectangle with the current color.
    OutlineRect { x: i32, y: i32, w: i32, h: i32 },
    /// Draw a line segment with the current color.
    Line { x1: i32, y1: i32, x2: i32, y2: i32 },
    /// Render `content` at pixel height `height`, left edge at (`x`, `y`).
    Text { content: String, height: i32, x: i32, y: i32 },
    /// Render `content` at pixel height `height`, centered horizontally in
    /// the span `[x, x + w]`, top at `y`.
    TextCentered { content: String, height: i32, x: i32, w: i32, y: i32 },
    /// Draw a one-pixel-wide caret of height `h` with the current color,
    /// placed just after the rendered width of `after` starting at (`x`, `y`).
    Caret { after: String, height: i32, x: i32, y: i32, h: i32 },
    /// Draw a line through the point (in thousandths of a pixel) at the
    /// given angle (thousandths of a radian), extending `half_len_milli` to
    /// each side; the host resolves the trigonometry.
    OrientedLine { x_milli: i64, y_milli: i64, angle_milli: i64, half_len_milli: i64 },
}

/// A shaped-text handle as the host's rasterizer reports it: the scaled
/// pixel size and the host-side texture slot it occupies.
pub struct TextTexure {
    pub size: (u32, u32),
    pub texture: usize,
}

} // verus!
