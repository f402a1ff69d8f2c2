//! The frame-local input snapshot the widgets read.
//!
//! The host loop polls its input device once per frame and fills a
//! [`FrameInput`]; edge flags (`left_pressed`, `left_released`,
//! `backspace_pressed`, `panel_key_pressed`) are valid only for that frame.
//! The toolkit never polls anything itself.

use vstd::prelude::*;
use crate::geom::{Rect, COORD_LIMIT};

verus! {

/// One frame of input: pointer position, left-button edge and level state,
/// the text produced this frame, and the key edges the overlay reacts to.
pub struct FrameInput {
    pub mouse_x: i32,
    pub mouse_y: i32,
    /// Left button was pressed this frame (edge).
    pub left_pressed: bool,
    /// Left button is currently down (level).
    pub left_held: bool,
    /// Left button was released this frame (edge).
    pub left_released: bool,
    /// Backspace was pressed this frame (edge).
    pub backspace_pressed: bool,
    /// The panel show/hide key was pressed this frame (edge).
    pub panel_key_pressed: bool,
    /// Characters produced by typing this frame, possibly empty.
    pub text: String,
}

impl FrameInput {
    /// The pointer position must sit inside the coordinate window so hit
    /// tests and drag offsets cannot overflow.
    pub open spec fn wf(self) -> bool {
        &&& -COORD_LIMIT <= self.mouse_x <= COORD_LIMIT
        &&& -COORD_LIMIT <= self.mouse_y <= COORD_LIMIT
    }

    /// A frame in which nothing was typed and no backspace arrived: text
    /// buffers keep their contents through such a frame.
    pub open spec fn no_typing(self) -> bool {
        self.text@.len() == 0 && !self.backspace_pressed
    }

    /// Builds a snapshot, clamping the pointer into the coordinate window.
    #[allow(clippy::too_many_arguments)]
    pub fn new(
        mouse_x: i32,
        mouse_y: i32,
        left_pressed: bool,
        left_held: bool,
        left_released: bool,
        backspace_pressed: bool,
        panel_key_pressed: bool,
        text: String,
    ) -> (r: FrameInput)
        ensures
            r.wf(),
            r.mouse_x as int == clamp_coord(mouse_x as int),
            r.mouse_y as int == clamp_coord(mouse_y as int),
            r.left_pressed == left_pressed,
            r.left_held == left_held,
            r.left_released == left_released,
            r.backspace_pressed == backspace_pressed,
            r.panel_key_pressed == panel_key_pressed,
            r.text == text,
    {
        FrameInput {
            mouse_x: clamp_i32(mouse_x),
            mouse_y: clamp_i32(mouse_y),
            left_pressed,
            left_held,
            left_released,
            backspace_pressed,
            panel_key_pressed,
            text,
        }
    }

    /// Whether the pointer hovers strictly inside the given row.
    pub open spec fn over(self, row: Rect) -> bool {
        row.spec_contains(self.mouse_x as int, self.mouse_y as int)
    }
}

/// A coordinate squeezed into the window `[-COORD_LIMIT, COORD_LIMIT]`.
pub open spec fn clamp_coord(v: int) -> int {
    if v < -COORD_LIMIT {
        -COORD_LIMIT as int
    } else if v > COORD_LIMIT {
        COORD_LIMIT as int
    } else {
        v
    }
}

pub fn clamp_i32(v: i32) -> (r: i32)
    ensures
        r as int == clamp_coord(v as int),
        -COORD_LIMIT <= r <= COORD_LIMIT,
{
    if v < -COORD_LIMIT {
        -COORD_LIMIT
    } else if v > COORD_LIMIT {
        COORD_LIMIT
    } else {
        v
    }
}

} // verus!
