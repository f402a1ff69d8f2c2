//! Focusable text entry.
//!
//! A `TextInput` owns a text buffer and a focus flag.  A press edge focuses
//! the field exactly when it lands on it — clicking anywhere else defocuses.
//! While focused, the buffer grows by whatever the frame typed and shrinks by
//! one on a backspace edge; the `updated` flag is a one-frame edge, true
//! exactly on the frames the buffer changed.  A blink counter, reset on that
//! edge, drives the caret's brightness through an integer triangle wave — a
//! fixed blink indicator in place of a smooth sinusoidal pulse.

use vstd::prelude::*;
use vstd::string::StrSliceExecFns;
use vstd::string::StringExecFns;
use crate::draw::DrawCmd;
use crate::geom::{Rect, PADDING};
use crate::input::FrameInput;
use crate::strutil::string_pop;

verus! {

/// Period of the caret blink, in milliseconds.
pub const BLINK_PERIOD: u64 = 1048;

/// Largest frame delta the widgets accept, in milliseconds.
pub const DT_LIMIT: u64 = 1_000_000_000;

/// A text entry field: buffer, placeholder, focus, and blink phase.
pub struct TextInput {
    pub content: String,
    pub placeholder: String,
    pub counter: u64,
    pub focused: bool,
    pub updated: bool,
}

/// The buffer after one frame: while focused it gains the frame's text and
/// loses its last character on a backspace edge; unfocused it is untouched.
pub open spec fn content_step(content: Seq<char>, focused: bool, input: FrameInput) -> Seq<char> {
    if focused {
        let appended = content + input.text@;
        if input.backspace_pressed && appended.len() > 0 {
            appended.drop_last()
        } else {
            appended
        }
    } else {
        content
    }
}

/// Focus after one frame: a press edge sets focus exactly to "the press
/// landed here"; without a press, focus is unchanged.
pub open spec fn focus_step(focused: bool, input: FrameInput, row: Rect) -> bool {
    if input.left_pressed {
        input.over(row)
    } else {
        focused
    }
}

/// The `updated` edge after one frame: true exactly when the buffer
/// changed this frame — by typing or by a backspace — and false on every
/// frame that leaves the buffer alone, focused or not.
pub open spec fn updated_step(content: Seq<char>, focused: bool, input: FrameInput) -> bool {
    content_step(content, focused, input) != content
}

/// Blink phase after one frame: advanced by the frame delta modulo the blink
/// period, or reset to zero when the `updated` edge fires.
pub open spec fn counter_step(counter: u64, dt: u64, upd: bool) -> int {
    if upd {
        0
    } else {
        (counter + dt) as int % (BLINK_PERIOD as int)
    }
}

/// The full per-frame relation between a text input's old and new states.
pub open spec fn input_steps_to(
    pre: TextInput,
    post: TextInput,
    input: FrameInput,
    row: Rect,
    dt: u64,
) -> bool {
    &&& post.content@ == content_step(pre.content@, pre.focused, input)
    &&& post.placeholder == pre.placeholder
    &&& post.focused == focus_step(pre.focused, input, row)
    &&& post.updated == updated_step(pre.content@, pre.focused, input)
    &&& post.counter as int == counter_step(pre.counter, dt, updated_step(
        pre.content@,
        pre.focused,
        input,
    ))
}

/// Caret brightness for a blink phase: a triangle wave over one period,
/// rising from 128 to 255 over the first half and falling back over the
/// second.
pub open spec fn spec_blink_gray(counter: u64) -> int {
    let ph = counter as int % (BLINK_PERIOD as int);
    if ph < 524 {
        128 + (127 * ph) / 524
    } else {
        128 + (127 * (1048 - ph)) / 524
    }
}

pub fn blink_gray(counter: u64) -> (r: u8)
    ensures
        r as int == spec_blink_gray(counter),
        128 <= r <= 255,
{
    let ph = counter % BLINK_PERIOD;
    if ph < 524 {
        (128 + (127 * ph) / 524) as u8
    } else {
        (128 + (127 * (1048 - ph)) / 524) as u8
    }
}

impl TextInput {
    /// The blink phase always sits inside one period.
    pub open spec fn wf(self) -> bool {
        self.counter < BLINK_PERIOD
    }

    /// The row height every text input occupies.
    pub open spec fn spec_row_height() -> int {
        28
    }

    pub fn new(content: &str, placeholder: &str) -> (r: TextInput)
        ensures
            r.content@ == content@,
            r.placeholder@ == placeholder@,
            r.counter == 0,
            !r.focused,
            !r.updated,
            r.wf(),
    {
        TextInput {
            content: content.to_owned(),
            placeholder: placeholder.to_owned(),
            counter: 0,
            focused: false,
            updated: false,
        }
    }

    /// The current buffer contents.
    pub fn get_value(&self) -> (r: String)
        ensures
            r == self.content,
    {
        self.content.clone()
    }

    /// Overwrites the buffer; focus, blink, and the `updated` edge keep
    /// their state.
    pub fn set_value(&mut self, value: String)
        ensures
            *final(self) == (TextInput { content: value, ..*old(self) }),
    {
        self.content = value;
    }

    /// Whether the buffer changed this frame.
    pub fn updated(&self) -> (r: bool)
        ensures
            r == self.updated,
    {
        self.updated
    }

    /// One frame of state transition against the given row.
    pub fn update(&mut self, input: &FrameInput, row: Rect, dt: u64)
        requires
            row.wf(),
            old(self).wf(),
            dt <= DT_LIMIT,
        ensures
            input_steps_to(*old(self), *final(self), *input, row, dt),
            final(self).wf(),
    {
        self.counter = (self.counter + dt) % BLINK_PERIOD;
        if self.focused {
            let before = self.content.clone();
            self.content.append(input.text.as_str());
            if input.backspace_pressed {
                if !self.content.as_str().is_empty() {
                    let _ = string_pop(&mut self.content);
                }
            }
            self.updated = !crate::strutil::str_eq(self.content.as_str(), before.as_str());
        } else {
            self.updated = false;
        }
        let hovering = row.contains(input.mouse_x, input.mouse_y);
        if input.left_pressed {
            self.focused = hovering;
        }
        if self.updated {
            self.counter = 0;
        }
    }

    /// The draw commands for this field over row `row`: background, a focus
    /// outline when focused, the buffer (or the placeholder, dimmed, when
    /// empty), and a blinking caret when focused.
    pub open spec fn spec_draw(self, row: Rect) -> Seq<DrawCmd> {
        let ph = self.content@.len() == 0;
        let th = (row.h - PADDING / 2) as i32;
        let shown = if ph {
            self.placeholder
        } else {
            self.content
        };
        let text_color: u8 = if ph {
            205
        } else {
            255
        };
        let gray = spec_blink_gray(self.counter) as u8;
        let base = seq![
            (DrawCmd::SetColor { r: 70, g: 70, b: 70, a: 255 }),
            (DrawCmd::FillRect { x: row.x, y: row.y, w: row.w, h: row.h }),
        ] + (if self.focused {
            seq![
                (DrawCmd::SetColor { r: 200, g: 200, b: 200, a: 255 }),
                (DrawCmd::OutlineRect { x: row.x, y: row.y, w: row.w, h: row.h }),
            ]
        } else {
            Seq::<DrawCmd>::empty()
        }) + seq![
            (DrawCmd::SetColor { r: text_color, g: text_color, b: text_color, a: text_color }),
            (DrawCmd::Text {
                content: shown,
                height: th,
                x: (row.x + PADDING / 4) as i32,
                y: (row.y + PADDING / 4) as i32,
            }),
        ];
        if self.focused {
            base + seq![
                (DrawCmd::SetColor { r: gray, g: gray, b: gray, a: 255 }),
                (DrawCmd::Caret {
                    after: self.content,
                    height: th,
                    x: (row.x + PADDING / 4) as i32,
                    y: (row.y + PADDING / 4 + 2) as i32,
                    h: (th - 4) as i32,
                }),
            ]
        } else {
            base
        }
    }

    /// Emits this field's drawing commands.
    pub fn draw(&self, row: Rect, out: &mut Vec<DrawCmd>)
        requires
            row.wf(),
        ensures
            final(out)@ == old(out)@ + self.spec_draw(row),
    {
        let ph = self.content.as_str().is_empty();
        let th = row.h - PADDING / 2;
        out.push(DrawCmd::SetColor { r: 70, g: 70, b: 70, a: 255 });
        out.push(DrawCmd::FillRect { x: row.x, y: row.y, w: row.w, h: row.h });
        if self.focused {
            out.push(DrawCmd::SetColor { r: 200, g: 200, b: 200, a: 255 });
            out.push(DrawCmd::OutlineRect { x: row.x, y: row.y, w: row.w, h: row.h });
        }
        let text_color: u8 = if ph {
            205
        } else {
            255
        };
        out.push(
            DrawCmd::SetColor { r: text_color, g: text_color, b: text_color, a: text_color },
        );
        let shown = if ph {
            self.placeholder.clone()
        } else {
            self.content.clone()
        };
        out.push(
            DrawCmd::Text { content: shown, height: th, x: row.x + PADDING / 4, y: row.y + PADDING / 4 },
        );
        if self.focused {
            let gray = blink_gray(self.counter);
            out.push(DrawCmd::SetColor { r: gray, g: gray, b: gray, a: 255 });
            out.push(
                DrawCmd::Caret {
                    after: self.content.clone(),
                    height: th,
                    x: row.x + PADDING / 4,
                    y: row.y + PADDING / 4 + 2,
                    h: th - 4,
                },
            );
        }
        assert(out@ =~= old(out)@ + self.spec_draw(row));
    }
}

} // verus!
