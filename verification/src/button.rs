//! Clickable buttons and toggles.
//!
//! One widget type serves both modes.  A `Button` holds `state_or_held` as
//! the momentary "pointer is down on me right now" level; a `Toggle` flips
//! `state_or_held` once per press edge that lands on it.  Both report a
//! one-frame `just_clicked` edge, reset at the start of every update.

use vstd::prelude::*;
use crate::draw::DrawCmd;
use crate::geom::{Rect, PADDING};
use crate::input::FrameInput;

verus! {

/// Which of the two behaviours a [`ClickElement`] has.
pub enum ButtonOrToggle {
    Button,
    Toggle,
}

/// A labelled clickable row: momentary button or latching toggle.
pub struct ClickElement {
    pub text: String,
    pub just_clicked: bool,
    pub state_or_held: bool,
    pub button_toggle: ButtonOrToggle,
}

/// The state a click element reaches after one frame over row `row`:
/// `just_clicked` is exactly "press edge while hovering"; a toggle flips on
/// that edge; a button's level tracks "held while hovering" and nothing else.
pub open spec fn click_step(e: ClickElement, input: FrameInput, row: Rect) -> ClickElement {
    let hov = input.over(row);
    let clicked = input.left_pressed && hov;
    ClickElement {
        just_clicked: clicked,
        state_or_held: match e.button_toggle {
            ButtonOrToggle::Toggle => if clicked {
                !e.state_or_held
            } else {
                e.state_or_held
            },
            ButtonOrToggle::Button => input.left_held && hov,
        },
        ..e
    }
}

/// The state after `force_off`: the latched state is cleared, nothing else
/// moves.
pub open spec fn force_off_step(e: ClickElement) -> ClickElement {
    ClickElement { state_or_held: false, ..e }
}

impl ClickElement {
    pub open spec fn is_toggle(self) -> bool {
        self.button_toggle is Toggle
    }

    /// The row height every click element occupies.
    pub open spec fn spec_row_height() -> int {
        30
    }

    pub fn new_toggle(text: &str) -> (r: ClickElement)
        ensures
            r.text@ == text@,
            !r.just_clicked,
            !r.state_or_held,
            r.is_toggle(),
    {
        ClickElement {
            text: text.to_owned(),
            just_clicked: false,
            state_or_held: false,
            button_toggle: ButtonOrToggle::Toggle,
        }
    }

    pub fn new_button(text: &str) -> (r: ClickElement)
        ensures
            r.text@ == text@,
            !r.just_clicked,
            !r.state_or_held,
            !r.is_toggle(),
    {
        ClickElement {
            text: text.to_owned(),
            just_clicked: false,
            state_or_held: false,
            button_toggle: ButtonOrToggle::Button,
        }
    }

    /// Whether the press edge landed here this frame.
    pub fn just_clicked(&self) -> (r: bool)
        ensures
            r == self.just_clicked,
    {
        self.just_clicked
    }

    /// Clears the latched state; used by exclusive-selection groups.
    pub fn force_off(&mut self)
        ensures
            *final(self) == force_off_step(*old(self)),
    {
        self.state_or_held = false;
    }

    /// The toggle's latched state.
    pub fn on(&self) -> (r: bool)
        ensures
            r == self.state_or_held,
    {
        self.state_or_held
    }

    /// The button's momentary held state.
    pub fn held(&self) -> (r: bool)
        ensures
            r == self.state_or_held,
    {
        self.state_or_held
    }

    /// One frame of state transition against the given row.
    pub fn update(&mut self, input: &FrameInput, row: Rect)
        requires
            row.wf(),
            old(self).wf_any(),
        ensures
            *final(self) == click_step(*old(self), *input, row),
    {
        self.just_clicked = false;
        let hovering = row.contains(input.mouse_x, input.mouse_y);
        if input.left_pressed && hovering {
            self.just_clicked = true;
            if let ButtonOrToggle::Toggle = self.button_toggle {
                self.state_or_held = !self.state_or_held;
            }
        }
        if let ButtonOrToggle::Button = self.button_toggle {
            self.state_or_held = input.left_held && hovering;
        }
    }

    /// Any click element is structurally fine; kept as a named predicate so
    /// the update contract reads uniformly with the other widgets.
    pub open spec fn wf_any(self) -> bool {
        true
    }

    /// The draw commands for this element over row `row`: a gray fill (a
    /// lighter shade while on or held) and the centered label.
    pub open spec fn spec_draw(self, row: Rect) -> Seq<DrawCmd> {
        let g: u8 = if self.state_or_held {
            140
        } else {
            120
        };
        seq![
            (DrawCmd::SetColor { r: g, g, b: g, a: 255 }),
            (DrawCmd::FillRect { x: row.x, y: row.y, w: row.w, h: row.h }),
            (DrawCmd::TextCentered {
                content: self.text,
                height: (row.h - PADDING / 2) as i32,
                x: row.x,
                w: row.w,
                y: (row.y + PADDING / 4) as i32,
            }),
        ]
    }

    /// Emits this element's drawing commands.
    pub fn draw(&self, row: Rect, out: &mut Vec<DrawCmd>)
        requires
            row.wf(),
        ensures
            final(out)@ == old(out)@ + self.spec_draw(row),
    {
        let g: u8 = if self.state_or_held {
            140
        } else {
            120
        };
        out.push(DrawCmd::SetColor { r: g, g, b: g, a: 255 });
        out.push(DrawCmd::FillRect { x: row.x, y: row.y, w: row.w, h: row.h });
        out.push(
            DrawCmd::TextCentered {
                content: self.text.clone(),
                height: row.h - PADDING / 2,
                x: row.x,
                w: row.w,
                y: row.y + PADDING / 4,
            },
        );
        assert(out@ =~= old(out)@ + self.spec_draw(row));

    }
}

/// A button's level is a pure function of the current frame: two buttons
/// with any two histories agree after one update, and the level is exactly
/// "held while hovering" — it cannot stick across frames.
pub proof fn lemma_button_level_frame_local(
    a: ClickElement,
    b: ClickElement,
    input: FrameInput,
    row: Rect,
)
    requires
        !a.is_toggle(),
        !b.is_toggle(),
    ensures
        click_step(a, input, row).state_or_held == (input.left_held && input.over(row)),
        click_step(a, input, row).state_or_held == click_step(b, input, row).state_or_held,
{
}

/// A toggle flips exactly on a qualifying press edge and is untouched
/// otherwise; the click edge fires exactly on that press.
pub proof fn lemma_toggle_flips_once(e: ClickElement, input: FrameInput, row: Rect)
    requires
        e.is_toggle(),
    ensures
        click_step(e, input, row).state_or_held == if input.left_pressed && input.over(row) {
            !e.state_or_held
        } else {
            e.state_or_held
        },
        click_step(e, input, row).just_clicked == (input.left_pressed && input.over(row)),
{
}

/// `force_off` is idempotent, and on an already-off element it changes
/// nothing at all.
pub proof fn lemma_force_off_idempotent(e: ClickElement)
    ensures
        force_off_step(force_off_step(e)) == force_off_step(e),
        !e.state_or_held ==> force_off_step(e) == e,
{
}

} // verus!
