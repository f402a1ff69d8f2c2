//! Draggable, show/hide panels and the per-frame layout pass.
//!
//! A panel lays its widgets out top to bottom in the order the caller
//! displays them: each `display_*` call computes the widget's row from the
//! panel's running cursor, runs the widget's update against this frame's
//! input, emits its drawing commands, advances the cursor by the widget's
//! footprint plus half the padding, and grows the panel's height to cover
//! the cursor.  A hidden panel skips all of it: no layout, no widget state
//! change, no drawing, no hit test, no drag.
//!
//! Dragging: a press edge inside a visible panel's bounds arms a drag
//! origin; while armed, the background renders at `bounds + (pointer -
//! origin)`; the release edge commits that offset into `bounds` (clamped to
//! the panel coordinate window) and disarms.

use vstd::prelude::*;
use crate::button::{click_step, ClickElement};
use crate::draw::DrawCmd;
use crate::geom::{Rect, COORD_LIMIT, PADDING};
use crate::input::FrameInput;
use crate::number_text::NumberTextInput;
use crate::text::Text;
use crate::text_input::{TextInput, DT_LIMIT};
use crate::toggle::{
    all_toggles, at_most_one_on, lemma_group_exclusive, resolved_active, resolved_members,
    ToggleGroup,
};

verus! {

/// Panels live inside this window, well under the pointer window, so rows
/// and drag offsets stay far from `i32` overflow.
pub const PANEL_LIMIT: i32 = 1_000_000;

/// Upper bound on the layout cursor and on a panel's grown height.
pub const Y_CAP: i32 = 1_000_000;

/// A positioned, draggable, show/hide widget container.
pub struct Panel {
    pub name: String,
    pub bounds: Rect,
    pub y_offset: i32,
    pub drag_origin: Option<(i32, i32)>,
    pub hidden: bool,
}

impl Panel {
    pub open spec fn wf(self) -> bool {
        &&& -PANEL_LIMIT <= self.bounds.x <= PANEL_LIMIT
        &&& -PANEL_LIMIT <= self.bounds.y <= PANEL_LIMIT
        &&& PADDING <= self.bounds.w <= PANEL_LIMIT
        &&& 0 <= self.bounds.h <= Y_CAP
        &&& 0 <= self.y_offset <= Y_CAP
        &&& match self.drag_origin {
            Some((ox, oy)) => -COORD_LIMIT <= ox <= COORD_LIMIT && -COORD_LIMIT <= oy
                <= COORD_LIMIT,
            None => true,
        }
    }

    /// The row a widget of footprint `h` occupies at the current cursor.
    pub open spec fn spec_row(self, h: int) -> Rect {
        Rect {
            x: (self.bounds.x + PADDING / 2) as i32,
            y: (self.bounds.y + self.y_offset) as i32,
            w: (self.bounds.w - PADDING) as i32,
            h: h as i32,
        }
    }

    /// The panel after the cursor advanced past a widget of footprint `h`:
    /// the cursor moves by `h` plus half the padding and the height grows to
    /// cover it.
    pub open spec fn spec_advanced(self, h: int) -> Panel {
        let yo = self.y_offset + h + PADDING / 2;
        Panel {
            y_offset: yo as i32,
            bounds: Rect {
                h: if yo > self.bounds.h {
                    yo as i32
                } else {
                    self.bounds.h
                },
                ..self.bounds
            },
            ..self
        }
    }

    /// A panel starts hidden, with its cursor at the top padding.
    pub fn new(bounds: Rect, name: &str) -> (r: Panel)
        requires
            -PANEL_LIMIT <= bounds.x <= PANEL_LIMIT,
            -PANEL_LIMIT <= bounds.y <= PANEL_LIMIT,
            PADDING <= bounds.w <= PANEL_LIMIT,
            0 <= bounds.h <= Y_CAP,
        ensures
            r.name@ == name@,
            r.bounds == bounds,
            r.y_offset == PADDING / 2,
            r.drag_origin is None,
            r.hidden,
            r.wf(),
    {
        Panel {
            name: name.to_owned(),
            bounds,
            y_offset: PADDING / 2,
            drag_origin: None,
            hidden: true,
        }
    }

    /// The background commands for a visible panel: a dark fill at `bounds`
    /// shifted by the live drag offset.
    pub open spec fn spec_background(self, input: FrameInput) -> Seq<DrawCmd> {
        let (ox, oy): (int, int) = match self.drag_origin {
            Some((px, py)) => (input.mouse_x - px, input.mouse_y - py),
            None => (0, 0),
        };
        seq![
            (DrawCmd::SetColor { r: 40, g: 40, b: 40, a: 255 }),
            (DrawCmd::FillRect {
                x: (self.bounds.x + ox) as i32,
                y: (self.bounds.y + oy) as i32,
                w: self.bounds.w,
                h: self.bounds.h,
            }),
        ]
    }

    /// Begins a visible panel's frame: resets the cursor and draws the
    /// background at the dragged position.  Hidden panels are untouched and
    /// draw nothing.
    pub fn render(&mut self, input: &FrameInput, out: &mut Vec<DrawCmd>)
        requires
            old(self).wf(),
            input.wf(),
        ensures
            final(self).wf(),
            old(self).hidden ==> *final(self) == *old(self) && final(out)@ == old(out)@,
            !old(self).hidden ==> *final(self) == (Panel {
                y_offset: (PADDING / 2) as i32,
                ..*old(self)
            }) && final(out)@ == old(out)@ + old(self).spec_background(*input),
    {
        if self.hidden {
            return ;
        }
        self.y_offset = PADDING / 2;
        let (ox, oy): (i32, i32) = match self.drag_origin {
            Some((px, py)) => (input.mouse_x - px, input.mouse_y - py),
            None => (0, 0),
        };
        out.push(DrawCmd::SetColor { r: 40, g: 40, b: 40, a: 255 });
        out.push(
            DrawCmd::FillRect {
                x: self.bounds.x + ox,
                y: self.bounds.y + oy,
                w: self.bounds.w,
                h: self.bounds.h,
            },
        );
        assert(out@ =~= old(out)@ + old(self).spec_background(*input));
    }

    /// Arms a drag when a press edge lands inside a visible panel's bounds.
    pub fn drag_start(&mut self, input: &FrameInput)
        requires
            old(self).wf(),
            input.wf(),
        ensures
            final(self).wf(),
            *final(self) == if !old(self).hidden && input.left_pressed && old(
                self,
            ).bounds.spec_contains(input.mouse_x as int, input.mouse_y as int) {
                Panel { drag_origin: Some((input.mouse_x, input.mouse_y)), ..*old(self) }
            } else {
                *old(self)
            },
    {
        if self.hidden {
            return ;
        }
        if self.bounds.contains(input.mouse_x, input.mouse_y) && input.left_pressed {
            self.drag_origin = Some((input.mouse_x, input.mouse_y));
        }
    }

    /// On a release edge while dragging, commits the pointer delta into the
    /// panel's position (clamped into the panel window) and disarms.
    pub fn drag_end(&mut self, input: &FrameInput)
        requires
            old(self).wf(),
            input.wf(),
        ensures
            final(self).wf(),
            *final(self) == match old(self).drag_origin {
                Some((px, py)) => if input.left_released {
                    Panel {
                        drag_origin: None,
                        bounds: Rect {
                            x: clamp_panel(old(self).bounds.x + input.mouse_x - px),
                            y: clamp_panel(old(self).bounds.y + input.mouse_y - py),
                            ..old(self).bounds
                        },
                        ..*old(self)
                    }
                } else {
                    *old(self)
                },
                None => *old(self),
            },
    {
        if let Some((px, py)) = self.drag_origin {
            if input.left_released {
                let nx = clamp_panel_i32(self.bounds.x + (input.mouse_x - px));
                let ny = clamp_panel_i32(self.bounds.y + (input.mouse_y - py));
                self.bounds = Rect { x: nx, y: ny, ..self.bounds };
                self.drag_origin = None;
            }
        }
    }

    /// Lays out one click element: update against its row, draw, advance.
    pub fn display_click(
        &mut self,
        e: &mut ClickElement,
        input: &FrameInput,
        out: &mut Vec<DrawCmd>,
    )
        requires
            old(self).wf(),
            input.wf(),
            old(self).hidden || old(self).y_offset + 40 <= Y_CAP,
        ensures
            final(self).wf(),
            old(self).hidden ==> *final(self) == *old(self) && *final(e) == *old(e)
                && final(out)@ == old(out)@,
            !old(self).hidden ==> {
                let row = old(self).spec_row(30);
                &&& *final(e) == click_step(*old(e), *input, row)
                &&& *final(self) == old(self).spec_advanced(30)
                &&& final(out)@ == old(out)@ + click_step(*old(e), *input, row).spec_draw(row)
            },
    {
        if self.hidden {
            return ;
        }
        let row = Rect::new(
            self.bounds.x + PADDING / 2,
            self.bounds.y + self.y_offset,
            self.bounds.w - PADDING,
            30,
        );
        e.update(input, row);
        e.draw(row, out);
        self.advance(30);
    }

    /// Lays out one static text row: draw only, advance by its footprint.
    pub fn display_text(&mut self, e: &Text, input: &FrameInput, out: &mut Vec<DrawCmd>)
        requires
            old(self).wf(),
            input.wf(),
            e.wf(),
            old(self).hidden || old(self).y_offset + 40 <= Y_CAP,
        ensures
            final(self).wf(),
            old(self).hidden ==> *final(self) == *old(self) && final(out)@ == old(out)@,
            !old(self).hidden ==> {
                let row = old(self).spec_row(e.spec_footprint());
                &&& *final(self) == old(self).spec_advanced(e.spec_footprint())
                &&& final(out)@ == old(out)@ + e.spec_draw(row)
            },
    {
        if self.hidden {
            return ;
        }
        let fp = e.footprint();
        let row = Rect::new(
            self.bounds.x + PADDING / 2,
            self.bounds.y + self.y_offset,
            self.bounds.w - PADDING,
            fp,
        );
        e.draw(row, out);
        self.advance(fp);
    }

    /// Lays out one text input: update against its row, draw, advance.
    pub fn display_text_input(
        &mut self,
        e: &mut TextInput,
        input: &FrameInput,
        dt: u64,
        out: &mut Vec<DrawCmd>,
    )
        requires
            old(self).wf(),
            input.wf(),
            old(e).wf(),
            dt <= DT_LIMIT,
            old(self).hidden || old(self).y_offset + 40 <= Y_CAP,
        ensures
            final(self).wf(),
            final(e).wf(),
            old(self).hidden ==> *final(self) == *old(self) && *final(e) == *old(e)
                && final(out)@ == old(out)@,
            !old(self).hidden ==> {
                let row = old(self).spec_row(28);
                &&& crate::text_input::input_steps_to(*old(e), *final(e), *input, row, dt)
                &&& *final(self) == old(self).spec_advanced(28)
                &&& final(out)@ == old(out)@ + final(e).spec_draw(row)
            },
    {
        if self.hidden {
            return ;
        }
        let row = Rect::new(
            self.bounds.x + PADDING / 2,
            self.bounds.y + self.y_offset,
            self.bounds.w - PADDING,
            28,
        );
        e.update(input, row, dt);
        e.draw(row, out);
        self.advance(28);
    }

    /// Lays out one numeric input: update (including the re-parse), draw,
    /// advance.
    pub fn display_number(
        &mut self,
        e: &mut NumberTextInput,
        input: &FrameInput,
        dt: u64,
        out: &mut Vec<DrawCmd>,
    )
        requires
            old(self).wf(),
            input.wf(),
            old(e).wf(),
            dt <= DT_LIMIT,
            old(self).hidden || old(self).y_offset + 40 <= Y_CAP,
        ensures
            final(self).wf(),
            final(e).wf(),
            old(self).hidden ==> *final(self) == *old(self) && *final(e) == *old(e)
                && final(out)@ == old(out)@,
            !old(self).hidden ==> {
                let row = old(self).spec_row(28);
                &&& number_steps_to(*old(e), *final(e), *input, row, dt)
                &&& *final(self) == old(self).spec_advanced(28)
                &&& final(out)@ == old(out)@ + final(e).text.spec_draw(row)
            },
    {
        if self.hidden {
            return ;
        }
        let row = Rect::new(
            self.bounds.x + PADDING / 2,
            self.bounds.y + self.y_offset,
            self.bounds.w - PADDING,
            28,
        );
        e.update(input, row, dt);
        e.draw(row, out);
        self.advance(28);
    }

    /// The row of the group member at index `i`, laid out from this panel's
    /// current cursor.
    pub open spec fn spec_group_row(self, i: int) -> Rect {
        Rect {
            x: (self.bounds.x + PADDING / 2) as i32,
            y: (self.bounds.y + self.y_offset + 40 * i) as i32,
            w: (self.bounds.w - PADDING) as i32,
            h: 30,
        }
    }

    /// The panel after a group of `n` members was laid out: each member
    /// advanced the cursor by a full row, and the height grew to cover the
    /// final cursor.
    pub open spec fn spec_group_advanced(self, n: int) -> Panel {
        let yo = self.y_offset + 40 * n;
        Panel {
            y_offset: yo as i32,
            bounds: Rect {
                h: if yo > self.bounds.h {
                    yo as i32
                } else {
                    self.bounds.h
                },
                ..self.bounds
            },
            ..self
        }
    }

    /// Lays out a toggle group: every member updates and draws on its own
    /// row in declared order, then the exclusivity scan runs.
    pub fn display_group(
        &mut self,
        g: &mut ToggleGroup,
        input: &FrameInput,
        out: &mut Vec<DrawCmd>,
    )
        requires
            old(self).wf(),
            input.wf(),
            old(self).hidden || old(self).y_offset + 40 * old(g).toggles@.len() <= Y_CAP,
        ensures
            final(self).wf(),
            old(self).hidden ==> *final(self) == *old(self) && *final(g) == *old(g)
                && final(out)@ == old(out)@,
            !old(self).hidden ==> {
                let ms1 = stepped_members(old(g).toggles@, *input, *old(self));
                &&& final(g).toggles@ == resolved_members(ms1)
                &&& final(g).on_toggle == resolved_active(ms1, old(g).on_toggle)
                &&& *final(self) == old(self).spec_group_advanced(old(g).toggles@.len() as int)
                &&& final(out)@ == old(out)@ + group_draws(
                    old(g).toggles@,
                    *input,
                    *old(self),
                    old(g).toggles@.len() as int,
                )
                &&& old(g).wf() ==> final(g).wf()
            },
    {
        if self.hidden {
            return ;
        }
        let ghost p0 = *self;
        let ghost ms = g.toggles@;
        let n = g.toggles.len();
        let mut i: usize = 0;
        while i < n
            invariant
                n == g.toggles.len(),
                n as int == ms.len(),
                i <= n,
                input.wf(),
                p0.wf(),
                !p0.hidden,
                p0.y_offset + 40 * n <= Y_CAP,
                g.on_toggle == old(g).on_toggle,
                i == 0 ==> *self == p0,
                i > 0 ==> *self == (Panel {
                    y_offset: (p0.y_offset + 40 * i) as i32,
                    bounds: Rect {
                        h: if p0.y_offset + 40 * i > p0.bounds.h {
                            (p0.y_offset + 40 * i) as i32
                        } else {
                            p0.bounds.h
                        },
                        ..p0.bounds
                    },
                    ..p0
                }),
                forall|k: int|
                    0 <= k < n ==> #[trigger] g.toggles@[k] == if k < i {
                        click_step(ms[k], *input, p0.spec_group_row(k))
                    } else {
                        ms[k]
                    },
                out@ == old(out)@ + group_draws(ms, *input, p0, i as int),
            decreases n - i,
        {
            let row = Rect::new(
                self.bounds.x + PADDING / 2,
                self.bounds.y + self.y_offset,
                self.bounds.w - PADDING,
                30,
            );
            proof {
                assert(row == p0.spec_group_row(i as int));
            }
            let e = &mut g.toggles[i];
            e.update(input, row);
            let e2 = &g.toggles[i];
            e2.draw(row, out);
            self.advance(30);
            i += 1;
            proof {
                assert(group_draws(ms, *input, p0, i as int) == group_draws(
                    ms,
                    *input,
                    p0,
                    i - 1,
                ) + click_step(ms[i - 1], *input, p0.spec_group_row(i - 1)).spec_draw(
                    p0.spec_group_row(i - 1),
                ));
                assert(out@ =~= old(out)@ + group_draws(ms, *input, p0, i as int));
            }
        }
        if self.y_offset > self.bounds.h {
            self.bounds = Rect { h: self.y_offset, ..self.bounds };
        }
        let ghost ms1 = stepped_members(ms, *input, p0);
        proof {
            assert(g.toggles@ =~= ms1);
            assert(*self == p0.spec_group_advanced(n as int));
        }
        g.resolve();
        proof {
            if old(g).wf() {
                assert forall|k: int|
                    0 <= k < ms1.len() && (#[trigger] ms1[k]).state_or_held
                        != ms[k].state_or_held implies ms1[k].just_clicked by {
                    assert(ms[k].is_toggle());
                }
                lemma_group_exclusive(ms, ms1);
                let rm = resolved_members(ms1);
                crate::toggle::lemma_first_clicked_props(ms1);
                assert(at_most_one_on(rm));
                assert(all_toggles(rm)) by {
                    assert(forall|k: int|
                        0 <= k < rm.len() ==> (#[trigger] rm[k]).button_toggle
                            == ms[k].button_toggle);
                }
                let fc = crate::toggle::first_clicked(ms1);
                assert(forall|k: int|
                    0 <= k < rm.len() ==> (#[trigger] rm[k]).text == ms[k].text);
                assert(g.toggles@ == rm);
                match &g.on_toggle {
                    None => {},
                    Some(s) => {
                        if fc != -1 {
                            assert(0 <= fc < rm.len());
                            assert(rm[fc].text == *s);
                            assert(exists|ii: int|
                                0 <= ii < g.toggles@.len() && (#[trigger] g.toggles@[ii]).text
                                    == *s);
                        } else {
                            assert(g.on_toggle == old(g).on_toggle);
                            let wi = choose|ii: int|
                                0 <= ii < ms.len() && (#[trigger] ms[ii]).text == *s;
                            assert(rm[wi].text == *s);
                            assert(exists|ii: int|
                                0 <= ii < g.toggles@.len() && (#[trigger] g.toggles@[ii]).text
                                    == *s);
                        }
                    },
                }
                assert(g.wf());
            }
        }
    }

    /// Advances the cursor and grows the height to cover it.
    fn advance(&mut self, h: i32)
        requires
            old(self).wf(),
            0 <= h <= 30,
            old(self).y_offset + h + PADDING / 2 <= Y_CAP,
        ensures
            *final(self) == old(self).spec_advanced(h as int),
            final(self).wf(),
    {
        self.y_offset = self.y_offset + h + PADDING / 2;
        if self.y_offset > self.bounds.h {
            self.bounds = Rect { h: self.y_offset, ..self.bounds };
        }
    }
}

/// The members of a group after their per-row updates, before the scan.
pub open spec fn stepped_members(
    ms: Seq<ClickElement>,
    input: FrameInput,
    p: Panel,
) -> Seq<ClickElement> {
    Seq::new(ms.len(), |i: int| click_step(ms[i], input, p.spec_group_row(i)))
}

/// The drawing commands of the first `i` members of a group, in order.
pub open spec fn group_draws(ms: Seq<ClickElement>, input: FrameInput, p: Panel, i: int) -> Seq<
    DrawCmd,
>
    decreases i,
{
    if i <= 0 {
        Seq::<DrawCmd>::empty()
    } else {
        group_draws(ms, input, p, i - 1) + click_step(
            ms[i - 1],
            input,
            p.spec_group_row(i - 1),
        ).spec_draw(p.spec_group_row(i - 1))
    }
}

/// A group's frame (member updates plus the exclusivity scan) keeps every
/// member's label and mode: only the click edge and the latched state move.
pub proof fn lemma_group_step_preserves_labels(ms: Seq<ClickElement>, input: FrameInput, p: Panel)
    ensures
        resolved_members(stepped_members(ms, input, p)).len() == ms.len(),
        forall|k: int|
            0 <= k < ms.len() ==> (#[trigger] resolved_members(stepped_members(ms, input, p))[k]).text
                == ms[k].text,
        forall|k: int|
            0 <= k < ms.len() ==> (#[trigger] resolved_members(
                stepped_members(ms, input, p),
            )[k]).button_toggle == ms[k].button_toggle,
{
    let ms1 = stepped_members(ms, input, p);
    crate::toggle::lemma_first_clicked_props(ms1);
    assert(forall|k: int|
        0 <= k < ms1.len() ==> (#[trigger] ms1[k]).text == ms[k].text && ms1[k].button_toggle
            == ms[k].button_toggle);
}

/// A coordinate squeezed into the panel window.
pub open spec fn clamp_panel(v: int) -> i32 {
    if v < -PANEL_LIMIT {
        (-PANEL_LIMIT) as i32
    } else if v > PANEL_LIMIT {
        PANEL_LIMIT
    } else {
        v as i32
    }
}

fn clamp_panel_i32(v: i32) -> (r: i32)
    ensures
        r == clamp_panel(v as int),
{
    if v < -PANEL_LIMIT {
        -PANEL_LIMIT
    } else if v > PANEL_LIMIT {
        PANEL_LIMIT
    } else {
        v
    }
}

/// The full per-frame relation of a numeric input against its row: the
/// inner field's frame plus the re-parse of the buffer.
pub open spec fn number_steps_to(
    pre: NumberTextInput,
    post: NumberTextInput,
    input: FrameInput,
    row: Rect,
    dt: u64,
) -> bool {
    &&& post.text.placeholder == pre.text.placeholder
    &&& post.text.focused == crate::text_input::focus_step(pre.text.focused, input, row)
    &&& post.text.updated == crate::text_input::updated_step(
        pre.text.content@,
        pre.text.focused,
        input,
    )
    &&& {
        let c1 = crate::text_input::content_step(pre.text.content@, pre.text.focused, input);
        match crate::num::spec_parse(crate::number_text::strip_dot(c1)) {
            Some(v) => post.text.content@ == c1 && post.current_value.value() == v,
            None => post.text.content@.len() == 0 && post.current_value.value() == 0,
        }
    }
}

/// The first visible panel, scanning in order, whose bounds contain the
/// point; `-1` when none does.  Hidden panels occupy no interaction surface.
pub open spec fn first_over(ps: Seq<Panel>, x: int, y: int) -> int
    decreases ps.len(),
{
    if ps.len() == 0 {
        -1
    } else if !ps[0].hidden && ps[0].bounds.spec_contains(x, y) {
        0
    } else {
        let r = first_over(ps.subrange(1, ps.len() as int), x, y);
        if r == -1 {
            -1
        } else {
            r + 1
        }
    }
}

/// Returns the name of the first visible panel under the point, if any:
/// the spatial query that keeps clicks on chrome from falling through to
/// the world.
pub fn mouse_over_panel(panels: Vec<&Panel>, x: i32, y: i32) -> (r: Option<String>)
    requires
        forall|i: int| 0 <= i < panels@.len() ==> (#[trigger] panels@[i]).wf(),
    ensures
        ({
            let fo = first_over(panels@.map_values(|p: &Panel| *p), x as int, y as int);
            match r {
                Some(nm) => fo >= 0 && nm == panels@[fo].name,
                None => fo == -1,
            }
        }),
{
    let ghost ps = panels@.map_values(|p: &Panel| *p);
    let n = panels.len();
    let mut i: usize = 0;
    while i < n
        invariant
            n == panels.len(),
            ps == panels@.map_values(|p: &Panel| *p),
            ps.len() == n,
            i <= n,
            forall|k: int| 0 <= k < panels@.len() ==> (#[trigger] panels@[k]).wf(),
            forall|j: int|
                0 <= j < i ==> !(!(#[trigger] ps[j]).hidden && ps[j].bounds.spec_contains(
                    x as int,
                    y as int,
                )),
        decreases n - i,
    {
        let p: &Panel = panels[i];
        if !p.hidden && p.bounds.contains(x, y) {
            proof {
                lemma_first_over_at(ps, x as int, y as int, i as int);
            }
            return Some(p.name.clone());
        }
        i += 1;
    }
    proof {
        lemma_first_over_at(ps, x as int, y as int, n as int);
    }
    None
}

/// `first_over` finds exactly the first visible hit.
proof fn lemma_first_over_at(ps: Seq<Panel>, x: int, y: int, k: int)
    requires
        0 <= k <= ps.len(),
        forall|j: int|
            0 <= j < k ==> !(!(#[trigger] ps[j]).hidden && ps[j].bounds.spec_contains(x, y)),
        k == ps.len() || (!ps[k].hidden && ps[k].bounds.spec_contains(x, y)),
    ensures
        first_over(ps, x, y) == if k == ps.len() {
            -1
        } else {
            k
        },
    decreases ps.len(),
{
    if ps.len() == 0 {
    } else if !ps[0].hidden && ps[0].bounds.spec_contains(x, y) {
    } else {
        let t = ps.subrange(1, ps.len() as int);
        assert(forall|j: int|
            0 <= j < k - 1 ==> !(!(#[trigger] t[j]).hidden && t[j].bounds.spec_contains(x, y)));
        lemma_first_over_at(t, x, y, k - 1);
    }
}

} // verus!
