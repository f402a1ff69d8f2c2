//! The generated per-constraint editing panel.
//!
//! A constraint's layout holds one widget set matching the constraint's
//! kind.  The same continuous sync policy as the body panels applies: edit
//! toggle on, widgets drive the constraint every frame; off, the constraint
//! drives the widget buffers.  A layout only syncs with a constraint of the
//! kind it was built for; against any other kind it leaves the constraint
//! untouched.

use vstd::prelude::*;
use crate::button::ClickElement;
use crate::draw::DrawCmd;
use crate::geom::Rect;
use crate::input::FrameInput;
use crate::model::Constraint;
use crate::num::num_str;
use crate::number_text::NumberTextInput;
use crate::panel::{Panel, PANEL_LIMIT};
use crate::text_input::{TextInput, DT_LIMIT};

verus! {

/// The widget set for one constraint kind.
pub enum ConstraintGuiType {
    Slider {
        position_x: NumberTextInput,
        position_y: NumberTextInput,
        rotation: NumberTextInput,
        body: TextInput,
        strength: NumberTextInput,
    },
    Fixed {
        position_x: NumberTextInput,
        position_y: NumberTextInput,
        rotation: NumberTextInput,
        body: TextInput,
        strength: NumberTextInput,
    },
}

impl ConstraintGuiType {
    pub open spec fn wf(self) -> bool {
        match self {
            ConstraintGuiType::Slider { position_x, position_y, rotation, body, strength } =>
                position_x.wf() && position_y.wf() && rotation.wf() && body.wf() && strength.wf(),
            ConstraintGuiType::Fixed { position_x, position_y, rotation, body, strength } =>
                position_x.wf() && position_y.wf() && rotation.wf() && body.wf() && strength.wf(),
        }
    }
}

/// A constraint's generated layout.
pub struct ConstraintDebugGui {
    pub panel: Panel,
    pub editing: ClickElement,
    pub constraint_type: ConstraintGuiType,
}

/// The constraint after one frame's sync: while editing, a layout of the
/// matching kind writes its widget values into the constraint; otherwise
/// the constraint is untouched.
pub open spec fn synced_constraint(g: ConstraintGuiType, ed: bool, c: Constraint) -> Constraint {
    if ed {
        match c {
            Constraint::SlideJoint { .. } => match g {
                ConstraintGuiType::Slider {
                    position_x,
                    position_y,
                    rotation,
                    body,
                    strength,
                } => Constraint::SlideJoint {
                    body: body.content,
                    position_x: position_x.current_value,
                    position_y: position_y.current_value,
                    rotation: rotation.current_value,
                    strength: strength.current_value,
                },
                _ => c,
            },
            Constraint::FixedJoint { .. } => match g {
                ConstraintGuiType::Fixed { position_x, position_y, rotation, body, strength } =>
                    Constraint::FixedJoint {
                    body: body.content,
                    position_x: position_x.current_value,
                    position_y: position_y.current_value,
                    rotation: rotation.current_value,
                    strength: strength.current_value,
                },
                _ => c,
            },
        }
    } else {
        c
    }
}

impl ConstraintDebugGui {
    pub open spec fn wf(self) -> bool {
        self.panel.wf() && self.constraint_type.wf()
    }

    /// The owned panel, for the registry's show/hide toggles.
    pub fn get_panel(&mut self) -> (r: &mut Panel)
        ensures
            *r == old(self).panel,
            *final(self) == (ConstraintDebugGui { panel: *final(r), ..*old(self) }),
    {
        &mut self.panel
    }

    /// One frame: lay the widgets out, then apply the sync policy between
    /// widgets and constraint.
    #[verifier::rlimit(100)]
    pub fn render_debug_gui(
        &mut self,
        data: &mut Constraint,
        input: &FrameInput,
        dt: u64,
        out: &mut Vec<DrawCmd>,
    )
        requires
            old(self).wf(),
            old(data).wf(),
            input.wf(),
            dt <= DT_LIMIT,
        ensures
            final(self).wf(),
            final(data).wf(),
            *final(data) == synced_constraint(
                final(self).constraint_type,
                final(self).editing.state_or_held,
                *old(data),
            ),
            // View mode against the matching kind: the constraint's fields
            // drive the widget buffers.
            !final(self).editing.state_or_held ==> match (*old(data), final(self).constraint_type) {
                (
                    Constraint::SlideJoint { body, position_x, position_y, rotation, strength },
                    ConstraintGuiType::Slider {
                        position_x: wx,
                        position_y: wy,
                        rotation: wr,
                        body: wb,
                        strength: ws,
                    },
                ) => wx.text.content@ == num_str(position_x.value()) && wy.text.content@
                    == num_str(position_y.value()) && wr.text.content@ == num_str(rotation.value())
                    && ws.text.content@ == num_str(strength.value()) && wb.content@ == body@,
                (
                    Constraint::FixedJoint { body, position_x, position_y, rotation, strength },
                    ConstraintGuiType::Fixed {
                        position_x: wx,
                        position_y: wy,
                        rotation: wr,
                        body: wb,
                        strength: ws,
                    },
                ) => wx.text.content@ == num_str(position_x.value()) && wy.text.content@
                    == num_str(position_y.value()) && wr.text.content@ == num_str(rotation.value())
                    && ws.text.content@ == num_str(strength.value()) && wb.content@ == body@,
                _ => true,
            },
    {
        self.panel.render(input, out);
        self.panel.drag_start(input);
        self.panel.drag_end(input);
        match &mut self.constraint_type {
            ConstraintGuiType::Slider { position_x, position_y, rotation, body, strength } => {
                self.panel.display_text_input(body, input, dt, out);
                self.panel.display_number(position_x, input, dt, out);
                self.panel.display_number(position_y, input, dt, out);
                self.panel.display_number(rotation, input, dt, out);
                self.panel.display_number(strength, input, dt, out);
            },
            ConstraintGuiType::Fixed { position_x, position_y, rotation, body, strength } => {
                self.panel.display_text_input(body, input, dt, out);
                self.panel.display_number(position_x, input, dt, out);
                self.panel.display_number(position_y, input, dt, out);
                self.panel.display_number(rotation, input, dt, out);
                self.panel.display_number(strength, input, dt, out);
            },
        }
        self.panel.display_click(&mut self.editing, input, out);
        // A slide joint also draws its sliding axis through its anchor; the
        // host resolves the trigonometry.
        if let Constraint::SlideJoint { position_x, position_y, rotation, .. } = &*data {
            out.push(DrawCmd::SetColor { r: 255, g: 0, b: 0, a: 255 });
            out.push(
                DrawCmd::OrientedLine {
                    x_milli: position_x.milli(),
                    y_milli: position_y.milli(),
                    angle_milli: rotation.milli(),
                    half_len_milli: rotation.milli(),
                },
            );
        }
        if self.editing.on() {
            match (&mut *data, &mut self.constraint_type) {
                (
                    Constraint::SlideJoint { body, position_x, position_y, rotation, strength },
                    ConstraintGuiType::Slider {
                        position_x: wx,
                        position_y: wy,
                        rotation: wr,
                        body: wb,
                        strength: ws,
                    },
                ) => {
                    *body = wb.get_value();
                    *position_x = wx.get_value();
                    *position_y = wy.get_value();
                    *rotation = wr.get_value();
                    *strength = ws.get_value();
                },
                (
                    Constraint::FixedJoint { body, position_x, position_y, rotation, strength },
                    ConstraintGuiType::Fixed {
                        position_x: wx,
                        position_y: wy,
                        rotation: wr,
                        body: wb,
                        strength: ws,
                    },
                ) => {
                    *body = wb.get_value();
                    *position_x = wx.get_value();
                    *position_y = wy.get_value();
                    *rotation = wr.get_value();
                    *strength = ws.get_value();
                },
                _ => {},
            }
        } else {
            match (&*data, &mut self.constraint_type) {
                (
                    Constraint::SlideJoint { body, position_x, position_y, rotation, strength },
                    ConstraintGuiType::Slider {
                        position_x: wx,
                        position_y: wy,
                        rotation: wr,
                        body: wb,
                        strength: ws,
                    },
                ) => {
                    wb.set_value(body.clone());
                    wx.set_value(*position_x);
                    wy.set_value(*position_y);
                    wr.set_value(*rotation);
                    ws.set_value(*strength);
                },
                (
                    Constraint::FixedJoint { body, position_x, position_y, rotation, strength },
                    ConstraintGuiType::Fixed {
                        position_x: wx,
                        position_y: wy,
                        rotation: wr,
                        body: wb,
                        strength: ws,
                    },
                ) => {
                    wb.set_value(body.clone());
                    wx.set_value(*position_x);
                    wy.set_value(*position_y);
                    wr.set_value(*rotation);
                    ws.set_value(*strength);
                },
                _ => {},
            }
        }
    }
}

impl Constraint {
    /// Builds this constraint's layout: the widget set of its kind,
    /// pre-populated from its fields, on a hidden panel.
    pub fn debug_gui(&self, x: i32, y: i32, name: &str) -> (r: ConstraintDebugGui)
        requires
            self.wf(),
            -PANEL_LIMIT <= x <= PANEL_LIMIT,
            -PANEL_LIMIT <= y <= PANEL_LIMIT,
        ensures
            r.wf(),
            r.panel.hidden,
            r.panel.bounds == (Rect { x, y, w: 200, h: 0 }),
            !r.editing.state_or_held,
            r.constraint_type is Slider <==> self is SlideJoint,
            r.constraint_type is Fixed <==> self is FixedJoint,
            // The widget set is pre-populated from the constraint's fields.
            match (*self, r.constraint_type) {
                (
                    Constraint::SlideJoint { body, position_x, position_y, rotation, strength },
                    ConstraintGuiType::Slider {
                        position_x: wx,
                        position_y: wy,
                        rotation: wr,
                        body: wb,
                        strength: ws,
                    },
                ) => wx.text.content@ == num_str(position_x.value()) && wy.text.content@
                    == num_str(position_y.value()) && wr.text.content@ == num_str(rotation.value())
                    && ws.text.content@ == num_str(strength.value()) && wb.content@ == body@
                    && wx.current_value == position_x && wy.current_value == position_y
                    && wr.current_value == rotation && ws.current_value == strength,
                (
                    Constraint::FixedJoint { body, position_x, position_y, rotation, strength },
                    ConstraintGuiType::Fixed {
                        position_x: wx,
                        position_y: wy,
                        rotation: wr,
                        body: wb,
                        strength: ws,
                    },
                ) => wx.text.content@ == num_str(position_x.value()) && wy.text.content@
                    == num_str(position_y.value()) && wr.text.content@ == num_str(rotation.value())
                    && ws.text.content@ == num_str(strength.value()) && wb.content@ == body@
                    && wx.current_value == position_x && wy.current_value == position_y
                    && wr.current_value == rotation && ws.current_value == strength,
                _ => false,
            },
    {
        let constraint_type = match self {
            Constraint::SlideJoint { body, position_x, position_y, rotation, strength } =>
                ConstraintGuiType::Slider {
                strength: NumberTextInput::new(*strength, "Strength"),
                rotation: NumberTextInput::new(*rotation, "Angle"),
                body: TextInput::new(body.as_str(), "Body ID"),
                position_x: NumberTextInput::new(*position_x, "Position X"),
                position_y: NumberTextInput::new(*position_y, "Position Y"),
            },
            Constraint::FixedJoint { body, position_x, position_y, rotation, strength } =>
                ConstraintGuiType::Fixed {
                strength: NumberTextInput::new(*strength, "Strength"),
                rotation: NumberTextInput::new(*rotation, "Angle"),
                body: TextInput::new(body.as_str(), "Body ID"),
                position_x: NumberTextInput::new(*position_x, "Position X"),
                position_y: NumberTextInput::new(*position_y, "Position Y"),
            },
        };
        let mut panel_name: String = "SlideJoint Panel ".to_owned();
        vstd::string::StringExecFns::append(&mut panel_name, name);
        ConstraintDebugGui {
            constraint_type,
            panel: Panel::new(Rect::new(x, y, 200, 0), panel_name.as_str()),
            editing: ClickElement::new_toggle("Edit"),
        }
    }
}

} // verus!
