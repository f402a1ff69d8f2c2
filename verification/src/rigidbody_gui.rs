//! The generated per-body editing panel.
//!
//! `Body::debug_gui` builds a panel of widgets pre-populated from a body's
//! fields; `RigidBodyDebugGui::render_debug_gui` runs it each frame and
//! applies the sync policy: while the edit toggle is on, every frame copies
//! widget values into the body (continuous live edit); while it is off,
//! every frame copies the body's fields back into the widget buffers, so the
//! display tracks outside changes.  The continuous variant is used
//! uniformly: the entity updates as the user types, at the cost of a partial
//! numeral briefly zeroing the field.

use vstd::prelude::*;
use vstd::string::StringExecFns;
use crate::button::ClickElement;
use crate::draw::DrawCmd;
use crate::geom::Rect;
use crate::input::FrameInput;
use crate::model::Body;
use crate::num::num_str;
use crate::number_text::{number_value_steps, NumberTextInput};
use crate::panel::{Panel, PANEL_LIMIT};
use crate::text::Text;
use crate::text_input::DT_LIMIT;
use crate::toggle::ToggleGroup;

verus! {

/// A body's generated layout: its panel, one bound widget per editable
/// field, the edit toggle, and the hide/delete buttons.
pub struct RigidBodyDebugGui {
    pub panel: Panel,
    pub id_text: Text,
    pub position_x: NumberTextInput,
    pub position_y: NumberTextInput,
    pub velocity_x: NumberTextInput,
    pub velocity_y: NumberTextInput,
    pub angular_velocity: NumberTextInput,
    pub rotation: NumberTextInput,
    pub body_type: ToggleGroup,
    pub mass: NumberTextInput,
    pub inertia: NumberTextInput,
    pub scale_x: NumberTextInput,
    pub scale_y: NumberTextInput,
    pub gravity_scale: NumberTextInput,
    pub editing: ClickElement,
    pub hide: ClickElement,
    pub delete: ClickElement,
}

impl RigidBodyDebugGui {
    pub open spec fn wf(self) -> bool {
        &&& self.panel.wf()
        &&& self.id_text.wf()
        &&& self.position_x.wf() && self.position_y.wf()
        &&& self.velocity_x.wf() && self.velocity_y.wf()
        &&& self.angular_velocity.wf() && self.rotation.wf()
        &&& self.body_type.wf()
        &&& self.body_type.toggles@.len() == 2
        &&& self.mass.wf() && self.inertia.wf()
        &&& self.scale_x.wf() && self.scale_y.wf()
        &&& self.gravity_scale.wf()
        &&& self.editing.is_toggle()
        &&& self.id_text.size == 2
    }

    /// The owned panel, for the registry's show/hide affordance.
    pub fn get_panel(&mut self) -> (r: &mut Panel)
        ensures
            *r == old(self).panel,
            *final(self) == (RigidBodyDebugGui { panel: *final(r), ..*old(self) }),
    {
        &mut self.panel
    }

    /// One frame: lay the widgets out on the panel, then apply the sync
    /// policy between widgets and body, honor the hide button, and surface
    /// the delete edge on the body.  Edges are consumed only on frames the
    /// panel was visible: a hidden panel exposes no interaction surface, so
    /// a click edge left over from its last visible frame acts on nothing.
    #[verifier::rlimit(100)]
    pub fn render_debug_gui(
        &mut self,
        body: &mut Body,
        input: &FrameInput,
        dt: u64,
        out: &mut Vec<DrawCmd>,
    )
        requires
            old(self).wf(),
            old(body).wf(),
            input.wf(),
            dt <= DT_LIMIT,
        ensures
            final(self).wf(),
            final(body).wf(),
            // Edit mode: the widgets drive every bound field of the body;
            // only shape and the static flag keep their values.
            final(self).editing.state_or_held ==> *final(body) == (Body {
                position_x: final(self).position_x.current_value,
                position_y: final(self).position_y.current_value,
                rotation: final(self).rotation.current_value,
                scale_x: final(self).scale_x.current_value,
                scale_y: final(self).scale_y.current_value,
                mass: final(self).mass.current_value,
                velocity_x: final(self).velocity_x.current_value,
                velocity_y: final(self).velocity_y.current_value,
                ang_velocity: final(self).angular_velocity.current_value,
                inertia: final(self).inertia.current_value,
                gravity_scale: final(self).gravity_scale.current_value,
                deleted: final(body).deleted,
                ..*old(body)
            }),
            // While editing on a visible panel, each widget's buffer and
            // cache move exactly by the frame's typing and re-parse; the
            // sync never writes back into the widgets.
            !old(self).panel.hidden && final(self).editing.state_or_held ==> {
                &&& number_value_steps(old(self).position_x, final(self).position_x, *input)
                &&& number_value_steps(old(self).position_y, final(self).position_y, *input)
                &&& number_value_steps(old(self).rotation, final(self).rotation, *input)
                &&& number_value_steps(old(self).scale_x, final(self).scale_x, *input)
                &&& number_value_steps(old(self).scale_y, final(self).scale_y, *input)
                &&& number_value_steps(old(self).mass, final(self).mass, *input)
                &&& number_value_steps(old(self).velocity_x, final(self).velocity_x, *input)
                &&& number_value_steps(old(self).velocity_y, final(self).velocity_y, *input)
                &&& number_value_steps(
                    old(self).angular_velocity,
                    final(self).angular_velocity,
                    *input,
                )
                &&& number_value_steps(old(self).inertia, final(self).inertia, *input)
                &&& number_value_steps(old(self).gravity_scale, final(self).gravity_scale, *input)
            },
            // View mode: the body's fields drive every bound widget buffer,
            // and the body itself is untouched but for the delete edge.
            !final(self).editing.state_or_held ==> {
                &&& *final(body) == (Body { deleted: final(body).deleted, ..*old(body) })
                &&& final(self).position_x.text.content@ == num_str(old(body).position_x.value())
                &&& final(self).position_y.text.content@ == num_str(old(body).position_y.value())
                &&& final(self).rotation.text.content@ == num_str(old(body).rotation.value())
                &&& final(self).scale_x.text.content@ == num_str(old(body).scale_x.value())
                &&& final(self).scale_y.text.content@ == num_str(old(body).scale_y.value())
                &&& final(self).mass.text.content@ == num_str(old(body).mass.value())
                &&& final(self).velocity_x.text.content@ == num_str(old(body).velocity_x.value())
                &&& final(self).velocity_y.text.content@ == num_str(old(body).velocity_y.value())
                &&& final(self).angular_velocity.text.content@ == num_str(
                    old(body).ang_velocity.value(),
                )
                &&& final(self).inertia.text.content@ == num_str(old(body).inertia.value())
                &&& final(self).gravity_scale.text.content@ == num_str(
                    old(body).gravity_scale.value(),
                )
            },
            // The delete edge reaches the body only from a visible panel.
            final(body).deleted == (!old(self).panel.hidden && final(self).delete.just_clicked),
            // The hide button is the only thing that hides the panel, and a
            // hidden panel's widgets hold still.
            final(self).panel.hidden == (old(self).panel.hidden || (!old(self).panel.hidden
                && final(self).hide.just_clicked)),
            old(self).panel.hidden ==> final(self).editing == old(self).editing
                && final(self).hide == old(self).hide && final(self).delete == old(self).delete,
            // Without a press edge, the edit toggle and the button edges
            // cannot move.
            !input.left_pressed ==> final(self).editing.state_or_held
                == old(self).editing.state_or_held && !final(body).deleted,
    {
        let was_visible = !self.panel.hidden;
        self.layout_widgets(input, dt, out);
        if self.editing.on() {
            body.position_x = self.position_x.get_value();
            body.position_y = self.position_y.get_value();
            body.scale_x = self.scale_x.get_value();
            body.scale_y = self.scale_y.get_value();
            body.mass = self.mass.get_value();
            body.rotation = self.rotation.get_value();
            body.velocity_x = self.velocity_x.get_value();
            body.velocity_y = self.velocity_y.get_value();
            body.ang_velocity = self.angular_velocity.get_value();
            body.inertia = self.inertia.get_value();
            body.gravity_scale = self.gravity_scale.get_value();
        } else {
            self.position_x.set_value(body.position_x);
            self.position_y.set_value(body.position_y);
            self.scale_x.set_value(body.scale_x);
            self.scale_y.set_value(body.scale_y);
            self.mass.set_value(body.mass);
            self.rotation.set_value(body.rotation);
            self.velocity_x.set_value(body.velocity_x);
            self.velocity_y.set_value(body.velocity_y);
            self.angular_velocity.set_value(body.ang_velocity);
            self.inertia.set_value(body.inertia);
            self.gravity_scale.set_value(body.gravity_scale);
        }
        if was_visible && self.hide.just_clicked() {
            self.panel.hidden = true;
        }
        body.deleted = was_visible && self.delete.just_clicked();
    }

    /// The layout pass alone: background, drag, and every widget's update
    /// and drawing, in declared order.  On a hidden panel nothing but a
    /// pending drag release moves.
    fn layout_widgets(&mut self, input: &FrameInput, dt: u64, out: &mut Vec<DrawCmd>)
        requires
            old(self).wf(),
            input.wf(),
            dt <= DT_LIMIT,
        ensures
            final(self).wf(),
            final(self).panel.hidden == old(self).panel.hidden,
            // A hidden panel freezes every widget.
            old(self).panel.hidden ==> *final(self) == (RigidBodyDebugGui {
                panel: final(self).panel,
                ..*old(self)
            }),
            !old(self).panel.hidden ==> {
                &&& number_value_steps(old(self).position_x, final(self).position_x, *input)
                &&& number_value_steps(old(self).position_y, final(self).position_y, *input)
                &&& number_value_steps(old(self).rotation, final(self).rotation, *input)
                &&& number_value_steps(old(self).scale_x, final(self).scale_x, *input)
                &&& number_value_steps(old(self).scale_y, final(self).scale_y, *input)
                &&& number_value_steps(old(self).mass, final(self).mass, *input)
                &&& number_value_steps(old(self).velocity_x, final(self).velocity_x, *input)
                &&& number_value_steps(old(self).velocity_y, final(self).velocity_y, *input)
                &&& number_value_steps(
                    old(self).angular_velocity,
                    final(self).angular_velocity,
                    *input,
                )
                &&& number_value_steps(old(self).inertia, final(self).inertia, *input)
                &&& number_value_steps(old(self).gravity_scale, final(self).gravity_scale, *input)
            },
            // Button edges need a press edge, and the edit toggle holds
            // still without one.
            !input.left_pressed && !old(self).panel.hidden ==> final(self).editing.state_or_held
                == old(self).editing.state_or_held && !final(self).hide.just_clicked
                && !final(self).delete.just_clicked,
    {
        self.layout_upper(input, dt, out);
        self.layout_lower(input, dt, out);
    }

    /// The upper rows: identifier text, position, rotation, scale, and the
    /// velocity family.
    fn layout_upper(&mut self, input: &FrameInput, dt: u64, out: &mut Vec<DrawCmd>)
        requires
            old(self).wf(),
            input.wf(),
            dt <= DT_LIMIT,
        ensures
            final(self).wf(),
            final(self).panel.hidden == old(self).panel.hidden,
            *final(self) == (RigidBodyDebugGui {
                panel: final(self).panel,
                position_x: final(self).position_x,
                position_y: final(self).position_y,
                rotation: final(self).rotation,
                scale_x: final(self).scale_x,
                scale_y: final(self).scale_y,
                velocity_x: final(self).velocity_x,
                velocity_y: final(self).velocity_y,
                angular_velocity: final(self).angular_velocity,
                ..*old(self)
            }),
            old(self).panel.hidden ==> *final(self) == (RigidBodyDebugGui {
                panel: final(self).panel,
                ..*old(self)
            }),
            !old(self).panel.hidden ==> {
                &&& final(self).panel_cursor_after_upper()
                &&& number_value_steps(old(self).position_x, final(self).position_x, *input)
                &&& number_value_steps(old(self).position_y, final(self).position_y, *input)
                &&& number_value_steps(old(self).rotation, final(self).rotation, *input)
                &&& number_value_steps(old(self).scale_x, final(self).scale_x, *input)
                &&& number_value_steps(old(self).scale_y, final(self).scale_y, *input)
                &&& number_value_steps(old(self).velocity_x, final(self).velocity_x, *input)
                &&& number_value_steps(old(self).velocity_y, final(self).velocity_y, *input)
                &&& number_value_steps(
                    old(self).angular_velocity,
                    final(self).angular_velocity,
                    *input,
                )
            },
    {
        self.layout_head(input, dt, out);
        self.layout_motion(input, dt, out);
    }

    /// Background, drag, identifier text, position, and rotation.
    fn layout_head(&mut self, input: &FrameInput, dt: u64, out: &mut Vec<DrawCmd>)
        requires
            old(self).wf(),
            input.wf(),
            dt <= DT_LIMIT,
        ensures
            final(self).wf(),
            final(self).panel.hidden == old(self).panel.hidden,
            *final(self) == (RigidBodyDebugGui {
                panel: final(self).panel,
                position_x: final(self).position_x,
                position_y: final(self).position_y,
                rotation: final(self).rotation,
                ..*old(self)
            }),
            old(self).panel.hidden ==> *final(self) == (RigidBodyDebugGui {
                panel: final(self).panel,
                ..*old(self)
            }),
            !old(self).panel.hidden ==> {
                &&& final(self).panel.y_offset == 148
                &&& number_value_steps(old(self).position_x, final(self).position_x, *input)
                &&& number_value_steps(old(self).position_y, final(self).position_y, *input)
                &&& number_value_steps(old(self).rotation, final(self).rotation, *input)
            },
    {
        self.panel.render(input, out);
        self.panel.drag_start(input);
        self.panel.drag_end(input);
        self.panel.display_text(&self.id_text, input, out);
        self.panel.display_number(&mut self.position_x, input, dt, out);
        self.panel.display_number(&mut self.position_y, input, dt, out);
        self.panel.display_number(&mut self.rotation, input, dt, out);
    }

    /// Scale and the velocity family.
    fn layout_motion(&mut self, input: &FrameInput, dt: u64, out: &mut Vec<DrawCmd>)
        requires
            old(self).wf(),
            input.wf(),
            dt <= DT_LIMIT,
            !old(self).panel.hidden ==> old(self).panel.y_offset == 148,
        ensures
            final(self).wf(),
            final(self).panel.hidden == old(self).panel.hidden,
            *final(self) == (RigidBodyDebugGui {
                panel: final(self).panel,
                scale_x: final(self).scale_x,
                scale_y: final(self).scale_y,
                velocity_x: final(self).velocity_x,
                velocity_y: final(self).velocity_y,
                angular_velocity: final(self).angular_velocity,
                ..*old(self)
            }),
            old(self).panel.hidden ==> *final(self) == (RigidBodyDebugGui {
                panel: final(self).panel,
                ..*old(self)
            }),
            !old(self).panel.hidden ==> {
                &&& final(self).panel_cursor_after_upper()
                &&& number_value_steps(old(self).scale_x, final(self).scale_x, *input)
                &&& number_value_steps(old(self).scale_y, final(self).scale_y, *input)
                &&& number_value_steps(old(self).velocity_x, final(self).velocity_x, *input)
                &&& number_value_steps(old(self).velocity_y, final(self).velocity_y, *input)
                &&& number_value_steps(
                    old(self).angular_velocity,
                    final(self).angular_velocity,
                    *input,
                )
            },
    {
        self.panel.display_number(&mut self.scale_x, input, dt, out);
        self.panel.display_number(&mut self.scale_y, input, dt, out);
        self.panel.display_number(&mut self.velocity_x, input, dt, out);
        self.panel.display_number(&mut self.velocity_y, input, dt, out);
        self.panel.display_number(&mut self.angular_velocity, input, dt, out);
    }

    /// Where the layout cursor stands after the upper rows of a visible
    /// panel.
    pub open spec fn panel_cursor_after_upper(self) -> bool {
        self.panel.y_offset == 338
    }

    /// The lower rows: the body-type group, the mass family, and the edit,
    /// hide, and delete buttons.
    fn layout_lower(&mut self, input: &FrameInput, dt: u64, out: &mut Vec<DrawCmd>)
        requires
            old(self).wf(),
            input.wf(),
            dt <= DT_LIMIT,
            !old(self).panel.hidden ==> old(self).panel_cursor_after_upper(),
        ensures
            final(self).wf(),
            final(self).panel.hidden == old(self).panel.hidden,
            *final(self) == (RigidBodyDebugGui {
                panel: final(self).panel,
                body_type: final(self).body_type,
                mass: final(self).mass,
                inertia: final(self).inertia,
                gravity_scale: final(self).gravity_scale,
                editing: final(self).editing,
                hide: final(self).hide,
                delete: final(self).delete,
                ..*old(self)
            }),
            old(self).panel.hidden ==> *final(self) == (RigidBodyDebugGui {
                panel: final(self).panel,
                ..*old(self)
            }),
            !old(self).panel.hidden ==> {
                &&& number_value_steps(old(self).mass, final(self).mass, *input)
                &&& number_value_steps(old(self).inertia, final(self).inertia, *input)
                &&& number_value_steps(old(self).gravity_scale, final(self).gravity_scale, *input)
            },
            !input.left_pressed && !old(self).panel.hidden ==> final(self).editing.state_or_held
                == old(self).editing.state_or_held && !final(self).hide.just_clicked
                && !final(self).delete.just_clicked,
    {
        self.panel.display_group(&mut self.body_type, input, out);
        self.panel.display_number(&mut self.mass, input, dt, out);
        self.panel.display_number(&mut self.inertia, input, dt, out);
        self.panel.display_number(&mut self.gravity_scale, input, dt, out);
        self.panel.display_click(&mut self.editing, input, out);
        self.panel.display_click(&mut self.hide, input, out);
        self.panel.display_click(&mut self.delete, input, out);
    }
}

impl Body {
    /// Builds this body's layout at the given position: every bound widget
    /// pre-populated from the body's current fields, the panel hidden until
    /// revealed.
    pub fn debug_gui(&self, x: i32, y: i32, name: &str) -> (r: RigidBodyDebugGui)
        requires
            self.wf(),
            -PANEL_LIMIT <= x <= PANEL_LIMIT,
            -PANEL_LIMIT <= y <= PANEL_LIMIT,
        ensures
            r.wf(),
            r.panel.hidden,
            r.panel.bounds == (Rect { x, y, w: 200, h: 0 }),
            r.panel.name@ == name@,
            r.position_x.current_value == self.position_x,
            r.position_y.current_value == self.position_y,
            r.rotation.current_value == self.rotation,
            r.scale_x.current_value == self.scale_x,
            r.scale_y.current_value == self.scale_y,
            r.mass.current_value == self.mass,
            r.inertia.current_value == self.inertia,
            r.velocity_x.current_value == self.velocity_x,
            r.velocity_y.current_value == self.velocity_y,
            r.angular_velocity.current_value == self.ang_velocity,
            r.gravity_scale.current_value == self.gravity_scale,
            r.position_x.text.content@ == num_str(self.position_x.value()),
            r.position_y.text.content@ == num_str(self.position_y.value()),
            r.rotation.text.content@ == num_str(self.rotation.value()),
            !r.editing.state_or_held,
            r.id_text.content@ == "ID: "@ + name@,
    {
        let mut id_label: String = "ID: ".to_owned();
        id_label.append(name);
        RigidBodyDebugGui {
            panel: Panel::new(Rect::new(x, y, 200, 0), name),
            id_text: Text::new(2, id_label.as_str()),
            position_x: NumberTextInput::new(self.position_x, "X Position"),
            position_y: NumberTextInput::new(self.position_y, "Y Position"),
            velocity_x: NumberTextInput::new(self.velocity_x, "X Velocity"),
            velocity_y: NumberTextInput::new(self.velocity_y, "Y Velocity"),
            angular_velocity: NumberTextInput::new(self.ang_velocity, "Angular Velocity"),
            rotation: NumberTextInput::new(self.rotation, "Rotation"),
            body_type: ToggleGroup::new(
                vec![ClickElement::new_toggle("Static"), ClickElement::new_toggle("Dynamic")],
            ),
            mass: NumberTextInput::new(self.mass, "Mass"),
            inertia: NumberTextInput::new(self.inertia, "Inertia"),
            scale_x: NumberTextInput::new(self.scale_x, "Scale X"),
            scale_y: NumberTextInput::new(self.scale_y, "Scale Y"),
            gravity_scale: NumberTextInput::new(self.gravity_scale, "Gravity Scale"),
            editing: ClickElement::new_toggle("Editing"),
            hide: ClickElement::new_button("Hide"),
            delete: ClickElement::new_button("Delete"),
        }
    }
}

} // verus!
