use debug_gui::{Body, BodyShape, Constraint, DrawCmd, FrameInput, Num, Rect};

fn quiet() -> FrameInput {
    FrameInput::new(-500, -500, false, false, false, false, false, String::new())
}

fn sample_body() -> Body {
    Body::new_circle(
        Num::from_milli(100_000),
        Num::from_milli(200_000),
        Num::from_milli(1000),
        Num::from_milli(30_000),
        false,
    )
}

#[test]
fn debug_gui_prepopulates_widgets_from_fields() {
    let body = sample_body();
    let gui = body.debug_gui(0, 0, "Rigidbody Panel b1");
    assert!(gui.panel.hidden);
    assert_eq!(gui.position_x.text.get_value(), "100");
    assert_eq!(gui.position_y.text.get_value(), "200");
    assert_eq!(gui.rotation.text.get_value(), "1");
    assert_eq!(gui.id_text.content, "ID: Rigidbody Panel b1");
}

#[test]
fn edit_toggle_round_trip_continuous_sync() {
    // Entity field rotation = 1.0; toggle edit on; widget text becomes
    // "2.5"; one frame later the entity holds 2.5; toggle edit off; one
    // frame later the widget displays "2.5" unchanged.
    let mut body = sample_body();
    assert_eq!(body.rotation.milli(), 1000);
    let mut gui = body.debug_gui(0, 0, "b1");
    gui.panel.hidden = false;
    let mut out: Vec<DrawCmd> = Vec::new();

    gui.editing.state_or_held = true;
    gui.rotation.text.set_value("2.5".to_string());
    gui.render_debug_gui(&mut body, &quiet(), 16, &mut out);
    assert_eq!(body.rotation.milli(), 2500);

    gui.editing.state_or_held = false;
    gui.render_debug_gui(&mut body, &quiet(), 16, &mut out);
    assert_eq!(gui.rotation.text.get_value(), "2.5");
    assert_eq!(body.rotation.milli(), 2500);
}

#[test]
fn view_mode_tracks_outside_changes() {
    let mut body = sample_body();
    let mut gui = body.debug_gui(0, 0, "b1");
    gui.panel.hidden = false;
    let mut out: Vec<DrawCmd> = Vec::new();
    // The simulation moves the body between frames; the widgets follow,
    // the velocity family included.
    body.position_x = Num::from_milli(123_456);
    body.velocity_x = Num::from_milli(7_500);
    body.gravity_scale = Num::from_milli(2_000);
    gui.render_debug_gui(&mut body, &quiet(), 16, &mut out);
    assert_eq!(gui.position_x.text.get_value(), "123.456");
    assert_eq!(gui.velocity_x.text.get_value(), "7.5");
    assert_eq!(gui.gravity_scale.text.get_value(), "2");
}

#[test]
fn edit_mode_drives_every_bound_field() {
    let mut body = sample_body();
    let mut gui = body.debug_gui(0, 0, "b1");
    gui.panel.hidden = false;
    let mut out: Vec<DrawCmd> = Vec::new();
    gui.editing.state_or_held = true;
    gui.velocity_y.text.set_value("-4.25".to_string());
    gui.inertia.text.set_value("12".to_string());
    gui.render_debug_gui(&mut body, &quiet(), 16, &mut out);
    assert_eq!(body.velocity_y.milli(), -4_250);
    assert_eq!(body.inertia.milli(), 12_000);
}

#[test]
fn delete_button_edge_is_surfaced_on_the_body() {
    let mut body = sample_body();
    let mut gui = body.debug_gui(0, 0, "b1");
    gui.panel.hidden = false;
    let mut out: Vec<DrawCmd> = Vec::new();
    gui.render_debug_gui(&mut body, &quiet(), 16, &mut out);
    assert!(!body.deleted);
}

#[test]
fn invalid_entry_zeroes_the_field_while_editing() {
    let mut body = sample_body();
    let mut gui = body.debug_gui(0, 0, "b1");
    gui.panel.hidden = false;
    let mut out: Vec<DrawCmd> = Vec::new();
    gui.editing.state_or_held = true;
    gui.mass.text.set_value("oops".to_string());
    gui.render_debug_gui(&mut body, &quiet(), 16, &mut out);
    assert_eq!(body.mass.milli(), 0);
    assert_eq!(gui.mass.text.get_value(), "");
}

#[test]
fn constraint_gui_syncs_matching_kind() {
    let mut c = Constraint::SlideJoint {
        body: "anchor".to_string(),
        position_x: Num::from_milli(500_000),
        position_y: Num::from_milli(500_000),
        rotation: Num::from_milli(0),
        strength: Num::from_milli(10),
    };
    let mut gui = c.debug_gui(0, 0, "c1");
    gui.panel.hidden = false;
    let mut out: Vec<DrawCmd> = Vec::new();
    gui.editing.state_or_held = true;
    match &mut gui.constraint_type {
        debug_gui::ConstraintGuiType::Slider { strength, .. } => {
            strength.text.set_value("0.25".to_string());
        }
        _ => panic!("expected a slider widget set"),
    }
    gui.render_debug_gui(&mut c, &quiet(), 16, &mut out);
    match &c {
        Constraint::SlideJoint { strength, .. } => assert_eq!(strength.milli(), 250),
        _ => panic!("the constraint kind must not change"),
    }
}

#[test]
fn body_hit_region_follows_shape() {
    let body = sample_body();
    // Center (100, 200), radius 30.
    assert!(body.within(100, 200));
    assert!(body.within(129, 229));
    assert!(!body.within(131, 200));
    match body.shape {
        BodyShape::Circle { radius } => assert_eq!(radius.milli(), 30_000),
        _ => panic!("expected a circle"),
    }
}

#[test]
fn hidden_layout_still_applies_sync_policy() {
    // The widgets freeze while the panel is hidden, but the view-mode copy
    // still tracks the entity.
    let mut body = sample_body();
    let mut gui = body.debug_gui(0, 0, "b1");
    assert!(gui.panel.hidden);
    let mut out: Vec<DrawCmd> = Vec::new();
    body.rotation = Num::from_milli(9000);
    gui.render_debug_gui(&mut body, &quiet(), 16, &mut out);
    assert_eq!(gui.rotation.text.get_value(), "9");
    assert!(out.is_empty());
}
