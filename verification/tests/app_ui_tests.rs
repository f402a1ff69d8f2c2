use debug_gui::{AppUI, Body, BodyShape, Constraint, DrawCmd, FrameInput, Num, TimerUtil, World};

fn quiet() -> FrameInput {
    FrameInput::new(-500, -500, false, false, false, false, false, String::new())
}

fn body_at(x: i64, y: i64) -> Body {
    Body::new_circle(
        Num::from_milli(x * 1000),
        Num::from_milli(y * 1000),
        Num::from_milli(0),
        Num::from_milli(30_000),
        false,
    )
}

fn registry_ids(ui: &AppUI) -> Vec<String> {
    ui.rigidbody_panels.iter().map(|e| e.id.clone()).collect()
}

#[test]
fn registry_matches_model_after_one_frame() {
    // For any sequence of insertions and removals, one frame reconciles the
    // registry's key set to the model's key set exactly.
    let mut ui = AppUI::new();
    let mut world = World::new();
    let mut out: Vec<DrawCmd> = Vec::new();

    world.add_body("a", body_at(10, 10));
    world.add_body("b", body_at(90, 90));
    ui.render(&mut world, &quiet(), 16, &mut out);
    assert_eq!(registry_ids(&ui), vec!["a".to_string(), "b".to_string()]);

    world.remove_body("a");
    world.add_body("c", body_at(50, 50));
    ui.render(&mut world, &quiet(), 16, &mut out);
    assert_eq!(registry_ids(&ui), vec!["b".to_string(), "c".to_string()]);

    world.remove_body("b");
    world.remove_body("c");
    ui.render(&mut world, &quiet(), 16, &mut out);
    assert!(ui.rigidbody_panels.is_empty());
}

#[test]
fn registry_keeps_existing_layout_state() {
    let mut ui = AppUI::new();
    let mut world = World::new();
    let mut out: Vec<DrawCmd> = Vec::new();
    world.add_body("a", body_at(10, 10));
    ui.render(&mut world, &quiet(), 16, &mut out);
    // Reveal the panel; the next frame must not reset it.
    ui.rigidbody_panels[0].gui.panel.hidden = false;
    ui.render(&mut world, &quiet(), 16, &mut out);
    assert!(!ui.rigidbody_panels[0].gui.panel.hidden);
}

#[test]
fn place_a_circle_on_empty_space() {
    // Given an empty model, a click at (400, 300) with the "Circle" option
    // active and no panel under the pointer adds exactly one circle there,
    // and the identifier field is regenerated afterwards.
    let mut ui = AppUI::new();
    let mut world = World::new();
    let mut out: Vec<DrawCmd> = Vec::new();
    ui.place_body_options.on_toggle = Some("Circle".to_string());
    ui.bodies_id.set_value("ball".to_string());
    let click = FrameInput::new(400, 300, true, true, false, false, false, String::new());
    ui.render(&mut world, &click, 16, &mut out);
    assert_eq!(world.bodies.len(), 1);
    let entry = &world.bodies[0];
    assert_eq!(entry.id, "ball");
    assert_eq!(entry.body.position_x.milli(), 400_000);
    assert_eq!(entry.body.position_y.milli(), 300_000);
    assert!(matches!(entry.body.shape, BodyShape::Circle { .. }));
    assert!(!entry.body.is_static);
    // The identifier field no longer holds the used id.
    assert_ne!(ui.bodies_id.get_value(), "ball");
    assert!(!ui.bodies_id.get_value().is_empty());
}

#[test]
fn colliding_id_gets_copy_suffix() {
    let mut ui = AppUI::new();
    let mut world = World::new();
    let mut out: Vec<DrawCmd> = Vec::new();
    world.add_body("ball", body_at(10, 10));
    ui.place_body_options.on_toggle = Some("Square".to_string());
    ui.bodies_id.set_value("ball".to_string());
    let click = FrameInput::new(400, 300, true, true, false, false, false, String::new());
    ui.render(&mut world, &click, 16, &mut out);
    assert_eq!(world.bodies.len(), 2);
    assert_eq!(world.bodies[1].id, "ball Copy");
    assert!(matches!(world.bodies[1].body.shape, BodyShape::Square { .. }));
}

#[test]
fn no_selection_places_nothing() {
    let mut ui = AppUI::new();
    let mut world = World::new();
    let mut out: Vec<DrawCmd> = Vec::new();
    let click = FrameInput::new(400, 300, true, true, false, false, false, String::new());
    ui.render(&mut world, &click, 16, &mut out);
    assert!(world.bodies.is_empty());
}

#[test]
fn click_on_panel_chrome_places_nothing() {
    let mut ui = AppUI::new();
    let mut world = World::new();
    let mut out: Vec<DrawCmd> = Vec::new();
    ui.place_body_options.on_toggle = Some("Circle".to_string());
    ui.main_panel.hidden = false;
    // (60, 60) lies inside the main panel's bounds (50, 50, 200, ...).
    ui.main_panel.bounds = debug_gui::Rect::new(50, 50, 200, 100);
    let click = FrameInput::new(60, 60, true, true, false, false, false, String::new());
    ui.render(&mut world, &click, 16, &mut out);
    assert!(world.bodies.is_empty());
}

#[test]
fn static_flag_mirrors_the_toggle() {
    let mut ui = AppUI::new();
    let mut world = World::new();
    let mut out: Vec<DrawCmd> = Vec::new();
    ui.static_body.state_or_held = true;
    ui.render(&mut world, &quiet(), 16, &mut out);
    assert!(ui.static_flag);
}

#[test]
fn panel_key_toggles_the_main_panel() {
    let mut ui = AppUI::new();
    let mut world = World::new();
    let mut out: Vec<DrawCmd> = Vec::new();
    assert!(ui.main_panel.hidden);
    let key = FrameInput::new(-500, -500, false, false, false, false, true, String::new());
    ui.render(&mut world, &key, 16, &mut out);
    assert!(!ui.main_panel.hidden);
    ui.render(&mut world, &key, 16, &mut out);
    assert!(ui.main_panel.hidden);
}

#[test]
fn add_constraint_click_adds_a_slide_joint() {
    let mut ui = AppUI::new();
    let mut world = World::new();
    let mut out: Vec<DrawCmd> = Vec::new();
    ui.constraints_panel_toggle.state_or_held = true;
    ui.add_constraint_type.on_toggle = Some("Slide".to_string());
    ui.add_constraint_type.toggles[3].state_or_held = true;
    // The constraints panel sits at (460, 50); after the kind group
    // (4 rows of 40 starting at cursor 10) the add button's row spans
    // y in (220, 250), x in (470, 650).
    let click = FrameInput::new(500, 230, true, true, false, false, false, String::new());
    ui.render(&mut world, &click, 16, &mut out);
    assert_eq!(world.constraints.len(), 1);
    match &world.constraints[0].constraint {
        Constraint::SlideJoint { position_x, position_y, strength, .. } => {
            assert_eq!(position_x.milli(), 500_000);
            assert_eq!(position_y.milli(), 500_000);
            assert_eq!(strength.milli(), 10);
        }
        _ => panic!("expected a slide joint"),
    }
    // One frame later the registry has a panel for it.
    ui.render(&mut world, &quiet(), 16, &mut out);
    assert_eq!(ui.constraint_guis.len(), 1);
    assert_eq!(ui.constraint_guis[0].id, world.constraints[0].id);
}

#[test]
fn stale_add_click_on_hidden_panel_adds_nothing() {
    // A click edge left over from the panel's last visible frame is inert
    // while the panel is hidden: no interaction surface, no action.
    let mut ui = AppUI::new();
    let mut world = World::new();
    let mut out: Vec<DrawCmd> = Vec::new();
    ui.add_constraint.just_clicked = true;
    ui.add_constraint_type.on_toggle = Some("Slide".to_string());
    ui.add_constraint_type.toggles[3].state_or_held = true;
    assert!(!ui.constraints_panel_toggle.on());
    ui.render(&mut world, &quiet(), 16, &mut out);
    assert!(world.constraints.is_empty());
}

#[test]
fn timers_measure_intervals() {
    let mut t = TimerUtil::new();
    t.start("ui", 100);
    t.start("physics", 150);
    assert_eq!(t.stop("ui", 250), 150);
    assert_eq!(t.stop("physics", 250), 100);
}
