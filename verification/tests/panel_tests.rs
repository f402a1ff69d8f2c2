use debug_gui::{mouse_over_panel, ClickElement, DrawCmd, FrameInput, Panel, Rect, ToggleGroup};

fn input(mx: i32, my: i32, pressed: bool, held: bool, released: bool) -> FrameInput {
    FrameInput::new(mx, my, pressed, held, released, false, false, String::new())
}

#[test]
fn drag_commits_exactly_the_pointer_delta() {
    // Panel bounds (50,50,200,100); press at (60,60), move to (110,160),
    // release: committed bounds are (100,150,200,100).
    let mut p = Panel::new(Rect::new(50, 50, 200, 100), "panel");
    p.hidden = false;
    let mut out: Vec<DrawCmd> = Vec::new();

    // Frame 1: press starts the drag; a widget in the first row sees no
    // click from the gesture.
    let f1 = input(60, 60, true, true, false);
    p.render(&f1, &mut out);
    p.drag_start(&f1);
    p.drag_end(&f1);
    let mut button = ClickElement::new_button("Grab");
    p.display_click(&mut button, &f1, &mut out);
    assert!(!button.just_clicked());
    assert!(p.drag_origin.is_some());

    // Frame 2: pointer moves while dragging; bounds are not yet committed.
    let f2 = input(110, 160, false, true, false);
    p.render(&f2, &mut out);
    p.drag_start(&f2);
    p.drag_end(&f2);
    assert_eq!((p.bounds.x, p.bounds.y), (50, 50));

    // Frame 3: release commits the delta.
    let f3 = input(110, 160, false, false, true);
    p.render(&f3, &mut out);
    p.drag_start(&f3);
    p.drag_end(&f3);
    assert_eq!((p.bounds.x, p.bounds.y, p.bounds.w, p.bounds.h), (100, 150, 200, 100));
    assert!(p.drag_origin.is_none());
}

#[test]
fn dragged_background_renders_at_offset() {
    let mut p = Panel::new(Rect::new(50, 50, 200, 100), "panel");
    p.hidden = false;
    p.drag_origin = Some((60, 60));
    let mut out: Vec<DrawCmd> = Vec::new();
    let f = input(110, 160, false, true, false);
    p.render(&f, &mut out);
    // The background fill is shifted by the live pointer delta (+50,+100).
    assert!(matches!(
        out[1],
        DrawCmd::FillRect { x: 100, y: 150, w: 200, h: 100 }
    ));
}

#[test]
fn hidden_panel_is_inert() {
    let mut p = Panel::new(Rect::new(50, 50, 200, 100), "panel");
    assert!(p.hidden);
    let mut out: Vec<DrawCmd> = Vec::new();
    let f = input(60, 60, true, true, false);
    p.render(&f, &mut out);
    p.drag_start(&f);
    assert!(out.is_empty());
    assert!(p.drag_origin.is_none());
    let mut t = ClickElement::new_toggle("T");
    p.display_click(&mut t, &f, &mut out);
    assert!(!t.on());
    assert!(out.is_empty());
}

#[test]
fn layout_advances_and_grows_height() {
    let mut p = Panel::new(Rect::new(0, 0, 200, 0), "panel");
    p.hidden = false;
    let mut out: Vec<DrawCmd> = Vec::new();
    let f = input(-100, -100, false, false, false);
    p.render(&f, &mut out);
    assert_eq!(p.y_offset, 10);
    let mut a = ClickElement::new_button("A");
    let mut b = ClickElement::new_button("B");
    p.display_click(&mut a, &f, &mut out);
    assert_eq!(p.y_offset, 50);
    p.display_click(&mut b, &f, &mut out);
    assert_eq!(p.y_offset, 90);
    assert_eq!(p.bounds.h, 90);
}

#[test]
fn group_keeps_at_most_one_member_on() {
    let mut p = Panel::new(Rect::new(0, 0, 200, 0), "panel");
    p.hidden = false;
    let mut g = ToggleGroup::new(vec![
        ClickElement::new_toggle("Look"),
        ClickElement::new_toggle("Distance"),
        ClickElement::new_toggle("Fixed"),
    ]);
    let mut out: Vec<DrawCmd> = Vec::new();
    // Member rows start at y=10, then 50, then 90 (height 30 each).
    let frames = [
        input(50, 20, true, true, false),   // click member 0
        input(50, 60, true, true, false),   // click member 1
        input(50, 100, true, true, false),  // click member 2
        input(50, 60, true, true, false),   // click member 1 again (off)
        input(400, 400, true, true, false), // click nowhere
    ];
    for f in frames.iter() {
        p.render(f, &mut out);
        p.display_group(&mut g, f, &mut out);
        let on_count = g.toggles.iter().filter(|t| t.on()).count();
        assert!(on_count <= 1);
    }
}

#[test]
fn group_tie_break_prefers_earliest_member() {
    // Click member 0, then member 1: member 1 wins and member 0 is forced
    // off; the active label follows the click.
    let mut p = Panel::new(Rect::new(0, 0, 200, 0), "panel");
    p.hidden = false;
    let mut g = ToggleGroup::new(vec![
        ClickElement::new_toggle("Square"),
        ClickElement::new_toggle("Circle"),
    ]);
    let mut out: Vec<DrawCmd> = Vec::new();
    let f0 = input(50, 20, true, true, false);
    p.render(&f0, &mut out);
    p.display_group(&mut g, &f0, &mut out);
    assert_eq!(g.active_toggle().as_deref(), Some("Square"));
    let f1 = input(50, 60, true, true, false);
    p.render(&f1, &mut out);
    p.display_group(&mut g, &f1, &mut out);
    assert_eq!(g.active_toggle().as_deref(), Some("Circle"));
    assert!(!g.toggles[0].on());
    assert!(g.toggles[1].on());
}

#[test]
fn mouse_over_finds_first_visible_panel() {
    let mut a = Panel::new(Rect::new(0, 0, 100, 100), "a");
    let mut b = Panel::new(Rect::new(50, 50, 100, 100), "b");
    a.hidden = false;
    b.hidden = false;
    let r = mouse_over_panel(vec![&a, &b], 60, 60);
    assert_eq!(r.as_deref(), Some("a"));
    // A hidden panel occupies no interaction surface.
    a.hidden = true;
    let r2 = mouse_over_panel(vec![&a, &b], 60, 60);
    assert_eq!(r2.as_deref(), Some("b"));
    let r3 = mouse_over_panel(vec![&a, &b], 10, 10);
    assert!(r3.is_none());
}
