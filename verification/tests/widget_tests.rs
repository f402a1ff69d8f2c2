use debug_gui::{ClickElement, FrameInput, Num, NumberTextInput, Rect, TextInput, ToggleGroup};
use debug_gui::text_input::blink_gray;

fn quiet(mx: i32, my: i32) -> FrameInput {
    FrameInput::new(mx, my, false, false, false, false, false, String::new())
}

fn press(mx: i32, my: i32) -> FrameInput {
    FrameInput::new(mx, my, true, true, false, false, false, String::new())
}

fn held(mx: i32, my: i32) -> FrameInput {
    FrameInput::new(mx, my, false, true, false, false, false, String::new())
}

fn row() -> Rect {
    Rect::new(0, 0, 100, 30)
}

#[test]
fn button_level_tracks_this_frame_only() {
    let mut b = ClickElement::new_button("Grab");
    // Held while hovering: level on.
    b.update(&held(50, 15), row());
    assert!(b.held());
    // Pointer leaves while still held: level drops immediately.
    b.update(&held(500, 15), row());
    assert!(!b.held());
    // Held again while hovering, then released: level drops.
    b.update(&held(50, 15), row());
    assert!(b.held());
    b.update(&quiet(50, 15), row());
    assert!(!b.held());
}

#[test]
fn button_level_is_not_sticky_across_histories() {
    // Two buttons with different histories agree after the same frame.
    let mut a = ClickElement::new_button("A");
    let mut b = ClickElement::new_button("B");
    a.update(&held(50, 15), row());
    assert_ne!(a.held(), b.held());
    a.update(&quiet(500, 500), row());
    b.update(&quiet(500, 500), row());
    assert_eq!(a.held(), b.held());
}

#[test]
fn toggle_flips_once_per_qualifying_press() {
    let mut t = ClickElement::new_toggle("Static");
    assert!(!t.on());
    t.update(&press(50, 15), row());
    assert!(t.on());
    assert!(t.just_clicked());
    // Holding without a new press edge does not flip again.
    t.update(&held(50, 15), row());
    assert!(t.on());
    assert!(!t.just_clicked());
    // A press outside does not flip.
    t.update(&press(500, 15), row());
    assert!(t.on());
    // A second press inside flips back off.
    t.update(&press(50, 15), row());
    assert!(!t.on());
}

#[test]
fn force_off_is_idempotent() {
    let mut t = ClickElement::new_toggle("Static");
    t.update(&press(50, 15), row());
    assert!(t.on());
    t.force_off();
    assert!(!t.on());
    let before = (t.on(), t.just_clicked());
    t.force_off();
    assert_eq!((t.on(), t.just_clicked()), before);
}

#[test]
fn toggle_group_reports_active_label() {
    let g = ToggleGroup::new(vec![
        ClickElement::new_toggle("Square"),
        ClickElement::new_toggle("Circle"),
    ]);
    assert!(g.active_toggle().is_none());
}

#[test]
fn text_input_focus_and_typing() {
    let mut t = TextInput::new("", "Body ID");
    let r = Rect::new(0, 0, 100, 28);
    // Click inside: focus.
    t.update(&press(50, 14), r, 16);
    assert!(t.focused);
    // Type "ab": the updated edge fires on exactly that frame.
    let typing = FrameInput::new(50, 14, false, false, false, false, false, "ab".to_string());
    t.update(&typing, r, 16);
    assert_eq!(t.get_value(), "ab");
    assert!(t.updated());
    // A quiet focused frame: the buffer held still, so the edge clears.
    t.update(&quiet(50, 14), r, 16);
    assert!(!t.updated());
    // Backspace removes the last character and fires the edge.
    let backspace = FrameInput::new(50, 14, false, false, false, true, false, String::new());
    t.update(&backspace, r, 16);
    assert_eq!(t.get_value(), "a");
    assert!(t.updated());
    // Click outside: defocus; typing then changes nothing and no edge.
    t.update(&press(500, 14), r, 16);
    assert!(!t.focused);
    let typing2 = FrameInput::new(500, 14, false, false, false, false, false, "zz".to_string());
    t.update(&typing2, r, 16);
    assert_eq!(t.get_value(), "a");
    assert!(!t.updated());
}

#[test]
fn number_input_round_trip_after_set_value() {
    for m in [3500i64, -12_000, 0] {
        let mut n = NumberTextInput::new(Num::from_milli(0), "value");
        n.set_value(Num::from_milli(m));
        // One frame with no typing at all.
        n.update(&quiet(500, 500), Rect::new(0, 0, 100, 28), 16);
        assert_eq!(n.get_value().milli(), m);
    }
}

#[test]
fn number_input_resets_on_invalid_numeral() {
    let mut n = NumberTextInput::new(Num::from_milli(5000), "value");
    n.text.set_value("not a number".to_string());
    n.update(&quiet(500, 500), Rect::new(0, 0, 100, 28), 16);
    assert_eq!(n.get_value().milli(), 0);
    assert_eq!(n.text.get_value(), "");
}

#[test]
fn number_input_tolerates_trailing_dot() {
    let mut n = NumberTextInput::new(Num::from_milli(0), "value");
    n.text.set_value("7.".to_string());
    n.update(&quiet(500, 500), Rect::new(0, 0, 100, 28), 16);
    assert_eq!(n.get_value().milli(), 7000);
}

#[test]
fn blink_gray_stays_in_band() {
    for c in [0u64, 100, 523, 524, 525, 1000, 1047, 1048, 5000] {
        let g = blink_gray(c);
        assert!((128..=255).contains(&g));
    }
    assert_eq!(blink_gray(0), 128);
    assert_eq!(blink_gray(524), 255);
}
