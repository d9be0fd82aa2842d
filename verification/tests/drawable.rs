use macos_liquid_glass::drawable::{
    character_index_for_point, clicks, interprets, mouse_report, selected_range, utf16_count, Button,
    DisplayLinkSlot, Handled, MarkedText, Modifiers, MouseKind, SurfaceGeometry, TextRange, BGRA,
    FLAG_COMMAND, FLAG_CONTROL, FLAG_FUNCTION, FLAG_OPTION, FLAG_SHIFT, NOT_FOUND,
};

#[test]
fn modifiers_read_their_flag_bits() {
    assert_eq!(Modifiers::of(0), Modifiers::default());
    let m = Modifiers::of(FLAG_SHIFT | FLAG_COMMAND | (1 << 16));
    assert!(m.shift && m.command);
    assert!(!m.control && !m.option && !m.function);
    let all = Modifiers::of(FLAG_SHIFT | FLAG_CONTROL | FLAG_OPTION | FLAG_COMMAND | FLAG_FUNCTION);
    assert!(all.shift && all.control && all.option && all.command && all.function);
    assert_eq!(FLAG_SHIFT, 1 << 17);
    assert_eq!(FLAG_FUNCTION, 1 << 23);
}

#[test]
fn a_key_is_interpreted_unless_consumed() {
    assert!(interprets(None));
    assert!(interprets(Some(Handled::Interpret)));
    assert!(!interprets(Some(Handled::Consumed)));
}

#[test]
fn button_numbers_map_to_buttons() {
    assert_eq!(Button::from_number(0), Button::Left);
    assert_eq!(Button::from_number(1), Button::Right);
    assert_eq!(Button::from_number(2), Button::Middle);
    assert_eq!(Button::from_number(7), Button::Other(7));
    assert_eq!(Button::from_number(300), Button::Other(255));
    assert_eq!(Button::from_number(-1), Button::Other(255));
}

#[test]
fn only_presses_and_releases_carry_clicks() {
    assert_eq!(clicks(MouseKind::Down, 2), 2);
    assert_eq!(clicks(MouseKind::Up, 1), 1);
    assert_eq!(clicks(MouseKind::Down, 1000), 1);
    assert_eq!(clicks(MouseKind::Moved, 3), 0);
    assert_eq!(clicks(MouseKind::Dragged, 3), 0);
    assert_eq!(clicks(MouseKind::Entered, 3), 0);
    assert_eq!(clicks(MouseKind::Exited, 3), 0);
}

#[test]
fn utf16_units_are_counted_per_character() {
    assert_eq!(utf16_count(""), 0);
    assert_eq!(utf16_count("abc"), 3);
    assert_eq!(utf16_count("é"), 1);
    assert_eq!(utf16_count("黑风雷"), 3);
    assert_eq!(utf16_count("😀"), 2);
    assert_eq!(utf16_count("a😀b"), 4);
}

#[test]
fn marked_text_reports_its_range_in_utf16_units() {
    let mut m = MarkedText::new();
    assert!(!m.has_marked_text());
    assert_eq!(m.marked_range(), TextRange { location: NOT_FOUND, length: 0 });
    m.set(String::from("ka😀"));
    assert!(m.has_marked_text());
    assert_eq!(m.text(), "ka😀");
    assert_eq!(m.marked_range(), TextRange { location: 0, length: 4 });
    m.clear();
    assert!(!m.has_marked_text());
    assert_eq!(m.marked_range(), TextRange { location: NOT_FOUND, length: 0 });
    assert_eq!(selected_range(), TextRange { location: usize::MAX, length: 0 });
    assert_eq!(character_index_for_point(), usize::MAX);
}

#[test]
fn starting_a_display_link_stops_the_earlier_one() {
    let mut slot: DisplayLinkSlot<u32> = DisplayLinkSlot::new();
    assert!(!slot.is_running());
    assert_eq!(slot.start(1), None);
    assert!(slot.is_running());
    assert_eq!(slot.start(2), Some(1));
    assert_eq!(slot.stop(), Some(2));
    assert!(!slot.is_running());
    assert_eq!(slot.stop(), None);
}

#[test]
fn a_surface_shape_takes_its_stride_from_the_row_bytes() {
    assert!(SurfaceGeometry::accepts(5, 3));
    assert!(!SurfaceGeometry::accepts(0, 3));
    assert!(!SurfaceGeometry::accepts(5, 0));
    let g = SurfaceGeometry::from_parts(5, 3, 64).expect("a 5x3 surface");
    assert_eq!(g.size(), (5, 3));
    assert_eq!(g.stride(), 16);
    assert_eq!(g.words(), 48);
    assert!(SurfaceGeometry::from_parts(0, 3, 64).is_none());
    assert!(SurfaceGeometry::from_parts(5, 3, -4).is_none());
    assert_eq!(BGRA, u32::from_be_bytes(*b"BGRA"));
}

#[test]
fn only_a_press_or_release_reports_its_own_button() {
    let (button, clicks, modifiers) = mouse_report(MouseKind::Down, 1, 2, FLAG_SHIFT);
    assert_eq!(button, Button::Right);
    assert_eq!(clicks, 2);
    assert!(modifiers.shift && !modifiers.command);
    let (button, clicks, _) = mouse_report(MouseKind::Up, 4, 1, 0);
    assert_eq!(button, Button::Other(4));
    assert_eq!(clicks, 1);
    let (button, clicks, modifiers) = mouse_report(MouseKind::Dragged, 1, 1, FLAG_COMMAND);
    assert_eq!(button, Button::Left);
    assert_eq!(clicks, 0);
    assert!(modifiers.command);
    for kind in [MouseKind::Moved, MouseKind::Entered, MouseKind::Exited] {
        assert_eq!(mouse_report(kind, 2, 1, 0).0, Button::Left);
    }
    assert_eq!(mouse_report(MouseKind::Down, -1, 300, 0), (Button::Other(255), 1, Modifiers::default()));
}
