use triangle_geometry::entry::{coordinate_label, has_digit, Entry, Key};

fn type_text(e: &mut Entry, text: &str) {
    for ch in text.chars() {
        e.on_key(Key::Char(ch));
    }
}

#[test]
fn new_entry_is_empty() {
    let e = Entry::new();
    assert!(e.is_entering());
    assert_eq!(e.buffer(), "");
    assert!(e.values().is_empty());
    assert_eq!(e.prompt(), "Enter point A's X coordinate: _");
}

#[test]
fn digits_minus_and_point() {
    let mut e = Entry::new();
    type_text(&mut e, "-1-2.3.4x");
    assert_eq!(e.buffer(), "-12.34");
}

#[test]
fn backspace_frees_the_point() {
    let mut e = Entry::new();
    type_text(&mut e, "1.");
    e.on_key(Key::Back);
    assert_eq!(e.buffer(), "1");
    type_text(&mut e, ".5");
    assert_eq!(e.buffer(), "1.5");
    e.on_key(Key::Back);
    e.on_key(Key::Back);
    e.on_key(Key::Back);
    e.on_key(Key::Back);
    assert_eq!(e.buffer(), "");
}

#[test]
fn submit_needs_a_digit() {
    let mut e = Entry::new();
    e.on_key(Key::Return);
    assert!(e.values().is_empty());
    type_text(&mut e, "-.");
    e.on_key(Key::Return);
    assert!(e.values().is_empty());
    assert_eq!(e.buffer(), "-.");
    type_text(&mut e, "5");
    e.on_key(Key::Return);
    assert_eq!(e.values(), &vec!["-.5".to_string()]);
    assert_eq!(e.buffer(), "");
    // The point may be typed again in the next number.
    type_text(&mut e, ".25");
    assert_eq!(e.buffer(), ".25");
    assert_eq!(e.prompt(), "Enter point A's Y coordinate: .25_");
}

#[test]
fn six_coordinates_then_reset() {
    let mut e = Entry::new();
    for text in ["0", "0", "4", "0", "0", "3"] {
        assert!(e.is_entering());
        type_text(&mut e, text);
        e.on_key(Key::Return);
    }
    assert!(!e.is_entering());
    assert_eq!(e.values().len(), 6);
    assert_eq!(e.values()[2], "4");
    // While the triangle is shown, typing does nothing and return starts over.
    type_text(&mut e, "9");
    e.on_key(Key::Back);
    e.on_key(Key::Other);
    assert_eq!(e.values().len(), 6);
    assert_eq!(e.buffer(), "");
    e.on_key(Key::Return);
    assert!(e.is_entering());
    assert!(e.values().is_empty());
    assert_eq!(e.prompt(), "Enter point A's X coordinate: _");
}

#[test]
fn direct_methods_match_keys() {
    let mut e = Entry::new();
    e.text_entry('7');
    e.text_entry('.');
    e.backspace();
    e.submit();
    assert_eq!(e.values(), &vec!["7".to_string()]);
    e.reset();
    assert!(e.values().is_empty());
}

#[test]
fn digit_detection() {
    assert!(!has_digit(""));
    assert!(!has_digit("-."));
    assert!(has_digit("-.0"));
}

#[test]
fn coordinate_labels() {
    assert_eq!(coordinate_label(0), "point A's X coordinate");
    assert_eq!(coordinate_label(3), "point B's Y coordinate");
    assert_eq!(coordinate_label(5), "point C's Y coordinate");
}
