use triangle_geometry::line::{line_fields, split_commas};

#[test]
fn six_coordinates_on_a_line() {
    assert_eq!(line_fields("0,0,4,0,0,3\n"), vec!["0", "0", "4", "0", "0", "3"]);
}

#[test]
fn surrounding_whitespace_is_trimmed() {
    assert_eq!(line_fields("  1.5, -2 ,3\t\r\n"), vec!["1.5", " -2 ", "3"]);
}

#[test]
fn empty_fields_are_kept() {
    assert_eq!(split_commas("a,,b,"), vec!["a", "", "b", ""]);
    assert_eq!(split_commas(""), vec![""]);
    assert_eq!(line_fields("   "), vec![""]);
}
