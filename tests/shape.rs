use triangle_geometry::shape::{angle_kind, classify_tests, side_kind, AngleKind, Shape, SideKind, Tests};

fn no_tests() -> Tests {
    Tests {
        collinear: false,
        right_a: false,
        right_b: false,
        right_c: false,
        obtuse_a: false,
        obtuse_b: false,
        obtuse_c: false,
        equal_ab_bc: false,
        equal_bc_ca: false,
        equal_ca_ab: false,
    }
}

#[test]
fn labels_of_every_shape() {
    assert_eq!(Shape::Degenerate.label(), "Degenerate");
    assert_eq!(Shape::Triangle(AngleKind::Right, SideKind::Isosceles).label(), "Right Isosceles");
    assert_eq!(Shape::Triangle(AngleKind::Acute, SideKind::Equilateral).label(), "Acute Equilateral");
    assert_eq!(Shape::Triangle(AngleKind::Obtuse, SideKind::Scalene).label(), "Obtuse Scalene");
}

#[test]
fn right_triangle_three_four_five() {
    // (0,0), (4,0), (0,3): the angle at A is right, the sides 4, 5, 3 all differ.
    let t = Tests { right_a: true, ..no_tests() };
    let s = classify_tests(&t);
    assert_eq!(s, Shape::Triangle(AngleKind::Right, SideKind::Scalene));
    assert_eq!(s.label(), "Right Scalene");
}

#[test]
fn equilateral_triangle() {
    let t = Tests { equal_ab_bc: true, equal_bc_ca: true, equal_ca_ab: true, ..no_tests() };
    assert_eq!(classify_tests(&t).label(), "Acute Equilateral");
}

#[test]
fn collinear_points_are_degenerate() {
    // Collinearity wins even where other tests would classify.
    let t = Tests { collinear: true, right_b: true, equal_ab_bc: true, ..no_tests() };
    assert_eq!(classify_tests(&t), Shape::Degenerate);
    assert_eq!(classify_tests(&t).label(), "Degenerate");
}

#[test]
fn right_wins_over_obtuse() {
    let t = Tests { right_c: true, obtuse_c: true, ..no_tests() };
    assert_eq!(angle_kind(&t), AngleKind::Right);
    let t = Tests { obtuse_b: true, ..no_tests() };
    assert_eq!(angle_kind(&t), AngleKind::Obtuse);
    assert_eq!(angle_kind(&no_tests()), AngleKind::Acute);
}

#[test]
fn side_kinds() {
    assert_eq!(side_kind(&no_tests()), SideKind::Scalene);
    let t = Tests { equal_bc_ca: true, ..no_tests() };
    assert_eq!(side_kind(&t), SideKind::Isosceles);
    let t = Tests { equal_ca_ab: true, ..no_tests() };
    assert_eq!(side_kind(&t), SideKind::Isosceles);
    // AB matching both other sides is what makes a triangle equilateral.
    let t = Tests { equal_ab_bc: true, equal_ca_ab: true, ..no_tests() };
    assert_eq!(side_kind(&t), SideKind::Equilateral);
    let t = Tests { equal_ab_bc: true, equal_bc_ca: true, ..no_tests() };
    assert_eq!(side_kind(&t), SideKind::Isosceles);
}

#[test]
fn relabeling_keeps_shape() {
    // An obtuse isosceles triangle at B, seen as A, C, B: the obtuse angle is now at C.
    let t = Tests { obtuse_b: true, equal_ab_bc: true, ..no_tests() };
    let relabeled = Tests { obtuse_c: true, equal_bc_ca: true, ..no_tests() };
    assert_eq!(classify_tests(&t), classify_tests(&relabeled));
    assert_eq!(classify_tests(&t).label(), "Obtuse Isosceles");
}

#[test]
fn classification_is_repeatable() {
    let t = Tests { right_a: true, equal_ca_ab: true, ..no_tests() };
    assert_eq!(classify_tests(&t), classify_tests(&t));
    assert_eq!(classify_tests(&t).label(), classify_tests(&t).label());
}
