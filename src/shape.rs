//! Classification of a triangle by angle and by sides.
//!
//! The numeric tests on the vertices (collinearity, an angle near or past a
//! right angle, two sides of nearly equal length) are made by the caller; this
//! module turns their outcomes into a classification and its display label.

use vstd::prelude::*;

verus! {

/// Classification by the largest interior angle.
#[derive(Clone, Copy, Debug, PartialEq, Eq, Structural)]
pub enum AngleKind {
    Acute,
    Right,
    Obtuse,
}

/// Classification by how many sides are of equal length.
#[derive(Clone, Copy, Debug, PartialEq, Eq, Structural)]
pub enum SideKind {
    Equilateral,
    Isosceles,
    Scalene,
}

/// The full classification of three points.
#[derive(Clone, Copy, Debug, PartialEq, Eq, Structural)]
pub enum Shape {
    /// The points are collinear: no angle or side classification is made.
    Degenerate,
    Triangle(AngleKind, SideKind),
}

/// Outcomes of the tolerance tests made on one triangle with vertices A, B, C.
#[derive(Clone, Copy, Debug, PartialEq, Eq, Structural)]
pub struct Tests {
    /// The three points lie on one line.
    pub collinear: bool,
    /// The interior angle at A, B or C is within tolerance of a right angle.
    pub right_a: bool,
    pub right_b: bool,
    pub right_c: bool,
    /// The interior angle at A, B or C exceeds a right angle.
    pub obtuse_a: bool,
    pub obtuse_b: bool,
    pub obtuse_c: bool,
    /// Sides AB and BC, BC and CA, CA and AB are of equal length within tolerance.
    pub equal_ab_bc: bool,
    pub equal_bc_ca: bool,
    pub equal_ca_ab: bool,
}

/// A right angle anywhere wins over an obtuse one; with neither, all are acute.
pub open spec fn angle_kind_of(t: Tests) -> AngleKind {
    if t.right_a || t.right_b || t.right_c {
        AngleKind::Right
    } else if t.obtuse_a || t.obtuse_b || t.obtuse_c {
        AngleKind::Obtuse
    } else {
        AngleKind::Acute
    }
}

/// Equilateral when AB matches both other sides; isosceles when any pair
/// matches; scalene otherwise.
pub open spec fn side_kind_of(t: Tests) -> SideKind {
    if t.equal_ab_bc && t.equal_ca_ab {
        SideKind::Equilateral
    } else if t.equal_ab_bc || t.equal_bc_ca || t.equal_ca_ab {
        SideKind::Isosceles
    } else {
        SideKind::Scalene
    }
}

/// Collinearity decides alone; otherwise both classifications are made.
pub open spec fn shape_of(t: Tests) -> Shape {
    if t.collinear {
        Shape::Degenerate
    } else {
        Shape::Triangle(angle_kind_of(t), side_kind_of(t))
    }
}

pub open spec fn angle_word(a: AngleKind) -> Seq<char> {
    match a {
        AngleKind::Acute => "Acute"@,
        AngleKind::Right => "Right"@,
        AngleKind::Obtuse => "Obtuse"@,
    }
}

pub open spec fn side_word(s: SideKind) -> Seq<char> {
    match s {
        SideKind::Equilateral => "Equilateral"@,
        SideKind::Isosceles => "Isosceles"@,
        SideKind::Scalene => "Scalene"@,
    }
}

/// `"Degenerate"`, or the angle word and the side word joined by one space.
pub open spec fn label_of(s: Shape) -> Seq<char> {
    match s {
        Shape::Degenerate => "Degenerate"@,
        Shape::Triangle(a, k) => angle_word(a) + " "@ + side_word(k),
    }
}

/// The tests of the same triangle with its vertices relabeled B, C, A.
pub open spec fn rotated(t: Tests) -> Tests {
    Tests {
        collinear: t.collinear,
        right_a: t.right_b,
        right_b: t.right_c,
        right_c: t.right_a,
        obtuse_a: t.obtuse_b,
        obtuse_b: t.obtuse_c,
        obtuse_c: t.obtuse_a,
        equal_ab_bc: t.equal_bc_ca,
        equal_bc_ca: t.equal_ca_ab,
        equal_ca_ab: t.equal_ab_bc,
    }
}

/// The tests of the same triangle with its vertices relabeled A, C, B.
pub open spec fn swapped(t: Tests) -> Tests {
    Tests {
        collinear: t.collinear,
        right_a: t.right_a,
        right_b: t.right_c,
        right_c: t.right_b,
        obtuse_a: t.obtuse_a,
        obtuse_b: t.obtuse_c,
        obtuse_c: t.obtuse_b,
        equal_ab_bc: t.equal_bc_ca,
        equal_bc_ca: t.equal_ab_bc,
        equal_ca_ab: t.equal_ca_ab,
    }
}

/// The side tests agree with each other: it is not the case that exactly two
/// of the three pairs of sides match (which a tolerance can give at its edge).
pub open spec fn sides_consistent(t: Tests) -> bool {
    !(t.equal_ab_bc && t.equal_bc_ca && !t.equal_ca_ab)
    && !(t.equal_ab_bc && !t.equal_bc_ca && t.equal_ca_ab)
    && !(!t.equal_ab_bc && t.equal_bc_ca && t.equal_ca_ab)
}

/// The classification does not depend on how the vertices are labeled: every
/// relabeling is made of rotations and swaps, and neither changes the shape,
/// as long as the side tests are consistent.
pub proof fn lemma_relabel_keeps_shape(t: Tests)
    requires
        sides_consistent(t),
    ensures
        shape_of(rotated(t)) == shape_of(t),
        shape_of(swapped(t)) == shape_of(t),
        sides_consistent(rotated(t)),
        sides_consistent(swapped(t)),
{
}

pub fn angle_kind(t: &Tests) -> (r: AngleKind)
    ensures
        r == angle_kind_of(*t),
{
    if t.right_a || t.right_b || t.right_c {
        AngleKind::Right
    } else if t.obtuse_a || t.obtuse_b || t.obtuse_c {
        AngleKind::Obtuse
    } else {
        AngleKind::Acute
    }
}

pub fn side_kind(t: &Tests) -> (r: SideKind)
    ensures
        r == side_kind_of(*t),
{
    if t.equal_ab_bc && t.equal_ca_ab {
        SideKind::Equilateral
    } else if t.equal_ab_bc || t.equal_bc_ca || t.equal_ca_ab {
        SideKind::Isosceles
    } else {
        SideKind::Scalene
    }
}

/// Classifies a triangle from the outcomes of its tolerance tests.
pub fn classify_tests(t: &Tests) -> (r: Shape)
    ensures
        r == shape_of(*t),
{
    if t.collinear {
        Shape::Degenerate
    } else {
        Shape::Triangle(angle_kind(t), side_kind(t))
    }
}

impl AngleKind {
    pub fn word(&self) -> (r: &'static str)
        ensures
            r@ == angle_word(*self),
    {
        match self {
            AngleKind::Acute => "Acute",
            AngleKind::Right => "Right",
            AngleKind::Obtuse => "Obtuse",
        }
    }
}

impl SideKind {
    pub fn word(&self) -> (r: &'static str)
        ensures
            r@ == side_word(*self),
    {
        match self {
            SideKind::Equilateral => "Equilateral",
            SideKind::Isosceles => "Isosceles",
            SideKind::Scalene => "Scalene",
        }
    }
}

impl Shape {
    /// The display label, such as `"Right Isosceles"` or `"Degenerate"`.
    pub fn label(&self) -> (r: String)
        ensures
            r@ == label_of(*self),
    {
        match self {
            Shape::Degenerate => String::from_str("Degenerate"),
            Shape::Triangle(a, k) => {
                let mut r = String::from_str(a.word());
                r.append(" ");
                r.append(k.word());
                r
            },
        }
    }
}

} // verus!
