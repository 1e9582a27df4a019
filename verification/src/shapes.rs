use vstd::prelude::*;

use crate::point::{pts, Point};

verus! {

/// One of the 7 canonical piece kinds.
#[derive(Clone, Copy, Debug, PartialEq, Eq, Structural)]
pub enum TetrominoType {
    I,
    L,
    J,
    O,
    S,
    T,
    Z,
}

/// One of the 4 discrete orientations of a piece.
#[derive(Clone, Copy, Debug, PartialEq, Eq, Structural)]
pub enum TetrominoAngle {
    Degree0,
    Degree90,
    Degree180,
    Degree270,
}

/// Direction of a rotation request.
#[derive(Clone, Copy, Debug, PartialEq, Eq, Structural)]
pub enum TetrominoRotation {
    Clockwise,
    Counterclockwise,
}

/// Display color associated with a piece kind; resolved to an actual
/// terminal color by the render adapter outside this crate.
#[derive(Clone, Copy, Debug, PartialEq, Eq, Structural)]
pub enum TetrominoColor {
    Cyan,
    Blue,
    Yellow,
    LightYellow,
    Green,
    Magenta,
    Red,
}

/// The authored shape catalog: for each (kind, orientation), the four
/// local cell offsets relative to the piece's origin.
pub open spec fn spec_shape(t: TetrominoType, a: TetrominoAngle) -> Seq<(int, int)> {
    match t {
        TetrominoType::I => match a {
            TetrominoAngle::Degree0 => seq![(0, 1), (1, 1), (2, 1), (3, 1)],
            TetrominoAngle::Degree90 => seq![(2, 0), (2, 1), (2, 2), (2, 3)],
            TetrominoAngle::Degree180 => seq![(0, 2), (1, 2), (2, 2), (3, 2)],
            TetrominoAngle::Degree270 => seq![(1, 0), (1, 1), (1, 2), (1, 3)],
        },
        TetrominoType::J => match a {
            TetrominoAngle::Degree0 => seq![(0, 0), (0, 1), (1, 1), (2, 1)],
            TetrominoAngle::Degree90 => seq![(1, 0), (1, 1), (1, 2), (2, 0)],
            TetrominoAngle::Degree180 => seq![(0, 1), (1, 1), (2, 1), (2, 2)],
            TetrominoAngle::Degree270 => seq![(0, 2), (1, 0), (1, 1), (1, 2)],
        },
        TetrominoType::L => match a {
            TetrominoAngle::Degree0 => seq![(0, 1), (1, 1), (2, 1), (2, 0)],
            TetrominoAngle::Degree90 => seq![(1, 0), (1, 1), (1, 2), (2, 2)],
            TetrominoAngle::Degree180 => seq![(0, 1), (1, 1), (2, 1), (0, 2)],
            TetrominoAngle::Degree270 => seq![(0, 0), (1, 0), (1, 1), (1, 2)],
        },
        TetrominoType::O => match a {
            TetrominoAngle::Degree0 => seq![(1, 0), (1, 1), (2, 0), (2, 1)],
            TetrominoAngle::Degree90 => seq![(1, 0), (1, 1), (2, 0), (2, 1)],
            TetrominoAngle::Degree180 => seq![(1, 0), (1, 1), (2, 0), (2, 1)],
            TetrominoAngle::Degree270 => seq![(1, 0), (1, 1), (2, 0), (2, 1)],
        },
        TetrominoType::S => match a {
            TetrominoAngle::Degree0 => seq![(0, 1), (1, 0), (1, 1), (2, 0)],
            TetrominoAngle::Degree90 => seq![(1, 0), (1, 1), (2, 1), (2, 2)],
            TetrominoAngle::Degree180 => seq![(0, 2), (1, 1), (1, 2), (2, 1)],
            TetrominoAngle::Degree270 => seq![(0, 0), (0, 1), (1, 1), (1, 2)],
        },
        TetrominoType::T => match a {
            TetrominoAngle::Degree0 => seq![(1, 0), (0, 1), (1, 1), (2, 1)],
            TetrominoAngle::Degree90 => seq![(1, 0), (1, 1), (1, 2), (2, 1)],
            TetrominoAngle::Degree180 => seq![(0, 1), (1, 1), (1, 2), (2, 1)],
            TetrominoAngle::Degree270 => seq![(0, 1), (1, 0), (1, 1), (1, 2)],
        },
        TetrominoType::Z => match a {
            TetrominoAngle::Degree0 => seq![(0, 0), (1, 0), (1, 1), (2, 1)],
            TetrominoAngle::Degree90 => seq![(1, 1), (1, 2), (2, 0), (2, 1)],
            TetrominoAngle::Degree180 => seq![(0, 1), (1, 1), (1, 2), (2, 2)],
            TetrominoAngle::Degree270 => seq![(0, 1), (0, 2), (1, 0), (1, 1)],
        },
    }
}

/// The display color of each piece kind.
pub open spec fn spec_color(t: TetrominoType) -> TetrominoColor {
    match t {
        TetrominoType::I => TetrominoColor::Cyan,
        TetrominoType::J => TetrominoColor::Blue,
        TetrominoType::L => TetrominoColor::Yellow,
        TetrominoType::O => TetrominoColor::LightYellow,
        TetrominoType::S => TetrominoColor::Green,
        TetrominoType::T => TetrominoColor::Magenta,
        TetrominoType::Z => TetrominoColor::Red,
    }
}

/// The cyclic successor (clockwise) or predecessor (counterclockwise)
/// of an orientation.
pub open spec fn spec_next_angle(a: TetrominoAngle, r: TetrominoRotation) -> TetrominoAngle {
    match a {
        TetrominoAngle::Degree0 => if r == TetrominoRotation::Clockwise {
            TetrominoAngle::Degree90
        } else {
            TetrominoAngle::Degree270
        },
        TetrominoAngle::Degree90 => if r == TetrominoRotation::Clockwise {
            TetrominoAngle::Degree180
        } else {
            TetrominoAngle::Degree0
        },
        TetrominoAngle::Degree180 => if r == TetrominoRotation::Clockwise {
            TetrominoAngle::Degree270
        } else {
            TetrominoAngle::Degree90
        },
        TetrominoAngle::Degree270 => if r == TetrominoRotation::Clockwise {
            TetrominoAngle::Degree0
        } else {
            TetrominoAngle::Degree180
        },
    }
}

/// Applying four rotations in one direction returns any orientation to itself.
pub proof fn lemma_angle_cycle(a: TetrominoAngle, r: TetrominoRotation)
    ensures
        spec_next_angle(spec_next_angle(spec_next_angle(spec_next_angle(a, r), r), r), r) == a,
{
}

/// Every catalog entry holds exactly 4 pairwise-distinct offsets.
pub proof fn lemma_shape_four_distinct(t: TetrominoType, a: TetrominoAngle)
    ensures
        spec_shape(t, a).len() == 4,
        spec_shape(t, a).no_duplicates(),
        spec_shape(t, a).to_set().len() == 4,
{
    spec_shape(t, a).unique_seq_to_set();
}

fn pt(x: i8, y: i8) -> (r: Point)
    ensures
        r == (Point { x, y }),
{
    Point { x, y }
}

fn quad(a: Point, b: Point, c: Point, d: Point) -> (r: Vec<Point>)
    ensures
        r@ =~= seq![a, b, c, d],
{
    let mut v: Vec<Point> = Vec::new();
    v.push(a);
    v.push(b);
    v.push(c);
    v.push(d);
    v
}

/// Pure catalog lookup: the four absolute offsets of `(t, a)`, as authored.
pub fn shape(t: TetrominoType, a: TetrominoAngle) -> (r: Vec<Point>)
    ensures
        pts(r@) == spec_shape(t, a),
        r@.len() == 4,
        forall|i: int| 0 <= i < r@.len() ==> {
            let p = #[trigger] r@[i];
            0 <= p.x <= 3 && 0 <= p.y <= 3
        },
{
    let r = match (t, a) {
        (TetrominoType::I, TetrominoAngle::Degree0) => quad(pt(0, 1), pt(1, 1), pt(2, 1), pt(3, 1)),
        (TetrominoType::I, TetrominoAngle::Degree90) => quad(pt(2, 0), pt(2, 1), pt(2, 2), pt(2, 3)),
        (TetrominoType::I, TetrominoAngle::Degree180) => quad(pt(0, 2), pt(1, 2), pt(2, 2), pt(3, 2)),
        (TetrominoType::I, TetrominoAngle::Degree270) => quad(pt(1, 0), pt(1, 1), pt(1, 2), pt(1, 3)),
        (TetrominoType::J, TetrominoAngle::Degree0) => quad(pt(0, 0), pt(0, 1), pt(1, 1), pt(2, 1)),
        (TetrominoType::J, TetrominoAngle::Degree90) => quad(pt(1, 0), pt(1, 1), pt(1, 2), pt(2, 0)),
        (TetrominoType::J, TetrominoAngle::Degree180) => quad(pt(0, 1), pt(1, 1), pt(2, 1), pt(2, 2)),
        (TetrominoType::J, TetrominoAngle::Degree270) => quad(pt(0, 2), pt(1, 0), pt(1, 1), pt(1, 2)),
        (TetrominoType::L, TetrominoAngle::Degree0) => quad(pt(0, 1), pt(1, 1), pt(2, 1), pt(2, 0)),
        (TetrominoType::L, TetrominoAngle::Degree90) => quad(pt(1, 0), pt(1, 1), pt(1, 2), pt(2, 2)),
        (TetrominoType::L, TetrominoAngle::Degree180) => quad(pt(0, 1), pt(1, 1), pt(2, 1), pt(0, 2)),
        (TetrominoType::L, TetrominoAngle::Degree270) => quad(pt(0, 0), pt(1, 0), pt(1, 1), pt(1, 2)),
        (TetrominoType::O, _) => quad(pt(1, 0), pt(1, 1), pt(2, 0), pt(2, 1)),
        (TetrominoType::S, TetrominoAngle::Degree0) => quad(pt(0, 1), pt(1, 0), pt(1, 1), pt(2, 0)),
        (TetrominoType::S, TetrominoAngle::Degree90) => quad(pt(1, 0), pt(1, 1), pt(2, 1), pt(2, 2)),
        (TetrominoType::S, TetrominoAngle::Degree180) => quad(pt(0, 2), pt(1, 1), pt(1, 2), pt(2, 1)),
        (TetrominoType::S, TetrominoAngle::Degree270) => quad(pt(0, 0), pt(0, 1), pt(1, 1), pt(1, 2)),
        (TetrominoType::T, TetrominoAngle::Degree0) => quad(pt(1, 0), pt(0, 1), pt(1, 1), pt(2, 1)),
        (TetrominoType::T, TetrominoAngle::Degree90) => quad(pt(1, 0), pt(1, 1), pt(1, 2), pt(2, 1)),
        (TetrominoType::T, TetrominoAngle::Degree180) => quad(pt(0, 1), pt(1, 1), pt(1, 2), pt(2, 1)),
        (TetrominoType::T, TetrominoAngle::Degree270) => quad(pt(0, 1), pt(1, 0), pt(1, 1), pt(1, 2)),
        (TetrominoType::Z, TetrominoAngle::Degree0) => quad(pt(0, 0), pt(1, 0), pt(1, 1), pt(2, 1)),
        (TetrominoType::Z, TetrominoAngle::Degree90) => quad(pt(1, 1), pt(1, 2), pt(2, 0), pt(2, 1)),
        (TetrominoType::Z, TetrominoAngle::Degree180) => quad(pt(0, 1), pt(1, 1), pt(1, 2), pt(2, 2)),
        (TetrominoType::Z, TetrominoAngle::Degree270) => quad(pt(0, 1), pt(0, 2), pt(1, 0), pt(1, 1)),
    };
    proof {
        assert(pts(r@) =~= spec_shape(t, a));
    }
    r
}

} // verus!
