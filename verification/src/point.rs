use vstd::prelude::*;

verus! {

/// An integer coordinate pair on the grid; the fundamental unit of occupancy.
/// Compared by value.
#[derive(Clone, Copy, Debug, PartialEq, Eq, Hash, Structural)]
pub struct Point {
    pub x: i8,
    pub y: i8,
}

impl View for Point {
    type V = (int, int);

    open spec fn view(&self) -> (int, int) {
        (self.x as int, self.y as int)
    }
}

/// The mathematical contents of a sequence of points, as integer pairs.
pub open spec fn pts(s: Seq<Point>) -> Seq<(int, int)> {
    s.map_values(|p: Point| (p.x as int, p.y as int))
}

} // verus!
