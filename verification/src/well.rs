use vstd::prelude::*;

use crate::point::{pts, Point};
use crate::tetromino::Tetromino;

verus! {

/// The border outline of a `width` by `height` playfield: left and right
/// walls plus the floor, with no ceiling and no interior cells.
pub open spec fn spec_border(width: int, height: int) -> Set<(int, int)> {
    Set::new(
        |c: (int, int)|
            0 <= c.0 < width && 0 <= c.1 < height && (c.0 == 0 || c.0 == width - 1 || c.1 == height
                - 1),
    )
}

/// The part of the border already built after scanning full rows below `y`
/// and, in row `y` itself, the columns below `x`.
pub open spec fn spec_border_upto(width: int, height: int, y: int, x: int) -> Set<(int, int)> {
    Set::new(
        |c: (int, int)|
            spec_border(width, height).contains(c) && (c.1 < y || (c.1 == y && c.0 < x)),
    )
}

/// The bounded playfield: fixed border cells plus accumulated locked-piece
/// cells. Its mathematical value is the set of occupied coordinates; the
/// set only ever grows.
#[derive(Debug)]
pub struct Well {
    points: Vec<Point>,
}

impl View for Well {
    type V = Set<(int, int)>;

    closed spec fn view(&self) -> Set<(int, int)> {
        pts(self.points@).to_set()
    }
}

impl Well {
    /// The backing vector holds each occupied cell exactly once, so its
    /// length is the cardinality of the occupied set.
    pub closed spec fn wf(self) -> bool {
        pts(self.points@).no_duplicates()
    }

    /// Membership test: is the cell occupied?
    pub fn occupied(&self, p: Point) -> (r: bool)
        ensures
            r == self@.contains(p@),
    {
        let mut i: usize = 0;
        while i < self.points.len()
            invariant
                0 <= i <= self.points@.len(),
                forall|j: int| 0 <= j < i ==> pts(self.points@)[j] != p@,
            decreases self.points@.len() - i,
        {
            if self.points[i] == p {
                proof {
                    assert(pts(self.points@)[i as int] == p@);
                    assert(pts(self.points@).contains(p@));
                }
                return true;
            }
            i += 1;
        }
        proof {
            assert(!pts(self.points@).contains(p@));
        }
        false
    }

    /// The number of occupied cells.
    pub fn len(&self) -> (r: usize)
        requires
            self.wf(),
        ensures
            r == self@.len(),
    {
        proof {
            pts(self.points@).unique_seq_to_set();
        }
        self.points.len()
    }

    /// Add one cell to the occupied set, keeping the backing vector
    /// duplicate-free.
    fn insert_point(&mut self, p: Point)
        requires
            old(self).wf(),
        ensures
            final(self)@ == old(self)@.insert(p@),
            final(self).wf(),
    {
        if !self.occupied(p) {
            proof {
                assert(!pts(self.points@).contains(p@));
            }
            self.points.push(p);
            proof {
                let s_old = pts(old(self).points@);
                assert(pts(self.points@) =~= s_old.push(p@));
                s_old.lemma_push_to_set_commute(p@);
                assert(self@ =~= old(self)@.insert(p@));
                assert forall|i: int, j: int|
                    0 <= i < pts(self.points@).len() && 0 <= j < pts(self.points@).len() && i
                        != j implies pts(self.points@)[i] != pts(self.points@)[j] by {
                    if i == s_old.len() {
                        assert(pts(self.points@)[i] == p@);
                        assert(pts(self.points@)[j] == s_old[j]);
                        assert(s_old.contains(s_old[j]));
                    } else if j == s_old.len() {
                        assert(pts(self.points@)[j] == p@);
                        assert(pts(self.points@)[i] == s_old[i]);
                        assert(s_old.contains(s_old[i]));
                    }
                }
            }
        } else {
            proof {
                assert(old(self)@.insert(p@) =~= old(self)@);
            }
        }
    }

    /// A fresh playfield holding exactly the border outline: walls at
    /// `x == 0` and `x == width - 1`, floor at `y == height - 1`.
    pub fn new(width: i8, height: i8) -> (w: Well)
        ensures
            w@ == spec_border(width as int, height as int),
            w.wf(),
    {
        let mut w = Well { points: Vec::new() };
        proof {
            assert(w@ =~= spec_border_upto(width as int, height as int, 0, 0));
        }
        let mut y: i8 = 0;
        while y < height
            invariant
                0 <= y,
                y <= height || y == 0,
                w.wf(),
                w@ == spec_border_upto(width as int, height as int, y as int, 0),
            decreases height - y,
        {
            let mut x: i8 = 0;
            while x < width
                invariant
                    0 <= x,
                    x <= width || x == 0,
                    0 <= y < height,
                    w.wf(),
                    w@ == spec_border_upto(width as int, height as int, y as int, x as int),
                decreases width - x,
            {
                if x == 0 || x == width - 1 || y == height - 1 {
                    w.insert_point(Point { x, y });
                }
                proof {
                    assert(w@ =~= spec_border_upto(
                        width as int,
                        height as int,
                        y as int,
                        x as int + 1,
                    ));
                }
                x += 1;
            }
            proof {
                assert(w@ =~= spec_border_upto(width as int, height as int, y as int + 1, 0));
            }
            y += 1;
        }
        proof {
            assert(w@ =~= spec_border(width as int, height as int));
        }
        w
    }

    /// Union the piece's current absolute cells into the occupied set. The
    /// set never shrinks: absorbing is monotonic and idempotent.
    pub fn consume(&mut self, tetromino: &Tetromino)
        requires
            old(self).wf(),
            tetromino.fits(),
        ensures
            final(self)@ == old(self)@.union(tetromino.cells()),
            final(self).wf(),
            old(self)@.subset_of(final(self)@),
    {
        let cells = tetromino.get_current_set();
        let mut i: usize = 0;
        while i < cells.len()
            invariant
                0 <= i <= cells@.len(),
                pts(cells@) == tetromino.cells_seq(),
                self.wf(),
                self@ == old(self)@.union(pts(cells@).take(i as int).to_set()),
            decreases cells@.len() - i,
        {
            self.insert_point(cells[i]);
            proof {
                let s = pts(cells@);
                assert(s.take(i as int + 1) =~= s.take(i as int).push(s[i as int]));
                s.take(i as int).lemma_push_to_set_commute(s[i as int]);
                assert(self@ =~= old(self)@.union(s.take(i as int + 1).to_set()));
            }
            i += 1;
        }
        proof {
            let s = pts(cells@);
            assert(s.take(s.len() as int) =~= s);
            assert(self@ =~= old(self)@.union(tetromino.cells()));
        }
    }
}

} // verus!
