use vstd::prelude::*;

use crate::point::{pts, Point};
use crate::shapes::{
    lemma_angle_cycle, lemma_shape_four_distinct, shape, spec_color, spec_next_angle, spec_shape,
    TetrominoAngle, TetrominoColor, TetrominoRotation, TetrominoType,
};
use crate::well::Well;

verus! {

/// The active falling piece: a kind, its current orientation, its origin on
/// the grid, and its display color. Absolute occupied cells are derived on
/// demand from the shape catalog, never cached.
#[derive(Clone, Copy, Debug, PartialEq, Eq, Structural)]
pub struct Tetromino {
    pub kind: TetrominoType,
    pub origin: Point,
    pub color: TetrominoColor,
    pub angle: TetrominoAngle,
}

impl Tetromino {
    /// The absolute cells of shape `(t, a)` anchored at origin `(ox, oy)`,
    /// in catalog order.
    pub open spec fn spec_cells_seq_at(
        t: TetrominoType,
        a: TetrominoAngle,
        ox: int,
        oy: int,
    ) -> Seq<(int, int)> {
        spec_shape(t, a).map_values(|c: (int, int)| (c.0 + ox, c.1 + oy))
    }

    pub open spec fn cells_seq(self) -> Seq<(int, int)> {
        Self::spec_cells_seq_at(self.kind, self.angle, self.origin.x as int, self.origin.y as int)
    }

    /// The piece's derived absolute occupied cells.
    pub open spec fn cells(self) -> Set<(int, int)> {
        self.cells_seq().to_set()
    }

    /// Every absolute cell coordinate stays within the coordinate type:
    /// shape offsets reach at most 3 beyond the origin.
    pub open spec fn fits(self) -> bool {
        &&& self.origin.x + 3 <= i8::MAX
        &&& self.origin.y + 3 <= i8::MAX
    }

    /// The piece may take one step in any direction without leaving the
    /// coordinate range; implies `fits`.
    pub open spec fn can_step(self) -> bool {
        &&& i8::MIN < self.origin.x
        &&& self.origin.x + 4 <= i8::MAX
        &&& self.origin.y + 4 <= i8::MAX
    }

    /// The orientation a hypothetical move would put the piece in.
    pub open spec fn spec_target_angle(self, rotation: Option<TetrominoRotation>) -> TetrominoAngle {
        match rotation {
            Option::Some(r) => spec_next_angle(self.angle, r),
            Option::None => self.angle,
        }
    }

    /// The single legality predicate all mutators funnel through: the
    /// hypothetical piece (origin shifted by `(dx, dy)`, orientation
    /// replaced if given) occupies no cell of the well.
    pub open spec fn spec_can_apply(
        self,
        dx: int,
        dy: int,
        rotation: Option<TetrominoRotation>,
        well: Set<(int, int)>,
    ) -> bool {
        Self::spec_cells_seq_at(
            self.kind,
            self.spec_target_angle(rotation),
            self.origin.x + dx,
            self.origin.y + dy,
        ).to_set().disjoint(well)
    }

    /// A freshly spawned piece of kind `t`: rotation 0 at the kind's spawn
    /// origin, carrying the kind's color.
    pub open spec fn spec_new(t: TetrominoType) -> Tetromino {
        Tetromino {
            kind: t,
            origin: Point { x: if t == TetrominoType::T { 3 } else { 2 }, y: 0 },
            color: spec_color(t),
            angle: TetrominoAngle::Degree0,
        }
    }

    /// Some freshly spawned piece, of whichever kind.
    pub open spec fn is_spawn(p: Tetromino) -> bool {
        exists|t: TetrominoType| p == Tetromino::spec_new(t)
    }

    /// The result of requesting a translation by `(dx, dy)`: shifted if
    /// legal, unchanged otherwise.
    pub open spec fn spec_moved(self, dx: int, dy: int, well: Set<(int, int)>) -> Tetromino {
        if self.spec_can_apply(dx, dy, Option::None, well) {
            Tetromino {
                kind: self.kind,
                origin: Point {
                    x: (self.origin.x + dx) as i8,
                    y: (self.origin.y + dy) as i8,
                },
                color: self.color,
                angle: self.angle,
            }
        } else {
            self
        }
    }

    /// The result of requesting a rotation: the cyclic neighbor orientation
    /// if legal in place, unchanged otherwise. No wall kick is attempted.
    pub open spec fn spec_rotated(self, rotation: TetrominoRotation, well: Set<(int, int)>) -> Tetromino {
        if self.spec_can_apply(0, 0, Option::Some(rotation), well) {
            Tetromino {
                kind: self.kind,
                origin: self.origin,
                color: self.color,
                angle: spec_next_angle(self.angle, rotation),
            }
        } else {
            self
        }
    }

    /// A new piece of kind `t` at its catalog spawn position.
    pub fn new(t: TetrominoType) -> (r: Tetromino)
        ensures
            r == Tetromino::spec_new(t),
    {
        let origin = match t {
            TetrominoType::T => Point { x: 3, y: 0 },
            _ => Point { x: 2, y: 0 },
        };
        let color = match t {
            TetrominoType::I => TetrominoColor::Cyan,
            TetrominoType::J => TetrominoColor::Blue,
            TetrominoType::L => TetrominoColor::Yellow,
            TetrominoType::O => TetrominoColor::LightYellow,
            TetrominoType::S => TetrominoColor::Green,
            TetrominoType::T => TetrominoColor::Magenta,
            TetrominoType::Z => TetrominoColor::Red,
        };
        Tetromino { kind: t, origin, color, angle: TetrominoAngle::Degree0 }
    }

    /// The display color of this piece.
    pub fn get_color(&self) -> (c: TetrominoColor)
        ensures
            c == self.color,
    {
        self.color
    }

    /// The piece's absolute occupied cells: catalog offsets translated by
    /// the origin. Pure; no side effect.
    pub fn get_current_set(&self) -> (r: Vec<Point>)
        requires
            self.fits(),
        ensures
            pts(r@) == self.cells_seq(),
            r@.len() == 4,
    {
        let sh = shape(self.kind, self.angle);
        let mut r: Vec<Point> = Vec::new();
        let mut i: usize = 0;
        while i < sh.len()
            invariant
                0 <= i <= sh@.len(),
                pts(sh@) == spec_shape(self.kind, self.angle),
                sh@.len() == 4,
                forall|k: int| 0 <= k < sh@.len() ==> {
                    let p = #[trigger] sh@[k];
                    0 <= p.x <= 3 && 0 <= p.y <= 3
                },
                self.fits(),
                r@.len() == i,
                forall|k: int| 0 <= k < i ==> pts(r@)[k] == self.cells_seq()[k],
            decreases sh@.len() - i,
        {
            let p = sh[i];
            let q = Point { x: self.origin.x + p.x, y: self.origin.y + p.y };
            r.push(q);
            proof {
                assert(pts(sh@)[i as int] == (p.x as int, p.y as int));
                assert(self.cells_seq()[i as int] == (
                    p.x as int + self.origin.x as int,
                    p.y as int + self.origin.y as int,
                ));
                assert(pts(r@)[i as int] == (q.x as int, q.y as int));
            }
            i += 1;
        }
        proof {
            assert(pts(r@) =~= self.cells_seq());
        }
        r
    }

    /// The orientation reached from the current one by `r`, via the fixed
    /// cyclic successor/predecessor mapping.
    pub fn get_angle_after_rotation(&self, r: TetrominoRotation) -> (a: TetrominoAngle)
        ensures
            a == spec_next_angle(self.angle, r),
    {
        match self.angle {
            TetrominoAngle::Degree0 => if r == TetrominoRotation::Clockwise {
                TetrominoAngle::Degree90
            } else {
                TetrominoAngle::Degree270
            },
            TetrominoAngle::Degree90 => if r == TetrominoRotation::Clockwise {
                TetrominoAngle::Degree180
            } else {
                TetrominoAngle::Degree0
            },
            TetrominoAngle::Degree180 => if r == TetrominoRotation::Clockwise {
                TetrominoAngle::Degree270
            } else {
                TetrominoAngle::Degree90
            },
            TetrominoAngle::Degree270 => if r == TetrominoRotation::Clockwise {
                TetrominoAngle::Degree0
            } else {
                TetrominoAngle::Degree180
            },
        }
    }

    /// Collision check for the hypothetical piece shifted by `(dx, dy)` with
    /// its orientation replaced if `rotation` is given: true iff that
    /// piece's cells are disjoint from the well's occupied cells.
    pub fn is_move_allowed(
        &self,
        dx: i8,
        dy: i8,
        rotation: Option<TetrominoRotation>,
        well: &Well,
    ) -> (r: bool)
        requires
            i8::MIN <= self.origin.x + dx,
            self.origin.x + dx + 3 <= i8::MAX,
            i8::MIN <= self.origin.y + dy,
            self.origin.y + dy + 3 <= i8::MAX,
        ensures
            r == self.spec_can_apply(dx as int, dy as int, rotation, well@),
    {
        let angle = match rotation {
            Option::Some(rot) => self.get_angle_after_rotation(rot),
            Option::None => self.angle,
        };
        let future = Tetromino {
            kind: self.kind,
            origin: Point { x: self.origin.x + dx, y: self.origin.y + dy },
            color: self.color,
            angle,
        };
        proof {
            assert(future.cells_seq() == Self::spec_cells_seq_at(
                self.kind,
                self.spec_target_angle(rotation),
                self.origin.x + dx,
                self.origin.y + dy,
            ));
        }
        let cells = future.get_current_set();
        let mut i: usize = 0;
        while i < cells.len()
            invariant
                0 <= i <= cells@.len(),
                pts(cells@) == future.cells_seq(),
                future.cells_seq() == Self::spec_cells_seq_at(
                    self.kind,
                    self.spec_target_angle(rotation),
                    self.origin.x as int + dx as int,
                    self.origin.y as int + dy as int,
                ),
                forall|k: int| 0 <= k < i ==> !well@.contains(#[trigger] pts(cells@)[k]),
            decreases cells@.len() - i,
        {
            if well.occupied(cells[i]) {
                proof {
                    let s = future.cells_seq();
                    assert(s[i as int] == pts(cells@)[i as int]);
                    assert(s.contains(s[i as int]));
                    assert(s.to_set().contains(s[i as int]));
                    assert(!s.to_set().disjoint(well@));
                }
                return false;
            }
            i += 1;
        }
        proof {
            let s = future.cells_seq();
            assert forall|c: (int, int)| s.to_set().contains(c) implies !well@.contains(c) by {
                let k = choose|k: int| 0 <= k < s.len() && s[k] == c;
                assert(pts(cells@)[k] == c);
            };
        }
        true
    }

    /// Shift the piece one cell to the left if legal; otherwise a no-op.
    pub fn move_left(&mut self, well: &Well)
        requires
            old(self).fits(),
            i8::MIN < old(self).origin.x,
        ensures
            *final(self) == old(self).spec_moved(-1, 0, well@),
    {
        if self.is_move_allowed(-1, 0, Option::None, well) {
            self.origin.x -= 1;
        }
    }

    /// Shift the piece one cell to the right if legal; otherwise a no-op.
    pub fn move_right(&mut self, well: &Well)
        requires
            old(self).origin.x + 4 <= i8::MAX,
            old(self).fits(),
        ensures
            *final(self) == old(self).spec_moved(1, 0, well@),
    {
        if self.is_move_allowed(1, 0, Option::None, well) {
            self.origin.x += 1;
        }
    }

    /// Rotate the piece in place if the target orientation is legal;
    /// otherwise a no-op.
    pub fn rotate(&mut self, rotation: TetrominoRotation, well: &Well)
        requires
            old(self).fits(),
        ensures
            *final(self) == old(self).spec_rotated(rotation, well@),
    {
        if self.is_move_allowed(0, 0, Option::Some(rotation), well) {
            self.angle = self.get_angle_after_rotation(rotation);
        }
    }

    /// Descend one cell if legal and report `false` (still falling);
    /// otherwise lock the piece into the well and report `true`. This is
    /// the single point where a falling piece becomes permanent grid state.
    pub fn move_down(&mut self, well: &mut Well) -> (locked: bool)
        requires
            old(self).fits(),
            old(self).origin.y + 4 <= i8::MAX,
            old(well).wf(),
        ensures
            locked == !old(self).spec_can_apply(0, 1, Option::None, old(well)@),
            !locked ==> *final(self) == old(self).spec_moved(0, 1, old(well)@) && *final(well)
                == *old(well),
            locked ==> *final(self) == *old(self) && final(well)@ == old(well)@.union(
                old(self).cells(),
            ),
            final(well).wf(),
            old(well)@.subset_of(final(well)@),
    {
        if self.is_move_allowed(0, 1, Option::None, well) {
            self.origin.y += 1;
            false
        } else {
            well.consume(self);
            true
        }
    }

    /// Does the piece currently cover the cell `p`?
    pub fn covers(&self, p: Point) -> (r: bool)
        requires
            self.fits(),
        ensures
            r == self.cells().contains(p@),
    {
        let cells = self.get_current_set();
        let mut i: usize = 0;
        while i < cells.len()
            invariant
                0 <= i <= cells@.len(),
                pts(cells@) == self.cells_seq(),
                forall|k: int| 0 <= k < i ==> #[trigger] pts(cells@)[k] != p@,
            decreases cells@.len() - i,
        {
            if cells[i] == p {
                proof {
                    let s = self.cells_seq();
                    assert(s[i as int] == p@);
                    assert(s.contains(p@));
                }
                return true;
            }
            i += 1;
        }
        proof {
            assert(!self.cells_seq().contains(p@));
        }
        false
    }

    /// A piece of a uniformly random kind at its spawn position.
    pub fn random() -> (r: Tetromino)
        ensures
            Tetromino::is_spawn(r),
            r.angle == TetrominoAngle::Degree0,
    {
        let n = random_kind_ordinal();
        let t = match n {
            1 => TetrominoType::I,
            2 => TetrominoType::L,
            3 => TetrominoType::J,
            4 => TetrominoType::O,
            5 => TetrominoType::S,
            6 => TetrominoType::T,
            _ => TetrominoType::Z,
        };
        let r = Tetromino::new(t);
        proof {
            assert(r == Tetromino::spec_new(t));
        }
        r
    }
}

/// Relies on rand::random_range: returns a value inside the given range,
/// here the discrete pick in [1, 7] that selects the spawned kind. Nothing
/// more is assumed of the draw.
#[verifier::external_body]
fn random_kind_ordinal() -> (r: u8)
    ensures
        1 <= r <= 7,
{
    rand::random_range(1u8..=7)
}

/// A legal left move shifts every occupied cell by exactly (-1, 0); an
/// illegal one leaves the piece, and so its cells, identical.
pub proof fn lemma_move_left_cells(p: Tetromino, well: Set<(int, int)>)
    requires
        i8::MIN < p.origin.x,
    ensures
        p.spec_can_apply(-1, 0, Option::None, well) ==> forall|c: (int, int)|
            p.spec_moved(-1, 0, well).cells().contains(c) <==> p.cells().contains(
                (c.0 + 1, c.1),
            ),
        !p.spec_can_apply(-1, 0, Option::None, well) ==> p.spec_moved(-1, 0, well) == p,
{
    if p.spec_can_apply(-1, 0, Option::None, well) {
        let q = p.spec_moved(-1, 0, well);
        assert forall|c: (int, int)| q.cells().contains(c) implies p.cells().contains(
            (c.0 + 1, c.1),
        ) by {
            let i = choose|i: int| 0 <= i < q.cells_seq().len() && q.cells_seq()[i] == c;
            assert(p.cells_seq()[i] == (c.0 + 1, c.1));
            assert(p.cells_seq().contains((c.0 + 1, c.1)));
        };
        assert forall|c: (int, int)| p.cells().contains((c.0 + 1, c.1)) implies q.cells().contains(
            c,
        ) by {
            let i = choose|i: int|
                0 <= i < p.cells_seq().len() && p.cells_seq()[i] == (c.0 + 1, c.1);
            assert(q.cells_seq()[i] == c);
            assert(q.cells_seq().contains(c));
        };
    }
}

/// Four clockwise rotations return a piece to its original orientation and
/// origin, provided every orientation of the piece is collision-free at its
/// current origin (each intermediate rotation is then accepted).
pub proof fn lemma_rotate_cw_four_times(p: Tetromino, well: Set<(int, int)>)
    requires
        forall|a: TetrominoAngle|
            Tetromino::spec_cells_seq_at(
                p.kind,
                a,
                p.origin.x as int,
                p.origin.y as int,
            ).to_set().disjoint(well),
    ensures
        p.spec_rotated(TetrominoRotation::Clockwise, well).spec_rotated(
            TetrominoRotation::Clockwise,
            well,
        ).spec_rotated(TetrominoRotation::Clockwise, well).spec_rotated(
            TetrominoRotation::Clockwise,
            well,
        ) == p,
{
    let cw = TetrominoRotation::Clockwise;
    let q1 = p.spec_rotated(cw, well);
    let q2 = q1.spec_rotated(cw, well);
    let q3 = q2.spec_rotated(cw, well);
    let q4 = q3.spec_rotated(cw, well);
    assert(q1.angle == spec_next_angle(p.angle, cw) && q1.origin == p.origin && q1.kind == p.kind);
    assert(q2.angle == spec_next_angle(q1.angle, cw) && q2.origin == p.origin && q2.kind == p.kind);
    assert(q3.angle == spec_next_angle(q2.angle, cw) && q3.origin == p.origin && q3.kind == p.kind);
    assert(q4.angle == spec_next_angle(q3.angle, cw) && q4.origin == p.origin && q4.kind == p.kind);
    lemma_angle_cycle(p.angle, cw);
}

/// A piece always occupies exactly 4 distinct absolute cells.
pub proof fn lemma_piece_cells_count(p: Tetromino)
    ensures
        p.cells_seq().len() == 4,
        p.cells().len() == 4,
{
    lemma_shape_four_distinct(p.kind, p.angle);
    let s = p.cells_seq();
    assert forall|i: int, j: int| 0 <= i < s.len() && 0 <= j < s.len() && i != j implies s[i]
        != s[j] by {
        assert(spec_shape(p.kind, p.angle)[i] != spec_shape(p.kind, p.angle)[j]);
    }
    s.unique_seq_to_set();
}

} // verus!
