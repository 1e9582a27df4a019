use vstd::prelude::*;

use crate::point::Point;
use crate::shapes::TetrominoRotation;
use crate::tetromino::Tetromino;
use crate::well::Well;

verus! {

/// Playfield width of the standard configuration.
pub const WELL_SIZE_X: i8 = 10;

/// Playfield height of the standard configuration.
pub const WELL_SIZE_Y: i8 = 20;

/// One game event, produced by the timer or the input reader and consumed
/// exactly once, in arrival order, by the game loop.
#[derive(Clone, Copy, Debug, PartialEq, Eq, Structural)]
pub enum TetrisEvent {
    MoveLeft,
    MoveRight,
    RotateCW,
    RotateCCW,
    Descend,
    Skip,
    Quit,
}

/// What a grid cell shows when rendered: a cell of the well (border or
/// locked piece), a cell of the falling piece, or nothing. Well cells win
/// over piece cells.
#[derive(Clone, Copy, Debug, PartialEq, Eq, Structural)]
pub enum CellContent {
    Stack,
    Piece,
    Empty,
}

/// Classify one cell for the external render adapter.
pub fn cell_content(well: &Well, tet: &Tetromino, p: Point) -> (r: CellContent)
    requires
        tet.fits(),
    ensures
        r == (if well@.contains(p@) {
            CellContent::Stack
        } else if tet.cells().contains(p@) {
            CellContent::Piece
        } else {
            CellContent::Empty
        }),
{
    if well.occupied(p) {
        CellContent::Stack
    } else if tet.covers(p) {
        CellContent::Piece
    } else {
        CellContent::Empty
    }
}

/// Apply one event to the game state, as the loop does for each received
/// event in arrival order. Movement and rotation delegate to the active
/// piece and are no-ops when illegal; `Descend` lowers the piece or, when
/// it cannot fall further, locks it into the well and replaces it with a
/// fresh random piece; `Skip` replaces the piece unconditionally without
/// locking; `Quit` leaves the state untouched. Returns true iff the loop
/// must stop. The well's occupied set never shrinks.
pub fn handle_event(tet: &mut Tetromino, well: &mut Well, event: TetrisEvent) -> (quit: bool)
    requires
        old(tet).can_step(),
        old(well).wf(),
    ensures
        final(well).wf(),
        old(well)@.subset_of(final(well)@),
        quit == (event == TetrisEvent::Quit),
        match event {
            TetrisEvent::MoveLeft => *final(tet) == old(tet).spec_moved(-1, 0, old(well)@)
                && *final(well) == *old(well),
            TetrisEvent::MoveRight => *final(tet) == old(tet).spec_moved(1, 0, old(well)@)
                && *final(well) == *old(well),
            TetrisEvent::RotateCW => *final(tet) == old(tet).spec_rotated(
                TetrominoRotation::Clockwise,
                old(well)@,
            ) && *final(well) == *old(well),
            TetrisEvent::RotateCCW => *final(tet) == old(tet).spec_rotated(
                TetrominoRotation::Counterclockwise,
                old(well)@,
            ) && *final(well) == *old(well),
            TetrisEvent::Descend => if old(tet).spec_can_apply(0, 1, Option::None, old(well)@) {
                *final(tet) == old(tet).spec_moved(0, 1, old(well)@) && *final(well) == *old(well)
            } else {
                final(well)@ == old(well)@.union(old(tet).cells()) && Tetromino::is_spawn(
                    *final(tet),
                )
            },
            TetrisEvent::Skip => *final(well) == *old(well) && Tetromino::is_spawn(*final(tet)),
            TetrisEvent::Quit => *final(tet) == *old(tet) && *final(well) == *old(well),
        },
{
    match event {
        TetrisEvent::MoveLeft => {
            tet.move_left(well);
            false
        },
        TetrisEvent::MoveRight => {
            tet.move_right(well);
            false
        },
        TetrisEvent::RotateCW => {
            tet.rotate(TetrominoRotation::Clockwise, well);
            false
        },
        TetrisEvent::RotateCCW => {
            tet.rotate(TetrominoRotation::Counterclockwise, well);
            false
        },
        TetrisEvent::Descend => {
            if tet.move_down(well) {
                *tet = Tetromino::random();
            }
            false
        },
        TetrisEvent::Skip => {
            *tet = Tetromino::random();
            false
        },
        TetrisEvent::Quit => true,
    }
}

} // verus!
