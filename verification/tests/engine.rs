use tetris::game::{cell_content, handle_event, CellContent, TetrisEvent, WELL_SIZE_X, WELL_SIZE_Y};
use tetris::point::Point;
use tetris::shapes::{shape, TetrominoAngle, TetrominoColor, TetrominoRotation, TetrominoType};
use tetris::tetromino::Tetromino;
use tetris::well::Well;

fn all_kinds() -> [TetrominoType; 7] {
    [
        TetrominoType::I,
        TetrominoType::L,
        TetrominoType::J,
        TetrominoType::O,
        TetrominoType::S,
        TetrominoType::T,
        TetrominoType::Z,
    ]
}

fn all_angles() -> [TetrominoAngle; 4] {
    [
        TetrominoAngle::Degree0,
        TetrominoAngle::Degree90,
        TetrominoAngle::Degree180,
        TetrominoAngle::Degree270,
    ]
}

fn contains_point(cells: &[Point], p: Point) -> bool {
    cells.iter().any(|c| *c == p)
}

fn same_cell_set(a: &[Point], b: &[Point]) -> bool {
    a.len() == b.len() && a.iter().all(|p| contains_point(b, *p))
}

#[test]
fn every_shape_has_four_distinct_cells() {
    for t in all_kinds() {
        for a in all_angles() {
            let cells = shape(t, a);
            assert_eq!(cells.len(), 4);
            for i in 0..4 {
                for j in 0..4 {
                    if i != j {
                        assert_ne!(cells[i], cells[j], "{:?} {:?}", t, a);
                    }
                }
            }
        }
    }
}

#[test]
fn o_piece_shape_is_constant_across_rotations() {
    let base = shape(TetrominoType::O, TetrominoAngle::Degree0);
    for a in all_angles() {
        assert!(same_cell_set(&shape(TetrominoType::O, a), &base));
    }
}

#[test]
fn i_piece_shape_at_zero_degrees() {
    let cells = shape(TetrominoType::I, TetrominoAngle::Degree0);
    for x in 0..4 {
        assert!(contains_point(&cells, Point { x, y: 1 }));
    }
}

#[test]
fn move_left_shifts_every_cell_by_one() {
    let well = Well::new(WELL_SIZE_X, WELL_SIZE_Y);
    let mut tet = Tetromino::new(TetrominoType::O);
    let before = tet.get_current_set();
    tet.move_left(&well);
    let after = tet.get_current_set();
    let shifted: Vec<Point> = before.iter().map(|p| Point { x: p.x - 1, y: p.y }).collect();
    assert!(same_cell_set(&after, &shifted));
}

#[test]
fn move_left_blocked_is_a_no_op() {
    let well = Well::new(WELL_SIZE_X, WELL_SIZE_Y);
    let mut tet = Tetromino::new(TetrominoType::O);
    tet.move_left(&well);
    tet.move_left(&well);
    let before = tet.get_current_set();
    let origin_before = tet.origin;
    tet.move_left(&well);
    assert_eq!(tet.origin, origin_before);
    assert!(same_cell_set(&tet.get_current_set(), &before));
}

#[test]
fn four_clockwise_rotations_restore_the_piece() {
    let well = Well::new(WELL_SIZE_X, WELL_SIZE_Y);
    let mut tet = Tetromino::new(TetrominoType::T);
    // Move to the middle of the well so every orientation is legal.
    tet.move_down(&mut Well::new(WELL_SIZE_X, WELL_SIZE_Y));
    let start = tet;
    for _ in 0..4 {
        tet.rotate(TetrominoRotation::Clockwise, &well);
    }
    assert_eq!(tet.angle, start.angle);
    assert_eq!(tet.origin, start.origin);
    assert_eq!(tet, start);
}

#[test]
fn four_counterclockwise_rotations_restore_the_piece() {
    let well = Well::new(WELL_SIZE_X, WELL_SIZE_Y);
    let mut tet = Tetromino::new(TetrominoType::L);
    let start = tet;
    for _ in 0..4 {
        tet.rotate(TetrominoRotation::Counterclockwise, &well);
    }
    assert_eq!(tet, start);
}

#[test]
fn rotation_mapping_cycles_both_ways() {
    for a in all_angles() {
        let tet = Tetromino {
            angle: a,
            ..Tetromino::new(TetrominoType::J)
        };
        let cw = tet.get_angle_after_rotation(TetrominoRotation::Clockwise);
        let back = Tetromino { angle: cw, ..tet }
            .get_angle_after_rotation(TetrominoRotation::Counterclockwise);
        assert_eq!(back, a);
    }
}

#[test]
fn new_well_holds_exactly_the_border() {
    let well = Well::new(WELL_SIZE_X, WELL_SIZE_Y);
    // Two walls of 20 cells each plus a floor of 10, with the two floor
    // corners counted once: 20 + 20 + 10 - 2.
    assert_eq!(well.len(), 48);
    for y in 0..WELL_SIZE_Y {
        for x in 0..WELL_SIZE_X {
            let expected = x == 0 || x == WELL_SIZE_X - 1 || y == WELL_SIZE_Y - 1;
            assert_eq!(well.occupied(Point { x, y }), expected, "({}, {})", x, y);
        }
    }
    assert!(!well.occupied(Point { x: 5, y: 25 }));
}

#[test]
fn absorb_is_monotonic_and_idempotent() {
    let mut well = Well::new(WELL_SIZE_X, WELL_SIZE_Y);
    let before: Vec<Point> = (0..WELL_SIZE_Y)
        .flat_map(|y| (0..WELL_SIZE_X).map(move |x| Point { x, y }))
        .filter(|p| well.occupied(*p))
        .collect();
    let tet = Tetromino::new(TetrominoType::S);
    well.consume(&tet);
    for p in &before {
        assert!(well.occupied(*p));
    }
    for p in tet.get_current_set() {
        assert!(well.occupied(p));
    }
    let len_once = well.len();
    well.consume(&tet);
    assert_eq!(well.len(), len_once);
}

#[test]
fn collision_check_matches_brute_force_on_random_placements() {
    let mut well = Well::new(WELL_SIZE_X, WELL_SIZE_Y);
    // Litter the well with a few randomly placed locked pieces.
    for _ in 0..4 {
        let mut junk = Tetromino::new(all_kinds()[rand::random_range(0..7usize)]);
        junk.origin = Point {
            x: rand::random_range(0..7i8),
            y: rand::random_range(8..16i8),
        };
        well.consume(&junk);
    }
    for _ in 0..200 {
        let mut tet = Tetromino::new(all_kinds()[rand::random_range(0..7usize)]);
        tet.origin = Point {
            x: rand::random_range(-2..9i8),
            y: rand::random_range(-2..19i8),
        };
        let dx: i8 = rand::random_range(-1..2i8);
        let dy: i8 = rand::random_range(-1..2i8);
        let allowed = tet.is_move_allowed(dx, dy, None, &well);
        let hypothetical = Tetromino {
            origin: Point { x: tet.origin.x + dx, y: tet.origin.y + dy },
            ..tet
        };
        let intersects = hypothetical
            .get_current_set()
            .iter()
            .any(|p| well.occupied(*p));
        assert_eq!(allowed, !intersects);
    }
}

#[test]
fn rotation_check_matches_brute_force() {
    let well = Well::new(WELL_SIZE_X, WELL_SIZE_Y);
    for t in all_kinds() {
        for a in all_angles() {
            for x in -1..9i8 {
                let tet = Tetromino {
                    angle: a,
                    origin: Point { x, y: 10 },
                    ..Tetromino::new(t)
                };
                let allowed = tet.is_move_allowed(
                    0,
                    0,
                    Some(TetrominoRotation::Clockwise),
                    &well,
                );
                let target = tet.get_angle_after_rotation(TetrominoRotation::Clockwise);
                let rotated = Tetromino { angle: target, ..tet };
                let intersects = rotated
                    .get_current_set()
                    .iter()
                    .any(|p| well.occupied(*p));
                assert_eq!(allowed, !intersects);
            }
        }
    }
}

#[test]
fn o_piece_stops_against_the_left_wall() {
    let well = Well::new(WELL_SIZE_X, WELL_SIZE_Y);
    let mut tet = Tetromino::new(TetrominoType::O);
    assert_eq!(tet.origin, Point { x: 2, y: 0 });
    assert_eq!(tet.angle, TetrominoAngle::Degree0);
    // Move left until the piece's leftmost cell sits at x == 1, adjacent
    // to the wall at x == 0.
    let mut moves = 0;
    loop {
        let leftmost = tet.get_current_set().iter().map(|p| p.x).min().unwrap();
        if leftmost == 1 {
            break;
        }
        tet.move_left(&well);
        moves += 1;
        assert!(moves <= 10, "piece never reached the wall");
    }
    assert_eq!(moves, 2);
    // A further move is a no-op: the wall blocks it.
    let before = tet;
    tet.move_left(&well);
    assert_eq!(tet, before);
    let leftmost = tet.get_current_set().iter().map(|p| p.x).min().unwrap();
    assert_eq!(leftmost, 1);
}

#[test]
fn i_piece_descends_until_it_locks_on_the_floor() {
    let mut well = Well::new(WELL_SIZE_X, WELL_SIZE_Y);
    let mut tet = Tetromino::new(TetrominoType::I);
    let mut steps = 0;
    loop {
        let len_before = well.len();
        let quit = handle_event(&mut tet, &mut well, TetrisEvent::Descend);
        assert!(!quit);
        if well.len() > len_before {
            break;
        }
        steps += 1;
        assert!(steps <= 30, "piece never locked");
    }
    // The I-piece comes to rest on the floor, occupying row 18.
    for x in 2..6i8 {
        assert!(well.occupied(Point { x, y: 18 }), "({}, 18) not locked", x);
    }
    assert_eq!(well.len(), 48 + 4);
    // A fresh random piece has replaced the locked one.
    assert_eq!(tet.angle, TetrominoAngle::Degree0);
    assert_eq!(tet.origin.y, 0);
    assert!(tet.origin.x == 2 || tet.origin.x == 3);
}

#[test]
fn skip_discards_the_piece_without_touching_the_well() {
    let mut well = Well::new(WELL_SIZE_X, WELL_SIZE_Y);
    let mut tet = Tetromino::new(TetrominoType::Z);
    // Mid-fall.
    handle_event(&mut tet, &mut well, TetrisEvent::Descend);
    handle_event(&mut tet, &mut well, TetrisEvent::Descend);
    let len_before = well.len();
    let quit = handle_event(&mut tet, &mut well, TetrisEvent::Skip);
    assert!(!quit);
    assert_eq!(well.len(), len_before);
    // The replacement is freshly spawned.
    assert_eq!(tet.angle, TetrominoAngle::Degree0);
    assert_eq!(tet.origin.y, 0);
    assert!(tet.origin.x == 2 || tet.origin.x == 3);
}

#[test]
fn quit_stops_the_loop_and_changes_nothing() {
    let mut well = Well::new(WELL_SIZE_X, WELL_SIZE_Y);
    let mut tet = Tetromino::new(TetrominoType::J);
    let before = tet;
    let len_before = well.len();
    assert!(handle_event(&mut tet, &mut well, TetrisEvent::Quit));
    assert_eq!(tet, before);
    assert_eq!(well.len(), len_before);
    assert!(!handle_event(&mut tet, &mut well, TetrisEvent::MoveRight));
}

#[test]
fn handle_event_moves_and_rotates_like_the_piece_methods() {
    let mut well = Well::new(WELL_SIZE_X, WELL_SIZE_Y);
    let mut tet = Tetromino::new(TetrominoType::T);
    let mut reference = tet;
    handle_event(&mut tet, &mut well, TetrisEvent::MoveRight);
    reference.move_right(&Well::new(WELL_SIZE_X, WELL_SIZE_Y));
    assert_eq!(tet, reference);
    handle_event(&mut tet, &mut well, TetrisEvent::MoveLeft);
    reference.move_left(&Well::new(WELL_SIZE_X, WELL_SIZE_Y));
    assert_eq!(tet, reference);
    handle_event(&mut tet, &mut well, TetrisEvent::RotateCW);
    reference.rotate(
        TetrominoRotation::Clockwise,
        &Well::new(WELL_SIZE_X, WELL_SIZE_Y),
    );
    assert_eq!(tet, reference);
    handle_event(&mut tet, &mut well, TetrisEvent::RotateCCW);
    reference.rotate(
        TetrominoRotation::Counterclockwise,
        &Well::new(WELL_SIZE_X, WELL_SIZE_Y),
    );
    assert_eq!(tet, reference);
}

#[test]
fn random_pieces_are_valid_spawns() {
    let mut seen = std::collections::HashSet::new();
    for _ in 0..200 {
        let tet = Tetromino::random();
        let expected = Tetromino::new(tet.kind);
        assert_eq!(tet, expected);
        assert_eq!(tet.angle, TetrominoAngle::Degree0);
        assert_eq!(tet.color, Tetromino::new(tet.kind).color);
        seen.insert(format!("{:?}", tet.kind));
    }
    // With 200 uniform draws, seeing only one kind would be astronomically
    // unlikely; this guards against the spawn ignoring the random draw.
    assert!(seen.len() > 1);
}

#[test]
fn piece_colors_follow_the_catalog() {
    let cases = [
        (TetrominoType::I, TetrominoColor::Cyan),
        (TetrominoType::J, TetrominoColor::Blue),
        (TetrominoType::L, TetrominoColor::Yellow),
        (TetrominoType::O, TetrominoColor::LightYellow),
        (TetrominoType::S, TetrominoColor::Green),
        (TetrominoType::T, TetrominoColor::Magenta),
        (TetrominoType::Z, TetrominoColor::Red),
    ];
    for (t, c) in cases {
        assert_eq!(Tetromino::new(t).get_color(), c);
    }
}

#[test]
fn cell_content_classifies_for_rendering() {
    let well = Well::new(WELL_SIZE_X, WELL_SIZE_Y);
    let tet = Tetromino::new(TetrominoType::O);
    assert_eq!(cell_content(&well, &tet, Point { x: 0, y: 0 }), CellContent::Stack);
    assert_eq!(cell_content(&well, &tet, Point { x: 9, y: 19 }), CellContent::Stack);
    // The O-piece at spawn covers x in {3, 4}, y in {0, 1}.
    assert_eq!(cell_content(&well, &tet, Point { x: 3, y: 0 }), CellContent::Piece);
    assert_eq!(cell_content(&well, &tet, Point { x: 4, y: 1 }), CellContent::Piece);
    assert_eq!(cell_content(&well, &tet, Point { x: 5, y: 5 }), CellContent::Empty);
}
