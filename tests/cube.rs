use cube_clock::cube::{Cube, PIECE_COUNT};
use cube_clock::face::{is_piece_on_face, turn_piece, Axis, CubePiece, Face};
use cube_clock::rotation::{auto_rotate, rotate_face, RotationState, QUARTER_TURN_NANOS};

const ALL_FACES: [Face; 6] = [Face::Front, Face::Back, Face::Left, Face::Right, Face::Up, Face::Down];

fn coords(cube: &Cube) -> Vec<CubePiece> {
    (0..cube.len()).map(|i| cube.piece(i)).collect()
}

fn random_for(face: Face) -> u32 {
    (0..6).find(|r| Face::from_random(*r) == face).unwrap()
}

/// Runs one full turn of `face` in a single tick.
fn full_turn(state: &mut RotationState, cube: &mut Cube, face: Face) {
    auto_rotate(state, random_for(face));
    let t = rotate_face(state, cube, QUARTER_TURN_NANOS);
    assert!(t.completed);
}

#[test]
fn fresh_cube_fills_the_grid() {
    let cube = Cube::new();
    let c = coords(&cube);
    assert_eq!(c.len(), PIECE_COUNT);
    for (i, p) in c.iter().enumerate() {
        assert!((-1..=1).contains(&p.x) && (-1..=1).contains(&p.y) && (-1..=1).contains(&p.z));
        assert!(!(p.x == 0 && p.y == 0 && p.z == 0));
        for q in &c[i + 1..] {
            assert_ne!(p, q);
        }
    }
    assert_eq!(c[0], CubePiece { x: -1, y: -1, z: -1 });
    assert_eq!(c[12], CubePiece { x: 0, y: 0, z: -1 });
    assert_eq!(c[13], CubePiece { x: 0, y: 0, z: 1 });
    assert_eq!(c[25], CubePiece { x: 1, y: 1, z: 1 });
}

#[test]
fn residues_pick_each_face_once() {
    let faces: Vec<Face> = (0..6).map(Face::from_random).collect();
    for f in ALL_FACES {
        assert_eq!(faces.iter().filter(|g| **g == f).count(), 1);
    }
    assert_eq!(Face::from_random(0), Face::Front);
    assert_eq!(Face::from_random(5), Face::Back);
    assert_eq!(Face::from_random(2), Face::Left);
    assert_eq!(Face::from_random(4), Face::Right);
    assert_eq!(Face::from_random(1), Face::Up);
    assert_eq!(Face::from_random(3), Face::Down);
    assert_eq!(Face::from_random(u32::MAX), Face::Down);
}

#[test]
fn faces_have_their_axis_and_direction() {
    assert_eq!((Face::Front.axis(), Face::Front.direction()), (Axis::Z, 1));
    assert_eq!((Face::Back.axis(), Face::Back.direction()), (Axis::Z, -1));
    assert_eq!((Face::Left.axis(), Face::Left.direction()), (Axis::X, -1));
    assert_eq!((Face::Right.axis(), Face::Right.direction()), (Axis::X, 1));
    assert_eq!((Face::Up.axis(), Face::Up.direction()), (Axis::Y, 1));
    assert_eq!((Face::Down.axis(), Face::Down.direction()), (Axis::Y, -1));
    assert_eq!(Face::Left.center(), CubePiece { x: -1, y: 0, z: 0 });
}

#[test]
fn permutation_table() {
    let p = CubePiece { x: 1, y: -1, z: 0 };
    assert_eq!(turn_piece(&p, Face::Front), CubePiece { x: 1, y: 1, z: 0 });
    assert_eq!(turn_piece(&p, Face::Back), CubePiece { x: -1, y: -1, z: 0 });
    assert_eq!(turn_piece(&p, Face::Left), CubePiece { x: 1, y: 0, z: 1 });
    assert_eq!(turn_piece(&p, Face::Right), CubePiece { x: 1, y: 0, z: -1 });
    assert_eq!(turn_piece(&p, Face::Up), CubePiece { x: 0, y: -1, z: -1 });
    assert_eq!(turn_piece(&p, Face::Down), CubePiece { x: 0, y: -1, z: 1 });
}

#[test]
fn four_turns_of_a_coordinate_are_identity() {
    for f in ALL_FACES {
        for p in coords(&Cube::new()) {
            let mut q = p;
            for _ in 0..4 {
                q = turn_piece(&q, f);
            }
            assert_eq!(q, p);
            assert_eq!(is_piece_on_face(&turn_piece(&p, f), f), is_piece_on_face(&p, f));
        }
    }
}

#[test]
fn front_turn_in_one_tick() {
    let mut cube = Cube::new();
    let before = coords(&cube);
    let mut state = RotationState::new();
    auto_rotate(&mut state, 0);
    assert_eq!(state.current_face, Face::Front);
    assert_eq!(state.rotation_direction, 1);
    assert!(state.is_rotating);
    let t = rotate_face(&mut state, &mut cube, 1_000_000_000);
    assert!(state.progress >= QUARTER_TURN_NANOS);
    assert!(!state.is_rotating);
    assert!(t.completed);
    assert_eq!(t.moved.len(), 9);
    let after = coords(&cube);
    for i in 0..PIECE_COUNT {
        let p = before[i];
        if p.z == 1 {
            assert!(t.moved.contains(&i));
            assert_eq!(after[i], CubePiece { x: -p.y, y: p.x, z: p.z });
        } else {
            assert!(!t.moved.contains(&i));
            assert_eq!(after[i], p);
        }
    }
}

#[test]
fn quarter_ticks_equal_one_tick() {
    let mut cube_a = Cube::new();
    let mut state_a = RotationState::new();
    auto_rotate(&mut state_a, 4);
    let mut cube_b = Cube::new();
    let mut state_b = state_a;
    for k in 0..4 {
        let t = rotate_face(&mut state_a, &mut cube_a, 250_000_000);
        assert_eq!(t.moved.len(), 9);
        assert_eq!(t.completed, k == 3);
    }
    rotate_face(&mut state_b, &mut cube_b, 1_000_000_000);
    assert_eq!(state_a, state_b);
    assert_eq!(coords(&cube_a), coords(&cube_b));
}

#[test]
fn selector_is_a_no_op_while_turning() {
    let mut state = RotationState::new();
    auto_rotate(&mut state, 3);
    let mut cube = Cube::new();
    rotate_face(&mut state, &mut cube, 100);
    let before = state;
    for r in 0..12 {
        auto_rotate(&mut state, r);
        assert_eq!(state, before);
    }
    assert_eq!(state.current_face, Face::Down);
    assert_eq!(state.progress, 100);
}

#[test]
fn four_completed_turns_restore_the_cube() {
    for f in ALL_FACES {
        let mut cube = Cube::new();
        let mut state = RotationState::new();
        let start = coords(&cube);
        for k in 0..4 {
            full_turn(&mut state, &mut cube, f);
            assert_eq!(coords(&cube) == start, k == 3);
        }
    }
}

#[test]
fn zero_tick_changes_nothing() {
    let mut cube = Cube::new();
    let mut state = RotationState::new();
    auto_rotate(&mut state, 1);
    rotate_face(&mut state, &mut cube, 0);
    assert_eq!(state.progress, 0);
    assert!(state.is_rotating);
    assert_eq!(coords(&cube), coords(&Cube::new()));
}

#[test]
fn idle_tick_changes_nothing() {
    let mut cube = Cube::new();
    let mut state = RotationState::new();
    let t = rotate_face(&mut state, &mut cube, 5_000_000_000);
    assert!(t.moved.is_empty());
    assert!(!t.completed);
    assert_eq!(state, RotationState::new());
}

#[test]
fn huge_tick_saturates_and_completes() {
    let mut cube = Cube::new();
    let mut state = RotationState::new();
    auto_rotate(&mut state, 2);
    rotate_face(&mut state, &mut cube, QUARTER_TURN_NANOS - 1);
    let t = rotate_face(&mut state, &mut cube, u64::MAX);
    assert!(t.completed);
    assert_eq!(state.progress, u64::MAX);
    auto_rotate(&mut state, 0);
    assert_eq!(state.progress, 0);
    assert_eq!(state.current_face, Face::Front);
}

#[test]
fn random_turns_keep_the_grid_full() {
    let mut cube = Cube::new();
    let mut state = RotationState::new();
    let mut seed: u32 = 12345;
    for _ in 0..200 {
        seed = seed.wrapping_mul(1_103_515_245).wrapping_add(12_345);
        auto_rotate(&mut state, seed >> 8);
        let t = rotate_face(&mut state, &mut cube, 300_000_000 + (seed % 500_000_000) as u64);
        assert_eq!(t.moved.len(), 9);
        let mut c = coords(&cube);
        c.sort_by_key(|p| (p.x, p.y, p.z));
        assert_eq!(c, coords(&Cube::new()));
    }
}
