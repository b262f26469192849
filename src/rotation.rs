//! The rotation state machine: a selector that starts a quarter turn of a
//! random face when none is in flight, and an animator that advances the turn
//! and, once it is complete, moves the turned pieces to their new cells.
use vstd::prelude::*;

use crate::cube::{turned_pieces, Cube};
use crate::face::{axis_of, direction_of, face_of_residue, on_face, Axis, CubePiece, Face};

verus! {

/// Time a quarter turn takes, in nanoseconds: one second.
pub const QUARTER_TURN_NANOS: u64 = 1_000_000_000;

/// Which face is turning, about which axis, and how far the turn has come.
#[derive(Debug, Clone, Copy, PartialEq, Eq, Structural)]
pub struct RotationState {
    pub is_rotating: bool,
    pub current_face: Face,
    pub rotation_axis: Axis,
    pub rotation_direction: i8,
    /// Nanoseconds since the current turn began.
    pub progress: u64,
}

/// What one tick of the animator did to the pieces.
#[derive(Debug)]
pub struct FaceTurn {
    /// Indices of the pieces that turned in this tick, in increasing order.
    pub moved: Vec<usize>,
    /// Whether the turn completed in this tick and the moved pieces took their new cells.
    pub completed: bool,
}

/// The state right after a turn of `f` starts.
pub open spec fn started(f: Face) -> RotationState {
    RotationState {
        is_rotating: true,
        current_face: f,
        rotation_axis: axis_of(f),
        rotation_direction: direction_of(f) as i8,
        progress: 0,
    }
}

/// Progress after `delta` more nanoseconds, saturating at the largest value.
pub open spec fn advanced(progress: u64, delta: u64) -> u64 {
    if progress + delta > u64::MAX {
        u64::MAX
    } else {
        (progress + delta) as u64
    }
}

impl RotationState {
    /// Axis and direction belong to the current face, and a turn in flight
    /// has not yet reached its end.
    pub open spec fn wf(&self) -> bool {
        &&& self.rotation_axis == axis_of(self.current_face)
        &&& self.rotation_direction as int == direction_of(self.current_face)
        &&& self.is_rotating ==> self.progress < QUARTER_TURN_NANOS
    }

    /// The idle state before the first turn.
    pub fn new() -> (s: RotationState)
        ensures
            s.wf(),
            !s.is_rotating,
            s.current_face == Face::Front,
            s.progress == 0,
    {
        RotationState {
            is_rotating: false,
            current_face: Face::Front,
            rotation_axis: Axis::Z,
            rotation_direction: 1,
            progress: 0,
        }
    }
}

/// Starts a turn of the face that the random draw `random` picks (by its
/// residue modulo six), unless a turn is already in flight.
pub fn auto_rotate(state: &mut RotationState, random: u32)
    requires
        old(state).wf(),
    ensures
        final(state).wf(),
        old(state).is_rotating ==> *final(state) == *old(state),
        !old(state).is_rotating ==> *final(state) == started(face_of_residue(random as int % 6)),
{
    if state.is_rotating {
        return;
    }
    let face = Face::from_random(random);
    state.is_rotating = true;
    state.current_face = face;
    state.rotation_axis = face.axis();
    state.rotation_direction = face.direction();
    state.progress = 0;
}

/// What one animator tick of `delta` nanoseconds does: from state `s0` and
/// pieces `c0` to state `s1` and pieces `c1`, turning the pieces `moved` and
/// completing the turn or not.
pub open spec fn animated(
    s0: RotationState,
    c0: Seq<CubePiece>,
    delta: u64,
    s1: RotationState,
    c1: Seq<CubePiece>,
    moved: Seq<usize>,
    completed: bool,
) -> bool {
    if !s0.is_rotating {
        &&& s1 == s0
        &&& c1 == c0
        &&& moved.len() == 0
        &&& !completed
    } else {
        let f = s0.current_face;
        let p = advanced(s0.progress, delta);
        &&& s1.progress == p
        &&& completed == (p >= QUARTER_TURN_NANOS)
        &&& s1.is_rotating == !completed
        &&& s1.current_face == f
        &&& s1.rotation_axis == s0.rotation_axis
        &&& s1.rotation_direction == s0.rotation_direction
        &&& c1 == if completed { turned_pieces(c0, f) } else { c0 }
        &&& moved.len() == 9
        &&& forall|k: int| 0 <= k < moved.len() ==> moved[k] < c0.len() && on_face(c0[moved[k] as int], f)
        &&& forall|a: int, b: int| 0 <= a < b < moved.len() ==> moved[a] < moved[b]
        &&& forall|i: int| 0 <= i < c0.len() && on_face(#[trigger] c0[i], f) ==> moved.contains(i as usize)
    }
}

/// Two animator ticks of `a` and then `b` nanoseconds leave the state and the
/// pieces as one tick of `a + b` does, when the first tick does not yet
/// complete the turn.
pub proof fn lemma_ticks_add(
    s0: RotationState,
    c0: Seq<CubePiece>,
    a: u64,
    b: u64,
    s1: RotationState,
    c1: Seq<CubePiece>,
    m1: Seq<usize>,
    d1: bool,
    s2: RotationState,
    c2: Seq<CubePiece>,
    m2: Seq<usize>,
    d2: bool,
    s3: RotationState,
    c3: Seq<CubePiece>,
    m3: Seq<usize>,
    d3: bool,
)
    requires
        s0.wf(),
        a + b <= u64::MAX,
        s0.is_rotating ==> s0.progress + a < QUARTER_TURN_NANOS,
        animated(s0, c0, a, s1, c1, m1, d1),
        animated(s1, c1, b, s2, c2, m2, d2),
        animated(s0, c0, (a + b) as u64, s3, c3, m3, d3),
    ensures
        s2 == s3,
        c2 == c3,
        d2 == d3,
{
}

/// The state after the selector runs with the draw `random`, if it runs.
pub open spec fn selected(s: RotationState, random: Option<u32>) -> RotationState {
    match random {
        Some(r) => if s.is_rotating { s } else { started(face_of_residue(r as int % 6)) },
        None => s,
    }
}

/// Advances a turn in flight by `delta` nanoseconds. Every piece on the
/// turning face (by its logical coordinate) turns with it; when the turn has
/// lasted a quarter-turn time, those pieces take their new cells and the
/// state goes idle. An idle state and the cube are left as they are.
pub fn rotate_face(state: &mut RotationState, cube: &mut Cube, delta: u64) -> (t: FaceTurn)
    requires
        old(state).wf(),
        old(cube).wf(),
    ensures
        final(state).wf(),
        final(cube).wf(),
        animated(*old(state), old(cube)@, delta, *final(state), final(cube)@, t.moved@, t.completed),
{
    if !state.is_rotating {
        return FaceTurn { moved: Vec::new(), completed: false };
    }
    state.progress = state.progress.saturating_add(delta);
    let moved = cube.pieces_on_face(state.current_face);
    let completed = state.progress >= QUARTER_TURN_NANOS;
    if completed {
        cube.update_cube_positions(state.current_face);
        state.is_rotating = false;
    }
    FaceTurn { moved, completed }
}

/// One tick of the cube: when the selector is due, `random` holds its draw
/// and a turn starts unless one is in flight; then the animator advances by
/// `delta` nanoseconds.
pub fn tick(state: &mut RotationState, cube: &mut Cube, random: Option<u32>, delta: u64) -> (t: FaceTurn)
    requires
        old(state).wf(),
        old(cube).wf(),
    ensures
        final(state).wf(),
        final(cube).wf(),
        animated(selected(*old(state), random), old(cube)@, delta, *final(state), final(cube)@, t.moved@, t.completed),
{
    if let Some(r) = random {
        auto_rotate(state, r);
    }
    rotate_face(state, cube, delta)
}

} // verus!
