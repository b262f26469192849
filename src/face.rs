//! Faces of the cube, the pieces' grid coordinates, and the quarter-turn
//! permutation of those coordinates.
use vstd::prelude::*;

verus! {

/// One of the six faces of the cube.
#[derive(Clone, Copy, Debug, PartialEq, Eq, Structural)]
pub enum Face {
    Front,
    Back,
    Left,
    Right,
    Up,
    Down,
}

/// A coordinate axis; each face turns about one of them.
#[derive(Clone, Copy, Debug, PartialEq, Eq, Structural)]
pub enum Axis {
    X,
    Y,
    Z,
}

/// The logical grid coordinate of one piece.
#[derive(Clone, Copy, Debug, PartialEq, Eq, Structural)]
pub struct CubePiece {
    pub x: i32,
    pub y: i32,
    pub z: i32,
}

/// Whether every component lies in `{-1, 0, 1}`.
pub open spec fn in_range(p: CubePiece) -> bool {
    -1 <= p.x <= 1 && -1 <= p.y <= 1 && -1 <= p.z <= 1
}

/// Whether `p` is a cell of the grid that holds a piece: in range and not the center.
pub open spec fn is_cell(p: CubePiece) -> bool {
    in_range(p) && !(p.x == 0 && p.y == 0 && p.z == 0)
}

/// The membership predicate of a face: the face's coordinate equals its layer.
pub open spec fn on_face(p: CubePiece, f: Face) -> bool {
    match f {
        Face::Front => p.z == 1,
        Face::Back => p.z == -1,
        Face::Left => p.x == -1,
        Face::Right => p.x == 1,
        Face::Up => p.y == 1,
        Face::Down => p.y == -1,
    }
}

/// The coordinate that a piece at `p` moves to in a quarter turn of `f`.
pub open spec fn turned(p: CubePiece, f: Face) -> CubePiece {
    match f {
        Face::Front => CubePiece { x: (-p.y) as i32, y: p.x, z: p.z },
        Face::Back => CubePiece { x: p.y, y: (-p.x) as i32, z: p.z },
        Face::Left => CubePiece { x: p.x, y: p.z, z: (-p.y) as i32 },
        Face::Right => CubePiece { x: p.x, y: (-p.z) as i32, z: p.y },
        Face::Up => CubePiece { x: p.z, y: p.y, z: (-p.x) as i32 },
        Face::Down => CubePiece { x: (-p.z) as i32, y: p.y, z: p.x },
    }
}

/// The axis that a face turns about.
pub open spec fn axis_of(f: Face) -> Axis {
    match f {
        Face::Front | Face::Back => Axis::Z,
        Face::Left | Face::Right => Axis::X,
        Face::Up | Face::Down => Axis::Y,
    }
}

/// The fixed turn sign of a face about its axis.
pub open spec fn direction_of(f: Face) -> int {
    match f {
        Face::Front | Face::Right | Face::Up => 1,
        Face::Back | Face::Left | Face::Down => -1,
    }
}

/// The face chosen for a residue of a random draw modulo six.
pub open spec fn face_of_residue(r: int) -> Face {
    if r == 0 {
        Face::Front
    } else if r == 1 {
        Face::Up
    } else if r == 2 {
        Face::Left
    } else if r == 3 {
        Face::Down
    } else if r == 4 {
        Face::Right
    } else {
        Face::Back
    }
}

/// Where a quarter turn of `f` leaves `p`: turned if it lies on the face, else unmoved.
pub open spec fn stepped(p: CubePiece, f: Face) -> CubePiece {
    if on_face(p, f) {
        turned(p, f)
    } else {
        p
    }
}

/// A quarter turn keeps a piece in range, keeps it off the center, and keeps
/// it on (or off) the turning face; two distinct pieces stay distinct.
pub proof fn lemma_turn_keeps_cell(p: CubePiece, q: CubePiece, f: Face)
    requires
        in_range(p),
        in_range(q),
    ensures
        in_range(turned(p, f)),
        is_cell(p) ==> is_cell(turned(p, f)),
        on_face(turned(p, f), f) == on_face(p, f),
        in_range(stepped(p, f)),
        is_cell(p) ==> is_cell(stepped(p, f)),
        on_face(stepped(p, f), f) == on_face(p, f),
        p != q ==> stepped(p, f) != stepped(q, f),
{
}

/// Four quarter turns of the same face bring every in-range coordinate back
/// to where it started.
pub proof fn lemma_four_turns_identity(p: CubePiece, f: Face)
    requires
        in_range(p),
    ensures
        turned(turned(turned(turned(p, f), f), f), f) == p,
        stepped(stepped(stepped(stepped(p, f), f), f), f) == p,
{
    lemma_turn_keeps_cell(p, p, f);
    lemma_turn_keeps_cell(turned(p, f), p, f);
    lemma_turn_keeps_cell(turned(turned(p, f), f), p, f);
}

/// Whether `p` lies on face `f`, by its logical coordinate.
pub fn is_piece_on_face(p: &CubePiece, f: Face) -> (r: bool)
    ensures
        r == on_face(*p, f),
{
    match f {
        Face::Front => p.z == 1,
        Face::Back => p.z == -1,
        Face::Left => p.x == -1,
        Face::Right => p.x == 1,
        Face::Up => p.y == 1,
        Face::Down => p.y == -1,
    }
}

/// The coordinate after a quarter turn of `f`.
pub fn turn_piece(p: &CubePiece, f: Face) -> (r: CubePiece)
    requires
        in_range(*p),
    ensures
        r == turned(*p, f),
{
    match f {
        Face::Front => CubePiece { x: -p.y, y: p.x, z: p.z },
        Face::Back => CubePiece { x: p.y, y: -p.x, z: p.z },
        Face::Left => CubePiece { x: p.x, y: p.z, z: -p.y },
        Face::Right => CubePiece { x: p.x, y: -p.z, z: p.y },
        Face::Up => CubePiece { x: p.z, y: p.y, z: -p.x },
        Face::Down => CubePiece { x: -p.z, y: p.y, z: p.x },
    }
}

impl Face {
    /// The face for a random draw: its residue modulo six picks one of six faces.
    pub fn from_random(v: u32) -> (f: Face)
        ensures
            f == face_of_residue(v as int % 6),
    {
        match v % 6 {
            0 => Face::Front,
            1 => Face::Up,
            2 => Face::Left,
            3 => Face::Down,
            4 => Face::Right,
            _ => Face::Back,
        }
    }

    /// The axis this face turns about.
    pub fn axis(&self) -> (a: Axis)
        ensures
            a == axis_of(*self),
    {
        match self {
            Face::Front | Face::Back => Axis::Z,
            Face::Left | Face::Right => Axis::X,
            Face::Up | Face::Down => Axis::Y,
        }
    }

    /// The turn sign of this face: `1` or `-1`.
    pub fn direction(&self) -> (d: i8)
        ensures
            d as int == direction_of(*self),
    {
        match self {
            Face::Front | Face::Right | Face::Up => 1,
            Face::Back | Face::Left | Face::Down => -1,
        }
    }

    /// The grid cell at the center of this face, around which it turns.
    pub fn center(&self) -> (c: CubePiece)
        ensures
            is_cell(c),
            on_face(c, *self),
            c.x == 0 || c.y == 0,
            c.x == 0 || c.z == 0,
            c.y == 0 || c.z == 0,
    {
        match self {
            Face::Front => CubePiece { x: 0, y: 0, z: 1 },
            Face::Back => CubePiece { x: 0, y: 0, z: -1 },
            Face::Left => CubePiece { x: -1, y: 0, z: 0 },
            Face::Right => CubePiece { x: 1, y: 0, z: 0 },
            Face::Up => CubePiece { x: 0, y: 1, z: 0 },
            Face::Down => CubePiece { x: 0, y: -1, z: 0 },
        }
    }
}

} // verus!
