//! The 26 pieces of the cube, addressed by index, and their logical coordinates.
use vstd::prelude::*;
use vstd::relations::injective_on;
use vstd::set_lib::{
    lemma_int_range, lemma_len_subset, lemma_map_size, lemma_subset_equality, set_int_range,
};

use crate::face::{
    in_range, is_cell, is_piece_on_face, lemma_four_turns_identity, lemma_turn_keeps_cell, on_face,
    stepped, turn_piece, turned, CubePiece, Face,
};

verus! {

/// Number of pieces: every cell of the 3x3x3 grid but the center.
pub const PIECE_COUNT: usize = 26;

/// Index of the center cell when cells are numbered `9(x+1) + 3(y+1) + (z+1)`.
pub const CENTER_CELL: u32 = 13;

/// The number of the grid cell that `p` occupies.
pub open spec fn cell_number(p: CubePiece) -> int {
    9 * (p.x + 1) + 3 * (p.y + 1) + (p.z + 1)
}

/// The cell of the `i`-th piece of a fresh cube: cells in increasing number, center skipped.
pub open spec fn grid_cell(i: int) -> CubePiece {
    let k = if i < 13 { i } else { i + 1 };
    CubePiece { x: (k / 9 - 1) as i32, y: ((k / 3) % 3 - 1) as i32, z: (k % 3 - 1) as i32 }
}

/// Every piece after a quarter turn of `f`: those on the face turned, the others unmoved.
pub open spec fn turned_pieces(s: Seq<CubePiece>, f: Face) -> Seq<CubePiece> {
    s.map_values(|p: CubePiece| stepped(p, f))
}

/// Whether `s` holds one piece in each grid cell but the center: 26 distinct cells.
pub open spec fn is_full_grid(s: Seq<CubePiece>) -> bool {
    &&& s.len() == PIECE_COUNT
    &&& forall|i: int| 0 <= i < s.len() ==> is_cell(#[trigger] s[i])
    &&& forall|i: int, j: int| 0 <= i < j < s.len() ==> s[i] != s[j]
}

/// The pieces of a cube, in a fixed order that never changes.
#[derive(Debug)]
pub struct Cube {
    pieces: Vec<CubePiece>,
}

impl View for Cube {
    type V = Seq<CubePiece>;

    closed spec fn view(&self) -> Seq<CubePiece> {
        self.pieces@
    }
}

proof fn lemma_grid_cell(i: int)
    requires
        0 <= i < 26,
    ensures
        is_cell(grid_cell(i)),
        cell_number(grid_cell(i)) == if i < 13 { i } else { i + 1 },
{
}

/// The pieces of a turned cube still fill the grid.
pub proof fn lemma_turn_keeps_grid(s: Seq<CubePiece>, f: Face)
    requires
        is_full_grid(s),
    ensures
        is_full_grid(turned_pieces(s, f)),
{
    let t = turned_pieces(s, f);
    assert forall|i: int| 0 <= i < t.len() implies is_cell(#[trigger] t[i]) by {
        lemma_turn_keeps_cell(s[i], s[i], f);
    }
    assert forall|i: int, j: int| 0 <= i < j < t.len() implies t[i] != t[j] by {
        lemma_turn_keeps_cell(s[i], s[j], f);
    }
}

/// Four quarter turns of the same face put every piece back in its cell.
pub proof fn lemma_four_turns_restore(s: Seq<CubePiece>, f: Face)
    requires
        forall|i: int| 0 <= i < s.len() ==> in_range(#[trigger] s[i]),
    ensures
        turned_pieces(turned_pieces(turned_pieces(turned_pieces(s, f), f), f), f) == s,
{
    let t = turned_pieces(turned_pieces(turned_pieces(turned_pieces(s, f), f), f), f);
    assert forall|i: int| 0 <= i < s.len() implies t[i] == s[i] by {
        lemma_four_turns_identity(s[i], f);
    }
    assert(t =~= s);
}

/// The numbers of the nine cells of face `f`.
pub open spec fn face_cells(f: Face) -> Set<int> {
    match f {
        Face::Front => set![2, 5, 8, 11, 14, 17, 20, 23, 26],
        Face::Back => set![0, 3, 6, 9, 12, 15, 18, 21, 24],
        Face::Left => set![0, 1, 2, 3, 4, 5, 6, 7, 8],
        Face::Right => set![18, 19, 20, 21, 22, 23, 24, 25, 26],
        Face::Up => set![6, 7, 8, 15, 16, 17, 24, 25, 26],
        Face::Down => set![0, 1, 2, 9, 10, 11, 18, 19, 20],
    }
}

/// The indices of the pieces of `s` that lie on face `f`.
pub open spec fn indices_on_face(s: Seq<CubePiece>, f: Face) -> Set<int> {
    Set::new(|i: int| 0 <= i < s.len() && on_face(s[i], f))
}

proof fn lemma_face_cells(f: Face)
    ensures
        face_cells(f).finite(),
        face_cells(f).len() == 9,
        forall|p: CubePiece| in_range(p) ==> (on_face(p, f) <==> face_cells(f).contains(#[trigger] cell_number(p))),
{
    assert forall|p: CubePiece| in_range(p) implies (on_face(p, f) <==> face_cells(f).contains(#[trigger] cell_number(p))) by {
    }
}

/// Whether some piece of `s` occupies the cell numbered `k`.
pub open spec fn cell_taken(s: Seq<CubePiece>, k: int) -> bool {
    exists|i: int| 0 <= i < s.len() && #[trigger] cell_number(s[i]) == k
}

/// In a full grid every cell but the center holds a piece.
proof fn lemma_every_cell_taken(s: Seq<CubePiece>)
    requires
        is_full_grid(s),
    ensures
        forall|k: int| 0 <= k < 27 && k != 13 ==> #[trigger] cell_taken(s, k),
{
    let c = s.map_values(|p: CubePiece| cell_number(p));
    assert forall|i: int, j: int| 0 <= i < c.len() && 0 <= j < c.len() && i != j implies c[i] != c[j] by {
        if i < j {
            assert(s[i] != s[j]);
        } else {
            assert(s[j] != s[i]);
        }
        assert(is_cell(s[i]) && is_cell(s[j]));
    }
    assert(c.no_duplicates());
    c.unique_seq_to_set();
    let r = set_int_range(0, 27).remove(13);
    lemma_int_range(0, 27);
    assert forall|k: int| c.to_set().contains(k) implies r.contains(k) by {
        let i = choose|i: int| 0 <= i < c.len() && c[i] == k;
        assert(is_cell(s[i]));
    }
    lemma_subset_equality(c.to_set(), r);
    assert forall|k: int| 0 <= k < 27 && k != 13 implies #[trigger] cell_taken(s, k) by {
        assert(r.contains(k));
        assert(c.to_set().contains(k));
        let i = choose|i: int| 0 <= i < c.len() && c[i] == k;
        assert(cell_number(s[i]) == k);
    }
}

/// In a full grid each face holds exactly nine pieces.
pub proof fn lemma_face_holds_nine(s: Seq<CubePiece>, f: Face)
    requires
        is_full_grid(s),
    ensures
        indices_on_face(s, f).finite(),
        indices_on_face(s, f).len() == 9,
{
    let j = indices_on_face(s, f);
    let cn = |i: int| cell_number(s[i]);
    lemma_face_cells(f);
    lemma_every_cell_taken(s);
    lemma_int_range(0, 26);
    assert(j.subset_of(set_int_range(0, 26)));
    lemma_len_subset(j, set_int_range(0, 26));
    assert forall|a: int, b: int| j.contains(a) && j.contains(b) && #[trigger] cn(a) == #[trigger] cn(b) implies a == b by {
        assert(is_cell(s[a]) && is_cell(s[b]));
        if a < b {
            assert(s[a] != s[b]);
        } else if b < a {
            assert(s[b] != s[a]);
        }
    }
    assert(injective_on(cn, j));
    assert forall|k: int| face_cells(f).contains(k) implies j.map(cn).contains(k) by {
        assert(0 <= k < 27 && k != 13);
        assert(cell_taken(s, k));
        let i = choose|i: int| 0 <= i < s.len() && #[trigger] cell_number(s[i]) == k;
        assert(is_cell(s[i]));
        assert(j.contains(i));
        assert(cn(i) == k);
    }
    assert forall|k: int| j.map(cn).contains(k) implies face_cells(f).contains(k) by {
        let i = choose|i: int| j.contains(i) && cn(i) == k;
        assert(is_cell(s[i]));
    }
    assert(j.map(cn) =~= face_cells(f));
    lemma_map_size(j, face_cells(f), cn);
}

/// A quarter turn of `f` moves exactly the pieces that lie on the face when
/// it starts, nine of them, each to its turned cell; the others keep theirs,
/// and the face holds the same pieces afterwards.
pub proof fn lemma_turn_moves_face_members(s: Seq<CubePiece>, f: Face)
    requires
        is_full_grid(s),
    ensures
        indices_on_face(s, f).len() == 9,
        forall|i: int| #[trigger] indices_on_face(s, f).contains(i) ==> turned_pieces(s, f)[i] == turned(s[i], f),
        forall|i: int| 0 <= i < s.len() && !indices_on_face(s, f).contains(i) ==> turned_pieces(s, f)[i] == s[i],
        indices_on_face(turned_pieces(s, f), f) == indices_on_face(s, f),
{
    lemma_face_holds_nine(s, f);
    let t = turned_pieces(s, f);
    assert forall|i: int| 0 <= i < s.len() implies on_face(#[trigger] t[i], f) == on_face(s[i], f) by {
        assert(is_cell(s[i]));
        lemma_turn_keeps_cell(s[i], s[i], f);
    }
    assert(indices_on_face(t, f) =~= indices_on_face(s, f));
}

impl Cube {
    /// Whether the cube holds one piece in each grid cell but the center.
    pub open spec fn wf(&self) -> bool {
        is_full_grid(self@)
    }

    /// A cube at rest with one piece in every cell but the center, in
    /// increasing cell number (`x`, then `y`, then `z`).
    pub fn new() -> (c: Cube)
        ensures
            c.wf(),
            forall|i: int| 0 <= i < PIECE_COUNT ==> c@[i] == grid_cell(i),
    {
        let mut pieces: Vec<CubePiece> = Vec::new();
        let mut k: u32 = 0;
        while k < 27
            invariant
                k <= 27,
                pieces@.len() == if k <= 13 { k as int } else { k - 1 },
                forall|i: int| 0 <= i < pieces@.len() ==> pieces@[i] == grid_cell(i),
            decreases 27 - k,
        {
            if k != CENTER_CELL {
                let p = CubePiece {
                    x: (k / 9) as i32 - 1,
                    y: ((k / 3) % 3) as i32 - 1,
                    z: (k % 3) as i32 - 1,
                };
                pieces.push(p);
            }
            k = k + 1;
        }
        let c = Cube { pieces };
        assert forall|i: int| 0 <= i < c@.len() implies is_cell(#[trigger] c@[i]) by {
            lemma_grid_cell(i);
        }
        assert forall|i: int, j: int| 0 <= i < j < c@.len() implies c@[i] != c@[j] by {
            lemma_grid_cell(i);
            lemma_grid_cell(j);
        }
        c
    }

    /// The coordinate of the `i`-th piece.
    pub fn piece(&self, i: usize) -> (p: CubePiece)
        requires
            i < self@.len(),
        ensures
            p == self@[i as int],
    {
        self.pieces[i]
    }

    /// The number of pieces.
    pub fn len(&self) -> (n: usize)
        ensures
            n == self@.len(),
    {
        self.pieces.len()
    }

    /// The indices of the pieces on face `f`, in increasing order.
    pub fn pieces_on_face(&self, f: Face) -> (r: Vec<usize>)
        ensures
            forall|k: int| 0 <= k < r@.len() ==> r@[k] < self@.len() && on_face(self@[r@[k] as int], f),
            forall|a: int, b: int| 0 <= a < b < r@.len() ==> r@[a] < r@[b],
            forall|i: int| 0 <= i < self@.len() && on_face(#[trigger] self@[i], f) ==> r@.contains(i as usize),
            self.wf() ==> r@.len() == 9,
    {
        let mut r: Vec<usize> = Vec::new();
        let mut i: usize = 0;
        while i < self.pieces.len()
            invariant
                i <= self@.len(),
                self@ == self.pieces@,
                forall|k: int| 0 <= k < r@.len() ==> r@[k] < i && on_face(self@[r@[k] as int], f),
                forall|a: int, b: int| 0 <= a < b < r@.len() ==> r@[a] < r@[b],
                forall|j: int| 0 <= j < i && on_face(#[trigger] self@[j], f) ==> r@.contains(j as usize),
            decreases self@.len() - i,
        {
            if is_piece_on_face(&self.pieces[i], f) {
                let ghost before = r@;
                r.push(i);
                assert forall|j: int| 0 <= j <= i && on_face(#[trigger] self@[j], f) implies r@.contains(j as usize) by {
                    if j < i {
                        let k = choose|k: int| 0 <= k < before.len() && before[k] == j as usize;
                        assert(r@[k] == j as usize);
                    } else {
                        assert(r@[before.len() as int] == j as usize);
                    }
                }
            }
            i = i + 1;
        }
        proof {
            if self.wf() {
                let ri = r@.map_values(|u: usize| u as int);
                assert forall|a: int, b: int| 0 <= a < ri.len() && 0 <= b < ri.len() && a != b implies ri[a] != ri[b] by {
                    if a < b {
                        assert(r@[a] < r@[b]);
                    } else {
                        assert(r@[b] < r@[a]);
                    }
                }
                assert(ri.no_duplicates());
                ri.unique_seq_to_set();
                assert forall|k: int| ri.to_set().contains(k) implies indices_on_face(self@, f).contains(k) by {
                    let a = choose|a: int| 0 <= a < ri.len() && ri[a] == k;
                    assert(r@[a] < self@.len());
                }
                assert forall|k: int| indices_on_face(self@, f).contains(k) implies ri.to_set().contains(k) by {
                    assert(r@.contains(k as usize));
                    let a = choose|a: int| 0 <= a < r@.len() && r@[a] == k as usize;
                    assert(ri[a] == k);
                }
                assert(ri.to_set() =~= indices_on_face(self@, f));
                lemma_face_holds_nine(self@, f);
            }
        }
        r
    }

    /// Moves the pieces of face `f` to their cells after a quarter turn; the
    /// others keep theirs.
    pub fn update_cube_positions(&mut self, f: Face)
        requires
            old(self).wf(),
        ensures
            final(self)@ == turned_pieces(old(self)@, f),
            final(self).wf(),
    {
        let ghost start = self@;
        let mut i: usize = 0;
        while i < self.pieces.len()
            invariant
                i <= self@.len(),
                self@.len() == start.len(),
                is_full_grid(start),
                forall|j: int| 0 <= j < i ==> self@[j] == stepped(start[j], f),
                forall|j: int| i <= j < self@.len() ==> self@[j] == start[j],
            decreases self@.len() - i,
        {
            let p = self.pieces[i];
            assert(is_cell(start[i as int]));
            if is_piece_on_face(&p, f) {
                let np = turn_piece(&p, f);
                self.pieces.set(i, np);
            }
            i = i + 1;
        }
        assert(self@ =~= turned_pieces(start, f));
        proof {
            lemma_turn_keeps_grid(start, f);
        }
    }
}

} // verus!
