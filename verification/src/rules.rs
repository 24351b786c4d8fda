//! The Sudoku rules: whether a board's placements respect row, column and
//! box uniqueness, and whether a board is completely and correctly solved.

use vstd::prelude::*;

use crate::board::Game;
use crate::board::cell_index;
use crate::board::coords_in_range;

verus! {

/// The row of the cell at linear index `i`.
pub open spec fn row_of(i: int) -> int {
    i / 9
}

/// The column of the cell at linear index `i`.
pub open spec fn col_of(i: int) -> int {
    i % 9
}

/// Whether the cells at linear indices `i` and `j` share a group: a row,
/// a column, or a 3-by-3 box.
pub open spec fn same_group(i: int, j: int) -> bool {
    ||| row_of(i) == row_of(j)
    ||| col_of(i) == col_of(j)
    ||| (row_of(i) / 3 == row_of(j) / 3 && col_of(i) / 3 == col_of(j) / 3)
}

/// No row, column or box holds the same non-empty value more than once.
pub open spec fn cells_valid(s: Seq<Option<usize>>) -> bool {
    forall|i: int, j: int| #![trigger s[i], s[j]]
        0 <= i < 81 && 0 <= j < 81 && i != j && same_group(i, j)
            ==> !(s[i] is Some && s[i] == s[j])
}

/// Every cell is non-empty.
pub open spec fn cells_full(s: Seq<Option<usize>>) -> bool {
    forall|i: int| 0 <= i < 81 ==> s[i] is Some
}

/// The board is completely and correctly solved: full and valid.
pub open spec fn cells_solved(s: Seq<Option<usize>>) -> bool {
    cells_full(s) && cells_valid(s)
}

/// Whether the cells at linear indices `i` and `j` share a row, column
/// or box.
fn in_same_group(i: usize, j: usize) -> (r: bool)
    requires
        i < 81,
        j < 81,
    ensures
        r == same_group(i as int, j as int),
{
    let ri = i / 9;
    let ci = i % 9;
    let rj = j / 9;
    let cj = j % 9;
    ri == rj || ci == cj || (ri / 3 == rj / 3 && ci / 3 == cj / 3)
}

/// True if and only if no row, column or box of the board holds the same
/// non-empty value more than once.
pub fn is_valid(board: &Game) -> (r: bool)
    requires
        board.wf(),
    ensures
        r == cells_valid(board@),
{
    let mut i: usize = 0;
    while i < 81
        invariant
            board.wf(),
            i <= 81,
            forall|p: int, q: int| #![trigger board@[p], board@[q]]
                0 <= p < i && p < q < 81 && same_group(p, q)
                    ==> !(board@[p] is Some && board@[p] == board@[q]),
        decreases 81 - i,
    {
        let a = board.cell(i);
        if let Some(x) = a {
            let mut j: usize = i + 1;
            while j < 81
                invariant
                    board.wf(),
                    i < j <= 81,
                    i < 81,
                    board@[i as int] == Some(x),
                    forall|q: int| #![trigger board@[q]]
                        i < q < j && same_group(i as int, q)
                            ==> !(board@[i as int] == board@[q]),
                decreases 81 - j,
            {
                if in_same_group(i, j) {
                    if let Some(y) = board.cell(j) {
                        if x == y {
                            assert(!cells_valid(board@)) by {
                                assert(board@[i as int] is Some
                                    && board@[i as int] == board@[j as int]);
                            }
                            return false;
                        }
                    }
                }
                j += 1;
            }
        }
        i += 1;
    }
    assert(cells_valid(board@)) by {
        assert forall|p: int, q: int|
            0 <= p < 81 && 0 <= q < 81 && p != q && same_group(p, q) implies !(#[trigger] board@[p]
            is Some && board@[p] == #[trigger] board@[q]) by {
            if p < q {
                assert(!(board@[p] is Some && board@[p] == board@[q]));
            } else {
                assert(!(board@[q] is Some && board@[q] == board@[p]));
            }
        }
    }
    true
}

/// True if and only if every cell is non-empty and the board is valid.
pub fn is_solved(board: &Game) -> (r: bool)
    requires
        board.wf(),
    ensures
        r == cells_solved(board@),
{
    let mut i: usize = 0;
    while i < 81
        invariant
            board.wf(),
            i <= 81,
            forall|p: int| 0 <= p < i ==> #[trigger] board@[p] is Some,
        decreases 81 - i,
    {
        if board.cell(i).is_none() {
            assert(!cells_full(board@));
            return false;
        }
        i += 1;
    }
    is_valid(board)
}

/// The (row, col) pair of a cell and its linear index determine each
/// other: the index lies in `[0, 81)` and yields the pair back.
pub proof fn lemma_index_round_trip(row: int, col: int)
    requires
        coords_in_range(row, col),
    ensures
        0 <= cell_index(row, col) < 81,
        row_of(cell_index(row, col)) == row,
        col_of(cell_index(row, col)) == col,
{
}

/// A board whose cells are all empty violates no uniqueness rule, yet is
/// not solved.
pub proof fn lemma_empty_board_valid(s: Seq<Option<usize>>)
    requires
        s.len() == 81,
        forall|i: int| 0 <= i < 81 ==> #[trigger] s[i] is None,
    ensures
        cells_valid(s),
        !cells_solved(s),
{
    assert(s[0] is None);
}

/// Two equal non-empty values in one group make the board invalid.
pub proof fn lemma_duplicate_in_group_invalid(s: Seq<Option<usize>>, i: int, j: int, v: usize)
    requires
        s.len() == 81,
        0 <= i < 81,
        0 <= j < 81,
        i != j,
        same_group(i, j),
        s[i] == Some(v),
        s[j] == Some(v),
    ensures
        !cells_valid(s),
{
}

/// Emptying any single cell of a solved board leaves it unsolved.
pub proof fn lemma_emptied_cell_not_solved(s: Seq<Option<usize>>, k: int)
    requires
        s.len() == 81,
        cells_solved(s),
        0 <= k < 81,
    ensures
        !cells_solved(s.update(k, None)),
{
    assert(s.update(k, None)[k] is None);
}

} // verus!
