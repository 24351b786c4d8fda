//! The Sudoku board: a fixed grid of 81 optional cell values, stored in
//! row-major order, with shape-checked construction and range-checked
//! cell access.

use vstd::prelude::*;

verus! {

/// Number of cells in a board: 9 rows of 9 columns.
pub const DIMENSION: usize = 81;

/// The linear index of the cell at `(row, col)`, row-major.
pub open spec fn cell_index(row: int, col: int) -> int {
    row * 9 + col
}

/// Whether `(row, col)` names a cell of the grid: both lie in `[0, 8]`.
pub open spec fn coords_in_range(row: int, col: int) -> bool {
    0 <= row <= 8 && 0 <= col <= 8
}

/// Whether a cell value is admissible: empty, or a digit in `[1, 9]`.
pub open spec fn value_in_range(value: Option<usize>) -> bool {
    value matches Some(v) ==> 1 <= v <= 9
}

/// Everything that can go wrong when building or using a board.
#[derive(Debug, Clone, PartialEq, Eq, Structural)]
pub enum GameError {
    /// The input sequence did not hold exactly 81 elements; raised only
    /// at construction, carrying the length that was seen.
    ShapeError { observed_length: usize },
    /// A row or column index outside `[0, 8]`; raised by accessors.
    OutOfRange,
    /// A present cell value outside `[1, 9]`; raised by mutators.
    ValueRange,
}

impl GameError {
    /// A short human-readable description of the error.
    pub fn message(&self) -> (r: &'static str)
        ensures
            self is ShapeError ==> r@ == "input length is not 81"@,
            self is OutOfRange ==> r@ == "row or column out of range"@,
            self is ValueRange ==> r@ == "cell value out of range"@,
    {
        match self {
            GameError::ShapeError { .. } => "input length is not 81",
            GameError::OutOfRange => "row or column out of range",
            GameError::ValueRange => "cell value out of range",
        }
    }
}

/// A Sudoku board. The one structural invariant is that it always holds
/// exactly 81 cells; no other length is constructible.
pub struct Game {
    cells: Vec<Option<usize>>,
}

impl View for Game {
    type V = Seq<Option<usize>>;

    closed spec fn view(&self) -> Seq<Option<usize>> {
        self.cells@
    }
}

impl Game {
    /// Structural well-formedness: the grid has exactly 81 cells.
    pub open spec fn wf(&self) -> bool {
        self@.len() == 81
    }

    /// Builds a board from a row-major sequence of cells. Succeeds if and
    /// only if the input holds exactly 81 elements, and then stores the
    /// sequence unchanged; otherwise reports the observed length.
    pub fn new(input: Vec<Option<usize>>) -> (r: Result<Game, GameError>)
        ensures
            input@.len() == 81 ==> (r matches Ok(g) && g@ == input@ && g.wf()),
            input@.len() != 81 ==> (r matches Err(GameError::ShapeError { observed_length })
                && observed_length == input@.len()),
    {
        if input.len() == DIMENSION {
            Ok(Game { cells: input })
        } else {
            Err(GameError::ShapeError { observed_length: input.len() })
        }
    }

    /// Reads the cell at `(row, col)`, or fails with `OutOfRange` when
    /// either coordinate lies outside `[0, 8]`.
    pub fn get(&self, row: usize, col: usize) -> (r: Result<Option<usize>, GameError>)
        requires
            self.wf(),
        ensures
            coords_in_range(row as int, col as int)
                ==> r == Ok::<Option<usize>, GameError>(self@[cell_index(row as int, col as int)]),
            !coords_in_range(row as int, col as int)
                ==> r == Err::<Option<usize>, GameError>(GameError::OutOfRange),
    {
        if row <= 8 && col <= 8 {
            Ok(self.cells[row * 9 + col])
        } else {
            Err(GameError::OutOfRange)
        }
    }

    /// Overwrites the cell at `(row, col)`. Fails with `OutOfRange` on a
    /// bad coordinate and with `ValueRange` on a present value outside
    /// `[1, 9]`; on failure the board is unchanged, on success exactly the
    /// addressed cell changes.
    pub fn set(&mut self, row: usize, col: usize, value: Option<usize>) -> (r: Result<
        (),
        GameError,
    >)
        requires
            old(self).wf(),
        ensures
            final(self).wf(),
            !coords_in_range(row as int, col as int)
                ==> r == Err::<(), GameError>(GameError::OutOfRange) && final(self)@ == old(self)@,
            coords_in_range(row as int, col as int) && !value_in_range(value)
                ==> r == Err::<(), GameError>(GameError::ValueRange) && final(self)@ == old(self)@,
            coords_in_range(row as int, col as int) && value_in_range(value)
                ==> r == Ok::<(), GameError>(()) && final(self)@ == old(self)@.update(
                cell_index(row as int, col as int),
                value,
            ),
    {
        if row > 8 || col > 8 {
            return Err(GameError::OutOfRange);
        }
        if let Some(v) = value {
            if v < 1 || v > 9 {
                return Err(GameError::ValueRange);
            }
        }
        self.cells[row * 9 + col] = value;
        Ok(())
    }

    /// Reads the cell at linear index `idx`, for the rule checker.
    pub(crate) fn cell(&self, idx: usize) -> (r: Option<usize>)
        requires
            self.wf(),
            idx < 81,
        ensures
            r == self@[idx as int],
    {
        self.cells[idx]
    }
}

} // verus!
