//! The rules of the game, stated on an abstract board.
//!
//! `BoardView` is what a `Board` stands for: a map from coordinates to cell
//! contents together with the three markers the board carries. Every
//! operation of the board is described here as a function from one view to
//! the next, and the properties of the rules are proved of these functions.
//!
//! Turns are not enforced. The board carries the colour of a current player,
//! which starts as Black, but no rule reads it and no operation changes it:
//! either colour may be moved at any time.

use crate::flank::{flank_capture, Line};
use crate::piece::{Cell, PieceColor, PlayerColor};
use crate::position::{manhattan, on_board};
use vstd::prelude::*;

verus! {

/// Why a move was refused.
#[derive(Clone, Copy, Debug, PartialEq, Eq, Structural)]
pub enum MoveError {
    /// The destination is more than one orthogonal step from the source.
    TooFar,
    /// The source cell holds no piece.
    EmptySource,
    /// The destination cell already holds a piece.
    DestinationOccupied,
}

impl MoveError {
    /// A short text for the error.
    pub fn message(&self) -> (text: &'static str)
        ensures
            text@ == (match *self {
                MoveError::TooFar => "too far"@,
                MoveError::EmptySource => "empty"@,
                MoveError::DestinationOccupied => "already has one"@,
            }),
    {
        match self {
            MoveError::TooFar => "too far",
            MoveError::EmptySource => "empty",
            MoveError::DestinationOccupied => "already has one",
        }
    }
}

/// What an intent of the player came to, with positions as coordinates.
pub enum OutcomeView {
    /// The piece at this cell is now selected.
    Selected((int, int)),
    /// Nothing happened.
    NoOp,
    /// The selected piece moved, and the pieces at `captured` were taken.
    Moved { from: (int, int), to: (int, int), captured: Seq<(int, int)> },
    /// The move was refused and the selection stays.
    Rejected(MoveError),
}

/// The state of a board: the contents of its sixteen cells and its markers.
pub struct BoardView {
    /// The contents of each cell, by its coordinates.
    pub cells: Map<(int, int), Cell>,
    /// The colour whose turn it nominally is.
    pub current_player: PlayerColor,
    /// The destination of the latest move, for display.
    pub last_move: Option<(int, int)>,
    /// The cell whose piece is armed to move next.
    pub selection: Option<(int, int)>,
}

impl BoardView {
    /// A board in a valid state: it has exactly the cells of the grid, its
    /// markers point into the grid, and a selected cell holds a piece.
    pub open spec fn wf(self) -> bool {
        &&& forall|p: (int, int)| self.cells.dom().contains(p) <==> on_board(p)
        &&& self.last_move matches Some(p) ==> on_board(p)
        &&& self.selection matches Some(p) ==> on_board(p) && self.cells[p] is Some
    }

    /// The board at the start of a game: the row `y = 0` is Black, the row
    /// `y = 3` is White, nothing is selected and no move was made.
    pub open spec fn initial() -> BoardView {
        BoardView {
            cells: Map::new(
                |p: (int, int)| on_board(p),
                |p: (int, int)|
                    if p.1 == 0 {
                        Some(PieceColor::Black)
                    } else if p.1 == 3 {
                        Some(PieceColor::White)
                    } else {
                        None
                    },
            ),
            current_player: PieceColor::Black,
            last_move: None,
            selection: None,
        }
    }

    /// The reason for which a move from `from` to `to` is refused, if it is:
    /// the distance is tested first, then the source, then the destination.
    pub open spec fn move_error(self, from: (int, int), to: (int, int)) -> Option<MoveError> {
        if manhattan(from, to) > 1 {
            Some(MoveError::TooFar)
        } else if self.cells[from] is None {
            Some(MoveError::EmptySource)
        } else if self.cells[to] is Some {
            Some(MoveError::DestinationOccupied)
        } else {
            None
        }
    }

    /// The board after the piece at `from` has gone to `to`. The move is
    /// remembered as the latest, and a selection of `from` is dropped with
    /// the piece that left it.
    pub open spec fn moved(self, from: (int, int), to: (int, int)) -> BoardView {
        BoardView {
            cells: self.cells.insert(from, None).insert(to, self.cells[from]),
            current_player: self.current_player,
            last_move: Some(to),
            selection: if self.selection == Some(from) {
                None
            } else {
                self.selection
            },
        }
    }

    /// The board with the cell at `p` emptied. A selection of `p` is dropped.
    pub open spec fn removed(self, p: (int, int)) -> BoardView {
        BoardView {
            cells: self.cells.insert(p, None),
            current_player: self.current_player,
            last_move: self.last_move,
            selection: if self.selection == Some(p) {
                None
            } else {
                self.selection
            },
        }
    }

    /// The board with each cell of `ps` emptied.
    pub open spec fn removed_all(self, ps: Seq<(int, int)>) -> BoardView
        decreases ps.len(),
    {
        if ps.len() == 0 {
            self
        } else {
            self.removed_all(ps.drop_last()).removed(ps.last())
        }
    }

    /// The four cells whose first coordinate is `x`, by rising `y`.
    pub open spec fn line_of_x(self, x: int) -> Line {
        (self.cells[(x, 0)], self.cells[(x, 1)], self.cells[(x, 2)], self.cells[(x, 3)])
    }

    /// The four cells whose second coordinate is `y`, by rising `x`.
    pub open spec fn line_of_y(self, y: int) -> Line {
        (self.cells[(0, y)], self.cells[(1, y)], self.cells[(2, y)], self.cells[(3, y)])
    }

    /// The pieces that are captured once a piece has arrived at `around`:
    /// the flanked piece of each of the two lines through that cell, first
    /// the line of equal `x`, then the line of equal `y`. The piece at
    /// `around` itself is never among them.
    pub open spec fn capturable(self, around: (int, int)) -> Seq<(int, int)> {
        let along_x: Seq<(int, int)> = match flank_capture(self.line_of_x(around.0)) {
            Some(y) => if y != around.1 {
                seq![(around.0, y)]
            } else {
                seq![]
            },
            None => seq![],
        };
        let along_y: Seq<(int, int)> = match flank_capture(self.line_of_y(around.1)) {
            Some(x) => if x != around.0 {
                seq![(x, around.1)]
            } else {
                seq![]
            },
            None => seq![],
        };
        along_x + along_y
    }

    /// The intent to select `target`: with nothing selected and a piece at
    /// `target`, that piece becomes selected; otherwise nothing happens.
    pub open spec fn select(self, target: (int, int)) -> (BoardView, OutcomeView) {
        if self.selection is None && self.cells[target] is Some {
            (
                BoardView {
                    cells: self.cells,
                    current_player: self.current_player,
                    last_move: self.last_move,
                    selection: Some(target),
                },
                OutcomeView::Selected(target),
            )
        } else {
            (self, OutcomeView::NoOp)
        }
    }

    /// The intent to move the selected piece to `target`. With nothing
    /// selected nothing happens. A refused move leaves the board as it was,
    /// the selection too. A move that succeeds is followed by the captures
    /// around `target`, and leaves nothing selected.
    pub open spec fn confirm(self, target: (int, int)) -> (BoardView, OutcomeView) {
        match self.selection {
            None => (self, OutcomeView::NoOp),
            Some(from) => match self.move_error(from, target) {
                Some(e) => (self, OutcomeView::Rejected(e)),
                None => {
                    let after = self.moved(from, target);
                    let captured = after.capturable(target);
                    (
                        after.removed_all(captured),
                        OutcomeView::Moved { from: from, to: target, captured: captured },
                    )
                },
            },
        }
    }

    /// The intent that the one action key stands for at the cursor: to
    /// confirm a move when a piece is selected, to select otherwise.
    pub open spec fn cursor_select(self, cursor: (int, int)) -> (BoardView, OutcomeView) {
        if self.selection is Some {
            self.confirm(cursor)
        } else {
            self.select(cursor)
        }
    }

    /// The cells that hold a piece of the given colour.
    pub open spec fn pieces(self, colour: PieceColor) -> Set<(int, int)> {
        Set::new(|p: (int, int)| on_board(p) && self.cells[p] == Some(colour))
    }

    /// The number of pieces of the given colour on the board.
    pub open spec fn count(self, colour: PieceColor) -> nat {
        self.pieces(colour).len()
    }
}

} // verus!
