//! The board: sixteen cells and three markers, changed in place by moves
//! and captures.

use crate::piece::{Cell, PieceColor, PlayerColor};
use crate::position::{manhattan, on_board, Position};
use crate::rules::{BoardView, MoveError};
use vstd::prelude::*;

verus! {

/// The coordinates of a position that may be absent.
pub open spec fn view_of(p: Option<Position>) -> Option<(int, int)> {
    match p {
        Some(p) => Some(p@),
        None => None,
    }
}

/// The grid of one game with its markers.
///
/// The fields are private and every operation keeps the board valid, so a
/// board in hand is always a valid one: see `Board::inv`.
#[derive(Debug, PartialEq, Eq)]
pub struct Board {
    cells: [[Cell; 4]; 4],
    current_player: PlayerColor,
    selection: Option<Position>,
    last_move: Option<Position>,
}

impl View for Board {
    type V = BoardView;

    closed spec fn view(&self) -> BoardView {
        BoardView {
            cells: Map::new(
                |p: (int, int)| on_board(p),
                |p: (int, int)| self.cells[p.0][p.1],
            ),
            current_player: self.current_player,
            last_move: view_of(self.last_move),
            selection: view_of(self.selection),
        }
    }
}

impl Clone for Board {
    /// A second board in the same state.
    fn clone(&self) -> (copy: Self)
        ensures
            copy == *self,
    {
        proof {
            use_type_invariant(self);
        }
        Board {
            cells: self.cells,
            current_player: self.current_player,
            selection: self.selection,
            last_move: self.last_move,
        }
    }
}

impl Board {
    /// Holds of every board that executable code can hold.
    #[verifier::type_invariant]
    pub open spec fn inv(self) -> bool {
        self@.wf()
    }

    /// A board set up for a new game.
    pub fn new() -> (board: Board)
        ensures
            board@ == BoardView::initial(),
            board@.wf(),
    {
        let column: [Cell; 4] = [Some(PieceColor::Black), None, None, Some(PieceColor::White)];
        let board = Board {
            cells: [column, column, column, column],
            current_player: PieceColor::Black,
            selection: None,
            last_move: None,
        };
        assert(board@.cells =~= BoardView::initial().cells);
        board
    }

    /// What the cell at `p` holds.
    pub fn index(&self, p: Position) -> (cell: Cell)
        ensures
            cell == self@.cells[p@],
    {
        let (x, y) = p.tuple();
        self.cells[x as usize][y as usize]
    }

    /// Whether the cell at `p` is the selected one.
    fn selects(&self, p: Position) -> (yes: bool)
        ensures
            yes == (self@.selection == Some(p@)),
    {
        match self.selection {
            Some(s) => {
                proof {
                    if s@ == p@ {
                        Position::lemma_view_injective(s, p);
                    }
                }
                s == p
            },
            None => false,
        }
    }

    /// Makes the piece at `p` the selected one.
    pub(crate) fn arm(&mut self, p: Position)
        requires
            old(self)@.cells[p@] is Some,
        ensures
            final(self)@ == (BoardView { selection: Some(p@), ..old(self)@ }),
    {
        proof {
            use_type_invariant(&*self);
            use_type_invariant(&p);
        }
        self.selection = Some(p);
    }

    /// Writes `c` into the cell at `p`.
    fn set(&mut self, p: Position, c: Cell)
        requires
            c is None ==> old(self)@.selection != Some(p@),
        ensures
            final(self)@ == (BoardView { cells: old(self)@.cells.insert(p@, c), ..old(self)@ }),
    {
        proof {
            use_type_invariant(&*self);
        }
        let (x, y) = p.tuple();
        self.cells[x as usize][y as usize] = c;
        assert(self@.cells =~= old(self)@.cells.insert(p@, c));
    }

    /// The colour whose turn it nominally is. It starts as Black and no
    /// operation of the board changes it: turns are not enforced.
    pub fn current_player(&self) -> (colour: PlayerColor)
        ensures
            colour == self@.current_player,
    {
        self.current_player
    }

    /// The cell whose piece is selected, if one is.
    pub fn selection(&self) -> (selected: Option<Position>)
        ensures
            view_of(selected) == self@.selection,
            selected matches Some(p) ==> self@.cells[p@] is Some,
    {
        proof {
            use_type_invariant(self);
        }
        self.selection
    }

    /// The destination of the latest move, if a move was made.
    pub fn last_move(&self) -> (latest: Option<Position>)
        ensures
            view_of(latest) == self@.last_move,
    {
        self.last_move
    }

    /// Moves the piece at `from` to `to`.
    ///
    /// The move is refused, and the board left exactly as it was, when `to`
    /// is more than one step from `from` (`TooFar`), else when `from` holds
    /// no piece (`EmptySource`), else when `to` holds one
    /// (`DestinationOccupied`; a move onto the source itself ends here).
    /// Otherwise the piece changes cell, `to` becomes the latest move, and
    /// a selection of `from` is dropped.
    pub fn move_chess(&mut self, from: Position, to: Position) -> (done: Result<(), MoveError>)
        ensures
            done == (match old(self)@.move_error(from@, to@) {
                Some(e) => Err::<(), MoveError>(e),
                None => Ok(()),
            }),
            done is Ok <==> manhattan(from@, to@) == 1 && old(self)@.cells[from@] is Some && old(
                self,
            )@.cells[to@] is None,
            done is Ok ==> final(self)@ == old(self)@.moved(from@, to@),
            done is Err ==> *final(self) == *old(self),
    {
        if from.distance(&to) > 1 {
            return Err(MoveError::TooFar);
        }
        let current = self.index(from);
        if current.is_none() {
            return Err(MoveError::EmptySource);
        }
        let next = self.index(to);
        if next.is_some() {
            return Err(MoveError::DestinationOccupied);
        }
        proof {
            use_type_invariant(&*self);
            use_type_invariant(&from);
            use_type_invariant(&to);
        }
        if self.selects(from) {
            self.selection = None;
        }
        self.last_move = Some(to);
        self.set(from, None);
        self.set(to, current);
        assert(self@.cells =~= old(self)@.moved(from@, to@).cells);
        Ok(())
    }

    /// Empties the cell at `p`, whether it held a piece or not. A selection
    /// of `p` is dropped. On a cell that is already empty nothing changes.
    pub fn eat_piece(&mut self, p: Position)
        ensures
            final(self)@ == old(self)@.removed(p@),
            old(self)@.cells[p@] is None ==> *final(self) == *old(self),
    {
        proof {
            use_type_invariant(&*self);
            use_type_invariant(&p);
        }
        if self.index(p).is_some() {
            if self.selects(p) {
                self.selection = None;
            }
            self.set(p, None);
        } else {
            assert(self@.cells =~= self@.cells.insert(p@, None));
        }
    }
}

} // verus!
