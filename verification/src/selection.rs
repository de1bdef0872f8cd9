//! The two intents of a player: to select a piece, and to move the selected
//! piece to a cell.
//!
//! The board is either idle, with nothing selected, or holds a selected
//! piece. Each intent is answered with an `Outcome` and never fails harder
//! than that: an intent that does not fit the state is answered `NoOp`.

use crate::board::Board;
use crate::capture::views_of;
use crate::laws::lemma_confirm_moved;
use crate::position::Position;
use crate::rules::{MoveError, OutcomeView};
use vstd::prelude::*;

verus! {

/// What an intent came to.
#[derive(Clone, Debug, PartialEq, Eq)]
pub enum Outcome {
    /// The piece at this cell is now selected.
    Selected(Position),
    /// Nothing happened.
    NoOp,
    /// The selected piece moved from `from` to `to`, and the pieces at
    /// `captured` were taken off the board.
    Moved { from: Position, to: Position, captured: Vec<Position> },
    /// The move was refused; the piece is still selected.
    Rejected(MoveError),
}

impl View for Outcome {
    type V = OutcomeView;

    open spec fn view(&self) -> OutcomeView {
        match *self {
            Outcome::Selected(p) => OutcomeView::Selected(p@),
            Outcome::NoOp => OutcomeView::NoOp,
            Outcome::Moved { from, to, captured } => OutcomeView::Moved {
                from: from@,
                to: to@,
                captured: views_of(captured@),
            },
            Outcome::Rejected(e) => OutcomeView::Rejected(e),
        }
    }
}

impl Board {
    /// The intent to select the piece at `target`.
    ///
    /// With nothing selected and a piece at `target`, that piece becomes
    /// the selected one and the answer is `Selected(target)`. On an empty
    /// cell, or while a piece is selected already, nothing changes and the
    /// answer is `NoOp`.
    pub fn select(&mut self, target: Position) -> (outcome: Outcome)
        ensures
            (final(self)@, outcome@) == old(self)@.select(target@),
            outcome is NoOp ==> *final(self) == *old(self),
    {
        if self.selection().is_none() && self.index(target).is_some() {
            self.arm(target);
            Outcome::Selected(target)
        } else {
            Outcome::NoOp
        }
    }

    /// The intent to move the selected piece to `target`.
    ///
    /// With nothing selected the answer is `NoOp`. A move that the board
    /// refuses is answered `Rejected` with the board's reason; the board is
    /// then exactly as it was and the piece is still selected. A move that
    /// succeeds is followed by the removal of every piece it has flanked,
    /// leaves nothing selected, and is answered `Moved` with the two cells
    /// and the cells of the pieces taken.
    pub fn confirm(&mut self, target: Position) -> (outcome: Outcome)
        ensures
            (final(self)@, outcome@) == old(self)@.confirm(target@),
            outcome is NoOp || outcome is Rejected ==> *final(self) == *old(self),
            outcome is Moved ==> {
                &&& final(self)@.selection is None
                &&& final(self)@.cells[target@] == old(self)@.cells[old(self)@.selection->0]
                &&& final(self)@.cells[target@] is Some
            },
    {
        proof {
            use_type_invariant(&*self);
            use_type_invariant(&target);
            if self@.confirm(target@).1 is Moved {
                lemma_confirm_moved(self@, target@);
            }
        }
        let from = match self.selection() {
            Some(from) => from,
            None => {
                return Outcome::NoOp;
            },
        };
        match self.move_chess(from, target) {
            Err(e) => Outcome::Rejected(e),
            Ok(()) => {
                let captured = self.can_eat_chess(target);
                let ghost after = self@;
                let mut i: usize = 0;
                while i < captured.len()
                    invariant
                        i <= captured.len(),
                        views_of(captured@) == after.capturable(target@),
                        self@ == after.removed_all(views_of(captured@).take(i as int)),
                    decreases captured.len() - i,
                {
                    self.eat_piece(captured[i]);
                    proof {
                        let done = views_of(captured@).take(i as int + 1);
                        assert(done.drop_last() =~= views_of(captured@).take(i as int));
                        assert(done.last() == captured@[i as int]@);
                    }
                    i += 1;
                }
                proof {
                    assert(views_of(captured@).take(captured@.len() as int) =~= views_of(
                        captured@,
                    ));
                }
                Outcome::Moved { from, to: target, captured }
            },
        }
    }

    /// The intent that the one action key stands for, at the cell under the
    /// cursor: to confirm a move there when a piece is selected, and to
    /// select the piece there otherwise.
    pub fn cursor_select(&mut self, cursor: Position) -> (outcome: Outcome)
        ensures
            (final(self)@, outcome@) == old(self)@.cursor_select(cursor@),
            outcome is NoOp || outcome is Rejected ==> *final(self) == *old(self),
    {
        if self.selection().is_some() {
            self.confirm(cursor)
        } else {
            self.select(cursor)
        }
    }
}

} // verus!
