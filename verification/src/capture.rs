//! Finding the pieces that a move has flanked.

use crate::board::Board;
use crate::flank::{flank_capture, lemma_flank_table};
use crate::laws::lemma_capturable;
use crate::piece::{Cell, PieceColor};
use crate::position::Position;
use vstd::prelude::*;

verus! {

/// The coordinates of each position of a list, in the list's order.
pub open spec fn views_of(ps: Seq<Position>) -> Seq<(int, int)> {
    Seq::new(ps.len(), |i: int| ps[i]@)
}

impl Board {
    /// The index at which the line `(x1, x2, x3, x4)` holds a flanked piece,
    /// if it has one. The line alone decides: the board is not read.
    pub fn can_eat(&self, x1: Cell, x2: Cell, x3: Cell, x4: Cell) -> (index: Option<i32>)
        ensures
            index is Some <==> flank_capture((x1, x2, x3, x4)) is Some,
            index matches Some(i) ==> flank_capture((x1, x2, x3, x4)) == Some(i as int),
    {
        proof {
            lemma_flank_table((x1, x2, x3, x4));
        }
        match (x1, x2, x3, x4) {
            (
                Some(PieceColor::Black),
                Some(PieceColor::White),
                Some(PieceColor::White),
                None | Some(PieceColor::White),
            ) => Some(0),
            (
                Some(PieceColor::White),
                Some(PieceColor::Black),
                Some(PieceColor::Black),
                None | Some(PieceColor::Black),
            ) => Some(0),
            (
                None | Some(PieceColor::White),
                Some(PieceColor::Black),
                Some(PieceColor::White),
                Some(PieceColor::White),
            ) => Some(1),
            (
                None | Some(PieceColor::Black),
                Some(PieceColor::White),
                Some(PieceColor::Black),
                Some(PieceColor::Black),
            ) => Some(1),
            (
                Some(PieceColor::Black),
                Some(PieceColor::Black),
                Some(PieceColor::White),
                None | Some(PieceColor::Black),
            ) => Some(2),
            (
                Some(PieceColor::White),
                Some(PieceColor::White),
                Some(PieceColor::Black),
                None | Some(PieceColor::White),
            ) => Some(2),
            (
                None | Some(PieceColor::White),
                Some(PieceColor::White),
                Some(PieceColor::White),
                Some(PieceColor::Black),
            ) => Some(3),
            (
                None | Some(PieceColor::Black),
                Some(PieceColor::Black),
                Some(PieceColor::Black),
                Some(PieceColor::White),
            ) => Some(3),
            _ => None,
        }
    }

    /// The pieces that are captured once a piece has arrived at `around`.
    ///
    /// The line of cells with the `x` of `around` and the line with its `y`
    /// are each searched for a flanked piece. What is found is reported,
    /// the first line's piece before the second's, unless it is the piece
    /// at `around` itself, which is never captured by the move that
    /// brought it there. The board is not changed.
    pub fn can_eat_chess(&self, around: Position) -> (captured: Vec<Position>)
        ensures
            views_of(captured@) == self@.capturable(around@),
            captured@.len() <= 2,
            forall|i: int|
                0 <= i < captured@.len() ==> {
                    &&& (#[trigger] captured@[i])@ != around@
                    &&& self@.cells[captured@[i]@] is Some
                },
            forall|i: int, j: int|
                0 <= i < j < captured@.len() ==> captured@[i]@ != captured@[j]@,
    {
        let mut res: Vec<Position> = Vec::new();
        let (x, y) = around.tuple();
        let a0 = self.index(Position::at(x, 0));
        let a1 = self.index(Position::at(x, 1));
        let a2 = self.index(Position::at(x, 2));
        let a3 = self.index(Position::at(x, 3));
        match self.can_eat(a0, a1, a2, a3) {
            Some(py) => {
                if py != y {
                    res.push(Position::at(x, py));
                }
            },
            None => (),
        };
        let b0 = self.index(Position::at(0, y));
        let b1 = self.index(Position::at(1, y));
        let b2 = self.index(Position::at(2, y));
        let b3 = self.index(Position::at(3, y));
        match self.can_eat(b0, b1, b2, b3) {
            Some(px) => {
                if px != x {
                    res.push(Position::at(px, y));
                }
            },
            None => (),
        };
        proof {
            use_type_invariant(self);
            assert(views_of(res@) =~= self@.capturable(around@));
            lemma_capturable(self@, around@);
            assert forall|i: int| 0 <= i < res@.len() implies {
                &&& (#[trigger] res@[i])@ != around@
                &&& self@.cells[res@[i]@] is Some
            } by {
                assert(res@[i]@ == self@.capturable(around@)[i]);
            }
            assert forall|i: int, j: int| 0 <= i < j < res@.len() implies res@[i]@ != res@[j]@ by {
                assert(res@[i]@ == self@.capturable(around@)[i]);
                assert(res@[j]@ == self@.capturable(around@)[j]);
            }
        }
        res
    }
}

} // verus!
