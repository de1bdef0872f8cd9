//! The flanking rule on one line of four cells.
//!
//! A piece is flanked when the two cells next to it on one side hold the
//! other colour and the cell that is left over does not hold a piece of its
//! own colour. On a line of four this can happen at one index only.

use crate::piece::{Cell, PieceColor};
use vstd::prelude::*;

verus! {

/// Four cells along one axis of the grid, from coordinate 0 to coordinate 3.
pub type Line = (Cell, Cell, Cell, Cell);

/// The line read from the other end.
pub open spec fn mirrored(line: Line) -> Line {
    (line.3, line.2, line.1, line.0)
}

/// A cell with the colour of its piece, if it holds one, exchanged.
pub open spec fn recoloured_cell(c: Cell) -> Cell {
    match c {
        Some(colour) => Some(colour.spec_opposite()),
        None => None,
    }
}

/// The line with the colour of every piece exchanged.
pub open spec fn recoloured(line: Line) -> Line {
    (
        recoloured_cell(line.0),
        recoloured_cell(line.1),
        recoloured_cell(line.2),
        recoloured_cell(line.3),
    )
}

/// Whether a piece of colour `victim` stands at `index` of the line and is
/// flanked there.
///
/// At index 0 or 1 the two flanking pieces are the next two cells towards
/// the far end; at index 2 or 3 they are the two cells before it. The fourth
/// cell is empty or holds the flanking colour.
pub open spec fn flanked(line: Line, index: int, victim: PieceColor) -> bool {
    let own = Some(victim);
    let foe = Some(victim.spec_opposite());
    if index == 0 {
        line.0 == own && line.1 == foe && line.2 == foe && line.3 != own
    } else if index == 1 {
        line.0 != own && line.1 == own && line.2 == foe && line.3 == foe
    } else if index == 2 {
        line.0 == foe && line.1 == foe && line.2 == own && line.3 != own
    } else if index == 3 {
        line.0 != own && line.1 == foe && line.2 == foe && line.3 == own
    } else {
        false
    }
}

/// Whether a piece of either colour is flanked at `index` of the line.
pub open spec fn flanked_at(line: Line, index: int) -> bool {
    flanked(line, index, PieceColor::Black) || flanked(line, index, PieceColor::White)
}

/// The index at which the line holds a flanked piece, if it has one.
pub open spec fn flank_capture(line: Line) -> Option<int> {
    if flanked_at(line, 0) {
        Some(0)
    } else if flanked_at(line, 1) {
        Some(1)
    } else if flanked_at(line, 2) {
        Some(2)
    } else if flanked_at(line, 3) {
        Some(3)
    } else {
        None
    }
}

/// The cell at `index` of the line.
pub open spec fn cell_at(line: Line, index: int) -> Cell {
    if index == 0 {
        line.0
    } else if index == 1 {
        line.1
    } else if index == 2 {
        line.2
    } else {
        line.3
    }
}

/// A line holds at most one flanked piece: two matches are the same match.
pub proof fn lemma_flank_unique(line: Line, i: int, v: PieceColor, j: int, w: PieceColor)
    requires
        flanked(line, i, v),
        flanked(line, j, w),
    ensures
        i == j,
        v == w,
{
}

/// The index that is reported is the one index at which a piece is flanked,
/// so the order in which the places are tried does not matter.
pub proof fn lemma_flank_capture_iff(line: Line, index: int)
    ensures
        flank_capture(line) == Some(index) <==> flanked_at(line, index),
        flank_capture(line) is None <==> forall|i: int| !flanked_at(line, i),
{
    if flanked_at(line, index) {
        let v = if flanked(line, index, PieceColor::Black) {
            PieceColor::Black
        } else {
            PieceColor::White
        };
        if flanked_at(line, 0) {
            let w = if flanked(line, 0, PieceColor::Black) {
                PieceColor::Black
            } else {
                PieceColor::White
            };
            lemma_flank_unique(line, index, v, 0, w);
        } else if flanked_at(line, 1) {
            let w = if flanked(line, 1, PieceColor::Black) {
                PieceColor::Black
            } else {
                PieceColor::White
            };
            lemma_flank_unique(line, index, v, 1, w);
        } else if flanked_at(line, 2) {
            let w = if flanked(line, 2, PieceColor::Black) {
                PieceColor::Black
            } else {
                PieceColor::White
            };
            lemma_flank_unique(line, index, v, 2, w);
        }
    }
    if flank_capture(line) is None {
        assert forall|i: int| !flanked_at(line, i) by {}
    }
}

/// The rule written out as its eight rows, each with the index it captures
/// at: these rows, and nothing else, are what `flank_capture` reports.
pub proof fn lemma_flank_table(line: Line)
    ensures
        flank_capture(line) == (match line {
            (
                Some(PieceColor::Black),
                Some(PieceColor::White),
                Some(PieceColor::White),
                None | Some(PieceColor::White),
            ) => Some(0int),
            (
                Some(PieceColor::White),
                Some(PieceColor::Black),
                Some(PieceColor::Black),
                None | Some(PieceColor::Black),
            ) => Some(0int),
            (
                None | Some(PieceColor::White),
                Some(PieceColor::Black),
                Some(PieceColor::White),
                Some(PieceColor::White),
            ) => Some(1int),
            (
                None | Some(PieceColor::Black),
                Some(PieceColor::White),
                Some(PieceColor::Black),
                Some(PieceColor::Black),
            ) => Some(1int),
            (
                Some(PieceColor::Black),
                Some(PieceColor::Black),
                Some(PieceColor::White),
                None | Some(PieceColor::Black),
            ) => Some(2int),
            (
                Some(PieceColor::White),
                Some(PieceColor::White),
                Some(PieceColor::Black),
                None | Some(PieceColor::White),
            ) => Some(2int),
            (
                None | Some(PieceColor::White),
                Some(PieceColor::White),
                Some(PieceColor::White),
                Some(PieceColor::Black),
            ) => Some(3int),
            (
                None | Some(PieceColor::Black),
                Some(PieceColor::Black),
                Some(PieceColor::Black),
                Some(PieceColor::White),
            ) => Some(3int),
            _ => None,
        }),
{
}

/// The cell that is captured holds a piece, and its two neighbours on the
/// flanking side hold the other colour.
pub proof fn lemma_flank_capture_shape(line: Line)
    ensures
        flank_capture(line) matches Some(i) ==> {
            &&& 0 <= i <= 3
            &&& cell_at(line, i) matches Some(victim)
            &&& flanked(line, i, victim)
            &&& {
                let foe = Some(victim.spec_opposite());
                if i <= 1 {
                    cell_at(line, i + 1) == foe && cell_at(line, i + 2) == foe
                } else {
                    cell_at(line, i - 1) == foe && cell_at(line, i - 2) == foe
                }
            }
        },
{
}

/// Reading the line from the other end finds the same piece, at the index
/// counted from that end.
pub proof fn lemma_flank_mirror(line: Line)
    ensures
        flank_capture(mirrored(line)) == (match flank_capture(line) {
            Some(i) => Some(3 - i),
            None => None,
        }),
{
}

/// The rule does not favour a colour: with all colours exchanged the same
/// index is captured.
pub proof fn lemma_flank_colour_blind(line: Line)
    ensures
        flank_capture(recoloured(line)) == flank_capture(line),
{
}

/// A capture needs both middle cells and one end cell occupied, so a line
/// that holds fewer than three pieces captures nothing.
pub proof fn lemma_flank_needs_three(line: Line)
    ensures
        flank_capture(line) is Some ==> {
            &&& line.1 is Some
            &&& line.2 is Some
            &&& line.0 is Some || line.3 is Some
        },
{
}

} // verus!
