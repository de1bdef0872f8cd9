//! Piece colours and cell contents.

use vstd::prelude::*;

verus! {

/// The colour of a piece, and so of the player who owns it.
#[derive(Clone, Copy, Debug, PartialEq, Eq, Structural)]
pub enum PieceColor {
    Black,
    White,
}

/// A player is known by the colour of their pieces.
pub type PlayerColor = PieceColor;

/// What a cell of the grid holds: nothing, or one piece of one colour.
pub type Cell = Option<PieceColor>;

impl PieceColor {
    /// The other colour.
    pub open spec fn spec_opposite(&self) -> PieceColor {
        match self {
            PieceColor::Black => PieceColor::White,
            PieceColor::White => PieceColor::Black,
        }
    }

    /// The other colour.
    #[verifier::when_used_as_spec(spec_opposite)]
    pub fn opposite(&self) -> (other: Self)
        ensures
            other == self.spec_opposite(),
    {
        match self {
            PieceColor::Black => PieceColor::White,
            PieceColor::White => PieceColor::Black,
        }
    }

    /// Taking the other colour twice gives the colour back, and never the
    /// colour itself in between.
    pub proof fn lemma_opposite_involutive(c: PieceColor)
        ensures
            c.opposite().opposite() == c,
            c.opposite() != c,
    {
    }
}

} // verus!
