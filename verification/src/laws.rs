//! What holds of the rules, proved of the abstract board.

use crate::flank::{cell_at, flank_capture, lemma_flank_capture_shape};
use crate::piece::PieceColor;
use crate::position::{manhattan, on_board};
use crate::rules::{BoardView, MoveError, OutcomeView};
use vstd::prelude::*;
use vstd::set_lib::lemma_len_subset;

verus! {

/// The sixteen cells of the grid.
pub open spec fn grid() -> Set<(int, int)> {
    Set::new(|p: (int, int)| on_board(p))
}

/// The grid is a finite set of sixteen cells.
pub proof fn lemma_grid_finite()
    ensures
        grid().finite(),
        grid().len() == 16,
{
    let cells: Set<(int, int)> = set![
        (0, 0), (0, 1), (0, 2), (0, 3),
        (1, 0), (1, 1), (1, 2), (1, 3),
        (2, 0), (2, 1), (2, 2), (2, 3),
        (3, 0), (3, 1), (3, 2), (3, 3)
    ];
    assert(grid() =~= cells);
}

/// A new game starts from a valid board: four Black pieces on the row
/// `y = 0`, four White pieces on the row `y = 3`, and nothing else.
pub proof fn lemma_initial(p: (int, int))
    requires
        on_board(p),
    ensures
        BoardView::initial().wf(),
        BoardView::initial().cells[p] == (if p.1 == 0 {
            Some(PieceColor::Black)
        } else if p.1 == 3 {
            Some(PieceColor::White)
        } else {
            None
        }),
        BoardView::initial().selection is None,
        BoardView::initial().last_move is None,
        BoardView::initial().current_player == PieceColor::Black,
{
}

/// A move is made exactly when the two cells are one step apart, the source
/// holds a piece and the destination holds none. Every other move is
/// refused, for the first reason that applies: distance, then source, then
/// destination. A move from a cell to itself is always refused.
pub proof fn lemma_move_legality(b: BoardView, from: (int, int), to: (int, int))
    ensures
        b.move_error(from, to) is None <==> manhattan(from, to) == 1 && b.cells[from] is Some
            && b.cells[to] is None,
        b.move_error(from, to) == Some(MoveError::TooFar) <==> manhattan(from, to) > 1,
        b.move_error(from, to) == Some(MoveError::EmptySource) <==> manhattan(from, to) <= 1
            && b.cells[from] is None,
        b.move_error(from, to) == Some(MoveError::DestinationOccupied) <==> manhattan(from, to)
            <= 1 && b.cells[from] is Some && b.cells[to] is Some,
        from == to ==> b.move_error(from, to) is Some,
{
}

/// A move that is made leaves a valid board on which the piece stands at
/// its destination, its source is empty, every other cell is as before,
/// and the player marker is untouched.
pub proof fn lemma_moved(b: BoardView, from: (int, int), to: (int, int))
    requires
        b.wf(),
        on_board(from),
        on_board(to),
        b.move_error(from, to) is None,
    ensures
        b.moved(from, to).wf(),
        b.moved(from, to).cells[to] == b.cells[from],
        b.moved(from, to).cells[from] is None,
        forall|q: (int, int)|
            on_board(q) && q != from && q != to ==> b.moved(from, to).cells[q] == b.cells[q],
        b.moved(from, to).last_move == Some(to),
        b.moved(from, to).current_player == b.current_player,
        b.moved(from, to).selection == (if b.selection == Some(from) {
            None
        } else {
            b.selection
        }),
{
}

/// A move relocates a piece: the number of pieces of each colour stays the
/// same.
pub proof fn lemma_moved_keeps_count(
    b: BoardView,
    from: (int, int),
    to: (int, int),
    colour: PieceColor,
)
    requires
        b.wf(),
        on_board(from),
        on_board(to),
        b.move_error(from, to) is None,
    ensures
        b.moved(from, to).count(colour) == b.count(colour),
{
    lemma_grid_finite();
    let before = b.pieces(colour);
    let after = b.moved(from, to).pieces(colour);
    assert(before.subset_of(grid()));
    lemma_len_subset(before, grid());
    if b.cells[from] == Some(colour) {
        assert(after =~= before.remove(from).insert(to));
    } else {
        assert(after =~= before);
    }
}

/// Emptying a cell leaves a valid board on which that cell is empty and
/// every other cell is as before.
pub proof fn lemma_removed(b: BoardView, p: (int, int))
    requires
        b.wf(),
        on_board(p),
    ensures
        b.removed(p).wf(),
        b.removed(p).cells[p] is None,
        forall|q: (int, int)| on_board(q) && q != p ==> b.removed(p).cells[q] == b.cells[q],
        b.removed(p).last_move == b.last_move,
        b.removed(p).current_player == b.current_player,
{
}

/// Emptying a cell twice is emptying it once, and emptying a cell that is
/// empty already changes nothing.
pub proof fn lemma_removed_idempotent(b: BoardView, p: (int, int))
    requires
        b.wf(),
        on_board(p),
    ensures
        b.removed(p).removed(p) == b.removed(p),
        b.cells[p] is None ==> b.removed(p) == b,
{
    assert(b.removed(p).removed(p).cells =~= b.removed(p).cells);
    if b.cells[p] is None {
        assert(b.removed(p).cells =~= b.cells);
    }
}

/// Emptying a cell takes away the piece it held and no other: the count of
/// that piece's colour falls by one and the other count stays.
pub proof fn lemma_removed_count(b: BoardView, p: (int, int), colour: PieceColor)
    requires
        b.wf(),
        on_board(p),
    ensures
        b.removed(p).count(colour) == b.count(colour) - (if b.cells[p] == Some(colour) {
            1int
        } else {
            0int
        }),
{
    lemma_grid_finite();
    let before = b.pieces(colour);
    let after = b.removed(p).pieces(colour);
    assert(before.subset_of(grid()));
    lemma_len_subset(before, grid());
    if b.cells[p] == Some(colour) {
        assert(after =~= before.remove(p));
    } else {
        assert(after =~= before);
    }
}

/// What a move captures: at most two pieces, one for each line through the
/// destination, no cell twice, each on the grid and on a line with the
/// destination, each holding a piece, and never the destination itself.
pub proof fn lemma_capturable(b: BoardView, around: (int, int))
    requires
        b.wf(),
        on_board(around),
    ensures
        b.capturable(around).len() <= 2,
        b.capturable(around).no_duplicates(),
        !b.capturable(around).contains(around),
        forall|i: int|
            0 <= i < b.capturable(around).len() ==> {
                let q = #[trigger] b.capturable(around)[i];
                &&& on_board(q)
                &&& q != around
                &&& q.0 == around.0 || q.1 == around.1
                &&& b.cells[q] is Some
            },
{
    let lx = b.line_of_x(around.0);
    let ly = b.line_of_y(around.1);
    lemma_flank_capture_shape(lx);
    lemma_flank_capture_shape(ly);
    let caps = b.capturable(around);
    assert forall|i: int| 0 <= i < caps.len() implies {
        let q = #[trigger] caps[i];
        &&& on_board(q)
        &&& q != around
        &&& q.0 == around.0 || q.1 == around.1
        &&& b.cells[q] is Some
    } by {
        let q = caps[i];
        if q.0 == around.0 {
            assert(flank_capture(lx) == Some(q.1));
            assert(cell_at(lx, q.1) == b.cells[q]);
        } else {
            assert(flank_capture(ly) == Some(q.0));
            assert(cell_at(ly, q.0) == b.cells[q]);
        }
    }
}

/// Emptying a list of cells empties exactly those cells, and drops the
/// selection if it was among them.
pub proof fn lemma_removed_all(b: BoardView, ps: Seq<(int, int)>)
    requires
        b.wf(),
        forall|i: int| 0 <= i < ps.len() ==> on_board(#[trigger] ps[i]),
    ensures
        b.removed_all(ps).wf(),
        forall|q: (int, int)|
            on_board(q) ==> #[trigger] b.removed_all(ps).cells[q] == (if ps.contains(q) {
                None
            } else {
                b.cells[q]
            }),
        b.removed_all(ps).selection == (match b.selection {
            Some(s) => if ps.contains(s) {
                None
            } else {
                Some(s)
            },
            None => None,
        }),
        b.removed_all(ps).last_move == b.last_move,
        b.removed_all(ps).current_player == b.current_player,
    decreases ps.len(),
{
    if ps.len() > 0 {
        let front = ps.drop_last();
        lemma_removed_all(b, front);
        lemma_removed(b.removed_all(front), ps.last());
        assert forall|q: (int, int)| ps.contains(q) <==> front.contains(q) || q == ps.last() by {
            if ps.contains(q) {
                let i = choose|i: int| 0 <= i < ps.len() && ps[i] == q;
                if i < ps.len() - 1 {
                    assert(front[i] == q);
                }
            }
            if front.contains(q) {
                let i = choose|i: int| 0 <= i < front.len() && front[i] == q;
                assert(ps[i] == q);
            }
            if q == ps.last() {
                assert(ps[ps.len() - 1] == q);
            }
        }
    }
}

/// Selecting keeps the board valid and touches nothing but the selection.
pub proof fn lemma_select(b: BoardView, target: (int, int))
    requires
        b.wf(),
        on_board(target),
    ensures
        b.select(target).0.wf(),
        b.select(target).0.cells == b.cells,
        b.select(target).0.last_move == b.last_move,
        b.select(target).0.current_player == b.current_player,
        b.select(target).1 is Selected <==> b.selection is None && b.cells[target] is Some,
        b.select(target).1 is Selected ==> b.select(target).0.selection == Some(target),
        !(b.select(target).1 is Selected) ==> b.select(target).1 is NoOp && b.select(target).0
            == b,
{
}

/// A confirmed move that is refused changes nothing: the board is as it
/// was and the same piece is still selected.
pub proof fn lemma_confirm_refused(b: BoardView, target: (int, int))
    requires
        b.wf(),
        on_board(target),
    ensures
        b.selection is None ==> b.confirm(target) == (b, OutcomeView::NoOp),
        b.selection matches Some(from) ==> (b.move_error(from, target) matches Some(e) ==> b.confirm(
            target,
        ) == (b, OutcomeView::Rejected(e))),
        b.confirm(target).1 is Moved <==> (b.selection matches Some(from) && b.move_error(
            from,
            target,
        ) is None),
{
}

/// A confirmed move that is made leaves a valid, idle board. The piece
/// that moved stands at its destination, whatever the lines through that
/// cell look like: a move never captures the piece that made it. The
/// source and the captured cells are empty and every other cell is as
/// before.
pub proof fn lemma_confirm_moved(b: BoardView, target: (int, int))
    requires
        b.wf(),
        on_board(target),
        b.confirm(target).1 is Moved,
    ensures
        b.selection is Some,
        b.confirm(target).1 == (OutcomeView::Moved {
            from: b.selection->0,
            to: target,
            captured: b.moved(b.selection->0, target).capturable(target),
        }),
        b.confirm(target).0.wf(),
        b.confirm(target).0.selection is None,
        b.confirm(target).0.last_move == Some(target),
        b.confirm(target).0.current_player == b.current_player,
        b.confirm(target).0.cells[target] == b.cells[b.selection->0],
        b.confirm(target).0.cells[target] is Some,
        b.confirm(target).0.cells[b.selection->0] is None,
        forall|q: (int, int)|
            on_board(q) && q != target && q != b.selection->0 ==> #[trigger] b.confirm(
                target,
            ).0.cells[q] == (if b.moved(b.selection->0, target).capturable(target).contains(q) {
                None
            } else {
                b.cells[q]
            }),
{
    let from = b.selection->0;
    let after = b.moved(from, target);
    let caps = after.capturable(target);
    lemma_moved(b, from, target);
    lemma_capturable(after, target);
    lemma_removed_all(after, caps);
    assert(!caps.contains(target));
}

/// The player marker is Black from the start and stays so: no intent
/// changes it, and no intent asks whose turn it is.
pub proof fn lemma_turns_not_enforced(b: BoardView, target: (int, int))
    requires
        b.wf(),
        on_board(target),
    ensures
        b.select(target).0.current_player == b.current_player,
        b.confirm(target).0.current_player == b.current_player,
        b.cursor_select(target).0.current_player == b.current_player,
{
    if b.confirm(target).1 is Moved {
        lemma_confirm_moved(b, target);
    }
}

/// Every intent keeps the board valid.
pub proof fn lemma_intents_keep_wf(b: BoardView, target: (int, int))
    requires
        b.wf(),
        on_board(target),
    ensures
        b.select(target).0.wf(),
        b.confirm(target).0.wf(),
        b.cursor_select(target).0.wf(),
{
    if b.confirm(target).1 is Moved {
        lemma_confirm_moved(b, target);
    }
}

} // verus!
