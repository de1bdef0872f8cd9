//! Grid coordinates and the four directions of movement.

use vstd::prelude::*;

verus! {

/// Whether the pair `(x, y)` names a cell of the 4x4 grid.
pub open spec fn on_board(p: (int, int)) -> bool {
    0 <= p.0 <= 3 && 0 <= p.1 <= 3
}

/// The number of orthogonal steps between two cells.
pub open spec fn manhattan(a: (int, int), b: (int, int)) -> int {
    (if b.0 >= a.0 {
        b.0 - a.0
    } else {
        a.0 - b.0
    }) + (if b.1 >= a.1 {
        b.1 - a.1
    } else {
        a.1 - b.1
    })
}

/// The cell one step from `p` in direction `m`, whether on the grid or not.
pub open spec fn shifted(p: (int, int), m: Movement) -> (int, int) {
    (p.0 + m.delta().0, p.1 + m.delta().1)
}

/// Where a step in direction `m` takes `p`: to the neighbouring cell, or
/// nowhere when that would leave the grid.
pub open spec fn stepped(p: (int, int), m: Movement) -> (int, int) {
    if on_board(shifted(p, m)) {
        shifted(p, m)
    } else {
        p
    }
}

/// Where the held keys take a cursor at `p`: each key that is down gives one
/// step, taken in the order left, right, down, up.
pub open spec fn after_keys(p: (int, int), left: bool, right: bool, down: bool, up: bool) -> (
    int,
    int,
) {
    let after_left = if left {
        stepped(p, Movement::Left)
    } else {
        p
    };
    let after_right = if right {
        stepped(after_left, Movement::Right)
    } else {
        after_left
    };
    let after_down = if down {
        stepped(after_right, Movement::Down)
    } else {
        after_right
    };
    if up {
        stepped(after_down, Movement::Up)
    } else {
        after_down
    }
}

/// One of the four orthogonal directions.
#[derive(Clone, Copy, Debug, PartialEq, Eq, Structural)]
pub enum Movement {
    Left,
    Right,
    Up,
    Down,
}

impl Movement {
    /// The change of `(x, y)` that one step in this direction makes.
    pub open spec fn delta(self) -> (int, int) {
        match self {
            Movement::Left => (-1, 0),
            Movement::Right => (1, 0),
            Movement::Up => (0, 1),
            Movement::Down => (0, -1),
        }
    }

    /// The direction that undoes this one.
    pub open spec fn reversed(self) -> Movement {
        match self {
            Movement::Left => Movement::Right,
            Movement::Right => Movement::Left,
            Movement::Up => Movement::Down,
            Movement::Down => Movement::Up,
        }
    }

    /// The change of `(x, y)` that one step in this direction makes.
    pub fn number(&self) -> (d: (i8, i8))
        ensures
            (d.0 as int, d.1 as int) == self.delta(),
    {
        match self {
            Movement::Left => (-1, 0),
            Movement::Right => (1, 0),
            Movement::Up => (0, 1),
            Movement::Down => (0, -1),
        }
    }

    /// The direction that undoes this one.
    pub fn opposite(&self) -> (back: Self)
        ensures
            back == self.reversed(),
    {
        match self {
            Movement::Left => Movement::Right,
            Movement::Right => Movement::Left,
            Movement::Up => Movement::Down,
            Movement::Down => Movement::Up,
        }
    }

    /// Reversing twice gives the direction back, and a reversed direction
    /// steps by the negated amounts.
    pub proof fn lemma_reversed(m: Movement)
        ensures
            m.reversed().reversed() == m,
            m.reversed() != m,
            m.reversed().delta() == (-m.delta().0, -m.delta().1),
    {
    }

    /// A step and then a step back returns to the start.
    pub proof fn lemma_step_back(p: (int, int), m: Movement)
        ensures
            shifted(shifted(p, m), m.reversed()) == p,
    {
    }
}

/// Two cells are one step apart exactly when some direction leads from the
/// first to the second.
pub proof fn lemma_adjacent_iff_one_step(a: (int, int), b: (int, int))
    ensures
        manhattan(a, b) == 1 <==> exists|m: Movement| b == shifted(a, m),
{
    if manhattan(a, b) == 1 {
        if b.0 == a.0 - 1 {
            assert(b == shifted(a, Movement::Left));
        } else if b.0 == a.0 + 1 {
            assert(b == shifted(a, Movement::Right));
        } else if b.1 == a.1 + 1 {
            assert(b == shifted(a, Movement::Up));
        } else {
            assert(b == shifted(a, Movement::Down));
        }
    }
}

/// The distance is symmetric, never negative, and zero only between a cell
/// and itself.
pub proof fn lemma_manhattan(a: (int, int), b: (int, int))
    ensures
        manhattan(a, b) == manhattan(b, a),
        manhattan(a, b) >= 0,
        manhattan(a, b) == 0 <==> a == b,
{
}

/// The error of building a position from a coordinate outside `0..=3`.
#[derive(Clone, Copy, Debug, PartialEq, Eq, Structural)]
pub struct OutOfRange;

impl OutOfRange {
    /// A short text for the error.
    pub fn message(&self) -> (text: &'static str)
        ensures
            text@ == "out of range"@,
    {
        "out of range"
    }
}

/// A cell of the grid, by its two coordinates, each within `0..=3`.
///
/// A value of this type always names a cell of the grid: the fields are
/// private and every method keeps them in range.
#[derive(Clone, Copy, Debug, PartialEq, Eq, Structural)]
pub struct Position {
    x: i32,
    y: i32,
}

impl View for Position {
    type V = (int, int);

    closed spec fn view(&self) -> (int, int) {
        (self.x as int, self.y as int)
    }
}

impl Position {
    /// Holds of every position that executable code can hold.
    #[verifier::type_invariant]
    pub open spec fn wf(self) -> bool {
        on_board(self@)
    }

    /// The position `(x, y)`, or `OutOfRange` where a coordinate lies
    /// outside `0..=3`.
    pub fn new(x: i32, y: i32) -> (made: Result<Position, OutOfRange>)
        ensures
            made is Ok <==> on_board((x as int, y as int)),
            made matches Ok(p) ==> p@ == (x as int, y as int),
    {
        if x < 0 || x > 3 || y < 0 || y > 3 {
            Err(OutOfRange)
        } else {
            Ok(Position { x, y })
        }
    }

    /// The position `(x, y)` of coordinates known to be in range.
    pub(crate) fn at(x: i32, y: i32) -> (p: Position)
        requires
            on_board((x as int, y as int)),
        ensures
            p@ == (x as int, y as int),
    {
        Position { x, y }
    }

    /// The first coordinate.
    pub fn x(&self) -> (x: i32)
        ensures
            x == self@.0,
            0 <= x <= 3,
    {
        proof {
            use_type_invariant(self);
        }
        self.x
    }

    /// The second coordinate.
    pub fn y(&self) -> (y: i32)
        ensures
            y == self@.1,
            0 <= y <= 3,
    {
        proof {
            use_type_invariant(self);
        }
        self.y
    }

    /// Both coordinates, as a pair.
    pub fn tuple(&self) -> (pair: (i32, i32))
        ensures
            (pair.0 as int, pair.1 as int) == self@,
            on_board(self@),
    {
        proof {
            use_type_invariant(self);
        }
        (self.x, self.y)
    }

    /// The number of orthogonal steps from here to `to`.
    pub fn distance(&self, to: &Position) -> (d: i32)
        ensures
            d == manhattan(self@, to@),
            0 <= d <= 6,
    {
        proof {
            use_type_invariant(self);
            use_type_invariant(to);
        }
        let dx: i32 = if to.x >= self.x {
            to.x - self.x
        } else {
            self.x - to.x
        };
        let dy: i32 = if to.y >= self.y {
            to.y - self.y
        } else {
            self.y - to.y
        };
        dx + dy
    }

    /// One step towards larger `y`, or none at the edge.
    pub fn move_up(&mut self)
        ensures
            final(self)@ == stepped(old(self)@, Movement::Up),
    {
        proof {
            use_type_invariant(&*self);
        }
        if self.y < 3 {
            self.y += 1;
        }
    }

    /// One step towards smaller `y`, or none at the edge.
    pub fn move_down(&mut self)
        ensures
            final(self)@ == stepped(old(self)@, Movement::Down),
    {
        proof {
            use_type_invariant(&*self);
        }
        if self.y > 0 {
            self.y -= 1;
        }
    }

    /// One step towards larger `x`, or none at the edge.
    pub fn move_right(&mut self)
        ensures
            final(self)@ == stepped(old(self)@, Movement::Right),
    {
        proof {
            use_type_invariant(&*self);
        }
        if self.x < 3 {
            self.x += 1;
        }
    }

    /// One step towards smaller `x`, or none at the edge.
    pub fn move_left(&mut self)
        ensures
            final(self)@ == stepped(old(self)@, Movement::Left),
    {
        proof {
            use_type_invariant(&*self);
        }
        if self.x > 0 {
            self.x -= 1;
        }
    }

    /// Two positions with the same coordinates are the same position.
    pub proof fn lemma_view_injective(a: Position, b: Position)
        requires
            a@ == b@,
        ensures
            a == b,
    {
    }
}

/// Moves a cursor by the keys that are down, one step for each, in the
/// order left, right, down, up; a step that would leave the grid is not
/// taken.
pub fn cursor_movement(cursor: &mut Position, left: bool, right: bool, down: bool, up: bool)
    ensures
        final(cursor)@ == after_keys(old(cursor)@, left, right, down, up),
{
    if left {
        cursor.move_left();
    }
    if right {
        cursor.move_right();
    }
    if down {
        cursor.move_down();
    }
    if up {
        cursor.move_up();
    }
}

} // verus!
