//! Cells of the board, the two sides, and moves.

use vstd::prelude::*;

verus! {

/// The eleven cells of the board, listed column by column from the hounds'
/// end (column 0) to the hare's end (column 4).
#[derive(PartialEq, Eq, Structural, PartialOrd, Ord, Hash, Copy, Clone, Debug)]
pub enum Position {
    Dogmost,
    Updog,
    Middog,
    Downdog,
    Upcenter,
    Midcenter,
    Downcenter,
    Uphare,
    Midhare,
    Downhare,
    Haremost,
}

/// The two sides: the three hounds and the hare.
#[derive(PartialEq, Eq, Structural, Hash, Copy, Clone, Debug)]
pub enum Player {
    Dog,
    Hare,
}

impl Player {
    /// The opponent of `self`.
    pub open spec fn spec_other(self) -> Player {
        match self {
            Player::Dog => Player::Hare,
            Player::Hare => Player::Dog,
        }
    }

    /// The side that is not `self`.
    pub fn other(self) -> (r: Player)
        ensures
            r == self.spec_other(),
    {
        match self {
            Player::Dog => Player::Hare,
            Player::Hare => Player::Dog,
        }
    }
}

/// A move: the cell a piece leaves, then the cell it steps to. Which side
/// moves is not recorded: it is the side whose turn it is.
#[derive(PartialEq, Eq, Structural, Copy, Clone, Debug)]
pub struct Move(pub Position, pub Position);

/// The fixed order of the cells, used to put the hounds in a canonical order.
pub open spec fn spec_index(p: Position) -> nat {
    match p {
        Position::Dogmost => 0,
        Position::Updog => 1,
        Position::Middog => 2,
        Position::Downdog => 3,
        Position::Upcenter => 4,
        Position::Midcenter => 5,
        Position::Downcenter => 6,
        Position::Uphare => 7,
        Position::Midhare => 8,
        Position::Downhare => 9,
        Position::Haremost => 10,
    }
}

/// The column of a cell, 0 at the hounds' end to 4 at the hare's end.
pub open spec fn spec_rank(p: Position) -> nat {
    match p {
        Position::Dogmost => 0,
        Position::Updog | Position::Middog | Position::Downdog => 1,
        Position::Upcenter | Position::Midcenter | Position::Downcenter => 2,
        Position::Uphare | Position::Midhare | Position::Downhare => 3,
        Position::Haremost => 4,
    }
}

impl Position {
    /// Place of the cell in the fixed order of cells.
    pub fn index(self) -> (r: u8)
        ensures
            r as nat == spec_index(self),
            r < 11,
    {
        match self {
            Position::Dogmost => 0,
            Position::Updog => 1,
            Position::Middog => 2,
            Position::Downdog => 3,
            Position::Upcenter => 4,
            Position::Midcenter => 5,
            Position::Downcenter => 6,
            Position::Uphare => 7,
            Position::Midhare => 8,
            Position::Downhare => 9,
            Position::Haremost => 10,
        }
    }

    /// Column of the cell.
    pub fn rank(self) -> (r: u8)
        ensures
            r as nat == spec_rank(self),
    {
        match self {
            Position::Dogmost => 0,
            Position::Updog | Position::Middog | Position::Downdog => 1,
            Position::Upcenter | Position::Midcenter | Position::Downcenter => 2,
            Position::Uphare | Position::Midhare | Position::Downhare => 3,
            Position::Haremost => 4,
        }
    }
}

/// Orders cells by their place in the fixed order.
pub open spec fn cmp_index(a: Position, b: Position) -> core::cmp::Ordering {
    if spec_index(a) < spec_index(b) {
        core::cmp::Ordering::Less
    } else if spec_index(a) > spec_index(b) {
        core::cmp::Ordering::Greater
    } else {
        core::cmp::Ordering::Equal
    }
}

/// Compares two cells by their place in the fixed order.
fn compare_cells(a: Position, b: Position) -> (r: core::cmp::Ordering)
    ensures
        r == cmp_index(a, b),
{
    let i = a.index();
    let j = b.index();
    if i < j {
        core::cmp::Ordering::Less
    } else if i > j {
        core::cmp::Ordering::Greater
    } else {
        core::cmp::Ordering::Equal
    }
}

/// Moves are ordered by the cell left, then by the cell reached.
impl PartialOrd for Move {
    fn partial_cmp(&self, other: &Move) -> (r: Option<core::cmp::Ordering>) {
        match compare_cells(self.0, other.0) {
            core::cmp::Ordering::Equal => Some(compare_cells(self.1, other.1)),
            ord => Some(ord),
        }
    }
}

impl vstd::std_specs::cmp::PartialOrdSpecImpl for Move {
    open spec fn obeys_partial_cmp_spec() -> bool {
        true
    }

    open spec fn partial_cmp_spec(&self, other: &Move) -> Option<core::cmp::Ordering> {
        match cmp_index(self.0, other.0) {
            core::cmp::Ordering::Equal => Some(cmp_index(self.1, other.1)),
            ord => Some(ord),
        }
    }
}

/// Two cells are the same exactly when they have the same place in the order.
pub proof fn lemma_index_injective(p: Position, q: Position)
    ensures
        spec_index(p) == spec_index(q) <==> p == q,
{
}

} // verus!
