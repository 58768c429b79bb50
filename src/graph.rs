//! The board's links: for each cell and each side, the cells that a piece of
//! that side may step to from it, in the order in which moves are tried.

use vstd::prelude::*;

use crate::pieces::Position;

verus! {

/// Cells a hound may step to from `p`. Hounds never step back towards
/// their own end.
pub open spec fn dog_links(p: Position) -> Seq<Position> {
    match p {
        Position::Dogmost => seq![Position::Updog, Position::Middog, Position::Downdog],
        Position::Updog => seq![Position::Middog, Position::Upcenter, Position::Midcenter],
        Position::Middog => seq![Position::Updog, Position::Downdog, Position::Midcenter],
        Position::Downdog => seq![Position::Middog, Position::Midcenter, Position::Downcenter],
        Position::Upcenter => seq![Position::Midcenter, Position::Uphare],
        Position::Midcenter => seq![Position::Upcenter, Position::Downcenter, Position::Uphare, Position::Midhare, Position::Downhare],
        Position::Downcenter => seq![Position::Midcenter, Position::Downhare],
        Position::Uphare => seq![Position::Midhare, Position::Haremost],
        Position::Midhare => seq![Position::Uphare, Position::Downhare, Position::Haremost],
        Position::Downhare => seq![Position::Midhare, Position::Haremost],
        Position::Haremost => seq![],
    }
}

/// Cells the hare may step to from `p`: every link, in both directions.
pub open spec fn hare_links(p: Position) -> Seq<Position> {
    match p {
        Position::Dogmost => seq![Position::Updog, Position::Middog, Position::Downdog],
        Position::Updog => seq![Position::Dogmost, Position::Middog, Position::Upcenter, Position::Midcenter],
        Position::Middog => seq![Position::Dogmost, Position::Updog, Position::Downdog, Position::Midcenter],
        Position::Downdog => seq![Position::Dogmost, Position::Middog, Position::Midcenter, Position::Downcenter],
        Position::Upcenter => seq![Position::Updog, Position::Midcenter, Position::Uphare],
        Position::Midcenter => seq![Position::Updog, Position::Middog, Position::Downdog, Position::Upcenter, Position::Downcenter, Position::Uphare, Position::Midhare, Position::Downhare],
        Position::Downcenter => seq![Position::Downdog, Position::Midcenter, Position::Downhare],
        Position::Uphare => seq![Position::Upcenter, Position::Midcenter, Position::Midhare, Position::Haremost],
        Position::Midhare => seq![Position::Midcenter, Position::Uphare, Position::Downhare, Position::Haremost],
        Position::Downhare => seq![Position::Downcenter, Position::Midhare, Position::Haremost],
        Position::Haremost => seq![Position::Uphare, Position::Midhare, Position::Downhare],
    }
}

/// Cells a hound may step to from `p`.
pub fn dog_neighbours(p: Position) -> (r: Vec<Position>)
    ensures
        r@ == dog_links(p),
{
    let r = match p {
        Position::Dogmost => vec![Position::Updog, Position::Middog, Position::Downdog],
        Position::Updog => vec![Position::Middog, Position::Upcenter, Position::Midcenter],
        Position::Middog => vec![Position::Updog, Position::Downdog, Position::Midcenter],
        Position::Downdog => vec![Position::Middog, Position::Midcenter, Position::Downcenter],
        Position::Upcenter => vec![Position::Midcenter, Position::Uphare],
        Position::Midcenter => vec![Position::Upcenter, Position::Downcenter, Position::Uphare, Position::Midhare, Position::Downhare],
        Position::Downcenter => vec![Position::Midcenter, Position::Downhare],
        Position::Uphare => vec![Position::Midhare, Position::Haremost],
        Position::Midhare => vec![Position::Uphare, Position::Downhare, Position::Haremost],
        Position::Downhare => vec![Position::Midhare, Position::Haremost],
        Position::Haremost => vec![],
    };
    proof {
        assert(r@ =~= dog_links(p));
    }
    r
}

/// Cells the hare may step to from `p`.
pub fn hare_neighbours(p: Position) -> (r: Vec<Position>)
    ensures
        r@ == hare_links(p),
{
    let r = match p {
        Position::Dogmost => vec![Position::Updog, Position::Middog, Position::Downdog],
        Position::Updog => vec![Position::Dogmost, Position::Middog, Position::Upcenter, Position::Midcenter],
        Position::Middog => vec![Position::Dogmost, Position::Updog, Position::Downdog, Position::Midcenter],
        Position::Downdog => vec![Position::Dogmost, Position::Middog, Position::Midcenter, Position::Downcenter],
        Position::Upcenter => vec![Position::Updog, Position::Midcenter, Position::Uphare],
        Position::Midcenter => vec![Position::Updog, Position::Middog, Position::Downdog, Position::Upcenter, Position::Downcenter, Position::Uphare, Position::Midhare, Position::Downhare],
        Position::Downcenter => vec![Position::Downdog, Position::Midcenter, Position::Downhare],
        Position::Uphare => vec![Position::Upcenter, Position::Midcenter, Position::Midhare, Position::Haremost],
        Position::Midhare => vec![Position::Midcenter, Position::Uphare, Position::Downhare, Position::Haremost],
        Position::Downhare => vec![Position::Downcenter, Position::Midhare, Position::Haremost],
        Position::Haremost => vec![Position::Uphare, Position::Midhare, Position::Downhare],
    };
    proof {
        assert(r@ =~= hare_links(p));
    }
    r
}

} // verus!
