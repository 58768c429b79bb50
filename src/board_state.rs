//! Board states: where the pieces stand, the move number and whose turn it
//! is; the moves open to the side to move, and the result of a move.

use vstd::prelude::*;

use crate::graph::{dog_links, dog_neighbours, hare_links, hare_neighbours};
use crate::pieces::{spec_index, spec_rank, Move, Player, Position};

verus! {

/// A position of the game. The three hounds form a set: their order in
/// `dogs` carries no meaning.
#[derive(Copy, Clone, Debug)]
pub struct BoardState {
    pub dogs: [Position; 3],
    pub hare: Position,
    pub turn_num: usize,
    pub turn: Player,
}

/// Keeps of a list of cells those that are free in `s`, each as a move from `from`.
pub open spec fn moves_into(s: BoardState, from: Position, to: Seq<Position>) -> Seq<Move> {
    to.filter_map(|q: Position| if s.vacant(q) { Some(Move(from, q)) } else { None })
}

/// A move is among those kept exactly when it starts on `from` and steps to
/// a free cell of the list.
pub proof fn lemma_moves_into_contains(s: BoardState, from: Position, to: Seq<Position>, m: Move)
    ensures
        moves_into(s, from, to).contains(m) <==> (m.0 == from && to.contains(m.1) && s.vacant(
            m.1,
        )),
    decreases to.len(),
{
    if to.len() > 0 {
        let rest = to.drop_last();
        let last = to.last();
        lemma_moves_into_contains(s, from, rest, m);
        let kept = moves_into(s, from, rest);
        let added: Seq<Move> = if s.vacant(last) { seq![Move(from, last)] } else { seq![] };
        assert(moves_into(s, from, to) == kept + added);
        vstd::seq_lib::lemma_seq_concat_contains_all_elements(kept, added, m);
        assert(to =~= rest.push(last));
        vstd::seq_lib::lemma_seq_contains_after_push(rest, last, m.1);
        assert(to.contains(m.1) <==> rest.contains(m.1) || last == m.1);
        if s.vacant(last) && m == Move(from, last) {
            assert(added[0] == m);
        }
    } else {
        assert(moves_into(s, from, to) =~= seq![]);
    }
}

/// The three numbers in increasing order.
pub open spec fn sorted3(a: nat, b: nat, c: nat) -> (nat, nat, nat) {
    if a <= b {
        if b <= c {
            (a, b, c)
        } else if a <= c {
            (a, c, b)
        } else {
            (c, a, b)
        }
    } else {
        if a <= c {
            (b, a, c)
        } else if b <= c {
            (b, c, a)
        } else {
            (c, b, a)
        }
    }
}

/// The side to move as one binary digit of the key.
pub open spec fn turn_bit(p: Player) -> nat {
    match p {
        Player::Dog => 0,
        Player::Hare => 1,
    }
}

/// Puts three cell numbers in increasing order.
fn sort3(a: u8, b: u8, c: u8) -> (r: (u8, u8, u8))
    requires
        a < 11,
        b < 11,
        c < 11,
    ensures
        (r.0 as nat, r.1 as nat, r.2 as nat) == sorted3(a as nat, b as nat, c as nat),
        r.0 < 11,
        r.1 < 11,
        r.2 < 11,
{
    if a <= b {
        if b <= c {
            (a, b, c)
        } else if a <= c {
            (a, c, b)
        } else {
            (c, a, b)
        }
    } else {
        if a <= c {
            (b, a, c)
        } else if b <= c {
            (b, c, a)
        } else {
            (c, b, a)
        }
    }
}

/// `a * 16 + r` with `r` a hex digit determines `a` and `r`.
proof fn lemma_hex_digit(a1: int, r1: int, a2: int, r2: int)
    requires
        0 <= r1 < 16,
        0 <= r2 < 16,
        a1 * 16 + r1 == a2 * 16 + r2,
    ensures
        a1 == a2,
        r1 == r2,
{
}

impl BoardState {
    /// A hound stands on `p`.
    pub open spec fn has_dog(self, p: Position) -> bool {
        self.dogs[0] == p || self.dogs[1] == p || self.dogs[2] == p
    }

    /// No piece stands on `p`.
    pub open spec fn vacant(self, p: Position) -> bool {
        self.hare != p && !self.has_dog(p)
    }

    /// The hounds stand on three different cells, none of them the hare's.
    pub open spec fn wf(self) -> bool {
        &&& self.dogs[0] != self.dogs[1]
        &&& self.dogs[0] != self.dogs[2]
        &&& self.dogs[1] != self.dogs[2]
        &&& !self.has_dog(self.hare)
    }

    /// No hound stands in a column lower than the hare's.
    pub open spec fn spec_hare_passed(self) -> bool {
        forall|i: int| 0 <= i < 3 ==> spec_rank(#[trigger] self.dogs[i]) >= spec_rank(self.hare)
    }

    /// The same hounds' cells taken as a set, the same hare cell, move number
    /// and side to move.
    pub open spec fn same_as(self, o: BoardState) -> bool {
        &&& forall|p: Position| #[trigger] self.has_dog(p) == o.has_dog(p)
        &&& self.hare == o.hare
        &&& self.turn_num == o.turn_num
        &&& self.turn == o.turn
    }

    /// The hounds' cells in the fixed order of cells.
    pub open spec fn sorted_dogs(self) -> (nat, nat, nat) {
        sorted3(spec_index(self.dogs[0]), spec_index(self.dogs[1]), spec_index(self.dogs[2]))
    }

    /// The key as the number the memo table holds.
    pub open spec fn key(self) -> u128 {
        self.spec_key() as u128
    }

    /// The key of the state, as a whole number: move number, side to move,
    /// hare cell and the hounds' cells in the fixed order, as digits.
    pub open spec fn spec_key(self) -> int {
        let (x, y, z) = self.sorted_dogs();
        ((((self.turn_num * 2 + turn_bit(self.turn)) * 16 + spec_index(self.hare)) * 16 + x) * 16
            + y) * 16 + z
    }

    /// The moves of the hound on `from`, in the order of the board's links.
    pub open spec fn spec_dog_moves(self, from: Position) -> Seq<Move> {
        moves_into(self, from, dog_links(from))
    }

    /// The moves of the hare, in the order of the board's links.
    pub open spec fn spec_hare_moves(self) -> Seq<Move> {
        moves_into(self, self.hare, hare_links(self.hare))
    }

    /// The moves open to the side to move, in the order in which they are tried:
    /// hound by hound for the hounds.
    pub open spec fn spec_moves(self) -> Seq<Move> {
        match self.turn {
            Player::Dog => self.spec_dog_moves(self.dogs[0]) + self.spec_dog_moves(self.dogs[1])
                + self.spec_dog_moves(self.dogs[2]),
            Player::Hare => self.spec_hare_moves(),
        }
    }

    /// `m` is a move of the side to move: one of its pieces steps along a link
    /// open to that side onto a free cell.
    pub open spec fn is_legal(self, m: Move) -> bool {
        &&& match self.turn {
            Player::Dog => self.has_dog(m.0) && dog_links(m.0).contains(m.1),
            Player::Hare => m.0 == self.hare && hare_links(m.0).contains(m.1),
        }
        &&& self.vacant(m.1)
    }

    /// `m` starts on a piece of the side to move.
    pub open spec fn moves_own_piece(self, m: Move) -> bool {
        match self.turn {
            Player::Dog => self.has_dog(m.0),
            Player::Hare => m.0 == self.hare,
        }
    }

    /// The hounds after the hound on `from` stepped to `to`.
    pub open spec fn dogs_after(self, from: Position, to: Position) -> [Position; 3] {
        if self.dogs[0] == from {
            [to, self.dogs[1], self.dogs[2]]
        } else if self.dogs[1] == from {
            [self.dogs[0], to, self.dogs[2]]
        } else {
            [self.dogs[0], self.dogs[1], to]
        }
    }

    /// The state after `m`: the piece of the side to move on `m.0` steps to
    /// `m.1`, the move number goes up by one and the turn passes.
    pub open spec fn after(self, m: Move) -> BoardState {
        match self.turn {
            Player::Dog => BoardState {
                dogs: self.dogs_after(m.0, m.1),
                hare: self.hare,
                turn_num: (self.turn_num + 1) as usize,
                turn: Player::Hare,
            },
            Player::Hare => BoardState {
                dogs: self.dogs,
                hare: m.1,
                turn_num: (self.turn_num + 1) as usize,
                turn: Player::Dog,
            },
        }
    }

    /// The opening position: hounds on the three leftmost cells, the hare at
    /// the far end, move 1, hounds to move.
    pub fn new() -> (r: BoardState)
        ensures
            r.dogs == [Position::Updog, Position::Dogmost, Position::Downdog],
            r.hare == Position::Haremost,
            r.turn_num == 1,
            r.turn == Player::Dog,
            r.wf(),
    {
        BoardState {
            dogs: [Position::Updog, Position::Dogmost, Position::Downdog],
            hare: Position::Haremost,
            turn_num: 1,
            turn: Player::Dog,
        }
    }

    /// The side to move.
    pub fn whose_turn(&self) -> (r: Player)
        ensures
            r == self.turn,
    {
        self.turn
    }

    /// The move number.
    pub fn turn_num(&self) -> (r: usize)
        ensures
            r == self.turn_num,
    {
        self.turn_num
    }

    /// Whether no piece stands on `at`.
    pub fn is_empty(&self, at: &Position) -> (r: bool)
        ensures
            r == self.vacant(*at),
    {
        self.hare != *at && self.dogs[0] != *at && self.dogs[1] != *at && self.dogs[2] != *at
    }

    /// Whether the hare has got past the hounds: no hound stands in a lower
    /// column than the hare.
    pub fn hare_passed(&self) -> (r: bool)
        ensures
            r == self.spec_hare_passed(),
    {
        let hare_rank = self.hare.rank();
        let mut i: usize = 0;
        while i < 3
            invariant
                i <= 3,
                hare_rank == spec_rank(self.hare),
                forall|j: int| 0 <= j < i ==> spec_rank(#[trigger] self.dogs[j]) >= hare_rank,
            decreases 3 - i,
        {
            if self.dogs[i].rank() < hare_rank {
                return false;
            }
            i += 1;
        }
        true
    }

    /// The state after `mv`, a move of the side to move; `self` is left as it was.
    pub fn do_move(&self, mv: &Move) -> (r: BoardState)
        requires
            self.moves_own_piece(*mv),
            self.turn_num < usize::MAX,
        ensures
            r == self.after(*mv),
            r.turn_num == self.turn_num + 1,
            r.turn == self.turn.spec_other(),
            self.turn == Player::Dog ==> r.hare == self.hare,
            self.turn == Player::Hare ==> r.dogs == self.dogs && r.hare == mv.1,
            self.turn == Player::Dog && self.wf() ==> forall|p: Position|
                #[trigger] r.has_dog(p) <==> (p == mv.1 || (self.has_dog(p) && p != mv.0)),
            self.wf() && self.is_legal(*mv) ==> r.wf(),
    {
        proof {
            if self.turn == Player::Dog && self.wf() {
                self.lemma_dogs_after(*mv);
            }
            if self.wf() && self.is_legal(*mv) {
                self.lemma_after_wf(*mv);
            }
        }
        let Move(from, to) = *mv;
        match self.turn {
            Player::Dog => {
                let dogs = if self.dogs[0] == from {
                    [to, self.dogs[1], self.dogs[2]]
                } else if self.dogs[1] == from {
                    [self.dogs[0], to, self.dogs[2]]
                } else {
                    [self.dogs[0], self.dogs[1], to]
                };
                BoardState { dogs, turn: Player::Hare, turn_num: self.turn_num + 1, ..*self }
            },
            Player::Hare => BoardState {
                hare: to,
                turn: Player::Dog,
                turn_num: self.turn_num + 1,
                dogs: self.dogs,
            },
        }
    }
    /// Keeps of `to` the free cells, each as a move from `from`.
    fn moves_to_free(&self, from: Position, to: Vec<Position>) -> (r: Vec<Move>)
        ensures
            r@ == moves_into(*self, from, to@),
    {
        let mut moves: Vec<Move> = Vec::new();
        let mut i: usize = 0;
        while i < to.len()
            invariant
                i <= to.len(),
                moves@ == moves_into(*self, from, to@.take(i as int)),
            decreases to.len() - i,
        {
            proof {
                to@.lemma_filter_map_take_succ(
                    |q: Position| if self.vacant(q) { Some(Move(from, q)) } else { None },
                    i as int,
                );
            }
            if self.is_empty(&to[i]) {
                moves.push(Move(from, to[i]));
            }
            i += 1;
        }
        proof {
            assert(to@.take(to.len() as int) =~= to@);
        }
        moves
    }

    /// The moves of the hound on `pos` to free cells, in the order of the
    /// board's links.
    pub fn get_dog_moves(&self, pos: &Position) -> (r: Vec<Move>)
        ensures
            r@ == self.spec_dog_moves(*pos),
    {
        self.moves_to_free(*pos, dog_neighbours(*pos))
    }

    /// The moves of the hare to free cells, in the order of the board's links.
    pub fn get_hare_moves(&self) -> (r: Vec<Move>)
        ensures
            r@ == self.spec_hare_moves(),
    {
        self.moves_to_free(self.hare, hare_neighbours(self.hare))
    }

    /// The moves open to the side to move: for the hounds, those of the first
    /// hound, then the second, then the third; for the hare, its own.
    pub fn get_moves(&self) -> (r: Vec<Move>)
        ensures
            r@ == self.spec_moves(),
    {
        let mut moves: Vec<Move> = Vec::new();
        match self.turn {
            Player::Dog => {
                let mut i: usize = 0;
                while i < 3
                    invariant
                        i <= 3,
                        self.turn == Player::Dog,
                        moves@ == (if i == 0 {
                            Seq::empty()
                        } else if i == 1 {
                            self.spec_dog_moves(self.dogs[0])
                        } else if i == 2 {
                            self.spec_dog_moves(self.dogs[0]) + self.spec_dog_moves(self.dogs[1])
                        } else {
                            self.spec_moves()
                        }),
                    decreases 3 - i,
                {
                    let mut more = self.get_dog_moves(&self.dogs[i]);
                    proof {
                        if i == 0 {
                            assert(Seq::<Move>::empty() + more@ =~= more@);
                        }
                    }
                    moves.append(&mut more);
                    i += 1;
                }
            },
            Player::Hare => moves = self.get_hare_moves(),
        }
        moves
    }

    /// Whether a hound stands on `p`.
    fn holds_dog(&self, p: Position) -> (r: bool)
        ensures
            r == self.has_dog(p),
    {
        self.dogs[0] == p || self.dogs[1] == p || self.dogs[2] == p
    }

    /// The canonical key of the state: equal for states that differ only in
    /// the order of the hounds, different for any two other well-formed states.
    pub fn canonical_key(&self) -> (r: u128)
        ensures
            r as int == self.spec_key(),
            r == self.key(),
    {
        let (x, y, z) = sort3(self.dogs[0].index(), self.dogs[1].index(), self.dogs[2].index());
        let t: u128 = match self.turn {
            Player::Dog => 0,
            Player::Hare => 1,
        };
        let k0 = self.turn_num as u128 * 2 + t;
        assert(k0 < 0x2_0000_0000_0000_0000);
        let k1 = k0 * 16 + self.hare.index() as u128;
        let k2 = k1 * 16 + x as u128;
        let k3 = k2 * 16 + y as u128;
        k3 * 16 + z as u128
    }

    /// After a hound's move from a well-formed state, the hounds stand where
    /// they stood, but on `m.1` instead of `m.0`.
    pub proof fn lemma_dogs_after(self, m: Move)
        requires
            self.wf(),
            self.turn == Player::Dog,
            self.has_dog(m.0),
        ensures
            forall|p: Position| #[trigger]
                self.after(m).has_dog(p) <==> (p == m.1 || (self.has_dog(p) && p != m.0)),
    {
    }

    /// A legal move from a well-formed state leads to a well-formed state.
    pub proof fn lemma_after_wf(self, m: Move)
        requires
            self.wf(),
            self.is_legal(m),
        ensures
            self.after(m).wf(),
    {
    }

    /// A move that the move list holds, made from a well-formed state, starts
    /// on a piece of the side to move and leads to a well-formed state: the
    /// hounds on three different cells, none of them the hare's.
    pub proof fn lemma_listed_move_keeps_wf(self, m: Move)
        requires
            self.wf(),
            self.spec_moves().contains(m),
        ensures
            self.moves_own_piece(m),
            self.after(m).wf(),
    {
        self.lemma_moves_are_legal(m);
        self.lemma_after_wf(m);
    }

    /// Listing the hounds in another order gives an equal state with the same key.
    pub proof fn lemma_permuted(self, i: int, j: int, k: int)
        requires
            0 <= i < 3,
            0 <= j < 3,
            0 <= k < 3,
            i != j,
            i != k,
            j != k,
        ensures
            ({
                let t = BoardState { dogs: [self.dogs[i], self.dogs[j], self.dogs[k]], ..self };
                t.same_as(self) && t.spec_key() == self.spec_key() && t.key() == self.key()
            }),
    {
    }

    /// Two well-formed states have the same key exactly when they are equal.
    pub proof fn lemma_key_same(self, t: BoardState)
        requires
            self.wf(),
            t.wf(),
        ensures
            self.key() == t.key() <==> self.same_as(t),
    {
        let (x, y, z) = self.sorted_dogs();
        let (u, v, w) = t.sorted_dogs();
        let a0 = (self.turn_num * 2 + turn_bit(self.turn)) * 16 + spec_index(self.hare);
        let b0 = (t.turn_num * 2 + turn_bit(t.turn)) * 16 + spec_index(t.hare);
        assert(0 <= self.spec_key() < 0x1_0000_0000_0000_0000_0000_0000);
        assert(0 <= t.spec_key() < 0x1_0000_0000_0000_0000_0000_0000);
        if self.key() == t.key() {
            assert(self.spec_key() == t.spec_key());
            lemma_hex_digit((a0 * 16 + x) * 16 + y, z as int, (b0 * 16 + u) * 16 + v, w as int);
            lemma_hex_digit(a0 * 16 + x, y as int, b0 * 16 + u, v as int);
            lemma_hex_digit(a0, x as int, b0, u as int);
            lemma_hex_digit(
                self.turn_num * 2 + turn_bit(self.turn),
                spec_index(self.hare) as int,
                t.turn_num * 2 + turn_bit(t.turn),
                spec_index(t.hare) as int,
            );
            assert forall|p: Position| #[trigger] self.has_dog(p) == t.has_dog(p) by {
                crate::pieces::lemma_index_injective(p, self.dogs[0]);
                crate::pieces::lemma_index_injective(p, self.dogs[1]);
                crate::pieces::lemma_index_injective(p, self.dogs[2]);
                crate::pieces::lemma_index_injective(p, t.dogs[0]);
                crate::pieces::lemma_index_injective(p, t.dogs[1]);
                crate::pieces::lemma_index_injective(p, t.dogs[2]);
            }
        }
        if self.same_as(t) {
            assert(self.has_dog(t.dogs[0]) && self.has_dog(t.dogs[1]) && self.has_dog(t.dogs[2]));
            assert(t.has_dog(self.dogs[0]) && t.has_dog(self.dogs[1]) && t.has_dog(self.dogs[2]));
            assert(self.sorted_dogs() == t.sorted_dogs());
        }
    }

    /// The moves listed are exactly the legal ones.
    pub proof fn lemma_moves_are_legal(self, m: Move)
        ensures
            self.spec_moves().contains(m) <==> self.is_legal(m),
    {
        lemma_moves_into_contains(self, self.hare, hare_links(self.hare), m);
        lemma_moves_into_contains(self, self.dogs[0], dog_links(self.dogs[0]), m);
        lemma_moves_into_contains(self, self.dogs[1], dog_links(self.dogs[1]), m);
        lemma_moves_into_contains(self, self.dogs[2], dog_links(self.dogs[2]), m);
        let a = self.spec_dog_moves(self.dogs[0]);
        let b = self.spec_dog_moves(self.dogs[1]);
        let c = self.spec_dog_moves(self.dogs[2]);
        if self.turn == Player::Dog {
            vstd::seq_lib::lemma_seq_concat_contains_all_elements(a + b, c, m);
            vstd::seq_lib::lemma_seq_concat_contains_all_elements(a, b, m);
        }
    }
}

/// Equality of states is equality of what they mean: the hounds are
/// compared as a set.
impl PartialEq for BoardState {
    fn eq(&self, other: &BoardState) -> (r: bool) {
        let same_dogs = self.holds_dog(other.dogs[0]) && self.holds_dog(other.dogs[1])
            && self.holds_dog(other.dogs[2]) && other.holds_dog(self.dogs[0]) && other.holds_dog(
            self.dogs[1],
        ) && other.holds_dog(self.dogs[2]);
        proof {
            if same_dogs {
                assert forall|p: Position| #[trigger] self.has_dog(p) == other.has_dog(p) by {}
            }
            if forall|p: Position| #[trigger] self.has_dog(p) == other.has_dog(p) {
                assert(self.has_dog(other.dogs[0]) == other.has_dog(other.dogs[0]));
                assert(self.has_dog(other.dogs[1]) == other.has_dog(other.dogs[1]));
                assert(self.has_dog(other.dogs[2]) == other.has_dog(other.dogs[2]));
                assert(self.has_dog(self.dogs[0]) == other.has_dog(self.dogs[0]));
                assert(self.has_dog(self.dogs[1]) == other.has_dog(self.dogs[1]));
                assert(self.has_dog(self.dogs[2]) == other.has_dog(self.dogs[2]));
            }
        }
        same_dogs && self.hare == other.hare && self.turn == other.turn && self.turn_num
            == other.turn_num
    }
}

impl vstd::std_specs::cmp::PartialEqSpecImpl for BoardState {
    open spec fn obeys_eq_spec() -> bool {
        true
    }

    open spec fn eq_spec(&self, other: &BoardState) -> bool {
        self.same_as(*other)
    }
}

impl Eq for BoardState {

}

/// Relies on `Hasher::write_u128` to feed a number to a hasher; nothing is
/// claimed of the hasher's state afterwards.
#[verifier::external_body]
fn feed_u128<H: core::hash::Hasher>(state: &mut H, k: u128) {
    state.write_u128(k)
}

/// Hashes the canonical key, so that states equal as sets of hounds hash alike.
impl core::hash::Hash for BoardState {
    fn hash<H: core::hash::Hasher>(&self, state: &mut H) {
        feed_u128(state, self.canonical_key());
    }
}

} // verus!
