//! The game's value under best play, and the memoized search that finds it.

use std::collections::HashMap;

use vstd::prelude::*;

use crate::board_state::BoardState;
use crate::pieces::{Move, Player, Position};

verus! {

/// The last move number that is played: a state whose move number is past it
/// is a win for the hare.
pub const PLY_CAP: usize = 30;

/// The side that wins from `s` with best play by both sides. The hare wins
/// at once once it has got past the hounds or the move cap is passed;
/// otherwise the side to move wins if some legal move leads to a state that
/// it wins, and loses if none does (having no move at all included).
pub open spec fn winner(s: BoardState) -> Player
    decreases PLY_CAP + 1 - s.turn_num,
{
    if s.turn_num > PLY_CAP || s.spec_hare_passed() {
        Player::Hare
    } else if exists|m: Move| #[trigger] s.is_legal(m) && winner(s.after(m)) == s.turn {
        s.turn
    } else {
        s.turn.spec_other()
    }
}

/// Equal well-formed states, which differ at most in the order in which the
/// hounds are listed, have the same winner.
pub proof fn lemma_winner_same(s: BoardState, t: BoardState)
    requires
        s.wf(),
        t.wf(),
        s.same_as(t),
    ensures
        winner(s) == winner(t),
    decreases PLY_CAP + 1 - s.turn_num,
{
    assert(s.spec_hare_passed() == t.spec_hare_passed()) by {
        assert(s.has_dog(t.dogs[0]) && s.has_dog(t.dogs[1]) && s.has_dog(t.dogs[2]));
        assert(t.has_dog(s.dogs[0]) && t.has_dog(s.dogs[1]) && t.has_dog(s.dogs[2]));
    }
    if !(s.turn_num > PLY_CAP || s.spec_hare_passed()) {
        assert forall|m: Move| #[trigger] s.is_legal(m) == t.is_legal(m) by {}
        assert forall|m: Move| s.is_legal(m) implies #[trigger] winner(s.after(m)) == winner(
            t.after(m),
        ) by {
            s.lemma_after_wf(m);
            t.lemma_after_wf(m);
            if s.turn == Player::Dog {
                s.lemma_dogs_after(m);
                t.lemma_dogs_after(m);
            }
            assert forall|p: Position| #[trigger] s.after(m).has_dog(p) == t.after(m).has_dog(p) by {
                assert(s.has_dog(p) == t.has_dog(p));
            }
            assert(s.after(m).same_as(t.after(m)));
            lemma_winner_same(s.after(m), t.after(m));
        }
        if exists|m: Move| #[trigger] s.is_legal(m) && winner(s.after(m)) == s.turn {
            let m = choose|m: Move| #[trigger] s.is_legal(m) && winner(s.after(m)) == s.turn;
            assert(t.is_legal(m) && winner(t.after(m)) == t.turn);
        }
        if exists|m: Move| #[trigger] t.is_legal(m) && winner(t.after(m)) == t.turn {
            let m = choose|m: Move| #[trigger] t.is_legal(m) && winner(t.after(m)) == t.turn;
            assert(s.is_legal(m) && winner(s.after(m)) == s.turn);
        }
    }
}

/// Every entry of the memo table is right: under the key of a well-formed
/// state stands that state's winner.
pub open spec fn memo_sound(memo: Map<u128, Player>) -> bool {
    forall|s: BoardState| s.wf() && #[trigger] memo.contains_key(s.key()) ==> memo[s.key()] == winner(s)
}

/// Equal states never find different winners in a sound memo table.
pub proof fn lemma_memo_consistent(memo: Map<u128, Player>, s: BoardState, t: BoardState)
    requires
        memo_sound(memo),
        s.wf(),
        t.wf(),
        s.same_as(t),
        memo.contains_key(s.key()),
    ensures
        memo.contains_key(t.key()),
        memo[s.key()] == memo[t.key()],
        memo[s.key()] == winner(t),
{
    s.lemma_key_same(t);
    lemma_winner_same(s, t);
}

/// Finds the winner from `board` by depth-first search, trying the moves in
/// the order in which they are listed and stopping at the first that wins
/// for the side to move. The winners of the states reached are kept in
/// `memo_pad` under their canonical keys and looked up there before any
/// search; `play_count` counts the calls, and stops at its largest value.
pub fn play_game(
    board: &BoardState,
    play_count: &mut usize,
    memo_pad: &mut HashMap<u128, Player>,
) -> (r: Player)
    requires
        board.wf(),
        memo_sound(old(memo_pad)@),
    ensures
        r == winner(*board),
        memo_sound(final(memo_pad)@),
        board.turn_num > PLY_CAP || board.spec_hare_passed() ==> r == Player::Hare,
        board.turn_num > PLY_CAP || board.spec_hare_passed() ==> final(memo_pad)@ == old(memo_pad)@,
        *final(play_count) > *old(play_count) || *final(play_count) == usize::MAX,
    decreases PLY_CAP + 1 - board.turn_num,
{
    *play_count = play_count.saturating_add(1);
    if board.turn_num() > PLY_CAP || board.hare_passed() {
        return Player::Hare;
    }
    let ghost start = *play_count;
    let mover = board.whose_turn();
    let moves = board.get_moves();
    let mut i: usize = 0;
    while i < moves.len()
        invariant
            board.wf(),
            board.turn_num <= PLY_CAP,
            !board.spec_hare_passed(),
            mover == board.turn,
            moves@ == board.spec_moves(),
            i <= moves.len(),
            memo_sound(memo_pad@),
            *play_count >= start,
            start > *old(play_count) || start == usize::MAX,
            forall|j: int| 0 <= j < i ==> winner(board.after(#[trigger] moves@[j])) != mover,
        decreases moves.len() - i,
    {
        let mv = moves[i];
        proof {
            assert(moves@.contains(mv));
            board.lemma_moves_are_legal(mv);
            board.lemma_after_wf(mv);
        }
        let child = board.do_move(&mv);
        let key = child.canonical_key();
        let won = match memo_pad.get(&key) {
            Some(w) => *w,
            None => {
                let w = play_game(&child, play_count, memo_pad);
                proof {
                    assert forall|s: BoardState| s.wf() && #[trigger] memo_pad@.insert(
                        key,
                        w,
                    ).contains_key(s.key()) implies memo_pad@.insert(key, w)[s.key()] == winner(
                        s,
                    ) by {
                        if s.key() == key {
                            s.lemma_key_same(child);
                            lemma_winner_same(s, child);
                        }
                    }
                }
                memo_pad.insert(key, w);
                w
            },
        };
        if won == mover {
            proof {
                assert(board.is_legal(mv) && winner(board.after(mv)) == board.turn);
            }
            return won;
        }
        i += 1;
    }
    proof {
        assert forall|m: Move| #[trigger] board.is_legal(m) implies winner(board.after(m))
            != board.turn by {
            board.lemma_moves_are_legal(m);
            let j = choose|j: int| 0 <= j < moves@.len() && moves@[j] == m;
        }
    }
    mover.other()
}

} // verus!
