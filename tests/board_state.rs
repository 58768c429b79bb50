use std::collections::hash_map::DefaultHasher;
use std::hash::{Hash, Hasher};

use hare_hounds::board_state::BoardState;
use hare_hounds::pieces::Player::{Dog, Hare};
use hare_hounds::pieces::Position::{
    Dogmost, Downcenter, Downdog, Downhare, Haremost, Midcenter, Middog, Midhare, Upcenter, Updog,
    Uphare,
};
use hare_hounds::pieces::{Move, Player, Position};

#[test]
fn test_hare_passed() {
    let mut b = BoardState::new();
    assert!(!b.hare_passed());

    b.hare = Middog;
    assert!(!b.hare_passed());

    b.dogs[b.dogs.iter().position(|&p| p == Dogmost).unwrap()] = Upcenter;
    assert!(b.hare_passed());
}

#[test]
fn test_is_empty() {
    let b = BoardState::new();
    assert!(b.is_empty(&Midcenter));
    assert!(!b.is_empty(&Haremost));
    assert!(!b.is_empty(&Dogmost));
}

#[test]
fn test_equality() {
    let b1 = BoardState::new();
    let mut b2: BoardState = b1.clone();
    b2.dogs.rotate_left(1);
    assert_eq!(b1, b2);
}

#[test]
fn test_hash() {
    let b1 = BoardState::new();
    let mut b2: BoardState = b1.clone();
    b2.dogs.rotate_left(1);
    let mut h1 = DefaultHasher::new();
    let mut h2 = h1.clone();
    b1.hash(&mut h1);
    b2.hash(&mut h2);
    assert_eq!(h1.finish(), h2.finish());
}

#[test]
fn test_do_move() {
    let b0 = BoardState::new();
    let b1 = b0.do_move(&Move(Updog, Upcenter));
    assert_eq!(
        b1,
        BoardState {
            dogs: [Dogmost, Downdog, Upcenter],
            hare: Haremost,
            turn: Hare,
            turn_num: 2,
        }
    );
    assert_eq!(b1.turn_num, 2);

    let b2 = b1.do_move(&Move(Haremost, Midhare));
    assert_eq!(
        b2,
        BoardState {
            dogs: [Dogmost, Downdog, Upcenter],
            hare: Midhare,
            turn: Dog,
            turn_num: 3,
        }
    );
    assert_eq!(b2.turn_num, 3);
}

#[test]
fn test_get_moves() {
    let b0 = BoardState::new();
    let moves = b0.get_moves();
    assert_eq!(moves.len(), 7);
    for mv in [
        Move(Dogmost, Middog),
        Move(Updog, Upcenter),
        Move(Updog, Midcenter),
        Move(Downdog, Downcenter),
        Move(Downdog, Midcenter),
        Move(Downdog, Middog),
        Move(Updog, Middog),
    ]
    .iter()
    {
        assert!(moves.contains(mv));
    }

    let b1 = b0.do_move(&Move(Dogmost, Middog));
    let moves = b1.get_moves();
    assert_eq!(moves.len(), 3);
    for mv in [
        Move(Haremost, Uphare),
        Move(Haremost, Midhare),
        Move(Haremost, Downhare),
    ]
    .iter()
    {
        assert!(moves.contains(mv));
    }
}

#[test]
fn opening_moves_come_hound_by_hound_in_link_order() {
    let moves = BoardState::new().get_moves();
    assert_eq!(
        moves,
        vec![
            Move(Updog, Middog),
            Move(Updog, Upcenter),
            Move(Updog, Midcenter),
            Move(Dogmost, Middog),
            Move(Downdog, Middog),
            Move(Downdog, Midcenter),
            Move(Downdog, Downcenter),
        ]
    );
    for mv in moves.iter() {
        assert_ne!(mv.0, Haremost);
        assert_ne!(mv.1, Haremost);
    }
}

#[test]
fn hare_moves_skip_occupied_cells() {
    let b = BoardState { dogs: [Updog, Midcenter, Downcenter], hare: Upcenter, turn_num: 4, turn: Hare };
    assert_eq!(b.get_hare_moves(), vec![Move(Upcenter, Uphare)]);
    assert_eq!(b.get_moves(), vec![Move(Upcenter, Uphare)]);
}

#[test]
fn dog_moves_of_one_hound() {
    let b = BoardState::new();
    assert_eq!(b.get_dog_moves(&Dogmost), vec![Move(Dogmost, Middog)]);
    assert_eq!(b.get_dog_moves(&Haremost), vec![]);
}

#[test]
fn no_moves_when_boxed_in() {
    let b = BoardState { dogs: [Uphare, Midhare, Downhare], hare: Haremost, turn_num: 7, turn: Hare };
    assert!(b.get_moves().is_empty());
}

#[test]
fn do_move_changes_only_the_mover() {
    let b0 = BoardState::new();
    let b1 = b0.do_move(&Move(Downdog, Downcenter));
    assert_eq!(b1.dogs, [Updog, Dogmost, Downcenter]);
    assert_eq!(b1.hare, Haremost);
    assert_eq!(b1.turn_num(), 2);
    assert_eq!(b1.whose_turn(), Hare);
    let b2 = b1.do_move(&Move(Haremost, Uphare));
    assert_eq!(b2.dogs, b1.dogs);
    assert_eq!(b2.hare, Uphare);
    assert_eq!(b2.turn_num(), 3);
    assert_eq!(b2.whose_turn(), Dog);
    assert_eq!(b0.turn_num(), 1);
    assert_eq!(b0.whose_turn(), Dog);
}

#[test]
fn hare_passed_needs_every_hound_level_or_ahead() {
    let b = BoardState { dogs: [Upcenter, Midcenter, Downcenter], hare: Midcenter, turn_num: 9, turn: Dog };
    assert!(b.hare_passed());
    let b = BoardState { dogs: [Updog, Midhare, Downhare], hare: Uphare, turn_num: 9, turn: Dog };
    assert!(!b.hare_passed());
    let b = BoardState { dogs: [Uphare, Midhare, Downhare], hare: Dogmost, turn_num: 9, turn: Hare };
    assert!(b.hare_passed());
}

#[test]
fn states_differing_otherwise_are_unequal() {
    let b = BoardState::new();
    assert_ne!(b, BoardState { turn_num: 2, ..b });
    assert_ne!(b, BoardState { turn: Hare, ..b });
    assert_ne!(b, BoardState { hare: Uphare, ..b });
    assert_ne!(b, BoardState { dogs: [Updog, Middog, Downdog], ..b });
}

#[test]
fn canonical_key_ignores_hound_order() {
    let b = BoardState::new();
    let orders = [[0, 1, 2], [0, 2, 1], [1, 0, 2], [1, 2, 0], [2, 0, 1], [2, 1, 0]];
    for o in orders.iter() {
        let t = BoardState { dogs: [b.dogs[o[0]], b.dogs[o[1]], b.dogs[o[2]]], ..b };
        assert_eq!(t, b);
        assert_eq!(t.canonical_key(), b.canonical_key());
    }
    // move 1, hounds to move, hare on cell 10, hounds on cells 0, 1, 3
    assert_eq!(b.canonical_key(), (((((1 * 2 + 0) * 16 + 10) * 16 + 0) * 16 + 1) * 16) + 3);
    assert_ne!(b.canonical_key(), BoardState { turn: Hare, ..b }.canonical_key());
    assert_ne!(b.canonical_key(), BoardState { turn_num: 2, ..b }.canonical_key());
}

#[test]
fn cells_have_index_and_rank() {
    assert_eq!(Dogmost.index(), 0);
    assert_eq!(Midcenter.index(), 5);
    assert_eq!(Haremost.index(), 10);
    assert_eq!(Dogmost.rank(), 0);
    assert_eq!(Downdog.rank(), 1);
    assert_eq!(Upcenter.rank(), 2);
    assert_eq!(Midhare.rank(), 3);
    assert_eq!(Haremost.rank(), 4);
}

#[test]
fn players_alternate() {
    assert_eq!(Player::Dog.other(), Player::Hare);
    assert_eq!(Player::Hare.other(), Player::Dog);
}

#[test]
fn moves_order_by_start_then_end() {
    let a = Move(Updog, Uphare);
    let b = Move(Middog, Dogmost);
    let c = Move(Updog, Midcenter);
    assert!(!(a > b));
    assert!(a < b);
    assert!(c < a);
    assert_eq!(a.partial_cmp(&a), Some(std::cmp::Ordering::Equal));
    let p: Position = Position::Downhare;
    assert_eq!(Move(p, p).partial_cmp(&Move(p, Haremost)), Some(std::cmp::Ordering::Less));
}
