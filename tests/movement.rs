use ludo_engine::{Piece, Player, PlayerColor};

fn on_track(position: i32) -> Piece {
    Piece { position, at_home: false, at_end: false }
}

fn finished() -> Piece {
    Piece { position: 0, at_home: false, at_end: true }
}

fn home() -> Piece {
    Piece::new()
}

fn player_with(pieces: [Piece; 4]) -> Player {
    Player { color: PlayerColor::Green, pieces }
}

#[test]
fn new_piece_is_home() {
    let p = Piece::new();
    assert_eq!(p.position, -1);
    assert!(p.at_home);
    assert!(!p.at_end);
}

#[test]
fn new_player_has_four_home_pieces() {
    let p = Player::new(PlayerColor::Yellow);
    assert_eq!(p.color, PlayerColor::Yellow);
    for piece in p.pieces.iter() {
        assert_eq!(*piece, Piece::new());
    }
}

#[test]
fn home_pieces_need_a_six() {
    let p = Player::new(PlayerColor::Red);
    for roll in 1..=5 {
        assert!(!p.can_move(roll));
    }
    assert!(p.can_move(6));
}

#[test]
fn piece_on_track_can_move_with_any_roll() {
    let p = player_with([home(), home(), on_track(3), home()]);
    for roll in 1..=6 {
        assert!(p.can_move(roll));
    }
}

#[test]
fn finished_pieces_cannot_move() {
    let p = player_with([finished(), finished(), finished(), finished()]);
    for roll in 1..=6 {
        assert!(!p.can_move(roll));
    }
    let q = player_with([finished(), home(), finished(), finished()]);
    assert!(!q.can_move(4));
    assert!(q.can_move(6));
}

#[test]
fn six_brings_first_home_piece_onto_track() {
    let mut p = Player::new(PlayerColor::Blue);
    assert!(p.move_piece(6));
    assert_eq!(p.pieces[0], Piece { position: 0, at_home: false, at_end: false });
    for k in 1..4 {
        assert_eq!(p.pieces[k], Piece::new());
    }
}

#[test]
fn lowest_indexed_eligible_piece_moves() {
    let mut p = player_with([finished(), on_track(3), on_track(5), home()]);
    assert!(p.move_piece(2));
    assert_eq!(p.pieces[0], finished());
    assert_eq!(p.pieces[1], on_track(5));
    assert_eq!(p.pieces[2], on_track(5));
    assert_eq!(p.pieces[3], home());
}

#[test]
fn home_piece_is_skipped_without_a_six() {
    let mut p = player_with([home(), on_track(2), on_track(8), home()]);
    assert_eq!(p.first_movable(3), Some(1));
    assert!(p.move_piece(3));
    assert_eq!(p.pieces[0], home());
    assert_eq!(p.pieces[1], on_track(5));
    assert_eq!(p.pieces[2], on_track(8));
}

#[test]
fn home_piece_comes_first_with_a_six() {
    let mut p = player_with([on_track(2), home(), home(), home()]);
    assert_eq!(p.first_movable(6), Some(0));
    assert!(p.move_piece(6));
    assert_eq!(p.pieces[0], on_track(8));
    assert_eq!(p.pieces[1], home());
}

#[test]
fn position_four_plus_six_finishes() {
    let mut p = player_with([on_track(4), home(), home(), home()]);
    assert!(p.move_piece(6));
    assert_eq!(p.pieces[0], Piece { position: 0, at_home: false, at_end: true });
}

#[test]
fn position_wraps_modulo_ten() {
    let mut p = player_with([on_track(8), home(), home(), home()]);
    assert!(p.move_piece(5));
    assert_eq!(p.pieces[0], on_track(3));
    let mut q = player_with([on_track(1), home(), home(), home()]);
    assert!(q.move_piece(4));
    assert_eq!(q.pieces[0], on_track(5));
}

#[test]
fn position_seven_plus_three_finishes() {
    let mut p = player_with([on_track(7), home(), home(), home()]);
    assert!(p.move_piece(3));
    assert!(p.pieces[0].at_end);
    assert_eq!(p.pieces[0].position, 0);
}

#[test]
fn finished_piece_is_never_altered() {
    let mut p = player_with([finished(), on_track(1), finished(), home()]);
    for roll in [1, 2, 3, 4, 5, 6, 6, 1] {
        let _ = p.move_piece(roll);
        assert_eq!(p.pieces[0], finished());
        assert_eq!(p.pieces[2], finished());
    }
}

#[test]
fn no_eligible_piece_leaves_player_unchanged() {
    let mut p = player_with([finished(), home(), home(), finished()]);
    assert_eq!(p.first_movable(5), None);
    assert!(!p.move_piece(5));
    assert_eq!(p.pieces, [finished(), home(), home(), finished()]);
}

#[test]
fn won_only_when_all_pieces_finished() {
    assert!(player_with([finished(), finished(), finished(), finished()]).has_won());
    assert!(!player_with([finished(), finished(), on_track(9), finished()]).has_won());
    assert!(!player_with([home(), finished(), finished(), finished()]).has_won());
    assert!(!Player::new(PlayerColor::Red).has_won());
}
