use chess::chess_errors::ChessErrors;
use chess::game::Game;
use chess::visual::{self, GamePiece, MoveType, Pawn, Queen, PLAYER, WHITE_QUEEN};

fn next_turn(p: PLAYER) -> PLAYER {
    match p {
        visual::PLAYER::WHITE => visual::PLAYER::BLACK,
        visual::PLAYER::BLACK => visual::PLAYER::WHITE,
    }
}

#[test]
fn test_promotion() {
    //pawns reaching 8th rank can be promoted
    let mut chess_game = Game::game_from_turn_history(&[
        "a2-a4", "b7-b5", "a4-b5", "f7-f5", "b5-b6", "b8-c6", "b6-b7", "f5-f4", "a1-a7", "g7-g6",
    ]);
    let good_move = chess_game.move_piece("b7-b8", chess_game.state.player_turn);
    assert!(good_move.is_ok());
    let bad_move = chess_game.move_piece("g7-g5pq", chess_game.state.player_turn);
    assert!(bad_move.is_err());
    let bad_move = chess_game.move_piece("a7-a8pq", chess_game.state.player_turn);
    assert!(bad_move.is_err());
}

#[test]
fn test_enpassant1() {
    let mut chess_game = Game::game_from_turn_history(&[
        "a2-a4", "b7-b5", "a4-b5", "f7-f5", "b5-b6", "b8-c6", "b6-b7", "f5-f4", "a1-a7", "g7-g6",
        "d2-d4", "h7-h5", "d4-d5", "h5-h4", "b2-b4", "c6-a5", "b4-b5", "c7-c5",
    ]);
    let good_move1 = chess_game.move_piece("b5-c6", chess_game.state.player_turn);
    assert!(good_move1.is_ok());
    chess_game.state.player_turn = next_turn(chess_game.state.player_turn);
    let _ = chess_game.move_piece("h8-h7", chess_game.state.player_turn);
    chess_game.state.player_turn = next_turn(chess_game.state.player_turn);
    let _ = chess_game.move_piece("g2-g4", chess_game.state.player_turn);
    chess_game.state.player_turn = next_turn(chess_game.state.player_turn);
    let good_move2 = chess_game.move_piece("f4-g3", chess_game.state.player_turn);
    assert!(good_move2.is_ok());
}

#[test]
fn first_double_step_then_only_single() {
    let mut chess_game = Game::game_from_turn_history(&["a2-a4"]);
    assert_eq!(chess_game.state.player_turn, PLAYER::BLACK);
    assert!(chess_game.state.get_piece_at(32).is_some());
    assert!(chess_game.state.get_piece_at(48).is_none());
    // the pawn on a4 has moved: two more rows are refused
    let r = chess_game.move_piece("a4-a6", PLAYER::WHITE);
    assert_eq!(r, Err(ChessErrors::InvalidMove(16)));
    // and it is not WHITE's turn to move a4-a5
    let r = chess_game.move_piece("a4-a5", PLAYER::BLACK);
    assert_eq!(r, Err(ChessErrors::WrongPlayer(32)));
    let r = chess_game.move_piece("a4-a5", PLAYER::WHITE);
    assert!(r.is_ok());
}

#[test]
fn promotion_to_queen_by_default() {
    let chess_game = Game::game_from_turn_history(&[
        "a2-a4", "b7-b5", "a4-b5", "f7-f5", "b5-b6", "b8-c6", "b6-b7", "f5-f4", "a1-a7", "g7-g6",
    ]);
    let r = chess_game.is_move_valid("b7", "b8", PLAYER::WHITE, None);
    assert_eq!(r, Ok(MoveType::Promotion(WHITE_QUEEN)));
    let r = chess_game.is_move_valid("b7", "b8", PLAYER::WHITE, Some("r"));
    assert_eq!(r, Ok(MoveType::Promotion(visual::WHITE_ROOK)));
    let mut g = chess_game;
    assert!(g.move_piece("B7-B8", PLAYER::WHITE).is_ok());
    assert_eq!(
        g.state.get_piece_at(1),
        Some(GamePiece::Queen(Queen { player: PLAYER::WHITE, moved: true }))
    );
    assert!(g.state.get_piece_at(9).is_none());
}

#[test]
fn three_row_pawn_advance_is_invalid() {
    let chess_game = Game::default();
    assert_eq!(
        chess_game.is_move_valid("e2", "e5", PLAYER::WHITE, None),
        Err(ChessErrors::InvalidMove(28))
    );
    let mut g = Game::default();
    assert_eq!(g.move_piece("e2-e5", PLAYER::WHITE), Err(ChessErrors::InvalidMove(28)));
    assert_eq!(
        g.state.get_piece_at(52),
        Some(GamePiece::Pawn(Pawn { player: PLAYER::WHITE, moved: false }))
    );
}
