use chess::chess_errors::ChessErrors;
use chess::game::Game;
use chess::visual::{
    Bishop, EnPassantCapture, GamePiece, GameState, King, Knight, MoveType, Pawn, Queen, Rook,
    BLACK_KNIGHT, BLACK_QUEEN, PLAYER, WHITE_QUEEN,
};

fn empty_board() -> GameState {
    GameState { state: vec![None; 64], player_turn: PLAYER::WHITE, en_passant_enabled: Vec::new() }
}

fn white_pawn(moved: bool) -> Option<GamePiece> {
    Some(GamePiece::Pawn(Pawn { player: PLAYER::WHITE, moved }))
}

fn black_pawn(moved: bool) -> Option<GamePiece> {
    Some(GamePiece::Pawn(Pawn { player: PLAYER::BLACK, moved }))
}

#[test]
fn refusals_from_the_start_position() {
    let s = GameState::default();
    let w = PLAYER::WHITE;
    assert_eq!(s.validate_move(44, 36, w, None), Err(ChessErrors::NoPiece(44)));
    assert_eq!(s.validate_move(12, 20, w, None), Err(ChessErrors::WrongPlayer(12)));
    assert_eq!(s.validate_move(56, 48, w, None), Err(ChessErrors::PlayerPieceAlreadyThere(48)));
    assert_eq!(s.validate_move(52, 36, w, Some("q")), Err(ChessErrors::InvalidPromotion(36)));
    assert_eq!(s.validate_move(56, 40, w, None), Err(ChessErrors::PieceBetween(48)));
    assert_eq!(s.validate_move(52, 43, w, None), Err(ChessErrors::PawnCanOnlyAttackDiagonal(43)));
    assert_eq!(s.validate_move(52, 36, w, None), Ok(MoveType::Regular));
    assert_eq!(s.validate_move(52, 44, w, None), Ok(MoveType::Regular));
    assert_eq!(s.validate_move(57, 42, w, None), Ok(MoveType::Regular));
    assert_eq!(s.validate_move(57, 40, w, None), Ok(MoveType::Regular));
}

#[test]
fn pawn_rules() {
    let mut s = empty_board();
    s.state[52] = white_pawn(false);
    s.state[44] = black_pawn(true);
    // straight ahead onto an enemy piece
    assert_eq!(s.validate_move(52, 44, PLAYER::WHITE, None), Err(ChessErrors::PawnCantAttackForward(44)));
    let mut s = empty_board();
    s.state[36] = white_pawn(true);
    // backward, and two rows after having moved
    assert_eq!(s.validate_move(36, 44, PLAYER::WHITE, None), Err(ChessErrors::InvalidMove(44)));
    assert_eq!(s.validate_move(36, 20, PLAYER::WHITE, None), Err(ChessErrors::InvalidMove(20)));
    assert_eq!(s.validate_move(36, 28, PLAYER::WHITE, None), Ok(MoveType::Regular));
    // capture diagonally forward only
    s.state[27] = black_pawn(true);
    assert_eq!(s.validate_move(36, 27, PLAYER::WHITE, None), Ok(MoveType::Regular));
    s.state[43] = black_pawn(true);
    assert_eq!(s.validate_move(36, 43, PLAYER::WHITE, None), Err(ChessErrors::InvalidMove(43)));
    // black promotes on row 7, with the letter's piece
    let mut s = empty_board();
    s.state[52] = black_pawn(true);
    assert_eq!(
        s.validate_move(52, 60, PLAYER::BLACK, None),
        Ok(MoveType::Promotion(BLACK_QUEEN))
    );
    assert_eq!(
        s.validate_move(52, 60, PLAYER::BLACK, Some("k")),
        Ok(MoveType::Promotion(BLACK_KNIGHT))
    );
    assert_eq!(
        s.validate_move(52, 60, PLAYER::BLACK, Some("x")),
        Ok(MoveType::Promotion(BLACK_QUEEN))
    );
}

#[test]
fn pieces_in_the_way() {
    let mut s = empty_board();
    s.state[56] = Some(GamePiece::Rook(Rook { player: PLAYER::WHITE, moved: false }));
    s.state[40] = Some(GamePiece::Knight(Knight { player: PLAYER::WHITE, moved: false }));
    // own piece on a3 blocks a1-a5
    assert_eq!(s.validate_move(56, 24, PLAYER::WHITE, None), Err(ChessErrors::PieceBetween(40)));
    // an enemy piece in between blocks too
    s.state[40] = black_pawn(true);
    assert_eq!(s.validate_move(56, 24, PLAYER::WHITE, None), Err(ChessErrors::InvalidMove(24)));
    s.state[40] = None;
    assert_eq!(s.validate_move(56, 24, PLAYER::WHITE, None), Ok(MoveType::Regular));
    // the first own piece seen from the destination is reported
    let mut s = empty_board();
    s.state[63] = Some(GamePiece::Bishop(Bishop { player: PLAYER::WHITE, moved: false }));
    s.state[54] = white_pawn(true);
    s.state[45] = white_pawn(true);
    assert_eq!(s.validate_move(63, 27, PLAYER::WHITE, None), Err(ChessErrors::PieceBetween(45)));
    let mut s = empty_board();
    s.state[59] = Some(GamePiece::Queen(Queen { player: PLAYER::BLACK, moved: false }));
    s.state[41] = Some(GamePiece::Queen(Queen { player: PLAYER::BLACK, moved: true }));
    assert_eq!(s.validate_move(59, 32, PLAYER::BLACK, None), Err(ChessErrors::PieceBetween(41)));
    assert_eq!(s.validate_move(59, 31, PLAYER::BLACK, None), Ok(MoveType::Regular));
}

#[test]
fn geometry_by_piece() {
    let mut s = empty_board();
    s.state[36] = Some(GamePiece::Knight(Knight { player: PLAYER::WHITE, moved: false }));
    assert_eq!(s.validate_move(36, 19, PLAYER::WHITE, None), Ok(MoveType::Regular));
    assert_eq!(s.validate_move(36, 28, PLAYER::WHITE, None), Err(ChessErrors::InvalidMove(28)));
    // three columns and one row matches no kind of move
    assert_eq!(s.validate_move(36, 25, PLAYER::WHITE, None), Err(ChessErrors::InvalidMove(25)));
    let mut s = empty_board();
    s.state[36] = Some(GamePiece::Bishop(Bishop { player: PLAYER::WHITE, moved: false }));
    assert_eq!(s.validate_move(36, 38, PLAYER::WHITE, None), Err(ChessErrors::InvalidMove(38)));
    assert_eq!(s.validate_move(36, 9, PLAYER::WHITE, None), Ok(MoveType::Regular));
    let mut s = empty_board();
    s.state[36] = Some(GamePiece::King(King { player: PLAYER::WHITE, moved: false }));
    assert_eq!(s.validate_move(36, 37, PLAYER::WHITE, None), Ok(MoveType::Regular));
    assert_eq!(s.validate_move(36, 27, PLAYER::WHITE, None), Ok(MoveType::Regular));
    assert_eq!(s.validate_move(36, 19, PLAYER::WHITE, None), Err(ChessErrors::InvalidMove(19)));
    let mut s = empty_board();
    s.state[36] = Some(GamePiece::Rook(Rook { player: PLAYER::WHITE, moved: false }));
    assert_eq!(s.validate_move(36, 27, PLAYER::WHITE, None), Err(ChessErrors::InvalidMove(27)));
    assert_eq!(s.validate_move(36, 19, PLAYER::WHITE, None), Err(ChessErrors::InvalidMove(19)));
}

#[test]
fn en_passant_lifecycle() {
    let mut g = Game::game_from_turn_history(&[
        "a2-a4", "b7-b5", "a4-b5", "f7-f5", "b5-b6", "b8-c6", "b6-b7", "f5-f4", "a1-a7", "g7-g6",
        "d2-d4", "h7-h5", "d4-d5", "h5-h4", "b2-b4", "c6-a5", "b4-b5", "c7-c5",
    ]);
    assert_eq!(
        g.state.en_passant_enabled,
        vec![
            EnPassantCapture { from: 25, to: 18, captured: 26 },
            EnPassantCapture { from: 27, to: 18, captured: 26 },
        ]
    );
    assert_eq!(g.is_move_valid("b5", "c6", PLAYER::WHITE, None), Ok(MoveType::Enpassant(26)));
    assert!(g.move_piece("b5-c6", PLAYER::WHITE).is_ok());
    assert!(g.state.get_piece_at(26).is_none());
    assert!(g.state.get_piece_at(25).is_none());
    assert_eq!(g.state.get_piece_at(18), white_pawn(true));
    assert!(g.state.en_passant_enabled.is_empty());
}

#[test]
fn any_other_move_closes_captures() {
    let mut g = Game::default();
    g.state.state[35] = black_pawn(true);
    assert!(g.move_piece("e2-e4", PLAYER::WHITE).is_ok());
    assert_eq!(
        g.state.en_passant_enabled,
        vec![EnPassantCapture { from: 35, to: 44, captured: 36 }]
    );
    assert!(g.move_piece("a7-a6", PLAYER::BLACK).is_ok());
    assert!(g.state.en_passant_enabled.is_empty());
    assert_eq!(g.move_piece("d4-e3", PLAYER::BLACK), Err(ChessErrors::PawnCanOnlyAttackDiagonal(44)));
}

#[test]
fn bad_notation() {
    let mut g = Game::default();
    assert_eq!(g.move_piece("e2e4", PLAYER::WHITE), Err(ChessErrors::InvalidNotation));
    assert_eq!(g.move_piece("i2-i4", PLAYER::WHITE), Err(ChessErrors::InvalidNotation));
    assert_eq!(g.move_piece("e2-e", PLAYER::WHITE), Err(ChessErrors::InvalidNotation));
    assert_eq!(g.move_piece("", PLAYER::WHITE), Err(ChessErrors::InvalidNotation));
    assert_eq!(g.is_move_valid("e2", "e9", PLAYER::WHITE, None), Err(ChessErrors::InvalidNotation));
    assert_eq!(g.move_piece("E2-E4", PLAYER::WHITE), Ok(()));
}

#[test]
fn move_lists_at_the_start() {
    let g = Game::default();
    let legal = g.get_validated_moves(PLAYER::WHITE);
    assert_eq!(legal.len(), 20);
    assert!(legal.contains(&"e2-e4".to_string()));
    assert!(legal.contains(&"g1-f3".to_string()));
    assert!(!legal.contains(&"e2-d3".to_string()));
    assert_eq!(legal[0], "a2-a4");
    let all = g.state.get_unvalidated_moves(PLAYER::WHITE);
    assert_eq!(all.len(), 104);
    assert!(all.contains(&"e2-d3".to_string()));
    let black = g.get_validated_moves(PLAYER::BLACK);
    assert_eq!(black.len(), 20);
    assert!(black.contains(&"b8-c6".to_string()));
    let knight = GamePiece::Knight(Knight { player: PLAYER::WHITE, moved: false });
    assert_eq!(knight.get_unvalidated_moves(57), vec![40, 42, 51]);
    let pawn = GamePiece::Pawn(Pawn { player: PLAYER::BLACK, moved: false });
    assert_eq!(pawn.get_unvalidated_moves(8), vec![16, 17, 24]);
}

#[test]
fn pieces_and_moves() {
    let mut p = GamePiece::Rook(Rook { player: PLAYER::BLACK, moved: false });
    assert_eq!(p.get_player(), PLAYER::BLACK);
    assert!(!p.get_moved());
    p.toggle_moved();
    assert!(p.get_moved());
    assert_eq!(p.get_unicode_val(), '\u{265C}');
    let s = GameState::default();
    assert_eq!(s.promotion_game_piece('\u{2655}'), Some(GamePiece::Queen(Queen { player: PLAYER::WHITE, moved: true })));
    assert_eq!(s.promotion_game_piece('x'), None);
    let mut s = GameState::default();
    s.move_piece(52, 36, None, MoveType::Regular);
    assert!(s.get_piece_at(52).is_none());
    assert_eq!(s.get_piece_at(36), white_pawn(true));
    assert_eq!(s.player_turn, PLAYER::WHITE);
}

#[test]
fn capture_onto_the_last_row_promotes() {
    let mut g = Game::default();
    g.state = empty_board();
    g.state.state[9] = white_pawn(true);
    g.state.state[0] = Some(GamePiece::Rook(Rook { player: PLAYER::BLACK, moved: false }));
    assert_eq!(g.state.validate_move(9, 0, PLAYER::WHITE, None), Ok(MoveType::Promotion(WHITE_QUEEN)));
    assert!(g.move_piece("b7-a8", PLAYER::WHITE).is_ok());
    assert_eq!(g.state.get_piece_at(0), Some(GamePiece::Queen(Queen { player: PLAYER::WHITE, moved: true })));
    assert!(g.state.get_piece_at(9).is_none());
    let mut s = empty_board();
    s.state[49] = black_pawn(true);
    s.state[58] = Some(GamePiece::Knight(Knight { player: PLAYER::WHITE, moved: false }));
    assert_eq!(
        s.validate_move(49, 58, PLAYER::BLACK, Some("k")),
        Ok(MoveType::Promotion(BLACK_KNIGHT))
    );
}

#[test]
fn sliders_do_not_pass_enemy_pieces() {
    let g = Game::game_from_turn_history(&[
        "a2-a4", "b7-b5", "a4-b5", "f7-f5", "b5-b6", "b8-c6", "b6-b7", "f5-f4", "a1-a7",
    ]);
    assert_eq!(g.state.player_turn, PLAYER::BLACK);
    assert_eq!(g.is_move_valid("a8", "a6", PLAYER::BLACK, None), Err(ChessErrors::InvalidMove(16)));
    // a pawn's double step cannot cross a piece either
    let mut s = empty_board();
    s.state[52] = white_pawn(false);
    s.state[44] = Some(GamePiece::Knight(Knight { player: PLAYER::BLACK, moved: false }));
    assert_eq!(s.validate_move(52, 36, PLAYER::WHITE, None), Err(ChessErrors::InvalidMove(36)));
}

#[test]
fn overlong_pawn_step_is_invalid_whatever_is_in_the_way() {
    let g = Game::game_from_turn_history(&["b1-c3", "h7-h6"]);
    assert_eq!(g.is_move_valid("c2", "c5", PLAYER::WHITE, None), Err(ChessErrors::InvalidMove(26)));
    let mut s = empty_board();
    s.state[36] = white_pawn(true);
    s.state[18] = black_pawn(true);
    s.state[27] = Some(GamePiece::Rook(Rook { player: PLAYER::WHITE, moved: true }));
    // two squares diagonally, even to capture
    assert_eq!(s.validate_move(36, 18, PLAYER::WHITE, None), Err(ChessErrors::InvalidMove(18)));
}

#[test]
fn only_a_straight_double_step_opens_en_passant() {
    let mut s = empty_board();
    s.state[50] = white_pawn(false);
    s.state[35] = black_pawn(true);
    s.check_en_passant(50, 36);
    assert!(s.en_passant_enabled.is_empty());
    s.check_en_passant(50, 34);
    assert_eq!(s.en_passant_enabled, vec![EnPassantCapture { from: 35, to: 42, captured: 34 }]);
    s.check_en_passant(35, 43);
    assert!(s.en_passant_enabled.is_empty());
}

#[test]
fn walk_that_misses_the_origin() {
    let mut s = empty_board();
    assert_eq!(s.check_pieces_between(52, 35, PLAYER::WHITE), Err(ChessErrors::InvalidNotation));
    assert_eq!(s.check_pieces_between(52, 52, PLAYER::WHITE), Err(ChessErrors::InvalidNotation));
    assert_eq!(s.check_pieces_between(56, 0, PLAYER::WHITE), Ok(()));
    s.state[53] = white_pawn(true);
    assert_eq!(s.check_pieces_between(52, 35, PLAYER::WHITE), Err(ChessErrors::PieceBetween(53)));
    s.state[32] = black_pawn(true);
    assert_eq!(s.check_pieces_between(56, 0, PLAYER::WHITE), Err(ChessErrors::InvalidMove(0)));
    s.state[16] = white_pawn(true);
    assert_eq!(s.check_pieces_between(56, 0, PLAYER::WHITE), Err(ChessErrors::PieceBetween(16)));
}
