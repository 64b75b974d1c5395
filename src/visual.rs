use vstd::prelude::*;

use crate::chess_notation_utilities::{sq_col, sq_row};

verus! {

pub const WHITE_PAWN: char = '\u{2659}';
pub const WHITE_ROOK: char = '\u{2656}';
pub const WHITE_KNIGHT: char = '\u{2658}';
pub const WHITE_BISHOP: char = '\u{2657}';
pub const WHITE_QUEEN: char = '\u{2655}';
pub const WHITE_KING: char = '\u{2654}';
pub const BLACK_PAWN: char = '\u{265F}';
pub const BLACK_ROOK: char = '\u{265C}';
pub const BLACK_KNIGHT: char = '\u{265E}';
pub const BLACK_BISHOP: char = '\u{265D}';
pub const BLACK_QUEEN: char = '\u{265B}';
pub const BLACK_KING: char = '\u{265A}';

#[derive(Clone, Copy, Debug, PartialEq, Eq, Structural)]
pub enum PLAYER {
    WHITE,
    BLACK,
}

pub open spec fn opponent(p: PLAYER) -> PLAYER {
    match p {
        PLAYER::WHITE => PLAYER::BLACK,
        PLAYER::BLACK => PLAYER::WHITE,
    }
}

/// How an accepted move is carried out.
#[derive(Clone, Copy, Debug, PartialEq, Eq, Structural)]
pub enum MoveType {
    /// Capture en passant; the pawn to remove stands at this board index.
    Enpassant(usize),
    Regular,
    /// The pawn becomes the piece with this glyph.
    Promotion(char),
}

#[derive(Clone, Copy, Debug, PartialEq, Eq, Structural)]
pub struct Pawn {
    pub player: PLAYER,
    pub moved: bool,
}

#[derive(Clone, Copy, Debug, PartialEq, Eq, Structural)]
pub struct Rook {
    pub player: PLAYER,
    pub moved: bool,
}

#[derive(Clone, Copy, Debug, PartialEq, Eq, Structural)]
pub struct Knight {
    pub player: PLAYER,
    pub moved: bool,
}

#[derive(Clone, Copy, Debug, PartialEq, Eq, Structural)]
pub struct Bishop {
    pub player: PLAYER,
    pub moved: bool,
}

#[derive(Clone, Copy, Debug, PartialEq, Eq, Structural)]
pub struct Queen {
    pub player: PLAYER,
    pub moved: bool,
}

#[derive(Clone, Copy, Debug, PartialEq, Eq, Structural)]
pub struct King {
    pub player: PLAYER,
    pub moved: bool,
}

/// A piece on the board: its kind, with its owner and whether it has moved.
#[derive(Clone, Copy, Debug, PartialEq, Eq, Structural)]
pub enum GamePiece {
    Pawn(Pawn),
    Rook(Rook),
    Knight(Knight),
    Bishop(Bishop),
    Queen(Queen),
    King(King),
}

impl GamePiece {
    pub open spec fn player(self) -> PLAYER {
        match self {
            GamePiece::Pawn(p) => p.player,
            GamePiece::Rook(p) => p.player,
            GamePiece::Knight(p) => p.player,
            GamePiece::Bishop(p) => p.player,
            GamePiece::Queen(p) => p.player,
            GamePiece::King(p) => p.player,
        }
    }

    pub open spec fn moved(self) -> bool {
        match self {
            GamePiece::Pawn(p) => p.moved,
            GamePiece::Rook(p) => p.moved,
            GamePiece::Knight(p) => p.moved,
            GamePiece::Bishop(p) => p.moved,
            GamePiece::Queen(p) => p.moved,
            GamePiece::King(p) => p.moved,
        }
    }

    /// The same piece, marked as having moved.
    pub open spec fn with_moved(self) -> GamePiece {
        match self {
            GamePiece::Pawn(p) => GamePiece::Pawn(Pawn { moved: true, ..p }),
            GamePiece::Rook(p) => GamePiece::Rook(Rook { moved: true, ..p }),
            GamePiece::Knight(p) => GamePiece::Knight(Knight { moved: true, ..p }),
            GamePiece::Bishop(p) => GamePiece::Bishop(Bishop { moved: true, ..p }),
            GamePiece::Queen(p) => GamePiece::Queen(Queen { moved: true, ..p }),
            GamePiece::King(p) => GamePiece::King(King { moved: true, ..p }),
        }
    }

    pub open spec fn glyph(self) -> char {
        let white = self.player() == PLAYER::WHITE;
        match self {
            GamePiece::Pawn(_) => if white { WHITE_PAWN } else { BLACK_PAWN },
            GamePiece::Rook(_) => if white { WHITE_ROOK } else { BLACK_ROOK },
            GamePiece::Knight(_) => if white { WHITE_KNIGHT } else { BLACK_KNIGHT },
            GamePiece::Bishop(_) => if white { WHITE_BISHOP } else { BLACK_BISHOP },
            GamePiece::Queen(_) => if white { WHITE_QUEEN } else { BLACK_QUEEN },
            GamePiece::King(_) => if white { WHITE_KING } else { BLACK_KING },
        }
    }

    pub fn get_player(&self) -> (r: PLAYER)
        ensures
            r == self.player(),
    {
        match self {
            GamePiece::Pawn(p) => p.player,
            GamePiece::Rook(p) => p.player,
            GamePiece::Knight(p) => p.player,
            GamePiece::Bishop(p) => p.player,
            GamePiece::Queen(p) => p.player,
            GamePiece::King(p) => p.player,
        }
    }

    pub fn get_moved(&self) -> (r: bool)
        ensures
            r == self.moved(),
    {
        match self {
            GamePiece::Pawn(p) => p.moved,
            GamePiece::Rook(p) => p.moved,
            GamePiece::Knight(p) => p.moved,
            GamePiece::Bishop(p) => p.moved,
            GamePiece::Queen(p) => p.moved,
            GamePiece::King(p) => p.moved,
        }
    }

    pub fn toggle_moved(&mut self)
        ensures
            *final(self) == old(self).with_moved(),
    {
        match self {
            GamePiece::Pawn(p) => p.moved = true,
            GamePiece::Rook(p) => p.moved = true,
            GamePiece::Knight(p) => p.moved = true,
            GamePiece::Bishop(p) => p.moved = true,
            GamePiece::Queen(p) => p.moved = true,
            GamePiece::King(p) => p.moved = true,
        }
    }

    pub fn get_unicode_val(&self) -> (r: char)
        ensures
            r == self.glyph(),
    {
        let white = match self.get_player() {
            PLAYER::WHITE => true,
            PLAYER::BLACK => false,
        };
        match self {
            GamePiece::Pawn(_) => if white { WHITE_PAWN } else { BLACK_PAWN },
            GamePiece::Rook(_) => if white { WHITE_ROOK } else { BLACK_ROOK },
            GamePiece::Knight(_) => if white { WHITE_KNIGHT } else { BLACK_KNIGHT },
            GamePiece::Bishop(_) => if white { WHITE_BISHOP } else { BLACK_BISHOP },
            GamePiece::Queen(_) => if white { WHITE_QUEEN } else { BLACK_QUEEN },
            GamePiece::King(_) => if white { WHITE_KING } else { BLACK_KING },
        }
    }
}


/// A capture en passant that the next move may make: the pawn on `from`
/// moves to `to` and the pawn on `captured` leaves the board.
#[derive(Clone, Copy, Debug, PartialEq, Eq, Structural)]
pub struct EnPassantCapture {
    pub from: usize,
    pub to: usize,
    pub captured: usize,
}

/// The board (64 squares, index row * 8 + column, rank 8 first), whose
/// turn it is, and the captures en passant open to the next move.
pub struct GameState {
    pub state: Vec<Option<GamePiece>>,
    pub player_turn: PLAYER,
    pub en_passant_enabled: Vec<EnPassantCapture>,
}

/// What a `GameState` holds, as mathematical values.
pub struct Position {
    pub board: Seq<Option<GamePiece>>,
    pub player_turn: PLAYER,
    pub en_passant: Seq<EnPassantCapture>,
}

impl View for GameState {
    type V = Position;

    open spec fn view(&self) -> Position {
        Position {
            board: self.state@,
            player_turn: self.player_turn,
            en_passant: self.en_passant_enabled@,
        }
    }
}

impl Position {
    /// 64 squares, and every square an open capture names is on the board.
    pub open spec fn wf(self) -> bool {
        &&& self.board.len() == 64
        &&& forall|k: int|
            0 <= k < self.en_passant.len() ==> {
                let e = #[trigger] self.en_passant[k];
                e.from < 64 && e.to < 64 && e.captured < 64
            }
    }
}

/// The piece that a promotion glyph stands for, already marked as moved.
pub open spec fn promoted_piece(c: char) -> Option<GamePiece> {
    if c == WHITE_QUEEN {
        Some(GamePiece::Queen(Queen { player: PLAYER::WHITE, moved: true }))
    } else if c == WHITE_ROOK {
        Some(GamePiece::Rook(Rook { player: PLAYER::WHITE, moved: true }))
    } else if c == WHITE_BISHOP {
        Some(GamePiece::Bishop(Bishop { player: PLAYER::WHITE, moved: true }))
    } else if c == WHITE_KNIGHT {
        Some(GamePiece::Knight(Knight { player: PLAYER::WHITE, moved: true }))
    } else if c == BLACK_QUEEN {
        Some(GamePiece::Queen(Queen { player: PLAYER::BLACK, moved: true }))
    } else if c == BLACK_ROOK {
        Some(GamePiece::Rook(Rook { player: PLAYER::BLACK, moved: true }))
    } else if c == BLACK_KNIGHT {
        Some(GamePiece::Knight(Knight { player: PLAYER::BLACK, moved: true }))
    } else if c == BLACK_BISHOP {
        Some(GamePiece::Bishop(Bishop { player: PLAYER::BLACK, moved: true }))
    } else {
        None
    }
}

/// The board after the piece on `from` moves to `to` with outcome `mt`.
pub open spec fn board_after(
    board: Seq<Option<GamePiece>>,
    from: int,
    to: int,
    mt: MoveType,
) -> Seq<Option<GamePiece>> {
    let lifted = board.update(from, None);
    let cleared = match mt {
        MoveType::Enpassant(i) => lifted.update(i as int, None),
        _ => lifted,
    };
    match mt {
        MoveType::Promotion(c) => cleared.update(to, promoted_piece(c)),
        _ => cleared.update(to, Some(board[from]->0.with_moved())),
    }
}

/// The piece that stands on each square at the start of a game.
pub open spec fn start_square(i: int) -> Option<GamePiece> {
    let c = sq_col(i);
    let r = sq_row(i);
    let player = if r < 4 { PLAYER::BLACK } else { PLAYER::WHITE };
    if r == 1 || r == 6 {
        Some(GamePiece::Pawn(Pawn { player, moved: false }))
    } else if r == 0 || r == 7 {
        if c == 0 || c == 7 {
            Some(GamePiece::Rook(Rook { player, moved: false }))
        } else if c == 1 || c == 6 {
            Some(GamePiece::Knight(Knight { player, moved: false }))
        } else if c == 2 || c == 5 {
            Some(GamePiece::Bishop(Bishop { player, moved: false }))
        } else if c == 3 {
            Some(GamePiece::Queen(Queen { player, moved: false }))
        } else {
            Some(GamePiece::King(King { player, moved: false }))
        }
    } else {
        None
    }
}

pub open spec fn start_board() -> Seq<Option<GamePiece>> {
    Seq::new(64, |i: int| start_square(i))
}

fn start_piece(i: usize) -> (r: Option<GamePiece>)
    requires
        i < 64,
    ensures
        r == start_square(i as int),
{
    let c = i % 8;
    let r = i / 8;
    let player = if r < 4 { PLAYER::BLACK } else { PLAYER::WHITE };
    if r == 1 || r == 6 {
        Some(GamePiece::Pawn(Pawn { player, moved: false }))
    } else if r == 0 || r == 7 {
        if c == 0 || c == 7 {
            Some(GamePiece::Rook(Rook { player, moved: false }))
        } else if c == 1 || c == 6 {
            Some(GamePiece::Knight(Knight { player, moved: false }))
        } else if c == 2 || c == 5 {
            Some(GamePiece::Bishop(Bishop { player, moved: false }))
        } else if c == 3 {
            Some(GamePiece::Queen(Queen { player, moved: false }))
        } else {
            Some(GamePiece::King(King { player, moved: false }))
        }
    } else {
        None
    }
}

impl Default for GameState {
    /// The standard start position, WHITE to move, no capture en passant open.
    fn default() -> (r: GameState)
        ensures
            r@.board == start_board(),
            r@.player_turn == PLAYER::WHITE,
            r@.en_passant.len() == 0,
    {
        let mut pieces: Vec<Option<GamePiece>> = Vec::new();
        let mut i: usize = 0;
        while i < 64
            invariant
                i <= 64,
                pieces@ =~= Seq::new(i as nat, |j: int| start_square(j)),
            decreases 64 - i,
        {
            pieces.push(start_piece(i));
            i = i + 1;
        }
        assert(pieces@ =~= start_board());
        GameState { state: pieces, player_turn: PLAYER::WHITE, en_passant_enabled: Vec::new() }
    }
}

impl GameState {
    /// The piece for a promotion glyph; `None` for any other character.
    pub fn promotion_game_piece(&self, piece_char: char) -> (r: Option<GamePiece>)
        ensures
            r == promoted_piece(piece_char),
    {
        if piece_char == WHITE_QUEEN {
            Some(GamePiece::Queen(Queen { player: PLAYER::WHITE, moved: true }))
        } else if piece_char == WHITE_ROOK {
            Some(GamePiece::Rook(Rook { player: PLAYER::WHITE, moved: true }))
        } else if piece_char == WHITE_BISHOP {
            Some(GamePiece::Bishop(Bishop { player: PLAYER::WHITE, moved: true }))
        } else if piece_char == WHITE_KNIGHT {
            Some(GamePiece::Knight(Knight { player: PLAYER::WHITE, moved: true }))
        } else if piece_char == BLACK_QUEEN {
            Some(GamePiece::Queen(Queen { player: PLAYER::BLACK, moved: true }))
        } else if piece_char == BLACK_ROOK {
            Some(GamePiece::Rook(Rook { player: PLAYER::BLACK, moved: true }))
        } else if piece_char == BLACK_KNIGHT {
            Some(GamePiece::Knight(Knight { player: PLAYER::BLACK, moved: true }))
        } else if piece_char == BLACK_BISHOP {
            Some(GamePiece::Bishop(Bishop { player: PLAYER::BLACK, moved: true }))
        } else {
            None
        }
    }

    /// Carries out a move that has already been validated: `move_type`
    /// already holds what the promotion letter chose. A capture en passant
    /// also closes every other capture en passant.
    pub fn move_piece(&mut self, from: usize, to: usize, promotion: Option<&str>, move_type: MoveType)
        requires
            old(self)@.wf(),
            from < 64,
            to < 64,
            move_type matches MoveType::Enpassant(i) ==> i < 64,
            !(move_type is Promotion) ==> old(self)@.board[from as int] is Some,
            move_type matches MoveType::Promotion(c) ==> promoted_piece(c) is Some,
        ensures
            final(self)@.wf(),
            final(self)@.board == board_after(old(self)@.board, from as int, to as int, move_type),
            final(self)@.player_turn == old(self)@.player_turn,
            final(self)@.en_passant == (if move_type is Enpassant {
                Seq::<EnPassantCapture>::empty()
            } else {
                old(self)@.en_passant
            }),
    {
        let value = self.state[from];
        self.state.set(from, None);
        if let MoveType::Enpassant(index) = move_type {
            self.state.set(index, None);
            self.en_passant_enabled = Vec::new();
        }
        if let MoveType::Promotion(piece_char) = move_type {
            let new_piece = self.promotion_game_piece(piece_char);
            self.state.set(to, new_piece);
        } else {
            let mut piece = value.unwrap();
            piece.toggle_moved();
            self.state.set(to, Some(piece));
        }
        assert(self@.board.len() == 64);
        assert(self@.en_passant.len() == 0 || self@.en_passant == old(self)@.en_passant);
    }

    pub fn get_piece_at(&self, pos: usize) -> (r: Option<GamePiece>)
        requires
            pos < self@.board.len(),
        ensures
            r == self@.board[pos as int],
    {
        self.state[pos]
    }
}

} // verus!
