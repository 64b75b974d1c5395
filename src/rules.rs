use vstd::prelude::*;
use vstd::string::*;

use crate::chess_errors::ChessErrors;
use crate::chess_notation_utilities::{
    dir_dx, dir_dy, lemma_index_parts, lemma_step_again, neighbor, scale, sq_col,
    sq_row, steps_from, Direction,
};
use crate::visual::{
    board_after, opponent, EnPassantCapture, GamePiece, GameState, MoveType, Pawn, PLAYER,
    BLACK_BISHOP, BLACK_KNIGHT, BLACK_QUEEN, BLACK_ROOK, WHITE_BISHOP, WHITE_KNIGHT, WHITE_QUEEN,
    WHITE_ROOK,
};

verus! {

pub open spec fn abs(x: int) -> int {
    if x < 0 {
        -x
    } else {
        x
    }
}

pub open spec fn promo_view(p: Option<&str>) -> Option<Seq<char>> {
    match p {
        Some(s) => Some(s@),
        None => None,
    }
}

/// Glyph a pawn of `player` is promoted to: `r` rook, `b` bishop, `k`
/// knight, anything else (or no letter) queen.
pub open spec fn promotion_glyph(player: PLAYER, letter: Option<Seq<char>>) -> char {
    let white = player == PLAYER::WHITE;
    match letter {
        Some(s) => if s =~= seq!['r'] {
            if white { WHITE_ROOK } else { BLACK_ROOK }
        } else if s =~= seq!['b'] {
            if white { WHITE_BISHOP } else { BLACK_BISHOP }
        } else if s =~= seq!['k'] {
            if white { WHITE_KNIGHT } else { BLACK_KNIGHT }
        } else {
            if white { WHITE_QUEEN } else { BLACK_QUEEN }
        },
        None => if white { WHITE_QUEEN } else { BLACK_QUEEN },
    }
}

/// A pawn moves toward the opponent: WHITE to lower rows, BLACK to higher
/// ones. `dy` is the origin's row minus the destination's.
pub open spec fn backward(player: PLAYER, dy: int) -> bool {
    (player == PLAYER::BLACK && dy > 0) || (player == PLAYER::WHITE && dy < 0)
}

pub open spec fn last_row(player: PLAYER) -> int {
    if player == PLAYER::WHITE {
        0
    } else {
        7
    }
}

/// A pawn's straight move of `dy` rows onto `to`.
pub open spec fn pawn_vertical(
    p: Pawn,
    board: Seq<Option<GamePiece>>,
    to: int,
    dy: int,
    promo: Option<Seq<char>>,
) -> Result<(usize, MoveType), ChessErrors> {
    let t = to as usize;
    if board[to] is Some && board[to]->0.player() != p.player {
        Err(ChessErrors::PawnCantAttackForward(t))
    } else if abs(dy) > 2 || (abs(dy) == 2 && p.moved) || backward(p.player, dy) {
        Err(ChessErrors::InvalidMove(t))
    } else if sq_row(to) == last_row(p.player) {
        Ok((t, MoveType::Promotion(promotion_glyph(p.player, promo))))
    } else {
        Ok((t, MoveType::Regular))
    }
}

/// A pawn's diagonal move onto `to`: one row forward, and only to capture.
/// A capture onto the last row is a promotion.
pub open spec fn pawn_diagonal(
    p: Pawn,
    board: Seq<Option<GamePiece>>,
    to: int,
    dy: int,
    promo: Option<Seq<char>>,
) -> Result<(usize, MoveType), ChessErrors> {
    let t = to as usize;
    if abs(dy) != 1 || backward(p.player, dy) {
        Err(ChessErrors::InvalidMove(t))
    } else if board[to] is None {
        Err(ChessErrors::PawnCanOnlyAttackDiagonal(t))
    } else if sq_row(to) == last_row(p.player) {
        Ok((t, MoveType::Promotion(promotion_glyph(p.player, promo))))
    } else {
        Ok((t, MoveType::Regular))
    }
}

/// A move the piece's geometry allows: it is refused only when a
/// promotion letter came with it.
pub open spec fn plain_move(to: int, promoted: bool) -> Result<usize, ChessErrors> {
    if promoted {
        Err(ChessErrors::InvalidPromotion(to as usize))
    } else {
        Ok(to as usize)
    }
}

pub open spec fn vertical_rule(
    piece: GamePiece,
    board: Seq<Option<GamePiece>>,
    to: int,
    dy: int,
    promo: Option<Seq<char>>,
) -> Result<(usize, MoveType), ChessErrors> {
    match piece {
        GamePiece::Pawn(p) => pawn_vertical(p, board, to, dy, promo),
        GamePiece::Rook(_) | GamePiece::Queen(_) | GamePiece::King(_) => match plain_move(
            to,
            promo is Some,
        ) {
            Ok(t) => Ok((t, MoveType::Regular)),
            Err(e) => Err(e),
        },
        _ => Err(ChessErrors::InvalidMove(to as usize)),
    }
}

pub open spec fn horizontal_rule(piece: GamePiece, to: int, promoted: bool) -> Result<
    usize,
    ChessErrors,
> {
    match piece {
        GamePiece::Rook(_) | GamePiece::Queen(_) | GamePiece::King(_) => plain_move(to, promoted),
        _ => Err(ChessErrors::InvalidMove(to as usize)),
    }
}

pub open spec fn diagonal_rule(
    piece: GamePiece,
    board: Seq<Option<GamePiece>>,
    to: int,
    dy: int,
    promo: Option<Seq<char>>,
) -> Result<(usize, MoveType), ChessErrors> {
    match piece {
        GamePiece::Pawn(p) => pawn_diagonal(p, board, to, dy, promo),
        GamePiece::Bishop(_) | GamePiece::Queen(_) | GamePiece::King(_) => match plain_move(
            to,
            promo is Some,
        ) {
            Ok(t) => Ok((t, MoveType::Regular)),
            Err(e) => Err(e),
        },
        _ => Err(ChessErrors::InvalidMove(to as usize)),
    }
}

pub open spec fn knight_rule(piece: GamePiece, to: int, promoted: bool) -> Result<usize, ChessErrors> {
    match piece {
        GamePiece::Knight(_) => plain_move(to, promoted),
        _ => Err(ChessErrors::InvalidMove(to as usize)),
    }
}

fn promotion_glyph_of(player: PLAYER, promotion: Option<&str>) -> (r: char)
    ensures
        r == promotion_glyph(player, promo_view(promotion)),
{
    let white = player == PLAYER::WHITE;
    let mut letter = 'q';
    if let Some(s) = promotion {
        if s.unicode_len() == 1 {
            letter = s.get_char(0);
            assert(s@ =~= seq![letter]);
        }
    }
    if letter == 'r' {
        if white { WHITE_ROOK } else { BLACK_ROOK }
    } else if letter == 'b' {
        if white { WHITE_BISHOP } else { BLACK_BISHOP }
    } else if letter == 'k' {
        if white { WHITE_KNIGHT } else { BLACK_KNIGHT }
    } else {
        if white { WHITE_QUEEN } else { BLACK_QUEEN }
    }
}

fn plain_move_of(to: usize, promotion: Option<&str>) -> (r: Result<usize, ChessErrors>)
    ensures
        r == plain_move(to as int, promotion is Some),
{
    if promotion.is_some() {
        Err(ChessErrors::InvalidPromotion(to))
    } else {
        Ok(to)
    }
}

impl Pawn {
    pub fn move_vertical(&self, to: usize, state: &GameState, delta_y: i8, promotion: Option<&str>) -> (r: Result<
        (usize, MoveType),
        ChessErrors,
    >)
        requires
            to < state@.board.len(),
        ensures
            r == pawn_vertical(*self, state@.board, to as int, delta_y as int, promo_view(promotion)),
    {
        if let Some(piece) = state.get_piece_at(to) {
            if piece.get_player() != self.player {
                return Err(ChessErrors::PawnCantAttackForward(to));
            }
        }
        let dy = delta_y as i16;
        let dist: i16 = if dy < 0 { -dy } else { dy };
        let backward = (self.player == PLAYER::BLACK && delta_y > 0) || (self.player
            == PLAYER::WHITE && delta_y < 0);
        if dist > 2 || (dist == 2 && self.moved) || backward {
            return Err(ChessErrors::InvalidMove(to));
        }
        let last: usize = if self.player == PLAYER::WHITE { 0 } else { 7 };
        if to / 8 == last {
            Ok((to, MoveType::Promotion(promotion_glyph_of(self.player, promotion))))
        } else {
            Ok((to, MoveType::Regular))
        }
    }

    pub fn move_diagonal(&self, to: usize, state: &GameState, delta_y: i8, promotion: Option<&str>) -> (r: Result<
        (usize, MoveType),
        ChessErrors,
    >)
        requires
            to < state@.board.len(),
        ensures
            r == pawn_diagonal(*self, state@.board, to as int, delta_y as int, promo_view(promotion)),
    {
        if (delta_y != 1 && delta_y != -1) || (self.player == PLAYER::BLACK && delta_y > 0) || (
        self.player == PLAYER::WHITE && delta_y < 0) {
            return Err(ChessErrors::InvalidMove(to));
        }
        if state.get_piece_at(to).is_none() {
            return Err(ChessErrors::PawnCanOnlyAttackDiagonal(to));
        }
        let last: usize = if self.player == PLAYER::WHITE { 0 } else { 7 };
        if to / 8 == last {
            Ok((to, MoveType::Promotion(promotion_glyph_of(self.player, promotion))))
        } else {
            Ok((to, MoveType::Regular))
        }
    }
}

impl GamePiece {
    /// Straight move along a file; a pawn may also become a promotion.
    pub fn move_vertical(&self, to: usize, state: &GameState, delta_y: i8, promotion: Option<&str>) -> (r: Result<
        (usize, MoveType),
        ChessErrors,
    >)
        requires
            to < state@.board.len(),
        ensures
            r == vertical_rule(*self, state@.board, to as int, delta_y as int, promo_view(promotion)),
    {
        match self {
            GamePiece::Pawn(p) => p.move_vertical(to, state, delta_y, promotion),
            GamePiece::Rook(_) | GamePiece::Queen(_) | GamePiece::King(_) => {
                let t = plain_move_of(to, promotion)?;
                Ok((t, MoveType::Regular))
            },
            _ => Err(ChessErrors::InvalidMove(to)),
        }
    }

    /// Straight move along a rank.
    pub fn move_horizontal(&self, to: usize, promotion: Option<&str>) -> (r: Result<usize, ChessErrors>)
        ensures
            r == horizontal_rule(*self, to as int, promotion is Some),
    {
        match self {
            GamePiece::Rook(_) | GamePiece::Queen(_) | GamePiece::King(_) => plain_move_of(
                to,
                promotion,
            ),
            _ => Err(ChessErrors::InvalidMove(to)),
        }
    }

    /// Diagonal move; a pawn's capture onto its last row is a promotion.
    pub fn move_diagonal(&self, to: usize, state: &GameState, delta_y: i8, promotion: Option<&str>) -> (r: Result<
        (usize, MoveType),
        ChessErrors,
    >)
        requires
            to < state@.board.len(),
        ensures
            r == diagonal_rule(*self, state@.board, to as int, delta_y as int, promo_view(promotion)),
    {
        match self {
            GamePiece::Pawn(p) => p.move_diagonal(to, state, delta_y, promotion),
            GamePiece::Bishop(_) | GamePiece::Queen(_) | GamePiece::King(_) => {
                let t = plain_move_of(to, promotion)?;
                Ok((t, MoveType::Regular))
            },
            _ => Err(ChessErrors::InvalidMove(to)),
        }
    }

    pub fn move_knight(&self, to: usize, promotion: Option<&str>) -> (r: Result<usize, ChessErrors>)
        ensures
            r == knight_rule(*self, to as int, promotion is Some),
    {
        match self {
            GamePiece::Knight(_) => plain_move_of(to, promotion),
            _ => Err(ChessErrors::InvalidMove(to)),
        }
    }
}

/// The square `i` holds a piece of `mover`.
pub open spec fn own(board: Seq<Option<GamePiece>>, i: int, mover: PLAYER) -> bool {
    board[i] is Some && board[i]->0.player() == mover
}

/// Columns and rows from the destination back to the origin.
pub open spec fn delta_x(from: int, to: int) -> int {
    sq_col(from) - sq_col(to)
}

pub open spec fn delta_y(from: int, to: int) -> int {
    sq_row(from) - sq_row(to)
}

/// `from` and `to` lie on one rank, file or diagonal.
pub open spec fn on_line(from: int, to: int) -> bool {
    delta_x(from, to) == 0 || delta_y(from, to) == 0 || abs(delta_x(from, to)) == abs(
        delta_y(from, to),
    )
}

pub open spec fn distance(from: int, to: int) -> int {
    if abs(delta_x(from, to)) > abs(delta_y(from, to)) {
        abs(delta_x(from, to))
    } else {
        abs(delta_y(from, to))
    }
}

/// The unit step whose signs are those of `(dx, dy)`.
pub open spec fn direction_of(dx: int, dy: int) -> Direction {
    if dx == 0 {
        if dy < 0 {
            Direction::Up
        } else {
            Direction::Down
        }
    } else if dy == 0 {
        if dx < 0 {
            Direction::Left
        } else {
            Direction::Right
        }
    } else if dx < 0 {
        if dy < 0 {
            Direction::UpLeft
        } else {
            Direction::DownLeft
        }
    } else {
        if dy < 0 {
            Direction::UpRight
        } else {
            Direction::DownRight
        }
    }
}

/// The step that leads from `to` back toward `from`.
pub open spec fn toward(from: int, to: int) -> Direction {
    direction_of(delta_x(from, to), delta_y(from, to))
}

/// Walks from `to` toward `from` in direction `d`, from the `k`-th step on.
/// The first piece of the mover's met refuses the move (`PieceBetween`).
/// Reaching `from` accepts it, unless an enemy piece was passed (`seen`),
/// which refuses it (`InvalidMove`). Leaving the board first means `from`
/// is not on the ray (`InvalidNotation`).
pub open spec fn path_verdict(
    board: Seq<Option<GamePiece>>,
    mover: PLAYER,
    from: int,
    to: int,
    d: Direction,
    k: int,
    seen: bool,
) -> Result<(), ChessErrors>
    decreases 8 - k,
{
    if k >= 8 {
        Err(ChessErrors::InvalidNotation)
    } else {
        match steps_from(to, d, k) {
            None => Err(ChessErrors::InvalidNotation),
            Some(sq) => if sq == from {
                if seen {
                    Err(ChessErrors::InvalidMove(to as usize))
                } else {
                    Ok(())
                }
            } else if own(board, sq as int, mover) {
                Err(ChessErrors::PieceBetween(sq))
            } else if board[sq as int] is Some {
                path_verdict(board, mover, from, to, d, k + 1, true)
            } else {
                path_verdict(board, mover, from, to, d, k + 1, seen)
            },
        }
    }
}

/// The squares strictly between `to` and `from` are empty: a piece of the
/// mover's there gives `PieceBetween` (the first one seen from `to`), an
/// enemy piece `InvalidMove`.
pub open spec fn path_check(board: Seq<Option<GamePiece>>, mover: PLAYER, from: int, to: int) -> Result<
    (),
    ChessErrors,
> {
    path_verdict(board, mover, from, to, toward(from, to), 1, false)
}

/// A pawn asked to go farther than it ever may: more than two rows
/// straight, two after it has moved, or more than one diagonally.
pub open spec fn pawn_overreach(piece: GamePiece, dx: int, dy: int) -> bool {
    piece is Pawn && if dx == 0 {
        abs(dy) > 2 || (abs(dy) == 2 && piece.moved())
    } else {
        abs(dy) > 1
    }
}

/// The pawn that an open capture en passant `from`-`to` removes: the first
/// one listed that matches.
pub open spec fn ep_capture(ep: Seq<EnPassantCapture>, from: int, to: int) -> Option<usize>
    decreases ep.len(),
{
    if ep.len() == 0 {
        None
    } else if ep[0].from == from && ep[0].to == to {
        Some(ep[0].captured)
    } else {
        ep_capture(ep.drop_first(), from, to)
    }
}

fn direction_between(from: usize, to: usize) -> (r: Direction)
    requires
        from < 64,
        to < 64,
    ensures
        r == toward(from as int, to as int),
{
    let (fc, fr, tc, tr) = (from % 8, from / 8, to % 8, to / 8);
    if fc == tc {
        if fr < tr {
            Direction::Up
        } else {
            Direction::Down
        }
    } else if fr == tr {
        if fc < tc {
            Direction::Left
        } else {
            Direction::Right
        }
    } else if fc < tc {
        if fr < tr {
            Direction::UpLeft
        } else {
            Direction::DownLeft
        }
    } else {
        if fr < tr {
            Direction::UpRight
        } else {
            Direction::DownRight
        }
    }
}

/// From `to`, `distance` steps toward `from` reach `from`, and every step
/// on the way stays on the board.
proof fn lemma_line_on_board(from: int, to: int, k: int)
    requires
        0 <= from < 64,
        0 <= to < 64,
        on_line(from, to),
        0 <= k <= distance(from, to),
    ensures
        steps_from(to, toward(from, to), k) is Some,
        k == distance(from, to) ==> steps_from(to, toward(from, to), k) == Some(from as usize),
{
    let d = toward(from, to);
    let c = sq_col(to) + scale(k, dir_dx(d));
    let r = sq_row(to) + scale(k, dir_dy(d));
    assert(0 <= c < 8 && 0 <= r < 8);
    if k == distance(from, to) {
        assert(from == sq_row(from) * 8 + sq_col(from));
    }
}


/// A promotion letter may only come with a move from the mover's
/// second-to-last row onto its last row.
pub open spec fn promotion_rank_ok(mover: PLAYER, from: int, to: int) -> bool {
    sq_row(to) == last_row(mover) && sq_row(from) == (if mover == PLAYER::WHITE {
        1int
    } else {
        6int
    })
}

/// The verdict once the move is known to be the mover's own and no capture
/// en passant applies: classify by geometry, refuse a pawn's overlong step,
/// look for pieces in the way, then ask the piece.
pub open spec fn geometry_verdict(
    board: Seq<Option<GamePiece>>,
    from: int,
    to: int,
    mover: PLAYER,
    promo: Option<Seq<char>>,
) -> Result<MoveType, ChessErrors> {
    let piece = board[from]->0;
    let dx = delta_x(from, to);
    let dy = delta_y(from, to);
    if on_line(from, to) {
        if pawn_overreach(piece, dx, dy) {
            Err(ChessErrors::InvalidMove(to as usize))
        } else {
            match path_check(board, mover, from, to) {
            Err(e) => Err(e),
            Ok(_) => if dx == 0 {
                match vertical_rule(piece, board, to, dy, promo) {
                    Ok((_, mt)) => Ok(mt),
                    Err(e) => Err(e),
                }
            } else if dy == 0 {
                match horizontal_rule(piece, to, promo is Some) {
                    Ok(_) => Ok(MoveType::Regular),
                    Err(e) => Err(e),
                }
            } else {
                match diagonal_rule(piece, board, to, dy, promo) {
                    Ok((_, mt)) => Ok(mt),
                    Err(e) => Err(e),
                }
            },
        }
        }
    } else if (abs(dx) == 2 && abs(dy) == 1) || (abs(dx) == 1 && abs(dy) == 2) {
        match knight_rule(piece, to, promo is Some) {
            Ok(_) => Ok(MoveType::Regular),
            Err(e) => Err(e),
        }
    } else {
        Err(ChessErrors::InvalidMove(to as usize))
    }
}

/// Whether `mover` may move the piece on `from` to `to`, with an optional
/// promotion letter, and how the move is carried out.
pub open spec fn move_verdict(
    board: Seq<Option<GamePiece>>,
    ep: Seq<EnPassantCapture>,
    from: int,
    to: int,
    mover: PLAYER,
    promo: Option<Seq<char>>,
) -> Result<MoveType, ChessErrors> {
    if board[from] is None {
        Err(ChessErrors::NoPiece(from as usize))
    } else if board[from]->0.player() != mover {
        Err(ChessErrors::WrongPlayer(from as usize))
    } else if own(board, to, mover) {
        Err(ChessErrors::PlayerPieceAlreadyThere(to as usize))
    } else if promo is Some && !promotion_rank_ok(mover, from, to) {
        Err(ChessErrors::InvalidPromotion(to as usize))
    } else if ep_capture(ep, from, to) is Some {
        Ok(MoveType::Enpassant(ep_capture(ep, from, to)->0))
    } else {
        geometry_verdict(board, from, to, mover, promo)
    }
}

pub open spec fn pawn_of(board: Seq<Option<GamePiece>>, i: int, player: PLAYER) -> bool {
    board[i] is Some && board[i]->0 is Pawn && board[i]->0.player() == player
}

/// The captures en passant that a move `from`-`to` opens: after a pawn's
/// straight two-row advance from its start row, each enemy pawn beside its destination may take it by
/// moving onto the square it passed over.
pub open spec fn en_passant_after(board: Seq<Option<GamePiece>>, from: int, to: int) -> Seq<
    EnPassantCapture,
> {
    if board[from] is Some && board[from]->0 is Pawn {
        let player = board[from]->0.player();
        let enemy = opponent(player);
        let white = player == PLAYER::WHITE;
        let start = if white { 6int } else { 1int };
        let jump = if white { 4int } else { 3int };
        let behind = if white { to + 8 } else { to - 8 };
        if sq_col(from) == sq_col(to) && sq_row(from) == start && sq_row(to) == jump {
            let left = if sq_col(to) > 0 && pawn_of(board, to - 1, enemy) {
                seq![
                    EnPassantCapture {
                        from: (to - 1) as usize,
                        to: behind as usize,
                        captured: to as usize,
                    },
                ]
            } else {
                Seq::empty()
            };
            let right = if sq_col(to) < 7 && pawn_of(board, to + 1, enemy) {
                seq![
                    EnPassantCapture {
                        from: (to + 1) as usize,
                        to: behind as usize,
                        captured: to as usize,
                    },
                ]
            } else {
                Seq::empty()
            };
            left + right
        } else {
            Seq::empty()
        }
    } else {
        Seq::empty()
    }
}

impl GameState {
    fn en_passant_capture(&self, from: usize, to: usize) -> (r: Option<usize>)
        ensures
            r == ep_capture(self@.en_passant, from as int, to as int),
    {
        let ghost ep = self@.en_passant;
        let mut i: usize = 0;
        assert(ep.subrange(0, ep.len() as int) =~= ep);
        while i < self.en_passant_enabled.len()
            invariant
                ep == self@.en_passant,
                i <= ep.len(),
                ep_capture(ep, from as int, to as int) == ep_capture(
                    ep.subrange(i as int, ep.len() as int),
                    from as int,
                    to as int,
                ),
            decreases ep.len() - i,
        {
            let e = self.en_passant_enabled[i];
            assert(ep.subrange(i as int, ep.len() as int).drop_first() =~= ep.subrange(
                i + 1,
                ep.len() as int,
            ));
            if e.from == from && e.to == to {
                return Some(e.captured);
            }
            i = i + 1;
        }
        None
    }

    /// Decides whether `mover` may move the piece on `from` to `to`, and how.
    /// Nothing is changed.
    pub fn validate_move(&self, from: usize, to: usize, mover: PLAYER, promotion: Option<&str>) -> (r: Result<
        MoveType,
        ChessErrors,
    >)
        requires
            self@.wf(),
            from < 64,
            to < 64,
        ensures
            r == move_verdict(
                self@.board,
                self@.en_passant,
                from as int,
                to as int,
                mover,
                promo_view(promotion),
            ),
    {
        let piece = match self.get_piece_at(from) {
            Some(p) => p,
            None => return Err(ChessErrors::NoPiece(from)),
        };
        if piece.get_player() != mover {
            return Err(ChessErrors::WrongPlayer(from));
        }
        if let Some(there) = self.get_piece_at(to) {
            if there.get_player() == mover {
                return Err(ChessErrors::PlayerPieceAlreadyThere(to));
            }
        }
        let (fc, fr, tc, tr) = (from % 8, from / 8, to % 8, to / 8);
        if promotion.is_some() {
            let (last, before_last): (usize, usize) = if mover == PLAYER::WHITE {
                (0, 1)
            } else {
                (7, 6)
            };
            if tr != last || fr != before_last {
                return Err(ChessErrors::InvalidPromotion(to));
            }
        }
        if let Some(captured) = self.en_passant_capture(from, to) {
            return Ok(MoveType::Enpassant(captured));
        }
        let dx: i8 = fc as i8 - tc as i8;
        let dy: i8 = fr as i8 - tr as i8;
        let adx: i8 = if dx < 0 { -dx } else { dx };
        let ady: i8 = if dy < 0 { -dy } else { dy };
        if dx == 0 || dy == 0 || adx == ady {
            if let GamePiece::Pawn(p) = piece {
                let far = if dx == 0 {
                    ady > 2 || (ady == 2 && p.moved)
                } else {
                    ady > 1
                };
                if far {
                    return Err(ChessErrors::InvalidMove(to));
                }
            }
            self.check_pieces_between(from, to, mover)?;
            if dx == 0 {
                let (_, mt) = piece.move_vertical(to, self, dy, promotion)?;
                Ok(mt)
            } else if dy == 0 {
                piece.move_horizontal(to, promotion)?;
                Ok(MoveType::Regular)
            } else {
                let (_, mt) = piece.move_diagonal(to, self, dy, promotion)?;
                Ok(mt)
            }
        } else if (adx == 2 && ady == 1) || (adx == 1 && ady == 2) {
            piece.move_knight(to, promotion)?;
            Ok(MoveType::Regular)
        } else {
            Err(ChessErrors::InvalidMove(to))
        }
    }

    /// Replaces the open captures en passant by those that the move
    /// `from`-`to`, about to be made on this board, opens.
    pub fn check_en_passant(&mut self, from: usize, to: usize)
        requires
            old(self)@.wf(),
            from < 64,
            to < 64,
        ensures
            final(self)@.wf(),
            final(self)@.board == old(self)@.board,
            final(self)@.player_turn == old(self)@.player_turn,
            final(self)@.en_passant == en_passant_after(old(self)@.board, from as int, to as int),
    {
        let mut found: Vec<EnPassantCapture> = Vec::new();
        if let Some(piece) = self.get_piece_at(from) {
            if let GamePiece::Pawn(p) = piece {
                let white = p.player == PLAYER::WHITE;
                let enemy = if white { PLAYER::BLACK } else { PLAYER::WHITE };
                let (start, jump): (usize, usize) = if white { (6, 4) } else { (1, 3) };
                if from % 8 == to % 8 && from / 8 == start && to / 8 == jump {
                    let behind = if white { to + 8 } else { to - 8 };
                    if to % 8 > 0 {
                        if let Some(GamePiece::Pawn(q)) = self.get_piece_at(to - 1) {
                            if q.player == enemy {
                                found.push(EnPassantCapture { from: to - 1, to: behind, captured: to });
                            }
                        }
                    }
                    if to % 8 < 7 {
                        if let Some(GamePiece::Pawn(q)) = self.get_piece_at(to + 1) {
                            if q.player == enemy {
                                found.push(EnPassantCapture { from: to + 1, to: behind, captured: to });
                            }
                        }
                    }
                }
            }
        }
        assert(found@ =~= en_passant_after(self@.board, from as int, to as int));
        self.en_passant_enabled = found;
    }

    /// Walks from `to` toward `from` and reports what stands strictly
    /// between them; fails with `InvalidNotation` when the walk leaves the
    /// board without reaching `from`.
    pub fn check_pieces_between(&self, from: usize, to: usize, mover: PLAYER) -> (r: Result<
        (),
        ChessErrors,
    >)
        requires
            self@.wf(),
            from < 64,
            to < 64,
        ensures
            r == path_check(self@.board, mover, from as int, to as int),
    {
        let d = direction_between(from, to);
        let mut pos = to;
        let mut k: usize = 1;
        let mut seen = false;
        proof {
            lemma_index_parts(sq_row(to as int), sq_col(to as int));
        }
        while k < 8
            invariant
                self@.wf(),
                from < 64,
                to < 64,
                d == toward(from as int, to as int),
                1 <= k <= 8,
                steps_from(to as int, d, (k - 1) as int) == Some(pos),
                path_check(self@.board, mover, from as int, to as int) == path_verdict(
                    self@.board,
                    mover,
                    from as int,
                    to as int,
                    d,
                    k as int,
                    seen,
                ),
            decreases 8 - k,
        {
            proof {
                lemma_step_again(to as int, d, (k - 1) as int);
            }
            match neighbor(pos, d) {
                None => {
                    return Err(ChessErrors::InvalidNotation);
                },
                Some(q) => {
                    if q == from {
                        return if seen {
                            Err(ChessErrors::InvalidMove(to))
                        } else {
                            Ok(())
                        };
                    }
                    if let Some(piece) = self.get_piece_at(q) {
                        if piece.get_player() == mover {
                            return Err(ChessErrors::PieceBetween(q));
                        }
                        seen = true;
                    }
                    pos = q;
                },
            }
            k = k + 1;
        }
        Err(ChessErrors::InvalidNotation)
    }
}

} // verus!

verus! {

/// Before it reaches the origin, the walk from `to` stays on the board and
/// meets only squares other than the origin.
proof fn lemma_ray_misses_origin(from: int, to: int, j: int)
    requires
        0 <= from < 64,
        0 <= to < 64,
        on_line(from, to),
        from != to,
        0 <= j < distance(from, to),
    ensures
        steps_from(to, toward(from, to), j) is Some,
        steps_from(to, toward(from, to), j) != Some(from as usize),
{
    lemma_line_on_board(from, to, j);
    let d = toward(from, to);
    let c = sq_col(to) + scale(j, dir_dx(d));
    let r = sq_row(to) + scale(j, dir_dy(d));
    lemma_index_parts(r, c);
    lemma_index_parts(sq_row(from), sq_col(from));
    assert(from == sq_row(from) * 8 + sq_col(from));
}

/// Once an enemy piece has been passed, the walk ends in a refusal.
proof fn lemma_path_seen(board: Seq<Option<GamePiece>>, mover: PLAYER, from: int, to: int, j: int)
    requires
        0 <= from < 64,
        0 <= to < 64,
        on_line(from, to),
        from != to,
        1 <= j <= distance(from, to),
    ensures
        path_verdict(board, mover, from, to, toward(from, to), j, true) is Err,
    decreases distance(from, to) - j,
{
    if j == distance(from, to) {
        lemma_line_on_board(from, to, j);
    } else {
        lemma_ray_misses_origin(from, to, j);
        lemma_path_seen(board, mover, from, to, j + 1);
    }
}

/// A piece on a square strictly between makes the walk refuse the move;
/// when that piece is the mover's, the refusal is `PieceBetween`, naming a
/// square of the mover's.
proof fn lemma_path_blocked(
    board: Seq<Option<GamePiece>>,
    mover: PLAYER,
    from: int,
    to: int,
    j: int,
    k: int,
    seen: bool,
)
    requires
        0 <= from < 64,
        0 <= to < 64,
        on_line(from, to),
        from != to,
        1 <= j <= k < distance(from, to),
        board[steps_from(to, toward(from, to), k)->0 as int] is Some,
    ensures
        path_verdict(board, mover, from, to, toward(from, to), j, seen) is Err,
        own(board, steps_from(to, toward(from, to), k)->0 as int, mover) ==> (path_verdict(
            board,
            mover,
            from,
            to,
            toward(from, to),
            j,
            seen,
        ) matches Err(ChessErrors::PieceBetween(s)) && own(board, s as int, mover)),
    decreases k - j,
{
    lemma_ray_misses_origin(from, to, j);
    if j < k {
        lemma_path_blocked(board, mover, from, to, j + 1, k, true);
        lemma_path_blocked(board, mover, from, to, j + 1, k, seen);
    } else {
        lemma_path_seen(board, mover, from, to, k + 1);
    }
}

/// With every square strictly between empty, the walk accepts the move.
proof fn lemma_path_clear(board: Seq<Option<GamePiece>>, mover: PLAYER, from: int, to: int, j: int)
    requires
        0 <= from < 64,
        0 <= to < 64,
        on_line(from, to),
        from != to,
        1 <= j <= distance(from, to),
        forall|m: int|
            j <= m < distance(from, to) ==> board[(#[trigger] steps_from(
                to,
                toward(from, to),
                m,
            ))->0 as int] is None,
    ensures
        path_verdict(board, mover, from, to, toward(from, to), j, false) == Ok::<(), ChessErrors>(()),
    decreases distance(from, to) - j,
{
    if j == distance(from, to) {
        lemma_line_on_board(from, to, j);
    } else {
        lemma_ray_misses_origin(from, to, j);
        lemma_path_clear(board, mover, from, to, j + 1);
    }
}

/// A rook, bishop or queen cannot pass over a piece of either side: when a
/// piece stands strictly between origin and destination, the move is
/// refused. When that piece is the mover's, and the move carries no
/// promotion letter and does not land on a piece of the mover's, the refusal
/// is `PieceBetween`, naming a square of the mover's.
pub proof fn lemma_slider_blocked(
    board: Seq<Option<GamePiece>>,
    ep: Seq<EnPassantCapture>,
    from: int,
    to: int,
    mover: PLAYER,
    promo: Option<Seq<char>>,
    k: int,
)
    requires
        board.len() == 64,
        0 <= from < 64,
        0 <= to < 64,
        on_line(from, to),
        own(board, from, mover),
        board[from]->0 is Rook || board[from]->0 is Bishop || board[from]->0 is Queen,
        1 <= k < distance(from, to),
        board[steps_from(to, toward(from, to), k)->0 as int] is Some,
        ep_capture(ep, from, to) is None,
    ensures
        move_verdict(board, ep, from, to, mover, promo) is Err,
        promo is None && !own(board, to, mover) && own(
            board,
            steps_from(to, toward(from, to), k)->0 as int,
            mover,
        ) ==> (move_verdict(board, ep, from, to, mover, promo) matches Err(
            ChessErrors::PieceBetween(s),
        ) && own(board, s as int, mover)),
{
    lemma_path_blocked(board, mover, from, to, 1, k, false);
}

/// A pawn's accepted move onto its last row, straight or capturing, is a
/// promotion, to the piece the letter names (a queen when there is none).
pub proof fn lemma_pawn_promotes(
    board: Seq<Option<GamePiece>>,
    ep: Seq<EnPassantCapture>,
    from: int,
    to: int,
    mover: PLAYER,
    promo: Option<Seq<char>>,
)
    requires
        board.len() == 64,
        0 <= from < 64,
        0 <= to < 64,
        own(board, from, mover),
        board[from]->0 is Pawn,
        sq_row(to) == last_row(mover),
        ep_capture(ep, from, to) is None,
        move_verdict(board, ep, from, to, mover, promo) is Ok,
    ensures
        move_verdict(board, ep, from, to, mover, promo) == Ok::<MoveType, ChessErrors>(
            MoveType::Promotion(promotion_glyph(mover, promo)),
        ),
{
}

/// A promotion letter that comes with a move other than one from the
/// mover's second-to-last row onto its last row is refused.
pub proof fn lemma_promotion_rank_required(
    board: Seq<Option<GamePiece>>,
    ep: Seq<EnPassantCapture>,
    from: int,
    to: int,
    mover: PLAYER,
    letter: Seq<char>,
)
    requires
        board.len() == 64,
        0 <= from < 64,
        0 <= to < 64,
        own(board, from, mover),
        !own(board, to, mover),
        !promotion_rank_ok(mover, from, to),
    ensures
        move_verdict(board, ep, from, to, mover, Some(letter)) == Err::<MoveType, ChessErrors>(
            ChessErrors::InvalidPromotion(to as usize),
        ),
{
}

/// A pawn that has not moved yet may advance one row, or two rows, when the
/// square it lands on and the one it crosses are empty.
pub proof fn lemma_pawn_first_advance(
    board: Seq<Option<GamePiece>>,
    ep: Seq<EnPassantCapture>,
    from: int,
    to: int,
    mover: PLAYER,
)
    requires
        board.len() == 64,
        0 <= from < 64,
        0 <= to < 64,
        board[from] == Some(GamePiece::Pawn(Pawn { player: mover, moved: false })),
        delta_x(from, to) == 0,
        delta_y(from, to) == (if mover == PLAYER::WHITE { 1int } else { -1int }) || delta_y(
            from,
            to,
        ) == (if mover == PLAYER::WHITE { 2int } else { -2int }),
        board[to] is None,
        abs(delta_y(from, to)) == 2 ==> board[(from + to) / 2] is None,
    ensures
        move_verdict(board, ep, from, to, mover, None) is Ok,
{
    let d = toward(from, to);
    lemma_index_parts(sq_row(from), sq_col(from));
    assert(from == sq_row(from) * 8 + sq_col(from));
    if abs(delta_y(from, to)) == 2 {
        lemma_line_on_board(from, to, 1);
        let s = steps_from(to, d, 1)->0 as int;
        lemma_index_parts(sq_row(to) + scale(1, dir_dy(d)), sq_col(to));
        assert(s == (from + to) / 2);
    }
    lemma_path_clear(board, mover, from, to, 1);
    assert(vertical_rule(board[from]->0, board, to, delta_y(from, to), None) is Ok);
}

/// A pawn that has made a move can no longer advance two rows or more: the
/// move marks it as moved, and from its new square such an advance is
/// refused.
pub proof fn lemma_moved_pawn_single_steps(
    board: Seq<Option<GamePiece>>,
    from: int,
    to: int,
    mt: MoveType,
    ep: Seq<EnPassantCapture>,
    to2: int,
    mover: PLAYER,
)
    requires
        board.len() == 64,
        0 <= from < 64,
        0 <= to < 64,
        0 <= to2 < 64,
        own(board, from, mover),
        board[from]->0 is Pawn,
        !(mt is Promotion),
        mt matches MoveType::Enpassant(i) ==> i < 64,
        delta_x(to, to2) == 0,
        abs(delta_y(to, to2)) >= 2,
        ep_capture(ep, to, to2) is None,
    ensures
        board_after(board, from, to, mt)[to]->0.moved(),
        move_verdict(board_after(board, from, to, mt), ep, to, to2, mover, None) is Err,
{
    let after = board_after(board, from, to, mt);
    assert(after[to] == Some(board[from]->0.with_moved()));
    assert(own(after, to, mover));
}

} // verus!
