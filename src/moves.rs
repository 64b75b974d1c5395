use vstd::prelude::*;

use crate::chess_notation_utilities::{index_to_spot, spot_text, sq_col, sq_row};
use crate::rules::{abs, move_verdict, own};
use crate::visual::{GamePiece, GameState, Position, PLAYER};
use vstd::arithmetic::div_mod::lemma_fundamental_div_mod_converse;

verus! {

/// Squares a piece on `from` could reach on an empty board, ignoring what
/// stands anywhere: a pawn one or two rows forward or one diagonally
/// forward; a knight's jump; any square on the piece's lines for rook,
/// bishop and queen; an adjacent square for the king.
pub open spec fn reachable(piece: GamePiece, from: int, to: int) -> bool {
    let dx = sq_col(to) - sq_col(from);
    let dy = sq_row(to) - sq_row(from);
    &&& from != to
    &&& match piece {
        GamePiece::Pawn(p) => {
            let fwd = if p.player == PLAYER::WHITE { -1int } else { 1int };
            (dx == 0 && (dy == fwd || dy == 2 * fwd)) || (abs(dx) == 1 && dy == fwd)
        },
        GamePiece::Knight(_) => (abs(dx) == 1 && abs(dy) == 2) || (abs(dx) == 2 && abs(dy) == 1),
        GamePiece::Rook(_) => dx == 0 || dy == 0,
        GamePiece::Bishop(_) => abs(dx) == abs(dy),
        GamePiece::Queen(_) => dx == 0 || dy == 0 || abs(dx) == abs(dy),
        GamePiece::King(_) => abs(dx) <= 1 && abs(dy) <= 1,
    }
}

/// Destinations below index `n` that the piece on `from` could reach, in
/// increasing order.
pub open spec fn reach_list(piece: GamePiece, from: int, n: int) -> Seq<usize>
    decreases n,
{
    if n <= 0 {
        Seq::empty()
    } else {
        reach_list(piece, from, n - 1) + if reachable(piece, from, n - 1) {
            seq![(n - 1) as usize]
        } else {
            Seq::empty()
        }
    }
}

/// A move of `player` from `f` to `d` that the generator lists; with
/// `validated`, only one that the rules accept (without a promotion letter).
pub open spec fn listed(pos: Position, player: PLAYER, validated: bool, f: int, d: int) -> bool {
    &&& own(pos.board, f, player)
    &&& reachable(pos.board[f]->0, f, d)
    &&& validated ==> move_verdict(pos.board, pos.en_passant, f, d, player, None) is Ok
}

/// The listed moves `(from, to)` whose code `from * 64 + to` is below `n`,
/// in increasing order of that code.
pub open spec fn listed_upto(pos: Position, player: PLAYER, validated: bool, n: int) -> Seq<
    (usize, usize),
>
    decreases n,
{
    if n <= 0 {
        Seq::empty()
    } else {
        let f = (n - 1) / 64;
        let d = (n - 1) % 64;
        listed_upto(pos, player, validated, n - 1) + if listed(pos, player, validated, f, d) {
            seq![(f as usize, d as usize)]
        } else {
            Seq::empty()
        }
    }
}

pub open spec fn move_text(from: int, to: int) -> Seq<char> {
    spot_text(from) + seq!['-'] + spot_text(to)
}

pub open spec fn move_texts(pairs: Seq<(usize, usize)>) -> Seq<Seq<char>> {
    pairs.map_values(|p: (usize, usize)| move_text(p.0 as int, p.1 as int))
}

pub open spec fn texts_of(v: Seq<String>) -> Seq<Seq<char>> {
    v.map_values(|s: String| s@)
}

/// The move `from`-`to` written as `e2-e4`.
pub fn move_string(from: usize, to: usize) -> (r: String)
    requires
        from < 64,
        to < 64,
    ensures
        r@ == move_text(from as int, to as int),
{
    let dash = "-";
    proof {
        reveal_strlit("-");
    }
    let s = index_to_spot(from).concat(dash);
    let t = index_to_spot(to);
    let r = s.concat(t.as_str());
    assert(r@ =~= move_text(from as int, to as int));
    r
}

impl GamePiece {
    pub fn can_reach(&self, from: usize, to: usize) -> (r: bool)
        requires
            from < 64,
            to < 64,
        ensures
            r == reachable(*self, from as int, to as int),
    {
        let (fc, fr, tc, tr) = ((from % 8) as i8, (from / 8) as i8, (to % 8) as i8, (to / 8) as i8);
        let dx = tc - fc;
        let dy = tr - fr;
        let adx = if dx < 0 { -dx } else { dx };
        let ady = if dy < 0 { -dy } else { dy };
        if from == to {
            return false;
        }
        match self {
            GamePiece::Pawn(p) => {
                let fwd: i8 = if p.player == PLAYER::WHITE { -1 } else { 1 };
                (dx == 0 && (dy == fwd || dy == 2 * fwd)) || (adx == 1 && dy == fwd)
            },
            GamePiece::Knight(_) => (adx == 1 && ady == 2) || (adx == 2 && ady == 1),
            GamePiece::Rook(_) => dx == 0 || dy == 0,
            GamePiece::Bishop(_) => adx == ady,
            GamePiece::Queen(_) => dx == 0 || dy == 0 || adx == ady,
            GamePiece::King(_) => adx <= 1 && ady <= 1,
        }
    }

    /// Every destination the piece on `from` could reach on an empty board,
    /// in increasing order of board index.
    pub fn get_unvalidated_moves(&self, from: usize) -> (r: Vec<usize>)
        requires
            from < 64,
        ensures
            r@ == reach_list(*self, from as int, 64),
    {
        let mut out: Vec<usize> = Vec::new();
        let mut d: usize = 0;
        while d < 64
            invariant
                from < 64,
                d <= 64,
                out@ == reach_list(*self, from as int, d as int),
            decreases 64 - d,
        {
            if self.can_reach(from, d) {
                out.push(d);
            }
            d = d + 1;
        }
        out
    }
}

/// The list up to code `f * 64 + d + 1` adds at most the move `f`-`d`.
proof fn lemma_listed_step(pos: Position, player: PLAYER, validated: bool, f: int, d: int)
    requires
        0 <= f < 64,
        0 <= d < 64,
    ensures
        move_texts(listed_upto(pos, player, validated, f * 64 + d + 1)) =~= move_texts(
            listed_upto(pos, player, validated, f * 64 + d),
        ) + if listed(pos, player, validated, f, d) {
            seq![move_text(f, d)]
        } else {
            Seq::empty()
        },
{
    lemma_fundamental_div_mod_converse(f * 64 + d, 64, f, d);
}

impl GameState {
    fn is_listed(&self, player: PLAYER, validated: bool, f: usize, d: usize) -> (r: bool)
        requires
            self@.wf(),
            f < 64,
            d < 64,
        ensures
            r == listed(self@, player, validated, f as int, d as int),
    {
        if let Some(piece) = self.get_piece_at(f) {
            if piece.get_player() == player && piece.can_reach(f, d) {
                return !validated || self.validate_move(f, d, player, None).is_ok();
            }
        }
        false
    }

    /// The moves of `player` that the generator lists, written `e2-e4`: every
    /// geometrically reachable destination of each of the player's pieces,
    /// and with `validated` only those the rules accept.
    pub fn list_moves(&self, player: PLAYER, validated: bool) -> (r: Vec<String>)
        requires
            self@.wf(),
        ensures
            texts_of(r@) == move_texts(listed_upto(self@, player, validated, 4096)),
    {
        let mut out: Vec<String> = Vec::new();
        let mut f: usize = 0;
        while f < 64
            invariant
                self@.wf(),
                f <= 64,
                texts_of(out@) == move_texts(listed_upto(self@, player, validated, f * 64)),
            decreases 64 - f,
        {
            let mut d: usize = 0;
            while d < 64
                invariant
                    self@.wf(),
                    f < 64,
                    d <= 64,
                    texts_of(out@) == move_texts(
                        listed_upto(self@, player, validated, f * 64 + d),
                    ),
                decreases 64 - d,
            {
                proof {
                    lemma_listed_step(self@, player, validated, f as int, d as int);
                }
                if self.is_listed(player, validated, f, d) {
                    let ghost before = out@;
                    out.push(move_string(f, d));
                    assert(texts_of(out@) =~= texts_of(before) + seq![move_text(f as int, d as int)]);
                }
                d = d + 1;
            }
            f = f + 1;
        }
        out
    }

    /// Every geometrically reachable move of `player`'s pieces, written
    /// `e2-e4`, whatever stands in the way.
    pub fn get_unvalidated_moves(&self, player: PLAYER) -> (r: Vec<String>)
        requires
            self@.wf(),
        ensures
            texts_of(r@) == move_texts(listed_upto(self@, player, false, 4096)),
    {
        self.list_moves(player, false)
    }
}

} // verus!
