use vstd::prelude::*;
use vstd::string::*;

use crate::chess_errors::ChessErrors;
use crate::chess_notation_utilities::{is_spot, notation_to_index, spot_index, sq_col, sq_row};
use crate::moves::{listed_upto, move_texts, texts_of};
use crate::rules::{en_passant_after, ep_capture, move_verdict, own, pawn_of, promo_view};
use crate::visual::{
    board_after, opponent, start_board, EnPassantCapture, GamePiece, GameState, MoveType, Position,
    PLAYER,
};

verus! {

/// What `str::to_lowercase` makes of a text.
pub uninterp spec fn lower_of(s: Seq<char>) -> Seq<char>;

/// Relies on `str::to_lowercase`: its result depends on the characters of
/// the text alone.
#[verifier::external_body]
fn lowercase(s: &str) -> (r: String)
    ensures
        r@ == lower_of(s@),
{
    s.to_lowercase()
}

/// Reads `<from>-<to>` followed by an optional promotion letter, which may
/// be marked by a leading `p` (`e7-e8q`, `e7-e8pq`). Gives the two board
/// indices and the promotion letter, if any text follows the destination.
pub open spec fn move_parts(text: Seq<char>) -> Option<(int, int, Option<Seq<char>>)> {
    if text.len() >= 5 && text[2] == '-' && is_spot(text.subrange(0, 2)) && is_spot(
        text.subrange(3, 5),
    ) {
        let rest = text.subrange(5, text.len() as int);
        let promo = if rest.len() == 0 {
            None
        } else if rest[0] == 'p' {
            Some(rest.drop_first())
        } else {
            Some(rest)
        };
        Some((spot_index(text.subrange(0, 2)), spot_index(text.subrange(3, 5)), promo))
    } else {
        None
    }
}

/// The position after the accepted move `from`-`to` with outcome `mt`: the
/// pieces move, and the open captures en passant are those the move opens.
pub open spec fn apply_move(pos: Position, from: int, to: int, mt: MoveType) -> Position {
    Position {
        board: board_after(pos.board, from, to, mt),
        player_turn: pos.player_turn,
        en_passant: if mt is Enpassant {
            Seq::empty()
        } else {
            en_passant_after(pos.board, from, to)
        },
    }
}

/// The position after `mover` plays the move written `text`, or why it is
/// refused. The turn does not pass here.
pub open spec fn play(pos: Position, text: Seq<char>, mover: PLAYER) -> Result<Position, ChessErrors> {
    match move_parts(text) {
        None => Err(ChessErrors::InvalidNotation),
        Some((from, to, promo)) => match move_verdict(
            pos.board,
            pos.en_passant,
            from,
            to,
            mover,
            promo,
        ) {
            Err(e) => Err(e),
            Ok(mt) => Ok(apply_move(pos, from, to, mt)),
        },
    }
}

/// `r` and the game after it are what `play` gives; a refused move changes
/// nothing.
pub open spec fn played(
    before: Position,
    after: Position,
    text: Seq<char>,
    mover: PLAYER,
    r: Result<(), ChessErrors>,
) -> bool {
    match play(before, text, mover) {
        Ok(p) => r is Ok && after == p,
        Err(e) => r == Err::<(), ChessErrors>(e) && after == before,
    }
}

pub open spec fn start_position() -> Position {
    Position { board: start_board(), player_turn: PLAYER::WHITE, en_passant: Seq::empty() }
}

/// The position after the moves in turn, each played by the side to move;
/// a refused move is skipped and the same side moves again.
pub open spec fn replay(pos: Position, moves: Seq<Seq<char>>) -> Position
    decreases moves.len(),
{
    if moves.len() == 0 {
        pos
    } else {
        let prev = replay(pos, moves.drop_last());
        match play(prev, moves.last(), prev.player_turn) {
            Ok(p) => Position { player_turn: opponent(p.player_turn), ..p },
            Err(_) => prev,
        }
    }
}

proof fn lemma_ep_capture_on_board(ep: Seq<EnPassantCapture>, from: int, to: int)
    requires
        forall|k: int| 0 <= k < ep.len() ==> (#[trigger] ep[k]).captured < 64,
    ensures
        ep_capture(ep, from, to) matches Some(c) ==> c < 64,
    decreases ep.len(),
{
    if ep.len() > 0 {
        let rest = ep.drop_first();
        assert forall|k: int| 0 <= k < rest.len() implies (#[trigger] rest[k]).captured < 64 by {
            assert(rest[k] == ep[k + 1]);
        }
        lemma_ep_capture_on_board(rest, from, to);
    }
}

/// A game: the position, and the moves entered so far.
pub struct Game {
    pub state: GameState,
    pub turn_history: Vec<String>,
}

impl Default for Game {
    /// A game at the standard start position, with no moves yet.
    fn default() -> (r: Game)
        ensures
            r.state@ == start_position(),
            r.turn_history@.len() == 0,
    {
        let state = GameState::default();
        assert(state@ == start_position()) by {
            assert(state@.en_passant =~= Seq::<EnPassantCapture>::empty());
        }
        Game { state, turn_history: Vec::new() }
    }
}

impl Game {
    /// Replays `turn_history` from the start position. Each move is played
    /// by the side to move; the turn passes only when the move is accepted.
    /// Every entry is kept in the history, accepted or not.
    pub fn game_from_turn_history(turn_history: &[&str]) -> (r: Game)
        ensures
            r.state@.wf(),
            r.state@ == replay(
                start_position(),
                turn_history@.map_values(|t: &str| lower_of(t@)),
            ),
            r.turn_history@.len() == turn_history@.len(),
            forall|i: int|
                0 <= i < turn_history@.len() ==> (#[trigger] r.turn_history@[i])@
                    == turn_history@[i]@,
    {
        let mut chess_game = Game::default();
        let ghost moves = turn_history@.map_values(|t: &str| lower_of(t@));
        let mut i: usize = 0;
        assert(moves.take(0) =~= Seq::<Seq<char>>::empty());
        while i < turn_history.len()
            invariant
                i <= turn_history@.len(),
                moves == turn_history@.map_values(|t: &str| lower_of(t@)),
                chess_game.state@.wf(),
                chess_game.state@ == replay(start_position(), moves.take(i as int)),
                chess_game.turn_history@.len() == i,
                forall|j: int|
                    0 <= j < i ==> (#[trigger] chess_game.turn_history@[j])@
                        == turn_history@[j]@,
            decreases turn_history@.len() - i,
        {
            let turn: &str = turn_history[i];
            chess_game.turn_history.push(String::from_str(turn));
            let mover = chess_game.state.player_turn;
            let ghost before = chess_game.state@;
            let outcome = chess_game.move_piece(turn, mover);
            if outcome.is_ok() {
                chess_game.state.player_turn = match mover {
                    PLAYER::WHITE => PLAYER::BLACK,
                    PLAYER::BLACK => PLAYER::WHITE,
                };
            }
            proof {
                let next = moves.take(i + 1);
                assert(next.drop_last() =~= moves.take(i as int));
                assert(next.last() == lower_of(turn@));
            }
            i = i + 1;
        }
        assert(moves.take(turn_history@.len() as int) =~= moves);
        chess_game
    }

    /// Plays `the_move`, already in lower case, for `whos_turn`: validates
    /// it, opens or closes captures en passant, and moves the pieces.
    pub fn play_move(&mut self, the_move: &str, whos_turn: PLAYER) -> (r: Result<(), ChessErrors>)
        requires
            old(self).state@.wf(),
        ensures
            final(self).state@.wf(),
            played(old(self).state@, final(self).state@, the_move@, whos_turn, r),
            final(self).turn_history@ == old(self).turn_history@,
    {
        let len = the_move.unicode_len();
        if len < 5 || the_move.get_char(2) != '-' {
            return Err(ChessErrors::InvalidNotation);
        }
        let from_spot = the_move.substring_char(0, 2);
        let to_spot = the_move.substring_char(3, 5);
        let from = match notation_to_index(from_spot) {
            Ok(i) => i,
            Err(e) => return Err(e),
        };
        let to = match notation_to_index(to_spot) {
            Ok(i) => i,
            Err(e) => return Err(e),
        };
        let rest = the_move.substring_char(5, len);
        let promotion = if len == 5 {
            None
        } else if rest.get_char(0) == 'p' {
            Some(rest.substring_char(1, len - 5))
        } else {
            Some(rest)
        };
        proof {
            let text = the_move@;
            assert(text.subrange(5, text.len() as int).drop_first() =~= text.subrange(
                5,
                text.len() as int,
            ).subrange(1, len - 5));
            let (_, _, promo) = move_parts(text)->0;
            assert(promo_view(promotion) == promo);
        }
        let move_type = self.state.validate_move(from, to, whos_turn, promotion)?;
        proof {
            lemma_ep_capture_on_board(self.state@.en_passant, from as int, to as int);
        }
        self.state.check_en_passant(from, to);
        self.state.move_piece(from, to, promotion, move_type);
        Ok(())
    }

    /// Plays the move written `chess_move` (any case) for `whos_turn`.
    pub fn move_piece(&mut self, chess_move: &str, whos_turn: PLAYER) -> (r: Result<
        (),
        ChessErrors,
    >)
        requires
            old(self).state@.wf(),
        ensures
            final(self).state@.wf(),
            played(old(self).state@, final(self).state@, lower_of(chess_move@), whos_turn, r),
            final(self).turn_history@ == old(self).turn_history@,
    {
        let the_move = lowercase(chess_move);
        self.play_move(the_move.as_str(), whos_turn)
    }

    /// The moves of `player` that the rules accept, written `e2-e4`, in
    /// increasing order of origin and then destination index.
    pub fn get_validated_moves(&self, player: PLAYER) -> (r: Vec<String>)
        requires
            self.state@.wf(),
        ensures
            texts_of(r@) == move_texts(listed_upto(self.state@, player, true, 4096)),
    {
        self.state.list_moves(player, true)
    }

    /// Validates the move `from_spot`-`to_spot` for `whos_turn` without
    /// making it.
    pub fn is_move_valid(
        &self,
        from_spot: &str,
        to_spot: &str,
        whos_turn: PLAYER,
        promotion_opt: Option<&str>,
    ) -> (r: Result<MoveType, ChessErrors>)
        requires
            self.state@.wf(),
        ensures
            r == (if is_spot(from_spot@) && is_spot(to_spot@) {
                move_verdict(
                    self.state@.board,
                    self.state@.en_passant,
                    spot_index(from_spot@),
                    spot_index(to_spot@),
                    whos_turn,
                    promo_view(promotion_opt),
                )
            } else {
                Err(ChessErrors::InvalidNotation)
            }),
    {
        let from = notation_to_index(from_spot)?;
        let to = notation_to_index(to_spot)?;
        self.state.validate_move(from, to, whos_turn, promotion_opt)
    }
}

} // verus!

verus! {

/// The lookup of an open capture en passant finds `e` when `e` is listed and
/// no other listed capture has the same origin and destination.
proof fn lemma_ep_capture_finds(ep: Seq<EnPassantCapture>, e: EnPassantCapture)
    requires
        ep.contains(e),
        forall|k: int|
            0 <= k < ep.len() && (#[trigger] ep[k]).from == e.from && ep[k].to == e.to ==> ep[k]
                == e,
    ensures
        ep_capture(ep, e.from as int, e.to as int) == Some(e.captured),
    decreases ep.len(),
{
    if ep[0] != e {
        let rest = ep.drop_first();
        let k = choose|k: int| 0 <= k < ep.len() && ep[k] == e;
        assert(rest[k - 1] == e);
        assert forall|j: int|
            0 <= j < rest.len() && (#[trigger] rest[j]).from == e.from && rest[j].to
                == e.to implies rest[j] == e by {
            assert(rest[j] == ep[j + 1]);
        }
        assert(rest.contains(e));
        lemma_ep_capture_finds(rest, e);
    }
}

/// After a pawn's straight two-row advance from its start row, an enemy
/// pawn beside the destination gets exactly one capture en passant: onto
/// the square the pawn passed over, taking that pawn.
pub proof fn lemma_double_step_opens_capture(
    board: Seq<Option<GamePiece>>,
    from: int,
    to: int,
    side: int,
)
    requires
        board.len() == 64,
        0 <= from < 64,
        0 <= to < 64,
        board[from] is Some,
        board[from]->0 is Pawn,
        sq_col(from) == sq_col(to),
        (board[from]->0.player() == PLAYER::WHITE && sq_row(from) == 6 && sq_row(to) == 4) || (
        board[from]->0.player() == PLAYER::BLACK && sq_row(from) == 1 && sq_row(to) == 3),
        side == -1 || side == 1,
        0 <= sq_col(to) + side < 8,
        pawn_of(board, to + side, opponent(board[from]->0.player())),
    ensures
        ({
            let ep = en_passant_after(board, from, to);
            let behind = if board[from]->0.player() == PLAYER::WHITE {
                to + 8
            } else {
                to - 8
            };
            let e = EnPassantCapture {
                from: (to + side) as usize,
                to: behind as usize,
                captured: to as usize,
            };
            &&& ep.contains(e)
            &&& forall|k: int|
                0 <= k < ep.len() && (#[trigger] ep[k]).from == (to + side) as usize ==> ep[k]
                    == e
        }),
{
    let ep = en_passant_after(board, from, to);
    let behind = if board[from]->0.player() == PLAYER::WHITE {
        to + 8
    } else {
        to - 8
    };
    let e = EnPassantCapture { from: (to + side) as usize, to: behind as usize, captured: to as usize };
    if side == -1 {
        assert(ep[0] == e);
    } else {
        assert(ep[ep.len() - 1] == e);
    }
}

/// Making an open capture en passant takes the pawn that passed, and leaves
/// no capture en passant open.
pub proof fn lemma_en_passant_taken(pos: Position, e: EnPassantCapture, mover: PLAYER)
    requires
        pos.wf(),
        pos.en_passant.contains(e),
        forall|k: int|
            0 <= k < pos.en_passant.len() && (#[trigger] pos.en_passant[k]).from == e.from
                && pos.en_passant[k].to == e.to ==> pos.en_passant[k] == e,
        own(pos.board, e.from as int, mover),
        !own(pos.board, e.to as int, mover),
        e.captured != e.to,
    ensures
        move_verdict(pos.board, pos.en_passant, e.from as int, e.to as int, mover, None) == Ok::<
            MoveType,
            ChessErrors,
        >(MoveType::Enpassant(e.captured)),
        apply_move(pos, e.from as int, e.to as int, MoveType::Enpassant(e.captured)).board[e.captured as int]
            is None,
        apply_move(pos, e.from as int, e.to as int, MoveType::Enpassant(e.captured)).en_passant.len()
            == 0,
{
    lemma_ep_capture_finds(pos.en_passant, e);
    let k = choose|k: int| 0 <= k < pos.en_passant.len() && pos.en_passant[k] == e;
    assert(e.captured < 64 && e.from < 64 && e.to < 64) by {
        assert(pos.en_passant[k] == e);
    }
}

/// After any move, the captures en passant open are only those that take
/// the piece just moved: none opened before stays open.
pub proof fn lemma_stale_captures_closed(pos: Position, from: int, to: int, mt: MoveType)
    requires
        pos.wf(),
        0 <= from < 64,
        0 <= to < 64,
    ensures
        forall|k: int|
            0 <= k < apply_move(pos, from, to, mt).en_passant.len() ==> (#[trigger] apply_move(
                pos,
                from,
                to,
                mt,
            ).en_passant[k]).captured == to,
{
}

} // verus!
