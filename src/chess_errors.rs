use vstd::prelude::*;
use vstd::string::*;

use crate::chess_notation_utilities::{index_to_spot, spot_text};

verus! {

/// Why a move was refused. The `usize` carried by a variant is the board
/// index (row * 8 + column, rank 8 is row 0) of the square concerned.
#[derive(Clone, Copy, Debug, PartialEq, Eq, Structural)]
pub enum ChessErrors {
    InvalidNotation,
    WrongPlayer(usize),
    NoPiece(usize),
    PlayerPieceAlreadyThere(usize),
    PawnCantAttackForward(usize),
    PawnCanOnlyAttackDiagonal(usize),
    InvalidMove(usize),
    InvalidPromotion(usize),
    PieceBetween(usize),
}

/// Always fails with `InvalidNotation`; handy for exercising error paths.
pub fn try_error(value: i64) -> (r: Result<(), ChessErrors>)
    ensures
        r == Err::<(), ChessErrors>(ChessErrors::InvalidNotation),
{
    Err(ChessErrors::InvalidNotation)
}

/// The name of a board index, or `?` off the board.
pub open spec fn spot_label(i: usize) -> Seq<char> {
    if i < 64 {
        spot_text(i as int)
    } else {
        seq!['?']
    }
}

fn spot_label_of(i: usize) -> (r: String)
    ensures
        r@ == spot_label(i),
{
    if i < 64 {
        index_to_spot(i)
    } else {
        proof {
            reveal_strlit("?");
        }
        String::from_str("?")
    }
}

impl ChessErrors {
    /// The text shown to a player.
    pub open spec fn text(self) -> Seq<char> {
        match self {
            ChessErrors::InvalidNotation => "invalid chess notation"@,
            ChessErrors::WrongPlayer(i) => "wrong player at "@ + spot_label(i),
            ChessErrors::NoPiece(i) => "no piece at "@ + spot_label(i),
            ChessErrors::PlayerPieceAlreadyThere(i) => "you have a piece at "@ + spot_label(i),
            ChessErrors::PawnCantAttackForward(i) => "pawn cant attack piece at "@ + spot_label(i),
            ChessErrors::PawnCanOnlyAttackDiagonal(i) => "pawn can only move diagonally to capture at "@
                + spot_label(i),
            ChessErrors::InvalidMove(i) => "piece cannot move to "@ + spot_label(i),
            ChessErrors::InvalidPromotion(i) => "invalid promotion at "@ + spot_label(i),
            ChessErrors::PieceBetween(i) => "a piece of yours is in the way at "@ + spot_label(i),
        }
    }

    pub fn message(&self) -> (r: String)
        ensures
            r@ == self.text(),
    {
        let (prefix, at) = match self {
            ChessErrors::InvalidNotation => {
                return String::from_str("invalid chess notation");
            },
            ChessErrors::WrongPlayer(i) => ("wrong player at ", *i),
            ChessErrors::NoPiece(i) => ("no piece at ", *i),
            ChessErrors::PlayerPieceAlreadyThere(i) => ("you have a piece at ", *i),
            ChessErrors::PawnCantAttackForward(i) => ("pawn cant attack piece at ", *i),
            ChessErrors::PawnCanOnlyAttackDiagonal(i) => (
                "pawn can only move diagonally to capture at ",
                *i,
            ),
            ChessErrors::InvalidMove(i) => ("piece cannot move to ", *i),
            ChessErrors::InvalidPromotion(i) => ("invalid promotion at ", *i),
            ChessErrors::PieceBetween(i) => ("a piece of yours is in the way at ", *i),
        };
        let label = spot_label_of(at);
        String::from_str(prefix).concat(label.as_str())
    }
}

} // verus!
