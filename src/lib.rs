//! A chess rules engine: square notation, the movement rules of each kind
//! of piece, a board with its en-passant state, a validator that decides
//! whether a move is legal and how it is carried out, and a move generator.
//! Check, checkmate and castling are outside its scope.

pub mod chess_errors;
pub mod chess_notation_utilities;
pub mod visual;
pub mod rules;
pub mod game;
pub mod moves;
