//! A verified chess rules engine.
//!
//! The crate models a chess position as a flat list of [`piece::Piece`]
//! records, generates and checks legal moves (including castling, en passant,
//! pawn double-steps and promotion eligibility), applies moves atomically to a
//! [`game::Game`] aggregate, derives the game status (check, checkmate,
//! stalemate, fifty-move draw) and renders disambiguated algebraic notation
//! for the move history.

pub mod error;
pub mod game;
pub mod event;
pub mod laws;
pub mod legal;
pub mod model;
pub mod notation;
pub mod piece;
pub mod rules;
pub mod square;
pub mod status;

pub use error::MoveError;
pub use event::{MoveMadeEvent, MoveStack, MoveType};
pub use game::{Game, MoveHistory};
pub use piece::{MoveRecord, Piece, PieceColour, PieceType};
pub use square::Square;
pub use status::{DrawReason, GameStatus, PlayerTurn};
