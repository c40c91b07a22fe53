//! The outcome of an applied move: what moved, from where to where, and
//! whether the move was a plain move, a capture, an en-passant capture or a
//! castle. The history and status components consume these events; one is
//! produced per successfully applied move and never changed afterwards.

use vstd::prelude::*;

use crate::piece::{MoveRecord, Piece, PieceType};
use crate::square::Square;

verus! {

/// How a move altered the board. The capturing variants carry the identifier
/// of the captured piece.
#[derive(Clone, Copy, PartialEq, Eq, Structural, Debug)]
pub enum MoveType {
    Move,
    Take(u64),
    TakeEnPassant(u64),
    Castle,
}

/// One applied move: the moving piece as it was before the move, its origin
/// and destination, and the kind of move.
#[derive(Clone, Copy, PartialEq, Eq, Structural, Debug)]
pub struct MoveMadeEvent {
    pub piece: Piece,
    pub origin: Square,
    pub destination: Square,
    pub move_type: MoveType,
}

/// The event recorded a capture (normal or en passant).
pub open spec fn spec_is_take(ev: MoveMadeEvent) -> bool {
    ev.move_type is Take || ev.move_type is TakeEnPassant
}

/// The legality context this event supplies to the next move.
pub open spec fn spec_record_of(ev: MoveMadeEvent) -> MoveRecord {
    (ev.piece, ev.origin, ev.destination)
}

/// The move resets the fifty-move counter: a pawn moved or a capture was
/// recorded.
pub open spec fn spec_resets_counter(ev: MoveMadeEvent) -> bool {
    ev.piece.piece_type == PieceType::Pawn || spec_is_take(ev)
}

impl MoveMadeEvent {
    /// Builds the event for a non-castling move, classifying it as a plain
    /// move, a capture or an en-passant capture.
    pub fn not_castling(
        piece: Piece,
        origin: Square,
        destination: Square,
        taken: Option<u64>,
        en_passant: bool,
    ) -> (r: MoveMadeEvent)
        ensures
            r.piece == piece,
            r.origin == origin,
            r.destination == destination,
            r.move_type == match taken {
                Some(id) => if en_passant {
                    MoveType::TakeEnPassant(id)
                } else {
                    MoveType::Take(id)
                },
                None => MoveType::Move,
            },
    {
        let move_type = if let Some(id) = taken {
            if en_passant {
                MoveType::TakeEnPassant(id)
            } else {
                MoveType::Take(id)
            }
        } else {
            MoveType::Move
        };
        MoveMadeEvent { piece, destination, origin, move_type }
    }

    /// Builds the event for a castling move.
    pub fn castling(piece: Piece, origin: Square, destination: Square) -> (r: MoveMadeEvent)
        ensures
            r == (MoveMadeEvent { piece, origin, destination, move_type: MoveType::Castle }),
    {
        MoveMadeEvent { piece, destination, origin, move_type: MoveType::Castle }
    }

    /// The event recorded a capture (normal or en passant).
    pub fn is_take(&self) -> (r: bool)
        ensures
            r == spec_is_take(*self),
    {
        matches!(self.move_type, MoveType::Take(_) | MoveType::TakeEnPassant(_))
    }

    /// The legality context this event supplies to the next move.
    pub fn record(&self) -> (r: MoveRecord)
        ensures
            r == spec_record_of(*self),
    {
        (self.piece, self.origin, self.destination)
    }
}

/// The applied moves of the game so far, oldest first.
#[derive(Debug)]
pub struct MoveStack {
    pub stack: Vec<MoveMadeEvent>,
}

} // verus!
