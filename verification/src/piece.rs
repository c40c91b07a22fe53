use vstd::prelude::*;

use crate::square::Square;

verus! {

/// The two sides of the game.
#[derive(Clone, Copy, PartialEq, Eq, Structural, Debug)]
pub enum PieceColour {
    White,
    Black,
}

/// The side `colour` plays against.
pub open spec fn spec_opponent(colour: PieceColour) -> PieceColour {
    match colour {
        PieceColour::White => PieceColour::Black,
        PieceColour::Black => PieceColour::White,
    }
}

/// The direction pawns of `colour` advance, in ranks.
pub open spec fn spec_pawn_direction(colour: PieceColour) -> int {
    match colour {
        PieceColour::White => 1,
        PieceColour::Black => -1,
    }
}

impl PieceColour {
    /// The side this colour plays against.
    pub fn opponent(&self) -> (r: PieceColour)
        ensures
            r == spec_opponent(*self),
    {
        match self {
            PieceColour::White => PieceColour::Black,
            PieceColour::Black => PieceColour::White,
        }
    }

    /// Returns the standard direction of pawn movement for the colour (1 for
    /// `White`, -1 for `Black`).
    pub fn pawn_movement_direction(&self) -> (r: i8)
        ensures
            r as int == spec_pawn_direction(*self),
    {
        match self {
            PieceColour::White => 1,
            PieceColour::Black => -1,
        }
    }
}

/// The six kinds of chess piece.
#[derive(Clone, Copy, PartialEq, Eq, Structural, Debug)]
pub enum PieceType {
    King,
    Queen,
    Bishop,
    Knight,
    Rook,
    Pawn,
}

/// The letter of a piece type in algebraic notation; pawns have none.
pub open spec fn spec_type_letter(t: PieceType) -> Seq<char> {
    match t {
        PieceType::King => seq!['K'],
        PieceType::Queen => seq!['Q'],
        PieceType::Rook => seq!['R'],
        PieceType::Bishop => seq!['B'],
        PieceType::Knight => seq!['N'],
        PieceType::Pawn => Seq::empty(),
    }
}

impl PieceType {
    /// The single-letter notation symbol of the piece type; empty for pawns.
    pub fn notation_letter(&self) -> (r: String)
        ensures
            r@ == spec_type_letter(*self),
    {
        proof {
            reveal_strlit("K");
            reveal_strlit("Q");
            reveal_strlit("R");
            reveal_strlit("B");
            reveal_strlit("N");
            reveal_strlit("");
        }
        let s: &str = match self {
            PieceType::King => "K",
            PieceType::Queen => "Q",
            PieceType::Rook => "R",
            PieceType::Bishop => "B",
            PieceType::Knight => "N",
            PieceType::Pawn => "",
        };
        proof {
            assert(s@ =~= spec_type_letter(*self));
        }
        String::from_str(s)
    }
}

/// One piece on the board. The set of live pieces is the authoritative
/// position state; `has_moved` becomes true on the piece's first successful
/// move and legalizes pawn double-steps and castling while false.
#[derive(Clone, Copy, PartialEq, Eq, Structural, Debug)]
pub struct Piece {
    pub colour: PieceColour,
    pub piece_type: PieceType,
    pub pos: Square,
    pub has_moved: bool,
}

/// The context a legality query needs about the immediately preceding move:
/// the piece as it was before that move, its origin and its destination.
/// Required for en passant and for castling-path attack checks.
pub type MoveRecord = (Piece, Square, Square);

/// The squares a move record mentions all lie on the board.
pub open spec fn record_valid(rec: MoveRecord) -> bool {
    &&& rec.0.pos.spec_valid()
    &&& rec.1.spec_valid()
    &&& rec.2.spec_valid()
}

/// Lifts [`record_valid`] over an optional record.
pub open spec fn last_move_valid(last: Option<MoveRecord>) -> bool {
    match last {
        Some(rec) => record_valid(rec),
        None => true,
    }
}

/// Every piece of the sequence sits on an on-board square.
pub open spec fn all_positions_valid(pieces: Seq<Piece>) -> bool {
    forall|i: int| 0 <= i < pieces.len() ==> (#[trigger] pieces[i]).pos.spec_valid()
}

} // verus!
