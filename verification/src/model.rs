//! The mathematical model of the rules: occupancy, path clearance, move
//! patterns, piece-specific validity, castling, en passant, check simulation
//! and full legality, all as spec functions over `Seq<Piece>`.
//!
//! Two predicates are deliberately kept distinct (see the glossary of chess
//! terms): a *valid* move ([`spec_move_valid`]) is structurally correct per
//! piece-movement rules and path clearance; a *legal* move
//! ([`spec_legal_move`]) additionally does not leave the mover's own king in
//! check. Check detection uses validity, not legality, which keeps the
//! definitions well-founded (no mutual recursion between check detection and
//! legality).

use vstd::prelude::*;

use crate::piece::{
    spec_opponent, spec_pawn_direction, MoveRecord, Piece, PieceColour, PieceType,
};
use crate::square::{abs_diff, Square};

verus! {

// ------------------------------------------------------------------
// Occupancy
// ------------------------------------------------------------------

/// The index of the first piece that sits on `sq`, or `None` when the square
/// is empty.
pub open spec fn index_at(pieces: Seq<Piece>, sq: Square) -> Option<int>
    decreases pieces.len(),
{
    if pieces.len() <= 0 {
        None
    } else if pieces[0].pos == sq {
        Some(0int)
    } else {
        match index_at(pieces.drop_first(), sq) {
            Some(i) => Some(i + 1),
            None => None,
        }
    }
}

/// The colour of the first piece that sits on `sq`, if any.
pub open spec fn occupied_by(pieces: Seq<Piece>, sq: Square) -> Option<PieceColour> {
    match index_at(pieces, sq) {
        Some(i) => Some(pieces[i].colour),
        None => None,
    }
}

/// What [`index_at`] returns: the first index whose piece sits on `sq`, and
/// `None` exactly when no piece does.
pub proof fn lemma_index_at_props(pieces: Seq<Piece>, sq: Square)
    ensures
        match index_at(pieces, sq) {
            Some(i) => 0 <= i < pieces.len() && pieces[i].pos == sq && (forall|j: int|
                0 <= j < i ==> (#[trigger] pieces[j]).pos != sq),
            None => forall|j: int| 0 <= j < pieces.len() ==> (#[trigger] pieces[j]).pos != sq,
        },
    decreases pieces.len(),
{
    if pieces.len() > 0 && pieces[0].pos != sq {
        lemma_index_at_props(pieces.drop_first(), sq);
        match index_at(pieces.drop_first(), sq) {
            Some(i) => {
                assert(pieces.drop_first()[i] == pieces[i + 1]);
                assert forall|j: int| 0 <= j < i + 1 implies (#[trigger] pieces[j]).pos
                    != sq by {
                    if j >= 1 {
                        assert(pieces.drop_first()[j - 1] == pieces[j]);
                    }
                }
            },
            None => {
                assert forall|j: int| 0 <= j < pieces.len() implies (#[trigger] pieces[j]).pos
                    != sq by {
                    if j >= 1 {
                        assert(pieces.drop_first()[j - 1] == pieces[j]);
                    }
                }
            },
        }
    }
}

/// The index of the first king of `colour`, or `None` when that side has no
/// king on the board.
pub open spec fn king_index(pieces: Seq<Piece>, colour: PieceColour) -> Option<int>
    decreases pieces.len(),
{
    if pieces.len() <= 0 {
        None
    } else if pieces[0].colour == colour && pieces[0].piece_type == PieceType::King {
        Some(0int)
    } else {
        match king_index(pieces.drop_first(), colour) {
            Some(i) => Some(i + 1),
            None => None,
        }
    }
}

/// What [`king_index`] returns: the first index holding a king of `colour`,
/// and `None` exactly when there is none.
pub proof fn lemma_king_index_props(pieces: Seq<Piece>, colour: PieceColour)
    ensures
        match king_index(pieces, colour) {
            Some(i) => 0 <= i < pieces.len() && pieces[i].colour == colour
                && pieces[i].piece_type == PieceType::King && (forall|j: int|
                0 <= j < i ==> !((#[trigger] pieces[j]).colour == colour
                    && pieces[j].piece_type == PieceType::King)),
            None => forall|j: int|
                0 <= j < pieces.len() ==> !((#[trigger] pieces[j]).colour == colour
                    && pieces[j].piece_type == PieceType::King),
        },
    decreases pieces.len(),
{
    if pieces.len() > 0 && !(pieces[0].colour == colour && pieces[0].piece_type
        == PieceType::King) {
        lemma_king_index_props(pieces.drop_first(), colour);
        match king_index(pieces.drop_first(), colour) {
            Some(i) => {
                assert(pieces.drop_first()[i] == pieces[i + 1]);
                assert forall|j: int| 0 <= j < i + 1 implies !((#[trigger] pieces[j]).colour
                    == colour && pieces[j].piece_type == PieceType::King) by {
                    if j >= 1 {
                        assert(pieces.drop_first()[j - 1] == pieces[j]);
                    }
                }
            },
            None => {
                assert forall|j: int| 0 <= j < pieces.len() implies !((#[trigger] pieces[j]).colour
                    == colour && pieces[j].piece_type == PieceType::King) by {
                    if j >= 1 {
                        assert(pieces.drop_first()[j - 1] == pieces[j]);
                    }
                }
            },
        }
    }
}

// ------------------------------------------------------------------
// Path clearance
// ------------------------------------------------------------------

/// `x` lies strictly between `a` and `b`, in either order.
pub open spec fn strictly_between(a: int, x: int, b: int) -> bool {
    (a < x && x < b) || (b < x && x < a)
}

/// No piece stands on the same rank strictly between the two files.
pub open spec fn rank_path_clear(pieces: Seq<Piece>, begin: Square, end: Square) -> bool {
    forall|i: int|
        0 <= i < pieces.len() ==> !((#[trigger] pieces[i]).pos.rank == begin.rank
            && strictly_between(begin.file as int, pieces[i].pos.file as int, end.file as int))
}

/// No piece stands on the same file strictly between the two ranks.
pub open spec fn file_path_clear(pieces: Seq<Piece>, begin: Square, end: Square) -> bool {
    forall|i: int|
        0 <= i < pieces.len() ==> !((#[trigger] pieces[i]).pos.file == begin.file
            && strictly_between(begin.rank as int, pieces[i].pos.rank as int, end.rank as int))
}

/// The `i`-th square of the diagonal from `begin` towards `end`.
pub open spec fn diag_square(begin: Square, end: Square, i: int) -> Square {
    Square {
        rank: (begin.rank + if end.rank > begin.rank {
            i
        } else {
            -i
        }) as i8,
        file: (begin.file + if end.file > begin.file {
            i
        } else {
            -i
        }) as i8,
    }
}

/// Every square strictly between the two ends of the diagonal is empty.
pub open spec fn diagonal_path_clear(pieces: Seq<Piece>, begin: Square, end: Square) -> bool {
    forall|i: int|
        1 <= i < abs_diff(begin.rank as int, end.rank as int) ==> occupied_by(
            pieces,
            #[trigger] diag_square(begin, end, i),
        ) is None
}

/// No piece stands strictly between `begin` and `end` along their shared
/// rank, file or diagonal. Squares that share none of the three are treated
/// as having a clear path, as the rules apply this test only after a pattern
/// match.
pub open spec fn path_clear(pieces: Seq<Piece>, begin: Square, end: Square) -> bool {
    if begin.rank == end.rank {
        rank_path_clear(pieces, begin, end)
    } else if begin.file == end.file {
        file_path_clear(pieces, begin, end)
    } else if abs_diff(begin.rank as int, end.rank as int) == abs_diff(
        begin.file as int,
        end.file as int,
    ) {
        diagonal_path_clear(pieces, begin, end)
    } else {
        true
    }
}

// ------------------------------------------------------------------
// Move patterns
// ------------------------------------------------------------------

/// `dest` belongs to the maximal reachable set of `piece` before blocking and
/// legality are considered: an on-board square offset from the piece's
/// position by one of its movement offsets (with slides projected to full
/// theoretical reach, and the king's two-file castling offsets included).
pub open spec fn spec_in_pattern(piece: Piece, dest: Square) -> bool {
    let dr = dest.rank - piece.pos.rank;
    let df = dest.file - piece.pos.file;
    let adr = abs_diff(dest.rank as int, piece.pos.rank as int);
    let adf = abs_diff(dest.file as int, piece.pos.file as int);
    dest.spec_valid() && match piece.piece_type {
        PieceType::Pawn => {
            let d = spec_pawn_direction(piece.colour);
            (dr == d && df == 0) || (dr == 2 * d && df == 0) || (dr == d && adf == 1)
        },
        PieceType::Knight => (adr == 1 && adf == 2) || (adr == 2 && adf == 1),
        PieceType::King => (adr <= 1 && adf <= 1 && !(dr == 0 && df == 0)) || (dr == 0 && adf
            == 2),
        PieceType::Bishop => 1 <= adr <= 7 && adr == adf,
        PieceType::Rook => (dr == 0 && 1 <= adf <= 7) || (df == 0 && 1 <= adr <= 7),
        PieceType::Queen => (dr == 0 && 1 <= adf <= 7) || (df == 0 && 1 <= adr <= 7) || (1 <= adr
            <= 7 && adr == adf),
    }
}

// ------------------------------------------------------------------
// Piece-specific validity
// ------------------------------------------------------------------

/// The capturing pawn may take en passant: the immediately preceding move was
/// a pawn double-step landing alongside it, and `dest` is the square just
/// vacated behind that pawn.
pub open spec fn spec_may_take_en_passant(
    piece: Piece,
    dest: Square,
    last: Option<MoveRecord>,
) -> bool {
    piece.piece_type == PieceType::Pawn && match last {
        Some(rec) => rec.0.piece_type == PieceType::Pawn && abs_diff(
            rec.1.rank as int,
            rec.2.rank as int,
        ) == 2 && abs_diff(rec.2.file as int, piece.pos.file as int) == 1 && rec.2.rank
            == piece.pos.rank && dest.file == rec.2.file && abs_diff(
            dest.rank as int,
            rec.2.rank as int,
        ) == 1,
        None => false,
    }
}

/// The pawn-specific movement rule: forward one onto an empty square, forward
/// two from an unmoved pawn over a clear path onto an empty square, a
/// diagonal capture onto an opponent-occupied square, or an en-passant
/// capture.
pub open spec fn spec_pawn_valid(
    piece: Piece,
    dest: Square,
    pieces: Seq<Piece>,
    last: Option<MoveRecord>,
) -> bool {
    let d = spec_pawn_direction(piece.colour);
    if dest.rank - piece.pos.rank == d && piece.pos.file == dest.file {
        occupied_by(pieces, dest) is None
    } else if !piece.has_moved && dest.rank - piece.pos.rank == 2 * d && piece.pos.file == dest.file
        && path_clear(pieces, piece.pos, dest) {
        occupied_by(pieces, dest) is None
    } else {
        (dest.rank - piece.pos.rank == d && abs_diff(piece.pos.file as int, dest.file as int) == 1
            && occupied_by(pieces, dest) == Some(spec_opponent(piece.colour)))
            || spec_may_take_en_passant(piece, dest, last)
    }
}

/// The movement rule of every piece type but the king, as used both for
/// validity checks and for threat evaluation. The king is handled separately
/// (its rule involves castling); the `King` arm here is never reached.
pub open spec fn spec_nonking_rule(
    piece: Piece,
    dest: Square,
    pieces: Seq<Piece>,
    last: Option<MoveRecord>,
) -> bool {
    let adr = abs_diff(dest.rank as int, piece.pos.rank as int);
    let adf = abs_diff(dest.file as int, piece.pos.file as int);
    match piece.piece_type {
        PieceType::King => false,
        PieceType::Queen => path_clear(pieces, piece.pos, dest) && (adr == adf || dest.file
            == piece.pos.file || dest.rank == piece.pos.rank),
        PieceType::Bishop => path_clear(pieces, piece.pos, dest) && adr == adf,
        PieceType::Rook => path_clear(pieces, piece.pos, dest) && (dest.file == piece.pos.file
            || dest.rank == piece.pos.rank),
        PieceType::Knight => (adr == 2 && adf == 1) || (adr == 1 && adf == 2),
        PieceType::Pawn => spec_pawn_valid(piece, dest, pieces, last),
    }
}

/// A non-king piece has a structurally valid move onto `dest`: the
/// destination differs from its own square, is not occupied by its own side,
/// and obeys its movement rule.
pub open spec fn spec_threat_valid(
    piece: Piece,
    dest: Square,
    pieces: Seq<Piece>,
    last: Option<MoveRecord>,
) -> bool {
    &&& dest != piece.pos
    &&& occupied_by(pieces, dest) != Some(piece.colour)
    &&& spec_nonking_rule(piece, dest, pieces, last)
}

// ------------------------------------------------------------------
// Castling
// ------------------------------------------------------------------

/// The `s`-th square of the king's castling path (`s` in `0..3`): its own
/// square, the square it passes through, and its destination.
pub open spec fn castle_path_square(king: Piece, dest: Square, s: int) -> Square {
    let dir: int = if dest.file > king.pos.file {
        1
    } else {
        -1
    };
    Square { rank: king.pos.rank, file: (king.pos.file + s * dir) as i8 }
}

/// No opposing piece has a structurally valid move onto any square of the
/// king's castling path. The opposing king is excluded from this test, a
/// documented approximation that keeps the definition well-founded.
pub open spec fn spec_no_check_in_path(king: Piece, dest: Square, pieces: Seq<Piece>) -> bool {
    forall|i: int, s: int|
        0 <= i < pieces.len() && 0 <= s < 3 ==> !((#[trigger] pieces[i]).colour == spec_opponent(
            king.colour,
        ) && pieces[i].piece_type != PieceType::King && spec_threat_valid(
            pieces[i],
            #[trigger] castle_path_square(king, dest, s),
            pieces,
            Some((king, king.pos, dest)),
        ))
}

/// The piece at index `i` is an unmoved rook of the king's colour on the
/// corner file of the side castled toward, and the squares between king and
/// destination are empty.
pub open spec fn castle_rook_ok(pieces: Seq<Piece>, i: int, king: Piece, dest: Square) -> bool {
    let rook = pieces[i];
    &&& rook.piece_type == PieceType::Rook
    &&& rook.colour == king.colour
    &&& !rook.has_moved
    &&& if dest.file == 2 {
        rook.pos.file == 0
    } else {
        rook.pos.file == 7
    }
    &&& path_clear(pieces, king.pos, dest)
}

/// The king may castle to `dest`: it has never moved, `dest` is on its rank,
/// an unmoved same-colour rook stands on the corresponding corner file with
/// the squares between king and destination empty, and no square of the
/// king's path is attacked.
pub open spec fn spec_may_castle(piece: Piece, dest: Square, pieces: Seq<Piece>) -> bool {
    &&& !piece.has_moved
    &&& piece.piece_type == PieceType::King
    &&& piece.pos.rank == dest.rank
    &&& exists|i: int| 0 <= i < pieces.len() && #[trigger] castle_rook_ok(pieces, i, piece, dest)
    &&& spec_no_check_in_path(piece, dest, pieces)
}

/// The king-specific movement rule: a step to an adjacent square, or a
/// castling move.
pub open spec fn spec_king_valid(piece: Piece, dest: Square, pieces: Seq<Piece>) -> bool {
    (abs_diff(piece.pos.rank as int, dest.rank as int) <= 1 && abs_diff(
        piece.pos.file as int,
        dest.file as int,
    ) <= 1) || spec_may_castle(piece, dest, pieces)
}

// ------------------------------------------------------------------
// Validity, simulation, check, legality
// ------------------------------------------------------------------

/// A structurally *valid* move: correct per piece-movement rules and path
/// clearance, without the check-avoidance filter. A pinned piece can have a
/// valid move that is not legal.
pub open spec fn spec_move_valid(
    piece: Piece,
    dest: Square,
    pieces: Seq<Piece>,
    last: Option<MoveRecord>,
) -> bool {
    &&& dest != piece.pos
    &&& occupied_by(pieces, dest) != Some(piece.colour)
    &&& match piece.piece_type {
        PieceType::King => spec_king_valid(piece, dest, pieces),
        _ => spec_nonking_rule(piece, dest, pieces, last),
    }
}

/// The position after relocating `mover` to `dest` on a copy of the piece
/// list: every piece on the mover's square is moved there, and any opposing
/// piece on the destination square is removed. (An en-passant victim or a
/// castling rook is deliberately not touched; check avoidance simulates the
/// moving piece alone.)
pub open spec fn simulate_move(pieces: Seq<Piece>, mover: Piece, dest: Square) -> Seq<Piece>
    decreases pieces.len(),
{
    if pieces.len() <= 0 {
        Seq::empty()
    } else {
        simulate_one(pieces[0], mover, dest) + simulate_move(pieces.drop_first(), mover, dest)
    }
}

/// How the simulation treats a single piece: relocated when it stands on the
/// mover's square, removed when it is an opposing piece on the destination
/// square, kept unchanged otherwise.
pub open spec fn simulate_one(p: Piece, mover: Piece, dest: Square) -> Seq<Piece> {
    if p.pos == mover.pos {
        seq![Piece { pos: dest, ..p }]
    } else if p.colour == mover.colour || p.pos != dest {
        seq![p]
    } else {
        Seq::empty()
    }
}

/// Appending a piece to the list appends its simulated image to the
/// simulated list.
pub proof fn lemma_simulate_push(pieces: Seq<Piece>, mover: Piece, dest: Square, x: Piece)
    ensures
        simulate_move(pieces.push(x), mover, dest) == simulate_move(pieces, mover, dest)
            + simulate_one(x, mover, dest),
    decreases pieces.len(),
{
    if pieces.len() <= 0 {
        assert(pieces.push(x)[0] == x);
        assert(pieces.push(x).drop_first() =~= Seq::<Piece>::empty());
        assert(simulate_move(pieces.push(x), mover, dest) == simulate_one(x, mover, dest)
            + simulate_move(Seq::<Piece>::empty(), mover, dest));
        assert(simulate_one(x, mover, dest) + Seq::<Piece>::empty() =~= simulate_one(
            x,
            mover,
            dest,
        ));
        assert(simulate_move(pieces, mover, dest) =~= Seq::<Piece>::empty());
        assert(Seq::<Piece>::empty() + simulate_one(x, mover, dest) =~= simulate_one(
            x,
            mover,
            dest,
        ));
    } else {
        assert(pieces.push(x).drop_first() =~= pieces.drop_first().push(x));
        lemma_simulate_push(pieces.drop_first(), mover, dest, x);
        assert(pieces.push(x)[0] == pieces[0]);
        assert(simulate_one(pieces[0], mover, dest) + (simulate_move(pieces.drop_first(), mover,
            dest) + simulate_one(x, mover, dest)) =~= (simulate_one(pieces[0], mover, dest)
            + simulate_move(pieces.drop_first(), mover, dest)) + simulate_one(x, mover, dest));
    }
}

/// The side `colour` is in check: some opposing piece has a structurally
/// valid move onto its king's square. Validity, not legality, is used here,
/// so a pinned piece still gives check. `false` when that side has no king.
pub open spec fn spec_in_check(
    colour: PieceColour,
    pieces: Seq<Piece>,
    last: Option<MoveRecord>,
) -> bool {
    match king_index(pieces, colour) {
        Some(k) => exists|i: int|
            0 <= i < pieces.len() && (#[trigger] pieces[i]).colour == spec_opponent(colour)
                && spec_move_valid(pieces[i], pieces[k].pos, pieces, last),
        None => false,
    }
}

/// Moving `piece` to `dest` does not leave or place its own king in check,
/// judged on the simulated position. Vacuously true when the simulated
/// position holds no king of the mover's colour.
pub open spec fn spec_avoids_check(piece: Piece, dest: Square, pieces: Seq<Piece>) -> bool {
    !spec_in_check(
        piece.colour,
        simulate_move(pieces, piece, dest),
        Some((piece, piece.pos, dest)),
    )
}

/// A fully *legal* move: in the piece's movement pattern, over a clear path
/// onto a square not occupied by its own side, obeying the king- and
/// pawn-specific rules, and leaving its own king out of check.
pub open spec fn spec_legal_move(
    piece: Piece,
    dest: Square,
    pieces: Seq<Piece>,
    last: Option<MoveRecord>,
) -> bool {
    &&& spec_in_pattern(piece, dest)
    &&& path_clear(pieces, piece.pos, dest)
    &&& occupied_by(pieces, dest) != Some(piece.colour)
    &&& match piece.piece_type {
        PieceType::King => spec_king_valid(piece, dest, pieces),
        PieceType::Pawn => spec_pawn_valid(piece, dest, pieces, last),
        _ => true,
    }
    &&& spec_avoids_check(piece, dest, pieces)
}

/// Some piece of `colour` has at least one legal move.
pub open spec fn spec_colour_has_moves(
    colour: PieceColour,
    pieces: Seq<Piece>,
    last: Option<MoveRecord>,
) -> bool {
    exists|i: int, sq: Square|
        0 <= i < pieces.len() && pieces[i].colour == colour && #[trigger] spec_legal_move(
            pieces[i],
            sq,
            pieces,
            last,
        )
}

} // verus!
