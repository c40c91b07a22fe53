//! Executable movement rules: occupancy and path-clearance checks, the
//! structural validity predicate (`is_move_valid`), en passant and castling
//! tests. Each function is proved to return exactly what the corresponding
//! spec function of [`crate::model`] says.

use vstd::prelude::*;

use crate::model::{
    castle_path_square, castle_rook_ok, diag_square, diagonal_path_clear, file_path_clear,
    index_at, lemma_index_at_props, occupied_by, path_clear, rank_path_clear,
    spec_may_take_en_passant, spec_move_valid, spec_no_check_in_path, spec_nonking_rule,
    spec_pawn_valid, spec_threat_valid, strictly_between,
};
use crate::piece::{all_positions_valid, last_move_valid, MoveRecord, Piece, PieceColour,
    PieceType};
use crate::square::{abs_diff, Square, C_FILE};

verus! {

impl Square {
    /// Checks if a piece in the supplied list occupies this square. Returns
    /// `None` if the square is empty, otherwise the colour of the (first)
    /// piece occupying it.
    pub fn is_occupied(&self, pieces: &Vec<Piece>) -> (r: Option<PieceColour>)
        ensures
            r == occupied_by(pieces@, *self),
    {
        let mut i: usize = 0;
        while i < pieces.len()
            invariant
                i <= pieces@.len(),
                forall|j: int| 0 <= j < i ==> (#[trigger] pieces@[j]).pos != *self,
            decreases pieces@.len() - i,
        {
            if pieces[i].pos == *self {
                proof {
                    lemma_index_at_props(pieces@, *self);
                    let found = index_at(pieces@, *self);
                    assert(found matches Some(k) && k == i);
                }
                return Some(pieces[i].colour);
            }
            i += 1;
        }
        proof {
            lemma_index_at_props(pieces@, *self);
        }
        None
    }
}

/// The absolute difference of two coordinates near the board.
fn coord_dist(a: i8, b: i8) -> (r: i8)
    requires
        -16 <= a <= 16,
        -16 <= b <= 16,
    ensures
        r as int == abs_diff(a as int, b as int),
{
    if a >= b {
        a - b
    } else {
        b - a
    }
}

/// Checks that no piece stands strictly between the two supplied squares
/// along their shared rank, file or diagonal. Squares that share none of the
/// three pass the check; the callers apply it only after a pattern match.
pub(crate) fn is_path_empty(begin: &Square, end: &Square, pieces: &Vec<Piece>) -> (r: bool)
    requires
        begin.spec_near_board(),
        end.spec_near_board(),
    ensures
        r == path_clear(pieces@, *begin, *end),
{
    if begin.rank == end.rank {
        let mut i: usize = 0;
        while i < pieces.len()
            invariant
                i <= pieces@.len(),
                begin.rank == end.rank,
                forall|j: int|
                    0 <= j < i ==> !((#[trigger] pieces@[j]).pos.rank == begin.rank
                        && strictly_between(
                        begin.file as int,
                        pieces@[j].pos.file as int,
                        end.file as int,
                    )),
            decreases pieces@.len() - i,
        {
            let p = pieces[i];
            if p.pos.rank == begin.rank && ((p.pos.file > begin.file && p.pos.file < end.file) || (
            p.pos.file > end.file && p.pos.file < begin.file)) {
                return false;
            }
            i += 1;
        }
        true
    } else if begin.file == end.file {
        let mut i: usize = 0;
        while i < pieces.len()
            invariant
                i <= pieces@.len(),
                begin.rank != end.rank,
                begin.file == end.file,
                forall|j: int|
                    0 <= j < i ==> !((#[trigger] pieces@[j]).pos.file == begin.file
                        && strictly_between(
                        begin.rank as int,
                        pieces@[j].pos.rank as int,
                        end.rank as int,
                    )),
            decreases pieces@.len() - i,
        {
            let p = pieces[i];
            if p.pos.file == begin.file && ((p.pos.rank > begin.rank && p.pos.rank < end.rank) || (
            p.pos.rank > end.rank && p.pos.rank < begin.rank)) {
                return false;
            }
            i += 1;
        }
        true
    } else {
        let rank_dist = coord_dist(begin.rank, end.rank);
        let file_dist = coord_dist(begin.file, end.file);
        if rank_dist == file_dist {
            let mut i: i8 = 1;
            while i < rank_dist
                invariant
                    1 <= i,
                    rank_dist as int == abs_diff(begin.rank as int, end.rank as int),
                    rank_dist as int == abs_diff(begin.file as int, end.file as int),
                    begin.rank != end.rank,
                    begin.file != end.file,
                    begin.spec_near_board(),
                    end.spec_near_board(),
                    i <= rank_dist,
                    forall|k: int|
                        1 <= k < i ==> occupied_by(
                            pieces@,
                            #[trigger] diag_square(*begin, *end, k),
                        ) is None,
                decreases rank_dist - i,
            {
                let probe = Square {
                    rank: if end.rank > begin.rank {
                        begin.rank + i
                    } else {
                        begin.rank - i
                    },
                    file: if end.file > begin.file {
                        begin.file + i
                    } else {
                        begin.file - i
                    },
                };
                proof {
                    assert(probe == diag_square(*begin, *end, i as int));
                }
                if probe.is_occupied(pieces).is_some() {
                    return false;
                }
                i += 1;
            }
        }
        true
    }
}

impl Piece {
    /// Determines whether or not this piece can take en passant: it is a pawn,
    /// and the previous move was an opposing pawn double-step ending alongside
    /// it, with `new_position` the square just vacated behind that pawn.
    pub fn may_take_en_passant(
        &self,
        new_position: &Square,
        last_move: &Option<MoveRecord>,
    ) -> (r: bool)
        requires
            self.pos.spec_valid(),
            new_position.spec_near_board(),
            last_move_valid(*last_move),
        ensures
            r == spec_may_take_en_passant(*self, *new_position, *last_move),
    {
        if !matches!(self.piece_type, PieceType::Pawn) {
            false
        } else if let Some((prev_piece, last_origin, last_destination)) = last_move {
            matches!(prev_piece.piece_type, PieceType::Pawn) && coord_dist(
                last_origin.rank,
                last_destination.rank,
            ) == 2 && coord_dist(last_destination.file, self.pos.file) == 1
                && last_destination.rank == self.pos.rank && new_position.file
                == last_destination.file && coord_dist(new_position.rank, last_destination.rank)
                == 1
        } else {
            false
        }
    }
}

/// The pawn-specific movement rule.
pub(crate) fn pawn_rule(piece: &Piece, dest: &Square, pieces: &Vec<Piece>, last: &Option<MoveRecord>) -> (r:
    bool)
    requires
        piece.pos.spec_valid(),
        dest.spec_near_board(),
        last_move_valid(*last),
    ensures
        r == spec_pawn_valid(*piece, *dest, pieces@, *last),
{
    let direction = piece.colour.pawn_movement_direction();
    let rank_delta = dest.rank as i16 - piece.pos.rank as i16;
    if rank_delta == direction as i16 && piece.pos.file == dest.file {
        return dest.is_occupied(pieces).is_none();
    }
    if !piece.has_moved && rank_delta == 2 * direction as i16 && piece.pos.file == dest.file
        && is_path_empty(&piece.pos, dest, pieces) {
        return dest.is_occupied(pieces).is_none();
    }
    let may_take = if rank_delta == direction as i16 && coord_dist(piece.pos.file, dest.file)
        == 1 {
        match dest.is_occupied(pieces) {
            Some(c) => c == piece.colour.opponent(),
            None => false,
        }
    } else {
        false
    };
    may_take || piece.may_take_en_passant(dest, last)
}

/// The movement rule of every piece type but the king; the `King` arm is
/// never reached by the callers.
fn nonking_rule(piece: &Piece, dest: &Square, pieces: &Vec<Piece>, last: &Option<MoveRecord>) -> (r:
    bool)
    requires
        piece.pos.spec_valid(),
        dest.spec_near_board(),
        last_move_valid(*last),
    ensures
        r == spec_nonking_rule(*piece, *dest, pieces@, *last),
{
    let rank_dist = coord_dist(piece.pos.rank, dest.rank);
    let file_dist = coord_dist(piece.pos.file, dest.file);
    match piece.piece_type {
        PieceType::King => false,
        PieceType::Queen => is_path_empty(&piece.pos, dest, pieces) && (rank_dist == file_dist
            || dest.file == piece.pos.file || dest.rank == piece.pos.rank),
        PieceType::Bishop => is_path_empty(&piece.pos, dest, pieces) && rank_dist == file_dist,
        PieceType::Rook => is_path_empty(&piece.pos, dest, pieces) && (dest.file == piece.pos.file
            || dest.rank == piece.pos.rank),
        PieceType::Knight => (rank_dist == 2 && file_dist == 1) || (rank_dist == 1 && file_dist
            == 2),
        PieceType::Pawn => pawn_rule(piece, dest, pieces, last),
    }
}

/// Structural validity of a non-king piece's move, as used for threat
/// evaluation.
fn is_threat_valid(
    piece: &Piece,
    dest: &Square,
    pieces: &Vec<Piece>,
    last: &Option<MoveRecord>,
) -> (r: bool)
    requires
        piece.pos.spec_valid(),
        dest.spec_near_board(),
        last_move_valid(*last),
    ensures
        r == spec_threat_valid(*piece, *dest, pieces@, *last),
{
    if *dest == piece.pos {
        return false;
    }
    let own_occupied = match dest.is_occupied(pieces) {
        Some(c) => c == piece.colour,
        None => false,
    };
    if own_occupied {
        return false;
    }
    nonking_rule(piece, dest, pieces, last)
}

impl Piece {
    /// Checks that none of the three squares of the king's castling path (its
    /// own square, the square passed through and the destination) is attacked
    /// by an opposing non-king piece.
    fn no_check_in_path(&self, new_position: &Square, pieces: &Vec<Piece>) -> (r: bool)
        requires
            self.pos.spec_valid(),
            new_position.spec_valid(),
            all_positions_valid(pieces@),
        ensures
            r == spec_no_check_in_path(*self, *new_position, pieces@),
    {
        let opponent = self.colour.opponent();
        let ghost rec: Option<MoveRecord> = Some((*self, self.pos, *new_position));
        let mut i: usize = 0;
        while i < pieces.len()
            invariant
                i <= pieces@.len(),
                self.pos.spec_valid(),
                new_position.spec_valid(),
                all_positions_valid(pieces@),
                opponent == crate::piece::spec_opponent(self.colour),
                rec == Some((*self, self.pos, *new_position)),
                forall|j: int, s: int|
                    0 <= j < i && 0 <= s < 3 ==> !((#[trigger] pieces@[j]).colour
                        == crate::piece::spec_opponent(self.colour) && pieces@[j].piece_type
                        != PieceType::King && spec_threat_valid(
                        pieces@[j],
                        #[trigger] castle_path_square(*self, *new_position, s),
                        pieces@,
                        Some((*self, self.pos, *new_position)),
                    )),
            decreases pieces@.len() - i,
        {
            let p = pieces[i];
            if p.colour == opponent && !matches!(p.piece_type, PieceType::King) {
                let mut s: i8 = 0;
                while s < 3
                    invariant
                        0 <= s <= 3,
                        i < pieces@.len(),
                        p == pieces@[i as int],
                        p.colour == crate::piece::spec_opponent(self.colour),
                        p.piece_type != PieceType::King,
                        self.pos.spec_valid(),
                        new_position.spec_valid(),
                        all_positions_valid(pieces@),
                        forall|t: int|
                            0 <= t < s ==> !spec_threat_valid(
                                pieces@[i as int],
                                #[trigger] castle_path_square(*self, *new_position, t),
                                pieces@,
                                Some((*self, self.pos, *new_position)),
                            ),
                    decreases 3 - s,
                {
                    let path_square = Square {
                        rank: self.pos.rank,
                        file: if new_position.file > self.pos.file {
                            self.pos.file + s
                        } else {
                            self.pos.file - s
                        },
                    };
                    proof {
                        let si = s as int;
                        assert(si * 1int == si) by (nonlinear_arith);
                        assert(si * (-1int) == -si) by (nonlinear_arith);
                        assert(path_square == castle_path_square(*self, *new_position, s as int));
                    }
                    if is_threat_valid(&p, &path_square, pieces, &Some((
                        *self,
                        self.pos,
                        *new_position,
                    ))) {
                        return false;
                    }
                    s += 1;
                }
            }
            i += 1;
        }
        true
    }

    /// Tests whether the piece may castle to `new_position`: it is an unmoved
    /// king, the destination is on its rank, an unmoved same-colour rook
    /// stands on the matching corner file with the path to the destination
    /// empty, and no square the king passes through is attacked. Always false
    /// for a piece that is not a king.
    pub fn may_castle(&self, new_position: &Square, pieces: &Vec<Piece>) -> (r: bool)
        requires
            self.pos.spec_valid(),
            new_position.spec_valid(),
            all_positions_valid(pieces@),
        ensures
            r == crate::model::spec_may_castle(*self, *new_position, pieces@),
    {
        if self.has_moved || !matches!(self.piece_type, PieceType::King) || self.pos.rank
            != new_position.rank {
            return false;
        }
        let mut rook_found = false;
        let mut i: usize = 0;
        while i < pieces.len()
            invariant
                i <= pieces@.len(),
                self.pos.spec_valid(),
                new_position.spec_valid(),
                rook_found ==> exists|j: int|
                    0 <= j < pieces@.len() && #[trigger] castle_rook_ok(
                        pieces@,
                        j,
                        *self,
                        *new_position,
                    ),
                !rook_found ==> forall|j: int|
                    0 <= j < i ==> !#[trigger] castle_rook_ok(pieces@, j, *self, *new_position),
            decreases pieces@.len() - i,
        {
            if !rook_found {
                let p = pieces[i];
                if matches!(p.piece_type, PieceType::Rook) && p.colour == self.colour
                    && !p.has_moved {
                    let file_matches = if new_position.file == C_FILE {
                        p.pos.file == 0
                    } else {
                        p.pos.file == 7
                    };
                    if file_matches && is_path_empty(&self.pos, new_position, pieces) {
                        rook_found = true;
                        proof {
                            assert(castle_rook_ok(pieces@, i as int, *self, *new_position));
                        }
                    }
                }
            }
            i += 1;
        }
        rook_found && self.no_check_in_path(new_position, pieces)
    }

    /// Checks if it is a *valid* move for this piece to reach `new_position`
    /// given the pieces on the board: structurally correct per the piece's
    /// movement rules and path clearance, without the check-avoidance filter.
    /// A pinned piece can have a valid move whose play would be illegal.
    pub fn is_move_valid(
        &self,
        new_position: &Square,
        pieces: &Vec<Piece>,
        last_move: &Option<MoveRecord>,
    ) -> (r: bool)
        requires
            self.pos.spec_valid(),
            new_position.spec_valid(),
            all_positions_valid(pieces@),
            last_move_valid(*last_move),
        ensures
            r == spec_move_valid(*self, *new_position, pieces@, *last_move),
    {
        if *new_position == self.pos {
            return false;
        }
        let own_occupied = match new_position.is_occupied(pieces) {
            Some(c) => c == self.colour,
            None => false,
        };
        if own_occupied {
            return false;
        }
        match self.piece_type {
            PieceType::King => self.pos.is_adjacent(new_position) || self.may_castle(
                new_position,
                pieces,
            ),
            _ => nonking_rule(self, new_position, pieces, last_move),
        }
    }
}

} // verus!
