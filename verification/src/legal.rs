//! The legality engine: candidate generation, the check-avoidance filter and
//! the full legal-move set, together with the colour-level queries the game
//! status machine needs (is a side in check, does a side have any legal
//! move).

use vstd::prelude::*;

use crate::model::{
    king_index, lemma_king_index_props, lemma_simulate_push, simulate_move, simulate_one,
    spec_avoids_check, spec_colour_has_moves, spec_in_check, spec_in_pattern, spec_legal_move,
    spec_move_valid,
};
use crate::piece::{
    all_positions_valid, last_move_valid, spec_opponent, MoveRecord, Piece,
    PieceColour, PieceType,
};
use crate::rules::is_path_empty;
use crate::square::Square;

verus! {

broadcast use vstd::seq_lib::lemma_seq_contains_after_push;

/// The index of the first king of `colour` in the list, if any.
pub(crate) fn find_king(pieces: &Vec<Piece>, colour: PieceColour) -> (r: Option<usize>)
    ensures
        match r {
            Some(k) => king_index(pieces@, colour) == Some(k as int),
            None => king_index(pieces@, colour) is None,
        },
{
    let mut i: usize = 0;
    while i < pieces.len()
        invariant
            i <= pieces@.len(),
            forall|j: int|
                0 <= j < i ==> !((#[trigger] pieces@[j]).colour == colour && pieces@[j].piece_type
                    == PieceType::King),
        decreases pieces@.len() - i,
    {
        if pieces[i].colour == colour && matches!(pieces[i].piece_type, PieceType::King) {
            proof {
                lemma_king_index_props(pieces@, colour);
                assert(king_index(pieces@, colour) matches Some(k) && k == i);
            }
            return Some(i);
        }
        i += 1;
    }
    proof {
        lemma_king_index_props(pieces@, colour);
    }
    None
}

impl Piece {
    /// Tests whether moving to `new_position` leaves the mover's own king
    /// safe, by simulating the move on a copy of the piece list: the moving
    /// piece is relocated, any opposing piece on the destination square is
    /// removed, and no opposing piece may then have a valid move onto the
    /// mover's king's square.
    fn avoids_check(&self, new_position: &Square, pieces: &Vec<Piece>) -> (r: bool)
        requires
            self.pos.spec_valid(),
            new_position.spec_valid(),
            all_positions_valid(pieces@),
        ensures
            r == spec_avoids_check(*self, *new_position, pieces@),
    {
        let mut sim: Vec<Piece> = Vec::new();
        let mut i: usize = 0;
        while i < pieces.len()
            invariant
                i <= pieces@.len(),
                self.pos.spec_valid(),
                new_position.spec_valid(),
                all_positions_valid(pieces@),
                sim@ == simulate_move(pieces@.take(i as int), *self, *new_position),
                all_positions_valid(sim@),
            decreases pieces@.len() - i,
        {
            let p = pieces[i];
            proof {
                assert(pieces@.take(i as int + 1) =~= pieces@.take(i as int).push(
                    pieces@[i as int],
                ));
                lemma_simulate_push(pieces@.take(i as int), *self, *new_position,
                    pieces@[i as int]);
            }
            let ghost old_sim = sim@;
            if p.pos == self.pos {
                sim.push(Piece { pos: *new_position, ..p });
            } else if p.colour == self.colour || p.pos != *new_position {
                sim.push(p);
            }
            proof {
                assert(sim@ =~= old_sim + simulate_one(pieces@[i as int], *self, *new_position));
                assert forall|j: int| 0 <= j < sim@.len() implies (#[trigger] sim@[j]).pos
                    .spec_valid() by {
                    if j < old_sim.len() {
                        assert(sim@[j] == old_sim[j]);
                    }
                }
            }
            i += 1;
        }
        proof {
            assert(pieces@.take(pieces@.len() as int) =~= pieces@);
        }
        match find_king(&sim, self.colour) {
            None => true,
            Some(k) => {
                proof {
                    lemma_king_index_props(sim@, self.colour);
                }
                let king_pos = sim[k].pos;
                let mut j: usize = 0;
                while j < sim.len()
                    invariant
                        j <= sim@.len(),
                        k < sim@.len(),
                        sim@ == simulate_move(pieces@, *self, *new_position),
                        king_index(sim@, self.colour) == Some(k as int),
                        king_pos == sim@[k as int].pos,
                        king_pos.spec_valid(),
                        self.pos.spec_valid(),
                        new_position.spec_valid(),
                        all_positions_valid(sim@),
                        forall|m: int|
                            0 <= m < j ==> !((#[trigger] sim@[m]).colour == spec_opponent(
                                self.colour,
                            ) && spec_move_valid(
                                sim@[m],
                                sim@[k as int].pos,
                                sim@,
                                Some((*self, self.pos, *new_position)),
                            )),
                    decreases sim@.len() - j,
                {
                    let q = sim[j];
                    if !(q.colour == self.colour) && q.is_move_valid(&king_pos, &sim, &Some((
                        *self,
                        self.pos,
                        *new_position,
                    ))) {
                        return false;
                    }
                    j += 1;
                }
                true
            },
        }
    }
}

/// The movement-pattern test: `dest` is an on-board square the piece could
/// reach on an empty board (slides at full reach, the king's castling
/// offsets included).
fn in_pattern(piece: &Piece, dest: &Square) -> (r: bool)
    requires
        piece.pos.spec_valid(),
    ensures
        r == spec_in_pattern(*piece, *dest),
{
    if !dest.is_valid() {
        return false;
    }
    let dr = dest.rank - piece.pos.rank;
    let df = dest.file - piece.pos.file;
    let adr = if dr >= 0 {
        dr
    } else {
        -dr
    };
    let adf = if df >= 0 {
        df
    } else {
        -df
    };
    match piece.piece_type {
        PieceType::Pawn => {
            let d = piece.colour.pawn_movement_direction();
            (dr == d && df == 0) || (dr == 2 * d && df == 0) || (dr == d && adf == 1)
        },
        PieceType::Knight => (adr == 1 && adf == 2) || (adr == 2 && adf == 1),
        PieceType::King => (adr <= 1 && adf <= 1 && !(dr == 0 && df == 0)) || (dr == 0 && adf
            == 2),
        PieceType::Bishop => 1 <= adr && adr <= 7 && adr == adf,
        PieceType::Rook => (dr == 0 && 1 <= adf && adf <= 7) || (df == 0 && 1 <= adr && adr <= 7),
        PieceType::Queen => (dr == 0 && 1 <= adf && adf <= 7) || (df == 0 && 1 <= adr && adr <= 7)
            || (1 <= adr && adr <= 7 && adr == adf),
    }
}

/// The full legality test for one candidate destination.
pub(crate) fn is_move_legal(piece: &Piece, dest: &Square, pieces: &Vec<Piece>, last: &Option<MoveRecord>) -> (r:
    bool)
    requires
        piece.pos.spec_valid(),
        all_positions_valid(pieces@),
        last_move_valid(*last),
    ensures
        r == spec_legal_move(*piece, *dest, pieces@, *last),
{
    if !in_pattern(piece, dest) {
        return false;
    }
    if !is_path_empty(&piece.pos, dest, pieces) {
        return false;
    }
    let own_occupied = match dest.is_occupied(pieces) {
        Some(c) => c == piece.colour,
        None => false,
    };
    if own_occupied {
        return false;
    }
    let specific = match piece.piece_type {
        PieceType::King => piece.pos.is_adjacent(dest) || piece.may_castle(dest, pieces),
        PieceType::Pawn => crate::rules::pawn_rule(piece, dest, pieces, last),
        _ => true,
    };
    specific && piece.avoids_check(dest, pieces)
}

impl Piece {
    /// Returns the set of squares this piece can legally move to given the
    /// current pieces on the board: pattern, path clearance, the king- and
    /// pawn-specific rules, and the check-avoidance filter all applied. The
    /// previous move is required for en passant.
    pub fn legal_moves(&self, pieces: &Vec<Piece>, last_move: Option<MoveRecord>) -> (r: Vec<
        Square,
    >)
        requires
            self.pos.spec_valid(),
            all_positions_valid(pieces@),
            last_move_valid(last_move),
        ensures
            forall|sq: Square| #[trigger]
                r@.contains(sq) ==> spec_legal_move(*self, sq, pieces@, last_move),
            forall|sq: Square| #[trigger]
                spec_legal_move(*self, sq, pieces@, last_move) ==> r@.contains(sq),
    {
        let mut result: Vec<Square> = Vec::new();
        let mut rank: i8 = 0;
        while rank < 8
            invariant
                0 <= rank <= 8,
                self.pos.spec_valid(),
                all_positions_valid(pieces@),
                last_move_valid(last_move),
                forall|sq: Square| #[trigger]
                    result@.contains(sq) ==> spec_legal_move(*self, sq, pieces@, last_move),
                forall|sq: Square| #[trigger]
                    spec_legal_move(*self, sq, pieces@, last_move) && sq.rank < rank
                        ==> result@.contains(sq),
            decreases 8 - rank,
        {
            let mut file: i8 = 0;
            while file < 8
                invariant
                    0 <= rank < 8,
                    0 <= file <= 8,
                    self.pos.spec_valid(),
                    all_positions_valid(pieces@),
                    last_move_valid(last_move),
                    forall|sq: Square| #[trigger]
                        result@.contains(sq) ==> spec_legal_move(*self, sq, pieces@, last_move),
                    forall|sq: Square| #[trigger]
                        spec_legal_move(*self, sq, pieces@, last_move) && (sq.rank < rank || (
                        sq.rank == rank && sq.file < file)) ==> result@.contains(sq),
                decreases 8 - file,
            {
                let sq = Square { rank, file };
                if is_move_legal(self, &sq, pieces, &last_move) {
                    result.push(sq);
                }
                file += 1;
            }
            rank += 1;
        }
        proof {
            assert forall|sq: Square| #[trigger]
                spec_legal_move(*self, sq, pieces@, last_move) implies result@.contains(sq) by {
                assert(sq.spec_valid());
            }
        }
        result
    }
}

/// Whether the side `colour` is in check: some opposing piece has a valid
/// (not necessarily legal) move onto its king's square. A pinned piece still
/// gives check.
pub fn is_in_check(colour: PieceColour, pieces: &Vec<Piece>, last_move: &Option<MoveRecord>) -> (r:
    bool)
    requires
        all_positions_valid(pieces@),
        last_move_valid(*last_move),
    ensures
        r == spec_in_check(colour, pieces@, *last_move),
{
    match find_king(pieces, colour) {
        None => false,
        Some(k) => {
            proof {
                lemma_king_index_props(pieces@, colour);
            }
            let king_pos = pieces[k].pos;
            let opponent = colour.opponent();
            let mut i: usize = 0;
            while i < pieces.len()
                invariant
                    i <= pieces@.len(),
                    k < pieces@.len(),
                    king_index(pieces@, colour) == Some(k as int),
                    king_pos == pieces@[k as int].pos,
                    king_pos.spec_valid(),
                    opponent == spec_opponent(colour),
                    all_positions_valid(pieces@),
                    last_move_valid(*last_move),
                    forall|j: int|
                        0 <= j < i ==> !((#[trigger] pieces@[j]).colour == spec_opponent(colour)
                            && spec_move_valid(
                            pieces@[j],
                            pieces@[k as int].pos,
                            pieces@,
                            *last_move,
                        )),
                decreases pieces@.len() - i,
            {
                let p = pieces[i];
                if p.colour == opponent && p.is_move_valid(&king_pos, pieces, last_move) {
                    return true;
                }
                i += 1;
            }
            false
        },
    }
}

/// Whether any piece of `colour` has at least one legal move.
pub fn player_has_moves(
    colour: PieceColour,
    pieces: &Vec<Piece>,
    last_move: &Option<MoveRecord>,
) -> (r: bool)
    requires
        all_positions_valid(pieces@),
        last_move_valid(*last_move),
    ensures
        r == spec_colour_has_moves(colour, pieces@, *last_move),
{
    let mut i: usize = 0;
    while i < pieces.len()
        invariant
            i <= pieces@.len(),
            all_positions_valid(pieces@),
            last_move_valid(*last_move),
            forall|j: int, sq: Square|
                0 <= j < i && pieces@[j].colour == colour ==> !#[trigger] spec_legal_move(
                    pieces@[j],
                    sq,
                    pieces@,
                    *last_move,
                ),
        decreases pieces@.len() - i,
    {
        let p = pieces[i];
        if p.colour == colour {
            let moves = p.legal_moves(pieces, *last_move);
            if moves.len() > 0 {
                proof {
                    assert(moves@.contains(moves@[0]));
                    assert(spec_legal_move(pieces@[i as int], moves@[0], pieces@, *last_move));
                }
                return true;
            }
        }
        i += 1;
    }
    false
}

} // verus!
