//! Laws of the legality engine, stated and proved over the model: what a
//! legal move can never target, that a legal move keeps the mover's own king
//! out of check, and that the fifty-move draw takes priority over every
//! other outcome of a move.

use vstd::prelude::*;

use crate::game::{spec_capture, spec_is_castle, spec_moved, spec_pieces_after};
use crate::model::{
    castle_path_square, castle_rook_ok, diag_square, index_at, king_index, lemma_index_at_props,
    occupied_by, path_clear, simulate_move, simulate_one, spec_in_check, spec_king_valid,
    spec_legal_move, spec_may_castle, spec_move_valid, spec_no_check_in_path, spec_nonking_rule,
    spec_threat_valid,
};
use crate::piece::{MoveRecord, Piece, PieceColour, PieceType};
use crate::square::Square;
use crate::status::{spec_next_status, DrawReason, GameStatus};

verus! {

/// A legal move never targets the mover's own current square, nor a square
/// occupied by a piece of the mover's own colour.
pub proof fn lemma_legal_move_excludes_own(
    piece: Piece,
    dest: Square,
    pieces: Seq<Piece>,
    last: Option<MoveRecord>,
)
    requires
        spec_legal_move(piece, dest, pieces, last),
    ensures
        occupied_by(pieces, dest) != Some(piece.colour),
        dest != piece.pos,
{
}

/// A legal move, judged on the position the check filter simulates (the
/// mover relocated, any opposing piece on the destination removed), never
/// leaves the mover's own king attacked: no opposing piece has a valid move
/// onto the king's square in that position.
pub proof fn lemma_legal_move_avoids_check(
    piece: Piece,
    dest: Square,
    pieces: Seq<Piece>,
    last: Option<MoveRecord>,
)
    requires
        spec_legal_move(piece, dest, pieces, last),
    ensures
        !spec_in_check(
            piece.colour,
            simulate_move(pieces, piece, dest),
            Some((piece, piece.pos, dest)),
        ),
{
}

/// Simulating a move over a list that holds no piece on the mover's square
/// and no opposing piece on the destination changes nothing.
proof fn lemma_simulate_identity(pieces: Seq<Piece>, mover: Piece, dest: Square)
    requires
        forall|i: int| 0 <= i < pieces.len() ==> (#[trigger] pieces[i]).pos != mover.pos,
        forall|i: int|
            0 <= i < pieces.len() ==> (#[trigger] pieces[i]).pos != dest || pieces[i].colour
                == mover.colour,
    ensures
        simulate_move(pieces, mover, dest) == pieces,
    decreases pieces.len(),
{
    if pieces.len() > 0 {
        assert(forall|i: int|
            0 <= i < pieces.drop_first().len() ==> #[trigger] pieces.drop_first()[i] == pieces[i
                + 1]);
        lemma_simulate_identity(pieces.drop_first(), mover, dest);
        assert(simulate_one(pieces[0], mover, dest) =~= seq![pieces[0]]);
        assert(simulate_move(pieces, mover, dest) =~= pieces);
    }
}

/// Simulating a non-capturing move over a list whose mover stands alone on
/// its square relocates exactly that one piece.
proof fn lemma_simulate_no_capture(pieces: Seq<Piece>, mover: Piece, dest: Square, mi: int)
    requires
        0 <= mi < pieces.len(),
        pieces[mi] == mover,
        forall|i: int|
            0 <= i < pieces.len() && i != mi ==> (#[trigger] pieces[i]).pos != mover.pos,
        forall|i: int|
            0 <= i < pieces.len() ==> (#[trigger] pieces[i]).pos != dest || pieces[i].colour
                == mover.colour,
    ensures
        simulate_move(pieces, mover, dest) == pieces.update(mi, Piece { pos: dest, ..mover }),
    decreases pieces.len(),
{
    assert(forall|i: int|
        0 <= i < pieces.drop_first().len() ==> #[trigger] pieces.drop_first()[i] == pieces[i + 1]);
    if mi == 0 {
        lemma_simulate_identity(pieces.drop_first(), mover, dest);
        assert(simulate_one(pieces[0], mover, dest) =~= seq![Piece { pos: dest, ..mover }]);
        assert(simulate_move(pieces, mover, dest) =~= pieces.update(
            mi,
            Piece { pos: dest, ..mover },
        ));
    } else {
        lemma_simulate_no_capture(pieces.drop_first(), mover, dest, mi - 1);
        assert(simulate_one(pieces[0], mover, dest) =~= seq![pieces[0]]);
        assert(simulate_move(pieces, mover, dest) =~= pieces.update(
            mi,
            Piece { pos: dest, ..mover },
        ));
    }
}

/// Simulating a capturing move over a list whose mover stands alone on its
/// square and whose destination holds exactly one (opposing) piece
/// relocates the mover and removes the victim.
proof fn lemma_simulate_capture(pieces: Seq<Piece>, mover: Piece, dest: Square, mi: int, t: int)
    requires
        0 <= mi < pieces.len(),
        0 <= t < pieces.len(),
        t != mi,
        pieces[mi] == mover,
        pieces[t].pos == dest,
        pieces[t].colour != mover.colour,
        forall|i: int|
            0 <= i < pieces.len() && i != mi ==> (#[trigger] pieces[i]).pos != mover.pos,
        forall|i: int| 0 <= i < pieces.len() && i != t ==> (#[trigger] pieces[i]).pos != dest,
    ensures
        simulate_move(pieces, mover, dest) == pieces.update(mi, Piece { pos: dest, ..mover })
            .remove(t),
    decreases pieces.len(),
{
    assert(forall|i: int|
        0 <= i < pieces.drop_first().len() ==> #[trigger] pieces.drop_first()[i] == pieces[i + 1]);
    if mi == 0 {
        lemma_simulate_capture_only(pieces.drop_first(), mover, dest, t - 1);
        assert(simulate_one(pieces[0], mover, dest) =~= seq![Piece { pos: dest, ..mover }]);
        assert(simulate_move(pieces, mover, dest) =~= pieces.update(
            mi,
            Piece { pos: dest, ..mover },
        ).remove(t));
    } else if t == 0 {
        lemma_simulate_no_capture(pieces.drop_first(), mover, dest, mi - 1);
        assert(simulate_one(pieces[0], mover, dest) =~= Seq::<Piece>::empty());
        assert(simulate_move(pieces, mover, dest) =~= pieces.update(
            mi,
            Piece { pos: dest, ..mover },
        ).remove(t));
    } else {
        lemma_simulate_capture(pieces.drop_first(), mover, dest, mi - 1, t - 1);
        assert(simulate_one(pieces[0], mover, dest) =~= seq![pieces[0]]);
        assert(simulate_move(pieces, mover, dest) =~= pieces.update(
            mi,
            Piece { pos: dest, ..mover },
        ).remove(t));
    }
}

/// Simulating over a list that holds no piece on the mover's square and one
/// opposing piece on the destination removes exactly the victim.
proof fn lemma_simulate_capture_only(pieces: Seq<Piece>, mover: Piece, dest: Square, t: int)
    requires
        0 <= t < pieces.len(),
        pieces[t].pos == dest,
        pieces[t].colour != mover.colour,
        forall|i: int| 0 <= i < pieces.len() ==> (#[trigger] pieces[i]).pos != mover.pos,
        forall|i: int| 0 <= i < pieces.len() && i != t ==> (#[trigger] pieces[i]).pos != dest,
    ensures
        simulate_move(pieces, mover, dest) == pieces.remove(t),
    decreases pieces.len(),
{
    assert(forall|i: int|
        0 <= i < pieces.drop_first().len() ==> #[trigger] pieces.drop_first()[i] == pieces[i + 1]);
    if t == 0 {
        lemma_simulate_identity(pieces.drop_first(), mover, dest);
        assert(simulate_one(pieces[0], mover, dest) =~= Seq::<Piece>::empty());
        assert(simulate_move(pieces, mover, dest) =~= pieces.remove(t));
    } else {
        lemma_simulate_capture_only(pieces.drop_first(), mover, dest, t - 1);
        assert(simulate_one(pieces[0], mover, dest) =~= seq![pieces[0]]);
        assert(simulate_move(pieces, mover, dest) =~= pieces.remove(t));
    }
}

/// Two positions agree on everything check detection can read about them:
/// they are pointwise equal, except that the entry at `mi` — a non-pawn of
/// the given colour — may differ in its first-move flag. (A pawn's
/// first-move flag feeds its double-step rule; every other piece's flag is
/// read only by the castling test, which never reaches a piece of the side
/// whose king is examined.)
pub open spec fn flag_equiv(a: Seq<Piece>, b: Seq<Piece>, mi: int, colour: PieceColour) -> bool {
    &&& a.len() == b.len()
    &&& 0 <= mi < a.len()
    &&& forall|i: int|
        0 <= i < a.len() ==> (#[trigger] a[i]).pos == b[i].pos && a[i].colour == b[i].colour
            && a[i].piece_type == b[i].piece_type
    &&& forall|i: int| 0 <= i < a.len() && i != mi ==> #[trigger] a[i] == b[i]
    &&& a[mi].piece_type != PieceType::Pawn
    &&& a[mi].colour == colour
}

/// Occupancy search depends only on the pieces' squares.
proof fn lemma_index_at_equiv(a: Seq<Piece>, b: Seq<Piece>, sq: Square)
    requires
        a.len() == b.len(),
        forall|i: int| 0 <= i < a.len() ==> (#[trigger] a[i]).pos == b[i].pos,
    ensures
        index_at(a, sq) == index_at(b, sq),
    decreases a.len(),
{
    if a.len() > 0 {
        assert(forall|i: int|
            0 <= i < a.drop_first().len() ==> #[trigger] a.drop_first()[i] == a[i + 1]);
        assert(forall|i: int|
            0 <= i < b.drop_first().len() ==> #[trigger] b.drop_first()[i] == b[i + 1]);
        lemma_index_at_equiv(a.drop_first(), b.drop_first(), sq);
    }
}

/// The occupant colour of a square depends only on the pieces' squares and
/// colours.
proof fn lemma_occupied_by_equiv(a: Seq<Piece>, b: Seq<Piece>, sq: Square)
    requires
        a.len() == b.len(),
        forall|i: int|
            0 <= i < a.len() ==> (#[trigger] a[i]).pos == b[i].pos && a[i].colour == b[i].colour,
    ensures
        occupied_by(a, sq) == occupied_by(b, sq),
{
    lemma_index_at_equiv(a, b, sq);
    lemma_index_at_props(a, sq);
    lemma_index_at_props(b, sq);
}

/// Path clearance depends only on the pieces' squares.
proof fn lemma_path_clear_equiv(a: Seq<Piece>, b: Seq<Piece>, begin: Square, end: Square)
    requires
        a.len() == b.len(),
        forall|i: int|
            0 <= i < a.len() ==> (#[trigger] a[i]).pos == b[i].pos && a[i].colour == b[i].colour,
    ensures
        path_clear(a, begin, end) == path_clear(b, begin, end),
{
    assert forall|i: int| #![trigger b[i]] 0 <= i < b.len() implies b[i].pos == a[i].pos by {
        assert(a[i].pos == b[i].pos);
    }
    assert forall|k: int| true implies occupied_by(a, #[trigger] diag_square(begin, end, k))
        == occupied_by(b, diag_square(begin, end, k)) by {
        lemma_occupied_by_equiv(a, b, diag_square(begin, end, k));
    }
}

/// The king search depends only on the pieces' colours and types.
proof fn lemma_king_index_equiv(a: Seq<Piece>, b: Seq<Piece>, colour: PieceColour)
    requires
        a.len() == b.len(),
        forall|i: int|
            0 <= i < a.len() ==> (#[trigger] a[i]).colour == b[i].colour && a[i].piece_type
                == b[i].piece_type,
    ensures
        king_index(a, colour) == king_index(b, colour),
    decreases a.len(),
{
    if a.len() > 0 {
        assert(forall|i: int|
            0 <= i < a.drop_first().len() ==> #[trigger] a.drop_first()[i] == a[i + 1]);
        assert(forall|i: int|
            0 <= i < b.drop_first().len() ==> #[trigger] b.drop_first()[i] == b[i + 1]);
        lemma_king_index_equiv(a.drop_first(), b.drop_first(), colour);
    }
}

/// The non-king movement rule of one piece value reads only squares and
/// colours of the surrounding position.
proof fn lemma_nonking_rule_equiv(
    a: Seq<Piece>,
    b: Seq<Piece>,
    mi: int,
    colour: PieceColour,
    p: Piece,
    q: Piece,
    dest: Square,
    last: Option<MoveRecord>,
)
    requires
        flag_equiv(a, b, mi, colour),
        p.pos == q.pos,
        p.colour == q.colour,
        p.piece_type == q.piece_type,
        p.piece_type == PieceType::Pawn ==> p.has_moved == q.has_moved,
    ensures
        spec_nonking_rule(p, dest, a, last) == spec_nonking_rule(q, dest, b, last),
        spec_threat_valid(p, dest, a, last) == spec_threat_valid(q, dest, b, last),
{
    lemma_path_clear_equiv(a, b, p.pos, dest);
    lemma_occupied_by_equiv(a, b, dest);
}

/// The castling test of one king value reads only what [`flag_equiv`]
/// preserves, since the pieces of the examined side never appear in it as
/// rooks and appear as path threats only through their squares, colours and
/// (for pawns) unchanged records.
proof fn lemma_may_castle_equiv(
    a: Seq<Piece>,
    b: Seq<Piece>,
    mi: int,
    colour: PieceColour,
    king: Piece,
    dest: Square,
)
    requires
        flag_equiv(a, b, mi, colour),
        king.colour == crate::piece::spec_opponent(colour),
    ensures
        spec_may_castle(king, dest, a) == spec_may_castle(king, dest, b),
{
    assert forall|i: int|
        #![trigger castle_rook_ok(a, i, king, dest)]
        #![trigger castle_rook_ok(b, i, king, dest)]
        0 <= i < a.len() implies castle_rook_ok(a, i, king, dest) == castle_rook_ok(
        b,
        i,
        king,
        dest,
    ) by {
        lemma_path_clear_equiv(a, b, king.pos, dest);
        assert(a[mi].colour == colour && colour != king.colour);
        assert(a[i].colour == b[i].colour && a[i].piece_type == b[i].piece_type && a[i].pos
            == b[i].pos);
        if i != mi {
            assert(a[i] == b[i]);
        }
    }
    assert forall|i: int, s: int|
        #![trigger a[i], castle_path_square(king, dest, s)]
        #![trigger b[i], castle_path_square(king, dest, s)]
        0 <= i < a.len() && 0 <= s < 3 implies (a[i].colour == crate::piece::spec_opponent(
        king.colour,
    ) && a[i].piece_type != PieceType::King && spec_threat_valid(
        a[i],
        castle_path_square(king, dest, s),
        a,
        Some((king, king.pos, dest)),
    )) == (b[i].colour == crate::piece::spec_opponent(king.colour) && b[i].piece_type
        != PieceType::King && spec_threat_valid(
        b[i],
        castle_path_square(king, dest, s),
        b,
        Some((king, king.pos, dest)),
    )) by {
        if i == mi {
            assert(a[mi].piece_type != PieceType::Pawn);
        } else {
            assert(a[i] == b[i]);
        }
        lemma_nonking_rule_equiv(a, b, mi, colour, a[i], b[i], castle_path_square(king, dest, s),
            Some((king, king.pos, dest)));
    }
    assert(spec_no_check_in_path(king, dest, a) == spec_no_check_in_path(king, dest, b));
}

/// Structural validity of an attacking piece of the opposing side reads
/// only what [`flag_equiv`] preserves.
proof fn lemma_move_valid_equiv(
    a: Seq<Piece>,
    b: Seq<Piece>,
    mi: int,
    colour: PieceColour,
    i: int,
    dest: Square,
    last: Option<MoveRecord>,
)
    requires
        flag_equiv(a, b, mi, colour),
        0 <= i < a.len(),
        a[i].colour == crate::piece::spec_opponent(colour),
    ensures
        spec_move_valid(a[i], dest, a, last) == spec_move_valid(b[i], dest, b, last),
{
    assert(i != mi);
    assert(a[i] == b[i]);
    lemma_occupied_by_equiv(a, b, dest);
    match a[i].piece_type {
        PieceType::King => {
            lemma_may_castle_equiv(a, b, mi, colour, a[i], dest);
            assert(spec_king_valid(a[i], dest, a) == spec_king_valid(b[i], dest, b));
        },
        _ => {
            lemma_nonking_rule_equiv(a, b, mi, colour, a[i], b[i], dest, last);
        },
    }
}

/// Whether the side `colour` is in check reads only what [`flag_equiv`]
/// preserves: the entry whose first-move flag may differ belongs to
/// `colour` itself and is never an attacker, never a castling rook of the
/// attacking side, and — being no pawn — threatens castling paths
/// independently of its flag.
proof fn lemma_in_check_equiv(
    a: Seq<Piece>,
    b: Seq<Piece>,
    mi: int,
    colour: PieceColour,
    last: Option<MoveRecord>,
)
    requires
        flag_equiv(a, b, mi, colour),
    ensures
        spec_in_check(colour, a, last) == spec_in_check(colour, b, last),
{
    lemma_king_index_equiv(a, b, colour);
    match king_index(a, colour) {
        Some(k) => {
            crate::model::lemma_king_index_props(a, colour);
            assert(a[k].pos == b[k].pos);
            assert forall|i: int|
                #![trigger a[i]]
                #![trigger b[i]]
                0 <= i < a.len() implies (a[i].colour == crate::piece::spec_opponent(colour)
                && spec_move_valid(a[i], a[k].pos, a, last)) == (b[i].colour
                == crate::piece::spec_opponent(colour) && spec_move_valid(
                b[i],
                b[k].pos,
                b,
                last,
            )) by {
                assert(a[i].colour == b[i].colour);
                if a[i].colour == crate::piece::spec_opponent(colour) {
                    lemma_move_valid_equiv(a, b, mi, colour, i, a[k].pos, last);
                }
            }
        },
        None => {},
    }
}

/// Applying a legal plain move or ordinary capture leaves the mover's side
/// out of check in the resulting position: no opposing piece has a valid
/// move onto its king's square afterwards.
///
/// The statement covers the moves whose applied position is the position
/// the check filter simulates, up to the mover's first-move flag: the move
/// is not a castle (the rook's co-movement is not simulated) and not an
/// en-passant capture (the victim off the destination square is not
/// simulated), the board holds at most one piece per square, and the mover
/// is no pawn making its first move (only a pawn's movement rule reads that
/// flag, which the simulation leaves unset).
pub proof fn lemma_applied_move_avoids_check(
    pieces: Seq<Piece>,
    mi: int,
    dest: Square,
    last: Option<MoveRecord>,
)
    requires
        0 <= mi < pieces.len(),
        pieces[mi].has_moved || pieces[mi].piece_type != PieceType::Pawn,
        spec_legal_move(pieces[mi], dest, pieces, last),
        !spec_is_castle(pieces[mi], dest),
        !(spec_capture(pieces, mi, dest, last) matches Some((t, true))),
        forall|i: int, j: int|
            #![trigger pieces[i].pos, pieces[j].pos]
            0 <= i < j < pieces.len() ==> pieces[i].pos != pieces[j].pos,
    ensures
        !spec_in_check(
            pieces[mi].colour,
            spec_pieces_after(pieces, mi, dest, last),
            Some((pieces[mi], pieces[mi].pos, dest)),
        ),
{
    let mover = pieces[mi];
    let rec = Some((mover, mover.pos, dest));
    lemma_legal_move_avoids_check(mover, dest, pieces, last);
    lemma_index_at_props(pieces, dest);
    assert(forall|i: int|
        0 <= i < pieces.len() && i != mi ==> (#[trigger] pieces[i]).pos != mover.pos);
    let sim = simulate_move(pieces, mover, dest);
    let after = spec_pieces_after(pieces, mi, dest, last);
    match spec_capture(pieces, mi, dest, last) {
        Some((t, ep)) => {
            assert(index_at(pieces, dest) == Some(t));
            assert(pieces[t].pos == dest);
            assert(forall|i: int|
                0 <= i < pieces.len() && i != t ==> (#[trigger] pieces[i]).pos != dest);
            assert(pieces[t].colour != mover.colour) by {
                assert(occupied_by(pieces, dest) == Some(pieces[t].colour));
            }
            assert(t != mi);
            lemma_simulate_capture(pieces, mover, dest, mi, t);
        },
        None => {
            assert(index_at(pieces, dest) is None);
            assert(forall|i: int| 0 <= i < pieces.len() ==> (#[trigger] pieces[i]).pos != dest);
            lemma_simulate_no_capture(pieces, mover, dest, mi);
        },
    }
    if mover.has_moved {
        assert(spec_moved(mover, dest) == Piece { pos: dest, ..mover });
        assert(after == sim);
    } else {
        let mi2 = match spec_capture(pieces, mi, dest, last) {
            Some((t, _)) => if t < mi {
                mi - 1
            } else {
                mi
            },
            None => mi,
        };
        assert(flag_equiv(sim, after, mi2, mover.colour)) by {
            assert(sim.len() == after.len());
            assert forall|i: int| 0 <= i < sim.len() implies (#[trigger] sim[i]).pos
                == after[i].pos && sim[i].colour == after[i].colour && sim[i].piece_type
                == after[i].piece_type && (i != mi2 ==> sim[i] == after[i]) by {
                match spec_capture(pieces, mi, dest, last) {
                    Some((t, _)) => {
                        let j = if i < t {
                            i
                        } else {
                            i + 1
                        };
                        assert(sim[i] == pieces.update(mi, Piece { pos: dest, ..mover })[j]);
                        assert(after[i] == pieces.update(mi, spec_moved(mover, dest))[j]);
                    },
                    None => {},
                }
            }
            assert(sim[mi2] == Piece { pos: dest, ..mover });
        }
        lemma_in_check_equiv(sim, after, mi2, mover.colour, rec);
    }
}

/// An applied move leaves no stale origin behind: the applied position
/// holds the mover's record at its destination with its first-move flag
/// set (at its old index, shifted down when a victim before it was
/// removed). Regenerating the mover's legal moves afterwards therefore
/// reflects only the new position, since the legal-move relation is a
/// function of the piece record and the position alone.
pub proof fn lemma_applied_move_updates_mover(
    pieces: Seq<Piece>,
    mi: int,
    dest: Square,
    last: Option<MoveRecord>,
)
    requires
        0 <= mi < pieces.len(),
        pieces[mi].pos != dest,
        (last matches Some(rec) ==> rec.2 != pieces[mi].pos),
    ensures
        ({
            let after = spec_pieces_after(pieces, mi, dest, last);
            let mi2 = match spec_capture(pieces, mi, dest, last) {
                Some((t, _)) => if t < mi {
                    mi - 1
                } else {
                    mi
                },
                None => mi,
            };
            0 <= mi2 < after.len() && after[mi2] == spec_moved(pieces[mi], dest)
        }),
{
    lemma_index_at_props(pieces, dest);
    match last {
        Some(rec) => lemma_index_at_props(pieces, rec.2),
        None => (),
    }
    if spec_is_castle(pieces[mi], dest) {
        crate::game::lemma_rook_index_props(pieces, pieces[mi].colour, dest);
    }
}

/// The fifty-move rule takes priority: when the counter reaches 50
/// half-moves, the status is the fifty-move draw whatever check or
/// checkmate the move would otherwise produce.
pub proof fn lemma_fifty_move_priority(in_check: bool, has_moves: bool)
    ensures
        spec_next_status(in_check, has_moves, 50) == GameStatus::Draw(DrawReason::FiftyMoveRule),
{
}

} // verus!
