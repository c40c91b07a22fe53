//! The game aggregate: the authoritative piece list with stable per-piece
//! identifiers, the turn, the status, the fifty-move counter, the move stack
//! and the annotated history. Every mutation — applying a requested move,
//! resolving a promotion — is a method on this aggregate and happens as a
//! single atomic step: either the whole of relocate piece, remove captured
//! piece, flip turn, recompute status and append history happens, or none of
//! it does.

use vstd::prelude::*;

use crate::error::MoveError;
use crate::event::{
    spec_record_of, spec_resets_counter, MoveMadeEvent, MoveStack, MoveType,
};
use crate::legal::{is_in_check, is_move_legal, player_has_moves};
use crate::model::{index_at, lemma_index_at_props, spec_colour_has_moves, spec_in_check,
    spec_legal_move, spec_may_take_en_passant};
use crate::notation::{
    move_body, spec_move_body, spec_white_entry, white_entry,
};
use crate::piece::{
    all_positions_valid, last_move_valid, spec_opponent, MoveRecord, Piece, PieceColour, PieceType,
};
use crate::square::{abs_diff, Square, D_FILE, F_FILE, G_FILE, RANK_1, RANK_8};
use crate::status::{
    next_counter, next_status, spec_next_counter, spec_next_status, spec_status_continues,
    GameStatus, PlayerTurn,
};

verus! {

/// The annotated move history: one entry per full move, White's move opening
/// the entry and Black's move amending it.
#[derive(Debug)]
pub struct MoveHistory(pub Vec<String>);

// ------------------------------------------------------------------
// First-match helpers over the identifier and piece lists
// ------------------------------------------------------------------

/// The index of the first occurrence of `id`, or `None`.
pub open spec fn id_index(ids: Seq<u64>, id: u64) -> Option<int>
    decreases ids.len(),
{
    if ids.len() <= 0 {
        None
    } else if ids[0] == id {
        Some(0int)
    } else {
        match id_index(ids.drop_first(), id) {
            Some(i) => Some(i + 1),
            None => None,
        }
    }
}

/// What [`id_index`] returns: the first index holding `id`, and `None`
/// exactly when the identifier does not occur.
pub proof fn lemma_id_index_props(ids: Seq<u64>, id: u64)
    ensures
        match id_index(ids, id) {
            Some(i) => 0 <= i < ids.len() && ids[i] == id && (forall|j: int|
                0 <= j < i ==> #[trigger] ids[j] != id),
            None => forall|j: int| 0 <= j < ids.len() ==> #[trigger] ids[j] != id,
        },
    decreases ids.len(),
{
    if ids.len() > 0 && ids[0] != id {
        lemma_id_index_props(ids.drop_first(), id);
        match id_index(ids.drop_first(), id) {
            Some(i) => {
                assert(ids.drop_first()[i] == ids[i + 1]);
                assert forall|j: int| 0 <= j < i + 1 implies #[trigger] ids[j] != id by {
                    if j >= 1 {
                        assert(ids.drop_first()[j - 1] == ids[j]);
                    }
                }
            },
            None => {
                assert forall|j: int| 0 <= j < ids.len() implies #[trigger] ids[j] != id by {
                    if j >= 1 {
                        assert(ids.drop_first()[j - 1] == ids[j]);
                    }
                }
            },
        }
    }
}

/// The per-index filter of the castling-rook search: an unmoved rook of the
/// king's colour within two files of the king's destination.
pub open spec fn castle_rook_filter(p: Piece, colour: PieceColour, dest: Square) -> bool {
    &&& p.piece_type == PieceType::Rook
    &&& !p.has_moved
    &&& p.colour == colour
    &&& abs_diff(p.pos.file as int, dest.file as int) < 3
}

/// The index of the first piece passing [`castle_rook_filter`], or `None`.
pub open spec fn rook_index(pieces: Seq<Piece>, colour: PieceColour, dest: Square) -> Option<int>
    decreases pieces.len(),
{
    if pieces.len() <= 0 {
        None
    } else if castle_rook_filter(pieces[0], colour, dest) {
        Some(0int)
    } else {
        match rook_index(pieces.drop_first(), colour, dest) {
            Some(i) => Some(i + 1),
            None => None,
        }
    }
}

/// What [`rook_index`] returns: the first index passing the filter, and
/// `None` exactly when no piece passes it.
pub proof fn lemma_rook_index_props(pieces: Seq<Piece>, colour: PieceColour, dest: Square)
    ensures
        match rook_index(pieces, colour, dest) {
            Some(i) => 0 <= i < pieces.len() && castle_rook_filter(pieces[i], colour, dest) && (
            forall|j: int|
                0 <= j < i ==> !castle_rook_filter(#[trigger] pieces[j], colour, dest)),
            None => forall|j: int|
                0 <= j < pieces.len() ==> !castle_rook_filter(#[trigger] pieces[j], colour, dest),
        },
    decreases pieces.len(),
{
    if pieces.len() > 0 && !castle_rook_filter(pieces[0], colour, dest) {
        lemma_rook_index_props(pieces.drop_first(), colour, dest);
        match rook_index(pieces.drop_first(), colour, dest) {
            Some(i) => {
                assert(pieces.drop_first()[i] == pieces[i + 1]);
                assert forall|j: int| 0 <= j < i + 1 implies !castle_rook_filter(
                    #[trigger] pieces[j],
                    colour,
                    dest,
                ) by {
                    if j >= 1 {
                        assert(pieces.drop_first()[j - 1] == pieces[j]);
                    }
                }
            },
            None => {
                assert forall|j: int| 0 <= j < pieces.len() implies !castle_rook_filter(
                    #[trigger] pieces[j],
                    colour,
                    dest,
                ) by {
                    if j >= 1 {
                        assert(pieces.drop_first()[j - 1] == pieces[j]);
                    }
                }
            },
        }
    }
}

/// The index of the first occurrence of `id` in the identifier list.
fn find_by_id(ids: &Vec<u64>, id: u64) -> (r: Option<usize>)
    ensures
        match r {
            Some(i) => id_index(ids@, id) == Some(i as int),
            None => id_index(ids@, id) is None,
        },
{
    let mut i: usize = 0;
    while i < ids.len()
        invariant
            i <= ids@.len(),
            forall|j: int| 0 <= j < i ==> #[trigger] ids@[j] != id,
        decreases ids@.len() - i,
    {
        if ids[i] == id {
            proof {
                lemma_id_index_props(ids@, id);
            }
            return Some(i);
        }
        i += 1;
    }
    proof {
        lemma_id_index_props(ids@, id);
    }
    None
}

/// The index of the first piece sitting on `sq`.
fn find_index_at(pieces: &Vec<Piece>, sq: &Square) -> (r: Option<usize>)
    ensures
        match r {
            Some(i) => index_at(pieces@, *sq) == Some(i as int),
            None => index_at(pieces@, *sq) is None,
        },
{
    let mut i: usize = 0;
    while i < pieces.len()
        invariant
            i <= pieces@.len(),
            forall|j: int| 0 <= j < i ==> (#[trigger] pieces@[j]).pos != *sq,
        decreases pieces@.len() - i,
    {
        if pieces[i].pos == *sq {
            proof {
                lemma_index_at_props(pieces@, *sq);
            }
            return Some(i);
        }
        i += 1;
    }
    proof {
        lemma_index_at_props(pieces@, *sq);
    }
    None
}

/// The index of the first piece passing the castling-rook filter.
fn find_castle_rook(pieces: &Vec<Piece>, colour: PieceColour, dest: &Square) -> (r: Option<usize>)
    requires
        all_positions_valid(pieces@),
        dest.spec_valid(),
    ensures
        match r {
            Some(i) => rook_index(pieces@, colour, *dest) == Some(i as int),
            None => rook_index(pieces@, colour, *dest) is None,
        },
{
    let mut i: usize = 0;
    while i < pieces.len()
        invariant
            i <= pieces@.len(),
            all_positions_valid(pieces@),
            dest.spec_valid(),
            forall|j: int|
                0 <= j < i ==> !castle_rook_filter(#[trigger] pieces@[j], colour, *dest),
        decreases pieces@.len() - i,
    {
        let p = pieces[i];
        let dist = if p.pos.file >= dest.file {
            p.pos.file - dest.file
        } else {
            dest.file - p.pos.file
        };
        if matches!(p.piece_type, PieceType::Rook) && !p.has_moved && p.colour == colour && dist
            < 3 {
            proof {
                lemma_rook_index_props(pieces@, colour, *dest);
            }
            return Some(i);
        }
        i += 1;
    }
    proof {
        lemma_rook_index_props(pieces@, colour, *dest);
    }
    None
}

/// A copy of the piece list.
fn clone_pieces(pieces: &Vec<Piece>) -> (r: Vec<Piece>)
    ensures
        r@ == pieces@,
{
    let mut r: Vec<Piece> = Vec::new();
    let mut i: usize = 0;
    while i < pieces.len()
        invariant
            i <= pieces@.len(),
            r@ == pieces@.take(i as int),
        decreases pieces@.len() - i,
    {
        r.push(pieces[i]);
        proof {
            assert(r@ =~= pieces@.take(i as int + 1));
        }
        i += 1;
    }
    proof {
        assert(r@ =~= pieces@);
    }
    r
}

// ------------------------------------------------------------------
// Applying a move
// ------------------------------------------------------------------

/// The requested move is a castling move: the mover is a king moving two
/// files sideways.
pub open spec fn spec_is_castle(piece: Piece, dest: Square) -> bool {
    piece.piece_type == PieceType::King && abs_diff(piece.pos.file as int, dest.file as int) == 2
}

/// Which piece index a move captures, if any: the first piece on the
/// destination square, or — when the destination is empty and the mover may
/// take en passant — the piece on the previous move's destination. The flag
/// marks the en-passant case.
pub open spec fn spec_capture(
    pieces: Seq<Piece>,
    mi: int,
    dest: Square,
    last: Option<MoveRecord>,
) -> Option<(int, bool)> {
    match index_at(pieces, dest) {
        Some(t) => Some((t, false)),
        None => if spec_may_take_en_passant(pieces[mi], dest, last) {
            match last {
                Some(rec) => match index_at(pieces, rec.2) {
                    Some(t) => Some((t, true)),
                    None => None,
                },
                None => None,
            }
        } else {
            None
        },
    }
}

/// A piece after its move: on the destination square, with its first-move
/// flag set.
pub open spec fn spec_moved(piece: Piece, dest: Square) -> Piece {
    Piece { pos: dest, has_moved: true, ..piece }
}

/// Where the rook lands when the king castles to `dest`: the square
/// immediately adjacent to the king's new position on the side it castled
/// toward.
pub open spec fn spec_rook_destination(dest: Square) -> Square {
    Square {
        rank: dest.rank,
        file: if dest.file == 6 {
            5
        } else {
            3
        },
    }
}

/// The event describing the applied move: castling when the mover is a king
/// moving two files, otherwise a plain move or a capture carrying the
/// captured piece's identifier.
pub open spec fn spec_move_event(
    pieces: Seq<Piece>,
    ids: Seq<u64>,
    mi: int,
    dest: Square,
    last: Option<MoveRecord>,
) -> MoveMadeEvent {
    let piece = pieces[mi];
    if spec_is_castle(piece, dest) {
        MoveMadeEvent { piece, origin: piece.pos, destination: dest, move_type: MoveType::Castle }
    } else {
        match spec_capture(pieces, mi, dest, last) {
            Some((t, ep)) => MoveMadeEvent {
                piece,
                origin: piece.pos,
                destination: dest,
                move_type: if ep {
                    MoveType::TakeEnPassant(ids[t])
                } else {
                    MoveType::Take(ids[t])
                },
            },
            None => MoveMadeEvent {
                piece,
                origin: piece.pos,
                destination: dest,
                move_type: MoveType::Move,
            },
        }
    }
}

/// The piece list after applying the move: the mover relocated and marked
/// moved, the castling rook (when the search finds one) co-moved, and the
/// captured piece removed. A castling move onto an occupied square still
/// removes the piece standing there, though the event records a castle.
pub open spec fn spec_pieces_after(
    pieces: Seq<Piece>,
    mi: int,
    dest: Square,
    last: Option<MoveRecord>,
) -> Seq<Piece> {
    let piece = pieces[mi];
    let moved = pieces.update(mi, spec_moved(piece, dest));
    let with_rook = if spec_is_castle(piece, dest) {
        match rook_index(pieces, piece.colour, dest) {
            Some(ri) => moved.update(ri, spec_moved(pieces[ri], spec_rook_destination(dest))),
            None => moved,
        }
    } else {
        moved
    };
    match spec_capture(pieces, mi, dest, last) {
        Some((t, _)) => with_rook.remove(t),
        None => with_rook,
    }
}

/// The identifier list after applying the move: the captured piece's
/// identifier removed.
pub open spec fn spec_ids_after(
    ids: Seq<u64>,
    pieces: Seq<Piece>,
    mi: int,
    dest: Square,
    last: Option<MoveRecord>,
) -> Seq<u64> {
    match spec_capture(pieces, mi, dest, last) {
        Some((t, _)) => ids.remove(t),
        None => ids,
    }
}

/// A saturating increment.
pub open spec fn spec_bump(n: u32) -> u32 {
    if n < u32::MAX {
        (n + 1) as u32
    } else {
        n
    }
}

/// Finds the captured piece of a move to `dest`: the first piece standing on
/// `dest`, else — for a pawn that may take en passant — the piece on the
/// previous move's destination. The flag marks the en-passant case.
fn find_capture(
    pieces: &Vec<Piece>,
    mi: usize,
    dest: &Square,
    last: &Option<MoveRecord>,
) -> (r: (Option<usize>, bool))
    requires
        mi < pieces@.len(),
        pieces@[mi as int].pos.spec_valid(),
        dest.spec_valid(),
        last_move_valid(*last),
    ensures
        match r.0 {
            Some(t) => t < pieces@.len() && spec_capture(pieces@, mi as int, *dest, *last) == Some(
                (t as int, r.1),
            ),
            None => spec_capture(pieces@, mi as int, *dest, *last) is None && r.1 == false,
        },
{
    match find_index_at(pieces, dest) {
        Some(t) => {
            proof {
                lemma_index_at_props(pieces@, *dest);
            }
            (Some(t), false)
        },
        None => {
            let piece = pieces[mi];
            if piece.may_take_en_passant(dest, last) {
                if let Some(rec) = last {
                    match find_index_at(pieces, &rec.2) {
                        Some(t) => {
                            proof {
                                lemma_index_at_props(pieces@, rec.2);
                            }
                            (Some(t), true)
                        },
                        None => (None, false),
                    }
                } else {
                    (None, false)
                }
            } else {
                (None, false)
            }
        },
    }
}

// ------------------------------------------------------------------
// The initial position
// ------------------------------------------------------------------

/// The piece type on file `f` of each back rank: rooks in the corners, then
/// knights, bishops, the queen on file 3 and the king on file 4.
pub open spec fn spec_back_type(f: int) -> PieceType {
    if f == 0 || f == 7 {
        PieceType::Rook
    } else if f == 1 || f == 6 {
        PieceType::Knight
    } else if f == 2 || f == 5 {
        PieceType::Bishop
    } else if f == 3 {
        PieceType::Queen
    } else {
        PieceType::King
    }
}

/// The `i`-th piece of the standard opening position (`i` in `0..32`):
/// White's back rank, White's pawns, Black's back rank, Black's pawns.
pub open spec fn spec_initial_piece(i: int) -> Piece {
    let colour = if i < 16 {
        PieceColour::White
    } else {
        PieceColour::Black
    };
    let j = if i < 16 {
        i
    } else {
        i - 16
    };
    if j < 8 {
        Piece {
            colour,
            piece_type: spec_back_type(j),
            pos: Square {
                rank: if i < 16 {
                    0
                } else {
                    7
                },
                file: j as i8,
            },
            has_moved: false,
        }
    } else {
        Piece {
            colour,
            piece_type: PieceType::Pawn,
            pos: Square {
                rank: if i < 16 {
                    1
                } else {
                    6
                },
                file: (j - 8) as i8,
            },
            has_moved: false,
        }
    }
}

/// Builds the `i`-th piece of the standard opening position.
fn initial_piece(i: usize) -> (p: Piece)
    requires
        i < 32,
    ensures
        p == spec_initial_piece(i as int),
{
    let colour = if i < 16 {
        PieceColour::White
    } else {
        PieceColour::Black
    };
    let j = if i < 16 {
        i
    } else {
        i - 16
    };
    if j < 8 {
        let piece_type = if j == 0 || j == 7 {
            PieceType::Rook
        } else if j == 1 || j == 6 {
            PieceType::Knight
        } else if j == 2 || j == 5 {
            PieceType::Bishop
        } else if j == 3 {
            PieceType::Queen
        } else {
            PieceType::King
        };
        Piece {
            colour,
            piece_type,
            pos: Square {
                rank: if i < 16 {
                    0
                } else {
                    7
                },
                file: j as i8,
            },
            has_moved: false,
        }
    } else {
        Piece {
            colour,
            piece_type: PieceType::Pawn,
            pos: Square {
                rank: if i < 16 {
                    1
                } else {
                    6
                },
                file: (j - 8) as i8,
            },
            has_moved: false,
        }
    }
}

// ------------------------------------------------------------------
// The aggregate
// ------------------------------------------------------------------

/// One game of chess. The fields are readable for specification purposes;
/// all mutation goes through [`Game::request_move`] and
/// [`Game::resolve_promotion`], which keep [`Game::wf`].
pub struct Game {
    /// The live pieces; a captured piece is removed from this list.
    pub pieces: Vec<Piece>,
    /// A stable identifier per live piece, parallel to `pieces`.
    pub ids: Vec<u64>,
    /// The side whose turn it is.
    pub turn: PlayerTurn,
    /// The status derived after the last applied move.
    pub status: GameStatus,
    /// Half-moves since the last pawn move or capture.
    pub fifty_counter: u32,
    /// Full moves opened so far (incremented on each White move).
    pub move_number: u32,
    /// The annotated history, one entry per full move.
    pub history: MoveHistory,
    /// The applied moves, oldest first.
    pub moves: MoveStack,
    /// The piece awaiting a promotion decision, if any. While one is
    /// pending, no move is accepted.
    pub pending_promotion: Option<u64>,
}

impl Game {
    /// The legality context of the next move: the last applied move, if any.
    pub open spec fn spec_last_record(self) -> Option<MoveRecord> {
        if self.moves.stack@.len() == 0 {
            None
        } else {
            Some(spec_record_of(self.moves.stack@.last()))
        }
    }

    /// Well-formedness: identifiers parallel the pieces and are distinct,
    /// every piece is on the board, the recorded last move mentions on-board
    /// squares only, and the history is non-empty whenever Black is to move
    /// or a promotion is pending (those operations amend the latest entry).
    pub open spec fn wf(self) -> bool {
        &&& self.ids@.len() == self.pieces@.len()
        &&& forall|i: int, j: int|
            #![trigger self.ids@[i], self.ids@[j]]
            0 <= i < j < self.ids@.len() ==> self.ids@[i] != self.ids@[j]
        &&& all_positions_valid(self.pieces@)
        &&& last_move_valid(self.spec_last_record())
        &&& (self.turn.0 == PieceColour::Black ==> self.history.0@.len() > 0)
        &&& (self.pending_promotion is Some ==> self.history.0@.len() > 0)
    }

    /// Starts a game from the standard opening position: White to move, no
    /// move made yet.
    pub fn new() -> (r: Game)
        ensures
            r.wf(),
            r.pieces@.len() == 32,
            r.ids@.len() == 32,
            forall|i: int|
                0 <= i < 32 ==> #[trigger] r.pieces@[i] == spec_initial_piece(i) && r.ids@[i] == i
                    as u64,
            r.turn.0 == PieceColour::White,
            r.status == GameStatus::NotStarted,
            r.fifty_counter == 0,
            r.move_number == 0,
            r.history.0@.len() == 0,
            r.moves.stack@.len() == 0,
            r.pending_promotion is None,
    {
        let mut pieces: Vec<Piece> = Vec::new();
        let mut ids: Vec<u64> = Vec::new();
        let mut i: usize = 0;
        while i < 32
            invariant
                i <= 32,
                pieces@.len() == i,
                ids@.len() == i,
                forall|k: int|
                    0 <= k < i ==> #[trigger] pieces@[k] == spec_initial_piece(k) && ids@[k] == k
                        as u64,
            decreases 32 - i,
        {
            pieces.push(initial_piece(i));
            ids.push(i as u64);
            i += 1;
        }
        proof {
            assert forall|k: int| 0 <= k < 32 implies (#[trigger] pieces@[k]).pos
                .spec_valid() by {
                assert(pieces@[k] == spec_initial_piece(k));
            }
            assert forall|a: int, b: int|
                #![trigger ids@[a], ids@[b]]
                0 <= a < b < ids@.len() implies ids@[a] != ids@[b] by {
                assert(pieces@[a] == spec_initial_piece(a) && ids@[a] == a as u64);
                assert(pieces@[b] == spec_initial_piece(b) && ids@[b] == b as u64);
            }
        }
        Game {
            pieces,
            ids,
            turn: PlayerTurn(PieceColour::White),
            status: GameStatus::NotStarted,
            fifty_counter: 0,
            move_number: 0,
            history: MoveHistory(Vec::new()),
            moves: MoveStack { stack: Vec::new() },
            pending_promotion: None,
        }
    }

    /// The last applied move, if any.
    fn last_record(&self) -> (r: Option<MoveRecord>)
        ensures
            r == self.spec_last_record(),
    {
        let n = self.moves.stack.len();
        if n == 0 {
            None
        } else {
            Some(self.moves.stack[n - 1].record())
        }
    }

    /// The side whose turn it is.
    pub fn current_turn(&self) -> (r: PieceColour)
        ensures
            r == self.turn.0,
    {
        self.turn.0
    }

    /// The status derived after the last applied move.
    pub fn current_status(&self) -> (r: GameStatus)
        ensures
            r == self.status,
    {
        self.status
    }

    /// The annotated history.
    pub fn move_history(&self) -> (r: &MoveHistory)
        ensures
            r == &self.history,
    {
        &self.history
    }

    /// The piece awaiting a promotion decision, if any.
    pub fn pending_promotion(&self) -> (r: Option<u64>)
        ensures
            r == self.pending_promotion,
    {
        self.pending_promotion
    }

    /// The live pieces with their identifiers: one `(identifier, colour,
    /// type, square)` row per piece.
    pub fn board_state(&self) -> (r: Vec<(u64, PieceColour, PieceType, Square)>)
        requires
            self.wf(),
        ensures
            r@.len() == self.pieces@.len(),
            forall|i: int|
                0 <= i < r@.len() ==> #[trigger] r@[i] == (
                    self.ids@[i],
                    self.pieces@[i].colour,
                    self.pieces@[i].piece_type,
                    self.pieces@[i].pos,
                ),
    {
        let mut r: Vec<(u64, PieceColour, PieceType, Square)> = Vec::new();
        let mut i: usize = 0;
        while i < self.pieces.len()
            invariant
                i <= self.pieces@.len(),
                self.ids@.len() == self.pieces@.len(),
                r@.len() == i,
                forall|k: int|
                    0 <= k < i ==> #[trigger] r@[k] == (
                        self.ids@[k],
                        self.pieces@[k].colour,
                        self.pieces@[k].piece_type,
                        self.pieces@[k].pos,
                    ),
            decreases self.pieces@.len() - i,
        {
            let p = self.pieces[i];
            r.push((self.ids[i], p.colour, p.piece_type, p.pos));
            i += 1;
        }
        r
    }

    /// Why a requested move is rejected, or `None` when it is applied: a
    /// pending promotion blocks all moves; then the destination must be on
    /// the board, the identifier must name a live piece, the piece must
    /// belong to the side whose turn it is, and the destination must be in
    /// its legal-move set. (A terminal status does not by itself refuse
    /// input; stopping play after checkmate or a draw is the caller's
    /// responsibility, signalled through the status.)
    pub open spec fn spec_reject(self, piece_id: u64, dest: Square) -> Option<MoveError> {
        if self.pending_promotion is Some {
            Some(MoveError::PromotionPending)
        } else if !dest.spec_valid() {
            Some(MoveError::InvalidDestination)
        } else {
            match id_index(self.ids@, piece_id) {
                None => Some(MoveError::NoPieceSelected),
                Some(mi) => {
                    let piece = self.pieces@[mi];
                    if piece.colour != self.turn.0 {
                        Some(MoveError::NotPlayersTurn)
                    } else if !spec_legal_move(
                        piece,
                        dest,
                        self.pieces@,
                        self.spec_last_record(),
                    ) {
                        Some(MoveError::IllegalMove)
                    } else {
                        None
                    }
                },
            }
        }
    }

    /// The legal destinations of the piece carrying `piece_id`, or
    /// `NoPieceSelected` when no live piece does.
    pub fn legal_destinations(&self, piece_id: u64) -> (r: Result<Vec<Square>, MoveError>)
        requires
            self.wf(),
        ensures
            match id_index(self.ids@, piece_id) {
                None => r == Err::<Vec<Square>, MoveError>(MoveError::NoPieceSelected),
                Some(mi) => r matches Ok(v) && (forall|sq: Square| #[trigger]
                    v@.contains(sq) ==> spec_legal_move(
                        self.pieces@[mi],
                        sq,
                        self.pieces@,
                        self.spec_last_record(),
                    )) && (forall|sq: Square| #[trigger]
                    spec_legal_move(self.pieces@[mi], sq, self.pieces@, self.spec_last_record())
                        ==> v@.contains(sq)),
            },
    {
        match find_by_id(&self.ids, piece_id) {
            None => Err(MoveError::NoPieceSelected),
            Some(mi) => {
                proof {
                    lemma_id_index_props(self.ids@, piece_id);
                }
                let piece = self.pieces[mi];
                let last = self.last_record();
                Ok(piece.legal_moves(&self.pieces, last))
            },
        }
    }
}

impl Game {
    /// Validates a move request against the legal-move set of the selected
    /// piece and either applies it — relocating the mover, removing any
    /// captured piece, co-moving the castling rook, updating the fifty-move
    /// counter, recomputing the status from the opponent's perspective,
    /// passing the turn when the game goes on, recording the move and its
    /// annotation, and marking a pawn that reached the back rank as awaiting
    /// promotion — or rejects it leaving the state untouched.
    #[verifier::rlimit(100)]
    #[verifier::spinoff_prover]
    pub fn request_move(&mut self, piece_id: u64, destination: Square) -> (r: Result<
        MoveMadeEvent,
        MoveError,
    >)
        requires
            old(self).wf(),
        ensures
            final(self).wf(),
            match old(self).spec_reject(piece_id, destination) {
                Some(e) => r == Err::<MoveMadeEvent, MoveError>(e) && *final(self) == *old(self),
                None => match id_index(old(self).ids@, piece_id) {
                    Some(mi) => {
                        let pre = old(self).pieces@;
                        let last = old(self).spec_last_record();
                        let ev = spec_move_event(pre, old(self).ids@, mi, destination, last);
                        let pieces2 = spec_pieces_after(pre, mi, destination, last);
                        let rec2 = Some(spec_record_of(ev));
                        let fifty2 = spec_next_counter(
                            old(self).fifty_counter,
                            spec_resets_counter(ev),
                        );
                        let status2 = spec_next_status(
                            spec_in_check(spec_opponent(old(self).turn.0), pieces2, rec2),
                            spec_colour_has_moves(spec_opponent(old(self).turn.0), pieces2, rec2),
                            fifty2,
                        );
                        &&& r == Ok::<MoveMadeEvent, MoveError>(ev)
                        &&& final(self).pieces@ == pieces2
                        &&& final(self).ids@ == spec_ids_after(
                            old(self).ids@,
                            pre,
                            mi,
                            destination,
                            last,
                        )
                        &&& final(self).moves.stack@ == old(self).moves.stack@.push(ev)
                        &&& final(self).fifty_counter == fifty2
                        &&& final(self).status == status2
                        &&& final(self).turn.0 == (if spec_status_continues(status2) {
                            spec_opponent(old(self).turn.0)
                        } else {
                            old(self).turn.0
                        })
                        &&& final(self).move_number == (if ev.piece.colour == PieceColour::White {
                            spec_bump(old(self).move_number)
                        } else {
                            old(self).move_number
                        })
                        &&& final(self).pending_promotion == (if ev.piece.piece_type
                            == PieceType::Pawn && (destination.rank == 0 || destination.rank == 7) {
                            Some(piece_id)
                        } else {
                            None::<u64>
                        })
                        &&& if ev.piece.colour == PieceColour::White {
                            &&& final(self).history.0@.len() == old(self).history.0@.len() + 1
                            &&& (forall|i: int|
                                0 <= i < old(self).history.0@.len() ==> #[trigger] final(self).history.0@[i] == old(self).history.0@[i])
                            &&& final(self).history.0@.last()@ == spec_white_entry(
                                spec_bump(old(self).move_number),
                                ev,
                                pre,
                                status2,
                            )
                        } else {
                            &&& final(self).history.0@.len() == old(self).history.0@.len()
                            &&& old(self).history.0@.len() > 0
                            &&& (forall|i: int|
                                0 <= i < old(self).history.0@.len() - 1 ==> #[trigger] final(self).history.0@[i] == old(self).history.0@[i])
                            &&& final(self).history.0@.last()@ == old(self).history.0@.last()@
                                + seq![' '] + spec_move_body(ev, pre, status2)
                        }
                    },
                    None => false,
                },
            },
    {
        if self.pending_promotion.is_some() {
            return Err(MoveError::PromotionPending);
        }
        if !destination.is_valid() {
            return Err(MoveError::InvalidDestination);
        }
        let mi = match find_by_id(&self.ids, piece_id) {
            Some(i) => i,
            None => {
                return Err(MoveError::NoPieceSelected);
            },
        };
        proof {
            lemma_id_index_props(self.ids@, piece_id);
        }
        let piece = self.pieces[mi];
        if !(piece.colour == self.turn.0) {
            return Err(MoveError::NotPlayersTurn);
        }
        let last = self.last_record();
        if !is_move_legal(&piece, &destination, &self.pieces, &last) {
            return Err(MoveError::IllegalMove);
        }
        let (cap_idx, en_passant) = find_capture(&self.pieces, mi, &destination, &last);
        let file_dist = if piece.pos.file >= destination.file {
            piece.pos.file - destination.file
        } else {
            destination.file - piece.pos.file
        };
        let is_castle = matches!(piece.piece_type, PieceType::King) && file_dist == 2;
        let ev = if is_castle {
            MoveMadeEvent::castling(piece, piece.pos, destination)
        } else {
            let taken_id = match cap_idx {
                Some(t) => Some(self.ids[t]),
                None => None,
            };
            MoveMadeEvent::not_castling(piece, piece.pos, destination, taken_id, en_passant)
        };
        let ghost pre = self.pieces@;
        let ghost pre_ids = self.ids@;
        let ghost lastg = self.spec_last_record();
        proof {
            assert(ev == spec_move_event(pre, pre_ids, mi as int, destination, lastg));
        }
        let pre_vec = clone_pieces(&self.pieces);
        let rook_idx = if is_castle {
            find_castle_rook(&self.pieces, piece.colour, &destination)
        } else {
            None
        };
        self.pieces.set(mi, Piece { pos: destination, has_moved: true, ..piece });
        if let Some(ri) = rook_idx {
            proof {
                lemma_rook_index_props(pre, piece.colour, destination);
            }
            let rook = pre_vec[ri];
            self.pieces.set(
                ri,
                Piece {
                    pos: Square {
                        rank: destination.rank,
                        file: if destination.file == G_FILE {
                            F_FILE
                        } else {
                            D_FILE
                        },
                    },
                    has_moved: true,
                    ..rook
                },
            );
        }
        if let Some(ti) = cap_idx {
            self.pieces.remove(ti);
            self.ids.remove(ti);
        }
        proof {
            assert(self.pieces@ =~= spec_pieces_after(pre, mi as int, destination, lastg));
            assert(self.ids@ =~= spec_ids_after(pre_ids, pre, mi as int, destination, lastg));
            assert forall|k: int| 0 <= k < self.pieces@.len() implies (#[trigger] self.pieces@[k])
                .pos.spec_valid() by {
                let before = match spec_capture(pre, mi as int, destination, lastg) {
                    Some((t, _)) => {
                        if k < t {
                            k
                        } else {
                            k + 1
                        }
                    },
                    None => k,
                };
                assert(pre[before].pos.spec_valid() || self.pieces@[k].pos == destination
                    || self.pieces@[k].pos == spec_rook_destination(destination));
            }
            assert forall|a: int, b: int|
                #![trigger self.ids@[a], self.ids@[b]]
                0 <= a < b < self.ids@.len() implies self.ids@[a] != self.ids@[b] by {
                match spec_capture(pre, mi as int, destination, lastg) {
                    Some((t, _)) => {
                        let a2 = if a < t {
                            a
                        } else {
                            a + 1
                        };
                        let b2 = if b < t {
                            b
                        } else {
                            b + 1
                        };
                        assert(self.ids@[a] == pre_ids[a2] && self.ids@[b] == pre_ids[b2]);
                    },
                    None => {},
                }
            }
        }
        let resets = matches!(piece.piece_type, PieceType::Pawn) || ev.is_take();
        self.fifty_counter = next_counter(self.fifty_counter, resets);
        let new_rec = Some(ev.record());
        let opponent = piece.colour.opponent();
        let check = is_in_check(opponent, &self.pieces, &new_rec);
        let has_moves = player_has_moves(opponent, &self.pieces, &new_rec);
        let new_status = next_status(check, has_moves, self.fifty_counter);
        self.status = new_status;
        if matches!(new_status, GameStatus::Check | GameStatus::OnGoing) {
            self.turn.change();
        }
        if matches!(piece.colour, PieceColour::White) {
            self.move_number = if self.move_number < u32::MAX {
                self.move_number + 1
            } else {
                self.move_number
            };
            let entry = white_entry(self.move_number, &ev, &pre_vec, new_status);
            self.history.0.push(entry);
        } else {
            proof {
                reveal_strlit(" ");
            }
            let n = self.history.0.len();
            let mut amended = self.history.0[n - 1].clone();
            amended.append(" ");
            let body = move_body(&ev, &pre_vec, new_status);
            amended.append(body.as_str());
            self.history.0.set(n - 1, amended);
            proof {
                assert(amended@ =~= old(self).history.0@.last()@ + seq![' '] + spec_move_body(
                    ev,
                    pre,
                    new_status,
                ));
            }
        }
        if matches!(piece.piece_type, PieceType::Pawn) && (destination.rank == RANK_1
            || destination.rank == RANK_8) {
            self.pending_promotion = Some(piece_id);
        }
        self.moves.stack.push(ev);
        Ok(ev)
    }

    /// Resolves a pending promotion: the identified pawn takes the chosen
    /// type (queen, rook, bishop or knight), the latest history entry gains
    /// the `=<letter>` suffix, and moves are accepted again. Rejected — with
    /// the state untouched — when no promotion is pending for `piece_id`
    /// (`NoPieceSelected`) or the chosen type is a king or a pawn
    /// (`IllegalMove`).
    pub fn resolve_promotion(&mut self, piece_id: u64, piece_type: PieceType) -> (r: Result<
        (),
        MoveError,
    >)
        requires
            old(self).wf(),
        ensures
            final(self).wf(),
            ({
                let promotable = piece_type == PieceType::Queen || piece_type == PieceType::Rook
                    || piece_type == PieceType::Bishop || piece_type == PieceType::Knight;
                if old(self).pending_promotion != Some(piece_id) {
                    r == Err::<(), MoveError>(MoveError::NoPieceSelected) && *final(self) == *old(
                        self,
                    )
                } else if !promotable {
                    r == Err::<(), MoveError>(MoveError::IllegalMove) && *final(self) == *old(self)
                } else {
                    match id_index(old(self).ids@, piece_id) {
                        None => r == Err::<(), MoveError>(MoveError::NoPieceSelected) && *final(self) == *old(self),
                        Some(pi) => {
                            &&& r == Ok::<(), MoveError>(())
                            &&& final(self).pieces@ == old(self).pieces@.update(
                                pi,
                                Piece { piece_type, ..old(self).pieces@[pi] },
                            )
                            &&& final(self).pending_promotion is None
                            &&& final(self).history.0@.len() == old(self).history.0@.len()
                            &&& (forall|i: int|
                                0 <= i < old(self).history.0@.len() - 1 ==> #[trigger] final(self).history.0@[i] == old(self).history.0@[i])
                            &&& final(self).history.0@.last()@ == old(self).history.0@.last()@
                                + seq!['='] + crate::piece::spec_type_letter(piece_type)
                            &&& final(self).ids@ == old(self).ids@
                            &&& final(self).turn == old(self).turn
                            &&& final(self).status == old(self).status
                            &&& final(self).fifty_counter == old(self).fifty_counter
                            &&& final(self).move_number == old(self).move_number
                            &&& final(self).moves.stack@ == old(self).moves.stack@
                        },
                    }
                }
            }),
    {
        let pending_matches = match self.pending_promotion {
            Some(id) => id == piece_id,
            None => false,
        };
        if !pending_matches {
            return Err(MoveError::NoPieceSelected);
        }
        let promotable = matches!(
            piece_type,
            PieceType::Queen | PieceType::Rook | PieceType::Bishop | PieceType::Knight
        );
        if !promotable {
            return Err(MoveError::IllegalMove);
        }
        let pi = match find_by_id(&self.ids, piece_id) {
            Some(i) => i,
            None => {
                return Err(MoveError::NoPieceSelected);
            },
        };
        proof {
            lemma_id_index_props(self.ids@, piece_id);
            reveal_strlit("=");
        }
        let piece = self.pieces[pi];
        self.pieces.set(pi, Piece { piece_type, ..piece });
        let n = self.history.0.len();
        let mut amended = self.history.0[n - 1].clone();
        amended.append("=");
        let letter = piece_type.notation_letter();
        amended.append(letter.as_str());
        self.history.0.set(n - 1, amended);
        proof {
            assert(amended@ =~= old(self).history.0@.last()@ + seq!['=']
                + crate::piece::spec_type_letter(piece_type));
        }
        self.pending_promotion = None;
        Ok(())
    }
}

} // verus!
