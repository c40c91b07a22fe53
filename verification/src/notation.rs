//! Algebraic-notation rendering: decimal move numbers, the disambiguator
//! (file, rank or full square when several like pieces reach the same
//! destination), and the per-move annotation body with its status suffix.

use vstd::prelude::*;

use crate::event::{spec_record_of, MoveMadeEvent, MoveType};
use crate::legal::is_move_legal;
use crate::model::spec_legal_move;
use crate::piece::{
    all_positions_valid, spec_type_letter, MoveRecord, Piece, PieceType,
};
use crate::square::{spec_file_char, spec_rank_char, spec_square_chars, Square, G_FILE};
use crate::status::GameStatus;

verus! {

/// The decimal digit `d` as a character.
pub open spec fn spec_digit_char(d: int) -> char {
    if d == 0 {
        '0'
    } else if d == 1 {
        '1'
    } else if d == 2 {
        '2'
    } else if d == 3 {
        '3'
    } else if d == 4 {
        '4'
    } else if d == 5 {
        '5'
    } else if d == 6 {
        '6'
    } else if d == 7 {
        '7'
    } else if d == 8 {
        '8'
    } else {
        '9'
    }
}

/// The decimal digits of `n`, most significant first.
pub open spec fn spec_digits(n: nat) -> Seq<char>
    decreases n,
{
    if n < 10 {
        seq![spec_digit_char(n as int)]
    } else {
        spec_digits(n / 10).push(spec_digit_char((n % 10) as int))
    }
}

/// The decimal digit `d` as a string slice.
fn digit_str(d: u32) -> (r: &'static str)
    requires
        d < 10,
    ensures
        r@ == seq![spec_digit_char(d as int)],
{
    proof {
        reveal_strlit("0");
        reveal_strlit("1");
        reveal_strlit("2");
        reveal_strlit("3");
        reveal_strlit("4");
        reveal_strlit("5");
        reveal_strlit("6");
        reveal_strlit("7");
        reveal_strlit("8");
        reveal_strlit("9");
    }
    let s: &'static str = if d == 0 {
        "0"
    } else if d == 1 {
        "1"
    } else if d == 2 {
        "2"
    } else if d == 3 {
        "3"
    } else if d == 4 {
        "4"
    } else if d == 5 {
        "5"
    } else if d == 6 {
        "6"
    } else if d == 7 {
        "7"
    } else if d == 8 {
        "8"
    } else {
        "9"
    };
    proof {
        assert(s@ =~= seq![spec_digit_char(d as int)]);
    }
    s
}

/// Appends the decimal digits of `n` to `s`.
fn push_digits(n: u32, s: &mut String)
    ensures
        final(s)@ == old(s)@ + spec_digits(n as nat),
    decreases n,
{
    if n >= 10 {
        push_digits(n / 10, s);
    }
    s.append(digit_str(n % 10));
    proof {
        assert(s@ =~= old(s)@ + spec_digits(n as nat));
    }
}

/// The decimal rendering of `n`.
pub fn u32_string(n: u32) -> (r: String)
    ensures
        r@ == spec_digits(n as nat),
{
    let mut s = String::new();
    push_digits(n, &mut s);
    proof {
        assert(s@ =~= spec_digits(n as nat));
    }
    s
}

/// The piece at index `i` is a rival of the mover for notation purposes:
/// same colour, same type, a different square, and a legal move onto the
/// same destination.
pub open spec fn spec_candidate(
    pieces: Seq<Piece>,
    i: int,
    mover: Piece,
    dest: Square,
    last: Option<MoveRecord>,
) -> bool {
    &&& pieces[i].colour == mover.colour
    &&& pieces[i].piece_type == mover.piece_type
    &&& pieces[i].pos != mover.pos
    &&& spec_legal_move(pieces[i], dest, pieces, last)
}

/// Some rival shares the mover's file.
pub open spec fn spec_file_ambiguous(
    pieces: Seq<Piece>,
    mover: Piece,
    dest: Square,
    last: Option<MoveRecord>,
) -> bool {
    exists|i: int|
        0 <= i < pieces.len() && #[trigger] spec_candidate(pieces, i, mover, dest, last)
            && pieces[i].pos.file == mover.pos.file
}

/// Some rival shares the mover's rank.
pub open spec fn spec_rank_ambiguous(
    pieces: Seq<Piece>,
    mover: Piece,
    dest: Square,
    last: Option<MoveRecord>,
) -> bool {
    exists|i: int|
        0 <= i < pieces.len() && #[trigger] spec_candidate(pieces, i, mover, dest, last)
            && pieces[i].pos.rank == mover.pos.rank
}

/// Some rival exists at all.
pub open spec fn spec_any_ambiguous(
    pieces: Seq<Piece>,
    mover: Piece,
    dest: Square,
    last: Option<MoveRecord>,
) -> bool {
    exists|i: int| 0 <= i < pieces.len() && #[trigger] spec_candidate(pieces, i, mover, dest, last)
}

/// The minimal extra notation identifying the mover among its rivals: the
/// rank digit when a rival shares its file, the full square when rivals
/// share both file and rank, the file letter when rivals exist but share
/// neither, and nothing when the move is unambiguous.
pub open spec fn spec_disambiguator(
    mover: Piece,
    dest: Square,
    pieces: Seq<Piece>,
    last: Option<MoveRecord>,
) -> Seq<char> {
    if spec_file_ambiguous(pieces, mover, dest, last) {
        if spec_rank_ambiguous(pieces, mover, dest, last) {
            spec_square_chars(mover.pos)
        } else {
            seq![spec_rank_char(mover.pos.rank as int)]
        }
    } else if spec_any_ambiguous(pieces, mover, dest, last) {
        seq![spec_file_char(mover.pos.file as int)]
    } else {
        Seq::empty()
    }
}

/// Computes the disambiguator of a move among the supplied pieces.
pub(crate) fn disambiguator(
    mover: &Piece,
    dest: &Square,
    pieces: &Vec<Piece>,
    last: &Option<MoveRecord>,
) -> (r: String)
    requires
        mover.pos.spec_valid(),
        all_positions_valid(pieces@),
        crate::piece::last_move_valid(*last),
    ensures
        r@ == spec_disambiguator(*mover, *dest, pieces@, *last),
{
    let mut any = false;
    let mut file_amb = false;
    let mut rank_amb = false;
    let mut i: usize = 0;
    while i < pieces.len()
        invariant
            i <= pieces@.len(),
            mover.pos.spec_valid(),
            all_positions_valid(pieces@),
            crate::piece::last_move_valid(*last),
            any ==> spec_any_ambiguous(pieces@, *mover, *dest, *last),
            !any ==> forall|j: int|
                0 <= j < i ==> !#[trigger] spec_candidate(pieces@, j, *mover, *dest, *last),
            file_amb ==> spec_file_ambiguous(pieces@, *mover, *dest, *last),
            !file_amb ==> forall|j: int|
                0 <= j < i ==> !(#[trigger] spec_candidate(pieces@, j, *mover, *dest, *last)
                    && pieces@[j].pos.file == mover.pos.file),
            rank_amb ==> spec_rank_ambiguous(pieces@, *mover, *dest, *last),
            !rank_amb ==> forall|j: int|
                0 <= j < i ==> !(#[trigger] spec_candidate(pieces@, j, *mover, *dest, *last)
                    && pieces@[j].pos.rank == mover.pos.rank),
        decreases pieces@.len() - i,
    {
        let p = pieces[i];
        if p.colour == mover.colour && p.piece_type == mover.piece_type && p.pos != mover.pos
            && is_move_legal(&p, dest, pieces, last) {
            proof {
                assert(spec_candidate(pieces@, i as int, *mover, *dest, *last));
            }
            any = true;
            if p.pos.file == mover.pos.file {
                file_amb = true;
            }
            if p.pos.rank == mover.pos.rank {
                rank_amb = true;
            }
        }
        i += 1;
    }
    if file_amb {
        if rank_amb {
            mover.pos.notation()
        } else {
            mover.pos.rank_annotation()
        }
    } else if any {
        mover.pos.file_annotation()
    } else {
        String::new()
    }
}

/// The status suffix of an annotation: `!` for check, `#` for checkmate,
/// nothing otherwise.
pub open spec fn spec_status_suffix(status: GameStatus) -> Seq<char> {
    match status {
        GameStatus::Check => seq!['!'],
        GameStatus::Checkmate => seq!['#'],
        _ => Seq::empty(),
    }
}

/// The annotation body of an applied move, without the move-number prefix:
/// captures as `<letter-or-pawn-file><disambiguator>x<destination>`, castles
/// as `0-0` or `0-0-0`, plain moves as
/// `<letter><disambiguator><destination>`, each followed by the status
/// suffix. The disambiguator is judged on the position *before* the move,
/// with the move itself as the preceding-move context.
pub open spec fn spec_move_body(
    ev: MoveMadeEvent,
    pieces: Seq<Piece>,
    status: GameStatus,
) -> Seq<char> {
    let dis = spec_disambiguator(ev.piece, ev.destination, pieces, Some(spec_record_of(ev)));
    let suffix = spec_status_suffix(status);
    match ev.move_type {
        MoveType::Take(_) | MoveType::TakeEnPassant(_) => {
            let letter = if ev.piece.piece_type == PieceType::Pawn {
                seq![spec_file_char(ev.piece.pos.file as int)]
            } else {
                spec_type_letter(ev.piece.piece_type)
            };
            letter + dis + seq!['x'] + spec_square_chars(ev.destination) + suffix
        },
        MoveType::Castle => (if ev.destination.file == 6 {
            seq!['0', '-', '0']
        } else {
            seq!['0', '-', '0', '-', '0']
        }) + suffix,
        MoveType::Move => spec_type_letter(ev.piece.piece_type) + dis + spec_square_chars(
            ev.destination,
        ) + suffix,
    }
}

/// Renders the annotation body of an applied move against the pre-move
/// position.
pub(crate) fn move_body(ev: &MoveMadeEvent, pieces: &Vec<Piece>, status: GameStatus) -> (r: String)
    requires
        ev.piece.pos.spec_valid(),
        ev.origin.spec_valid(),
        ev.destination.spec_valid(),
        all_positions_valid(pieces@),
    ensures
        r@ == spec_move_body(*ev, pieces@, status),
{
    proof {
        reveal_strlit("!");
        reveal_strlit("#");
        reveal_strlit("");
        reveal_strlit("x");
        reveal_strlit("0-0");
        reveal_strlit("0-0-0");
    }
    let suffix: &str = match status {
        GameStatus::Check => "!",
        GameStatus::Checkmate => "#",
        _ => "",
    };
    proof {
        assert(suffix@ =~= spec_status_suffix(status));
    }
    match ev.move_type {
        MoveType::Take(_) | MoveType::TakeEnPassant(_) => {
            let mut s = if matches!(ev.piece.piece_type, PieceType::Pawn) {
                ev.piece.pos.file_annotation()
            } else {
                ev.piece.piece_type.notation_letter()
            };
            let dis = disambiguator(&ev.piece, &ev.destination, pieces, &Some(ev.record()));
            s.append(dis.as_str());
            s.append("x");
            let dest = ev.destination.notation();
            s.append(dest.as_str());
            s.append(suffix);
            proof {
                assert(s@ =~= spec_move_body(*ev, pieces@, status));
            }
            s
        },
        MoveType::Castle => {
            let mut s = String::from_str(
                if ev.destination.file == G_FILE {
                    "0-0"
                } else {
                    "0-0-0"
                },
            );
            s.append(suffix);
            proof {
                assert(s@ =~= spec_move_body(*ev, pieces@, status));
            }
            s
        },
        MoveType::Move => {
            let mut s = ev.piece.piece_type.notation_letter();
            let dis = disambiguator(&ev.piece, &ev.destination, pieces, &Some(ev.record()));
            s.append(dis.as_str());
            let dest = ev.destination.notation();
            s.append(dest.as_str());
            s.append(suffix);
            proof {
                assert(s@ =~= spec_move_body(*ev, pieces@, status));
            }
            s
        },
    }
}

/// The full history entry of a White move: the move number, a dot and a
/// space, then the annotation body.
pub open spec fn spec_white_entry(
    number: u32,
    ev: MoveMadeEvent,
    pieces: Seq<Piece>,
    status: GameStatus,
) -> Seq<char> {
    spec_digits(number as nat) + seq!['.', ' '] + spec_move_body(ev, pieces, status)
}

/// Renders the history entry of a White move.
pub(crate) fn white_entry(
    number: u32,
    ev: &MoveMadeEvent,
    pieces: &Vec<Piece>,
    status: GameStatus,
) -> (r: String)
    requires
        ev.piece.pos.spec_valid(),
        ev.origin.spec_valid(),
        ev.destination.spec_valid(),
        all_positions_valid(pieces@),
    ensures
        r@ == spec_white_entry(number, *ev, pieces@, status),
{
    proof {
        reveal_strlit(". ");
    }
    let mut s = u32_string(number);
    s.append(". ");
    let body = move_body(ev, pieces, status);
    s.append(body.as_str());
    proof {
        assert(s@ =~= spec_white_entry(number, *ev, pieces@, status));
    }
    s
}

} // verus!
