use vstd::prelude::*;

use crate::error::MoveError;

verus! {

pub const A_FILE: i8 = 0;
pub const B_FILE: i8 = 1;
pub const C_FILE: i8 = 2;
pub const D_FILE: i8 = 3;
pub const E_FILE: i8 = 4;
pub const F_FILE: i8 = 5;
pub const G_FILE: i8 = 6;
pub const H_FILE: i8 = 7;

pub const RANK_1: i8 = 0;
pub const RANK_2: i8 = 1;
pub const RANK_3: i8 = 2;
pub const RANK_4: i8 = 3;
pub const RANK_5: i8 = 4;
pub const RANK_6: i8 = 5;
pub const RANK_7: i8 = 6;
pub const RANK_8: i8 = 7;

/// The distance between two coordinates.
pub open spec fn abs_diff(a: int, b: int) -> int {
    if a >= b {
        a - b
    } else {
        b - a
    }
}

/// A board coordinate. On-board squares have both `rank` and `file` in
/// `0..=7`; off-board values are representable but rejected by
/// [`Square::is_valid`].
#[derive(Clone, Copy, PartialEq, Eq, Structural, Hash, Debug)]
pub struct Square {
    pub rank: i8,
    pub file: i8,
}

impl Square {
    /// Both coordinates lie on the board.
    pub open spec fn spec_valid(self) -> bool {
        &&& 0 <= self.rank <= 7
        &&& 0 <= self.file <= 7
    }

    /// Both coordinates lie close enough to the board for single-step
    /// coordinate arithmetic to stay within machine bounds. Every on-board
    /// square qualifies, as do the squares a castling path can reach.
    pub open spec fn spec_near_board(self) -> bool {
        &&& -16 <= self.rank <= 16
        &&& -16 <= self.file <= 16
    }

    /// The square reached by adding `(dr, df)`, or `None` when the result
    /// would leave the board.
    pub open spec fn spec_try_add(self, dr: int, df: int) -> Option<Square> {
        if 0 <= self.rank + dr <= 7 && 0 <= self.file + df <= 7 {
            Some(Square { rank: (self.rank + dr) as i8, file: (self.file + df) as i8 })
        } else {
            None
        }
    }

    /// Checks if a square is a valid position on a chess board: rank and file
    /// both between 0 and 7.
    pub fn is_valid(&self) -> (r: bool)
        ensures
            r == self.spec_valid(),
    {
        self.rank >= RANK_1 && self.rank <= RANK_8 && self.file >= A_FILE && self.file <= H_FILE
    }

    /// Fallible add operation. Returns `Err(MoveError::InvalidDestination)`
    /// when the resulting position would be off the board.
    pub fn try_add(&self, rhs: (i8, i8)) -> (r: Result<Square, MoveError>)
        ensures
            match self.spec_try_add(rhs.0 as int, rhs.1 as int) {
                Some(sq) => r == Ok::<Square, MoveError>(sq),
                None => r == Err::<Square, MoveError>(MoveError::InvalidDestination),
            },
    {
        let rank = self.rank as i16 + rhs.0 as i16;
        let file = self.file as i16 + rhs.1 as i16;
        if 0 <= rank && rank <= 7 && 0 <= file && file <= 7 {
            Ok(Square { rank: rank as i8, file: file as i8 })
        } else {
            Err(MoveError::InvalidDestination)
        }
    }

    /// True for the light-coloured squares of the board.
    pub fn is_white(&self) -> (r: bool)
        requires
            self.spec_valid(),
        ensures
            r == ((self.rank + self.file + 1) % 2 == 0),
    {
        (self.rank + self.file + 1) % 2 == 0
    }

    /// Returns true if `other` is adjacent to `self`. Adjacency includes
    /// diagonals, and a square counts as adjacent to itself.
    pub fn is_adjacent(&self, other: &Square) -> (r: bool)
        requires
            self.spec_valid(),
            other.spec_valid(),
        ensures
            r == (abs_diff(self.rank as int, other.rank as int) <= 1 && abs_diff(
                self.file as int,
                other.file as int,
            ) <= 1),
    {
        let dr = if self.rank >= other.rank {
            self.rank - other.rank
        } else {
            other.rank - self.rank
        };
        let df = if self.file >= other.file {
            self.file - other.file
        } else {
            other.file - self.file
        };
        dr <= 1 && df <= 1
    }

    /// Returns true if `other` is in the same rank as `self` (true when they
    /// are equal).
    pub fn is_same_rank(&self, other: &Square) -> (r: bool)
        ensures
            r == (self.rank == other.rank),
    {
        self.rank == other.rank
    }

    /// Returns true if `other` is in the same file as `self` (true when they
    /// are equal).
    pub fn is_same_file(&self, other: &Square) -> (r: bool)
        ensures
            r == (self.file == other.file),
    {
        self.file == other.file
    }

    /// Returns true if `other` is on the same diagonal as `self` (true when
    /// they are equal).
    pub fn is_same_diagonal(&self, other: &Square) -> (r: bool)
        requires
            self.spec_valid(),
            other.spec_valid(),
        ensures
            r == (abs_diff(self.rank as int, other.rank as int) == abs_diff(
                self.file as int,
                other.file as int,
            )),
    {
        let dr = if self.rank >= other.rank {
            self.rank - other.rank
        } else {
            other.rank - self.rank
        };
        let df = if self.file >= other.file {
            self.file - other.file
        } else {
            other.file - self.file
        };
        dr == df
    }
}

/// The letter of a file in algebraic notation.
pub open spec fn spec_file_char(f: int) -> char {
    if f == 0 {
        'a'
    } else if f == 1 {
        'b'
    } else if f == 2 {
        'c'
    } else if f == 3 {
        'd'
    } else if f == 4 {
        'e'
    } else if f == 5 {
        'f'
    } else if f == 6 {
        'g'
    } else {
        'h'
    }
}

/// The digit of a rank in algebraic notation (rank 0 is written "1").
pub open spec fn spec_rank_char(r: int) -> char {
    if r == 0 {
        '1'
    } else if r == 1 {
        '2'
    } else if r == 2 {
        '3'
    } else if r == 3 {
        '4'
    } else if r == 4 {
        '5'
    } else if r == 5 {
        '6'
    } else if r == 6 {
        '7'
    } else {
        '8'
    }
}

/// The two characters of a square in algebraic notation, file letter first.
pub open spec fn spec_square_chars(sq: Square) -> Seq<char> {
    seq![spec_file_char(sq.file as int), spec_rank_char(sq.rank as int)]
}

impl Square {
    /// The file letter of the square in algebraic notation.
    pub fn file_annotation(&self) -> (r: String)
        requires
            self.spec_valid(),
        ensures
            r@ == seq![spec_file_char(self.file as int)],
    {
        proof {
            reveal_strlit("a");
            reveal_strlit("b");
            reveal_strlit("c");
            reveal_strlit("d");
            reveal_strlit("e");
            reveal_strlit("f");
            reveal_strlit("g");
            reveal_strlit("h");
        }
        let s: &str = if self.file == A_FILE {
            "a"
        } else if self.file == B_FILE {
            "b"
        } else if self.file == C_FILE {
            "c"
        } else if self.file == D_FILE {
            "d"
        } else if self.file == E_FILE {
            "e"
        } else if self.file == F_FILE {
            "f"
        } else if self.file == G_FILE {
            "g"
        } else {
            "h"
        };
        proof {
            assert(s@ =~= seq![spec_file_char(self.file as int)]);
        }
        String::from_str(s)
    }

    /// The rank digit of the square in algebraic notation.
    pub fn rank_annotation(&self) -> (r: String)
        requires
            self.spec_valid(),
        ensures
            r@ == seq![spec_rank_char(self.rank as int)],
    {
        proof {
            reveal_strlit("1");
            reveal_strlit("2");
            reveal_strlit("3");
            reveal_strlit("4");
            reveal_strlit("5");
            reveal_strlit("6");
            reveal_strlit("7");
            reveal_strlit("8");
        }
        let s: &str = if self.rank == RANK_1 {
            "1"
        } else if self.rank == RANK_2 {
            "2"
        } else if self.rank == RANK_3 {
            "3"
        } else if self.rank == RANK_4 {
            "4"
        } else if self.rank == RANK_5 {
            "5"
        } else if self.rank == RANK_6 {
            "6"
        } else if self.rank == RANK_7 {
            "7"
        } else {
            "8"
        };
        proof {
            assert(s@ =~= seq![spec_rank_char(self.rank as int)]);
        }
        String::from_str(s)
    }

    /// The square in algebraic notation, file letter then rank digit.
    pub fn notation(&self) -> (r: String)
        requires
            self.spec_valid(),
        ensures
            r@ == spec_square_chars(*self),
    {
        let mut s = self.file_annotation();
        let rank = self.rank_annotation();
        s.append(rank.as_str());
        proof {
            assert(s@ =~= spec_square_chars(*self));
        }
        s
    }
}

} // verus!
