//! The game-status state machine: whose turn it is and what the position
//! means for the side about to move (ongoing, check, checkmate, stalemate or
//! a draw).

use vstd::prelude::*;

use crate::piece::{spec_opponent, PieceColour};

verus! {

/// The side whose turn it is to move.
#[derive(Clone, Copy, PartialEq, Eq, Structural, Debug)]
pub struct PlayerTurn(pub PieceColour);

impl PlayerTurn {
    /// Passes the turn to the other side.
    pub fn change(&mut self)
        ensures
            final(self).0 == spec_opponent(old(self).0),
    {
        self.0 = self.0.opponent()
    }
}

impl Default for PlayerTurn {
    /// White moves first.
    fn default() -> (r: Self)
        ensures
            r.0 == PieceColour::White,
    {
        PlayerTurn(PieceColour::White)
    }
}

/// The rules that can end the game in a draw. Fivefold repetition and dead
/// positions are intentionally not checked.
#[derive(Clone, Copy, PartialEq, Eq, Structural, Debug)]
pub enum DrawReason {
    Stalemate,
    FiftyMoveRule,
}

/// The state of the game, recomputed after each applied move from the
/// perspective of the side about to move. `Checkmate` and `Draw` are
/// terminal; the engine signals them through this status and leaves refusing
/// further input to the caller.
#[derive(Clone, Copy, PartialEq, Eq, Structural, Debug)]
pub enum GameStatus {
    NotStarted,
    OnGoing,
    Check,
    Checkmate,
    Draw(DrawReason),
}

impl Default for GameStatus {
    fn default() -> (r: Self)
        ensures
            r == GameStatus::NotStarted,
    {
        GameStatus::NotStarted
    }
}

/// The status after a move, given whether the side about to move is in
/// check, whether it has any legal move, and the fifty-move counter after
/// the move. The fifty-move draw is checked first: reaching 50 half-moves
/// without a pawn move or capture draws the game even when the same move
/// would otherwise deliver checkmate. (Which of the two should win when both
/// apply is a documented design choice, not forced by the rules.)
pub open spec fn spec_next_status(in_check: bool, has_moves: bool, counter: u32) -> GameStatus {
    if counter == 50 {
        GameStatus::Draw(DrawReason::FiftyMoveRule)
    } else if in_check && !has_moves {
        GameStatus::Checkmate
    } else if in_check {
        GameStatus::Check
    } else if !has_moves {
        GameStatus::Draw(DrawReason::Stalemate)
    } else {
        GameStatus::OnGoing
    }
}

/// Whether the game goes on after this status, passing the turn to the other
/// side.
pub open spec fn spec_status_continues(status: GameStatus) -> bool {
    status == GameStatus::Check || status == GameStatus::OnGoing
}

/// The fifty-move counter after a move: 0 when the move resets it (a pawn
/// move or a capture), one more otherwise. The counter saturates at the
/// machine bound, which no finishable game approaches.
pub open spec fn spec_next_counter(counter: u32, resets: bool) -> u32 {
    if resets {
        0
    } else if counter < u32::MAX {
        (counter + 1) as u32
    } else {
        counter
    }
}

/// Executable form of [`spec_next_status`].
pub fn next_status(in_check: bool, has_moves: bool, counter: u32) -> (r: GameStatus)
    ensures
        r == spec_next_status(in_check, has_moves, counter),
{
    if counter == 50 {
        GameStatus::Draw(DrawReason::FiftyMoveRule)
    } else if in_check && !has_moves {
        GameStatus::Checkmate
    } else if in_check {
        GameStatus::Check
    } else if !has_moves {
        GameStatus::Draw(DrawReason::Stalemate)
    } else {
        GameStatus::OnGoing
    }
}

/// Executable form of [`spec_next_counter`].
pub fn next_counter(counter: u32, resets: bool) -> (r: u32)
    ensures
        r == spec_next_counter(counter, resets),
{
    if resets {
        0
    } else if counter < u32::MAX {
        counter + 1
    } else {
        counter
    }
}

} // verus!
