use vstd::prelude::*;

verus! {

/// The ways a move request can be rejected.
///
/// All of these are recoverable: the engine leaves its state untouched when it
/// returns one of them.
#[derive(Clone, Copy, PartialEq, Eq, Structural, Debug)]
pub enum MoveError {
    /// The requested destination square lies off the board.
    InvalidDestination,
    /// No live piece carries the requested identifier.
    NoPieceSelected,
    /// The destination is not in the selected piece's legal-move set.
    IllegalMove,
    /// A promotion decision is still outstanding; no move is accepted until it
    /// is resolved.
    PromotionPending,
    /// The selected piece does not belong to the side whose turn it is.
    NotPlayersTurn,
}

} // verus!
