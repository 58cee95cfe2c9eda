//! Why an escrow operation was refused.

use vstd::prelude::*;

verus! {

/// The reason an operation was refused. A refused operation changes nothing.
#[derive(Clone, Copy, Debug, PartialEq, Eq, Structural)]
pub enum ErrorCode {
    /// The game has already been settled.
    GameAlreadyFinished,
    /// The caller is neither of the two players.
    NotAPlayer,
    /// A winner was declared before both players had joined.
    GameNotReady,
    /// The declared winner is neither of the two players.
    InvalidWinner,
    /// The payout does not fit in 64 bits.
    MathError,
    /// A second player has already joined.
    GameAlreadyStarted,
    /// A game already lives at the creator's address.
    AlreadyExists,
    /// A deposit or a payout cannot be carried out.
    InsufficientFunds,
}

} // verus!
