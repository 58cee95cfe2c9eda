//! How the pot is divided: nine tenths to the winner, the rest to the operator.

use vstd::prelude::*;
use crate::error::ErrorCode;

verus! {

/// Percentage of the pot that goes to the winner.
pub const WINNER_PERCENT: u64 = 90;

/// The pot: both players' stakes.
pub open spec fn pot(stake: nat) -> nat {
    stake * 2
}

/// The winner's part of a pot, rounded down to a whole unit.
pub open spec fn winner_share(total: nat) -> nat {
    (total * 90) / 100
}

/// The operator's part of a pot: whatever the winner does not get.
pub open spec fn operator_share(total: nat) -> nat {
    (total - winner_share(total)) as nat
}

/// Whether the division of the pot can be computed in 64 bits. The largest
/// intermediate value is the pot multiplied by ninety.
pub open spec fn payable(stake: nat) -> bool {
    pot(stake) * 90 <= u64::MAX
}

/// The pot and its two parts.
#[derive(Clone, Copy, Debug, PartialEq, Eq, Structural)]
pub struct Payout {
    pub total: u64,
    pub winner_amount: u64,
    pub dev_amount: u64,
}

impl Payout {
    /// The division of the pot for a given stake.
    pub open spec fn of(stake: nat) -> Payout
        recommends
            payable(stake),
    {
        Payout {
            total: pot(stake) as u64,
            winner_amount: winner_share(pot(stake)) as u64,
            dev_amount: operator_share(pot(stake)) as u64,
        }
    }

    /// Divides the pot of two equal stakes, refusing with `MathError` when an
    /// intermediate value would not fit in 64 bits.
    pub fn split(stake_amount: u64) -> (r: Result<Payout, ErrorCode>)
        ensures
            payable(stake_amount as nat) ==> r == Ok::<Payout, ErrorCode>(
                Payout::of(stake_amount as nat),
            ),
            !payable(stake_amount as nat) ==> r == Err::<Payout, ErrorCode>(ErrorCode::MathError),
    {
        let total = match stake_amount.checked_mul(2) {
            Some(t) => t,
            None => { return Err(ErrorCode::MathError); },
        };
        let scaled = match total.checked_mul(WINNER_PERCENT) {
            Some(s) => s,
            None => { return Err(ErrorCode::MathError); },
        };
        let winner_amount = match scaled.checked_div(100) {
            Some(w) => w,
            None => { return Err(ErrorCode::MathError); },
        };
        let dev_amount = match total.checked_sub(winner_amount) {
            Some(d) => d,
            None => { return Err(ErrorCode::MathError); },
        };
        Ok(Payout { total, winner_amount, dev_amount })
    }
}

} // verus!
