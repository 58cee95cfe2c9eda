//! The record of one game and the account that holds it.

use vstd::prelude::*;
use crate::identity::Identity;

verus! {

/// One game between two players, from its creation to its settlement.
#[derive(Clone, Copy, Debug, PartialEq, Eq)]
pub struct Game {
    /// Who created the game.
    pub player1: Identity,
    /// Who joined it; the reserved identity until somebody has.
    pub player2: Identity,
    /// What each player deposits.
    pub stake_amount: u64,
    /// Who won, once the game is settled.
    pub winner: Option<Identity>,
    /// Who receives the operator's part of the pot.
    pub dev_wallet: Identity,
    /// Whether the game is settled.
    pub is_finished: bool,
    /// The bump of the address at which the game lives.
    pub bump: u8,
}

impl Game {
    /// Whether a second player has joined.
    pub open spec fn joined(self) -> bool {
        self.player2 != Identity::unset()
    }

    /// Whether both seats are taken.
    pub open spec fn ready(self) -> bool {
        self.player1 != Identity::unset() && self.player2 != Identity::unset()
    }

    /// Whether `who` sits in one of the two seats.
    pub open spec fn is_player(self, who: Identity) -> bool {
        who == self.player1 || who == self.player2
    }

    /// What the players have deposited and the escrow has not yet paid out.
    pub open spec fn deposits(self) -> nat {
        if self.is_finished {
            0
        } else if self.joined() {
            self.stake_amount as nat * 2
        } else {
            self.stake_amount as nat
        }
    }

    /// What holds of every game that was created, joined and settled by the
    /// operations of this library: a game is finished exactly when it has a
    /// winner, only a game with both seats taken is finished, and the winner
    /// is one of its players.
    pub open spec fn wf(self) -> bool {
        &&& self.is_finished <==> self.winner is Some
        &&& self.is_finished ==> self.ready()
        &&& self.winner matches Some(w) ==> self.is_player(w)
    }

    /// Whether `who` sits in one of the two seats.
    pub fn has_player(&self, who: &Identity) -> (seated: bool)
        ensures
            seated == self.is_player(*who),
    {
        *who == self.player1 || *who == self.player2
    }

    /// Whether both seats are taken.
    pub fn is_ready(&self) -> (ready: bool)
        ensures
            ready == self.ready(),
    {
        !self.player1.is_default() && !self.player2.is_default()
    }
}

/// The account in which a game lives: its address, the funds that the escrow
/// holds for the game, and the game's record.
#[derive(Clone, Copy, Debug, PartialEq, Eq)]
pub struct GameAccount {
    /// The address derived for the game's creator.
    pub key: Identity,
    /// The funds in the escrow's custody.
    pub lamports: u64,
    /// The record.
    pub data: Game,
}

impl GameAccount {
    /// The record is well formed and the escrow holds exactly what was
    /// deposited and not yet paid out.
    pub open spec fn wf(self) -> bool {
        &&& self.data.wf()
        &&& self.lamports == self.data.deposits()
    }
}

} // verus!
