//! The three operations of the escrow: a player creates a game and deposits a
//! stake, a second player joins with an equal stake, and one of the two
//! declares the winner, upon which the pot is paid out.
//!
//! Each operation either happens as a whole or is refused and changes
//! nothing. One that happens also hands back the transfer orders by which the
//! host's system program moves the same funds.

use vstd::prelude::*;
use crate::address::{
    game_address, game_seeds, game_signer_seeds, program_address, seed_bytes, signer_seeds,
    PROGRAM_ID,
};
use crate::error::ErrorCode;
use crate::game::{Game, GameAccount};
use crate::identity::Identity;
use crate::instruction::{transfer, transfer_order, Instruction};
use crate::ledger::{credited, debited, Ledger};
use crate::payout::{payable, Payout};

verus! {

/// The parties to the creation of a game.
#[derive(Clone, Copy, Debug, PartialEq, Eq)]
pub struct CreateGame {
    /// Who creates the game and pays the first stake.
    pub player1: Identity,
    /// The address derived for the creator, where the game is to live.
    pub game: Identity,
    /// The bump of that address.
    pub bump: u8,
    /// Whether a game already lives at that address.
    pub in_use: bool,
}

/// The parties to a second player's joining.
#[derive(Clone, Copy, Debug, PartialEq, Eq)]
pub struct JoinGame {
    /// Who joins and pays the second stake.
    pub player2: Identity,
    /// The game to join.
    pub game: GameAccount,
}

/// The parties to the settlement of a game.
#[derive(Clone, Copy, Debug, PartialEq, Eq)]
pub struct DeclareWinner {
    /// Who declares the winner.
    pub signer: Identity,
    /// The game to settle.
    pub game: GameAccount,
}

/// What a settlement pays, and what the host needs to move the funds.
#[derive(Debug, PartialEq, Eq)]
pub struct Settlement {
    /// The pot and its two parts.
    pub payout: Payout,
    /// The order that pays the winner out of the game's account.
    pub to_winner: Instruction,
    /// The order that pays the operator out of the game's account.
    pub to_dev: Instruction,
    /// The seeds with which the escrow signs both orders for the game's account.
    pub signer_seeds: Vec<Vec<u8>>,
}

impl CreateGame {
    /// The parties to the creation of a game by `player1`, with the game at
    /// the address that the host derives for that creator. `None` where the
    /// host finds no address.
    pub fn for_creator(player1: Identity, in_use: bool) -> (ctx: Option<CreateGame>)
        ensures
            match program_address(game_seeds(player1), PROGRAM_ID@) {
                Some((address, bump)) => {
                    &&& ctx matches Some(parties)
                    &&& parties.player1 == player1
                    &&& parties.game@ == address
                    &&& parties.bump == bump
                    &&& parties.in_use == in_use
                },
                None => ctx is None,
            },
    {
        match game_address(&player1) {
            Some((game, bump)) => Some(CreateGame { player1, game, bump, in_use }),
            None => None,
        }
    }

    /// The account of a game that has just been created: the creator in the
    /// first seat, the second seat empty, one stake in custody.
    pub open spec fn created(self, stake_amount: u64, dev_wallet: Identity) -> GameAccount {
        GameAccount {
            key: self.game,
            lamports: stake_amount,
            data: Game {
                player1: self.player1,
                player2: Identity::unset(),
                stake_amount,
                winner: None,
                dev_wallet,
                is_finished: false,
                bump: self.bump,
            },
        }
    }

    /// What creating a game comes to: the new account and the wallets after
    /// the creator's deposit, or the reason for which it is refused.
    pub open spec fn outcome(
        self,
        wallets: Map<Identity, nat>,
        stake_amount: u64,
        dev_wallet: Identity,
    ) -> Result<(GameAccount, Map<Identity, nat>), ErrorCode> {
        if self.in_use {
            Err(ErrorCode::AlreadyExists)
        } else {
            match debited(wallets, self.player1, stake_amount) {
                Ok(after) => Ok((self.created(stake_amount, dev_wallet), after)),
                Err(e) => Err(e),
            }
        }
    }
}

impl JoinGame {
    /// The game's account once the joiner sits in the second seat and a
    /// second stake is in custody.
    pub open spec fn joined(self) -> GameAccount {
        GameAccount {
            key: self.game.key,
            lamports: (self.game.lamports + self.game.data.stake_amount) as u64,
            data: Game { player2: self.player2, ..self.game.data },
        }
    }

    /// What joining comes to: the game's account and the wallets after the
    /// joiner's deposit, or the reason for which it is refused.
    pub open spec fn outcome(self, wallets: Map<Identity, nat>) -> Result<
        (GameAccount, Map<Identity, nat>),
        ErrorCode,
    > {
        if self.game.data.joined() {
            Err(ErrorCode::GameAlreadyStarted)
        } else if self.game.lamports + self.game.data.stake_amount > u64::MAX {
            Err(ErrorCode::InsufficientFunds)
        } else {
            match debited(wallets, self.player2, self.game.data.stake_amount) {
                Ok(after) => Ok((self.joined(), after)),
                Err(e) => Err(e),
            }
        }
    }
}

impl DeclareWinner {
    /// The game's account once the pot has left custody and `winner` is
    /// recorded.
    pub open spec fn settled(self, winner: Identity) -> GameAccount {
        GameAccount {
            key: self.game.key,
            lamports: (self.game.lamports - Payout::of(
                self.game.data.stake_amount as nat,
            ).total) as u64,
            data: Game { is_finished: true, winner: Some(winner), ..self.game.data },
        }
    }

    /// The first reason, if any, for which the declaration is refused before
    /// any funds are touched. A finished game is refused whoever asks; then
    /// the caller must be a player, both seats must be taken, the declared
    /// winner must be a player, the division of the pot must fit in 64 bits,
    /// and the pot must be in custody.
    pub open spec fn refusal(self, winner: Identity) -> Option<ErrorCode> {
        let game = self.game.data;
        if game.is_finished {
            Some(ErrorCode::GameAlreadyFinished)
        } else if !game.is_player(self.signer) {
            Some(ErrorCode::NotAPlayer)
        } else if !game.ready() {
            Some(ErrorCode::GameNotReady)
        } else if !game.is_player(winner) {
            Some(ErrorCode::InvalidWinner)
        } else if !payable(game.stake_amount as nat) {
            Some(ErrorCode::MathError)
        } else if self.game.lamports < Payout::of(game.stake_amount as nat).total {
            Some(ErrorCode::InsufficientFunds)
        } else {
            None
        }
    }

    /// What declaring `winner` comes to: the settled account and the wallets
    /// after both payments, or the reason for which it is refused.
    pub open spec fn outcome(self, wallets: Map<Identity, nat>, winner: Identity) -> Result<
        (GameAccount, Map<Identity, nat>),
        ErrorCode,
    > {
        let pay = Payout::of(self.game.data.stake_amount as nat);
        match self.refusal(winner) {
            Some(e) => Err(e),
            None => match credited(wallets, winner, pay.winner_amount) {
                Err(e) => Err(e),
                Ok(paid) => match credited(paid, self.game.data.dev_wallet, pay.dev_amount) {
                    Err(e) => Err(e),
                    Ok(after) => Ok((self.settled(winner), after)),
                },
            },
        }
    }
}

impl Settlement {
    /// Whether this is the settlement of `game` in favour of `winner`: the
    /// division of the pot, one order from the game's account to the winner
    /// and one to the operator, and the game's signing seeds.
    pub open spec fn settles(self, game: GameAccount, winner: Identity) -> bool {
        let pay = Payout::of(game.data.stake_amount as nat);
        &&& self.payout == pay
        &&& self.to_winner@ == transfer_order(game.key, winner, pay.winner_amount)
        &&& self.to_dev@ == transfer_order(game.key, game.data.dev_wallet, pay.dev_amount)
        &&& seed_bytes(self.signer_seeds@) == game_signer_seeds(game.data.player1, game.data.bump)
    }
}

/// Creates the game of `ctx.player1` and deposits the creator's stake.
///
/// Refused with `AlreadyExists` when a game already lives at the creator's
/// address, and with `InsufficientFunds` when the creator holds less than the
/// stake. Otherwise the stake leaves the creator's wallet, and the result is
/// the new game's account, with the stake in custody and the second seat
/// empty, and the order that moves the stake from the creator to the game's
/// address.
pub fn create_game(
    ctx: &CreateGame,
    wallets: &mut Ledger,
    stake_amount: u64,
    dev_wallet: Identity,
) -> (r: Result<(GameAccount, Instruction), ErrorCode>)
    ensures
        match ctx.outcome(old(wallets)@, stake_amount, dev_wallet) {
            Ok((account, after)) => {
                &&& r matches Ok((created, deposit))
                &&& created == account
                &&& deposit@ == transfer_order(ctx.player1, ctx.game, stake_amount)
                &&& final(wallets)@ == after
            },
            Err(e) => {
                &&& r matches Err(refused)
                &&& refused == e
                &&& final(wallets)@ == old(wallets)@
            },
        },
{
    if ctx.in_use {
        return Err(ErrorCode::AlreadyExists);
    }
    match wallets.debit(ctx.player1, stake_amount) {
        Ok(()) => {},
        Err(e) => { return Err(e); },
    }
    let data = Game {
        player1: ctx.player1,
        player2: Identity::default(),
        stake_amount,
        winner: None,
        dev_wallet,
        is_finished: false,
        bump: ctx.bump,
    };
    let account = GameAccount { key: ctx.game, lamports: stake_amount, data };
    let deposit = transfer(&ctx.player1, &ctx.game, stake_amount);
    Ok((account, deposit))
}

/// Seats `ctx.player2` in the game and deposits the joiner's stake.
///
/// The stake is the one recorded in the game; `_stake_amount` is not
/// consulted. Refused with `GameAlreadyStarted` when the second seat is
/// taken, and with `InsufficientFunds` when the joiner holds less than the
/// stake or the custody cannot hold a second stake. Otherwise the stake
/// leaves the joiner's wallet and enters custody, the joiner is recorded, and
/// the result is the order that moves the stake from the joiner to the game's
/// address.
pub fn join_game(ctx: &mut JoinGame, wallets: &mut Ledger, _stake_amount: u64) -> (r: Result<
    Instruction,
    ErrorCode,
>)
    ensures
        final(ctx).player2 == old(ctx).player2,
        match old(ctx).outcome(old(wallets)@) {
            Ok((account, after)) => {
                &&& r matches Ok(deposit)
                &&& deposit@ == transfer_order(
                    old(ctx).player2,
                    old(ctx).game.key,
                    old(ctx).game.data.stake_amount,
                )
                &&& final(ctx).game == account
                &&& final(wallets)@ == after
            },
            Err(e) => {
                &&& r matches Err(refused)
                &&& refused == e
                &&& *final(ctx) == *old(ctx)
                &&& final(wallets)@ == old(wallets)@
            },
        },
{
    if !ctx.game.data.player2.is_default() {
        return Err(ErrorCode::GameAlreadyStarted);
    }
    let stake = ctx.game.data.stake_amount;
    let custody = match ctx.game.lamports.checked_add(stake) {
        Some(sum) => sum,
        None => { return Err(ErrorCode::InsufficientFunds); },
    };
    match wallets.debit(ctx.player2, stake) {
        Ok(()) => {},
        Err(e) => { return Err(e); },
    }
    ctx.game.data.player2 = ctx.player2;
    ctx.game.lamports = custody;
    Ok(transfer(&ctx.player2, &ctx.game.key, stake))
}

/// Settles the game in favour of `winner`: nine tenths of the pot go to the
/// winner, the rest to the operator recorded in the game.
///
/// Refused, in this order, with `GameAlreadyFinished` when the game is
/// settled already, `NotAPlayer` when the caller is neither player,
/// `GameNotReady` when a seat is empty, `InvalidWinner` when `winner` is
/// neither player, `MathError` when the division of the pot does not fit in
/// 64 bits, and `InsufficientFunds` when the pot is not in custody or one of
/// the two wallets cannot hold its part. Otherwise the pot leaves custody,
/// both wallets receive their parts, the game is recorded as finished with
/// its winner, and the result holds the division and the two orders that pay
/// the winner and the operator out of the game's account.
pub fn declare_winner(ctx: &mut DeclareWinner, wallets: &mut Ledger, winner: Identity) -> (r:
    Result<Settlement, ErrorCode>)
    ensures
        final(ctx).signer == old(ctx).signer,
        match old(ctx).outcome(old(wallets)@, winner) {
            Ok((account, after)) => {
                &&& r matches Ok(settlement)
                &&& settlement.settles(old(ctx).game, winner)
                &&& final(ctx).game == account
                &&& final(wallets)@ == after
            },
            Err(e) => {
                &&& r matches Err(refused)
                &&& refused == e
                &&& *final(ctx) == *old(ctx)
                &&& final(wallets)@ == old(wallets)@
            },
        },
{
    let game = ctx.game.data;
    if game.is_finished {
        return Err(ErrorCode::GameAlreadyFinished);
    }
    if !game.has_player(&ctx.signer) {
        return Err(ErrorCode::NotAPlayer);
    }
    if !game.is_ready() {
        return Err(ErrorCode::GameNotReady);
    }
    if !game.has_player(&winner) {
        return Err(ErrorCode::InvalidWinner);
    }
    let payout = match Payout::split(game.stake_amount) {
        Ok(p) => p,
        Err(e) => { return Err(e); },
    };
    let custody = match ctx.game.lamports.checked_sub(payout.total) {
        Some(rest) => rest,
        None => { return Err(ErrorCode::InsufficientFunds); },
    };
    match wallets.credit(winner, payout.winner_amount) {
        Ok(()) => {},
        Err(e) => { return Err(e); },
    }
    match wallets.credit(game.dev_wallet, payout.dev_amount) {
        Ok(()) => {},
        Err(e) => {
            // The winner's part must not stay behind when the operator's
            // cannot be paid.
            proof {
                old(wallets).lemma_total();
            }
            let undone = wallets.debit(winner, payout.winner_amount);
            assert(undone is Ok);
            assert(wallets@ =~= old(wallets)@);
            return Err(e);
        },
    }
    let to_winner = transfer(&ctx.game.key, &winner, payout.winner_amount);
    let to_dev = transfer(&ctx.game.key, &game.dev_wallet, payout.dev_amount);
    let seeds = signer_seeds(&game.player1, game.bump);
    ctx.game.lamports = custody;
    ctx.game.data.is_finished = true;
    ctx.game.data.winner = Some(winner);
    Ok(Settlement { payout, to_winner, to_dev, signer_seeds: seeds })
}

} // verus!
