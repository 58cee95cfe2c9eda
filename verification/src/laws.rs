//! What holds of the escrow whatever the players, the stake and the wallets.

use vstd::prelude::*;
use crate::error::ErrorCode;
use crate::escrow::{CreateGame, DeclareWinner, JoinGame};
use crate::game::GameAccount;
use crate::identity::Identity;
use crate::payout::{operator_share, payable, pot, winner_share, Payout};

verus! {

/// A game that has just been created holds exactly the creator's stake in
/// custody, its second seat is empty, and its account is well formed.
pub proof fn law_created_game_holds_one_stake(
    ctx: CreateGame,
    wallets: Map<Identity, nat>,
    stake_amount: u64,
    dev_wallet: Identity,
)
    requires
        ctx.outcome(wallets, stake_amount, dev_wallet) is Ok,
    ensures
        ({
            let (account, after) = ctx.outcome(wallets, stake_amount, dev_wallet)->Ok_0;
            &&& account.lamports == stake_amount
            &&& account.data.player2 == Identity::unset()
            &&& !account.data.joined()
            &&& account.wf()
            &&& after[ctx.player1] + stake_amount == wallets[ctx.player1]
        }),
{
}

/// Creation succeeds exactly when the address is free and the creator holds
/// the stake.
pub proof fn law_create_succeeds(
    ctx: CreateGame,
    wallets: Map<Identity, nat>,
    stake_amount: u64,
    dev_wallet: Identity,
)
    ensures
        ctx.outcome(wallets, stake_amount, dev_wallet) is Ok <==> !ctx.in_use
            && wallets[ctx.player1] >= stake_amount,
        ctx.in_use ==> ctx.outcome(wallets, stake_amount, dev_wallet) == Err::<
            (GameAccount, Map<Identity, nat>),
            ErrorCode,
        >(ErrorCode::AlreadyExists),
{
}

/// Once a player has joined, nobody can join the same game again: whoever
/// tries, and whatever they hold, is refused with `GameAlreadyStarted`.
///
/// The first joiner must not be the reserved identity, which would leave the
/// second seat looking empty.
pub proof fn law_join_only_once(
    first: JoinGame,
    wallets: Map<Identity, nat>,
    second: Identity,
    later_wallets: Map<Identity, nat>,
)
    requires
        first.player2 != Identity::unset(),
        first.outcome(wallets) is Ok,
    ensures
        ({
            let (account, _) = first.outcome(wallets)->Ok_0;
            JoinGame { player2: second, game: account }.outcome(later_wallets) == Err::<
                (GameAccount, Map<Identity, nat>),
                ErrorCode,
            >(ErrorCode::GameAlreadyStarted)
        }),
{
}

/// Joining a well-formed game leaves it well formed, with two stakes in
/// custody and the joiner's wallet lighter by one stake.
pub proof fn law_join_doubles_custody(ctx: JoinGame, wallets: Map<Identity, nat>)
    requires
        ctx.game.wf(),
        ctx.player2 != Identity::unset(),
        ctx.outcome(wallets) is Ok,
    ensures
        ({
            let (account, after) = ctx.outcome(wallets)->Ok_0;
            &&& account.wf()
            &&& account.lamports == 2 * ctx.game.data.stake_amount
            &&& account.data.player2 == ctx.player2
            &&& after[ctx.player2] + ctx.game.data.stake_amount == wallets[ctx.player2]
        }),
{
}

/// While the second seat is empty no winner can be declared: a player who
/// tries is refused with `GameNotReady`.
pub proof fn law_no_winner_before_join(
    ctx: DeclareWinner,
    wallets: Map<Identity, nat>,
    winner: Identity,
)
    requires
        !ctx.game.data.joined(),
        !ctx.game.data.is_finished,
        ctx.game.data.is_player(ctx.signer),
    ensures
        ctx.outcome(wallets, winner) == Err::<(GameAccount, Map<Identity, nat>), ErrorCode>(
            ErrorCode::GameNotReady,
        ),
{
}

/// A player who declares somebody who is not a player is refused with
/// `InvalidWinner`.
pub proof fn law_winner_must_be_player(
    ctx: DeclareWinner,
    wallets: Map<Identity, nat>,
    winner: Identity,
)
    requires
        !ctx.game.data.is_finished,
        ctx.game.data.ready(),
        ctx.game.data.is_player(ctx.signer),
        !ctx.game.data.is_player(winner),
    ensures
        ctx.outcome(wallets, winner) == Err::<(GameAccount, Map<Identity, nat>), ErrorCode>(
            ErrorCode::InvalidWinner,
        ),
{
}

/// Somebody who is not a player cannot settle an open game, whoever they
/// declare: they are refused with `NotAPlayer`.
pub proof fn law_only_players_declare(
    ctx: DeclareWinner,
    wallets: Map<Identity, nat>,
    winner: Identity,
)
    requires
        !ctx.game.data.is_finished,
        !ctx.game.data.is_player(ctx.signer),
    ensures
        ctx.outcome(wallets, winner) == Err::<(GameAccount, Map<Identity, nat>), ErrorCode>(
            ErrorCode::NotAPlayer,
        ),
{
}

/// A finished game is never settled again: every declaration is refused with
/// `GameAlreadyFinished`.
pub proof fn law_finished_is_final(
    ctx: DeclareWinner,
    wallets: Map<Identity, nat>,
    winner: Identity,
)
    requires
        ctx.game.data.is_finished,
    ensures
        ctx.outcome(wallets, winner) == Err::<(GameAccount, Map<Identity, nat>), ErrorCode>(
            ErrorCode::GameAlreadyFinished,
        ),
{
}

/// A game is settled once. After a settlement every further declaration on
/// the same game, by whomever and for whomever, is refused with
/// `GameAlreadyFinished`.
pub proof fn law_settle_only_once(
    first: DeclareWinner,
    wallets: Map<Identity, nat>,
    winner: Identity,
    again: Identity,
    later_wallets: Map<Identity, nat>,
    other_winner: Identity,
)
    requires
        first.outcome(wallets, winner) is Ok,
    ensures
        ({
            let (account, _) = first.outcome(wallets, winner)->Ok_0;
            DeclareWinner { signer: again, game: account }.outcome(later_wallets, other_winner)
                == Err::<(GameAccount, Map<Identity, nat>), ErrorCode>(
                ErrorCode::GameAlreadyFinished,
            )
        }),
{
}

/// A settlement records its winner, empties a well-formed game's custody and
/// leaves the game well formed; the pot that leaves custody is twice the
/// stake, the winner's part is nine tenths of it rounded down, and the
/// operator's part is the rest.
pub proof fn law_settlement_pays_the_pot(
    ctx: DeclareWinner,
    wallets: Map<Identity, nat>,
    winner: Identity,
)
    requires
        ctx.outcome(wallets, winner) is Ok,
    ensures
        ({
            let (account, after) = ctx.outcome(wallets, winner)->Ok_0;
            let stake = ctx.game.data.stake_amount as nat;
            let pay = Payout::of(stake);
            &&& account.data.is_finished
            &&& account.data.winner == Some(winner)
            &&& account.data.wf()
            &&& account.lamports + pay.total == ctx.game.lamports
            &&& pay.total == pot(stake)
            &&& pay.winner_amount == winner_share(pot(stake))
            &&& pay.dev_amount == operator_share(pot(stake))
            &&& pay.winner_amount + pay.dev_amount == pay.total
            &&& ctx.game.wf() ==> account.wf() && account.lamports == 0
            &&& winner != ctx.game.data.dev_wallet ==> {
                &&& after[winner] == wallets[winner] + pay.winner_amount
                &&& after[ctx.game.data.dev_wallet] == wallets[ctx.game.data.dev_wallet]
                    + pay.dev_amount
            }
            &&& winner == ctx.game.data.dev_wallet ==> after[winner] == wallets[winner] + pay.total
        }),
{
}

/// Nothing is lost or created by the division of a pot: the two parts make
/// up the pot. The operator's part is a tenth of the pot, rounded up to a
/// whole unit.
pub proof fn law_parts_make_the_pot(total: nat)
    ensures
        winner_share(total) + operator_share(total) == total,
        winner_share(total) <= total,
        10 * operator_share(total) >= total,
        10 * operator_share(total) < total + 100,
{
}

/// A stake whose pot, or ninety times whose pot, does not fit in 64 bits is
/// never paid out wrongly: the players' declaration is refused with
/// `MathError`. Every stake above half of what 64 bits hold is such a stake.
pub proof fn law_overflow_is_refused(
    ctx: DeclareWinner,
    wallets: Map<Identity, nat>,
    winner: Identity,
)
    requires
        !ctx.game.data.is_finished,
        ctx.game.data.ready(),
        ctx.game.data.is_player(ctx.signer),
        ctx.game.data.is_player(winner),
        !payable(ctx.game.data.stake_amount as nat),
    ensures
        ctx.outcome(wallets, winner) == Err::<(GameAccount, Map<Identity, nat>), ErrorCode>(
            ErrorCode::MathError,
        ),
{
}

} // verus!
