//! A two-player wagering escrow.
//!
//! Two players each lock an equal stake in the custody of a game's account.
//! When one of them declares the winner, nine tenths of the pot go to the
//! winner and the rest to the operator named at creation. The library holds
//! the rules: who may do what and when, what is paid to whom, and what is
//! refused. Moving the funds on the host is left to the caller, who is handed
//! the transfer orders to carry out.

pub mod address;
pub mod error;
pub mod escrow;
pub mod game;
pub mod identity;
pub mod instruction;
pub mod laws;
pub mod ledger;
pub mod payout;

pub use address::{game_address, program_id, signer_seeds, PROGRAM_ID};
pub use error::ErrorCode;
pub use escrow::{
    create_game, declare_winner, join_game, CreateGame, DeclareWinner, JoinGame, Settlement,
};
pub use game::{Game, GameAccount};
pub use identity::Identity;
pub use instruction::{AccountMeta, Instruction};
pub use ledger::Ledger;
pub use payout::Payout;
