//! Transfer orders for the host's system program, which is what actually
//! moves funds between accounts.

use vstd::prelude::*;
use crate::identity::Identity;

verus! {

/// An account that an instruction touches.
#[derive(Clone, Copy, Debug, PartialEq, Eq)]
pub struct AccountMeta {
    /// The account's address.
    pub pubkey: Identity,
    /// Whether the account has to authorise the instruction.
    pub is_signer: bool,
    /// Whether the instruction may change the account.
    pub is_writable: bool,
}

/// An order addressed to a program of the host.
#[derive(Debug, PartialEq, Eq)]
pub struct Instruction {
    /// The program that carries the order out.
    pub program_id: Identity,
    /// The accounts it touches, in the order the program expects them.
    pub accounts: Vec<AccountMeta>,
    /// The order itself, in the program's own encoding.
    pub data: Vec<u8>,
}

/// What an instruction says, as plain values.
pub struct InstructionView {
    pub program_id: Identity,
    pub accounts: Seq<AccountMeta>,
    pub data: Seq<u8>,
}

impl View for Instruction {
    type V = InstructionView;

    open spec fn view(&self) -> InstructionView {
        InstructionView { program_id: self.program_id, accounts: self.accounts@, data: self.data@ }
    }
}

/// The bytes by which the system program is told to move `lamports`: the
/// serialised form that `system_instruction::transfer` gives its order.
pub uninterp spec fn transfer_data(lamports: u64) -> Seq<u8>;

/// The order that moves `lamports` from `from` to `to`. It is addressed to the
/// system program, whose identity is all zero bytes; the paying account comes
/// first and must sign, the receiving account comes second, and both are
/// changed.
pub open spec fn transfer_order(from: Identity, to: Identity, lamports: u64) -> InstructionView {
    InstructionView {
        program_id: Identity::unset(),
        accounts: seq![
            AccountMeta { pubkey: from, is_signer: true, is_writable: true },
            AccountMeta { pubkey: to, is_signer: false, is_writable: true },
        ],
        data: transfer_data(lamports),
    }
}

/// Calls `anchor_lang::solana_program::system_instruction::transfer` and
/// copies its result field by field. Trusted: the result is addressed to the
/// system program, lists the payer as a writable signer and then the receiver
/// as writable, and carries the order's serialised form, which depends on the
/// amount alone.
#[verifier::external_body]
pub(crate) fn transfer(from: &Identity, to: &Identity, lamports: u64) -> (order: Instruction)
    ensures
        order.program_id == transfer_order(*from, *to, lamports).program_id,
        order.accounts@ == transfer_order(*from, *to, lamports).accounts,
        order.data@ == transfer_data(lamports),
{
    let built = anchor_lang::solana_program::system_instruction::transfer(
        &anchor_lang::prelude::Pubkey::new_from_array(from.bytes),
        &anchor_lang::prelude::Pubkey::new_from_array(to.bytes),
        lamports,
    );
    Instruction {
        program_id: Identity { bytes: built.program_id.to_bytes() },
        accounts: built.accounts.iter().map(|meta| AccountMeta {
            pubkey: Identity { bytes: meta.pubkey.to_bytes() },
            is_signer: meta.is_signer,
            is_writable: meta.is_writable,
        }).collect(),
        data: built.data,
    }
}

} // verus!
