//! Where a creator's game lives, and the seeds by which the escrow signs for
//! its own account.
//!
//! A game has no key pair. Its address is derived from the fixed label
//! `"game"`, the creator's identity and this program's identity, so anybody
//! can work out where a creator's game is, and a creator has room for one
//! game only.

use vstd::prelude::*;
use crate::identity::Identity;

verus! {

/// This program's identity on the host.
pub const PROGRAM_ID: [u8; 32] = [
    250, 160, 24, 182, 151, 159, 116, 33, 148, 200, 16, 73, 12, 105, 114, 222,
    251, 95, 236, 40, 155, 81, 129, 160, 181, 0, 71, 216, 60, 251, 21, 49,
];

/// The label under which games are filed: the ASCII bytes of `game`.
pub open spec fn game_label() -> Seq<u8> {
    seq![0x67u8, 0x61u8, 0x6du8, 0x65u8]
}

/// The seeds from which a creator's game address is derived.
pub open spec fn game_seeds(creator: Identity) -> Seq<Seq<u8>> {
    seq![game_label(), creator@]
}

/// The seeds with which the escrow signs for a game's account: the address
/// seeds followed by the bump that was found when the address was derived.
pub open spec fn game_signer_seeds(creator: Identity, bump: u8) -> Seq<Seq<u8>> {
    seq![game_label(), creator@, seq![bump]]
}

/// The address that the host derives from `seeds` for the program
/// `program_id`, with the bump that makes it valid; `None` where the host
/// finds none.
pub uninterp spec fn program_address(seeds: Seq<Seq<u8>>, program_id: Seq<u8>) -> Option<
    (Seq<u8>, u8),
>;

/// A list of seeds as plain values.
pub open spec fn seed_bytes(seeds: Seq<Vec<u8>>) -> Seq<Seq<u8>> {
    Seq::new(seeds.len(), |i: int| seeds[i]@)
}

/// An address and its bump as plain values.
pub open spec fn located(found: Option<(Identity, u8)>) -> Option<(Seq<u8>, u8)> {
    match found {
        Some((address, bump)) => Some((address@, bump)),
        None => None,
    }
}

/// Calls `Pubkey::try_find_program_address`. Trusted: the result depends on
/// the seeds and the program's identity alone.
#[verifier::external_body]
pub(crate) fn find_program_address(seeds: &Vec<Vec<u8>>, program_id: &Identity) -> (found: Option<
    (Identity, u8),
>)
    ensures
        located(found) == program_address(seed_bytes(seeds@), program_id@),
{
    let slices: Vec<&[u8]> = seeds.iter().map(|seed| seed.as_slice()).collect();
    let program = anchor_lang::prelude::Pubkey::new_from_array(program_id.bytes);
    match anchor_lang::prelude::Pubkey::try_find_program_address(&slices, &program) {
        Some((address, bump)) => Some((Identity { bytes: address.to_bytes() }, bump)),
        None => None,
    }
}

/// This program's identity.
pub fn program_id() -> (id: Identity)
    ensures
        id.bytes == PROGRAM_ID,
{
    Identity { bytes: PROGRAM_ID }
}

/// The label `game` as bytes.
fn label() -> (bytes: Vec<u8>)
    ensures
        bytes@ == game_label(),
{
    let mut bytes: Vec<u8> = Vec::new();
    bytes.push(0x67);
    bytes.push(0x61);
    bytes.push(0x6d);
    bytes.push(0x65);
    assert(bytes@ =~= game_label());
    bytes
}

/// An identity's bytes as a seed.
fn seed_of(id: &Identity) -> (bytes: Vec<u8>)
    ensures
        bytes@ == id@,
{
    let mut bytes: Vec<u8> = Vec::new();
    let mut i: usize = 0;
    while i < 32
        invariant
            i <= 32,
            bytes@ == id@.subrange(0, i as int),
        decreases 32 - i,
    {
        bytes.push(id.bytes[i]);
        assert(bytes@ =~= id@.subrange(0, i + 1));
        i += 1;
    }
    assert(bytes@ =~= id@);
    bytes
}

/// Where the game of `creator` lives, and the bump of that address. `None`
/// where the host finds no address for this creator.
pub fn game_address(creator: &Identity) -> (found: Option<(Identity, u8)>)
    ensures
        located(found) == program_address(game_seeds(*creator), PROGRAM_ID@),
{
    let mut seeds: Vec<Vec<u8>> = Vec::new();
    seeds.push(label());
    seeds.push(seed_of(creator));
    assert(seed_bytes(seeds@) =~= game_seeds(*creator));
    let program = program_id();
    find_program_address(&seeds, &program)
}

/// The seeds with which the escrow signs for the game of `creator`.
pub fn signer_seeds(creator: &Identity, bump: u8) -> (seeds: Vec<Vec<u8>>)
    ensures
        seed_bytes(seeds@) == game_signer_seeds(*creator, bump),
{
    let mut last: Vec<u8> = Vec::new();
    last.push(bump);
    let mut seeds: Vec<Vec<u8>> = Vec::new();
    seeds.push(label());
    seeds.push(seed_of(creator));
    seeds.push(last);
    assert(seed_bytes(seeds@) =~= game_signer_seeds(*creator, bump)) by {
        assert(seeds@[2]@ =~= seq![bump]);
    }
    seeds
}

} // verus!
