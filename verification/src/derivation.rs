//! Program-derived addresses: the seeds of each record kind, and the
//! derivation itself, which the ledger's own library computes.

use crate::address::Address;
use crate::constants::{STAKE_INFO_SEED, TOKEN_SEED, VAULT_SEED};
use solana_program::pubkey::Pubkey;
use vstd::prelude::*;

verus! {

/// The byte strings an address is derived from, in order.
#[derive(Debug, PartialEq, Eq)]
pub struct Seeds {
    pub parts: Vec<Vec<u8>>,
}

impl View for Seeds {
    type V = Seq<Seq<u8>>;

    open spec fn view(&self) -> Seq<Seq<u8>> {
        Seq::new(self.parts@.len(), |i: int| self.parts@[i]@)
    }
}

/// The address that the ledger derives from `seeds` for the program
/// `program_id`, or `None` where it derives none.
pub uninterp spec fn program_address(seeds: Seq<Seq<u8>>, program_id: Seq<u8>) -> Option<Seq<u8>>;

/// The address and bump seed that the ledger's search finds for `seeds` and
/// the program `program_id`, or `None` where it finds none.
pub uninterp spec fn found_program_address(seeds: Seq<Seq<u8>>, program_id: Seq<u8>) -> Option<
    (Seq<u8>, u8),
>;

/// Calls `Pubkey::create_program_address`. Trusted: the result is a function
/// of the seeds and the program id alone; an error of the call is `None`.
#[verifier::external_body]
pub(crate) fn create_program_address(seeds: &Seeds, program_id: &Address) -> (r: Option<Address>)
    ensures
        r.deep_view() == program_address(seeds@, program_id@),
{
    let parts: Vec<&[u8]> = seeds.parts.iter().map(|part| part.as_slice()).collect();
    match Pubkey::create_program_address(&parts, &Pubkey::new_from_array(program_id.bytes)) {
        Ok(key) => Some(Address { bytes: key.to_bytes() }),
        Err(_) => None,
    }
}

/// Calls `Pubkey::try_find_program_address`. Trusted: the result is a
/// function of the seeds and the program id alone, and an address that it
/// finds is the one that `Pubkey::create_program_address` derives from the
/// same seeds followed by the one-byte bump seed.
#[verifier::external_body]
pub(crate) fn try_find_program_address(seeds: &Seeds, program_id: &Address) -> (r: Option<
    (Address, u8),
>)
    ensures
        r.deep_view() == found_program_address(seeds@, program_id@),
        r matches Some((address, bump)) ==> program_address(
            seeds@.push(seq![bump]),
            program_id@,
        ) == Some(address@),
{
    let parts: Vec<&[u8]> = seeds.parts.iter().map(|part| part.as_slice()).collect();
    match Pubkey::try_find_program_address(&parts, &Pubkey::new_from_array(program_id.bytes)) {
        Some((key, bump)) => Some((Address { bytes: key.to_bytes() }, bump)),
        None => None,
    }
}

/// The seeds of the protocol-wide vault.
pub open spec fn vault_seeds() -> Seq<Seq<u8>> {
    seq![VAULT_SEED@]
}

/// The seeds of the stake record of `user`.
pub open spec fn stake_info_seeds(user: Seq<u8>) -> Seq<Seq<u8>> {
    seq![STAKE_INFO_SEED@, user]
}

/// The seeds of the escrow of `user`.
pub open spec fn escrow_seeds(user: Seq<u8>) -> Seq<Seq<u8>> {
    seq![TOKEN_SEED@, user]
}

/// The seeds that authorize a transfer out of the escrow of `user`: the
/// escrow's seeds followed by the bump seed.
pub open spec fn escrow_signer_seeds(user: Seq<u8>, bump: u8) -> Seq<Seq<u8>> {
    seq![TOKEN_SEED@, user, seq![bump]]
}

fn bytes_of<const N: usize>(bytes: &[u8; N]) -> (r: Vec<u8>)
    ensures
        r@ == bytes@,
{
    let mut out: Vec<u8> = Vec::new();
    let mut i: usize = 0;
    while i < N
        invariant
            i <= N,
            out@ == bytes@.take(i as int),
        decreases N - i,
    {
        out.push(bytes[i]);
        i += 1;
    }
    out
}

impl Seeds {
    /// The seeds of the protocol-wide vault.
    pub fn vault() -> (r: Seeds)
        ensures
            r@ == vault_seeds(),
    {
        let mut parts: Vec<Vec<u8>> = Vec::new();
        parts.push(bytes_of(&VAULT_SEED));
        let r = Seeds { parts };
        assert(r@ =~= vault_seeds());
        r
    }

    /// The seeds of the stake record of `user`.
    pub fn stake_info(user: &Address) -> (r: Seeds)
        ensures
            r@ == stake_info_seeds(user@),
    {
        let mut parts: Vec<Vec<u8>> = Vec::new();
        parts.push(bytes_of(&STAKE_INFO_SEED));
        parts.push(user.to_vec());
        let r = Seeds { parts };
        assert(r@ =~= stake_info_seeds(user@));
        r
    }

    /// The seeds of the escrow of `user`.
    pub fn escrow(user: &Address) -> (r: Seeds)
        ensures
            r@ == escrow_seeds(user@),
    {
        let mut parts: Vec<Vec<u8>> = Vec::new();
        parts.push(bytes_of(&TOKEN_SEED));
        parts.push(user.to_vec());
        let r = Seeds { parts };
        assert(r@ =~= escrow_seeds(user@));
        r
    }

    /// The seeds that authorize a transfer out of the escrow of `user`.
    pub fn escrow_signer(user: &Address, bump: u8) -> (r: Seeds)
        ensures
            r@ == escrow_signer_seeds(user@, bump),
    {
        let mut parts: Vec<Vec<u8>> = Vec::new();
        parts.push(bytes_of(&TOKEN_SEED));
        parts.push(user.to_vec());
        let last: Vec<u8> = vec![bump];
        assert(last@ =~= seq![bump]);
        parts.push(last);
        let r = Seeds { parts };
        assert(r@ =~= escrow_signer_seeds(user@, bump));
        r
    }
}

/// Finds the vault's address and bump seed for the program `program_id`.
pub fn find_vault_address(program_id: &Address) -> (r: Option<(Address, u8)>)
    ensures
        r.deep_view() == found_program_address(vault_seeds(), program_id@),
{
    try_find_program_address(&Seeds::vault(), program_id)
}

/// Finds the address and bump seed of the stake record of `user`.
pub fn find_stake_info_address(program_id: &Address, user: &Address) -> (r: Option<(Address, u8)>)
    ensures
        r.deep_view() == found_program_address(stake_info_seeds(user@), program_id@),
{
    try_find_program_address(&Seeds::stake_info(user), program_id)
}

/// Finds the address and bump seed of the escrow of `user`. The seeds that
/// authorize a transfer out of the escrow derive the address found.
pub fn find_escrow_address(program_id: &Address, user: &Address) -> (r: Option<(Address, u8)>)
    ensures
        r.deep_view() == found_program_address(escrow_seeds(user@), program_id@),
        r matches Some((address, bump)) ==> program_address(
            escrow_signer_seeds(user@, bump),
            program_id@,
        ) == Some(address@),
{
    let r = try_find_program_address(&Seeds::escrow(user), program_id);
    proof {
        if let Some((address, bump)) = r {
            assert(escrow_seeds(user@).push(seq![bump]) =~= escrow_signer_seeds(user@, bump));
        }
    }
    r
}

} // verus!
