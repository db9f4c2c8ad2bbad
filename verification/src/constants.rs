//! The protocol's fixed configuration: derivation seeds and the lock period.

use vstd::prelude::*;

verus! {

/// Seed of the protocol-wide vault: the ASCII bytes of `vault`.
pub const VAULT_SEED: [u8; 5] = [118, 97, 117, 108, 116];

/// Seed of a user's stake record: the ASCII bytes of `stake_info`.
pub const STAKE_INFO_SEED: [u8; 10] = [115, 116, 97, 107, 101, 95, 105, 110, 102, 111];

/// Seed of a user's escrow: the ASCII bytes of `token`.
pub const TOKEN_SEED: [u8; 5] = [116, 111, 107, 101, 110];

/// Slots that must pass between staking and unstaking.
pub const LOCK_PERIOD: u64 = 250;

} // verus!
