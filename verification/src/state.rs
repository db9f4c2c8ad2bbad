//! A user's stake record and the rules that guard its two states.

use crate::constants::LOCK_PERIOD;
use crate::error::ErrorCode;
use vstd::prelude::*;

verus! {

/// A user's stake record: whether a position is open, and the slot at which
/// it was opened or, once closed, at which it was closed.
#[derive(Clone, Copy, Debug, PartialEq, Eq, Structural)]
pub struct StakeInfo {
    pub stake_at_slot: u64,
    pub is_staked: bool,
}

/// The two states of a user.
#[derive(Clone, Copy, Debug, PartialEq, Eq, Structural)]
pub enum StakeState {
    /// No position is open.
    Idle,
    /// A position is open and its tokens are in escrow.
    Locked,
}

/// Ten to the power of `decimals`.
pub open spec fn pow10(decimals: nat) -> nat
    decreases decimals,
{
    if decimals == 0 {
        1
    } else {
        10 * pow10((decimals - 1) as nat)
    }
}

/// `amount` whole tokens in base units of a token with `decimals` decimal
/// places.
pub open spec fn base_units(amount: u64, decimals: u8) -> nat {
    amount as nat * pow10(decimals as nat)
}

/// A power of ten is positive, and no larger than a higher one.
pub proof fn lemma_pow10_grows(lower: nat, higher: nat)
    requires
        lower <= higher,
    ensures
        0 < pow10(lower) <= pow10(higher),
    decreases higher,
{
    if higher > 0 {
        if lower < higher {
            lemma_pow10_grows(lower, (higher - 1) as nat);
        } else {
            lemma_pow10_grows((lower - 1) as nat, (higher - 1) as nat);
        }
    }
}

/// A positive amount is a positive quantity in base units.
pub proof fn lemma_base_units_positive(amount: u64, decimals: u8)
    requires
        amount > 0,
    ensures
        base_units(amount, decimals) > 0,
{
    lemma_pow10_grows(0, decimals as nat);
    assert(amount as nat * pow10(decimals as nat) > 0) by (nonlinear_arith)
        requires
            amount > 0,
            pow10(decimals as nat) > 0,
    ;
}

/// Whether a position opened at slot `started` may be closed at slot `now`.
pub open spec fn lock_elapsed(started: u64, now: u64) -> bool {
    now - started >= LOCK_PERIOD
}

/// What stands in the way of opening a position with `amount` tokens, the
/// amount tested first.
pub open spec fn stake_refusal(info: StakeInfo, amount: u64) -> Option<ErrorCode> {
    if amount == 0 {
        Some(ErrorCode::NoTokens)
    } else if info.is_staked {
        Some(ErrorCode::IsStaked)
    } else {
        None
    }
}

/// What stands in the way of closing the position at slot `now`, the state
/// tested first.
pub open spec fn unstake_refusal(info: StakeInfo, now: u64) -> Option<ErrorCode> {
    if !info.is_staked {
        Some(ErrorCode::NotStaked)
    } else if !lock_elapsed(info.stake_at_slot, now) {
        Some(ErrorCode::LockPeriodNotMet)
    } else {
        None
    }
}

impl StakeInfo {
    /// The record as it is first allocated: no position, slot zero.
    pub fn new() -> (r: StakeInfo)
        ensures
            r == (StakeInfo { stake_at_slot: 0, is_staked: false }),
    {
        StakeInfo { stake_at_slot: 0, is_staked: false }
    }

    pub open spec fn spec_state(&self) -> StakeState {
        if self.is_staked {
            StakeState::Locked
        } else {
            StakeState::Idle
        }
    }

    /// The state that the record stands for.
    #[verifier::when_used_as_spec(spec_state)]
    pub fn state(&self) -> (r: StakeState)
        ensures
            r == self.spec_state(),
    {
        if self.is_staked {
            StakeState::Locked
        } else {
            StakeState::Idle
        }
    }

    /// Tests whether a position with `amount` tokens may be opened.
    pub fn check_stake(&self, amount: u64) -> (r: Result<(), ErrorCode>)
        ensures
            match stake_refusal(*self, amount) {
                Some(e) => r == Err::<(), ErrorCode>(e),
                None => r is Ok,
            },
    {
        if amount == 0 {
            Err(ErrorCode::NoTokens)
        } else if self.is_staked {
            Err(ErrorCode::IsStaked)
        } else {
            Ok(())
        }
    }

    /// Tests whether the position may be closed at slot `now`.
    pub fn check_unstake(&self, now: u64) -> (r: Result<(), ErrorCode>)
        ensures
            match unstake_refusal(*self, now) {
                Some(e) => r == Err::<(), ErrorCode>(e),
                None => r is Ok,
            },
    {
        if !self.is_staked {
            Err(ErrorCode::NotStaked)
        } else if now < self.stake_at_slot || now - self.stake_at_slot < LOCK_PERIOD {
            Err(ErrorCode::LockPeriodNotMet)
        } else {
            Ok(())
        }
    }

    /// Opens the position at slot `now`.
    pub fn open(&mut self, now: u64)
        ensures
            *final(self) == (StakeInfo { stake_at_slot: now, is_staked: true }),
    {
        self.stake_at_slot = now;
        self.is_staked = true;
    }

    /// Closes the position at slot `now`.
    pub fn close(&mut self, now: u64)
        ensures
            *final(self) == (StakeInfo { stake_at_slot: now, is_staked: false }),
    {
        self.is_staked = false;
        self.stake_at_slot = now;
    }
}

/// `amount` whole tokens in base units, or `None` where that is more than a
/// balance can hold.
pub fn scale_amount(amount: u64, decimals: u8) -> (r: Option<u64>)
    ensures
        r == if base_units(amount, decimals) <= u64::MAX {
            Some(base_units(amount, decimals) as u64)
        } else {
            None
        },
{
    let mut scaled: u64 = amount;
    let mut i: u8 = 0;
    assert(pow10(0) == 1);
    while i < decimals
        invariant
            i <= decimals,
            scaled == amount as nat * pow10(i as nat),
        decreases decimals - i,
    {
        proof {
            assert(amount as nat * pow10((i + 1) as nat) == scaled * 10) by (nonlinear_arith)
                requires
                    scaled == amount as nat * pow10(i as nat),
                    pow10((i + 1) as nat) == 10 * pow10(i as nat),
            ;
        }
        match scaled.checked_mul(10) {
            Some(next) => {
                scaled = next;
            },
            None => {
                proof {
                    lemma_pow10_grows((i + 1) as nat, decimals as nat);
                    assert(amount as nat * pow10(decimals as nat) >= amount as nat * pow10(
                        (i + 1) as nat,
                    )) by (nonlinear_arith)
                        requires
                            pow10(decimals as nat) >= pow10((i + 1) as nat),
                    ;
                }
                return None;
            },
        }
        i += 1;
    }
    Some(scaled)
}

} // verus!
