//! Why an operation was refused.

use vstd::prelude::*;

verus! {

/// The protocol's own refusals.
#[derive(Clone, Copy, Debug, PartialEq, Eq, Structural)]
pub enum ErrorCode {
    /// The user already has an open position.
    IsStaked,
    /// The user has no open position.
    NotStaked,
    /// The amount to stake is not positive.
    NoTokens,
    /// The lock period has not passed yet.
    LockPeriodNotMet,
    /// The vault cannot pay a reward. No operation returns it: rewards are
    /// not paid.
    InsufficientVaultBalance,
    /// The vault exists already.
    AlreadyInitialized,
}

impl ErrorCode {
    /// The refusal in words.
    pub open spec fn message_text(&self) -> Seq<char> {
        match self {
            ErrorCode::IsStaked => "Tokens are already staked"@,
            ErrorCode::NotStaked => "Tokens not staked"@,
            ErrorCode::NoTokens => "No Tokens to stake"@,
            ErrorCode::LockPeriodNotMet => "Lock period not met"@,
            ErrorCode::InsufficientVaultBalance => "Insufficient tokens in the vault to reward"@,
            ErrorCode::AlreadyInitialized => "The program has already been initialized"@,
        }
    }

    /// The refusal in words, for the user.
    pub fn message(&self) -> (r: &'static str)
        ensures
            r@ == self.message_text(),
    {
        match self {
            ErrorCode::IsStaked => "Tokens are already staked",
            ErrorCode::NotStaked => "Tokens not staked",
            ErrorCode::NoTokens => "No Tokens to stake",
            ErrorCode::LockPeriodNotMet => "Lock period not met",
            ErrorCode::InsufficientVaultBalance => "Insufficient tokens in the vault to reward",
            ErrorCode::AlreadyInitialized => "The program has already been initialized",
        }
    }
}

/// Refusals of the ledger that the protocol runs on.
#[derive(Clone, Copy, Debug, PartialEq, Eq, Structural)]
pub enum LedgerError {
    /// The source record holds less than the quantity to move.
    InsufficientFunds,
    /// The two records are denominated in different tokens.
    MintMismatch,
    /// The authorization presented does not match the source's custody.
    OwnerMismatch,
    /// The destination's balance would pass the largest balance.
    Overflow,
    /// The seeds derive no address, or not the address of the record at hand.
    InvalidSeeds,
    /// The ledger holds no such record.
    AccountNotFound,
    /// The ledger holds such a record already.
    AccountInUse,
}

/// Why an operation failed. Every failure leaves all records as they were.
#[derive(Clone, Copy, Debug, PartialEq, Eq, Structural)]
pub enum StakingError {
    Program(ErrorCode),
    Ledger(LedgerError),
}

} // verus!
