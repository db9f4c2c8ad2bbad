//! Token-holding records and the transfer between two of them, as the
//! protocol needs them of the ledger that it runs on.

use crate::address::Address;
use crate::derivation::{create_program_address, program_address, Seeds};
use crate::error::LedgerError;
use vstd::prelude::*;

verus! {

/// A token type and its decimal precision.
#[derive(Clone, Copy, Debug, PartialEq, Eq)]
pub struct Mint {
    pub address: Address,
    pub decimals: u8,
}

/// A token type as the contracts see it.
pub struct MintView {
    pub address: Seq<u8>,
    pub decimals: u8,
}

impl View for Mint {
    type V = MintView;

    open spec fn view(&self) -> MintView {
        MintView { address: self.address@, decimals: self.decimals }
    }
}

/// Who may move tokens out of a record.
#[derive(Clone, Copy, Debug, PartialEq, Eq)]
pub enum Custody {
    /// The holder of this key, by signing.
    Owner(Address),
    /// The record itself: its address is derived for the program, and only a
    /// derivation of that address moves its tokens.
    Program,
}

/// A custody as the contracts see it.
pub enum CustodyView {
    Owner(Seq<u8>),
    Program,
}

impl View for Custody {
    type V = CustodyView;

    open spec fn view(&self) -> CustodyView {
        match self {
            Custody::Owner(key) => CustodyView::Owner(key@),
            Custody::Program => CustodyView::Program,
        }
    }
}

/// A token-holding record.
#[derive(Clone, Copy, Debug, PartialEq, Eq)]
pub struct TokenAccount {
    pub address: Address,
    pub mint: Address,
    pub custody: Custody,
    pub amount: u64,
}

/// A token-holding record as the contracts see it: addresses as byte
/// sequences, the balance as a natural number.
pub struct TokenAccountView {
    pub address: Seq<u8>,
    pub mint: Seq<u8>,
    pub custody: CustodyView,
    pub amount: nat,
}

impl View for TokenAccount {
    type V = TokenAccountView;

    open spec fn view(&self) -> TokenAccountView {
        TokenAccountView {
            address: self.address@,
            mint: self.mint@,
            custody: self.custody@,
            amount: self.amount as nat,
        }
    }
}

/// What is presented to move tokens out of a record.
#[derive(Debug, PartialEq, Eq)]
pub enum Authorization {
    /// The signature of this key.
    Signature(Address),
    /// The seeds, bump seed included, from which the program's address is
    /// derived.
    Derivation(Seeds),
}

/// An authorization as the contracts see it.
pub enum AuthorizationView {
    Signature(Seq<u8>),
    Derivation(Seq<Seq<u8>>),
}

impl View for Authorization {
    type V = AuthorizationView;

    open spec fn view(&self) -> AuthorizationView {
        match self {
            Authorization::Signature(key) => AuthorizationView::Signature(key@),
            Authorization::Derivation(seeds) => AuthorizationView::Derivation(seeds@),
        }
    }
}

/// Whether `authorization` moves tokens out of `from`: a record in a key's
/// custody takes that key's signature, a record in the program's custody
/// takes seeds from which the program `program_id` derives the record's own
/// address.
pub open spec fn authorizes(
    authorization: AuthorizationView,
    program_id: Seq<u8>,
    from: TokenAccountView,
) -> bool {
    match from.custody {
        CustodyView::Owner(owner) => authorization == AuthorizationView::Signature(owner),
        CustodyView::Program => authorization matches AuthorizationView::Derivation(seeds)
            && program_address(seeds, program_id) == Some(from.address),
    }
}

/// The largest balance a record holds.
pub open spec fn max_balance() -> nat {
    u64::MAX as nat
}

/// A transfer of `quantity` from `from` to `to`: the two records afterwards,
/// or why the ledger refuses it. The refusals are tested in this order.
pub open spec fn transfer_spec(
    from: TokenAccountView,
    to: TokenAccountView,
    authorized: bool,
    quantity: nat,
) -> Result<(TokenAccountView, TokenAccountView), LedgerError> {
    if from.amount < quantity {
        Err(LedgerError::InsufficientFunds)
    } else if from.mint != to.mint {
        Err(LedgerError::MintMismatch)
    } else if !authorized {
        Err(LedgerError::OwnerMismatch)
    } else if to.amount + quantity > max_balance() {
        Err(LedgerError::Overflow)
    } else {
        Ok(
            (
                TokenAccountView { amount: (from.amount - quantity) as nat, ..from },
                TokenAccountView { amount: to.amount + quantity, ..to },
            ),
        )
    }
}

impl TokenAccount {
    /// An empty record at `address` for the token `mint`.
    pub fn new(address: Address, mint: Address, custody: Custody) -> (r: TokenAccount)
        ensures
            r@ == (TokenAccountView {
                address: address@,
                mint: mint@,
                custody: custody@,
                amount: 0,
            }),
    {
        TokenAccount { address, mint, custody, amount: 0 }
    }

    /// Whether `authorization` moves tokens out of this record.
    pub fn accepts(&self, authorization: &Authorization, program_id: &Address) -> (r: bool)
        ensures
            r == authorizes(authorization@, program_id@, self@),
    {
        match self.custody {
            Custody::Owner(owner) => match authorization {
                Authorization::Signature(key) => key.equals(&owner),
                Authorization::Derivation(_) => false,
            },
            Custody::Program => match authorization {
                Authorization::Signature(_) => false,
                Authorization::Derivation(seeds) => {
                    match create_program_address(seeds, program_id) {
                        Some(derived) => derived.equals(&self.address),
                        None => false,
                    }
                },
            },
        }
    }
}

/// Moves `quantity` from `from` to `to`, given whether the transfer is
/// authorized, or refuses and changes neither.
pub fn settle(
    from: &mut TokenAccount,
    to: &mut TokenAccount,
    authorized: bool,
    quantity: u64,
) -> (r: Result<(), LedgerError>)
    ensures
        match transfer_spec(old(from)@, old(to)@, authorized, quantity as nat) {
            Ok((debited, credited)) => r is Ok && final(from)@ == debited && final(to)@
                == credited,
            Err(e) => r == Err::<(), LedgerError>(e) && *final(from) == *old(from) && *final(to)
                == *old(to),
        },
{
    if from.amount < quantity {
        return Err(LedgerError::InsufficientFunds);
    }
    if !from.mint.equals(&to.mint) {
        return Err(LedgerError::MintMismatch);
    }
    if !authorized {
        return Err(LedgerError::OwnerMismatch);
    }
    if to.amount > u64::MAX - quantity {
        return Err(LedgerError::Overflow);
    }
    from.amount = from.amount - quantity;
    to.amount = to.amount + quantity;
    Ok(())
}

/// Moves `quantity` from `from` to `to` on the authorization presented, or
/// refuses and changes neither.
pub fn transfer(
    from: &mut TokenAccount,
    to: &mut TokenAccount,
    authorization: &Authorization,
    program_id: &Address,
    quantity: u64,
) -> (r: Result<(), LedgerError>)
    ensures
        match transfer_spec(
            old(from)@,
            old(to)@,
            authorizes(authorization@, program_id@, old(from)@),
            quantity as nat,
        ) {
            Ok((debited, credited)) => r is Ok && final(from)@ == debited && final(to)@
                == credited,
            Err(e) => r == Err::<(), LedgerError>(e) && *final(from) == *old(from) && *final(to)
                == *old(to),
        },
{
    let authorized = from.accepts(authorization, program_id);
    settle(from, to, authorized, quantity)
}

} // verus!
