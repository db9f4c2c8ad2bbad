//! The protocol's three operations, each on the records it works with.
//!
//! An operation either commits in full or changes nothing: on every failure
//! the context is left as it was handed in.

use crate::address::Address;
use crate::derivation::{
    escrow_seeds, find_escrow_address, find_vault_address, found_program_address, vault_seeds,
    Seeds,
};
use crate::error::{ErrorCode, LedgerError, StakingError};
use crate::state::{base_units, scale_amount, stake_refusal, unstake_refusal, StakeInfo};
use crate::token::{
    settle, transfer_spec, Authorization, Custody, CustodyView, Mint, MintView, TokenAccount,
    TokenAccountView,
};
use vstd::prelude::*;

verus! {

/// The view of a record that may not exist yet.
pub open spec fn record_view(record: Option<TokenAccount>) -> Option<TokenAccountView> {
    match record {
        Some(account) => Some(account@),
        None => None,
    }
}

/// An empty record in the program's custody at `address`, for the token
/// `mint`.
pub open spec fn program_record(address: Seq<u8>, mint: Seq<u8>) -> TokenAccountView {
    TokenAccountView { address, mint, custody: CustodyView::Program, amount: 0 }
}

/// Why `wallet` cannot serve as the wallet of `signer` for the token `mint`.
pub open spec fn wallet_refusal(
    wallet: TokenAccountView,
    signer: Seq<u8>,
    mint: MintView,
) -> Option<LedgerError> {
    if wallet.mint != mint.address {
        Some(LedgerError::MintMismatch)
    } else if wallet.custody != CustodyView::Owner(signer) {
        Some(LedgerError::OwnerMismatch)
    } else {
        None
    }
}

/// Why `escrow` cannot serve as the escrow derived at `address` for the token
/// `mint`.
pub open spec fn escrow_refusal(
    escrow: TokenAccountView,
    address: Seq<u8>,
    mint: MintView,
) -> Option<LedgerError> {
    if escrow.address != address || escrow.custody != CustodyView::Program {
        Some(LedgerError::InvalidSeeds)
    } else if escrow.mint != mint.address {
        Some(LedgerError::MintMismatch)
    } else {
        None
    }
}

/// Tests that `wallet` is the wallet of `signer` for the token `mint`.
pub fn check_wallet(wallet: &TokenAccount, signer: &Address, mint: &Mint) -> (r: Result<
    (),
    LedgerError,
>)
    ensures
        match wallet_refusal(wallet@, signer@, mint@) {
            Some(e) => r == Err::<(), LedgerError>(e),
            None => r is Ok,
        },
{
    if !wallet.mint.equals(&mint.address) {
        return Err(LedgerError::MintMismatch);
    }
    match wallet.custody {
        Custody::Owner(owner) => {
            if owner.equals(signer) {
                Ok(())
            } else {
                Err(LedgerError::OwnerMismatch)
            }
        },
        Custody::Program => Err(LedgerError::OwnerMismatch),
    }
}

/// Tests that `escrow` is the record derived at `address` for the token
/// `mint`.
pub fn check_escrow(escrow: &TokenAccount, address: &Address, mint: &Mint) -> (r: Result<
    (),
    LedgerError,
>)
    ensures
        match escrow_refusal(escrow@, address@, mint@) {
            Some(e) => r == Err::<(), LedgerError>(e),
            None => r is Ok,
        },
{
    if !escrow.address.equals(address) {
        return Err(LedgerError::InvalidSeeds);
    }
    match escrow.custody {
        Custody::Owner(_) => {
            return Err(LedgerError::InvalidSeeds);
        },
        Custody::Program => {},
    }
    if !escrow.mint.equals(&mint.address) {
        return Err(LedgerError::MintMismatch);
    }
    Ok(())
}

/// The empty record in the program's custody at the address that a search
/// found, for the token `mint`; `InvalidSeeds` where it found none.
pub fn derived_record(found: Option<(Address, u8)>, mint: &Mint) -> (r: Result<
    TokenAccount,
    LedgerError,
>)
    ensures
        match found {
            Some((address, _)) => r matches Ok(record) && record@ == program_record(
                address@,
                mint@.address,
            ),
            None => r == Err::<TokenAccount, LedgerError>(LedgerError::InvalidSeeds),
        },
{
    match found {
        Some((address, _)) => Ok(TokenAccount::new(address, mint.address, Custody::Program)),
        None => Err(LedgerError::InvalidSeeds),
    }
}

/// What `initialize` works with: the protocol-wide vault, which may not
/// exist yet, and the token it is to hold. The signer is the user who
/// authorized the operation.
#[derive(Clone, Copy, Debug, PartialEq, Eq)]
pub struct Initialize {
    pub program_id: Address,
    pub signer: Address,
    pub token_vault_account: Option<TokenAccount>,
    pub mint: Mint,
}

/// What `initialize` works with, as the contracts see it.
pub struct InitializeView {
    pub program_id: Seq<u8>,
    pub signer: Seq<u8>,
    pub token_vault_account: Option<TokenAccountView>,
    pub mint: MintView,
}

impl View for Initialize {
    type V = InitializeView;

    open spec fn view(&self) -> InitializeView {
        InitializeView {
            program_id: self.program_id@,
            signer: self.signer@,
            token_vault_account: record_view(self.token_vault_account),
            mint: self.mint@,
        }
    }
}

/// What `stake` works with: the stake record and the escrow of the signer,
/// either of which may not exist yet, and the signer's wallet. The signer is
/// the user who authorized the operation.
#[derive(Clone, Copy, Debug, PartialEq, Eq)]
pub struct Stake {
    pub program_id: Address,
    pub signer: Address,
    pub stake_info_account: Option<StakeInfo>,
    pub stake_account: Option<TokenAccount>,
    pub user_token_account: TokenAccount,
    pub mint: Mint,
}

/// What `stake` works with, as the contracts see it.
pub struct StakeView {
    pub program_id: Seq<u8>,
    pub signer: Seq<u8>,
    pub stake_info_account: Option<StakeInfo>,
    pub stake_account: Option<TokenAccountView>,
    pub user_token_account: TokenAccountView,
    pub mint: MintView,
}

impl View for Stake {
    type V = StakeView;

    open spec fn view(&self) -> StakeView {
        StakeView {
            program_id: self.program_id@,
            signer: self.signer@,
            stake_info_account: self.stake_info_account,
            stake_account: record_view(self.stake_account),
            user_token_account: self.user_token_account@,
            mint: self.mint@,
        }
    }
}

/// What `unstake` works with: the stake record, the escrow and the wallet of
/// the signer, and the vault, which it leaves alone. The signer is the user
/// who authorized the operation.
#[derive(Clone, Copy, Debug, PartialEq, Eq)]
pub struct UnStake {
    pub program_id: Address,
    pub signer: Address,
    pub token_vault_account: Option<TokenAccount>,
    pub stake_info_account: StakeInfo,
    pub stake_account: TokenAccount,
    pub user_token_account: TokenAccount,
    pub mint: Mint,
}

/// What `unstake` works with, as the contracts see it.
pub struct UnStakeView {
    pub program_id: Seq<u8>,
    pub signer: Seq<u8>,
    pub token_vault_account: Option<TokenAccountView>,
    pub stake_info_account: StakeInfo,
    pub stake_account: TokenAccountView,
    pub user_token_account: TokenAccountView,
    pub mint: MintView,
}

impl View for UnStake {
    type V = UnStakeView;

    open spec fn view(&self) -> UnStakeView {
        UnStakeView {
            program_id: self.program_id@,
            signer: self.signer@,
            token_vault_account: record_view(self.token_vault_account),
            stake_info_account: self.stake_info_account,
            stake_account: self.stake_account@,
            user_token_account: self.user_token_account@,
            mint: self.mint@,
        }
    }
}

/// What stands in the way of creating the vault.
pub open spec fn initialize_refusal(vault_exists: bool) -> Option<ErrorCode> {
    if vault_exists {
        Some(ErrorCode::AlreadyInitialized)
    } else {
        None
    }
}

/// Tests whether the vault may be created.
pub fn check_initialize(vault_exists: bool) -> (r: Result<(), ErrorCode>)
    ensures
        match initialize_refusal(vault_exists) {
            Some(e) => r == Err::<(), ErrorCode>(e),
            None => r is Ok,
        },
{
    if vault_exists {
        Err(ErrorCode::AlreadyInitialized)
    } else {
        Ok(())
    }
}

/// `initialize`, given what the search for the vault's address found: the
/// records afterwards, or why it fails. The vault is created empty, in the
/// program's custody, at the address found; a vault that exists is an error.
pub open spec fn initialize_with_spec(
    pre: InitializeView,
    found: Option<(Seq<u8>, u8)>,
) -> Result<InitializeView, StakingError> {
    if let Some(e) = initialize_refusal(pre.token_vault_account is Some) {
        Err(StakingError::Program(e))
    } else {
        match found {
            None => Err(StakingError::Ledger(LedgerError::InvalidSeeds)),
            Some((address, _)) => Ok(
                InitializeView {
                    token_vault_account: Some(program_record(address, pre.mint.address)),
                    ..pre
                },
            ),
        }
    }
}

/// `initialize`: the records afterwards, or why it fails. The address is the
/// one found for the vault's seeds.
pub open spec fn initialize_spec(pre: InitializeView) -> Result<InitializeView, StakingError> {
    initialize_with_spec(pre, found_program_address(vault_seeds(), pre.program_id))
}

/// The stake record that `stake` starts from: the one at hand, or a new one.
pub open spec fn stake_info_or_new(record: Option<StakeInfo>) -> StakeInfo {
    match record {
        Some(info) => info,
        None => StakeInfo { stake_at_slot: 0, is_staked: false },
    }
}

/// The ledger's part of `stake`, given what the search for the escrow's
/// address found: the wallet and the escrow after `amount` tokens, in base
/// units, have moved from the one into the other, or why the ledger refuses.
/// The escrow is the one at hand or, where there is none, a new one at the
/// address found. The refusals are tested in this order: the wallet, the
/// search, the escrow, the transfer.
pub open spec fn stake_transfer_with(
    pre: StakeView,
    amount: u64,
    found: Option<(Seq<u8>, u8)>,
) -> Result<(TokenAccountView, TokenAccountView), LedgerError> {
    if let Some(e) = wallet_refusal(pre.user_token_account, pre.signer, pre.mint) {
        Err(e)
    } else {
        match found {
            None => Err(LedgerError::InvalidSeeds),
            Some((address, _)) => {
                let escrow = match pre.stake_account {
                    Some(escrow) => escrow,
                    None => program_record(address, pre.mint.address),
                };
                if let Some(e) = escrow_refusal(escrow, address, pre.mint) {
                    Err(e)
                } else {
                    transfer_spec(
                        pre.user_token_account,
                        escrow,
                        true,
                        base_units(amount, pre.mint.decimals),
                    )
                }
            },
        }
    }
}

/// `stake` of `amount` tokens at slot `now`, given what the search for the
/// escrow's address found: the records afterwards, or why it fails. The
/// protocol's own refusals come before the ledger's.
pub open spec fn stake_with_spec(
    pre: StakeView,
    amount: u64,
    now: u64,
    found: Option<(Seq<u8>, u8)>,
) -> Result<StakeView, StakingError> {
    if let Some(e) = stake_refusal(stake_info_or_new(pre.stake_info_account), amount) {
        Err(StakingError::Program(e))
    } else {
        match stake_transfer_with(pre, amount, found) {
            Err(e) => Err(StakingError::Ledger(e)),
            Ok((wallet, escrow)) => Ok(
                StakeView {
                    stake_info_account: Some(StakeInfo { stake_at_slot: now, is_staked: true }),
                    stake_account: Some(escrow),
                    user_token_account: wallet,
                    ..pre
                },
            ),
        }
    }
}

/// The ledger's part of `stake`. The address is the one found for the
/// signer's escrow seeds.
pub open spec fn stake_transfer(pre: StakeView, amount: u64) -> Result<
    (TokenAccountView, TokenAccountView),
    LedgerError,
> {
    stake_transfer_with(
        pre,
        amount,
        found_program_address(escrow_seeds(pre.signer), pre.program_id),
    )
}

/// `stake` of `amount` tokens at slot `now`: the records afterwards, or why
/// it fails. The address is the one found for the signer's escrow seeds.
pub open spec fn stake_spec(pre: StakeView, amount: u64, now: u64) -> Result<
    StakeView,
    StakingError,
> {
    stake_with_spec(
        pre,
        amount,
        now,
        found_program_address(escrow_seeds(pre.signer), pre.program_id),
    )
}

/// The ledger's part of `unstake`, given what the search for the escrow's
/// address found and whether the ledger accepts the derivation presented:
/// the escrow and the wallet after the escrow's whole balance has moved into
/// the wallet, or why the ledger refuses. The refusals are tested in this
/// order: the wallet, the search, the escrow, the transfer.
pub open spec fn unstake_transfer_with(
    pre: UnStakeView,
    found: Option<(Seq<u8>, u8)>,
    authorized: bool,
) -> Result<(TokenAccountView, TokenAccountView), LedgerError> {
    if let Some(e) = wallet_refusal(pre.user_token_account, pre.signer, pre.mint) {
        Err(e)
    } else {
        match found {
            None => Err(LedgerError::InvalidSeeds),
            Some((address, _)) => {
                if let Some(e) = escrow_refusal(pre.stake_account, address, pre.mint) {
                    Err(e)
                } else {
                    transfer_spec(
                        pre.stake_account,
                        pre.user_token_account,
                        authorized,
                        pre.stake_account.amount,
                    )
                }
            },
        }
    }
}

/// `unstake` at slot `now`, given what the search for the escrow's address
/// found and whether the ledger accepts the derivation presented: the
/// records afterwards, or why it fails. The protocol's own refusals come
/// before the ledger's.
pub open spec fn unstake_with_spec(
    pre: UnStakeView,
    now: u64,
    found: Option<(Seq<u8>, u8)>,
    authorized: bool,
) -> Result<UnStakeView, StakingError> {
    if let Some(e) = unstake_refusal(pre.stake_info_account, now) {
        Err(StakingError::Program(e))
    } else {
        match unstake_transfer_with(pre, found, authorized) {
            Err(e) => Err(StakingError::Ledger(e)),
            Ok((escrow, wallet)) => Ok(
                UnStakeView {
                    stake_info_account: StakeInfo { stake_at_slot: now, is_staked: false },
                    stake_account: escrow,
                    user_token_account: wallet,
                    ..pre
                },
            ),
        }
    }
}

/// The ledger's part of `unstake`. The address is the one found for the
/// signer's escrow seeds, and the derivation presented is that of this
/// address, which the ledger accepts for the escrow there.
pub open spec fn unstake_transfer(pre: UnStakeView) -> Result<
    (TokenAccountView, TokenAccountView),
    LedgerError,
> {
    unstake_transfer_with(
        pre,
        found_program_address(escrow_seeds(pre.signer), pre.program_id),
        true,
    )
}

/// `unstake` at slot `now`: the records afterwards, or why it fails. The
/// address is the one found for the signer's escrow seeds, and the
/// derivation presented is that of this address, which the ledger accepts
/// for the escrow there.
pub open spec fn unstake_spec(pre: UnStakeView, now: u64) -> Result<UnStakeView, StakingError> {
    unstake_with_spec(
        pre,
        now,
        found_program_address(escrow_seeds(pre.signer), pre.program_id),
        true,
    )
}

/// The records after `initialize`, whether it succeeded or not.
pub open spec fn after_initialize(pre: InitializeView) -> InitializeView {
    match initialize_spec(pre) {
        Ok(post) => post,
        Err(_) => pre,
    }
}

/// The records after `stake`, whether it succeeded or not.
pub open spec fn after_stake(pre: StakeView, amount: u64, now: u64) -> StakeView {
    match stake_spec(pre, amount, now) {
        Ok(post) => post,
        Err(_) => pre,
    }
}

/// The records after `unstake`, whether it succeeded or not.
pub open spec fn after_unstake(pre: UnStakeView, now: u64) -> UnStakeView {
    match unstake_spec(pre, now) {
        Ok(post) => post,
        Err(_) => pre,
    }
}

/// Creates the vault at the address that the search found, once.
pub fn initialize_with(ctx: &mut Initialize, found: Option<(Address, u8)>) -> (r: Result<
    (),
    StakingError,
>)
    ensures
        match initialize_with_spec(old(ctx)@, found.deep_view()) {
            Ok(post) => r is Ok && final(ctx)@ == post,
            Err(e) => r == Err::<(), StakingError>(e) && *final(ctx) == *old(ctx),
        },
{
    if let Err(e) = check_initialize(ctx.token_vault_account.is_some()) {
        return Err(StakingError::Program(e));
    }
    match derived_record(found, &ctx.mint) {
        Ok(vault) => {
            ctx.token_vault_account = Some(vault);
            Ok(())
        },
        Err(e) => Err(StakingError::Ledger(e)),
    }
}

/// Creates the protocol-wide vault, once.
pub fn initialize(ctx: &mut Initialize) -> (r: Result<(), StakingError>)
    ensures
        match initialize_spec(old(ctx)@) {
            Ok(post) => r is Ok && final(ctx)@ == post,
            Err(e) => r == Err::<(), StakingError>(e) && *final(ctx) == *old(ctx),
        },
        final(ctx)@ == after_initialize(old(ctx)@),
{
    let found = find_vault_address(&ctx.program_id);
    initialize_with(ctx, found)
}

/// Opens a position for the signer at slot `now`, with the escrow at the
/// address that the search found: moves `amount` tokens, in base units, from
/// the wallet into the escrow.
pub fn stake_with(ctx: &mut Stake, amount: u64, now: u64, found: Option<(Address, u8)>) -> (r:
    Result<(), StakingError>)
    ensures
        match stake_with_spec(old(ctx)@, amount, now, found.deep_view()) {
            Ok(post) => r is Ok && final(ctx)@ == post,
            Err(e) => r == Err::<(), StakingError>(e) && *final(ctx) == *old(ctx),
        },
{
    let mut info = match ctx.stake_info_account {
        Some(info) => info,
        None => StakeInfo::new(),
    };
    if let Err(e) = info.check_stake(amount) {
        return Err(StakingError::Program(e));
    }
    if let Err(e) = check_wallet(&ctx.user_token_account, &ctx.signer, &ctx.mint) {
        return Err(StakingError::Ledger(e));
    }
    let address = match found {
        Some((address, _)) => address,
        None => {
            return Err(StakingError::Ledger(LedgerError::InvalidSeeds));
        },
    };
    let mut escrow = match ctx.stake_account {
        Some(escrow) => escrow,
        None => TokenAccount::new(address, ctx.mint.address, Custody::Program),
    };
    if let Err(e) = check_escrow(&escrow, &address, &ctx.mint) {
        return Err(StakingError::Ledger(e));
    }
    let quantity = match scale_amount(amount, ctx.mint.decimals) {
        Some(quantity) => quantity,
        None => {
            return Err(StakingError::Ledger(LedgerError::InsufficientFunds));
        },
    };
    let mut wallet = ctx.user_token_account;
    if let Err(e) = settle(&mut wallet, &mut escrow, true, quantity) {
        return Err(StakingError::Ledger(e));
    }
    info.open(now);
    ctx.stake_info_account = Some(info);
    ctx.stake_account = Some(escrow);
    ctx.user_token_account = wallet;
    Ok(())
}

/// Opens a position for the signer at slot `now`: moves `amount` tokens, in
/// base units, from the wallet into the signer's escrow.
pub fn stake(ctx: &mut Stake, amount: u64, now: u64) -> (r: Result<(), StakingError>)
    ensures
        match stake_spec(old(ctx)@, amount, now) {
            Ok(post) => r is Ok && final(ctx)@ == post,
            Err(e) => r == Err::<(), StakingError>(e) && *final(ctx) == *old(ctx),
        },
        final(ctx)@ == after_stake(old(ctx)@, amount, now),
{
    let found = find_escrow_address(&ctx.program_id, &ctx.signer);
    stake_with(ctx, amount, now, found)
}

/// Closes the signer's position at slot `now`, with the escrow at the
/// address that the search found: moves the escrow's whole balance back to
/// the wallet where the ledger accepted the derivation presented.
pub fn unstake_with(
    ctx: &mut UnStake,
    now: u64,
    found: Option<(Address, u8)>,
    authorized: bool,
) -> (r: Result<(), StakingError>)
    ensures
        match unstake_with_spec(old(ctx)@, now, found.deep_view(), authorized) {
            Ok(post) => r is Ok && final(ctx)@ == post,
            Err(e) => r == Err::<(), StakingError>(e) && *final(ctx) == *old(ctx),
        },
{
    let mut info = ctx.stake_info_account;
    if let Err(e) = info.check_unstake(now) {
        return Err(StakingError::Program(e));
    }
    if let Err(e) = check_wallet(&ctx.user_token_account, &ctx.signer, &ctx.mint) {
        return Err(StakingError::Ledger(e));
    }
    let address = match found {
        Some((address, _)) => address,
        None => {
            return Err(StakingError::Ledger(LedgerError::InvalidSeeds));
        },
    };
    let mut escrow = ctx.stake_account;
    if let Err(e) = check_escrow(&escrow, &address, &ctx.mint) {
        return Err(StakingError::Ledger(e));
    }
    let mut wallet = ctx.user_token_account;
    let quantity = escrow.amount;
    if let Err(e) = settle(&mut escrow, &mut wallet, authorized, quantity) {
        return Err(StakingError::Ledger(e));
    }
    info.close(now);
    ctx.stake_info_account = info;
    ctx.stake_account = escrow;
    ctx.user_token_account = wallet;
    Ok(())
}

/// Closes the signer's position at slot `now`: moves the escrow's whole
/// balance back to the wallet, on the authority of the escrow's own
/// derivation.
pub fn unstake(ctx: &mut UnStake, now: u64) -> (r: Result<(), StakingError>)
    ensures
        match unstake_spec(old(ctx)@, now) {
            Ok(post) => r is Ok && final(ctx)@ == post,
            Err(e) => r == Err::<(), StakingError>(e) && *final(ctx) == *old(ctx),
        },
        final(ctx)@ == after_unstake(old(ctx)@, now),
{
    let found = find_escrow_address(&ctx.program_id, &ctx.signer);
    let authorized = match found {
        Some((_, bump)) => {
            let derivation = Authorization::Derivation(Seeds::escrow_signer(&ctx.signer, bump));
            ctx.stake_account.accepts(&derivation, &ctx.program_id)
        },
        None => false,
    };
    unstake_with(ctx, now, found, authorized)
}

} // verus!
