use staking_program::address::Address;
use staking_program::derivation::{find_escrow_address, find_vault_address, Seeds};
use staking_program::error::{ErrorCode, LedgerError, StakingError};
use staking_program::instructions::{
    check_escrow, check_initialize, check_wallet, derived_record, initialize, initialize_with,
    stake, stake_with, unstake, unstake_with, Initialize, Stake, UnStake,
};
use staking_program::state::{scale_amount, StakeInfo, StakeState};
use staking_program::token::{settle, transfer, Authorization, Custody, Mint, TokenAccount};

fn key(tag: u8) -> Address {
    let mut bytes = [0u8; 32];
    bytes[0] = tag;
    bytes[31] = 7;
    Address::new(bytes)
}

fn program() -> Address {
    key(200)
}

fn mint(decimals: u8) -> Mint {
    Mint { address: key(100), decimals }
}

fn wallet(owner: Address, amount: u64) -> TokenAccount {
    TokenAccount { address: key(11), mint: key(100), custody: Custody::Owner(owner), amount }
}

fn escrow_of(owner: &Address, amount: u64) -> TokenAccount {
    let (address, _) = find_escrow_address(&program(), owner).unwrap();
    TokenAccount { address, mint: key(100), custody: Custody::Program, amount }
}

fn fresh_stake(owner: Address, amount: u64, decimals: u8) -> Stake {
    Stake {
        program_id: program(),
        signer: owner,
        stake_info_account: None,
        stake_account: None,
        user_token_account: wallet(owner, amount),
        mint: mint(decimals),
    }
}

fn locked(owner: Address, in_wallet: u64, in_escrow: u64, since: u64) -> UnStake {
    UnStake {
        program_id: program(),
        signer: owner,
        token_vault_account: None,
        stake_info_account: StakeInfo { stake_at_slot: since, is_staked: true },
        stake_account: escrow_of(&owner, in_escrow),
        user_token_account: wallet(owner, in_wallet),
        mint: mint(0),
    }
}

#[test]
fn stake_then_unstake_on_the_records_themselves() {
    let user = key(1);
    let mut ctx = fresh_stake(user, 100, 0);
    assert_eq!(stake(&mut ctx, 40, 1000), Ok(()));
    assert_eq!(ctx.user_token_account.amount, 60);
    assert_eq!(ctx.stake_account, Some(escrow_of(&user, 40)));
    assert_eq!(ctx.stake_info_account, Some(StakeInfo { stake_at_slot: 1000, is_staked: true }));

    let mut closing = UnStake {
        program_id: ctx.program_id,
        signer: ctx.signer,
        token_vault_account: None,
        stake_info_account: ctx.stake_info_account.unwrap(),
        stake_account: ctx.stake_account.unwrap(),
        user_token_account: ctx.user_token_account,
        mint: ctx.mint,
    };
    let before = closing;
    assert_eq!(
        unstake(&mut closing, 1249),
        Err(StakingError::Program(ErrorCode::LockPeriodNotMet))
    );
    assert_eq!(closing, before);
    assert_eq!(unstake(&mut closing, 1250), Ok(()));
    assert_eq!(closing.user_token_account, wallet(user, 100));
    assert_eq!(closing.stake_account, escrow_of(&user, 0));
    assert_eq!(closing.stake_info_account, StakeInfo { stake_at_slot: 1250, is_staked: false });
    assert_eq!(closing.stake_info_account.state(), StakeState::Idle);
}

#[test]
fn stake_tests_the_amount_before_the_state() {
    let user = key(1);
    let mut ctx = fresh_stake(user, 100, 0);
    ctx.stake_info_account = Some(StakeInfo { stake_at_slot: 3, is_staked: true });
    ctx.stake_account = Some(escrow_of(&user, 9));
    let before = ctx;
    assert_eq!(stake(&mut ctx, 0, 10), Err(StakingError::Program(ErrorCode::NoTokens)));
    assert_eq!(ctx, before);
    assert_eq!(stake(&mut ctx, 1, 10), Err(StakingError::Program(ErrorCode::IsStaked)));
    assert_eq!(ctx, before);
}

#[test]
fn stake_into_an_existing_empty_escrow() {
    let user = key(1);
    let mut ctx = fresh_stake(user, 100, 1);
    ctx.stake_info_account = Some(StakeInfo { stake_at_slot: 900, is_staked: false });
    ctx.stake_account = Some(escrow_of(&user, 0));
    assert_eq!(stake(&mut ctx, 7, 1000), Ok(()));
    assert_eq!(ctx.user_token_account.amount, 30);
    assert_eq!(ctx.stake_account, Some(escrow_of(&user, 70)));
    assert_eq!(ctx.stake_info_account, Some(StakeInfo { stake_at_slot: 1000, is_staked: true }));
}

#[test]
fn stake_refuses_a_wallet_of_another_token() {
    let user = key(1);
    let mut ctx = fresh_stake(user, 100, 0);
    ctx.user_token_account.mint = key(101);
    let before = ctx;
    assert_eq!(stake(&mut ctx, 5, 0), Err(StakingError::Ledger(LedgerError::MintMismatch)));
    assert_eq!(ctx, before);
}

#[test]
fn stake_refuses_a_wallet_of_another_owner() {
    let user = key(1);
    let mut ctx = fresh_stake(user, 100, 0);
    ctx.user_token_account.custody = Custody::Owner(key(2));
    let before = ctx;
    assert_eq!(stake(&mut ctx, 5, 0), Err(StakingError::Ledger(LedgerError::OwnerMismatch)));
    assert_eq!(ctx, before);
    ctx.user_token_account.custody = Custody::Program;
    assert_eq!(stake(&mut ctx, 5, 0), Err(StakingError::Ledger(LedgerError::OwnerMismatch)));
}

#[test]
fn stake_refuses_an_escrow_that_is_not_the_signer_s() {
    let user = key(1);
    let mut ctx = fresh_stake(user, 100, 0);
    ctx.stake_account = Some(escrow_of(&key(2), 0));
    let before = ctx;
    assert_eq!(stake(&mut ctx, 5, 0), Err(StakingError::Ledger(LedgerError::InvalidSeeds)));
    assert_eq!(ctx, before);

    let mut owned = escrow_of(&user, 0);
    owned.custody = Custody::Owner(user);
    ctx.stake_account = Some(owned);
    assert_eq!(stake(&mut ctx, 5, 0), Err(StakingError::Ledger(LedgerError::InvalidSeeds)));

    let mut other_token = escrow_of(&user, 0);
    other_token.mint = key(101);
    ctx.stake_account = Some(other_token);
    assert_eq!(stake(&mut ctx, 5, 0), Err(StakingError::Ledger(LedgerError::MintMismatch)));
}

#[test]
fn stake_refuses_what_the_escrow_cannot_hold() {
    let user = key(1);
    let mut ctx = fresh_stake(user, 100, 0);
    ctx.stake_account = Some(escrow_of(&user, u64::MAX - 4));
    let before = ctx;
    assert_eq!(stake(&mut ctx, 5, 0), Err(StakingError::Ledger(LedgerError::Overflow)));
    assert_eq!(ctx, before);
    assert_eq!(stake(&mut ctx, 4, 0), Ok(()));
    assert_eq!(ctx.stake_account.unwrap().amount, u64::MAX);
    assert_eq!(ctx.user_token_account.amount, 96);
}

#[test]
fn unstake_tests_the_state_before_the_lock_period() {
    let user = key(1);
    let mut ctx = locked(user, 60, 40, 1000);
    ctx.stake_info_account.is_staked = false;
    let before = ctx;
    assert_eq!(unstake(&mut ctx, 0), Err(StakingError::Program(ErrorCode::NotStaked)));
    assert_eq!(unstake(&mut ctx, 5000), Err(StakingError::Program(ErrorCode::NotStaked)));
    assert_eq!(ctx, before);
}

#[test]
fn unstake_before_the_stake_s_own_slot_is_too_early() {
    let user = key(1);
    let mut ctx = locked(user, 60, 40, 1000);
    assert_eq!(
        unstake(&mut ctx, 999),
        Err(StakingError::Program(ErrorCode::LockPeriodNotMet))
    );
    assert_eq!(unstake(&mut ctx, 0), Err(StakingError::Program(ErrorCode::LockPeriodNotMet)));
}

#[test]
fn unstake_moves_the_whole_escrow_and_leaves_the_vault() {
    let user = key(1);
    let (vault_address, _) = find_vault_address(&program()).unwrap();
    let vault = TokenAccount::new(vault_address, key(100), Custody::Program);
    let mut ctx = locked(user, 1, 12_345, u64::MAX - 250);
    ctx.token_vault_account = Some(vault);
    assert_eq!(unstake(&mut ctx, u64::MAX), Ok(()));
    assert_eq!(ctx.user_token_account.amount, 12_346);
    assert_eq!(ctx.stake_account.amount, 0);
    assert_eq!(ctx.stake_info_account, StakeInfo { stake_at_slot: u64::MAX, is_staked: false });
    assert_eq!(ctx.token_vault_account, Some(vault));
}

#[test]
fn unstake_refuses_an_escrow_that_is_not_the_signer_s() {
    let user = key(1);
    let mut ctx = locked(user, 60, 40, 0);
    ctx.stake_account = escrow_of(&key(2), 40);
    let before = ctx;
    assert_eq!(unstake(&mut ctx, 250), Err(StakingError::Ledger(LedgerError::InvalidSeeds)));
    assert_eq!(ctx, before);
}

#[test]
fn unstake_refuses_a_wallet_that_is_not_the_signer_s() {
    let user = key(1);
    let mut ctx = locked(user, 60, 40, 0);
    ctx.user_token_account.custody = Custody::Owner(key(2));
    let before = ctx;
    assert_eq!(unstake(&mut ctx, 250), Err(StakingError::Ledger(LedgerError::OwnerMismatch)));
    assert_eq!(ctx, before);
}

#[test]
fn unstake_refuses_what_the_wallet_cannot_hold() {
    let user = key(1);
    let mut ctx = locked(user, u64::MAX - 39, 40, 0);
    let before = ctx;
    assert_eq!(unstake(&mut ctx, 250), Err(StakingError::Ledger(LedgerError::Overflow)));
    assert_eq!(ctx, before);
}

#[test]
fn initialize_creates_the_vault_at_its_derived_address() {
    let mut ctx = Initialize {
        program_id: program(),
        signer: key(1),
        token_vault_account: None,
        mint: mint(9),
    };
    assert_eq!(initialize(&mut ctx), Ok(()));
    let (address, _) = find_vault_address(&program()).unwrap();
    let vault = TokenAccount { address, mint: key(100), custody: Custody::Program, amount: 0 };
    assert_eq!(ctx.token_vault_account, Some(vault));
    let after_first = ctx;
    assert_eq!(
        initialize(&mut ctx),
        Err(StakingError::Program(ErrorCode::AlreadyInitialized))
    );
    assert_eq!(ctx, after_first);
}

#[test]
fn initialize_refuses_any_existing_vault() {
    let mut ctx = Initialize {
        program_id: program(),
        signer: key(1),
        token_vault_account: Some(wallet(key(5), 77)),
        mint: mint(9),
    };
    let before = ctx;
    assert_eq!(
        initialize(&mut ctx),
        Err(StakingError::Program(ErrorCode::AlreadyInitialized))
    );
    assert_eq!(ctx, before);
}

#[test]
fn derived_record_is_empty_and_in_the_program_s_custody() {
    let record = derived_record(Some((key(9), 254)), &mint(3)).unwrap();
    assert_eq!(
        record,
        TokenAccount { address: key(9), mint: key(100), custody: Custody::Program, amount: 0 }
    );
    assert_eq!(derived_record(None, &mint(3)), Err(LedgerError::InvalidSeeds));
}

#[test]
fn wallet_and_escrow_checks() {
    let user = key(1);
    assert_eq!(check_wallet(&wallet(user, 5), &user, &mint(0)), Ok(()));
    assert_eq!(
        check_wallet(&wallet(user, 5), &key(2), &mint(0)),
        Err(LedgerError::OwnerMismatch)
    );
    let escrow = escrow_of(&user, 5);
    assert_eq!(check_escrow(&escrow, &escrow.address, &mint(0)), Ok(()));
    assert_eq!(check_escrow(&escrow, &key(77), &mint(0)), Err(LedgerError::InvalidSeeds));
    let other = Mint { address: key(101), decimals: 0 };
    assert_eq!(check_escrow(&escrow, &escrow.address, &other), Err(LedgerError::MintMismatch));
    assert_eq!(check_wallet(&wallet(user, 5), &user, &other), Err(LedgerError::MintMismatch));
}

#[test]
fn transfer_moves_exactly_the_quantity() {
    let owner = key(1);
    let mut from = wallet(owner, 100);
    let mut to = escrow_of(&owner, 1);
    let signature = Authorization::Signature(owner);
    assert_eq!(transfer(&mut from, &mut to, &signature, &program(), 30), Ok(()));
    assert_eq!(from, wallet(owner, 70));
    assert_eq!(to, escrow_of(&owner, 31));
    assert_eq!(transfer(&mut from, &mut to, &signature, &program(), 0), Ok(()));
    assert_eq!((from.amount, to.amount), (70, 31));
}

#[test]
fn transfer_refusals_come_in_order() {
    let owner = key(1);
    let mut from = wallet(owner, 100);
    let mut to = escrow_of(&owner, u64::MAX);
    to.mint = key(101);
    let stranger = Authorization::Signature(key(2));
    let p = program();
    assert_eq!(
        transfer(&mut from, &mut to, &stranger, &p, 101),
        Err(LedgerError::InsufficientFunds)
    );
    assert_eq!(transfer(&mut from, &mut to, &stranger, &p, 100), Err(LedgerError::MintMismatch));
    to.mint = key(100);
    assert_eq!(transfer(&mut from, &mut to, &stranger, &p, 100), Err(LedgerError::OwnerMismatch));
    let signature = Authorization::Signature(owner);
    assert_eq!(transfer(&mut from, &mut to, &signature, &p, 1), Err(LedgerError::Overflow));
    assert_eq!((from.amount, to.amount), (100, u64::MAX));
}

#[test]
fn transfer_out_of_escrow_takes_the_derivation() {
    let owner = key(1);
    let p = program();
    let (_, bump) = find_escrow_address(&p, &owner).unwrap();
    let mut from = escrow_of(&owner, 40);
    let mut to = wallet(owner, 60);
    let signature = Authorization::Signature(owner);
    assert_eq!(transfer(&mut from, &mut to, &signature, &p, 40), Err(LedgerError::OwnerMismatch));
    let derivation = Authorization::Derivation(Seeds::escrow_signer(&owner, bump));
    assert_eq!(transfer(&mut from, &mut to, &derivation, &p, 40), Ok(()));
    assert_eq!((from.amount, to.amount), (0, 100));
}

#[test]
fn scale_amount_exact_values() {
    assert_eq!(scale_amount(40, 0), Some(40));
    assert_eq!(scale_amount(1, 9), Some(1_000_000_000));
    assert_eq!(scale_amount(3, 6), Some(3_000_000));
    assert_eq!(scale_amount(u64::MAX, 0), Some(u64::MAX));
    assert_eq!(scale_amount(1, 19), Some(10_000_000_000_000_000_000));
    assert_eq!(scale_amount(2, 19), None);
    assert_eq!(scale_amount(1, 20), None);
    assert_eq!(scale_amount(1, 255), None);
    assert_eq!(scale_amount(0, 255), Some(0));
    assert_eq!(scale_amount(1_844_674_407_370_955_161, 1), Some(18_446_744_073_709_551_610));
    assert_eq!(scale_amount(1_844_674_407_370_955_162, 1), None);
}

#[test]
fn stake_record_rules() {
    let idle = StakeInfo::new();
    assert_eq!(idle, StakeInfo { stake_at_slot: 0, is_staked: false });
    assert_eq!(idle.state(), StakeState::Idle);
    assert_eq!(idle.check_stake(1), Ok(()));
    assert_eq!(idle.check_stake(0), Err(ErrorCode::NoTokens));
    assert_eq!(idle.check_unstake(u64::MAX), Err(ErrorCode::NotStaked));

    let mut record = idle;
    record.open(500);
    assert_eq!(record, StakeInfo { stake_at_slot: 500, is_staked: true });
    assert_eq!(record.state(), StakeState::Locked);
    assert_eq!(record.check_stake(1), Err(ErrorCode::IsStaked));
    assert_eq!(record.check_stake(0), Err(ErrorCode::NoTokens));
    assert_eq!(record.check_unstake(749), Err(ErrorCode::LockPeriodNotMet));
    assert_eq!(record.check_unstake(499), Err(ErrorCode::LockPeriodNotMet));
    assert_eq!(record.check_unstake(750), Ok(()));
    record.close(750);
    assert_eq!(record, StakeInfo { stake_at_slot: 750, is_staked: false });
}

#[test]
fn addresses_compare_by_their_bytes() {
    let a = key(1);
    let mut bytes = a.bytes;
    assert!(a.equals(&Address::new(bytes)));
    bytes[17] = 1;
    assert!(!a.equals(&Address::new(bytes)));
    assert_eq!(a.to_vec(), a.bytes.to_vec());
}

#[test]
fn refusals_in_words() {
    assert_eq!(ErrorCode::IsStaked.message(), "Tokens are already staked");
    assert_eq!(ErrorCode::NotStaked.message(), "Tokens not staked");
    assert_eq!(ErrorCode::NoTokens.message(), "No Tokens to stake");
    assert_eq!(ErrorCode::LockPeriodNotMet.message(), "Lock period not met");
    assert_eq!(
        ErrorCode::InsufficientVaultBalance.message(),
        "Insufficient tokens in the vault to reward"
    );
    assert_eq!(
        ErrorCode::AlreadyInitialized.message(),
        "The program has already been initialized"
    );
}

#[test]
fn vault_may_be_created_only_while_it_does_not_exist() {
    assert_eq!(check_initialize(false), Ok(()));
    assert_eq!(check_initialize(true), Err(ErrorCode::AlreadyInitialized));
}

#[test]
fn operations_on_a_given_search_result() {
    let user = key(1);
    let at = key(33);
    let mut ctx = fresh_stake(user, 100, 0);
    let before = ctx;
    assert_eq!(
        stake_with(&mut ctx, 40, 1000, None),
        Err(StakingError::Ledger(LedgerError::InvalidSeeds))
    );
    assert_eq!(ctx, before);
    assert_eq!(stake_with(&mut ctx, 40, 1000, Some((at, 250))), Ok(()));
    let escrow =
        TokenAccount { address: at, mint: key(100), custody: Custody::Program, amount: 40 };
    assert_eq!(ctx.stake_account, Some(escrow));
    assert_eq!(ctx.user_token_account.amount, 60);

    let mut closing = UnStake {
        program_id: ctx.program_id,
        signer: user,
        token_vault_account: None,
        stake_info_account: ctx.stake_info_account.unwrap(),
        stake_account: escrow,
        user_token_account: ctx.user_token_account,
        mint: ctx.mint,
    };
    let before = closing;
    assert_eq!(
        unstake_with(&mut closing, 1250, None, true),
        Err(StakingError::Ledger(LedgerError::InvalidSeeds))
    );
    assert_eq!(
        unstake_with(&mut closing, 1250, Some((key(34), 250)), true),
        Err(StakingError::Ledger(LedgerError::InvalidSeeds))
    );
    assert_eq!(
        unstake_with(&mut closing, 1250, Some((at, 250)), false),
        Err(StakingError::Ledger(LedgerError::OwnerMismatch))
    );
    assert_eq!(
        unstake_with(&mut closing, 1249, Some((at, 250)), true),
        Err(StakingError::Program(ErrorCode::LockPeriodNotMet))
    );
    assert_eq!(closing, before);
    assert_eq!(unstake_with(&mut closing, 1250, Some((at, 250)), true), Ok(()));
    assert_eq!(closing.user_token_account.amount, 100);
    assert_eq!(closing.stake_account.amount, 0);
}

#[test]
fn initialize_on_a_given_search_result() {
    let mut ctx = Initialize {
        program_id: program(),
        signer: key(1),
        token_vault_account: None,
        mint: mint(9),
    };
    assert_eq!(
        initialize_with(&mut ctx, None),
        Err(StakingError::Ledger(LedgerError::InvalidSeeds))
    );
    assert_eq!(ctx.token_vault_account, None);
    assert_eq!(initialize_with(&mut ctx, Some((key(40), 255))), Ok(()));
    assert_eq!(
        ctx.token_vault_account,
        Some(TokenAccount {
            address: key(40),
            mint: key(100),
            custody: Custody::Program,
            amount: 0
        })
    );
    assert_eq!(
        initialize_with(&mut ctx, Some((key(41), 255))),
        Err(StakingError::Program(ErrorCode::AlreadyInitialized))
    );
}

#[test]
fn settle_moves_only_what_is_authorized() {
    let owner = key(1);
    let mut from = wallet(owner, 10);
    let mut to = escrow_of(&owner, 0);
    assert_eq!(settle(&mut from, &mut to, false, 10), Err(LedgerError::OwnerMismatch));
    assert_eq!((from.amount, to.amount), (10, 0));
    assert_eq!(settle(&mut from, &mut to, true, 11), Err(LedgerError::InsufficientFunds));
    assert_eq!(settle(&mut from, &mut to, true, 10), Ok(()));
    assert_eq!((from.amount, to.amount), (0, 10));
}
