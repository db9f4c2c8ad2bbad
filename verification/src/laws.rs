//! What holds of the operations on every input.

use crate::constants::{LOCK_PERIOD, STAKE_INFO_SEED, TOKEN_SEED, VAULT_SEED};
use crate::derivation::{
    escrow_seeds, found_program_address, program_address, stake_info_seeds, vault_seeds,
};
use crate::error::{ErrorCode, StakingError};
use crate::instructions::{
    after_initialize, after_stake, after_unstake, initialize_spec, program_record,
    stake_info_or_new, stake_spec, stake_transfer, unstake_spec, unstake_transfer,
    InitializeView, StakeView, UnStakeView,
};
use crate::ledger::{ledger_stake, ledger_unstake, LedgerView, UserView};
use crate::state::{base_units, lemma_base_units_positive, StakeInfo, StakeState};
use crate::token::{
    authorizes, max_balance, transfer_spec, AuthorizationView, CustodyView, TokenAccountView,
};
use vstd::prelude::*;

verus! {

/// The balance of the escrow that `stake` starts from: nothing where the
/// escrow does not exist yet.
pub open spec fn escrow_balance(pre: StakeView) -> nat {
    match pre.stake_account {
        Some(escrow) => escrow.amount,
        None => 0,
    }
}

/// The records that `unstake` works with, as a successful `stake` left them.
pub open spec fn staked_records(
    post: StakeView,
    vault: Option<TokenAccountView>,
) -> UnStakeView
    recommends
        post.stake_info_account is Some,
        post.stake_account is Some,
{
    UnStakeView {
        program_id: post.program_id,
        signer: post.signer,
        token_vault_account: vault,
        stake_info_account: post.stake_info_account->0,
        stake_account: post.stake_account->0,
        user_token_account: post.user_token_account,
        mint: post.mint,
    }
}

/// The records that `stake` works with, as `unstake` left them.
pub open spec fn unstaked_records(post: UnStakeView) -> StakeView {
    StakeView {
        program_id: post.program_id,
        signer: post.signer,
        stake_info_account: Some(post.stake_info_account),
        stake_account: Some(post.stake_account),
        user_token_account: post.user_token_account,
        mint: post.mint,
    }
}

/// A stake of a positive amount by an idle user, where the ledger does not
/// refuse the transfer, succeeds: the user is locked from `now` on, the
/// wallet is debited by the amount in base units, which is positive, the
/// escrow is credited by the same quantity, their total is what it was, and
/// nothing else changes.
pub proof fn stake_locks_and_moves_tokens(pre: StakeView, amount: u64, now: u64)
    requires
        amount > 0,
        stake_info_or_new(pre.stake_info_account).state() == StakeState::Idle,
        stake_transfer(pre, amount) is Ok,
    ensures
        stake_spec(pre, amount, now) matches Ok(post) && {
            let quantity = base_units(amount, pre.mint.decimals);
            &&& post.stake_info_account == Some(StakeInfo { stake_at_slot: now, is_staked: true })
            &&& post.stake_info_account->0.state() == StakeState::Locked
            &&& post.stake_account is Some
            &&& quantity > 0
            &&& post.user_token_account.amount + quantity == pre.user_token_account.amount
            &&& post.stake_account->0.amount == escrow_balance(pre) + quantity
            &&& post.user_token_account.amount + post.stake_account->0.amount
                == pre.user_token_account.amount + escrow_balance(pre)
            &&& post.user_token_account == (TokenAccountView {
                amount: post.user_token_account.amount,
                ..pre.user_token_account
            })
            &&& pre.stake_account matches Some(escrow) ==> post.stake_account->0 == (
            TokenAccountView { amount: post.stake_account->0.amount, ..escrow })
            &&& post.program_id == pre.program_id
            &&& post.signer == pre.signer
            &&& post.mint == pre.mint
        },
{
    lemma_base_units_positive(amount, pre.mint.decimals);
}

/// A stake of a positive amount by a locked user fails with `IsStaked` and
/// changes nothing.
pub proof fn stake_refused_while_locked(pre: StakeView, amount: u64, now: u64)
    requires
        amount > 0,
        stake_info_or_new(pre.stake_info_account).state() == StakeState::Locked,
    ensures
        stake_spec(pre, amount, now) == Err::<StakeView, StakingError>(
            StakingError::Program(ErrorCode::IsStaked),
        ),
        after_stake(pre, amount, now) == pre,
{
}

/// A stake of no tokens fails with `NoTokens`, whatever the user's state,
/// and changes nothing.
pub proof fn stake_of_nothing_refused(pre: StakeView, now: u64)
    ensures
        stake_spec(pre, 0, now) == Err::<StakeView, StakingError>(
            StakingError::Program(ErrorCode::NoTokens),
        ),
        after_stake(pre, 0, now) == pre,
{
}

/// An unstake by an idle user fails with `NotStaked` and changes nothing.
pub proof fn unstake_refused_while_idle(pre: UnStakeView, now: u64)
    requires
        pre.stake_info_account.state() == StakeState::Idle,
    ensures
        unstake_spec(pre, now) == Err::<UnStakeView, StakingError>(
            StakingError::Program(ErrorCode::NotStaked),
        ),
        after_unstake(pre, now) == pre,
{
}

/// An unstake by a locked user before the lock period has passed fails with
/// `LockPeriodNotMet` and changes nothing.
pub proof fn unstake_refused_before_lock_period(pre: UnStakeView, now: u64)
    requires
        pre.stake_info_account.state() == StakeState::Locked,
        now - pre.stake_info_account.stake_at_slot < LOCK_PERIOD,
    ensures
        unstake_spec(pre, now) == Err::<UnStakeView, StakingError>(
            StakingError::Program(ErrorCode::LockPeriodNotMet),
        ),
        after_unstake(pre, now) == pre,
{
}

/// An unstake by a locked user once the lock period has passed, and so at
/// the very slot at which it has, succeeds where the ledger does not refuse
/// the transfer.
pub proof fn unstake_allowed_from_lock_period(pre: UnStakeView, now: u64)
    requires
        pre.stake_info_account.state() == StakeState::Locked,
        now - pre.stake_info_account.stake_at_slot >= LOCK_PERIOD,
        unstake_transfer(pre) is Ok,
    ensures
        unstake_spec(pre, now) is Ok,
{
}

/// An unstake succeeds only for a locked user whose lock period has passed.
pub proof fn unstake_succeeds_only_after_lock_period(pre: UnStakeView, now: u64)
    requires
        unstake_spec(pre, now) is Ok,
    ensures
        pre.stake_info_account.state() == StakeState::Locked,
        now - pre.stake_info_account.stake_at_slot >= LOCK_PERIOD,
{
}

/// Tokens leave a record in the program's custody only on seeds from which
/// the program derives the record's own address: no signature moves them.
pub proof fn program_custody_yields_only_to_its_derivation(
    from: TokenAccountView,
    to: TokenAccountView,
    authorization: AuthorizationView,
    program_id: Seq<u8>,
    quantity: nat,
)
    requires
        from.custody == CustodyView::Program,
        transfer_spec(from, to, authorizes(authorization, program_id, from), quantity) is Ok,
    ensures
        authorization matches AuthorizationView::Derivation(seeds) && program_address(
            seeds,
            program_id,
        ) == Some(from.address),
{
}

/// A successful unstake moves the escrow's whole balance into the wallet,
/// leaves the escrow empty and the user idle since `now`, and changes
/// nothing else: not the vault either. The escrow is the one at the address
/// found for the signer's escrow seeds.
pub proof fn unstake_returns_whole_escrow(pre: UnStakeView, now: u64)
    requires
        unstake_spec(pre, now) is Ok,
    ensures
        ({
            let post = unstake_spec(pre, now)->Ok_0;
            &&& post.stake_info_account == (StakeInfo { stake_at_slot: now, is_staked: false })
            &&& post.stake_info_account.state() == StakeState::Idle
            &&& post.stake_account == (TokenAccountView { amount: 0, ..pre.stake_account })
            &&& post.user_token_account == (TokenAccountView {
                amount: pre.user_token_account.amount + pre.stake_account.amount,
                ..pre.user_token_account
            })
            &&& post.user_token_account.amount <= max_balance()
            &&& post.token_vault_account == pre.token_vault_account
            &&& post.program_id == pre.program_id
            &&& post.signer == pre.signer
            &&& post.mint == pre.mint
            &&& found_program_address(escrow_seeds(pre.signer), pre.program_id) matches Some(
                (address, _),
            ) && address == pre.stake_account.address
        }),
{
}

/// After a successful unstake the same user can open a position again: a
/// stake of a positive amount that the wallet covers succeeds.
pub proof fn stake_reopens_after_unstake(pre: UnStakeView, now: u64, amount: u64, later: u64)
    requires
        unstake_spec(pre, now) is Ok,
        amount > 0,
        base_units(amount, pre.mint.decimals) <= pre.user_token_account.amount
            + pre.stake_account.amount,
    ensures
        stake_spec(unstaked_records(unstake_spec(pre, now)->Ok_0), amount, later) is Ok,
{
}

/// `initialize` succeeds where the vault does not exist and an address is
/// found for it, and creates the vault there: empty, in the program's
/// custody, for the given token.
pub proof fn initialize_creates_vault(pre: InitializeView)
    requires
        pre.token_vault_account is None,
        found_program_address(vault_seeds(), pre.program_id) is Some,
    ensures
        ({
            let (address, _) = found_program_address(vault_seeds(), pre.program_id)->0;
            initialize_spec(pre) == Ok::<InitializeView, StakingError>(
                InitializeView {
                    token_vault_account: Some(program_record(address, pre.mint.address)),
                    ..pre
                },
            )
        }),
{
}

/// `initialize` succeeds at most once: where the vault exists, and so after
/// every success, it fails with `AlreadyInitialized` and leaves the vault's
/// balance and custody, and all else, as they were.
pub proof fn initialize_only_once(pre: InitializeView)
    ensures
        pre.token_vault_account is Some ==> initialize_spec(pre) == Err::<
            InitializeView,
            StakingError,
        >(StakingError::Program(ErrorCode::AlreadyInitialized)) && after_initialize(pre) == pre,
        initialize_spec(pre) matches Ok(post) ==> initialize_spec(post) == Err::<
            InitializeView,
            StakingError,
        >(StakingError::Program(ErrorCode::AlreadyInitialized)) && after_initialize(post) == post,
{
}

/// A position opened by an idle user whose escrow is empty can be closed
/// once the lock period has passed, and closing it gives the wallet back
/// what it held before the stake.
pub proof fn stake_then_unstake_restores_wallet(
    pre: StakeView,
    vault: Option<TokenAccountView>,
    amount: u64,
    started: u64,
    now: u64,
)
    requires
        stake_spec(pre, amount, started) is Ok,
        escrow_balance(pre) == 0,
        pre.user_token_account.amount <= max_balance(),
        now - started >= LOCK_PERIOD,
    ensures
        ({
            let locked = staked_records(stake_spec(pre, amount, started)->Ok_0, vault);
            &&& unstake_spec(locked, now) matches Ok(post) && post.user_token_account
                == pre.user_token_account && post.stake_account.amount == 0
                && post.stake_info_account.state() == StakeState::Idle
        }),
{
}

/// No operation fails with `InsufficientVaultBalance`: rewards are not paid.
pub proof fn vault_balance_error_unreachable(
    init: InitializeView,
    staking: StakeView,
    unstaking: UnStakeView,
    amount: u64,
    now: u64,
)
    ensures
        initialize_spec(init) != Err::<InitializeView, StakingError>(
            StakingError::Program(ErrorCode::InsufficientVaultBalance),
        ),
        stake_spec(staking, amount, now) != Err::<StakeView, StakingError>(
            StakingError::Program(ErrorCode::InsufficientVaultBalance),
        ),
        unstake_spec(unstaking, now) != Err::<UnStakeView, StakingError>(
            StakingError::Program(ErrorCode::InsufficientVaultBalance),
        ),
{
}

/// One user's operation neither changes nor reads another user's records:
/// after a stake or an unstake by `user` every other user's records are what
/// they were, and the operation ends the same way, with the same records for
/// `user`, whatever records the other user has.
pub proof fn users_are_isolated(
    pre: LedgerView,
    user: Seq<u8>,
    other: Seq<u8>,
    others_records: UserView,
    amount: u64,
)
    requires
        user != other,
    ensures
        ledger_stake(pre, user, amount) matches Ok(post) ==> post.users.contains_key(other)
            == pre.users.contains_key(other) && post.users[other] == pre.users[other],
        ledger_unstake(pre, user) matches Ok(post) ==> post.users.contains_key(other)
            == pre.users.contains_key(other) && post.users[other] == pre.users[other],
        ({
            let changed = LedgerView { users: pre.users.insert(other, others_records), ..pre };
            &&& match (ledger_stake(pre, user, amount), ledger_stake(changed, user, amount)) {
                (Ok(post), Ok(changed_post)) => changed_post.users[user] == post.users[user],
                (Err(e), Err(changed_e)) => changed_e == e,
                _ => false,
            }
            &&& match (ledger_unstake(pre, user), ledger_unstake(changed, user)) {
                (Ok(post), Ok(changed_post)) => changed_post.users[user] == post.users[user],
                (Err(e), Err(changed_e)) => changed_e == e,
                _ => false,
            }
        }),
{
    let changed = LedgerView { users: pre.users.insert(other, others_records), ..pre };
    assert(changed.users.contains_key(user) == pre.users.contains_key(user));
    assert(changed.stake_info_of(user) == pre.stake_info_of(user));
    if pre.users.contains_key(user) {
        assert(changed.users[user] == pre.users[user]);
        assert(changed.stake_context(user) == pre.stake_context(user));
        assert(changed.unstake_context(user) == pre.unstake_context(user));
    }
}

/// On a ledger whose records fit together, a user with a wallet and without
/// a position opens one by staking a positive amount that the wallet covers,
/// where an address is found for the user's escrow: the wallet is debited by
/// the amount in base units and the escrow holds that quantity.
pub proof fn idle_user_can_stake(pre: LedgerView, user: Seq<u8>, amount: u64)
    requires
        pre.consistent(),
        pre.users.contains_key(user),
        pre.stake_info_of(user).state() == StakeState::Idle,
        amount > 0,
        base_units(amount, pre.mint.decimals) <= pre.users[user].wallet.amount,
        found_program_address(escrow_seeds(user), pre.program_id) is Some,
    ensures
        ledger_stake(pre, user, amount) matches Ok(post) && {
            let quantity = base_units(amount, pre.mint.decimals);
            &&& post.stake_info_of(user) == (StakeInfo { stake_at_slot: pre.slot, is_staked: true })
            &&& post.users[user].wallet.amount + quantity == pre.users[user].wallet.amount
            &&& post.users[user].escrow matches Some(escrow) && escrow.amount == quantity
        },
{
}

/// On a ledger whose records fit together, a user with a position closes it
/// by unstaking once the lock period has passed, and so at the very slot at
/// which it has: the wallet then holds what wallet and escrow held together,
/// and the escrow is empty.
pub proof fn locked_user_can_unstake_after_lock_period(pre: LedgerView, user: Seq<u8>)
    requires
        pre.consistent(),
        pre.stake_info_of(user).state() == StakeState::Locked,
        pre.slot - pre.stake_info_of(user).stake_at_slot >= LOCK_PERIOD,
    ensures
        ledger_unstake(pre, user) matches Ok(post) && {
            &&& post.stake_info_of(user) == (StakeInfo {
                stake_at_slot: pre.slot,
                is_staked: false,
            })
            &&& post.users[user].wallet.amount == pre.users[user].wallet.amount
                + LedgerView::escrow_amount(pre.users[user])
            &&& post.users[user].escrow matches Some(escrow) && escrow.amount == 0
        },
{
    assert(pre.users.contains_key(user));
    assert(pre.user_consistent(user, pre.users[user]));
}

/// The bytes that a derivation hashes for `seeds` and a bump seed: the seeds
/// one after another, the bump seed last.
pub open spec fn hashed_seeds(seeds: Seq<Seq<u8>>, bump: u8) -> Seq<u8> {
    seeds.push(seq![bump]).flatten()
}

/// No two of the protocol's derivations hash the same seed bytes: the vault,
/// a stake record and an escrow never do, and two stake records, or two
/// escrows, only where they are the same user's and the bump seeds agree.
pub proof fn derivations_hash_distinct_seeds(a: Seq<u8>, b: Seq<u8>, bump_a: u8, bump_b: u8)
    requires
        a.len() == 32,
        b.len() == 32,
    ensures
        hashed_seeds(escrow_seeds(a), bump_a) == hashed_seeds(escrow_seeds(b), bump_b) ==> a == b
            && bump_a == bump_b,
        hashed_seeds(stake_info_seeds(a), bump_a) == hashed_seeds(stake_info_seeds(b), bump_b)
            ==> a == b && bump_a == bump_b,
        hashed_seeds(escrow_seeds(a), bump_a) != hashed_seeds(stake_info_seeds(b), bump_b),
        hashed_seeds(vault_seeds(), bump_a) != hashed_seeds(escrow_seeds(b), bump_b),
        hashed_seeds(vault_seeds(), bump_a) != hashed_seeds(stake_info_seeds(b), bump_b),
{
    reveal_with_fuel(Seq::flatten, 5);
    let escrow_a = hashed_seeds(escrow_seeds(a), bump_a);
    let escrow_b = hashed_seeds(escrow_seeds(b), bump_b);
    let info_a = hashed_seeds(stake_info_seeds(a), bump_a);
    let info_b = hashed_seeds(stake_info_seeds(b), bump_b);
    let vault = hashed_seeds(vault_seeds(), bump_a);
    assert(escrow_a =~= TOKEN_SEED@ + a + seq![bump_a]);
    assert(escrow_b =~= TOKEN_SEED@ + b + seq![bump_b]);
    assert(info_a =~= STAKE_INFO_SEED@ + a + seq![bump_a]);
    assert(info_b =~= STAKE_INFO_SEED@ + b + seq![bump_b]);
    assert(vault =~= VAULT_SEED@ + seq![bump_a]);
    assert(escrow_a.len() == 38 && escrow_b.len() == 38);
    assert(info_a.len() == 43 && info_b.len() == 43);
    assert(vault.len() == 6);
    if escrow_a == escrow_b {
        assert forall|i: int| 0 <= i < 32 implies a[i] == b[i] by {
            assert(escrow_a[i + 5] == a[i]);
            assert(escrow_b[i + 5] == b[i]);
        }
        assert(a =~= b);
        assert(escrow_a[37] == bump_a && escrow_b[37] == bump_b);
    }
    if info_a == info_b {
        assert forall|i: int| 0 <= i < 32 implies a[i] == b[i] by {
            assert(info_a[i + 10] == a[i]);
            assert(info_b[i + 10] == b[i]);
        }
        assert(a =~= b);
        assert(info_a[42] == bump_a && info_b[42] == bump_b);
    }
}

} // verus!
