//! A ledger in memory: every user's records, the vault and the clock, with
//! the protocol's operations run on them one at a time.

use crate::address::Address;
use crate::derivation::{escrow_seeds, found_program_address, vault_seeds};
use crate::error::{LedgerError, StakingError};
use crate::instructions::{
    escrow_refusal, initialize, initialize_spec, program_record, record_view, stake,
    stake_info_or_new, stake_spec, unstake, unstake_spec, wallet_refusal, Initialize,
    InitializeView, Stake, StakeView, UnStake, UnStakeView,
};
use crate::state::{lemma_base_units_positive, stake_refusal, unstake_refusal, StakeInfo};
use crate::token::{
    max_balance, Custody, CustodyView, Mint, MintView, TokenAccount, TokenAccountView,
};
use vstd::prelude::*;

verus! {

/// The records of one user.
#[derive(Clone, Copy, Debug)]
struct UserRecords {
    owner: Address,
    wallet: TokenAccount,
    stake_info: Option<StakeInfo>,
    escrow: Option<TokenAccount>,
}

/// The records of one user as the contracts see them: the wallet, and the
/// stake record and the escrow once the user has staked.
pub struct UserView {
    pub wallet: TokenAccountView,
    pub stake_info: Option<StakeInfo>,
    pub escrow: Option<TokenAccountView>,
}

impl View for UserRecords {
    type V = UserView;

    closed spec fn view(&self) -> UserView {
        UserView {
            wallet: self.wallet@,
            stake_info: self.stake_info,
            escrow: record_view(self.escrow),
        }
    }
}

/// The whole ledger as the contracts see it: the users' records by the
/// users' addresses, the vault, and the clock.
pub struct LedgerView {
    pub program_id: Seq<u8>,
    pub mint: MintView,
    pub slot: u64,
    pub vault: Option<TokenAccountView>,
    pub users: Map<Seq<u8>, UserView>,
}

impl LedgerView {
    /// The stake record of `user`, as `stake` and `unstake` start from it:
    /// a user without one has no position.
    pub open spec fn stake_info_of(self, user: Seq<u8>) -> StakeInfo {
        if self.users.contains_key(user) {
            stake_info_or_new(self.users[user].stake_info)
        } else {
            StakeInfo { stake_at_slot: 0, is_staked: false }
        }
    }

    /// What `stake` works with when `user` stakes.
    pub open spec fn stake_context(self, user: Seq<u8>) -> StakeView
        recommends
            self.users.contains_key(user),
    {
        StakeView {
            program_id: self.program_id,
            signer: user,
            stake_info_account: self.users[user].stake_info,
            stake_account: self.users[user].escrow,
            user_token_account: self.users[user].wallet,
            mint: self.mint,
        }
    }

    /// What `unstake` works with when `user` unstakes.
    pub open spec fn unstake_context(self, user: Seq<u8>) -> UnStakeView
        recommends
            self.users.contains_key(user),
            self.users[user].escrow is Some,
    {
        UnStakeView {
            program_id: self.program_id,
            signer: user,
            token_vault_account: self.vault,
            stake_info_account: self.stake_info_of(user),
            stake_account: self.users[user].escrow->0,
            user_token_account: self.users[user].wallet,
            mint: self.mint,
        }
    }

    /// What the escrow of a user holds: nothing where there is none.
    pub open spec fn escrow_amount(user: UserView) -> nat {
        match user.escrow {
            Some(escrow) => escrow.amount,
            None => 0,
        }
    }

    /// Whether the records of the user `owner` fit together: the wallet is
    /// the owner's and holds the ledger's token; an escrow is the record in
    /// the program's custody at the address found for the owner's escrow
    /// seeds, and holds the same token; a user with a position has an escrow
    /// that holds tokens, a user without one has none or an empty one; the
    /// wallet can take back what the escrow holds; and the stake record's
    /// slot is not ahead of the clock.
    pub open spec fn user_consistent(self, owner: Seq<u8>, user: UserView) -> bool {
        &&& wallet_refusal(user.wallet, owner, self.mint) is None
        &&& stake_info_or_new(user.stake_info).stake_at_slot <= self.slot
        &&& user.wallet.amount + Self::escrow_amount(user) <= max_balance()
        &&& user.escrow matches Some(escrow) ==> found_program_address(
            escrow_seeds(owner),
            self.program_id,
        ) matches Some((address, _)) && escrow_refusal(escrow, address, self.mint) is None
        &&& stake_info_or_new(user.stake_info).is_staked ==> Self::escrow_amount(user) > 0
        &&& !stake_info_or_new(user.stake_info).is_staked ==> Self::escrow_amount(user) == 0
    }

    /// Whether the vault, once it exists, is the empty record in the
    /// program's custody at the address found for the vault's seeds.
    pub open spec fn vault_consistent(self) -> bool {
        self.vault matches Some(vault) ==> found_program_address(
            vault_seeds(),
            self.program_id,
        ) matches Some((address, _)) && vault == program_record(address, self.mint.address)
    }

    /// Whether the ledger's records fit together: every user's do, and the
    /// vault does.
    pub open spec fn consistent(self) -> bool {
        &&& forall|owner: Seq<u8>| #[trigger]
            self.users.contains_key(owner) ==> self.user_consistent(owner, self.users[owner])
        &&& self.vault_consistent()
    }
}

/// The ledger after a wallet holding `amount` has been opened for `owner` at
/// `address`, or `AccountInUse` where the owner has one.
pub open spec fn ledger_open_wallet(
    pre: LedgerView,
    owner: Seq<u8>,
    address: Seq<u8>,
    amount: u64,
) -> Result<LedgerView, LedgerError> {
    if pre.users.contains_key(owner) {
        Err(LedgerError::AccountInUse)
    } else {
        Ok(
            LedgerView {
                users: pre.users.insert(
                    owner,
                    UserView {
                        wallet: TokenAccountView {
                            address,
                            mint: pre.mint.address,
                            custody: CustodyView::Owner(owner),
                            amount: amount as nat,
                        },
                        stake_info: None,
                        escrow: None,
                    },
                ),
                ..pre
            },
        )
    }
}

/// The ledger after the clock has moved on by `slots`; it stops at the last
/// slot there is.
pub open spec fn ledger_advance(pre: LedgerView, slots: u64) -> LedgerView {
    LedgerView {
        slot: if pre.slot + slots <= u64::MAX {
            (pre.slot + slots) as u64
        } else {
            u64::MAX
        },
        ..pre
    }
}

/// The ledger after `initialize`, paid for by `payer`, or why it fails.
pub open spec fn ledger_initialize(pre: LedgerView, payer: Seq<u8>) -> Result<
    LedgerView,
    StakingError,
> {
    match initialize_spec(
        InitializeView {
            program_id: pre.program_id,
            signer: payer,
            token_vault_account: pre.vault,
            mint: pre.mint,
        },
    ) {
        Ok(post) => Ok(LedgerView { vault: post.token_vault_account, ..pre }),
        Err(e) => Err(e),
    }
}

/// The ledger after `user` has staked `amount` tokens, or why the stake
/// fails. The protocol's own refusals come first; then a user without a
/// wallet is `AccountNotFound`.
pub open spec fn ledger_stake(pre: LedgerView, user: Seq<u8>, amount: u64) -> Result<
    LedgerView,
    StakingError,
> {
    if let Some(e) = stake_refusal(pre.stake_info_of(user), amount) {
        Err(StakingError::Program(e))
    } else if !pre.users.contains_key(user) {
        Err(StakingError::Ledger(LedgerError::AccountNotFound))
    } else {
        match stake_spec(pre.stake_context(user), amount, pre.slot) {
            Ok(post) => Ok(
                LedgerView {
                    users: pre.users.insert(
                        user,
                        UserView {
                            wallet: post.user_token_account,
                            stake_info: post.stake_info_account,
                            escrow: post.stake_account,
                        },
                    ),
                    ..pre
                },
            ),
            Err(e) => Err(e),
        }
    }
}

/// The ledger after `user` has unstaked, or why the unstake fails. The
/// protocol's own refusals come first; then a user without an escrow is
/// `AccountNotFound`.
pub open spec fn ledger_unstake(pre: LedgerView, user: Seq<u8>) -> Result<
    LedgerView,
    StakingError,
> {
    if let Some(e) = unstake_refusal(pre.stake_info_of(user), pre.slot) {
        Err(StakingError::Program(e))
    } else if !pre.users.contains_key(user) || pre.users[user].escrow is None {
        Err(StakingError::Ledger(LedgerError::AccountNotFound))
    } else {
        match unstake_spec(pre.unstake_context(user), pre.slot) {
            Ok(post) => Ok(
                LedgerView {
                    users: pre.users.insert(
                        user,
                        UserView {
                            wallet: post.user_token_account,
                            stake_info: Some(post.stake_info_account),
                            escrow: Some(post.stake_account),
                        },
                    ),
                    ..pre
                },
            ),
            Err(e) => Err(e),
        }
    }
}

/// A ledger whose records fit together still does so after the clock has
/// moved on, the vault has been replaced by one that fits, or the records of
/// one user have been replaced by records that fit together.
proof fn lemma_consistent_after(pre: LedgerView, post: LedgerView, user: Seq<u8>)
    requires
        pre.consistent(),
        post.program_id == pre.program_id,
        post.mint == pre.mint,
        post.slot >= pre.slot,
        post.vault_consistent(),
        post.users == pre.users || (post.users == pre.users.insert(user, post.users[user])
            && post.user_consistent(user, post.users[user])),
    ensures
        post.consistent(),
{
    assert forall|owner: Seq<u8>| #[trigger] post.users.contains_key(owner) implies post
        .user_consistent(owner, post.users[owner]) by {
        if post.users == pre.users || owner != user {
            assert(pre.users.contains_key(owner));
        }
    }
}

/// Every operation keeps the ledger's records fitting together.
pub proof fn operations_keep_consistency(
    pre: LedgerView,
    user: Seq<u8>,
    address: Seq<u8>,
    amount: u64,
    slots: u64,
)
    requires
        pre.consistent(),
    ensures
        ledger_open_wallet(pre, user, address, amount) matches Ok(post) ==> post.consistent(),
        ledger_advance(pre, slots).consistent(),
        ledger_initialize(pre, user) matches Ok(post) ==> post.consistent(),
        ledger_stake(pre, user, amount) matches Ok(post) ==> post.consistent(),
        ledger_unstake(pre, user) matches Ok(post) ==> post.consistent(),
{
    if let Ok(post) = ledger_open_wallet(pre, user, address, amount) {
        lemma_consistent_after(pre, post, user);
    }
    lemma_consistent_after(pre, ledger_advance(pre, slots), user);
    if let Ok(post) = ledger_initialize(pre, user) {
        lemma_consistent_after(pre, post, user);
    }
    if let Ok(post) = ledger_stake(pre, user, amount) {
        assert(pre.users.contains_key(user));
        lemma_base_units_positive(amount, pre.mint.decimals);
        lemma_consistent_after(pre, post, user);
    }
    if let Ok(post) = ledger_unstake(pre, user) {
        assert(pre.users.contains_key(user));
        lemma_consistent_after(pre, post, user);
    }
}

spec fn holds(users: Seq<UserRecords>, owner: Seq<u8>, i: int) -> bool {
    0 <= i < users.len() && users[i].owner@ == owner
}

spec fn distinct_owners(users: Seq<UserRecords>) -> bool {
    forall|i: int, j: int|
        0 <= i < users.len() && 0 <= j < users.len() && users[i].owner@ == users[j].owner@ ==> i
            == j
}

spec fn users_map(users: Seq<UserRecords>) -> Map<Seq<u8>, UserView> {
    Map::new(
        |owner: Seq<u8>| exists|i: int| holds(users, owner, i),
        |owner: Seq<u8>| users[choose|i: int| holds(users, owner, i)]@,
    )
}

proof fn lemma_users_map_at(users: Seq<UserRecords>, i: int)
    requires
        distinct_owners(users),
        0 <= i < users.len(),
    ensures
        users_map(users).contains_key(users[i].owner@),
        users_map(users)[users[i].owner@] == users[i]@,
{
    assert(holds(users, users[i].owner@, i));
}

proof fn lemma_users_map_absent(users: Seq<UserRecords>, owner: Seq<u8>)
    requires
        forall|i: int| 0 <= i < users.len() ==> users[i].owner@ != owner,
    ensures
        !users_map(users).contains_key(owner),
{
}

proof fn lemma_users_map_update(users: Seq<UserRecords>, i: int, records: UserRecords)
    requires
        distinct_owners(users),
        0 <= i < users.len(),
        records.owner@ == users[i].owner@,
    ensures
        distinct_owners(users.update(i, records)),
        users_map(users.update(i, records)) == users_map(users).insert(records.owner@, records@),
{
    let after = users.update(i, records);
    assert forall|owner: Seq<u8>| #[trigger]
        users_map(after).contains_key(owner) == users_map(users).insert(
            records.owner@,
            records@,
        ).contains_key(owner) by {
        if users_map(after).contains_key(owner) {
            let j = choose|j: int| holds(after, owner, j);
            assert(holds(users, owner, j));
        }
        if users_map(users).contains_key(owner) {
            let j = choose|j: int| holds(users, owner, j);
            assert(holds(after, owner, j));
        }
        if owner == records.owner@ {
            assert(holds(after, owner, i));
        }
    }
    assert forall|owner: Seq<u8>| #[trigger] users_map(after).contains_key(owner) implies users_map(
        after,
    )[owner] == users_map(users).insert(records.owner@, records@)[owner] by {
        let j = choose|j: int| holds(after, owner, j);
        assert(holds(users, owner, j));
        if owner == records.owner@ {
            assert(holds(after, owner, i));
        } else {
            let k = choose|k: int| holds(users, owner, k);
            assert(holds(users, owner, k));
        }
    }
    assert(users_map(after) =~= users_map(users).insert(records.owner@, records@));
}

proof fn lemma_users_map_push(users: Seq<UserRecords>, records: UserRecords)
    requires
        distinct_owners(users),
        forall|i: int| 0 <= i < users.len() ==> users[i].owner@ != records.owner@,
    ensures
        distinct_owners(users.push(records)),
        users_map(users.push(records)) == users_map(users).insert(records.owner@, records@),
{
    let after = users.push(records);
    let last = users.len() as int;
    assert forall|owner: Seq<u8>| #[trigger]
        users_map(after).contains_key(owner) == users_map(users).insert(
            records.owner@,
            records@,
        ).contains_key(owner) by {
        if users_map(after).contains_key(owner) {
            let j = choose|j: int| holds(after, owner, j);
            if j < last {
                assert(holds(users, owner, j));
            }
        }
        if users_map(users).contains_key(owner) {
            let j = choose|j: int| holds(users, owner, j);
            assert(holds(after, owner, j));
        }
        if owner == records.owner@ {
            assert(holds(after, owner, last));
        }
    }
    assert forall|owner: Seq<u8>| #[trigger] users_map(after).contains_key(owner) implies users_map(
        after,
    )[owner] == users_map(users).insert(records.owner@, records@)[owner] by {
        let j = choose|j: int| holds(after, owner, j);
        if owner == records.owner@ {
            assert(holds(after, owner, last));
        } else {
            assert(holds(users, owner, j));
            let k = choose|k: int| holds(users, owner, k);
            assert(holds(after, owner, k));
        }
    }
    assert(users_map(after) =~= users_map(users).insert(records.owner@, records@));
}

/// A ledger in memory. Its clock only moves forward, and no user has two
/// sets of records.
pub struct Ledger {
    program_id: Address,
    mint: Mint,
    slot: u64,
    vault: Option<TokenAccount>,
    users: Vec<UserRecords>,
}

impl View for Ledger {
    type V = LedgerView;

    closed spec fn view(&self) -> LedgerView {
        LedgerView {
            program_id: self.program_id@,
            mint: self.mint@,
            slot: self.slot,
            vault: record_view(self.vault),
            users: users_map(self.users@),
        }
    }
}

impl Ledger {
    #[verifier::type_invariant]
    spec fn well_formed(self) -> bool {
        distinct_owners(self.users@) && self@.consistent()
    }

    /// An empty ledger at slot zero for the program `program_id` and the
    /// token `mint`.
    pub fn new(program_id: Address, mint: Mint) -> (r: Ledger)
        ensures
            r@ == (LedgerView {
                program_id: program_id@,
                mint: mint@,
                slot: 0,
                vault: None,
                users: Map::empty(),
            }),
            r@.consistent(),
    {
        let r = Ledger { program_id, mint, slot: 0, vault: None, users: Vec::new() };
        assert(r@.users =~= Map::empty());
        r
    }

    fn find(&self, owner: &Address) -> (r: Option<usize>)
        ensures
            match r {
                Some(i) => i < self.users@.len() && self.users@[i as int].owner@ == owner@,
                None => forall|i: int|
                    0 <= i < self.users@.len() ==> self.users@[i].owner@ != owner@,
            },
    {
        let mut i: usize = 0;
        while i < self.users.len()
            invariant
                i <= self.users@.len(),
                forall|j: int| 0 <= j < i ==> self.users@[j].owner@ != owner@,
            decreases self.users@.len() - i,
        {
            if self.users[i].owner.equals(owner) {
                return Some(i);
            }
            i += 1;
        }
        None
    }

    /// Adds the records of a user that the ledger does not hold yet.
    fn add(&mut self, records: UserRecords)
        requires
            !old(self)@.users.contains_key(records.owner@),
            (LedgerView {
                users: old(self)@.users.insert(records.owner@, records@),
                ..old(self)@
            }).consistent(),
        ensures
            final(self)@ == (LedgerView {
                users: old(self)@.users.insert(records.owner@, records@),
                ..old(self)@
            }),
    {
        proof {
            use_type_invariant(&*self);
            assert forall|i: int| 0 <= i < self.users@.len() implies self.users@[i].owner@
                != records.owner@ by {
                lemma_users_map_at(self.users@, i);
            }
            lemma_users_map_push(self.users@, records);
        }
        let mut users: Vec<UserRecords> = Vec::new();
        core::mem::swap(&mut self.users, &mut users);
        users.push(records);
        core::mem::swap(&mut self.users, &mut users);
    }

    /// Replaces the records of the user at index `i` by `records`, of the
    /// same user.
    fn put(&mut self, i: usize, records: UserRecords)
        requires
            i < old(self).users@.len(),
            old(self).users@[i as int].owner@ == records.owner@,
            (LedgerView {
                users: old(self)@.users.insert(records.owner@, records@),
                ..old(self)@
            }).consistent(),
        ensures
            final(self)@ == (LedgerView {
                users: old(self)@.users.insert(records.owner@, records@),
                ..old(self)@
            }),
    {
        proof {
            use_type_invariant(&*self);
            lemma_users_map_update(self.users@, i as int, records);
        }
        let mut users: Vec<UserRecords> = Vec::new();
        core::mem::swap(&mut self.users, &mut users);
        users.set(i, records);
        core::mem::swap(&mut self.users, &mut users);
    }

    /// The slot that the clock shows.
    pub fn slot(&self) -> (r: u64)
        ensures
            r == self@.slot,
    {
        self.slot
    }

    /// The vault, once it exists.
    pub fn vault(&self) -> (r: Option<TokenAccount>)
        ensures
            record_view(r) == self@.vault,
    {
        self.vault
    }

    /// The wallet of `owner`, if the ledger holds one.
    pub fn wallet(&self, owner: &Address) -> (r: Option<TokenAccount>)
        ensures
            match r {
                Some(wallet) => self@.users.contains_key(owner@) && self@.users[owner@].wallet
                    == wallet@,
                None => !self@.users.contains_key(owner@),
            },
    {
        proof {
            use_type_invariant(self);
        }
        match self.find(owner) {
            Some(i) => {
                proof {
                    lemma_users_map_at(self.users@, i as int);
                }
                Some(self.users[i].wallet)
            },
            None => {
                proof {
                    lemma_users_map_absent(self.users@, owner@);
                }
                None
            },
        }
    }

    /// The stake record of `owner`, once the user has staked.
    pub fn stake_info(&self, owner: &Address) -> (r: Option<StakeInfo>)
        ensures
            r == if self@.users.contains_key(owner@) {
                self@.users[owner@].stake_info
            } else {
                None
            },
    {
        proof {
            use_type_invariant(self);
        }
        match self.find(owner) {
            Some(i) => {
                proof {
                    lemma_users_map_at(self.users@, i as int);
                }
                self.users[i].stake_info
            },
            None => {
                proof {
                    lemma_users_map_absent(self.users@, owner@);
                }
                None
            },
        }
    }

    /// The escrow of `owner`, once the user has staked.
    pub fn escrow(&self, owner: &Address) -> (r: Option<TokenAccount>)
        ensures
            record_view(r) == if self@.users.contains_key(owner@) {
                self@.users[owner@].escrow
            } else {
                None
            },
    {
        proof {
            use_type_invariant(self);
        }
        match self.find(owner) {
            Some(i) => {
                proof {
                    lemma_users_map_at(self.users@, i as int);
                }
                self.users[i].escrow
            },
            None => {
                proof {
                    lemma_users_map_absent(self.users@, owner@);
                }
                None
            },
        }
    }

    /// Opens a wallet at `address` for `owner`, holding `amount` of the
    /// ledger's token.
    pub fn open_wallet(&mut self, owner: Address, address: Address, amount: u64) -> (r: Result<
        (),
        LedgerError,
    >)
        ensures
            match ledger_open_wallet(old(self)@, owner@, address@, amount) {
                Ok(post) => r is Ok && final(self)@ == post,
                Err(e) => r == Err::<(), LedgerError>(e) && final(self)@ == old(self)@,
            },
            final(self)@.consistent(),
    {
        proof {
            use_type_invariant(&*self);
        }
        match self.find(&owner) {
            Some(i) => {
                proof {
                    lemma_users_map_at(self.users@, i as int);
                }
                Err(LedgerError::AccountInUse)
            },
            None => {
                let records = UserRecords {
                    owner,
                    wallet: TokenAccount {
                        address,
                        mint: self.mint.address,
                        custody: Custody::Owner(owner),
                        amount,
                    },
                    stake_info: None,
                    escrow: None,
                };
                proof {
                    lemma_users_map_absent(self.users@, owner@);
                    operations_keep_consistency(self@, owner@, address@, amount, 0);
                }
                self.add(records);
                Ok(())
            },
        }
    }

    /// Moves the clock on by `slots`.
    pub fn advance(&mut self, slots: u64)
        ensures
            final(self)@ == ledger_advance(old(self)@, slots),
            final(self)@.slot >= old(self)@.slot,
            final(self)@.consistent(),
    {
        proof {
            use_type_invariant(&*self);
            operations_keep_consistency(self@, seq![], seq![], 0, slots);
        }
        self.slot = if slots <= u64::MAX - self.slot {
            self.slot + slots
        } else {
            u64::MAX
        };
    }

    /// Runs `initialize`, paid for by `payer`.
    pub fn initialize(&mut self, payer: &Address) -> (r: Result<(), StakingError>)
        ensures
            match ledger_initialize(old(self)@, payer@) {
                Ok(post) => r is Ok && final(self)@ == post,
                Err(e) => r == Err::<(), StakingError>(e) && final(self)@ == old(self)@,
            },
            final(self)@.consistent(),
    {
        proof {
            use_type_invariant(&*self);
            operations_keep_consistency(self@, payer@, seq![], 0, 0);
        }
        let mut ctx = Initialize {
            program_id: self.program_id,
            signer: *payer,
            token_vault_account: self.vault,
            mint: self.mint,
        };
        match initialize(&mut ctx) {
            Ok(()) => {
                self.vault = ctx.token_vault_account;
                Ok(())
            },
            Err(e) => Err(e),
        }
    }

    /// Runs `stake` for `user` at the slot that the clock shows.
    pub fn stake(&mut self, user: &Address, amount: u64) -> (r: Result<(), StakingError>)
        ensures
            match ledger_stake(old(self)@, user@, amount) {
                Ok(post) => r is Ok && final(self)@ == post,
                Err(e) => r == Err::<(), StakingError>(e) && final(self)@ == old(self)@,
            },
            final(self)@.consistent(),
    {
        proof {
            use_type_invariant(&*self);
            operations_keep_consistency(self@, user@, seq![], amount, 0);
        }
        let found = self.find(user);
        let info = match found {
            Some(i) => {
                proof {
                    lemma_users_map_at(self.users@, i as int);
                }
                match self.users[i].stake_info {
                    Some(info) => info,
                    None => StakeInfo::new(),
                }
            },
            None => {
                proof {
                    lemma_users_map_absent(self.users@, user@);
                }
                StakeInfo::new()
            },
        };
        if let Err(e) = info.check_stake(amount) {
            return Err(StakingError::Program(e));
        }
        let i = match found {
            Some(i) => i,
            None => {
                return Err(StakingError::Ledger(LedgerError::AccountNotFound));
            },
        };
        let records = self.users[i];
        let mut ctx = Stake {
            program_id: self.program_id,
            signer: *user,
            stake_info_account: records.stake_info,
            stake_account: records.escrow,
            user_token_account: records.wallet,
            mint: self.mint,
        };
        assert(ctx@ == self@.stake_context(user@));
        match stake(&mut ctx, amount, self.slot) {
            Ok(()) => {
                let updated = UserRecords {
                    owner: records.owner,
                    wallet: ctx.user_token_account,
                    stake_info: ctx.stake_info_account,
                    escrow: ctx.stake_account,
                };
                self.put(i, updated);
                Ok(())
            },
            Err(e) => Err(e),
        }
    }

    /// Runs `unstake` for `user` at the slot that the clock shows.
    pub fn unstake(&mut self, user: &Address) -> (r: Result<(), StakingError>)
        ensures
            match ledger_unstake(old(self)@, user@) {
                Ok(post) => r is Ok && final(self)@ == post,
                Err(e) => r == Err::<(), StakingError>(e) && final(self)@ == old(self)@,
            },
            final(self)@.consistent(),
    {
        proof {
            use_type_invariant(&*self);
            operations_keep_consistency(self@, user@, seq![], 0, 0);
        }
        let found = self.find(user);
        let info = match found {
            Some(i) => {
                proof {
                    lemma_users_map_at(self.users@, i as int);
                }
                match self.users[i].stake_info {
                    Some(info) => info,
                    None => StakeInfo::new(),
                }
            },
            None => {
                proof {
                    lemma_users_map_absent(self.users@, user@);
                }
                StakeInfo::new()
            },
        };
        if let Err(e) = info.check_unstake(self.slot) {
            return Err(StakingError::Program(e));
        }
        let i = match found {
            Some(i) => i,
            None => {
                return Err(StakingError::Ledger(LedgerError::AccountNotFound));
            },
        };
        let records = self.users[i];
        let escrow = match records.escrow {
            Some(escrow) => escrow,
            None => {
                return Err(StakingError::Ledger(LedgerError::AccountNotFound));
            },
        };
        let mut ctx = UnStake {
            program_id: self.program_id,
            signer: *user,
            token_vault_account: self.vault,
            stake_info_account: info,
            stake_account: escrow,
            user_token_account: records.wallet,
            mint: self.mint,
        };
        assert(ctx@ == self@.unstake_context(user@));
        match unstake(&mut ctx, self.slot) {
            Ok(()) => {
                let updated = UserRecords {
                    owner: records.owner,
                    wallet: ctx.user_token_account,
                    stake_info: Some(ctx.stake_info_account),
                    escrow: Some(ctx.stake_account),
                };
                self.put(i, updated);
                Ok(())
            },
            Err(e) => Err(e),
        }
    }
}

} // verus!
