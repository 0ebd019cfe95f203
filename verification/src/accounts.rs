//! Account administration: group membership, operator blocks and currency routing.
use vstd::prelude::*;
use vstd::hash_map::HashMapWithView;
use crate::account_control::{
    after_block_account, after_block_group, after_unblock_account, after_unblock_all, after_unblock_group,
    check_answer, AccountBlockError, AccountBlockHandle, BlockedAccounts,
    BlockedView,
};
use crate::account_groups::{
    first_not_member, first_registered, group_in, listed, register_outcome, registered, unregister_outcome,
    AccountGroupError, AccountGroups,
};
use crate::param::{AccountGroupId, AccountId, Asset, DEFAULT_ACCOUNT_GROUP_RAW};
use crate::pretrade::{AccountBlock, RejectCode, RejectScope, Rejects};
use crate::request_trait::{reads_account, HasAccountId};

verus! {

broadcast use vstd::std_specs::hash::group_hash_axioms;

// ─── State-transition leases ─────────────────────────────────────────────────

/// Kind of lease held on the state-transition coordinator.
#[derive(Clone, Copy, Debug, PartialEq, Eq, Structural)]
pub enum StateTransitionAccessKind {
    /// An ordinary account-state writer; many may hold it at once.
    Shared,
    /// A barrier or membership transition; it excludes every other holder.
    Exclusive,
}

/// Lease counters that serialize account-state writers against barrier and
/// membership transitions. Writers share the lease; a transition takes it
/// exclusively, and a queued transition keeps new ordinary writers out (a rollback
/// writer may bypass the queue).
pub struct StateTransitionAccess {
    /// Number of shared holders.
    pub readers: usize,
    /// Whether the exclusive holder is in.
    pub writer: bool,
    /// Number of transitions waiting for the lease.
    pub waiting_writers: usize,
}

impl StateTransitionAccess {
    /// The exclusive holder never coexists with shared holders.
    pub open spec fn wf(&self) -> bool {
        self.writer ==> self.readers == 0
    }

    /// Nobody holds or waits for the lease.
    pub fn new() -> (r: StateTransitionAccess)
        ensures
            r.wf(),
            r.readers == 0,
            !r.writer,
            r.waiting_writers == 0,
    {
        StateTransitionAccess { readers: 0, writer: false, waiting_writers: 0 }
    }

    /// Tries to take a shared lease. It is refused while the exclusive holder is in,
    /// while a transition is queued (unless `bypass_waiting_writer`), or when the
    /// reader count cannot grow.
    pub fn try_acquire_shared(&mut self, bypass_waiting_writer: bool) -> (r: bool)
        requires
            old(self).wf(),
        ensures
            final(self).wf(),
            r == (!old(self).writer && (bypass_waiting_writer || old(self).waiting_writers == 0)
                && old(self).readers < usize::MAX),
            r ==> final(self).readers == old(self).readers + 1 && final(self).writer == old(self).writer
                && final(self).waiting_writers == old(self).waiting_writers,
            !r ==> *final(self) == *old(self),
    {
        if self.writer || (!bypass_waiting_writer && self.waiting_writers != 0) {
            return false;
        }
        match self.readers.checked_add(1) {
            Some(readers) => {
                self.readers = readers;
                true
            },
            None => false,
        }
    }

    /// Queues a transition for the exclusive lease.
    pub fn enqueue_exclusive(&mut self)
        requires
            old(self).wf(),
        ensures
            final(self).wf(),
            final(self).waiting_writers == (if old(self).waiting_writers < usize::MAX {
                old(self).waiting_writers + 1
            } else {
                old(self).waiting_writers as int
            }),
            final(self).readers == old(self).readers,
            final(self).writer == old(self).writer,
    {
        self.waiting_writers = self.waiting_writers.saturating_add(1);
    }

    /// Tries to take the exclusive lease for a queued transition; it is granted only
    /// when nobody holds the lease.
    pub fn try_acquire_exclusive(&mut self) -> (r: bool)
        requires
            old(self).wf(),
        ensures
            final(self).wf(),
            r == (!old(self).writer && old(self).readers == 0),
            r ==> final(self).writer && final(self).readers == 0 && final(self).waiting_writers == (if old(
                self,
            ).waiting_writers > 0 {
                old(self).waiting_writers - 1
            } else {
                0
            }),
            !r ==> *final(self) == *old(self),
    {
        if self.writer || self.readers != 0 {
            return false;
        }
        self.waiting_writers = self.waiting_writers.saturating_sub(1);
        self.writer = true;
        true
    }

    /// Gives back a lease of `kind`.
    pub fn release(&mut self, kind: StateTransitionAccessKind)
        requires
            old(self).wf(),
        ensures
            final(self).wf(),
            final(self).waiting_writers == old(self).waiting_writers,
            kind == StateTransitionAccessKind::Shared ==> final(self).writer == old(self).writer
                && final(self).readers == (if old(self).readers > 0 {
                old(self).readers - 1
            } else {
                0
            }),
            kind == StateTransitionAccessKind::Exclusive ==> !final(self).writer && final(self).readers
                == old(self).readers,
    {
        match kind {
            StateTransitionAccessKind::Shared => {
                self.readers = self.readers.saturating_sub(1);
            },
            StateTransitionAccessKind::Exclusive => {
                self.writer = false;
            },
        }
    }
}

// ─── AccountCurrencies ───────────────────────────────────────────────────────

/// The effective currency of raw account `account` whose group is `group`: the
/// account's own currency, else its group's, else the default group's.
pub open spec fn effective_currency(
    accounts: Map<u64, Asset>,
    groups: Map<u32, Asset>,
    account: u64,
    group: Option<AccountGroupId>,
) -> Option<Asset> {
    if accounts.contains_key(account) {
        Some(accounts[account])
    } else if group is Some && groups.contains_key(group.unwrap().0) {
        Some(groups[group.unwrap().0])
    } else if groups.contains_key(DEFAULT_ACCOUNT_GROUP_RAW) {
        Some(groups[DEFAULT_ACCOUNT_GROUP_RAW])
    } else {
        None
    }
}

/// Per-engine currency settings per account and per group (the default group's
/// setting is the global default).
pub struct AccountCurrencies {
    accounts: HashMapWithView<u64, Asset>,
    groups: HashMapWithView<u32, Asset>,
}

impl AccountCurrencies {
    /// Currencies set directly on accounts.
    pub closed spec fn account_view(&self) -> Map<u64, Asset> {
        self.accounts@
    }

    /// Currencies set on groups.
    pub closed spec fn group_view(&self) -> Map<u32, Asset> {
        self.groups@
    }

    /// No currency set anywhere.
    pub fn new() -> (r: AccountCurrencies)
        ensures
            r.account_view() == Map::<u64, Asset>::empty(),
            r.group_view() == Map::<u32, Asset>::empty(),
    {
        AccountCurrencies { accounts: HashMapWithView::new(), groups: HashMapWithView::new() }
    }

    /// Sets the currency of `account`.
    pub fn set_account_currency(&mut self, account: AccountId, currency: Asset)
        ensures
            final(self).account_view() == old(self).account_view().insert(account.0, currency),
            final(self).group_view() == old(self).group_view(),
    {
        self.accounts.insert(account.0, currency);
    }

    /// Clears the currency set on `account`.
    pub fn clear_account_currency(&mut self, account: AccountId)
        ensures
            final(self).account_view() == old(self).account_view().remove(account.0),
            final(self).group_view() == old(self).group_view(),
    {
        let _ = self.accounts.remove(&account.0);
        proof {
            assert(self.accounts@ =~= old(self).account_view().remove(account.0));
        }
    }

    /// The currency set on `account`.
    pub fn account_currency(&self, account: AccountId) -> (r: Option<Asset>)
        ensures
            r == (if self.account_view().contains_key(account.0) {
                Some(self.account_view()[account.0])
            } else {
                None
            }),
    {
        match self.accounts.get(&account.0) {
            Some(c) => Some(c.duplicate()),
            None => None,
        }
    }

    /// Sets the currency of `group`; for the default group this is the global default.
    pub fn set_group_currency(&mut self, group: AccountGroupId, currency: Asset)
        ensures
            final(self).group_view() == old(self).group_view().insert(group.0, currency),
            final(self).account_view() == old(self).account_view(),
    {
        self.groups.insert(group.0, currency);
    }

    /// Clears the currency set on `group`.
    pub fn clear_group_currency(&mut self, group: AccountGroupId)
        ensures
            final(self).group_view() == old(self).group_view().remove(group.0),
            final(self).account_view() == old(self).account_view(),
    {
        let _ = self.groups.remove(&group.0);
        proof {
            assert(self.groups@ =~= old(self).group_view().remove(group.0));
        }
    }

    /// The currency set on `group`.
    pub fn group_currency(&self, group: AccountGroupId) -> (r: Option<Asset>)
        ensures
            r == (if self.group_view().contains_key(group.0) {
                Some(self.group_view()[group.0])
            } else {
                None
            }),
    {
        match self.groups.get(&group.0) {
            Some(c) => Some(c.duplicate()),
            None => None,
        }
    }

    /// Effective currency of `account` in `account_group`: account, then group, then
    /// the default group.
    pub fn currency_of(&self, account: AccountId, account_group: Option<AccountGroupId>) -> (r: Option<Asset>)
        ensures
            r == effective_currency(self.account_view(), self.group_view(), account.0, account_group),
    {
        match self.account_currency(account) {
            Some(c) => {
                return Some(c);
            },
            None => {},
        }
        match account_group {
            Some(group) => match self.group_currency(group) {
                Some(c) => {
                    return Some(c);
                },
                None => {},
            },
            None => {},
        }
        self.group_currency(AccountGroupId(DEFAULT_ACCOUNT_GROUP_RAW))
    }
}

// ─── Accounts ────────────────────────────────────────────────────────────────

/// Abstract content of the account registry.
pub struct AccountsView {
    /// Group membership by raw account id.
    pub groups: Map<u64, u32>,
    /// The blocked set.
    pub blocked: BlockedView,
    /// Currencies set on accounts.
    pub account_currencies: Map<u64, Asset>,
    /// Currencies set on groups.
    pub group_currencies: Map<u32, Asset>,
}

/// Whether `b` is the cause stored for an operator block with `reason`.
pub open spec fn is_engine_block(b: AccountBlock, reason: Seq<char>) -> bool {
    &&& b.policy@ == "Engine"@
    &&& b.code == RejectCode::AccountBlocked
    &&& b.reason@ == reason
    &&& b.details@ == reason
    &&& b.provenance is None
}

/// The cause stored for an operator block: source `"Engine"`, code `AccountBlocked`,
/// and `reason` as both the reason and the details.
pub fn engine_block(reason: String) -> (b: AccountBlock)
    ensures
        is_engine_block(b, reason@),
{
    AccountBlock::new("Engine", RejectCode::AccountBlocked, reason.as_str(), reason.as_str())
}

/// The engine's account registry: group membership, the blocked set and currency
/// routing. An account belongs to at most one group at a time.
pub struct Accounts {
    groups: AccountGroups,
    block_handle: AccountBlockHandle,
    currencies: AccountCurrencies,
}

impl View for Accounts {
    type V = AccountsView;

    closed spec fn view(&self) -> AccountsView {
        AccountsView {
            groups: self.groups@,
            blocked: self.block_handle@,
            account_currencies: self.currencies.account_view(),
            group_currencies: self.currencies.group_view(),
        }
    }
}

impl Accounts {
    /// The blocked set is well formed.
    pub closed spec fn wf(&self) -> bool {
        self.block_handle.wf()
    }

    /// Assembles a registry from its parts.
    pub fn new(groups: AccountGroups, block_handle: AccountBlockHandle, currencies: AccountCurrencies) -> (r:
        Accounts)
        requires
            block_handle.wf(),
        ensures
            r.wf(),
            r@.groups == groups@,
            r@.blocked == block_handle@,
            r@.account_currencies == currencies.account_view(),
            r@.group_currencies == currencies.group_view(),
    {
        Accounts { groups, block_handle, currencies }
    }

    /// An empty registry: no groups, nothing blocked, no currency.
    pub fn empty() -> (r: Accounts)
        ensures
            r.wf(),
            r@.groups == Map::<u64, u32>::empty(),
            r@.blocked.accounts == Map::<u64, AccountBlock>::empty(),
            r@.blocked.groups == Map::<u32, AccountBlock>::empty(),
            !r@.blocked.all,
            r@.blocked.global is None,
            r@.account_currencies == Map::<u64, Asset>::empty(),
            r@.group_currencies == Map::<u32, Asset>::empty(),
    {
        Accounts::new(AccountGroups::new(), AccountBlockHandle::from_inner(BlockedAccounts::new()), AccountCurrencies::new())
    }

    /// The group-membership registry.
    pub fn account_groups(&self) -> (r: &AccountGroups)
        ensures
            r@ == self@.groups,
    {
        &self.groups
    }

    /// The blocked set.
    pub fn blocked_accounts(&self) -> (r: &BlockedAccounts)
        requires
            self.wf(),
        ensures
            r.wf(),
            r@ == self@.blocked,
    {
        self.block_handle.inner()
    }

    /// Checks a request against the blocked set with the current membership.
    pub fn check<O: HasAccountId>(&self, order: &O, operation_scope: RejectScope) -> (r: Option<Rejects>)
        requires
            self.wf(),
        ensures
            exists|account: Option<AccountId>|
                #[trigger] reads_account(*order, account) && check_answer(
                    self@.blocked,
                    self@.groups,
                    account,
                    operation_scope,
                    r,
                ),
    {
        let r = self.block_handle.inner().check(&self.groups, order, operation_scope);
        proof {
            let account = choose|account: Option<AccountId>|
                #[trigger] reads_account(*order, account) && check_answer(
                    self.block_handle@,
                    self.groups@,
                    account,
                    operation_scope,
                    r,
                );
            assert(check_answer(self@.blocked, self@.groups, account, operation_scope, r));
        }
        r
    }

    /// Atomically registers every account in `accounts` into `group`; see
    /// [`AccountGroups::register_group`].
    pub fn register_group(&mut self, accounts: &[AccountId], group: AccountGroupId) -> (r: Result<
        (),
        AccountGroupError,
    >)
        requires
            old(self).wf(),
        ensures
            final(self).wf(),
            r == register_outcome(old(self)@.groups, accounts@, group),
            r is Ok ==> final(self)@ == (AccountsView {
                groups: registered(old(self)@.groups, accounts@, accounts@.len() as int, group.0),
                ..old(self)@
            }),
            r is Err ==> final(self)@ == old(self)@,
    {
        self.groups.register_group(accounts, group)
    }

    /// Atomically removes every account in `accounts` from `group`; see
    /// [`AccountGroups::unregister_group`].
    pub fn unregister_group(&mut self, accounts: &[AccountId], group: AccountGroupId) -> (r: Result<
        (),
        AccountGroupError,
    >)
        requires
            old(self).wf(),
        ensures
            final(self).wf(),
            r == unregister_outcome(old(self)@.groups, accounts@, group),
            r is Ok ==> final(self)@ == (AccountsView {
                groups: old(self)@.groups.remove_keys(listed(accounts@, accounts@.len() as int)),
                ..old(self)@
            }),
            r is Err ==> final(self)@ == old(self)@,
    {
        self.groups.unregister_group(accounts, group)
    }

    /// The group of `account`, or `None` when it is not registered.
    pub fn group_of(&self, account: AccountId) -> (r: Option<AccountGroupId>)
        ensures
            r == group_in(self@.groups, account.0),
    {
        self.groups.group_of(account)
    }

    /// Sets the currency of `account`; it overrides group and default settings.
    pub fn set_currency(&mut self, account: AccountId, currency: Asset)
        ensures
            final(self).wf() == old(self).wf(),
            final(self)@ == (AccountsView {
                account_currencies: old(self)@.account_currencies.insert(account.0, currency),
                ..old(self)@
            }),
    {
        self.currencies.set_account_currency(account, currency);
    }

    /// Clears the currency set on `account`.
    pub fn clear_currency(&mut self, account: AccountId)
        ensures
            final(self).wf() == old(self).wf(),
            final(self)@ == (AccountsView {
                account_currencies: old(self)@.account_currencies.remove(account.0),
                ..old(self)@
            }),
    {
        self.currencies.clear_account_currency(account);
    }

    /// Sets the currency of `group`; for the default group this sets the global
    /// default tier.
    pub fn set_group_currency(&mut self, group: AccountGroupId, currency: Asset)
        ensures
            final(self).wf() == old(self).wf(),
            final(self)@ == (AccountsView {
                group_currencies: old(self)@.group_currencies.insert(group.0, currency),
                ..old(self)@
            }),
    {
        self.currencies.set_group_currency(group, currency);
    }

    /// Clears the currency set on `group`.
    pub fn clear_group_currency(&mut self, group: AccountGroupId)
        ensures
            final(self).wf() == old(self).wf(),
            final(self)@ == (AccountsView {
                group_currencies: old(self)@.group_currencies.remove(group.0),
                ..old(self)@
            }),
    {
        self.currencies.clear_group_currency(group);
    }

    /// Effective currency of `account` taken to be in `account_group`.
    pub fn currency_of_in_group(&self, account: AccountId, account_group: Option<AccountGroupId>) -> (r:
        Option<Asset>)
        ensures
            r == effective_currency(
                self@.account_currencies,
                self@.group_currencies,
                account.0,
                account_group,
            ),
    {
        self.currencies.currency_of(account, account_group)
    }

    /// Effective currency of `account` in its current group.
    pub fn currency_of(&self, account: AccountId) -> (r: Option<Asset>)
        ensures
            r == effective_currency(
                self@.account_currencies,
                self@.group_currencies,
                account.0,
                group_in(self@.groups, account.0),
            ),
    {
        self.currency_of_in_group(account, self.group_of(account))
    }

    /// Blocks `account` with the operator `reason`. The first cause of an account
    /// wins, so re-blocking keeps the stored reason.
    pub fn block(&mut self, account: AccountId, reason: String)
        requires
            old(self).wf(),
        ensures
            final(self).wf(),
            exists|b: AccountBlock|
                is_engine_block(b, reason@) && final(self)@ == (AccountsView {
                    blocked: after_block_account(old(self)@.blocked, account.0, b),
                    ..old(self)@
                }),
    {
        self.block_handle.block_account(account, engine_block(reason));
    }

    /// Unblocks `account`, whatever raised its block. A no-op when it is not blocked.
    pub fn unblock(&mut self, account: AccountId)
        requires
            old(self).wf(),
        ensures
            final(self).wf(),
            final(self)@ == (AccountsView {
                blocked: after_unblock_account(old(self)@.blocked, account.0),
                ..old(self)@
            }),
    {
        self.block_handle.unblock_account(account);
    }

    /// Clears the engine-wide block; individual account and group blocks stay.
    pub fn unblock_all(&mut self)
        requires
            old(self).wf(),
        ensures
            final(self).wf(),
            final(self)@ == (AccountsView { blocked: after_unblock_all(old(self)@.blocked), ..old(self)@ }),
    {
        self.block_handle.unblock_all();
    }

    /// Replaces the stored reason of a blocked account with the operator `reason`.
    pub fn replace_block_reason(&mut self, account: AccountId, reason: String) -> (r: Result<
        (),
        AccountBlockError,
    >)
        requires
            old(self).wf(),
        ensures
            final(self).wf(),
            r is Ok <==> old(self)@.blocked.accounts.contains_key(account.0),
            r is Ok ==> exists|b: AccountBlock|
                is_engine_block(b, reason@) && final(self)@ == (AccountsView {
                    blocked: BlockedView {
                        accounts: old(self)@.blocked.accounts.insert(account.0, b),
                        ..old(self)@.blocked
                    },
                    ..old(self)@
                }),
            r is Err ==> r == Err::<(), AccountBlockError>(AccountBlockError::AccountNotBlocked { account })
                && final(self)@ == old(self)@,
    {
        self.block_handle.replace_reason(account, engine_block(reason))
    }

    /// Blocks `group` with the operator `reason` (a live predicate over membership).
    pub fn block_group(&mut self, group: AccountGroupId, reason: String) -> (r: Result<
        (),
        AccountBlockError,
    >)
        requires
            old(self).wf(),
        ensures
            final(self).wf(),
            group.is_default() ==> r == Err::<(), AccountBlockError>(AccountBlockError::ReservedGroup)
                && final(self)@ == old(self)@,
            !group.is_default() ==> r is Ok && exists|b: AccountBlock|
                is_engine_block(b, reason@) && final(self)@ == (AccountsView {
                    blocked: after_block_group(old(self)@.blocked, group.0, b),
                    ..old(self)@
                }),
    {
        self.block_handle.block_group(group, engine_block(reason))
    }

    /// Unblocks `group`; members blocked individually stay blocked.
    pub fn unblock_group(&mut self, group: AccountGroupId) -> (r: Result<(), AccountBlockError>)
        requires
            old(self).wf(),
        ensures
            final(self).wf(),
            group.is_default() ==> r == Err::<(), AccountBlockError>(AccountBlockError::ReservedGroup)
                && final(self)@ == old(self)@,
            !group.is_default() ==> r is Ok && final(self)@ == (AccountsView {
                blocked: after_unblock_group(old(self)@.blocked, group.0),
                ..old(self)@
            }),
    {
        self.block_handle.unblock_group(group)
    }

    /// Replaces the stored reason of a blocked group with the operator `reason`.
    pub fn replace_group_block_reason(&mut self, group: AccountGroupId, reason: String) -> (r: Result<
        (),
        AccountBlockError,
    >)
        requires
            old(self).wf(),
        ensures
            final(self).wf(),
            group.is_default() ==> r == Err::<(), AccountBlockError>(AccountBlockError::ReservedGroup),
            !group.is_default() && !old(self)@.blocked.groups.contains_key(group.0) ==> r == Err::<
                (),
                AccountBlockError,
            >(AccountBlockError::GroupNotBlocked { group }),
            r is Ok <==> !group.is_default() && old(self)@.blocked.groups.contains_key(group.0),
            r is Ok ==> exists|b: AccountBlock|
                is_engine_block(b, reason@) && final(self)@ == (AccountsView {
                    blocked: BlockedView {
                        groups: old(self)@.blocked.groups.insert(group.0, b),
                        ..old(self)@.blocked
                    },
                    ..old(self)@
                }),
            r is Err ==> final(self)@ == old(self)@,
    {
        self.block_handle.replace_group_reason(group, engine_block(reason))
    }
}

/// Registering accounts into a group and then unregistering the same accounts from it
/// restores the membership: neither call succeeds partially, and a successful
/// registration only adds accounts that had no group.
pub proof fn law_register_then_unregister_restores(m: Map<u64, u32>, accounts: Seq<AccountId>, group: AccountGroupId)
    requires
        register_outcome(m, accounts, group) is Ok,
    ensures
        unregister_outcome(registered(m, accounts, accounts.len() as int, group.0), accounts, group) is Ok,
        registered(m, accounts, accounts.len() as int, group.0).remove_keys(listed(accounts, accounts.len() as int))
            == m,
{
    let n = accounts.len() as int;
    let r = registered(m, accounts, n, group.0);
    assert forall|i: int| 0 <= i < n implies !m.contains_key(#[trigger] accounts[i].0) by {
        if m.contains_key(accounts[i].0) {
            lemma_first_registered_exists(m, accounts, i);
        }
    }
    assert forall|i: int| 0 <= i < n implies group_in(r, #[trigger] accounts[i].0) == Some(group) by {
        assert(listed(accounts, n).contains(accounts[i].0));
    }
    assert forall|k: int| !first_not_member(r, accounts, k, group.0) by {
        if 0 <= k < n {
            assert(group_in(r, accounts[k].0) == Some(group));
        }
    }
    assert forall|k: u64| listed(accounts, n).contains(k) implies !m.contains_key(k) by {
        let j = choose|j: int| 0 <= j < n && #[trigger] accounts[j].0 == k;
        assert(!m.contains_key(accounts[j].0));
    }
    assert(r.remove_keys(listed(accounts, n)) =~= m);
}

proof fn lemma_first_registered_exists(m: Map<u64, u32>, accounts: Seq<AccountId>, i: int)
    requires
        0 <= i < accounts.len(),
        m.contains_key(accounts[i].0),
    ensures
        exists|k: int| first_registered(m, accounts, k),
    decreases i,
{
    if exists|j: int| 0 <= j < i && m.contains_key(#[trigger] accounts[j].0) {
        let j = choose|j: int| 0 <= j < i && m.contains_key(#[trigger] accounts[j].0);
        lemma_first_registered_exists(m, accounts, j);
    } else {
        assert(first_registered(m, accounts, i));
    }
}

/// Currency resolution cascades: an account's own currency wins; without it the
/// group's applies; without that the default group's; clearing a tier reveals the
/// next one.
pub proof fn law_currency_cascade(
    accounts: Map<u64, Asset>,
    groups: Map<u32, Asset>,
    account: u64,
    group: AccountGroupId,
    c: Asset,
)
    requires
        !group.is_default(),
    ensures
        effective_currency(accounts.insert(account, c), groups, account, Some(group)) == Some(c),
        !accounts.contains_key(account) ==> effective_currency(
            accounts,
            groups.insert(group.0, c),
            account,
            Some(group),
        ) == Some(c),
        effective_currency(accounts.remove(account), groups, account, Some(group)) == effective_currency(
            Map::empty(),
            groups,
            account,
            Some(group),
        ),
{
}

} // verus!
