//! Account blocking.
//!
//! Two paths populate one per-engine blocked set: kill switches raised by policies
//! (recorded for the affected account, or engine-wide when the account cannot be
//! read), and operator blocks of single accounts or whole account groups. Group
//! blocking is a live predicate: it is evaluated at check time against the current
//! group membership, so membership changes take effect without re-blocking.
use vstd::prelude::*;
use vstd::hash_map::HashMapWithView;
use crate::account_groups::{group_in, AccountGroups};
use crate::param::{AccountGroupId, AccountId, DEFAULT_ACCOUNT_GROUP_RAW};
use crate::pretrade::{AccountBlock, Reject, RejectCode, RejectScope, Rejects};
use crate::mutation::MutationFailureScope;
use crate::request_trait::{read_account, reads_account, HasAccountId};

verus! {

broadcast use vstd::std_specs::hash::group_hash_axioms;

// ─── AccountBlockError ───────────────────────────────────────────────────────

/// Error returned by the operator block operations. Every operation that returns
/// it leaves the blocked set unchanged.
#[derive(Clone, Copy, Debug, PartialEq, Eq, Structural)]
pub enum AccountBlockError {
    /// The target group is the reserved default group.
    ReservedGroup,
    /// A reason replacement named an account that is not blocked.
    AccountNotBlocked {
        /// The account that is not blocked.
        account: AccountId,
    },
    /// A reason replacement named a group that is not blocked.
    GroupNotBlocked {
        /// The group that is not blocked.
        group: AccountGroupId,
    },
}

impl AccountBlockError {
    /// The description text of each variant.
    pub open spec fn spec_message(self) -> Seq<char> {
        match self {
            AccountBlockError::ReservedGroup => "the reserved default account group is not a valid target"@,
            AccountBlockError::AccountNotBlocked { .. } => "account is not blocked"@,
            AccountBlockError::GroupNotBlocked { .. } => "account group is not blocked"@,
        }
    }

    /// Human-readable description; it names no account and no group.
    pub fn message(&self) -> (r: String)
        ensures
            r@ == self.spec_message(),
    {
        match self {
            AccountBlockError::ReservedGroup => {
                "the reserved default account group is not a valid target".to_owned()
            },
            AccountBlockError::AccountNotBlocked { .. } => "account is not blocked".to_owned(),
            AccountBlockError::GroupNotBlocked { .. } => "account group is not blocked".to_owned(),
        }
    }
}

// ─── Abstract state ──────────────────────────────────────────────────────────

/// Abstract content of a blocked set.
pub struct BlockedView {
    /// Blocked accounts (by raw id) and their stored causes.
    pub accounts: Map<u64, AccountBlock>,
    /// Blocked groups (by raw id) and their stored causes.
    pub groups: Map<u32, AccountBlock>,
    /// Whether the engine-wide block is active.
    pub all: bool,
    /// Cause of the engine-wide block, when one was supplied.
    pub global: Option<AccountBlock>,
}

/// Why a request is refused by the blocked set.
pub enum BlockingCause {
    /// A stored cause: the account's, its group's, or the engine-wide one.
    Specific(AccountBlock),
    /// The engine-wide block without a stored cause.
    Global,
    /// Something is blocked, but the request's account cannot be read.
    Unverifiable,
}

/// Whether nothing at all is blocked.
pub open spec fn nothing_blocked(v: BlockedView) -> bool {
    v.accounts.dom().is_empty() && !v.all && v.groups.dom().is_empty()
}

/// The blocking cause for a request on `account` (or on no readable account),
/// with group membership `groups`. `None` means the request may proceed.
///
/// The account's own cause wins over its group's, which wins over the
/// engine-wide one.
pub open spec fn blocking_cause(v: BlockedView, groups: Map<u64, u32>, account: Option<AccountId>) -> Option<
    BlockingCause,
> {
    if nothing_blocked(v) {
        None
    } else {
        match account {
            None => Some(BlockingCause::Unverifiable),
            Some(id) => if v.accounts.contains_key(id.0) {
                Some(BlockingCause::Specific(v.accounts[id.0]))
            } else if group_in(groups, id.0) is Some && v.groups.contains_key(
                group_in(groups, id.0).unwrap().0,
            ) {
                Some(BlockingCause::Specific(v.groups[group_in(groups, id.0).unwrap().0]))
            } else if v.all {
                match v.global {
                    Some(b) => Some(BlockingCause::Specific(b)),
                    None => Some(BlockingCause::Global),
                }
            } else {
                None
            },
        }
    }
}

/// State after blocking `id` with `cause`: the first cause of an account wins.
pub open spec fn after_block_account(v: BlockedView, id: u64, cause: AccountBlock) -> BlockedView {
    if v.accounts.contains_key(id) {
        v
    } else {
        BlockedView { accounts: v.accounts.insert(id, cause), ..v }
    }
}

/// Whether `id`'s stored cause is the one raised by the assertion holding `provenance`.
pub open spec fn owns_block(v: BlockedView, id: u64, provenance: u64) -> bool {
    v.accounts.contains_key(id) && v.accounts[id].provenance == Some(provenance)
}

/// State after retiring the block raised by `provenance` on `id`.
pub open spec fn after_invalidate(v: BlockedView, id: u64, provenance: u64) -> BlockedView {
    if owns_block(v, id, provenance) {
        BlockedView { accounts: v.accounts.remove(id), ..v }
    } else {
        v
    }
}

/// State after removing any block of `id`.
pub open spec fn after_unblock_account(v: BlockedView, id: u64) -> BlockedView {
    BlockedView { accounts: v.accounts.remove(id), ..v }
}

/// State after arming the engine-wide block without a cause.
pub open spec fn after_block_all(v: BlockedView) -> BlockedView {
    BlockedView { all: true, ..v }
}

/// State after arming the engine-wide block with `cause`; the first cause wins.
pub open spec fn after_block_all_with_cause(v: BlockedView, cause: AccountBlock) -> BlockedView {
    BlockedView {
        all: true,
        global: if v.global is Some {
            v.global
        } else {
            Some(cause)
        },
        ..v
    }
}

/// State after clearing the engine-wide block and its cause.
pub open spec fn after_unblock_all(v: BlockedView) -> BlockedView {
    BlockedView { all: false, global: None, ..v }
}

/// State after blocking group `g` with `cause`; the first cause of a group wins.
pub open spec fn after_block_group(v: BlockedView, g: u32, cause: AccountBlock) -> BlockedView {
    if v.groups.contains_key(g) {
        v
    } else {
        BlockedView { groups: v.groups.insert(g, cause), ..v }
    }
}

/// State after unblocking group `g`.
pub open spec fn after_unblock_group(v: BlockedView, g: u32) -> BlockedView {
    BlockedView { groups: v.groups.remove(g), ..v }
}

/// The generic reject returned for the engine-wide block without a cause.
pub open spec fn is_account_blocked_reject(r: Reject) -> bool {
    &&& r.policy@ == "Engine"@
    &&& r.scope == RejectScope::Account
    &&& r.code == RejectCode::AccountBlocked
    &&& r.reason@ == "account is blocked due to kill-switch"@
    &&& r.details@ == "kill-switch was previously triggered for this account"@
}

/// The reject returned when blocking is active but the account cannot be read.
pub open spec fn is_unverifiable_reject(r: Reject, scope: RejectScope) -> bool {
    &&& r.policy@ == "Engine"@
    &&& r.scope == scope
    &&& r.code == RejectCode::MissingRequiredField
    &&& r.reason@ == "account could not be verified as account ID is missing"@
    &&& r.details@ == "unable to check account for blocking"@
}

/// The rejects that answer `cause` for an operation of reach `scope`.
pub open spec fn rejects_for(cause: BlockingCause, scope: RejectScope, rejects: Seq<Reject>) -> bool {
    &&& rejects.len() == 1
    &&& match cause {
        BlockingCause::Specific(b) => rejects[0] == b.reject(),
        BlockingCause::Global => is_account_blocked_reject(rejects[0]),
        BlockingCause::Unverifiable => is_unverifiable_reject(rejects[0], scope),
    }
}

/// Whether `r` is the answer a check gives for a request on `account` (`None` for
/// a request that gives no account).
pub open spec fn check_answer(
    v: BlockedView,
    groups: Map<u64, u32>,
    account: Option<AccountId>,
    scope: RejectScope,
    r: Option<Rejects>,
) -> bool {
    &&& r is None <==> blocking_cause(v, groups, account) is None
    &&& r matches Some(rejects) ==> rejects_for(blocking_cause(v, groups, account).unwrap(), scope, rejects@)
}

/// The blocked set after an execution report on `account` fired a kill switch:
/// the account is blocked, or everything is when the report gave no account.
pub open spec fn after_report_block(v: BlockedView, account: Option<AccountId>, cause: AccountBlock) -> BlockedView {
    match account {
        Some(id) => after_block_account(v, id.0, cause),
        None => after_block_all(v),
    }
}

/// The blocked set after a pre-trade kill switch on `account`: the account is
/// blocked, and nothing changes when the request gave no account.
pub open spec fn after_pre_trade_block(v: BlockedView, account: Option<AccountId>, cause: AccountBlock) -> BlockedView {
    match account {
        Some(id) => after_block_account(v, id.0, cause),
        None => v,
    }
}

fn new_account_blocked_rejects() -> (r: Rejects)
    ensures
        rejects_for(BlockingCause::Global, RejectScope::Account, r@),
{
    Rejects::single(
        Reject::new(
            "Engine",
            RejectScope::Account,
            RejectCode::AccountBlocked,
            "account is blocked due to kill-switch",
            "kill-switch was previously triggered for this account",
        ),
    )
}

fn new_unverifiable_block_check_rejects(scope: RejectScope) -> (r: Rejects)
    ensures
        rejects_for(BlockingCause::Unverifiable, scope, r@),
{
    Rejects::single(
        Reject::new(
            "Engine",
            scope,
            RejectCode::MissingRequiredField,
            "account could not be verified as account ID is missing",
            "unable to check account for blocking",
        ),
    )
}

/// Whether `b` is the engine block stored when a mutation finalizer fails.
pub open spec fn is_mutation_finalizer_block(b: AccountBlock) -> bool {
    &&& b.policy@ == "Engine"@
    &&& b.code == RejectCode::SystemUnavailable
    &&& b.reason@ == "mutation finalizer failed"@
    &&& b.details@ == "a mutation commit or rollback callback failed; engine state may be inconsistent"@
    &&& b.provenance is None
}

/// Cause stored for a kill switch raised because a mutation finalizer failed. It
/// carries no account or group identifier.
pub fn new_mutation_finalizer_block() -> (b: AccountBlock)
    ensures
        is_mutation_finalizer_block(b),
{
    AccountBlock::new(
        "Engine",
        RejectCode::SystemUnavailable,
        "mutation finalizer failed",
        "a mutation commit or rollback callback failed; engine state may be inconsistent",
    )
}

// ─── BlockedAccounts ─────────────────────────────────────────────────────────

/// Per-engine storage for blocked accounts and account groups.
///
/// Besides the maps it keeps three active-blocking indicators that give `check`
/// its all-clear fast path: `any_flag` (some account blocked, or the engine-wide
/// block armed), `all_flag` (engine-wide block armed) and
/// `blocked_groups_any_flag` (some group blocked).
pub struct BlockedAccounts {
    any_flag: bool,
    all_flag: bool,
    blocked_groups_any_flag: bool,
    accounts: HashMapWithView<u64, AccountBlock>,
    blocked_groups: HashMapWithView<u32, AccountBlock>,
    global_block: Option<AccountBlock>,
}

impl View for BlockedAccounts {
    type V = BlockedView;

    closed spec fn view(&self) -> BlockedView {
        BlockedView {
            accounts: self.accounts@,
            groups: self.blocked_groups@,
            all: self.all_flag,
            global: self.global_block,
        }
    }
}

impl BlockedAccounts {
    /// The indicators agree with the maps, and a stored engine-wide cause implies an
    /// armed engine-wide block.
    pub closed spec fn wf(&self) -> bool {
        &&& self.any_flag == (!self.accounts@.dom().is_empty() || self.all_flag)
        &&& self.blocked_groups_any_flag == !self.blocked_groups@.dom().is_empty()
        &&& self.global_block is Some ==> self.all_flag
    }

    /// Creates an empty blocked set.
    pub fn new() -> (r: BlockedAccounts)
        ensures
            r.wf(),
            r@.accounts == Map::<u64, AccountBlock>::empty(),
            r@.groups == Map::<u32, AccountBlock>::empty(),
            !r@.all,
            r@.global is None,
    {
        let r = BlockedAccounts {
            any_flag: false,
            all_flag: false,
            blocked_groups_any_flag: false,
            accounts: HashMapWithView::new(),
            blocked_groups: HashMapWithView::new(),
            global_block: None,
        };
        proof {
            assert(r.accounts@.dom() =~= Set::<u64>::empty());
            assert(r.blocked_groups@.dom() =~= Set::<u32>::empty());
        }
        r
    }

    /// Blocking cause for `account` under membership `groups`; `None` lets the
    /// request proceed.
    pub fn blocking_cause_of(&self, groups: &AccountGroups, account: Option<AccountId>) -> (r:
        Option<BlockingCause>)
        requires
            self.wf(),
        ensures
            r == blocking_cause(self@, groups@, account),
    {
        let all_blocking = self.all_flag;
        let account_blocking = all_blocking || self.any_flag;
        let group_blocking = self.blocked_groups_any_flag;
        if !account_blocking && !group_blocking {
            return None;
        }
        let id = match account {
            None => {
                return Some(BlockingCause::Unverifiable);
            },
            Some(id) => id,
        };
        if account_blocking {
            match self.accounts.get(&id.0) {
                Some(block) => {
                    return Some(BlockingCause::Specific(block.duplicate()));
                },
                None => {},
            }
        } else {
            proof {
                assert(!self.accounts@.contains_key(id.0));
            }
        }
        if group_blocking {
            match groups.group_of(id) {
                Some(group) => {
                    match self.blocked_groups.get(&group.0) {
                        Some(block) => {
                            return Some(BlockingCause::Specific(block.duplicate()));
                        },
                        None => {},
                    }
                },
                None => {},
            }
        } else {
            proof {
                assert(self.blocked_groups@.dom().is_empty());
                if group_in(groups@, id.0) is Some {
                    assert(!self.blocked_groups@.dom().contains(group_in(groups@, id.0).unwrap().0));
                }
            }
        }
        if !all_blocking {
            return None;
        }
        match &self.global_block {
            Some(block) => Some(BlockingCause::Specific(block.duplicate())),
            None => Some(BlockingCause::Global),
        }
    }

    /// Checks whether a request on `account` (or on no readable account) must be
    /// rejected before any policy runs. `None` lets it proceed.
    pub fn check_account(&self, groups: &AccountGroups, account: Option<AccountId>, operation_scope: RejectScope) -> (r:
        Option<Rejects>)
        requires
            self.wf(),
        ensures
            r is None <==> blocking_cause(self@, groups@, account) is None,
            r matches Some(rejects) ==> rejects_for(
                blocking_cause(self@, groups@, account).unwrap(),
                operation_scope,
                rejects@,
            ),
    {
        match self.blocking_cause_of(groups, account) {
            None => None,
            Some(BlockingCause::Specific(block)) => Some(Rejects::single(Reject::from_block(&block))),
            Some(BlockingCause::Global) => Some(new_account_blocked_rejects()),
            Some(BlockingCause::Unverifiable) => Some(new_unverifiable_block_check_rejects(operation_scope)),
        }
    }

    /// Checks a request: the account is read from `order` once, and the answer is
    /// the one [`BlockedAccounts::check_account`] gives for what was read (`None`
    /// when the request could not give its account).
    pub fn check<O: HasAccountId>(&self, groups: &AccountGroups, order: &O, operation_scope: RejectScope) -> (r:
        Option<Rejects>)
        requires
            self.wf(),
        ensures
            exists|account: Option<AccountId>|
                #[trigger] reads_account(*order, account) && check_answer(self@, groups@, account, operation_scope, r),
    {
        let account = read_account(order);
        let r = self.check_account(groups, account, operation_scope);
        proof {
            assert(check_answer(self@, groups@, account, operation_scope, r));
        }
        r
    }

    /// Whether `id` is blocked, without building a reject.
    pub fn is_blocked(&self, groups: &AccountGroups, id: AccountId) -> (r: bool)
        requires
            self.wf(),
        ensures
            r == (blocking_cause(self@, groups@, Some(id)) is Some),
    {
        self.blocking_cause_of(groups, Some(id)).is_some()
    }

    /// Blocks `id` with `cause`, returning whether this call inserted it. The first
    /// cause of an account wins: blocking a blocked account changes nothing.
    pub fn block_account(&mut self, id: AccountId, cause: AccountBlock) -> (r: bool)
        requires
            old(self).wf(),
        ensures
            final(self).wf(),
            final(self)@ == after_block_account(old(self)@, id.0, cause),
            r == !old(self)@.accounts.contains_key(id.0),
    {
        let inserted = if self.accounts.contains_key(&id.0) {
            false
        } else {
            self.accounts.insert(id.0, cause);
            true
        };
        self.any_flag = true;
        proof {
            assert(self.accounts@.dom().contains(id.0));
        }
        inserted
    }

    /// Records a kill switch from an execution report on `account`: the account is
    /// blocked with `cause`, or, when the report gave no account, the engine-wide
    /// block is armed without a cause.
    pub fn record_report_block(&mut self, account: Option<AccountId>, cause: AccountBlock)
        requires
            old(self).wf(),
        ensures
            final(self).wf(),
            final(self)@ == after_report_block(old(self)@, account, cause),
    {
        match account {
            Some(id) => {
                self.block_account(id, cause);
            },
            None => {
                self.block_all();
            },
        }
    }

    /// Records a kill switch from an execution report: the account read from the
    /// report is blocked with `cause`, or, when the report gives no account, the
    /// engine-wide block is armed without a cause.
    pub fn record_execution_report<R: HasAccountId>(&mut self, report: &R, cause: AccountBlock)
        requires
            old(self).wf(),
        ensures
            final(self).wf(),
            exists|account: Option<AccountId>|
                #[trigger] reads_account(*report, account) && final(self)@ == after_report_block(
                    old(self)@,
                    account,
                    cause,
                ),
    {
        let account = read_account(report);
        self.record_report_block(account, cause);
    }

    /// Records a pre-trade kill switch for the account read from `order`; a
    /// request that gives no account changes nothing.
    pub fn record_pre_trade<O: HasAccountId>(&mut self, order: &O, cause: AccountBlock)
        requires
            old(self).wf(),
        ensures
            final(self).wf(),
            exists|account: Option<AccountId>|
                #[trigger] reads_account(*order, account) && final(self)@ == after_pre_trade_block(
                    old(self)@,
                    account,
                    cause,
                ),
    {
        let account = read_account(order);
        match account {
            Some(id) => {
                self.block_account(id, cause);
            },
            None => {},
        }
        proof {
            assert(self@ == after_pre_trade_block(old(self)@, account, cause));
        }
    }

    /// Whether the engine-wide block is armed.
    pub fn is_all_blocked(&self) -> (r: bool)
        ensures
            r == self@.all,
    {
        self.all_flag
    }

    /// The stored cause of `id`, if blocked individually.
    pub fn account_block(&self, id: AccountId) -> (r: Option<AccountBlock>)
        ensures
            r == (if self@.accounts.contains_key(id.0) {
                Some(self@.accounts[id.0])
            } else {
                None
            }),
    {
        match self.accounts.get(&id.0) {
            Some(block) => Some(block.duplicate()),
            None => None,
        }
    }

    /// Retires the block raised by the assertion holding `provenance`: when the
    /// stored cause of `id` carries that token it is removed (and returned), so the
    /// account unblocks. Otherwise nothing changes.
    pub fn invalidate_provenance(&mut self, id: AccountId, provenance: u64) -> (r: Option<AccountBlock>)
        requires
            old(self).wf(),
        ensures
            final(self).wf(),
            final(self)@ == after_invalidate(old(self)@, id.0, provenance),
            r == (if owns_block(old(self)@, id.0, provenance) {
                Some(old(self)@.accounts[id.0])
            } else {
                None
            }),
    {
        let removed = match self.accounts.get(&id.0) {
            Some(cause) => {
                if cause.provenance == Some(provenance) {
                    cause.duplicate()
                } else {
                    return None;
                }
            },
            None => {
                return None;
            },
        };
        let _ = self.accounts.remove(&id.0);
        if self.accounts.is_empty() && !self.all_flag {
            self.any_flag = false;
        }
        Some(removed)
    }

    /// Arms the engine-wide block without a stored cause, so checks answer with the
    /// generic kill-switch reject.
    pub fn block_all(&mut self)
        requires
            old(self).wf(),
        ensures
            final(self).wf(),
            final(self)@ == after_block_all(old(self)@),
    {
        self.any_flag = true;
        self.all_flag = true;
    }

    /// Arms the engine-wide block and stores `cause` as the reason reported for every
    /// account. The first stored cause wins.
    pub fn block_all_with_cause(&mut self, cause: AccountBlock)
        requires
            old(self).wf(),
        ensures
            final(self).wf(),
            final(self)@ == after_block_all_with_cause(old(self)@, cause),
    {
        if self.global_block.is_none() {
            self.global_block = Some(cause);
        }
        self.any_flag = true;
        self.all_flag = true;
    }

    /// Clears the engine-wide block and its cause; individual account and group
    /// blocks stay. A no-op when no engine-wide block is armed.
    pub fn unblock_all(&mut self)
        requires
            old(self).wf(),
        ensures
            final(self).wf(),
            final(self)@ == after_unblock_all(old(self)@),
    {
        self.global_block = None;
        self.all_flag = false;
        if self.accounts.is_empty() {
            self.any_flag = false;
        }
    }

    /// Removes any block of `id`, whatever raised it. A no-op when `id` is not blocked.
    pub fn unblock_account(&mut self, id: AccountId)
        requires
            old(self).wf(),
        ensures
            final(self).wf(),
            final(self)@ == after_unblock_account(old(self)@, id.0),
    {
        let _ = self.accounts.remove(&id.0);
        proof {
            assert(self.accounts@ =~= old(self)@.accounts.remove(id.0));
        }
        if self.accounts.is_empty() && !self.all_flag {
            self.any_flag = false;
        }
    }

    /// Overwrites the stored cause of an already-blocked account; the new cause
    /// carries whatever provenance `block` has, so it takes ownership of the block.
    pub fn replace_reason(&mut self, id: AccountId, block: AccountBlock) -> (r: Result<(), AccountBlockError>)
        requires
            old(self).wf(),
        ensures
            final(self).wf(),
            r is Ok <==> old(self)@.accounts.contains_key(id.0),
            r is Ok ==> final(self)@ == (BlockedView { accounts: old(self)@.accounts.insert(id.0, block), ..old(self)@ }),
            r is Err ==> r == Err::<(), AccountBlockError>(AccountBlockError::AccountNotBlocked { account: id })
                && final(self)@ == old(self)@,
    {
        if self.accounts.contains_key(&id.0) {
            self.accounts.insert(id.0, block);
            proof {
                assert(self.accounts@.dom() =~= old(self)@.accounts.dom());
            }
            Ok(())
        } else {
            Err(AccountBlockError::AccountNotBlocked { account: id })
        }
    }

    /// Blocks `group`; every request whose account currently belongs to it is
    /// rejected. The first cause of a group wins.
    pub fn block_group(&mut self, group: AccountGroupId, cause: AccountBlock) -> (r: Result<(), AccountBlockError>)
        requires
            old(self).wf(),
        ensures
            final(self).wf(),
            group.is_default() ==> r == Err::<(), AccountBlockError>(AccountBlockError::ReservedGroup)
                && final(self)@ == old(self)@,
            !group.is_default() ==> r is Ok && final(self)@ == after_block_group(old(self)@, group.0, cause),
    {
        if group.0 == DEFAULT_ACCOUNT_GROUP_RAW {
            return Err(AccountBlockError::ReservedGroup);
        }
        if !self.blocked_groups.contains_key(&group.0) {
            self.blocked_groups.insert(group.0, cause);
        }
        self.blocked_groups_any_flag = true;
        proof {
            assert(self.blocked_groups@.dom().contains(group.0));
        }
        Ok(())
    }

    /// Unblocks `group`; members blocked individually stay blocked. A no-op when the
    /// group is not blocked.
    pub fn unblock_group(&mut self, group: AccountGroupId) -> (r: Result<(), AccountBlockError>)
        requires
            old(self).wf(),
        ensures
            final(self).wf(),
            group.is_default() ==> r == Err::<(), AccountBlockError>(AccountBlockError::ReservedGroup)
                && final(self)@ == old(self)@,
            !group.is_default() ==> r is Ok && final(self)@ == after_unblock_group(old(self)@, group.0),
    {
        if group.0 == DEFAULT_ACCOUNT_GROUP_RAW {
            return Err(AccountBlockError::ReservedGroup);
        }
        let _ = self.blocked_groups.remove(&group.0);
        proof {
            assert(self.blocked_groups@ =~= old(self)@.groups.remove(group.0));
        }
        if self.blocked_groups.is_empty() {
            self.blocked_groups_any_flag = false;
        }
        Ok(())
    }

    /// Overwrites the stored cause of an already-blocked group.
    pub fn replace_group_reason(&mut self, group: AccountGroupId, block: AccountBlock) -> (r: Result<
        (),
        AccountBlockError,
    >)
        requires
            old(self).wf(),
        ensures
            final(self).wf(),
            group.is_default() ==> r == Err::<(), AccountBlockError>(AccountBlockError::ReservedGroup),
            !group.is_default() && !old(self)@.groups.contains_key(group.0) ==> r == Err::<
                (),
                AccountBlockError,
            >(AccountBlockError::GroupNotBlocked { group }),
            r is Ok <==> !group.is_default() && old(self)@.groups.contains_key(group.0),
            r is Ok ==> final(self)@ == (BlockedView { groups: old(self)@.groups.insert(group.0, block), ..old(self)@ }),
            r is Err ==> final(self)@ == old(self)@,
    {
        if group.0 == DEFAULT_ACCOUNT_GROUP_RAW {
            return Err(AccountBlockError::ReservedGroup);
        }
        if self.blocked_groups.contains_key(&group.0) {
            self.blocked_groups.insert(group.0, block);
            proof {
                assert(self.blocked_groups@.dom() =~= old(self)@.groups.dom());
            }
            Ok(())
        } else {
            Err(AccountBlockError::GroupNotBlocked { group })
        }
    }
}

} // verus!

verus! {

// ─── Laws of the blocked set ─────────────────────────────────────────────────

/// An account holds one cause: blocking an already-blocked account changes nothing.
pub proof fn law_first_cause_wins(v: BlockedView, id: u64, cause: AccountBlock)
    requires
        v.accounts.contains_key(id),
    ensures
        after_block_account(v, id, cause) == v,
{
}

/// After an account is blocked, every request on it is refused with its stored cause
/// (the new one, unless it was already blocked).
pub proof fn law_block_then_check_rejects(v: BlockedView, groups: Map<u64, u32>, id: AccountId, cause: AccountBlock)
    ensures
        blocking_cause(after_block_account(v, id.0, cause), groups, Some(id)) == Some(
            BlockingCause::Specific(after_block_account(v, id.0, cause).accounts[id.0]),
        ),
        !v.accounts.contains_key(id.0) ==> after_block_account(v, id.0, cause).accounts[id.0] == cause,
{
    let w = after_block_account(v, id.0, cause);
    assert(w.accounts.dom().contains(id.0));
}

/// Blocking one account does not change the answer for any other readable account.
pub proof fn law_block_is_per_account(
    v: BlockedView,
    groups: Map<u64, u32>,
    id: AccountId,
    other: AccountId,
    cause: AccountBlock,
)
    requires
        id.0 != other.0,
    ensures
        blocking_cause(after_block_account(v, id.0, cause), groups, Some(other)) == blocking_cause(
            v,
            groups,
            Some(other),
        ),
{
    let w = after_block_account(v, id.0, cause);
    if nothing_blocked(v) {
        assert(!v.accounts.dom().contains(other.0));
        if group_in(groups, other.0) is Some {
            assert(!v.groups.dom().contains(group_in(groups, other.0).unwrap().0));
        }
    }
}

/// An account that is neither blocked through its group nor by the engine-wide
/// block passes once it is unblocked.
pub proof fn law_unblock_then_check_passes(v: BlockedView, groups: Map<u64, u32>, id: AccountId)
    requires
        !v.all,
        group_in(groups, id.0) is Some ==> !v.groups.contains_key(group_in(groups, id.0).unwrap().0),
    ensures
        blocking_cause(after_unblock_account(v, id.0), groups, Some(id)) is None,
{
}

/// Clearing the engine-wide block keeps every individually blocked account blocked
/// with its own cause.
pub proof fn law_unblock_all_keeps_individual_blocks(v: BlockedView, groups: Map<u64, u32>, id: AccountId)
    requires
        v.accounts.contains_key(id.0),
    ensures
        blocking_cause(after_unblock_all(v), groups, Some(id)) == Some(
            BlockingCause::Specific(v.accounts[id.0]),
        ),
{
    assert(after_unblock_all(v).accounts.dom().contains(id.0));
}

/// While the engine-wide block is armed every request is refused; its stored cause,
/// when there is one, is reported for accounts without a cause of their own or of
/// their group.
pub proof fn law_global_block_refuses_everything(v: BlockedView, groups: Map<u64, u32>, account: Option<AccountId>)
    requires
        v.all,
    ensures
        blocking_cause(v, groups, account) is Some,
        (account matches Some(id) && !v.accounts.contains_key(id.0) && !(group_in(groups, id.0) is Some
            && v.groups.contains_key(group_in(groups, id.0).unwrap().0)) && v.global is Some)
            ==> blocking_cause(v, groups, account) == Some(BlockingCause::Specific(v.global.unwrap())),
{
}

/// An account's own cause wins over its group's cause and over the engine-wide one.
pub proof fn law_account_cause_precedes(v: BlockedView, groups: Map<u64, u32>, id: AccountId)
    requires
        v.accounts.contains_key(id.0),
    ensures
        blocking_cause(v, groups, Some(id)) == Some(BlockingCause::Specific(v.accounts[id.0])),
{
    assert(v.accounts.dom().contains(id.0));
}

/// Group blocking is a live predicate: a member of a blocked group is refused with the
/// group's cause, and once it leaves the group (with no own block and no engine-wide
/// block) it passes.
pub proof fn law_group_block_is_live(v: BlockedView, groups: Map<u64, u32>, id: AccountId, g: u32)
    requires
        groups.contains_key(id.0),
        groups[id.0] == g,
        v.groups.contains_key(g),
        !v.accounts.contains_key(id.0),
    ensures
        blocking_cause(v, groups, Some(id)) == Some(BlockingCause::Specific(v.groups[g])),
        !v.all ==> blocking_cause(v, groups.remove(id.0), Some(id)) is None,
{
    assert(v.groups.dom().contains(g));
}

/// With nothing blocked every request passes, even one without a readable account;
/// with anything blocked a request without a readable account is refused.
pub proof fn law_unreadable_account(v: BlockedView, groups: Map<u64, u32>)
    ensures
        nothing_blocked(v) ==> blocking_cause(v, groups, None) is None,
        !nothing_blocked(v) ==> blocking_cause(v, groups, None) == Some(BlockingCause::Unverifiable),
{
}

/// Retiring a provenance unblocks the account exactly when its stored cause carries
/// that provenance; a cause owned by anything else stays.
pub proof fn law_invalidate_only_own_provenance(v: BlockedView, id: u64, provenance: u64)
    ensures
        owns_block(v, id, provenance) ==> !after_invalidate(v, id, provenance).accounts.contains_key(id),
        !owns_block(v, id, provenance) ==> after_invalidate(v, id, provenance) == v,
{
}

/// A cause written over by `replace_reason` with no provenance can no longer be
/// retired by the assertion that raised the overwritten one.
pub proof fn law_replaced_reason_is_not_retired(v: BlockedView, id: u64, block: AccountBlock, provenance: u64)
    requires
        v.accounts.contains_key(id),
        block.provenance is None,
    ensures
        !owns_block(BlockedView { accounts: v.accounts.insert(id, block), ..v }, id, provenance),
{
}

} // verus!

verus! {

// ─── Deferred account operations ─────────────────────────────────────────────

/// An account-control effect recorded while a pipeline is still undecided.
#[derive(Clone, Debug, PartialEq, Eq)]
pub enum DeferredAccountOperation {
    /// Block `account` with `block`.
    Block {
        /// The account to block.
        account: AccountId,
        /// Its cause.
        block: AccountBlock,
    },
    /// Retire the block that `provenance` raised on `account`.
    InvalidateProvenance {
        /// The account.
        account: AccountId,
        /// The provenance token.
        provenance: u64,
    },
}

/// The blocked set after one recorded operation.
pub open spec fn apply_operation(v: BlockedView, op: DeferredAccountOperation) -> BlockedView {
    match op {
        DeferredAccountOperation::Block { account, block } => after_block_account(v, account.0, block),
        DeferredAccountOperation::InvalidateProvenance { account, provenance } => after_invalidate(
            v,
            account.0,
            provenance,
        ),
    }
}

/// The blocked set after recorded operations, applied in recording order.
pub open spec fn apply_operations(v: BlockedView, ops: Seq<DeferredAccountOperation>) -> BlockedView
    decreases ops.len(),
{
    if ops.len() == 0 {
        v
    } else {
        apply_operation(apply_operations(v, ops.drop_last()), ops.last())
    }
}

/// Account-control effects buffered while a pipeline runs, to be applied in order
/// when it is accepted or dropped when it is abandoned. Once applied or abandoned the
/// buffer is inactive and callers write through.
pub struct DeferredAccountOperations {
    first_block: Option<AccountBlock>,
    operations: Vec<DeferredAccountOperation>,
    is_active: bool,
}

impl Default for DeferredAccountOperations {
    fn default() -> (r: DeferredAccountOperations)
        ensures
            r.active(),
            r.recorded() == Seq::<DeferredAccountOperation>::empty(),
            r.spec_first_block() is None,
    {
        DeferredAccountOperations::new()
    }
}

impl DeferredAccountOperations {
    /// Whether operations are still buffered.
    pub closed spec fn active(&self) -> bool {
        self.is_active
    }

    /// The buffered operations, in recording order.
    pub closed spec fn recorded(&self) -> Seq<DeferredAccountOperation> {
        self.operations@
    }

    /// The first block recorded while active.
    pub closed spec fn spec_first_block(&self) -> Option<AccountBlock> {
        self.first_block
    }

    /// An active, empty buffer.
    pub fn new() -> (r: DeferredAccountOperations)
        ensures
            r.active(),
            r.recorded() == Seq::<DeferredAccountOperation>::empty(),
            r.spec_first_block() is None,
    {
        DeferredAccountOperations { first_block: None, operations: Vec::new(), is_active: true }
    }

    /// Buffers a block while active; once inactive the block is handed back so the
    /// caller writes it through.
    pub fn record_block(&mut self, account: AccountId, block: AccountBlock) -> (r: Result<(), AccountBlock>)
        ensures
            !old(self).active() ==> r == Err::<(), AccountBlock>(block) && *final(self) == *old(self),
            old(self).active() ==> r is Ok && final(self).active() && final(self).recorded()
                == old(self).recorded().push(DeferredAccountOperation::Block { account, block })
                && final(self).spec_first_block() == (if old(self).spec_first_block() is None {
                Some(block)
            } else {
                old(self).spec_first_block()
            }),
    {
        if !self.is_active {
            return Err(block);
        }
        if self.first_block.is_none() {
            self.first_block = Some(block.duplicate());
        }
        self.operations.push(DeferredAccountOperation::Block { account, block });
        Ok(())
    }

    /// Buffers a provenance retirement while active; returns whether it was buffered.
    pub fn record_invalidate_provenance(&mut self, account: AccountId, provenance: u64) -> (r: bool)
        ensures
            r == old(self).active(),
            !r ==> *final(self) == *old(self),
            r ==> final(self).active() && final(self).spec_first_block() == old(self).spec_first_block()
                && final(self).recorded() == old(self).recorded().push(
                DeferredAccountOperation::InvalidateProvenance { account, provenance },
            ),
    {
        if !self.is_active {
            return false;
        }
        self.operations.push(DeferredAccountOperation::InvalidateProvenance { account, provenance });
        true
    }

    /// The first block recorded while active.
    pub fn first_block(&self) -> (r: Option<AccountBlock>)
        ensures
            r == self.spec_first_block(),
    {
        match &self.first_block {
            Some(b) => Some(b.duplicate()),
            None => None,
        }
    }

    /// Applies the buffered operations to `blocked` in recording order and
    /// deactivates the buffer.
    pub fn apply(&mut self, blocked: &mut BlockedAccounts)
        requires
            old(blocked).wf(),
        ensures
            final(blocked).wf(),
            final(blocked)@ == apply_operations(old(blocked)@, old(self).recorded()),
            !final(self).active(),
            final(self).recorded().len() == 0,
            final(self).spec_first_block() is None,
    {
        self.is_active = false;
        self.first_block = None;
        let mut operations: Vec<DeferredAccountOperation> = Vec::new();
        std::mem::swap(&mut operations, &mut self.operations);
        let n = operations.len();
        let mut i: usize = 0;
        while i < n
            invariant
                n == operations@.len(),
                operations@ == old(self).recorded(),
                i <= n,
                blocked.wf(),
                blocked@ == apply_operations(old(blocked)@, operations@.take(i as int)),
            decreases n - i,
        {
            proof {
                assert(operations@.take(i + 1).drop_last() =~= operations@.take(i as int));
            }
            match &operations[i] {
                DeferredAccountOperation::Block { account, block } => {
                    blocked.block_account(*account, block.duplicate());
                },
                DeferredAccountOperation::InvalidateProvenance { account, provenance } => {
                    let _ = blocked.invalidate_provenance(*account, *provenance);
                },
            }
            i += 1;
        }
        proof {
            assert(operations@.take(n as int) =~= operations@);
        }
    }

    /// Drops the buffered operations and deactivates the buffer.
    pub fn abandon(&mut self)
        ensures
            !final(self).active(),
            final(self).recorded().len() == 0,
            final(self).spec_first_block() is None,
    {
        self.is_active = false;
        self.first_block = None;
        self.operations = Vec::new();
    }
}

// ─── AccountBlockHandle ──────────────────────────────────────────────────────

/// Handle to the engine's blocked set, through which policies and the operator
/// record and lift blocks.
pub struct AccountBlockHandle {
    inner: BlockedAccounts,
}

impl View for AccountBlockHandle {
    type V = BlockedView;

    closed spec fn view(&self) -> BlockedView {
        self.inner@
    }
}

impl AccountBlockHandle {
    /// Whether the wrapped blocked set is well formed.
    pub closed spec fn wf(&self) -> bool {
        self.inner.wf()
    }

    /// Wraps a blocked set.
    pub fn from_inner(inner: BlockedAccounts) -> (r: AccountBlockHandle)
        requires
            inner.wf(),
        ensures
            r.wf(),
            r@ == inner@,
    {
        AccountBlockHandle { inner }
    }

    /// The wrapped blocked set.
    pub fn inner(&self) -> (r: &BlockedAccounts)
        requires
            self.wf(),
        ensures
            r.wf(),
            r@ == self@,
    {
        &self.inner
    }

    /// Unwraps the blocked set.
    pub fn into_inner(self) -> (r: BlockedAccounts)
        requires
            self.wf(),
        ensures
            r.wf(),
            r@ == self@,
    {
        self.inner
    }

    /// Blocks `account_id`; the first cause of an account wins.
    pub fn block_account(&mut self, account_id: AccountId, block: AccountBlock)
        requires
            old(self).wf(),
        ensures
            final(self).wf(),
            final(self)@ == after_block_account(old(self)@, account_id.0, block),
    {
        self.inner.block_account(account_id, block);
    }

    /// Retires the block that `provenance` raised on `account_id`, if it is still its
    /// cause.
    pub fn invalidate_provenance(&mut self, account_id: AccountId, provenance: u64) -> (r: Option<AccountBlock>)
        requires
            old(self).wf(),
        ensures
            final(self).wf(),
            final(self)@ == after_invalidate(old(self)@, account_id.0, provenance),
            r == (if owns_block(old(self)@, account_id.0, provenance) {
                Some(old(self)@.accounts[account_id.0])
            } else {
                None
            }),
    {
        self.inner.invalidate_provenance(account_id, provenance)
    }

    /// Removes any block of `account_id`.
    pub fn unblock_account(&mut self, account_id: AccountId)
        requires
            old(self).wf(),
        ensures
            final(self).wf(),
            final(self)@ == after_unblock_account(old(self)@, account_id.0),
    {
        self.inner.unblock_account(account_id);
    }

    /// Clears the engine-wide block.
    pub fn unblock_all(&mut self)
        requires
            old(self).wf(),
        ensures
            final(self).wf(),
            final(self)@ == after_unblock_all(old(self)@),
    {
        self.inner.unblock_all();
    }

    /// Arms the kill switch for a failed mutation finalizer. An account-scoped failure
    /// with a readable account blocks only that account; a global failure, or an
    /// account-scoped one without an account, arms the engine-wide block. Either way
    /// the stored cause is the engine's finalizer-failure block.
    pub fn record_mutation_failure(&mut self, account: Option<AccountId>, scope: MutationFailureScope)
        requires
            old(self).wf(),
        ensures
            final(self).wf(),
            exists|b: AccountBlock|
                is_mutation_finalizer_block(b) && final(self)@ == match (scope, account) {
                    (MutationFailureScope::Account, Some(a)) => after_block_account(old(self)@, a.0, b),
                    _ => after_block_all_with_cause(old(self)@, b),
                },
    {
        let block = new_mutation_finalizer_block();
        match (scope, account) {
            (MutationFailureScope::Account, Some(account)) => {
                self.inner.block_account(account, block);
            },
            _ => {
                self.inner.block_all_with_cause(block);
            },
        }
    }

    /// Overwrites the stored cause of a blocked account.
    pub fn replace_reason(&mut self, account_id: AccountId, block: AccountBlock) -> (r: Result<
        (),
        AccountBlockError,
    >)
        requires
            old(self).wf(),
        ensures
            final(self).wf(),
            r is Ok <==> old(self)@.accounts.contains_key(account_id.0),
            r is Ok ==> final(self)@ == (BlockedView {
                accounts: old(self)@.accounts.insert(account_id.0, block),
                ..old(self)@
            }),
            r is Err ==> r == Err::<(), AccountBlockError>(
                AccountBlockError::AccountNotBlocked { account: account_id },
            ) && final(self)@ == old(self)@,
    {
        self.inner.replace_reason(account_id, block)
    }

    /// Blocks `group`; the first cause of a group wins.
    pub fn block_group(&mut self, group: AccountGroupId, block: AccountBlock) -> (r: Result<(), AccountBlockError>)
        requires
            old(self).wf(),
        ensures
            final(self).wf(),
            group.is_default() ==> r == Err::<(), AccountBlockError>(AccountBlockError::ReservedGroup)
                && final(self)@ == old(self)@,
            !group.is_default() ==> r is Ok && final(self)@ == after_block_group(old(self)@, group.0, block),
    {
        self.inner.block_group(group, block)
    }

    /// Unblocks `group`.
    pub fn unblock_group(&mut self, group: AccountGroupId) -> (r: Result<(), AccountBlockError>)
        requires
            old(self).wf(),
        ensures
            final(self).wf(),
            group.is_default() ==> r == Err::<(), AccountBlockError>(AccountBlockError::ReservedGroup)
                && final(self)@ == old(self)@,
            !group.is_default() ==> r is Ok && final(self)@ == after_unblock_group(old(self)@, group.0),
    {
        self.inner.unblock_group(group)
    }

    /// Overwrites the stored cause of a blocked group.
    pub fn replace_group_reason(&mut self, group: AccountGroupId, block: AccountBlock) -> (r: Result<
        (),
        AccountBlockError,
    >)
        requires
            old(self).wf(),
        ensures
            final(self).wf(),
            group.is_default() ==> r == Err::<(), AccountBlockError>(AccountBlockError::ReservedGroup),
            !group.is_default() && !old(self)@.groups.contains_key(group.0) ==> r == Err::<
                (),
                AccountBlockError,
            >(AccountBlockError::GroupNotBlocked { group }),
            r is Ok <==> !group.is_default() && old(self)@.groups.contains_key(group.0),
            r is Ok ==> final(self)@ == (BlockedView { groups: old(self)@.groups.insert(group.0, block), ..old(self)@ }),
            r is Err ==> final(self)@ == old(self)@,
    {
        self.inner.replace_group_reason(group, block)
    }
}

// ─── AccountControl ──────────────────────────────────────────────────────────

/// Per-account control bound to one account, through which a policy blocks that
/// account. While it carries an active deferred buffer its effects are buffered;
/// otherwise they are written through to the blocked set.
pub struct AccountControl {
    deferred_operations: Option<DeferredAccountOperations>,
    account_id: AccountId,
}

impl AccountControl {
    /// The bound account.
    pub closed spec fn bound_account(&self) -> AccountId {
        self.account_id
    }

    /// The deferred buffer, if any.
    pub closed spec fn deferred(&self) -> Option<DeferredAccountOperations> {
        self.deferred_operations
    }

    /// A control bound to `account_id` that writes through.
    pub fn new(account_id: AccountId) -> (r: AccountControl)
        ensures
            r.bound_account() == account_id,
            r.deferred() is None,
    {
        AccountControl { deferred_operations: None, account_id }
    }

    /// The same control, buffering into `deferred_operations`.
    pub fn with_deferred_operations(self, deferred_operations: DeferredAccountOperations) -> (r: AccountControl)
        ensures
            r.bound_account() == self.bound_account(),
            r.deferred() == Some(deferred_operations),
    {
        AccountControl { deferred_operations: Some(deferred_operations), account_id: self.account_id }
    }

    /// Hands back the deferred buffer, leaving the control writing through.
    pub fn take_deferred_operations(&mut self) -> (r: Option<DeferredAccountOperations>)
        ensures
            r == old(self).deferred(),
            final(self).deferred() is None,
            final(self).bound_account() == old(self).bound_account(),
    {
        self.deferred_operations.take()
    }

    /// Blocks the bound account with `block`: buffered while an active deferred buffer
    /// is attached, written through to `handle` otherwise. The first cause wins.
    pub fn block(&mut self, handle: &mut AccountBlockHandle, block: AccountBlock)
        requires
            old(handle).wf(),
        ensures
            final(handle).wf(),
            final(self).bound_account() == old(self).bound_account(),
            match old(self).deferred() {
                Some(d) => if d.active() {
                    &&& final(handle)@ == old(handle)@
                    &&& final(self).deferred() is Some
                    &&& final(self).deferred().unwrap().active()
                    &&& final(self).deferred().unwrap().recorded() == d.recorded().push(
                        DeferredAccountOperation::Block { account: old(self).bound_account(), block },
                    )
                } else {
                    final(handle)@ == after_block_account(old(handle)@, old(self).bound_account().0, block)
                        && final(self).deferred() == old(self).deferred()
                },
                None => final(handle)@ == after_block_account(
                    old(handle)@,
                    old(self).bound_account().0,
                    block,
                ) && final(self).deferred() is None,
            },
    {
        let account_id = self.account_id;
        let write_through = match &mut self.deferred_operations {
            Some(deferred_operations) => match deferred_operations.record_block(account_id, block) {
                Ok(()) => None,
                Err(block) => Some(block),
            },
            None => Some(block),
        };
        match write_through {
            Some(block) => {
                handle.block_account(account_id, block);
            },
            None => {},
        }
    }

    /// Retires the block that `provenance` raised on the bound account: buffered while
    /// an active deferred buffer is attached (answering `None`), applied to `handle`
    /// otherwise.
    pub fn invalidate_provenance(&mut self, handle: &mut AccountBlockHandle, provenance: u64) -> (r: Option<
        AccountBlock,
    >)
        requires
            old(handle).wf(),
        ensures
            final(handle).wf(),
            final(self).bound_account() == old(self).bound_account(),
            (old(self).deferred() matches Some(d) && d.active()) ==> {
                &&& r is None
                &&& final(handle)@ == old(handle)@
                &&& final(self).deferred() is Some
                &&& final(self).deferred().unwrap().recorded() == old(self).deferred().unwrap().recorded().push(
                    DeferredAccountOperation::InvalidateProvenance {
                        account: old(self).bound_account(),
                        provenance,
                    },
                )
            },
            !(old(self).deferred() matches Some(d) && d.active()) ==> final(handle)@ == after_invalidate(
                old(handle)@,
                old(self).bound_account().0,
                provenance,
            ) && r == (if owns_block(old(handle)@, old(self).bound_account().0, provenance) {
                Some(old(handle)@.accounts[old(self).bound_account().0])
            } else {
                None
            }) && final(self).deferred() == old(self).deferred(),
    {
        let account_id = self.account_id;
        match &mut self.deferred_operations {
            Some(deferred_operations) => {
                if deferred_operations.record_invalidate_provenance(account_id, provenance) {
                    return None;
                }
            },
            None => {},
        }
        handle.invalidate_provenance(account_id, provenance)
    }
}

/// Applying buffered operations equals performing them one after another: applying
/// a buffer with one more operation is applying the shorter buffer, then that one.
pub proof fn law_deferred_apply_is_sequential(
    v: BlockedView,
    ops: Seq<DeferredAccountOperation>,
    op: DeferredAccountOperation,
)
    ensures
        apply_operations(v, ops.push(op)) == apply_operation(apply_operations(v, ops), op),
        apply_operations(v, Seq::<DeferredAccountOperation>::empty()) == v,
{
    assert(ops.push(op).drop_last() =~= ops);
}

} // verus!
