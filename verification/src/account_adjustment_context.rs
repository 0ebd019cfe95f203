//! Context handed to policies while they evaluate one account adjustment: the
//! control bound to the adjusted account and a once-per-context lookup of its
//! group. The registries it reads are passed to the calls that read them.
use vstd::prelude::*;
use crate::account_control::AccountControl;
use crate::account_groups::{group_in, AccountGroups};
use crate::accounts::{effective_currency, Accounts};
use crate::param::{AccountGroupId, AccountId, Asset};

verus! {

/// Lazy lookup of the group of a bound account: the first lookup reads the
/// registry, and every later one answers the same group even when the registry
/// has changed since.
pub struct GroupLookup {
    /// The bound account, or `None` when the request gave none.
    pub account: Option<AccountId>,
    /// The group found by the first lookup, once it ran.
    pub cached_group: Option<Option<AccountGroupId>>,
}

/// The group `account` belongs to in membership `groups` (`None` for no account).
pub open spec fn lookup(groups: Map<u64, u32>, account: Option<AccountId>) -> Option<AccountGroupId> {
    match account {
        Some(a) => group_in(groups, a.0),
        None => None,
    }
}

/// What a lookup in state `state` answers when the registry holds `groups`.
pub open spec fn lookup_answer(state: GroupLookup, groups: Map<u64, u32>) -> Option<AccountGroupId> {
    match state.cached_group {
        Some(g) => g,
        None => lookup(groups, state.account),
    }
}

impl GroupLookup {
    /// A lookup bound to `account` that has not run yet.
    pub fn new(account: Option<AccountId>) -> (r: GroupLookup)
        ensures
            r.account == account,
            r.cached_group is None,
    {
        GroupLookup { account, cached_group: None }
    }

    /// The bound account's group: read from `groups` on the first call, answered
    /// from the cache afterwards.
    pub fn group(&mut self, groups: &AccountGroups) -> (r: Option<AccountGroupId>)
        ensures
            r == lookup_answer(*old(self), groups@),
            final(self).cached_group == Some(r),
            final(self).account == old(self).account,
    {
        match self.cached_group {
            Some(g) => g,
            None => {
                let g = match self.account {
                    Some(a) => groups.group_of(a),
                    None => None,
                };
                self.cached_group = Some(g);
                g
            },
        }
    }
}

/// Once a lookup has answered, it keeps answering the same group, whatever the
/// registry holds at the later calls: a second lookup against `later` answers what
/// the first one answered against `first`.
pub proof fn law_group_lookup_is_cached(state: GroupLookup, first: Map<u64, u32>, later: Map<u64, u32>)
    ensures
        lookup_answer(
            GroupLookup { cached_group: Some(lookup_answer(state, first)), ..state },
            later,
        ) == lookup_answer(state, first),
{
}

/// Context of the account adjustment being evaluated.
pub struct AccountAdjustmentContext {
    /// Control bound to the adjusted account.
    pub account_control: AccountControl,
    /// The adjusted account.
    pub account: AccountId,
    /// Lookup of the adjusted account's group.
    pub group_lookup: GroupLookup,
}

impl AccountAdjustmentContext {
    /// The group lookup is bound to the adjusted account.
    pub open spec fn wf(&self) -> bool {
        self.group_lookup.account == Some(self.account)
    }

    /// A context for adjusting `account` through `account_control`.
    pub fn new(account_control: AccountControl, account: AccountId) -> (r: AccountAdjustmentContext)
        ensures
            r.wf(),
            r.account == account,
            r.account_control == account_control,
            r.group_lookup.account == Some(account),
            r.group_lookup.cached_group is None,
    {
        AccountAdjustmentContext { account_control, account, group_lookup: GroupLookup::new(Some(account)) }
    }

    /// The adjusted account.
    pub fn account(&self) -> (r: AccountId)
        ensures
            r == self.account,
    {
        self.account
    }

    /// The group of the adjusted account, looked up in `groups` once per context.
    pub fn account_group(&mut self, groups: &AccountGroups) -> (r: Option<AccountGroupId>)
        requires
            old(self).wf(),
        ensures
            final(self).wf(),
            r == (match old(self).group_lookup.cached_group {
                Some(g) => g,
                None => group_in(groups@, old(self).account.0),
            }),
            final(self).group_lookup.cached_group == Some(r),
            final(self).account == old(self).account,
    {
        self.group_lookup.group(groups)
    }

    /// The effective currency of the adjusted account when it is in
    /// `account_group`: its own, else its group's, else the default group's.
    pub fn account_currency(&self, accounts: &Accounts, account_group: Option<AccountGroupId>) -> (r: Option<
        Asset,
    >)
        ensures
            r == effective_currency(
                accounts@.account_currencies,
                accounts@.group_currencies,
                self.account.0,
                account_group,
            ),
    {
        accounts.currency_of_in_group(self.account, account_group)
    }
}

} // verus!
