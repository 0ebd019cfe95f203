//! Account-group membership registry.
//!
//! Maps each account to at most one explicit group. Accounts that are not
//! registered belong implicitly to the reserved default group.
use vstd::prelude::*;
use vstd::hash_map::HashMapWithView;
use crate::param::{AccountGroupId, AccountId};

verus! {

broadcast use vstd::std_specs::hash::group_hash_axioms;

/// Error returned by group registration and unregistration. Both operations are
/// atomic: on error the registry is left unchanged.
#[derive(Clone, Copy, Debug, PartialEq, Eq, Structural)]
pub enum AccountGroupError {
    /// The target group is the reserved default group.
    ReservedGroup,
    /// A listed account already belongs to a group (possibly the requested one).
    AlreadyRegistered {
        /// The offending account.
        account: AccountId,
        /// The group it currently belongs to.
        current_group: AccountGroupId,
    },
    /// A listed account is not a member of the requested group.
    NotInGroup {
        /// The offending account.
        account: AccountId,
        /// The group requested by the caller.
        requested_group: AccountGroupId,
        /// The group the account belongs to, or `None` when ungrouped.
        current_group: Option<AccountGroupId>,
    },
}

impl AccountGroupError {
    /// Human-readable description; it names no account and no group.
    pub fn message(&self) -> (r: String)
        ensures
            r@ == self.spec_message(),
    {
        match self {
            AccountGroupError::ReservedGroup => {
                "the reserved default account group is not a valid target".to_owned()
            },
            AccountGroupError::AlreadyRegistered { .. } => {
                "account is already registered in a different group".to_owned()
            },
            AccountGroupError::NotInGroup { current_group: Some(_), .. } => {
                "account is not in the requested group; it belongs to a different group".to_owned()
            },
            AccountGroupError::NotInGroup { current_group: None, .. } => {
                "account is not in the requested group; it belongs to no group".to_owned()
            },
        }
    }

    /// The description text of each variant.
    pub open spec fn spec_message(self) -> Seq<char> {
        match self {
            AccountGroupError::ReservedGroup => "the reserved default account group is not a valid target"@,
            AccountGroupError::AlreadyRegistered { .. } => "account is already registered in a different group"@,
            AccountGroupError::NotInGroup { current_group: Some(_), .. } =>
                "account is not in the requested group; it belongs to a different group"@,
            AccountGroupError::NotInGroup { current_group: None, .. } =>
                "account is not in the requested group; it belongs to no group"@,
        }
    }
}

/// Raw account numbers of `accounts[0..n]`.
pub open spec fn listed(accounts: Seq<AccountId>, n: int) -> Set<u64> {
    Set::new(|k: u64| exists|j: int| 0 <= j < n && #[trigger] accounts[j].0 == k)
}

/// Membership after registering `accounts[0..n]` into `group`.
pub open spec fn registered(m: Map<u64, u32>, accounts: Seq<AccountId>, n: int, group: u32) -> Map<
    u64,
    u32,
> {
    m.union_prefer_right(Map::new(|k: u64| listed(accounts, n).contains(k), |k: u64| group))
}

/// `i` is the first listed account that already belongs to a group.
pub open spec fn first_registered(m: Map<u64, u32>, accounts: Seq<AccountId>, i: int) -> bool {
    &&& 0 <= i < accounts.len()
    &&& m.contains_key(accounts[i].0)
    &&& forall|j: int| 0 <= j < i ==> !m.contains_key(#[trigger] accounts[j].0)
}

/// The group of raw account `k` in membership map `m`.
pub open spec fn group_in(m: Map<u64, u32>, k: u64) -> Option<AccountGroupId> {
    if m.contains_key(k) {
        Some(AccountGroupId(m[k]))
    } else {
        None
    }
}

/// `i` is the first listed account that is not a member of `group`.
pub open spec fn first_not_member(m: Map<u64, u32>, accounts: Seq<AccountId>, i: int, group: u32) -> bool {
    &&& 0 <= i < accounts.len()
    &&& group_in(m, accounts[i].0) != Some(AccountGroupId(group))
    &&& forall|j: int|
        0 <= j < i ==> group_in(m, #[trigger] accounts[j].0) == Some(AccountGroupId(group))
}

/// The registry's answer to `register_group(accounts, group)` on membership `m`.
pub open spec fn register_outcome(m: Map<u64, u32>, accounts: Seq<AccountId>, group: AccountGroupId) -> Result<
    (),
    AccountGroupError,
> {
    if group.is_default() {
        Err(AccountGroupError::ReservedGroup)
    } else if exists|i: int| first_registered(m, accounts, i) {
        let i = choose|i: int| first_registered(m, accounts, i);
        Err(
            AccountGroupError::AlreadyRegistered {
                account: accounts[i],
                current_group: AccountGroupId(m[accounts[i].0]),
            },
        )
    } else {
        Ok(())
    }
}

/// The registry's answer to `unregister_group(accounts, group)` on membership `m`.
pub open spec fn unregister_outcome(m: Map<u64, u32>, accounts: Seq<AccountId>, group: AccountGroupId) -> Result<
    (),
    AccountGroupError,
> {
    if group.is_default() {
        Err(AccountGroupError::ReservedGroup)
    } else if exists|i: int| first_not_member(m, accounts, i, group.0) {
        let i = choose|i: int| first_not_member(m, accounts, i, group.0);
        Err(
            AccountGroupError::NotInGroup {
                account: accounts[i],
                requested_group: group,
                current_group: group_in(m, accounts[i].0),
            },
        )
    } else {
        Ok(())
    }
}

/// Per-engine account-group membership.
pub struct AccountGroups {
    memberships: HashMapWithView<u64, u32>,
}

impl View for AccountGroups {
    type V = Map<u64, u32>;

    closed spec fn view(&self) -> Map<u64, u32> {
        self.memberships@
    }
}

impl AccountGroups {
    /// Creates an empty registry.
    pub fn new() -> (r: AccountGroups)
        ensures
            r@ == Map::<u64, u32>::empty(),
    {
        AccountGroups { memberships: HashMapWithView::new() }
    }

    /// The group of `account`, for contracts.
    pub open spec fn spec_group_of(&self, account: AccountId) -> Option<AccountGroupId> {
        group_in(self@, account.0)
    }

    /// Returns the group of `account`, or `None` when it is not registered.
    pub fn group_of(&self, account: AccountId) -> (r: Option<AccountGroupId>)
        ensures
            r == self.spec_group_of(account),
    {
        match self.memberships.get(&account.0) {
            Some(g) => Some(AccountGroupId(*g)),
            None => None,
        }
    }

    /// Atomically registers every account in `accounts` into `group`.
    ///
    /// Fails when `group` is the reserved default group, or when any listed account
    /// already belongs to a group (including `group`); the error names the first such
    /// account. On failure nothing is registered.
    pub fn register_group(&mut self, accounts: &[AccountId], group: AccountGroupId) -> (r: Result<
        (),
        AccountGroupError,
    >)
        ensures
            r == register_outcome(old(self)@, accounts@, group),
            r is Ok ==> final(self)@ == registered(old(self)@, accounts@, accounts@.len() as int, group.0),
            r is Err ==> final(self)@ == old(self)@,
    {
        if group.0 == crate::param::DEFAULT_ACCOUNT_GROUP_RAW {
            return Err(AccountGroupError::ReservedGroup);
        }
        let n = accounts.len();
        let mut i: usize = 0;
        while i < n
            invariant
                n == accounts@.len(),
                i <= n,
                !group.is_default(),
                self@ == old(self)@,
                forall|j: int| 0 <= j < i ==> !self@.contains_key(#[trigger] accounts@[j].0),
            decreases n - i,
        {
            let account = accounts[i];
            match self.memberships.get(&account.0) {
                Some(current) => {
                    let current = *current;
                    proof {
                        assert(first_registered(old(self)@, accounts@, i as int));
                        let k = choose|k: int| first_registered(old(self)@, accounts@, k);
                        if k < i {
                            assert(!old(self)@.contains_key(accounts@[k].0));
                        }
                        if i < k {
                            assert(!old(self)@.contains_key(accounts@[i as int].0));
                        }
                    }
                    return Err(
                        AccountGroupError::AlreadyRegistered {
                            account,
                            current_group: AccountGroupId(current),
                        },
                    );
                },
                None => {},
            }
            i += 1;
        }
        proof {
            assert forall|k: int| !first_registered(old(self)@, accounts@, k) by {
                if 0 <= k < accounts@.len() {
                    assert(!old(self)@.contains_key(accounts@[k].0));
                }
            }
            assert(registered(old(self)@, accounts@, 0, group.0) =~= old(self)@);
        }
        let mut i: usize = 0;
        while i < n
            invariant
                n == accounts@.len(),
                i <= n,
                self@ == registered(old(self)@, accounts@, i as int, group.0),
            decreases n - i,
        {
            let account = accounts[i];
            self.memberships.insert(account.0, group.0);
            proof {
                let prev = registered(old(self)@, accounts@, i as int, group.0);
                let next = registered(old(self)@, accounts@, i + 1, group.0);
                assert forall|k: u64| listed(accounts@, i + 1).contains(k) <==> (listed(
                    accounts@,
                    i as int,
                ).contains(k) || k == accounts@[i as int].0) by {
                    if listed(accounts@, i + 1).contains(k) {
                        let j = choose|j: int| 0 <= j < i + 1 && #[trigger] accounts@[j].0 == k;
                        if j < i {
                            assert(listed(accounts@, i as int).contains(k));
                        }
                    }
                    if listed(accounts@, i as int).contains(k) {
                        let j = choose|j: int| 0 <= j < i && #[trigger] accounts@[j].0 == k;
                        assert(0 <= j < i + 1 && accounts@[j].0 == k);
                    }
                    if k == accounts@[i as int].0 {
                        assert(0 <= i < i + 1 && accounts@[i as int].0 == k);
                    }
                }
                assert(self@ =~= next);
            }
            i += 1;
        }
        Ok(())
    }

    /// Atomically removes every account in `accounts` from `group`.
    ///
    /// Fails when `group` is the reserved default group, or when any listed account
    /// is not a member of `group`; the error names the first such account and the
    /// group it belongs to. On failure nothing is removed.
    pub fn unregister_group(&mut self, accounts: &[AccountId], group: AccountGroupId) -> (r: Result<
        (),
        AccountGroupError,
    >)
        ensures
            r == unregister_outcome(old(self)@, accounts@, group),
            r is Ok ==> final(self)@ == old(self)@.remove_keys(listed(accounts@, accounts@.len() as int)),
            r is Err ==> final(self)@ == old(self)@,
    {
        if group.0 == crate::param::DEFAULT_ACCOUNT_GROUP_RAW {
            return Err(AccountGroupError::ReservedGroup);
        }
        let n = accounts.len();
        let mut i: usize = 0;
        while i < n
            invariant
                n == accounts@.len(),
                i <= n,
                !group.is_default(),
                self@ == old(self)@,
                forall|j: int|
                    0 <= j < i ==> group_in(self@, #[trigger] accounts@[j].0) == Some(
                        AccountGroupId(group.0),
                    ),
            decreases n - i,
        {
            let account = accounts[i];
            let current = self.group_of(account);
            let is_member = match current {
                Some(g) => g.0 == group.0,
                None => false,
            };
            if !is_member {
                proof {
                    assert(first_not_member(old(self)@, accounts@, i as int, group.0));
                    let k = choose|k: int| first_not_member(old(self)@, accounts@, k, group.0);
                    if k < i {
                        assert(group_in(old(self)@, accounts@[k].0) == Some(AccountGroupId(group.0)));
                    }
                    if i < k {
                        assert(group_in(old(self)@, accounts@[i as int].0) == Some(
                            AccountGroupId(group.0),
                        ));
                    }
                }
                return Err(
                    AccountGroupError::NotInGroup {
                        account,
                        requested_group: group,
                        current_group: current,
                    },
                );
            }
            i += 1;
        }
        proof {
            assert forall|k: int| !first_not_member(old(self)@, accounts@, k, group.0) by {
                if 0 <= k < accounts@.len() {
                    assert(group_in(old(self)@, accounts@[k].0) == Some(AccountGroupId(group.0)));
                }
            }
            assert(old(self)@.remove_keys(listed(accounts@, 0)) =~= old(self)@);
        }
        let mut i: usize = 0;
        while i < n
            invariant
                n == accounts@.len(),
                i <= n,
                self@ == old(self)@.remove_keys(listed(accounts@, i as int)),
            decreases n - i,
        {
            let account = accounts[i];
            let _ = self.memberships.remove(&account.0);
            proof {
                let next = old(self)@.remove_keys(listed(accounts@, i + 1));
                assert forall|k: u64| listed(accounts@, i + 1).contains(k) <==> (listed(
                    accounts@,
                    i as int,
                ).contains(k) || k == accounts@[i as int].0) by {
                    if listed(accounts@, i + 1).contains(k) {
                        let j = choose|j: int| 0 <= j < i + 1 && #[trigger] accounts@[j].0 == k;
                        if j < i {
                            assert(listed(accounts@, i as int).contains(k));
                        }
                    }
                    if listed(accounts@, i as int).contains(k) {
                        let j = choose|j: int| 0 <= j < i && #[trigger] accounts@[j].0 == k;
                        assert(0 <= j < i + 1 && accounts@[j].0 == k);
                    }
                    if k == accounts@[i as int].0 {
                        assert(0 <= i < i + 1 && accounts@[i as int].0 == k);
                    }
                }
                assert(self@ =~= next);
            }
            i += 1;
        }
        Ok(())
    }
}

} // verus!
