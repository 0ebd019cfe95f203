//! Runtime reconfiguration of built-in policies: finding the policy a call
//! targets, refusing a configuration started from within another one, retuning
//! a policy within one configuration, and recording the account blocks a retuned
//! barrier or a forced account state reports.
use vstd::prelude::*;
use crate::account_control::{after_block_account, BlockedAccounts, BlockedView};
use crate::engine::ConfigureError;
use crate::param::AccountId;
use crate::pipeline::after_blocks;
use crate::pretrade::AccountBlock;

verus! {

/// The settings type of a configurable built-in policy.
#[derive(Clone, Copy, Debug, PartialEq, Eq, Structural)]
pub enum PolicyKind {
    /// A rate limit.
    RateLimit,
    /// An order-size limit.
    OrderSizeLimit,
    /// A PnL-bounds kill switch.
    PnlBoundsKillSwitch,
    /// Spot funds.
    SpotFunds,
}

/// Name of the settings type of each kind.
pub open spec fn kind_name(kind: PolicyKind) -> Seq<char> {
    match kind {
        PolicyKind::RateLimit => "RateLimitSettings"@,
        PolicyKind::OrderSizeLimit => "OrderSizeLimitSettings"@,
        PolicyKind::PnlBoundsKillSwitch => "PnlBoundsKillSwitchSettings"@,
        PolicyKind::SpotFunds => "SpotFundsSettings"@,
    }
}

impl PolicyKind {
    /// Name of the settings type.
    pub fn settings_type_name(self) -> (r: &'static str)
        ensures
            r@ == kind_name(self),
    {
        let r = match self {
            PolicyKind::RateLimit => "RateLimitSettings",
            PolicyKind::OrderSizeLimit => "OrderSizeLimitSettings",
            PolicyKind::PnlBoundsKillSwitch => "PnlBoundsKillSwitchSettings",
            PolicyKind::SpotFunds => "SpotFundsSettings",
        };
        proof {
            reveal_strlit("RateLimitSettings");
            reveal_strlit("OrderSizeLimitSettings");
            reveal_strlit("PnlBoundsKillSwitchSettings");
            reveal_strlit("SpotFundsSettings");
        }
        r
    }
}

/// Whether no entry of `entries` before position `k` carries the name `name`.
pub open spec fn unnamed_before(entries: Seq<(String, PolicyKind)>, name: Seq<char>, k: int) -> bool {
    forall|i: int| 0 <= i < k ==> #[trigger] entries[i].0@ != name
}

/// Whether entry `i` of `entries` is the first one named `name`.
pub open spec fn first_named(entries: Seq<(String, PolicyKind)>, name: Seq<char>, i: int) -> bool {
    0 <= i < entries.len() && entries[i].0@ == name && unnamed_before(entries, name, i)
}

/// Whether the first entry named `name` has settings of kind `kind`.
pub open spec fn named_with_kind(entries: Seq<(String, PolicyKind)>, name: Seq<char>, kind: PolicyKind) -> bool {
    exists|i: int| #[trigger] first_named(entries, name, i) && entries[i].1 == kind
}

/// Whether the first entry named `name` has settings of another kind than `kind`.
pub open spec fn named_with_other_kind(entries: Seq<(String, PolicyKind)>, name: Seq<char>, kind: PolicyKind) -> bool {
    exists|i: int| #[trigger] first_named(entries, name, i) && entries[i].1 != kind
}

/// Only one entry is the first one named `name`.
proof fn lemma_first_named_unique(entries: Seq<(String, PolicyKind)>, name: Seq<char>, i: int, j: int)
    requires
        first_named(entries, name, i),
        first_named(entries, name, j),
    ensures
        i == j,
{
    if i < j {
        assert(entries[i].0@ != name);
    } else if j < i {
        assert(entries[j].0@ != name);
    }
}

/// Finds the configurable policy named `name` among `entries`, whose settings type
/// must be `expected`: the index of the first entry with that name, an unknown-policy
/// error when none has it, and a type-mismatch error naming both settings types
/// when that entry is of another kind.
pub fn lookup_policy(entries: &Vec<(String, PolicyKind)>, name: &str, expected: PolicyKind) -> (r: Result<
    usize,
    ConfigureError,
>)
    ensures
        r matches Ok(i) ==> {
            &&& i < entries@.len()
            &&& entries@[i as int].0@ == name@
            &&& entries@[i as int].1 == expected
            &&& unnamed_before(entries@, name@, i as int)
        },
        r matches Err(ConfigureError::UnknownPolicy { name: n }) ==> n@ == name@,
        (r matches Err(ConfigureError::UnknownPolicy { .. })) <==> unnamed_before(
            entries@,
            name@,
            entries@.len() as int,
        ),
        r matches Err(ConfigureError::PolicyTypeMismatch { name: n, expected: e, found: f }) ==> exists|i: int|
            {
                &&& 0 <= i < entries@.len()
                &&& entries@[i].0@ == name@
                &&& unnamed_before(entries@, name@, i)
                &&& entries@[i].1 != expected
                &&& n@ == name@
                &&& e@ == kind_name(expected)
                &&& f@ == kind_name(#[trigger] entries@[i].1)
            },
        r is Ok || r matches Err(ConfigureError::UnknownPolicy { .. }) || r matches Err(
            ConfigureError::PolicyTypeMismatch { .. },
        ),
        (r is Ok) <==> named_with_kind(entries@, name@, expected),
        (r matches Err(ConfigureError::PolicyTypeMismatch { .. })) <==> named_with_other_kind(
            entries@,
            name@,
            expected,
        ),
{
    let wanted = name.to_owned();
    let mut i: usize = 0;
    while i < entries.len()
        invariant
            i <= entries@.len(),
            wanted@ == name@,
            unnamed_before(entries@, name@, i as int),
        decreases entries@.len() - i,
    {
        if entries[i].0 == wanted {
            proof {
                assert(first_named(entries@, name@, i as int));
                assert forall|k: int| #[trigger] first_named(entries@, name@, k) implies k == i by {
                    lemma_first_named_unique(entries@, name@, k, i as int);
                }
            }
            if entries[i].1 == expected {
                return Ok(i);
            }
            return Err(
                ConfigureError::PolicyTypeMismatch {
                    name: wanted,
                    expected: expected.settings_type_name(),
                    found: entries[i].1.settings_type_name(),
                },
            );
        }
        i = i + 1;
    }
    proof {
        assert forall|k: int| !(#[trigger] first_named(entries@, name@, k)) by {
            if 0 <= k < entries@.len() {
                assert(entries@[k].0@ != name@);
            }
        }
    }
    Err(ConfigureError::UnknownPolicy { name: wanted })
}

/// Marks the configuration of the registry `identity` as active: it fails when a
/// configuration of that registry is already active on this thread (`active`
/// lists them), leaving `active` as it was.
pub fn enter_configuration(active: &mut Vec<u64>, identity: u64) -> (r: Result<(), ConfigureError>)
    ensures
        old(active)@.contains(identity) ==> r == Err::<(), ConfigureError>(ConfigureError::NestedConfiguration)
            && final(active)@ == old(active)@,
        !old(active)@.contains(identity) ==> r is Ok && final(active)@ == old(active)@.push(identity),
{
    let mut i: usize = 0;
    while i < active.len()
        invariant
            i <= active@.len(),
            forall|k: int| 0 <= k < i ==> active@[k] != identity,
        decreases active@.len() - i,
    {
        if active[i] == identity {
            return Err(ConfigureError::NestedConfiguration);
        }
        i = i + 1;
    }
    active.push(identity);
    Ok(())
}

/// Ends the configuration of the registry `identity`: its last entry in `active`
/// is removed, the last entry taking its place.
pub fn leave_configuration(active: &mut Vec<u64>, identity: u64)
    ensures
        !old(active)@.contains(identity) ==> final(active)@ == old(active)@,
        old(active)@.contains(identity) ==> exists|p: int|
            {
                &&& 0 <= p < old(active)@.len()
                &&& old(active)@[p] == identity
                &&& forall|k: int| p < k < old(active)@.len() ==> old(active)@[k] != identity
                &&& final(active)@ == old(active)@.update(p, old(active)@.last()).drop_last()
            },
{
    let mut i: usize = active.len();
    while i > 0
        invariant
            i <= active@.len(),
            active@ == old(active)@,
            forall|k: int| i <= k < active@.len() ==> active@[k] != identity,
        decreases i,
    {
        if active[i - 1] == identity {
            let ghost before = active@;
            active.swap_remove(i - 1);
            proof {
                assert(active@ =~= before.update(i - 1, before.last()).drop_last());
            }
            return;
        }
        i = i - 1;
    }
}

/// A block the engine recorded for an account while applying a configuration.
#[derive(Clone, Debug, PartialEq, Eq)]
pub struct AccountBlockOutcome {
    /// The account that owns the block.
    pub account_id: AccountId,
    /// The recorded block.
    pub block: AccountBlock,
}

/// The blocked set after blocking each account of `changes` with its block, in
/// order, and the pairs whose block was newly inserted (the account was not
/// blocked yet), in order.
pub open spec fn barrier_outcome(v: BlockedView, changes: Seq<(AccountId, AccountBlock)>) -> (
    BlockedView,
    Seq<AccountBlockOutcome>,
)
    decreases changes.len(),
{
    if changes.len() == 0 {
        (v, Seq::empty())
    } else {
        let (w, out) = barrier_outcome(v, changes.drop_last());
        let (account, block) = changes.last();
        (
            after_block_account(w, account.0, block),
            if w.accounts.contains_key(account.0) {
                out
            } else {
                out.push(AccountBlockOutcome { account_id: account, block })
            },
        )
    }
}

/// Records the blocks a retuned barrier reports, account by account, and answers
/// those it newly inserted: an account already blocked keeps its first cause and
/// is not reported.
pub fn record_barrier_blocks(blocked: &mut BlockedAccounts, changes: Vec<(AccountId, AccountBlock)>) -> (r: Vec<
    AccountBlockOutcome,
>)
    requires
        old(blocked).wf(),
    ensures
        final(blocked).wf(),
        final(blocked)@ == barrier_outcome(old(blocked)@, changes@).0,
        r@ == barrier_outcome(old(blocked)@, changes@).1,
{
    let ghost start = blocked@;
    let ghost all = changes@;
    proof {
        assert(all.len() == changes.len());
    }
    let mut out: Vec<AccountBlockOutcome> = Vec::new();
    let mut rest = changes;
    let mut k: usize = 0;
    while rest.len() > 0
        invariant
            blocked.wf(),
            k <= all.len(),
            all.len() <= usize::MAX,
            rest@ == all.skip(k as int),
            blocked@ == barrier_outcome(start, all.take(k as int)).0,
            out@ == barrier_outcome(start, all.take(k as int)).1,
        decreases rest@.len(),
    {
        let (account, block) = rest.remove(0);
        proof {
            assert(all.take(k + 1).drop_last() =~= all.take(k as int));
            assert(all.take(k + 1).last() == all[k as int]);
            assert(rest@ =~= all.skip(k + 1));
        }
        let kept = block.duplicate();
        if blocked.block_account(account, block) {
            out.push(AccountBlockOutcome { account_id: account, block: kept });
        }
        k = k + 1;
    }
    proof {
        assert(all.take(k as int) =~= all);
    }
    out
}

/// Records each block a policy reported for `account` after a forced state change,
/// in order; the account's first cause wins.
pub fn record_account_blocks(blocked: &mut BlockedAccounts, account: AccountId, blocks: &Vec<AccountBlock>)
    requires
        old(blocked).wf(),
    ensures
        final(blocked).wf(),
        final(blocked)@ == after_blocks(old(blocked)@, account.0, blocks@),
{
    let ghost start = blocked@;
    let mut i: usize = 0;
    while i < blocks.len()
        invariant
            blocked.wf(),
            i <= blocks@.len(),
            blocked@ == after_blocks(start, account.0, blocks@.take(i as int)),
        decreases blocks@.len() - i,
    {
        proof {
            assert(blocks@.take(i + 1).drop_last() =~= blocks@.take(i as int));
        }
        blocked.block_account(account, blocks[i].duplicate());
        i = i + 1;
    }
    proof {
        assert(blocks@.take(i as int) =~= blocks@);
    }
}


/// Entering the configuration of a registry that was not active and then leaving
/// it gives back the active list as it was: whatever position leaving picks for
/// `identity`, it is the one entering pushed.
pub proof fn law_enter_then_leave_restores(active: Seq<u64>, identity: u64, after: Seq<u64>, p: int)
    requires
        !active.contains(identity),
        0 <= p < active.len() + 1,
        active.push(identity)[p] == identity,
        after == active.push(identity).update(p, active.push(identity).last()).drop_last(),
    ensures
        after == active,
{
    if p < active.len() {
        assert(active.push(identity)[p] == active[p]);
        assert(active.contains(identity));
    }
    assert(after =~= active);
}

/// Starts retuning the configurable policy named `name`, whose settings must be of
/// kind `expected`: it answers the policy's entry as [`lookup_policy`] does, and
/// then marks the configuration of this registry (`identity`) active as
/// [`enter_configuration`] does, refusing a nested one. Nothing is marked active
/// on an error. The caller applies the update and then leaves the configuration.
pub fn begin_configuration(
    entries: &Vec<(String, PolicyKind)>,
    active: &mut Vec<u64>,
    identity: u64,
    name: &str,
    expected: PolicyKind,
) -> (r: Result<usize, ConfigureError>)
    ensures
        r is Err ==> final(active)@ == old(active)@,
        r matches Err(ConfigureError::UnknownPolicy { name: n }) ==> n@ == name@ && unnamed_before(
            entries@,
            name@,
            entries@.len() as int,
        ),
        r matches Err(ConfigureError::NestedConfiguration) ==> old(active)@.contains(identity),
        r matches Ok(i) ==> {
            &&& i < entries@.len()
            &&& entries@[i as int].0@ == name@
            &&& entries@[i as int].1 == expected
            &&& unnamed_before(entries@, name@, i as int)
            &&& !old(active)@.contains(identity)
            &&& final(active)@ == old(active)@.push(identity)
        },
        r matches Err(ConfigureError::PolicyTypeMismatch { .. }) || r matches Err(
            ConfigureError::UnknownPolicy { .. },
        ) || r matches Err(ConfigureError::NestedConfiguration) || r is Ok,
        (r matches Err(ConfigureError::UnknownPolicy { .. })) <==> unnamed_before(
            entries@,
            name@,
            entries@.len() as int,
        ),
        (r matches Err(ConfigureError::PolicyTypeMismatch { .. })) <==> named_with_other_kind(
            entries@,
            name@,
            expected,
        ),
        (r matches Err(ConfigureError::NestedConfiguration)) <==> (named_with_kind(entries@, name@, expected)
            && old(active)@.contains(identity)),
        (r is Ok) <==> (named_with_kind(entries@, name@, expected) && !old(active)@.contains(identity)),
{
    let index = lookup_policy(entries, name, expected)?;
    enter_configuration(active, identity)?;
    Ok(index)
}

/// Ends retuning the policy named `name` once its update answered `outcome`: a
/// refused update (its rendered reason) changes nothing and answers a validation
/// error; otherwise the accounts whose effective barrier now blocks them are
/// blocked, and the answer lists the newly inserted blocks (see
/// [`record_barrier_blocks`]).
pub fn finish_barrier_update(
    blocked: &mut BlockedAccounts,
    name: &str,
    outcome: Result<Vec<(AccountId, AccountBlock)>, String>,
) -> (r: Result<Vec<AccountBlockOutcome>, ConfigureError>)
    requires
        old(blocked).wf(),
    ensures
        final(blocked).wf(),
        outcome matches Err(m) ==> final(blocked)@ == old(blocked)@ && (r matches Err(
            ConfigureError::Validation { name: n, message: m2 },
        ) && n@ == name@ && m2 == m),
        outcome matches Ok(changes) ==> final(blocked)@ == barrier_outcome(old(blocked)@, changes@).0 && (r matches Ok(
            out,
        ) && out@ == barrier_outcome(old(blocked)@, changes@).1),
{
    match outcome {
        Err(message) => Err(ConfigureError::Validation { name: name.to_owned(), message }),
        Ok(changes) => Ok(record_barrier_blocks(blocked, changes)),
    }
}

/// Ends retuning the policy named `name` once an update that reports nothing
/// answered `outcome`: a refusal becomes a validation error carrying its reason.
pub fn finish_update(name: &str, outcome: Result<(), String>) -> (r: Result<(), ConfigureError>)
    ensures
        outcome is Ok ==> r is Ok,
        outcome matches Err(m) ==> (r matches Err(ConfigureError::Validation { name: n, message: m2 }) && n@
            == name@ && m2 == m),
{
    match outcome {
        Err(message) => Err(ConfigureError::Validation { name: name.to_owned(), message }),
        Ok(()) => Ok(()),
    }
}

/// Whether force-setting a policy's accumulated state for `account` answered `r`
/// and left the blocked set `after`: an unknown policy or one of another kind than
/// `expected` is refused with nothing changed, exactly on those inputs;
/// otherwise `apply` answered the blocks the policy reports, each is recorded on
/// the account, and they are the answer.
pub open spec fn account_state_forced<F: FnOnce() -> Vec<AccountBlock>>(
    entries: Seq<(String, PolicyKind)>,
    name: Seq<char>,
    expected: PolicyKind,
    account: AccountId,
    apply: F,
    before: BlockedView,
    r: Result<Vec<AccountBlock>, ConfigureError>,
    after: BlockedView,
) -> bool {
    &&& r is Err ==> after == before
    &&& r matches Err(ConfigureError::UnknownPolicy { name: n }) ==> n@ == name
    &&& (r is Ok) <==> named_with_kind(entries, name, expected)
    &&& (r matches Err(ConfigureError::PolicyTypeMismatch { .. })) <==> named_with_other_kind(entries, name, expected)
    &&& (r matches Err(ConfigureError::UnknownPolicy { .. })) <==> unnamed_before(entries, name, entries.len() as int)
    &&& r matches Ok(blocks) ==> call_ensures(apply, (), blocks) && after == after_blocks(before, account.0, blocks@)
}

/// Force-sets a policy's accumulated state for `account` (spot funds' account
/// PnL): the policy named `name` must exist with settings of kind `expected`.
/// Then `apply` sets the state and answers the account blocks the policy reports;
/// each is recorded on the account (its first cause wins), and the answer is those
/// blocks, all of them.
pub fn force_account_state<F: FnOnce() -> Vec<AccountBlock>>(
    entries: &Vec<(String, PolicyKind)>,
    blocked: &mut BlockedAccounts,
    name: &str,
    expected: PolicyKind,
    account: AccountId,
    apply: F,
) -> (r: Result<Vec<AccountBlock>, ConfigureError>)
    requires
        old(blocked).wf(),
        call_requires(apply, ()),
    ensures
        final(blocked).wf(),
        account_state_forced(entries@, name@, expected, account, apply, old(blocked)@, r, final(blocked)@),
{
    let index = lookup_policy(entries, name, expected)?;
    let blocks = apply();
    record_account_blocks(blocked, account, &blocks);
    Ok(blocks)
}

/// Whether `r` is how finding the policy named `name` of kind `expected` and
/// entering the configuration of registry `identity` (with `active` active) fail,
/// when they do: an unknown policy, a policy of another kind, or a nested
/// configuration, exactly on those inputs.
pub open spec fn entry_refusal<T>(
    entries: Seq<(String, PolicyKind)>,
    active: Seq<u64>,
    identity: u64,
    name: Seq<char>,
    expected: PolicyKind,
    r: Result<T, ConfigureError>,
) -> bool {
    &&& (r matches Err(ConfigureError::UnknownPolicy { .. })) <==> unnamed_before(entries, name, entries.len() as int)
    &&& (r matches Err(ConfigureError::PolicyTypeMismatch { .. })) <==> named_with_other_kind(entries, name, expected)
    &&& (r matches Err(ConfigureError::NestedConfiguration)) <==> (named_with_kind(entries, name, expected)
        && active.contains(identity))
}

/// Whether the retune of a policy whose update reports nothing answered `r`: the
/// refusals of [`entry_refusal`], and otherwise what `update` answered, a refusal
/// becoming a validation error.
pub open spec fn settings_retuned<F: FnOnce() -> Result<(), String>>(
    entries: Seq<(String, PolicyKind)>,
    active: Seq<u64>,
    identity: u64,
    name: Seq<char>,
    expected: PolicyKind,
    update: F,
    r: Result<(), ConfigureError>,
) -> bool {
    &&& entry_refusal(entries, active, identity, name, expected, r)
    &&& (named_with_kind(entries, name, expected) && !active.contains(identity)) ==> exists|
        outcome: Result<(), String>,
    |
        {
            &&& #[trigger] call_ensures(update, (), outcome)
            &&& outcome is Ok ==> r is Ok
            &&& outcome matches Err(m) ==> (r matches Err(ConfigureError::Validation { name: n, message: m2 })
                && n@ == name && m2 == m)
        }
}

/// Whether the retune of a policy whose update reports account blocks answered
/// `r` and left the blocked set `after`: the refusals of [`entry_refusal`], which
/// change nothing, and otherwise what `update` answered, ended as
/// [`finish_barrier_update`] says.
pub open spec fn barrier_retuned<F: FnOnce() -> Result<Vec<(AccountId, AccountBlock)>, String>>(
    entries: Seq<(String, PolicyKind)>,
    active: Seq<u64>,
    identity: u64,
    name: Seq<char>,
    expected: PolicyKind,
    update: F,
    before: BlockedView,
    r: Result<Vec<AccountBlockOutcome>, ConfigureError>,
    after: BlockedView,
) -> bool {
    &&& entry_refusal(entries, active, identity, name, expected, r)
    &&& !(named_with_kind(entries, name, expected) && !active.contains(identity)) ==> after == before
    &&& (named_with_kind(entries, name, expected) && !active.contains(identity)) ==> exists|
        outcome: Result<Vec<(AccountId, AccountBlock)>, String>,
    |
        {
            &&& #[trigger] call_ensures(update, (), outcome)
            &&& outcome matches Err(m) ==> after == before && (r matches Err(
                ConfigureError::Validation { name: n, message: m2 },
            ) && n@ == name && m2 == m)
            &&& outcome matches Ok(changes) ==> after == barrier_outcome(before, changes@).0 && (r matches Ok(out)
                && out@ == barrier_outcome(before, changes@).1)
        }
}

/// Retunes the configurable policy named `name` whose update reports account
/// blocks (spot funds): the policy is found and the configuration of this
/// registry (`identity`) entered as [`begin_configuration`] does, and an error
/// there changes nothing and leaves `update` uncalled. Otherwise `update` retunes
/// the settings and answers the blocks of the accounts whose effective barrier
/// now blocks them, or its refusal; the configuration ends as
/// [`finish_barrier_update`] says, and the registry is no longer active.
pub fn configure_barrier<F: FnOnce() -> Result<Vec<(AccountId, AccountBlock)>, String>>(
    entries: &Vec<(String, PolicyKind)>,
    active: &mut Vec<u64>,
    identity: u64,
    blocked: &mut BlockedAccounts,
    name: &str,
    expected: PolicyKind,
    update: F,
) -> (r: Result<Vec<AccountBlockOutcome>, ConfigureError>)
    requires
        old(blocked).wf(),
        call_requires(update, ()),
    ensures
        final(blocked).wf(),
        final(active)@ == old(active)@,
        barrier_retuned(entries@, old(active)@, identity, name@, expected, update, old(blocked)@, r, final(blocked)@),
{
    let ghost start = active@;
    let _index = begin_configuration(entries, active, identity, name, expected)?;
    let outcome = update();
    let r = finish_barrier_update(blocked, name, outcome);
    let ghost entered = active@;
    leave_configuration(active, identity);
    proof {
        assert(entered == start.push(identity));
        assert(entered.contains(identity)) by {
            assert(entered[start.len() as int] == identity);
        }
        let p = choose|p: int|
            {
                &&& 0 <= p < entered.len()
                &&& entered[p] == identity
                &&& forall|k: int| p < k < entered.len() ==> entered[k] != identity
                &&& active@ == entered.update(p, entered.last()).drop_last()
            };
        law_enter_then_leave_restores(start, identity, active@, p);
    }
    r
}

/// Retunes the configurable policy named `name` whose update reports nothing
/// (rate limit, order-size limit, PnL-bounds kill switch): the policy is found and
/// the configuration entered as [`begin_configuration`] does, and an error there
/// leaves `update` uncalled; otherwise `update` retunes the settings, its refusal
/// becomes a validation error, and the registry is no longer active.
pub fn configure_settings<F: FnOnce() -> Result<(), String>>(
    entries: &Vec<(String, PolicyKind)>,
    active: &mut Vec<u64>,
    identity: u64,
    name: &str,
    expected: PolicyKind,
    update: F,
) -> (r: Result<(), ConfigureError>)
    requires
        call_requires(update, ()),
    ensures
        final(active)@ == old(active)@,
        settings_retuned(entries@, old(active)@, identity, name@, expected, update, r),
{
    let ghost start = active@;
    let _index = begin_configuration(entries, active, identity, name, expected)?;
    let outcome = update();
    let r = finish_update(name, outcome);
    let ghost entered = active@;
    leave_configuration(active, identity);
    proof {
        assert(entered == start.push(identity));
        assert(entered.contains(identity)) by {
            assert(entered[start.len() as int] == identity);
        }
        let p = choose|p: int|
            {
                &&& 0 <= p < entered.len()
                &&& entered[p] == identity
                &&& forall|k: int| p < k < entered.len() ==> entered[k] != identity
                &&& active@ == entered.update(p, entered.last()).drop_last()
            };
        law_enter_then_leave_restores(start, identity, active@, p);
    }
    r
}

/// The accounts of `active` whose count of active holdings mutations is not zero,
/// in order: an account whose marker went back to zero is no retune candidate.
pub open spec fn active_accounts(active: Seq<(AccountId, usize)>) -> Seq<AccountId>
    decreases active.len(),
{
    if active.len() == 0 {
        Seq::empty()
    } else if active.last().1 != 0 {
        active_accounts(active.drop_last()).push(active.last().0)
    } else {
        active_accounts(active.drop_last())
    }
}

/// The accounts with active holdings mutations, from the counters `active` (one
/// per account), in order; see [`active_accounts`].
pub fn active_holdings_accounts(active: &Vec<(AccountId, usize)>) -> (r: Vec<AccountId>)
    ensures
        r@ == active_accounts(active@),
{
    let mut out: Vec<AccountId> = Vec::new();
    let mut i: usize = 0;
    while i < active.len()
        invariant
            i <= active@.len(),
            out@ == active_accounts(active@.take(i as int)),
        decreases active@.len() - i,
    {
        proof {
            assert(active@.take(i + 1).drop_last() =~= active@.take(i as int));
        }
        let (account, count) = active[i];
        if count != 0 {
            out.push(account);
        }
        i = i + 1;
    }
    proof {
        assert(active@.take(i as int) =~= active@);
    }
    out
}

/// The configurable built-in policies of an engine, by name, and the identity of
/// their registry; retunes one policy at a time.
pub struct Configurator {
    entries: Vec<(String, PolicyKind)>,
    identity: u64,
}

impl Configurator {
    /// The configurable policies, by name, in registration order.
    pub closed spec fn spec_entries(&self) -> Seq<(String, PolicyKind)> {
        self.entries@
    }

    /// The identity of the registry.
    pub closed spec fn spec_identity(&self) -> u64 {
        self.identity
    }

    /// A configurator over `entries` for the registry `identity`.
    pub fn new(entries: Vec<(String, PolicyKind)>, identity: u64) -> (r: Configurator)
        ensures
            r.spec_entries() == entries@,
            r.spec_identity() == identity,
    {
        Configurator { entries, identity }
    }

    /// The configurable policies, by name.
    pub fn entries(&self) -> (r: &Vec<(String, PolicyKind)>)
        ensures
            r@ == self.spec_entries(),
    {
        &self.entries
    }

    /// The identity of the registry.
    pub fn identity(&self) -> (r: u64)
        ensures
            r == self.spec_identity(),
    {
        self.identity
    }

    /// Retunes the rate limit named `name` (see [`configure_settings`]).
    pub fn rate_limit<F: FnOnce() -> Result<(), String>>(&self, active: &mut Vec<u64>, name: &str, update: F) -> (r:
        Result<(), ConfigureError>)
        requires
            call_requires(update, ()),
        ensures
            final(active)@ == old(active)@,
            settings_retuned(
                self.spec_entries(),
                old(active)@,
                self.spec_identity(),
                name@,
                PolicyKind::RateLimit,
                update,
                r,
            ),
    {
        configure_settings(&self.entries, active, self.identity, name, PolicyKind::RateLimit, update)
    }

    /// Retunes the PnL-bounds kill switch named `name` (see [`configure_settings`]).
    pub fn pnl_bounds_killswitch<F: FnOnce() -> Result<(), String>>(
        &self,
        active: &mut Vec<u64>,
        name: &str,
        update: F,
    ) -> (r: Result<(), ConfigureError>)
        requires
            call_requires(update, ()),
        ensures
            final(active)@ == old(active)@,
            settings_retuned(
                self.spec_entries(),
                old(active)@,
                self.spec_identity(),
                name@,
                PolicyKind::PnlBoundsKillSwitch,
                update,
                r,
            ),
    {
        configure_settings(&self.entries, active, self.identity, name, PolicyKind::PnlBoundsKillSwitch, update)
    }

    /// Retunes the order-size limit named `name` (see [`configure_settings`]).
    pub fn order_size_limit<F: FnOnce() -> Result<(), String>>(
        &self,
        active: &mut Vec<u64>,
        name: &str,
        update: F,
    ) -> (r: Result<(), ConfigureError>)
        requires
            call_requires(update, ()),
        ensures
            final(active)@ == old(active)@,
            settings_retuned(
                self.spec_entries(),
                old(active)@,
                self.spec_identity(),
                name@,
                PolicyKind::OrderSizeLimit,
                update,
                r,
            ),
    {
        configure_settings(&self.entries, active, self.identity, name, PolicyKind::OrderSizeLimit, update)
    }

    /// Force-sets the accumulated P&L of the PnL-bounds kill switch named `name`:
    /// an unknown policy or one of another kind is refused, exactly on those
    /// inputs, and `apply` is not called; otherwise `apply` sets it. No
    /// configuration is entered.
    pub fn set_account_pnl<F: FnOnce()>(&self, name: &str, apply: F) -> (r: Result<(), ConfigureError>)
        requires
            call_requires(apply, ()),
        ensures
            (r is Ok) <==> named_with_kind(self.spec_entries(), name@, PolicyKind::PnlBoundsKillSwitch),
            (r matches Err(ConfigureError::PolicyTypeMismatch { .. })) <==> named_with_other_kind(
                self.spec_entries(),
                name@,
                PolicyKind::PnlBoundsKillSwitch,
            ),
            (r matches Err(ConfigureError::UnknownPolicy { .. })) <==> unnamed_before(
                self.spec_entries(),
                name@,
                self.spec_entries().len() as int,
            ),
            r is Ok ==> call_ensures(apply, (), ()),
    {
        let _index = lookup_policy(&self.entries, name, PolicyKind::PnlBoundsKillSwitch)?;
        apply();
        Ok(())
    }
}

} // verus!
