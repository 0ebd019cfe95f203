//! Engine-level errors and the bookkeeping the pre-trade pipeline does between
//! policy calls: policy-name uniqueness at build time, merging of reject lists,
//! the fatal subset of drop-copy rejects, and the accumulation of what policies
//! report for an order or an account-adjustment batch.
use vstd::prelude::*;
use crate::account_control::{
    BlockedView, after_block_account, after_block_all_with_cause, after_pre_trade_block, after_report_block,
    after_unblock_all, is_mutation_finalizer_block, AccountBlockHandle, BlockedAccounts,
};
use crate::account_outcome::{
    AccountAdjustmentBatchResult, AccountAdjustmentOutcome, AccountOutcomeEntry, AccountPnlOutcome,
};
use crate::mutation::{joined, MutationFailureScope, MutationRollbackResult};
use crate::param::AccountId;
use crate::request_trait::{account_of, read_account, reads_account, HasAccountId};
use crate::param::Price;
use crate::pretrade::{
    DEFAULT_POLICY_GROUP_RAW, block_of_reject, is_evaluation_failure_code, rejects_text, AccountBlock, PolicyAccountAdjustmentResult,
    PolicyGroupId, PolicyPreTradeResult, PostTradeResult, PreTradeLock, Reject, RejectCode,
    RejectScope, Rejects, RequestFieldAccessError,
};
use crate::text::{decimal, decimal_text};

verus! {

// ─── Build errors ───────────────────────────────────────────────────────────

/// Error returned when an engine cannot be built.
#[derive(Clone, Debug, PartialEq, Eq)]
pub enum EngineBuildError {
    /// Two registered policies share a name.
    DuplicatePolicyName {
        /// The repeated name.
        name: String,
    },
    /// Two registered policies share a policy group other than the default one.
    DuplicatePolicyGroupId {
        /// The repeated group.
        policy_group_id: PolicyGroupId,
    },
}

impl EngineBuildError {
    /// Human-readable description: `duplicate policy name: <name>`.
    pub fn message(&self) -> (r: String)
        ensures
            r@ == self.spec_message(),
    {
        match self {
            EngineBuildError::DuplicatePolicyName { name } => {
                let mut out = "duplicate policy name: ".to_owned();
                out.append(name.as_str());
                out
            },
            EngineBuildError::DuplicatePolicyGroupId { policy_group_id } => {
                let mut out = "duplicate policy group id: ".to_owned();
                let id = decimal_text(policy_group_id.0 as u64);
                out.append(id.as_str());
                out
            },
        }
    }

    /// The description text.
    pub open spec fn spec_message(self) -> Seq<char> {
        match self {
            EngineBuildError::DuplicatePolicyName { name } => "duplicate policy name: "@ + name@,
            EngineBuildError::DuplicatePolicyGroupId { policy_group_id } => "duplicate policy group id: "@
                + decimal(policy_group_id.0 as nat),
        }
    }
}

/// The texts of `names`.
pub open spec fn name_texts(names: Seq<String>) -> Seq<Seq<char>> {
    names.map_values(|n: String| n@)
}

/// Whether `names[j]` repeats an earlier name.
pub open spec fn repeats_earlier(names: Seq<Seq<char>>, j: int) -> bool {
    exists|i: int| 0 <= i < j && names[i] == names[j]
}

/// Whether no name of `names` repeats an earlier one.
pub open spec fn all_distinct(names: Seq<Seq<char>>) -> bool {
    forall|j: int| 0 <= j < names.len() ==> !#[trigger] repeats_earlier(names, j)
}

/// Whether `j` is the first position whose name repeats an earlier one.
pub open spec fn is_first_repeat(names: Seq<Seq<char>>, j: int) -> bool {
    &&& 0 <= j < names.len()
    &&& repeats_earlier(names, j)
    &&& forall|k: int| 0 <= k < j ==> !#[trigger] repeats_earlier(names, k)
}

/// Checks that policy names are unique across every registered policy. On a
/// repeat, the error names the first name that repeats an earlier one.
pub fn ensure_unique_policy_names(names: &Vec<String>) -> (r: Result<(), EngineBuildError>)
    ensures
        r is Ok <==> all_distinct(name_texts(names@)),
        r is Err ==> r matches Err(EngineBuildError::DuplicatePolicyName { .. }),
        r matches Err(EngineBuildError::DuplicatePolicyName { name }) ==> exists|j: int|
            is_first_repeat(name_texts(names@), j) && name@ == names@[j]@,
{
    let ghost texts = name_texts(names@);
    let mut j: usize = 0;
    while j < names.len()
        invariant
            j <= names@.len(),
            texts == name_texts(names@),
            texts.len() == names@.len(),
            forall|k: int| 0 <= k < j ==> !#[trigger] repeats_earlier(texts, k),
        decreases names@.len() - j,
    {
        let mut i: usize = 0;
        while i < j
            invariant
                i <= j < names@.len(),
                texts == name_texts(names@),
                texts.len() == names@.len(),
                forall|k: int| 0 <= k < j ==> !#[trigger] repeats_earlier(texts, k),
                forall|h: int| 0 <= h < i ==> texts[h] != texts[j as int],
            decreases j - i,
        {
            if names[j] == names[i] {
                proof {
                    assert(texts[i as int] == names@[i as int]@);
                    assert(texts[j as int] == names@[j as int]@);
                    assert(repeats_earlier(texts, j as int));
                    assert(is_first_repeat(texts, j as int));
                }
                return Err(EngineBuildError::DuplicatePolicyName { name: names[j].clone() });
            }
            i = i + 1;
        }
        proof {
            assert(!repeats_earlier(texts, j as int));
        }
        j = j + 1;
    }
    Ok(())
}

/// Whether `ids[j]` is a non-default group tag that repeats an earlier one.
pub open spec fn group_repeats_earlier(ids: Seq<PolicyGroupId>, j: int) -> bool {
    ids[j].0 != DEFAULT_POLICY_GROUP_RAW && exists|i: int| 0 <= i < j && ids[i] == ids[j]
}

/// Whether no non-default group tag of `ids` repeats an earlier one.
pub open spec fn groups_unique(ids: Seq<PolicyGroupId>) -> bool {
    forall|j: int| 0 <= j < ids.len() ==> !#[trigger] group_repeats_earlier(ids, j)
}

/// Checks that no two policies share a policy group other than the default one
/// (any number of policies may stay in the default group). On a repeat, the error
/// names the first group that repeats an earlier one.
pub fn ensure_unique_policy_group_ids(ids: &Vec<PolicyGroupId>) -> (r: Result<(), EngineBuildError>)
    ensures
        r is Ok <==> groups_unique(ids@),
        r is Err ==> exists|j: int|
            {
                &&& 0 <= j < ids@.len()
                &&& #[trigger] group_repeats_earlier(ids@, j)
                &&& forall|k: int| 0 <= k < j ==> !#[trigger] group_repeats_earlier(ids@, k)
                &&& r == Err::<(), EngineBuildError>(
                    EngineBuildError::DuplicatePolicyGroupId { policy_group_id: ids@[j] },
                )
            },
{
    let mut j: usize = 0;
    while j < ids.len()
        invariant
            j <= ids@.len(),
            forall|k: int| 0 <= k < j ==> !#[trigger] group_repeats_earlier(ids@, k),
        decreases ids@.len() - j,
    {
        if ids[j].0 != DEFAULT_POLICY_GROUP_RAW {
            let mut i: usize = 0;
            while i < j
                invariant
                    i <= j < ids@.len(),
                    forall|k: int| 0 <= k < j ==> !#[trigger] group_repeats_earlier(ids@, k),
                    forall|h: int| 0 <= h < i ==> ids@[h] != ids@[j as int],
                    ids@[j as int].0 != DEFAULT_POLICY_GROUP_RAW,
                decreases j - i,
            {
                if ids[i].0 == ids[j].0 {
                    proof {
                        assert(ids@[i as int] == ids@[j as int]);
                        assert(ids@[j as int].0 != DEFAULT_POLICY_GROUP_RAW);
                        assert(exists|h: int| 0 <= h < j && ids@[h] == ids@[j as int]);
                        assert(group_repeats_earlier(ids@, j as int));
                    }
                    return Err(EngineBuildError::DuplicatePolicyGroupId { policy_group_id: ids[j] });
                }
                i = i + 1;
            }
        }
        proof {
            assert(!group_repeats_earlier(ids@, j as int));
        }
        j = j + 1;
    }
    Ok(())
}

// ─── Batch and configuration errors ─────────────────────────────────────────

/// Error returned when an account-adjustment batch is rejected.
#[derive(Clone, Debug, PartialEq, Eq)]
pub struct AccountAdjustmentBatchError {
    /// Rejects produced by the policy.
    pub rejects: Rejects,
    /// Zero-based index of the failing adjustment.
    pub failed_adjustment_index: usize,
}

impl AccountAdjustmentBatchError {
    /// Human-readable description:
    /// `account adjustment batch rejected at index <i>: <rejects>`.
    pub fn message(&self) -> (r: String)
        ensures
            r@ == "account adjustment batch rejected at index "@ + decimal(
                self.failed_adjustment_index as nat,
            ) + ": "@ + rejects_text(self.rejects@),
    {
        let mut out = "account adjustment batch rejected at index ".to_owned();
        let index = decimal_text(self.failed_adjustment_index as u64);
        out.append(index.as_str());
        out.append(": ");
        let rejects = self.rejects.message();
        out.append(rejects.as_str());
        out
    }
}

/// Error returned when a runtime reconfiguration fails; the live settings are
/// left unchanged.
#[derive(Clone, Debug, PartialEq, Eq)]
pub enum ConfigureError {
    /// No registered policy carries the requested name.
    UnknownPolicy {
        /// Requested policy name.
        name: String,
    },
    /// The policy's settings type differs from the one the call targets.
    PolicyTypeMismatch {
        /// Requested policy name.
        name: String,
        /// Settings type the call expected.
        expected: &'static str,
        /// Settings type actually registered.
        found: &'static str,
    },
    /// The update was rejected; the prior value still applies.
    Validation {
        /// Requested policy name.
        name: String,
        /// Rendered error of the update.
        message: String,
    },
    /// A configuration call was issued from within another configuration callback.
    NestedConfiguration,
}

impl ConfigureError {
    /// The description text of each variant.
    pub open spec fn spec_message(self) -> Seq<char> {
        match self {
            ConfigureError::UnknownPolicy { name } => "no configurable policy named "@ + name@,
            ConfigureError::PolicyTypeMismatch { name, expected, found } => "policy "@ + name@
                + " has settings type "@ + found@ + ", not "@ + expected@,
            ConfigureError::Validation { name, message } => "policy "@ + name@
                + " rejected the update: "@ + message@,
            ConfigureError::NestedConfiguration =>
                "configuration is not reentrant: cannot configure from within another configuration callback on the same thread"@,
        }
    }

    /// Human-readable description.
    pub fn message(&self) -> (r: String)
        ensures
            r@ == self.spec_message(),
    {
        match self {
            ConfigureError::UnknownPolicy { name } => {
                let mut out = "no configurable policy named ".to_owned();
                out.append(name.as_str());
                out
            },
            ConfigureError::PolicyTypeMismatch { name, expected, found } => {
                let mut out = "policy ".to_owned();
                out.append(name.as_str());
                out.append(" has settings type ");
                out.append(found);
                out.append(", not ");
                out.append(expected);
                out
            },
            ConfigureError::Validation { name, message } => {
                let mut out = "policy ".to_owned();
                out.append(name.as_str());
                out.append(" rejected the update: ");
                out.append(message.as_str());
                out
            },
            ConfigureError::NestedConfiguration => {
                "configuration is not reentrant: cannot configure from within another configuration callback on the same thread".to_owned()
            },
        }
    }
}


// ─── Reject lists ───────────────────────────────────────────────────────────

/// The rejects of `lists`, list after list.
pub open spec fn lists_items(lists: Seq<Rejects>) -> Seq<Reject>
    decreases lists.len(),
{
    if lists.len() == 0 {
        Seq::empty()
    } else {
        lists_items(lists.drop_last()) + lists.last()@
    }
}

/// Merges per-policy reject lists into one, keeping policy order. `len` is the
/// total number of rejects collected; when it is zero there is nothing to report.
pub fn merge_reject_lists(lists: Vec<Rejects>, len: usize) -> (r: Option<Rejects>)
    ensures
        len == 0 ==> r is None,
        len > 0 ==> (r matches Some(m) && m@ == lists_items(lists@)),
{
    if len == 0 {
        return None;
    }
    let mut out: Vec<Reject> = Vec::with_capacity(len);
    let mut i: usize = 0;
    while i < lists.len()
        invariant
            i <= lists@.len(),
            out@ == lists_items(lists@.take(i as int)),
        decreases lists@.len() - i,
    {
        let list = &lists[i];
        let ghost before = out@;
        let mut k: usize = 0;
        while k < list.items.len()
            invariant
                k <= list@.len(),
                out@ == before + list@.take(k as int),
            decreases list@.len() - k,
        {
            out.push(list.items[k].duplicate());
            proof {
                assert(list@.take(k + 1) =~= list@.take(k as int).push(list@[k as int]));
            }
            k = k + 1;
        }
        proof {
            assert(list@.take(list@.len() as int) =~= list@);
            assert(lists@.take(i + 1).drop_last() =~= lists@.take(i as int));
        }
        i = i + 1;
    }
    proof {
        assert(lists@.take(lists@.len() as int) =~= lists@);
    }
    Some(Rejects::new(out))
}

/// The rejects of `items` whose code reports a failed evaluation, in order.
pub open spec fn fatal_of(items: Seq<Reject>) -> Seq<Reject>
    decreases items.len(),
{
    if items.len() == 0 {
        Seq::empty()
    } else if is_evaluation_failure_code(items.last().code) {
        fatal_of(items.drop_last()).push(items.last())
    } else {
        fatal_of(items.drop_last())
    }
}

/// The part of a drop-copy verdict that stops the drop copy: the rejects that
/// report a failed evaluation. Business rejects do not stop a drop copy, which
/// records what already happened at the venue.
pub fn fatal_drop_copy_rejects(rejects: Option<Rejects>) -> (r: Option<Rejects>)
    ensures
        rejects is None ==> r is None,
        rejects matches Some(rs) ==> (fatal_of(rs@).len() == 0 ==> r is None),
        rejects matches Some(rs) ==> (fatal_of(rs@).len() > 0 ==> (r matches Some(f) && f@
            == fatal_of(rs@))),
{
    let rs = match rejects {
        None => return None,
        Some(rs) => rs,
    };
    let mut fatal: Vec<Reject> = Vec::new();
    let mut i: usize = 0;
    while i < rs.items.len()
        invariant
            i <= rs@.len(),
            fatal@ == fatal_of(rs@.take(i as int)),
        decreases rs@.len() - i,
    {
        if rs.items[i].code.is_evaluation_failure() {
            fatal.push(rs.items[i].duplicate());
        }
        proof {
            assert(rs@.take(i + 1).drop_last() =~= rs@.take(i as int));
        }
        i = i + 1;
    }
    proof {
        assert(rs@.take(rs@.len() as int) =~= rs@);
    }
    if fatal.len() == 0 {
        None
    } else {
        Some(Rejects::new(fatal))
    }
}

/// Whether `r` is the reject given to a drop copy whose account cannot be read.
pub open spec fn is_unreadable_account_reject(r: Reject) -> bool {
    &&& r.policy@ == "Engine"@
    &&& r.scope == RejectScope::Order
    &&& r.code == RejectCode::MissingRequiredField
    &&& r.reason@ == "drop-copy requires a readable account ID"@
    &&& r.details@ == "the account ID routes the drop-copy pipeline and its account control"@
}

/// Rejects for a drop copy that carries no readable account: the account routes
/// the drop-copy pipeline, so nothing can run without it.
pub fn new_drop_copy_unreadable_account_rejects() -> (r: Rejects)
    ensures
        r@.len() == 1,
        is_unreadable_account_reject(r@[0]),
{
    Rejects::single(
        Reject::new(
            "Engine",
            RejectScope::Order,
            RejectCode::MissingRequiredField,
            "drop-copy requires a readable account ID",
            "the account ID routes the drop-copy pipeline and its account control",
        ),
    )
}

/// Whether `r` reports a failed mutation callback with `details`.
pub open spec fn is_callback_failure_reject(r: Reject, details: Seq<char>) -> bool {
    &&& r.policy@ == "Engine"@
    &&& r.scope == RejectScope::Order
    &&& r.code == RejectCode::SystemUnavailable
    &&& r.reason@ == "mutation callback failed"@
    &&& r.details@ == details
}

/// Rejects reporting that a mutation callback of a drop copy failed.
pub fn drop_copy_mutation_callback_rejects(details: String) -> (r: Rejects)
    ensures
        r@.len() == 1,
        is_callback_failure_reject(r@[0], details@),
{
    Rejects::single(
        Reject::new(
            "Engine",
            RejectScope::Order,
            RejectCode::SystemUnavailable,
            "mutation callback failed",
            details.as_str(),
        ),
    )
}

/// Appends the callback-failure reject to a drop-copy verdict.
pub fn append_drop_copy_mutation_callback_rejects(rejects: Rejects, details: String) -> (r: Rejects)
    ensures
        r@.len() == rejects@.len() + 1,
        r@.take(rejects@.len() as int) == rejects@,
        is_callback_failure_reject(r@.last(), details@),
{
    let mut items = rejects.into_vec();
    let extra = drop_copy_mutation_callback_rejects(details);
    let mut extra_items = extra.into_vec();
    let ghost first = items@;
    items.append(&mut extra_items);
    proof {
        assert(items@.take(first.len() as int) =~= first);
    }
    Rejects::new(items)
}

// ─── Policy results ─────────────────────────────────────────────────────────

/// `entries` tagged with the policy group that produced them.
pub open spec fn tagged(entries: Seq<AccountOutcomeEntry>, group: PolicyGroupId) -> Seq<
    AccountAdjustmentOutcome,
> {
    entries.map_values(|e: AccountOutcomeEntry| AccountAdjustmentOutcome { policy_group_id: group, entry: e })
}

/// Moves `entries` to the end of `outcomes`, tagged with `group`.
fn push_tagged(
    outcomes: &mut Vec<AccountAdjustmentOutcome>,
    entries: Vec<AccountOutcomeEntry>,
    group: PolicyGroupId,
)
    ensures
        final(outcomes)@ == old(outcomes)@ + tagged(entries@, group),
{
    let ghost all = entries@;
    let n: usize = entries.len();
    let mut rest = entries;
    let mut k: usize = 0;
    while rest.len() > 0
        invariant
            all.len() == n,
            k <= all.len(),
            rest@ == all.skip(k as int),
            outcomes@ == old(outcomes)@ + tagged(all.take(k as int), group),
        decreases rest@.len(),
    {
        let entry = rest.remove(0);
        proof {
            assert(entry == all[k as int]);
            assert(all.take(k + 1) =~= all.take(k as int).push(all[k as int]));
            assert(tagged(all.take(k + 1), group) =~= tagged(all.take(k as int), group).push(
                AccountAdjustmentOutcome { policy_group_id: group, entry },
            ));
            assert(rest@ =~= all.skip(k + 1));
        }
        outcomes.push(AccountAdjustmentOutcome { policy_group_id: group, entry });
        k = k + 1;
    }
    proof {
        assert(all.take(k as int) =~= all);
    }
}

/// Folds what one policy reported for an accepted order into the order's lock
/// and outcome list, tagging both with the policy's group.
pub fn append_pre_trade_policy_result(
    outcome: PolicyPreTradeResult,
    policy_group_id: PolicyGroupId,
    lock: &mut PreTradeLock,
    outcomes: &mut Vec<AccountAdjustmentOutcome>,
)
    ensures
        final(lock)@ == old(lock)@ + outcome.lock_prices@.map_values(
            |p: Price| (policy_group_id, p),
        ),
        final(outcomes)@ == old(outcomes)@ + tagged(outcome.account_adjustments@, policy_group_id),
{
    let PolicyPreTradeResult { account_adjustments, lock_prices } = outcome;
    lock.push_many(policy_group_id, lock_prices);
    push_tagged(outcomes, account_adjustments, policy_group_id);
}

/// Progress of an account-adjustment batch while its policies report, adjustment
/// by adjustment and policy by policy. The first reject ends the batch.
pub struct AccountAdjustmentBatch {
    /// Outcomes reported so far, in policy order.
    pub outcomes: Vec<AccountAdjustmentOutcome>,
    /// Account blocks reported so far, in policy order.
    pub account_blocks: Vec<AccountBlock>,
    /// The batch's rejection, once a policy rejected an adjustment.
    pub rejection: Option<AccountAdjustmentBatchError>,
}

impl AccountAdjustmentBatch {
    /// A batch nothing has been reported for.
    pub fn new() -> (r: AccountAdjustmentBatch)
        ensures
            r.outcomes@.len() == 0,
            r.account_blocks@.len() == 0,
            r.rejection is None,
    {
        AccountAdjustmentBatch { outcomes: Vec::new(), account_blocks: Vec::new(), rejection: None }
    }

    /// Whether a policy has rejected an adjustment of the batch.
    pub fn is_rejected(&self) -> (r: bool)
        ensures
            r == self.rejection is Some,
    {
        self.rejection.is_some()
    }

    /// Records the verdict of one policy on the adjustment at `index`: an accepted
    /// adjustment adds the policy's outcomes (tagged with its group) and blocks; a
    /// rejected one ends the batch with that reject and index.
    pub fn record(
        &mut self,
        index: usize,
        policy_group_id: PolicyGroupId,
        verdict: Result<PolicyAccountAdjustmentResult, Rejects>,
    )
        requires
            old(self).rejection is None,
        ensures
            verdict matches Ok(res) ==> {
                &&& final(self).outcomes@ == old(self).outcomes@ + tagged(
                    res.account_adjustments@,
                    policy_group_id,
                )
                &&& final(self).account_blocks@ == old(self).account_blocks@ + res.account_blocks@
                &&& final(self).rejection is None
            },
            verdict matches Err(rejects) ==> {
                &&& final(self).outcomes@ == old(self).outcomes@
                &&& final(self).account_blocks@ == old(self).account_blocks@
                &&& final(self).rejection == Some(
                    AccountAdjustmentBatchError { rejects, failed_adjustment_index: index },
                )
            },
    {
        match verdict {
            Ok(res) => {
                let PolicyAccountAdjustmentResult { account_adjustments, account_blocks } = res;
                let mut blocks = account_blocks;
                push_tagged(&mut self.outcomes, account_adjustments, policy_group_id);
                self.account_blocks.append(&mut blocks);
            },
            Err(rejects) => {
                self.rejection = Some(
                    AccountAdjustmentBatchError { rejects, failed_adjustment_index: index },
                );
            },
        }
    }

    /// The batch's answer: its rejection, or everything the policies reported.
    pub fn finish(self) -> (r: Result<AccountAdjustmentBatchResult, AccountAdjustmentBatchError>)
        ensures
            self.rejection matches Some(e) ==> r == Err::<AccountAdjustmentBatchResult, AccountAdjustmentBatchError>(e),
            self.rejection is None ==> (r matches Ok(res) && res.outcomes@ == self.outcomes@
                && res.account_blocks@ == self.account_blocks@),
    {
        match self.rejection {
            Some(e) => Err(e),
            None => Ok(
                AccountAdjustmentBatchResult {
                    outcomes: self.outcomes,
                    account_blocks: self.account_blocks,
                },
            ),
        }
    }
}


// ─── Pre-trade stages ───────────────────────────────────────────────────────

/// The first account-scoped reject of `items`, if any.
pub open spec fn first_account_scoped(items: Seq<Reject>) -> Option<Reject>
    decreases items.len(),
{
    if items.len() == 0 {
        None
    } else if items[0].scope == RejectScope::Account {
        Some(items[0])
    } else {
        first_account_scoped(items.skip(1))
    }
}

/// The account block a policy's rejects ask for: one stored with the
/// account-blocked code from their first account-scoped reject, if any.
pub open spec fn requested_block(items: Seq<Reject>) -> Option<AccountBlock> {
    match first_account_scoped(items) {
        Some(r) => Some(block_of_reject(r, RejectCode::AccountBlocked)),
        None => None,
    }
}

/// The first account block asked for by the reject lists `lists`, in order.
pub open spec fn first_requested(lists: Seq<Seq<Reject>>) -> Option<AccountBlock>
    decreases lists.len(),
{
    if lists.len() == 0 {
        None
    } else if requested_block(lists[0]) is Some {
        requested_block(lists[0])
    } else {
        first_requested(lists.skip(1))
    }
}

/// The stored block of a stage that held `block` after the refusing policies with
/// reject lists `lists` reported, one after another.
pub open spec fn stored_block_after(block: Option<AccountBlock>, lists: Seq<Seq<Reject>>) -> Option<
    AccountBlock,
>
    decreases lists.len(),
{
    if lists.len() == 0 {
        block
    } else {
        stored_block_after(
            if block is None {
                requested_block(lists[0])
            } else {
                block
            },
            lists.skip(1),
        )
    }
}

/// A stage reports the first account block any refusing policy asked for, and a
/// block once stored is never replaced by a later policy's.
pub proof fn law_stage_keeps_first_requested_block(block: Option<AccountBlock>, lists: Seq<Seq<Reject>>)
    ensures
        block is None ==> stored_block_after(block, lists) == first_requested(lists),
        block is Some ==> stored_block_after(block, lists) == block,
    decreases lists.len(),
{
    if lists.len() > 0 {
        if block is None {
            law_stage_keeps_first_requested_block(requested_block(lists[0]), lists.skip(1));
        } else {
            law_stage_keeps_first_requested_block(block, lists.skip(1));
        }
    }
}

/// Verdicts of the policies of one pre-trade stage, folded in policy order: the
/// reject lists, the first account block they ask for, the blocks a drop copy
/// records as it goes, the locked prices and the tagged outcomes.
pub struct PreTradeStage {
    /// Whether the order is a drop copy of an execution that already happened.
    pub drop_copy: bool,
    /// Reject lists of the refusing policies, in policy order.
    pub reject_lists: Vec<Rejects>,
    /// Number of rejects collected (saturating).
    pub rejects_len: usize,
    /// The first account block a refusing policy asked for.
    pub first_account_block: Option<AccountBlock>,
    /// Account blocks a drop copy records, one per refusing policy that asks.
    pub drop_copy_blocks: Vec<AccountBlock>,
    /// Prices locked by accepting policies.
    pub lock: PreTradeLock,
    /// Outcomes reported by accepting policies, tagged with their groups.
    pub outcomes: Vec<AccountAdjustmentOutcome>,
}

/// What a stage answers once every policy has reported.
pub struct PreTradeStageVerdict {
    /// All rejects, policy by policy; `None` when no policy refused.
    pub rejects: Option<Rejects>,
    /// The first account block a refusing policy asked for.
    pub account_block: Option<AccountBlock>,
    /// Account blocks a drop copy records.
    pub drop_copy_blocks: Vec<AccountBlock>,
    /// Prices locked by accepting policies.
    pub lock: PreTradeLock,
    /// Outcomes reported by accepting policies.
    pub outcomes: Vec<AccountAdjustmentOutcome>,
}

impl PreTradeStage {
    /// The reject count is zero exactly when no reject was collected.
    pub open spec fn wf(&self) -> bool {
        (self.rejects_len == 0) == (lists_items(self.reject_lists@).len() == 0)
    }

    /// A stage no policy has reported to yet.
    pub fn new(drop_copy: bool) -> (r: PreTradeStage)
        ensures
            r.wf(),
            r.drop_copy == drop_copy,
            r.reject_lists@.len() == 0,
            r.first_account_block is None,
            r.drop_copy_blocks@.len() == 0,
            r.lock@.len() == 0,
            r.outcomes@.len() == 0,
    {
        PreTradeStage {
            drop_copy,
            reject_lists: Vec::new(),
            rejects_len: 0,
            first_account_block: None,
            drop_copy_blocks: Vec::new(),
            lock: PreTradeLock::new(),
            outcomes: Vec::new(),
        }
    }

    /// Folds in the rejects of one refusing policy.
    fn record_rejects(&mut self, rejects: Rejects)
        requires
            old(self).wf(),
        ensures
            final(self).wf(),
            final(self).drop_copy == old(self).drop_copy,
            final(self).reject_lists@ == old(self).reject_lists@.push(rejects),
            final(self).first_account_block == (if old(self).first_account_block is None {
                requested_block(rejects@)
            } else {
                old(self).first_account_block
            }),
            final(self).drop_copy_blocks@ == (if old(self).drop_copy && requested_block(rejects@) is Some {
                old(self).drop_copy_blocks@.push(requested_block(rejects@).unwrap())
            } else {
                old(self).drop_copy_blocks@
            }),
            final(self).lock@ == old(self).lock@,
            final(self).outcomes@ == old(self).outcomes@,
    {
        let block = first_account_block_of(&rejects);
        match &block {
            Some(b) => {
                if self.drop_copy {
                    self.drop_copy_blocks.push(b.duplicate());
                }
            },
            None => {},
        }
        if self.first_account_block.is_none() {
            self.first_account_block = block;
        }
        self.rejects_len = self.rejects_len.saturating_add(rejects.len());
        let ghost before = self.reject_lists@;
        self.reject_lists.push(rejects);
        proof {
            assert(self.reject_lists@.drop_last() =~= before);
        }
    }

    /// Folds in the verdict of one start-stage policy.
    pub fn record_start_verdict(&mut self, verdict: Result<(), Rejects>)
        requires
            old(self).wf(),
        ensures
            final(self).wf(),
            final(self).drop_copy == old(self).drop_copy,
            final(self).lock@ == old(self).lock@,
            final(self).outcomes@ == old(self).outcomes@,
            verdict is Ok ==> *final(self) == *old(self),
            verdict matches Err(rejects) ==> {
                &&& final(self).reject_lists@ == old(self).reject_lists@.push(rejects)
                &&& final(self).first_account_block == (if old(self).first_account_block is None {
                    requested_block(rejects@)
                } else {
                    old(self).first_account_block
                })
                &&& final(self).drop_copy_blocks@ == (if old(self).drop_copy && requested_block(
                    rejects@,
                ) is Some {
                    old(self).drop_copy_blocks@.push(requested_block(rejects@).unwrap())
                } else {
                    old(self).drop_copy_blocks@
                })
            },
    {
        match verdict {
            Ok(()) => {},
            Err(rejects) => self.record_rejects(rejects),
        }
    }

    /// Folds in the verdict of one main-stage policy of group `policy_group_id`.
    /// An accepting policy's result goes into the lock and the outcomes. A refusing
    /// policy's rejects are collected; on a drop copy, the result it attached is
    /// kept too, unless one of its rejects reports a failed evaluation.
    pub fn record_main_verdict(
        &mut self,
        policy_group_id: PolicyGroupId,
        verdict: Result<Option<PolicyPreTradeResult>, (Rejects, Option<PolicyPreTradeResult>)>,
    )
        requires
            old(self).wf(),
        ensures
            final(self).wf(),
            final(self).drop_copy == old(self).drop_copy,
            verdict matches Ok(None) ==> *final(self) == *old(self),
            verdict matches Ok(Some(res)) ==> {
                &&& final(self).reject_lists@ == old(self).reject_lists@
                &&& final(self).first_account_block == old(self).first_account_block
                &&& final(self).drop_copy_blocks@ == old(self).drop_copy_blocks@
                &&& final(self).lock@ == old(self).lock@ + res.lock_prices@.map_values(
                    |p: Price| (policy_group_id, p),
                )
                &&& final(self).outcomes@ == old(self).outcomes@ + tagged(res.account_adjustments@, policy_group_id)
            },
            verdict matches Err((rejects, attached)) ==> {
                &&& final(self).reject_lists@ == old(self).reject_lists@.push(rejects)
                &&& final(self).first_account_block == (if old(self).first_account_block is None {
                    requested_block(rejects@)
                } else {
                    old(self).first_account_block
                })
                &&& final(self).drop_copy_blocks@ == (if old(self).drop_copy && requested_block(
                    rejects@,
                ) is Some {
                    old(self).drop_copy_blocks@.push(requested_block(rejects@).unwrap())
                } else {
                    old(self).drop_copy_blocks@
                })
                &&& (old(self).drop_copy && fatal_of(rejects@).len() == 0 && attached is Some) ==> {
                    &&& final(self).lock@ == old(self).lock@ + attached.unwrap().lock_prices@.map_values(
                        |p: Price| (policy_group_id, p),
                    )
                    &&& final(self).outcomes@ == old(self).outcomes@ + tagged(
                        attached.unwrap().account_adjustments@,
                        policy_group_id,
                    )
                }
                &&& !(old(self).drop_copy && fatal_of(rejects@).len() == 0 && attached is Some) ==> {
                    &&& final(self).lock@ == old(self).lock@
                    &&& final(self).outcomes@ == old(self).outcomes@
                }
            },
    {
        match verdict {
            Ok(None) => {},
            Ok(Some(result)) => {
                append_pre_trade_policy_result(result, policy_group_id, &mut self.lock, &mut self.outcomes);
            },
            Err((rejects, attached)) => {
                if self.drop_copy && !has_evaluation_failure(&rejects) {
                    match attached {
                        Some(result) => {
                            append_pre_trade_policy_result(
                                result,
                                policy_group_id,
                                &mut self.lock,
                                &mut self.outcomes,
                            );
                        },
                        None => {},
                    }
                }
                self.record_rejects(rejects);
            },
        }
    }

    /// What the stage answers: every reject in policy order (`None` when no
    /// policy refused), the first requested account block, the drop-copy blocks,
    /// the lock and the outcomes.
    pub fn finish(self) -> (r: PreTradeStageVerdict)
        requires
            self.wf(),
        ensures
            lists_items(self.reject_lists@).len() == 0 ==> r.rejects is None,
            lists_items(self.reject_lists@).len() > 0 ==> (r.rejects matches Some(m) && m@
                == lists_items(self.reject_lists@)),
            r.account_block == self.first_account_block,
            r.drop_copy_blocks@ == self.drop_copy_blocks@,
            r.lock@ == self.lock@,
            r.outcomes@ == self.outcomes@,
    {
        let PreTradeStage {
            drop_copy: _,
            reject_lists,
            rejects_len,
            first_account_block,
            drop_copy_blocks,
            lock,
            outcomes,
        } = self;
        let rejects = merge_reject_lists(reject_lists, rejects_len);
        PreTradeStageVerdict {
            rejects,
            account_block: first_account_block,
            drop_copy_blocks,
            lock,
            outcomes,
        }
    }
}

// ─── Stage folds ────────────────────────────────────────────────────────────

/// The verdict a main-stage policy answers: accepted (with or without a result),
/// or refused with rejects and, possibly, the result a drop copy keeps.
pub type MainVerdict = Result<Option<PolicyPreTradeResult>, (Rejects, Option<PolicyPreTradeResult>)>;

/// The reject lists of the refusing start-stage verdicts of `vs`, in order.
pub open spec fn start_reject_lists(vs: Seq<Result<(), Rejects>>) -> Seq<Rejects>
    decreases vs.len(),
{
    if vs.len() == 0 {
        Seq::empty()
    } else {
        let prior = start_reject_lists(vs.drop_last());
        match vs.last() {
            Err(rejects) => prior.push(rejects),
            Ok(_) => prior,
        }
    }
}

/// The reject lists of the refusing main-stage verdicts of `vs`, in order.
pub open spec fn main_reject_lists(vs: Seq<(PolicyGroupId, MainVerdict)>) -> Seq<Rejects>
    decreases vs.len(),
{
    if vs.len() == 0 {
        Seq::empty()
    } else {
        let prior = main_reject_lists(vs.drop_last());
        match vs.last().1 {
            Err((rejects, _)) => prior.push(rejects),
            Ok(_) => prior,
        }
    }
}

/// The first account block the reject lists `lists` ask for, list by list.
pub open spec fn first_block_of(lists: Seq<Rejects>) -> Option<AccountBlock>
    decreases lists.len(),
{
    if lists.len() == 0 {
        None
    } else if first_block_of(lists.drop_last()) is Some {
        first_block_of(lists.drop_last())
    } else {
        requested_block(lists.last()@)
    }
}

/// Every account block the reject lists `lists` ask for, one per list that asks.
pub open spec fn requested_blocks(lists: Seq<Rejects>) -> Seq<AccountBlock>
    decreases lists.len(),
{
    if lists.len() == 0 {
        Seq::empty()
    } else {
        let prior = requested_blocks(lists.drop_last());
        match requested_block(lists.last()@) {
            Some(b) => prior.push(b),
            None => prior,
        }
    }
}

/// The result a main-stage verdict contributes to the lock and outcomes: an
/// accepting policy's, or, on a drop copy, the one a refusing policy attached when
/// none of its rejects reports a failed evaluation.
pub open spec fn kept_result(drop_copy: bool, v: MainVerdict) -> Option<PolicyPreTradeResult> {
    match v {
        Ok(result) => result,
        Err((rejects, attached)) => if drop_copy && fatal_of(rejects@).len() == 0 {
            attached
        } else {
            None
        },
    }
}

/// The lock prices the main-stage verdicts `vs` contribute, tagged with their
/// policies' groups, in order.
pub open spec fn main_lock(drop_copy: bool, vs: Seq<(PolicyGroupId, MainVerdict)>) -> Seq<(PolicyGroupId, Price)>
    decreases vs.len(),
{
    if vs.len() == 0 {
        Seq::empty()
    } else {
        let g = vs.last().0;
        main_lock(drop_copy, vs.drop_last()) + match kept_result(drop_copy, vs.last().1) {
            Some(res) => res.lock_prices@.map_values(|p: Price| (g, p)),
            None => Seq::empty(),
        }
    }
}

/// The outcomes the main-stage verdicts `vs` contribute, tagged with their
/// policies' groups, in order.
pub open spec fn main_outcomes(drop_copy: bool, vs: Seq<(PolicyGroupId, MainVerdict)>) -> Seq<
    AccountAdjustmentOutcome,
>
    decreases vs.len(),
{
    if vs.len() == 0 {
        Seq::empty()
    } else {
        main_outcomes(drop_copy, vs.drop_last()) + match kept_result(drop_copy, vs.last().1) {
            Some(res) => tagged(res.account_adjustments@, vs.last().0),
            None => Seq::empty(),
        }
    }
}

/// Whether `r` is what a stage answers after its refusing policies reported the
/// reject lists `lists` and its accepting ones the `lock` and `outcomes`: all
/// rejects list after list (`None` when there are none), the first requested
/// account block, the blocks a drop copy records, the lock and the outcomes.
pub open spec fn verdict_is(
    r: PreTradeStageVerdict,
    lists: Seq<Rejects>,
    drop_copy: bool,
    lock: Seq<(PolicyGroupId, Price)>,
    outcomes: Seq<AccountAdjustmentOutcome>,
) -> bool {
    &&& lists_items(lists).len() == 0 ==> r.rejects is None
    &&& lists_items(lists).len() > 0 ==> (r.rejects matches Some(m) && m@ == lists_items(lists))
    &&& r.account_block == first_block_of(lists)
    &&& r.drop_copy_blocks@ == (if drop_copy {
        requested_blocks(lists)
    } else {
        Seq::<AccountBlock>::empty()
    })
    &&& r.lock@ == lock
    &&& r.outcomes@ == outcomes
}

/// Whether `r` is what a start stage answers once its policies answered `vs`, in
/// order.
pub open spec fn start_stage_answer(drop_copy: bool, vs: Seq<Result<(), Rejects>>, r: PreTradeStageVerdict) -> bool {
    verdict_is(r, start_reject_lists(vs), drop_copy, Seq::empty(), Seq::empty())
}

/// Whether `r` is what a main stage answers once its policies answered `vs` (each
/// with its group), in order.
pub open spec fn main_stage_answer(
    drop_copy: bool,
    vs: Seq<(PolicyGroupId, MainVerdict)>,
    r: PreTradeStageVerdict,
) -> bool {
    verdict_is(r, main_reject_lists(vs), drop_copy, main_lock(drop_copy, vs), main_outcomes(drop_copy, vs))
}

/// Whether `stage` holds the fold of refusing reject lists `lists` (and the given
/// lock and outcomes), from a new stage for a drop copy or not.
pub open spec fn stage_holds(
    stage: PreTradeStage,
    drop_copy: bool,
    lists: Seq<Rejects>,
    lock: Seq<(PolicyGroupId, Price)>,
    outcomes: Seq<AccountAdjustmentOutcome>,
) -> bool {
    &&& stage.wf()
    &&& stage.drop_copy == drop_copy
    &&& stage.reject_lists@ == lists
    &&& stage.first_account_block == first_block_of(lists)
    &&& stage.drop_copy_blocks@ == (if drop_copy {
        requested_blocks(lists)
    } else {
        Seq::<AccountBlock>::empty()
    })
    &&& stage.lock@ == lock
    &&& stage.outcomes@ == outcomes
}

/// The account block asked for by the first account-scoped reject of `rejects`.
fn first_account_block_of(rejects: &Rejects) -> (r: Option<AccountBlock>)
    ensures
        r == requested_block(rejects@),
{
    let mut i: usize = 0;
    proof {
        assert(rejects@.skip(0) =~= rejects@);
    }
    while i < rejects.items.len()
        invariant
            i <= rejects@.len(),
            first_account_scoped(rejects@) == first_account_scoped(rejects@.skip(i as int)),
        decreases rejects@.len() - i,
    {
        proof {
            assert(rejects@.skip(i as int)[0] == rejects@[i as int]);
            assert(rejects@.skip(i as int).skip(1) =~= rejects@.skip(i + 1));
        }
        if rejects.items[i].scope == RejectScope::Account {
            return Some(rejects.items[i].account_block_with_code(RejectCode::AccountBlocked));
        }
        i = i + 1;
    }
    proof {
        assert(rejects@.skip(i as int).len() == 0);
    }
    None
}

/// Whether a reject of `rejects` reports a failed evaluation.
pub fn has_evaluation_failure(rejects: &Rejects) -> (r: bool)
    ensures
        r == (fatal_of(rejects@).len() > 0),
{
    let mut i: usize = 0;
    while i < rejects.items.len()
        invariant
            i <= rejects@.len(),
            fatal_of(rejects@.take(i as int)).len() == 0,
        decreases rejects@.len() - i,
    {
        proof {
            assert(rejects@.take(i + 1).drop_last() =~= rejects@.take(i as int));
        }
        if rejects.items[i].code.is_evaluation_failure() {
            proof {
                lemma_fatal_of_prefix(rejects@, i as int + 1);
            }
            return true;
        }
        i = i + 1;
    }
    proof {
        assert(rejects@.take(rejects@.len() as int) =~= rejects@);
    }
    false
}

/// The fatal rejects of a prefix are a prefix of the fatal rejects.
proof fn lemma_fatal_of_prefix(items: Seq<Reject>, k: int)
    requires
        0 <= k <= items.len(),
    ensures
        fatal_of(items.take(k)).len() <= fatal_of(items).len(),
    decreases items.len() - k,
{
    if k < items.len() {
        lemma_fatal_of_prefix(items, k + 1);
        assert(items.take(k + 1).drop_last() =~= items.take(k));
    } else {
        assert(items.take(k) =~= items);
    }
}


// ─── Settling a refused drop copy ───────────────────────────────────────────

/// What a drop copy refused with `rejects` answers once its mutations were
/// rolled back with `rollback`: the rejects, followed by a callback-failure
/// reject carrying the rollback's failure texts when a rollback callback failed.
/// A failed callback also arms the kill switch for `account` on `handle`, with
/// the reach of the failure.
pub fn settle_refused_drop_copy(
    rejects: Rejects,
    rollback: MutationRollbackResult,
    handle: &mut AccountBlockHandle,
    account: AccountId,
) -> (r: Rejects)
    requires
        old(handle).wf(),
    ensures
        final(handle).wf(),
        rollback.failure.spec_scope() is None ==> r == rejects && final(handle)@ == old(handle)@,
        rollback.failure.spec_scope() is Some ==> {
            &&& r@.len() == rejects@.len() + 1
            &&& r@.take(rejects@.len() as int) == rejects@
            &&& is_callback_failure_reject(r@.last(), joined(rollback.failure.spec_details()))
            &&& exists|b: AccountBlock|
                is_mutation_finalizer_block(b) && final(handle)@ == match rollback.failure.spec_scope().unwrap() {
                    MutationFailureScope::Account => after_block_account(old(handle)@, account.0, b),
                    MutationFailureScope::Global => after_block_all_with_cause(old(handle)@, b),
                }
        },
{
    if rollback.callback_failed() {
        let details = rollback.callback_failure_details();
        match rollback.failure().scope() {
            Some(scope) => handle.record_mutation_failure(Some(account), scope),
            None => {},
        }
        append_drop_copy_mutation_callback_rejects(rejects, details)
    } else {
        rejects
    }
}

// ─── Settling a refused order ───────────────────────────────────────────────

/// The blocked set after a failed finalizer of a pipeline on `account` armed the
/// kill switch with `failure` (its reach and the finalizer block): the account for
/// an account-scoped failure, every account for a global one or when the account
/// is unknown. `None` (nothing failed) changes nothing.
pub open spec fn after_kill_switch(
    v: BlockedView,
    account: Option<AccountId>,
    failure: Option<(MutationFailureScope, AccountBlock)>,
) -> BlockedView {
    match failure {
        None => v,
        Some((MutationFailureScope::Account, b)) => match account {
            Some(a) => after_block_account(v, a.0, b),
            None => after_block_all_with_cause(v, b),
        },
        Some((MutationFailureScope::Global, b)) => after_block_all_with_cause(v, b),
    }
}

/// The blocked set after a refused order on `account` rolled back, arming the
/// kill switch with `failure` (its reach and the finalizer block) when a rollback
/// callback failed, and then recorded the account block its policies asked for
/// (if any) on that account.
pub open spec fn after_refused_order(
    v: BlockedView,
    account: Option<AccountId>,
    failure: Option<(MutationFailureScope, AccountBlock)>,
    requested: Option<AccountBlock>,
) -> BlockedView {
    let after_failure = after_kill_switch(v, account, failure);
    match requested {
        Some(b) => after_pre_trade_block(after_failure, account, b),
        None => after_failure,
    }
}

/// Settles an order on `account` its policies refused, once its mutations were
/// rolled back with `rollback`: a failed rollback callback arms the kill switch
/// for the account first, so its more severe cause wins the account; then the
/// account block the policies asked for is recorded on that account.
pub fn settle_refused_order_for(
    handle: &mut AccountBlockHandle,
    account: Option<AccountId>,
    rollback: &MutationRollbackResult,
    requested: Option<AccountBlock>,
)
    requires
        old(handle).wf(),
    ensures
        final(handle).wf(),
        rollback.failure.spec_scope() is None ==> final(handle)@ == after_refused_order(
            old(handle)@,
            account,
            None,
            requested,
        ),
        rollback.failure.spec_scope() is Some ==> exists|b: AccountBlock|
            is_mutation_finalizer_block(b) && final(handle)@ == #[trigger] after_refused_order(
                old(handle)@,
                account,
                Some((rollback.failure.spec_scope().unwrap(), b)),
                requested,
            ),
{
    let ghost before = handle@;
    match rollback.failure().scope() {
        Some(scope) => handle.record_mutation_failure(account, scope),
        None => {},
    }
    let ghost middle = handle@;
    match requested {
        Some(block) => match account {
            Some(id) => {
                handle.block_account(id, block);
            },
            None => {},
        },
        None => {},
    }
    proof {
        if rollback.failure.spec_scope() is Some {
            let b = choose|b: AccountBlock|
                is_mutation_finalizer_block(b) && middle == match (rollback.failure.spec_scope().unwrap(), account) {
                    (MutationFailureScope::Account, Some(a)) => after_block_account(before, a.0, b),
                    _ => after_block_all_with_cause(before, b),
                };
            assert(handle@ == after_refused_order(
                before,
                account,
                Some((rollback.failure.spec_scope().unwrap(), b)),
                requested,
            ));
        }
    }
}

/// Settles an order its policies refused, with the account read once from
/// `order` (see [`settle_refused_order_for`]).
pub fn settle_refused_order<O: HasAccountId>(
    handle: &mut AccountBlockHandle,
    order: &O,
    rollback: &MutationRollbackResult,
    requested: Option<AccountBlock>,
)
    requires
        old(handle).wf(),
    ensures
        final(handle).wf(),
        order_refusal_settled(*order, *rollback, requested, old(handle)@, final(handle)@),
{
    let account = read_account(order);
    settle_refused_order_for(handle, account, rollback, requested);
}

/// Whether `after` is the blocked set once an order refused by its policies was
/// settled from `before`, on the account read from `order`, after its rollback
/// answered `rollback` and its policies asked for `requested` (see
/// [`settle_refused_order_for`]).
pub open spec fn order_refusal_settled<O: HasAccountId>(
    order: O,
    rollback: MutationRollbackResult,
    requested: Option<AccountBlock>,
    before: BlockedView,
    after: BlockedView,
) -> bool {
    exists|account: Option<AccountId>|
        #[trigger] reads_account(order, account) && {
            &&& rollback.failure.spec_scope() is None ==> after == after_refused_order(before, account, None, requested)
            &&& rollback.failure.spec_scope() is Some ==> exists|b: AccountBlock|
                is_mutation_finalizer_block(b) && after == #[trigger] after_refused_order(
                    before,
                    account,
                    Some((rollback.failure.spec_scope().unwrap(), b)),
                    requested,
                )
        }
}

/// Whether every answer `order` can give for its account is `id`.
pub open spec fn always_reads<O: HasAccountId>(order: O, id: AccountId) -> bool {
    forall|res: Result<AccountId, RequestFieldAccessError>|
        #[trigger] call_ensures(O::account_id, (&order,), res) ==> res == Ok::<
            AccountId,
            RequestFieldAccessError,
        >(id)
}

// ─── Settling an execution report ───────────────────────────────────────────

/// The account blocks of the policy results `results`, in policy order.
pub open spec fn reported_blocks(results: Seq<Option<PostTradeResult>>) -> Seq<AccountBlock>
    decreases results.len(),
{
    if results.len() == 0 {
        Seq::empty()
    } else {
        reported_blocks(results.drop_last()) + match results.last() {
            Some(r) => r.account_blocks@,
            None => Seq::empty(),
        }
    }
}

/// The PnL outcomes of the policy results `results`, in policy order.
pub open spec fn reported_pnls(results: Seq<Option<PostTradeResult>>) -> Seq<AccountPnlOutcome>
    decreases results.len(),
{
    if results.len() == 0 {
        Seq::empty()
    } else {
        reported_pnls(results.drop_last()) + match results.last() {
            Some(r) => r.account_pnls@,
            None => Seq::empty(),
        }
    }
}

/// The balance and position outcomes of the policy results `results`, in policy
/// order.
pub open spec fn reported_adjustments(results: Seq<Option<PostTradeResult>>) -> Seq<AccountAdjustmentOutcome>
    decreases results.len(),
{
    if results.len() == 0 {
        Seq::empty()
    } else {
        reported_adjustments(results.drop_last()) + match results.last() {
            Some(r) => r.account_adjustments@,
            None => Seq::empty(),
        }
    }
}

/// Settles an execution report once every policy applied it (`None` for a
/// policy with nothing to report): everything reported is gathered in policy
/// order, and when a policy entered a blocked state, the first reported block
/// becomes the kill switch of the report's account `account` (of every account,
/// when the report gave none). What the policies already applied stays applied.
pub fn settle_execution_report_for(
    blocked: &mut BlockedAccounts,
    account: Option<AccountId>,
    results: Vec<Option<PostTradeResult>>,
) -> (r: PostTradeResult)
    requires
        old(blocked).wf(),
    ensures
        final(blocked).wf(),
        r.account_blocks@ == reported_blocks(results@),
        r.account_pnls@ == reported_pnls(results@),
        r.account_adjustments@ == reported_adjustments(results@),
        reported_blocks(results@).len() == 0 ==> final(blocked)@ == old(blocked)@,
        reported_blocks(results@).len() > 0 ==> final(blocked)@ == after_report_block(
            old(blocked)@,
            account,
            reported_blocks(results@)[0],
        ),
{
    let ghost all = results@;
    let n: usize = results.len();
    let mut rest = results;
    let mut out = PostTradeResult::new();
    let mut k: usize = 0;
    while rest.len() > 0
        invariant
            all.len() == n,
            k <= n,
            rest@ == all.skip(k as int),
            out.account_blocks@ == reported_blocks(all.take(k as int)),
            out.account_pnls@ == reported_pnls(all.take(k as int)),
            out.account_adjustments@ == reported_adjustments(all.take(k as int)),
        decreases rest@.len(),
    {
        let item = rest.remove(0);
        proof {
            assert(item == all[k as int]);
            assert(all.take(k + 1).drop_last() =~= all.take(k as int));
            assert(rest@ =~= all.skip(k + 1));
        }
        match item {
            Some(result) => {
                let PostTradeResult { account_blocks, account_pnls, account_adjustments } = result;
                let mut blocks = account_blocks;
                let mut pnls = account_pnls;
                let mut adjustments = account_adjustments;
                out.account_blocks.append(&mut blocks);
                out.account_pnls.append(&mut pnls);
                out.account_adjustments.append(&mut adjustments);
            },
            None => {
                proof {
                    assert(out.account_blocks@ =~= out.account_blocks@ + Seq::<AccountBlock>::empty());
                    assert(out.account_pnls@ =~= out.account_pnls@ + Seq::<AccountPnlOutcome>::empty());
                    assert(out.account_adjustments@ =~= out.account_adjustments@ + Seq::<
                        AccountAdjustmentOutcome,
                    >::empty());
                }
            },
        }
        k = k + 1;
    }
    proof {
        assert(all.take(k as int) =~= all);
    }
    if out.account_blocks.len() > 0 {
        let first = out.account_blocks[0].duplicate();
        blocked.record_report_block(account, first);
    }
    out
}

/// Settles an execution report, with the account read once from `report` (see
/// [`settle_execution_report_for`]).
pub fn settle_execution_report<R: HasAccountId>(
    blocked: &mut BlockedAccounts,
    report: &R,
    results: Vec<Option<PostTradeResult>>,
) -> (r: PostTradeResult)
    requires
        old(blocked).wf(),
    ensures
        final(blocked).wf(),
        execution_report_settled(*report, results@, old(blocked)@, r, final(blocked)@),
{
    let account = read_account(report);
    settle_execution_report_for(blocked, account, results)
}

/// Whether `r` and `after` are what settling `report` from the blocked set
/// `before` gives once the policies answered `results`: everything reported is
/// gathered in policy order; nothing changes when no block was reported, and
/// otherwise the first reported block becomes the kill switch of the account
/// read from the report (see [`settle_execution_report_for`]).
pub open spec fn execution_report_settled<R: HasAccountId>(
    report: R,
    results: Seq<Option<PostTradeResult>>,
    before: BlockedView,
    r: PostTradeResult,
    after: BlockedView,
) -> bool {
    &&& r.account_blocks@ == reported_blocks(results)
    &&& r.account_pnls@ == reported_pnls(results)
    &&& r.account_adjustments@ == reported_adjustments(results)
    &&& reported_blocks(results).len() == 0 ==> after == before
    &&& reported_blocks(results).len() > 0 ==> exists|account: Option<AccountId>|
        #[trigger] reads_account(report, account) && after == after_report_block(
            before,
            account,
            reported_blocks(results)[0],
        )
}

/// An execution report whose account reads as `id` blocks that account alone:
/// once settled with a reported block, `id` is blocked individually (keeping an
/// earlier cause, else the first reported block), every other account keeps its
/// state, and neither the engine-wide block nor any group block changes.
pub proof fn law_report_blocks_its_own_account<R: HasAccountId>(
    report: R,
    id: AccountId,
    results: Seq<Option<PostTradeResult>>,
    before: BlockedView,
    r: PostTradeResult,
    after: BlockedView,
)
    requires
        always_reads(report, id),
        reported_blocks(results).len() > 0,
        execution_report_settled(report, results, before, r, after),
    ensures
        after.accounts.contains_key(id.0),
        after.accounts[id.0] == (if before.accounts.contains_key(id.0) {
            before.accounts[id.0]
        } else {
            r.account_blocks@[0]
        }),
        forall|other: u64|
            other != id.0 ==> (#[trigger] after.accounts.contains_key(other) == before.accounts.contains_key(other)
                && (before.accounts.contains_key(other) ==> after.accounts[other] == before.accounts[other])),
        after.all == before.all,
        after.global == before.global,
        after.groups == before.groups,
{
    let account = choose|account: Option<AccountId>|
        #[trigger] reads_account(report, account) && after == after_report_block(
            before,
            account,
            reported_blocks(results)[0],
        );
    let res = choose|res: Result<AccountId, RequestFieldAccessError>|
        #[trigger] call_ensures(R::account_id, (&report,), res) && account == account_of(res);
    assert(res == Ok::<AccountId, RequestFieldAccessError>(id));
    assert(account == Some(id));
}

/// Whether `order` can never give its account.
pub open spec fn never_reads<O: HasAccountId>(order: O) -> bool {
    forall|res: Result<AccountId, RequestFieldAccessError>|
        #[trigger] call_ensures(O::account_id, (&order,), res) ==> res is Err
}

/// An execution report that gives no account and reports a block arms the
/// engine-wide block, and no account or group gets a block of its own.
pub proof fn law_unreadable_report_blocks_everything<R: HasAccountId>(
    report: R,
    results: Seq<Option<PostTradeResult>>,
    before: BlockedView,
    r: PostTradeResult,
    after: BlockedView,
)
    requires
        never_reads(report),
        reported_blocks(results).len() > 0,
        execution_report_settled(report, results, before, r, after),
    ensures
        after.all,
        after.accounts == before.accounts,
        after.groups == before.groups,
{
    let account = choose|account: Option<AccountId>|
        #[trigger] reads_account(report, account) && after == after_report_block(
            before,
            account,
            reported_blocks(results)[0],
        );
    let res = choose|res: Result<AccountId, RequestFieldAccessError>|
        #[trigger] call_ensures(R::account_id, (&report,), res) && account == account_of(res);
    assert(res is Err);
    assert(account is None);
}

/// An order whose account reads as `id` and whose policies asked for a block
/// keeps that account blocked individually once refused, whatever its rollback
/// did: `id` ends blocked, with its earlier cause if it had one, else with the
/// finalizer block when a rollback callback failed with account reach, else with
/// the requested block. A failure of global reach arms the engine-wide block on
/// top of that, and lifting the engine-wide block leaves `id` blocked.
pub proof fn law_refused_order_keeps_requested_block<O: HasAccountId>(
    order: O,
    id: AccountId,
    rollback: MutationRollbackResult,
    requested: AccountBlock,
    before: BlockedView,
    after: BlockedView,
)
    requires
        always_reads(order, id),
        order_refusal_settled(order, rollback, Some(requested), before, after),
    ensures
        after.accounts.contains_key(id.0),
        before.accounts.contains_key(id.0) ==> after.accounts[id.0] == before.accounts[id.0],
        (!before.accounts.contains_key(id.0) && !(rollback.failure.spec_scope() == Some(
            MutationFailureScope::Account,
        ))) ==> after.accounts[id.0] == requested,
        (!before.accounts.contains_key(id.0) && rollback.failure.spec_scope() == Some(
            MutationFailureScope::Account,
        )) ==> is_mutation_finalizer_block(after.accounts[id.0]),
        forall|other: u64|
            other != id.0 ==> (#[trigger] after.accounts.contains_key(other) == before.accounts.contains_key(other)
                && (before.accounts.contains_key(other) ==> after.accounts[other] == before.accounts[other])),
        after.all == (before.all || rollback.failure.spec_scope() == Some(MutationFailureScope::Global)),
        rollback.failure.spec_scope() == Some(MutationFailureScope::Global) ==> after.global is Some,
        after_unblock_all(after).accounts.contains_key(id.0),
{
    let account = choose|account: Option<AccountId>|
        #[trigger] reads_account(order, account) && {
            &&& rollback.failure.spec_scope() is None ==> after == after_refused_order(
                before,
                account,
                None,
                Some(requested),
            )
            &&& rollback.failure.spec_scope() is Some ==> exists|b: AccountBlock|
                is_mutation_finalizer_block(b) && after == #[trigger] after_refused_order(
                    before,
                    account,
                    Some((rollback.failure.spec_scope().unwrap(), b)),
                    Some(requested),
                )
        };
    let res = choose|res: Result<AccountId, RequestFieldAccessError>|
        #[trigger] call_ensures(O::account_id, (&order,), res) && account == account_of(res);
    assert(res == Ok::<AccountId, RequestFieldAccessError>(id));
    assert(account == Some(id));
    if rollback.failure.spec_scope() is Some {
        let b = choose|b: AccountBlock|
            is_mutation_finalizer_block(b) && after == #[trigger] after_refused_order(
                before,
                account,
                Some((rollback.failure.spec_scope().unwrap(), b)),
                Some(requested),
            );
        assert(after == after_refused_order(
            before,
            account,
            Some((rollback.failure.spec_scope().unwrap(), b)),
            Some(requested),
        ));
    }
}

} // verus!
