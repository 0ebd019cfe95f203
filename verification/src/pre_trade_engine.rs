//! The engine: its registered policies run once each, in registration order, in
//! every stage of a pre-trade request, a drop copy, a dry run, an execution report
//! and an account-adjustment batch. Between policy calls it folds their verdicts
//! into a stage, and once they have all reported it ends the pipeline with the
//! decisions of [`crate::pipeline`].
//!
//! Policies are user code, so what each one answers is not known; the contracts
//! say that the `i`-th verdict folded is one the `i`-th policy can answer
//! (`call_ensures` of its method on what it was handed), that the fold is exactly
//! the stage's, and what the pipeline then does.
use vstd::prelude::*;
use crate::account_control::{
    after_block_account, after_block_group, after_pre_trade_block, after_report_block, after_unblock_account,
    after_unblock_all, after_unblock_group, blocking_cause, nothing_blocked, rejects_for, AccountBlockError,
    AccountBlockHandle, BlockedAccounts, BlockedView,
};
use crate::account_groups::{register_outcome, registered, AccountGroupError, AccountGroups};
use crate::account_outcome::{AccountAdjustmentBatchResult, AccountAdjustmentOutcome};
use crate::configure::{
    account_state_forced, barrier_retuned, configure_barrier, force_account_state, AccountBlockOutcome, Configurator,
    PolicyKind,
};
use crate::engine::{
    all_distinct, ensure_unique_policy_group_ids, ensure_unique_policy_names, groups_unique,
    has_evaluation_failure, lists_items, main_stage_answer, name_texts, reported_adjustments, reported_blocks,
    reported_pnls, settle_execution_report_for, start_reject_lists, start_stage_answer, stage_holds, tagged,
    main_reject_lists, main_lock, main_outcomes, first_block_of, requested_blocks, kept_result,
    AccountAdjustmentBatch, AccountAdjustmentBatchError, ConfigureError, EngineBuildError, MainVerdict, PreTradeStage,
    PreTradeStageVerdict,
};
use crate::mutation::{
    commit_gives, rollback_gives, Mutation, MutationFailure, MutationFailureKillSwitch, MutationFailureScope,
    MutationRollbackResult, Mutations,
};
use crate::param::{AccountGroupId, AccountId, Price};
use crate::pipeline::{
    begin_pre_trade_request, drop_copy_account, drop_copy_settled, dry_run_report, fatal_part,
    finish_pre_trade_request, finish_start_stage, kill_switch_armed, refused_order_settled,
    settle_account_adjustment_batch, settle_drop_copy, DropCopyOutcome, PreTradeDryRunReport, ReservationParts,
};
use crate::pretrade::{
    AccountBlock, PolicyAccountAdjustmentResult, PolicyGroupId, PolicyPreTradeResult, PostTradeResult,
    RejectScope, Rejects,
};
use crate::request_trait::{read_account, reads_account, HasAccountId};

verus! {

/// A policy of the engine, implemented by the engine's users. Each method is one
/// point where the pipeline asks the policy for its verdict. A policy registers
/// the commit/rollback pairs of the tentative state it applies in the collector it
/// is handed, and hands the collector back.
pub trait PreTradePolicy {
    /// The orders the policy checks.
    type Order;
    /// The execution reports the policy applies.
    type ExecutionReport;
    /// The account adjustments the policy applies.
    type AccountAdjustment;

    /// The policy's name, unique within an engine.
    fn name(&self) -> String;

    /// The policy group whose lock prices and outcomes the policy reports.
    fn policy_group_id(&self) -> PolicyGroupId;

    /// Start-stage verdict on `order`.
    fn check_pre_trade_start(&self, order: &Self::Order) -> Result<(), Rejects>;

    /// Start-stage verdict on `order` with no side effect.
    fn check_pre_trade_start_dry_run(&self, order: &Self::Order) -> Result<(), Rejects>;

    /// Start-stage verdict on a drop copy `order`; the policy may register
    /// mutations, which the drop copy commits or rolls back with its others. By
    /// default, the ordinary start-stage verdict with nothing registered.
    fn check_drop_copy_start(&self, order: &Self::Order, mutations: Mutations) -> (Result<(), Rejects>, Mutations) {
        (self.check_pre_trade_start(order), mutations)
    }

    /// Main-stage verdict on `order`. A refusal may carry the result a drop copy
    /// keeps.
    fn perform_pre_trade_check(&self, order: &Self::Order, mutations: Mutations) -> (MainVerdict, Mutations);

    /// Main-stage verdict on `order` with no side effect; what it registers is
    /// dropped.
    fn perform_pre_trade_check_dry_run(&self, order: &Self::Order, mutations: Mutations) -> (
        MainVerdict,
        Mutations,
    );

    /// Applies an execution report; `None` when the policy has nothing to report.
    fn apply_execution_report(&self, report: &Self::ExecutionReport) -> Option<PostTradeResult>;

    /// Applies one account adjustment on `account`.
    fn apply_account_adjustment(
        &self,
        account: AccountId,
        adjustment: &Self::AccountAdjustment,
        mutations: Mutations,
    ) -> (Result<PolicyAccountAdjustmentResult, Rejects>, Mutations);
}

/// A pre-trade request that passed its start stage: the order and the account
/// read from it.
pub struct PreTradeRequest<O> {
    /// The order.
    pub order: O,
    /// The account read from the order (`None` when it could not be read).
    pub account: Option<AccountId>,
}

/// The engine: registered policies, the blocked set and the account groups.
pub struct Engine<P: PreTradePolicy> {
    policies: Vec<P>,
    blocked: BlockedAccounts,
    groups: AccountGroups,
}

// ─── What the policies answered ─────────────────────────────────────────────

/// Whether `vs` are start-stage verdicts the policies `policies` can answer to
/// `order`, one per policy, in registration order (the dry-run hook when
/// `dry_run`).
pub open spec fn start_answers<P: PreTradePolicy>(
    policies: Seq<P>,
    order: P::Order,
    dry_run: bool,
    vs: Seq<Result<(), Rejects>>,
) -> bool {
    &&& vs.len() == policies.len()
    &&& forall|i: int|
        0 <= i < vs.len() ==> (if dry_run {
            call_ensures(P::check_pre_trade_start_dry_run, (&policies[i], &order), #[trigger] vs[i])
        } else {
            call_ensures(P::check_pre_trade_start, (&policies[i], &order), vs[i])
        })
}

/// Whether a start stage over `policies` on `order` answered `v` from the
/// verdicts `vs`.
pub open spec fn start_run<P: PreTradePolicy>(
    policies: Seq<P>,
    order: P::Order,
    dry_run: bool,
    vs: Seq<Result<(), Rejects>>,
    v: PreTradeStageVerdict,
) -> bool {
    start_answers(policies, order, dry_run, vs) && start_stage_answer(false, vs, v)
}

/// Whether `vs` are start-stage verdicts the policies can answer to a drop copy
/// `order`, the collector going from `ms[i]` to `ms[i + 1]` through the `i`-th.
pub open spec fn drop_copy_start_answers<P: PreTradePolicy>(
    policies: Seq<P>,
    order: P::Order,
    vs: Seq<Result<(), Rejects>>,
    ms: Seq<Mutations>,
) -> bool {
    &&& vs.len() == policies.len()
    &&& ms.len() == vs.len() + 1
    &&& ms[0].items().len() == 0
    &&& forall|i: int|
        0 <= i < vs.len() ==> call_ensures(
            P::check_drop_copy_start,
            (&policies[i], &order, ms[i]),
            (#[trigger] vs[i], ms[i + 1]),
        )
}

/// Whether a drop copy's start stage over `policies` answered `v` from `vs`.
pub open spec fn drop_copy_start_run<P: PreTradePolicy>(
    policies: Seq<P>,
    order: P::Order,
    vs: Seq<Result<(), Rejects>>,
    ms: Seq<Mutations>,
    v: PreTradeStageVerdict,
) -> bool {
    drop_copy_start_answers(policies, order, vs, ms) && start_stage_answer(true, vs, v)
}

/// Whether `vs` are main-stage verdicts (each with its policy's group) the
/// policies can answer to `order`, one per policy, in registration order, the
/// collector going from `ms[i]` to `ms[i + 1]` through the `i`-th (the dry-run
/// hook when `dry_run`).
pub open spec fn main_answers<P: PreTradePolicy>(
    policies: Seq<P>,
    order: P::Order,
    dry_run: bool,
    vs: Seq<(PolicyGroupId, MainVerdict)>,
    ms: Seq<Mutations>,
) -> bool {
    &&& vs.len() == policies.len()
    &&& ms.len() == vs.len() + 1
    &&& ms[0].items().len() == 0
    &&& forall|i: int|
        0 <= i < vs.len() ==> {
            &&& call_ensures(P::policy_group_id, (&policies[i],), (#[trigger] vs[i]).0)
            &&& if dry_run {
                call_ensures(P::perform_pre_trade_check_dry_run, (&policies[i], &order, ms[i]), (vs[i].1, ms[i + 1]))
            } else {
                call_ensures(P::perform_pre_trade_check, (&policies[i], &order, ms[i]), (vs[i].1, ms[i + 1]))
            }
        }
}

/// Whether a main stage over `policies` on `order` answered `v` from `vs`.
pub open spec fn main_run<P: PreTradePolicy>(
    policies: Seq<P>,
    order: P::Order,
    drop_copy: bool,
    dry_run: bool,
    vs: Seq<(PolicyGroupId, MainVerdict)>,
    ms: Seq<Mutations>,
    v: PreTradeStageVerdict,
) -> bool {
    main_answers(policies, order, dry_run, vs, ms) && main_stage_answer(drop_copy, vs, v)
}

/// Whether two stage verdicts decide the same: the same rejects (by content), the
/// same account block, and the same drop-copy blocks, lock and outcomes.
pub open spec fn same_decision(a: PreTradeStageVerdict, b: PreTradeStageVerdict) -> bool {
    &&& (a.rejects is None) == (b.rejects is None)
    &&& a.rejects is Some ==> a.rejects.unwrap()@ == b.rejects.unwrap()@
    &&& a.account_block == b.account_block
    &&& a.drop_copy_blocks@ == b.drop_copy_blocks@
    &&& a.lock@ == b.lock@
    &&& a.outcomes@ == b.outcomes@
}

/// A dry run decides as the real pipeline does: when the policies' dry-run
/// start-stage hooks answer what their ordinary ones answer (`vs`), the dry-run
/// start stage folds to the decision of the real one, and when their dry-run
/// main-stage hooks answer what their ordinary ones answer (`ws`, whatever each
/// registers), so does the main stage.
pub proof fn law_dry_run_decides_as_real<P: PreTradePolicy>(
    policies: Seq<P>,
    order: P::Order,
    vs: Seq<Result<(), Rejects>>,
    dry_start: PreTradeStageVerdict,
    real_start: PreTradeStageVerdict,
    ws: Seq<(PolicyGroupId, MainVerdict)>,
    dry_ms: Seq<Mutations>,
    real_ms: Seq<Mutations>,
    dry_main: PreTradeStageVerdict,
    real_main: PreTradeStageVerdict,
)
    requires
        start_run(policies, order, true, vs, dry_start),
        start_run(policies, order, false, vs, real_start),
        main_run(policies, order, false, true, ws, dry_ms, dry_main),
        main_run(policies, order, false, false, ws, real_ms, real_main),
    ensures
        same_decision(dry_start, real_start),
        same_decision(dry_main, real_main),
{
}

// ─── How each pipeline ends ─────────────────────────────────────────────────

/// Whether `r` and `after` are how a start stage on `account` ends once its
/// policies answered `v`: refused with all its rejects and the requested account
/// block recorded, or accepted with the order and account and nothing changed.
pub open spec fn start_ended<O>(
    before: BlockedView,
    order: O,
    account: Option<AccountId>,
    v: PreTradeStageVerdict,
    r: Result<PreTradeRequest<O>, Rejects>,
    after: BlockedView,
) -> bool {
    &&& v.rejects matches Some(rs) ==> {
        &&& r == Err::<PreTradeRequest<O>, Rejects>(rs)
        &&& after == match v.account_block {
            Some(b) => after_pre_trade_block(before, account, b),
            None => before,
        }
    }
    &&& v.rejects is None ==> (r matches Ok(req) && req.order == order && req.account == account && after
        == before)
}

/// Whether `r` and `after` are how starting a pre-trade request for `order` on
/// `account` ends: a blocked account is refused with the blocked set's rejects
/// and nothing changed, before any policy runs; otherwise the start stage ends as
/// [`start_ended`] says for what the policies answered.
pub open spec fn start_settled<P: PreTradePolicy>(
    policies: Seq<P>,
    order: P::Order,
    before: BlockedView,
    groups: Map<u64, u32>,
    account: Option<AccountId>,
    r: Result<PreTradeRequest<P::Order>, Rejects>,
    after: BlockedView,
) -> bool {
    &&& blocking_cause(before, groups, account) is Some ==> (r matches Err(rs) && rejects_for(
        blocking_cause(before, groups, account).unwrap(),
        RejectScope::Order,
        rs@,
    ) && after == before)
    &&& blocking_cause(before, groups, account) is None ==> exists|
        vs: Seq<Result<(), Rejects>>,
        v: PreTradeStageVerdict,
    |
        #[trigger] start_run(policies, order, false, vs, v) && start_ended(before, order, account, v, r, after)
}

/// Whether `r` and `after` are how a pre-trade request on `account` ends once its
/// main stage answered `v` with mutations `items` (see `finish_pre_trade_request`).
pub open spec fn request_finished(
    before: BlockedView,
    account: Option<AccountId>,
    v: PreTradeStageVerdict,
    items: Seq<Mutation>,
    r: Result<ReservationParts, Rejects>,
    after: BlockedView,
) -> bool {
    &&& v.rejects matches Some(rs) ==> {
        &&& r == Err::<ReservationParts, Rejects>(rs)
        &&& exists|rb: MutationRollbackResult|
            rollback_gives(items, rb) && #[trigger] refused_order_settled(
                before,
                account,
                rb.failure.spec_scope(),
                v.account_block,
                after,
            )
    }
    &&& v.rejects is None ==> {
        &&& r matches Ok(p) && p.mutations.items() == items && p.kill_switch.armed()
            && p.kill_switch.account() == account && p.lock@ == v.lock@ && p.outcomes@ == v.outcomes@
        &&& after == before
    }
}

/// Whether `r` and `after` are how running the main stage of a request for `order`
/// on `account` ends: a blocked account is refused with the blocked set's rejects
/// and nothing changed, before any policy runs; otherwise the request ends as
/// [`request_finished`] says for what the policies answered and registered.
pub open spec fn execute_settled<P: PreTradePolicy>(
    policies: Seq<P>,
    order: P::Order,
    before: BlockedView,
    groups: Map<u64, u32>,
    account: Option<AccountId>,
    r: Result<ReservationParts, Rejects>,
    after: BlockedView,
) -> bool {
    &&& blocking_cause(before, groups, account) is Some ==> (r matches Err(rs) && rejects_for(
        blocking_cause(before, groups, account).unwrap(),
        RejectScope::Order,
        rs@,
    ) && after == before)
    &&& blocking_cause(before, groups, account) is None ==> exists|
        vs: Seq<(PolicyGroupId, MainVerdict)>,
        ms: Seq<Mutations>,
        v: PreTradeStageVerdict,
    |
        #[trigger] main_run(policies, order, false, false, vs, ms, v) && request_finished(
            before,
            account,
            v,
            ms.last().items(),
            r,
            after,
        )
}

/// Whether `r` is the report of a start-stage dry run for `order` on `account`: a
/// blocked account is reported refused with the blocked set's rejects; otherwise
/// the report carries what the policies' dry-run verdicts fold to (the verdict and
/// the block it would record), with an empty lock and no outcomes.
pub open spec fn start_dry_run_reported<P: PreTradePolicy>(
    policies: Seq<P>,
    order: P::Order,
    before: BlockedView,
    groups: Map<u64, u32>,
    account: Option<AccountId>,
    r: PreTradeDryRunReport,
) -> bool {
    &&& blocking_cause(before, groups, account) is Some ==> (r.rejects matches Some(rs) && rejects_for(
        blocking_cause(before, groups, account).unwrap(),
        RejectScope::Order,
        rs@,
    ) && r.account_block is None && r.lock@.len() == 0 && r.account_adjustments@.len() == 0)
    &&& blocking_cause(before, groups, account) is None ==> exists|
        vs: Seq<Result<(), Rejects>>,
        v: PreTradeStageVerdict,
    |
        #[trigger] start_run(policies, order, true, vs, v) && r.rejects == v.rejects && r.account_block
            == v.account_block && r.lock@.len() == 0 && r.account_adjustments@.len() == 0
}

/// Whether `r` is the report of a full dry run for `order` on `account`: as the
/// start-stage dry run while it refuses or the account is blocked (the main stage
/// does not run); otherwise what the policies' main-stage dry-run verdicts fold
/// to: verdict, lock, outcomes and block.
pub open spec fn dry_run_reported<P: PreTradePolicy>(
    policies: Seq<P>,
    order: P::Order,
    before: BlockedView,
    groups: Map<u64, u32>,
    account: Option<AccountId>,
    r: PreTradeDryRunReport,
) -> bool {
    &&& blocking_cause(before, groups, account) is Some ==> (r.rejects matches Some(rs) && rejects_for(
        blocking_cause(before, groups, account).unwrap(),
        RejectScope::Order,
        rs@,
    ) && r.account_block is None && r.lock@.len() == 0 && r.account_adjustments@.len() == 0)
    &&& blocking_cause(before, groups, account) is None ==> exists|
        vs: Seq<Result<(), Rejects>>,
        v: PreTradeStageVerdict,
    |
        #[trigger] start_run(policies, order, true, vs, v) && {
            &&& v.rejects is Some ==> (r.rejects == v.rejects && r.account_block == v.account_block && r.lock@.len()
                == 0 && r.account_adjustments@.len() == 0)
            &&& v.rejects is None ==> exists|
                ws: Seq<(PolicyGroupId, MainVerdict)>,
                ms: Seq<Mutations>,
                w: PreTradeStageVerdict,
            |
                #[trigger] main_run(policies, order, false, true, ws, ms, w) && r.rejects == w.rejects
                    && r.account_block == w.account_block && r.lock@ == w.lock@ && r.account_adjustments@
                    == w.outcomes@
        }
}

/// Whether `r` and `after` are how a drop copy for `order` on `account` ends:
/// one whose account cannot be read is refused before any policy runs, with
/// nothing changed; otherwise existing blocks play no part, and the drop copy
/// ends as [`drop_copy_settled`] says for what the policies answered and
/// registered (the main stage runs only when no start-stage reject reports a
/// failed evaluation).
pub open spec fn drop_copy_run<P: PreTradePolicy>(
    policies: Seq<P>,
    order: P::Order,
    before: BlockedView,
    groups: Map<u64, u32>,
    account: Option<AccountId>,
    r: Result<DropCopyOutcome, Rejects>,
    after: BlockedView,
) -> bool {
    &&& account is None ==> (r matches Err(rs) && rs@.len() == 1 && crate::engine::is_unreadable_account_reject(
        rs@[0],
    ) && after == before)
    &&& account matches Some(a) ==> exists|vs: Seq<Result<(), Rejects>>, sms: Seq<Mutations>, sv: PreTradeStageVerdict|
        #[trigger] drop_copy_start_run(policies, order, vs, sms, sv) && {
            &&& fatal_part(sv.rejects).len() > 0 ==> drop_copy_settled(
                before,
                groups,
                a,
                sv,
                sms.last().items(),
                None,
                r,
                after,
            )
            &&& fatal_part(sv.rejects).len() == 0 ==> exists|
                ws: Seq<(PolicyGroupId, MainVerdict)>,
                mms: Seq<Mutations>,
                mv: PreTradeStageVerdict,
            |
                #[trigger] main_run(policies, order, true, false, ws, mms, mv) && drop_copy_settled(
                    before,
                    groups,
                    a,
                    sv,
                    sms.last().items(),
                    Some((mv, mms.last().items())),
                    r,
                    after,
                )
        }
}

/// Whether `results` are answers the policies can give to `report`, one per
/// policy, in registration order.
pub open spec fn report_answers<P: PreTradePolicy>(
    policies: Seq<P>,
    report: P::ExecutionReport,
    results: Seq<Option<PostTradeResult>>,
) -> bool {
    &&& results.len() == policies.len()
    &&& forall|i: int|
        0 <= i < results.len() ==> call_ensures(P::apply_execution_report, (&policies[i], &report), #[trigger] results[i])
}

// ─── Account-adjustment batches ─────────────────────────────────────────────

/// One policy's verdict on one adjustment: the adjustment's index, the policy's
/// index, its group and its verdict.
pub type AdjustmentStep = (usize, usize, PolicyGroupId, Result<PolicyAccountAdjustmentResult, Rejects>);

/// The position after adjustment `e` and policy `p`, among `n` policies: the
/// next policy on the same adjustment, or the first policy on the next one.
pub open spec fn next_position(n: nat, e: int, p: int) -> (int, int) {
    if p + 1 < n {
        (e, p + 1)
    } else {
        (e + 1, 0)
    }
}

/// The position the step after `steps` takes.
pub open spec fn expected_position(steps: Seq<AdjustmentStep>, n: nat) -> (int, int) {
    if steps.len() == 0 {
        (0, 0)
    } else {
        next_position(n, steps.last().0 as int, steps.last().1 as int)
    }
}

/// Whether `steps` are verdicts the policies can answer on `adjustments` for
/// `account`, adjustment by adjustment and on each policy by policy, the collector
/// going from `ms[k]` to `ms[k + 1]` through the `k`-th, with only the last one
/// possibly a rejection.
pub open spec fn adjustment_chain<P: PreTradePolicy>(
    policies: Seq<P>,
    account: AccountId,
    adjustments: Seq<P::AccountAdjustment>,
    steps: Seq<AdjustmentStep>,
    ms: Seq<Mutations>,
) -> bool {
    &&& ms.len() == steps.len() + 1
    &&& ms[0].items().len() == 0
    &&& forall|k: int|
        0 <= k < steps.len() ==> {
            &&& (#[trigger] steps[k]).0 < adjustments.len()
            &&& steps[k].1 < policies.len()
            &&& call_ensures(P::policy_group_id, (&policies[steps[k].1 as int],), steps[k].2)
            &&& call_ensures(
                P::apply_account_adjustment,
                (&policies[steps[k].1 as int], account, &adjustments[steps[k].0 as int], ms[k]),
                (steps[k].3, ms[k + 1]),
            )
        }
    &&& forall|k: int|
        #![trigger steps[k]]
        0 <= k < steps.len() - 1 ==> (steps[k + 1].0 as int, steps[k + 1].1 as int) == next_position(
            policies.len(),
            steps[k].0 as int,
            steps[k].1 as int,
        )
    &&& steps.len() > 0 ==> steps[0].0 == 0 && steps[0].1 == 0
    &&& forall|k: int| #![trigger steps[k]] 0 <= k < steps.len() - 1 ==> steps[k].3 is Ok
}

/// Whether `steps` is a whole batch over `adjustments`: it stops at the first
/// rejection, or else every policy answered on every adjustment.
pub open spec fn adjustment_answers<P: PreTradePolicy>(
    policies: Seq<P>,
    account: AccountId,
    adjustments: Seq<P::AccountAdjustment>,
    steps: Seq<AdjustmentStep>,
    ms: Seq<Mutations>,
) -> bool {
    &&& adjustment_chain(policies, account, adjustments, steps, ms)
    &&& (policies.len() > 0 && (steps.len() == 0 || steps.last().3 is Ok)) ==> expected_position(
        steps,
        policies.len(),
    ) == (adjustments.len() as int, 0int)
}

/// The outcomes the accepted steps report, tagged with their policies' groups.
pub open spec fn steps_outcomes(steps: Seq<AdjustmentStep>) -> Seq<AccountAdjustmentOutcome>
    decreases steps.len(),
{
    if steps.len() == 0 {
        Seq::empty()
    } else {
        steps_outcomes(steps.drop_last()) + match steps.last().3 {
            Ok(res) => tagged(res.account_adjustments@, steps.last().2),
            Err(_) => Seq::empty(),
        }
    }
}

/// The account blocks the accepted steps report.
pub open spec fn steps_blocks(steps: Seq<AdjustmentStep>) -> Seq<AccountBlock>
    decreases steps.len(),
{
    if steps.len() == 0 {
        Seq::empty()
    } else {
        steps_blocks(steps.drop_last()) + match steps.last().3 {
            Ok(res) => res.account_blocks@,
            Err(_) => Seq::empty(),
        }
    }
}

/// The batch's rejection: the last step's rejects and adjustment index when it
/// rejected.
pub open spec fn steps_rejection(steps: Seq<AdjustmentStep>) -> Option<AccountAdjustmentBatchError> {
    if steps.len() > 0 && steps.last().3 is Err {
        Some(
            AccountAdjustmentBatchError {
                rejects: steps.last().3->Err_0,
                failed_adjustment_index: steps.last().0,
            },
        )
    } else {
        None
    }
}

/// Whether `r` and `after` are how an account-adjustment batch on `account` ends
/// once its policies reported into `batch` and registered mutations `items` (see
/// `settle_account_adjustment_batch`).
pub open spec fn batch_settled(
    before: BlockedView,
    account: AccountId,
    batch: AccountAdjustmentBatch,
    items: Seq<Mutation>,
    r: Result<AccountAdjustmentBatchResult, AccountAdjustmentBatchError>,
    after: BlockedView,
) -> bool {
    &&& batch.rejection matches Some(e) ==> {
        &&& r == Err::<AccountAdjustmentBatchResult, AccountAdjustmentBatchError>(e)
        &&& exists|rb: MutationRollbackResult|
            rollback_gives(items, rb) && #[trigger] kill_switch_armed(
                before,
                Some(account),
                rb.failure.spec_scope(),
                after,
            )
    }
    &&& batch.rejection is None ==> {
        &&& r matches Ok(res) && res.outcomes@ == batch.outcomes@ && res.account_blocks@ == batch.account_blocks@
        &&& exists|cf: MutationFailure, mid: BlockedView|
            commit_gives(items, cf) && #[trigger] kill_switch_armed(before, Some(account), cf.spec_scope(), mid)
                && after == crate::pipeline::after_blocks(mid, account.0, batch.account_blocks@)
    }
}

/// Whether `batch` holds what `steps` report.
pub open spec fn batch_holds(batch: AccountAdjustmentBatch, steps: Seq<AdjustmentStep>) -> bool {
    &&& batch.outcomes@ == steps_outcomes(steps)
    &&& batch.account_blocks@ == steps_blocks(steps)
    &&& batch.rejection == steps_rejection(steps)
}

// ─── Building ───────────────────────────────────────────────────────────────

/// Whether `names` and `ids` are the names and groups the policies give, one per
/// policy, in registration order.
pub open spec fn identities<P: PreTradePolicy>(policies: Seq<P>, names: Seq<String>, ids: Seq<PolicyGroupId>) -> bool {
    &&& names.len() == policies.len()
    &&& ids.len() == policies.len()
    &&& forall|i: int|
        0 <= i < policies.len() ==> call_ensures(P::name, (&policies[i],), #[trigger] names[i]) && call_ensures(
            P::policy_group_id,
            (&policies[i],),
            ids[i],
        )
}

/// Whether `r` is what building over policies with `names` and `ids` answers:
/// an engine over the policies with nothing blocked and no groups when the names
/// are distinct and no non-default group repeats; otherwise the duplicate-name
/// error when names repeat, else the duplicate-group error.
pub open spec fn build_answer<P: PreTradePolicy>(
    policies: Seq<P>,
    names: Seq<String>,
    ids: Seq<PolicyGroupId>,
    r: Result<Engine<P>, EngineBuildError>,
) -> bool {
    &&& (r is Ok) == (all_distinct(name_texts(names)) && groups_unique(ids))
    &&& (r matches Err(EngineBuildError::DuplicatePolicyName { .. })) == !all_distinct(name_texts(names))
    &&& (r matches Err(EngineBuildError::DuplicatePolicyGroupId { .. })) == (all_distinct(name_texts(names))
        && !groups_unique(ids))
    &&& r matches Ok(e) ==> {
        &&& e.wf()
        &&& e.spec_policies() == policies
        &&& nothing_blocked(e.blocked_view())
        &&& e.groups_view() == Map::<u64, u32>::empty()
    }
}

/// Whether `steps`, `ms` and `batch` are a whole adjustment batch's verdicts,
/// collectors and fold.
pub open spec fn adjustment_run<P: PreTradePolicy>(
    policies: Seq<P>,
    account: AccountId,
    adjustments: Seq<P::AccountAdjustment>,
    steps: Seq<AdjustmentStep>,
    ms: Seq<Mutations>,
    batch: AccountAdjustmentBatch,
) -> bool {
    adjustment_answers(policies, account, adjustments, steps, ms) && batch_holds(batch, steps)
}

impl<P: PreTradePolicy> Engine<P> {
    /// The blocked set is well formed.
    pub closed spec fn wf(&self) -> bool {
        self.blocked.wf()
    }

    /// The registered policies, in registration order.
    pub closed spec fn spec_policies(&self) -> Seq<P> {
        self.policies@
    }

    /// The blocked set.
    pub closed spec fn blocked_view(&self) -> BlockedView {
        self.blocked@
    }

    /// Account-group memberships (raw account id to raw group id).
    pub closed spec fn groups_view(&self) -> Map<u64, u32> {
        self.groups@
    }

    /// Builds an engine over `policies`, in registration order: policy names must
    /// be unique, and no two policies may share a group other than the default one
    /// (names are checked first).
    pub fn build(policies: Vec<P>) -> (r: Result<Engine<P>, EngineBuildError>)
        ensures
            exists|names: Seq<String>, ids: Seq<PolicyGroupId>|
                #[trigger] identities(policies@, names, ids) && build_answer(policies@, names, ids, r),
            policies@.len() == 0 ==> r is Ok,
    {
        let mut names: Vec<String> = Vec::new();
        let mut ids: Vec<PolicyGroupId> = Vec::new();
        let mut i: usize = 0;
        while i < policies.len()
            invariant
                i <= policies@.len(),
                names@.len() == i,
                ids@.len() == i,
                forall|j: int|
                    0 <= j < i ==> call_ensures(P::name, (&policies@[j],), #[trigger] names@[j]) && call_ensures(
                        P::policy_group_id,
                        (&policies@[j],),
                        ids@[j],
                    ),
            decreases policies@.len() - i,
        {
            let name = policies[i].name();
            let id = policies[i].policy_group_id();
            proof {
                assert(call_ensures(P::name, (&policies@[i as int],), name));
                assert(call_ensures(P::policy_group_id, (&policies@[i as int],), id));
            }
            names.push(name);
            ids.push(id);
            i = i + 1;
        }
        let ghost gn = names@;
        let ghost gi = ids@;
        let names_ok = ensure_unique_policy_names(&names);
        let ids_ok = ensure_unique_policy_group_ids(&ids);
        let r = match names_ok {
            Err(e) => Err(e),
            Ok(()) => match ids_ok {
                Err(e) => Err(e),
                Ok(()) => {
                    let blocked = BlockedAccounts::new();
                    proof {
                        assert(blocked@.accounts.dom() =~= Set::<u64>::empty());
                        assert(blocked@.groups.dom() =~= Set::<u32>::empty());
                    }
                    Ok(Engine { policies, blocked, groups: AccountGroups::new() })
                },
            },
        };
        proof {
            assert(identities(policies@, gn, gi));
            assert(build_answer(policies@, gn, gi, r));
        }
        r
    }

    /// The blocked set.
    pub fn blocked(&self) -> (r: &BlockedAccounts)
        ensures
            r@ == self.blocked_view(),
    {
        &self.blocked
    }

    /// The account groups.
    pub fn groups(&self) -> (r: &AccountGroups)
        ensures
            r@ == self.groups_view(),
    {
        &self.groups
    }

    /// Registers every account of `accounts` into `group` (see
    /// `AccountGroups::register_group`).
    pub fn register_group(&mut self, accounts: &[AccountId], group: AccountGroupId) -> (r: Result<
        (),
        AccountGroupError,
    >)
        requires
            old(self).wf(),
        ensures
            final(self).wf(),
            r == register_outcome(old(self).groups_view(), accounts@, group),
            r is Ok ==> final(self).groups_view() == registered(
                old(self).groups_view(),
                accounts@,
                accounts@.len() as int,
                group.0,
            ),
            r is Err ==> final(self).groups_view() == old(self).groups_view(),
            final(self).blocked_view() == old(self).blocked_view(),
            final(self).spec_policies() == old(self).spec_policies(),
    {
        self.groups.register_group(accounts, group)
    }

    /// Blocks `id` with `cause` through the engine's admin surface; the first cause
    /// of an account wins.
    pub fn block_account(&mut self, id: AccountId, cause: AccountBlock)
        requires
            old(self).wf(),
        ensures
            final(self).wf(),
            final(self).blocked_view() == after_block_account(old(self).blocked_view(), id.0, cause),
            final(self).spec_policies() == old(self).spec_policies(),
            final(self).groups_view() == old(self).groups_view(),
    {
        self.blocked.block_account(id, cause);
    }

    /// Lifts the block of `id`.
    pub fn unblock_account(&mut self, id: AccountId)
        requires
            old(self).wf(),
        ensures
            final(self).wf(),
            final(self).blocked_view() == after_unblock_account(old(self).blocked_view(), id.0),
            final(self).spec_policies() == old(self).spec_policies(),
            final(self).groups_view() == old(self).groups_view(),
    {
        self.blocked.unblock_account(id);
    }

    /// Blocks every account of `group`; the reserved default group cannot be
    /// blocked.
    pub fn block_group(&mut self, group: AccountGroupId, cause: AccountBlock) -> (r: Result<(), AccountBlockError>)
        requires
            old(self).wf(),
        ensures
            final(self).wf(),
            group.is_default() ==> r == Err::<(), AccountBlockError>(AccountBlockError::ReservedGroup)
                && final(self).blocked_view() == old(self).blocked_view(),
            !group.is_default() ==> r is Ok && final(self).blocked_view() == after_block_group(
                old(self).blocked_view(),
                group.0,
                cause,
            ),
            final(self).spec_policies() == old(self).spec_policies(),
            final(self).groups_view() == old(self).groups_view(),
    {
        self.blocked.block_group(group, cause)
    }

    /// Lifts the block of `group`.
    pub fn unblock_group(&mut self, group: AccountGroupId) -> (r: Result<(), AccountBlockError>)
        requires
            old(self).wf(),
        ensures
            final(self).wf(),
            group.is_default() ==> r == Err::<(), AccountBlockError>(AccountBlockError::ReservedGroup)
                && final(self).blocked_view() == old(self).blocked_view(),
            !group.is_default() ==> r is Ok && final(self).blocked_view() == after_unblock_group(
                old(self).blocked_view(),
                group.0,
            ),
            final(self).spec_policies() == old(self).spec_policies(),
            final(self).groups_view() == old(self).groups_view(),
    {
        self.blocked.unblock_group(group)
    }

    /// Lifts the engine-wide block through the admin surface; account and group
    /// blocks stay.
    pub fn unblock_all(&mut self)
        requires
            old(self).wf(),
        ensures
            final(self).wf(),
            final(self).blocked_view() == after_unblock_all(old(self).blocked_view()),
            final(self).spec_policies() == old(self).spec_policies(),
            final(self).groups_view() == old(self).groups_view(),
    {
        self.blocked.unblock_all();
    }

    /// Commits the mutations an owner finalizes (a reservation's or an accepted
    /// drop copy's): every commit runs in registration order, and a failed one arms
    /// `kill_switch` with the failure's reach.
    pub fn commit_finalizers(&mut self, mutations: Mutations, kill_switch: &MutationFailureKillSwitch) -> (r:
        MutationFailure)
        requires
            old(self).wf(),
        ensures
            final(self).wf(),
            final(self).spec_policies() == old(self).spec_policies(),
            final(self).groups_view() == old(self).groups_view(),
            commit_gives(mutations.items(), r),
            (!kill_switch.armed() || r.spec_scope() is None) ==> final(self).blocked_view() == old(
                self,
            ).blocked_view(),
            kill_switch.armed() ==> kill_switch_armed(
                old(self).blocked_view(),
                kill_switch.account(),
                r.spec_scope(),
                final(self).blocked_view(),
            ),
    {
        let failure = mutations.commit_all();
        self.arm(kill_switch, &failure.scope());
        failure
    }

    /// Rolls back the mutations an owner finalizes: every rollback runs in reverse
    /// registration order, and a failed one arms `kill_switch` with the failure's
    /// reach.
    pub fn rollback_finalizers(&mut self, mutations: Mutations, kill_switch: &MutationFailureKillSwitch) -> (r:
        MutationRollbackResult)
        requires
            old(self).wf(),
        ensures
            final(self).wf(),
            final(self).spec_policies() == old(self).spec_policies(),
            final(self).groups_view() == old(self).groups_view(),
            rollback_gives(mutations.items(), r),
            (!kill_switch.armed() || r.failure.spec_scope() is None) ==> final(self).blocked_view() == old(
                self,
            ).blocked_view(),
            kill_switch.armed() ==> kill_switch_armed(
                old(self).blocked_view(),
                kill_switch.account(),
                r.failure.spec_scope(),
                final(self).blocked_view(),
            ),
    {
        let result = mutations.rollback_all();
        self.arm(kill_switch, &result.failure().scope());
        result
    }

    /// Arms `kill_switch` for a failure of reach `scope`.
    fn arm(&mut self, kill_switch: &MutationFailureKillSwitch, scope: &Option<MutationFailureScope>)
        requires
            old(self).wf(),
        ensures
            final(self).wf(),
            final(self).spec_policies() == old(self).spec_policies(),
            final(self).groups_view() == old(self).groups_view(),
            (!kill_switch.armed() || scope is None) ==> final(self).blocked_view() == old(self).blocked_view(),
            kill_switch.armed() ==> kill_switch_armed(
                old(self).blocked_view(),
                kill_switch.account(),
                *scope,
                final(self).blocked_view(),
            ),
    {
        let mut handle = self.take_handle();
        let mut failure = MutationFailure::new();
        match scope {
            Some(s) => failure.widen(*s),
            None => {},
        }
        let ghost before = handle@;
        kill_switch.arm(&mut handle, &failure);
        proof {
            if kill_switch.armed() && scope is Some {
                let b = choose|b: crate::pretrade::AccountBlock|
                    crate::account_control::is_mutation_finalizer_block(b) && handle@ == match (
                        failure.spec_scope().unwrap(),
                        kill_switch.account(),
                    ) {
                        (MutationFailureScope::Account, Some(a)) => crate::account_control::after_block_account(
                            before,
                            a.0,
                            b,
                        ),
                        _ => crate::account_control::after_block_all_with_cause(before, b),
                    };
                assert(handle@ == crate::engine::after_kill_switch(
                    before,
                    kill_switch.account(),
                    crate::pipeline::failure_of(*scope, b),
                ));
            }
        }
        self.put_handle(handle);
    }

    /// Moves the blocked set into a handle, leaving an empty one in its place.
    fn take_handle(&mut self) -> (r: AccountBlockHandle)
        requires
            old(self).wf(),
        ensures
            final(self).wf(),
            r.wf(),
            r@ == old(self).blocked_view(),
            final(self).spec_policies() == old(self).spec_policies(),
            final(self).groups_view() == old(self).groups_view(),
    {
        let mut inner = BlockedAccounts::new();
        std::mem::swap(&mut inner, &mut self.blocked);
        AccountBlockHandle::from_inner(inner)
    }

    /// Puts the blocked set of `handle` back.
    fn put_handle(&mut self, handle: AccountBlockHandle)
        requires
            handle.wf(),
        ensures
            final(self).wf(),
            final(self).blocked_view() == handle@,
            final(self).spec_policies() == old(self).spec_policies(),
            final(self).groups_view() == old(self).groups_view(),
    {
        let mut inner = handle.into_inner();
        std::mem::swap(&mut inner, &mut self.blocked);
    }

    /// Folds the start-stage verdicts of every policy on `order`, once each, in
    /// registration order (the dry-run hook when `dry_run`).
    fn run_start_stage(&self, order: &P::Order, dry_run: bool) -> (r: (
        PreTradeStageVerdict,
        Ghost<Seq<Result<(), Rejects>>>,
    ))
        ensures
            start_run(self.policies@, *order, dry_run, r.1@, r.0),
    {
        let mut stage = PreTradeStage::new(false);
        let ghost mut vs: Seq<Result<(), Rejects>> = Seq::empty();
        let mut i: usize = 0;
        proof {
            assert(start_reject_lists(vs) =~= Seq::<Rejects>::empty());
            assert(stage.reject_lists@ =~= Seq::<Rejects>::empty());
            assert(stage.drop_copy_blocks@ =~= Seq::<AccountBlock>::empty());
            assert(stage.lock@ =~= Seq::<(PolicyGroupId, Price)>::empty());
            assert(stage.outcomes@ =~= Seq::<AccountAdjustmentOutcome>::empty());
            assert(requested_blocks(Seq::<Rejects>::empty()) =~= Seq::<AccountBlock>::empty());
        }
        while i < self.policies.len()
            invariant
                i <= self.policies@.len(),
                vs.len() == i,
                stage_holds(stage, false, start_reject_lists(vs), Seq::empty(), Seq::empty()),
                forall|j: int|
                    0 <= j < i ==> (if dry_run {
                        call_ensures(P::check_pre_trade_start_dry_run, (&self.policies@[j], order), #[trigger] vs[j])
                    } else {
                        call_ensures(P::check_pre_trade_start, (&self.policies@[j], order), vs[j])
                    }),
            decreases self.policies@.len() - i,
        {
            let policy = &self.policies[i];
            let verdict = if dry_run {
                let v = policy.check_pre_trade_start_dry_run(order);
                proof {
                    assert(call_ensures(P::check_pre_trade_start_dry_run, (&self.policies@[i as int], order), v));
                }
                v
            } else {
                let v = policy.check_pre_trade_start(order);
                proof {
                    assert(call_ensures(P::check_pre_trade_start, (&self.policies@[i as int], order), v));
                }
                v
            };
            let ghost v = verdict;
            let ghost lists = start_reject_lists(vs);
            stage.record_start_verdict(verdict);
            proof {
                let next = vs.push(v);
                assert(next.drop_last() =~= vs);
                match v {
                    Err(rj) => {
                        assert(lists.push(rj).drop_last() =~= lists);
                        assert(start_reject_lists(next) == lists.push(rj));
                        assert(first_block_of(lists.push(rj)) == (if first_block_of(lists) is Some {
                            first_block_of(lists)
                        } else {
                            crate::engine::requested_block(rj@)
                        }));
                        assert(requested_blocks(lists.push(rj)) == match crate::engine::requested_block(rj@) {
                            Some(b) => requested_blocks(lists).push(b),
                            None => requested_blocks(lists),
                        });
                    },
                    Ok(_) => {
                        assert(start_reject_lists(next) == lists);
                    },
                }
                vs = next;
            }
            i = i + 1;
        }
        (stage.finish(), Ghost(vs))
    }

    /// Folds the start-stage verdicts of every policy on a drop copy `order`, once
    /// each, in registration order, with the mutations they register.
    fn run_drop_copy_start_stage(&self, order: &P::Order) -> (r: (
        PreTradeStageVerdict,
        Mutations,
        Ghost<Seq<Result<(), Rejects>>>,
        Ghost<Seq<Mutations>>,
    ))
        ensures
            drop_copy_start_run(self.policies@, *order, r.2@, r.3@, r.0),
            r.1 == r.3@.last(),
    {
        let mut stage = PreTradeStage::new(true);
        let mut mutations = Mutations::new();
        let ghost mut vs: Seq<Result<(), Rejects>> = Seq::empty();
        let ghost mut ms: Seq<Mutations> = seq![mutations];
        let mut i: usize = 0;
        proof {
            assert(start_reject_lists(vs) =~= Seq::<Rejects>::empty());
            assert(stage.reject_lists@ =~= Seq::<Rejects>::empty());
            assert(stage.drop_copy_blocks@ =~= Seq::<AccountBlock>::empty());
            assert(stage.lock@ =~= Seq::<(PolicyGroupId, Price)>::empty());
            assert(stage.outcomes@ =~= Seq::<AccountAdjustmentOutcome>::empty());
            assert(requested_blocks(Seq::<Rejects>::empty()) =~= Seq::<AccountBlock>::empty());
        }
        while i < self.policies.len()
            invariant
                i <= self.policies@.len(),
                vs.len() == i,
                ms.len() == i + 1,
                ms[0].items().len() == 0,
                ms.last() == mutations,
                stage_holds(stage, true, start_reject_lists(vs), Seq::empty(), Seq::empty()),
                forall|j: int|
                    0 <= j < i ==> call_ensures(
                        P::check_drop_copy_start,
                        (&self.policies@[j], order, ms[j]),
                        (#[trigger] vs[j], ms[j + 1]),
                    ),
            decreases self.policies@.len() - i,
        {
            let policy = &self.policies[i];
            let ghost before = mutations;
            let (verdict, next_mutations) = policy.check_drop_copy_start(order, mutations);
            proof {
                assert(call_ensures(
                    P::check_drop_copy_start,
                    (&self.policies@[i as int], order, before),
                    (verdict, next_mutations),
                ));
            }
            mutations = next_mutations;
            let ghost v = verdict;
            let ghost lists = start_reject_lists(vs);
            stage.record_start_verdict(verdict);
            proof {
                let next = vs.push(v);
                assert(next.drop_last() =~= vs);
                match v {
                    Err(rj) => {
                        assert(lists.push(rj).drop_last() =~= lists);
                        assert(start_reject_lists(next) == lists.push(rj));
                        assert(first_block_of(lists.push(rj)) == (if first_block_of(lists) is Some {
                            first_block_of(lists)
                        } else {
                            crate::engine::requested_block(rj@)
                        }));
                        assert(requested_blocks(lists.push(rj)) == match crate::engine::requested_block(rj@) {
                            Some(b) => requested_blocks(lists).push(b),
                            None => requested_blocks(lists),
                        });
                    },
                    Ok(_) => {
                        assert(start_reject_lists(next) == lists);
                    },
                }
                vs = next;
                ms = ms.push(mutations);
            }
            i = i + 1;
        }
        (stage.finish(), mutations, Ghost(vs), Ghost(ms))
    }

    /// Folds the main-stage verdicts of every policy on `order`, once each, in
    /// registration order, with their groups and the mutations they register (the
    /// dry-run hook when `dry_run`).
    fn run_main_stage(&self, order: &P::Order, drop_copy: bool, dry_run: bool) -> (r: (
        PreTradeStageVerdict,
        Mutations,
        Ghost<Seq<(PolicyGroupId, MainVerdict)>>,
        Ghost<Seq<Mutations>>,
    ))
        ensures
            main_run(self.policies@, *order, drop_copy, dry_run, r.2@, r.3@, r.0),
            r.1 == r.3@.last(),
    {
        let mut stage = PreTradeStage::new(drop_copy);
        let mut mutations = Mutations::with_capacity(self.policies.len());
        let ghost mut vs: Seq<(PolicyGroupId, MainVerdict)> = Seq::empty();
        let ghost mut ms: Seq<Mutations> = seq![mutations];
        let mut i: usize = 0;
        proof {
            assert(main_reject_lists(vs) =~= Seq::<Rejects>::empty());
            assert(main_lock(drop_copy, vs) =~= Seq::<(PolicyGroupId, Price)>::empty());
            assert(main_outcomes(drop_copy, vs) =~= Seq::<AccountAdjustmentOutcome>::empty());
            assert(stage.reject_lists@ =~= Seq::<Rejects>::empty());
            assert(stage.drop_copy_blocks@ =~= Seq::<AccountBlock>::empty());
            assert(stage.lock@ =~= Seq::<(PolicyGroupId, Price)>::empty());
            assert(stage.outcomes@ =~= Seq::<AccountAdjustmentOutcome>::empty());
            assert(requested_blocks(Seq::<Rejects>::empty()) =~= Seq::<AccountBlock>::empty());
        }
        while i < self.policies.len()
            invariant
                i <= self.policies@.len(),
                vs.len() == i,
                ms.len() == i + 1,
                ms[0].items().len() == 0,
                ms.last() == mutations,
                stage_holds(
                    stage,
                    drop_copy,
                    main_reject_lists(vs),
                    main_lock(drop_copy, vs),
                    main_outcomes(drop_copy, vs),
                ),
                forall|j: int|
                    0 <= j < i ==> {
                        &&& call_ensures(P::policy_group_id, (&self.policies@[j],), (#[trigger] vs[j]).0)
                        &&& if dry_run {
                            call_ensures(
                                P::perform_pre_trade_check_dry_run,
                                (&self.policies@[j], order, ms[j]),
                                (vs[j].1, ms[j + 1]),
                            )
                        } else {
                            call_ensures(P::perform_pre_trade_check, (&self.policies@[j], order, ms[j]), (vs[j].1, ms[j + 1]))
                        }
                    },
            decreases self.policies@.len() - i,
        {
            let policy = &self.policies[i];
            let group = policy.policy_group_id();
            proof {
                assert(call_ensures(P::policy_group_id, (&self.policies@[i as int],), group));
            }
            let ghost before = mutations;
            let (verdict, next_mutations) = if dry_run {
                let out = policy.perform_pre_trade_check_dry_run(order, mutations);
                proof {
                    assert(call_ensures(P::perform_pre_trade_check_dry_run, (&self.policies@[i as int], order, before), out));
                }
                out
            } else {
                let out = policy.perform_pre_trade_check(order, mutations);
                proof {
                    assert(call_ensures(P::perform_pre_trade_check, (&self.policies@[i as int], order, before), out));
                }
                out
            };
            mutations = next_mutations;
            let ghost v = verdict;
            let ghost lists = main_reject_lists(vs);
            stage.record_main_verdict(group, verdict);
            proof {
                let next = vs.push((group, v));
                assert(next.drop_last() =~= vs);
                match v {
                    Err((rj, _)) => {
                        assert(lists.push(rj).drop_last() =~= lists);
                    },
                    Ok(_) => {},
                }
                vs = next;
                ms = ms.push(mutations);
            }
            i = i + 1;
        }
        (stage.finish(), mutations, Ghost(vs), Ghost(ms))
    }

    /// Starts a pre-trade request: the account is read once from `order`; a
    /// blocked account is refused before any policy runs, with nothing changed;
    /// otherwise every policy's start-stage verdict is folded, and a refusing stage
    /// records the account block its policies asked for.
    pub fn start_pre_trade(&mut self, order: P::Order) -> (r: Result<PreTradeRequest<P::Order>, Rejects>)
        where P::Order: HasAccountId,
        requires
            old(self).wf(),
        ensures
            final(self).wf(),
            final(self).spec_policies() == old(self).spec_policies(),
            final(self).groups_view() == old(self).groups_view(),
            exists|account: Option<AccountId>|
                #[trigger] reads_account(order, account) && start_settled(
                    old(self).spec_policies(),
                    order,
                    old(self).blocked_view(),
                    old(self).groups_view(),
                    account,
                    r,
                    final(self).blocked_view(),
                ),
            (old(self).spec_policies().len() == 0 && nothing_blocked(old(self).blocked_view())) ==> (r is Ok
                && final(self).blocked_view() == old(self).blocked_view()),
    {
        let ghost g_order = order;
        let account = read_account(&order);
        match self.blocked.check_account(&self.groups, account, RejectScope::Order) {
            Some(rs) => {
                let r = Err(rs);
                proof {
                    assert(start_settled(self.policies@, g_order, self.blocked@, self.groups@, account, r, self.blocked@));
                }
                return r;
            },
            None => {},
        }
        let (verdict, Ghost(vs)) = self.run_start_stage(&order, false);
        let ghost v = verdict;
        let mut handle = self.take_handle();
        let outcome = finish_start_stage(&mut handle, account, verdict);
        self.put_handle(handle);
        let r = match outcome {
            Err(rs) => Err(rs),
            Ok(()) => Ok(PreTradeRequest { order, account }),
        };
        proof {
            assert(start_run(old(self).spec_policies(), g_order, false, vs, v));
            assert(start_ended(old(self).blocked_view(), g_order, account, v, r, self.blocked_view()));
            assert(start_settled(
                old(self).spec_policies(),
                g_order,
                old(self).blocked_view(),
                old(self).groups_view(),
                account,
                r,
                self.blocked_view(),
            ));
            if old(self).spec_policies().len() == 0 {
                assert(vs =~= Seq::<Result<(), Rejects>>::empty());
                assert(start_reject_lists(vs) =~= Seq::<Rejects>::empty());
                assert(lists_items(Seq::<Rejects>::empty()).len() == 0);
            }
        }
        r
    }

    /// Runs the main stage of a started request and ends it: a request whose
    /// account is blocked by now is refused before any policy runs; otherwise every
    /// policy's main-stage verdict is folded and the request ends as
    /// `finish_pre_trade_request` says.
    pub fn execute(&mut self, request: PreTradeRequest<P::Order>) -> (r: Result<ReservationParts, Rejects>)
        requires
            old(self).wf(),
        ensures
            final(self).wf(),
            final(self).spec_policies() == old(self).spec_policies(),
            final(self).groups_view() == old(self).groups_view(),
            execute_settled(
                old(self).spec_policies(),
                request.order,
                old(self).blocked_view(),
                old(self).groups_view(),
                request.account,
                r,
                final(self).blocked_view(),
            ),
            (old(self).spec_policies().len() == 0 && blocking_cause(
                old(self).blocked_view(),
                old(self).groups_view(),
                request.account,
            ) is None) ==> (r is Ok && final(self).blocked_view() == old(self).blocked_view()),
    {
        let PreTradeRequest { order, account } = request;
        match begin_pre_trade_request(&self.blocked, &self.groups, true, account) {
            Err(rs) => {
                return Err(rs);
            },
            Ok(()) => {},
        }
        let (verdict, mutations, Ghost(vs), Ghost(ms)) = self.run_main_stage(&order, false, false);
        let ghost v = verdict;
        let ghost items = mutations.items();
        let mut handle = self.take_handle();
        let r = finish_pre_trade_request(&mut handle, account, verdict, mutations);
        self.put_handle(handle);
        proof {
            assert(main_run(old(self).spec_policies(), order, false, false, vs, ms, v));
            assert(request_finished(old(self).blocked_view(), account, v, ms.last().items(), r, self.blocked_view()));
            if old(self).spec_policies().len() == 0 {
                assert(vs =~= Seq::<(PolicyGroupId, MainVerdict)>::empty());
                assert(main_reject_lists(vs) =~= Seq::<Rejects>::empty());
                assert(lists_items(Seq::<Rejects>::empty()).len() == 0);
            }
        }
        r
    }

    /// Runs the start stage as a dry run: nothing changes. A blocked account is
    /// reported refused; otherwise the report carries what the policies' dry-run
    /// start verdicts fold to, with an empty lock and no outcomes.
    pub fn start_pre_trade_dry_run(&self, order: &P::Order) -> (r: PreTradeDryRunReport)
        where P::Order: HasAccountId,
        requires
            self.wf(),
        ensures
            exists|account: Option<AccountId>|
                #[trigger] reads_account(*order, account) && start_dry_run_reported(
                    self.spec_policies(),
                    *order,
                    self.blocked_view(),
                    self.groups_view(),
                    account,
                    r,
                ),
            (self.spec_policies().len() == 0 && nothing_blocked(self.blocked_view())) ==> r.rejects is None,
    {
        let account = read_account(order);
        let check = self.blocked.check_account(&self.groups, account, RejectScope::Order);
        if check.is_some() {
            let r = dry_run_report(check, None, None);
            proof {
                assert(start_dry_run_reported(self.policies@, *order, self.blocked@, self.groups@, account, r));
            }
            return r;
        }
        let (start, Ghost(vs)) = self.run_start_stage(order, true);
        let ghost v = start;
        let r = dry_run_report(None, Some(start), None);
        proof {
            assert(start_run(self.policies@, *order, true, vs, v));
            assert(start_dry_run_reported(self.policies@, *order, self.blocked@, self.groups@, account, r));
            if self.policies@.len() == 0 {
                assert(vs =~= Seq::<Result<(), Rejects>>::empty());
                assert(start_reject_lists(vs) =~= Seq::<Rejects>::empty());
                assert(lists_items(Seq::<Rejects>::empty()).len() == 0);
            }
        }
        r
    }

    /// Runs the whole pipeline as a dry run: nothing changes, and what the policies
    /// register is dropped, neither committed nor rolled back. A blocked account is
    /// reported refused; refusing start-stage dry-run verdicts are reported with the
    /// block they would record, and the main stage does not run; otherwise the
    /// report carries what the main-stage dry-run verdicts fold to.
    pub fn execute_pre_trade_dry_run(&self, order: &P::Order) -> (r: PreTradeDryRunReport)
        where P::Order: HasAccountId,
        requires
            self.wf(),
        ensures
            exists|account: Option<AccountId>|
                #[trigger] reads_account(*order, account) && dry_run_reported(
                    self.spec_policies(),
                    *order,
                    self.blocked_view(),
                    self.groups_view(),
                    account,
                    r,
                ),
            (self.spec_policies().len() == 0 && nothing_blocked(self.blocked_view())) ==> r.rejects is None,
    {
        let account = read_account(order);
        let check = self.blocked.check_account(&self.groups, account, RejectScope::Order);
        if check.is_some() {
            let r = dry_run_report(check, None, None);
            proof {
                assert(dry_run_reported(self.policies@, *order, self.blocked@, self.groups@, account, r));
            }
            return r;
        }
        let (start, Ghost(vs)) = self.run_start_stage(order, true);
        let ghost v = start;
        proof {
            assert(start_run(self.policies@, *order, true, vs, v));
            if self.policies@.len() == 0 {
                assert(vs =~= Seq::<Result<(), Rejects>>::empty());
                assert(start_reject_lists(vs) =~= Seq::<Rejects>::empty());
                assert(lists_items(Seq::<Rejects>::empty()).len() == 0);
            }
        }
        if start.rejects.is_some() {
            let r = dry_run_report(None, Some(start), None);
            proof {
                assert(dry_run_reported(self.policies@, *order, self.blocked@, self.groups@, account, r));
            }
            return r;
        }
        let (main, _dropped, Ghost(ws), Ghost(ms)) = self.run_main_stage(order, false, true);
        let ghost w = main;
        let r = dry_run_report(None, Some(start), Some(main));
        proof {
            assert(main_run(self.policies@, *order, false, true, ws, ms, w));
            assert(dry_run_reported(self.policies@, *order, self.blocked@, self.groups@, account, r));
            if self.policies@.len() == 0 {
                assert(ws =~= Seq::<(PolicyGroupId, MainVerdict)>::empty());
                assert(main_reject_lists(ws) =~= Seq::<Rejects>::empty());
            }
        }
        r
    }

    /// Applies a drop copy: the account is read once from `order`, and one that
    /// cannot be read fails before any policy runs, with nothing changed. Existing
    /// blocks play no part. Every policy's start-stage verdict is folded with the
    /// mutations it registers; unless one reports a failed evaluation, every
    /// policy's main-stage verdict is folded too; the drop copy then ends as
    /// `settle_drop_copy` says.
    pub fn apply_drop_copy(&mut self, order: P::Order) -> (r: Result<DropCopyOutcome, Rejects>)
        where P::Order: HasAccountId,
        requires
            old(self).wf(),
        ensures
            final(self).wf(),
            final(self).spec_policies() == old(self).spec_policies(),
            final(self).groups_view() == old(self).groups_view(),
            exists|account: Option<AccountId>|
                #[trigger] reads_account(order, account) && drop_copy_run(
                    old(self).spec_policies(),
                    order,
                    old(self).blocked_view(),
                    old(self).groups_view(),
                    account,
                    r,
                    final(self).blocked_view(),
                ),
            old(self).spec_policies().len() == 0 ==> (r is Ok || (r matches Err(rs) && rs@.len() == 1
                && crate::engine::is_unreadable_account_reject(rs@[0]))),
    {
        let ghost g_order = order;
        let read = read_account(&order);
        let account = match drop_copy_account(read) {
            Ok(a) => a,
            Err(rs) => {
                let r = Err(rs);
                proof {
                    assert(drop_copy_run(self.policies@, g_order, self.blocked@, self.groups@, read, r, self.blocked@));
                }
                return r;
            },
        };
        let (start, start_mutations, Ghost(vs), Ghost(sms)) = self.run_drop_copy_start_stage(&order);
        let ghost sv = start;
        let fatal_start = match &start.rejects {
            Some(rs) => has_evaluation_failure(rs),
            None => false,
        };
        let mut handle = self.take_handle();
        if fatal_start {
            let r = settle_drop_copy(&mut handle, &self.groups, account, start, start_mutations, None);
            self.put_handle(handle);
            proof {
                assert(drop_copy_start_run(old(self).spec_policies(), g_order, vs, sms, sv));
                assert(drop_copy_run(
                    old(self).spec_policies(),
                    g_order,
                    old(self).blocked_view(),
                    old(self).groups_view(),
                    read,
                    r,
                    self.blocked_view(),
                ));
            }
            return r;
        }
        let (main, main_mutations, Ghost(ws), Ghost(mms)) = self.run_main_stage(&order, true, false);
        let ghost mv = main;
        let ghost mitems = main_mutations.items();
        let r = settle_drop_copy(&mut handle, &self.groups, account, start, start_mutations, Some((main, main_mutations)));
        self.put_handle(handle);
        proof {
            assert(drop_copy_start_run(old(self).spec_policies(), g_order, vs, sms, sv));
            assert(main_run(old(self).spec_policies(), g_order, true, false, ws, mms, mv));
            assert(crate::pipeline::main_items(Some((mv, mms.last()))) == Some((mv, mms.last().items())));
            assert(drop_copy_run(
                old(self).spec_policies(),
                g_order,
                old(self).blocked_view(),
                old(self).groups_view(),
                read,
                r,
                self.blocked_view(),
            ));
            if old(self).spec_policies().len() == 0 {
                assert(vs =~= Seq::<Result<(), Rejects>>::empty());
                assert(ws =~= Seq::<(PolicyGroupId, MainVerdict)>::empty());
                assert(start_reject_lists(vs) =~= Seq::<Rejects>::empty());
                assert(main_reject_lists(ws) =~= Seq::<Rejects>::empty());
                assert(lists_items(Seq::<Rejects>::empty()).len() == 0);
            }
        }
        r
    }

    /// Applies an execution report: every policy applies it once, in registration
    /// order; what they report is gathered in that order, and when a policy
    /// reported a block, the first one becomes the kill switch of the account read
    /// from the report (of every account, when it gives none).
    pub fn apply_execution_report(&mut self, report: &P::ExecutionReport) -> (r: PostTradeResult)
        where P::ExecutionReport: HasAccountId,
        requires
            old(self).wf(),
        ensures
            final(self).wf(),
            final(self).spec_policies() == old(self).spec_policies(),
            final(self).groups_view() == old(self).groups_view(),
            exists|results: Seq<Option<PostTradeResult>>|
                {
                    &&& #[trigger] report_answers(old(self).spec_policies(), *report, results)
                    &&& r.account_blocks@ == reported_blocks(results)
                    &&& r.account_pnls@ == reported_pnls(results)
                    &&& r.account_adjustments@ == reported_adjustments(results)
                    &&& reported_blocks(results).len() == 0 ==> final(self).blocked_view() == old(
                        self,
                    ).blocked_view()
                    &&& reported_blocks(results).len() > 0 ==> exists|account: Option<AccountId>|
                        #[trigger] reads_account(*report, account) && final(self).blocked_view() == after_report_block(
                            old(self).blocked_view(),
                            account,
                            reported_blocks(results)[0],
                        )
                },
    {
        let account = read_account(report);
        let mut results: Vec<Option<PostTradeResult>> = Vec::new();
        let mut i: usize = 0;
        while i < self.policies.len()
            invariant
                i <= self.policies@.len(),
                results@.len() == i,
                forall|j: int|
                    0 <= j < i ==> call_ensures(P::apply_execution_report, (&self.policies@[j], report), #[trigger] results@[j]),
            decreases self.policies@.len() - i,
        {
            let out = self.policies[i].apply_execution_report(report);
            proof {
                assert(call_ensures(P::apply_execution_report, (&self.policies@[i as int], report), out));
            }
            results.push(out);
            i = i + 1;
        }
        let ghost all = results@;
        let r = settle_execution_report_for(&mut self.blocked, account, results);
        proof {
            assert(report_answers(old(self).spec_policies(), *report, all));
        }
        r
    }

    /// Applies an account-adjustment batch on `account`: adjustments in slice order,
    /// each through every policy in registration order, until the first rejection.
    /// An empty batch changes nothing; otherwise the batch ends as
    /// `settle_account_adjustment_batch` says for what the policies answered and
    /// registered.
    pub fn apply_account_adjustment(&mut self, account: AccountId, adjustments: &Vec<P::AccountAdjustment>) -> (r:
        Result<AccountAdjustmentBatchResult, AccountAdjustmentBatchError>)
        requires
            old(self).wf(),
        ensures
            final(self).wf(),
            final(self).spec_policies() == old(self).spec_policies(),
            final(self).groups_view() == old(self).groups_view(),
            adjustments@.len() == 0 ==> (r matches Ok(res) && res.outcomes@.len() == 0
                && res.account_blocks@.len() == 0 && final(self).blocked_view() == old(self).blocked_view()),
            adjustments@.len() > 0 ==> exists|
                steps: Seq<AdjustmentStep>,
                ms: Seq<Mutations>,
                batch: AccountAdjustmentBatch,
            |
                #[trigger] adjustment_run(old(self).spec_policies(), account, adjustments@, steps, ms, batch)
                    && batch_settled(old(self).blocked_view(), account, batch, ms.last().items(), r, final(self).blocked_view()),
            old(self).spec_policies().len() == 0 ==> r is Ok,
    {
        if adjustments.len() == 0 {
            return Ok(AccountAdjustmentBatchResult::new());
        }
        let n = self.policies.len();
        let mut batch = AccountAdjustmentBatch::new();
        let mut mutations = Mutations::with_capacity(adjustments.len());
        let ghost mut steps: Seq<AdjustmentStep> = Seq::empty();
        let ghost mut ms: Seq<Mutations> = seq![mutations];
        proof {
            assert(steps_outcomes(steps) =~= Seq::<AccountAdjustmentOutcome>::empty());
            assert(steps_blocks(steps) =~= Seq::<AccountBlock>::empty());
            assert(batch.outcomes@ =~= Seq::<AccountAdjustmentOutcome>::empty());
            assert(batch.account_blocks@ =~= Seq::<AccountBlock>::empty());
        }
        if n > 0 {
            let mut index: usize = 0;
            while index < adjustments.len() && !batch.is_rejected()
                invariant
                    n == self.policies@.len(),
                    n > 0,
                    index <= adjustments@.len(),
                    ms.last() == mutations,
                    adjustment_chain(self.policies@, account, adjustments@, steps, ms),
                    batch_holds(batch, steps),
                    batch.rejection is None ==> expected_position(steps, n as nat) == (index as int, 0int),
                    batch.rejection is None ==> (steps.len() == 0 || steps.last().3 is Ok),
                    batch.rejection is Some ==> steps.len() > 0 && steps.last().3 is Err,
                decreases adjustments@.len() - index,
            {
                let mut j: usize = 0;
                while j < n && !batch.is_rejected()
                    invariant
                        n == self.policies@.len(),
                        n > 0,
                        index < adjustments@.len(),
                        j <= n,
                        ms.last() == mutations,
                        adjustment_chain(self.policies@, account, adjustments@, steps, ms),
                        batch_holds(batch, steps),
                        batch.rejection is None ==> expected_position(steps, n as nat) == (if j < n {
                            (index as int, j as int)
                        } else {
                            (index + 1, 0int)
                        }),
                        batch.rejection is None ==> (steps.len() == 0 || steps.last().3 is Ok),
                        batch.rejection is Some ==> steps.len() > 0 && steps.last().3 is Err,
                    decreases n - j,
                {
                    let policy = &self.policies[j];
                    let group = policy.policy_group_id();
                    let ghost before = mutations;
                    let (verdict, next_mutations) = policy.apply_account_adjustment(account, &adjustments[index], mutations);
                    proof {
                        assert(call_ensures(P::policy_group_id, (&self.policies@[j as int],), group));
                        assert(call_ensures(
                            P::apply_account_adjustment,
                            (&self.policies@[j as int], account, &adjustments@[index as int], before),
                            (verdict, next_mutations),
                        ));
                    }
                    mutations = next_mutations;
                    let ghost v = verdict;
                    let ghost old_steps = steps;
                    batch.record(index, group, verdict);
                    proof {
                        let step: AdjustmentStep = (index, j, group, v);
                        let next = steps.push(step);
                        let nms = ms.push(mutations);
                        assert(next.drop_last() =~= steps);
                        assert forall|k: int| #![trigger next[k]] 0 <= k < next.len() - 1 implies (
                            next[k + 1].0 as int,
                            next[k + 1].1 as int,
                        ) == next_position(n as nat, next[k].0 as int, next[k].1 as int) by {
                            if k < steps.len() - 1 {
                                assert(steps[k] == next[k]);
                            }
                        }
                        assert forall|k: int| #![trigger next[k]] 0 <= k < next.len() - 1 implies next[k].3 is Ok by {
                            if k < steps.len() - 1 {
                                assert(steps[k] == next[k]);
                            }
                        }
                        assert forall|k: int| 0 <= k < next.len() implies {
                            &&& (#[trigger] next[k]).0 < adjustments@.len()
                            &&& next[k].1 < self.policies@.len()
                            &&& call_ensures(P::policy_group_id, (&self.policies@[next[k].1 as int],), next[k].2)
                            &&& call_ensures(
                                P::apply_account_adjustment,
                                (&self.policies@[next[k].1 as int], account, &adjustments@[next[k].0 as int], nms[k]),
                                (next[k].3, nms[k + 1]),
                            )
                        } by {
                            if k < steps.len() {
                                assert(steps[k] == next[k]);
                            }
                        }
                        steps = next;
                        ms = nms;
                    }
                    j = j + 1;
                }
                index = index + 1;
            }
        }
        let ghost b = batch;
        let ghost items = mutations.items();
        let mut handle = self.take_handle();
        let r = settle_account_adjustment_batch(&mut handle, account, batch, mutations);
        self.put_handle(handle);
        proof {
            assert(adjustment_answers(old(self).spec_policies(), account, adjustments@, steps, ms));
            assert(adjustment_run(old(self).spec_policies(), account, adjustments@, steps, ms, b));
            assert(batch_settled(old(self).blocked_view(), account, b, ms.last().items(), r, self.blocked_view()));
        }
        r
    }
}

impl Configurator {
    /// Retunes the spot-funds policy named `name` of `engine`: found and entered
    /// as [`crate::configure::begin_configuration`] does, an error there changing
    /// nothing; otherwise `update` retunes the settings and answers the blocks of
    /// the accounts whose effective barrier now blocks them, which are recorded in
    /// the engine's blocked set (see [`configure_barrier`]).
    pub fn spot_funds<P: PreTradePolicy, F: FnOnce() -> Result<Vec<(AccountId, AccountBlock)>, String>>(
        &self,
        engine: &mut Engine<P>,
        active: &mut Vec<u64>,
        name: &str,
        update: F,
    ) -> (r: Result<Vec<AccountBlockOutcome>, ConfigureError>)
        requires
            old(engine).wf(),
            call_requires(update, ()),
        ensures
            final(engine).wf(),
            final(engine).spec_policies() == old(engine).spec_policies(),
            final(engine).groups_view() == old(engine).groups_view(),
            final(active)@ == old(active)@,
            barrier_retuned(
                self.spec_entries(),
                old(active)@,
                self.spec_identity(),
                name@,
                PolicyKind::SpotFunds,
                update,
                old(engine).blocked_view(),
                r,
                final(engine).blocked_view(),
            ),
    {
        let mut blocked = BlockedAccounts::new();
        std::mem::swap(&mut blocked, &mut engine.blocked);
        let r = configure_barrier(self.entries(), active, self.identity(), &mut blocked, name, PolicyKind::SpotFunds, update);
        std::mem::swap(&mut blocked, &mut engine.blocked);
        r
    }

    /// Force-sets the account P&L of the spot-funds policy named `name` of
    /// `engine` for `account`: `apply` sets it and answers the blocks the policy
    /// reports, each recorded on the account (see [`force_account_state`]).
    pub fn set_spot_funds_account_pnl<P: PreTradePolicy, F: FnOnce() -> Vec<AccountBlock>>(
        &self,
        engine: &mut Engine<P>,
        name: &str,
        account: AccountId,
        apply: F,
    ) -> (r: Result<Vec<AccountBlock>, ConfigureError>)
        requires
            old(engine).wf(),
            call_requires(apply, ()),
        ensures
            final(engine).wf(),
            final(engine).spec_policies() == old(engine).spec_policies(),
            final(engine).groups_view() == old(engine).groups_view(),
            account_state_forced(
                self.spec_entries(),
                name@,
                PolicyKind::SpotFunds,
                account,
                apply,
                old(engine).blocked_view(),
                r,
                final(engine).blocked_view(),
            ),
    {
        let mut blocked = BlockedAccounts::new();
        std::mem::swap(&mut blocked, &mut engine.blocked);
        let r = force_account_state(self.entries(), &mut blocked, name, PolicyKind::SpotFunds, account, apply);
        std::mem::swap(&mut blocked, &mut engine.blocked);
        r
    }
}

} // verus!
