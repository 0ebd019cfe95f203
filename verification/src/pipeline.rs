//! What the engine's pipelines decide once their policies have reported: how a
//! pre-trade request, a drop copy, a dry run and an account-adjustment batch end,
//! which mutations commit or roll back, and which blocks the kill switch records.
//!
//! Each function takes the verdicts a stage folded ([`PreTradeStageVerdict`],
//! [`AccountAdjustmentBatch`]) and the mutations the policies registered, runs the
//! finalizers the outcome calls for, and updates the blocked set.
use vstd::prelude::*;
use crate::account_control::{
    after_block_account, after_pre_trade_block, blocking_cause, is_mutation_finalizer_block,
    rejects_for, AccountBlockHandle, BlockedAccounts, BlockedView,
};
use crate::account_groups::AccountGroups;
use crate::account_outcome::{AccountAdjustmentBatchResult, AccountAdjustmentOutcome};
use crate::engine::{
    after_kill_switch, after_refused_order, fatal_drop_copy_rejects, fatal_of,
    is_callback_failure_reject, is_unreadable_account_reject, new_drop_copy_unreadable_account_rejects,
    settle_refused_drop_copy, settle_refused_order_for, AccountAdjustmentBatch,
    AccountAdjustmentBatchError, PreTradeStageVerdict,
};
use crate::mutation::{
    commit_gives, joined, rollback_gives, Mutation, MutationFailure, MutationFailureKillSwitch,
    MutationFailureScope, MutationRollbackResult, Mutations,
};
use crate::param::AccountId;
use crate::pretrade::{AccountBlock, PreTradeLock, Reject, RejectCode, RejectScope, Rejects};

verus! {

/// The kill-switch part of a finalizer report with reach `scope`: the reach with
/// the finalizer block `b`, or `None` when nothing failed.
pub open spec fn failure_of(scope: Option<MutationFailureScope>, b: AccountBlock) -> Option<
    (MutationFailureScope, AccountBlock),
> {
    match scope {
        Some(s) => Some((s, b)),
        None => None,
    }
}

/// Whether `after` is the blocked set `before` becomes once a finalizer report
/// with reach `scope` armed the kill switch of a pipeline on `account` (with the
/// engine's finalizer block); a report with no reach changes nothing.
pub open spec fn kill_switch_armed(
    before: BlockedView,
    account: Option<AccountId>,
    scope: Option<MutationFailureScope>,
    after: BlockedView,
) -> bool {
    &&& scope is None ==> after == before
    &&& scope is Some ==> exists|b: AccountBlock|
        is_mutation_finalizer_block(b) && after == #[trigger] after_kill_switch(
            before,
            account,
            failure_of(scope, b),
        )
}

/// Whether `after` is the blocked set `before` becomes once a refused order on
/// `account` rolled back with a report of reach `scope` and recorded the block
/// `requested` its policies asked for.
pub open spec fn refused_order_settled(
    before: BlockedView,
    account: Option<AccountId>,
    scope: Option<MutationFailureScope>,
    requested: Option<AccountBlock>,
    after: BlockedView,
) -> bool {
    &&& scope is None ==> after == after_refused_order(before, account, None, requested)
    &&& scope is Some ==> exists|b: AccountBlock|
        is_mutation_finalizer_block(b) && after == #[trigger] after_refused_order(
            before,
            account,
            failure_of(scope, b),
            requested,
        )
}

/// `v` after blocking account `id` with each of `blocks`, in order; the first cause
/// of the account wins.
pub open spec fn after_blocks(v: BlockedView, id: u64, blocks: Seq<AccountBlock>) -> BlockedView
    decreases blocks.len(),
{
    if blocks.len() == 0 {
        v
    } else {
        after_block_account(after_blocks(v, id, blocks.drop_last()), id, blocks.last())
    }
}

/// The first of `blocks`, if any.
pub open spec fn first_of(blocks: Seq<AccountBlock>) -> Option<AccountBlock> {
    if blocks.len() == 0 {
        None
    } else {
        Some(blocks[0])
    }
}

/// Blocks `account` with each of `blocks`, in order.
fn block_each(handle: &mut AccountBlockHandle, account: AccountId, blocks: &Vec<AccountBlock>)
    requires
        old(handle).wf(),
    ensures
        final(handle).wf(),
        final(handle)@ == after_blocks(old(handle)@, account.0, blocks@),
{
    let ghost start = handle@;
    let mut i: usize = 0;
    while i < blocks.len()
        invariant
            handle.wf(),
            i <= blocks@.len(),
            handle@ == after_blocks(start, account.0, blocks@.take(i as int)),
        decreases blocks@.len() - i,
    {
        proof {
            assert(blocks@.take(i + 1).drop_last() =~= blocks@.take(i as int));
        }
        handle.block_account(account, blocks[i].duplicate());
        i = i + 1;
    }
    proof {
        assert(blocks@.take(i as int) =~= blocks@);
    }
}

/// Arms the kill switch of a pipeline on `account` for a failure of reach `scope`.
fn arm_kill_switch(handle: &mut AccountBlockHandle, account: Option<AccountId>, scope: Option<MutationFailureScope>)
    requires
        old(handle).wf(),
    ensures
        final(handle).wf(),
        kill_switch_armed(old(handle)@, account, scope, final(handle)@),
{
    let ghost before = handle@;
    match scope {
        Some(s) => {
            handle.record_mutation_failure(account, s);
            proof {
                let b = choose|b: AccountBlock|
                    is_mutation_finalizer_block(b) && handle@ == match (s, account) {
                        (MutationFailureScope::Account, Some(a)) => after_block_account(before, a.0, b),
                        _ => crate::account_control::after_block_all_with_cause(before, b),
                    };
                assert(handle@ == after_kill_switch(before, account, failure_of(scope, b)));
            }
        },
        None => {},
    }
}

// ─── Account-adjustment batches ─────────────────────────────────────────────

/// Ends an account-adjustment batch on `account` once its policies reported into
/// `batch` and registered `mutations`. A rejected batch rolls every mutation back,
/// arms the kill switch if a rollback callback failed, and answers the rejection;
/// the reported blocks are discarded. An accepted batch commits every mutation,
/// arms the kill switch if a commit callback failed, then blocks the account with
/// each reported block (the more severe finalizer cause wins the account), and
/// answers the outcomes and blocks. An empty batch, with no mutations, answers an
/// empty result and changes nothing.
pub fn settle_account_adjustment_batch(
    handle: &mut AccountBlockHandle,
    account: AccountId,
    batch: AccountAdjustmentBatch,
    mutations: Mutations,
) -> (r: Result<AccountAdjustmentBatchResult, AccountAdjustmentBatchError>)
    requires
        old(handle).wf(),
    ensures
        final(handle).wf(),
        batch.rejection matches Some(e) ==> {
            &&& r == Err::<AccountAdjustmentBatchResult, AccountAdjustmentBatchError>(e)
            &&& exists|rb: MutationRollbackResult|
                rollback_gives(mutations.items(), rb) && #[trigger] kill_switch_armed(
                    old(handle)@,
                    Some(account),
                    rb.failure.spec_scope(),
                    final(handle)@,
                )
        },
        batch.rejection is None ==> {
            &&& r matches Ok(res) && res.outcomes@ == batch.outcomes@ && res.account_blocks@
                == batch.account_blocks@
            &&& exists|cf: MutationFailure, mid: BlockedView|
                commit_gives(mutations.items(), cf) && #[trigger] kill_switch_armed(
                    old(handle)@,
                    Some(account),
                    cf.spec_scope(),
                    mid,
                ) && final(handle)@ == after_blocks(mid, account.0, batch.account_blocks@)
        },
{
    let ghost items = mutations.items();
    if batch.is_rejected() {
        let rollback = mutations.rollback_all();
        arm_kill_switch(handle, Some(account), rollback.failure().scope());
        proof {
            assert(kill_switch_armed(old(handle)@, Some(account), rollback.failure.spec_scope(), handle@));
        }
        batch.finish()
    } else {
        let failure = mutations.commit_all();
        arm_kill_switch(handle, Some(account), failure.scope());
        let ghost mid = handle@;
        block_each(handle, account, &batch.account_blocks);
        proof {
            assert(kill_switch_armed(old(handle)@, Some(account), failure.spec_scope(), mid));
        }
        batch.finish()
    }
}

// ─── Drop copies ────────────────────────────────────────────────────────────

/// The rejects of `rejects` that report a failed evaluation.
pub open spec fn fatal_part(rejects: Option<Rejects>) -> Seq<Reject> {
    match rejects {
        Some(rs) => fatal_of(rs@),
        None => Seq::empty(),
    }
}

/// Whether `r` (with the blocked set going from `before` to `after`) is how a drop
/// copy on `account` that failed with the fatal rejects `fatal` ends, once rolling
/// back gave `rb`: the fatal rejects, followed by a callback-failure reject carrying
/// the rollback's failure texts when a rollback callback failed, in which case the
/// kill switch is armed for the account with the failure's reach.
pub open spec fn refused_drop_copy(
    before: BlockedView,
    account: AccountId,
    fatal: Seq<Reject>,
    rb: MutationRollbackResult,
    r: Seq<Reject>,
    after: BlockedView,
) -> bool {
    &&& rb.failure.spec_scope() is None ==> r == fatal && after == before
    &&& rb.failure.spec_scope() is Some ==> {
        &&& r.len() == fatal.len() + 1
        &&& r.take(fatal.len() as int) == fatal
        &&& is_callback_failure_reject(r.last(), joined(rb.failure.spec_details()))
        &&& kill_switch_armed(before, Some(account), rb.failure.spec_scope(), after)
    }
}

/// An accepted drop copy, ready for its owner to finalize.
pub struct DropCopyOutcome {
    /// Every mutation the start and main stages registered, in registration order.
    pub mutations: Mutations,
    /// Where a failed finalizer of `mutations` arms the kill switch.
    pub kill_switch: MutationFailureKillSwitch,
    /// Prices the main stage locked.
    pub lock: PreTradeLock,
    /// Outcomes the main stage reported.
    pub outcomes: Vec<AccountAdjustmentOutcome>,
    /// The first account block the drop copy recorded.
    pub account_block: Option<AccountBlock>,
    /// Whether the account is blocked once the drop copy's blocks were recorded.
    pub account_blocked: bool,
}

/// The account a drop copy runs for: one it cannot read fails the drop copy before
/// any policy runs.
pub fn drop_copy_account(account: Option<AccountId>) -> (r: Result<AccountId, Rejects>)
    ensures
        account matches Some(a) ==> r == Ok::<AccountId, Rejects>(a),
        account is None ==> (r matches Err(rs) && rs@.len() == 1 && is_unreadable_account_reject(rs@[0])),
{
    match account {
        Some(a) => Ok(a),
        None => Err(new_drop_copy_unreadable_account_rejects()),
    }
}

/// The main-stage part of a drop copy with its mutations taken by their items.
pub open spec fn main_items(main: Option<(PreTradeStageVerdict, Mutations)>) -> Option<
    (PreTradeStageVerdict, Seq<Mutation>),
> {
    match main {
        Some((v, m)) => Some((v, m.items())),
        None => None,
    }
}

/// Whether `r` and `after` are how a drop copy on `account` ends from the blocked
/// set `before` (memberships `groups`) once its start stage answered `start`
/// (having registered `start_items`) and, unless that failed an evaluation, its
/// main stage answered `main` with its own mutations (see [`settle_drop_copy`]).
pub open spec fn drop_copy_settled(
    before: BlockedView,
    groups: Map<u64, u32>,
    account: AccountId,
    start: PreTradeStageVerdict,
    start_items: Seq<Mutation>,
    main: Option<(PreTradeStageVerdict, Seq<Mutation>)>,
    r: Result<DropCopyOutcome, Rejects>,
    after: BlockedView,
) -> bool {
    &&& fatal_part(start.rejects).len() > 0 ==> exists|rb: MutationRollbackResult|
        #[trigger] rollback_gives(start_items, rb) && (r matches Err(rs) && refused_drop_copy(
            before,
            account,
            fatal_part(start.rejects),
            rb,
            rs@,
            after,
        ))
    &&& (fatal_part(start.rejects).len() == 0 && main is Some && fatal_part(main.unwrap().0.rejects).len() > 0)
        ==> exists|rb: MutationRollbackResult|
        #[trigger] rollback_gives(start_items + main.unwrap().1, rb) && (r matches Err(rs) && refused_drop_copy(
            before,
            account,
            fatal_part(main.unwrap().0.rejects),
            rb,
            rs@,
            after,
        ))
    &&& (fatal_part(start.rejects).len() == 0 && main is Some && fatal_part(main.unwrap().0.rejects).len() == 0)
        ==> {
        &&& r matches Ok(o) && {
            &&& o.mutations.items() == start_items + main.unwrap().1
            &&& o.kill_switch.armed() && o.kill_switch.account() == Some(account)
            &&& o.lock@ == main.unwrap().0.lock@
            &&& o.outcomes@ == main.unwrap().0.outcomes@
            &&& o.account_block == first_of(start.drop_copy_blocks@ + main.unwrap().0.drop_copy_blocks@)
            &&& o.account_blocked == (blocking_cause(after, groups, Some(account)) is Some)
        }
        &&& after == after_blocks(before, account.0, start.drop_copy_blocks@ + main.unwrap().0.drop_copy_blocks@)
    }
}

/// Ends a drop copy on `account` once its start stage answered `start` (having
/// registered `start_mutations`) and, unless the start stage failed an evaluation,
/// its main stage answered `main` with its own mutations. Existing blocks play no
/// part: only evaluation failures stop a drop copy.
///
/// - Fatal start rejects: the start mutations roll back, the main stage is
///   ignored, and the answer is those rejects (see [`refused_drop_copy`]).
/// - Otherwise, fatal main rejects: all mutations roll back (the main stage's,
///   then the start stage's, each in reverse order), and the answer is those
///   rejects likewise.
/// - Otherwise the drop copy is accepted: the start stage's drop-copy blocks, then
///   the main stage's, are recorded on the account (the first cause wins), and the
///   outcome carries all the mutations, the main stage's lock and outcomes, and
///   the first recorded block.
pub fn settle_drop_copy(
    handle: &mut AccountBlockHandle,
    groups: &AccountGroups,
    account: AccountId,
    start: PreTradeStageVerdict,
    start_mutations: Mutations,
    main: Option<(PreTradeStageVerdict, Mutations)>,
) -> (r: Result<DropCopyOutcome, Rejects>)
    requires
        old(handle).wf(),
        fatal_part(start.rejects).len() == 0 ==> main is Some,
    ensures
        final(handle).wf(),
        drop_copy_settled(
            old(handle)@,
            groups@,
            account,
            start,
            start_mutations.items(),
            main_items(main),
            r,
            final(handle)@,
        ),
{
    let ghost g_start = start;
    let ghost g_main = main_items(main);
    let ghost start_items = start_mutations.items();
    let PreTradeStageVerdict {
        rejects: start_rejects,
        account_block: _,
        drop_copy_blocks: start_blocks,
        lock: _,
        outcomes: _,
    } = start;
    let ghost start_fatal = fatal_part(start_rejects);
    match fatal_drop_copy_rejects(start_rejects) {
        Some(fatal) => {
            let rollback = start_mutations.rollback_all();
            let ghost rb = rollback;
            let rs = settle_refused_drop_copy(fatal, rollback, handle, account);
            proof {
                if rb.failure.spec_scope() is Some {
                    let b = choose|b: AccountBlock|
                        is_mutation_finalizer_block(b) && handle@ == match rb.failure.spec_scope().unwrap() {
                            MutationFailureScope::Account => after_block_account(old(handle)@, account.0, b),
                            MutationFailureScope::Global => crate::account_control::after_block_all_with_cause(
                                old(handle)@,
                                b,
                            ),
                        };
                    assert(handle@ == after_kill_switch(old(handle)@, Some(account), failure_of(rb.failure.spec_scope(), b)));
                }
                assert(refused_drop_copy(old(handle)@, account, start_fatal, rb, rs@, handle@));
                assert(rollback_gives(start_items, rb));
            }
            let r = Err(rs);
            proof {
                assert(drop_copy_settled(old(handle)@, groups@, account, g_start, start_items, g_main, r, handle@));
            }
            return r;
        },
        None => {},
    }
    let (main_verdict, main_mutations) = main.unwrap();
    let PreTradeStageVerdict {
        rejects: main_rejects,
        account_block: _,
        drop_copy_blocks: main_blocks,
        lock,
        outcomes,
    } = main_verdict;
    let ghost main_fatal = fatal_part(main_rejects);
    let mut all = start_mutations;
    all.append(main_mutations);
    match fatal_drop_copy_rejects(main_rejects) {
        Some(fatal) => {
            let rollback = all.rollback_all();
            let ghost rb = rollback;
            let rs = settle_refused_drop_copy(fatal, rollback, handle, account);
            proof {
                if rb.failure.spec_scope() is Some {
                    let b = choose|b: AccountBlock|
                        is_mutation_finalizer_block(b) && handle@ == match rb.failure.spec_scope().unwrap() {
                            MutationFailureScope::Account => after_block_account(old(handle)@, account.0, b),
                            MutationFailureScope::Global => crate::account_control::after_block_all_with_cause(
                                old(handle)@,
                                b,
                            ),
                        };
                    assert(handle@ == after_kill_switch(old(handle)@, Some(account), failure_of(rb.failure.spec_scope(), b)));
                }
                assert(refused_drop_copy(old(handle)@, account, main_fatal, rb, rs@, handle@));
                assert(rollback_gives(start_items + g_main.unwrap().1, rb));
            }
            let r = Err(rs);
            proof {
                assert(drop_copy_settled(old(handle)@, groups@, account, g_start, start_items, g_main, r, handle@));
            }
            r
        },
        None => {
            let mut blocks = start_blocks;
            let mut later = main_blocks;
            blocks.append(&mut later);
            block_each(handle, account, &blocks);
            let account_block = if blocks.len() > 0 {
                Some(blocks[0].duplicate())
            } else {
                None
            };
            let account_blocked = handle.inner().is_blocked(groups, account);
            let r = Ok(
                DropCopyOutcome {
                    mutations: all,
                    kill_switch: MutationFailureKillSwitch::new(Some(account)),
                    lock,
                    outcomes,
                    account_block,
                    account_blocked,
                },
            );
            proof {
                assert(drop_copy_settled(old(handle)@, groups@, account, g_start, start_items, g_main, r, handle@));
            }
            r
        },
    }
}

// ─── Pre-trade requests ─────────────────────────────────────────────────────

/// Whether `r` is the reject given when a request outlived its engine.
pub open spec fn is_engine_unavailable_reject(r: Reject) -> bool {
    &&& r.policy@ == "Engine"@
    &&& r.scope == RejectScope::Order
    &&& r.code == RejectCode::SystemUnavailable
    &&& r.reason@ == "engine is no longer available"@
    &&& r.details@ == "request handle outlived engine instance"@
}

/// The parts of an accepted pre-trade request, ready for its owner to finalize.
pub struct ReservationParts {
    /// The mutations the main stage registered, in registration order.
    pub mutations: Mutations,
    /// Where a failed finalizer of `mutations` arms the kill switch.
    pub kill_switch: MutationFailureKillSwitch,
    /// Prices the main stage locked.
    pub lock: PreTradeLock,
    /// Outcomes the main stage reported.
    pub outcomes: Vec<AccountAdjustmentOutcome>,
}

/// Whether a deferred request on `account` may run its main stage: not when its
/// engine is gone (`engine_alive` false), nor when the blocked set refuses it now.
pub fn begin_pre_trade_request(
    blocked: &BlockedAccounts,
    groups: &AccountGroups,
    engine_alive: bool,
    account: Option<AccountId>,
) -> (r: Result<(), Rejects>)
    requires
        blocked.wf(),
    ensures
        !engine_alive ==> (r matches Err(rs) && rs@.len() == 1 && is_engine_unavailable_reject(rs@[0])),
        engine_alive ==> (r is Ok <==> blocking_cause(blocked@, groups@, account) is None),
        engine_alive ==> (r matches Err(rs) ==> rejects_for(
            blocking_cause(blocked@, groups@, account).unwrap(),
            RejectScope::Order,
            rs@,
        )),
{
    if !engine_alive {
        return Err(
            Rejects::single(
                Reject::new(
                    "Engine",
                    RejectScope::Order,
                    RejectCode::SystemUnavailable,
                    "engine is no longer available",
                    "request handle outlived engine instance",
                ),
            ),
        );
    }
    match blocked.check_account(groups, account, RejectScope::Order) {
        Some(rs) => Err(rs),
        None => Ok(()),
    }
}

/// Ends a pre-trade request on `account` once its main stage answered `verdict`
/// and registered `mutations`. A refused request rolls every mutation back, arms
/// the kill switch if a rollback callback failed, then records the account block
/// the policies asked for, and answers the rejects. An accepted one changes
/// nothing and hands the mutations, a kill switch for the account, the lock and
/// the outcomes to the reservation.
pub fn finish_pre_trade_request(
    handle: &mut AccountBlockHandle,
    account: Option<AccountId>,
    verdict: PreTradeStageVerdict,
    mutations: Mutations,
) -> (r: Result<ReservationParts, Rejects>)
    requires
        old(handle).wf(),
    ensures
        final(handle).wf(),
        verdict.rejects matches Some(rs) ==> {
            &&& r == Err::<ReservationParts, Rejects>(rs)
            &&& exists|rb: MutationRollbackResult|
                rollback_gives(mutations.items(), rb) && #[trigger] refused_order_settled(
                    old(handle)@,
                    account,
                    rb.failure.spec_scope(),
                    verdict.account_block,
                    final(handle)@,
                )
        },
        verdict.rejects is None ==> {
            &&& r matches Ok(p) && {
                &&& p.mutations.items() == mutations.items()
                &&& p.kill_switch.armed() && p.kill_switch.account() == account
                &&& p.lock@ == verdict.lock@
                &&& p.outcomes@ == verdict.outcomes@
            }
            &&& final(handle)@ == old(handle)@
        },
{
    let PreTradeStageVerdict { rejects, account_block, drop_copy_blocks: _, lock, outcomes } = verdict;
    match rejects {
        Some(rs) => {
            let rollback = mutations.rollback_all();
            settle_refused_order_for(handle, account, &rollback, account_block);
            proof {
                if rollback.failure.spec_scope() is Some {
                    let b = choose|b: AccountBlock|
                        is_mutation_finalizer_block(b) && handle@ == after_refused_order(
                            old(handle)@,
                            account,
                            Some((rollback.failure.spec_scope().unwrap(), b)),
                            verdict.account_block,
                        );
                    assert(handle@ == after_refused_order(
                        old(handle)@,
                        account,
                        failure_of(rollback.failure.spec_scope(), b),
                        verdict.account_block,
                    ));
                }
                assert(refused_order_settled(
                    old(handle)@,
                    account,
                    rollback.failure.spec_scope(),
                    verdict.account_block,
                    handle@,
                ));
            }
            Err(rs)
        },
        None => Ok(
            ReservationParts {
                mutations,
                kill_switch: MutationFailureKillSwitch::new(account),
                lock,
                outcomes,
            },
        ),
    }
}

/// Ends the start stage of a pre-trade request on `account` once its policies
/// answered `verdict`: a refused request records the account block the policies
/// asked for on the account and answers the rejects; otherwise nothing changes.
pub fn finish_start_stage(
    handle: &mut AccountBlockHandle,
    account: Option<AccountId>,
    verdict: PreTradeStageVerdict,
) -> (r: Result<(), Rejects>)
    requires
        old(handle).wf(),
    ensures
        final(handle).wf(),
        verdict.rejects matches Some(rs) ==> {
            &&& r == Err::<(), Rejects>(rs)
            &&& final(handle)@ == match verdict.account_block {
                Some(b) => after_pre_trade_block(old(handle)@, account, b),
                None => old(handle)@,
            }
        },
        verdict.rejects is None ==> r is Ok && final(handle)@ == old(handle)@,
{
    let PreTradeStageVerdict { rejects, account_block, drop_copy_blocks: _, lock: _, outcomes: _ } = verdict;
    match rejects {
        Some(rs) => {
            match (account_block, account) {
                (Some(b), Some(id)) => {
                    handle.block_account(id, b);
                },
                _ => {},
            }
            Err(rs)
        },
        None => Ok(()),
    }
}

// ─── Dry runs ───────────────────────────────────────────────────────────────

/// What a dry run reports: the verdict, and the lock, outcomes and account block
/// the pipeline would produce. A dry run changes no state.
pub struct PreTradeDryRunReport {
    /// The rejects the pipeline would answer; `None` when it would pass.
    pub rejects: Option<Rejects>,
    /// Prices the main stage would lock.
    pub lock: PreTradeLock,
    /// Outcomes the main stage would report.
    pub account_adjustments: Vec<AccountAdjustmentOutcome>,
    /// The account block a refusing policy would record.
    pub account_block: Option<AccountBlock>,
}

/// Builds a dry-run report from what the pipeline would do: the blocked-set answer
/// `check` (a refused request runs no policy), the start stage's verdict, and the
/// main stage's (`None` for a start-stage-only dry run; start rejects mean the main
/// stage does not run).
pub fn dry_run_report(
    check: Option<Rejects>,
    start: Option<PreTradeStageVerdict>,
    main: Option<PreTradeStageVerdict>,
) -> (r: PreTradeDryRunReport)
    requires
        check is None ==> start is Some,
    ensures
        check matches Some(rs) ==> {
            &&& r.rejects == Some(rs)
            &&& r.lock@.len() == 0 && r.account_adjustments@.len() == 0 && r.account_block is None
        },
        (check is None && start.unwrap().rejects is Some) ==> {
            &&& r.rejects == start.unwrap().rejects
            &&& r.lock@.len() == 0 && r.account_adjustments@.len() == 0
            &&& r.account_block == start.unwrap().account_block
        },
        (check is None && start.unwrap().rejects is None && main is None) ==> {
            &&& r.rejects is None
            &&& r.lock@.len() == 0 && r.account_adjustments@.len() == 0
            &&& r.account_block == start.unwrap().account_block
        },
        (check is None && start.unwrap().rejects is None && main is Some) ==> {
            &&& r.rejects == main.unwrap().rejects
            &&& r.lock@ == main.unwrap().lock@
            &&& r.account_adjustments@ == main.unwrap().outcomes@
            &&& r.account_block == main.unwrap().account_block
        },
{
    match check {
        Some(rs) => {
            return PreTradeDryRunReport {
                rejects: Some(rs),
                lock: PreTradeLock::new(),
                account_adjustments: Vec::new(),
                account_block: None,
            };
        },
        None => {},
    }
    let s = start.unwrap();
    if s.rejects.is_some() || main.is_none() {
        return PreTradeDryRunReport {
            rejects: s.rejects,
            lock: PreTradeLock::new(),
            account_adjustments: Vec::new(),
            account_block: s.account_block,
        };
    }
    let m = main.unwrap();
    PreTradeDryRunReport {
        rejects: m.rejects,
        lock: m.lock,
        account_adjustments: m.outcomes,
        account_block: m.account_block,
    }
}

} // verus!
