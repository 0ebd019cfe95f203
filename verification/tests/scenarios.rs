use openpit::account_adjustment_operation::{
    AccountAdjustmentOperationAccess, PopulatedAccountAdjustmentOperation,
    PopulatedPositionOperation,
};
use openpit::account_control::{
    AccountBlockHandle, AccountControl, BlockedAccounts, DeferredAccountOperations,
};
use openpit::account_groups::AccountGroups;
use openpit::account_outcome::{AccountOutcomeEntry, OutcomeAmount};
use openpit::accounts::{StateTransitionAccess, StateTransitionAccessKind};
use openpit::decimal::{Decimal, ParseDecimalError};
use openpit::engine::{
    append_drop_copy_mutation_callback_rejects, append_pre_trade_policy_result,
    fatal_drop_copy_rejects, merge_reject_lists, new_drop_copy_unreadable_account_rejects,
    settle_execution_report, settle_refused_drop_copy, settle_refused_order, AccountAdjustmentBatch,
    PreTradeStage,
};
use openpit::mutation::{Mutation, MutationRollbackResult, Mutations};
use openpit::instrument_id::InstrumentId;
use openpit::param::{
    default_account_group, AccountGroupId, AccountId, Asset, AssetError, Instrument,
    InvalidAccountGroupId, InvalidLeverage, Leverage, PositionSize, Price,
};
use openpit::pretrade::{
    default_policy_group_id, AccountBlock, PolicyAccountAdjustmentResult, PolicyGroupId,
    PolicyPreTradeResult, PostTradeResult, PreTradeLock, Reject, RejectCode, RejectScope, Rejects,
    RequestFieldAccessError,
};
use openpit::request_trait::HasAccountId;
use openpit::reference_book::{ReferenceBook, ReferenceBookRegistrationError};
use openpit::request_trait::{HasBalanceAsset, HasPositionMode};
use openpit::text::decimal_text;

fn reject(policy: &str, scope: RejectScope, code: RejectCode) -> Reject {
    Reject::new(policy, scope, code, "reason", "details")
}

fn entry(asset: &str) -> AccountOutcomeEntry {
    AccountOutcomeEntry {
        asset: Asset::new(asset).expect("asset must be valid"),
        balance: Some(OutcomeAmount {
            delta: PositionSize::from_str("1").expect("must be valid"),
            absolute: PositionSize::from_str("5").expect("must be valid"),
        }),
        held: None,
        incoming: None,
        realized_pnl: None,
        average_entry_price: None,
    }
}

#[test]
fn decimal_parse_keeps_value_and_drops_trailing_zeros() {
    let d = Decimal::parse("1.25").expect("must be valid");
    assert_eq!((d.mantissa, d.scale), (125, 2));
    let d = Decimal::parse("1.50").expect("must be valid");
    assert_eq!((d.mantissa, d.scale), (15, 1));
    let d = Decimal::parse("-3").expect("must be valid");
    assert_eq!((d.mantissa, d.scale), (-3, 0));
    let d = Decimal::parse("100.000").expect("must be valid");
    assert_eq!((d.mantissa, d.scale), (100, 0));
    assert_eq!(
        Price::from_str("1.0").expect("must be valid"),
        Price::from_str("1").expect("must be valid")
    );
}

#[test]
fn decimal_parse_rejects_malformed_text() {
    for text in ["", "-", "1.", ".5", "1a", "1.2.3", "+1", "1 ", "12345678901234567890123456789"] {
        assert_eq!(Decimal::parse(text), Err(ParseDecimalError), "{text}");
    }
    assert!(Decimal::parse("1234567890123456789012345678").is_ok());
}

#[test]
fn leverage_refuses_zero() {
    assert_eq!(Leverage::from_u16(0), Err(InvalidLeverage { value: 0 }));
    assert_eq!(Leverage::from_u16(25).expect("must be valid").value(), 25);
}

#[test]
fn lock_prices_are_kept_per_group_in_order() {
    let mut lock = PreTradeLock::new();
    let a = PolicyGroupId::new(1);
    let b = PolicyGroupId::new(2);
    let p1 = Price::from_str("1").expect("must be valid");
    let p2 = Price::from_str("2").expect("must be valid");
    let p3 = Price::from_str("3").expect("must be valid");
    lock.push(a, p1);
    lock.push(b, p2);
    lock.push(a, p3);
    assert_eq!(lock.prices_of(a), vec![p1, p3]);
    assert_eq!(lock.prices_of(b), vec![p2]);
    assert_eq!(lock.prices_of(default_policy_group_id()), Vec::<Price>::new());
    assert_eq!(lock.duplicate(), lock);
}

#[test]
fn rejects_render_in_order() {
    let rejects = Rejects::new(vec![
        Reject::new("a", RejectScope::Order, RejectCode::Other, "r1", "d1"),
        Reject::new("b", RejectScope::Account, RejectCode::Other, "r2", "d2"),
    ]);
    assert_eq!(rejects.message(), "[a] r1: d1; [b] r2: d2");
    assert_eq!(Rejects::new(Vec::new()).message(), "");
}

#[test]
fn merged_reject_lists_keep_policy_order() {
    let lists = vec![
        Rejects::single(reject("a", RejectScope::Order, RejectCode::Other)),
        Rejects::new(Vec::new()),
        Rejects::single(reject("b", RejectScope::Order, RejectCode::Other)),
    ];
    let merged = merge_reject_lists(lists, 2).expect("two rejects were collected");
    assert_eq!(merged.len(), 2);
    assert_eq!(merged.get(0).policy, "a");
    assert_eq!(merged.get(1).policy, "b");
    assert!(merge_reject_lists(Vec::new(), 0).is_none());
}

#[test]
fn drop_copy_keeps_only_evaluation_failures_as_fatal() {
    let rejects = Rejects::new(vec![
        reject("limit", RejectScope::Order, RejectCode::RateLimitExceeded),
        reject("field", RejectScope::Order, RejectCode::MissingRequiredField),
        reject("funds", RejectScope::Order, RejectCode::InsufficientFunds),
        reject("math", RejectScope::Order, RejectCode::ArithmeticOverflow),
    ]);
    let fatal = fatal_drop_copy_rejects(Some(rejects)).expect("two rejects are fatal");
    assert_eq!(fatal.len(), 2);
    assert_eq!(fatal.get(0).policy, "field");
    assert_eq!(fatal.get(1).policy, "math");

    let business = Rejects::single(reject("limit", RejectScope::Order, RejectCode::RateLimitExceeded));
    assert!(fatal_drop_copy_rejects(Some(business)).is_none());
    assert!(fatal_drop_copy_rejects(None).is_none());
}

#[test]
fn drop_copy_engine_rejects_are_stable() {
    let unreadable = new_drop_copy_unreadable_account_rejects();
    assert_eq!(unreadable.len(), 1);
    assert_eq!(unreadable.get(0).code, RejectCode::MissingRequiredField);
    assert_eq!(unreadable.get(0).scope, RejectScope::Order);

    let base = Rejects::single(reject("p", RejectScope::Order, RejectCode::Other));
    let with_callback =
        append_drop_copy_mutation_callback_rejects(base, "callback exploded".to_string());
    assert_eq!(with_callback.len(), 2);
    assert_eq!(with_callback.get(0).policy, "p");
    assert_eq!(with_callback.get(1).code, RejectCode::SystemUnavailable);
    assert_eq!(with_callback.get(1).details, "callback exploded");
}

#[test]
fn policy_results_are_tagged_with_their_group() {
    let group = PolicyGroupId::new(7);
    let mut lock = PreTradeLock::new();
    let mut outcomes = Vec::new();
    let mut result = PolicyPreTradeResult::with_capacity(1, 1);
    result.account_adjustments.push(entry("USD"));
    result.lock_prices.push(Price::from_str("10").expect("must be valid"));
    append_pre_trade_policy_result(result, group, &mut lock, &mut outcomes);
    assert_eq!(outcomes.len(), 1);
    assert_eq!(outcomes[0].policy_group_id, group);
    assert_eq!(outcomes[0].entry, entry("USD"));
    assert_eq!(lock.prices_of(group), vec![Price::from_str("10").expect("must be valid")]);
}

#[test]
fn adjustment_batch_collects_until_the_first_reject() {
    let mut batch = AccountAdjustmentBatch::new();
    let mut accepted = PolicyAccountAdjustmentResult::new();
    accepted.account_adjustments.push(entry("USD"));
    accepted
        .account_blocks
        .push(AccountBlock::new("p", RejectCode::Other, "r", "d"));
    batch.record(0, PolicyGroupId::new(3), Ok(accepted));
    assert!(!batch.is_rejected());
    let result = AccountAdjustmentBatch::finish(batch).expect("nothing was rejected");
    assert_eq!(result.outcomes.len(), 1);
    assert_eq!(result.outcomes[0].policy_group_id, PolicyGroupId::new(3));
    assert_eq!(result.account_blocks.len(), 1);

    let mut batch = AccountAdjustmentBatch::new();
    batch.record(0, PolicyGroupId::new(3), Ok(PolicyAccountAdjustmentResult::new()));
    batch.record(
        1,
        PolicyGroupId::new(3),
        Err(Rejects::single(reject("p", RejectScope::Order, RejectCode::Other))),
    );
    assert!(batch.is_rejected());
    let error = batch.finish().expect_err("the second adjustment was rejected");
    assert_eq!(error.failed_adjustment_index, 1);
    assert_eq!(error.rejects.get(0).policy, "p");
}

#[test]
fn stage_reports_the_first_account_block_and_merges_rejects() {
    let mut stage = PreTradeStage::new(false);
    stage.record_start_verdict(Ok(()));
    stage.record_start_verdict(Err(Rejects::new(vec![
        reject("a", RejectScope::Order, RejectCode::Other),
        reject("a", RejectScope::Account, RejectCode::PnlKillSwitchTriggered),
    ])));
    stage.record_start_verdict(Err(Rejects::single(reject(
        "b",
        RejectScope::Account,
        RejectCode::Other,
    ))));
    let verdict = stage.finish();
    let rejects = verdict.rejects.expect("two policies refused");
    assert_eq!(rejects.len(), 3);
    let block = verdict.account_block.expect("policy a asked for a block");
    assert_eq!(block.policy, "a");
    assert_eq!(block.code, RejectCode::AccountBlocked);
    assert!(verdict.drop_copy_blocks.is_empty());

    let empty = PreTradeStage::new(false).finish();
    assert!(empty.rejects.is_none());
    assert!(empty.account_block.is_none());
}

#[test]
fn drop_copy_stage_keeps_attached_results_of_business_rejects_only() {
    let group = PolicyGroupId::new(4);
    let mut attached = PolicyPreTradeResult::new();
    attached.account_adjustments.push(entry("EUR"));
    let mut stage = PreTradeStage::new(true);
    stage.record_main_verdict(
        group,
        Err((
            Rejects::single(reject("p", RejectScope::Account, RejectCode::InsufficientFunds)),
            Some(attached),
        )),
    );
    let mut dropped = PolicyPreTradeResult::new();
    dropped.account_adjustments.push(entry("GBP"));
    stage.record_main_verdict(
        group,
        Err((
            Rejects::single(reject("q", RejectScope::Order, RejectCode::MissingRequiredField)),
            Some(dropped),
        )),
    );
    let verdict = stage.finish();
    assert_eq!(verdict.outcomes.len(), 1);
    assert_eq!(verdict.outcomes[0].entry, entry("EUR"));
    assert_eq!(verdict.drop_copy_blocks.len(), 1);
    assert_eq!(verdict.drop_copy_blocks[0].policy, "p");
}

#[test]
fn reference_book_assigns_the_next_free_id() {
    let mut book = ReferenceBook::new();
    let a = Instrument::new(
        Asset::new("A").expect("must be valid"),
        Asset::new("USD").expect("must be valid"),
    );
    let b = Instrument::new(
        Asset::new("B").expect("must be valid"),
        Asset::new("USD").expect("must be valid"),
    );
    let c = Instrument::new(
        Asset::new("C").expect("must be valid"),
        Asset::new("USD").expect("must be valid"),
    );
    assert_eq!(book.register_with_id(a.clone(), InstrumentId::new(0)), Ok(InstrumentId::new(0)));
    assert_eq!(book.register(b.clone()), Ok(InstrumentId::new(1)));
    assert_eq!(book.resolve(&b), Some(InstrumentId::new(1)));
    assert_eq!(book.settlement_scheme(InstrumentId::new(1)), Ok(None));
    assert_eq!(
        book.register(a.clone()),
        Err(ReferenceBookRegistrationError::DuplicateInstrument { instrument: a.clone() })
    );
    assert_eq!(book.register(c.clone()), Ok(InstrumentId::new(2)));
    assert_eq!(book.resolve(&a), Some(InstrumentId::new(0)));
    assert_eq!(u64::from(InstrumentId::from(9u64)), 9);
}

#[test]
fn transition_lease_excludes_writers_and_lets_rollback_bypass_the_queue() {
    let mut lease = StateTransitionAccess::new();
    assert!(lease.try_acquire_shared(false));
    lease.enqueue_exclusive();
    assert!(!lease.try_acquire_exclusive());
    assert!(!lease.try_acquire_shared(false));
    assert!(lease.try_acquire_shared(true));
    lease.release(StateTransitionAccessKind::Shared);
    lease.release(StateTransitionAccessKind::Shared);
    assert!(lease.try_acquire_exclusive());
    assert!(!lease.try_acquire_shared(true));
    lease.release(StateTransitionAccessKind::Exclusive);
    assert!(lease.try_acquire_shared(false));
}

#[test]
fn deferred_operations_apply_in_recording_order() {
    let account = AccountId::from_u64(5);
    let mut deferred = DeferredAccountOperations::new();
    assert_eq!(
        deferred.record_block(account, AccountBlock::new("first", RejectCode::Other, "r", "d")),
        Ok(())
    );
    assert_eq!(
        deferred.record_block(account, AccountBlock::new("second", RejectCode::Other, "r", "d")),
        Ok(())
    );
    assert_eq!(
        deferred.first_block().expect("a block was recorded").policy,
        "first"
    );
    let mut blocked = BlockedAccounts::new();
    deferred.apply(&mut blocked);
    assert_eq!(
        blocked.account_block(account).expect("the account is blocked").policy,
        "first"
    );
    let late = AccountBlock::new("late", RejectCode::Other, "r", "d");
    assert_eq!(deferred.record_block(account, late.clone()), Err(late));
}

#[test]
fn control_without_deferred_buffer_writes_through_and_retires_its_provenance() {
    let account = AccountId::from_u64(8);
    let mut handle = AccountBlockHandle::from_inner(BlockedAccounts::new());
    let mut control = AccountControl::new(account);
    control.block(
        &mut handle,
        AccountBlock::new("p", RejectCode::Other, "r", "d").with_provenance(Some(3)),
    );
    assert!(handle.inner().is_blocked(&AccountGroups::new(), account));
    let removed = control.invalidate_provenance(&mut handle, 3);
    assert_eq!(removed.expect("own provenance").policy, "p");
    assert!(!handle.inner().is_blocked(&AccountGroups::new(), account));
}

#[test]
fn decimal_text_renders_without_leading_zeros() {
    assert_eq!(decimal_text(0), "0");
    assert_eq!(decimal_text(1207), "1207");
    assert_eq!(decimal_text(u64::MAX), "18446744073709551615");
}

#[test]
fn asset_codes_must_be_printable_and_non_empty() {
    assert_eq!(Asset::new(""), Err(AssetError::Empty));
    assert_eq!(Asset::new("US D"), Err(AssetError::InvalidCharacter));
    assert_eq!(Asset::new("€"), Err(AssetError::InvalidCharacter));
    assert_eq!(Asset::new("USD").expect("must be valid").as_str(), "USD");
}

#[test]
fn the_default_account_group_cannot_be_named_explicitly() {
    assert_eq!(AccountGroupId::from_u32(0), Err(InvalidAccountGroupId { value: 0 }));
    assert!(default_account_group().is_default_group());
    assert_eq!(AccountGroupId::from_u32(7).expect("must be valid").as_u32(), 7);
}

#[test]
fn missing_required_operation_fields_are_named() {
    let access = AccountAdjustmentOperationAccess::Populated(
        PopulatedAccountAdjustmentOperation::Position(PopulatedPositionOperation {
            instrument: None,
            collateral_asset: None,
            average_entry_price: None,
            mode: None,
            leverage: None,
        }),
    );
    assert_eq!(
        access.position_mode().expect_err("mode is missing").field(),
        "operation.position_mode"
    );
    assert_eq!(
        AccountAdjustmentOperationAccess::Absent
            .balance_asset()
            .expect_err("the group is absent")
            .field(),
        "operation.balance_asset"
    );
}

struct Report(Option<AccountId>);

impl HasAccountId for Report {
    fn account_id(&self) -> Result<AccountId, RequestFieldAccessError> {
        self.0.ok_or(RequestFieldAccessError::new("account_id"))
    }
}

fn post_trade(blocks: Vec<AccountBlock>) -> PostTradeResult {
    let mut result = PostTradeResult::new();
    result.account_blocks = blocks;
    result
}

#[test]
fn execution_report_blocks_the_account_with_the_first_reported_block() {
    let account = AccountId::from_u64(3);
    let mut blocked = BlockedAccounts::new();
    let first = AccountBlock::new("first", RejectCode::PnlKillSwitchTriggered, "r", "d");
    let second = AccountBlock::new("second", RejectCode::Other, "r", "d");
    let result = settle_execution_report(
        &mut blocked,
        &Report(Some(account)),
        vec![None, Some(post_trade(vec![first.clone()])), Some(post_trade(vec![second.clone()]))],
    );
    assert_eq!(result.account_blocks, vec![first.clone(), second]);
    assert_eq!(blocked.account_block(account), Some(first));
    assert!(!blocked.is_all_blocked());

    let mut untouched = BlockedAccounts::new();
    let quiet = settle_execution_report(&mut untouched, &Report(Some(account)), vec![None]);
    assert!(quiet.account_blocks.is_empty());
    assert_eq!(untouched.account_block(account), None);

    let mut global = BlockedAccounts::new();
    settle_execution_report(
        &mut global,
        &Report(None),
        vec![Some(post_trade(vec![AccountBlock::new("p", RejectCode::Other, "r", "d")]))],
    );
    assert!(global.is_all_blocked());
}

fn always_true() -> bool {
    true
}

fn always_false() -> bool {
    false
}

#[test]
fn refused_drop_copy_reports_a_failed_rollback_and_arms_the_kill_switch() {
    let account = AccountId::from_u64(12);
    let rejects = Rejects::single(reject("p", RejectScope::Order, RejectCode::MissingRequiredField));

    let mut handle = AccountBlockHandle::from_inner(BlockedAccounts::new());
    let settled =
        settle_refused_drop_copy(rejects.clone(), MutationRollbackResult::new(), &mut handle, account);
    assert_eq!(settled, rejects);
    assert!(!handle.inner().is_blocked(&AccountGroups::new(), account));

    let mut mutations = Mutations::new();
    mutations.push(Mutation::new_fallible(always_true, always_false));
    let rollback = mutations.rollback_all();
    let settled = settle_refused_drop_copy(rejects, rollback, &mut handle, account);
    assert_eq!(settled.len(), 2);
    assert_eq!(settled.get(1).code, RejectCode::SystemUnavailable);
    assert!(settled.get(1).details.contains("rollback callback failed"));
    assert!(handle.inner().is_all_blocked());
}

#[test]
fn refused_order_records_the_finalizer_failure_before_the_requested_block() {
    let account = AccountId::from_u64(21);
    let requested = AccountBlock::new("policy", RejectCode::AccountBlocked, "r", "d");

    let mut handle = AccountBlockHandle::from_inner(BlockedAccounts::new());
    settle_refused_order(
        &mut handle,
        &Report(Some(account)),
        &MutationRollbackResult::new(),
        Some(requested.clone()),
    );
    assert_eq!(handle.inner().account_block(account), Some(requested.clone()));

    let mut handle = AccountBlockHandle::from_inner(BlockedAccounts::new());
    let rollback = MutationRollbackResult::engine_owned_callback_failure("lost".to_string());
    settle_refused_order(&mut handle, &Report(Some(account)), &rollback, Some(requested.clone()));
    let stored = handle.inner().account_block(account).expect("the account is blocked");
    assert_eq!(stored.reason, "mutation finalizer failed");
    assert!(!handle.inner().is_all_blocked());

    let mut handle = AccountBlockHandle::from_inner(BlockedAccounts::new());
    settle_refused_order(&mut handle, &Report(None), &MutationRollbackResult::new(), Some(requested));
    assert!(!handle.inner().is_all_blocked());
    assert!(!handle.inner().is_blocked(&AccountGroups::new(), account));
}
