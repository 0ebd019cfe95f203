use std::cell::{Cell, RefCell};
use std::rc::Rc;

use openpit::configure::{Configurator, PolicyKind};
use openpit::engine::{AccountAdjustmentBatchError, EngineBuildError, MainVerdict};
use openpit::mutation::{Mutation, MutationRollbackResult, Mutations};
use openpit::account_outcome::{AccountOutcomeEntry, OutcomeAmount};
use openpit::param::{AccountGroupId, AccountId, Asset, PositionSize, Price};
use openpit::pre_trade_engine::{Engine, PreTradePolicy};
use openpit::pretrade::{
    AccountBlock, PolicyAccountAdjustmentResult, PolicyGroupId, PolicyPreTradeResult, PostTradeResult,
    Reject, RejectCode, RejectScope, Rejects, RequestFieldAccessError,
};
use openpit::request_trait::HasAccountId;

const ACCOUNT: u64 = 99224416;

#[derive(Clone, Debug, PartialEq, Eq)]
struct MockAdjustment {
    id: u64,
    amount: u64,
}

#[derive(Default)]
struct MockOrder {
    account: Option<u64>,
    account_reads: Option<Rc<Cell<u32>>>,
}

impl HasAccountId for MockOrder {
    fn account_id(&self) -> Result<AccountId, RequestFieldAccessError> {
        if let Some(reads) = &self.account_reads {
            reads.set(reads.get() + 1);
        }
        match self.account {
            Some(id) => Ok(AccountId::from_u64(id)),
            None => Err(RequestFieldAccessError::new("account_id")),
        }
    }
}

fn order() -> MockOrder {
    MockOrder {
        account: Some(ACCOUNT),
        ..Default::default()
    }
}

fn reject(policy: &str, scope: RejectScope, code: RejectCode) -> Rejects {
    reject_with(policy, scope, code, "mock reject")
}

fn reject_with(policy: &str, scope: RejectScope, code: RejectCode, reason: &str) -> Rejects {
    Rejects::single(Reject::new(policy, scope, code, reason, "mock policy rejected"))
}

#[derive(Default)]
struct MockPolicy {
    name: String,
    group: u32,
    start_reject: Option<(RejectScope, RejectCode)>,
    start_block_flag: Option<Rc<Cell<bool>>>,
    main_reject: Option<(RejectScope, RejectCode)>,
    main_calls: Option<Rc<Cell<u32>>>,
    adjustment_seen: Option<Rc<RefCell<Vec<MockAdjustment>>>>,
    adjustment_reject_on: Option<u64>,
    mutation_state: Option<Rc<RefCell<Option<bool>>>>,
    failing: Option<(Owner, Failing)>,
    report_blocks: Vec<AccountBlock>,
    start_rollback_failure: Option<String>,
    main_rollback_failure: Option<String>,
    eager_start_value: Option<Rc<Cell<usize>>>,
    start_calls: Option<Rc<Cell<u32>>>,
    ordered_calls: Option<Rc<RefCell<Vec<&'static str>>>>,
    main_result: Option<PolicyPreTradeResult>,
    main_reject_reason: Option<&'static str>,
    main_reject_attached: Option<PolicyPreTradeResult>,
    counted_rollback_failure: Option<Rc<Cell<u32>>>,
    valued_mutation: Option<(Rc<RefCell<Option<bool>>>, bool, bool)>,
}

#[derive(Clone, Copy, PartialEq, Eq, Debug)]
enum Failing {
    Commit,
    Rollback,
}

#[derive(Clone, Copy, PartialEq, Eq, Debug)]
enum Owner {
    EngineOwned,
    CustomPolicy,
}

const OWNERS: [Owner; 2] = [Owner::EngineOwned, Owner::CustomPolicy];
const OTHER_ACCOUNT: u64 = 5;

fn failing_mutation(owner: Owner, finalizer: Failing) -> Mutation {
    let commit_succeeds = finalizer != Failing::Commit;
    let rollback_succeeds = finalizer != Failing::Rollback;
    match owner {
        Owner::EngineOwned => Mutation::new_reporting(
            move || commit_succeeds,
            move || {
                if rollback_succeeds {
                    MutationRollbackResult::default()
                } else {
                    MutationRollbackResult::engine_owned_callback_failure(
                        "engine-owned rollback callback failed".to_string(),
                    )
                }
            },
        ),
        Owner::CustomPolicy => Mutation::new_fallible(move || commit_succeeds, move || rollback_succeeds),
    }
}

fn order_for(account: u64) -> MockOrder {
    MockOrder {
        account: Some(account),
        ..Default::default()
    }
}

fn assert_mutation_failure_reject(reject: &Reject) {
    assert_eq!(reject.code, RejectCode::SystemUnavailable);
    assert_eq!(reject.reason, "mutation finalizer failed");
    assert!(!reject.details.contains(&ACCOUNT.to_string()));
}

fn assert_kill_switch(owner: Owner, engine: &mut Engine<MockPolicy>) {
    let pipeline = engine.start_pre_trade(order_for(ACCOUNT)).err();
    let other = engine.start_pre_trade(order_for(OTHER_ACCOUNT)).err();
    let rejects = pipeline.expect("a failed finalizer must block its own account");
    assert_mutation_failure_reject(&rejects.items[0]);
    match owner {
        Owner::EngineOwned => assert!(other.is_none()),
        Owner::CustomPolicy => {
            let rejects = other.expect("a custom-policy mutation blocks everything");
            assert_mutation_failure_reject(&rejects.items[0]);
        }
    }
}

fn finalizer_policy(owner: Owner, failing: Failing) -> MockPolicy {
    MockPolicy {
        failing: Some((owner, failing)),
        ..MockPolicy::named("finalizer")
    }
}

impl MockPolicy {
    fn named(name: &str) -> Self {
        MockPolicy {
            name: name.to_string(),
            ..Default::default()
        }
    }
}

impl PreTradePolicy for MockPolicy {
    type Order = MockOrder;
    type ExecutionReport = MockOrder;
    type AccountAdjustment = MockAdjustment;

    fn name(&self) -> String {
        self.name.clone()
    }

    fn policy_group_id(&self) -> PolicyGroupId {
        PolicyGroupId::new(self.group)
    }

    fn check_pre_trade_start(&self, _order: &MockOrder) -> Result<(), Rejects> {
        if let Some(calls) = &self.start_calls {
            calls.set(calls.get() + 1);
        }
        if let Some(flag) = &self.start_block_flag {
            if flag.get() {
                return Err(reject_with(
                    &self.name,
                    RejectScope::Account,
                    RejectCode::Other,
                    "pnl kill switch triggered",
                ));
            }
            return Ok(());
        }
        match self.start_reject {
            Some((scope, code)) => Err(reject_with(&self.name, scope, code, "start reject")),
            None => Ok(()),
        }
    }

    fn check_pre_trade_start_dry_run(&self, order: &MockOrder) -> Result<(), Rejects> {
        self.check_pre_trade_start(order)
    }

    fn check_drop_copy_start(&self, order: &MockOrder, mutations: Mutations) -> (Result<(), Rejects>, Mutations) {
        let mut mutations = mutations;
        if let Some(value) = &self.eager_start_value {
            let previous = value.get();
            value.set(previous + 1);
            let rollback_value = Rc::clone(value);
            mutations.push(Mutation::new(|| {}, move || rollback_value.set(previous)));
        }
        if let Some(details) = &self.start_rollback_failure {
            let details = details.clone();
            mutations.push(Mutation::new_fallible_with_error(|| Ok(()), move || Err(details)));
        }
        (self.check_pre_trade_start(order), mutations)
    }

    fn perform_pre_trade_check(&self, _order: &MockOrder, mutations: Mutations) -> (MainVerdict, Mutations) {
        let mut mutations = mutations;
        if let Some(calls) = &self.main_calls {
            calls.set(calls.get() + 1);
        }
        if let Some((owner, failing)) = self.failing {
            mutations.push(failing_mutation(owner, failing));
        }
        if let Some(state) = &self.mutation_state {
            let commit = Rc::clone(state);
            let rollback = Rc::clone(state);
            mutations.push(Mutation::new(
                move || *commit.borrow_mut() = Some(true),
                move || *rollback.borrow_mut() = Some(false),
            ));
        }
        if let Some(calls) = &self.ordered_calls {
            let commit = Rc::clone(calls);
            let rollback = Rc::clone(calls);
            mutations.push(Mutation::new(
                move || commit.borrow_mut().push("commit-first"),
                move || rollback.borrow_mut().push("rollback-first"),
            ));
            let commit = Rc::clone(calls);
            let rollback = Rc::clone(calls);
            mutations.push(Mutation::new(
                move || commit.borrow_mut().push("commit-second"),
                move || rollback.borrow_mut().push("rollback-second"),
            ));
        }
        if let Some(details) = &self.main_rollback_failure {
            let details = details.clone();
            mutations.push(Mutation::new_fallible_with_error(|| Ok(()), move || Err(details)));
        }
        if let Some((state, commit_value, rollback_value)) = &self.valued_mutation {
            let c = Rc::clone(state);
            let r = Rc::clone(state);
            let (commit_value, rollback_value) = (*commit_value, *rollback_value);
            mutations.push(Mutation::new(
                move || *c.borrow_mut() = Some(commit_value),
                move || *r.borrow_mut() = Some(rollback_value),
            ));
        }
        if let Some(calls) = &self.counted_rollback_failure {
            let rollback = Rc::clone(calls);
            mutations.push(Mutation::new_fallible(
                || true,
                move || {
                    rollback.set(rollback.get() + 1);
                    false
                },
            ));
        }
        let verdict = match self.main_reject {
            Some((scope, code)) => Err((
                reject_with(&self.name, scope, code, self.main_reject_reason.unwrap_or("main reject")),
                self.main_reject_attached.clone(),
            )),
            None => Ok(self.main_result.clone()),
        };
        (verdict, mutations)
    }

    fn perform_pre_trade_check_dry_run(&self, _order: &MockOrder, mutations: Mutations) -> (MainVerdict, Mutations) {
        let verdict = match self.main_reject {
            Some((scope, code)) => Err((reject(&self.name, scope, code), self.main_reject_attached.clone())),
            None => Ok(self.main_result.clone()),
        };
        (verdict, mutations)
    }

    fn apply_execution_report(&self, _report: &MockOrder) -> Option<PostTradeResult> {
        if self.report_blocks.is_empty() {
            return None;
        }
        let mut result = PostTradeResult::new();
        result.account_blocks = self.report_blocks.clone();
        Some(result)
    }

    fn apply_account_adjustment(
        &self,
        _account: AccountId,
        adjustment: &MockAdjustment,
        mutations: Mutations,
    ) -> (Result<PolicyAccountAdjustmentResult, Rejects>, Mutations) {
        let mut mutations = mutations;
        if let Some(seen) = &self.adjustment_seen {
            seen.borrow_mut().push(adjustment.clone());
        }
        if let Some((owner, failing)) = self.failing {
            mutations.push(failing_mutation(owner, failing));
        }
        if let Some(state) = &self.mutation_state {
            let commit = Rc::clone(state);
            let rollback = Rc::clone(state);
            mutations.push(Mutation::new(
                move || *commit.borrow_mut() = Some(true),
                move || *rollback.borrow_mut() = Some(false),
            ));
        }
        if self.adjustment_reject_on == Some(adjustment.id) {
            return (Err(reject(&self.name, RejectScope::Order, RejectCode::Other)), mutations);
        }
        (Ok(PolicyAccountAdjustmentResult::new()), mutations)
    }
}

fn adjustment_policy(name: &str, seen: &Rc<RefCell<Vec<MockAdjustment>>>) -> MockPolicy {
    MockPolicy {
        adjustment_seen: Some(Rc::clone(seen)),
        ..MockPolicy::named(name)
    }
}

fn rejecting_adjustment_policy(name: &str, seen: &Rc<RefCell<Vec<MockAdjustment>>>, id: u64) -> MockPolicy {
    MockPolicy {
        adjustment_reject_on: Some(id),
        ..adjustment_policy(name, seen)
    }
}

fn build(policies: Vec<MockPolicy>) -> Engine<MockPolicy> {
    match Engine::build(policies) {
        Ok(engine) => engine,
        Err(_) => panic!("engine must build"),
    }
}

fn adjust(engine: &mut Engine<MockPolicy>, batch: &[MockAdjustment]) -> Result<(), AccountAdjustmentBatchError> {
    engine
        .apply_account_adjustment(AccountId::from_u64(ACCOUNT), &batch.to_vec())
        .map(|_| ())
}

#[test]
fn build_rejects_duplicate_policy_names_across_stages() {
    let result = Engine::build(vec![MockPolicy::named("dup"), MockPolicy::named("dup")]);
    assert!(matches!(
        result,
        Err(EngineBuildError::DuplicatePolicyName { name }) if name == "dup"
    ));
}

#[test]
fn build_rejects_duplicate_policy_names_within_start_stage() {
    let start = MockPolicy {
        start_reject: None,
        ..MockPolicy::named("dup")
    };
    let result = Engine::build(vec![start, MockPolicy::named("dup")]);
    assert!(matches!(
        result,
        Err(EngineBuildError::DuplicatePolicyName { name }) if name == "dup"
    ));
}

#[test]
fn build_rejects_duplicate_non_default_group_ids() {
    let group_id = PolicyGroupId::new(7);
    let a = MockPolicy {
        group: 7,
        ..MockPolicy::named("a")
    };
    let b = MockPolicy {
        group: 7,
        ..MockPolicy::named("b")
    };
    let result = Engine::build(vec![a, b]);
    assert!(matches!(
        result,
        Err(EngineBuildError::DuplicatePolicyGroupId { policy_group_id: gid }) if gid == group_id
    ));
}

#[test]
fn build_allows_multiple_policies_sharing_default_group_id() {
    let result = Engine::build(vec![MockPolicy::named("a"), MockPolicy::named("b")]);
    assert!(result.is_ok());
}

#[test]
fn build_rejects_duplicate_policy_names_between_start_and_account_adjustment() {
    let seen = Rc::new(RefCell::new(Vec::new()));
    let result = Engine::build(vec![MockPolicy::named("dup"), adjustment_policy("dup", &seen)]);
    assert!(matches!(
        result,
        Err(EngineBuildError::DuplicatePolicyName { name }) if name == "dup"
    ));
}

#[test]
fn apply_account_adjustment_passes_adjustment_to_policy_for_single_element() {
    let seen = Rc::new(RefCell::new(Vec::new()));
    let mut engine = build(vec![adjustment_policy("adj", &seen)]);
    let batch = [MockAdjustment { id: 7, amount: 120 }];
    assert!(adjust(&mut engine, &batch).is_ok());
    assert_eq!(*seen.borrow(), vec![MockAdjustment { id: 7, amount: 120 }]);
}

#[test]
fn apply_account_adjustment_returns_failing_index() {
    let seen = Rc::new(RefCell::new(Vec::new()));
    let mut engine = build(vec![rejecting_adjustment_policy("adj_reject", &seen, 1)]);
    let batch = [
        MockAdjustment { id: 0, amount: 10 },
        MockAdjustment { id: 1, amount: 20 },
        MockAdjustment { id: 2, amount: 30 },
    ];
    let result = adjust(&mut engine, &batch);
    assert!(matches!(
        result,
        Err(AccountAdjustmentBatchError {
            failed_adjustment_index: 1,
            rejects,
        }) if rejects.items[0].policy == "adj_reject"
    ));
    assert_eq!(
        *seen.borrow(),
        vec![
            MockAdjustment { id: 0, amount: 10 },
            MockAdjustment { id: 1, amount: 20 },
        ]
    );
}

#[test]
fn apply_account_adjustment_does_not_apply_partial_batch_on_reject() {
    let seen = Rc::new(RefCell::new(Vec::new()));
    let mut applied = Vec::new();
    let mut engine = build(vec![rejecting_adjustment_policy("adj_reject", &seen, 2)]);
    let batch = [
        MockAdjustment { id: 1, amount: 10 },
        MockAdjustment { id: 2, amount: 20 },
    ];
    let result = adjust(&mut engine, &batch);
    if result.is_ok() {
        applied.extend(batch.iter().map(|adjustment| adjustment.id));
    }
    assert!(result.is_err());
    assert!(applied.is_empty());
    assert_eq!(
        *seen.borrow(),
        vec![
            MockAdjustment { id: 1, amount: 10 },
            MockAdjustment { id: 2, amount: 20 },
        ]
    );
}

#[test]
fn apply_account_adjustment_accepts_multi_element_batch_when_all_policies_pass() {
    let first_seen = Rc::new(RefCell::new(Vec::new()));
    let second_seen = Rc::new(RefCell::new(Vec::new()));
    let mut engine = build(vec![
        adjustment_policy("first", &first_seen),
        adjustment_policy("second", &second_seen),
    ]);
    let batch = [
        MockAdjustment { id: 10, amount: 1 },
        MockAdjustment { id: 11, amount: 2 },
        MockAdjustment { id: 12, amount: 3 },
    ];
    assert!(adjust(&mut engine, &batch).is_ok());
    assert_eq!(*first_seen.borrow(), batch);
    assert_eq!(*second_seen.borrow(), batch);
}

#[test]
fn apply_account_adjustment_empty_batch_skips_policy_calls() {
    let seen = Rc::new(RefCell::new(Vec::new()));
    let mut engine = build(vec![adjustment_policy("adj", &seen)]);
    assert!(adjust(&mut engine, &[]).is_ok());
    assert!(seen.borrow().is_empty());
}

#[test]
fn apply_account_adjustment_returns_reject_from_second_policy() {
    let first_seen = Rc::new(RefCell::new(Vec::new()));
    let second_seen = Rc::new(RefCell::new(Vec::new()));
    let mut engine = build(vec![
        adjustment_policy("first", &first_seen),
        rejecting_adjustment_policy("second", &second_seen, 9),
    ]);
    let batch = [MockAdjustment { id: 9, amount: 99 }];
    let result = adjust(&mut engine, &batch);
    assert!(matches!(
        result,
        Err(AccountAdjustmentBatchError {
            failed_adjustment_index: 0,
            rejects,
        }) if rejects.items[0].policy == "second"
    ));
    assert_eq!(*first_seen.borrow(), batch);
    assert_eq!(*second_seen.borrow(), batch);
}

#[test]
fn apply_account_adjustment_respects_policy_registration_order_for_rejects() {
    let first_seen = Rc::new(RefCell::new(Vec::new()));
    let second_seen = Rc::new(RefCell::new(Vec::new()));
    let mut engine = build(vec![
        rejecting_adjustment_policy("first", &first_seen, 77),
        rejecting_adjustment_policy("second", &second_seen, 77),
    ]);
    let batch = [MockAdjustment { id: 77, amount: 1 }];
    let result = adjust(&mut engine, &batch);
    assert!(matches!(
        result,
        Err(AccountAdjustmentBatchError {
            failed_adjustment_index: 0,
            rejects,
        }) if rejects.items[0].policy == "first"
    ));
    assert_eq!(*first_seen.borrow(), batch);
    assert!(second_seen.borrow().is_empty());
}

#[test]
fn apply_account_adjustment_commits_mutations_on_success() {
    let seen = Rc::new(RefCell::new(Vec::new()));
    let state = Rc::new(RefCell::new(None));
    let policy = MockPolicy {
        mutation_state: Some(Rc::clone(&state)),
        ..adjustment_policy("adj_mutation", &seen)
    };
    let mut engine = build(vec![policy]);
    let batch = [MockAdjustment { id: 1, amount: 10 }];
    assert!(adjust(&mut engine, &batch).is_ok());
    assert_eq!(*state.borrow(), Some(true));
}

#[test]
fn apply_account_adjustment_rolls_back_mutations_on_reject() {
    let first_seen = Rc::new(RefCell::new(Vec::new()));
    let second_seen = Rc::new(RefCell::new(Vec::new()));
    let state = Rc::new(RefCell::new(None));
    let first = MockPolicy {
        mutation_state: Some(Rc::clone(&state)),
        ..adjustment_policy("adj_mutation", &first_seen)
    };
    let mut engine = build(vec![first, rejecting_adjustment_policy("adj_rejecter", &second_seen, 1)]);
    let batch = [MockAdjustment { id: 1, amount: 10 }];
    assert!(adjust(&mut engine, &batch).is_err());
    assert_eq!(*state.borrow(), Some(false));
}

#[test]
fn apply_account_adjustment_without_mutations_leaves_state_unchanged() {
    let seen = Rc::new(RefCell::new(Vec::new()));
    let mut engine = build(vec![adjustment_policy("adj", &seen)]);
    let batch = [MockAdjustment { id: 1, amount: 10 }];
    assert!(adjust(&mut engine, &batch).is_ok());
    assert!(!engine.blocked().is_all_blocked());
}

#[test]
fn account_scoped_reject_from_start_stage_permanently_blocks_account() {
    let blocked = Rc::new(Cell::new(true));
    let policy = MockPolicy {
        start_block_flag: Some(Rc::clone(&blocked)),
        ..MockPolicy::named("toggle")
    };
    let mut engine = build(vec![policy]);

    let first = engine.start_pre_trade(order());
    assert!(first.is_err());

    blocked.set(false);

    let second = engine.start_pre_trade(order());
    let Err(rejects) = second else {
        panic!("account must stay blocked");
    };
    assert_eq!(rejects.items[0].code, RejectCode::AccountBlocked);
    assert_eq!(rejects.items[0].policy, "toggle");
}

#[test]
fn execute_pre_trade_commit_applies_mutations_on_success() {
    let state = Rc::new(RefCell::new(None));
    let policy = MockPolicy {
        mutation_state: Some(Rc::clone(&state)),
        ..MockPolicy::named("main")
    };
    let mut engine = build(vec![policy]);
    let request = engine.start_pre_trade(order()).ok().expect("start must pass");
    let parts = engine.execute(request).ok().expect("main must pass");
    assert_eq!(*state.borrow(), None);
    assert!(!parts.mutations.commit_all().failed());
    assert_eq!(*state.borrow(), Some(true));
}

#[test]
fn execute_pre_trade_reject_does_not_apply_commit_mutations() {
    let state = Rc::new(RefCell::new(None));
    let first = MockPolicy {
        mutation_state: Some(Rc::clone(&state)),
        ..MockPolicy::named("main")
    };
    let second = MockPolicy {
        main_reject: Some((RejectScope::Order, RejectCode::Other)),
        ..MockPolicy::named("rejecter")
    };
    let mut engine = build(vec![first, second]);
    let request = engine.start_pre_trade(order()).ok().expect("start must pass");
    let rejects = engine.execute(request).err().expect("main must refuse");
    assert_eq!(rejects.items[0].policy, "rejecter");
    assert_eq!(*state.borrow(), Some(false));
}

#[test]
fn drop_copy_requires_a_readable_account_before_running_policies() {
    let calls = Rc::new(Cell::new(0));
    let policy = MockPolicy {
        main_calls: Some(Rc::clone(&calls)),
        ..MockPolicy::named("noop")
    };
    let mut engine = build(vec![policy]);
    engine.block_account(
        AccountId::from_u64(77),
        AccountBlock::new(
            "unrelated",
            RejectCode::AccountBlocked,
            "unrelated account block",
            "must not affect an order without an account",
        ),
    );
    let rejects = engine
        .apply_drop_copy(MockOrder {
        account: None,
        ..Default::default()
    })
        .err()
        .expect("drop-copy must reject without a routing account");
    assert_eq!(rejects.items.len(), 1);
    assert_eq!(rejects.items[0].policy, "Engine");
    assert_eq!(rejects.items[0].scope, RejectScope::Order);
    assert_eq!(rejects.items[0].code, RejectCode::MissingRequiredField);
    assert_eq!(rejects.items[0].reason, "drop-copy requires a readable account ID");
    assert_eq!(
        rejects.items[0].details,
        "the account ID routes the drop-copy pipeline and its account control"
    );
    assert_eq!(calls.get(), 0);
    assert!(!engine.blocked().is_all_blocked());
}

#[test]
fn drop_copy_fatal_start_reject_skips_main_stage() {
    let main_calls = Rc::new(Cell::new(0));
    let fatal = MockPolicy {
        start_reject: Some((RejectScope::Order, RejectCode::MissingRequiredField)),
        ..MockPolicy::named("fatal_start")
    };
    let main = MockPolicy {
        main_calls: Some(Rc::clone(&main_calls)),
        ..MockPolicy::named("must_not_run")
    };
    let mut engine = build(vec![fatal, main]);
    let rejects = engine
        .apply_drop_copy(order())
        .err()
        .expect("missing start field must fail drop-copy");
    assert_eq!(rejects.items.len(), 1);
    assert_eq!(rejects.items[0].policy, "fatal_start");
    assert_eq!(rejects.items[0].code, RejectCode::MissingRequiredField);
    assert_eq!(main_calls.get(), 0);
}

#[test]
fn drop_copy_fatal_main_reject_rolls_back_collected_mutations() {
    let state = Rc::new(RefCell::new(None));
    let first = MockPolicy {
        mutation_state: Some(Rc::clone(&state)),
        ..MockPolicy::named("mutating")
    };
    let second = MockPolicy {
        main_reject: Some((RejectScope::Order, RejectCode::MissingRequiredField)),
        ..MockPolicy::named("fatal_main")
    };
    let mut engine = build(vec![first, second]);
    let rejects = engine.apply_drop_copy(order()).err().expect("missing main field must fail drop-copy");
    assert_eq!(rejects.items.len(), 1);
    assert_eq!(rejects.items[0].policy, "fatal_main");
    assert_eq!(*state.borrow(), Some(false));
}

#[test]
fn drop_copy_bypasses_existing_account_and_group_blocks() {
    let account = AccountId::from_u64(ACCOUNT);
    let group = AccountGroupId::from_u32(42).expect("account group id must be valid");
    let mut engine = build(vec![MockPolicy::named("start"), MockPolicy::named("main")]);
    engine.register_group(&[account], group).expect("registration must succeed");
    engine.block_account(
        account,
        AccountBlock::new("Engine", RejectCode::AccountBlocked, "account halt", "by the operator"),
    );
    engine
        .block_group(
            group,
            AccountBlock::new("Engine", RejectCode::AccountBlocked, "group halt", "by the operator"),
        )
        .expect("group block must succeed");

    let result = engine.apply_drop_copy(order()).ok().expect("limit drop-copy must be admitted");
    assert!(result.account_blocked);

    let account_rejects = match engine.start_pre_trade(order()) {
        Ok(_) => panic!("account block must remain"),
        Err(rejects) => rejects,
    };
    assert_eq!(account_rejects.items[0].reason, "account halt");
    engine.unblock_account(account);
    let group_rejects = match engine.start_pre_trade(order()) {
        Ok(_) => panic!("group block must remain"),
        Err(rejects) => rejects,
    };
    assert_eq!(group_rejects.items[0].reason, "group halt");
    engine.unblock_group(group).expect("group unblock must succeed");
    assert!(engine.start_pre_trade(order()).is_ok());
}

#[test]
fn drop_copy_filters_fatal_rejects_in_policy_order() {
    let ordinary = MockPolicy {
        main_reject: Some((RejectScope::Order, RejectCode::RiskLimitExceeded)),
        ..MockPolicy::named("ordinary")
    };
    let missing_one = MockPolicy {
        main_reject: Some((RejectScope::Order, RejectCode::MissingRequiredField)),
        ..MockPolicy::named("missing_one")
    };
    let missing_two = MockPolicy {
        main_reject: Some((RejectScope::Order, RejectCode::MissingRequiredField)),
        ..MockPolicy::named("missing_two")
    };
    let mut engine = build(vec![ordinary, missing_one, missing_two]);
    let rejects = engine
        .apply_drop_copy(order())
        .err()
        .expect("missing fields must fail drop-copy");
    assert_eq!(rejects.items.len(), 2);
    assert_eq!(rejects.items[0].policy, "missing_one");
    assert_eq!(rejects.items[1].policy, "missing_two");
}

#[test]
fn drop_copy_fatal_main_reject_reports_start_and_main_rollback_failures() {
    let start = MockPolicy {
        start_rollback_failure: Some("start rollback failed".to_string()),
        ..MockPolicy::named("failing_start_rollback")
    };
    let main = MockPolicy {
        main_rollback_failure: Some("main rollback failed".to_string()),
        main_reject: Some((RejectScope::Order, RejectCode::MissingRequiredField)),
        ..MockPolicy::named("failing_main_rollback")
    };
    let mut engine = build(vec![start, main]);
    let rejects = engine
        .apply_drop_copy(order())
        .err()
        .expect("fatal main reject with failed rollbacks must reject drop-copy");
    assert_eq!(rejects.items.len(), 2);
    assert_eq!(rejects.items[0].code, RejectCode::MissingRequiredField);
    assert_eq!(rejects.items[1].code, RejectCode::SystemUnavailable);
    assert_eq!(rejects.items[1].details, "main rollback failed; start rollback failed");
}

#[test]
fn start_dry_run_reports_account_block_without_recording_it() {
    let blocked = Rc::new(Cell::new(true));
    let policy = MockPolicy {
        start_block_flag: Some(Rc::clone(&blocked)),
        ..MockPolicy::named("toggle")
    };
    let mut engine = build(vec![policy]);

    let report = engine.start_pre_trade_dry_run(&order());
    let rejects = report.rejects.as_ref().expect("dry-run must report rejects");
    assert_eq!(rejects.items[0].scope, RejectScope::Account);
    assert_eq!(rejects.items[0].policy, "toggle");
    let block = report
        .account_block
        .as_ref()
        .expect("account-scope reject must surface a would-be block");
    assert_eq!(block.code, RejectCode::AccountBlocked);
    assert_eq!(block.policy, "toggle");

    blocked.set(false);
    assert!(engine.start_pre_trade(order()).is_ok());
}

#[test]
fn execute_dry_run_reports_main_stage_reject_without_recording_block() {
    let main = MockPolicy {
        main_reject: Some((RejectScope::Account, RejectCode::Other)),
        ..MockPolicy::named("rejecting_main")
    };
    let mut engine = build(vec![MockPolicy::named("start"), main]);
    let report = engine.execute_pre_trade_dry_run(&order());
    let rejects = report.rejects.as_ref().expect("must report rejects");
    assert_eq!(rejects.items[0].policy, "rejecting_main");
    assert_eq!(rejects.items[0].scope, RejectScope::Account);
    assert!(report.account_block.is_some());
    assert!(engine.start_pre_trade(order()).is_ok());
}

#[test]
fn start_dry_run_on_blocked_account_reports_rejects() {
    let mut engine = build(vec![MockPolicy::named("start")]);
    engine.block_account(
        AccountId::from_u64(ACCOUNT),
        AccountBlock::new("admin", RejectCode::AccountBlocked, "blocked", "by the operator"),
    );
    let report = engine.start_pre_trade_dry_run(&order());
    assert!(report.rejects.is_some());
}

#[test]
fn execute_dry_run_does_not_trigger_immediate_side_effects_or_commit() {
    let state = Rc::new(RefCell::new(None));
    let policy = MockPolicy {
        mutation_state: Some(Rc::clone(&state)),
        ..MockPolicy::named("main")
    };
    let engine = build(vec![policy]);
    let report = engine.execute_pre_trade_dry_run(&order());
    assert!(report.rejects.is_none());
    assert_eq!(*state.borrow(), None);
}

#[test]
fn reservation_commit_failure_arms_the_kill_switch() {
    for owner in OWNERS {
        let mut engine = build(vec![finalizer_policy(owner, Failing::Commit)]);
        let request = engine.start_pre_trade(order()).ok().expect("start must pass");
        let parts = engine.execute(request).ok().expect("pipeline must pass");
        let failure = engine.commit_finalizers(parts.mutations, &parts.kill_switch);
        assert!(failure.failed());
        assert_kill_switch(owner, &mut engine);
    }
}

#[test]
fn reservation_rollback_failure_arms_the_kill_switch() {
    for owner in OWNERS {
        let mut engine = build(vec![finalizer_policy(owner, Failing::Rollback)]);
        let request = engine.start_pre_trade(order()).ok().expect("start must pass");
        let parts = engine.execute(request).ok().expect("pipeline must pass");
        let result = engine.rollback_finalizers(parts.mutations, &parts.kill_switch);
        assert!(result.callback_failed());
        assert_kill_switch(owner, &mut engine);
    }
}

#[test]
fn account_adjustment_commit_failure_arms_the_kill_switch() {
    for owner in OWNERS {
        let mut engine = build(vec![finalizer_policy(owner, Failing::Commit)]);
        assert!(adjust(&mut engine, &[MockAdjustment { id: 1, amount: 10 }]).is_ok());
        assert_kill_switch(owner, &mut engine);
    }
}

#[test]
fn account_adjustment_rollback_failure_arms_the_kill_switch() {
    for owner in OWNERS {
        let seen = Rc::new(RefCell::new(Vec::new()));
        let mut engine = build(vec![
            finalizer_policy(owner, Failing::Rollback),
            rejecting_adjustment_policy("rejecting", &seen, 1),
        ]);
        assert!(adjust(&mut engine, &[MockAdjustment { id: 1, amount: 10 }]).is_err());
        assert_kill_switch(owner, &mut engine);
    }
}

#[test]
fn drop_copy_commit_failure_arms_the_kill_switch() {
    for owner in OWNERS {
        let mut engine = build(vec![finalizer_policy(owner, Failing::Commit)]);
        let outcome = engine.apply_drop_copy(order()).ok().expect("drop copy must pass");
        let failure = engine.commit_finalizers(outcome.mutations, &outcome.kill_switch);
        assert!(failure.failed());
        assert_kill_switch(owner, &mut engine);
    }
}

#[test]
fn drop_copy_explicit_rollback_failure_arms_the_kill_switch() {
    for owner in OWNERS {
        let mut engine = build(vec![finalizer_policy(owner, Failing::Rollback)]);
        let outcome = engine.apply_drop_copy(order()).ok().expect("drop copy must pass");
        let result = engine.rollback_finalizers(outcome.mutations, &outcome.kill_switch);
        assert!(result.callback_failed());
        assert_kill_switch(owner, &mut engine);
    }
}

#[test]
fn drop_copy_fatal_compensation_failure_arms_the_kill_switch() {
    for owner in OWNERS {
        let fatal = MockPolicy {
            main_reject: Some((RejectScope::Order, RejectCode::ReferenceDataUnavailable)),
            ..MockPolicy::named("fatal_main")
        };
        let mut engine = build(vec![finalizer_policy(owner, Failing::Rollback), fatal]);
        let rejects = engine
            .apply_drop_copy(order())
            .err()
            .expect("a fatal evaluation reject must fail the operation");
        assert_eq!(rejects.items[0].code, RejectCode::ReferenceDataUnavailable);
        assert_eq!(
            rejects.items[rejects.items.len() - 1].code,
            RejectCode::SystemUnavailable
        );
        assert_kill_switch(owner, &mut engine);
    }
}

fn start_rejecting(name: &str, scope: RejectScope) -> MockPolicy {
    MockPolicy {
        start_reject: Some((scope, RejectCode::Other)),
        ..MockPolicy::named(name)
    }
}

fn main_rejecting(name: &str, scope: RejectScope) -> MockPolicy {
    MockPolicy {
        main_reject: Some((scope, RejectCode::Other)),
        ..MockPolicy::named(name)
    }
}

fn execute_pre_trade(engine: &mut Engine<MockPolicy>, order: MockOrder) -> Result<openpit::pipeline::ReservationParts, Rejects> {
    let request = engine.start_pre_trade(order)?;
    engine.execute(request)
}

#[test]
fn execute_pre_trade_shortcut_returns_reservation_when_both_stages_pass() {
    let mut engine = build(vec![MockPolicy::named("start"), MockPolicy::named("main")]);
    let parts = execute_pre_trade(&mut engine, order()).ok().expect("shortcut must pass");
    let result = engine.rollback_finalizers(parts.mutations, &parts.kill_switch);
    assert!(!result.callback_failed());
}

#[test]
fn execute_pre_trade_wraps_start_stage_reject_into_single_element_rejects() {
    let mut engine = build(vec![start_rejecting("start_reject", RejectScope::Order)]);
    let rejects = match execute_pre_trade(&mut engine, order()) {
        Ok(_) => panic!("start stage must reject"),
        Err(rejects) => rejects,
    };
    assert_eq!(rejects.items.len(), 1);
    assert_eq!(rejects.items[0].policy, "start_reject");
    assert_eq!(rejects.items[0].code, RejectCode::Other);
    assert_eq!(rejects.items[0].reason, "start reject");
}

#[test]
fn execute_pre_trade_returns_main_stage_rejects_in_original_order() {
    let mut engine = build(vec![
        MockPolicy::named("start"),
        main_rejecting("main_first", RejectScope::Order),
        main_rejecting("main_second", RejectScope::Account),
    ]);
    let rejects = match execute_pre_trade(&mut engine, order()) {
        Ok(_) => panic!("main stage must reject"),
        Err(rejects) => rejects,
    };
    assert_eq!(rejects.items.len(), 2);
    assert_eq!(rejects.items[0].policy, "main_first");
    assert_eq!(rejects.items[1].policy, "main_second");
    assert_eq!(rejects.items[0].scope, RejectScope::Order);
    assert_eq!(rejects.items[1].scope, RejectScope::Account);
}

#[test]
fn accountless_start_stage_account_reject_records_no_block() {
    let mut engine = build(vec![start_rejecting("core_start_account_reject", RejectScope::Account)]);
    let Err(rejects) = engine.start_pre_trade(MockOrder {
        account: None,
        ..Default::default()
    }) else {
        panic!("start stage must reject");
    };
    assert_eq!(rejects.items.len(), 1);
    assert_eq!(rejects.items[0].scope, RejectScope::Account);
    assert!(!engine.blocked().is_all_blocked());
    assert!(engine
        .blocked()
        .check_account(engine.groups(), None, RejectScope::Order)
        .is_none());
}

#[test]
fn accountless_main_stage_account_reject_records_no_block() {
    let mut engine = build(vec![main_rejecting("core_main_account_reject", RejectScope::Account)]);
    let request = engine
        .start_pre_trade(MockOrder {
        account: None,
        ..Default::default()
    })
        .ok()
        .expect("start stage must pass");
    let Err(rejects) = engine.execute(request) else {
        panic!("main stage must reject");
    };
    assert_eq!(rejects.items.len(), 1);
    assert_eq!(rejects.items[0].scope, RejectScope::Account);
    assert!(!engine.blocked().is_all_blocked());
    assert!(engine
        .blocked()
        .check_account(engine.groups(), None, RejectScope::Order)
        .is_none());
}

#[test]
fn apply_execution_report_aggregates_account_blocks() {
    let reporting = MockPolicy {
        report_blocks: vec![AccountBlock::new(
            "main_true",
            RejectCode::PnlKillSwitchTriggered,
            "pnl kill switch triggered",
            "loss limit reached",
        )],
        ..MockPolicy::named("main_true")
    };
    let mut engine = build(vec![MockPolicy::named("start_false"), reporting]);
    let result = engine.apply_execution_report(&order());
    assert!(!result.account_blocks.is_empty());
    assert!(engine.start_pre_trade(order()).is_err());
}

#[test]
fn pre_trade_account_reject_rollback_failure_prioritizes_the_kill_switch() {
    for owner in OWNERS {
        let mut engine = build(vec![
            finalizer_policy(owner, Failing::Rollback),
            main_rejecting("rejecting", RejectScope::Account),
        ]);
        let rejects = execute_pre_trade(&mut engine, order_for(ACCOUNT))
            .err()
            .expect("the second policy must reject");
        assert_eq!(rejects.items[0].reason, "main reject");

        let pipeline_rejects = engine
            .start_pre_trade(order_for(ACCOUNT))
            .err()
            .expect("the pipeline account must remain blocked");
        let other_rejects = engine.start_pre_trade(order_for(OTHER_ACCOUNT)).err();

        match owner {
            Owner::EngineOwned => {
                assert!(!engine.blocked().is_all_blocked());
                assert_mutation_failure_reject(&pipeline_rejects.items[0]);
                assert!(other_rejects.is_none());
            }
            Owner::CustomPolicy => {
                assert!(engine.blocked().is_all_blocked());
                assert_eq!(pipeline_rejects.items[0].reason, "main reject");
                let other_rejects = other_rejects.expect("a custom-policy rollback failure must block all accounts");
                assert_mutation_failure_reject(&other_rejects.items[0]);

                engine.unblock_all();

                let pipeline_rejects = engine
                    .start_pre_trade(order_for(ACCOUNT))
                    .err()
                    .expect("the policy account block must survive global unblock");
                assert_eq!(pipeline_rejects.items[0].reason, "main reject");
                assert!(engine.start_pre_trade(order_for(OTHER_ACCOUNT)).is_ok());
            }
        }
    }
}

#[test]
fn start_dry_run_decides_as_the_real_start_stage() {
    let mut engine = build(vec![
        MockPolicy::named("passing"),
        start_rejecting("account_reject", RejectScope::Account),
        start_rejecting("order_reject", RejectScope::Order),
    ]);
    let report = engine.start_pre_trade_dry_run(&order());
    let dry = report.rejects.expect("dry run must refuse");
    let real = engine.start_pre_trade(order()).err().expect("real start must refuse");
    assert_eq!(dry.items, real.items);
    assert_eq!(
        report.account_block,
        engine.blocked().account_block(AccountId::from_u64(ACCOUNT))
    );
}

#[test]
fn configurator_spot_funds_records_barrier_blocks_in_the_engine() {
    let mut engine = build(vec![MockPolicy::named("noop")]);
    let configurator = Configurator::new(vec![("funds".to_string(), PolicyKind::SpotFunds)], 1);
    let mut active = Vec::new();
    let block = AccountBlock::new("funds", RejectCode::PnlKillSwitchTriggered, "barrier", "breached");
    let out = configurator
        .spot_funds(&mut engine, &mut active, "funds", || {
            Ok(vec![(AccountId::from_u64(ACCOUNT), block.clone())])
        })
        .expect("retune must pass");
    assert_eq!(out.len(), 1);
    assert!(active.is_empty());
    let rejects = engine.start_pre_trade(order()).err().expect("barrier block must refuse");
    assert_eq!(rejects.items[0].reason, "barrier");
}

#[test]
fn configurator_set_spot_funds_account_pnl_records_reported_blocks() {
    let mut engine = build(vec![MockPolicy::named("noop")]);
    let configurator = Configurator::new(vec![("funds".to_string(), PolicyKind::SpotFunds)], 1);
    let block = AccountBlock::new("funds", RejectCode::PnlKillSwitchTriggered, "halted", "pnl state");
    let reported = configurator
        .set_spot_funds_account_pnl(&mut engine, "funds", AccountId::from_u64(ACCOUNT), || vec![block.clone()])
        .expect("forced state must pass");
    assert_eq!(reported, vec![block.clone()]);
    assert_eq!(
        engine.blocked().account_block(AccountId::from_u64(ACCOUNT)),
        Some(block)
    );
}

fn fatal_start() -> MockPolicy {
    MockPolicy {
        start_reject: Some((RejectScope::Order, RejectCode::MissingRequiredField)),
        ..MockPolicy::named("fatal_start")
    }
}

#[test]
fn drop_copy_fatal_start_reject_rolls_back_eager_start_mutation() {
    let value = Rc::new(Cell::new(7));
    let eager = MockPolicy {
        eager_start_value: Some(Rc::clone(&value)),
        ..MockPolicy::named("drop_copy_eager_start_mutation")
    };
    let mut engine = build(vec![eager, fatal_start()]);
    assert!(engine.apply_drop_copy(order()).is_err());
    assert_eq!(value.get(), 7);
}

#[test]
fn drop_copy_fatal_start_rollback_failure_safety_blocks_account() {
    let failing = MockPolicy {
        start_rollback_failure: Some("start rollback failed".to_string()),
        ..MockPolicy::named("failing_start_rollback")
    };
    let mut engine = build(vec![failing, fatal_start()]);
    let rejects = engine
        .apply_drop_copy(order())
        .err()
        .expect("fatal start exit with failed rollback must reject");
    assert_eq!(rejects.items.len(), 2);
    assert_eq!(rejects.items[0].policy, "fatal_start");
    assert_eq!(rejects.items[0].code, RejectCode::MissingRequiredField);
    assert_eq!(rejects.items[1].policy, "Engine");
    assert_eq!(rejects.items[1].code, RejectCode::SystemUnavailable);
    assert_eq!(rejects.items[1].details, "start rollback failed");
    let blocked = engine
        .start_pre_trade(order())
        .err()
        .expect("start rollback failure must safety-block the account");
    assert_eq!(blocked.items[0].code, RejectCode::SystemUnavailable);
}

#[test]
fn drop_copy_fatal_main_reject_rolls_back_eager_start_mutation() {
    let value = Rc::new(Cell::new(11));
    let eager = MockPolicy {
        eager_start_value: Some(Rc::clone(&value)),
        ..MockPolicy::named("drop_copy_eager_start_mutation")
    };
    let fatal_main = MockPolicy {
        main_reject: Some((RejectScope::Order, RejectCode::SystemUnavailable)),
        ..MockPolicy::named("fatal_main")
    };
    let mut engine = build(vec![eager, fatal_main]);
    assert!(engine.apply_drop_copy(order()).is_err());
    assert_eq!(value.get(), 11);
}

#[test]
fn drop_copy_fatal_reject_discards_earlier_account_block() {
    let state = Rc::new(RefCell::new(None));
    let blocking = MockPolicy {
        mutation_state: Some(Rc::clone(&state)),
        main_reject: Some((RejectScope::Account, RejectCode::Other)),
        ..MockPolicy::named("blocking_main")
    };
    let fatal_main = MockPolicy {
        main_reject: Some((RejectScope::Order, RejectCode::MissingRequiredField)),
        ..MockPolicy::named("fatal_main")
    };
    let mut engine = build(vec![blocking, fatal_main]);
    assert!(engine.apply_drop_copy(order()).is_err());
    assert!(engine.start_pre_trade(order()).is_ok());
}

#[test]
fn drop_copy_reports_its_account_block_when_account_is_already_blocked() {
    let account = AccountId::from_u64(ACCOUNT);
    let mut engine = build(vec![main_rejecting("blocking_main", RejectScope::Account)]);
    engine.block_account(
        account,
        AccountBlock::new("Engine", RejectCode::AccountBlocked, "existing account halt", "by the operator"),
    );
    let result = engine.apply_drop_copy(order()).ok().expect("limit drop-copy must be admitted");
    let block = result.account_block.clone().expect("drop-copy must expose its account block");
    assert!(result.account_blocked);
    assert_eq!(block.policy, "blocking_main");
    assert_eq!(block.reason, "main reject");
    let rejects = match engine.start_pre_trade(order()) {
        Ok(_) => panic!("existing account block must remain"),
        Err(rejects) => rejects,
    };
    assert_eq!(rejects.items[0].reason, "existing account halt");
}

#[test]
fn drop_copy_records_policy_block_and_continues_into_main_stage() {
    let start_block = Rc::new(Cell::new(true));
    let main_calls = Rc::new(Cell::new(0));
    let start = MockPolicy {
        start_block_flag: Some(Rc::clone(&start_block)),
        ..MockPolicy::named("blocking_start")
    };
    let main = MockPolicy {
        main_calls: Some(Rc::clone(&main_calls)),
        main_reject: Some((RejectScope::Account, RejectCode::Other)),
        ..MockPolicy::named("blocking_main")
    };
    let mut engine = build(vec![start, main]);
    let result = engine.apply_drop_copy(order()).ok().expect("limit drop-copy must be admitted");
    let block = result.account_block.clone().expect("the first account block must win");
    assert!(result.account_blocked);
    assert_eq!(block.policy, "blocking_start");
    assert_eq!(block.reason, "pnl kill switch triggered");
    assert_eq!(main_calls.get(), 1);
    start_block.set(false);
    let rejects = match engine.start_pre_trade(order()) {
        Ok(_) => panic!("policy block must be recorded"),
        Err(rejects) => rejects,
    };
    assert_eq!(rejects.items[0].policy, "blocking_start");
    assert_eq!(rejects.items[0].reason, "pnl kill switch triggered");
}

#[test]
fn drop_copy_records_main_stage_policy_block_and_applies_mutation() {
    let state = Rc::new(RefCell::new(None));
    let blocking = MockPolicy {
        mutation_state: Some(Rc::clone(&state)),
        main_reject: Some((RejectScope::Account, RejectCode::Other)),
        ..MockPolicy::named("blocking_main")
    };
    let mut engine = build(vec![blocking]);
    let outcome = engine.apply_drop_copy(order()).ok().expect("limit drop-copy must be admitted");
    assert_eq!(
        outcome.account_block.as_ref().map(|block| block.policy.as_str()),
        Some("blocking_main")
    );
    let failure = engine.commit_finalizers(outcome.mutations, &outcome.kill_switch);
    assert!(!failure.failed());
    assert_eq!(*state.borrow(), Some(true));
    let rejects = match engine.start_pre_trade(order()) {
        Ok(_) => panic!("main-stage policy block must be recorded"),
        Err(rejects) => rejects,
    };
    assert_eq!(rejects.items[0].policy, "blocking_main");
    assert_eq!(rejects.items[0].reason, "main reject");
}

#[test]
fn drop_copy_runs_all_stages_and_applies_rejecting_mutations() {
    let start_calls = Rc::new(Cell::new(0));
    let state = Rc::new(RefCell::new(None));
    let start = MockPolicy {
        start_calls: Some(Rc::clone(&start_calls)),
        start_reject: Some((RejectScope::Order, RejectCode::Other)),
        ..MockPolicy::named("rejecting_start")
    };
    let main = MockPolicy {
        mutation_state: Some(Rc::clone(&state)),
        main_reject: Some((RejectScope::Order, RejectCode::Other)),
        ..MockPolicy::named("rejecting_main")
    };
    let mut engine = build(vec![start, main]);
    let outcome = engine.apply_drop_copy(order()).ok().expect("limit drop-copy must be admitted");
    let failure = engine.commit_finalizers(outcome.mutations, &outcome.kill_switch);
    assert!(!failure.failed());
    assert_eq!(start_calls.get(), 1);
    assert_eq!(*state.borrow(), Some(true));
}

#[test]
fn drop_copy_without_an_account_does_not_activate_a_global_block() {
    let mut engine = build(vec![main_rejecting("account_reject", RejectScope::Account)]);
    let rejects = engine
        .apply_drop_copy(MockOrder::default())
        .err()
        .expect("drop-copy must reject before running the policy");
    assert_eq!(rejects.items[0].code, RejectCode::MissingRequiredField);
    assert!(!engine.blocked().is_all_blocked());
}

#[test]
fn drop_copy_reads_the_engine_account_key_once() {
    let calls = Rc::new(Cell::new(0));
    let mut engine = build(vec![MockPolicy::named("noop")]);
    let result = engine
        .apply_drop_copy(MockOrder {
            account: Some(ACCOUNT),
            account_reads: Some(Rc::clone(&calls)),
        })
        .ok()
        .expect("the cached account key must remain readable");
    assert!(!result.account_blocked);
    assert_eq!(calls.get(), 1);
}

#[test]
fn drop_copy_explicit_rollback_runs_mutations_in_reverse_order() {
    let calls = Rc::new(RefCell::new(Vec::new()));
    let policy = MockPolicy {
        ordered_calls: Some(Rc::clone(&calls)),
        ..MockPolicy::named("ordered_finalization")
    };
    let mut engine = build(vec![policy]);
    let outcome = engine.apply_drop_copy(order()).ok().expect("limit drop-copy must be admitted");
    let result = engine.rollback_finalizers(outcome.mutations, &outcome.kill_switch);
    assert!(!result.failure.failed());
    assert_eq!(&*calls.borrow(), &["rollback-second", "rollback-first"]);
}

fn immediate_main_result() -> PolicyPreTradeResult {
    let mut result = PolicyPreTradeResult::new();
    result.lock_prices = vec![Price::from_str("100").expect("price valid")];
    result.account_adjustments = vec![AccountOutcomeEntry {
        asset: Asset::new("USD").expect("asset must be valid"),
        balance: Some(OutcomeAmount {
            delta: PositionSize::from_str("-100").expect("must be valid"),
            absolute: PositionSize::from_str("900").expect("must be valid"),
        }),
        held: None,
        incoming: None,
        realized_pnl: None,
        average_entry_price: None,
    }];
    result
}

#[test]
fn execute_dry_run_report_matches_real_reservation_lock_and_adjustments() {
    let build_engine = || {
        build(vec![
            MockPolicy::named("start"),
            MockPolicy {
                main_result: Some(immediate_main_result()),
                ..MockPolicy::named("immediate_main")
            },
        ])
    };
    let dry_run_engine = build_engine();
    let report = dry_run_engine.execute_pre_trade_dry_run(&order());

    let mut real_engine = build_engine();
    let request = real_engine.start_pre_trade(order()).ok().expect("start must pass");
    let reservation = real_engine.execute(request).ok().expect("real execute must pass");

    assert!(report.rejects.is_none());
    assert_eq!(report.account_block, None);
    assert_eq!(report.lock, reservation.lock);
    assert_eq!(report.account_adjustments, reservation.outcomes);
    assert_eq!(report.lock.prices, vec![(PolicyGroupId::new(0), Price::from_str("100").expect("price valid"))]);
    assert_eq!(report.account_adjustments.len(), 1);
}

#[test]
fn start_pre_trade_table_cases_follow_registration_order_and_collect_rejects() {
    for reject_index in [None, Some(1usize)] {
        let calls: Vec<Rc<Cell<u32>>> = (0..3).map(|_| Rc::new(Cell::new(0))).collect();
        let main_calls = Rc::new(Cell::new(0));
        let mut policies = Vec::new();
        for (index, counter) in calls.iter().enumerate() {
            policies.push(MockPolicy {
                start_calls: Some(Rc::clone(counter)),
                start_reject: if reject_index == Some(index) {
                    Some((RejectScope::Order, RejectCode::Other))
                } else {
                    None
                },
                ..MockPolicy::named(&format!("s{}", index))
            });
        }
        policies.push(MockPolicy {
            main_calls: Some(Rc::clone(&main_calls)),
            ..MockPolicy::named("m0")
        });
        let mut engine = build(policies);
        let result = engine.start_pre_trade(order());
        assert_eq!(result.is_ok(), reject_index.is_none());
        for counter in &calls {
            assert_eq!(counter.get(), 1);
        }
        assert_eq!(main_calls.get(), 0);
    }
}

#[test]
fn light_stage_changes_are_not_rolled_back_when_execute_rejects() {
    let light_counter = Rc::new(Cell::new(0));
    let start = MockPolicy {
        start_calls: Some(Rc::clone(&light_counter)),
        ..MockPolicy::named("start")
    };
    let state = Rc::new(RefCell::new(None));
    let main = MockPolicy {
        mutation_state: Some(Rc::clone(&state)),
        main_reject: Some((RejectScope::Order, RejectCode::Other)),
        ..MockPolicy::named("rejecting_main")
    };
    let mut engine = build(vec![start, main]);
    let request = engine.start_pre_trade(order()).ok().expect("start stage must pass");
    assert!(engine.execute(request).is_err(), "execute must reject");
    assert_eq!(light_counter.get(), 1);
    assert_eq!(*state.borrow(), Some(false));
}

fn drop_copy_policy_result(delta: &str, absolute: &str, lock: &str) -> PolicyPreTradeResult {
    let mut result = PolicyPreTradeResult::new();
    result.account_adjustments.push(AccountOutcomeEntry {
        asset: Asset::new("USD").expect("asset must be valid"),
        balance: Some(OutcomeAmount {
            delta: PositionSize::from_str(delta).expect("delta must be valid"),
            absolute: PositionSize::from_str(absolute).expect("amount must be valid"),
        }),
        held: None,
        incoming: None,
        realized_pnl: None,
        average_entry_price: None,
    });
    result.lock_prices.push(Price::from_str(lock).expect("price must be valid"));
    result
}

fn rejected_result_policy() -> MockPolicy {
    MockPolicy {
        group: 7,
        main_reject: Some((RejectScope::Account, RejectCode::Other)),
        main_reject_reason: Some("rejected with output"),
        main_reject_attached: Some(drop_copy_policy_result("-5", "95", "13")),
        ..MockPolicy::named("drop_copy_rejected_result")
    }
}

fn prices_of(lock: &openpit::pretrade::PreTradeLock, group: u32) -> Vec<Price> {
    lock.prices
        .iter()
        .filter(|(g, _)| *g == PolicyGroupId::new(group))
        .map(|(_, p)| p.clone())
        .collect()
}

#[test]
fn drop_copy_preserves_owned_rejected_result_with_policy_group() {
    let mut engine = build(vec![rejected_result_policy()]);
    let result = engine.apply_drop_copy(order()).ok().expect("limit drop-copy must be admitted");
    assert_eq!(prices_of(&result.lock, 7), vec![Price::from_str("13").expect("price must be valid")]);
    assert_eq!(result.outcomes.len(), 1);
    assert_eq!(result.outcomes[0].policy_group_id, PolicyGroupId::new(7));
    assert_eq!(
        result.account_block.as_ref().map(|block| block.reason.as_str()),
        Some("rejected with output")
    );
}

#[test]
fn ordinary_dry_run_ignores_policy_result_attached_to_reject() {
    let engine = build(vec![rejected_result_policy()]);
    let report = engine.execute_pre_trade_dry_run(&order());
    assert!(report.rejects.is_some());
    assert!(report.account_adjustments.is_empty());
    assert_eq!(prices_of(&report.lock, 7).len(), 0);
}

#[test]
fn drop_copy_uses_successful_policy_result() {
    let policy = MockPolicy {
        main_result: Some(drop_copy_policy_result("-2", "98", "12")),
        ..MockPolicy::named("successful_recorded_result")
    };
    let mut engine = build(vec![policy]);
    let result = engine.apply_drop_copy(order()).ok().expect("successful drop-copy policy must pass");
    assert_eq!(result.outcomes.len(), 1);
    assert_eq!(
        result.outcomes[0].entry.balance.clone().expect("balance outcome must be present").delta,
        PositionSize::from_str("-2").expect("delta must be valid")
    );
    assert_eq!(prices_of(&result.lock, 0), vec![Price::from_str("12").expect("price must be valid")]);
}

#[test]
fn drop_copy_rollback_failure_preserves_the_fatal_reject() {
    let rollback_calls = Rc::new(Cell::new(0));
    let failing = MockPolicy {
        counted_rollback_failure: Some(Rc::clone(&rollback_calls)),
        ..MockPolicy::named("rollback_failure")
    };
    let fatal_main = MockPolicy {
        main_reject: Some((RejectScope::Order, RejectCode::MissingRequiredField)),
        ..MockPolicy::named("fatal_main")
    };
    let mut engine = build(vec![failing, fatal_main]);
    let rejects = engine.apply_drop_copy(order()).err().expect("fatal drop-copy exit must reject");
    assert_eq!(rejects.items.len(), 2);
    assert_eq!(rejects.items[0].policy, "fatal_main");
    assert_eq!(rejects.items[0].code, RejectCode::MissingRequiredField);
    assert_eq!(rejects.items[1].policy, "Engine");
    assert_eq!(rejects.items[1].code, RejectCode::SystemUnavailable);
    assert_eq!(rollback_calls.get(), 1);
    let blocked = engine
        .start_pre_trade(order())
        .err()
        .expect("rollback failure must safety-block the account");
    assert_eq!(blocked.items[0].code, RejectCode::SystemUnavailable);
}

#[test]
fn a_global_finalizer_block_is_cleared_through_the_admin_surface() {
    let mut engine = build(vec![finalizer_policy(Owner::CustomPolicy, Failing::Commit)]);
    let request = engine.start_pre_trade(order_for(ACCOUNT)).ok().expect("pipeline must pass");
    let parts = engine.execute(request).ok().expect("pipeline must pass");
    let failure = engine.commit_finalizers(parts.mutations, &parts.kill_switch);
    assert!(failure.failed());
    assert!(engine.start_pre_trade(order_for(OTHER_ACCOUNT)).is_err());

    engine.unblock_all();

    assert!(
        engine.start_pre_trade(order_for(OTHER_ACCOUNT)).is_ok(),
        "the operator must be able to return the engine to service"
    );
    engine.unblock_account(AccountId::from_u64(ACCOUNT));
    assert!(engine.start_pre_trade(order_for(ACCOUNT)).is_ok());
}

#[test]
fn execute_table_cases_cover_success_commit_and_reject_rollback() {
    for (fail_first, fail_second, expected_rejects, expected_kill_switch) in
        [(false, false, 0usize, true), (true, true, 2usize, false)]
    {
        let state = Rc::new(RefCell::new(None));
        let first = MockPolicy {
            valued_mutation: Some((Rc::clone(&state), false, false)),
            main_reject: if fail_first { Some((RejectScope::Order, RejectCode::Other)) } else { None },
            ..MockPolicy::named("m1_policy")
        };
        let second = MockPolicy {
            valued_mutation: Some((Rc::clone(&state), true, true)),
            main_reject: if fail_second { Some((RejectScope::Account, RejectCode::Other)) } else { None },
            ..MockPolicy::named("m2_policy")
        };
        let mut engine = build(vec![MockPolicy::named("start"), first, second]);
        let request = engine.start_pre_trade(order()).ok().expect("start stage must pass");
        let execute_result = engine.execute(request);
        if expected_rejects == 0 {
            let parts = execute_result.ok().expect("execute must pass");
            let failure = engine.commit_finalizers(parts.mutations, &parts.kill_switch);
            assert!(!failure.failed());
        } else {
            let rejects = execute_result.err().expect("rejects must be present");
            assert_eq!(rejects.items.len(), expected_rejects);
            assert_eq!(rejects.items[0].code, RejectCode::Other);
            assert_eq!(rejects.items[0].scope, RejectScope::Order);
            assert_eq!(rejects.items[1].code, RejectCode::Other);
            assert_eq!(rejects.items[1].scope, RejectScope::Account);
        }
        assert_eq!(*state.borrow(), Some(expected_kill_switch));
    }
}
