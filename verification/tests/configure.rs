use openpit::account_control::BlockedAccounts;
use openpit::configure::{
    active_holdings_accounts, begin_configuration, Configurator, configure_barrier, configure_settings, enter_configuration, finish_barrier_update, finish_update,
    force_account_state, leave_configuration, lookup_policy, record_account_blocks,
    record_barrier_blocks, AccountBlockOutcome, PolicyKind,
};
use openpit::engine::{ensure_unique_policy_group_ids, ConfigureError, EngineBuildError};
use openpit::instrument_id::InstrumentId;
use openpit::param::AccountId;
use openpit::pretrade::{AccountBlock, PolicyGroupId, RejectCode};

fn block(policy: &str) -> AccountBlock {
    AccountBlock::new(policy, RejectCode::PnlKillSwitchTriggered, "barrier", "breached")
}

fn entries() -> Vec<(String, PolicyKind)> {
    vec![
        ("limits".to_string(), PolicyKind::RateLimit),
        ("funds".to_string(), PolicyKind::SpotFunds),
    ]
}

#[test]
fn lookup_policy_finds_entry_of_expected_kind() {
    assert_eq!(lookup_policy(&entries(), "funds", PolicyKind::SpotFunds), Ok(1));
}

#[test]
fn lookup_policy_reports_unknown_name() {
    assert_eq!(
        lookup_policy(&entries(), "missing", PolicyKind::SpotFunds),
        Err(ConfigureError::UnknownPolicy {
            name: "missing".to_string()
        })
    );
}

#[test]
fn lookup_policy_reports_type_mismatch() {
    let err = lookup_policy(&entries(), "limits", PolicyKind::SpotFunds).unwrap_err();
    assert_eq!(
        err,
        ConfigureError::PolicyTypeMismatch {
            name: "limits".to_string(),
            expected: "SpotFundsSettings",
            found: "RateLimitSettings",
        }
    );
    assert_eq!(
        err.message(),
        "policy limits has settings type RateLimitSettings, not SpotFundsSettings"
    );
}

#[test]
fn nested_configuration_is_refused_until_the_outer_one_ends() {
    let mut active = Vec::new();
    assert_eq!(enter_configuration(&mut active, 5), Ok(()));
    assert_eq!(
        enter_configuration(&mut active, 5),
        Err(ConfigureError::NestedConfiguration)
    );
    assert_eq!(enter_configuration(&mut active, 6), Ok(()));
    leave_configuration(&mut active, 5);
    assert_eq!(active, vec![6]);
    assert_eq!(enter_configuration(&mut active, 5), Ok(()));
}

#[test]
fn barrier_blocks_report_only_newly_inserted_accounts() {
    let mut blocked = BlockedAccounts::new();
    blocked.block_account(AccountId::from_u64(1), block("earlier"));
    let reported = record_barrier_blocks(
        &mut blocked,
        vec![
            (AccountId::from_u64(1), block("funds")),
            (AccountId::from_u64(2), block("funds")),
            (AccountId::from_u64(2), block("again")),
        ],
    );
    assert_eq!(
        reported,
        vec![AccountBlockOutcome {
            account_id: AccountId::from_u64(2),
            block: block("funds"),
        }]
    );
    assert_eq!(blocked.account_block(AccountId::from_u64(1)), Some(block("earlier")));
    assert_eq!(blocked.account_block(AccountId::from_u64(2)), Some(block("funds")));
}

#[test]
fn forced_pnl_blocks_keep_the_first_cause() {
    let mut blocked = BlockedAccounts::new();
    record_account_blocks(
        &mut blocked,
        AccountId::from_u64(3),
        &vec![block("first"), block("second")],
    );
    assert_eq!(blocked.account_block(AccountId::from_u64(3)), Some(block("first")));
}

#[test]
fn group_ids_may_repeat_only_in_the_default_group() {
    assert!(ensure_unique_policy_group_ids(&vec![PolicyGroupId::new(0), PolicyGroupId::new(0)]).is_ok());
    let err = ensure_unique_policy_group_ids(&vec![
        PolicyGroupId::new(3),
        PolicyGroupId::new(4),
        PolicyGroupId::new(3),
    ])
    .unwrap_err();
    assert_eq!(
        err,
        EngineBuildError::DuplicatePolicyGroupId {
            policy_group_id: PolicyGroupId::new(3)
        }
    );
    assert_eq!(err.message(), "duplicate policy group id: 3");
}

#[test]
fn instrument_ids_order_as_their_integers() {
    assert!(InstrumentId::new(3) < InstrumentId::new(10));
    assert!(InstrumentId::new(10) > InstrumentId::new(3));
    assert_eq!(
        InstrumentId::new(4).partial_cmp(&InstrumentId::new(4)),
        Some(std::cmp::Ordering::Equal)
    );
    assert_eq!(InstrumentId::new(3).cmp(&InstrumentId::new(10)), 3u64.cmp(&10));
}

#[test]
fn begin_configuration_marks_the_registry_active_only_on_success() {
    let mut active = Vec::new();
    assert_eq!(
        begin_configuration(&entries(), &mut active, 9, "limits", PolicyKind::SpotFunds),
        Err(ConfigureError::PolicyTypeMismatch {
            name: "limits".to_string(),
            expected: "SpotFundsSettings",
            found: "RateLimitSettings",
        })
    );
    assert!(active.is_empty());
    assert_eq!(
        begin_configuration(&entries(), &mut active, 9, "funds", PolicyKind::SpotFunds),
        Ok(1)
    );
    assert_eq!(active, vec![9]);
    assert_eq!(
        begin_configuration(&entries(), &mut active, 9, "funds", PolicyKind::SpotFunds),
        Err(ConfigureError::NestedConfiguration)
    );
    leave_configuration(&mut active, 9);
    assert!(active.is_empty());
}

#[test]
fn a_refused_barrier_update_changes_nothing() {
    let mut blocked = BlockedAccounts::new();
    let result = finish_barrier_update(&mut blocked, "funds", Err("bound must be positive".to_string()));
    let err = result.unwrap_err();
    assert_eq!(
        err,
        ConfigureError::Validation {
            name: "funds".to_string(),
            message: "bound must be positive".to_string()
        }
    );
    assert_eq!(err.message(), "policy funds rejected the update: bound must be positive");
    assert_eq!(blocked.account_block(AccountId::from_u64(8)), None);
    assert!(!blocked.is_all_blocked());
}

#[test]
fn an_accepted_barrier_update_reports_new_blocks() {
    let mut blocked = BlockedAccounts::new();
    let out = finish_barrier_update(
        &mut blocked,
        "funds",
        Ok(vec![(AccountId::from_u64(8), block("funds"))]),
    )
    .unwrap();
    assert_eq!(out.len(), 1);
    assert_eq!(blocked.account_block(AccountId::from_u64(8)), Some(block("funds")));
    assert_eq!(finish_update("limits", Ok(())), Ok(()));
}

#[test]
fn forcing_account_state_records_and_returns_every_reported_block() {
    let mut blocked = BlockedAccounts::new();
    blocked.block_account(AccountId::from_u64(4), block("earlier"));
    let result = force_account_state(
        &entries(),
        &mut blocked,
        "funds",
        PolicyKind::SpotFunds,
        AccountId::from_u64(4),
        || vec![block("pnl")],
    );
    assert_eq!(result, Ok(vec![block("pnl")]));
    assert_eq!(blocked.account_block(AccountId::from_u64(4)), Some(block("earlier")));
    assert_eq!(
        force_account_state(
            &entries(),
            &mut blocked,
            "nope",
            PolicyKind::SpotFunds,
            AccountId::from_u64(4),
            || vec![block("pnl")],
        ),
        Err(ConfigureError::UnknownPolicy {
            name: "nope".to_string()
        })
    );
}

#[test]
fn configure_barrier_records_new_blocks_and_leaves_the_configuration() {
    let mut active = vec![3];
    let mut blocked = BlockedAccounts::new();
    let first = AccountId::from_u64(1);
    let second = AccountId::from_u64(2);
    blocked.block_account(second, block("admin"));
    let out = configure_barrier(&entries(), &mut active, 9, &mut blocked, "funds", PolicyKind::SpotFunds, || {
        Ok(vec![(first, block("funds")), (second, block("funds"))])
    })
    .expect("retune must pass");
    assert_eq!(out.len(), 1);
    assert_eq!(out[0].account_id, first);
    assert_eq!(active, vec![3]);
    assert!(blocked.account_block(first).is_some());
}

#[test]
fn configure_barrier_refusal_is_a_validation_error_and_changes_nothing() {
    let mut active = Vec::new();
    let mut blocked = BlockedAccounts::new();
    let r = configure_barrier(&entries(), &mut active, 9, &mut blocked, "funds", PolicyKind::SpotFunds, || {
        Err("bad barrier".to_string())
    });
    assert_eq!(
        r,
        Err(ConfigureError::Validation {
            name: "funds".to_string(),
            message: "bad barrier".to_string()
        })
    );
    assert!(active.is_empty());
    assert!(blocked.account_block(AccountId::from_u64(1)).is_none());
}

#[test]
fn configure_barrier_nested_in_the_same_registry_is_refused() {
    let mut active = vec![9];
    let mut blocked = BlockedAccounts::new();
    let called = std::cell::Cell::new(false);
    let r = configure_barrier(&entries(), &mut active, 9, &mut blocked, "funds", PolicyKind::SpotFunds, || {
        called.set(true);
        Ok(Vec::new())
    });
    assert_eq!(r, Err(ConfigureError::NestedConfiguration));
    assert!(!called.get());
    assert_eq!(active, vec![9]);
}

#[test]
fn configure_settings_reports_type_mismatch_without_calling_the_update() {
    let mut active = Vec::new();
    let called = std::cell::Cell::new(false);
    let r = configure_settings(&entries(), &mut active, 1, "funds", PolicyKind::RateLimit, || {
        called.set(true);
        Ok(())
    });
    assert!(matches!(r, Err(ConfigureError::PolicyTypeMismatch { .. })));
    assert!(!called.get());
    assert_eq!(
        configure_settings(&entries(), &mut active, 1, "limits", PolicyKind::RateLimit, || Ok(())),
        Ok(())
    );
    assert!(active.is_empty());
}

#[test]
fn inactive_holdings_marker_is_not_a_retune_candidate() {
    let account = AccountId::from_u64(42);
    let active = vec![(account, 0usize)];
    assert!(active_holdings_accounts(&active).is_empty());
}

#[test]
fn active_holdings_accounts_keeps_nonzero_markers_in_order() {
    let active = vec![
        (AccountId::from_u64(1), 2usize),
        (AccountId::from_u64(2), 0usize),
        (AccountId::from_u64(3), 1usize),
    ];
    assert_eq!(
        active_holdings_accounts(&active),
        vec![AccountId::from_u64(1), AccountId::from_u64(3)]
    );
}

fn configurator() -> Configurator {
    Configurator::new(
        vec![
            ("limits".to_string(), PolicyKind::RateLimit),
            ("pnl".to_string(), PolicyKind::PnlBoundsKillSwitch),
            ("sizes".to_string(), PolicyKind::OrderSizeLimit),
        ],
        4,
    )
}

#[test]
fn configurator_retunes_each_kind_by_name() {
    let configurator = configurator();
    let mut active = Vec::new();
    assert_eq!(configurator.rate_limit(&mut active, "limits", || Ok(())), Ok(()));
    assert_eq!(configurator.order_size_limit(&mut active, "sizes", || Ok(())), Ok(()));
    assert_eq!(
        configurator.pnl_bounds_killswitch(&mut active, "pnl", || Err("lower above upper".to_string())),
        Err(ConfigureError::Validation {
            name: "pnl".to_string(),
            message: "lower above upper".to_string()
        })
    );
    assert!(matches!(
        configurator.rate_limit(&mut active, "sizes", || Ok(())),
        Err(ConfigureError::PolicyTypeMismatch { .. })
    ));
    assert!(active.is_empty());
}

#[test]
fn configurator_set_account_pnl_runs_only_for_the_named_kill_switch() {
    let configurator = configurator();
    let set = std::cell::Cell::new(0);
    assert_eq!(configurator.set_account_pnl("pnl", || set.set(set.get() + 1)), Ok(()));
    assert_eq!(
        configurator.set_account_pnl("missing", || set.set(set.get() + 1)),
        Err(ConfigureError::UnknownPolicy {
            name: "missing".to_string()
        })
    );
    assert!(matches!(
        configurator.set_account_pnl("limits", || set.set(set.get() + 1)),
        Err(ConfigureError::PolicyTypeMismatch { .. })
    ));
    assert_eq!(set.get(), 1);
}
