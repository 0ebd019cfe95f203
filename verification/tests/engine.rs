use openpit::engine::{
    ensure_unique_policy_names, AccountAdjustmentBatchError, ConfigureError, EngineBuildError,
};
use openpit::pretrade::{Reject, RejectCode, RejectScope, Rejects};

#[test]
fn build_error_display_is_stable() {
    let err = EngineBuildError::DuplicatePolicyName {
        name: "dup".to_string(),
    };
    assert_eq!(err.message(), "duplicate policy name: dup");
}

#[test]
fn account_adjustment_batch_error_display_is_stable() {
    let err = AccountAdjustmentBatchError {
        failed_adjustment_index: 2,
        rejects: Rejects::single(Reject::new(
            "adj_policy",
            RejectScope::Order,
            RejectCode::Other,
            "account adjustment rejected",
            "mock account adjustment policy rejected the adjustment",
        )),
    };
    assert_eq!(
        err.message(),
        "account adjustment batch rejected at index 2: [adj_policy] account adjustment rejected: mock account adjustment policy rejected the adjustment"
    );
}

#[test]
fn unique_policy_names_pass_and_the_first_repeat_is_reported() {
    let names = vec!["a".to_string(), "b".to_string(), "c".to_string()];
    assert_eq!(ensure_unique_policy_names(&names), Ok(()));

    let names = vec![
        "a".to_string(),
        "b".to_string(),
        "c".to_string(),
        "b".to_string(),
        "a".to_string(),
    ];
    assert_eq!(
        ensure_unique_policy_names(&names),
        Err(EngineBuildError::DuplicatePolicyName {
            name: "b".to_string()
        })
    );
    assert_eq!(ensure_unique_policy_names(&Vec::new()), Ok(()));
}

#[test]
fn configure_error_messages_name_the_policy() {
    assert_eq!(
        ConfigureError::UnknownPolicy {
            name: "RateLimit".to_string()
        }
        .message(),
        "no configurable policy named RateLimit"
    );
    assert_eq!(
        ConfigureError::PolicyTypeMismatch {
            name: "RateLimit".to_string(),
            expected: "A",
            found: "B",
        }
        .message(),
        "policy RateLimit has settings type B, not A"
    );
    assert_eq!(
        ConfigureError::Validation {
            name: "RateLimit".to_string(),
            message: "too low".to_string(),
        }
        .message(),
        "policy RateLimit rejected the update: too low"
    );
    assert_eq!(
        ConfigureError::NestedConfiguration.message(),
        "configuration is not reentrant: cannot configure from within another configuration callback on the same thread"
    );
}
