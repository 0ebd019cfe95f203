use openpit::account_adjustment_context::{AccountAdjustmentContext, GroupLookup};
use openpit::account_control::AccountControl;
use openpit::account_groups::{AccountGroupError, AccountGroups};
use openpit::param::{default_account_group, AccountGroupId, AccountId};

fn new_registry() -> AccountGroups {
    AccountGroups::new()
}

fn account(id: u64) -> AccountId {
    AccountId::from_u64(id)
}

fn group(id: u32) -> AccountGroupId {
    AccountGroupId::from_u32(id).expect("account group id must be valid")
}

#[test]
fn register_group_happy_path() {
    let mut registry = new_registry();
    registry
        .register_group(&[account(1), account(2)], group(7))
        .expect("registration must succeed");

    assert_eq!(registry.group_of(account(1)), Some(group(7)));
    assert_eq!(registry.group_of(account(2)), Some(group(7)));
}

#[test]
fn register_group_rejects_account_in_other_group_and_changes_nothing() {
    let mut registry = new_registry();
    registry
        .register_group(&[account(1)], group(1))
        .expect("first registration must succeed");

    let error = registry
        .register_group(&[account(2), account(1)], group(2))
        .expect_err("registration must fail on conflict");

    assert_eq!(
        error,
        AccountGroupError::AlreadyRegistered {
            account: account(1),
            current_group: group(1),
        }
    );
    assert_eq!(registry.group_of(account(2)), None);
    assert_eq!(registry.group_of(account(1)), Some(group(1)));
}

#[test]
fn register_group_rejects_account_already_in_same_group_and_changes_nothing() {
    let mut registry = new_registry();
    registry
        .register_group(&[account(1)], group(5))
        .expect("first registration must succeed");

    let error = registry
        .register_group(&[account(2), account(1)], group(5))
        .expect_err("re-registering into the same group must fail");

    assert_eq!(
        error,
        AccountGroupError::AlreadyRegistered {
            account: account(1),
            current_group: group(5),
        }
    );
    assert_eq!(registry.group_of(account(2)), None);
}

#[test]
fn unregister_group_happy_path() {
    let mut registry = new_registry();
    registry
        .register_group(&[account(1), account(2)], group(3))
        .expect("registration must succeed");

    registry
        .unregister_group(&[account(1), account(2)], group(3))
        .expect("unregistration must succeed");

    assert_eq!(registry.group_of(account(1)), None);
    assert_eq!(registry.group_of(account(2)), None);
}

#[test]
fn unregister_group_rejects_ungrouped_account_and_removes_nothing() {
    let mut registry = new_registry();
    registry
        .register_group(&[account(1)], group(3))
        .expect("registration must succeed");

    let error = registry
        .unregister_group(&[account(1), account(2)], group(3))
        .expect_err("unregistration must fail when an account is ungrouped");

    assert_eq!(
        error,
        AccountGroupError::NotInGroup {
            account: account(2),
            requested_group: group(3),
            current_group: None,
        }
    );
    assert_eq!(registry.group_of(account(1)), Some(group(3)));
}

#[test]
fn unregister_group_rejects_account_in_other_group_and_removes_nothing() {
    let mut registry = new_registry();
    registry
        .register_group(&[account(1)], group(3))
        .expect("registration must succeed");
    registry
        .register_group(&[account(2)], group(4))
        .expect("registration must succeed");

    let error = registry
        .unregister_group(&[account(1), account(2)], group(3))
        .expect_err("unregistration must fail on group mismatch");

    assert_eq!(
        error,
        AccountGroupError::NotInGroup {
            account: account(2),
            requested_group: group(3),
            current_group: Some(group(4)),
        }
    );
    assert_eq!(registry.group_of(account(1)), Some(group(3)));
    assert_eq!(registry.group_of(account(2)), Some(group(4)));
}

#[test]
fn group_of_present_and_absent() {
    let mut registry = new_registry();
    registry
        .register_group(&[account(1)], group(9))
        .expect("registration must succeed");

    assert_eq!(registry.group_of(account(1)), Some(group(9)));
    assert_eq!(registry.group_of(account(2)), None);
}

#[test]
fn register_group_empty_slice_is_noop() {
    let mut registry = new_registry();
    registry
        .register_group(&[], group(1))
        .expect("empty registration must succeed");
    assert_eq!(registry.group_of(account(1)), None);
}

#[test]
fn register_group_rejects_reserved_default_group() {
    let mut registry = new_registry();
    let error = registry
        .register_group(&[account(1)], default_account_group())
        .expect_err("registering into the default group must fail");

    assert_eq!(error, AccountGroupError::ReservedGroup);
    assert_eq!(registry.group_of(account(1)), None);
}

#[test]
fn unregister_group_rejects_reserved_default_group() {
    let mut registry = new_registry();
    let error = registry
        .unregister_group(&[account(1)], default_account_group())
        .expect_err("unregistering from the default group must fail");

    assert_eq!(error, AccountGroupError::ReservedGroup);
}

#[test]
fn account_group_error_display_is_stable() {
    assert_eq!(
        AccountGroupError::ReservedGroup.message(),
        "the reserved default account group is not a valid target"
    );

    let already = AccountGroupError::AlreadyRegistered {
        account: account(1),
        current_group: group(2),
    };
    assert_eq!(
        already.message(),
        "account is already registered in a different group"
    );

    let mismatch = AccountGroupError::NotInGroup {
        account: account(1),
        requested_group: group(2),
        current_group: Some(group(3)),
    };
    assert_eq!(
        mismatch.message(),
        "account is not in the requested group; it belongs to a different group"
    );

    let ungrouped = AccountGroupError::NotInGroup {
        account: account(1),
        requested_group: group(2),
        current_group: None,
    };
    assert_eq!(
        ungrouped.message(),
        "account is not in the requested group; it belongs to no group"
    );
}

#[test]
fn account_group_error_display_hides_ids_but_keeps_structured_fields() {
    let sentinel_account = account(424242);
    let sentinel_requested = group(515151);
    let sentinel_current = group(626262);

    let already = AccountGroupError::AlreadyRegistered {
        account: sentinel_account,
        current_group: sentinel_requested,
    };
    let text = already.message();
    assert!(!text.contains("424242"), "display leaked account id: {text}");
    assert!(!text.contains("515151"), "display leaked group id: {text}");
    let AccountGroupError::AlreadyRegistered {
        account,
        current_group,
    } = already
    else {
        panic!("variant must be preserved");
    };
    assert_eq!(account, sentinel_account);
    assert_eq!(current_group, sentinel_requested);

    let mismatch = AccountGroupError::NotInGroup {
        account: sentinel_account,
        requested_group: sentinel_requested,
        current_group: Some(sentinel_current),
    };
    let text = mismatch.message();
    assert!(!text.contains("424242"), "display leaked account id: {text}");
    assert!(!text.contains("515151"), "display leaked group id: {text}");
    assert!(!text.contains("626262"), "display leaked group id: {text}");
    let AccountGroupError::NotInGroup {
        account,
        requested_group,
        current_group,
    } = mismatch
    else {
        panic!("variant must be preserved");
    };
    assert_eq!(account, sentinel_account);
    assert_eq!(requested_group, sentinel_requested);
    assert_eq!(current_group, Some(sentinel_current));
}

#[test]
fn account_adjustment_context_group_returns_adjusted_account_group() {
    let mut groups = new_registry();
    groups
        .register_group(&[account(8)], group(4))
        .expect("registration must succeed");

    let control = AccountControl::new(account(8));
    let mut ctx = AccountAdjustmentContext::new(control, account(8));
    assert_eq!(ctx.account_group(&groups), Some(group(4)));
}

#[test]
fn group_lookup_is_cached_after_first_call() {
    let mut groups = new_registry();
    groups
        .register_group(&[account(1)], group(7))
        .expect("registration must succeed");

    let mut lookup = GroupLookup::new(Some(account(1)));
    assert_eq!(lookup.group(&groups), Some(group(7)));

    groups
        .unregister_group(&[account(1)], group(7))
        .expect("unregistration must succeed");
    groups
        .register_group(&[account(1)], group(9))
        .expect("re-registration must succeed");

    assert_eq!(lookup.group(&groups), Some(group(7)));
    assert_eq!(GroupLookup::new(None).group(&groups), None);
}
