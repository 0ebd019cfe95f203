use openpit::account_control::{AccountBlockError, AccountBlockHandle, BlockedAccounts};
use openpit::account_groups::AccountGroups;
use openpit::accounts::{AccountCurrencies, Accounts};
use openpit::param::{default_account_group, AccountGroupId, AccountId, Asset};
use openpit::pretrade::{AccountBlock, RejectCode, RejectScope, RequestFieldAccessError};
use openpit::request_trait::HasAccountId;

fn account(id: u64) -> AccountId {
    AccountId::from_u64(id)
}

fn group(id: u32) -> AccountGroupId {
    AccountGroupId::from_u32(id).expect("account group id must be valid")
}

fn asset(value: &str) -> Asset {
    Asset::new(value).expect("asset must be valid")
}

struct AccountOrder(AccountId);

impl HasAccountId for AccountOrder {
    fn account_id(&self) -> Result<AccountId, RequestFieldAccessError> {
        Ok(self.0)
    }
}

fn new_accounts() -> Accounts {
    Accounts::new(
        AccountGroups::new(),
        AccountBlockHandle::from_inner(BlockedAccounts::new()),
        AccountCurrencies::new(),
    )
}

#[test]
fn accounts_block_then_check_rejects_and_unblock_clears() {
    let mut accounts = new_accounts();
    accounts.block(account(1), "manual review".to_owned());
    assert!(accounts
        .check(&AccountOrder(account(1)), RejectScope::Order)
        .is_some());

    accounts.unblock(account(1));
    assert!(accounts
        .check(&AccountOrder(account(1)), RejectScope::Order)
        .is_none());
}

#[test]
fn accounts_unblock_all_clears_the_global_block() {
    let mut blocked = BlockedAccounts::new();
    blocked.block_all_with_cause(AccountBlock::new(
        "Engine",
        RejectCode::SystemUnavailable,
        "mutation finalizer failed",
        "engine state may be inconsistent",
    ));
    let mut accounts = Accounts::new(
        AccountGroups::new(),
        AccountBlockHandle::from_inner(blocked),
        AccountCurrencies::new(),
    );
    assert!(accounts
        .check(&AccountOrder(account(1)), RejectScope::Order)
        .is_some());

    accounts.unblock_all();

    assert!(accounts
        .check(&AccountOrder(account(1)), RejectScope::Order)
        .is_none());
}

#[test]
fn accounts_unblock_all_without_a_global_block_is_noop() {
    let mut accounts = new_accounts();
    accounts.unblock_all();
    assert!(accounts
        .check(&AccountOrder(account(1)), RejectScope::Order)
        .is_none());
}

#[test]
fn accounts_unblock_of_non_blocked_account_is_noop() {
    let mut accounts = new_accounts();
    accounts.unblock(account(1));
    assert!(accounts
        .check(&AccountOrder(account(1)), RejectScope::Order)
        .is_none());
}

#[test]
fn accounts_replace_block_reason_updates_cause_and_errors_when_absent() {
    let mut accounts = new_accounts();
    assert_eq!(
        accounts.replace_block_reason(account(1), "x".to_owned()),
        Err(AccountBlockError::AccountNotBlocked {
            account: account(1)
        })
    );

    accounts.block(account(1), "first".to_owned());
    accounts
        .replace_block_reason(account(1), "second".to_owned())
        .expect("replacing reason on a blocked account must succeed");
    let rejects = accounts
        .check(&AccountOrder(account(1)), RejectScope::Order)
        .expect("blocked account must return rejects");
    assert_eq!(rejects.get(0).code, RejectCode::AccountBlocked);
    assert_eq!(rejects.get(0).reason, "second");
}

#[test]
fn accounts_block_group_tracks_membership_live() {
    let mut accounts = new_accounts();
    accounts
        .block_group(group(7), "group halt".to_owned())
        .expect("group block must succeed");
    accounts
        .register_group(&[account(1)], group(7))
        .expect("registration must succeed");
    assert!(accounts
        .check(&AccountOrder(account(1)), RejectScope::Order)
        .is_some());

    accounts
        .unregister_group(&[account(1)], group(7))
        .expect("unregistration must succeed");
    assert!(accounts
        .check(&AccountOrder(account(1)), RejectScope::Order)
        .is_none());
}

#[test]
fn accounts_unblock_group_and_replace_group_reason() {
    let mut accounts = new_accounts();
    accounts
        .register_group(&[account(1)], group(7))
        .expect("registration must succeed");
    accounts
        .block_group(group(7), "first".to_owned())
        .expect("group block must succeed");
    accounts
        .replace_group_block_reason(group(7), "second".to_owned())
        .expect("replacing group reason must succeed");
    let rejects = accounts
        .check(&AccountOrder(account(1)), RejectScope::Order)
        .expect("member of blocked group must be rejected");
    assert_eq!(rejects.get(0).reason, "second");

    accounts
        .unblock_group(group(7))
        .expect("group unblock must succeed");
    assert!(accounts
        .check(&AccountOrder(account(1)), RejectScope::Order)
        .is_none());
}

#[test]
fn accounts_group_operations_reject_reserved_default_group() {
    let mut accounts = new_accounts();
    assert_eq!(
        accounts.block_group(default_account_group(), "x".to_owned()),
        Err(AccountBlockError::ReservedGroup)
    );
    assert_eq!(
        accounts.unblock_group(default_account_group()),
        Err(AccountBlockError::ReservedGroup)
    );
    assert_eq!(
        accounts.replace_group_block_reason(default_account_group(), "x".to_owned()),
        Err(AccountBlockError::ReservedGroup)
    );
}

#[test]
fn accounts_replace_group_block_reason_errors_when_group_not_blocked() {
    let mut accounts = new_accounts();
    assert_eq!(
        accounts.replace_group_block_reason(group(7), "x".to_owned()),
        Err(AccountBlockError::GroupNotBlocked { group: group(7) })
    );
}

#[test]
fn currency_of_prefers_account_override() {
    let mut accounts = new_accounts();
    accounts
        .register_group(&[account(1)], group(7))
        .expect("registration must succeed");
    accounts.set_group_currency(group(7), asset("USD"));
    accounts.set_currency(account(1), asset("EUR"));

    assert_eq!(accounts.currency_of(account(1)), Some(asset("EUR")));
}

#[test]
fn currency_of_uses_group_fallback() {
    let mut accounts = new_accounts();
    accounts
        .register_group(&[account(1)], group(7))
        .expect("registration must succeed");
    accounts.set_group_currency(group(7), asset("USD"));

    assert_eq!(accounts.currency_of(account(1)), Some(asset("USD")));
}

#[test]
fn currency_of_uses_default_fallback() {
    let mut accounts = new_accounts();
    accounts
        .register_group(&[account(1)], group(7))
        .expect("registration must succeed");
    accounts.set_group_currency(default_account_group(), asset("USD"));

    assert_eq!(accounts.currency_of(account(1)), Some(asset("USD")));
    assert_eq!(accounts.currency_of(account(2)), Some(asset("USD")));
}

#[test]
fn currency_clear_reveals_lower_priority_tiers() {
    let mut accounts = new_accounts();
    accounts
        .register_group(&[account(1)], group(7))
        .expect("registration must succeed");
    accounts.set_group_currency(default_account_group(), asset("USD"));
    accounts.set_group_currency(group(7), asset("EUR"));
    accounts.set_currency(account(1), asset("GBP"));

    accounts.clear_currency(account(1));
    assert_eq!(accounts.currency_of(account(1)), Some(asset("EUR")));

    accounts.clear_group_currency(group(7));
    assert_eq!(accounts.currency_of(account(1)), Some(asset("USD")));

    accounts.clear_group_currency(default_account_group());
    assert_eq!(accounts.currency_of(account(1)), None);
}

#[test]
fn currency_of_unset_returns_none() {
    let accounts = new_accounts();

    assert_eq!(accounts.currency_of(account(1)), None);
}

#[test]
fn default_account_group_currency_is_allowed() {
    let mut accounts = new_accounts();
    accounts.set_group_currency(default_account_group(), asset("USD"));

    assert_eq!(accounts.currency_of(account(1)), Some(asset("USD")));

    accounts.clear_group_currency(default_account_group());
    assert_eq!(accounts.currency_of(account(1)), None);
}
