use openpit::account_control::BlockedAccounts;
use openpit::account_groups::AccountGroups;
use openpit::param::AccountId;
use openpit::pretrade::{AccountBlock, RejectCode, RejectScope, RequestFieldAccessError};
use openpit::request_trait::HasAccountId;

fn new_set() -> BlockedAccounts {
    BlockedAccounts::new()
}

fn cause(policy: &str, code: RejectCode) -> AccountBlock {
    AccountBlock::new(policy, code, "test block", "details")
}

struct AccountOrder(AccountId);

impl HasAccountId for AccountOrder {
    fn account_id(&self) -> Result<AccountId, RequestFieldAccessError> {
        Ok(self.0)
    }
}

struct NoAccountOrder;

impl HasAccountId for NoAccountOrder {
    fn account_id(&self) -> Result<AccountId, RequestFieldAccessError> {
        Err(RequestFieldAccessError::new("account_id"))
    }
}

fn account(id: u64) -> AccountId {
    AccountId::from_u64(id)
}

#[test]
fn blocked_accounts_initially_nothing_blocked() {
    let set = new_set();
    let groups = AccountGroups::new();
    assert!(set
        .check(&groups, &AccountOrder(account(1)), RejectScope::Order)
        .is_none());
    assert!(set.check(&groups, &NoAccountOrder, RejectScope::Order).is_none());
}

#[test]
fn blocked_accounts_record_account_blocks_that_account() {
    let mut set = new_set();
    let groups = AccountGroups::new();
    set.record_execution_report(
        &AccountOrder(account(1)),
        cause("Policy", RejectCode::PnlKillSwitchTriggered),
    );
    assert!(set
        .check(&groups, &AccountOrder(account(1)), RejectScope::Order)
        .is_some());
}

#[test]
fn blocked_accounts_record_account_does_not_block_other_accounts() {
    let mut set = new_set();
    let groups = AccountGroups::new();
    set.record_execution_report(
        &AccountOrder(account(1)),
        cause("Policy", RejectCode::PnlKillSwitchTriggered),
    );
    assert!(set
        .check(&groups, &AccountOrder(account(2)), RejectScope::Order)
        .is_none());
}

#[test]
fn blocked_accounts_record_no_account_blocks_every_account() {
    let mut set = new_set();
    let groups = AccountGroups::new();
    set.record_execution_report(
        &NoAccountOrder,
        cause("Policy", RejectCode::PnlKillSwitchTriggered),
    );
    assert!(set
        .check(&groups, &AccountOrder(account(1)), RejectScope::Order)
        .is_some());
    assert!(set
        .check(&groups, &AccountOrder(account(99)), RejectScope::Order)
        .is_some());
}

#[test]
fn blocked_accounts_record_no_account_blocks_unidentifiable_orders() {
    let mut set = new_set();
    let groups = AccountGroups::new();
    set.record_execution_report(
        &NoAccountOrder,
        cause("Policy", RejectCode::PnlKillSwitchTriggered),
    );
    assert!(set.check(&groups, &NoAccountOrder, RejectScope::Order).is_some());
}

#[test]
fn blocked_accounts_record_account_blocks_unidentifiable_orders() {
    let mut set = new_set();
    let groups = AccountGroups::new();
    set.record_execution_report(
        &AccountOrder(account(1)),
        cause("Policy", RejectCode::PnlKillSwitchTriggered),
    );
    assert!(set.check(&groups, &NoAccountOrder, RejectScope::Order).is_some());
}

#[test]
fn blocked_accounts_initially_unidentifiable_order_is_allowed() {
    let set = new_set();
    let groups = AccountGroups::new();
    assert!(set.check(&groups, &NoAccountOrder, RejectScope::Order).is_none());
}

#[test]
fn blocked_accounts_check_returns_cause_for_blocked_account() {
    let mut set = new_set();
    let groups = AccountGroups::new();
    set.record_execution_report(
        &AccountOrder(account(1)),
        cause("KillSwitch", RejectCode::PnlKillSwitchTriggered),
    );
    let rejects = set
        .check(&groups, &AccountOrder(account(1)), RejectScope::Order)
        .expect("blocked account must return rejects");
    assert_eq!(rejects.len(), 1);
    assert_eq!(rejects.get(0).policy, "KillSwitch");
    assert_eq!(rejects.get(0).code, RejectCode::PnlKillSwitchTriggered);
    assert_eq!(rejects.get(0).scope, RejectScope::Account);
}

#[test]
fn blocked_accounts_first_cause_wins_on_repeated_block() {
    let mut set = new_set();
    let groups = AccountGroups::new();
    set.record_execution_report(
        &AccountOrder(account(1)),
        cause("First", RejectCode::PnlKillSwitchTriggered),
    );
    set.record_execution_report(&AccountOrder(account(1)), cause("Second", RejectCode::Other));
    let rejects = set
        .check(&groups, &AccountOrder(account(1)), RejectScope::Order)
        .expect("blocked account must return rejects");
    assert_eq!(rejects.get(0).policy, "First");
}
