use std::cell::RefCell;
use std::rc::Rc;

use openpit::mutation::{Mutation, MutationFailureScope, MutationRollbackResult, Mutations};

fn noop_action() {}

fn always_fails() -> bool {
    false
}

fn always_succeeds() -> bool {
    true
}

#[test]
fn commit_all_applies_in_registration_order() {
    let calls = Rc::new(RefCell::new(Vec::new()));
    let mut mutations = Mutations::with_capacity(3);
    for id in ["a", "b", "c"] {
        let c = Rc::clone(&calls);
        mutations.push(Mutation::new(
            move || {
                c.borrow_mut().push(id);
            },
            noop_action,
        ));
    }

    let failure = mutations.commit_all();
    assert!(!failure.failed());
    assert_eq!(&*calls.borrow(), &["a", "b", "c"]);
}

#[test]
fn commit_all_reports_failure_and_keeps_applying() {
    let calls = Rc::new(RefCell::new(Vec::new()));
    let mut mutations = Mutations::with_capacity(2);
    for (id, succeeds) in [("a", false), ("b", true)] {
        let commit_calls = Rc::clone(&calls);
        mutations.push(Mutation::new_fallible(
            move || {
                commit_calls.borrow_mut().push(id);
                succeeds
            },
            always_succeeds,
        ));
    }

    let failure = mutations.commit_all();
    assert_eq!(&*calls.borrow(), &["a", "b"]);
    assert_eq!(failure.scope(), Some(MutationFailureScope::Global));
    assert!(failure.details().contains("commit callback failed"));
}

#[test]
fn engine_owned_finalizer_failure_stays_account_scoped() {
    let mut mutations = Mutations::with_capacity(1);
    mutations.push(Mutation::new_reporting(
        always_fails,
        MutationRollbackResult::default,
    ));

    let failure = mutations.commit_all();
    assert_eq!(failure.scope(), Some(MutationFailureScope::Account));
}

#[test]
fn custom_policy_failure_widens_an_engine_owned_one() {
    let mut mutations = Mutations::with_capacity(2);
    mutations.push(Mutation::new_reporting(
        always_fails,
        MutationRollbackResult::default,
    ));
    mutations.push(Mutation::new_fallible(always_fails, always_succeeds));

    let failure = mutations.commit_all();
    assert_eq!(failure.scope(), Some(MutationFailureScope::Global));
}

#[test]
fn rollback_all_reports_custom_policy_failure_globally() {
    let mut mutations = Mutations::with_capacity(1);
    mutations.push(Mutation::new_fallible(always_succeeds, always_fails));

    let result = mutations.rollback_all();
    assert!(result.callback_failed());
    assert_eq!(result.failure().scope(), Some(MutationFailureScope::Global));
    assert!(result
        .callback_failure_details()
        .contains("rollback callback failed"));
}

#[test]
fn rollback_all_applies_in_reverse_order() {
    let calls = Rc::new(RefCell::new(Vec::new()));
    let mut mutations = Mutations::with_capacity(3);
    for id in ["a", "b", "c"] {
        let r = Rc::clone(&calls);
        mutations.push(Mutation::new(noop_action, move || {
            r.borrow_mut().push(id);
        }));
    }

    let _ = mutations.rollback_all();
    assert_eq!(&*calls.borrow(), &["c", "b", "a"]);
}

#[test]
fn default_creates_empty_mutations() {
    let mutations = Mutations::default();
    assert!(mutations.is_empty());
}

#[test]
fn new_creates_empty_mutations() {
    let mutations = Mutations::new();
    assert!(mutations.is_empty());
}

#[test]
fn commit_all_on_empty_is_noop() {
    noop_action();
    assert!(!Mutations::new().commit_all().failed());
}

#[test]
fn rollback_all_on_empty_is_noop() {
    let _ = Mutations::new().rollback_all();
}
