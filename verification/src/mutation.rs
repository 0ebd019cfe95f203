//! Commit/rollback finalizer pairs registered by policies, and the reporting of
//! finalizers that fail.
//!
//! A policy applies tentative state, then registers a mutation whose `commit`
//! makes it final and whose `rollback` reverses it. Commits run in registration
//! order; rollbacks run in reverse registration order. A failed finalizer arms the
//! engine kill switch: for an engine-owned mutation it blocks the pipeline's
//! account, for a custom-policy one (whose reach is unknown) it blocks every account.
use vstd::prelude::*;
use vstd::string::*;
use crate::account_control::{
    after_block_account, after_block_all_with_cause, is_mutation_finalizer_block, AccountBlockHandle,
};
use crate::param::AccountId;

verus! {

/// Who registered a mutation, which decides how far a failure of its finalizers
/// reaches.
#[derive(Clone, Copy, Debug, PartialEq, Eq, Structural)]
pub enum MutationProvenance {
    /// Registered by engine-owned code; its reach is the pipeline's account.
    EngineOwned,
    /// Registered through a public constructor; its reach is unknown.
    CustomPolicy,
}

/// Reach of the kill switch armed by a failed finalizer.
#[derive(Clone, Copy, Debug, PartialEq, Eq, Structural)]
pub enum MutationFailureScope {
    /// Block the account the pipeline ran for.
    Account,
    /// Block every account.
    Global,
}

/// The reach of a failure of a finalizer registered by `provenance`.
pub open spec fn scope_of(provenance: MutationProvenance) -> MutationFailureScope {
    match provenance {
        MutationProvenance::EngineOwned => MutationFailureScope::Account,
        MutationProvenance::CustomPolicy => MutationFailureScope::Global,
    }
}

/// The reach after adding a failure of reach `scope`: a global failure always wins,
/// an account one only fills an empty reach.
pub open spec fn widened(current: Option<MutationFailureScope>, scope: MutationFailureScope) -> Option<
    MutationFailureScope,
> {
    if scope == MutationFailureScope::Global || current is None {
        Some(scope)
    } else {
        current
    }
}

/// Texts of `items` joined with `"; "`.
pub open spec fn joined(items: Seq<String>) -> Seq<char>
    decreases items.len(),
{
    if items.len() == 0 {
        Seq::empty()
    } else if items.len() == 1 {
        items[0]@
    } else {
        joined(items.drop_last()) + "; "@ + items.last()@
    }
}

/// Failed finalizers collected over a batch: their error texts in the order they
/// were reported, and the widest reach among them (`None` when none failed).
#[derive(Debug)]
pub struct MutationFailure {
    details: Vec<String>,
    scope: Option<MutationFailureScope>,
}

impl Default for MutationFailure {
    fn default() -> (r: MutationFailure)
        ensures
            r.spec_details() == Seq::<String>::empty(),
            r.spec_scope() is None,
    {
        MutationFailure::new()
    }
}

impl MutationFailure {
    /// Error texts, in report order.
    pub closed spec fn spec_details(&self) -> Seq<String> {
        self.details@
    }

    /// Widest reach, or `None` when nothing failed.
    pub closed spec fn spec_scope(&self) -> Option<MutationFailureScope> {
        self.scope
    }

    /// No failure.
    pub fn new() -> (r: MutationFailure)
        ensures
            r.spec_details() == Seq::<String>::empty(),
            r.spec_scope() is None,
    {
        MutationFailure { details: Vec::new(), scope: None }
    }

    /// Records a failure of a finalizer registered by `provenance`.
    pub fn record(&mut self, provenance: MutationProvenance, details: String)
        ensures
            final(self).spec_scope() == widened(old(self).spec_scope(), scope_of(provenance)),
            final(self).spec_details() == old(self).spec_details().push(details),
    {
        let scope = match provenance {
            MutationProvenance::EngineOwned => MutationFailureScope::Account,
            MutationProvenance::CustomPolicy => MutationFailureScope::Global,
        };
        self.widen(scope);
        self.details.push(details);
    }

    /// Widens the reach with a failure of reach `scope`.
    pub fn widen(&mut self, scope: MutationFailureScope)
        ensures
            final(self).spec_scope() == widened(old(self).spec_scope(), scope),
            final(self).spec_details() == old(self).spec_details(),
    {
        if scope == MutationFailureScope::Global || self.scope.is_none() {
            self.scope = Some(scope);
        }
    }

    /// Adds the failures of `other` after this one's.
    pub fn append(&mut self, other: MutationFailure)
        ensures
            final(self).spec_scope() == (match other.spec_scope() {
                Some(s) => widened(old(self).spec_scope(), s),
                None => old(self).spec_scope(),
            }),
            final(self).spec_details() == old(self).spec_details() + other.spec_details(),
    {
        let mut other = other;
        match other.scope {
            Some(scope) => self.widen(scope),
            None => {},
        }
        self.details.append(&mut other.details);
    }

    /// The kill-switch reach, or `None` when every finalizer succeeded.
    pub fn scope(&self) -> (r: Option<MutationFailureScope>)
        ensures
            r == self.spec_scope(),
    {
        self.scope
    }

    /// Whether any finalizer failed.
    pub fn failed(&self) -> (r: bool)
        ensures
            r == (self.spec_scope() is Some),
    {
        self.scope.is_some()
    }

    /// The error texts joined with `"; "`.
    pub fn details(&self) -> (r: String)
        ensures
            r@ == joined(self.spec_details()),
    {
        let mut out = String::new();
        let n = self.details.len();
        let mut i: usize = 0;
        while i < n
            invariant
                n == self.details@.len(),
                i <= n,
                out@ == joined(self.details@.take(i as int)),
            decreases n - i,
        {
            proof {
                assert(self.details@.take(i + 1).drop_last() =~= self.details@.take(i as int));
                reveal_strlit("; ");
            }
            if i != 0 {
                out.append("; ");
            }
            out.append(self.details[i].as_str());
            proof {
                if i == 0 {
                    assert(self.details@.take(0) =~= Seq::<String>::empty());
                    assert(out@ =~= self.details@.take(1)[0]@);
                } else {
                    assert(out@ =~= joined(self.details@.take(i + 1)));
                }
            }
            i += 1;
        }
        proof {
            assert(self.details@.take(n as int) =~= self.details@);
        }
        out
    }
}

/// Whether a successful rollback left nothing to report.
pub open spec fn is_clean(r: MutationRollbackResult) -> bool {
    r.failure.spec_scope() is None && r.failure.spec_details().len() == 0
}

/// Outcome of a rollback: the finalizers that failed during it.
#[derive(Debug)]
pub struct MutationRollbackResult {
    /// The failed finalizers.
    pub failure: MutationFailure,
}

impl Default for MutationRollbackResult {
    fn default() -> (r: MutationRollbackResult)
        ensures
            is_clean(r),
    {
        MutationRollbackResult::new()
    }
}

impl MutationRollbackResult {
    /// A rollback with no failure.
    pub fn new() -> (r: MutationRollbackResult)
        ensures
            is_clean(r),
    {
        MutationRollbackResult { failure: MutationFailure::new() }
    }

    /// Adds the failures of `other` after this one's.
    pub fn append(&mut self, other: MutationRollbackResult)
        ensures
            final(self).failure.spec_scope() == (match other.failure.spec_scope() {
                Some(s) => widened(old(self).failure.spec_scope(), s),
                None => old(self).failure.spec_scope(),
            }),
            final(self).failure.spec_details() == old(self).failure.spec_details()
                + other.failure.spec_details(),
    {
        self.failure.append(other.failure);
    }

    /// A rollback whose callback, registered by `provenance`, failed with `details`.
    pub fn callback_failure(provenance: MutationProvenance, details: String) -> (r: MutationRollbackResult)
        ensures
            r.failure.spec_scope() == Some(scope_of(provenance)),
            r.failure.spec_details() == seq![details],
    {
        let mut failure = MutationFailure::new();
        failure.record(provenance, details);
        proof {
            assert(failure.spec_details() =~= seq![details]);
        }
        MutationRollbackResult { failure }
    }

    /// A failed engine-owned compensation.
    pub fn engine_owned_callback_failure(details: String) -> (r: MutationRollbackResult)
        ensures
            r.failure.spec_scope() == Some(MutationFailureScope::Account),
            r.failure.spec_details() == seq![details],
    {
        Self::callback_failure(MutationProvenance::EngineOwned, details)
    }

    /// The failures, which must arm the engine kill switch.
    pub fn failure(&self) -> (r: &MutationFailure)
        ensures
            r == &self.failure,
    {
        &self.failure
    }

    /// Whether a rollback callback failed.
    pub fn callback_failed(&self) -> (r: bool)
        ensures
            r == (self.failure.spec_scope() is Some),
    {
        self.failure.failed()
    }

    /// The joined failure texts.
    pub fn callback_failure_details(&self) -> (r: String)
        ensures
            r@ == joined(self.failure.spec_details()),
    {
        self.failure.details()
    }
}

} // verus!

verus! {

/// The finalizer pair of one mutation.
pub trait MutationFinalizer {
    /// The commit callback has not run and can be called.
    spec fn can_commit(&self) -> bool;

    /// The rollback callback has not run and can be called.
    spec fn can_rollback(&self) -> bool;

    /// Whether `r` is a result committing from this state can give: what the
    /// commit callback's outcome turns into.
    spec fn commit_allows(&self, r: Result<(), String>) -> bool;

    /// Whether `r` is a report rolling back from this state can give: what the
    /// rollback callback's outcome turns into.
    spec fn rollback_allows(&self, r: MutationRollbackResult) -> bool;

    /// Makes the tentative state final; `Err` carries the failure text. The commit
    /// callback is used up.
    fn commit(&mut self) -> (r: Result<(), String>)
        requires
            old(self).can_commit(),
        ensures
            old(self).commit_allows(r),
            !final(self).can_commit(),
    ;

    /// Reverses the tentative state and reports the callbacks that failed doing so.
    /// Both callbacks are used up.
    fn rollback(&mut self) -> (r: MutationRollbackResult)
        requires
            old(self).can_rollback(),
        ensures
            old(self).rollback_allows(r),
            !final(self).can_commit(),
            !final(self).can_rollback(),
    ;
}

/// Whether `r` is what a callback reporting success as `ok` turns into when it
/// commits: `Ok`, or the commit failure text.
pub open spec fn bool_commit_result(ok: bool, r: Result<(), String>) -> bool {
    if ok {
        r == Ok::<(), String>(())
    } else {
        r matches Err(d) && is_commit_failure_text(d@)
    }
}

/// Whether `r` is what a custom-policy rollback callback reporting success as `ok`
/// turns into: a clean report, or one global failure with the rollback failure text.
pub open spec fn bool_rollback_result(ok: bool, r: MutationRollbackResult) -> bool {
    if ok {
        is_clean(r)
    } else {
        &&& r.failure.spec_scope() == Some(MutationFailureScope::Global)
        &&& r.failure.spec_details().len() == 1
        &&& is_rollback_failure_text(r.failure.spec_details()[0]@)
    }
}

/// Whether `r` is what a custom-policy rollback callback that returned `outcome`
/// turns into: a clean report, or one global failure carrying its text.
pub open spec fn text_rollback_result(outcome: Result<(), String>, r: MutationRollbackResult) -> bool {
    match outcome {
        Ok(()) => is_clean(r),
        Err(d) => r.failure.spec_scope() == Some(MutationFailureScope::Global) && r.failure.spec_details()
            == seq![d],
    }
}

/// Whether `details` is the text reported for a commit callback that returned `false`.
pub open spec fn is_commit_failure_text(details: Seq<char>) -> bool {
    details == "mutation commit callback failed"@
}

/// Whether `details` is the text reported for a rollback callback that returned `false`.
pub open spec fn is_rollback_failure_text(details: Seq<char>) -> bool {
    details == "mutation rollback callback failed"@
}

fn commit_failure_text() -> (r: String)
    ensures
        is_commit_failure_text(r@),
{
    "mutation commit callback failed".to_owned()
}

fn rollback_failure_text() -> (r: String)
    ensures
        is_rollback_failure_text(r@),
{
    "mutation rollback callback failed".to_owned()
}

/// Finalizers that cannot fail.
struct InfallibleFinalizer<C: FnOnce(), R: FnOnce()> {
    commit: Option<C>,
    rollback: Option<R>,
}

impl<C: FnOnce(), R: FnOnce()> MutationFinalizer for InfallibleFinalizer<C, R> {
    closed spec fn can_commit(&self) -> bool {
        self.commit matches Some(c) && call_requires(c, ())
    }

    closed spec fn can_rollback(&self) -> bool {
        self.rollback matches Some(r) && call_requires(r, ())
    }

    closed spec fn commit_allows(&self, r: Result<(), String>) -> bool {
        &&& r == Ok::<(), String>(())
        &&& self.commit matches Some(c) ==> call_ensures(c, (), ())
    }

    closed spec fn rollback_allows(&self, r: MutationRollbackResult) -> bool {
        &&& is_clean(r)
        &&& self.rollback matches Some(c) ==> call_ensures(c, (), ())
    }

    fn commit(&mut self) -> (r: Result<(), String>) {
        match self.commit.take() {
            Some(commit) => commit(),
            None => {},
        }
        Ok(())
    }

    fn rollback(&mut self) -> (r: MutationRollbackResult) {
        self.commit = None;
        match self.rollback.take() {
            Some(rollback) => rollback(),
            None => {},
        }
        MutationRollbackResult::new()
    }
}

/// Finalizers that report failure by returning `false`.
struct FallibleFinalizer<C: FnOnce() -> bool, R: FnOnce() -> bool> {
    commit: Option<C>,
    rollback: Option<R>,
}

impl<C: FnOnce() -> bool, R: FnOnce() -> bool> MutationFinalizer for FallibleFinalizer<C, R> {
    closed spec fn can_commit(&self) -> bool {
        self.commit matches Some(c) && call_requires(c, ())
    }

    closed spec fn can_rollback(&self) -> bool {
        self.rollback matches Some(r) && call_requires(r, ())
    }

    closed spec fn commit_allows(&self, r: Result<(), String>) -> bool {
        match self.commit {
            Some(c) => exists|ok: bool| call_ensures(c, (), ok) && bool_commit_result(ok, r),
            None => r == Ok::<(), String>(()),
        }
    }

    closed spec fn rollback_allows(&self, r: MutationRollbackResult) -> bool {
        match self.rollback {
            Some(c) => exists|ok: bool| call_ensures(c, (), ok) && bool_rollback_result(ok, r),
            None => is_clean(r),
        }
    }

    fn commit(&mut self) -> (r: Result<(), String>) {
        match self.commit.take() {
            Some(commit) => {
                let ok = commit();
                let r = if ok {
                    Ok(())
                } else {
                    Err(commit_failure_text())
                };
                proof {
                    assert(call_ensures(commit, (), ok) && bool_commit_result(ok, r));
                }
                r
            },
            None => Ok(()),
        }
    }

    fn rollback(&mut self) -> (r: MutationRollbackResult) {
        self.commit = None;
        match self.rollback.take() {
            Some(rollback) => {
                let ok = rollback();
                let r = if ok {
                    MutationRollbackResult::new()
                } else {
                    MutationRollbackResult::callback_failure(
                        MutationProvenance::CustomPolicy,
                        rollback_failure_text(),
                    )
                };
                proof {
                    assert(call_ensures(rollback, (), ok) && bool_rollback_result(ok, r));
                }
                r
            },
            None => MutationRollbackResult::new(),
        }
    }
}

/// Finalizers that report failure details as an error text.
struct FallibleWithErrorFinalizer<C: FnOnce() -> Result<(), String>, R: FnOnce() -> Result<(), String>> {
    commit: Option<C>,
    rollback: Option<R>,
}

impl<C: FnOnce() -> Result<(), String>, R: FnOnce() -> Result<(), String>> MutationFinalizer for FallibleWithErrorFinalizer<
    C,
    R,
> {
    closed spec fn can_commit(&self) -> bool {
        self.commit matches Some(c) && call_requires(c, ())
    }

    closed spec fn can_rollback(&self) -> bool {
        self.rollback matches Some(r) && call_requires(r, ())
    }

    closed spec fn commit_allows(&self, r: Result<(), String>) -> bool {
        match self.commit {
            Some(c) => call_ensures(c, (), r),
            None => r == Ok::<(), String>(()),
        }
    }

    closed spec fn rollback_allows(&self, r: MutationRollbackResult) -> bool {
        match self.rollback {
            Some(c) => exists|outcome: Result<(), String>|
                call_ensures(c, (), outcome) && text_rollback_result(outcome, r),
            None => is_clean(r),
        }
    }

    fn commit(&mut self) -> (r: Result<(), String>) {
        match self.commit.take() {
            Some(commit) => commit(),
            None => Ok(()),
        }
    }

    fn rollback(&mut self) -> (r: MutationRollbackResult) {
        self.commit = None;
        match self.rollback.take() {
            Some(rollback) => {
                let outcome = rollback();
                let ghost seen = outcome;
                let r = match outcome {
                    Ok(()) => MutationRollbackResult::new(),
                    Err(details) => MutationRollbackResult::callback_failure(
                        MutationProvenance::CustomPolicy,
                        details,
                    ),
                };
                proof {
                    assert(call_ensures(rollback, (), seen) && text_rollback_result(seen, r));
                }
                r
            },
            None => MutationRollbackResult::new(),
        }
    }
}

/// Engine-owned finalizers whose rollback reports its own failures; an optional
/// guard is kept alive until the rollback has run.
struct ReportingFinalizer<C: FnOnce() -> bool, R: FnOnce() -> MutationRollbackResult, G> {
    commit: Option<C>,
    rollback: Option<R>,
    guard: Option<G>,
}

impl<C: FnOnce() -> bool, R: FnOnce() -> MutationRollbackResult, G> MutationFinalizer for ReportingFinalizer<
    C,
    R,
    G,
> {
    closed spec fn can_commit(&self) -> bool {
        self.commit matches Some(c) && call_requires(c, ())
    }

    closed spec fn can_rollback(&self) -> bool {
        self.rollback matches Some(r) && call_requires(r, ())
    }

    closed spec fn commit_allows(&self, r: Result<(), String>) -> bool {
        match self.commit {
            Some(c) => exists|ok: bool| call_ensures(c, (), ok) && bool_commit_result(ok, r),
            None => r == Ok::<(), String>(()),
        }
    }

    closed spec fn rollback_allows(&self, r: MutationRollbackResult) -> bool {
        match self.rollback {
            Some(c) => call_ensures(c, (), r),
            None => is_clean(r),
        }
    }

    fn commit(&mut self) -> (r: Result<(), String>) {
        match self.commit.take() {
            Some(commit) => {
                let ok = commit();
                let r = if ok {
                    Ok(())
                } else {
                    Err(commit_failure_text())
                };
                proof {
                    assert(call_ensures(commit, (), ok) && bool_commit_result(ok, r));
                }
                r
            },
            None => Ok(()),
        }
    }

    fn rollback(&mut self) -> (r: MutationRollbackResult) {
        self.commit = None;
        let result = match self.rollback.take() {
            Some(rollback) => rollback(),
            None => MutationRollbackResult::new(),
        };
        self.guard = None;
        result
    }
}

/// A commit/rollback pair registered by a policy.
///
/// `commit` runs when the pipeline succeeds; `rollback` runs when it fails or when
/// the caller-owned handle is rolled back. Policies apply tentative state before
/// registering the pair and make `rollback` reverse it.
pub struct Mutation {
    finalizer: Box<dyn MutationFinalizer>,
    provenance: MutationProvenance,
}

impl Mutation {
    /// Both callbacks are still pending: every mutation keeps this until it is
    /// committed or rolled back, which consumes it.
    #[verifier::type_invariant]
    pub closed spec fn wf(&self) -> bool {
        self.finalizer.can_commit() && self.finalizer.can_rollback()
    }

    /// Who registered the mutation.
    pub closed spec fn spec_provenance(&self) -> MutationProvenance {
        self.provenance
    }

    /// Whether `r` is a result that committing this mutation can give.
    pub closed spec fn commit_allows(&self, r: Result<(), String>) -> bool {
        self.finalizer.commit_allows(r)
    }

    /// Whether `r` is a report that rolling this mutation back can give.
    pub closed spec fn rollback_allows(&self, r: MutationRollbackResult) -> bool {
        self.finalizer.rollback_allows(r)
    }

    /// Who registered the mutation.
    pub fn provenance(&self) -> (r: MutationProvenance)
        ensures
            r == self.spec_provenance(),
    {
        self.provenance
    }

    /// A custom-policy mutation from callbacks that cannot fail.
    pub fn new<C: FnOnce() + 'static, R: FnOnce() + 'static>(commit: C, rollback: R) -> (r: Mutation)
        requires
            call_requires(commit, ()),
            call_requires(rollback, ()),
        ensures
            r.wf(),
            r.spec_provenance() == MutationProvenance::CustomPolicy,
            forall|res: Result<(), String>| #[trigger] r.commit_allows(res) <==> (res == Ok::<(), String>(())
                && call_ensures(commit, (), ())),
            forall|res: MutationRollbackResult| #[trigger] r.rollback_allows(res) <==> (is_clean(res)
                && call_ensures(rollback, (), ())),
    {
        Self::new_infallible(MutationProvenance::CustomPolicy, commit, rollback)
    }

    /// A custom-policy mutation whose callbacks report failure by returning `false`.
    pub fn new_fallible<C: FnOnce() -> bool + 'static, R: FnOnce() -> bool + 'static>(commit: C, rollback: R) -> (r:
        Mutation)
        requires
            call_requires(commit, ()),
            call_requires(rollback, ()),
        ensures
            r.wf(),
            r.spec_provenance() == MutationProvenance::CustomPolicy,
            forall|res: Result<(), String>| #[trigger] r.commit_allows(res) <==> (exists|ok: bool|
                call_ensures(commit, (), ok) && bool_commit_result(ok, res)),
            forall|res: MutationRollbackResult| #[trigger] r.rollback_allows(res) <==> (exists|ok: bool|
                call_ensures(rollback, (), ok) && bool_rollback_result(ok, res)),
    {
        let finalizer = FallibleFinalizer { commit: Some(commit), rollback: Some(rollback) };
        Mutation { finalizer: Box::new(finalizer), provenance: MutationProvenance::CustomPolicy }
    }

    /// A custom-policy mutation whose callbacks report failure details.
    pub fn new_fallible_with_error<C: FnOnce() -> Result<(), String> + 'static, R: FnOnce() -> Result<
        (),
        String,
    > + 'static>(commit: C, rollback: R) -> (r: Mutation)
        requires
            call_requires(commit, ()),
            call_requires(rollback, ()),
        ensures
            r.wf(),
            r.spec_provenance() == MutationProvenance::CustomPolicy,
            forall|res: Result<(), String>| #[trigger] r.commit_allows(res) <==> call_ensures(commit, (), res),
            forall|res: MutationRollbackResult| #[trigger] r.rollback_allows(res) <==> (exists|
                outcome: Result<(), String>|
                call_ensures(rollback, (), outcome) && text_rollback_result(outcome, res)),
    {
        let finalizer = FallibleWithErrorFinalizer { commit: Some(commit), rollback: Some(rollback) };
        Mutation { finalizer: Box::new(finalizer), provenance: MutationProvenance::CustomPolicy }
    }

    /// An engine-owned mutation from callbacks that cannot fail.
    pub fn new_engine_owned<C: FnOnce() + 'static, R: FnOnce() + 'static>(commit: C, rollback: R) -> (r: Mutation)
        requires
            call_requires(commit, ()),
            call_requires(rollback, ()),
        ensures
            r.wf(),
            r.spec_provenance() == MutationProvenance::EngineOwned,
            forall|res: Result<(), String>| #[trigger] r.commit_allows(res) <==> (res == Ok::<(), String>(())
                && call_ensures(commit, (), ())),
            forall|res: MutationRollbackResult| #[trigger] r.rollback_allows(res) <==> (is_clean(res)
                && call_ensures(rollback, (), ())),
    {
        Self::new_infallible(MutationProvenance::EngineOwned, commit, rollback)
    }

    fn new_infallible<C: FnOnce() + 'static, R: FnOnce() + 'static>(
        provenance: MutationProvenance,
        commit: C,
        rollback: R,
    ) -> (r: Mutation)
        requires
            call_requires(commit, ()),
            call_requires(rollback, ()),
        ensures
            r.wf(),
            r.spec_provenance() == provenance,
            forall|res: Result<(), String>| #[trigger] r.commit_allows(res) <==> (res == Ok::<(), String>(())
                && call_ensures(commit, (), ())),
            forall|res: MutationRollbackResult| #[trigger] r.rollback_allows(res) <==> (is_clean(res)
                && call_ensures(rollback, (), ())),
    {
        let finalizer = InfallibleFinalizer { commit: Some(commit), rollback: Some(rollback) };
        Mutation { finalizer: Box::new(finalizer), provenance }
    }

    /// An engine-owned mutation whose rollback reports its own failures.
    pub fn new_reporting<C: FnOnce() -> bool + 'static, R: FnOnce() -> MutationRollbackResult + 'static>(
        commit: C,
        rollback: R,
    ) -> (r: Mutation)
        requires
            call_requires(commit, ()),
            call_requires(rollback, ()),
        ensures
            r.wf(),
            r.spec_provenance() == MutationProvenance::EngineOwned,
            forall|res: Result<(), String>| #[trigger] r.commit_allows(res) <==> (exists|ok: bool|
                call_ensures(commit, (), ok) && bool_commit_result(ok, res)),
            forall|res: MutationRollbackResult| #[trigger] r.rollback_allows(res) <==> call_ensures(
                rollback,
                (),
                res,
            ),
    {
        let finalizer = ReportingFinalizer::<C, R, ()> {
            commit: Some(commit),
            rollback: Some(rollback),
            guard: None,
        };
        Mutation { finalizer: Box::new(finalizer), provenance: MutationProvenance::EngineOwned }
    }

    /// Like [`Mutation::new_reporting`], keeping `guard` alive until the rollback ran.
    pub fn new_reporting_with_guard<
        C: FnOnce() -> bool + 'static,
        R: FnOnce() -> MutationRollbackResult + 'static,
        G: 'static,
    >(commit: C, rollback: R, guard: G) -> (r: Mutation)
        requires
            call_requires(commit, ()),
            call_requires(rollback, ()),
        ensures
            r.wf(),
            r.spec_provenance() == MutationProvenance::EngineOwned,
            forall|res: Result<(), String>| #[trigger] r.commit_allows(res) <==> (exists|ok: bool|
                call_ensures(commit, (), ok) && bool_commit_result(ok, res)),
            forall|res: MutationRollbackResult| #[trigger] r.rollback_allows(res) <==> call_ensures(
                rollback,
                (),
                res,
            ),
    {
        let finalizer = ReportingFinalizer { commit: Some(commit), rollback: Some(rollback), guard: Some(guard) };
        Mutation { finalizer: Box::new(finalizer), provenance: MutationProvenance::EngineOwned }
    }

    /// Runs the commit callback.
    pub fn commit(self) -> (r: Result<(), String>)
        ensures
            self.commit_allows(r),
    {
        proof {
            use_type_invariant(&self);
        }
        let mut finalizer = self.finalizer;
        finalizer.commit()
    }

    /// Runs the rollback callback; the commit callback is dropped unrun.
    pub fn rollback(self) -> (r: MutationRollbackResult)
        ensures
            self.rollback_allows(r),
    {
        proof {
            use_type_invariant(&self);
        }
        let mut finalizer = self.finalizer;
        finalizer.rollback()
    }
}

/// The reach of the failures among `errors` (where `None` is a success) of
/// mutations registered by `provenances`.
pub open spec fn commit_scope(provenances: Seq<MutationProvenance>, errors: Seq<Option<String>>) -> Option<
    MutationFailureScope,
>
    decreases errors.len(),
{
    if errors.len() == 0 {
        None
    } else {
        let prior = commit_scope(provenances, errors.drop_last());
        match errors.last() {
            Some(_) => widened(prior, scope_of(provenances[errors.len() - 1])),
            None => prior,
        }
    }
}

/// The error texts among `errors`, in order.
pub open spec fn commit_details(errors: Seq<Option<String>>) -> Seq<String>
    decreases errors.len(),
{
    if errors.len() == 0 {
        Seq::empty()
    } else {
        let prior = commit_details(errors.drop_last());
        match errors.last() {
            Some(d) => prior.push(d),
            None => prior,
        }
    }
}

/// The result a commit outcome recorded as `e` stands for: `None` is a success,
/// `Some(d)` the failure text `d`.
pub open spec fn commit_result(e: Option<String>) -> Result<(), String> {
    match e {
        Some(d) => Err(d),
        None => Ok(()),
    }
}

/// The reach of rollback reports `parts` appended one after another.
pub open spec fn reports_scope(parts: Seq<MutationRollbackResult>) -> Option<MutationFailureScope>
    decreases parts.len(),
{
    if parts.len() == 0 {
        None
    } else {
        match parts.last().failure.spec_scope() {
            Some(s) => widened(reports_scope(parts.drop_last()), s),
            None => reports_scope(parts.drop_last()),
        }
    }
}

/// The failure texts of rollback reports `parts`, one report after another.
pub open spec fn reports_details(parts: Seq<MutationRollbackResult>) -> Seq<String>
    decreases parts.len(),
{
    if parts.len() == 0 {
        Seq::empty()
    } else {
        reports_details(parts.drop_last()) + parts.last().failure.spec_details()
    }
}

/// Whether `r` is a failure report that committing `items` can give: every commit
/// runs once, in registration order, `errors[i]` being the outcome of the `i`-th
/// one; the failures are reported in that order, and each widens the reach by its
/// mutation's provenance.
pub open spec fn commit_gives(items: Seq<Mutation>, r: MutationFailure) -> bool {
    exists|errors: Seq<Option<String>>|
        {
            &&& errors.len() == items.len()
            &&& forall|i: int|
                0 <= i < errors.len() ==> items[i].commit_allows(commit_result(#[trigger] errors[i]))
            &&& r.spec_scope() == commit_scope(items.map_values(|m: Mutation| m.spec_provenance()), errors)
            &&& r.spec_details() == commit_details(errors)
        }
}

/// Whether `r` is a report that rolling `items` back can give: every rollback runs
/// once, in reverse registration order, `parts[k]` being the report of the `k`-th
/// to run; the result appends them in that order.
pub open spec fn rollback_gives(items: Seq<Mutation>, r: MutationRollbackResult) -> bool {
    exists|parts: Seq<MutationRollbackResult>|
        {
            &&& parts.len() == items.len()
            &&& forall|k: int|
                0 <= k < parts.len() ==> items[parts.len() - 1 - k].rollback_allows(#[trigger] parts[k])
            &&& r.failure.spec_scope() == reports_scope(parts)
            &&& r.failure.spec_details() == reports_details(parts)
        }
}

/// The mutations collected by a pipeline.
pub struct Mutations {
    mutations: Vec<Mutation>,
}

impl Default for Mutations {
    fn default() -> (r: Mutations)
        ensures
            r.items() == Seq::<Mutation>::empty(),
            r.provenances().len() == 0,
    {
        Mutations::new()
    }
}

impl Mutations {
    /// The collected mutations, in registration order.
    pub closed spec fn items(&self) -> Seq<Mutation> {
        self.mutations@
    }

    /// Provenance of each collected mutation, in registration order.
    pub open spec fn provenances(&self) -> Seq<MutationProvenance> {
        self.items().map_values(|m: Mutation| m.spec_provenance())
    }

    /// Whether `r` is a failure report that committing these mutations can give
    /// (see [`commit_gives`]).
    pub open spec fn commit_gives(&self, r: MutationFailure) -> bool {
        commit_gives(self.items(), r)
    }

    /// Whether `r` is a report that rolling these mutations back can give (see
    /// [`rollback_gives`]).
    pub open spec fn rollback_gives(&self, r: MutationRollbackResult) -> bool {
        rollback_gives(self.items(), r)
    }

    /// An empty collector.
    pub fn new() -> (r: Mutations)
        ensures
            r.items() == Seq::<Mutation>::empty(),
            r.provenances().len() == 0,
    {
        Mutations { mutations: Vec::new() }
    }

    /// An empty collector with room for `capacity` mutations.
    pub fn with_capacity(capacity: usize) -> (r: Mutations)
        ensures
            r.items() == Seq::<Mutation>::empty(),
            r.provenances().len() == 0,
    {
        Mutations { mutations: Vec::with_capacity(capacity) }
    }

    /// Appends a mutation; nothing runs yet.
    pub fn push(&mut self, mutation: Mutation)
        ensures
            final(self).items() == old(self).items().push(mutation),
            final(self).provenances() == old(self).provenances().push(mutation.spec_provenance()),
    {
        self.mutations.push(mutation);
        proof {
            assert(self.items().map_values(|m: Mutation| m.spec_provenance()) =~= old(
                self,
            ).provenances().push(mutation.spec_provenance()));
        }
    }

    /// Appends the mutations of `other` after these.
    pub fn append(&mut self, other: Mutations)
        ensures
            final(self).items() == old(self).items() + other.items(),
            final(self).provenances() == old(self).provenances() + other.provenances(),
    {
        let ghost appended = other.provenances();
        let ghost items = other.items();
        let mut other = other;
        self.mutations.append(&mut other.mutations);
        proof {
            assert(self.items() =~= old(self).items() + items);
            assert(self.items().map_values(|m: Mutation| m.spec_provenance()) =~= old(
                self,
            ).provenances() + appended);
        }
    }

    /// Whether nothing was collected.
    pub fn is_empty(&self) -> (r: bool)
        ensures
            r == (self.items().len() == 0),
    {
        self.mutations.len() == 0
    }

    /// Number of collected mutations.
    pub fn len(&self) -> (r: usize)
        ensures
            r == self.items().len(),
    {
        self.mutations.len()
    }

    /// Runs every commit callback once, in registration order, whatever the earlier
    /// ones returned, and no rollback callback. `errors[i]` is the outcome of the
    /// `i`-th mutation's commit; each failure is reported with its text, in order, and
    /// widens the reach by the failing mutation's provenance.
    pub fn commit_all(self) -> (r: MutationFailure)
        ensures
            self.commit_gives(r),
    {
        let ghost items = self.items();
        let ghost provenances = self.provenances();
        let ghost n = items.len();
        let mut pending = self.mutations;
        let mut ordered: Vec<Mutation> = Vec::new();
        while pending.len() > 0
            invariant
                n == items.len(),
                pending@.len() + ordered@.len() == n,
                pending@ =~= items.take(pending@.len() as int),
                forall|j: int| 0 <= j < ordered@.len() ==> #[trigger] ordered@[j] == items[n - 1 - j],
            decreases pending@.len(),
        {
            let ghost before = pending@;
            let m = pending.pop().unwrap();
            proof {
                assert(before[before.len() - 1] == items.take(before.len() as int)[before.len() - 1]);
                assert(items.take(pending@.len() as int) =~= items.take(before.len() as int).drop_last());
            }
            ordered.push(m);
        }
        let mut failure = MutationFailure::new();
        let ghost mut errors: Seq<Option<String>> = Seq::empty();
        while ordered.len() > 0
            invariant
                n == items.len(),
                ordered@.len() + errors.len() == n,
                forall|j: int| 0 <= j < ordered@.len() ==> #[trigger] ordered@[j] == items[n - 1 - j],
                provenances == items.map_values(|m: Mutation| m.spec_provenance()),
                forall|i: int|
                    0 <= i < errors.len() ==> items[i].commit_allows(commit_result(#[trigger] errors[i])),
                failure.spec_scope() == commit_scope(provenances, errors),
                failure.spec_details() == commit_details(errors),
            decreases ordered@.len(),
        {
            let ghost before = ordered@;
            let mutation = ordered.pop().unwrap();
            let provenance = mutation.provenance;
            proof {
                assert(before[before.len() - 1] == items[n - 1 - (before.len() - 1)]);
                assert(mutation == items[errors.len() as int]);
                assert(provenance == provenances[errors.len() as int]);
            }
            let outcome = mutation.commit();
            let ghost seen = outcome;
            match outcome {
                Ok(()) => {
                    proof {
                        let next = errors.push(None);
                        assert(next.drop_last() =~= errors);
                        let u: () = seen->Ok_0;
                        assert(u == ());
                        assert(commit_result(next[errors.len() as int]) == seen);
                        errors = next;
                    }
                },
                Err(details) => {
                    let ghost d = details;
                    failure.record(provenance, details);
                    proof {
                        let next = errors.push(Some(d));
                        assert(next.drop_last() =~= errors);
                        assert(commit_result(next[errors.len() as int]) == seen);
                        errors = next;
                    }
                },
            }
        }
        failure
    }

    /// Runs every rollback callback once, in reverse registration order, and no
    /// commit callback. `parts[k]` is the report of the `k`-th rollback to run (the
    /// mutation registered `k`-th from the end); the result appends them in that
    /// order: their texts one after another and the widest reach.
    pub fn rollback_all(self) -> (r: MutationRollbackResult)
        ensures
            self.rollback_gives(r),
    {
        let ghost items = self.items();
        let ghost n = items.len();
        let mut pending = self.mutations;
        let mut result = MutationRollbackResult::new();
        let ghost mut parts: Seq<MutationRollbackResult> = Seq::empty();
        while pending.len() > 0
            invariant
                n == items.len(),
                pending@.len() + parts.len() == n,
                pending@ =~= items.take(pending@.len() as int),
                forall|k: int| 0 <= k < parts.len() ==> items[n - 1 - k].rollback_allows(#[trigger] parts[k]),
                result.failure.spec_scope() == reports_scope(parts),
                result.failure.spec_details() == reports_details(parts),
            decreases pending@.len(),
        {
            let ghost before = pending@;
            let mutation = pending.pop().unwrap();
            proof {
                assert(before[before.len() - 1] == items.take(before.len() as int)[before.len() - 1]);
                assert(items.take(pending@.len() as int) =~= items.take(before.len() as int).drop_last());
            }
            let part = mutation.rollback();
            proof {
                let next = parts.push(part);
                assert(next.drop_last() =~= parts);
                parts = next;
            }
            result.append(part);
        }
        result
    }
}

} // verus!

verus! {

/// Where a failed finalizer arms the engine kill switch.
pub struct MutationFailureKillSwitch {
    target: Option<Option<AccountId>>,
}

impl MutationFailureKillSwitch {
    /// Whether the switch is wired to a blocked set (an inert one ignores failures).
    pub closed spec fn armed(&self) -> bool {
        self.target is Some
    }

    /// The pipeline account the switch blocks for an account-scoped failure.
    pub closed spec fn account(&self) -> Option<AccountId> {
        self.target.unwrap()
    }

    /// A switch that blocks `account` (or everything, when the account is unreadable
    /// or the failure's reach is global).
    pub fn new(account: Option<AccountId>) -> (r: MutationFailureKillSwitch)
        ensures
            r.armed(),
            r.account() == account,
    {
        MutationFailureKillSwitch { target: Some(account) }
    }

    /// A switch with no engine behind it.
    pub fn inert() -> (r: MutationFailureKillSwitch)
        ensures
            !r.armed(),
    {
        MutationFailureKillSwitch { target: None }
    }

    /// Arms the kill switch on `handle` when `failure` carries a reach; a clean batch
    /// (or an inert switch) changes nothing.
    pub fn arm(&self, handle: &mut AccountBlockHandle, failure: &MutationFailure)
        requires
            old(handle).wf(),
        ensures
            final(handle).wf(),
            (!self.armed() || failure.spec_scope() is None) ==> final(handle)@ == old(handle)@,
            (self.armed() && failure.spec_scope() is Some) ==> exists|b: crate::pretrade::AccountBlock|
                is_mutation_finalizer_block(b) && final(handle)@ == match (
                    failure.spec_scope().unwrap(),
                    self.account(),
                ) {
                    (MutationFailureScope::Account, Some(a)) => after_block_account(old(handle)@, a.0, b),
                    _ => after_block_all_with_cause(old(handle)@, b),
                },
    {
        match (&self.target, failure.scope()) {
            (Some(account), Some(scope)) => handle.record_mutation_failure(*account, scope),
            _ => {},
        }
    }
}

/// A mutation pushed last commits last: the last outcome a commit of the batch
/// reports is one its commit allows.
pub proof fn law_pushed_mutation_commits_last(items: Seq<Mutation>, x: Mutation, r: MutationFailure)
    requires
        commit_gives(items.push(x), r),
    ensures
        exists|errors: Seq<Option<String>>|
            {
                &&& errors.len() == items.len() + 1
                &&& x.commit_allows(commit_result(#[trigger] errors[items.len() as int]))
                &&& r.spec_details() == commit_details(errors)
            },
{
    let all = items.push(x);
    let errors = choose|errors: Seq<Option<String>>|
        {
            &&& errors.len() == all.len()
            &&& forall|i: int| 0 <= i < errors.len() ==> all[i].commit_allows(commit_result(#[trigger] errors[i]))
            &&& r.spec_scope() == commit_scope(all.map_values(|m: Mutation| m.spec_provenance()), errors)
            &&& r.spec_details() == commit_details(errors)
        };
    assert(all[items.len() as int] == x);
    assert(all[items.len() as int].commit_allows(commit_result(errors[items.len() as int])));
}

/// A mutation pushed last rolls back first: the first report a rollback of the
/// batch appends is one its rollback allows.
pub proof fn law_pushed_mutation_rolls_back_first(items: Seq<Mutation>, x: Mutation, r: MutationRollbackResult)
    requires
        rollback_gives(items.push(x), r),
    ensures
        exists|parts: Seq<MutationRollbackResult>|
            {
                &&& parts.len() == items.len() + 1
                &&& x.rollback_allows(#[trigger] parts[0])
                &&& r.failure.spec_details() == reports_details(parts)
            },
{
    let all = items.push(x);
    let parts = choose|parts: Seq<MutationRollbackResult>|
        {
            &&& parts.len() == all.len()
            &&& forall|k: int| 0 <= k < parts.len() ==> all[parts.len() - 1 - k].rollback_allows(#[trigger] parts[k])
            &&& r.failure.spec_scope() == reports_scope(parts)
            &&& r.failure.spec_details() == reports_details(parts)
        };
    assert(all[parts.len() - 1 - 0] == x);
    assert(all[parts.len() - 1 - 0].rollback_allows(parts[0]));
}

/// A batch of engine-owned mutations never fails wider than its account.
pub proof fn law_engine_owned_failures_stay_account_scoped(
    provenances: Seq<MutationProvenance>,
    errors: Seq<Option<String>>,
)
    requires
        errors.len() <= provenances.len(),
        forall|i: int| 0 <= i < provenances.len() ==> provenances[i] == MutationProvenance::EngineOwned,
    ensures
        commit_scope(provenances, errors) is None || commit_scope(provenances, errors) == Some(
            MutationFailureScope::Account,
        ),
    decreases errors.len(),
{
    if errors.len() > 0 {
        law_engine_owned_failures_stay_account_scoped(provenances, errors.drop_last());
    }
}

/// A failed custom-policy finalizer makes the whole batch's failure global, whatever
/// failed before or after it.
pub proof fn law_custom_policy_failure_is_global(
    provenances: Seq<MutationProvenance>,
    errors: Seq<Option<String>>,
    k: int,
)
    requires
        errors.len() <= provenances.len(),
        0 <= k < errors.len(),
        errors[k] is Some,
        provenances[k] == MutationProvenance::CustomPolicy,
    ensures
        commit_scope(provenances, errors) == Some(MutationFailureScope::Global),
    decreases errors.len(),
{
    if k < errors.len() - 1 {
        law_custom_policy_failure_is_global(provenances, errors.drop_last(), k);
    }
}

/// A batch reports a reach exactly when it reports at least one failure text.
pub proof fn law_failure_reach_iff_details(provenances: Seq<MutationProvenance>, errors: Seq<Option<String>>)
    requires
        errors.len() <= provenances.len(),
    ensures
        (commit_scope(provenances, errors) is None) == (commit_details(errors).len() == 0),
    decreases errors.len(),
{
    if errors.len() > 0 {
        law_failure_reach_iff_details(provenances, errors.drop_last());
    }
}

} // verus!
