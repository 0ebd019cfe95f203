//! Rejects and account blocks produced by the pre-trade pipeline.
use vstd::prelude::*;
use vstd::string::*;
use crate::account_outcome::{AccountAdjustmentOutcome, AccountOutcomeEntry, AccountPnlOutcome};
use crate::param::Price;

verus! {

/// Machine-readable reason of a reject.
#[derive(Clone, Copy, Debug, PartialEq, Eq, Hash, Structural)]
pub enum RejectCode {
    /// A field the check needs could not be read from the request.
    MissingRequiredField,
    /// A field held a value the check cannot accept.
    InvalidFieldValue,
    /// The account is blocked.
    AccountBlocked,
    /// A PnL kill switch fired for the account.
    PnlKillSwitchTriggered,
    /// A rate limit was exceeded.
    RateLimitExceeded,
    /// An order-size limit was exceeded.
    OrderSizeLimitExceeded,
    /// Funds are not sufficient.
    InsufficientFunds,
    /// A risk limit was exceeded.
    RiskLimitExceeded,
    /// Reference data the check needs is not available.
    ReferenceDataUnavailable,
    /// Exact arithmetic exceeded the supported range.
    ArithmeticOverflow,
    /// The engine cannot serve the request.
    SystemUnavailable,
    /// Any other reason.
    Other,
}

/// Whether a reject with this code reports that the evaluation itself could not be
/// completed, rather than a business decision about the order.
pub open spec fn is_evaluation_failure_code(code: RejectCode) -> bool {
    match code {
        RejectCode::MissingRequiredField => true,
        RejectCode::InvalidFieldValue => true,
        RejectCode::ArithmeticOverflow => true,
        RejectCode::SystemUnavailable => true,
        RejectCode::ReferenceDataUnavailable => true,
        _ => false,
    }
}

impl RejectCode {
    /// Whether the code reports a failed evaluation rather than a business decision.
    pub fn is_evaluation_failure(self) -> (r: bool)
        ensures
            r == is_evaluation_failure_code(self),
    {
        match self {
            RejectCode::MissingRequiredField => true,
            RejectCode::InvalidFieldValue => true,
            RejectCode::ArithmeticOverflow => true,
            RejectCode::SystemUnavailable => true,
            RejectCode::ReferenceDataUnavailable => true,
            _ => false,
        }
    }
}

/// What a reject applies to.
#[derive(Clone, Copy, Debug, PartialEq, Eq, Hash, Structural)]
pub enum RejectScope {
    /// Only the rejected order.
    Order,
    /// The order's whole account.
    Account,
}

/// One reject: which policy refused, why, and with what scope.
#[derive(Clone, Debug, PartialEq, Eq)]
pub struct Reject {
    /// Name of the policy (or `"Engine"`) that produced the reject.
    pub policy: String,
    /// Reach of the reject.
    pub scope: RejectScope,
    /// Machine-readable reason.
    pub code: RejectCode,
    /// Human-readable reason.
    pub reason: String,
    /// Case-specific details.
    pub details: String,
}

impl Reject {
    /// Builds a reject from its parts.
    pub fn new(policy: &str, scope: RejectScope, code: RejectCode, reason: &str, details: &str) -> (r:
        Reject)
        ensures
            r.policy@ == policy@,
            r.scope == scope,
            r.code == code,
            r.reason@ == reason@,
            r.details@ == details@,
    {
        Reject {
            policy: policy.to_owned(),
            scope,
            code,
            reason: reason.to_owned(),
            details: details.to_owned(),
        }
    }

    /// Returns an equal copy of this reject.
    pub fn duplicate(&self) -> (r: Reject)
        ensures
            r == *self,
    {
        Reject {
            policy: self.policy.clone(),
            scope: self.scope,
            code: self.code,
            reason: self.reason.clone(),
            details: self.details.clone(),
        }
    }

    /// The account block this reject stands for, stored with `code`.
    pub fn account_block_with_code(&self, code: RejectCode) -> (r: AccountBlock)
        ensures
            r == block_of_reject(*self, code),
    {
        AccountBlock {
            policy: self.policy.clone(),
            code,
            reason: self.reason.clone(),
            details: self.details.clone(),
            provenance: None,
        }
    }

    /// Human-readable rendering: `[policy] reason: details`.
    pub fn message(&self) -> (r: String)
        ensures
            r@ == reject_text(*self),
    {
        let mut out = String::new();
        out.append("[");
        out.append(self.policy.as_str());
        out.append("] ");
        out.append(self.reason.as_str());
        out.append(": ");
        out.append(self.details.as_str());
        proof {
            reveal_strlit("[");
            reveal_strlit("] ");
            reveal_strlit(": ");
            assert(out@ =~= reject_text(*self));
        }
        out
    }

    /// The account-scoped reject that reports a stored account block.
    pub fn from_block(block: &AccountBlock) -> (r: Reject)
        ensures
            r == block.reject(),
    {
        Reject {
            policy: block.policy.clone(),
            scope: RejectScope::Account,
            code: block.code,
            reason: block.reason.clone(),
            details: block.details.clone(),
        }
    }
}

/// The account block a reject stands for, stored with `code` and no provenance.
pub open spec fn block_of_reject(r: Reject, code: RejectCode) -> AccountBlock {
    AccountBlock { policy: r.policy, code, reason: r.reason, details: r.details, provenance: None }
}

/// Rendering of one reject: `[policy] reason: details`.
pub open spec fn reject_text(r: Reject) -> Seq<char> {
    seq!['['] + r.policy@ + seq![']', ' '] + r.reason@ + seq![':', ' '] + r.details@
}

/// Rendering of a list of rejects: each reject's text, separated by `"; "`.
pub open spec fn rejects_text(items: Seq<Reject>) -> Seq<char>
    decreases items.len(),
{
    if items.len() == 0 {
        Seq::empty()
    } else if items.len() == 1 {
        reject_text(items[0])
    } else {
        rejects_text(items.drop_last()) + seq![';', ' '] + reject_text(items.last())
    }
}

/// An ordered list of rejects.
#[derive(Clone, Debug, PartialEq, Eq)]
pub struct Rejects {
    /// The rejects in the order they were produced.
    pub items: Vec<Reject>,
}

impl View for Rejects {
    type V = Seq<Reject>;

    open spec fn view(&self) -> Seq<Reject> {
        self.items@
    }
}

impl Rejects {
    /// Wraps a list of rejects.
    pub fn new(items: Vec<Reject>) -> (r: Rejects)
        ensures
            r@ == items@,
    {
        Rejects { items }
    }

    /// A list holding exactly `reject`.
    pub fn single(reject: Reject) -> (r: Rejects)
        ensures
            r@ == seq![reject],
    {
        let mut items = Vec::new();
        items.push(reject);
        Rejects { items }
    }

    /// Unwraps the list.
    pub fn into_vec(self) -> (r: Vec<Reject>)
        ensures
            r@ == self@,
    {
        self.items
    }

    /// Number of rejects.
    pub fn len(&self) -> (r: usize)
        ensures
            r == self@.len(),
    {
        self.items.len()
    }

    /// Whether the list is empty.
    pub fn is_empty(&self) -> (r: bool)
        ensures
            r == (self@.len() == 0),
    {
        self.items.len() == 0
    }

    /// Human-readable rendering of the whole list, rejects separated by `"; "`.
    pub fn message(&self) -> (r: String)
        ensures
            r@ == rejects_text(self@),
    {
        let mut out = String::new();
        let mut i: usize = 0;
        while i < self.items.len()
            invariant
                i <= self@.len(),
                out@ == rejects_text(self@.take(i as int)),
            decreases self@.len() - i,
        {
            if i > 0 {
                out.append("; ");
            }
            let text = self.items[i].message();
            out.append(text.as_str());
            proof {
                reveal_strlit("; ");
                let next = self@.take(i + 1);
                assert(next.drop_last() =~= self@.take(i as int));
                if i == 0 {
                    assert(self@.take(0) =~= Seq::<Reject>::empty());
                    assert(out@ =~= rejects_text(next));
                } else {
                    assert(out@ =~= rejects_text(next));
                }
            }
            i = i + 1;
        }
        proof {
            assert(self@.take(self@.len() as int) =~= self@);
        }
        out
    }

    /// The reject at `index`.
    pub fn get(&self, index: usize) -> (r: &Reject)
        requires
            index < self@.len(),
        ensures
            *r == self@[index as int],
    {
        &self.items[index]
    }
}

/// The stored cause of a block on an account, an account group, or the whole engine.
#[derive(Clone, Debug, PartialEq, Eq)]
pub struct AccountBlock {
    /// Name of the policy (or `"Engine"`) that raised the block.
    pub policy: String,
    /// Machine-readable reason reported by rejects while the block holds.
    pub code: RejectCode,
    /// Human-readable reason.
    pub reason: String,
    /// Case-specific details.
    pub details: String,
    /// Token of the provisional assertion that raised the block, when it was one.
    pub provenance: Option<u64>,
}

impl AccountBlock {
    /// Builds a block with no provenance.
    pub fn new(policy: &str, code: RejectCode, reason: &str, details: &str) -> (r: AccountBlock)
        ensures
            r.policy@ == policy@,
            r.code == code,
            r.reason@ == reason@,
            r.details@ == details@,
            r.provenance is None,
    {
        AccountBlock {
            policy: policy.to_owned(),
            code,
            reason: reason.to_owned(),
            details: details.to_owned(),
            provenance: None,
        }
    }

    /// Returns the same block carrying `provenance`.
    pub fn with_provenance(self, provenance: Option<u64>) -> (r: AccountBlock)
        ensures
            r == (AccountBlock { provenance, ..self }),
    {
        AccountBlock { provenance, ..self }
    }

    /// Token of the provisional assertion that raised the block, if any.
    pub fn provenance(&self) -> (r: Option<u64>)
        ensures
            r == self.provenance,
    {
        self.provenance
    }

    /// Returns an equal copy of this block.
    pub fn duplicate(&self) -> (r: AccountBlock)
        ensures
            r == *self,
    {
        AccountBlock {
            policy: self.policy.clone(),
            code: self.code,
            reason: self.reason.clone(),
            details: self.details.clone(),
            provenance: self.provenance,
        }
    }

    /// The account-scoped reject that reports this block.
    pub open spec fn reject(self) -> Reject {
        Reject {
            policy: self.policy,
            scope: RejectScope::Account,
            code: self.code,
            reason: self.reason,
            details: self.details,
        }
    }
}

/// Raw value of the policy group every policy belongs to unless tagged otherwise.
pub const DEFAULT_POLICY_GROUP_RAW: u32 = 0;

/// Tag shared by policies that act as one business entity.
#[derive(Clone, Copy, Debug, PartialEq, Eq, Hash, PartialOrd, Ord, Structural)]
pub struct PolicyGroupId(pub u32);

impl PolicyGroupId {
    /// Wraps a raw group tag.
    pub fn new(id: u32) -> (r: PolicyGroupId)
        ensures
            r.0 == id,
    {
        PolicyGroupId(id)
    }

    /// Returns the raw group tag.
    pub fn value(self) -> (r: u32)
        ensures
            r == self.0,
    {
        self.0
    }
}

/// The policy group of untagged policies.
pub fn default_policy_group_id() -> (r: PolicyGroupId)
    ensures
        r.0 == DEFAULT_POLICY_GROUP_RAW,
{
    PolicyGroupId(DEFAULT_POLICY_GROUP_RAW)
}

/// Prices of the entries of `entries` that belong to `group`, in order.
pub open spec fn prices_in(entries: Seq<(PolicyGroupId, Price)>, group: PolicyGroupId) -> Seq<Price>
    decreases entries.len(),
{
    if entries.len() == 0 {
        Seq::empty()
    } else if entries.last().0 == group {
        prices_in(entries.drop_last(), group).push(entries.last().1)
    } else {
        prices_in(entries.drop_last(), group)
    }
}

/// Reservation context captured during pre-trade: the prices that each policy
/// group locked, kept so that later execution-report handling can use them.
#[derive(Clone, Debug, PartialEq, Eq)]
pub struct PreTradeLock {
    /// Locked prices with the group that locked them, in locking order.
    pub prices: Vec<(PolicyGroupId, Price)>,
}

impl View for PreTradeLock {
    type V = Seq<(PolicyGroupId, Price)>;

    open spec fn view(&self) -> Seq<(PolicyGroupId, Price)> {
        self.prices@
    }
}

impl Default for PreTradeLock {
    fn default() -> (r: PreTradeLock)
        ensures
            r@ == Seq::<(PolicyGroupId, Price)>::empty(),
    {
        PreTradeLock { prices: Vec::new() }
    }
}

impl PreTradeLock {
    /// A lock with no prices.
    pub fn new() -> (r: PreTradeLock)
        ensures
            r@ == Seq::<(PolicyGroupId, Price)>::empty(),
    {
        PreTradeLock { prices: Vec::new() }
    }

    /// Records that `group` locked `price`.
    pub fn push(&mut self, group: PolicyGroupId, price: Price)
        ensures
            final(self)@ == old(self)@.push((group, price)),
    {
        self.prices.push((group, price));
    }

    /// Records that `group` locked each of `prices`, in order.
    pub fn push_many(&mut self, group: PolicyGroupId, prices: Vec<Price>)
        ensures
            final(self)@ == old(self)@ + prices@.map_values(|p: Price| (group, p)),
    {
        let mut i: usize = 0;
        while i < prices.len()
            invariant
                i <= prices@.len(),
                self@ == old(self)@ + prices@.take(i as int).map_values(|p: Price| (group, p)),
            decreases prices@.len() - i,
        {
            self.prices.push((group, prices[i]));
            proof {
                assert(prices@.take(i + 1).map_values(|p: Price| (group, p)) =~= prices@.take(
                    i as int,
                ).map_values(|p: Price| (group, p)).push((group, prices@[i as int])));
            }
            i = i + 1;
        }
        proof {
            assert(prices@.take(prices@.len() as int) =~= prices@);
        }
    }

    /// Prices locked by `group`, in locking order.
    pub fn prices_of(&self, group: PolicyGroupId) -> (r: Vec<Price>)
        ensures
            r@ == prices_in(self@, group),
    {
        let mut out: Vec<Price> = Vec::new();
        let mut i: usize = 0;
        while i < self.prices.len()
            invariant
                i <= self@.len(),
                out@ == prices_in(self@.take(i as int), group),
            decreases self@.len() - i,
        {
            let entry = self.prices[i];
            if entry.0 == group {
                out.push(entry.1);
            }
            proof {
                assert(self@.take(i + 1).drop_last() =~= self@.take(i as int));
            }
            i = i + 1;
        }
        proof {
            assert(self@.take(self@.len() as int) =~= self@);
        }
        out
    }

    /// Returns a copy of this lock holding the same entries.
    pub fn duplicate(&self) -> (r: PreTradeLock)
        ensures
            r@ == self@,
    {
        let mut prices: Vec<(PolicyGroupId, Price)> = Vec::new();
        let mut i: usize = 0;
        while i < self.prices.len()
            invariant
                i <= self@.len(),
                prices@ == self@.take(i as int),
            decreases self@.len() - i,
        {
            prices.push(self.prices[i]);
            proof {
                assert(self@.take(i + 1) =~= self@.take(i as int).push(self@[i as int]));
            }
            i = i + 1;
        }
        proof {
            assert(self@.take(self@.len() as int) =~= self@);
        }
        PreTradeLock { prices }
    }
}

/// What a policy reports for an order it accepted.
#[derive(Clone, Debug, PartialEq, Eq)]
pub struct PolicyPreTradeResult {
    /// Balance and position outcomes, per asset.
    pub account_adjustments: Vec<AccountOutcomeEntry>,
    /// Prices the policy locked for the order.
    pub lock_prices: Vec<Price>,
}

impl PolicyPreTradeResult {
    /// A result that reports nothing.
    pub fn new() -> (r: PolicyPreTradeResult)
        ensures
            r.account_adjustments@.len() == 0,
            r.lock_prices@.len() == 0,
    {
        PolicyPreTradeResult { account_adjustments: Vec::new(), lock_prices: Vec::new() }
    }

    /// A result that reports nothing, with room for the given numbers of entries.
    pub fn with_capacity(adjustments: usize, prices: usize) -> (r: PolicyPreTradeResult)
        ensures
            r.account_adjustments@.len() == 0,
            r.lock_prices@.len() == 0,
    {
        PolicyPreTradeResult {
            account_adjustments: Vec::with_capacity(adjustments),
            lock_prices: Vec::with_capacity(prices),
        }
    }
}

/// What policies report after an execution report was applied.
#[derive(Clone, Debug, PartialEq, Eq)]
pub struct PostTradeResult {
    /// Account blocks the policies entered after the report.
    pub account_blocks: Vec<AccountBlock>,
    /// Account-level realized-PnL outcomes.
    pub account_pnls: Vec<AccountPnlOutcome>,
    /// Balance and position outcomes, tagged with their policy groups.
    pub account_adjustments: Vec<AccountAdjustmentOutcome>,
}

impl PostTradeResult {
    /// A result that reports nothing.
    pub fn new() -> (r: PostTradeResult)
        ensures
            r.account_blocks@.len() == 0,
            r.account_pnls@.len() == 0,
            r.account_adjustments@.len() == 0,
    {
        PostTradeResult { account_blocks: Vec::new(), account_pnls: Vec::new(), account_adjustments: Vec::new() }
    }
}

/// What a policy reports for an account adjustment it accepted.
#[derive(Clone, Debug, PartialEq, Eq)]
pub struct PolicyAccountAdjustmentResult {
    /// Balance and position outcomes, per asset.
    pub account_adjustments: Vec<AccountOutcomeEntry>,
    /// Account blocks to record once the batch is accepted.
    pub account_blocks: Vec<AccountBlock>,
}

impl PolicyAccountAdjustmentResult {
    /// A result that reports nothing.
    pub fn new() -> (r: PolicyAccountAdjustmentResult)
        ensures
            r.account_adjustments@.len() == 0,
            r.account_blocks@.len() == 0,
    {
        PolicyAccountAdjustmentResult { account_adjustments: Vec::new(), account_blocks: Vec::new() }
    }
}

/// Error returned when a request does not carry a field a reader asked for.
#[derive(Clone, Copy, Debug, PartialEq, Eq)]
pub struct RequestFieldAccessError {
    /// Path of the missing field.
    pub field: &'static str,
}

impl RequestFieldAccessError {
    /// Reports that `field` is not available.
    pub fn new(field: &'static str) -> (r: RequestFieldAccessError)
        ensures
            r.field == field,
    {
        RequestFieldAccessError { field }
    }

    /// Path of the missing field.
    pub fn field(&self) -> (r: &'static str)
        ensures
            r == self.field,
    {
        self.field
    }
}

} // verus!
