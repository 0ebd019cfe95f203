//! What a policy reports back about balances, positions and realized PnL.
use vstd::prelude::*;
use crate::param::{AccountId, Asset, Pnl, PositionSize, Price};
use crate::pretrade::{AccountBlock, PolicyGroupId};

verus! {

/// A delta/absolute pair for one position field.
#[derive(Clone, Copy, Debug, PartialEq, Eq, Structural)]
pub struct OutcomeAmount {
    /// Signed change applied by the operation; the authoritative value.
    pub delta: PositionSize,
    /// Field value when the policy returned, before the deferred commit; a hint.
    pub absolute: PositionSize,
}

/// A delta/absolute pair for a realized-PnL field.
#[derive(Clone, Copy, Debug, PartialEq, Eq, Structural)]
pub struct PnlOutcomeAmount {
    /// Signed PnL change applied by the operation.
    pub delta: Pnl,
    /// Cumulative realized PnL after the operation.
    pub absolute: Pnl,
}

/// Reason why a realized-PnL calculation halted.
#[derive(Clone, Copy, Debug, PartialEq, Eq, Hash, Structural)]
pub enum PnlHaltReason {
    /// A required FX quote was unavailable.
    MissingFx,
    /// The current account currency was unavailable.
    MissingAccountCurrency,
    /// A non-flat position had no initial realized-PnL value.
    MissingInitialPnl,
    /// A position realization required an unavailable average cost basis.
    MissingCostBasis,
    /// Exact PnL arithmetic exceeded the supported decimal range.
    ArithmeticOverflow,
}

/// Result of one realized-PnL calculation: the value, or why it halted.
pub type PnlOutcome = Result<PnlOutcomeAmount, PnlHaltReason>;

/// Current state of a realized-PnL accumulator.
#[derive(Clone, Copy, Debug, PartialEq, Eq, Structural)]
pub enum PnlState {
    /// Authoritative accumulated PnL value.
    Value(Pnl),
    /// Calculation is stopped until an explicit numeric correction re-arms it.
    Halted(PnlHaltReason),
}

/// Account-level realized-PnL outcome for one account ledger.
#[derive(Clone, Copy, Debug, PartialEq, Eq)]
pub struct AccountPnlOutcome {
    /// Account PnL, or the reason why it is unavailable.
    pub result: PnlOutcome,
    /// Account that owns the ledger.
    pub account_id: AccountId,
    /// Policy-group tag of the policy that produced this outcome.
    pub policy_group_id: PolicyGroupId,
}

/// Raw outcome data produced by a policy for one asset.
#[derive(Clone, Debug, PartialEq, Eq)]
pub struct AccountOutcomeEntry {
    /// Asset this outcome refers to.
    pub asset: Asset,
    /// Settled balance or position outcome.
    pub balance: Option<OutcomeAmount>,
    /// Held (reserved) amount outcome.
    pub held: Option<OutcomeAmount>,
    /// Incoming (pending inflow) amount outcome.
    pub incoming: Option<OutcomeAmount>,
    /// Position realized-PnL result, in the account currency.
    pub realized_pnl: Option<PnlOutcome>,
    /// Average entry price of the current net position, when tracked.
    pub average_entry_price: Option<Price>,
}

/// An outcome entry tagged with the policy group that produced it.
#[derive(Clone, Debug, PartialEq, Eq)]
pub struct AccountAdjustmentOutcome {
    /// Policy-group tag of the policy that produced this outcome.
    pub policy_group_id: PolicyGroupId,
    /// The outcome entry.
    pub entry: AccountOutcomeEntry,
}

/// Outcome of an accepted account-adjustment batch.
#[derive(Clone, Debug, Default, PartialEq, Eq)]
pub struct AccountAdjustmentBatchResult {
    /// Per-policy outcomes in policy registration order.
    pub outcomes: Vec<AccountAdjustmentOutcome>,
    /// Account blocks reported by policies after the batch was accepted.
    pub account_blocks: Vec<AccountBlock>,
}

impl AccountAdjustmentBatchResult {
    /// A result with no outcomes and no blocks.
    pub fn new() -> (r: AccountAdjustmentBatchResult)
        ensures
            r.outcomes@.len() == 0,
            r.account_blocks@.len() == 0,
    {
        AccountAdjustmentBatchResult { outcomes: Vec::new(), account_blocks: Vec::new() }
    }

    /// The outcomes, in policy registration order.
    pub fn outcomes(&self) -> (r: &Vec<AccountAdjustmentOutcome>)
        ensures
            r@ == self.outcomes@,
    {
        &self.outcomes
    }

    /// Consumes the result and returns its outcomes.
    pub fn into_outcomes(self) -> (r: Vec<AccountAdjustmentOutcome>)
        ensures
            r@ == self.outcomes@,
    {
        self.outcomes
    }
}

} // verus!
