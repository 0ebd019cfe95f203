//! Field-access traits implemented by requests (orders, execution reports and
//! account adjustments). A reader asks a request for a field; a request that does
//! not carry it answers with a `RequestFieldAccessError`. Wrapper types pass the
//! fields of the request they wrap through unchanged. The traits are open to
//! implementors, so they promise nothing of their own; the library's request
//! types state what each of their readers returns.
use vstd::prelude::*;
use crate::account_outcome::PnlState;
use crate::param::{
    AccountId, AdjustmentAmount, Asset, Fee, Instrument, Leverage, Pnl, PositionEffect,
    PositionMode, PositionSide, PositionSize, Price, Quantity, Side, Trade, TradeAmount,
};
use crate::pretrade::{PreTradeLock, RequestFieldAccessError};

verus! {

/// A request that may carry the account it concerns.
pub trait HasAccountId {
    /// Reads the field.
    fn account_id(&self) -> Result<AccountId, RequestFieldAccessError>;
}

/// The account an answer of [`HasAccountId::account_id`] gives: `None` when the
/// request could not give it.
pub open spec fn account_of(res: Result<AccountId, RequestFieldAccessError>) -> Option<AccountId> {
    match res {
        Ok(id) => Some(id),
        Err(_) => None,
    }
}

/// Whether `account` is what reading the account of `request` can give.
pub open spec fn reads_account<O: HasAccountId>(request: O, account: Option<AccountId>) -> bool {
    exists|res: Result<AccountId, RequestFieldAccessError>|
        #[trigger] call_ensures(O::account_id, (&request,), res) && account == account_of(res)
}

/// Reads the account of `request` once: `None` when it cannot be read.
pub fn read_account<O: HasAccountId>(request: &O) -> (r: Option<AccountId>)
    ensures
        reads_account(*request, r),
{
    let res = request.account_id();
    proof {
        assert(call_ensures(O::account_id, (request,), res));
    }
    match res {
        Ok(id) => Some(id),
        Err(_) => None,
    }
}

/// A request that carries the traded instrument.
pub trait HasInstrument {
    /// Reads the field.
    fn instrument(&self) -> Result<&Instrument, RequestFieldAccessError>;
}

/// A request that carries a side.
pub trait HasSide {
    /// Reads the field.
    fn side(&self) -> Result<Side, RequestFieldAccessError>;
}

/// A request that carries a trade amount.
pub trait HasTradeAmount {
    /// Reads the field.
    fn trade_amount(&self) -> Result<TradeAmount, RequestFieldAccessError>;
}

/// A request that carries the reduce-only flag.
pub trait HasReduceOnly {
    /// Reads the field.
    fn reduce_only(&self) -> Result<bool, RequestFieldAccessError>;
}

/// A request that carries the close-position flag.
pub trait HasClosePosition {
    /// Reads the field.
    fn close_position(&self) -> Result<bool, RequestFieldAccessError>;
}

/// A request that carries the auto-borrow flag.
pub trait HasAutoBorrow {
    /// Reads the field.
    fn auto_borrow(&self) -> Result<bool, RequestFieldAccessError>;
}

/// A request that carries a realized PnL.
pub trait HasPnl {
    /// Reads the field.
    fn pnl(&self) -> Result<Pnl, RequestFieldAccessError>;
}

/// A request that carries a fee.
pub trait HasFee {
    /// Reads the field.
    fn fee(&self) -> Result<Fee, RequestFieldAccessError>;
}

/// A request that carries the remaining order quantity after a fill.
pub trait HasLeavesQuantity {
    /// Reads the field.
    fn leaves_quantity(&self) -> Result<Quantity, RequestFieldAccessError>;
}

/// A request that carries the reservation lock captured during pre-trade.
pub trait HasLock {
    /// Reads the field.
    fn lock(&self) -> Result<PreTradeLock, RequestFieldAccessError>;
}

/// A request that carries the requested worst execution price; `None` means market price.
pub trait HasOrderPrice {
    /// Reads the field.
    fn price(&self) -> Result<Option<Price>, RequestFieldAccessError>;
}

/// An order that may target a hedge-mode leg.
pub trait HasOrderPositionSide {
    /// Reads the field.
    fn position_side(&self) -> Result<Option<PositionSide>, RequestFieldAccessError>;
}

/// An order that may carry its own leverage.
pub trait HasOrderLeverage {
    /// Reads the field.
    fn leverage(&self) -> Result<Option<Leverage>, RequestFieldAccessError>;
}

/// An order that may name the collateral funding it.
pub trait HasOrderCollateralAsset {
    /// Reads the field.
    fn collateral_asset(&self) -> Result<Option<&Asset>, RequestFieldAccessError>;
}

/// An execution report that may carry the last trade.
pub trait HasExecutionReportLastTrade {
    /// Reads the field.
    fn last_trade(&self) -> Result<Option<Trade>, RequestFieldAccessError>;
}

/// An execution report that says whether it closes the order's report stream.
pub trait HasExecutionReportIsTerminal {
    /// Reads the field.
    fn is_terminal(&self) -> Result<bool, RequestFieldAccessError>;
}

/// An execution report that may say whether it opened or closed exposure.
pub trait HasExecutionReportPositionEffect {
    /// Reads the field.
    fn position_effect(&self) -> Result<Option<PositionEffect>, RequestFieldAccessError>;
}

/// An execution report that may name the hedge-mode leg it affected.
pub trait HasExecutionReportPositionSide {
    /// Reads the field.
    fn position_side(&self) -> Result<Option<PositionSide>, RequestFieldAccessError>;
}

/// An account adjustment that names the balance asset it adjusts.
pub trait HasBalanceAsset {
    /// Reads the field.
    fn balance_asset(&self) -> Result<&Asset, RequestFieldAccessError>;
}

/// An account adjustment that may carry a cost basis for the adjusted balance.
pub trait HasAccountAdjustmentBalanceAverageEntryPrice {
    /// Reads the field.
    fn balance_average_entry_price(&self) -> Result<Option<Price>, RequestFieldAccessError>;
}

/// An account adjustment that names the position instrument it adjusts.
pub trait HasPositionInstrument {
    /// Reads the field.
    fn position_instrument(&self) -> Result<&Instrument, RequestFieldAccessError>;
}

/// An account adjustment that names the collateral asset of the adjusted position.
pub trait HasCollateralAsset {
    /// Reads the field.
    fn collateral_asset(&self) -> Result<&Asset, RequestFieldAccessError>;
}

/// An account adjustment that carries the average entry price of the adjusted position.
pub trait HasAverageEntryPrice {
    /// Reads the field.
    fn average_entry_price(&self) -> Result<Price, RequestFieldAccessError>;
}

/// An account adjustment that carries the position mode.
pub trait HasPositionMode {
    /// Reads the field.
    fn position_mode(&self) -> Result<PositionMode, RequestFieldAccessError>;
}

/// An account adjustment that may carry a leverage for the adjusted position.
pub trait HasAccountAdjustmentPositionLeverage {
    /// Reads the field.
    fn position_leverage(&self) -> Result<Option<Leverage>, RequestFieldAccessError>;
}

/// An account adjustment that may change the total.
pub trait HasAccountAdjustmentTotal {
    /// Reads the field.
    fn total(&self) -> Result<Option<AdjustmentAmount>, RequestFieldAccessError>;
}

/// An account adjustment that may change the reserved amount.
pub trait HasAccountAdjustmentReserved {
    /// Reads the field.
    fn reserved(&self) -> Result<Option<AdjustmentAmount>, RequestFieldAccessError>;
}

/// An account adjustment that may change the pending amount.
pub trait HasAccountAdjustmentPending {
    /// Reads the field.
    fn pending(&self) -> Result<Option<AdjustmentAmount>, RequestFieldAccessError>;
}

/// An account adjustment that may bound the total from above.
pub trait HasAccountAdjustmentTotalUpperBound {
    /// Reads the field.
    fn total_upper_bound(&self) -> Result<Option<PositionSize>, RequestFieldAccessError>;
}

/// An account adjustment that may bound the total from below.
pub trait HasAccountAdjustmentTotalLowerBound {
    /// Reads the field.
    fn total_lower_bound(&self) -> Result<Option<PositionSize>, RequestFieldAccessError>;
}

/// An account adjustment that may bound the reserved amount from above.
pub trait HasAccountAdjustmentReservedUpperBound {
    /// Reads the field.
    fn reserved_upper_bound(&self) -> Result<Option<PositionSize>, RequestFieldAccessError>;
}

/// An account adjustment that may bound the reserved amount from below.
pub trait HasAccountAdjustmentReservedLowerBound {
    /// Reads the field.
    fn reserved_lower_bound(&self) -> Result<Option<PositionSize>, RequestFieldAccessError>;
}

/// An account adjustment that may bound the pending amount from above.
pub trait HasAccountAdjustmentPendingUpperBound {
    /// Reads the field.
    fn pending_upper_bound(&self) -> Result<Option<PositionSize>, RequestFieldAccessError>;
}

/// An account adjustment that may bound the pending amount from below.
pub trait HasAccountAdjustmentPendingLowerBound {
    /// Reads the field.
    fn pending_lower_bound(&self) -> Result<Option<PositionSize>, RequestFieldAccessError>;
}

/// An account adjustment that may replace the account-wide realized-PnL state.
pub trait HasAccountAdjustmentPnlOperation {
    /// Reads the field.
    fn account_adjustment_pnl_operation(&self) -> Result<Option<PnlState>, RequestFieldAccessError>;
}

/// An account adjustment that may change a balance and correct its realized PnL.
pub trait HasAccountAdjustmentBalance {
    /// Reads the balance change.
    fn balance(&self) -> Result<Option<AdjustmentAmount>, RequestFieldAccessError>;

    /// Reads the realized-PnL correction.
    fn balance_realized_pnl(&self) -> Result<Option<PnlState>, RequestFieldAccessError>;
}

} // verus!
