//! Execution-report payloads: the reported operation, its financial impact, fill
//! details and position impact, each with a wrapper that adds it to another request.
use vstd::prelude::*;
use crate::param::{
    AccountId, Asset, Fee, Instrument, Leverage, Pnl, PositionEffect, PositionSide, Price,
    Quantity, Side, Trade, TradeAmount,
};
use crate::pretrade::{PreTradeLock, RequestFieldAccessError};
use crate::request_trait::{
    HasAccountId, HasAutoBorrow, HasClosePosition,
    HasExecutionReportIsTerminal, HasExecutionReportLastTrade, HasExecutionReportPositionEffect,
    HasExecutionReportPositionSide, HasFee, HasInstrument,
    HasLeavesQuantity, HasLock, HasOrderCollateralAsset,
    HasOrderLeverage, HasOrderPositionSide, HasOrderPrice,
    HasPnl, HasReduceOnly, HasSide,
    HasTradeAmount,
};

verus! {

/// Main parameters of a reported execution.
#[derive(Clone, Debug, PartialEq, Eq)]
pub struct ExecutionReportOperation {
    /// Traded instrument.
    pub instrument: Instrument,
    /// Account the execution belongs to.
    pub account_id: AccountId,
    /// Economic direction of the reported event.
    pub side: Side,
}

/// Adds reported operation parameters to another request.
#[derive(Clone, Debug, PartialEq, Eq)]
pub struct WithExecutionReportOperation<T> {
    /// The wrapped request.
    pub inner: T,
    /// The added parameters.
    pub operation: ExecutionReportOperation,
}

/// Financial impact of a reported execution.
#[derive(Clone, Debug, PartialEq, Eq)]
pub struct FinancialImpact {
    /// Realized result: positive for gains, negative for losses.
    pub pnl: Pnl,
    /// Fee (negative) or rebate (positive) of the event.
    pub fee: Fee,
}

/// Adds financial impact to another request.
#[derive(Clone, Debug, PartialEq, Eq)]
pub struct WithFinancialImpact<T> {
    /// The wrapped request.
    pub inner: T,
    /// The added parameters.
    pub financial_impact: FinancialImpact,
}

/// Fill details of a reported execution.
#[derive(Clone, Debug, PartialEq, Eq)]
pub struct ExecutionReportFillDetails {
    /// The last trade, when the report carries one.
    pub last_trade: Option<Trade>,
    /// Remaining order quantity after this fill.
    pub leaves_quantity: Quantity,
    /// Reservation lock captured during pre-trade.
    pub lock: PreTradeLock,
    /// Whether this report closes the report stream of the order.
    pub is_terminal: bool,
}

/// Adds fill details to another request.
#[derive(Clone, Debug, PartialEq, Eq)]
pub struct WithExecutionReportFillDetails<T> {
    /// The wrapped request.
    pub inner: T,
    /// The added parameters.
    pub fill: ExecutionReportFillDetails,
}

/// Position impact of a reported execution.
#[derive(Clone, Debug, Default, PartialEq, Eq)]
pub struct ExecutionReportPositionImpact {
    /// Whether the execution opened or closed exposure.
    pub position_effect: Option<PositionEffect>,
    /// Hedge-mode leg affected by the execution, when given.
    pub position_side: Option<PositionSide>,
}

/// Adds position impact to another request.
#[derive(Clone, Debug, PartialEq, Eq)]
pub struct WithExecutionReportPositionImpact<T> {
    /// The wrapped request.
    pub inner: T,
    /// The added parameters.
    pub position_impact: ExecutionReportPositionImpact,
}

impl HasInstrument for ExecutionReportOperation {
    fn instrument(&self) -> (r: Result<&Instrument, RequestFieldAccessError>)
        ensures
            r == Ok::<&Instrument, RequestFieldAccessError>(&self.instrument),
    {
        Ok(&self.instrument)
    }
}

impl<T> HasInstrument for WithExecutionReportOperation<T> {
    fn instrument(&self) -> (r: Result<&Instrument, RequestFieldAccessError>)
        ensures
            r == Ok::<&Instrument, RequestFieldAccessError>(&self.operation.instrument),
    {
        self.operation.instrument()
    }
}

impl HasAccountId for ExecutionReportOperation {
    fn account_id(&self) -> (r: Result<AccountId, RequestFieldAccessError>)
        ensures
            r == Ok::<AccountId, RequestFieldAccessError>(self.account_id),
    {
        Ok(self.account_id)
    }
}

impl<T> HasAccountId for WithExecutionReportOperation<T> {
    fn account_id(&self) -> (r: Result<AccountId, RequestFieldAccessError>)
        ensures
            r == Ok::<AccountId, RequestFieldAccessError>(self.operation.account_id),
    {
        self.operation.account_id()
    }
}

impl HasSide for ExecutionReportOperation {
    fn side(&self) -> (r: Result<Side, RequestFieldAccessError>)
        ensures
            r == Ok::<Side, RequestFieldAccessError>(self.side),
    {
        Ok(self.side)
    }
}

impl<T> HasSide for WithExecutionReportOperation<T> {
    fn side(&self) -> (r: Result<Side, RequestFieldAccessError>)
        ensures
            r == Ok::<Side, RequestFieldAccessError>(self.operation.side),
    {
        self.operation.side()
    }
}

impl<T: HasTradeAmount> HasTradeAmount for WithExecutionReportOperation<T> {
    fn trade_amount(&self) -> (r: Result<TradeAmount, RequestFieldAccessError>)
        ensures
            call_ensures(<T as HasTradeAmount>::trade_amount, (&self.inner,), r),
    {
        <T as HasTradeAmount>::trade_amount(&self.inner)
    }
}

impl<T: HasReduceOnly> HasReduceOnly for WithExecutionReportOperation<T> {
    fn reduce_only(&self) -> (r: Result<bool, RequestFieldAccessError>)
        ensures
            call_ensures(<T as HasReduceOnly>::reduce_only, (&self.inner,), r),
    {
        <T as HasReduceOnly>::reduce_only(&self.inner)
    }
}

impl<T: HasClosePosition> HasClosePosition for WithExecutionReportOperation<T> {
    fn close_position(&self) -> (r: Result<bool, RequestFieldAccessError>)
        ensures
            call_ensures(<T as HasClosePosition>::close_position, (&self.inner,), r),
    {
        <T as HasClosePosition>::close_position(&self.inner)
    }
}

impl<T: HasAutoBorrow> HasAutoBorrow for WithExecutionReportOperation<T> {
    fn auto_borrow(&self) -> (r: Result<bool, RequestFieldAccessError>)
        ensures
            call_ensures(<T as HasAutoBorrow>::auto_borrow, (&self.inner,), r),
    {
        <T as HasAutoBorrow>::auto_borrow(&self.inner)
    }
}

impl<T: HasPnl> HasPnl for WithExecutionReportOperation<T> {
    fn pnl(&self) -> (r: Result<Pnl, RequestFieldAccessError>)
        ensures
            call_ensures(<T as HasPnl>::pnl, (&self.inner,), r),
    {
        <T as HasPnl>::pnl(&self.inner)
    }
}

impl<T: HasFee> HasFee for WithExecutionReportOperation<T> {
    fn fee(&self) -> (r: Result<Fee, RequestFieldAccessError>)
        ensures
            call_ensures(<T as HasFee>::fee, (&self.inner,), r),
    {
        <T as HasFee>::fee(&self.inner)
    }
}

impl<T: HasLeavesQuantity> HasLeavesQuantity for WithExecutionReportOperation<T> {
    fn leaves_quantity(&self) -> (r: Result<Quantity, RequestFieldAccessError>)
        ensures
            call_ensures(<T as HasLeavesQuantity>::leaves_quantity, (&self.inner,), r),
    {
        <T as HasLeavesQuantity>::leaves_quantity(&self.inner)
    }
}

impl<T: HasLock> HasLock for WithExecutionReportOperation<T> {
    fn lock(&self) -> (r: Result<PreTradeLock, RequestFieldAccessError>)
        ensures
            call_ensures(<T as HasLock>::lock, (&self.inner,), r),
    {
        <T as HasLock>::lock(&self.inner)
    }
}

impl<T: HasOrderPrice> HasOrderPrice for WithExecutionReportOperation<T> {
    fn price(&self) -> (r: Result<Option<Price>, RequestFieldAccessError>)
        ensures
            call_ensures(<T as HasOrderPrice>::price, (&self.inner,), r),
    {
        <T as HasOrderPrice>::price(&self.inner)
    }
}

impl<T: HasOrderPositionSide> HasOrderPositionSide for WithExecutionReportOperation<T> {
    fn position_side(&self) -> (r: Result<Option<PositionSide>, RequestFieldAccessError>)
        ensures
            call_ensures(<T as HasOrderPositionSide>::position_side, (&self.inner,), r),
    {
        <T as HasOrderPositionSide>::position_side(&self.inner)
    }
}

impl<T: HasOrderLeverage> HasOrderLeverage for WithExecutionReportOperation<T> {
    fn leverage(&self) -> (r: Result<Option<Leverage>, RequestFieldAccessError>)
        ensures
            call_ensures(<T as HasOrderLeverage>::leverage, (&self.inner,), r),
    {
        <T as HasOrderLeverage>::leverage(&self.inner)
    }
}

impl<T: HasOrderCollateralAsset> HasOrderCollateralAsset for WithExecutionReportOperation<T> {
    fn collateral_asset(&self) -> (r: Result<Option<&Asset>, RequestFieldAccessError>)
        ensures
            call_ensures(<T as HasOrderCollateralAsset>::collateral_asset, (&self.inner,), r),
    {
        <T as HasOrderCollateralAsset>::collateral_asset(&self.inner)
    }
}

impl<T: HasExecutionReportLastTrade> HasExecutionReportLastTrade for WithExecutionReportOperation<T> {
    fn last_trade(&self) -> (r: Result<Option<Trade>, RequestFieldAccessError>)
        ensures
            call_ensures(<T as HasExecutionReportLastTrade>::last_trade, (&self.inner,), r),
    {
        <T as HasExecutionReportLastTrade>::last_trade(&self.inner)
    }
}

impl<T: HasExecutionReportIsTerminal> HasExecutionReportIsTerminal for WithExecutionReportOperation<T> {
    fn is_terminal(&self) -> (r: Result<bool, RequestFieldAccessError>)
        ensures
            call_ensures(<T as HasExecutionReportIsTerminal>::is_terminal, (&self.inner,), r),
    {
        <T as HasExecutionReportIsTerminal>::is_terminal(&self.inner)
    }
}

impl<T: HasExecutionReportPositionEffect> HasExecutionReportPositionEffect for WithExecutionReportOperation<T> {
    fn position_effect(&self) -> (r: Result<Option<PositionEffect>, RequestFieldAccessError>)
        ensures
            call_ensures(<T as HasExecutionReportPositionEffect>::position_effect, (&self.inner,), r),
    {
        <T as HasExecutionReportPositionEffect>::position_effect(&self.inner)
    }
}

impl<T: HasExecutionReportPositionSide> HasExecutionReportPositionSide for WithExecutionReportOperation<T> {
    fn position_side(&self) -> (r: Result<Option<PositionSide>, RequestFieldAccessError>)
        ensures
            call_ensures(<T as HasExecutionReportPositionSide>::position_side, (&self.inner,), r),
    {
        <T as HasExecutionReportPositionSide>::position_side(&self.inner)
    }
}

impl HasPnl for FinancialImpact {
    fn pnl(&self) -> (r: Result<Pnl, RequestFieldAccessError>)
        ensures
            r == Ok::<Pnl, RequestFieldAccessError>(self.pnl),
    {
        Ok(self.pnl)
    }
}

impl<T> HasPnl for WithFinancialImpact<T> {
    fn pnl(&self) -> (r: Result<Pnl, RequestFieldAccessError>)
        ensures
            r == Ok::<Pnl, RequestFieldAccessError>(self.financial_impact.pnl),
    {
        self.financial_impact.pnl()
    }
}

impl HasFee for FinancialImpact {
    fn fee(&self) -> (r: Result<Fee, RequestFieldAccessError>)
        ensures
            r == Ok::<Fee, RequestFieldAccessError>(self.fee),
    {
        Ok(self.fee)
    }
}

impl<T> HasFee for WithFinancialImpact<T> {
    fn fee(&self) -> (r: Result<Fee, RequestFieldAccessError>)
        ensures
            r == Ok::<Fee, RequestFieldAccessError>(self.financial_impact.fee),
    {
        self.financial_impact.fee()
    }
}

impl<T: HasInstrument> HasInstrument for WithFinancialImpact<T> {
    fn instrument(&self) -> (r: Result<&Instrument, RequestFieldAccessError>)
        ensures
            call_ensures(<T as HasInstrument>::instrument, (&self.inner,), r),
    {
        <T as HasInstrument>::instrument(&self.inner)
    }
}

impl<T: HasAccountId> HasAccountId for WithFinancialImpact<T> {
    fn account_id(&self) -> (r: Result<AccountId, RequestFieldAccessError>)
        ensures
            call_ensures(<T as HasAccountId>::account_id, (&self.inner,), r),
    {
        <T as HasAccountId>::account_id(&self.inner)
    }
}

impl<T: HasSide> HasSide for WithFinancialImpact<T> {
    fn side(&self) -> (r: Result<Side, RequestFieldAccessError>)
        ensures
            call_ensures(<T as HasSide>::side, (&self.inner,), r),
    {
        <T as HasSide>::side(&self.inner)
    }
}

impl<T: HasTradeAmount> HasTradeAmount for WithFinancialImpact<T> {
    fn trade_amount(&self) -> (r: Result<TradeAmount, RequestFieldAccessError>)
        ensures
            call_ensures(<T as HasTradeAmount>::trade_amount, (&self.inner,), r),
    {
        <T as HasTradeAmount>::trade_amount(&self.inner)
    }
}

impl<T: HasReduceOnly> HasReduceOnly for WithFinancialImpact<T> {
    fn reduce_only(&self) -> (r: Result<bool, RequestFieldAccessError>)
        ensures
            call_ensures(<T as HasReduceOnly>::reduce_only, (&self.inner,), r),
    {
        <T as HasReduceOnly>::reduce_only(&self.inner)
    }
}

impl<T: HasClosePosition> HasClosePosition for WithFinancialImpact<T> {
    fn close_position(&self) -> (r: Result<bool, RequestFieldAccessError>)
        ensures
            call_ensures(<T as HasClosePosition>::close_position, (&self.inner,), r),
    {
        <T as HasClosePosition>::close_position(&self.inner)
    }
}

impl<T: HasAutoBorrow> HasAutoBorrow for WithFinancialImpact<T> {
    fn auto_borrow(&self) -> (r: Result<bool, RequestFieldAccessError>)
        ensures
            call_ensures(<T as HasAutoBorrow>::auto_borrow, (&self.inner,), r),
    {
        <T as HasAutoBorrow>::auto_borrow(&self.inner)
    }
}

impl<T: HasLeavesQuantity> HasLeavesQuantity for WithFinancialImpact<T> {
    fn leaves_quantity(&self) -> (r: Result<Quantity, RequestFieldAccessError>)
        ensures
            call_ensures(<T as HasLeavesQuantity>::leaves_quantity, (&self.inner,), r),
    {
        <T as HasLeavesQuantity>::leaves_quantity(&self.inner)
    }
}

impl<T: HasLock> HasLock for WithFinancialImpact<T> {
    fn lock(&self) -> (r: Result<PreTradeLock, RequestFieldAccessError>)
        ensures
            call_ensures(<T as HasLock>::lock, (&self.inner,), r),
    {
        <T as HasLock>::lock(&self.inner)
    }
}

impl<T: HasOrderPrice> HasOrderPrice for WithFinancialImpact<T> {
    fn price(&self) -> (r: Result<Option<Price>, RequestFieldAccessError>)
        ensures
            call_ensures(<T as HasOrderPrice>::price, (&self.inner,), r),
    {
        <T as HasOrderPrice>::price(&self.inner)
    }
}

impl<T: HasOrderPositionSide> HasOrderPositionSide for WithFinancialImpact<T> {
    fn position_side(&self) -> (r: Result<Option<PositionSide>, RequestFieldAccessError>)
        ensures
            call_ensures(<T as HasOrderPositionSide>::position_side, (&self.inner,), r),
    {
        <T as HasOrderPositionSide>::position_side(&self.inner)
    }
}

impl<T: HasOrderLeverage> HasOrderLeverage for WithFinancialImpact<T> {
    fn leverage(&self) -> (r: Result<Option<Leverage>, RequestFieldAccessError>)
        ensures
            call_ensures(<T as HasOrderLeverage>::leverage, (&self.inner,), r),
    {
        <T as HasOrderLeverage>::leverage(&self.inner)
    }
}

impl<T: HasOrderCollateralAsset> HasOrderCollateralAsset for WithFinancialImpact<T> {
    fn collateral_asset(&self) -> (r: Result<Option<&Asset>, RequestFieldAccessError>)
        ensures
            call_ensures(<T as HasOrderCollateralAsset>::collateral_asset, (&self.inner,), r),
    {
        <T as HasOrderCollateralAsset>::collateral_asset(&self.inner)
    }
}

impl<T: HasExecutionReportLastTrade> HasExecutionReportLastTrade for WithFinancialImpact<T> {
    fn last_trade(&self) -> (r: Result<Option<Trade>, RequestFieldAccessError>)
        ensures
            call_ensures(<T as HasExecutionReportLastTrade>::last_trade, (&self.inner,), r),
    {
        <T as HasExecutionReportLastTrade>::last_trade(&self.inner)
    }
}

impl<T: HasExecutionReportIsTerminal> HasExecutionReportIsTerminal for WithFinancialImpact<T> {
    fn is_terminal(&self) -> (r: Result<bool, RequestFieldAccessError>)
        ensures
            call_ensures(<T as HasExecutionReportIsTerminal>::is_terminal, (&self.inner,), r),
    {
        <T as HasExecutionReportIsTerminal>::is_terminal(&self.inner)
    }
}

impl<T: HasExecutionReportPositionEffect> HasExecutionReportPositionEffect for WithFinancialImpact<T> {
    fn position_effect(&self) -> (r: Result<Option<PositionEffect>, RequestFieldAccessError>)
        ensures
            call_ensures(<T as HasExecutionReportPositionEffect>::position_effect, (&self.inner,), r),
    {
        <T as HasExecutionReportPositionEffect>::position_effect(&self.inner)
    }
}

impl<T: HasExecutionReportPositionSide> HasExecutionReportPositionSide for WithFinancialImpact<T> {
    fn position_side(&self) -> (r: Result<Option<PositionSide>, RequestFieldAccessError>)
        ensures
            call_ensures(<T as HasExecutionReportPositionSide>::position_side, (&self.inner,), r),
    {
        <T as HasExecutionReportPositionSide>::position_side(&self.inner)
    }
}

impl HasExecutionReportLastTrade for ExecutionReportFillDetails {
    fn last_trade(&self) -> (r: Result<Option<Trade>, RequestFieldAccessError>)
        ensures
            r == Ok::<Option<Trade>, RequestFieldAccessError>(self.last_trade),
    {
        Ok(self.last_trade)
    }
}

impl<T> HasExecutionReportLastTrade for WithExecutionReportFillDetails<T> {
    fn last_trade(&self) -> (r: Result<Option<Trade>, RequestFieldAccessError>)
        ensures
            r == Ok::<Option<Trade>, RequestFieldAccessError>(self.fill.last_trade),
    {
        self.fill.last_trade()
    }
}

impl HasLeavesQuantity for ExecutionReportFillDetails {
    fn leaves_quantity(&self) -> (r: Result<Quantity, RequestFieldAccessError>)
        ensures
            r == Ok::<Quantity, RequestFieldAccessError>(self.leaves_quantity),
    {
        Ok(self.leaves_quantity)
    }
}

impl<T> HasLeavesQuantity for WithExecutionReportFillDetails<T> {
    fn leaves_quantity(&self) -> (r: Result<Quantity, RequestFieldAccessError>)
        ensures
            r == Ok::<Quantity, RequestFieldAccessError>(self.fill.leaves_quantity),
    {
        self.fill.leaves_quantity()
    }
}

impl HasLock for ExecutionReportFillDetails {
    fn lock(&self) -> (r: Result<PreTradeLock, RequestFieldAccessError>)
        ensures
            r matches Ok(l) && l@ == self.lock@,
    {
        Ok(self.lock.duplicate())
    }
}

impl<T> HasLock for WithExecutionReportFillDetails<T> {
    fn lock(&self) -> (r: Result<PreTradeLock, RequestFieldAccessError>)
        ensures
            r matches Ok(l) && l@ == self.fill.lock@,
    {
        self.fill.lock()
    }
}

impl HasExecutionReportIsTerminal for ExecutionReportFillDetails {
    fn is_terminal(&self) -> (r: Result<bool, RequestFieldAccessError>)
        ensures
            r == Ok::<bool, RequestFieldAccessError>(self.is_terminal),
    {
        Ok(self.is_terminal)
    }
}

impl<T> HasExecutionReportIsTerminal for WithExecutionReportFillDetails<T> {
    fn is_terminal(&self) -> (r: Result<bool, RequestFieldAccessError>)
        ensures
            r == Ok::<bool, RequestFieldAccessError>(self.fill.is_terminal),
    {
        self.fill.is_terminal()
    }
}

impl<T: HasInstrument> HasInstrument for WithExecutionReportFillDetails<T> {
    fn instrument(&self) -> (r: Result<&Instrument, RequestFieldAccessError>)
        ensures
            call_ensures(<T as HasInstrument>::instrument, (&self.inner,), r),
    {
        <T as HasInstrument>::instrument(&self.inner)
    }
}

impl<T: HasAccountId> HasAccountId for WithExecutionReportFillDetails<T> {
    fn account_id(&self) -> (r: Result<AccountId, RequestFieldAccessError>)
        ensures
            call_ensures(<T as HasAccountId>::account_id, (&self.inner,), r),
    {
        <T as HasAccountId>::account_id(&self.inner)
    }
}

impl<T: HasSide> HasSide for WithExecutionReportFillDetails<T> {
    fn side(&self) -> (r: Result<Side, RequestFieldAccessError>)
        ensures
            call_ensures(<T as HasSide>::side, (&self.inner,), r),
    {
        <T as HasSide>::side(&self.inner)
    }
}

impl<T: HasTradeAmount> HasTradeAmount for WithExecutionReportFillDetails<T> {
    fn trade_amount(&self) -> (r: Result<TradeAmount, RequestFieldAccessError>)
        ensures
            call_ensures(<T as HasTradeAmount>::trade_amount, (&self.inner,), r),
    {
        <T as HasTradeAmount>::trade_amount(&self.inner)
    }
}

impl<T: HasReduceOnly> HasReduceOnly for WithExecutionReportFillDetails<T> {
    fn reduce_only(&self) -> (r: Result<bool, RequestFieldAccessError>)
        ensures
            call_ensures(<T as HasReduceOnly>::reduce_only, (&self.inner,), r),
    {
        <T as HasReduceOnly>::reduce_only(&self.inner)
    }
}

impl<T: HasClosePosition> HasClosePosition for WithExecutionReportFillDetails<T> {
    fn close_position(&self) -> (r: Result<bool, RequestFieldAccessError>)
        ensures
            call_ensures(<T as HasClosePosition>::close_position, (&self.inner,), r),
    {
        <T as HasClosePosition>::close_position(&self.inner)
    }
}

impl<T: HasAutoBorrow> HasAutoBorrow for WithExecutionReportFillDetails<T> {
    fn auto_borrow(&self) -> (r: Result<bool, RequestFieldAccessError>)
        ensures
            call_ensures(<T as HasAutoBorrow>::auto_borrow, (&self.inner,), r),
    {
        <T as HasAutoBorrow>::auto_borrow(&self.inner)
    }
}

impl<T: HasPnl> HasPnl for WithExecutionReportFillDetails<T> {
    fn pnl(&self) -> (r: Result<Pnl, RequestFieldAccessError>)
        ensures
            call_ensures(<T as HasPnl>::pnl, (&self.inner,), r),
    {
        <T as HasPnl>::pnl(&self.inner)
    }
}

impl<T: HasFee> HasFee for WithExecutionReportFillDetails<T> {
    fn fee(&self) -> (r: Result<Fee, RequestFieldAccessError>)
        ensures
            call_ensures(<T as HasFee>::fee, (&self.inner,), r),
    {
        <T as HasFee>::fee(&self.inner)
    }
}

impl<T: HasOrderPrice> HasOrderPrice for WithExecutionReportFillDetails<T> {
    fn price(&self) -> (r: Result<Option<Price>, RequestFieldAccessError>)
        ensures
            call_ensures(<T as HasOrderPrice>::price, (&self.inner,), r),
    {
        <T as HasOrderPrice>::price(&self.inner)
    }
}

impl<T: HasOrderPositionSide> HasOrderPositionSide for WithExecutionReportFillDetails<T> {
    fn position_side(&self) -> (r: Result<Option<PositionSide>, RequestFieldAccessError>)
        ensures
            call_ensures(<T as HasOrderPositionSide>::position_side, (&self.inner,), r),
    {
        <T as HasOrderPositionSide>::position_side(&self.inner)
    }
}

impl<T: HasOrderLeverage> HasOrderLeverage for WithExecutionReportFillDetails<T> {
    fn leverage(&self) -> (r: Result<Option<Leverage>, RequestFieldAccessError>)
        ensures
            call_ensures(<T as HasOrderLeverage>::leverage, (&self.inner,), r),
    {
        <T as HasOrderLeverage>::leverage(&self.inner)
    }
}

impl<T: HasOrderCollateralAsset> HasOrderCollateralAsset for WithExecutionReportFillDetails<T> {
    fn collateral_asset(&self) -> (r: Result<Option<&Asset>, RequestFieldAccessError>)
        ensures
            call_ensures(<T as HasOrderCollateralAsset>::collateral_asset, (&self.inner,), r),
    {
        <T as HasOrderCollateralAsset>::collateral_asset(&self.inner)
    }
}

impl<T: HasExecutionReportPositionEffect> HasExecutionReportPositionEffect for WithExecutionReportFillDetails<T> {
    fn position_effect(&self) -> (r: Result<Option<PositionEffect>, RequestFieldAccessError>)
        ensures
            call_ensures(<T as HasExecutionReportPositionEffect>::position_effect, (&self.inner,), r),
    {
        <T as HasExecutionReportPositionEffect>::position_effect(&self.inner)
    }
}

impl<T: HasExecutionReportPositionSide> HasExecutionReportPositionSide for WithExecutionReportFillDetails<T> {
    fn position_side(&self) -> (r: Result<Option<PositionSide>, RequestFieldAccessError>)
        ensures
            call_ensures(<T as HasExecutionReportPositionSide>::position_side, (&self.inner,), r),
    {
        <T as HasExecutionReportPositionSide>::position_side(&self.inner)
    }
}

impl HasExecutionReportPositionEffect for ExecutionReportPositionImpact {
    fn position_effect(&self) -> (r: Result<Option<PositionEffect>, RequestFieldAccessError>)
        ensures
            r == Ok::<Option<PositionEffect>, RequestFieldAccessError>(self.position_effect),
    {
        Ok(self.position_effect)
    }
}

impl<T> HasExecutionReportPositionEffect for WithExecutionReportPositionImpact<T> {
    fn position_effect(&self) -> (r: Result<Option<PositionEffect>, RequestFieldAccessError>)
        ensures
            r == Ok::<Option<PositionEffect>, RequestFieldAccessError>(self.position_impact.position_effect),
    {
        self.position_impact.position_effect()
    }
}

impl HasExecutionReportPositionSide for ExecutionReportPositionImpact {
    fn position_side(&self) -> (r: Result<Option<PositionSide>, RequestFieldAccessError>)
        ensures
            r == Ok::<Option<PositionSide>, RequestFieldAccessError>(self.position_side),
    {
        Ok(self.position_side)
    }
}

impl<T> HasExecutionReportPositionSide for WithExecutionReportPositionImpact<T> {
    fn position_side(&self) -> (r: Result<Option<PositionSide>, RequestFieldAccessError>)
        ensures
            r == Ok::<Option<PositionSide>, RequestFieldAccessError>(self.position_impact.position_side),
    {
        self.position_impact.position_side()
    }
}

impl<T: HasInstrument> HasInstrument for WithExecutionReportPositionImpact<T> {
    fn instrument(&self) -> (r: Result<&Instrument, RequestFieldAccessError>)
        ensures
            call_ensures(<T as HasInstrument>::instrument, (&self.inner,), r),
    {
        <T as HasInstrument>::instrument(&self.inner)
    }
}

impl<T: HasAccountId> HasAccountId for WithExecutionReportPositionImpact<T> {
    fn account_id(&self) -> (r: Result<AccountId, RequestFieldAccessError>)
        ensures
            call_ensures(<T as HasAccountId>::account_id, (&self.inner,), r),
    {
        <T as HasAccountId>::account_id(&self.inner)
    }
}

impl<T: HasSide> HasSide for WithExecutionReportPositionImpact<T> {
    fn side(&self) -> (r: Result<Side, RequestFieldAccessError>)
        ensures
            call_ensures(<T as HasSide>::side, (&self.inner,), r),
    {
        <T as HasSide>::side(&self.inner)
    }
}

impl<T: HasTradeAmount> HasTradeAmount for WithExecutionReportPositionImpact<T> {
    fn trade_amount(&self) -> (r: Result<TradeAmount, RequestFieldAccessError>)
        ensures
            call_ensures(<T as HasTradeAmount>::trade_amount, (&self.inner,), r),
    {
        <T as HasTradeAmount>::trade_amount(&self.inner)
    }
}

impl<T: HasReduceOnly> HasReduceOnly for WithExecutionReportPositionImpact<T> {
    fn reduce_only(&self) -> (r: Result<bool, RequestFieldAccessError>)
        ensures
            call_ensures(<T as HasReduceOnly>::reduce_only, (&self.inner,), r),
    {
        <T as HasReduceOnly>::reduce_only(&self.inner)
    }
}

impl<T: HasClosePosition> HasClosePosition for WithExecutionReportPositionImpact<T> {
    fn close_position(&self) -> (r: Result<bool, RequestFieldAccessError>)
        ensures
            call_ensures(<T as HasClosePosition>::close_position, (&self.inner,), r),
    {
        <T as HasClosePosition>::close_position(&self.inner)
    }
}

impl<T: HasAutoBorrow> HasAutoBorrow for WithExecutionReportPositionImpact<T> {
    fn auto_borrow(&self) -> (r: Result<bool, RequestFieldAccessError>)
        ensures
            call_ensures(<T as HasAutoBorrow>::auto_borrow, (&self.inner,), r),
    {
        <T as HasAutoBorrow>::auto_borrow(&self.inner)
    }
}

impl<T: HasPnl> HasPnl for WithExecutionReportPositionImpact<T> {
    fn pnl(&self) -> (r: Result<Pnl, RequestFieldAccessError>)
        ensures
            call_ensures(<T as HasPnl>::pnl, (&self.inner,), r),
    {
        <T as HasPnl>::pnl(&self.inner)
    }
}

impl<T: HasFee> HasFee for WithExecutionReportPositionImpact<T> {
    fn fee(&self) -> (r: Result<Fee, RequestFieldAccessError>)
        ensures
            call_ensures(<T as HasFee>::fee, (&self.inner,), r),
    {
        <T as HasFee>::fee(&self.inner)
    }
}

impl<T: HasLeavesQuantity> HasLeavesQuantity for WithExecutionReportPositionImpact<T> {
    fn leaves_quantity(&self) -> (r: Result<Quantity, RequestFieldAccessError>)
        ensures
            call_ensures(<T as HasLeavesQuantity>::leaves_quantity, (&self.inner,), r),
    {
        <T as HasLeavesQuantity>::leaves_quantity(&self.inner)
    }
}

impl<T: HasLock> HasLock for WithExecutionReportPositionImpact<T> {
    fn lock(&self) -> (r: Result<PreTradeLock, RequestFieldAccessError>)
        ensures
            call_ensures(<T as HasLock>::lock, (&self.inner,), r),
    {
        <T as HasLock>::lock(&self.inner)
    }
}

impl<T: HasOrderPrice> HasOrderPrice for WithExecutionReportPositionImpact<T> {
    fn price(&self) -> (r: Result<Option<Price>, RequestFieldAccessError>)
        ensures
            call_ensures(<T as HasOrderPrice>::price, (&self.inner,), r),
    {
        <T as HasOrderPrice>::price(&self.inner)
    }
}

impl<T: HasOrderLeverage> HasOrderLeverage for WithExecutionReportPositionImpact<T> {
    fn leverage(&self) -> (r: Result<Option<Leverage>, RequestFieldAccessError>)
        ensures
            call_ensures(<T as HasOrderLeverage>::leverage, (&self.inner,), r),
    {
        <T as HasOrderLeverage>::leverage(&self.inner)
    }
}

impl<T: HasOrderCollateralAsset> HasOrderCollateralAsset for WithExecutionReportPositionImpact<T> {
    fn collateral_asset(&self) -> (r: Result<Option<&Asset>, RequestFieldAccessError>)
        ensures
            call_ensures(<T as HasOrderCollateralAsset>::collateral_asset, (&self.inner,), r),
    {
        <T as HasOrderCollateralAsset>::collateral_asset(&self.inner)
    }
}

impl<T: HasExecutionReportLastTrade> HasExecutionReportLastTrade for WithExecutionReportPositionImpact<T> {
    fn last_trade(&self) -> (r: Result<Option<Trade>, RequestFieldAccessError>)
        ensures
            call_ensures(<T as HasExecutionReportLastTrade>::last_trade, (&self.inner,), r),
    {
        <T as HasExecutionReportLastTrade>::last_trade(&self.inner)
    }
}

impl<T: HasExecutionReportIsTerminal> HasExecutionReportIsTerminal for WithExecutionReportPositionImpact<T> {
    fn is_terminal(&self) -> (r: Result<bool, RequestFieldAccessError>)
        ensures
            call_ensures(<T as HasExecutionReportIsTerminal>::is_terminal, (&self.inner,), r),
    {
        <T as HasExecutionReportIsTerminal>::is_terminal(&self.inner)
    }
}

} // verus!
