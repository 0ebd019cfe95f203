//! Order payloads: the operation itself, position management and margin
//! parameters, each with a wrapper that adds it to another request.
use vstd::prelude::*;
use crate::param::{
    AccountId, Asset, Fee, Instrument, Leverage, Pnl, PositionEffect, PositionSide, Price,
    Quantity, Side, Trade, TradeAmount,
};
use crate::pretrade::{PreTradeLock, RequestFieldAccessError};
use crate::request_trait::{
    HasAccountId, HasAutoBorrow, HasClosePosition,
    HasExecutionReportIsTerminal, HasExecutionReportLastTrade, HasExecutionReportPositionEffect,
    HasExecutionReportPositionSide, HasFee, HasInstrument,
    HasLeavesQuantity, HasLock, HasOrderCollateralAsset,
    HasOrderLeverage, HasOrderPositionSide, HasOrderPrice,
    HasPnl, HasReduceOnly, HasSide,
    HasTradeAmount,
};

verus! {

/// Main order parameters: instrument, account, amount, price and side.
#[derive(Clone, Debug, PartialEq, Eq)]
pub struct OrderOperation {
    /// Traded instrument.
    pub instrument: Instrument,
    /// Account the order is placed for.
    pub account_id: AccountId,
    /// Size of the order.
    pub trade_amount: TradeAmount,
    /// Requested worst execution price; `None` means market price.
    pub price: Option<Price>,
    /// Direction of the order.
    pub side: Side,
}

/// Adds main order parameters to another request.
#[derive(Clone, Debug, PartialEq, Eq)]
pub struct WithOrderOperation<T> {
    /// The wrapped request.
    pub inner: T,
    /// The added parameters.
    pub operation: OrderOperation,
}

/// Position management parameters of an order.
#[derive(Clone, Debug, Default, PartialEq, Eq)]
pub struct OrderPosition {
    /// Hedge-mode leg targeted by the order; `None` uses one-way semantics.
    pub position_side: Option<PositionSide>,
    /// Restricts the order to exposure-reducing execution only.
    pub reduce_only: bool,
    /// Marks intent to close the whole position of the targeted leg.
    pub close_position: bool,
}

/// Adds position management parameters to another request.
#[derive(Clone, Debug, PartialEq, Eq)]
pub struct WithOrderPosition<T> {
    /// The wrapped request.
    pub inner: T,
    /// The added parameters.
    pub position: OrderPosition,
}

/// Margin configuration of an order.
#[derive(Clone, Debug, Default, PartialEq, Eq)]
pub struct OrderMargin {
    /// Per-order leverage; `None` uses the account default.
    pub leverage: Option<Leverage>,
    /// Collateral funding the order; `None` uses the integration default.
    pub collateral_asset: Option<Asset>,
    /// Whether a temporary collateral shortage may be covered by borrowing.
    pub auto_borrow: bool,
}

/// Adds margin configuration to another request.
#[derive(Clone, Debug, PartialEq, Eq)]
pub struct WithOrderMargin<T> {
    /// The wrapped request.
    pub inner: T,
    /// The added parameters.
    pub margin: OrderMargin,
}

/// The collateral asset of an optional collateral field, borrowed.
pub open spec fn optional_ref<A>(value: &Option<A>) -> Option<&A> {
    match value {
        Some(a) => Some(a),
        None => None,
    }
}

impl HasOrderCollateralAsset for OrderMargin {
    fn collateral_asset(&self) -> (r: Result<Option<&Asset>, RequestFieldAccessError>)
        ensures
            r == Ok::<Option<&Asset>, RequestFieldAccessError>(optional_ref(&self.collateral_asset)),
    {
        match &self.collateral_asset {
            Some(asset) => Ok(Some(asset)),
            None => Ok(None),
        }
    }
}

impl HasInstrument for OrderOperation {
    fn instrument(&self) -> (r: Result<&Instrument, RequestFieldAccessError>)
        ensures
            r == Ok::<&Instrument, RequestFieldAccessError>(&self.instrument),
    {
        Ok(&self.instrument)
    }
}

impl<T> HasInstrument for WithOrderOperation<T> {
    fn instrument(&self) -> (r: Result<&Instrument, RequestFieldAccessError>)
        ensures
            r == Ok::<&Instrument, RequestFieldAccessError>(&self.operation.instrument),
    {
        self.operation.instrument()
    }
}

impl HasAccountId for OrderOperation {
    fn account_id(&self) -> (r: Result<AccountId, RequestFieldAccessError>)
        ensures
            r == Ok::<AccountId, RequestFieldAccessError>(self.account_id),
    {
        Ok(self.account_id)
    }
}

impl<T> HasAccountId for WithOrderOperation<T> {
    fn account_id(&self) -> (r: Result<AccountId, RequestFieldAccessError>)
        ensures
            r == Ok::<AccountId, RequestFieldAccessError>(self.operation.account_id),
    {
        self.operation.account_id()
    }
}

impl HasTradeAmount for OrderOperation {
    fn trade_amount(&self) -> (r: Result<TradeAmount, RequestFieldAccessError>)
        ensures
            r == Ok::<TradeAmount, RequestFieldAccessError>(self.trade_amount),
    {
        Ok(self.trade_amount)
    }
}

impl<T> HasTradeAmount for WithOrderOperation<T> {
    fn trade_amount(&self) -> (r: Result<TradeAmount, RequestFieldAccessError>)
        ensures
            r == Ok::<TradeAmount, RequestFieldAccessError>(self.operation.trade_amount),
    {
        self.operation.trade_amount()
    }
}

impl HasOrderPrice for OrderOperation {
    fn price(&self) -> (r: Result<Option<Price>, RequestFieldAccessError>)
        ensures
            r == Ok::<Option<Price>, RequestFieldAccessError>(self.price),
    {
        Ok(self.price)
    }
}

impl<T> HasOrderPrice for WithOrderOperation<T> {
    fn price(&self) -> (r: Result<Option<Price>, RequestFieldAccessError>)
        ensures
            r == Ok::<Option<Price>, RequestFieldAccessError>(self.operation.price),
    {
        self.operation.price()
    }
}

impl HasSide for OrderOperation {
    fn side(&self) -> (r: Result<Side, RequestFieldAccessError>)
        ensures
            r == Ok::<Side, RequestFieldAccessError>(self.side),
    {
        Ok(self.side)
    }
}

impl<T> HasSide for WithOrderOperation<T> {
    fn side(&self) -> (r: Result<Side, RequestFieldAccessError>)
        ensures
            r == Ok::<Side, RequestFieldAccessError>(self.operation.side),
    {
        self.operation.side()
    }
}

impl<T: HasReduceOnly> HasReduceOnly for WithOrderOperation<T> {
    fn reduce_only(&self) -> (r: Result<bool, RequestFieldAccessError>)
        ensures
            call_ensures(<T as HasReduceOnly>::reduce_only, (&self.inner,), r),
    {
        <T as HasReduceOnly>::reduce_only(&self.inner)
    }
}

impl<T: HasClosePosition> HasClosePosition for WithOrderOperation<T> {
    fn close_position(&self) -> (r: Result<bool, RequestFieldAccessError>)
        ensures
            call_ensures(<T as HasClosePosition>::close_position, (&self.inner,), r),
    {
        <T as HasClosePosition>::close_position(&self.inner)
    }
}

impl<T: HasAutoBorrow> HasAutoBorrow for WithOrderOperation<T> {
    fn auto_borrow(&self) -> (r: Result<bool, RequestFieldAccessError>)
        ensures
            call_ensures(<T as HasAutoBorrow>::auto_borrow, (&self.inner,), r),
    {
        <T as HasAutoBorrow>::auto_borrow(&self.inner)
    }
}

impl<T: HasPnl> HasPnl for WithOrderOperation<T> {
    fn pnl(&self) -> (r: Result<Pnl, RequestFieldAccessError>)
        ensures
            call_ensures(<T as HasPnl>::pnl, (&self.inner,), r),
    {
        <T as HasPnl>::pnl(&self.inner)
    }
}

impl<T: HasFee> HasFee for WithOrderOperation<T> {
    fn fee(&self) -> (r: Result<Fee, RequestFieldAccessError>)
        ensures
            call_ensures(<T as HasFee>::fee, (&self.inner,), r),
    {
        <T as HasFee>::fee(&self.inner)
    }
}

impl<T: HasLeavesQuantity> HasLeavesQuantity for WithOrderOperation<T> {
    fn leaves_quantity(&self) -> (r: Result<Quantity, RequestFieldAccessError>)
        ensures
            call_ensures(<T as HasLeavesQuantity>::leaves_quantity, (&self.inner,), r),
    {
        <T as HasLeavesQuantity>::leaves_quantity(&self.inner)
    }
}

impl<T: HasLock> HasLock for WithOrderOperation<T> {
    fn lock(&self) -> (r: Result<PreTradeLock, RequestFieldAccessError>)
        ensures
            call_ensures(<T as HasLock>::lock, (&self.inner,), r),
    {
        <T as HasLock>::lock(&self.inner)
    }
}

impl<T: HasOrderPositionSide> HasOrderPositionSide for WithOrderOperation<T> {
    fn position_side(&self) -> (r: Result<Option<PositionSide>, RequestFieldAccessError>)
        ensures
            call_ensures(<T as HasOrderPositionSide>::position_side, (&self.inner,), r),
    {
        <T as HasOrderPositionSide>::position_side(&self.inner)
    }
}

impl<T: HasOrderLeverage> HasOrderLeverage for WithOrderOperation<T> {
    fn leverage(&self) -> (r: Result<Option<Leverage>, RequestFieldAccessError>)
        ensures
            call_ensures(<T as HasOrderLeverage>::leverage, (&self.inner,), r),
    {
        <T as HasOrderLeverage>::leverage(&self.inner)
    }
}

impl<T: HasOrderCollateralAsset> HasOrderCollateralAsset for WithOrderOperation<T> {
    fn collateral_asset(&self) -> (r: Result<Option<&Asset>, RequestFieldAccessError>)
        ensures
            call_ensures(<T as HasOrderCollateralAsset>::collateral_asset, (&self.inner,), r),
    {
        <T as HasOrderCollateralAsset>::collateral_asset(&self.inner)
    }
}

impl<T: HasExecutionReportLastTrade> HasExecutionReportLastTrade for WithOrderOperation<T> {
    fn last_trade(&self) -> (r: Result<Option<Trade>, RequestFieldAccessError>)
        ensures
            call_ensures(<T as HasExecutionReportLastTrade>::last_trade, (&self.inner,), r),
    {
        <T as HasExecutionReportLastTrade>::last_trade(&self.inner)
    }
}

impl<T: HasExecutionReportIsTerminal> HasExecutionReportIsTerminal for WithOrderOperation<T> {
    fn is_terminal(&self) -> (r: Result<bool, RequestFieldAccessError>)
        ensures
            call_ensures(<T as HasExecutionReportIsTerminal>::is_terminal, (&self.inner,), r),
    {
        <T as HasExecutionReportIsTerminal>::is_terminal(&self.inner)
    }
}

impl<T: HasExecutionReportPositionEffect> HasExecutionReportPositionEffect for WithOrderOperation<T> {
    fn position_effect(&self) -> (r: Result<Option<PositionEffect>, RequestFieldAccessError>)
        ensures
            call_ensures(<T as HasExecutionReportPositionEffect>::position_effect, (&self.inner,), r),
    {
        <T as HasExecutionReportPositionEffect>::position_effect(&self.inner)
    }
}

impl<T: HasExecutionReportPositionSide> HasExecutionReportPositionSide for WithOrderOperation<T> {
    fn position_side(&self) -> (r: Result<Option<PositionSide>, RequestFieldAccessError>)
        ensures
            call_ensures(<T as HasExecutionReportPositionSide>::position_side, (&self.inner,), r),
    {
        <T as HasExecutionReportPositionSide>::position_side(&self.inner)
    }
}

impl HasOrderPositionSide for OrderPosition {
    fn position_side(&self) -> (r: Result<Option<PositionSide>, RequestFieldAccessError>)
        ensures
            r == Ok::<Option<PositionSide>, RequestFieldAccessError>(self.position_side),
    {
        Ok(self.position_side)
    }
}

impl<T> HasOrderPositionSide for WithOrderPosition<T> {
    fn position_side(&self) -> (r: Result<Option<PositionSide>, RequestFieldAccessError>)
        ensures
            r == Ok::<Option<PositionSide>, RequestFieldAccessError>(self.position.position_side),
    {
        self.position.position_side()
    }
}

impl HasReduceOnly for OrderPosition {
    fn reduce_only(&self) -> (r: Result<bool, RequestFieldAccessError>)
        ensures
            r == Ok::<bool, RequestFieldAccessError>(self.reduce_only),
    {
        Ok(self.reduce_only)
    }
}

impl<T> HasReduceOnly for WithOrderPosition<T> {
    fn reduce_only(&self) -> (r: Result<bool, RequestFieldAccessError>)
        ensures
            r == Ok::<bool, RequestFieldAccessError>(self.position.reduce_only),
    {
        self.position.reduce_only()
    }
}

impl HasClosePosition for OrderPosition {
    fn close_position(&self) -> (r: Result<bool, RequestFieldAccessError>)
        ensures
            r == Ok::<bool, RequestFieldAccessError>(self.close_position),
    {
        Ok(self.close_position)
    }
}

impl<T> HasClosePosition for WithOrderPosition<T> {
    fn close_position(&self) -> (r: Result<bool, RequestFieldAccessError>)
        ensures
            r == Ok::<bool, RequestFieldAccessError>(self.position.close_position),
    {
        self.position.close_position()
    }
}

impl<T: HasInstrument> HasInstrument for WithOrderPosition<T> {
    fn instrument(&self) -> (r: Result<&Instrument, RequestFieldAccessError>)
        ensures
            call_ensures(<T as HasInstrument>::instrument, (&self.inner,), r),
    {
        <T as HasInstrument>::instrument(&self.inner)
    }
}

impl<T: HasAccountId> HasAccountId for WithOrderPosition<T> {
    fn account_id(&self) -> (r: Result<AccountId, RequestFieldAccessError>)
        ensures
            call_ensures(<T as HasAccountId>::account_id, (&self.inner,), r),
    {
        <T as HasAccountId>::account_id(&self.inner)
    }
}

impl<T: HasTradeAmount> HasTradeAmount for WithOrderPosition<T> {
    fn trade_amount(&self) -> (r: Result<TradeAmount, RequestFieldAccessError>)
        ensures
            call_ensures(<T as HasTradeAmount>::trade_amount, (&self.inner,), r),
    {
        <T as HasTradeAmount>::trade_amount(&self.inner)
    }
}

impl<T: HasOrderPrice> HasOrderPrice for WithOrderPosition<T> {
    fn price(&self) -> (r: Result<Option<Price>, RequestFieldAccessError>)
        ensures
            call_ensures(<T as HasOrderPrice>::price, (&self.inner,), r),
    {
        <T as HasOrderPrice>::price(&self.inner)
    }
}

impl<T: HasSide> HasSide for WithOrderPosition<T> {
    fn side(&self) -> (r: Result<Side, RequestFieldAccessError>)
        ensures
            call_ensures(<T as HasSide>::side, (&self.inner,), r),
    {
        <T as HasSide>::side(&self.inner)
    }
}

impl<T: HasAutoBorrow> HasAutoBorrow for WithOrderPosition<T> {
    fn auto_borrow(&self) -> (r: Result<bool, RequestFieldAccessError>)
        ensures
            call_ensures(<T as HasAutoBorrow>::auto_borrow, (&self.inner,), r),
    {
        <T as HasAutoBorrow>::auto_borrow(&self.inner)
    }
}

impl<T: HasPnl> HasPnl for WithOrderPosition<T> {
    fn pnl(&self) -> (r: Result<Pnl, RequestFieldAccessError>)
        ensures
            call_ensures(<T as HasPnl>::pnl, (&self.inner,), r),
    {
        <T as HasPnl>::pnl(&self.inner)
    }
}

impl<T: HasFee> HasFee for WithOrderPosition<T> {
    fn fee(&self) -> (r: Result<Fee, RequestFieldAccessError>)
        ensures
            call_ensures(<T as HasFee>::fee, (&self.inner,), r),
    {
        <T as HasFee>::fee(&self.inner)
    }
}

impl<T: HasLeavesQuantity> HasLeavesQuantity for WithOrderPosition<T> {
    fn leaves_quantity(&self) -> (r: Result<Quantity, RequestFieldAccessError>)
        ensures
            call_ensures(<T as HasLeavesQuantity>::leaves_quantity, (&self.inner,), r),
    {
        <T as HasLeavesQuantity>::leaves_quantity(&self.inner)
    }
}

impl<T: HasLock> HasLock for WithOrderPosition<T> {
    fn lock(&self) -> (r: Result<PreTradeLock, RequestFieldAccessError>)
        ensures
            call_ensures(<T as HasLock>::lock, (&self.inner,), r),
    {
        <T as HasLock>::lock(&self.inner)
    }
}

impl<T: HasOrderLeverage> HasOrderLeverage for WithOrderPosition<T> {
    fn leverage(&self) -> (r: Result<Option<Leverage>, RequestFieldAccessError>)
        ensures
            call_ensures(<T as HasOrderLeverage>::leverage, (&self.inner,), r),
    {
        <T as HasOrderLeverage>::leverage(&self.inner)
    }
}

impl<T: HasOrderCollateralAsset> HasOrderCollateralAsset for WithOrderPosition<T> {
    fn collateral_asset(&self) -> (r: Result<Option<&Asset>, RequestFieldAccessError>)
        ensures
            call_ensures(<T as HasOrderCollateralAsset>::collateral_asset, (&self.inner,), r),
    {
        <T as HasOrderCollateralAsset>::collateral_asset(&self.inner)
    }
}

impl<T: HasExecutionReportLastTrade> HasExecutionReportLastTrade for WithOrderPosition<T> {
    fn last_trade(&self) -> (r: Result<Option<Trade>, RequestFieldAccessError>)
        ensures
            call_ensures(<T as HasExecutionReportLastTrade>::last_trade, (&self.inner,), r),
    {
        <T as HasExecutionReportLastTrade>::last_trade(&self.inner)
    }
}

impl<T: HasExecutionReportIsTerminal> HasExecutionReportIsTerminal for WithOrderPosition<T> {
    fn is_terminal(&self) -> (r: Result<bool, RequestFieldAccessError>)
        ensures
            call_ensures(<T as HasExecutionReportIsTerminal>::is_terminal, (&self.inner,), r),
    {
        <T as HasExecutionReportIsTerminal>::is_terminal(&self.inner)
    }
}

impl<T: HasExecutionReportPositionEffect> HasExecutionReportPositionEffect for WithOrderPosition<T> {
    fn position_effect(&self) -> (r: Result<Option<PositionEffect>, RequestFieldAccessError>)
        ensures
            call_ensures(<T as HasExecutionReportPositionEffect>::position_effect, (&self.inner,), r),
    {
        <T as HasExecutionReportPositionEffect>::position_effect(&self.inner)
    }
}

impl<T> HasOrderCollateralAsset for WithOrderMargin<T> {
    fn collateral_asset(&self) -> (r: Result<Option<&Asset>, RequestFieldAccessError>)
        ensures
            r == Ok::<Option<&Asset>, RequestFieldAccessError>(optional_ref(&self.margin.collateral_asset)),
    {
        self.margin.collateral_asset()
    }
}

impl HasOrderLeverage for OrderMargin {
    fn leverage(&self) -> (r: Result<Option<Leverage>, RequestFieldAccessError>)
        ensures
            r == Ok::<Option<Leverage>, RequestFieldAccessError>(self.leverage),
    {
        Ok(self.leverage)
    }
}

impl<T> HasOrderLeverage for WithOrderMargin<T> {
    fn leverage(&self) -> (r: Result<Option<Leverage>, RequestFieldAccessError>)
        ensures
            r == Ok::<Option<Leverage>, RequestFieldAccessError>(self.margin.leverage),
    {
        self.margin.leverage()
    }
}

impl HasAutoBorrow for OrderMargin {
    fn auto_borrow(&self) -> (r: Result<bool, RequestFieldAccessError>)
        ensures
            r == Ok::<bool, RequestFieldAccessError>(self.auto_borrow),
    {
        Ok(self.auto_borrow)
    }
}

impl<T> HasAutoBorrow for WithOrderMargin<T> {
    fn auto_borrow(&self) -> (r: Result<bool, RequestFieldAccessError>)
        ensures
            r == Ok::<bool, RequestFieldAccessError>(self.margin.auto_borrow),
    {
        self.margin.auto_borrow()
    }
}

impl<T: HasInstrument> HasInstrument for WithOrderMargin<T> {
    fn instrument(&self) -> (r: Result<&Instrument, RequestFieldAccessError>)
        ensures
            call_ensures(<T as HasInstrument>::instrument, (&self.inner,), r),
    {
        <T as HasInstrument>::instrument(&self.inner)
    }
}

impl<T: HasAccountId> HasAccountId for WithOrderMargin<T> {
    fn account_id(&self) -> (r: Result<AccountId, RequestFieldAccessError>)
        ensures
            call_ensures(<T as HasAccountId>::account_id, (&self.inner,), r),
    {
        <T as HasAccountId>::account_id(&self.inner)
    }
}

impl<T: HasTradeAmount> HasTradeAmount for WithOrderMargin<T> {
    fn trade_amount(&self) -> (r: Result<TradeAmount, RequestFieldAccessError>)
        ensures
            call_ensures(<T as HasTradeAmount>::trade_amount, (&self.inner,), r),
    {
        <T as HasTradeAmount>::trade_amount(&self.inner)
    }
}

impl<T: HasOrderPrice> HasOrderPrice for WithOrderMargin<T> {
    fn price(&self) -> (r: Result<Option<Price>, RequestFieldAccessError>)
        ensures
            call_ensures(<T as HasOrderPrice>::price, (&self.inner,), r),
    {
        <T as HasOrderPrice>::price(&self.inner)
    }
}

impl<T: HasSide> HasSide for WithOrderMargin<T> {
    fn side(&self) -> (r: Result<Side, RequestFieldAccessError>)
        ensures
            call_ensures(<T as HasSide>::side, (&self.inner,), r),
    {
        <T as HasSide>::side(&self.inner)
    }
}

impl<T: HasOrderPositionSide> HasOrderPositionSide for WithOrderMargin<T> {
    fn position_side(&self) -> (r: Result<Option<PositionSide>, RequestFieldAccessError>)
        ensures
            call_ensures(<T as HasOrderPositionSide>::position_side, (&self.inner,), r),
    {
        <T as HasOrderPositionSide>::position_side(&self.inner)
    }
}

impl<T: HasReduceOnly> HasReduceOnly for WithOrderMargin<T> {
    fn reduce_only(&self) -> (r: Result<bool, RequestFieldAccessError>)
        ensures
            call_ensures(<T as HasReduceOnly>::reduce_only, (&self.inner,), r),
    {
        <T as HasReduceOnly>::reduce_only(&self.inner)
    }
}

impl<T: HasClosePosition> HasClosePosition for WithOrderMargin<T> {
    fn close_position(&self) -> (r: Result<bool, RequestFieldAccessError>)
        ensures
            call_ensures(<T as HasClosePosition>::close_position, (&self.inner,), r),
    {
        <T as HasClosePosition>::close_position(&self.inner)
    }
}

impl<T: HasPnl> HasPnl for WithOrderMargin<T> {
    fn pnl(&self) -> (r: Result<Pnl, RequestFieldAccessError>)
        ensures
            call_ensures(<T as HasPnl>::pnl, (&self.inner,), r),
    {
        <T as HasPnl>::pnl(&self.inner)
    }
}

impl<T: HasFee> HasFee for WithOrderMargin<T> {
    fn fee(&self) -> (r: Result<Fee, RequestFieldAccessError>)
        ensures
            call_ensures(<T as HasFee>::fee, (&self.inner,), r),
    {
        <T as HasFee>::fee(&self.inner)
    }
}

impl<T: HasLeavesQuantity> HasLeavesQuantity for WithOrderMargin<T> {
    fn leaves_quantity(&self) -> (r: Result<Quantity, RequestFieldAccessError>)
        ensures
            call_ensures(<T as HasLeavesQuantity>::leaves_quantity, (&self.inner,), r),
    {
        <T as HasLeavesQuantity>::leaves_quantity(&self.inner)
    }
}

impl<T: HasLock> HasLock for WithOrderMargin<T> {
    fn lock(&self) -> (r: Result<PreTradeLock, RequestFieldAccessError>)
        ensures
            call_ensures(<T as HasLock>::lock, (&self.inner,), r),
    {
        <T as HasLock>::lock(&self.inner)
    }
}

impl<T: HasExecutionReportLastTrade> HasExecutionReportLastTrade for WithOrderMargin<T> {
    fn last_trade(&self) -> (r: Result<Option<Trade>, RequestFieldAccessError>)
        ensures
            call_ensures(<T as HasExecutionReportLastTrade>::last_trade, (&self.inner,), r),
    {
        <T as HasExecutionReportLastTrade>::last_trade(&self.inner)
    }
}

impl<T: HasExecutionReportIsTerminal> HasExecutionReportIsTerminal for WithOrderMargin<T> {
    fn is_terminal(&self) -> (r: Result<bool, RequestFieldAccessError>)
        ensures
            call_ensures(<T as HasExecutionReportIsTerminal>::is_terminal, (&self.inner,), r),
    {
        <T as HasExecutionReportIsTerminal>::is_terminal(&self.inner)
    }
}

impl<T: HasExecutionReportPositionEffect> HasExecutionReportPositionEffect for WithOrderMargin<T> {
    fn position_effect(&self) -> (r: Result<Option<PositionEffect>, RequestFieldAccessError>)
        ensures
            call_ensures(<T as HasExecutionReportPositionEffect>::position_effect, (&self.inner,), r),
    {
        <T as HasExecutionReportPositionEffect>::position_effect(&self.inner)
    }
}

impl<T: HasExecutionReportPositionSide> HasExecutionReportPositionSide for WithOrderMargin<T> {
    fn position_side(&self) -> (r: Result<Option<PositionSide>, RequestFieldAccessError>)
        ensures
            call_ensures(<T as HasExecutionReportPositionSide>::position_side, (&self.inner,), r),
    {
        <T as HasExecutionReportPositionSide>::position_side(&self.inner)
    }
}

} // verus!
