//! Account-adjustment payloads: balance and position operations, the adjusted
//! amounts and their bounds, each with a wrapper that adds it to another request.
use vstd::prelude::*;
use crate::param::{
    AccountId, AdjustmentAmount, Asset, Instrument, Leverage, PositionMode, PositionSize, Price,
};
use crate::pretrade::RequestFieldAccessError;
use crate::request_trait::{
    HasAccountAdjustmentBalanceAverageEntryPrice, HasAccountAdjustmentPending, HasAccountAdjustmentPendingLowerBound,
    HasAccountAdjustmentPendingUpperBound, HasAccountAdjustmentPositionLeverage, HasAccountAdjustmentReserved,
    HasAccountAdjustmentReservedLowerBound, HasAccountAdjustmentReservedUpperBound, HasAccountAdjustmentTotal,
    HasAccountAdjustmentTotalLowerBound, HasAccountAdjustmentTotalUpperBound, HasAccountId,
    HasAverageEntryPrice, HasBalanceAsset, HasCollateralAsset,
    HasPositionInstrument, HasPositionMode,
};

verus! {

/// Grouped total/reserved/pending adjustment payload.
#[derive(Clone, Debug, Default, PartialEq, Eq)]
pub struct AccountAdjustmentAmount {
    /// Resulting balance or position value.
    pub total: Option<AdjustmentAmount>,
    /// Amount earmarked for outgoing settlement.
    pub reserved: Option<AdjustmentAmount>,
    /// Amount in flight for incoming acquisition.
    pub pending: Option<AdjustmentAmount>,
}

/// Adds an adjustment amount to another request.
#[derive(Clone, Debug, PartialEq, Eq)]
pub struct WithAccountAdjustmentAmount<T> {
    /// The wrapped request.
    pub inner: T,
    /// The added amount.
    pub amount: AccountAdjustmentAmount,
}

/// Direct adjustment of a physical asset balance.
#[derive(Clone, Debug, PartialEq, Eq)]
pub struct AccountAdjustmentBalanceOperation {
    /// Adjusted account.
    pub account_id: AccountId,
    /// Adjusted asset.
    pub asset: Asset,
    /// Optional cost basis of the adjusted balance.
    pub average_entry_price: Option<Price>,
}

/// Adds a balance operation to another request.
#[derive(Clone, Debug, PartialEq, Eq)]
pub struct WithAccountAdjustmentBalanceOperation<T> {
    /// The wrapped request.
    pub inner: T,
    /// The added operation.
    pub operation: AccountAdjustmentBalanceOperation,
}

/// Direct adjustment of a derivatives-like position.
#[derive(Clone, Debug, PartialEq, Eq)]
pub struct AccountAdjustmentPositionOperation {
    /// Adjusted account.
    pub account_id: AccountId,
    /// Position instrument.
    pub instrument: Instrument,
    /// Asset that collateralizes and settles the position.
    pub collateral_asset: Asset,
    /// Average entry price of the adjusted position.
    pub average_entry_price: Price,
    /// Netting or hedged representation.
    pub mode: PositionMode,
    /// Optional leverage of the position.
    pub leverage: Option<Leverage>,
}

/// Adds a position operation to another request.
#[derive(Clone, Debug, PartialEq, Eq)]
pub struct WithAccountAdjustmentPositionOperation<T> {
    /// The wrapped request.
    pub inner: T,
    /// The added operation.
    pub operation: AccountAdjustmentPositionOperation,
}

/// Optional inclusive limits on the adjusted components after the adjustment.
#[derive(Clone, Debug, Default, PartialEq, Eq)]
pub struct AccountAdjustmentBounds {
    /// Upper bound of the total.
    pub total_upper_bound: Option<PositionSize>,
    /// Lower bound of the total.
    pub total_lower_bound: Option<PositionSize>,
    /// Upper bound of the reserved amount.
    pub reserved_upper_bound: Option<PositionSize>,
    /// Lower bound of the reserved amount.
    pub reserved_lower_bound: Option<PositionSize>,
    /// Upper bound of the pending amount.
    pub pending_upper_bound: Option<PositionSize>,
    /// Lower bound of the pending amount.
    pub pending_lower_bound: Option<PositionSize>,
}

/// Adds adjustment bounds to another request.
#[derive(Clone, Debug, PartialEq, Eq)]
pub struct WithAccountAdjustmentBounds<T> {
    /// The wrapped request.
    pub inner: T,
    /// The added bounds.
    pub bounds: AccountAdjustmentBounds,
}

impl HasAccountAdjustmentTotal for AccountAdjustmentAmount {
    fn total(&self) -> (r: Result<Option<AdjustmentAmount>, RequestFieldAccessError>)
        ensures
            r == Ok::<Option<AdjustmentAmount>, RequestFieldAccessError>(self.total),
    {
        Ok(self.total)
    }
}

impl<T> HasAccountAdjustmentTotal for WithAccountAdjustmentAmount<T> {
    fn total(&self) -> (r: Result<Option<AdjustmentAmount>, RequestFieldAccessError>)
        ensures
            r == Ok::<Option<AdjustmentAmount>, RequestFieldAccessError>(self.amount.total),
    {
        self.amount.total()
    }
}

impl HasAccountAdjustmentReserved for AccountAdjustmentAmount {
    fn reserved(&self) -> (r: Result<Option<AdjustmentAmount>, RequestFieldAccessError>)
        ensures
            r == Ok::<Option<AdjustmentAmount>, RequestFieldAccessError>(self.reserved),
    {
        Ok(self.reserved)
    }
}

impl<T> HasAccountAdjustmentReserved for WithAccountAdjustmentAmount<T> {
    fn reserved(&self) -> (r: Result<Option<AdjustmentAmount>, RequestFieldAccessError>)
        ensures
            r == Ok::<Option<AdjustmentAmount>, RequestFieldAccessError>(self.amount.reserved),
    {
        self.amount.reserved()
    }
}

impl HasAccountAdjustmentPending for AccountAdjustmentAmount {
    fn pending(&self) -> (r: Result<Option<AdjustmentAmount>, RequestFieldAccessError>)
        ensures
            r == Ok::<Option<AdjustmentAmount>, RequestFieldAccessError>(self.pending),
    {
        Ok(self.pending)
    }
}

impl<T> HasAccountAdjustmentPending for WithAccountAdjustmentAmount<T> {
    fn pending(&self) -> (r: Result<Option<AdjustmentAmount>, RequestFieldAccessError>)
        ensures
            r == Ok::<Option<AdjustmentAmount>, RequestFieldAccessError>(self.amount.pending),
    {
        self.amount.pending()
    }
}

impl<T: HasAccountId> HasAccountId for WithAccountAdjustmentAmount<T> {
    fn account_id(&self) -> (r: Result<AccountId, RequestFieldAccessError>)
        ensures
            call_ensures(<T as HasAccountId>::account_id, (&self.inner,), r),
    {
        <T as HasAccountId>::account_id(&self.inner)
    }
}

impl<T: HasBalanceAsset> HasBalanceAsset for WithAccountAdjustmentAmount<T> {
    fn balance_asset(&self) -> (r: Result<&Asset, RequestFieldAccessError>)
        ensures
            call_ensures(<T as HasBalanceAsset>::balance_asset, (&self.inner,), r),
    {
        <T as HasBalanceAsset>::balance_asset(&self.inner)
    }
}

impl<T: HasAccountAdjustmentBalanceAverageEntryPrice> HasAccountAdjustmentBalanceAverageEntryPrice for WithAccountAdjustmentAmount<T> {
    fn balance_average_entry_price(&self) -> (r: Result<Option<Price>, RequestFieldAccessError>)
        ensures
            call_ensures(<T as HasAccountAdjustmentBalanceAverageEntryPrice>::balance_average_entry_price, (&self.inner,), r),
    {
        <T as HasAccountAdjustmentBalanceAverageEntryPrice>::balance_average_entry_price(&self.inner)
    }
}

impl<T: HasPositionInstrument> HasPositionInstrument for WithAccountAdjustmentAmount<T> {
    fn position_instrument(&self) -> (r: Result<&Instrument, RequestFieldAccessError>)
        ensures
            call_ensures(<T as HasPositionInstrument>::position_instrument, (&self.inner,), r),
    {
        <T as HasPositionInstrument>::position_instrument(&self.inner)
    }
}

impl<T: HasCollateralAsset> HasCollateralAsset for WithAccountAdjustmentAmount<T> {
    fn collateral_asset(&self) -> (r: Result<&Asset, RequestFieldAccessError>)
        ensures
            call_ensures(<T as HasCollateralAsset>::collateral_asset, (&self.inner,), r),
    {
        <T as HasCollateralAsset>::collateral_asset(&self.inner)
    }
}

impl<T: HasAverageEntryPrice> HasAverageEntryPrice for WithAccountAdjustmentAmount<T> {
    fn average_entry_price(&self) -> (r: Result<Price, RequestFieldAccessError>)
        ensures
            call_ensures(<T as HasAverageEntryPrice>::average_entry_price, (&self.inner,), r),
    {
        <T as HasAverageEntryPrice>::average_entry_price(&self.inner)
    }
}

impl<T: HasPositionMode> HasPositionMode for WithAccountAdjustmentAmount<T> {
    fn position_mode(&self) -> (r: Result<PositionMode, RequestFieldAccessError>)
        ensures
            call_ensures(<T as HasPositionMode>::position_mode, (&self.inner,), r),
    {
        <T as HasPositionMode>::position_mode(&self.inner)
    }
}

impl<T: HasAccountAdjustmentPositionLeverage> HasAccountAdjustmentPositionLeverage for WithAccountAdjustmentAmount<T> {
    fn position_leverage(&self) -> (r: Result<Option<Leverage>, RequestFieldAccessError>)
        ensures
            call_ensures(<T as HasAccountAdjustmentPositionLeverage>::position_leverage, (&self.inner,), r),
    {
        <T as HasAccountAdjustmentPositionLeverage>::position_leverage(&self.inner)
    }
}

impl<T: HasAccountAdjustmentTotalUpperBound> HasAccountAdjustmentTotalUpperBound for WithAccountAdjustmentAmount<T> {
    fn total_upper_bound(&self) -> (r: Result<Option<PositionSize>, RequestFieldAccessError>)
        ensures
            call_ensures(<T as HasAccountAdjustmentTotalUpperBound>::total_upper_bound, (&self.inner,), r),
    {
        <T as HasAccountAdjustmentTotalUpperBound>::total_upper_bound(&self.inner)
    }
}

impl<T: HasAccountAdjustmentTotalLowerBound> HasAccountAdjustmentTotalLowerBound for WithAccountAdjustmentAmount<T> {
    fn total_lower_bound(&self) -> (r: Result<Option<PositionSize>, RequestFieldAccessError>)
        ensures
            call_ensures(<T as HasAccountAdjustmentTotalLowerBound>::total_lower_bound, (&self.inner,), r),
    {
        <T as HasAccountAdjustmentTotalLowerBound>::total_lower_bound(&self.inner)
    }
}

impl<T: HasAccountAdjustmentReservedUpperBound> HasAccountAdjustmentReservedUpperBound for WithAccountAdjustmentAmount<T> {
    fn reserved_upper_bound(&self) -> (r: Result<Option<PositionSize>, RequestFieldAccessError>)
        ensures
            call_ensures(<T as HasAccountAdjustmentReservedUpperBound>::reserved_upper_bound, (&self.inner,), r),
    {
        <T as HasAccountAdjustmentReservedUpperBound>::reserved_upper_bound(&self.inner)
    }
}

impl<T: HasAccountAdjustmentReservedLowerBound> HasAccountAdjustmentReservedLowerBound for WithAccountAdjustmentAmount<T> {
    fn reserved_lower_bound(&self) -> (r: Result<Option<PositionSize>, RequestFieldAccessError>)
        ensures
            call_ensures(<T as HasAccountAdjustmentReservedLowerBound>::reserved_lower_bound, (&self.inner,), r),
    {
        <T as HasAccountAdjustmentReservedLowerBound>::reserved_lower_bound(&self.inner)
    }
}

impl<T: HasAccountAdjustmentPendingUpperBound> HasAccountAdjustmentPendingUpperBound for WithAccountAdjustmentAmount<T> {
    fn pending_upper_bound(&self) -> (r: Result<Option<PositionSize>, RequestFieldAccessError>)
        ensures
            call_ensures(<T as HasAccountAdjustmentPendingUpperBound>::pending_upper_bound, (&self.inner,), r),
    {
        <T as HasAccountAdjustmentPendingUpperBound>::pending_upper_bound(&self.inner)
    }
}

impl<T: HasAccountAdjustmentPendingLowerBound> HasAccountAdjustmentPendingLowerBound for WithAccountAdjustmentAmount<T> {
    fn pending_lower_bound(&self) -> (r: Result<Option<PositionSize>, RequestFieldAccessError>)
        ensures
            call_ensures(<T as HasAccountAdjustmentPendingLowerBound>::pending_lower_bound, (&self.inner,), r),
    {
        <T as HasAccountAdjustmentPendingLowerBound>::pending_lower_bound(&self.inner)
    }
}

impl HasBalanceAsset for AccountAdjustmentBalanceOperation {
    fn balance_asset(&self) -> (r: Result<&Asset, RequestFieldAccessError>)
        ensures
            r == Ok::<&Asset, RequestFieldAccessError>(&self.asset),
    {
        Ok(&self.asset)
    }
}

impl<T> HasBalanceAsset for WithAccountAdjustmentBalanceOperation<T> {
    fn balance_asset(&self) -> (r: Result<&Asset, RequestFieldAccessError>)
        ensures
            r == Ok::<&Asset, RequestFieldAccessError>(&self.operation.asset),
    {
        self.operation.balance_asset()
    }
}

impl HasAccountId for AccountAdjustmentBalanceOperation {
    fn account_id(&self) -> (r: Result<AccountId, RequestFieldAccessError>)
        ensures
            r == Ok::<AccountId, RequestFieldAccessError>(self.account_id),
    {
        Ok(self.account_id)
    }
}

impl<T> HasAccountId for WithAccountAdjustmentBalanceOperation<T> {
    fn account_id(&self) -> (r: Result<AccountId, RequestFieldAccessError>)
        ensures
            r == Ok::<AccountId, RequestFieldAccessError>(self.operation.account_id),
    {
        self.operation.account_id()
    }
}

impl HasAccountAdjustmentBalanceAverageEntryPrice for AccountAdjustmentBalanceOperation {
    fn balance_average_entry_price(&self) -> (r: Result<Option<Price>, RequestFieldAccessError>)
        ensures
            r == Ok::<Option<Price>, RequestFieldAccessError>(self.average_entry_price),
    {
        Ok(self.average_entry_price)
    }
}

impl<T> HasAccountAdjustmentBalanceAverageEntryPrice for WithAccountAdjustmentBalanceOperation<T> {
    fn balance_average_entry_price(&self) -> (r: Result<Option<Price>, RequestFieldAccessError>)
        ensures
            r == Ok::<Option<Price>, RequestFieldAccessError>(self.operation.average_entry_price),
    {
        self.operation.balance_average_entry_price()
    }
}

impl<T: HasAverageEntryPrice> HasAverageEntryPrice for WithAccountAdjustmentBalanceOperation<T> {
    fn average_entry_price(&self) -> (r: Result<Price, RequestFieldAccessError>)
        ensures
            call_ensures(<T as HasAverageEntryPrice>::average_entry_price, (&self.inner,), r),
    {
        <T as HasAverageEntryPrice>::average_entry_price(&self.inner)
    }
}

impl<T: HasAccountAdjustmentTotal> HasAccountAdjustmentTotal for WithAccountAdjustmentBalanceOperation<T> {
    fn total(&self) -> (r: Result<Option<AdjustmentAmount>, RequestFieldAccessError>)
        ensures
            call_ensures(<T as HasAccountAdjustmentTotal>::total, (&self.inner,), r),
    {
        <T as HasAccountAdjustmentTotal>::total(&self.inner)
    }
}

impl<T: HasAccountAdjustmentReserved> HasAccountAdjustmentReserved for WithAccountAdjustmentBalanceOperation<T> {
    fn reserved(&self) -> (r: Result<Option<AdjustmentAmount>, RequestFieldAccessError>)
        ensures
            call_ensures(<T as HasAccountAdjustmentReserved>::reserved, (&self.inner,), r),
    {
        <T as HasAccountAdjustmentReserved>::reserved(&self.inner)
    }
}

impl<T: HasAccountAdjustmentPending> HasAccountAdjustmentPending for WithAccountAdjustmentBalanceOperation<T> {
    fn pending(&self) -> (r: Result<Option<AdjustmentAmount>, RequestFieldAccessError>)
        ensures
            call_ensures(<T as HasAccountAdjustmentPending>::pending, (&self.inner,), r),
    {
        <T as HasAccountAdjustmentPending>::pending(&self.inner)
    }
}

impl<T: HasAccountAdjustmentTotalUpperBound> HasAccountAdjustmentTotalUpperBound for WithAccountAdjustmentBalanceOperation<T> {
    fn total_upper_bound(&self) -> (r: Result<Option<PositionSize>, RequestFieldAccessError>)
        ensures
            call_ensures(<T as HasAccountAdjustmentTotalUpperBound>::total_upper_bound, (&self.inner,), r),
    {
        <T as HasAccountAdjustmentTotalUpperBound>::total_upper_bound(&self.inner)
    }
}

impl<T: HasAccountAdjustmentTotalLowerBound> HasAccountAdjustmentTotalLowerBound for WithAccountAdjustmentBalanceOperation<T> {
    fn total_lower_bound(&self) -> (r: Result<Option<PositionSize>, RequestFieldAccessError>)
        ensures
            call_ensures(<T as HasAccountAdjustmentTotalLowerBound>::total_lower_bound, (&self.inner,), r),
    {
        <T as HasAccountAdjustmentTotalLowerBound>::total_lower_bound(&self.inner)
    }
}

impl<T: HasAccountAdjustmentReservedUpperBound> HasAccountAdjustmentReservedUpperBound for WithAccountAdjustmentBalanceOperation<T> {
    fn reserved_upper_bound(&self) -> (r: Result<Option<PositionSize>, RequestFieldAccessError>)
        ensures
            call_ensures(<T as HasAccountAdjustmentReservedUpperBound>::reserved_upper_bound, (&self.inner,), r),
    {
        <T as HasAccountAdjustmentReservedUpperBound>::reserved_upper_bound(&self.inner)
    }
}

impl<T: HasAccountAdjustmentReservedLowerBound> HasAccountAdjustmentReservedLowerBound for WithAccountAdjustmentBalanceOperation<T> {
    fn reserved_lower_bound(&self) -> (r: Result<Option<PositionSize>, RequestFieldAccessError>)
        ensures
            call_ensures(<T as HasAccountAdjustmentReservedLowerBound>::reserved_lower_bound, (&self.inner,), r),
    {
        <T as HasAccountAdjustmentReservedLowerBound>::reserved_lower_bound(&self.inner)
    }
}

impl<T: HasAccountAdjustmentPendingUpperBound> HasAccountAdjustmentPendingUpperBound for WithAccountAdjustmentBalanceOperation<T> {
    fn pending_upper_bound(&self) -> (r: Result<Option<PositionSize>, RequestFieldAccessError>)
        ensures
            call_ensures(<T as HasAccountAdjustmentPendingUpperBound>::pending_upper_bound, (&self.inner,), r),
    {
        <T as HasAccountAdjustmentPendingUpperBound>::pending_upper_bound(&self.inner)
    }
}

impl<T: HasAccountAdjustmentPendingLowerBound> HasAccountAdjustmentPendingLowerBound for WithAccountAdjustmentBalanceOperation<T> {
    fn pending_lower_bound(&self) -> (r: Result<Option<PositionSize>, RequestFieldAccessError>)
        ensures
            call_ensures(<T as HasAccountAdjustmentPendingLowerBound>::pending_lower_bound, (&self.inner,), r),
    {
        <T as HasAccountAdjustmentPendingLowerBound>::pending_lower_bound(&self.inner)
    }
}

impl<T: HasPositionInstrument> HasPositionInstrument for WithAccountAdjustmentBalanceOperation<T> {
    fn position_instrument(&self) -> (r: Result<&Instrument, RequestFieldAccessError>)
        ensures
            call_ensures(<T as HasPositionInstrument>::position_instrument, (&self.inner,), r),
    {
        <T as HasPositionInstrument>::position_instrument(&self.inner)
    }
}

impl<T: HasCollateralAsset> HasCollateralAsset for WithAccountAdjustmentBalanceOperation<T> {
    fn collateral_asset(&self) -> (r: Result<&Asset, RequestFieldAccessError>)
        ensures
            call_ensures(<T as HasCollateralAsset>::collateral_asset, (&self.inner,), r),
    {
        <T as HasCollateralAsset>::collateral_asset(&self.inner)
    }
}

impl<T: HasPositionMode> HasPositionMode for WithAccountAdjustmentBalanceOperation<T> {
    fn position_mode(&self) -> (r: Result<PositionMode, RequestFieldAccessError>)
        ensures
            call_ensures(<T as HasPositionMode>::position_mode, (&self.inner,), r),
    {
        <T as HasPositionMode>::position_mode(&self.inner)
    }
}

impl<T: HasAccountAdjustmentPositionLeverage> HasAccountAdjustmentPositionLeverage for WithAccountAdjustmentBalanceOperation<T> {
    fn position_leverage(&self) -> (r: Result<Option<Leverage>, RequestFieldAccessError>)
        ensures
            call_ensures(<T as HasAccountAdjustmentPositionLeverage>::position_leverage, (&self.inner,), r),
    {
        <T as HasAccountAdjustmentPositionLeverage>::position_leverage(&self.inner)
    }
}

impl HasPositionInstrument for AccountAdjustmentPositionOperation {
    fn position_instrument(&self) -> (r: Result<&Instrument, RequestFieldAccessError>)
        ensures
            r == Ok::<&Instrument, RequestFieldAccessError>(&self.instrument),
    {
        Ok(&self.instrument)
    }
}

impl<T> HasPositionInstrument for WithAccountAdjustmentPositionOperation<T> {
    fn position_instrument(&self) -> (r: Result<&Instrument, RequestFieldAccessError>)
        ensures
            r == Ok::<&Instrument, RequestFieldAccessError>(&self.operation.instrument),
    {
        self.operation.position_instrument()
    }
}

impl HasCollateralAsset for AccountAdjustmentPositionOperation {
    fn collateral_asset(&self) -> (r: Result<&Asset, RequestFieldAccessError>)
        ensures
            r == Ok::<&Asset, RequestFieldAccessError>(&self.collateral_asset),
    {
        Ok(&self.collateral_asset)
    }
}

impl<T> HasCollateralAsset for WithAccountAdjustmentPositionOperation<T> {
    fn collateral_asset(&self) -> (r: Result<&Asset, RequestFieldAccessError>)
        ensures
            r == Ok::<&Asset, RequestFieldAccessError>(&self.operation.collateral_asset),
    {
        self.operation.collateral_asset()
    }
}

impl HasAccountId for AccountAdjustmentPositionOperation {
    fn account_id(&self) -> (r: Result<AccountId, RequestFieldAccessError>)
        ensures
            r == Ok::<AccountId, RequestFieldAccessError>(self.account_id),
    {
        Ok(self.account_id)
    }
}

impl<T> HasAccountId for WithAccountAdjustmentPositionOperation<T> {
    fn account_id(&self) -> (r: Result<AccountId, RequestFieldAccessError>)
        ensures
            r == Ok::<AccountId, RequestFieldAccessError>(self.operation.account_id),
    {
        self.operation.account_id()
    }
}

impl HasAverageEntryPrice for AccountAdjustmentPositionOperation {
    fn average_entry_price(&self) -> (r: Result<Price, RequestFieldAccessError>)
        ensures
            r == Ok::<Price, RequestFieldAccessError>(self.average_entry_price),
    {
        Ok(self.average_entry_price)
    }
}

impl<T> HasAverageEntryPrice for WithAccountAdjustmentPositionOperation<T> {
    fn average_entry_price(&self) -> (r: Result<Price, RequestFieldAccessError>)
        ensures
            r == Ok::<Price, RequestFieldAccessError>(self.operation.average_entry_price),
    {
        self.operation.average_entry_price()
    }
}

impl HasPositionMode for AccountAdjustmentPositionOperation {
    fn position_mode(&self) -> (r: Result<PositionMode, RequestFieldAccessError>)
        ensures
            r == Ok::<PositionMode, RequestFieldAccessError>(self.mode),
    {
        Ok(self.mode)
    }
}

impl<T> HasPositionMode for WithAccountAdjustmentPositionOperation<T> {
    fn position_mode(&self) -> (r: Result<PositionMode, RequestFieldAccessError>)
        ensures
            r == Ok::<PositionMode, RequestFieldAccessError>(self.operation.mode),
    {
        self.operation.position_mode()
    }
}

impl HasAccountAdjustmentPositionLeverage for AccountAdjustmentPositionOperation {
    fn position_leverage(&self) -> (r: Result<Option<Leverage>, RequestFieldAccessError>)
        ensures
            r == Ok::<Option<Leverage>, RequestFieldAccessError>(self.leverage),
    {
        Ok(self.leverage)
    }
}

impl<T> HasAccountAdjustmentPositionLeverage for WithAccountAdjustmentPositionOperation<T> {
    fn position_leverage(&self) -> (r: Result<Option<Leverage>, RequestFieldAccessError>)
        ensures
            r == Ok::<Option<Leverage>, RequestFieldAccessError>(self.operation.leverage),
    {
        self.operation.position_leverage()
    }
}

impl<T: HasBalanceAsset> HasBalanceAsset for WithAccountAdjustmentPositionOperation<T> {
    fn balance_asset(&self) -> (r: Result<&Asset, RequestFieldAccessError>)
        ensures
            call_ensures(<T as HasBalanceAsset>::balance_asset, (&self.inner,), r),
    {
        <T as HasBalanceAsset>::balance_asset(&self.inner)
    }
}

impl<T: HasAccountAdjustmentBalanceAverageEntryPrice> HasAccountAdjustmentBalanceAverageEntryPrice for WithAccountAdjustmentPositionOperation<T> {
    fn balance_average_entry_price(&self) -> (r: Result<Option<Price>, RequestFieldAccessError>)
        ensures
            call_ensures(<T as HasAccountAdjustmentBalanceAverageEntryPrice>::balance_average_entry_price, (&self.inner,), r),
    {
        <T as HasAccountAdjustmentBalanceAverageEntryPrice>::balance_average_entry_price(&self.inner)
    }
}

impl<T: HasAccountAdjustmentTotal> HasAccountAdjustmentTotal for WithAccountAdjustmentPositionOperation<T> {
    fn total(&self) -> (r: Result<Option<AdjustmentAmount>, RequestFieldAccessError>)
        ensures
            call_ensures(<T as HasAccountAdjustmentTotal>::total, (&self.inner,), r),
    {
        <T as HasAccountAdjustmentTotal>::total(&self.inner)
    }
}

impl<T: HasAccountAdjustmentReserved> HasAccountAdjustmentReserved for WithAccountAdjustmentPositionOperation<T> {
    fn reserved(&self) -> (r: Result<Option<AdjustmentAmount>, RequestFieldAccessError>)
        ensures
            call_ensures(<T as HasAccountAdjustmentReserved>::reserved, (&self.inner,), r),
    {
        <T as HasAccountAdjustmentReserved>::reserved(&self.inner)
    }
}

impl<T: HasAccountAdjustmentPending> HasAccountAdjustmentPending for WithAccountAdjustmentPositionOperation<T> {
    fn pending(&self) -> (r: Result<Option<AdjustmentAmount>, RequestFieldAccessError>)
        ensures
            call_ensures(<T as HasAccountAdjustmentPending>::pending, (&self.inner,), r),
    {
        <T as HasAccountAdjustmentPending>::pending(&self.inner)
    }
}

impl<T: HasAccountAdjustmentTotalUpperBound> HasAccountAdjustmentTotalUpperBound for WithAccountAdjustmentPositionOperation<T> {
    fn total_upper_bound(&self) -> (r: Result<Option<PositionSize>, RequestFieldAccessError>)
        ensures
            call_ensures(<T as HasAccountAdjustmentTotalUpperBound>::total_upper_bound, (&self.inner,), r),
    {
        <T as HasAccountAdjustmentTotalUpperBound>::total_upper_bound(&self.inner)
    }
}

impl<T: HasAccountAdjustmentTotalLowerBound> HasAccountAdjustmentTotalLowerBound for WithAccountAdjustmentPositionOperation<T> {
    fn total_lower_bound(&self) -> (r: Result<Option<PositionSize>, RequestFieldAccessError>)
        ensures
            call_ensures(<T as HasAccountAdjustmentTotalLowerBound>::total_lower_bound, (&self.inner,), r),
    {
        <T as HasAccountAdjustmentTotalLowerBound>::total_lower_bound(&self.inner)
    }
}

impl<T: HasAccountAdjustmentReservedUpperBound> HasAccountAdjustmentReservedUpperBound for WithAccountAdjustmentPositionOperation<T> {
    fn reserved_upper_bound(&self) -> (r: Result<Option<PositionSize>, RequestFieldAccessError>)
        ensures
            call_ensures(<T as HasAccountAdjustmentReservedUpperBound>::reserved_upper_bound, (&self.inner,), r),
    {
        <T as HasAccountAdjustmentReservedUpperBound>::reserved_upper_bound(&self.inner)
    }
}

impl<T: HasAccountAdjustmentReservedLowerBound> HasAccountAdjustmentReservedLowerBound for WithAccountAdjustmentPositionOperation<T> {
    fn reserved_lower_bound(&self) -> (r: Result<Option<PositionSize>, RequestFieldAccessError>)
        ensures
            call_ensures(<T as HasAccountAdjustmentReservedLowerBound>::reserved_lower_bound, (&self.inner,), r),
    {
        <T as HasAccountAdjustmentReservedLowerBound>::reserved_lower_bound(&self.inner)
    }
}

impl<T: HasAccountAdjustmentPendingUpperBound> HasAccountAdjustmentPendingUpperBound for WithAccountAdjustmentPositionOperation<T> {
    fn pending_upper_bound(&self) -> (r: Result<Option<PositionSize>, RequestFieldAccessError>)
        ensures
            call_ensures(<T as HasAccountAdjustmentPendingUpperBound>::pending_upper_bound, (&self.inner,), r),
    {
        <T as HasAccountAdjustmentPendingUpperBound>::pending_upper_bound(&self.inner)
    }
}

impl<T: HasAccountAdjustmentPendingLowerBound> HasAccountAdjustmentPendingLowerBound for WithAccountAdjustmentPositionOperation<T> {
    fn pending_lower_bound(&self) -> (r: Result<Option<PositionSize>, RequestFieldAccessError>)
        ensures
            call_ensures(<T as HasAccountAdjustmentPendingLowerBound>::pending_lower_bound, (&self.inner,), r),
    {
        <T as HasAccountAdjustmentPendingLowerBound>::pending_lower_bound(&self.inner)
    }
}

impl HasAccountAdjustmentTotalUpperBound for AccountAdjustmentBounds {
    fn total_upper_bound(&self) -> (r: Result<Option<PositionSize>, RequestFieldAccessError>)
        ensures
            r == Ok::<Option<PositionSize>, RequestFieldAccessError>(self.total_upper_bound),
    {
        Ok(self.total_upper_bound)
    }
}

impl<T> HasAccountAdjustmentTotalUpperBound for WithAccountAdjustmentBounds<T> {
    fn total_upper_bound(&self) -> (r: Result<Option<PositionSize>, RequestFieldAccessError>)
        ensures
            r == Ok::<Option<PositionSize>, RequestFieldAccessError>(self.bounds.total_upper_bound),
    {
        self.bounds.total_upper_bound()
    }
}

impl HasAccountAdjustmentTotalLowerBound for AccountAdjustmentBounds {
    fn total_lower_bound(&self) -> (r: Result<Option<PositionSize>, RequestFieldAccessError>)
        ensures
            r == Ok::<Option<PositionSize>, RequestFieldAccessError>(self.total_lower_bound),
    {
        Ok(self.total_lower_bound)
    }
}

impl<T> HasAccountAdjustmentTotalLowerBound for WithAccountAdjustmentBounds<T> {
    fn total_lower_bound(&self) -> (r: Result<Option<PositionSize>, RequestFieldAccessError>)
        ensures
            r == Ok::<Option<PositionSize>, RequestFieldAccessError>(self.bounds.total_lower_bound),
    {
        self.bounds.total_lower_bound()
    }
}

impl HasAccountAdjustmentReservedUpperBound for AccountAdjustmentBounds {
    fn reserved_upper_bound(&self) -> (r: Result<Option<PositionSize>, RequestFieldAccessError>)
        ensures
            r == Ok::<Option<PositionSize>, RequestFieldAccessError>(self.reserved_upper_bound),
    {
        Ok(self.reserved_upper_bound)
    }
}

impl<T> HasAccountAdjustmentReservedUpperBound for WithAccountAdjustmentBounds<T> {
    fn reserved_upper_bound(&self) -> (r: Result<Option<PositionSize>, RequestFieldAccessError>)
        ensures
            r == Ok::<Option<PositionSize>, RequestFieldAccessError>(self.bounds.reserved_upper_bound),
    {
        self.bounds.reserved_upper_bound()
    }
}

impl HasAccountAdjustmentReservedLowerBound for AccountAdjustmentBounds {
    fn reserved_lower_bound(&self) -> (r: Result<Option<PositionSize>, RequestFieldAccessError>)
        ensures
            r == Ok::<Option<PositionSize>, RequestFieldAccessError>(self.reserved_lower_bound),
    {
        Ok(self.reserved_lower_bound)
    }
}

impl<T> HasAccountAdjustmentReservedLowerBound for WithAccountAdjustmentBounds<T> {
    fn reserved_lower_bound(&self) -> (r: Result<Option<PositionSize>, RequestFieldAccessError>)
        ensures
            r == Ok::<Option<PositionSize>, RequestFieldAccessError>(self.bounds.reserved_lower_bound),
    {
        self.bounds.reserved_lower_bound()
    }
}

impl HasAccountAdjustmentPendingUpperBound for AccountAdjustmentBounds {
    fn pending_upper_bound(&self) -> (r: Result<Option<PositionSize>, RequestFieldAccessError>)
        ensures
            r == Ok::<Option<PositionSize>, RequestFieldAccessError>(self.pending_upper_bound),
    {
        Ok(self.pending_upper_bound)
    }
}

impl<T> HasAccountAdjustmentPendingUpperBound for WithAccountAdjustmentBounds<T> {
    fn pending_upper_bound(&self) -> (r: Result<Option<PositionSize>, RequestFieldAccessError>)
        ensures
            r == Ok::<Option<PositionSize>, RequestFieldAccessError>(self.bounds.pending_upper_bound),
    {
        self.bounds.pending_upper_bound()
    }
}

impl HasAccountAdjustmentPendingLowerBound for AccountAdjustmentBounds {
    fn pending_lower_bound(&self) -> (r: Result<Option<PositionSize>, RequestFieldAccessError>)
        ensures
            r == Ok::<Option<PositionSize>, RequestFieldAccessError>(self.pending_lower_bound),
    {
        Ok(self.pending_lower_bound)
    }
}

impl<T> HasAccountAdjustmentPendingLowerBound for WithAccountAdjustmentBounds<T> {
    fn pending_lower_bound(&self) -> (r: Result<Option<PositionSize>, RequestFieldAccessError>)
        ensures
            r == Ok::<Option<PositionSize>, RequestFieldAccessError>(self.bounds.pending_lower_bound),
    {
        self.bounds.pending_lower_bound()
    }
}

impl<T: HasAccountId> HasAccountId for WithAccountAdjustmentBounds<T> {
    fn account_id(&self) -> (r: Result<AccountId, RequestFieldAccessError>)
        ensures
            call_ensures(<T as HasAccountId>::account_id, (&self.inner,), r),
    {
        <T as HasAccountId>::account_id(&self.inner)
    }
}

impl<T: HasBalanceAsset> HasBalanceAsset for WithAccountAdjustmentBounds<T> {
    fn balance_asset(&self) -> (r: Result<&Asset, RequestFieldAccessError>)
        ensures
            call_ensures(<T as HasBalanceAsset>::balance_asset, (&self.inner,), r),
    {
        <T as HasBalanceAsset>::balance_asset(&self.inner)
    }
}

impl<T: HasAccountAdjustmentBalanceAverageEntryPrice> HasAccountAdjustmentBalanceAverageEntryPrice for WithAccountAdjustmentBounds<T> {
    fn balance_average_entry_price(&self) -> (r: Result<Option<Price>, RequestFieldAccessError>)
        ensures
            call_ensures(<T as HasAccountAdjustmentBalanceAverageEntryPrice>::balance_average_entry_price, (&self.inner,), r),
    {
        <T as HasAccountAdjustmentBalanceAverageEntryPrice>::balance_average_entry_price(&self.inner)
    }
}

impl<T: HasPositionInstrument> HasPositionInstrument for WithAccountAdjustmentBounds<T> {
    fn position_instrument(&self) -> (r: Result<&Instrument, RequestFieldAccessError>)
        ensures
            call_ensures(<T as HasPositionInstrument>::position_instrument, (&self.inner,), r),
    {
        <T as HasPositionInstrument>::position_instrument(&self.inner)
    }
}

impl<T: HasCollateralAsset> HasCollateralAsset for WithAccountAdjustmentBounds<T> {
    fn collateral_asset(&self) -> (r: Result<&Asset, RequestFieldAccessError>)
        ensures
            call_ensures(<T as HasCollateralAsset>::collateral_asset, (&self.inner,), r),
    {
        <T as HasCollateralAsset>::collateral_asset(&self.inner)
    }
}

impl<T: HasAverageEntryPrice> HasAverageEntryPrice for WithAccountAdjustmentBounds<T> {
    fn average_entry_price(&self) -> (r: Result<Price, RequestFieldAccessError>)
        ensures
            call_ensures(<T as HasAverageEntryPrice>::average_entry_price, (&self.inner,), r),
    {
        <T as HasAverageEntryPrice>::average_entry_price(&self.inner)
    }
}

impl<T: HasPositionMode> HasPositionMode for WithAccountAdjustmentBounds<T> {
    fn position_mode(&self) -> (r: Result<PositionMode, RequestFieldAccessError>)
        ensures
            call_ensures(<T as HasPositionMode>::position_mode, (&self.inner,), r),
    {
        <T as HasPositionMode>::position_mode(&self.inner)
    }
}

impl<T: HasAccountAdjustmentPositionLeverage> HasAccountAdjustmentPositionLeverage for WithAccountAdjustmentBounds<T> {
    fn position_leverage(&self) -> (r: Result<Option<Leverage>, RequestFieldAccessError>)
        ensures
            call_ensures(<T as HasAccountAdjustmentPositionLeverage>::position_leverage, (&self.inner,), r),
    {
        <T as HasAccountAdjustmentPositionLeverage>::position_leverage(&self.inner)
    }
}

impl<T: HasAccountAdjustmentTotal> HasAccountAdjustmentTotal for WithAccountAdjustmentBounds<T> {
    fn total(&self) -> (r: Result<Option<AdjustmentAmount>, RequestFieldAccessError>)
        ensures
            call_ensures(<T as HasAccountAdjustmentTotal>::total, (&self.inner,), r),
    {
        <T as HasAccountAdjustmentTotal>::total(&self.inner)
    }
}

impl<T: HasAccountAdjustmentReserved> HasAccountAdjustmentReserved for WithAccountAdjustmentBounds<T> {
    fn reserved(&self) -> (r: Result<Option<AdjustmentAmount>, RequestFieldAccessError>)
        ensures
            call_ensures(<T as HasAccountAdjustmentReserved>::reserved, (&self.inner,), r),
    {
        <T as HasAccountAdjustmentReserved>::reserved(&self.inner)
    }
}

impl<T: HasAccountAdjustmentPending> HasAccountAdjustmentPending for WithAccountAdjustmentBounds<T> {
    fn pending(&self) -> (r: Result<Option<AdjustmentAmount>, RequestFieldAccessError>)
        ensures
            call_ensures(<T as HasAccountAdjustmentPending>::pending, (&self.inner,), r),
    {
        <T as HasAccountAdjustmentPending>::pending(&self.inner)
    }
}

} // verus!
