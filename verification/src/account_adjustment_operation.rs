//! Runtime access to the operation group of an account adjustment whose fields
//! were populated one by one: a present required field reads `Ok`, a missing one
//! reads as a `RequestFieldAccessError` naming it, and a field that does not apply
//! to the populated variant reads as absent (optional fields) or as an error
//! (required fields).
use vstd::prelude::*;
use crate::account_outcome::PnlState;
use crate::order::optional_ref;
use crate::param::{AdjustmentAmount, Asset, Instrument, Leverage, PositionMode, Price};
use crate::pretrade::RequestFieldAccessError;
use crate::request_trait::{
    HasAccountAdjustmentBalance, HasAccountAdjustmentBalanceAverageEntryPrice,
    HasAccountAdjustmentPnlOperation, HasAccountAdjustmentPositionLeverage, HasAverageEntryPrice,
    HasBalanceAsset, HasCollateralAsset, HasPositionInstrument, HasPositionMode,
};

verus! {

/// Populated balance-adjustment operation with individually optional fields.
#[derive(Clone, Debug, PartialEq, Eq)]
pub struct PopulatedBalanceOperation {
    /// Balance asset (required).
    pub asset: Option<Asset>,
    /// Average entry price (optional, in the account currency).
    pub average_entry_price: Option<Price>,
    /// Realized-PnL correction (optional, in the account currency).
    pub realized_pnl: Option<PnlState>,
}

/// Populated position-adjustment operation with individually optional fields.
#[derive(Clone, Debug, PartialEq, Eq)]
pub struct PopulatedPositionOperation {
    /// Position instrument (required).
    pub instrument: Option<Instrument>,
    /// Position collateral asset (required).
    pub collateral_asset: Option<Asset>,
    /// Position average entry price (required).
    pub average_entry_price: Option<Price>,
    /// Position mode (required).
    pub mode: Option<PositionMode>,
    /// Leverage (optional).
    pub leverage: Option<Leverage>,
}

/// Populated account-wide realized-PnL adjustment operation.
#[derive(Clone, Debug, PartialEq, Eq)]
pub struct PopulatedAccountPnlOperation {
    /// Replacement realized-PnL state.
    pub state: PnlState,
}

/// Populated account-adjustment operation group.
#[derive(Clone, Debug, PartialEq, Eq)]
pub enum PopulatedAccountAdjustmentOperation {
    /// Physical-balance adjustment.
    Balance(PopulatedBalanceOperation),
    /// Derivatives-position adjustment.
    Position(PopulatedPositionOperation),
    /// Account-wide realized-PnL adjustment.
    AccountPnl(PopulatedAccountPnlOperation),
}

/// A required field read from an optional one: present, or an error naming it.
pub open spec fn required<A>(value: Option<A>, field: &'static str) -> Result<A, RequestFieldAccessError> {
    match value {
        Some(a) => Ok(a),
        None => Err(RequestFieldAccessError { field }),
    }
}

/// A field that does not apply: an error naming it.
pub open spec fn missing<A>(field: &'static str) -> Result<A, RequestFieldAccessError> {
    Err(RequestFieldAccessError { field })
}

impl PopulatedAccountAdjustmentOperation {
    /// What the matching reader returns.
    pub open spec fn spec_balance(&self) -> Result<Option<AdjustmentAmount>, RequestFieldAccessError> {
        Ok(None)
    }

    /// What the matching reader returns.
    pub open spec fn spec_balance_realized_pnl(&self) -> Result<Option<PnlState>, RequestFieldAccessError> {
        match self {
            PopulatedAccountAdjustmentOperation::Balance(op) => Ok(op.realized_pnl),
            _ => Ok(None),
        }
    }

    /// What the matching reader returns.
    pub open spec fn spec_balance_asset(&self) -> Result<&Asset, RequestFieldAccessError> {
        match self {
            PopulatedAccountAdjustmentOperation::Balance(op) => required(
                optional_ref(&op.asset),
                "operation.balance_asset",
            ),
            _ => missing("operation.balance_asset"),
        }
    }

    /// What the matching reader returns.
    pub open spec fn spec_balance_average_entry_price(&self) -> Result<Option<Price>, RequestFieldAccessError> {
        match self {
            PopulatedAccountAdjustmentOperation::Balance(op) => Ok(op.average_entry_price),
            _ => Ok(None),
        }
    }

    /// What the matching reader returns.
    pub open spec fn spec_position_instrument(&self) -> Result<&Instrument, RequestFieldAccessError> {
        match self {
            PopulatedAccountAdjustmentOperation::Position(op) => required(
                optional_ref(&op.instrument),
                "operation.position_instrument",
            ),
            _ => missing("operation.position_instrument"),
        }
    }

    /// What the matching reader returns.
    pub open spec fn spec_collateral_asset(&self) -> Result<&Asset, RequestFieldAccessError> {
        match self {
            PopulatedAccountAdjustmentOperation::Position(op) => required(
                optional_ref(&op.collateral_asset),
                "operation.collateral_asset",
            ),
            _ => missing("operation.collateral_asset"),
        }
    }

    /// What the matching reader returns.
    pub open spec fn spec_average_entry_price(&self) -> Result<Price, RequestFieldAccessError> {
        match self {
            PopulatedAccountAdjustmentOperation::Position(op) => required(
                op.average_entry_price,
                "operation.average_entry_price",
            ),
            _ => missing("operation.average_entry_price"),
        }
    }

    /// What the matching reader returns.
    pub open spec fn spec_position_mode(&self) -> Result<PositionMode, RequestFieldAccessError> {
        match self {
            PopulatedAccountAdjustmentOperation::Position(op) => required(
                op.mode,
                "operation.position_mode",
            ),
            _ => missing("operation.position_mode"),
        }
    }

    /// What the matching reader returns.
    pub open spec fn spec_position_leverage(&self) -> Result<Option<Leverage>, RequestFieldAccessError> {
        match self {
            PopulatedAccountAdjustmentOperation::Position(op) => Ok(op.leverage),
            _ => Ok(None),
        }
    }

    /// What the matching reader returns.
    pub open spec fn spec_account_pnl_operation(&self) -> Result<Option<PnlState>, RequestFieldAccessError> {
        match self {
            PopulatedAccountAdjustmentOperation::AccountPnl(op) => Ok(Some(op.state)),
            _ => Ok(None),
        }
    }
}

impl HasAccountAdjustmentBalance for PopulatedAccountAdjustmentOperation {
    fn balance(&self) -> (r: Result<Option<AdjustmentAmount>, RequestFieldAccessError>)
        ensures
            r == self.spec_balance(),
    {
        Ok(None)
    }

    fn balance_realized_pnl(&self) -> (r: Result<Option<PnlState>, RequestFieldAccessError>)
        ensures
            r == self.spec_balance_realized_pnl(),
    {
        match self {
            PopulatedAccountAdjustmentOperation::Balance(op) => Ok(op.realized_pnl),
            PopulatedAccountAdjustmentOperation::Position(_) => Ok(None),
            PopulatedAccountAdjustmentOperation::AccountPnl(_) => Ok(None),
        }
    }
}

impl HasBalanceAsset for PopulatedAccountAdjustmentOperation {
    fn balance_asset(&self) -> (r: Result<&Asset, RequestFieldAccessError>)
        ensures
            r == self.spec_balance_asset(),
    {
        match self {
            PopulatedAccountAdjustmentOperation::Balance(op) => match &op.asset {
                Some(asset) => Ok(asset),
                None => Err(RequestFieldAccessError::new("operation.balance_asset")),
            },
            PopulatedAccountAdjustmentOperation::Position(_) => Err(
                RequestFieldAccessError::new("operation.balance_asset"),
            ),
            PopulatedAccountAdjustmentOperation::AccountPnl(_) => Err(
                RequestFieldAccessError::new("operation.balance_asset"),
            ),
        }
    }
}

impl HasAccountAdjustmentBalanceAverageEntryPrice for PopulatedAccountAdjustmentOperation {
    fn balance_average_entry_price(&self) -> (r: Result<Option<Price>, RequestFieldAccessError>)
        ensures
            r == self.spec_balance_average_entry_price(),
    {
        match self {
            PopulatedAccountAdjustmentOperation::Balance(op) => Ok(op.average_entry_price),
            PopulatedAccountAdjustmentOperation::Position(_) => Ok(None),
            PopulatedAccountAdjustmentOperation::AccountPnl(_) => Ok(None),
        }
    }
}

impl HasPositionInstrument for PopulatedAccountAdjustmentOperation {
    fn position_instrument(&self) -> (r: Result<&Instrument, RequestFieldAccessError>)
        ensures
            r == self.spec_position_instrument(),
    {
        match self {
            PopulatedAccountAdjustmentOperation::Position(op) => match &op.instrument {
                Some(instrument) => Ok(instrument),
                None => Err(RequestFieldAccessError::new("operation.position_instrument")),
            },
            PopulatedAccountAdjustmentOperation::Balance(_) => Err(
                RequestFieldAccessError::new("operation.position_instrument"),
            ),
            PopulatedAccountAdjustmentOperation::AccountPnl(_) => Err(
                RequestFieldAccessError::new("operation.position_instrument"),
            ),
        }
    }
}

impl HasCollateralAsset for PopulatedAccountAdjustmentOperation {
    fn collateral_asset(&self) -> (r: Result<&Asset, RequestFieldAccessError>)
        ensures
            r == self.spec_collateral_asset(),
    {
        match self {
            PopulatedAccountAdjustmentOperation::Position(op) => match &op.collateral_asset {
                Some(asset) => Ok(asset),
                None => Err(RequestFieldAccessError::new("operation.collateral_asset")),
            },
            PopulatedAccountAdjustmentOperation::Balance(_) => Err(
                RequestFieldAccessError::new("operation.collateral_asset"),
            ),
            PopulatedAccountAdjustmentOperation::AccountPnl(_) => Err(
                RequestFieldAccessError::new("operation.collateral_asset"),
            ),
        }
    }
}

impl HasAverageEntryPrice for PopulatedAccountAdjustmentOperation {
    fn average_entry_price(&self) -> (r: Result<Price, RequestFieldAccessError>)
        ensures
            r == self.spec_average_entry_price(),
    {
        match self {
            PopulatedAccountAdjustmentOperation::Position(op) => match op.average_entry_price {
                Some(price) => Ok(price),
                None => Err(RequestFieldAccessError::new("operation.average_entry_price")),
            },
            PopulatedAccountAdjustmentOperation::Balance(_) => Err(
                RequestFieldAccessError::new("operation.average_entry_price"),
            ),
            PopulatedAccountAdjustmentOperation::AccountPnl(_) => Err(
                RequestFieldAccessError::new("operation.average_entry_price"),
            ),
        }
    }
}

impl HasPositionMode for PopulatedAccountAdjustmentOperation {
    fn position_mode(&self) -> (r: Result<PositionMode, RequestFieldAccessError>)
        ensures
            r == self.spec_position_mode(),
    {
        match self {
            PopulatedAccountAdjustmentOperation::Position(op) => match op.mode {
                Some(mode) => Ok(mode),
                None => Err(RequestFieldAccessError::new("operation.position_mode")),
            },
            PopulatedAccountAdjustmentOperation::Balance(_) => Err(
                RequestFieldAccessError::new("operation.position_mode"),
            ),
            PopulatedAccountAdjustmentOperation::AccountPnl(_) => Err(
                RequestFieldAccessError::new("operation.position_mode"),
            ),
        }
    }
}

impl HasAccountAdjustmentPositionLeverage for PopulatedAccountAdjustmentOperation {
    fn position_leverage(&self) -> (r: Result<Option<Leverage>, RequestFieldAccessError>)
        ensures
            r == self.spec_position_leverage(),
    {
        match self {
            PopulatedAccountAdjustmentOperation::Position(op) => Ok(op.leverage),
            PopulatedAccountAdjustmentOperation::Balance(_) => Ok(None),
            PopulatedAccountAdjustmentOperation::AccountPnl(_) => Ok(None),
        }
    }
}

impl HasAccountAdjustmentPnlOperation for PopulatedAccountAdjustmentOperation {
    fn account_adjustment_pnl_operation(&self) -> (r: Result<Option<PnlState>, RequestFieldAccessError>)
        ensures
            r == self.spec_account_pnl_operation(),
    {
        match self {
            PopulatedAccountAdjustmentOperation::Balance(_) => Ok(None),
            PopulatedAccountAdjustmentOperation::Position(_) => Ok(None),
            PopulatedAccountAdjustmentOperation::AccountPnl(op) => Ok(Some(op.state)),
        }
    }
}

/// Runtime access to an account adjustment's operation group.
#[derive(Clone, Debug, PartialEq, Eq)]
pub enum AccountAdjustmentOperationAccess {
    /// The operation group is present.
    Populated(PopulatedAccountAdjustmentOperation),
    /// The operation group is absent.
    Absent,
}

impl AccountAdjustmentOperationAccess {
    /// What the matching reader returns.
    pub open spec fn spec_balance(&self) -> Result<Option<AdjustmentAmount>, RequestFieldAccessError> {
        Ok(None)
    }

    /// What the matching reader returns.
    pub open spec fn spec_balance_realized_pnl(&self) -> Result<Option<PnlState>, RequestFieldAccessError> {
        match self {
            AccountAdjustmentOperationAccess::Populated(op) => op.spec_balance_realized_pnl(),
            AccountAdjustmentOperationAccess::Absent => Ok(None),
        }
    }

    /// What the matching reader returns.
    pub open spec fn spec_balance_asset(&self) -> Result<&Asset, RequestFieldAccessError> {
        match self {
            AccountAdjustmentOperationAccess::Populated(op) => op.spec_balance_asset(),
            AccountAdjustmentOperationAccess::Absent => missing("operation.balance_asset"),
        }
    }

    /// What the matching reader returns.
    pub open spec fn spec_balance_average_entry_price(&self) -> Result<Option<Price>, RequestFieldAccessError> {
        match self {
            AccountAdjustmentOperationAccess::Populated(op) => op.spec_balance_average_entry_price(),
            AccountAdjustmentOperationAccess::Absent => Ok(None),
        }
    }

    /// What the matching reader returns.
    pub open spec fn spec_position_instrument(&self) -> Result<&Instrument, RequestFieldAccessError> {
        match self {
            AccountAdjustmentOperationAccess::Populated(op) => op.spec_position_instrument(),
            AccountAdjustmentOperationAccess::Absent => missing("operation.position_instrument"),
        }
    }

    /// What the matching reader returns.
    pub open spec fn spec_collateral_asset(&self) -> Result<&Asset, RequestFieldAccessError> {
        match self {
            AccountAdjustmentOperationAccess::Populated(op) => op.spec_collateral_asset(),
            AccountAdjustmentOperationAccess::Absent => missing("operation.collateral_asset"),
        }
    }

    /// What the matching reader returns.
    pub open spec fn spec_average_entry_price(&self) -> Result<Price, RequestFieldAccessError> {
        match self {
            AccountAdjustmentOperationAccess::Populated(op) => op.spec_average_entry_price(),
            AccountAdjustmentOperationAccess::Absent => missing("operation.average_entry_price"),
        }
    }

    /// What the matching reader returns.
    pub open spec fn spec_position_mode(&self) -> Result<PositionMode, RequestFieldAccessError> {
        match self {
            AccountAdjustmentOperationAccess::Populated(op) => op.spec_position_mode(),
            AccountAdjustmentOperationAccess::Absent => missing("operation.position_mode"),
        }
    }

    /// What the matching reader returns.
    pub open spec fn spec_position_leverage(&self) -> Result<Option<Leverage>, RequestFieldAccessError> {
        match self {
            AccountAdjustmentOperationAccess::Populated(op) => op.spec_position_leverage(),
            AccountAdjustmentOperationAccess::Absent => Ok(None),
        }
    }

    /// What the matching reader returns.
    pub open spec fn spec_account_pnl_operation(&self) -> Result<Option<PnlState>, RequestFieldAccessError> {
        match self {
            AccountAdjustmentOperationAccess::Populated(op) => op.spec_account_pnl_operation(),
            AccountAdjustmentOperationAccess::Absent => Ok(None),
        }
    }
}

impl HasAccountAdjustmentBalance for AccountAdjustmentOperationAccess {
    fn balance(&self) -> (r: Result<Option<AdjustmentAmount>, RequestFieldAccessError>)
        ensures
            r == self.spec_balance(),
    {
        Ok(None)
    }

    fn balance_realized_pnl(&self) -> (r: Result<Option<PnlState>, RequestFieldAccessError>)
        ensures
            r == self.spec_balance_realized_pnl(),
    {
        match self {
            AccountAdjustmentOperationAccess::Populated(op) => op.balance_realized_pnl(),
            AccountAdjustmentOperationAccess::Absent => Ok(None),
        }
    }
}

impl HasBalanceAsset for AccountAdjustmentOperationAccess {
    fn balance_asset(&self) -> (r: Result<&Asset, RequestFieldAccessError>)
        ensures
            r == self.spec_balance_asset(),
    {
        match self {
            AccountAdjustmentOperationAccess::Populated(op) => op.balance_asset(),
            AccountAdjustmentOperationAccess::Absent => Err(RequestFieldAccessError::new("operation.balance_asset")),
        }
    }
}

impl HasAccountAdjustmentBalanceAverageEntryPrice for AccountAdjustmentOperationAccess {
    fn balance_average_entry_price(&self) -> (r: Result<Option<Price>, RequestFieldAccessError>)
        ensures
            r == self.spec_balance_average_entry_price(),
    {
        match self {
            AccountAdjustmentOperationAccess::Populated(op) => op.balance_average_entry_price(),
            AccountAdjustmentOperationAccess::Absent => Ok(None),
        }
    }
}

impl HasPositionInstrument for AccountAdjustmentOperationAccess {
    fn position_instrument(&self) -> (r: Result<&Instrument, RequestFieldAccessError>)
        ensures
            r == self.spec_position_instrument(),
    {
        match self {
            AccountAdjustmentOperationAccess::Populated(op) => op.position_instrument(),
            AccountAdjustmentOperationAccess::Absent => Err(RequestFieldAccessError::new("operation.position_instrument")),
        }
    }
}

impl HasCollateralAsset for AccountAdjustmentOperationAccess {
    fn collateral_asset(&self) -> (r: Result<&Asset, RequestFieldAccessError>)
        ensures
            r == self.spec_collateral_asset(),
    {
        match self {
            AccountAdjustmentOperationAccess::Populated(op) => op.collateral_asset(),
            AccountAdjustmentOperationAccess::Absent => Err(RequestFieldAccessError::new("operation.collateral_asset")),
        }
    }
}

impl HasAverageEntryPrice for AccountAdjustmentOperationAccess {
    fn average_entry_price(&self) -> (r: Result<Price, RequestFieldAccessError>)
        ensures
            r == self.spec_average_entry_price(),
    {
        match self {
            AccountAdjustmentOperationAccess::Populated(op) => op.average_entry_price(),
            AccountAdjustmentOperationAccess::Absent => Err(RequestFieldAccessError::new("operation.average_entry_price")),
        }
    }
}

impl HasPositionMode for AccountAdjustmentOperationAccess {
    fn position_mode(&self) -> (r: Result<PositionMode, RequestFieldAccessError>)
        ensures
            r == self.spec_position_mode(),
    {
        match self {
            AccountAdjustmentOperationAccess::Populated(op) => op.position_mode(),
            AccountAdjustmentOperationAccess::Absent => Err(RequestFieldAccessError::new("operation.position_mode")),
        }
    }
}

impl HasAccountAdjustmentPositionLeverage for AccountAdjustmentOperationAccess {
    fn position_leverage(&self) -> (r: Result<Option<Leverage>, RequestFieldAccessError>)
        ensures
            r == self.spec_position_leverage(),
    {
        match self {
            AccountAdjustmentOperationAccess::Populated(op) => op.position_leverage(),
            AccountAdjustmentOperationAccess::Absent => Ok(None),
        }
    }
}

impl HasAccountAdjustmentPnlOperation for AccountAdjustmentOperationAccess {
    fn account_adjustment_pnl_operation(&self) -> (r: Result<Option<PnlState>, RequestFieldAccessError>)
        ensures
            r == self.spec_account_pnl_operation(),
    {
        match self {
            AccountAdjustmentOperationAccess::Populated(op) => op.account_adjustment_pnl_operation(),
            AccountAdjustmentOperationAccess::Absent => Ok(None),
        }
    }
}

} // verus!
