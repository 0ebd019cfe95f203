//! Identifiers and reference values shared by the whole library.
use vstd::prelude::*;
use vstd::string::*;
use crate::decimal::{decimal_of, is_decimal_text, Decimal, ParseDecimalError};

verus! {

/// Identity of a trading account.
#[derive(Clone, Copy, Debug, PartialEq, Eq, Hash, PartialOrd, Ord, Structural)]
pub struct AccountId(pub u64);

impl AccountId {
    /// Wraps a raw account number.
    pub fn from_u64(id: u64) -> (r: AccountId)
        ensures
            r.0 == id,
    {
        AccountId(id)
    }

    /// Returns the raw account number.
    pub fn as_u64(self) -> (r: u64)
        ensures
            r == self.0,
    {
        self.0
    }

    /// The raw account number, for contracts.
    pub open spec fn id(self) -> u64 {
        self.0
    }
}

/// Raw value reserved for the implicit default account group.
pub const DEFAULT_ACCOUNT_GROUP_RAW: u32 = 0;

/// Identity of an account group. The raw value `0` is the reserved default group,
/// to which every account belongs implicitly.
#[derive(Clone, Copy, Debug, PartialEq, Eq, Hash, PartialOrd, Ord, Structural)]
pub struct AccountGroupId(pub u32);

/// Error returned when a raw account-group number cannot name an explicit group.
#[derive(Clone, Copy, Debug, PartialEq, Eq, Structural)]
pub struct InvalidAccountGroupId {
    /// The rejected raw value.
    pub value: u32,
}

impl AccountGroupId {
    /// Builds an explicit group identity; the reserved default value is refused.
    pub fn from_u32(id: u32) -> (r: Result<AccountGroupId, InvalidAccountGroupId>)
        ensures
            id == DEFAULT_ACCOUNT_GROUP_RAW <==> r is Err,
            r matches Ok(g) ==> g.0 == id,
            r matches Err(e) ==> e.value == id,
    {
        if id == DEFAULT_ACCOUNT_GROUP_RAW {
            Err(InvalidAccountGroupId { value: id })
        } else {
            Ok(AccountGroupId(id))
        }
    }

    /// Returns the raw group number.
    pub fn as_u32(self) -> (r: u32)
        ensures
            r == self.0,
    {
        self.0
    }

    /// The raw group number, for contracts.
    pub open spec fn id(self) -> u32 {
        self.0
    }

    /// Whether this is the reserved default group.
    pub open spec fn is_default(self) -> bool {
        self.0 == DEFAULT_ACCOUNT_GROUP_RAW
    }

    /// Whether this is the reserved default group.
    pub fn is_default_group(self) -> (r: bool)
        ensures
            r == self.is_default(),
    {
        self.0 == DEFAULT_ACCOUNT_GROUP_RAW
    }
}

/// The reserved default account group.
pub fn default_account_group() -> (g: AccountGroupId)
    ensures
        g.is_default(),
{
    AccountGroupId(DEFAULT_ACCOUNT_GROUP_RAW)
}

/// Error returned for a malformed asset code.
#[derive(Clone, Copy, Debug, PartialEq, Eq, Structural)]
pub enum AssetError {
    /// The code has no characters.
    Empty,
    /// The code holds a character outside printable, non-blank ASCII.
    InvalidCharacter,
}

/// Whether `c` is printable ASCII other than the space.
pub open spec fn is_code_char(c: char) -> bool {
    '!' <= c && c <= '~'
}

/// Whether `s` is a well-formed asset code: non-empty, printable non-blank ASCII.
pub open spec fn is_asset_code(s: Seq<char>) -> bool {
    &&& s.len() > 0
    &&& forall|i: int| 0 <= i < s.len() ==> is_code_char(#[trigger] s[i])
}

/// An asset code such as a currency or a ticker.
#[derive(Clone, Debug, PartialEq, Eq, Hash, PartialOrd, Ord)]
pub struct Asset {
    /// The code text.
    pub code: String,
}

impl View for Asset {
    type V = Seq<char>;

    open spec fn view(&self) -> Seq<char> {
        self.code@
    }
}

impl Asset {
    /// Validates and wraps an asset code.
    pub fn new(code: &str) -> (r: Result<Asset, AssetError>)
        ensures
            r is Ok <==> is_asset_code(code@),
            r matches Ok(a) ==> a@ == code@,
            code@.len() == 0 ==> r == Err::<Asset, AssetError>(AssetError::Empty),
            code@.len() > 0 && !is_asset_code(code@) ==> r == Err::<Asset, AssetError>(
                AssetError::InvalidCharacter,
            ),
    {
        let n = code.unicode_len();
        if n == 0 {
            return Err(AssetError::Empty);
        }
        let mut i: usize = 0;
        while i < n
            invariant
                n == code@.len(),
                i <= n,
                forall|j: int| 0 <= j < i ==> is_code_char(#[trigger] code@[j]),
            decreases n - i,
        {
            let c = code.get_char(i);
            if !('!' <= c && c <= '~') {
                return Err(AssetError::InvalidCharacter);
            }
            i += 1;
        }
        Ok(Asset { code: code.to_owned() })
    }

    /// Returns the code text.
    pub fn as_str(&self) -> (r: &str)
        ensures
            r@ == self@,
    {
        self.code.as_str()
    }

    /// Returns an equal copy of this asset.
    pub fn duplicate(&self) -> (r: Asset)
        ensures
            r == *self,
    {
        Asset { code: self.code.clone() }
    }

    /// Compares two assets by their codes.
    pub fn same_as(&self, other: &Asset) -> (r: bool)
        ensures
            r == (self@ == other@),
    {
        self.code == other.code
    }
}

} // verus!

verus! {

/// A tradable instrument: the underlying asset quoted in a settlement asset.
#[derive(Clone, Debug, PartialEq, Eq, Hash, PartialOrd, Ord)]
pub struct Instrument {
    /// Traded asset.
    pub underlying_asset: Asset,
    /// Asset the instrument is priced and settled in.
    pub settlement_asset: Asset,
}

impl View for Instrument {
    type V = (Seq<char>, Seq<char>);

    open spec fn view(&self) -> (Seq<char>, Seq<char>) {
        (self.underlying_asset@, self.settlement_asset@)
    }
}

impl Instrument {
    /// Pairs an underlying asset with its settlement asset.
    pub fn new(underlying_asset: Asset, settlement_asset: Asset) -> (r: Instrument)
        ensures
            r.underlying_asset == underlying_asset,
            r.settlement_asset == settlement_asset,
    {
        Instrument { underlying_asset, settlement_asset }
    }

    /// Returns an equal copy of this instrument.
    pub fn duplicate(&self) -> (r: Instrument)
        ensures
            r == *self,
    {
        Instrument {
            underlying_asset: self.underlying_asset.duplicate(),
            settlement_asset: self.settlement_asset.duplicate(),
        }
    }

    /// Compares two instruments leg by leg.
    pub fn same_as(&self, other: &Instrument) -> (r: bool)
        ensures
            r == (self@ == other@),
    {
        self.underlying_asset.same_as(&other.underlying_asset)
            && self.settlement_asset.same_as(&other.settlement_asset)
    }
}

} // verus!

verus! {

/// A price per unit of the underlying asset.
#[derive(Clone, Copy, Debug, PartialEq, Eq, Hash, Structural)]
pub struct Price(pub Decimal);

impl Price {
    /// Parses the decimal text of a price.
    pub fn from_str(text: &str) -> (r: Result<Price, ParseDecimalError>)
        ensures
            r is Ok <==> is_decimal_text(text@),
            r matches Ok(v) ==> (v.0.mantissa as int, v.0.scale as nat) == decimal_of(text@),
    {
        match Decimal::parse(text) {
            Ok(d) => Ok(Price(d)),
            Err(e) => Err(e),
        }
    }

    /// The exact decimal value.
    pub fn to_decimal(self) -> (r: Decimal)
        ensures
            r == self.0,
    {
        self.0
    }
}

/// An amount of the underlying asset.
#[derive(Clone, Copy, Debug, PartialEq, Eq, Hash, Structural)]
pub struct Quantity(pub Decimal);

impl Quantity {
    /// Parses the decimal text of a quantity.
    pub fn from_str(text: &str) -> (r: Result<Quantity, ParseDecimalError>)
        ensures
            r is Ok <==> is_decimal_text(text@),
            r matches Ok(v) ==> (v.0.mantissa as int, v.0.scale as nat) == decimal_of(text@),
    {
        match Decimal::parse(text) {
            Ok(d) => Ok(Quantity(d)),
            Err(e) => Err(e),
        }
    }

    /// The exact decimal value.
    pub fn to_decimal(self) -> (r: Decimal)
        ensures
            r == self.0,
    {
        self.0
    }
}

/// An amount of the settlement asset.
#[derive(Clone, Copy, Debug, PartialEq, Eq, Hash, Structural)]
pub struct Volume(pub Decimal);

impl Volume {
    /// Parses the decimal text of a volume.
    pub fn from_str(text: &str) -> (r: Result<Volume, ParseDecimalError>)
        ensures
            r is Ok <==> is_decimal_text(text@),
            r matches Ok(v) ==> (v.0.mantissa as int, v.0.scale as nat) == decimal_of(text@),
    {
        match Decimal::parse(text) {
            Ok(d) => Ok(Volume(d)),
            Err(e) => Err(e),
        }
    }

    /// The exact decimal value.
    pub fn to_decimal(self) -> (r: Decimal)
        ensures
            r == self.0,
    {
        self.0
    }
}

/// A realized profit (positive) or loss (negative).
#[derive(Clone, Copy, Debug, PartialEq, Eq, Hash, Structural)]
pub struct Pnl(pub Decimal);

impl Pnl {
    /// Parses the decimal text of a pnl.
    pub fn from_str(text: &str) -> (r: Result<Pnl, ParseDecimalError>)
        ensures
            r is Ok <==> is_decimal_text(text@),
            r matches Ok(v) ==> (v.0.mantissa as int, v.0.scale as nat) == decimal_of(text@),
    {
        match Decimal::parse(text) {
            Ok(d) => Ok(Pnl(d)),
            Err(e) => Err(e),
        }
    }

    /// The exact decimal value.
    pub fn to_decimal(self) -> (r: Decimal)
        ensures
            r == self.0,
    {
        self.0
    }
}

/// A fee (negative) or rebate (positive).
#[derive(Clone, Copy, Debug, PartialEq, Eq, Hash, Structural)]
pub struct Fee(pub Decimal);

impl Fee {
    /// Parses the decimal text of a fee.
    pub fn from_str(text: &str) -> (r: Result<Fee, ParseDecimalError>)
        ensures
            r is Ok <==> is_decimal_text(text@),
            r matches Ok(v) ==> (v.0.mantissa as int, v.0.scale as nat) == decimal_of(text@),
    {
        match Decimal::parse(text) {
            Ok(d) => Ok(Fee(d)),
            Err(e) => Err(e),
        }
    }

    /// The exact decimal value.
    pub fn to_decimal(self) -> (r: Decimal)
        ensures
            r == self.0,
    {
        self.0
    }
}

/// A signed position or balance size.
#[derive(Clone, Copy, Debug, PartialEq, Eq, Hash, Structural)]
pub struct PositionSize(pub Decimal);

impl PositionSize {
    /// Parses the decimal text of a position size.
    pub fn from_str(text: &str) -> (r: Result<PositionSize, ParseDecimalError>)
        ensures
            r is Ok <==> is_decimal_text(text@),
            r matches Ok(v) ==> (v.0.mantissa as int, v.0.scale as nat) == decimal_of(text@),
    {
        match Decimal::parse(text) {
            Ok(d) => Ok(PositionSize(d)),
            Err(e) => Err(e),
        }
    }

    /// The exact decimal value.
    pub fn to_decimal(self) -> (r: Decimal)
        ensures
            r == self.0,
    {
        self.0
    }
}

/// Direction of an order or a trade.
#[derive(Clone, Copy, Debug, PartialEq, Eq, Hash, Structural)]
pub enum Side {
    /// Acquire the underlying asset.
    Buy,
    /// Dispose of the underlying asset.
    Sell,
}

/// Leg of a hedge-mode position.
#[derive(Clone, Copy, Debug, PartialEq, Eq, Hash, Structural)]
pub enum PositionSide {
    /// The long leg.
    Long,
    /// The short leg.
    Short,
}

/// Whether an execution opened or closed exposure.
#[derive(Clone, Copy, Debug, PartialEq, Eq, Hash, Structural)]
pub enum PositionEffect {
    /// The execution opened or increased exposure.
    Open,
    /// The execution reduced or closed exposure.
    Close,
}

/// How positions of one instrument are represented.
#[derive(Clone, Copy, Debug, PartialEq, Eq, Hash, Structural)]
pub enum PositionMode {
    /// One net position per instrument.
    Netting,
    /// Separate long and short legs.
    Hedged,
}

/// Error returned for a leverage of zero.
#[derive(Clone, Copy, Debug, PartialEq, Eq, Structural)]
pub struct InvalidLeverage {
    /// The rejected raw value.
    pub value: u16,
}

/// A leverage multiplier; never zero.
#[derive(Clone, Copy, Debug, PartialEq, Eq, Hash, Structural)]
pub struct Leverage(u16);

impl Leverage {
    /// The multiplier, for contracts.
    pub closed spec fn spec_value(self) -> u16 {
        self.0
    }

    /// Builds a leverage; zero is refused.
    pub fn from_u16(value: u16) -> (r: Result<Leverage, InvalidLeverage>)
        ensures
            r is Ok <==> value > 0,
            r matches Ok(l) ==> l.spec_value() == value,
            r matches Err(e) ==> e.value == value,
    {
        if value == 0 {
            Err(InvalidLeverage { value })
        } else {
            Ok(Leverage(value))
        }
    }

    /// The multiplier.
    pub fn value(self) -> (r: u16)
        ensures
            r == self.spec_value(),
            r > 0,
    {
        proof {
            use_type_invariant(self);
        }
        self.0
    }

    #[verifier::type_invariant]
    spec fn is_nonzero(self) -> bool {
        self.0 > 0
    }
}

/// The size of an order, in the underlying or in the settlement asset.
#[derive(Clone, Copy, Debug, PartialEq, Eq, Hash, Structural)]
pub enum TradeAmount {
    /// An amount of the underlying asset.
    Quantity(Quantity),
    /// An amount of the settlement asset.
    Volume(Volume),
}

/// How an adjustment changes a balance or position field.
#[derive(Clone, Copy, Debug, PartialEq, Eq, Hash, Structural)]
pub enum AdjustmentAmount {
    /// Add this signed amount to the current value.
    Delta(PositionSize),
    /// Replace the current value with this one.
    Absolute(PositionSize),
}

/// One executed trade.
#[derive(Clone, Copy, Debug, PartialEq, Eq, Hash, Structural)]
pub struct Trade {
    /// Execution price.
    pub price: Price,
    /// Executed amount of the underlying asset.
    pub quantity: Quantity,
}

} // verus!
