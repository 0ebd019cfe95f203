use openpit::order::{OrderOperation, OrderPosition, WithOrderOperation, WithOrderPosition};
use openpit::param::{AccountId, Asset, Instrument, Quantity, Side, TradeAmount};
use openpit::request_trait::{HasAccountId, HasInstrument, HasSide};

fn operation() -> OrderOperation {
    OrderOperation {
        instrument: Instrument::new(
            Asset::new("BTC").expect("must be valid"),
            Asset::new("USD").expect("must be valid"),
        ),
        account_id: AccountId::from_u64(99224416),
        side: Side::Buy,
        trade_amount: TradeAmount::Quantity(Quantity::from_str("1").expect("must be valid")),
        price: None,
    }
}

#[test]
fn deref_dispatch_calls_method_on_target() {
    let boxed: Box<OrderOperation> = Box::new(operation());
    assert_eq!(boxed.side(), Ok(Side::Buy));
}

#[test]
fn impl_request_has_field_generates_ref_and_owned_accessors() {
    let base = operation();
    let instrument = base.instrument.clone();
    assert_eq!(base.instrument(), Ok(&instrument));
    assert_eq!(base.side(), Ok(Side::Buy));

    let wrapped = WithOrderOperation {
        inner: (),
        operation: base.clone(),
    };
    assert_eq!(wrapped.instrument(), Ok(&instrument));
    assert_eq!(wrapped.side(), Ok(Side::Buy));
}

#[test]
fn impl_request_has_field_passthrough_delegates_for_ref_and_owned_forms() {
    let inner = operation();
    let instrument = inner.instrument.clone();
    let wrapped = WithOrderPosition {
        inner,
        position: OrderPosition::default(),
    };
    assert_eq!(wrapped.instrument(), Ok(&instrument));
    assert_eq!(wrapped.account_id(), Ok(AccountId::from_u64(99224416)));
}
