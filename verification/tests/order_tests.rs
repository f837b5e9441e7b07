use quantgrad::instruments::AveragingMethod;
use quantgrad::instruments::Currency;
use quantgrad::instruments::InstrumentType;
use quantgrad::instruments::PyAsianStrike;
use quantgrad::instruments::PyCommonStock;
use quantgrad::orders::PyOrder;

#[test]
fn order_constructor_keeps_fields() {
    let order = PyOrder::new(42, true, 100, 10_050, 1_700_000_123);
    assert_eq!(order.order_id, 42);
    assert!(order.is_buy);
    assert_eq!(order.shares, 100);
    assert_eq!(order.limit, 10_050);
    assert_eq!(order.timestamp, 1_700_000_123);
}

#[test]
fn instrument_enums_compare() {
    assert_eq!(PyAsianStrike::Fixed, PyAsianStrike::Fixed);
    assert_ne!(PyAsianStrike::Fixed, PyAsianStrike::Floating);
    assert_ne!(
        AveragingMethod::GeometricContinuous,
        AveragingMethod::ArithmeticDiscrete
    );
}

#[test]
fn common_stock_record() {
    let stock = PyCommonStock {
        instrument_type: InstrumentType::Stock,
        ticker: String::from("ACME"),
        name: String::from("Acme Corp"),
        currency: Currency { code: String::from("USD") },
        ISIN: String::from("US0000000000"),
    };
    assert_eq!(stock.ticker, "ACME");
    assert_eq!(stock.currency.code, "USD");
    assert_eq!(stock.instrument_type, InstrumentType::Stock);
}
