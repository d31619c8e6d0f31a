use kraken_signer::dec::{format_i64, format_u128};
use kraken_signer::order::{
    order_params, AddOrderResponse, ApiResponse, NewOrder, OrderDirection, OrderType,
    ResponseError,
};
use kraken_signer::params::ParameterSet;

fn b(s: &str) -> Vec<u8> {
    s.as_bytes().to_vec()
}

#[test]
fn encode_empty_set_is_empty() {
    let p = ParameterSet::new();
    assert_eq!(p.encode(), Vec::<u8>::new());
    assert_eq!(p.len(), 0);
}

#[test]
fn encode_joins_pairs_without_trailing_separator() {
    let mut p = ParameterSet::new();
    p.insert(b("pair"), b("XBTUSD"));
    p.insert(b("type"), b("buy"));
    assert_eq!(p.encode(), b("pair=XBTUSD&type=buy"));
}

#[test]
fn encode_is_deterministic() {
    let mut p = ParameterSet::new();
    p.insert(b("volume"), b("2"));
    p.insert(b("pair"), b("SOLUSD"));
    assert_eq!(p.encode(), p.encode());
}

#[test]
fn encode_ignores_insertion_order() {
    let mut p1 = ParameterSet::new();
    p1.insert(b("pair"), b("XBTUSD"));
    p1.insert(b("type"), b("buy"));
    p1.insert(b("volume"), b("1.25"));
    let mut p2 = ParameterSet::new();
    p2.insert(b("volume"), b("1.25"));
    p2.insert(b("type"), b("buy"));
    p2.insert(b("pair"), b("XBTUSD"));
    assert_eq!(p1.encode(), p2.encode());
    assert_eq!(p1.encode(), b("pair=XBTUSD&type=buy&volume=1.25"));
}

#[test]
fn encode_passes_values_through_unescaped() {
    let mut p = ParameterSet::new();
    p.insert(b("oflags"), b("fcib,post"));
    p.insert(b("price"), b("154.00"));
    assert_eq!(p.encode(), b("oflags=fcib,post&price=154.00"));
}

#[test]
fn insert_replaces_existing_value() {
    let mut p = ParameterSet::new();
    p.insert(b("pair"), b("XBTUSD"));
    p.insert(b("pair"), b("SOLUSD"));
    assert_eq!(p.encode(), b("pair=SOLUSD"));
    assert_eq!(p.len(), 1);
    assert!(p.contains_key(&b("pair")));
    assert!(!p.contains_key(&b("volume")));
}

#[test]
fn decimal_rendering_exact() {
    assert_eq!(format_u128(0), b("0"));
    assert_eq!(format_u128(7), b("7"));
    assert_eq!(format_u128(1616492376594), b("1616492376594"));
    assert_eq!(format_i64(-5), b("-5"));
    assert_eq!(format_i64(0), b("0"));
    assert_eq!(format_i64(i64::MIN), b("-9223372036854775808"));
}

#[test]
fn order_type_wire_names() {
    assert_eq!(OrderType::Market.wire_name(), b("market"));
    assert_eq!(OrderType::Limit.wire_name(), b("limit"));
    assert_eq!(OrderType::StopLoss.wire_name(), b("stop-loss"));
    assert_eq!(OrderType::TakeProfit.wire_name(), b("take-profit"));
    assert_eq!(OrderType::StopLossLimit.wire_name(), b("stop-loss-limit"));
    assert_eq!(OrderType::TakeProfitLimit.wire_name(), b("take-profit-limit"));
    assert_eq!(OrderType::SettlePosition.wire_name(), b("settle-position"));
}

#[test]
fn order_direction_wire_names() {
    assert_eq!(OrderDirection::Buy.wire_name(), b("buy"));
    assert_eq!(OrderDirection::Sell.wire_name(), b("sell"));
}

#[test]
fn order_params_full_order() {
    let order = NewOrder {
        pair: b("XBTUSD"),
        order_direction: OrderDirection::Sell,
        order_type: OrderType::StopLossLimit,
        price: Some(b("37500")),
        price2: Some(b("37400")),
        volume: Some(b("1.25")),
        leverage: Some(b("2")),
        oflags: Some(b("fcib")),
        starttm: Some(0),
        expiretm: Some(-30),
        userref: Some(b("101")),
        validate: Some(false),
    };
    let p = order_params(order);
    assert_eq!(
        p.encode(),
        b("expiretm=-30&leverage=2&oflags=fcib&ordertype=stop-loss-limit&pair=XBTUSD&price=37500&price2=37400&starttm=0&type=sell&userref=101&validate=1&volume=1.25")
    );
}

#[test]
fn order_params_minimal_order() {
    let order = NewOrder {
        pair: b("DOTUSD"),
        order_direction: OrderDirection::Buy,
        order_type: OrderType::Market,
        price: None,
        price2: None,
        volume: None,
        leverage: None,
        oflags: None,
        starttm: None,
        expiretm: None,
        userref: None,
        validate: None,
    };
    let p = order_params(order);
    assert_eq!(p.encode(), b("ordertype=market&pair=DOTUSD&type=buy"));
}

#[test]
fn into_result_success() {
    let resp: ApiResponse<u32> = ApiResponse {
        result: Some(7),
        error: Vec::new(),
    };
    assert!(matches!(resp.into_result(), Ok(7)));
}

#[test]
fn into_result_service_error() {
    let resp: ApiResponse<u32> = ApiResponse {
        result: Some(7),
        error: vec![String::from("EAPI:Invalid nonce")],
    };
    match resp.into_result() {
        Err(ResponseError::Service(errs)) => {
            assert_eq!(errs, vec![String::from("EAPI:Invalid nonce")]);
        }
        other => panic!("expected a service error, got {:?}", other.is_ok()),
    }
}

#[test]
fn into_result_missing_result() {
    let resp: ApiResponse<AddOrderResponse> = ApiResponse {
        result: None,
        error: Vec::new(),
    };
    assert!(matches!(
        resp.into_result(),
        Err(ResponseError::MissingResult)
    ));
}
