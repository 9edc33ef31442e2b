use binance_client::decode::{decode_error, decode_order_response, decode_server_time};
use binance_client::errors::BinanceError;
use binance_client::model::{OrderStatus, ServerTime};

fn order_body() -> Vec<u8> {
    br#"{
        "orderId": 1,
        "symbol": "BTCUSDT",
        "status": "NEW",
        "clientOrderId": "testOrder",
        "price": "0",
        "avgPrice": "0.00000",
        "origQty": "10",
        "executedQty": "0",
        "cumQty": "0",
        "cumQuote": "0",
        "timeInForce": "GTC",
        "type": "MARKET",
        "reduceOnly": false,
        "closePosition": false,
        "side": "BUY",
        "positionSide": "SHORT",
        "stopPrice": "9300",
        "workingType": "CONTRACT_PRICE",
        "priceProtect": "false",
        "origType": "TRAILING_STOP_MARKET",
        "updateTime": 1566818724722
    }"#
    .to_vec()
}

#[test]
fn success_body_decodes_into_exact_structure() {
    let r = decode_order_response(200, &order_body()).unwrap();
    assert_eq!(r.order_id, 1);
    assert_eq!(r.symbol, b"BTCUSDT".to_vec());
    assert_eq!(r.status, OrderStatus::New);
    assert_eq!(r.client_order_id, b"testOrder".to_vec());
    assert_eq!(r.price, b"0".to_vec());
    assert_eq!(r.avg_price, b"0.00000".to_vec());
    assert_eq!(r.orig_qty, b"10".to_vec());
    assert_eq!(r.executed_qty, b"0".to_vec());
    assert_eq!(r.cum_qty, b"0".to_vec());
    assert_eq!(r.cum_quote, b"0".to_vec());
    assert_eq!(r.time_in_force, b"GTC".to_vec());
    assert_eq!(r.type_field, b"MARKET".to_vec());
    assert!(!r.reduce_only);
    assert!(!r.close_position);
    assert_eq!(r.side, b"BUY".to_vec());
    assert_eq!(r.position_side, b"SHORT".to_vec());
    assert_eq!(r.stop_price, b"9300".to_vec());
    assert_eq!(r.working_type, b"CONTRACT_PRICE".to_vec());
    assert_eq!(r.price_protect, b"false".to_vec());
    assert_eq!(r.orig_type, b"TRAILING_STOP_MARKET".to_vec());
    assert_eq!(r.update_time, 1566818724722);
}

#[test]
fn exchange_error_envelope_maps_to_exchange_error() {
    let body = br#"{"code":-1121,"msg":"Invalid symbol."}"#;
    let e = decode_error(body);
    assert_eq!(e, BinanceError::Exchange { code: -1121, message: b"Invalid symbol.".to_vec() });
    let r = decode_order_response(400, body);
    assert_eq!(
        r.unwrap_err(),
        BinanceError::Exchange { code: -1121, message: b"Invalid symbol.".to_vec() }
    );
}

#[test]
fn failure_body_without_envelope_is_a_decode_error() {
    let body = b"gateway exploded";
    let e = decode_error(body);
    assert_eq!(e, BinanceError::Decode { body: body.to_vec() });
}

#[test]
fn missing_required_field_is_a_decode_error_not_a_default() {
    // Same conforming body, with the required orderId field removed.
    let body = String::from_utf8(order_body())
        .unwrap()
        .replace("\"orderId\": 1,", "");
    let r = decode_order_response(200, body.as_bytes());
    assert_eq!(r.unwrap_err(), BinanceError::Decode { body: body.as_bytes().to_vec() });
}

#[test]
fn unknown_status_token_is_a_decode_error() {
    let body = String::from_utf8(order_body())
        .unwrap()
        .replace("\"NEW\"", "\"HALF_DONE\"");
    let r = decode_order_response(200, body.as_bytes());
    assert_eq!(r.unwrap_err(), BinanceError::Decode { body: body.as_bytes().to_vec() });
}

#[test]
fn type_incompatible_field_is_a_decode_error() {
    let body = String::from_utf8(order_body())
        .unwrap()
        .replace("\"reduceOnly\": false", "\"reduceOnly\": \"no\"");
    let r = decode_order_response(200, body.as_bytes());
    assert_eq!(r.unwrap_err(), BinanceError::Decode { body: body.as_bytes().to_vec() });
}

#[test]
fn server_time_decodes() {
    let r = decode_server_time(200, br#"{"serverTime":1499827319559}"#).unwrap();
    assert_eq!(r, ServerTime { server_time: 1499827319559 });
}

#[test]
fn server_time_failure_maps_to_exchange_error() {
    let r = decode_server_time(500, br#"{"code":-1000,"msg":"UNKNOWN"}"#);
    assert_eq!(
        r.unwrap_err(),
        BinanceError::Exchange { code: -1000, message: b"UNKNOWN".to_vec() }
    );
}
