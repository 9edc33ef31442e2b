use binance_client::client::Binance;
use binance_client::encode::Param;
use binance_client::errors::BinanceError;
use binance_client::request::Method;
use hmac::Mac;

const API_KEY: &str = "vmPUZE6mv9SD5VNHk4HlWFsOr6aKE2zvsw0MuIgwCIPy6utIco14y7Ju91duEh8A";
const SECRET: &str = "NhqPtmdSJYdKjVHjA7PZj4Mge3R5YNiP1e3UZjInClVN65XAbvqqM6A7H5fATj0j";

fn hmac_sha256_hex(key: &[u8], msg: &[u8]) -> Vec<u8> {
    let mut mac = <hmac::Hmac<sha2::Sha256> as Mac>::new_from_slice(key).unwrap();
    mac.update(msg);
    let out = mac.finalize().into_bytes();
    let mut hex = Vec::new();
    for b in out.iter() {
        let digits = b"0123456789abcdef";
        hex.push(digits[(b >> 4) as usize]);
        hex.push(digits[(b & 0x0f) as usize]);
    }
    hex
}

fn param(key: &[u8], value: &[u8]) -> Param {
    Param { key: key.to_vec(), value: value.to_vec() }
}

fn order_params() -> Vec<Param> {
    vec![
        param(b"symbol", b"LTCBTC"),
        param(b"side", b"BUY"),
        param(b"type", b"LIMIT"),
        param(b"timeInForce", b"GTC"),
        param(b"quantity", b"1"),
        param(b"price", b"0.1"),
    ]
}

#[test]
fn signed_query_field_order_and_signature_last() {
    let client = Binance::with_credential(API_KEY, SECRET);
    let d = client
        .signed_request_at(Method::Get, "/fapi/v1/order", order_params(), Some(5000), 1499827319559)
        .unwrap();
    let expected_payload =
        b"symbol=LTCBTC&side=BUY&type=LIMIT&timeInForce=GTC&quantity=1&price=0.1&recvWindow=5000&timestamp=1499827319559";
    let sig = hmac_sha256_hex(SECRET.as_bytes(), expected_payload);
    let mut expected = expected_payload.to_vec();
    expected.extend_from_slice(b"&signature=");
    expected.extend_from_slice(&sig);
    assert_eq!(d.query, expected);
    assert!(d.body.is_empty());
    assert_eq!(d.timestamp, Some(1499827319559));
    assert_eq!(d.api_key, Some(API_KEY.as_bytes().to_vec()));
}

#[test]
fn signature_recomputes_over_transmitted_bytes() {
    let client = Binance::with_credential(API_KEY, SECRET);
    let d = client
        .signed_request_at(Method::Get, "/fapi/v1/account", Vec::new(), None, 1499827319559)
        .unwrap();
    let marker = b"&signature=";
    let pos = d
        .query
        .windows(marker.len())
        .position(|w| w == marker)
        .expect("signature field present");
    let payload = &d.query[..pos];
    let transmitted_sig = &d.query[pos + marker.len()..];
    let recomputed = hmac_sha256_hex(SECRET.as_bytes(), payload);
    assert_eq!(transmitted_sig, recomputed.as_slice());
    // The MAC is a real digest, not the payload handed back.
    assert_ne!(transmitted_sig, payload);
    assert_eq!(transmitted_sig.len(), 64);
}

#[test]
fn post_parameters_travel_in_the_body() {
    let client = Binance::with_credential(API_KEY, SECRET);
    let d = client
        .signed_request_at(Method::Post, "/fapi/v1/order", order_params(), None, 1499827319559)
        .unwrap();
    assert!(d.query.is_empty());
    assert!(d.body.starts_with(b"symbol=LTCBTC&"));
    let marker = b"&signature=";
    assert!(d.body.windows(marker.len()).any(|w| w == marker));
}

#[test]
fn signed_call_without_credentials_is_a_configuration_error() {
    let client = Binance::new();
    let r = client.signed_request(Method::Get, "/fapi/v1/account", Vec::new(), None);
    assert_eq!(r.unwrap_err(), BinanceError::Configuration);
    // Endpoint wrappers fail the same way, before anything reaches a wire.
    assert_eq!(client.get_account().unwrap_err(), BinanceError::Configuration);
    assert_eq!(client.get_open_orders("BTCUSDT").unwrap_err(), BinanceError::Configuration);
    assert_eq!(client.place_order(sample_order()).unwrap_err(), BinanceError::Configuration);
}

fn sample_order() -> binance_client::model::OrderRequest {
    binance_client::model::OrderRequest {
        symbol: "LTCBTC".to_string(),
        side: binance_client::model::Side::Buy,
        position_side: None,
        order_type: binance_client::model::OrderType::Limit,
        time_in_force: Some(binance_client::model::TimeInForce::Gtc),
        quantity: Some("1".to_string()),
        reduce_only: None,
        price: Some("0.1".to_string()),
        new_client_order_id: None,
        stop_price: None,
        close_position: None,
        activation_price: None,
        callback_rate: None,
        working_type: None,
        new_order_resp_type: None,
        recv_window: Some(5000),
        timestamp: 1499827319559,
    }
}

#[test]
fn place_order_serializes_schema_order_and_signs() {
    let client = Binance::with_credential(API_KEY, SECRET);
    let d = client.place_order(sample_order()).unwrap();
    let expected_payload =
        b"symbol=LTCBTC&side=BUY&type=LIMIT&timeInForce=GTC&quantity=1&price=0.1&recvWindow=5000&timestamp=1499827319559";
    let sig = hmac_sha256_hex(SECRET.as_bytes(), expected_payload);
    let mut expected = expected_payload.to_vec();
    expected.extend_from_slice(b"&signature=");
    expected.extend_from_slice(&sig);
    assert_eq!(d.body, expected);
    assert!(d.query.is_empty());
    assert_eq!(d.method, Method::Post);
    assert_eq!(d.path, b"/fapi/v1/order".to_vec());
}

#[test]
fn two_calls_from_one_client_are_independent() {
    let client = Binance::with_credential(API_KEY, SECRET);
    let a = client.order_status("BTCUSDT", 7).unwrap();
    let b = client.trade_history("ETHUSDT").unwrap();
    assert!(a.query.starts_with(b"symbol=BTCUSDT&orderId=7&"));
    assert!(b.query.starts_with(b"symbol=ETHUSDT&"));
    assert_eq!(a.path, b"/fapi/v1/order".to_vec());
    assert_eq!(b.path, b"/fapi/v1/myTrades".to_vec());
}
