use binance_client::client::Binance;
use binance_client::request::Method;

#[test]
fn new_client_has_no_credentials() {
    let c = Binance::new();
    assert!(c.credentials.is_none());
    let d = Binance::default();
    assert!(d.credentials.is_none());
}

#[test]
fn with_credential_stores_both_halves() {
    let c = Binance::with_credential("key", "secret");
    let creds = c.credentials.unwrap();
    assert_eq!(creds.api_key, b"key".to_vec());
    assert_eq!(creds.api_secret, b"secret".to_vec());
}

#[test]
fn public_endpoints_build_unauthenticated_gets() {
    let c = Binance::new();
    let ping = c.ping();
    assert_eq!(ping.method, Method::Get);
    assert_eq!(ping.path, b"/fapi/v1/listenKey".to_vec());
    assert!(ping.query.is_empty() && ping.body.is_empty());
    assert!(ping.api_key.is_none() && ping.timestamp.is_none());

    let time = c.get_server_time();
    assert_eq!(time.path, b"/api/v1/time".to_vec());

    let info = c.get_exchange_info();
    assert_eq!(info.path, b"/api/v1/exchangeInfo".to_vec());
    assert_eq!(c.exchange_info(), info);
}

#[test]
fn deposit_history_omits_absent_filters() {
    let c = Binance::with_credential("k", "s");
    let d = c.get_deposit_history(None, None, None).unwrap();
    assert!(d.query.starts_with(b"timestamp="));

    let d = c
        .get_deposit_history(Some("BTC"), Some(1500000000000), Some(1500000100000))
        .unwrap();
    assert!(d
        .query
        .starts_with(b"asset=BTC&startTime=1500000000000&endTime=1500000100000&timestamp="));
}

#[test]
fn deposit_address_and_asset_detail_paths() {
    let c = Binance::with_credential("k", "s");
    let d = c.get_deposit_address("ETH").unwrap();
    assert_eq!(d.path, b"/wapi/v3/depositAddress.html".to_vec());
    assert!(d.query.starts_with(b"asset=ETH&timestamp="));

    let d = c.asset_detail().unwrap();
    assert_eq!(d.path, b"/wapi/v3/assetDetail.html".to_vec());
    assert!(d.query.starts_with(b"timestamp="));

    let d = c.get_all_open_orders().unwrap();
    assert_eq!(d.path, b"/fapi/v1/openOrders".to_vec());

    let d = c.cancel_order("BNBBTC", 28).unwrap();
    assert_eq!(d.method, Method::Delete);
    assert!(d.query.starts_with(b"symbol=BNBBTC&orderId=28&timestamp="));
}
