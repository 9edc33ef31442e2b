use binance_client::encode::{
    canonical_query, i64_dec, percent_encode, to_hex_lower, u64_dec, Param,
};

fn param(key: &[u8], value: &[u8]) -> Param {
    Param { key: key.to_vec(), value: value.to_vec() }
}

#[test]
fn percent_encode_keeps_unreserved_bytes() {
    let r = percent_encode(b"AZaz09-_.~");
    assert_eq!(r, b"AZaz09-_.~".to_vec());
}

#[test]
fn percent_encode_escapes_reserved_bytes() {
    let r = percent_encode(b"a b/c&d=e");
    assert_eq!(r, b"a%20b%2Fc%26d%3De".to_vec());
}

#[test]
fn percent_encode_uses_uppercase_hex() {
    let r = percent_encode(&[0xFFu8, 0x0A]);
    assert_eq!(r, b"%FF%0A".to_vec());
}

#[test]
fn u64_dec_exact_values() {
    assert_eq!(u64_dec(0), b"0".to_vec());
    assert_eq!(u64_dec(7), b"7".to_vec());
    assert_eq!(u64_dec(1499827319559), b"1499827319559".to_vec());
    assert_eq!(u64_dec(u64::MAX), b"18446744073709551615".to_vec());
}

#[test]
fn i64_dec_exact_values() {
    assert_eq!(i64_dec(0), b"0".to_vec());
    assert_eq!(i64_dec(-42), b"-42".to_vec());
    assert_eq!(i64_dec(i64::MIN), b"-9223372036854775808".to_vec());
}

#[test]
fn to_hex_lower_exact_values() {
    assert_eq!(to_hex_lower(&[0xBEu8, 0xEF, 0x00, 0x1a]), b"beef001a".to_vec());
    assert_eq!(to_hex_lower(&[]), b"".to_vec());
}

#[test]
fn canonical_query_joins_pairs_in_order() {
    let params = vec![
        param(b"symbol", b"BTCUSDT"),
        param(b"orderId", b"42"),
    ];
    let q = canonical_query(&params);
    assert_eq!(q, b"symbol=BTCUSDT&orderId=42".to_vec());
}

#[test]
fn canonical_query_empty_is_empty() {
    let params: Vec<Param> = Vec::new();
    assert_eq!(canonical_query(&params), Vec::<u8>::new());
}

#[test]
fn canonical_query_encodes_values_not_keys() {
    let params = vec![param(b"note", b"a b")];
    assert_eq!(canonical_query(&params), b"note=a%20b".to_vec());
}

#[test]
fn canonical_query_is_deterministic() {
    let mk = || {
        vec![
            param(b"symbol", b"LTCBTC"),
            param(b"side", b"BUY"),
            param(b"price", b"0.1"),
        ]
    };
    let a = canonical_query(&mk());
    let b = canonical_query(&mk());
    assert_eq!(a, b);
}
