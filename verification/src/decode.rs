//! Response decoding and error mapping. The HTTP status is inspected
//! first: a success body decodes into the declared typed result, a failure
//! body is mapped to the exchange's error envelope, and anything that does
//! not match its expected shape surfaces as a decode error carrying the raw
//! bytes — never a default-filled structure.

use vstd::prelude::*;
use vstd::string::*;
use vstd::slice::slice_to_vec;
use crate::errors::{BinanceError, ErrorModel};
use crate::model::{
    order_status_of_token, parse_order_status, OrderResponse, OrderResponseModel, ServerTime,
};

verus! {

/// Whether an HTTP status reports success.
pub open spec fn is_success(status: u16) -> bool {
    200 <= status < 300
}

pub fn status_is_success(status: u16) -> (r: bool)
    ensures
        r == is_success(status),
{
    200 <= status && status < 300
}

/// The integer field named `key` of the JSON object in `body`, when the
/// body parses to an object holding one. A function of the bytes alone.
pub uninterp spec fn json_i64_field_of(body: Seq<u8>, key: Seq<u8>) -> Option<i64>;

/// The string field named `key` of the JSON object in `body`, as UTF-8
/// bytes, when the body parses to an object holding one.
pub uninterp spec fn json_str_field_of(body: Seq<u8>, key: Seq<u8>) -> Option<Seq<u8>>;

/// The boolean field named `key` of the JSON object in `body`, when the
/// body parses to an object holding one.
pub uninterp spec fn json_bool_field_of(body: Seq<u8>, key: Seq<u8>) -> Option<bool>;

/// Relies on `serde_json::from_slice::<Value>`, `Value::get` and
/// `Value::as_i64`: parsing and field lookup are functions of the body and
/// key bytes alone.
#[verifier::external_body]
fn json_i64_field(body: &[u8], key: &str) -> (r: Option<i64>)
    ensures
        r == json_i64_field_of(body@, key.spec_bytes()),
{
    match serde_json::from_slice::<serde_json::Value>(body) {
        Ok(v) => match v.get(key) {
            Some(f) => f.as_i64(),
            None => None,
        },
        Err(_) => None,
    }
}

/// Relies on `serde_json::from_slice::<Value>`, `Value::get` and
/// `Value::as_str`: parsing and field lookup are functions of the body and
/// key bytes alone; the field's characters are handed back as UTF-8 bytes.
#[verifier::external_body]
fn json_str_field(body: &[u8], key: &str) -> (r: Option<Vec<u8>>)
    ensures
        r is Some <==> json_str_field_of(body@, key.spec_bytes()) is Some,
        r matches Some(v) ==> json_str_field_of(body@, key.spec_bytes()) == Some(v@),
{
    match serde_json::from_slice::<serde_json::Value>(body) {
        Ok(v) => match v.get(key) {
            Some(f) => f.as_str().map(|s| s.as_bytes().to_vec()),
            None => None,
        },
        Err(_) => None,
    }
}

/// Relies on `serde_json::from_slice::<Value>`, `Value::get` and
/// `Value::as_bool`: parsing and field lookup are functions of the body and
/// key bytes alone.
#[verifier::external_body]
fn json_bool_field(body: &[u8], key: &str) -> (r: Option<bool>)
    ensures
        r == json_bool_field_of(body@, key.spec_bytes()),
{
    match serde_json::from_slice::<serde_json::Value>(body) {
        Ok(v) => match v.get(key) {
            Some(f) => f.as_bool(),
            None => None,
        },
        Err(_) => None,
    }
}

/// The normalized error for a failure response: the exchange's
/// `{code, msg}` envelope when the body holds one, else a decode error
/// with the raw body.
pub open spec fn error_of(body: Seq<u8>) -> ErrorModel {
    match (
        json_i64_field_of(body, "code".spec_bytes()),
        json_str_field_of(body, "msg".spec_bytes()),
    ) {
        (Some(code), Some(msg)) => ErrorModel::Exchange { code, message: msg },
        _ => ErrorModel::Decode { body: body },
    }
}

/// Maps a failure body to its normalized error.
pub fn decode_error(body: &[u8]) -> (r: BinanceError)
    ensures
        r@ == error_of(body@),
{
    let code = json_i64_field(body, "code");
    let msg = json_str_field(body, "msg");
    match (code, msg) {
        (Some(c), Some(m)) => BinanceError::Exchange { code: c, message: m },
        _ => BinanceError::Decode { body: slice_to_vec(body) },
    }
}

/// Every field the order schema requires is present with its declared
/// type (and the status token names a known order status).
pub open spec fn order_fields_present(body: Seq<u8>) -> bool {
    &&& json_i64_field_of(body, "orderId".spec_bytes()) is Some
    &&& json_str_field_of(body, "symbol".spec_bytes()) is Some
    &&& (json_str_field_of(body, "status".spec_bytes()) matches Some(tok) && order_status_of_token(tok) is Some)
    &&& json_str_field_of(body, "clientOrderId".spec_bytes()) is Some
    &&& json_str_field_of(body, "price".spec_bytes()) is Some
    &&& json_str_field_of(body, "avgPrice".spec_bytes()) is Some
    &&& json_str_field_of(body, "origQty".spec_bytes()) is Some
    &&& json_str_field_of(body, "executedQty".spec_bytes()) is Some
    &&& json_str_field_of(body, "cumQty".spec_bytes()) is Some
    &&& json_str_field_of(body, "cumQuote".spec_bytes()) is Some
    &&& json_str_field_of(body, "timeInForce".spec_bytes()) is Some
    &&& json_str_field_of(body, "type".spec_bytes()) is Some
    &&& json_bool_field_of(body, "reduceOnly".spec_bytes()) is Some
    &&& json_bool_field_of(body, "closePosition".spec_bytes()) is Some
    &&& json_str_field_of(body, "side".spec_bytes()) is Some
    &&& json_str_field_of(body, "positionSide".spec_bytes()) is Some
    &&& json_str_field_of(body, "stopPrice".spec_bytes()) is Some
    &&& json_str_field_of(body, "workingType".spec_bytes()) is Some
    &&& json_str_field_of(body, "priceProtect".spec_bytes()) is Some
    &&& json_str_field_of(body, "origType".spec_bytes()) is Some
    &&& json_i64_field_of(body, "updateTime".spec_bytes()) is Some
}

/// The order record a conforming success body decodes to.
pub open spec fn order_response_of(body: Seq<u8>) -> OrderResponseModel
    recommends
        order_fields_present(body),
{
    OrderResponseModel {
        order_id: json_i64_field_of(body, "orderId".spec_bytes())->Some_0,
        symbol: json_str_field_of(body, "symbol".spec_bytes())->Some_0,
        status: order_status_of_token(json_str_field_of(body, "status".spec_bytes())->Some_0)->Some_0,
        client_order_id: json_str_field_of(body, "clientOrderId".spec_bytes())->Some_0,
        price: json_str_field_of(body, "price".spec_bytes())->Some_0,
        avg_price: json_str_field_of(body, "avgPrice".spec_bytes())->Some_0,
        orig_qty: json_str_field_of(body, "origQty".spec_bytes())->Some_0,
        executed_qty: json_str_field_of(body, "executedQty".spec_bytes())->Some_0,
        cum_qty: json_str_field_of(body, "cumQty".spec_bytes())->Some_0,
        cum_quote: json_str_field_of(body, "cumQuote".spec_bytes())->Some_0,
        time_in_force: json_str_field_of(body, "timeInForce".spec_bytes())->Some_0,
        type_field: json_str_field_of(body, "type".spec_bytes())->Some_0,
        reduce_only: json_bool_field_of(body, "reduceOnly".spec_bytes())->Some_0,
        close_position: json_bool_field_of(body, "closePosition".spec_bytes())->Some_0,
        side: json_str_field_of(body, "side".spec_bytes())->Some_0,
        position_side: json_str_field_of(body, "positionSide".spec_bytes())->Some_0,
        stop_price: json_str_field_of(body, "stopPrice".spec_bytes())->Some_0,
        working_type: json_str_field_of(body, "workingType".spec_bytes())->Some_0,
        price_protect: json_str_field_of(body, "priceProtect".spec_bytes())->Some_0,
        orig_type: json_str_field_of(body, "origType".spec_bytes())->Some_0,
        update_time: json_i64_field_of(body, "updateTime".spec_bytes())->Some_0,
    }
}

/// Decodes an order response: a success body that matches the schema gives
/// exactly the declared record; a success body missing a required field is
/// a decode error, never a default-filled record; a failure body maps to
/// the exchange error envelope.
pub fn decode_order_response(status: u16, body: &[u8]) -> (r: Result<OrderResponse, BinanceError>)
    ensures
        !is_success(status) ==> (r matches Err(e) && e@ == error_of(body@)),
        is_success(status) && !order_fields_present(body@) ==> (r matches Err(e) && e@ == (
        ErrorModel::Decode { body: body@ })),
        is_success(status) && order_fields_present(body@) ==> (r matches Ok(o) && o@
            == order_response_of(body@)),
{
    if !status_is_success(status) {
        return Err(decode_error(body));
    }
    let order_id = match json_i64_field(body, "orderId") {
        Some(v) => v,
        None => {
            return Err(BinanceError::Decode { body: slice_to_vec(body) });
        },
    };
    let symbol = match json_str_field(body, "symbol") {
        Some(v) => v,
        None => {
            return Err(BinanceError::Decode { body: slice_to_vec(body) });
        },
    };
    let status_tok = match json_str_field(body, "status") {
        Some(v) => v,
        None => {
            return Err(BinanceError::Decode { body: slice_to_vec(body) });
        },
    };
    let status = match parse_order_status(status_tok.as_slice()) {
        Some(s) => s,
        None => {
            return Err(BinanceError::Decode { body: slice_to_vec(body) });
        },
    };
    let client_order_id = match json_str_field(body, "clientOrderId") {
        Some(v) => v,
        None => {
            return Err(BinanceError::Decode { body: slice_to_vec(body) });
        },
    };
    let price = match json_str_field(body, "price") {
        Some(v) => v,
        None => {
            return Err(BinanceError::Decode { body: slice_to_vec(body) });
        },
    };
    let avg_price = match json_str_field(body, "avgPrice") {
        Some(v) => v,
        None => {
            return Err(BinanceError::Decode { body: slice_to_vec(body) });
        },
    };
    let orig_qty = match json_str_field(body, "origQty") {
        Some(v) => v,
        None => {
            return Err(BinanceError::Decode { body: slice_to_vec(body) });
        },
    };
    let executed_qty = match json_str_field(body, "executedQty") {
        Some(v) => v,
        None => {
            return Err(BinanceError::Decode { body: slice_to_vec(body) });
        },
    };
    let cum_qty = match json_str_field(body, "cumQty") {
        Some(v) => v,
        None => {
            return Err(BinanceError::Decode { body: slice_to_vec(body) });
        },
    };
    let cum_quote = match json_str_field(body, "cumQuote") {
        Some(v) => v,
        None => {
            return Err(BinanceError::Decode { body: slice_to_vec(body) });
        },
    };
    let time_in_force = match json_str_field(body, "timeInForce") {
        Some(v) => v,
        None => {
            return Err(BinanceError::Decode { body: slice_to_vec(body) });
        },
    };
    let type_field = match json_str_field(body, "type") {
        Some(v) => v,
        None => {
            return Err(BinanceError::Decode { body: slice_to_vec(body) });
        },
    };
    let reduce_only = match json_bool_field(body, "reduceOnly") {
        Some(v) => v,
        None => {
            return Err(BinanceError::Decode { body: slice_to_vec(body) });
        },
    };
    let close_position = match json_bool_field(body, "closePosition") {
        Some(v) => v,
        None => {
            return Err(BinanceError::Decode { body: slice_to_vec(body) });
        },
    };
    let side = match json_str_field(body, "side") {
        Some(v) => v,
        None => {
            return Err(BinanceError::Decode { body: slice_to_vec(body) });
        },
    };
    let position_side = match json_str_field(body, "positionSide") {
        Some(v) => v,
        None => {
            return Err(BinanceError::Decode { body: slice_to_vec(body) });
        },
    };
    let stop_price = match json_str_field(body, "stopPrice") {
        Some(v) => v,
        None => {
            return Err(BinanceError::Decode { body: slice_to_vec(body) });
        },
    };
    let working_type = match json_str_field(body, "workingType") {
        Some(v) => v,
        None => {
            return Err(BinanceError::Decode { body: slice_to_vec(body) });
        },
    };
    let price_protect = match json_str_field(body, "priceProtect") {
        Some(v) => v,
        None => {
            return Err(BinanceError::Decode { body: slice_to_vec(body) });
        },
    };
    let orig_type = match json_str_field(body, "origType") {
        Some(v) => v,
        None => {
            return Err(BinanceError::Decode { body: slice_to_vec(body) });
        },
    };
    let update_time = match json_i64_field(body, "updateTime") {
        Some(v) => v,
        None => {
            return Err(BinanceError::Decode { body: slice_to_vec(body) });
        },
    };
    Ok(
        OrderResponse {
        order_id,
        symbol,
        status,
        client_order_id,
        price,
        avg_price,
        orig_qty,
        executed_qty,
        cum_qty,
        cum_quote,
        time_in_force,
        type_field,
        reduce_only,
        close_position,
        side,
        position_side,
        stop_price,
        working_type,
        price_protect,
        orig_type,
        update_time,
        },
    )
}

/// A success body for the server-time read holds the clock field.
pub open spec fn server_time_present(body: Seq<u8>) -> bool {
    json_i64_field_of(body, "serverTime".spec_bytes()) is Some
}

/// Decodes a server-time response.
pub fn decode_server_time(status: u16, body: &[u8]) -> (r: Result<ServerTime, BinanceError>)
    ensures
        !is_success(status) ==> (r matches Err(e) && e@ == error_of(body@)),
        is_success(status) && !server_time_present(body@) ==> (r matches Err(e) && e@ == (
        ErrorModel::Decode { body: body@ })),
        is_success(status) && server_time_present(body@) ==> (r matches Ok(t) && t.server_time
            == json_i64_field_of(body@, "serverTime".spec_bytes())->Some_0),
{
    if !status_is_success(status) {
        return Err(decode_error(body));
    }
    match json_i64_field(body, "serverTime") {
        Some(v) => Ok(ServerTime { server_time: v }),
        None => Err(BinanceError::Decode { body: slice_to_vec(body) }),
    }
}

} // verus!
