//! Typed order parameters and results, with their exact wire tokens.
//!
//! Every enum renders to the literal token the exchange expects, and a
//! parameter object serializes to its fields in declared schema order,
//! absent fields omitted entirely.

use vstd::prelude::*;
use vstd::string::*;
use vstd::utf8::encode_utf8;
use crate::encode::{params_view, Param};

verus! {

#[derive(Debug, Clone, Copy, PartialEq, Eq, Structural)]
pub enum Side {
    Buy,
    Sell,
}

#[derive(Debug, Clone, Copy, PartialEq, Eq, Structural)]
pub enum PositionSide {
    Short,
    Long,
    Both,
}

#[derive(Debug, Clone, Copy, PartialEq, Eq, Structural)]
pub enum OrderType {
    Limit,
    Market,
    Stop,
    StopMarket,
    TakeProfit,
    TakeProfitMarket,
    TrailingStopMarket,
}

#[derive(Debug, Clone, Copy, PartialEq, Eq, Structural)]
pub enum OrderStatus {
    New,
    PartiallyFilled,
    Filled,
    Canceled,
    Rejected,
    Expired,
}

#[derive(Debug, Clone, Copy, PartialEq, Eq, Structural)]
pub enum TimeInForce {
    Gtc,
    Ioc,
    Fok,
    Gtx,
}

#[derive(Debug, Clone, Copy, PartialEq, Eq, Structural)]
pub enum WorkingType {
    MarkPrice,
    ContractPrice,
}

#[derive(Debug, Clone, Copy, PartialEq, Eq, Structural)]
pub enum NewOrderRespType {
    Ack,
    Result,
}

/// The exchange's literal token for an order side.
pub open spec fn side_token(v: Side) -> Seq<u8> {
    match v {
        Side::Buy => "BUY".spec_bytes(),
        Side::Sell => "SELL".spec_bytes(),
    }
}

/// The exchange's literal token for a position side.
pub open spec fn position_side_token(v: PositionSide) -> Seq<u8> {
    match v {
        PositionSide::Short => "SHORT".spec_bytes(),
        PositionSide::Long => "LONG".spec_bytes(),
        PositionSide::Both => "BOTH".spec_bytes(),
    }
}

/// The exchange's literal token for an order type.
pub open spec fn order_type_token(v: OrderType) -> Seq<u8> {
    match v {
        OrderType::Limit => "LIMIT".spec_bytes(),
        OrderType::Market => "MARKET".spec_bytes(),
        OrderType::Stop => "STOP".spec_bytes(),
        OrderType::StopMarket => "STOP_MARKET".spec_bytes(),
        OrderType::TakeProfit => "TAKE_PROFIT".spec_bytes(),
        OrderType::TakeProfitMarket => "TAKE_PROFIT_MARKET".spec_bytes(),
        OrderType::TrailingStopMarket => "TRAILING_STOP_MARKET".spec_bytes(),
    }
}

/// The exchange's literal token for an order status.
pub open spec fn order_status_token(v: OrderStatus) -> Seq<u8> {
    match v {
        OrderStatus::New => "NEW".spec_bytes(),
        OrderStatus::PartiallyFilled => "PARTIALLY_FILLED".spec_bytes(),
        OrderStatus::Filled => "FILLED".spec_bytes(),
        OrderStatus::Canceled => "CANCELED".spec_bytes(),
        OrderStatus::Rejected => "REJECTED".spec_bytes(),
        OrderStatus::Expired => "EXPIRED".spec_bytes(),
    }
}

/// The order status named by a token, if any.
pub open spec fn order_status_of_token(tok: Seq<u8>) -> Option<OrderStatus> {
    if tok == "NEW".spec_bytes() {
        Some(OrderStatus::New)
    } else if tok == "PARTIALLY_FILLED".spec_bytes() {
        Some(OrderStatus::PartiallyFilled)
    } else if tok == "FILLED".spec_bytes() {
        Some(OrderStatus::Filled)
    } else if tok == "CANCELED".spec_bytes() {
        Some(OrderStatus::Canceled)
    } else if tok == "REJECTED".spec_bytes() {
        Some(OrderStatus::Rejected)
    } else if tok == "EXPIRED".spec_bytes() {
        Some(OrderStatus::Expired)
    } else {
        None
    }
}

/// The exchange's literal token for a time-in-force policy.
pub open spec fn time_in_force_token(v: TimeInForce) -> Seq<u8> {
    match v {
        TimeInForce::Gtc => "GTC".spec_bytes(),
        TimeInForce::Ioc => "IOC".spec_bytes(),
        TimeInForce::Fok => "FOK".spec_bytes(),
        TimeInForce::Gtx => "GTX".spec_bytes(),
    }
}

/// The exchange's literal token for a working type.
pub open spec fn working_type_token(v: WorkingType) -> Seq<u8> {
    match v {
        WorkingType::MarkPrice => "MARK_PRICE".spec_bytes(),
        WorkingType::ContractPrice => "CONTRACT_PRICE".spec_bytes(),
    }
}

/// The exchange's literal token for a response-type request.
pub open spec fn resp_type_token(v: NewOrderRespType) -> Seq<u8> {
    match v {
        NewOrderRespType::Ack => "ACK".spec_bytes(),
        NewOrderRespType::Result => "RESULT".spec_bytes(),
    }
}

/// The exchange's literal token for a boolean value.
pub open spec fn bool_token(v: bool) -> Seq<u8> {
    if v {
        "true".spec_bytes()
    } else {
        "false".spec_bytes()
    }
}

pub fn side_bytes(v: &Side) -> (r: Vec<u8>)
    ensures
        r@ == side_token(*v),
{
    match v {
        Side::Buy => "BUY".as_bytes_vec(),
        Side::Sell => "SELL".as_bytes_vec(),
    }
}

pub fn position_side_bytes(v: &PositionSide) -> (r: Vec<u8>)
    ensures
        r@ == position_side_token(*v),
{
    match v {
        PositionSide::Short => "SHORT".as_bytes_vec(),
        PositionSide::Long => "LONG".as_bytes_vec(),
        PositionSide::Both => "BOTH".as_bytes_vec(),
    }
}

pub fn order_type_bytes(v: &OrderType) -> (r: Vec<u8>)
    ensures
        r@ == order_type_token(*v),
{
    match v {
        OrderType::Limit => "LIMIT".as_bytes_vec(),
        OrderType::Market => "MARKET".as_bytes_vec(),
        OrderType::Stop => "STOP".as_bytes_vec(),
        OrderType::StopMarket => "STOP_MARKET".as_bytes_vec(),
        OrderType::TakeProfit => "TAKE_PROFIT".as_bytes_vec(),
        OrderType::TakeProfitMarket => "TAKE_PROFIT_MARKET".as_bytes_vec(),
        OrderType::TrailingStopMarket => "TRAILING_STOP_MARKET".as_bytes_vec(),
    }
}

pub fn time_in_force_bytes(v: &TimeInForce) -> (r: Vec<u8>)
    ensures
        r@ == time_in_force_token(*v),
{
    match v {
        TimeInForce::Gtc => "GTC".as_bytes_vec(),
        TimeInForce::Ioc => "IOC".as_bytes_vec(),
        TimeInForce::Fok => "FOK".as_bytes_vec(),
        TimeInForce::Gtx => "GTX".as_bytes_vec(),
    }
}

pub fn working_type_bytes(v: &WorkingType) -> (r: Vec<u8>)
    ensures
        r@ == working_type_token(*v),
{
    match v {
        WorkingType::MarkPrice => "MARK_PRICE".as_bytes_vec(),
        WorkingType::ContractPrice => "CONTRACT_PRICE".as_bytes_vec(),
    }
}

pub fn resp_type_bytes(v: &NewOrderRespType) -> (r: Vec<u8>)
    ensures
        r@ == resp_type_token(*v),
{
    match v {
        NewOrderRespType::Ack => "ACK".as_bytes_vec(),
        NewOrderRespType::Result => "RESULT".as_bytes_vec(),
    }
}

pub fn bool_bytes(v: bool) -> (r: Vec<u8>)
    ensures
        r@ == bool_token(v),
{
    if v {
        "true".as_bytes_vec()
    } else {
        "false".as_bytes_vec()
    }
}

/// Byte-wise equality of two slices.
pub fn bytes_eq(a: &[u8], b: &[u8]) -> (r: bool)
    ensures
        r == (a@ == b@),
{
    if a.len() != b.len() {
        return false;
    }
    let mut i: usize = 0;
    while i < a.len()
        invariant
            i <= a@.len(),
            a@.len() == b@.len(),
            forall|j: int| 0 <= j < i ==> a@[j] == b@[j],
        decreases a@.len() - i,
    {
        if a[i] != b[i] {
            return false;
        }
        i = i + 1;
    }
    proof {
        assert(a@ =~= b@);
    }
    true
}

/// Parses an order-status token; returns `None` on any other byte string.
pub fn parse_order_status(tok: &[u8]) -> (r: Option<OrderStatus>)
    ensures
        r == order_status_of_token(tok@),
{
    if bytes_eq(tok, "NEW".as_bytes()) {
        Some(OrderStatus::New)
    } else if bytes_eq(tok, "PARTIALLY_FILLED".as_bytes()) {
        Some(OrderStatus::PartiallyFilled)
    } else if bytes_eq(tok, "FILLED".as_bytes()) {
        Some(OrderStatus::Filled)
    } else if bytes_eq(tok, "CANCELED".as_bytes()) {
        Some(OrderStatus::Canceled)
    } else if bytes_eq(tok, "REJECTED".as_bytes()) {
        Some(OrderStatus::Rejected)
    } else if bytes_eq(tok, "EXPIRED".as_bytes()) {
        Some(OrderStatus::Expired)
    } else {
        None
    }
}

/// A new-order request: the declared parameter schema, in field order.
/// `None` fields are omitted from the request entirely.
#[derive(Debug, Clone, PartialEq)]
pub struct OrderRequest {
    pub symbol: String,
    pub side: Side,
    pub position_side: Option<PositionSide>,
    pub order_type: OrderType,
    pub time_in_force: Option<TimeInForce>,
    pub quantity: Option<String>,
    pub reduce_only: Option<bool>,
    pub price: Option<String>,
    pub new_client_order_id: Option<String>,
    pub stop_price: Option<String>,
    pub close_position: Option<bool>,
    pub activation_price: Option<String>,
    pub callback_rate: Option<String>,
    pub working_type: Option<WorkingType>,
    pub new_order_resp_type: Option<NewOrderRespType>,
    /// Clock-skew tolerance, appended by the signer after the declared
    /// fields.
    pub recv_window: Option<u64>,
    /// Timestamp signed into the request, appended last before the
    /// signature.
    pub timestamp: u64,
}

/// Appends `(key, v)` when the value is present, else leaves `s` unchanged.
pub open spec fn opt_push(
    s: Seq<(Seq<u8>, Seq<u8>)>,
    key: Seq<u8>,
    v: Option<Seq<u8>>,
) -> Seq<(Seq<u8>, Seq<u8>)> {
    match v {
        Some(x) => s.push((key, x)),
        None => s,
    }
}

pub open spec fn opt_str_bytes(v: Option<String>) -> Option<Seq<u8>> {
    match v {
        Some(s) => Some(encode_utf8(s@)),
        None => None,
    }
}

pub open spec fn opt_bool_token(v: Option<bool>) -> Option<Seq<u8>> {
    match v {
        Some(b) => Some(bool_token(b)),
        None => None,
    }
}

/// The declared parameters of an order request, in schema order, absent
/// fields omitted. `recv_window` and `timestamp` are not here: the signer
/// appends them after these fields.
pub open spec fn order_params(rq: OrderRequest) -> Seq<(Seq<u8>, Seq<u8>)> {
    let s = Seq::<(Seq<u8>, Seq<u8>)>::empty().push(
        ("symbol".spec_bytes(), encode_utf8(rq.symbol@)),
    ).push(("side".spec_bytes(), side_token(rq.side)));
    let s = opt_push(
        s,
        "positionSide".spec_bytes(),
        match rq.position_side {
            Some(p) => Some(position_side_token(p)),
            None => None,
        },
    );
    let s = s.push(("type".spec_bytes(), order_type_token(rq.order_type)));
    let s = opt_push(
        s,
        "timeInForce".spec_bytes(),
        match rq.time_in_force {
            Some(t) => Some(time_in_force_token(t)),
            None => None,
        },
    );
    let s = opt_push(s, "quantity".spec_bytes(), opt_str_bytes(rq.quantity));
    let s = opt_push(s, "reduceOnly".spec_bytes(), opt_bool_token(rq.reduce_only));
    let s = opt_push(s, "price".spec_bytes(), opt_str_bytes(rq.price));
    let s = opt_push(s, "newClientOrderId".spec_bytes(), opt_str_bytes(rq.new_client_order_id));
    let s = opt_push(s, "stopPrice".spec_bytes(), opt_str_bytes(rq.stop_price));
    let s = opt_push(s, "closePosition".spec_bytes(), opt_bool_token(rq.close_position));
    let s = opt_push(s, "activationPrice".spec_bytes(), opt_str_bytes(rq.activation_price));
    let s = opt_push(s, "callbackRate".spec_bytes(), opt_str_bytes(rq.callback_rate));
    let s = opt_push(
        s,
        "workingType".spec_bytes(),
        match rq.working_type {
            Some(w) => Some(working_type_token(w)),
            None => None,
        },
    );
    opt_push(
        s,
        "newOrderRespType".spec_bytes(),
        match rq.new_order_resp_type {
            Some(t) => Some(resp_type_token(t)),
            None => None,
        },
    )
}

/// Appends one parameter, tracking the view.
fn push_param(v: Vec<Param>, key: &str, value: Vec<u8>) -> (r: Vec<Param>)
    ensures
        params_view(r@) == params_view(v@).push((key.spec_bytes(), value@)),
{
    let ghost v0 = params_view(v@);
    let mut out = v;
    out.push(Param { key: key.as_bytes_vec(), value });
    proof {
        assert(params_view(out@) =~= v0.push((key.spec_bytes(), value@)));
    }
    out
}

/// Serializes an order request to its declared parameters, in schema order,
/// omitting absent fields.
#[verifier::rlimit(100)]
pub fn order_request_params(rq: &OrderRequest) -> (r: Vec<Param>)
    ensures
        params_view(r@) == order_params(*rq),
{
    let mut v: Vec<Param> = Vec::new();
    proof {
        assert(params_view(v@) =~= Seq::<(Seq<u8>, Seq<u8>)>::empty());
    }
    v = push_param(v, "symbol", rq.symbol.as_str().as_bytes_vec());
    v = push_param(v, "side", side_bytes(&rq.side));
    match &rq.position_side {
        Some(p) => {
            v = push_param(v, "positionSide", position_side_bytes(p));
        },
        None => {},
    }
    v = push_param(v, "type", order_type_bytes(&rq.order_type));
    match &rq.time_in_force {
        Some(t) => {
            v = push_param(v, "timeInForce", time_in_force_bytes(t));
        },
        None => {},
    }
    match &rq.quantity {
        Some(q) => {
            v = push_param(v, "quantity", q.as_str().as_bytes_vec());
        },
        None => {},
    }
    match &rq.reduce_only {
        Some(b) => {
            v = push_param(v, "reduceOnly", bool_bytes(*b));
        },
        None => {},
    }
    match &rq.price {
        Some(p) => {
            v = push_param(v, "price", p.as_str().as_bytes_vec());
        },
        None => {},
    }
    match &rq.new_client_order_id {
        Some(c) => {
            v = push_param(v, "newClientOrderId", c.as_str().as_bytes_vec());
        },
        None => {},
    }
    match &rq.stop_price {
        Some(p) => {
            v = push_param(v, "stopPrice", p.as_str().as_bytes_vec());
        },
        None => {},
    }
    match &rq.close_position {
        Some(b) => {
            v = push_param(v, "closePosition", bool_bytes(*b));
        },
        None => {},
    }
    match &rq.activation_price {
        Some(p) => {
            v = push_param(v, "activationPrice", p.as_str().as_bytes_vec());
        },
        None => {},
    }
    match &rq.callback_rate {
        Some(p) => {
            v = push_param(v, "callbackRate", p.as_str().as_bytes_vec());
        },
        None => {},
    }
    match &rq.working_type {
        Some(w) => {
            v = push_param(v, "workingType", working_type_bytes(w));
        },
        None => {},
    }
    match &rq.new_order_resp_type {
        Some(t) => {
            v = push_param(v, "newOrderRespType", resp_type_bytes(t));
        },
        None => {},
    }
    v
}

/// A decoded order record, every byte string as it stood on the wire.
#[derive(Debug, Clone, PartialEq, Eq)]
pub struct OrderResponse {
    pub order_id: i64,
    pub symbol: Vec<u8>,
    pub status: OrderStatus,
    pub client_order_id: Vec<u8>,
    pub price: Vec<u8>,
    pub avg_price: Vec<u8>,
    pub orig_qty: Vec<u8>,
    pub executed_qty: Vec<u8>,
    pub cum_qty: Vec<u8>,
    pub cum_quote: Vec<u8>,
    pub time_in_force: Vec<u8>,
    pub type_field: Vec<u8>,
    pub reduce_only: bool,
    pub close_position: bool,
    pub side: Vec<u8>,
    pub position_side: Vec<u8>,
    pub stop_price: Vec<u8>,
    pub working_type: Vec<u8>,
    pub price_protect: Vec<u8>,
    pub orig_type: Vec<u8>,
    pub update_time: i64,
}

/// Mathematical model of a decoded order record.
pub struct OrderResponseModel {
    pub order_id: i64,
    pub symbol: Seq<u8>,
    pub status: OrderStatus,
    pub client_order_id: Seq<u8>,
    pub price: Seq<u8>,
    pub avg_price: Seq<u8>,
    pub orig_qty: Seq<u8>,
    pub executed_qty: Seq<u8>,
    pub cum_qty: Seq<u8>,
    pub cum_quote: Seq<u8>,
    pub time_in_force: Seq<u8>,
    pub type_field: Seq<u8>,
    pub reduce_only: bool,
    pub close_position: bool,
    pub side: Seq<u8>,
    pub position_side: Seq<u8>,
    pub stop_price: Seq<u8>,
    pub working_type: Seq<u8>,
    pub price_protect: Seq<u8>,
    pub orig_type: Seq<u8>,
    pub update_time: i64,
}

impl View for OrderResponse {
    type V = OrderResponseModel;

    open spec fn view(&self) -> OrderResponseModel {
        OrderResponseModel {
            order_id: self.order_id,
            symbol: self.symbol@,
            status: self.status,
            client_order_id: self.client_order_id@,
            price: self.price@,
            avg_price: self.avg_price@,
            orig_qty: self.orig_qty@,
            executed_qty: self.executed_qty@,
            cum_qty: self.cum_qty@,
            cum_quote: self.cum_quote@,
            time_in_force: self.time_in_force@,
            type_field: self.type_field@,
            reduce_only: self.reduce_only,
            close_position: self.close_position,
            side: self.side@,
            position_side: self.position_side@,
            stop_price: self.stop_price@,
            working_type: self.working_type@,
            price_protect: self.price_protect@,
            orig_type: self.orig_type@,
            update_time: self.update_time,
        }
    }
}

/// A decoded server-clock reading, milliseconds since the UNIX epoch.
#[derive(Debug, Clone, Copy, PartialEq, Eq, Structural)]
pub struct ServerTime {
    pub server_time: i64,
}

} // verus!
