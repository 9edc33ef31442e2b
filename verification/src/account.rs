//! Private (signed) account operations. Each builds the fully signed
//! request — canonical parameters, `recvWindow`, `timestamp`, signature —
//! and fails fast with a configuration error on a credential-less client,
//! before anything could reach the wire.

use vstd::prelude::*;
use vstd::string::*;
use crate::client::{signed_at_result_spec, signed_result_spec, Binance};
use crate::encode::{dec_digits, dec_signed, i64_dec, params_view, u64_dec, Param};
use crate::errors::BinanceError;
use crate::model::{order_params, order_request_params, OrderRequest};
use crate::request::{Method, RequestDescriptor};

verus! {

impl Binance {
    /// Account information snapshot.
    pub fn get_account(&self) -> (r: Result<RequestDescriptor, BinanceError>)
        ensures
            signed_result_spec(
                self.credentials,
                r,
                Method::Get,
                "/fapi/v1/account".spec_bytes(),
                Seq::empty(),
                None,
            ),
    {
        let params: Vec<Param> = Vec::new();
        proof {
            assert(params_view(params@) =~= Seq::<(Seq<u8>, Seq<u8>)>::empty());
        }
        self.signed_request(Method::Get, "/fapi/v1/account", params, None)
    }

    /// Open orders for one symbol.
    pub fn get_open_orders(&self, symbol: &str) -> (r: Result<RequestDescriptor, BinanceError>)
        ensures
            signed_result_spec(
                self.credentials,
                r,
                Method::Get,
                "/fapi/v1/openOrders".spec_bytes(),
                seq![("symbol".spec_bytes(), symbol.spec_bytes())],
                None,
            ),
    {
        let mut params: Vec<Param> = Vec::new();
        params.push(Param { key: "symbol".as_bytes_vec(), value: symbol.as_bytes_vec() });
        proof {
            assert(params_view(params@) =~= seq![("symbol".spec_bytes(), symbol.spec_bytes())]);
        }
        self.signed_request(Method::Get, "/fapi/v1/openOrders", params, None)
    }

    /// All open orders, over every symbol.
    pub fn get_all_open_orders(&self) -> (r: Result<RequestDescriptor, BinanceError>)
        ensures
            signed_result_spec(
                self.credentials,
                r,
                Method::Get,
                "/fapi/v1/openOrders".spec_bytes(),
                Seq::empty(),
                None,
            ),
    {
        let params: Vec<Param> = Vec::new();
        proof {
            assert(params_view(params@) =~= Seq::<(Seq<u8>, Seq<u8>)>::empty());
        }
        self.signed_request(Method::Get, "/fapi/v1/openOrders", params, None)
    }

    /// Status of one order.
    pub fn order_status(&self, symbol: &str, order_id: u64) -> (r: Result<
        RequestDescriptor,
        BinanceError,
    >)
        ensures
            signed_result_spec(
                self.credentials,
                r,
                Method::Get,
                "/fapi/v1/order".spec_bytes(),
                seq![
                    ("symbol".spec_bytes(), symbol.spec_bytes()),
                    ("orderId".spec_bytes(), dec_digits(order_id as nat)),
                ],
                None,
            ),
    {
        let mut params: Vec<Param> = Vec::new();
        params.push(Param { key: "symbol".as_bytes_vec(), value: symbol.as_bytes_vec() });
        params.push(Param { key: "orderId".as_bytes_vec(), value: u64_dec(order_id) });
        proof {
            assert(params_view(params@) =~= seq![
                ("symbol".spec_bytes(), symbol.spec_bytes()),
                ("orderId".spec_bytes(), dec_digits(order_id as nat)),
            ]);
        }
        self.signed_request(Method::Get, "/fapi/v1/order", params, None)
    }

    /// Places a new order. The request's own `recv_window` and `timestamp`
    /// fields feed the signer, so the caller controls the signed timestamp.
    pub fn place_order(&self, order_request: OrderRequest) -> (r: Result<
        RequestDescriptor,
        BinanceError,
    >)
        ensures
            signed_at_result_spec(
                self.credentials,
                r,
                Method::Post,
                "/fapi/v1/order".spec_bytes(),
                order_params(order_request),
                order_request.recv_window,
                order_request.timestamp,
            ),
    {
        let params = order_request_params(&order_request);
        self.signed_request_at(
            Method::Post,
            "/fapi/v1/order",
            params,
            order_request.recv_window,
            order_request.timestamp,
        )
    }

    /// Cancels one order.
    pub fn cancel_order(&self, symbol: &str, order_id: u64) -> (r: Result<
        RequestDescriptor,
        BinanceError,
    >)
        ensures
            signed_result_spec(
                self.credentials,
                r,
                Method::Delete,
                "/fapi/v1/order".spec_bytes(),
                seq![
                    ("symbol".spec_bytes(), symbol.spec_bytes()),
                    ("orderId".spec_bytes(), dec_digits(order_id as nat)),
                ],
                None,
            ),
    {
        let mut params: Vec<Param> = Vec::new();
        params.push(Param { key: "symbol".as_bytes_vec(), value: symbol.as_bytes_vec() });
        params.push(Param { key: "orderId".as_bytes_vec(), value: u64_dec(order_id) });
        proof {
            assert(params_view(params@) =~= seq![
                ("symbol".spec_bytes(), symbol.spec_bytes()),
                ("orderId".spec_bytes(), dec_digits(order_id as nat)),
            ]);
        }
        self.signed_request(Method::Delete, "/fapi/v1/order", params, None)
    }

    /// Trade history for one symbol.
    pub fn trade_history(&self, symbol: &str) -> (r: Result<RequestDescriptor, BinanceError>)
        ensures
            signed_result_spec(
                self.credentials,
                r,
                Method::Get,
                "/fapi/v1/myTrades".spec_bytes(),
                seq![("symbol".spec_bytes(), symbol.spec_bytes())],
                None,
            ),
    {
        let mut params: Vec<Param> = Vec::new();
        params.push(Param { key: "symbol".as_bytes_vec(), value: symbol.as_bytes_vec() });
        proof {
            assert(params_view(params@) =~= seq![("symbol".spec_bytes(), symbol.spec_bytes())]);
        }
        self.signed_request(Method::Get, "/fapi/v1/myTrades", params, None)
    }

    /// Deposit address for one asset.
    pub fn get_deposit_address(&self, symbol: &str) -> (r: Result<RequestDescriptor, BinanceError>)
        ensures
            signed_result_spec(
                self.credentials,
                r,
                Method::Get,
                "/wapi/v3/depositAddress.html".spec_bytes(),
                seq![("asset".spec_bytes(), symbol.spec_bytes())],
                None,
            ),
    {
        let mut params: Vec<Param> = Vec::new();
        params.push(Param { key: "asset".as_bytes_vec(), value: symbol.as_bytes_vec() });
        proof {
            assert(params_view(params@) =~= seq![("asset".spec_bytes(), symbol.spec_bytes())]);
        }
        self.signed_request(Method::Get, "/wapi/v3/depositAddress.html", params, None)
    }

    /// Deposit history, optionally narrowed to one asset and a time range
    /// given in milliseconds since the UNIX epoch. Absent bounds are
    /// omitted from the request entirely.
    pub fn get_deposit_history(
        &self,
        symbol: Option<&str>,
        start_time: Option<i64>,
        end_time: Option<i64>,
    ) -> (r: Result<RequestDescriptor, BinanceError>)
        ensures
            signed_result_spec(
                self.credentials,
                r,
                Method::Get,
                "/wapi/v3/depositHistory.html".spec_bytes(),
                deposit_history_params(
                    match symbol {
                        Some(s) => Some(s.spec_bytes()),
                        None => None,
                    },
                    start_time,
                    end_time,
                ),
                None,
            ),
    {
        let mut params: Vec<Param> = Vec::new();
        match symbol {
            Some(s) => {
                params.push(Param { key: "asset".as_bytes_vec(), value: s.as_bytes_vec() });
            },
            None => {},
        }
        match start_time {
            Some(t) => {
                params.push(Param { key: "startTime".as_bytes_vec(), value: i64_dec(t) });
            },
            None => {},
        }
        match end_time {
            Some(t) => {
                params.push(Param { key: "endTime".as_bytes_vec(), value: i64_dec(t) });
            },
            None => {},
        }
        proof {
            assert(params_view(params@) =~= deposit_history_params(
                match symbol {
                    Some(s) => Some(s.spec_bytes()),
                    None => None,
                },
                start_time,
                end_time,
            ));
        }
        self.signed_request(Method::Get, "/wapi/v3/depositHistory.html", params, None)
    }

    /// Per-asset detail (fees, withdrawal status).
    pub fn asset_detail(&self) -> (r: Result<RequestDescriptor, BinanceError>)
        ensures
            signed_result_spec(
                self.credentials,
                r,
                Method::Get,
                "/wapi/v3/assetDetail.html".spec_bytes(),
                Seq::empty(),
                None,
            ),
    {
        let params: Vec<Param> = Vec::new();
        proof {
            assert(params_view(params@) =~= Seq::<(Seq<u8>, Seq<u8>)>::empty());
        }
        self.signed_request(Method::Get, "/wapi/v3/assetDetail.html", params, None)
    }
}

/// The deposit-history filter parameters, in declared order, absent
/// filters omitted.
pub open spec fn deposit_history_params(
    asset: Option<Seq<u8>>,
    start_time: Option<i64>,
    end_time: Option<i64>,
) -> Seq<(Seq<u8>, Seq<u8>)> {
    let s = match asset {
        Some(a) => Seq::<(Seq<u8>, Seq<u8>)>::empty().push(("asset".spec_bytes(), a)),
        None => Seq::<(Seq<u8>, Seq<u8>)>::empty(),
    };
    let s = match start_time {
        Some(t) => s.push(("startTime".spec_bytes(), dec_signed(t as int))),
        None => s,
    };
    match end_time {
        Some(t) => s.push(("endTime".spec_bytes(), dec_signed(t as int))),
        None => s,
    }
}

} // verus!
