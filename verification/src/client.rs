//! The client instance: an immutable credential store and the request
//! builders every operation goes through. Building and signing are pure,
//! synchronous steps; dispatch is left to the caller's I/O layer.

use vstd::prelude::*;
use vstd::string::*;
use crate::encode::{params_view, Param};
use crate::errors::BinanceError;
use crate::request::{carries_body, Method, RequestDescriptor};
use crate::sign::{sign_query, signed_query_of};

verus! {

/// API key and secret for one client instance. Immutable once constructed;
/// shared by every request the instance issues.
#[derive(Debug, Clone)]
pub struct Credentials {
    pub api_key: Vec<u8>,
    pub api_secret: Vec<u8>,
}

/// A client handle. Its only state is the optional credential pair, fixed
/// at construction, so one instance is safe to share across concurrent
/// calls.
#[derive(Debug, Clone)]
pub struct Binance {
    /// `None` is the explicit public (unauthenticated) state: signed
    /// operations on such a client fail fast with a configuration error.
    pub credentials: Option<Credentials>,
}

/// What every signed request builder promises: a configuration error
/// exactly when the client holds no credentials, and otherwise a request
/// whose wire bytes are the signed query over `ps`, `rw` and the timestamp
/// recorded in the descriptor, keyed by the stored secret, placed in the
/// body for POST and in the URL query otherwise, with the API-key header
/// attached.
pub open spec fn signed_result_spec(
    creds: Option<Credentials>,
    r: Result<RequestDescriptor, BinanceError>,
    method: Method,
    path: Seq<u8>,
    ps: Seq<(Seq<u8>, Seq<u8>)>,
    rw: Option<u64>,
) -> bool {
    &&& (r is Err <==> creds is None)
    &&& (r matches Err(e) ==> e == BinanceError::Configuration)
    &&& (r matches Ok(d) ==> {
        let c = creds->Some_0;
        &&& d.method == method
        &&& d.path@ == path
        &&& d.api_key matches Some(k) && k@ == c.api_key@
        &&& d.timestamp matches Some(ts) && wire_placement(
            d,
            signed_query_of(ps, rw, ts, c.api_secret@),
        )
    })
}

/// As `signed_result_spec`, but for a caller-supplied timestamp.
pub open spec fn signed_at_result_spec(
    creds: Option<Credentials>,
    r: Result<RequestDescriptor, BinanceError>,
    method: Method,
    path: Seq<u8>,
    ps: Seq<(Seq<u8>, Seq<u8>)>,
    rw: Option<u64>,
    ts: u64,
) -> bool {
    &&& signed_result_spec(creds, r, method, path, ps, rw)
    &&& (r matches Ok(d) ==> d.timestamp == Some(ts))
}

/// The encoded parameters stand in the body for POST and in the URL query
/// for GET/DELETE; the other slot is empty.
pub open spec fn wire_placement(d: RequestDescriptor, wire: Seq<u8>) -> bool {
    if carries_body(d.method) {
        d.body@ == wire && d.query@.len() == 0
    } else {
        d.query@ == wire && d.body@.len() == 0
    }
}

/// Relies on `chrono::Utc::now` and `DateTime::timestamp_millis` for the
/// current wall-clock time in milliseconds since the UNIX epoch. The value
/// depends on the clock, so nothing is promised of it.
#[verifier::external_body]
pub(crate) fn now_millis() -> u64 {
    chrono::Utc::now().timestamp_millis() as u64
}

impl Binance {
    /// A public client: no credentials, only unauthenticated operations
    /// succeed.
    pub fn new() -> (r: Self)
        ensures
            r.credentials is None,
    {
        Binance { credentials: None }
    }

    /// A client that signs with the given key pair.
    pub fn with_credential(api_key: &str, api_secret: &str) -> (r: Self)
        ensures
            r.credentials matches Some(c) && c.api_key@ == api_key.spec_bytes()
                && c.api_secret@ == api_secret.spec_bytes(),
    {
        Binance {
            credentials: Some(
                Credentials {
                    api_key: api_key.as_bytes_vec(),
                    api_secret: api_secret.as_bytes_vec(),
                },
            ),
        }
    }

    /// Builds an unauthenticated request: no API-key header, no signature,
    /// the canonical query in the method's slot.
    pub fn public_request(&self, method: Method, path: &str, params: Vec<Param>) -> (r:
        RequestDescriptor)
        ensures
            r.method == method,
            r.path@ == path.spec_bytes(),
            r.api_key is None,
            r.timestamp is None,
            wire_placement(r, crate::encode::query_of(params_view(params@))),
    {
        let encoded = crate::encode::canonical_query(&params);
        let is_post = match method {
            Method::Post => true,
            _ => false,
        };
        if is_post {
            RequestDescriptor {
                method,
                path: path.as_bytes_vec(),
                query: Vec::new(),
                body: encoded,
                api_key: None,
                timestamp: None,
            }
        } else {
            RequestDescriptor {
                method,
                path: path.as_bytes_vec(),
                query: encoded,
                body: Vec::new(),
                api_key: None,
                timestamp: None,
            }
        }
    }

    /// Builds a signed request with a caller-supplied timestamp. Fails with
    /// `Configuration` — before anything reaches the wire — exactly when
    /// the client holds no credentials.
    pub fn signed_request_at(
        &self,
        method: Method,
        path: &str,
        params: Vec<Param>,
        recv_window: Option<u64>,
        timestamp: u64,
    ) -> (r: Result<RequestDescriptor, BinanceError>)
        ensures
            signed_at_result_spec(
                self.credentials,
                r,
                method,
                path.spec_bytes(),
                params_view(params@),
                recv_window,
                timestamp,
            ),
    {
        match &self.credentials {
            None => Err(BinanceError::Configuration),
            Some(c) => {
                let wire = sign_query(params, recv_window, timestamp, c.api_secret.as_slice());
                let is_post = match method {
                    Method::Post => true,
                    _ => false,
                };
                let d = if is_post {
                    RequestDescriptor {
                        method,
                        path: path.as_bytes_vec(),
                        query: Vec::new(),
                        body: wire,
                        api_key: Some(c.api_key.clone()),
                        timestamp: Some(timestamp),
                    }
                } else {
                    RequestDescriptor {
                        method,
                        path: path.as_bytes_vec(),
                        query: wire,
                        body: Vec::new(),
                        api_key: Some(c.api_key.clone()),
                        timestamp: Some(timestamp),
                    }
                };
                Ok(d)
            },
        }
    }

    /// Builds a signed request, generating the timestamp at call time.
    pub fn signed_request(
        &self,
        method: Method,
        path: &str,
        params: Vec<Param>,
        recv_window: Option<u64>,
    ) -> (r: Result<RequestDescriptor, BinanceError>)
        ensures
            signed_result_spec(
                self.credentials,
                r,
                method,
                path.spec_bytes(),
                params_view(params@),
                recv_window,
            ),
    {
        let ts = now_millis();
        self.signed_request_at(method, path, params, recv_window, ts)
    }
}

impl Default for Binance {
    /// Same as [`Binance::new`]: the public, credential-less client.
    fn default() -> (r: Self)
        ensures
            r.credentials is None,
    {
        Binance::new()
    }
}

} // verus!
