//! Public (unauthenticated) operations: connectivity, server time and
//! exchange metadata. Each builds the request; dispatch and decoding happen
//! at the caller's I/O layer.

use vstd::prelude::*;
use vstd::string::*;
use crate::client::Binance;
use crate::encode::{params_view, query_of};
use crate::request::{Method, RequestDescriptor};

verus! {

/// What every public GET endpoint of this module promises: an
/// unauthenticated GET of `path` with no parameters.
pub open spec fn public_get_spec(r: RequestDescriptor, path: Seq<u8>) -> bool {
    &&& r.method == Method::Get
    &&& r.path@ == path
    &&& r.api_key is None
    &&& r.timestamp is None
    &&& r.query@.len() == 0
    &&& r.body@.len() == 0
}

impl Binance {
    /// Connectivity test, routed at the listen-key path.
    pub fn ping(&self) -> (r: RequestDescriptor)
        ensures
            public_get_spec(r, "/fapi/v1/listenKey".spec_bytes()),
    {
        let r = self.public_request(Method::Get, "/fapi/v1/listenKey", Vec::new());
        proof {
            assert(params_view(Seq::<crate::encode::Param>::empty()) =~= Seq::<
                (Seq<u8>, Seq<u8>),
            >::empty());
        }
        r
    }

    /// Server clock read, used by callers to compensate for clock skew.
    pub fn get_server_time(&self) -> (r: RequestDescriptor)
        ensures
            public_get_spec(r, "/api/v1/time".spec_bytes()),
    {
        let r = self.public_request(Method::Get, "/api/v1/time", Vec::new());
        proof {
            assert(params_view(Seq::<crate::encode::Param>::empty()) =~= Seq::<
                (Seq<u8>, Seq<u8>),
            >::empty());
        }
        r
    }

    /// Exchange metadata: rate limits, symbol filters and the like.
    pub fn get_exchange_info(&self) -> (r: RequestDescriptor)
        ensures
            public_get_spec(r, "/api/v1/exchangeInfo".spec_bytes()),
    {
        let r = self.public_request(Method::Get, "/api/v1/exchangeInfo", Vec::new());
        proof {
            assert(params_view(Seq::<crate::encode::Param>::empty()) =~= Seq::<
                (Seq<u8>, Seq<u8>),
            >::empty());
        }
        r
    }

    /// Exchange metadata under the richer result schema.
    pub fn exchange_info(&self) -> (r: RequestDescriptor)
        ensures
            public_get_spec(r, "/api/v1/exchangeInfo".spec_bytes()),
    {
        self.get_exchange_info()
    }
}

} // verus!
