//! Request signing: appends `recvWindow` and `timestamp` to the canonical
//! query, computes the MAC over those exact bytes with the API secret, and
//! attaches the signature as the final field.

use vstd::prelude::*;
use vstd::string::*;
use crate::encode::{
    canonical_query, dec_digits, hex_lower_bytes, pair_bytes, params_view, push_bytes, query_of,
    to_hex_lower, u64_dec, Param, B_AMP, B_EQ,
};

verus! {

/// The HMAC-SHA256 code of `msg` under `key`. The code depends on the key
/// and message bytes alone; its exact value is left to the outside
/// implementation.
pub uninterp spec fn hmac_sha256_of(key: Seq<u8>, msg: Seq<u8>) -> Seq<u8>;

/// Relies on `hmac::Hmac<sha2::Sha256>` (`Mac::new_from_slice`, `Mac::update`,
/// `Mac::finalize`): the code is a function of key and message alone, and a
/// SHA-256 based code is 32 bytes. `new_from_slice` accepts keys of any
/// length for HMAC (its documentation and source show `InvalidLength` is
/// never produced), so the `Err` arm below is unreachable.
#[verifier::external_body]
fn hmac_sha256(key: &[u8], msg: &[u8]) -> (r: Vec<u8>)
    ensures
        r@ == hmac_sha256_of(key@, msg@),
        r@.len() == 32,
{
    match <hmac::Hmac<sha2::Sha256> as hmac::Mac>::new_from_slice(key) {
        Ok(mut mac) => {
            hmac::Mac::update(&mut mac, msg);
            hmac::Mac::finalize(mac).into_bytes().to_vec()
        },
        Err(_) => Vec::new(),
    }
}

/// The parameter sequence extended with `recvWindow` (when present) and
/// `timestamp`, in exactly that order.
pub open spec fn with_time_params(ps: Seq<(Seq<u8>, Seq<u8>)>, rw: Option<u64>, ts: u64) -> Seq<
    (Seq<u8>, Seq<u8>),
> {
    (match rw {
        Some(w) => ps.push(("recvWindow".spec_bytes(), dec_digits(w as nat))),
        None => ps,
    }).push(("timestamp".spec_bytes(), dec_digits(ts as nat)))
}

/// The bytes that are signed and sent: the canonical query over the declared
/// parameters followed by `recvWindow` (if set) and `timestamp`.
pub open spec fn signed_payload_of(ps: Seq<(Seq<u8>, Seq<u8>)>, rw: Option<u64>, ts: u64) -> Seq<
    u8,
> {
    query_of(with_time_params(ps, rw, ts))
}

/// The full signed query string: the payload, then `&signature=` and the
/// lowercase-hex MAC of the payload under `secret`, as the final field.
pub open spec fn signed_query_of(
    ps: Seq<(Seq<u8>, Seq<u8>)>,
    rw: Option<u64>,
    ts: u64,
    secret: Seq<u8>,
) -> Seq<u8> {
    let payload = signed_payload_of(ps, rw, ts);
    payload + seq![B_AMP] + "signature".spec_bytes() + seq![B_EQ] + hex_lower_bytes(
        hmac_sha256_of(secret, payload),
    )
}

/// Builds the fully signed query string over `params`, `recv_window` and
/// `timestamp` using `secret` as the MAC key.
pub fn sign_query(params: Vec<Param>, recv_window: Option<u64>, timestamp: u64, secret: &[u8]) -> (r:
    Vec<u8>)
    ensures
        r@ == signed_query_of(params_view(params@), recv_window, timestamp, secret@),
{
    let ghost ps0 = params_view(params@);
    let mut all = params;
    match recv_window {
        Some(w) => {
            let p = Param { key: "recvWindow".as_bytes_vec(), value: u64_dec(w) };
            all.push(p);
        },
        None => {},
    }
    let tp = Param { key: "timestamp".as_bytes_vec(), value: u64_dec(timestamp) };
    all.push(tp);
    proof {
        assert(params_view(all@) =~= with_time_params(ps0, recv_window, timestamp));
    }
    let payload = canonical_query(&all);
    let mac = hmac_sha256(secret, payload.as_slice());
    let hex = to_hex_lower(mac.as_slice());
    let mut out = payload;
    out.push(B_AMP);
    out = push_bytes(out, "signature".as_bytes());
    out.push(B_EQ);
    out = push_bytes(out, hex.as_slice());
    proof {
        assert(out@ =~= signed_query_of(ps0, recv_window, timestamp, secret@));
    }
    out
}

/// Law: recomputing the MAC over the transmitted payload bytes (everything
/// before the final `&signature=` field) with the known secret reproduces
/// the transmitted signature hex exactly, and the signature is the final
/// field of the signed query.
pub proof fn lemma_signature_recomputable(
    ps: Seq<(Seq<u8>, Seq<u8>)>,
    rw: Option<u64>,
    ts: u64,
    secret: Seq<u8>,
)
    ensures
        ({
            let payload = signed_payload_of(ps, rw, ts);
            let full = signed_query_of(ps, rw, ts, secret);
            &&& full.subrange(0, payload.len() as int) == payload
            &&& full.subrange(payload.len() as int, full.len() as int) == seq![B_AMP]
                + "signature".spec_bytes() + seq![B_EQ] + hex_lower_bytes(
                hmac_sha256_of(secret, payload),
            )
        }),
{
    let payload = signed_payload_of(ps, rw, ts);
    let full = signed_query_of(ps, rw, ts, secret);
    assert(full.subrange(0, payload.len() as int) =~= payload);
    assert(full.subrange(payload.len() as int, full.len() as int) =~= seq![B_AMP]
        + "signature".spec_bytes() + seq![B_EQ] + hex_lower_bytes(hmac_sha256_of(secret, payload)));
}

/// Law: field order in the signed payload is always the declared parameters
/// in schema order, then `recvWindow` when present, then `timestamp`.
pub proof fn lemma_field_order(ps: Seq<(Seq<u8>, Seq<u8>)>, rw: u64, ts: u64)
    requires
        ps.len() > 0,
    ensures
        signed_payload_of(ps, Some(rw), ts) == query_of(ps) + seq![B_AMP] + pair_bytes(
            ("recvWindow".spec_bytes(), dec_digits(rw as nat)),
        ) + seq![B_AMP] + pair_bytes(("timestamp".spec_bytes(), dec_digits(ts as nat))),
        signed_payload_of(ps, None, ts) == query_of(ps) + seq![B_AMP] + pair_bytes(
            ("timestamp".spec_bytes(), dec_digits(ts as nat)),
        ),
{
    let rwp = ("recvWindow".spec_bytes(), dec_digits(rw as nat));
    let tsp = ("timestamp".spec_bytes(), dec_digits(ts as nat));
    let e1 = ps.push(rwp);
    let e2 = e1.push(tsp);
    assert(e1.drop_last() =~= ps);
    assert(e2.drop_last() =~= e1);
    assert(query_of(e1) == query_of(ps) + seq![B_AMP] + pair_bytes(rwp));
    assert(query_of(e2) == query_of(e1) + seq![B_AMP] + pair_bytes(tsp));
    assert(with_time_params(ps, Some(rw), ts) =~= e2);
    assert(signed_payload_of(ps, Some(rw), ts) =~= query_of(ps) + seq![B_AMP] + pair_bytes(rwp)
        + seq![B_AMP] + pair_bytes(tsp));
    let n1 = ps.push(tsp);
    assert(n1.drop_last() =~= ps);
    assert(with_time_params(ps, None, ts) =~= n1);
    assert(signed_payload_of(ps, None, ts) =~= query_of(ps) + seq![B_AMP] + pair_bytes(tsp));
}

} // verus!
