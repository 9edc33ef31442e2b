//! Canonical byte-level encoding of request parameters.
//!
//! The exchange validates signatures over the exact bytes sent on the wire,
//! so every textual rendering here (percent-encoding, decimal numbers, hex)
//! is specified byte by byte and proved against that specification.

use vstd::prelude::*;

verus! {

/// ASCII codes used by the wire encoding.
pub const B_UPPER_A: u8 = 65;

pub const B_UPPER_Z: u8 = 90;

pub const B_LOWER_A: u8 = 97;

pub const B_LOWER_Z: u8 = 122;

pub const B_ZERO: u8 = 48;

pub const B_NINE: u8 = 57;

pub const B_HYPHEN: u8 = 45;

pub const B_UNDERSCORE: u8 = 95;

pub const B_DOT: u8 = 46;

pub const B_TILDE: u8 = 126;

pub const B_PERCENT: u8 = 37;

pub const B_AMP: u8 = 38;

pub const B_EQ: u8 = 61;

/// Bytes that travel unescaped in a query-string value.
pub open spec fn is_unreserved(b: u8) -> bool {
    (B_UPPER_A <= b && b <= B_UPPER_Z) || (B_LOWER_A <= b && b <= B_LOWER_Z) || (B_ZERO <= b && b <= B_NINE) || b == B_HYPHEN
        || b == B_UNDERSCORE || b == B_DOT || b == B_TILDE
}

/// ASCII code of the lowercase hex digit for `d < 16`.
pub open spec fn hex_digit_lower(d: u8) -> u8
    recommends
        d < 16,
{
    if d < 10 {
        (d + B_ZERO) as u8
    } else {
        ((d - 10) + B_LOWER_A) as u8
    }
}

/// ASCII code of the uppercase hex digit for `d < 16`.
pub open spec fn hex_digit_upper(d: u8) -> u8
    recommends
        d < 16,
{
    if d < 10 {
        (d + B_ZERO) as u8
    } else {
        ((d - 10) + B_UPPER_A) as u8
    }
}

/// Percent-encoding of a single byte: unreserved bytes stand as themselves,
/// every other byte becomes `%XX` with uppercase hex.
pub open spec fn pct_byte(b: u8) -> Seq<u8> {
    if is_unreserved(b) {
        seq![b]
    } else {
        seq![B_PERCENT, hex_digit_upper((b / 16) as u8), hex_digit_upper((b % 16) as u8)]
    }
}

/// Percent-encoding of a byte string, byte by byte.
pub open spec fn pct_bytes(s: Seq<u8>) -> Seq<u8>
    decreases s.len(),
{
    if s.len() == 0 {
        Seq::empty()
    } else {
        pct_bytes(s.drop_last()) + pct_byte(s.last())
    }
}

/// Decimal rendering of a natural number, most significant digit first,
/// without leading zeros (except for the number 0 itself).
pub open spec fn dec_digits(n: nat) -> Seq<u8>
    decreases n,
{
    if n < 10 {
        seq![(n + B_ZERO) as u8]
    } else {
        dec_digits(n / 10) + seq![((n % 10) + B_ZERO) as u8]
    }
}

/// Decimal rendering of a signed number: a leading `-` for negatives.
pub open spec fn dec_signed(n: int) -> Seq<u8> {
    if n >= 0 {
        dec_digits(n as nat)
    } else {
        seq![B_HYPHEN] + dec_digits((-n) as nat)
    }
}

/// Lowercase hex rendering of a byte string: two digits per byte.
pub open spec fn hex_lower_bytes(s: Seq<u8>) -> Seq<u8>
    decreases s.len(),
{
    if s.len() == 0 {
        Seq::empty()
    } else {
        hex_lower_bytes(s.drop_last()) + seq![
            hex_digit_lower((s.last() / 16) as u8),
            hex_digit_lower((s.last() % 16) as u8),
        ]
    }
}

/// One `key=value` request parameter, already in wire-byte form.
pub struct Param {
    pub key: Vec<u8>,
    pub value: Vec<u8>,
}

impl View for Param {
    type V = (Seq<u8>, Seq<u8>);

    open spec fn view(&self) -> (Seq<u8>, Seq<u8>) {
        (self.key@, self.value@)
    }
}

/// Wire bytes of one parameter: the key verbatim, `=`, the value
/// percent-encoded.
pub open spec fn pair_bytes(p: (Seq<u8>, Seq<u8>)) -> Seq<u8> {
    p.0 + seq![B_EQ] + pct_bytes(p.1)
}

/// The canonical query string: `key=value` pairs in the given order, joined
/// by `&`. The order of `ps` is preserved exactly; encoding the same
/// parameter sequence always yields the same bytes.
pub open spec fn query_of(ps: Seq<(Seq<u8>, Seq<u8>)>) -> Seq<u8>
    decreases ps.len(),
{
    if ps.len() == 0 {
        Seq::empty()
    } else if ps.len() == 1 {
        pair_bytes(ps.last())
    } else {
        query_of(ps.drop_last()) + seq![B_AMP] + pair_bytes(ps.last())
    }
}

/// View of a parameter list as the sequence of key/value byte strings.
pub open spec fn params_view(ps: Seq<Param>) -> Seq<(Seq<u8>, Seq<u8>)> {
    ps.map_values(|p: Param| p@)
}

/// Law: encoding is deterministic — parameter sequences with the same field
/// values yield byte-identical canonical query strings, however often they
/// are encoded.
pub proof fn lemma_canonical_deterministic(a: Seq<(Seq<u8>, Seq<u8>)>, b: Seq<(Seq<u8>, Seq<u8>)>)
    requires
        a == b,
    ensures
        query_of(a) == query_of(b),
{
}

fn is_unreserved_byte(b: u8) -> (r: bool)
    ensures
        r == is_unreserved(b),
{
    (B_UPPER_A <= b && b <= B_UPPER_Z) || (B_LOWER_A <= b && b <= B_LOWER_Z) || (B_ZERO <= b && b <= B_NINE) || b == B_HYPHEN
        || b == B_UNDERSCORE || b == B_DOT || b == B_TILDE
}

fn hex_upper_digit(d: u8) -> (r: u8)
    requires
        d < 16,
    ensures
        r == hex_digit_upper(d),
{
    if d < 10 {
        d + B_ZERO
    } else {
        (d - 10) + B_UPPER_A
    }
}

fn hex_lower_digit(d: u8) -> (r: u8)
    requires
        d < 16,
    ensures
        r == hex_digit_lower(d),
{
    if d < 10 {
        d + B_ZERO
    } else {
        (d - 10) + B_LOWER_A
    }
}

/// Appends `src` to `dst`, returning the extended vector.
pub fn push_bytes(dst: Vec<u8>, src: &[u8]) -> (r: Vec<u8>)
    ensures
        r@ == dst@ + src@,
{
    let ghost dst0 = dst@;
    let mut out = dst;
    let mut i: usize = 0;
    while i < src.len()
        invariant
            i <= src@.len(),
            out@ == dst0 + src@.subrange(0, i as int),
        decreases src@.len() - i,
    {
        out.push(src[i]);
        proof {
            assert(src@.subrange(0, (i + 1) as int) =~= src@.subrange(0, i as int).push(
                src@[i as int],
            ));
        }
        i = i + 1;
    }
    proof {
        assert(src@.subrange(0, src@.len() as int) =~= src@);
    }
    out
}

/// Percent-encodes a byte string.
pub fn percent_encode(src: &[u8]) -> (r: Vec<u8>)
    ensures
        r@ == pct_bytes(src@),
{
    let mut out: Vec<u8> = Vec::new();
    let mut i: usize = 0;
    while i < src.len()
        invariant
            i <= src@.len(),
            out@ == pct_bytes(src@.subrange(0, i as int)),
        decreases src@.len() - i,
    {
        let b = src[i];
        if is_unreserved_byte(b) {
            out.push(b);
        } else {
            out.push(B_PERCENT);
            out.push(hex_upper_digit(b / 16));
            out.push(hex_upper_digit(b % 16));
        }
        proof {
            let pre = src@.subrange(0, i as int);
            let post = src@.subrange(0, (i + 1) as int);
            assert(post.drop_last() =~= pre);
            assert(post.last() == src@[i as int]);
        }
        i = i + 1;
    }
    proof {
        assert(src@.subrange(0, src@.len() as int) =~= src@);
    }
    out
}

/// Renders `n` in decimal, most significant digit first.
pub fn u64_dec(n: u64) -> (r: Vec<u8>)
    ensures
        r@ == dec_digits(n as nat),
    decreases n,
{
    if n < 10 {
        let mut v: Vec<u8> = Vec::new();
        v.push((n as u8) + B_ZERO);
        v
    } else {
        let mut v = u64_dec(n / 10);
        v.push(((n % 10) as u8) + B_ZERO);
        proof {
            assert(v@ =~= dec_digits((n / 10) as nat) + seq![
                (((n as nat) % 10) + B_ZERO) as u8,
            ]);
        }
        v
    }
}

/// Renders `n` in decimal with a leading `-` for negative values.
pub fn i64_dec(n: i64) -> (r: Vec<u8>)
    ensures
        r@ == dec_signed(n as int),
{
    if n >= 0 {
        u64_dec(n as u64)
    } else {
        let mag: u64 = ((-(n as i128)) as u64);
        let mut v: Vec<u8> = Vec::new();
        v.push(B_HYPHEN);
        let digits = u64_dec(mag);
        let out = push_bytes(v, digits.as_slice());
        out
    }
}

/// Renders a byte string as lowercase hex, two digits per byte.
pub fn to_hex_lower(src: &[u8]) -> (r: Vec<u8>)
    ensures
        r@ == hex_lower_bytes(src@),
{
    let mut out: Vec<u8> = Vec::new();
    let mut i: usize = 0;
    while i < src.len()
        invariant
            i <= src@.len(),
            out@ == hex_lower_bytes(src@.subrange(0, i as int)),
        decreases src@.len() - i,
    {
        let b = src[i];
        out.push(hex_lower_digit(b / 16));
        out.push(hex_lower_digit(b % 16));
        proof {
            let pre = src@.subrange(0, i as int);
            let post = src@.subrange(0, (i + 1) as int);
            assert(post.drop_last() =~= pre);
            assert(post.last() == src@[i as int]);
        }
        i = i + 1;
    }
    proof {
        assert(src@.subrange(0, src@.len() as int) =~= src@);
    }
    out
}

/// Builds the canonical query string for `params`: pairs in the given order,
/// keys verbatim, values percent-encoded, joined by `&`.
pub fn canonical_query(params: &Vec<Param>) -> (r: Vec<u8>)
    ensures
        r@ == query_of(params_view(params@)),
{
    let mut out: Vec<u8> = Vec::new();
    let mut i: usize = 0;
    while i < params.len()
        invariant
            i <= params@.len(),
            out@ == query_of(params_view(params@.subrange(0, i as int))),
        decreases params@.len() - i,
    {
        if i > 0 {
            out.push(B_AMP);
        }
        out = push_bytes(out, params[i].key.as_slice());
        out.push(B_EQ);
        let enc = percent_encode(params[i].value.as_slice());
        out = push_bytes(out, enc.as_slice());
        proof {
            let pre = params_view(params@.subrange(0, i as int));
            let post = params_view(params@.subrange(0, (i + 1) as int));
            assert(post.drop_last() =~= pre);
            assert(post.last() == params@[i as int]@);
        }
        i = i + 1;
    }
    proof {
        assert(params@.subrange(0, params@.len() as int) =~= params@);
    }
    out
}

} // verus!
