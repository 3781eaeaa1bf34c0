//! Trusted encodings the mirror relies on: Base64, HMAC-SHA-1, and clock
//! text. Each outside result is named by an uninterpreted function; the
//! verified logic speaks of those names.

use vstd::prelude::*;

use base64::Engine;

verus! {

/// The Base64 text of a byte sequence, standard alphabet with padding.
pub uninterp spec fn b64_of(b: Seq<u8>) -> Seq<char>;

/// The HMAC-SHA-1 digest of `data` under `key`.
pub uninterp spec fn hmac_sha1_of(key: Seq<u8>, data: Seq<u8>) -> Seq<u8>;

/// The HTTP `Date`-style GMT text of a Unix time.
pub uninterp spec fn gmt_date_of(secs: i64) -> Seq<char>;

/// The Unix time an RFC 3339 timestamp text denotes, if it parses.
pub uninterp spec fn rfc3339_secs_of(s: Seq<char>) -> Option<i64>;

/// The last Unix second the GMT formatter is asked to render: the final
/// second of the year 9999, well inside the range chrono accepts.
pub const MAX_GMT_SECS: i64 = 253402300799;

/// Relies on base64's standard engine: the padded standard-alphabet encoding
/// of the input bytes, four characters per three input bytes.
#[verifier::external_body]
pub fn b64_encode(b: &[u8]) -> (r: String)
    ensures
        r@ == b64_of(b@),
        r@.len() == 4 * ((b@.len() + 2) / 3),
{
    base64::engine::general_purpose::STANDARD.encode(b)
}

/// Relies on the hmac and sha1 crates: the twenty-byte HMAC-SHA-1 digest of
/// `data` under `key`, a function of the two arguments alone. The HMAC key
/// setup accepts keys of any length.
#[verifier::external_body]
pub fn hmac_sha1(key: &[u8], data: &[u8]) -> (r: Vec<u8>)
    ensures
        r@ == hmac_sha1_of(key@, data@),
        r@.len() == 20,
{
    let mut mac = <hmac::Hmac<sha1::Sha1> as hmac::KeyInit>::new_from_slice(key).expect(
        "HMAC accepts keys of any length",
    );
    hmac::Mac::update(&mut mac, data);
    hmac::Mac::finalize(mac).into_bytes().to_vec()
}

/// Relies on chrono's UTC formatting: the `%a, %d %b %Y %H:%M:%S GMT` text of
/// the given Unix time, a function of the timestamp alone. The bound keeps
/// the timestamp inside chrono's representable range.
#[verifier::external_body]
pub fn format_gmt(secs: i64) -> (r: String)
    requires
        0 <= secs <= MAX_GMT_SECS,
    ensures
        r@ == gmt_date_of(secs),
{
    let dt = chrono::DateTime::<chrono::Utc>::from_timestamp(secs, 0).expect(
        "timestamp in formatting range",
    );
    dt.format("%a, %d %b %Y %H:%M:%S GMT").to_string()
}

/// Relies on chrono's `DateTime<Utc>` parsing (RFC 3339): whether the text
/// parses, and to which Unix time, depends on the text alone.
#[verifier::external_body]
pub fn parse_rfc3339_secs(s: &str) -> (r: Option<i64>)
    ensures
        r == rfc3339_secs_of(s@),
{
    <chrono::DateTime<chrono::Utc> as std::str::FromStr>::from_str(s).ok().map(|d| d.timestamp())
}

} // verus!
