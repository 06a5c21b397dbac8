//! The boundary with the outside crates that the session layer leans on:
//! base64 for basic-auth material, uuid for tenant identifiers, chrono for
//! the server Date header and the clock. Each outside call stands behind a
//! single wrapper whose contract names what the call computes; everything
//! around the calls is verified against those names.

use vstd::prelude::*;

verus! {

/// Every chrono datetime lies within roughly 262000 years of the epoch
/// either way, so its timestamp in seconds stays well under this bound.
pub const MAX_EPOCH_SECS: i64 = 10_000_000_000_000;

/// The base64 rendering (standard alphabet, padded) of a string's bytes.
pub uninterp spec fn b64_of(s: Seq<char>) -> Seq<char>;

/// The lower-case hyphenated form of a UUID string, in any of the accepted
/// input formats, or `None` where the string is not a UUID at all.
pub uninterp spec fn uuid_canon_of(s: Seq<char>) -> Option<Seq<char>>;

/// The seconds since the Unix epoch named by an RFC 2822 date string, or
/// `None` where the string does not parse as one.
pub uninterp spec fn rfc2822_epoch_of(s: Seq<char>) -> Option<i64>;

/// Relies on base64::encode: the standard-alphabet, padded encoding of the
/// input bytes, a function of the input alone.
#[verifier::external_body]
pub(crate) fn b64_encode(s: &str) -> (r: String)
    ensures
        r@ == b64_of(s@),
{
    base64::encode(s.as_bytes())
}

/// Relies on uuid::Uuid::parse_str, which accepts the hyphenated, simple,
/// urn and braced renderings, and on Uuid's Display impl, which always
/// writes the lower-case hyphenated form of 36 characters. The outcome is a
/// function of the input characters alone.
#[verifier::external_body]
pub(crate) fn uuid_canon(s: &str) -> (r: Option<String>)
    ensures
        match r {
            Some(c) => uuid_canon_of(s@) == Some(c@) && c@.len() == 36,
            None => uuid_canon_of(s@) is None,
        },
{
    match uuid::Uuid::parse_str(s) {
        Ok(u) => Some(u.to_string()),
        Err(_) => None,
    }
}

/// Relies on chrono's DateTime::parse_from_rfc2822 and DateTime::timestamp:
/// parsing is a function of the input characters alone, and the timestamp of
/// any chrono datetime is bounded by the range of representable dates.
#[verifier::external_body]
pub(crate) fn rfc2822_epoch(s: &str) -> (r: Option<i64>)
    ensures
        match r {
            Some(t) => rfc2822_epoch_of(s@) == Some(t) && -MAX_EPOCH_SECS <= t
                <= MAX_EPOCH_SECS,
            None => rfc2822_epoch_of(s@) is None,
        },
{
    match chrono::DateTime::parse_from_rfc2822(s) {
        Ok(dt) => Some(dt.timestamp()),
        Err(_) => None,
    }
}

/// Relies on chrono::Utc::now, a reading of the system clock: nothing holds
/// of which instant comes back beyond the bound every chrono datetime
/// carries.
#[verifier::external_body]
pub(crate) fn now_epoch() -> (r: i64)
    ensures
        -MAX_EPOCH_SECS <= r <= MAX_EPOCH_SECS,
{
    chrono::Utc::now().timestamp()
}

} // verus!
