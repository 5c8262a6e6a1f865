//! Timestamps, through chrono: validation of inbound timestamp texts and a
//! receipt timestamp for frames that arrive without one.

use vstd::prelude::*;

verus! {

/// Whether a byte string is a well-formed RFC 3339 timestamp.
pub uninterp spec fn rfc3339_ok(s: Seq<u8>) -> bool;

/// Relies on chrono::DateTime::parse_from_rfc3339: whether a timestamp text
/// parses depends on its bytes alone.  Bytes that are not UTF-8 are no
/// timestamp.
#[verifier::external_body]
pub fn parse_rfc3339_ok(s: &Vec<u8>) -> (r: bool)
    ensures
        r == rfc3339_ok(s@),
{
    match std::str::from_utf8(s) {
        Ok(t) => chrono::DateTime::parse_from_rfc3339(t).is_ok(),
        Err(_) => false,
    }
}

/// Relies on chrono::Utc::now and DateTime::to_rfc3339: the moment of receipt
/// as an RFC 3339 text.  Nothing is promised of the value: it depends on the
/// clock.
#[verifier::external_body]
pub fn now_rfc3339() -> (r: Vec<u8>)
{
    chrono::Utc::now().to_rfc3339().into_bytes()
}

} // verus!
