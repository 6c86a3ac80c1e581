//! Trusted boundaries to the outside codecs: URL syntax checking, base64
//! decoding, and RFC 3339 timestamp parsing. Each call's result is a
//! function of its argument alone, so each is named by an uninterpreted
//! spec function that the wrapper's contract applies.

use vstd::prelude::*;

verus! {

/// Whether a string parses as a well-formed absolute URL.
pub uninterp spec fn url_parse_ok(s: Seq<char>) -> bool;

/// Relies on `url::Url::parse`: whether it accepts a string depends on the
/// string alone.
#[verifier::external_body]
pub(crate) fn check_url(s: &str) -> (r: bool)
    ensures
        r == url_parse_ok(s@),
{
    url::Url::parse(s).is_ok()
}

/// The bytes that standard base64 decoding yields for an input, if the
/// input is valid base64 text.
pub uninterp spec fn base64_decode(input: Seq<u8>) -> Option<Seq<u8>>;

/// Relies on base64's `BASE64_STANDARD` engine `decode`: the result depends
/// on the input bytes alone.
#[verifier::external_body]
pub(crate) fn decode_base64(input: &[u8]) -> (r: Option<Vec<u8>>)
    ensures
        r is Some <==> base64_decode(input@) is Some,
        r is Some ==> r.unwrap()@ == base64_decode(input@).unwrap(),
{
    base64::Engine::decode(&base64::prelude::BASE64_STANDARD, input).ok()
}

/// An instant as read from an RFC 3339 string: seconds since the Unix epoch,
/// and nanoseconds within that second.
pub struct Timestamp {
    pub secs: i64,
    pub nanos: u32,
}

/// The instant that RFC 3339 parsing yields for a string, if the string
/// parses: epoch seconds and subsecond nanoseconds.
pub uninterp spec fn rfc3339_instant(s: Seq<char>) -> Option<(int, int)>;

/// Relies on chrono's `DateTime::parse_from_rfc3339` with the `timestamp`
/// and `timestamp_subsec_nanos` accessors: the instant read from a string
/// depends on the string alone. Subsecond nanoseconds stay below two
/// billion (chrono represents a leap second as nanoseconds above one
/// billion).
#[verifier::external_body]
pub(crate) fn parse_rfc3339(s: &str) -> (r: Option<Timestamp>)
    ensures
        r is Some <==> rfc3339_instant(s@) is Some,
        r is Some ==> ({
            let t = rfc3339_instant(s@).unwrap();
            &&& r.unwrap().secs as int == t.0
            &&& r.unwrap().nanos as int == t.1
            &&& r.unwrap().nanos < 2_000_000_000
        }),
{
    match chrono::DateTime::parse_from_rfc3339(s) {
        Ok(dt) => Some(Timestamp { secs: dt.timestamp(), nanos: dt.timestamp_subsec_nanos() }),
        Err(_) => None,
    }
}

} // verus!
