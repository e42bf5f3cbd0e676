//! The one place the library reads the wall clock, and the shape that every
//! timestamp it hands out is known to have.

use crate::json::{json_escaped, lemma_json_escaped_plain, plain_json_char};
use vstd::prelude::*;

verus! {

/// A character that chrono's RFC 3339 rendering can emit: a digit, or one of
/// the fixed separators and signs.
pub open spec fn rfc3339_char(c: char) -> bool {
    ('0' <= c && c <= '9') || c == '-' || c == ':' || c == 'T' || c == '+' || c == '.'
}

/// The shape of every RFC 3339 string chrono renders for a UTC time: at
/// least twenty-five characters, digits and separators only, a `T` between
/// the date and the time, and the fixed numeric offset `+00:00` at the end.
pub open spec fn rfc3339_utc_shaped(s: Seq<char>) -> bool {
    &&& s.len() >= 25
    &&& (forall|i: int| 0 <= i < s.len() ==> rfc3339_char(#[trigger] s[i]))
    &&& (exists|i: int| 0 <= i < s.len() && (#[trigger] s[i]) == 'T')
    &&& s[s.len() - 6] == '+'
    &&& s[s.len() - 5] == '0'
    &&& s[s.len() - 4] == '0'
    &&& s[s.len() - 3] == ':'
    &&& s[s.len() - 2] == '0'
    &&& s[s.len() - 1] == '0'
}

/// An RFC 3339 timestamp holds no quote, backslash or control character, so
/// it appears in a JSON string literal exactly as it is.
pub proof fn lemma_rfc3339_plain(s: Seq<char>)
    requires
        rfc3339_utc_shaped(s),
    ensures
        json_escaped(s) == s,
{
    assert forall|i: int| 0 <= i < s.len() implies plain_json_char(#[trigger] s[i]) by {
        assert(rfc3339_char(s[i]));
    }
    lemma_json_escaped_plain(s);
}

/// Relies on chrono's `From<SystemTime>` conversion to a UTC date-time and
/// on `DateTime::to_rfc3339`: the current time rendered as an RFC 3339
/// string such as `1996-12-19T16:39:57+00:00`. The renderer always writes at
/// least a four-digit year, two digits for month, day, hours, minutes and
/// seconds, the two date separators, the `T`, the two time separators, at
/// most a sign and a fractional part beyond those, and the six-character
/// zero offset `+00:00` last, all from digits and fixed separators. The
/// conversion accepts a host clock before the Unix epoch rather than
/// failing.
#[verifier::external_body]
pub(crate) fn now_rfc3339() -> (r: String)
    ensures
        rfc3339_utc_shaped(r@),
{
    chrono::DateTime::<chrono::Utc>::from(std::time::SystemTime::now()).to_rfc3339()
}

} // verus!
