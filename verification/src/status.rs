//! HTTP status codes: the success class and the reason phrases of the `http`
//! crate.

use vstd::prelude::*;
use vstd::string::*;
use crate::text::{decimal, natural_text, optional_str};

verus! {

#[verifier::external_type_specification]
#[verifier::external_body]
pub struct ExStatusCode(http::StatusCode);

#[verifier::external_type_specification]
#[verifier::external_body]
pub struct ExInvalidStatusCode(http::status::InvalidStatusCode);

/// The number that an `http::StatusCode` holds.
pub uninterp spec fn status_number(status: http::StatusCode) -> u16;

/// The reason phrase that `http::StatusCode::canonical_reason` gives for a
/// status number, `None` where it knows none.
pub uninterp spec fn canonical_reason_of(code: u16) -> Option<Seq<char>>;

/// `StatusCode::from_u16`. Trusted: it accepts exactly the numbers from 100 to
/// 999, and the status returned holds the number given.
#[verifier::external_body]
fn status_from_number(code: u16) -> (r: Result<http::StatusCode, http::status::InvalidStatusCode>)
    ensures
        r is Ok <==> 100 <= code <= 999,
        r matches Ok(status) ==> status_number(status) == code,
{
    http::StatusCode::from_u16(code)
}

/// `StatusCode::canonical_reason`. Trusted: the phrase returned is the one
/// `canonical_reason_of` names for the status' number.
#[verifier::external_body]
fn canonical_reason(status: &http::StatusCode) -> (r: Option<&'static str>)
    ensures
        optional_str(r) == canonical_reason_of(status_number(*status)),
{
    status.canonical_reason()
}

/// Whether a status number is in the success class, 200 to 299.
pub open spec fn is_success(code: u16) -> bool {
    200 <= code <= 299
}

/// The standard reason phrase of a status number: none for a number that is no
/// status code (below 100 or above 999) or that has no standard phrase.
pub open spec fn standard_reason(code: u16) -> Option<Seq<char>> {
    if 100 <= code <= 999 {
        canonical_reason_of(code)
    } else {
        None
    }
}

/// The reason phrase shown beside a status number in an error.
pub open spec fn reason_phrase(code: u16) -> Seq<char> {
    match standard_reason(code) {
        Some(phrase) => phrase,
        None => "Unknown"@,
    }
}

/// A status as it is written out: the number, a space, and the standard reason
/// phrase or a placeholder.
pub open spec fn status_line(code: u16) -> Seq<char> {
    decimal(code as int) + " "@ + match standard_reason(code) {
        Some(phrase) => phrase,
        None => "<unknown status code>"@,
    }
}

/// Tells whether `code` is in the success class.
pub fn status_is_success(code: u16) -> (r: bool)
    ensures
        r == is_success(code),
{
    200 <= code && code <= 299
}

/// Looks up the standard reason phrase of `code`.
pub fn lookup_reason(code: u16) -> (r: Option<&'static str>)
    ensures
        optional_str(r) == standard_reason(code),
{
    match status_from_number(code) {
        Ok(status) => canonical_reason(&status),
        Err(_) => None,
    }
}

/// The reason phrase to show beside `code`.
pub fn reason_text(code: u16) -> (r: String)
    ensures
        r@ == reason_phrase(code),
{
    match lookup_reason(code) {
        Some(phrase) => String::from_str(phrase),
        None => String::from_str("Unknown"),
    }
}

/// Writes `code` out with its reason phrase.
pub fn status_text(code: u16) -> (r: String)
    ensures
        r@ == status_line(code),
{
    let mut text = natural_text(code as u64);
    text.append(" ");
    match lookup_reason(code) {
        Some(phrase) => text.append(phrase),
        None => text.append("<unknown status code>"),
    }
    text
}

} // verus!
