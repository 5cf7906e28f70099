//! What the installer reads off an HTTP response.

use vstd::prelude::*;

verus! {

/// The numbers that an HTTP status code can have.
pub open spec fn valid_status(code: u16) -> bool {
    100 <= code <= 999
}

/// The status codes that report success.
pub open spec fn success_status(code: u16) -> bool {
    200 <= code <= 299
}

/// The three decimal digits of a status code.
pub open spec fn status_digits(code: u16) -> Seq<char> {
    seq![
        (('0' as int) + code as int / 100) as char,
        (('0' as int) + code as int / 10 % 10) as char,
        (('0' as int) + code as int % 10) as char,
    ]
}

/// A status code as `reqwest::StatusCode` displays it.
pub uninterp spec fn status_display(code: u16) -> Seq<char>;

/// The text that `String::from_utf8_lossy` reads from bytes.
pub uninterp spec fn utf8_lossy(bytes: Seq<u8>) -> Seq<char>;

/// A status is displayed with its digits first, and a body that is valid
/// UTF-8 is read as it stands.
pub open spec fn read_faithfully(status: u16, body: Seq<u8>) -> bool {
    &&& status_digits(status).push(' ').is_prefix_of(status_display(status))
    &&& vstd::utf8::valid_utf8(body) ==> utf8_lossy(body) == vstd::utf8::decode_utf8(body)
}

/// Calls `reqwest::StatusCode::is_success`, which holds of the codes from 200
/// to 299.
#[verifier::external_body]
pub(crate) fn status_is_success(code: u16) -> (result: bool)
    requires
        valid_status(code),
    ensures
        result == success_status(code),
{
    reqwest::StatusCode::from_u16(code).unwrap().is_success()
}

/// Calls the `Display` impl of `reqwest::StatusCode`. The text is a function
/// of the code alone: its three digits, a space, and the reason phrase from a
/// fixed table.
#[verifier::external_body]
pub(crate) fn status_text(code: u16) -> (text: String)
    requires
        valid_status(code),
    ensures
        text@ == status_display(code),
        status_digits(code).push(' ').is_prefix_of(text@),
{
    reqwest::StatusCode::from_u16(code).unwrap().to_string()
}

/// Calls `String::from_utf8_lossy`. Bytes that are valid UTF-8 are decoded as
/// they stand; the text of others is a function of the bytes alone.
#[verifier::external_body]
pub(crate) fn body_text(body: &[u8]) -> (text: String)
    ensures
        text@ == utf8_lossy(body@),
        vstd::utf8::valid_utf8(body@) ==> text@ == vstd::utf8::decode_utf8(body@),
{
    String::from_utf8_lossy(body).to_string()
}

} // verus!
