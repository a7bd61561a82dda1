//! The vocabulary of HTTP that both the HTTP source and the delivery path
//! use: status lines, methods and header fields. What a name or a value may
//! look like is decided by the `reqwest` crate; this module asks it.

use vstd::prelude::*;

use crate::text::decimal_digits;
use crate::text::decimal_text;
use crate::text::join3;

verus! {

/// The reason phrase that `reqwest::StatusCode` registers for a status code;
/// `None` for a number outside 100 to 999 and for a code without a phrase.
pub uninterp spec fn reason_phrase(status: u16) -> Option<Seq<char>>;

/// Whether a character may stand in a token of HTTP: a letter or a digit of
/// ASCII, or one of fifteen marks.
pub open spec fn is_token_char(c: char) -> bool {
    ('0' <= c && c <= '9') || ('a' <= c && c <= 'z') || ('A' <= c && c <= 'Z') || c == '!' || c
        == '#' || c == '$' || c == '%' || c == '&' || c == '\'' || c == '*' || c == '+' || c == '-'
        || c == '.' || c == '^' || c == '_' || c == '`' || c == '|' || c == '~'
}

/// Whether a text is a token of HTTP: at least one character, each of which
/// may stand in a token.
pub open spec fn is_token(text: Seq<char>) -> bool {
    text.len() > 0 && forall|i: int| 0 <= i < text.len() ==> is_token_char(#[trigger] text[i])
}

/// Whether a text may be sent as the name of a request method.
pub open spec fn method_accepted(name: Seq<char>) -> bool {
    is_token(name)
}

/// The greatest length of the name of a header field.
pub const MAX_HEADER_NAME_LEN: usize = 65535;

/// Whether a text may be sent as the name of a header field.
pub open spec fn header_name_accepted(name: Seq<char>) -> bool {
    is_token(name) && name.len() <= MAX_HEADER_NAME_LEN
}

/// The upper-case form of a text, as `str::to_uppercase` gives it.
pub uninterp spec fn uppercase(text: Seq<char>) -> Seq<char>;

/// Whether a text may be sent as the value of a header field: it holds no
/// character below the space but the tab, and not the delete character.
pub open spec fn header_value_accepted(value: Seq<char>) -> bool {
    forall|i: int|
        0 <= i < value.len() ==> {
            let c = #[trigger] value[i];
            (c as u32 >= 32 && c as u32 != 127) || c == '\t'
        }
}

/// Whether a status code reports success.
pub open spec fn is_success(status: u16) -> bool {
    200 <= status < 300
}

/// A status as it is written in a message: the number, then the reason
/// phrase or a placeholder.
pub open spec fn status_line_with(status: u16, reason: Option<Seq<char>>) -> Seq<char> {
    decimal_digits(status as nat) + " "@ + match reason {
        Some(phrase) => phrase,
        None => "<unknown status code>"@,
    }
}

/// The status as it is written in a message, with the reason phrase that is
/// registered for it.
pub open spec fn status_line(status: u16) -> Seq<char> {
    status_line_with(status, reason_phrase(status))
}

/// A reason phrase, by its characters.
pub open spec fn reason_view(reason: Option<String>) -> Option<Seq<char>> {
    match reason {
        Some(phrase) => Some(phrase@),
        None => None,
    }
}

/// Calls `reqwest::StatusCode::from_u16` and, on a valid code,
/// `canonical_reason`. The contract only gives the phrase its name.
#[verifier::external_body]
pub(crate) fn canonical_reason(status: u16) -> (r: Option<String>)
    ensures
        reason_view(r) == reason_phrase(status),
{
    match reqwest::StatusCode::from_u16(status) {
        Ok(code) => code.canonical_reason().map(|phrase| phrase.to_string()),
        Err(_) => None,
    }
}

/// Calls `reqwest::header::HeaderValue::from_str` and hands back the text of
/// its error. That function accepts a text exactly when each of its bytes is
/// the tab, or is at least 32 and not 127; every byte of a character beyond
/// ASCII is above 127. Its error always reads the same.
#[verifier::external_body]
pub(crate) fn header_value_error(value: &str) -> (r: Option<String>)
    ensures
        r is None <==> header_value_accepted(value@),
        r matches Some(text) ==> text@ == "failed to parse header value"@,
{
    match reqwest::header::HeaderValue::from_str(value) {
        Ok(_) => None,
        Err(e) => Some(e.to_string()),
    }
}

/// Calls `reqwest::header::HeaderName::from_str`, through `str::parse`,
/// and says whether it succeeded. That function accepts a text of 1 to 65535
/// bytes exactly when its table of header characters holds an entry for
/// each byte; the table holds one for the token characters and for no other
/// byte.
#[verifier::external_body]
pub(crate) fn is_header_name(name: &str) -> (r: bool)
    ensures
        r == header_name_accepted(name@),
{
    name.parse::<reqwest::header::HeaderName>().is_ok()
}

/// Calls `reqwest::Method::from_str`, through `str::parse`, and says
/// whether it succeeded. That function accepts a text that is not empty
/// exactly when its table of method characters holds an entry for each byte;
/// the table holds one for the token characters and for no other byte.
#[verifier::external_body]
pub(crate) fn is_method(name: &str) -> (r: bool)
    ensures
        r == method_accepted(name@),
{
    name.parse::<reqwest::Method>().is_ok()
}

/// Calls `str::to_uppercase`.
#[verifier::external_body]
pub(crate) fn to_uppercase(text: &str) -> (r: String)
    ensures
        r@ == uppercase(text@),
{
    text.to_uppercase()
}

/// Writes a status as it appears in a message, given its reason phrase.
pub fn status_text_with(status: u16, reason: &Option<String>) -> (s: String)
    ensures
        s@ == status_line_with(status, reason_view(*reason)),
{
    let number = decimal_text(status as u64);
    match reason {
        Some(phrase) => join3(number.as_str(), " ", phrase.as_str()),
        None => join3(number.as_str(), " ", "<unknown status code>"),
    }
}

/// Writes the status as it appears in a message.
pub fn status_text(status: u16) -> (s: String)
    ensures
        s@ == status_line(status),
{
    let reason = canonical_reason(status);
    status_text_with(status, &reason)
}

} // verus!
