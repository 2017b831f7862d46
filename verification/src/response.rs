//! The shared answer-handling of all operations: classify the HTTP status,
//! decode the success payload or the vendor error envelope, and return a
//! typed result or a classified [`Error`]. Every operation routes through
//! [`spec_classify_failure`], so all endpoints fail identically.

use vstd::prelude::*;
use vstd::string::StringExecFns;
use crate::error::{Error, ErrorView};
use crate::json::chars_to_string;
use crate::shapes::{
    spec_parse_message_body, spec_parse_usage_body, spec_parse_languages_body,
    spec_parse_translations_body, spec_language_views, spec_translation_views, parse_message_body,
    parse_usage_body, parse_languages_body, parse_translations_body,
};
use crate::types::{UsageInformation, LanguageInformation, TranslatedText};

verus! {

/// A success status: any 2xx answer.
pub open spec fn spec_is_success(status: u16) -> bool {
    200 <= status < 300
}

/// The decimal digits of a number, most significant first (empty for zero).
pub open spec fn spec_decimal_digits(n: int) -> Seq<char>
    decreases n,
{
    if n <= 0 {
        Seq::empty()
    } else {
        spec_decimal_digits(n / 10).push((48 + n % 10) as char)
    }
}

/// The canonical reason phrase of an HTTP status code, or the fixed
/// placeholder for a code without one.
pub open spec fn spec_status_reason(status: u16) -> Seq<char> {
    match status {
        100u16 => "Continue"@,
        101u16 => "Switching Protocols"@,
        102u16 => "Processing"@,
        200u16 => "OK"@,
        201u16 => "Created"@,
        202u16 => "Accepted"@,
        203u16 => "Non Authoritative Information"@,
        204u16 => "No Content"@,
        205u16 => "Reset Content"@,
        206u16 => "Partial Content"@,
        207u16 => "Multi-Status"@,
        208u16 => "Already Reported"@,
        226u16 => "IM Used"@,
        300u16 => "Multiple Choices"@,
        301u16 => "Moved Permanently"@,
        302u16 => "Found"@,
        303u16 => "See Other"@,
        304u16 => "Not Modified"@,
        305u16 => "Use Proxy"@,
        307u16 => "Temporary Redirect"@,
        308u16 => "Permanent Redirect"@,
        400u16 => "Bad Request"@,
        401u16 => "Unauthorized"@,
        402u16 => "Payment Required"@,
        403u16 => "Forbidden"@,
        404u16 => "Not Found"@,
        405u16 => "Method Not Allowed"@,
        406u16 => "Not Acceptable"@,
        407u16 => "Proxy Authentication Required"@,
        408u16 => "Request Timeout"@,
        409u16 => "Conflict"@,
        410u16 => "Gone"@,
        411u16 => "Length Required"@,
        412u16 => "Precondition Failed"@,
        413u16 => "Payload Too Large"@,
        414u16 => "URI Too Long"@,
        415u16 => "Unsupported Media Type"@,
        416u16 => "Range Not Satisfiable"@,
        417u16 => "Expectation Failed"@,
        418u16 => "I'm a teapot"@,
        421u16 => "Misdirected Request"@,
        422u16 => "Unprocessable Entity"@,
        423u16 => "Locked"@,
        424u16 => "Failed Dependency"@,
        426u16 => "Upgrade Required"@,
        428u16 => "Precondition Required"@,
        429u16 => "Too Many Requests"@,
        431u16 => "Request Header Fields Too Large"@,
        451u16 => "Unavailable For Legal Reasons"@,
        500u16 => "Internal Server Error"@,
        501u16 => "Not Implemented"@,
        502u16 => "Bad Gateway"@,
        503u16 => "Service Unavailable"@,
        504u16 => "Gateway Timeout"@,
        505u16 => "HTTP Version Not Supported"@,
        506u16 => "Variant Also Negotiates"@,
        507u16 => "Insufficient Storage"@,
        508u16 => "Loop Detected"@,
        510u16 => "Not Extended"@,
        511u16 => "Network Authentication Required"@,
        _ => "<unknown status code>"@,
    }
}

/// The status description: the code in decimal, a space, and the reason
/// phrase.
pub open spec fn spec_status_line(status: u16) -> Seq<char> {
    (if status == 0 {
        seq!['0']
    } else {
        spec_decimal_digits(status as int)
    }) + " "@ + spec_status_reason(status)
}

/// The classification of a non-success answer: 401 and 403 are authorization
/// errors whatever the body holds; any other non-success status is a server
/// error carrying the vendor's decoded `message` when the body holds one,
/// else the status description.
pub open spec fn spec_classify_failure(status: u16, body: Seq<char>) -> ErrorView {
    if status == 401 || status == 403 {
        ErrorView::Authorization
    } else {
        match spec_parse_message_body(body) {
            Option::Some(m) => ErrorView::Server(m),
            Option::None => ErrorView::Server(spec_status_line(status)),
        }
    }
}

/// What a usage operation returns for a given answer: the parsed usage record
/// on a success status with a well-shaped body, a deserialization error on a
/// success status with any other body, and the classified failure otherwise.
pub open spec fn spec_usage_outcome(status: u16, body: Seq<char>) -> Result<
    UsageInformation,
    ErrorView,
> {
    if spec_is_success(status) {
        match spec_parse_usage_body(body) {
            Option::Some(u) => Result::Ok(u),
            Option::None => Result::Err(ErrorView::Deserialization),
        }
    } else {
        Result::Err(spec_classify_failure(status, body))
    }
}

/// What a languages operation returns for a given answer, with the language
/// descriptors in the server's order.
pub open spec fn spec_languages_outcome(status: u16, body: Seq<char>) -> Result<
    Seq<(Seq<char>, Seq<char>)>,
    ErrorView,
> {
    if spec_is_success(status) {
        match spec_parse_languages_body(body) {
            Option::Some(ls) => Result::Ok(ls),
            Option::None => Result::Err(ErrorView::Deserialization),
        }
    } else {
        Result::Err(spec_classify_failure(status, body))
    }
}

/// What a translate operation returns for a given answer, with the translated
/// texts in the server's order.
pub open spec fn spec_translate_outcome(status: u16, body: Seq<char>) -> Result<
    Seq<(Seq<char>, Seq<char>)>,
    ErrorView,
> {
    if spec_is_success(status) {
        match spec_parse_translations_body(body) {
            Option::Some(ts) => Result::Ok(ts),
            Option::None => Result::Err(ErrorView::Deserialization),
        }
    } else {
        Result::Err(spec_classify_failure(status, body))
    }
}

/// Renders the status description, as [`spec_status_line`] describes it.
fn status_line(status: u16) -> (r: String)
    ensures
        r@ == spec_status_line(status),
{
    let mut digits: Vec<char> = Vec::new();
    if status == 0 {
        digits.push('0');
        proof {
            assert(digits@ =~= seq!['0']);
        }
    } else {
        push_decimal_digits(status, &mut digits);
    }
    let num = chars_to_string(digits);
    num.concat(" ").concat(status_reason(status))
}

/// Appends the decimal digits of `v` (none for zero), as
/// [`spec_decimal_digits`] describes them.
fn push_decimal_digits(v: u16, out: &mut Vec<char>)
    ensures
        final(out)@ == old(out)@ + spec_decimal_digits(v as int),
    decreases v,
{
    if v == 0 {
        proof {
            assert(out@ =~= out@ + spec_decimal_digits(0));
        }
        return ;
    }
    push_decimal_digits(v / 10, out);
    let d: u8 = (v % 10) as u8;
    out.push((48 + d) as char);
    proof {
        assert(out@ =~= old(out)@ + spec_decimal_digits(v as int));
    }
}

/// The canonical reason phrase, as [`spec_status_reason`] gives it.
fn status_reason(status: u16) -> (r: &'static str)
    ensures
        r@ == spec_status_reason(status),
{
    match status {
        100u16 => "Continue",
        101u16 => "Switching Protocols",
        102u16 => "Processing",
        200u16 => "OK",
        201u16 => "Created",
        202u16 => "Accepted",
        203u16 => "Non Authoritative Information",
        204u16 => "No Content",
        205u16 => "Reset Content",
        206u16 => "Partial Content",
        207u16 => "Multi-Status",
        208u16 => "Already Reported",
        226u16 => "IM Used",
        300u16 => "Multiple Choices",
        301u16 => "Moved Permanently",
        302u16 => "Found",
        303u16 => "See Other",
        304u16 => "Not Modified",
        305u16 => "Use Proxy",
        307u16 => "Temporary Redirect",
        308u16 => "Permanent Redirect",
        400u16 => "Bad Request",
        401u16 => "Unauthorized",
        402u16 => "Payment Required",
        403u16 => "Forbidden",
        404u16 => "Not Found",
        405u16 => "Method Not Allowed",
        406u16 => "Not Acceptable",
        407u16 => "Proxy Authentication Required",
        408u16 => "Request Timeout",
        409u16 => "Conflict",
        410u16 => "Gone",
        411u16 => "Length Required",
        412u16 => "Precondition Failed",
        413u16 => "Payload Too Large",
        414u16 => "URI Too Long",
        415u16 => "Unsupported Media Type",
        416u16 => "Range Not Satisfiable",
        417u16 => "Expectation Failed",
        418u16 => "I'm a teapot",
        421u16 => "Misdirected Request",
        422u16 => "Unprocessable Entity",
        423u16 => "Locked",
        424u16 => "Failed Dependency",
        426u16 => "Upgrade Required",
        428u16 => "Precondition Required",
        429u16 => "Too Many Requests",
        431u16 => "Request Header Fields Too Large",
        451u16 => "Unavailable For Legal Reasons",
        500u16 => "Internal Server Error",
        501u16 => "Not Implemented",
        502u16 => "Bad Gateway",
        503u16 => "Service Unavailable",
        504u16 => "Gateway Timeout",
        505u16 => "HTTP Version Not Supported",
        506u16 => "Variant Also Negotiates",
        507u16 => "Insufficient Storage",
        508u16 => "Loop Detected",
        510u16 => "Not Extended",
        511u16 => "Network Authentication Required",
        _ => "<unknown status code>",
    }
}

/// Whether the status is a success (2xx) answer.
pub fn is_success_status(status: u16) -> (r: bool)
    ensures
        r == spec_is_success(status),
{
    200 <= status && status < 300
}

/// Classifies a non-success answer, as [`spec_classify_failure`] describes
/// it.
fn classify_failure(status: u16, body: &str) -> (r: Error)
    ensures
        r@ == spec_classify_failure(status, body@),
{
    if status == 401 || status == 403 {
        Error::AuthorizationError
    } else {
        match parse_message_body(body) {
            Option::Some(m) => Error::ServerError(m),
            Option::None => Error::ServerError(status_line(status)),
        }
    }
}

/// Decides a usage answer: exactly [`spec_usage_outcome`] of the status and
/// body the server sent.
pub fn usage_from_response(status: u16, body: &str) -> (r: Result<UsageInformation, Error>)
    ensures
        match r {
            Result::Ok(u) => spec_usage_outcome(status, body@) == Result::<
                UsageInformation,
                ErrorView,
            >::Ok(u),
            Result::Err(e) => spec_usage_outcome(status, body@) == Result::<
                UsageInformation,
                ErrorView,
            >::Err(e@),
        },
{
    if is_success_status(status) {
        match parse_usage_body(body) {
            Option::Some(u) => Result::Ok(u),
            Option::None => Result::Err(Error::DeserializationError),
        }
    } else {
        Result::Err(classify_failure(status, body))
    }
}

/// Decides a languages answer: exactly [`spec_languages_outcome`] of the
/// status and body the server sent, keeping the server's order.
pub fn languages_from_response(status: u16, body: &str) -> (r: Result<
    Vec<LanguageInformation>,
    Error,
>)
    ensures
        match r {
            Result::Ok(ls) => spec_languages_outcome(status, body@) == Result::<
                Seq<(Seq<char>, Seq<char>)>,
                ErrorView,
            >::Ok(spec_language_views(ls@)),
            Result::Err(e) => spec_languages_outcome(status, body@) == Result::<
                Seq<(Seq<char>, Seq<char>)>,
                ErrorView,
            >::Err(e@),
        },
{
    if is_success_status(status) {
        match parse_languages_body(body) {
            Option::Some(ls) => Result::Ok(ls),
            Option::None => Result::Err(Error::DeserializationError),
        }
    } else {
        Result::Err(classify_failure(status, body))
    }
}

/// Decides a translate answer: exactly [`spec_translate_outcome`] of the
/// status and body the server sent, keeping the server's order.
pub fn translate_from_response(status: u16, body: &str) -> (r: Result<Vec<TranslatedText>, Error>)
    ensures
        match r {
            Result::Ok(ts) => spec_translate_outcome(status, body@) == Result::<
                Seq<(Seq<char>, Seq<char>)>,
                ErrorView,
            >::Ok(spec_translation_views(ts@)),
            Result::Err(e) => spec_translate_outcome(status, body@) == Result::<
                Seq<(Seq<char>, Seq<char>)>,
                ErrorView,
            >::Err(e@),
        },
{
    if is_success_status(status) {
        match parse_translations_body(body) {
            Option::Some(ts) => Result::Ok(ts),
            Option::None => Result::Err(Error::DeserializationError),
        }
    } else {
        Result::Err(classify_failure(status, body))
    }
}

} // verus!
