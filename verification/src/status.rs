//! HTTP status codes, their canonical reason phrases, and the error
//! descriptor rendered by the pipeline.

use vstd::prelude::*;

verus! {

/// A status in the client-error or server-error class.
pub open spec fn is_error_code(code: u16) -> bool {
    400 <= code < 600
}

/// Whether `code` is a client-error status (4xx).
pub fn is_client_error(code: u16) -> (b: bool)
    ensures
        b == (400 <= code < 500),
{
    400 <= code && code < 500
}

/// Whether `code` is a server-error status (5xx).
pub fn is_server_error(code: u16) -> (b: bool)
    ensures
        b == (500 <= code < 600),
{
    500 <= code && code < 600
}

/// The canonical reason phrase of a registered HTTP status code,
/// or `None` for a code the status table does not recognize.
pub open spec fn canonical_reason(code: u16) -> Option<Seq<char>> {
    if code == 100 { Some("Continue"@) }
    else if code == 101 { Some("Switching Protocols"@) }
    else if code == 102 { Some("Processing"@) }
    else if code == 200 { Some("OK"@) }
    else if code == 201 { Some("Created"@) }
    else if code == 202 { Some("Accepted"@) }
    else if code == 203 { Some("Non Authoritative Information"@) }
    else if code == 204 { Some("No Content"@) }
    else if code == 205 { Some("Reset Content"@) }
    else if code == 206 { Some("Partial Content"@) }
    else if code == 207 { Some("Multi-Status"@) }
    else if code == 208 { Some("Already Reported"@) }
    else if code == 226 { Some("IM Used"@) }
    else if code == 300 { Some("Multiple Choices"@) }
    else if code == 301 { Some("Moved Permanently"@) }
    else if code == 302 { Some("Found"@) }
    else if code == 303 { Some("See Other"@) }
    else if code == 304 { Some("Not Modified"@) }
    else if code == 305 { Some("Use Proxy"@) }
    else if code == 307 { Some("Temporary Redirect"@) }
    else if code == 308 { Some("Permanent Redirect"@) }
    else if code == 400 { Some("Bad Request"@) }
    else if code == 401 { Some("Unauthorized"@) }
    else if code == 402 { Some("Payment Required"@) }
    else if code == 403 { Some("Forbidden"@) }
    else if code == 404 { Some("Not Found"@) }
    else if code == 405 { Some("Method Not Allowed"@) }
    else if code == 406 { Some("Not Acceptable"@) }
    else if code == 407 { Some("Proxy Authentication Required"@) }
    else if code == 408 { Some("Request Timeout"@) }
    else if code == 409 { Some("Conflict"@) }
    else if code == 410 { Some("Gone"@) }
    else if code == 411 { Some("Length Required"@) }
    else if code == 412 { Some("Precondition Failed"@) }
    else if code == 413 { Some("Payload Too Large"@) }
    else if code == 414 { Some("URI Too Long"@) }
    else if code == 415 { Some("Unsupported Media Type"@) }
    else if code == 416 { Some("Range Not Satisfiable"@) }
    else if code == 417 { Some("Expectation Failed"@) }
    else if code == 418 { Some("I'm a teapot"@) }
    else if code == 421 { Some("Misdirected Request"@) }
    else if code == 422 { Some("Unprocessable Entity"@) }
    else if code == 423 { Some("Locked"@) }
    else if code == 424 { Some("Failed Dependency"@) }
    else if code == 426 { Some("Upgrade Required"@) }
    else if code == 428 { Some("Precondition Required"@) }
    else if code == 429 { Some("Too Many Requests"@) }
    else if code == 431 { Some("Request Header Fields Too Large"@) }
    else if code == 451 { Some("Unavailable For Legal Reasons"@) }
    else if code == 500 { Some("Internal Server Error"@) }
    else if code == 501 { Some("Not Implemented"@) }
    else if code == 502 { Some("Bad Gateway"@) }
    else if code == 503 { Some("Service Unavailable"@) }
    else if code == 504 { Some("Gateway Timeout"@) }
    else if code == 505 { Some("HTTP Version Not Supported"@) }
    else if code == 506 { Some("Variant Also Negotiates"@) }
    else if code == 507 { Some("Insufficient Storage"@) }
    else if code == 508 { Some("Loop Detected"@) }
    else if code == 510 { Some("Not Extended"@) }
    else if code == 511 { Some("Network Authentication Required"@) }
    else { None }
}

/// The canonical reason phrase of `code`, or `None` for an
/// unrecognized code.
pub fn reason_phrase(code: u16) -> (r: Option<&'static str>)
    ensures
        match r {
            Some(s) => canonical_reason(code) == Some(s@),
            None => canonical_reason(code) is None,
        },
{
    match code {
        100 => Some("Continue"),
        101 => Some("Switching Protocols"),
        102 => Some("Processing"),
        200 => Some("OK"),
        201 => Some("Created"),
        202 => Some("Accepted"),
        203 => Some("Non Authoritative Information"),
        204 => Some("No Content"),
        205 => Some("Reset Content"),
        206 => Some("Partial Content"),
        207 => Some("Multi-Status"),
        208 => Some("Already Reported"),
        226 => Some("IM Used"),
        300 => Some("Multiple Choices"),
        301 => Some("Moved Permanently"),
        302 => Some("Found"),
        303 => Some("See Other"),
        304 => Some("Not Modified"),
        305 => Some("Use Proxy"),
        307 => Some("Temporary Redirect"),
        308 => Some("Permanent Redirect"),
        400 => Some("Bad Request"),
        401 => Some("Unauthorized"),
        402 => Some("Payment Required"),
        403 => Some("Forbidden"),
        404 => Some("Not Found"),
        405 => Some("Method Not Allowed"),
        406 => Some("Not Acceptable"),
        407 => Some("Proxy Authentication Required"),
        408 => Some("Request Timeout"),
        409 => Some("Conflict"),
        410 => Some("Gone"),
        411 => Some("Length Required"),
        412 => Some("Precondition Failed"),
        413 => Some("Payload Too Large"),
        414 => Some("URI Too Long"),
        415 => Some("Unsupported Media Type"),
        416 => Some("Range Not Satisfiable"),
        417 => Some("Expectation Failed"),
        418 => Some("I'm a teapot"),
        421 => Some("Misdirected Request"),
        422 => Some("Unprocessable Entity"),
        423 => Some("Locked"),
        424 => Some("Failed Dependency"),
        426 => Some("Upgrade Required"),
        428 => Some("Precondition Required"),
        429 => Some("Too Many Requests"),
        431 => Some("Request Header Fields Too Large"),
        451 => Some("Unavailable For Legal Reasons"),
        500 => Some("Internal Server Error"),
        501 => Some("Not Implemented"),
        502 => Some("Bad Gateway"),
        503 => Some("Service Unavailable"),
        504 => Some("Gateway Timeout"),
        505 => Some("HTTP Version Not Supported"),
        506 => Some("Variant Also Negotiates"),
        507 => Some("Insufficient Storage"),
        508 => Some("Loop Detected"),
        510 => Some("Not Extended"),
        511 => Some("Network Authentication Required"),
        _ => None,
    }
}

/// An immutable description of an HTTP error: status code, short
/// machine-stable name, optional one-line summary, optional detail.
pub struct StatusError {
    pub code: u16,
    pub name: String,
    pub summary: Option<String>,
    pub detail: Option<String>,
}

/// The mathematical value of a [`StatusError`].
pub struct StatusErrorView {
    pub code: u16,
    pub name: Seq<char>,
    pub summary: Option<Seq<char>>,
    pub detail: Option<Seq<char>>,
}

impl View for StatusError {
    type V = StatusErrorView;

    open spec fn view(&self) -> StatusErrorView {
        StatusErrorView {
            code: self.code,
            name: self.name@,
            summary: match self.summary {
                Some(s) => Some(s@),
                None => None,
            },
            detail: match self.detail {
                Some(d) => Some(d@),
                None => None,
            },
        }
    }
}

impl StatusError {
    /// Construct a descriptor from a bare status code: the name is the
    /// code's canonical reason phrase, summary and detail are unset.
    /// Returns `None` exactly when the code is not a recognized HTTP status.
    pub fn from_code(code: u16) -> (r: Option<StatusError>)
        ensures
            match r {
                Some(e) => {
                    &&& canonical_reason(code) == Some(e@.name)
                    &&& e@.code == code
                    &&& e@.summary is None
                    &&& e@.detail is None
                },
                None => canonical_reason(code) is None,
            },
    {
        match reason_phrase(code) {
            Some(name) => Some(StatusError {
                code,
                name: String::from_str(name),
                summary: None,
                detail: None,
            }),
            None => None,
        }
    }
}

} // verus!
