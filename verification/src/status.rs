//! HTTP status codes: the well known ones, custom ones, their numbers and status lines.
use crate::text::{str_eq, string_from};
use vstd::prelude::*;

verus! {

/// Represents an HTTP status code.
#[derive(Clone, Debug, PartialEq, Eq)]
pub enum TiiStatusCode {
    /// `100 Continue`: Continue with request.
    Continue,
    /// `101 Switching Protocols`: Protocol upgrade.
    SwitchingProtocols,
    /// `200 OK`: Request succeeded.
    OK,
    /// `201 Created`: Resource created.
    Created,
    /// `202 Accepted`: Request received, but not yet acted upon.
    Accepted,
    /// `203 Non-Authoritative Information`: Request processed, but response is from another source.
    NonAuthoritative,
    /// `204 No Content`: There is no content to send for this request.
    NoContent,
    /// `205 Reset Content`: Indicates that the document which sent this request should be reset.
    ResetContent,
    /// `206 Partial Content`: This response only contains part of a resource.
    PartialContent,
    /// `300 Multiple Choice`: The request has multiple possible responses.
    MultipleChoices,
    /// `301 Moved Permanently`: The resource has moved permanently to a new location.
    MovedPermanently,
    /// `302 Found`: The resource has moved temporarily to a new location.
    Found,
    /// `303 See Other`: The resource can be found under a different URI.
    SeeOther,
    /// `304 Not Modified`: The resource has not been modified since the last request.
    NotModified,
    /// `305 Use Proxy`: The requested resource must be accessed through a proxy.
    UseProxy,
    /// `307 Temporary Redirect`: The resource has moved temporarily to a new location.
    TemporaryRedirect,
    /// `308 Permanent Redirect`: The resource has moved permanently to a new location.
    PermanentRedirect,
    /// `400 Bad Request`: The request could not be understood by the server.
    BadRequest,
    /// `401 Unauthorized`: The request requires user authentication.
    Unauthorized,
    /// `402 Payment Required`: Reserved non-standard status code.
    /// Usually used to indicate that an application wants more money to perform an operation.
    PaymentRequired,
    /// `403 Forbidden`: The client is not allowed to access this content.
    Forbidden,
    /// `404 Not Found`: The server can not find the requested resource.
    NotFound,
    /// `405 Method Not Allowed`: The method specified in the request is not allowed for the resource.
    MethodNotAllowed,
    /// `406 Not Acceptable`: No content that meets the criteria is available.
    NotAcceptable,
    /// `407 Proxy Authentication Required`: The client must first authenticate itself with a proxy.
    ProxyAuthenticationRequired,
    /// `408 Request Timeout`: The server timed out waiting for the request.
    RequestTimeout,
    /// `409 Conflict`: The request could not be completed because of a conflict with the server's current state.
    Conflict,
    /// `410 Gone`: The requested resource is no longer available.
    Gone,
    /// `411 Length Required`: The request did not specify the length of its content.
    LengthRequired,
    /// `412 Precondition Failed`: The server does not meet one of the client's preconditions.
    PreconditionFailed,
    /// `413 Payload Too Large`: The request is larger than the server is willing or able to process.
    RequestEntityTooLarge,
    /// `413 Content Too Large`: The request is larger than the server is willing or able to process. Newer version of RequestEntityTooLarge
    ContentTooLarge,
    /// `414 URI Too Long`: The URI provided was too long for the server to process.
    RequestURITooLong,
    /// `415 Unsupported Media Type`: The request entity has a media type which the server or resource does not support.
    UnsupportedMediaType,
    /// `416 Requested Range Not Satisfiable`: The range specified in the `Range` header cannot be fulfilled.
    RequestedRangeNotSatisfiable,
    /// `417 Expectation Failed`: The expectation given in the `Expect` header could not be met by the server.
    ExpectationFailed,
    /// `500 Internal Server Error`: The server encountered an unexpected error which prevented it from fulfilling the request.
    InternalServerError,
    /// `501 Not Implemented`: The server does not support the functionality required to fulfill the request.
    NotImplemented,
    /// `502 Bad Gateway`: The server, while acting as a gateway or proxy, received an invalid response from the upstream server.
    BadGateway,
    /// `503 Service Unavailable`: The server is temporarily unable to handle the request.
    ServiceUnavailable,
    /// `504 Gateway Timeout`: The server, while acting as a gateway or proxy, did not receive a timely response from the upstream server.
    GatewayTimeout,
    /// `505 HTTP Version Not Supported`: The server does not support the HTTP protocol version used in the request.
    VersionNotSupported,

    /// User defined status code, some applications need non-standard custom status codes.
    CustomStr(u16, [u8; 3], &'static str),
    /// User defined status code, some applications need non-standard custom status codes.
    CustomString(u16, [u8; 3], String),
}


/// The number of a status code.
pub open spec fn status_code_value(s: TiiStatusCode) -> u16 {
    match s {
        TiiStatusCode::Continue => 100,
        TiiStatusCode::SwitchingProtocols => 101,
        TiiStatusCode::OK => 200,
        TiiStatusCode::Created => 201,
        TiiStatusCode::Accepted => 202,
        TiiStatusCode::NonAuthoritative => 203,
        TiiStatusCode::NoContent => 204,
        TiiStatusCode::ResetContent => 205,
        TiiStatusCode::PartialContent => 206,
        TiiStatusCode::MultipleChoices => 300,
        TiiStatusCode::MovedPermanently => 301,
        TiiStatusCode::Found => 302,
        TiiStatusCode::SeeOther => 303,
        TiiStatusCode::NotModified => 304,
        TiiStatusCode::UseProxy => 305,
        TiiStatusCode::TemporaryRedirect => 307,
        TiiStatusCode::PermanentRedirect => 308,
        TiiStatusCode::BadRequest => 400,
        TiiStatusCode::Unauthorized => 401,
        TiiStatusCode::PaymentRequired => 402,
        TiiStatusCode::Forbidden => 403,
        TiiStatusCode::NotFound => 404,
        TiiStatusCode::MethodNotAllowed => 405,
        TiiStatusCode::NotAcceptable => 406,
        TiiStatusCode::ProxyAuthenticationRequired => 407,
        TiiStatusCode::RequestTimeout => 408,
        TiiStatusCode::Conflict => 409,
        TiiStatusCode::Gone => 410,
        TiiStatusCode::LengthRequired => 411,
        TiiStatusCode::PreconditionFailed => 412,
        TiiStatusCode::RequestEntityTooLarge => 413,
        TiiStatusCode::ContentTooLarge => 413,
        TiiStatusCode::RequestURITooLong => 414,
        TiiStatusCode::UnsupportedMediaType => 415,
        TiiStatusCode::RequestedRangeNotSatisfiable => 416,
        TiiStatusCode::ExpectationFailed => 417,
        TiiStatusCode::InternalServerError => 500,
        TiiStatusCode::NotImplemented => 501,
        TiiStatusCode::BadGateway => 502,
        TiiStatusCode::ServiceUnavailable => 503,
        TiiStatusCode::GatewayTimeout => 504,
        TiiStatusCode::VersionNotSupported => 505,
        TiiStatusCode::CustomStr(c, _, _) => c,
        TiiStatusCode::CustomString(c, _, _) => c,
    }
}

/// The reason phrase of a status code.
pub open spec fn status_text(s: TiiStatusCode) -> Seq<char> {
    match s {
        TiiStatusCode::Continue => "Continue"@,
        TiiStatusCode::SwitchingProtocols => "Switching Protocols"@,
        TiiStatusCode::OK => "OK"@,
        TiiStatusCode::Created => "Created"@,
        TiiStatusCode::Accepted => "Accepted"@,
        TiiStatusCode::NonAuthoritative => "Non-Authoritative Information"@,
        TiiStatusCode::NoContent => "No Content"@,
        TiiStatusCode::ResetContent => "Reset Content"@,
        TiiStatusCode::PartialContent => "Partial Content"@,
        TiiStatusCode::MultipleChoices => "Multiple Choices"@,
        TiiStatusCode::MovedPermanently => "Moved Permanently"@,
        TiiStatusCode::Found => "Found"@,
        TiiStatusCode::SeeOther => "See Other"@,
        TiiStatusCode::NotModified => "Not Modified"@,
        TiiStatusCode::UseProxy => "Use Proxy"@,
        TiiStatusCode::TemporaryRedirect => "Temporary Redirect"@,
        TiiStatusCode::BadRequest => "Bad Request"@,
        TiiStatusCode::Unauthorized => "Unauthorized"@,
        TiiStatusCode::Forbidden => "Forbidden"@,
        TiiStatusCode::NotFound => "Not Found"@,
        TiiStatusCode::MethodNotAllowed => "Method Not Allowed"@,
        TiiStatusCode::NotAcceptable => "Not Acceptable"@,
        TiiStatusCode::ProxyAuthenticationRequired => "Proxy Authentication Required"@,
        TiiStatusCode::RequestTimeout => "Request Timeout"@,
        TiiStatusCode::Conflict => "Conflict"@,
        TiiStatusCode::Gone => "Gone"@,
        TiiStatusCode::LengthRequired => "Length Required"@,
        TiiStatusCode::PreconditionFailed => "Precondition Failed"@,
        TiiStatusCode::RequestEntityTooLarge => "Request Entity Too Large"@,
        TiiStatusCode::ContentTooLarge => "Content Too Large"@,
        TiiStatusCode::RequestURITooLong => "Request-URI Too Long"@,
        TiiStatusCode::UnsupportedMediaType => "Unsupported Media Type"@,
        TiiStatusCode::RequestedRangeNotSatisfiable => "Requested Range Not Satisfiable"@,
        TiiStatusCode::ExpectationFailed => "Expectation Failed"@,
        TiiStatusCode::InternalServerError => "Internal Server Error"@,
        TiiStatusCode::NotImplemented => "Not Implemented"@,
        TiiStatusCode::BadGateway => "Bad Gateway"@,
        TiiStatusCode::ServiceUnavailable => "Service Unavailable"@,
        TiiStatusCode::GatewayTimeout => "Gateway Timeout"@,
        TiiStatusCode::VersionNotSupported => "HTTP Version Not Supported"@,
        TiiStatusCode::PermanentRedirect => "Permanent Redirect"@,
        TiiStatusCode::PaymentRequired => "Payment Required"@,
        TiiStatusCode::CustomStr(_, _, t) => t@,
        TiiStatusCode::CustomString(_, _, t) => t@,
    }
}

/// The well known status code with number `code`, if there is one.
pub open spec fn well_known_code(code: u16) -> Option<TiiStatusCode> {
    if code == 100 {
        Some(TiiStatusCode::Continue)
    }     else if code == 101 {
        Some(TiiStatusCode::SwitchingProtocols)
    }     else if code == 200 {
        Some(TiiStatusCode::OK)
    }     else if code == 201 {
        Some(TiiStatusCode::Created)
    }     else if code == 202 {
        Some(TiiStatusCode::Accepted)
    }     else if code == 203 {
        Some(TiiStatusCode::NonAuthoritative)
    }     else if code == 204 {
        Some(TiiStatusCode::NoContent)
    }     else if code == 205 {
        Some(TiiStatusCode::ResetContent)
    }     else if code == 206 {
        Some(TiiStatusCode::PartialContent)
    }     else if code == 300 {
        Some(TiiStatusCode::MultipleChoices)
    }     else if code == 301 {
        Some(TiiStatusCode::MovedPermanently)
    }     else if code == 302 {
        Some(TiiStatusCode::Found)
    }     else if code == 303 {
        Some(TiiStatusCode::SeeOther)
    }     else if code == 304 {
        Some(TiiStatusCode::NotModified)
    }     else if code == 305 {
        Some(TiiStatusCode::UseProxy)
    }     else if code == 307 {
        Some(TiiStatusCode::TemporaryRedirect)
    }     else if code == 308 {
        Some(TiiStatusCode::PermanentRedirect)
    }     else if code == 400 {
        Some(TiiStatusCode::BadRequest)
    }     else if code == 401 {
        Some(TiiStatusCode::Unauthorized)
    }     else if code == 402 {
        Some(TiiStatusCode::PaymentRequired)
    }     else if code == 403 {
        Some(TiiStatusCode::Forbidden)
    }     else if code == 404 {
        Some(TiiStatusCode::NotFound)
    }     else if code == 405 {
        Some(TiiStatusCode::MethodNotAllowed)
    }     else if code == 406 {
        Some(TiiStatusCode::NotAcceptable)
    }     else if code == 407 {
        Some(TiiStatusCode::ProxyAuthenticationRequired)
    }     else if code == 408 {
        Some(TiiStatusCode::RequestTimeout)
    }     else if code == 409 {
        Some(TiiStatusCode::Conflict)
    }     else if code == 410 {
        Some(TiiStatusCode::Gone)
    }     else if code == 411 {
        Some(TiiStatusCode::LengthRequired)
    }     else if code == 412 {
        Some(TiiStatusCode::PreconditionFailed)
    }     else if code == 413 {
        Some(TiiStatusCode::ContentTooLarge)
    }     else if code == 414 {
        Some(TiiStatusCode::RequestURITooLong)
    }     else if code == 415 {
        Some(TiiStatusCode::UnsupportedMediaType)
    }     else if code == 416 {
        Some(TiiStatusCode::RequestedRangeNotSatisfiable)
    }     else if code == 417 {
        Some(TiiStatusCode::ExpectationFailed)
    }     else if code == 500 {
        Some(TiiStatusCode::InternalServerError)
    }     else if code == 501 {
        Some(TiiStatusCode::NotImplemented)
    }     else if code == 502 {
        Some(TiiStatusCode::BadGateway)
    }     else if code == 503 {
        Some(TiiStatusCode::ServiceUnavailable)
    }     else if code == 504 {
        Some(TiiStatusCode::GatewayTimeout)
    }     else if code == 505 {
        Some(TiiStatusCode::VersionNotSupported)
    } else {
        None
    }
}

/// Is `line` exactly the status line of the well known code `code`?
pub open spec fn is_well_known_line(code: u16, line: Seq<char>) -> bool {
    well_known_code(code) matches Some(w) && status_text(w) == line
}

/// The three ASCII digits of a number from 100 to 999.
pub open spec fn three_digits(code: u16) -> Seq<u8> {
    seq![(48 + code / 100) as u8, (48 + (code / 10) % 10) as u8, (48 + code % 10) as u8]
}

/// The three ASCII digits of a number from 100 to 999.
pub fn three_digit_to_utf(code: u16) -> (r: [u8; 3])
    requires
        100 <= code <= 999,
    ensures
        r@ == three_digits(code),
{
    let a: u8 = (48 + code / 100) as u8;
    let b: u8 = (48 + (code / 10) % 10) as u8;
    let c: u8 = (48 + code % 10) as u8;
    let r = [a, b, c];
    assert(r@ =~= three_digits(code));
    r
}

impl TiiStatusCode {
    /// Creates a custom status code from a static message and code.
    /// Codes outside 100..=999, and status lines that are empty or not ASCII,
    /// give Internal Server Error.
    pub fn from_custom(code: u16, status_line: &'static str) -> (r: Self)
        ensures
            (!vstd::string::is_ascii(status_line) || status_line@.len() == 0 || code < 100 || code
                > 999) ==> r == TiiStatusCode::InternalServerError,
            (vstd::string::is_ascii(status_line) && status_line@.len() != 0 && 100 <= code <= 999)
                ==> (r matches TiiStatusCode::CustomStr(c, d, t) && c == code && d@ == three_digits(
                code) && t == status_line),
            100 <= status_code_value(r) <= 999,
    {
        if !status_line.is_ascii() || status_line.is_empty() {
            return TiiStatusCode::InternalServerError;
        }
        if code < 100 || code > 999 {
            return TiiStatusCode::InternalServerError;
        }
        TiiStatusCode::CustomStr(code, three_digit_to_utf(code), status_line)
    }

    /// Creates a custom status code from a dynamic message and code.
    /// Returns None for codes outside 100..=999 and for status lines that are empty or not ASCII.
    /// A well known code whose status line is given exactly yields the well known variant.
    pub fn from_custom_string(code: u16, status_line: &str) -> (r: Option<Self>)
        ensures
            r is None <==> (!vstd::string::is_ascii(status_line) || status_line@.len() == 0 || code
                < 100 || code > 999),
            r matches Some(s) ==> if is_well_known_line(code, status_line@) {
                s == well_known_code(code).unwrap()
            } else {
                s matches TiiStatusCode::CustomString(c, d, t) && c == code && d@ == three_digits(
                    code,
                ) && t@ == status_line@
            },
            r matches Some(s) ==> status_code_value(s) == code && status_text(s) == status_line@,
    {
        if !status_line.is_ascii() || status_line.is_empty() {
            return None;
        }
        if code < 100 || code > 999 {
            return None;
        }
        if let Some(well_known) = Self::from_well_known_code(code) {
            if str_eq(well_known.status_line(), status_line) {
                return Some(well_known);
            }
        }
        Some(TiiStatusCode::CustomString(code, three_digit_to_utf(code), string_from(status_line)))
    }

    /// The well known status code with the given number, or Internal Server Error if there is none.
    pub fn from_well_known_code_or_500(code: u16) -> (r: Self)
        ensures
            r == (match well_known_code(code) {
                Some(s) => s,
                None => TiiStatusCode::InternalServerError,
            }),
    {
        match code {

            100 => TiiStatusCode::Continue,
            101 => TiiStatusCode::SwitchingProtocols,
            200 => TiiStatusCode::OK,
            201 => TiiStatusCode::Created,
            202 => TiiStatusCode::Accepted,
            203 => TiiStatusCode::NonAuthoritative,
            204 => TiiStatusCode::NoContent,
            205 => TiiStatusCode::ResetContent,
            206 => TiiStatusCode::PartialContent,
            300 => TiiStatusCode::MultipleChoices,
            301 => TiiStatusCode::MovedPermanently,
            302 => TiiStatusCode::Found,
            303 => TiiStatusCode::SeeOther,
            304 => TiiStatusCode::NotModified,
            305 => TiiStatusCode::UseProxy,
            307 => TiiStatusCode::TemporaryRedirect,
            308 => TiiStatusCode::PermanentRedirect,
            400 => TiiStatusCode::BadRequest,
            401 => TiiStatusCode::Unauthorized,
            402 => TiiStatusCode::PaymentRequired,
            403 => TiiStatusCode::Forbidden,
            404 => TiiStatusCode::NotFound,
            405 => TiiStatusCode::MethodNotAllowed,
            406 => TiiStatusCode::NotAcceptable,
            407 => TiiStatusCode::ProxyAuthenticationRequired,
            408 => TiiStatusCode::RequestTimeout,
            409 => TiiStatusCode::Conflict,
            410 => TiiStatusCode::Gone,
            411 => TiiStatusCode::LengthRequired,
            412 => TiiStatusCode::PreconditionFailed,
            413 => TiiStatusCode::ContentTooLarge,
            414 => TiiStatusCode::RequestURITooLong,
            415 => TiiStatusCode::UnsupportedMediaType,
            416 => TiiStatusCode::RequestedRangeNotSatisfiable,
            417 => TiiStatusCode::ExpectationFailed,
            501 => TiiStatusCode::NotImplemented,
            502 => TiiStatusCode::BadGateway,
            503 => TiiStatusCode::ServiceUnavailable,
            504 => TiiStatusCode::GatewayTimeout,
            505 => TiiStatusCode::VersionNotSupported,
            _ => TiiStatusCode::InternalServerError,
        }
    }

    /// The well known status code with the given number, if there is one.
    pub fn from_well_known_code(code: u16) -> (r: Option<Self>)
        ensures
            r == well_known_code(code),
            r matches Some(s) ==> status_code_value(s) == code,
    {
        match code {
            100 => Some(TiiStatusCode::Continue),
            101 => Some(TiiStatusCode::SwitchingProtocols),
            200 => Some(TiiStatusCode::OK),
            201 => Some(TiiStatusCode::Created),
            202 => Some(TiiStatusCode::Accepted),
            203 => Some(TiiStatusCode::NonAuthoritative),
            204 => Some(TiiStatusCode::NoContent),
            205 => Some(TiiStatusCode::ResetContent),
            206 => Some(TiiStatusCode::PartialContent),
            300 => Some(TiiStatusCode::MultipleChoices),
            301 => Some(TiiStatusCode::MovedPermanently),
            302 => Some(TiiStatusCode::Found),
            303 => Some(TiiStatusCode::SeeOther),
            304 => Some(TiiStatusCode::NotModified),
            305 => Some(TiiStatusCode::UseProxy),
            307 => Some(TiiStatusCode::TemporaryRedirect),
            308 => Some(TiiStatusCode::PermanentRedirect),
            400 => Some(TiiStatusCode::BadRequest),
            401 => Some(TiiStatusCode::Unauthorized),
            402 => Some(TiiStatusCode::PaymentRequired),
            403 => Some(TiiStatusCode::Forbidden),
            404 => Some(TiiStatusCode::NotFound),
            405 => Some(TiiStatusCode::MethodNotAllowed),
            406 => Some(TiiStatusCode::NotAcceptable),
            407 => Some(TiiStatusCode::ProxyAuthenticationRequired),
            408 => Some(TiiStatusCode::RequestTimeout),
            409 => Some(TiiStatusCode::Conflict),
            410 => Some(TiiStatusCode::Gone),
            411 => Some(TiiStatusCode::LengthRequired),
            412 => Some(TiiStatusCode::PreconditionFailed),
            413 => Some(TiiStatusCode::ContentTooLarge),
            414 => Some(TiiStatusCode::RequestURITooLong),
            415 => Some(TiiStatusCode::UnsupportedMediaType),
            416 => Some(TiiStatusCode::RequestedRangeNotSatisfiable),
            417 => Some(TiiStatusCode::ExpectationFailed),
            500 => Some(TiiStatusCode::InternalServerError),
            501 => Some(TiiStatusCode::NotImplemented),
            502 => Some(TiiStatusCode::BadGateway),
            503 => Some(TiiStatusCode::ServiceUnavailable),
            504 => Some(TiiStatusCode::GatewayTimeout),
            505 => Some(TiiStatusCode::VersionNotSupported),
            _ => None,
        }
    }

    /// The status line as a static string; None for heap allocated status lines.
        pub fn status_line_static(&self) -> (r: Option<&'static str>)
        ensures
            r is None <==> self is CustomString,
            r matches Some(t) ==> t@ == status_text(*self),
        {
        match self {
            TiiStatusCode::Continue => Some("Continue"),
            TiiStatusCode::SwitchingProtocols => Some("Switching Protocols"),
            TiiStatusCode::OK => Some("OK"),
            TiiStatusCode::Created => Some("Created"),
            TiiStatusCode::Accepted => Some("Accepted"),
            TiiStatusCode::NonAuthoritative => Some("Non-Authoritative Information"),
            TiiStatusCode::NoContent => Some("No Content"),
            TiiStatusCode::ResetContent => Some("Reset Content"),
            TiiStatusCode::PartialContent => Some("Partial Content"),
            TiiStatusCode::MultipleChoices => Some("Multiple Choices"),
            TiiStatusCode::MovedPermanently => Some("Moved Permanently"),
            TiiStatusCode::Found => Some("Found"),
            TiiStatusCode::SeeOther => Some("See Other"),
            TiiStatusCode::NotModified => Some("Not Modified"),
            TiiStatusCode::UseProxy => Some("Use Proxy"),
            TiiStatusCode::TemporaryRedirect => Some("Temporary Redirect"),
            TiiStatusCode::BadRequest => Some("Bad Request"),
            TiiStatusCode::Unauthorized => Some("Unauthorized"),
            TiiStatusCode::Forbidden => Some("Forbidden"),
            TiiStatusCode::NotFound => Some("Not Found"),
            TiiStatusCode::MethodNotAllowed => Some("Method Not Allowed"),
            TiiStatusCode::NotAcceptable => Some("Not Acceptable"),
            TiiStatusCode::ProxyAuthenticationRequired => Some("Proxy Authentication Required"),
            TiiStatusCode::RequestTimeout => Some("Request Timeout"),
            TiiStatusCode::Conflict => Some("Conflict"),
            TiiStatusCode::Gone => Some("Gone"),
            TiiStatusCode::LengthRequired => Some("Length Required"),
            TiiStatusCode::PreconditionFailed => Some("Precondition Failed"),
            TiiStatusCode::RequestEntityTooLarge => Some("Request Entity Too Large"),
            TiiStatusCode::ContentTooLarge => Some("Content Too Large"),
            TiiStatusCode::RequestURITooLong => Some("Request-URI Too Long"),
            TiiStatusCode::UnsupportedMediaType => Some("Unsupported Media Type"),
            TiiStatusCode::RequestedRangeNotSatisfiable => Some("Requested Range Not Satisfiable"),
            TiiStatusCode::ExpectationFailed => Some("Expectation Failed"),
            TiiStatusCode::InternalServerError => Some("Internal Server Error"),
            TiiStatusCode::NotImplemented => Some("Not Implemented"),
            TiiStatusCode::BadGateway => Some("Bad Gateway"),
            TiiStatusCode::ServiceUnavailable => Some("Service Unavailable"),
            TiiStatusCode::GatewayTimeout => Some("Gateway Timeout"),
            TiiStatusCode::VersionNotSupported => Some("HTTP Version Not Supported"),
            TiiStatusCode::PermanentRedirect => Some("Permanent Redirect"),
            TiiStatusCode::PaymentRequired => Some("Payment Required"),
            TiiStatusCode::CustomStr(_, _, text) => Some(*text),
            TiiStatusCode::CustomString(_, _, _) => None,
        }
    }

    /// The status line, such as "Not Found".
        pub fn status_line(&self) -> (r: &str)
        ensures
            r@ == status_text(*self),
    {
        match self {
            TiiStatusCode::Continue => "Continue",
            TiiStatusCode::SwitchingProtocols => "Switching Protocols",
            TiiStatusCode::OK => "OK",
            TiiStatusCode::Created => "Created",
            TiiStatusCode::Accepted => "Accepted",
            TiiStatusCode::NonAuthoritative => "Non-Authoritative Information",
            TiiStatusCode::NoContent => "No Content",
            TiiStatusCode::ResetContent => "Reset Content",
            TiiStatusCode::PartialContent => "Partial Content",
            TiiStatusCode::MultipleChoices => "Multiple Choices",
            TiiStatusCode::MovedPermanently => "Moved Permanently",
            TiiStatusCode::Found => "Found",
            TiiStatusCode::SeeOther => "See Other",
            TiiStatusCode::NotModified => "Not Modified",
            TiiStatusCode::UseProxy => "Use Proxy",
            TiiStatusCode::TemporaryRedirect => "Temporary Redirect",
            TiiStatusCode::BadRequest => "Bad Request",
            TiiStatusCode::Unauthorized => "Unauthorized",
            TiiStatusCode::Forbidden => "Forbidden",
            TiiStatusCode::NotFound => "Not Found",
            TiiStatusCode::MethodNotAllowed => "Method Not Allowed",
            TiiStatusCode::NotAcceptable => "Not Acceptable",
            TiiStatusCode::ProxyAuthenticationRequired => "Proxy Authentication Required",
            TiiStatusCode::RequestTimeout => "Request Timeout",
            TiiStatusCode::Conflict => "Conflict",
            TiiStatusCode::Gone => "Gone",
            TiiStatusCode::LengthRequired => "Length Required",
            TiiStatusCode::PreconditionFailed => "Precondition Failed",
            TiiStatusCode::RequestEntityTooLarge => "Request Entity Too Large",
            TiiStatusCode::ContentTooLarge => "Content Too Large",
            TiiStatusCode::RequestURITooLong => "Request-URI Too Long",
            TiiStatusCode::UnsupportedMediaType => "Unsupported Media Type",
            TiiStatusCode::RequestedRangeNotSatisfiable => "Requested Range Not Satisfiable",
            TiiStatusCode::ExpectationFailed => "Expectation Failed",
            TiiStatusCode::InternalServerError => "Internal Server Error",
            TiiStatusCode::NotImplemented => "Not Implemented",
            TiiStatusCode::BadGateway => "Bad Gateway",
            TiiStatusCode::ServiceUnavailable => "Service Unavailable",
            TiiStatusCode::GatewayTimeout => "Gateway Timeout",
            TiiStatusCode::VersionNotSupported => "HTTP Version Not Supported",
            TiiStatusCode::PermanentRedirect => "Permanent Redirect",
            TiiStatusCode::PaymentRequired => "Payment Required",
            TiiStatusCode::CustomStr(_, _, text) => *text,
            TiiStatusCode::CustomString(_, _, text) => text.as_str(),
        }
    }

    /// The three digit code as ASCII bytes.
        pub fn code_as_utf(&self) -> (r: [u8; 3])
        ensures
            r@ == (match *self {
                TiiStatusCode::CustomStr(_, d, _) => d@,
                TiiStatusCode::CustomString(_, d, _) => d@,
                _ => three_digits(status_code_value(*self)),
            }),
    {
        match self {
            TiiStatusCode::CustomStr(_, d, _) => *d,
            TiiStatusCode::CustomString(_, d, _) => *d,
            _ => three_digit_to_utf(self.code()),
        }
    }

    /// The code as a number; from 100 to 999 for every status code that the constructors give.
        pub fn code(&self) -> (r: u16)
        ensures
            r == status_code_value(*self),
            !(self is CustomStr || self is CustomString) ==> 100 <= r <= 999,
    {
        match self {
            TiiStatusCode::Continue => 100,
            TiiStatusCode::SwitchingProtocols => 101,
            TiiStatusCode::OK => 200,
            TiiStatusCode::Created => 201,
            TiiStatusCode::Accepted => 202,
            TiiStatusCode::NonAuthoritative => 203,
            TiiStatusCode::NoContent => 204,
            TiiStatusCode::ResetContent => 205,
            TiiStatusCode::PartialContent => 206,
            TiiStatusCode::MultipleChoices => 300,
            TiiStatusCode::MovedPermanently => 301,
            TiiStatusCode::Found => 302,
            TiiStatusCode::SeeOther => 303,
            TiiStatusCode::NotModified => 304,
            TiiStatusCode::UseProxy => 305,
            TiiStatusCode::TemporaryRedirect => 307,
            TiiStatusCode::PermanentRedirect => 308,
            TiiStatusCode::BadRequest => 400,
            TiiStatusCode::Unauthorized => 401,
            TiiStatusCode::PaymentRequired => 402,
            TiiStatusCode::Forbidden => 403,
            TiiStatusCode::NotFound => 404,
            TiiStatusCode::MethodNotAllowed => 405,
            TiiStatusCode::NotAcceptable => 406,
            TiiStatusCode::ProxyAuthenticationRequired => 407,
            TiiStatusCode::RequestTimeout => 408,
            TiiStatusCode::Conflict => 409,
            TiiStatusCode::Gone => 410,
            TiiStatusCode::LengthRequired => 411,
            TiiStatusCode::PreconditionFailed => 412,
            TiiStatusCode::RequestEntityTooLarge => 413,
            TiiStatusCode::ContentTooLarge => 413,
            TiiStatusCode::RequestURITooLong => 414,
            TiiStatusCode::UnsupportedMediaType => 415,
            TiiStatusCode::RequestedRangeNotSatisfiable => 416,
            TiiStatusCode::ExpectationFailed => 417,
            TiiStatusCode::InternalServerError => 500,
            TiiStatusCode::NotImplemented => 501,
            TiiStatusCode::BadGateway => 502,
            TiiStatusCode::ServiceUnavailable => 503,
            TiiStatusCode::GatewayTimeout => 504,
            TiiStatusCode::VersionNotSupported => 505,
            TiiStatusCode::CustomStr(c, _, _) => *c,
            TiiStatusCode::CustomString(c, _, _) => *c,
        }
    }
}


/// Looking up the number of a well known status code gives it back; the
/// exception is 413 Request Entity Too Large, whose number gives 413
/// Content Too Large, the name that replaced it.
pub proof fn lemma_code_round_trip(s: TiiStatusCode)
    requires
        !(s is CustomStr || s is CustomString || s is RequestEntityTooLarge),
    ensures
        well_known_code(status_code_value(s)) == Some(s),
{
}

} // verus!
