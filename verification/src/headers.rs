//! HTTP headers: their names and an ordered collection of them.
use crate::text::{
    chars_eq_lower_str, chars_of, copy_string, lower_seq, lower_string, str_eq, string_from,
};
use vstd::prelude::*;

verus! {

/// The name of an HTTP header.
///
/// The parameter is the type of the text of a custom name: `String` in
/// executable code, `Seq<char>` in specifications.
#[derive(Clone, Debug, Eq, Hash, PartialEq)]
pub enum TiiHttpHeaderName<S = String> {
    /// Informs the server about the types of data that can be sent back.
    Accept,
    /// Informs the server about the accepted character encodings.
    AcceptCharset,
    /// Indicates the content encoding(s) understood by the client, usually compression algorithms.
    AcceptEncoding,
    /// Informs the server about the client's language(s).
    AcceptLanguage,
    /// Indicates the method that will be used for the actual request when performing an OPTIONS request.
    AccessControlRequestMethod,
    /// Indicates the headers that will be used for the actual request when performing an OPTIONS request.
    AccessControlRequestHeaders,
    /// Provides credentials for HTTP authentication.
    Authorization,
    /// Indicates how the cache should behave.
    CacheControl,
    /// Indicates what should happen to the connection after the request is served.
    Connection,
    /// Lists any encodings used on the payload.
    ContentEncoding,
    /// Indicates the length of the payload body.
    ContentLength,
    /// Indicates the MIME type of the payload body.
    ContentType,
    /// Shares any applicable HTTP cookies with the server.
    Cookie,
    /// Indicates the date and time at which the request was sent.
    Date,
    /// Indicates any expectations that must be met by the server in order to properly serve the request.
    Expect,
    /// May contain reverse proxy information, generally not used in favour of the `X-Forwarded-For` header.
    Forwarded,
    /// Indicates the email address of the client, often used by crawlers.
    From,
    /// Specifies the host to which the request is being sent, e.g. "www.example.com".
    Host,
    /// Indicates the origin that caused the request.
    Origin,
    /// Contains backwards-compatible caching information.
    Pragma,
    /// Indicates the absolute or partial address of the page making the request.
    Referer,
    /// Indicates that the connection is to be upgraded to a different protocol, e.g. WebSocket.
    Upgrade,
    /// Informs the server of basic browser and device information.
    UserAgent,
    /// Contains the addresses of proxies through which the request has been forwarded.
    Via,
    /// Contains information about possible problems with the request.
    Warning,

    /// Indicates whether the response can be shared with other origins.
    AccessControlAllowOrigin,
    /// Indicates whether certain headers can be set.
    AccessControlAllowHeaders,
    /// Indicates whether certain methods can be used.
    AccessControlAllowMethods,
    /// Contains the time in seconds that the object has been cached.
    Age,
    /// The set of methods supported by the resource.
    Allow,
    /// Indicates whether the response is to be displayed as a webpage or downloaded directly.
    ContentDisposition,
    /// Informs the client of the language of the payload body.
    ContentLanguage,
    /// Indicates an alternative location for the returned data.
    ContentLocation,
    /// Identifies a specific version of a resource.
    ETag,
    /// Contains the date and time at which the response is considered expired.
    Expires,
    /// Indicates the date and time at which the response was last modified.
    LastModified,
    /// Provides a means for serialising links in the headers, equivalent to the HTML `<link>` element.
    Link,
    /// Indicates the location at which the resource can be found, used for redirects.
    Location,
    /// Contains information about the server which served the request.
    Server,
    /// Indicates that the client should set the specified cookies.
    SetCookie,
    /// Indicates the encoding used in the transfer of the payload body.
    TransferEncoding,

    /// <https://developer.mozilla.org/en-US/docs/Web/HTTP/Headers/TE>
    TE,
    /// Trailer encoding
    Trailer,

    /// Indicates that a proxy server in the connection needs authentication.
    ProxyAuthenticate,

    /// Custom header with a lowercase name
    Custom(S),
}

impl View for TiiHttpHeaderName<String> {
    type V = TiiHttpHeaderName<Seq<char>>;

    open spec fn view(&self) -> TiiHttpHeaderName<Seq<char>> {
        match self {
            TiiHttpHeaderName::Accept => TiiHttpHeaderName::Accept,
            TiiHttpHeaderName::AcceptCharset => TiiHttpHeaderName::AcceptCharset,
            TiiHttpHeaderName::AcceptEncoding => TiiHttpHeaderName::AcceptEncoding,
            TiiHttpHeaderName::AcceptLanguage => TiiHttpHeaderName::AcceptLanguage,
            TiiHttpHeaderName::AccessControlRequestMethod => TiiHttpHeaderName::AccessControlRequestMethod,
            TiiHttpHeaderName::AccessControlRequestHeaders => TiiHttpHeaderName::AccessControlRequestHeaders,
            TiiHttpHeaderName::Authorization => TiiHttpHeaderName::Authorization,
            TiiHttpHeaderName::CacheControl => TiiHttpHeaderName::CacheControl,
            TiiHttpHeaderName::Connection => TiiHttpHeaderName::Connection,
            TiiHttpHeaderName::ContentEncoding => TiiHttpHeaderName::ContentEncoding,
            TiiHttpHeaderName::ContentLength => TiiHttpHeaderName::ContentLength,
            TiiHttpHeaderName::ContentType => TiiHttpHeaderName::ContentType,
            TiiHttpHeaderName::Cookie => TiiHttpHeaderName::Cookie,
            TiiHttpHeaderName::Date => TiiHttpHeaderName::Date,
            TiiHttpHeaderName::Expect => TiiHttpHeaderName::Expect,
            TiiHttpHeaderName::Forwarded => TiiHttpHeaderName::Forwarded,
            TiiHttpHeaderName::From => TiiHttpHeaderName::From,
            TiiHttpHeaderName::Host => TiiHttpHeaderName::Host,
            TiiHttpHeaderName::Origin => TiiHttpHeaderName::Origin,
            TiiHttpHeaderName::Pragma => TiiHttpHeaderName::Pragma,
            TiiHttpHeaderName::Referer => TiiHttpHeaderName::Referer,
            TiiHttpHeaderName::Upgrade => TiiHttpHeaderName::Upgrade,
            TiiHttpHeaderName::UserAgent => TiiHttpHeaderName::UserAgent,
            TiiHttpHeaderName::Via => TiiHttpHeaderName::Via,
            TiiHttpHeaderName::Warning => TiiHttpHeaderName::Warning,
            TiiHttpHeaderName::AccessControlAllowOrigin => TiiHttpHeaderName::AccessControlAllowOrigin,
            TiiHttpHeaderName::AccessControlAllowHeaders => TiiHttpHeaderName::AccessControlAllowHeaders,
            TiiHttpHeaderName::AccessControlAllowMethods => TiiHttpHeaderName::AccessControlAllowMethods,
            TiiHttpHeaderName::Age => TiiHttpHeaderName::Age,
            TiiHttpHeaderName::Allow => TiiHttpHeaderName::Allow,
            TiiHttpHeaderName::ContentDisposition => TiiHttpHeaderName::ContentDisposition,
            TiiHttpHeaderName::ContentLanguage => TiiHttpHeaderName::ContentLanguage,
            TiiHttpHeaderName::ContentLocation => TiiHttpHeaderName::ContentLocation,
            TiiHttpHeaderName::ETag => TiiHttpHeaderName::ETag,
            TiiHttpHeaderName::Expires => TiiHttpHeaderName::Expires,
            TiiHttpHeaderName::LastModified => TiiHttpHeaderName::LastModified,
            TiiHttpHeaderName::Link => TiiHttpHeaderName::Link,
            TiiHttpHeaderName::Location => TiiHttpHeaderName::Location,
            TiiHttpHeaderName::Server => TiiHttpHeaderName::Server,
            TiiHttpHeaderName::SetCookie => TiiHttpHeaderName::SetCookie,
            TiiHttpHeaderName::TransferEncoding => TiiHttpHeaderName::TransferEncoding,
            TiiHttpHeaderName::ProxyAuthenticate => TiiHttpHeaderName::ProxyAuthenticate,
            TiiHttpHeaderName::TE => TiiHttpHeaderName::TE,
            TiiHttpHeaderName::Trailer => TiiHttpHeaderName::Trailer,
            TiiHttpHeaderName::Custom(s) => TiiHttpHeaderName::Custom(s@),
        }
    }
}

/// The header name that a text denotes: a well known header when the text,
/// in ASCII lowercase, is its name in lowercase; otherwise a custom name
/// holding the text in ASCII lowercase.
pub open spec fn header_name_of(name: Seq<char>) -> TiiHttpHeaderName<Seq<char>> {
    let l = lower_seq(name);
    if l == "accept"@ {
        TiiHttpHeaderName::Accept
    }     else if l == "accept-charset"@ {
        TiiHttpHeaderName::AcceptCharset
    }     else if l == "accept-encoding"@ {
        TiiHttpHeaderName::AcceptEncoding
    }     else if l == "accept-language"@ {
        TiiHttpHeaderName::AcceptLanguage
    }     else if l == "access-control-request-method"@ {
        TiiHttpHeaderName::AccessControlRequestMethod
    }     else if l == "access-control-request-headers"@ {
        TiiHttpHeaderName::AccessControlRequestHeaders
    }     else if l == "authorization"@ {
        TiiHttpHeaderName::Authorization
    }     else if l == "cache-control"@ {
        TiiHttpHeaderName::CacheControl
    }     else if l == "connection"@ {
        TiiHttpHeaderName::Connection
    }     else if l == "content-encoding"@ {
        TiiHttpHeaderName::ContentEncoding
    }     else if l == "content-length"@ {
        TiiHttpHeaderName::ContentLength
    }     else if l == "content-type"@ {
        TiiHttpHeaderName::ContentType
    }     else if l == "cookie"@ {
        TiiHttpHeaderName::Cookie
    }     else if l == "date"@ {
        TiiHttpHeaderName::Date
    }     else if l == "expect"@ {
        TiiHttpHeaderName::Expect
    }     else if l == "forwarded"@ {
        TiiHttpHeaderName::Forwarded
    }     else if l == "from"@ {
        TiiHttpHeaderName::From
    }     else if l == "host"@ {
        TiiHttpHeaderName::Host
    }     else if l == "origin"@ {
        TiiHttpHeaderName::Origin
    }     else if l == "pragma"@ {
        TiiHttpHeaderName::Pragma
    }     else if l == "referer"@ {
        TiiHttpHeaderName::Referer
    }     else if l == "upgrade"@ {
        TiiHttpHeaderName::Upgrade
    }     else if l == "user-agent"@ {
        TiiHttpHeaderName::UserAgent
    }     else if l == "via"@ {
        TiiHttpHeaderName::Via
    }     else if l == "warning"@ {
        TiiHttpHeaderName::Warning
    }     else if l == "access-control-allow-origin"@ {
        TiiHttpHeaderName::AccessControlAllowOrigin
    }     else if l == "access-control-allow-headers"@ {
        TiiHttpHeaderName::AccessControlAllowHeaders
    }     else if l == "access-control-allow-methods"@ {
        TiiHttpHeaderName::AccessControlAllowMethods
    }     else if l == "age"@ {
        TiiHttpHeaderName::Age
    }     else if l == "allow"@ {
        TiiHttpHeaderName::Allow
    }     else if l == "content-disposition"@ {
        TiiHttpHeaderName::ContentDisposition
    }     else if l == "content-language"@ {
        TiiHttpHeaderName::ContentLanguage
    }     else if l == "content-location"@ {
        TiiHttpHeaderName::ContentLocation
    }     else if l == "etag"@ {
        TiiHttpHeaderName::ETag
    }     else if l == "expires"@ {
        TiiHttpHeaderName::Expires
    }     else if l == "last-modified"@ {
        TiiHttpHeaderName::LastModified
    }     else if l == "link"@ {
        TiiHttpHeaderName::Link
    }     else if l == "location"@ {
        TiiHttpHeaderName::Location
    }     else if l == "server"@ {
        TiiHttpHeaderName::Server
    }     else if l == "set-cookie"@ {
        TiiHttpHeaderName::SetCookie
    }     else if l == "transfer-encoding"@ {
        TiiHttpHeaderName::TransferEncoding
    }     else if l == "proxy-authenticate"@ {
        TiiHttpHeaderName::ProxyAuthenticate
    }     else if l == "te"@ {
        TiiHttpHeaderName::TE
    }     else if l == "trailer"@ {
        TiiHttpHeaderName::Trailer
    } else {
        TiiHttpHeaderName::Custom(l)
    }
}

/// The text of a header name.
pub open spec fn header_text(n: TiiHttpHeaderName<Seq<char>>) -> Seq<char> {
    match n {
        TiiHttpHeaderName::Accept => "Accept"@,
        TiiHttpHeaderName::AcceptCharset => "Accept-Charset"@,
        TiiHttpHeaderName::AcceptEncoding => "Accept-Encoding"@,
        TiiHttpHeaderName::AcceptLanguage => "Accept-Language"@,
        TiiHttpHeaderName::AccessControlRequestMethod => "Access-Control-Request-Method"@,
        TiiHttpHeaderName::AccessControlRequestHeaders => "Access-Control-Request-Headers"@,
        TiiHttpHeaderName::Authorization => "Authorization"@,
        TiiHttpHeaderName::CacheControl => "Cache-Control"@,
        TiiHttpHeaderName::Connection => "Connection"@,
        TiiHttpHeaderName::ContentEncoding => "Content-Encoding"@,
        TiiHttpHeaderName::ContentLength => "Content-Length"@,
        TiiHttpHeaderName::ContentType => "Content-Type"@,
        TiiHttpHeaderName::Cookie => "Cookie"@,
        TiiHttpHeaderName::Date => "Date"@,
        TiiHttpHeaderName::Expect => "Expect"@,
        TiiHttpHeaderName::Forwarded => "Forwarded"@,
        TiiHttpHeaderName::From => "From"@,
        TiiHttpHeaderName::Host => "Host"@,
        TiiHttpHeaderName::Origin => "Origin"@,
        TiiHttpHeaderName::Pragma => "Pragma"@,
        TiiHttpHeaderName::Referer => "Referer"@,
        TiiHttpHeaderName::Upgrade => "Upgrade"@,
        TiiHttpHeaderName::UserAgent => "User-Agent"@,
        TiiHttpHeaderName::Via => "Via"@,
        TiiHttpHeaderName::Warning => "Warning"@,
        TiiHttpHeaderName::AccessControlAllowOrigin => "Access-Control-Allow-Origin"@,
        TiiHttpHeaderName::AccessControlAllowHeaders => "Access-Control-Allow-Headers"@,
        TiiHttpHeaderName::AccessControlAllowMethods => "Access-Control-Allow-Methods"@,
        TiiHttpHeaderName::Age => "Age"@,
        TiiHttpHeaderName::Allow => "Allow"@,
        TiiHttpHeaderName::ContentDisposition => "Content-Disposition"@,
        TiiHttpHeaderName::ContentLanguage => "Content-Language"@,
        TiiHttpHeaderName::ContentLocation => "Content-Location"@,
        TiiHttpHeaderName::ETag => "ETag"@,
        TiiHttpHeaderName::Expires => "Expires"@,
        TiiHttpHeaderName::LastModified => "Last-Modified"@,
        TiiHttpHeaderName::Link => "Link"@,
        TiiHttpHeaderName::Location => "Location"@,
        TiiHttpHeaderName::Server => "Server"@,
        TiiHttpHeaderName::SetCookie => "Set-Cookie"@,
        TiiHttpHeaderName::TransferEncoding => "Transfer-Encoding"@,
        TiiHttpHeaderName::ProxyAuthenticate => "Proxy-Authenticate"@,
        TiiHttpHeaderName::TE => "TE"@,
        TiiHttpHeaderName::Trailer => "Trailer"@,
        TiiHttpHeaderName::Custom(s) => s,
    }
}

impl TiiHttpHeaderName {
    /// Converts a header name; the comparison with the well known names ignores ASCII case,
    /// and a custom name is kept in ASCII lowercase.
    pub fn from_name(name: &str) -> (r: Self)
        ensures
            r@ == header_name_of(name@),
    {
        let v = chars_of(name);
        if chars_eq_lower_str(&v, "accept") {
            TiiHttpHeaderName::Accept
        }         else if chars_eq_lower_str(&v, "accept-charset") {
            TiiHttpHeaderName::AcceptCharset
        }         else if chars_eq_lower_str(&v, "accept-encoding") {
            TiiHttpHeaderName::AcceptEncoding
        }         else if chars_eq_lower_str(&v, "accept-language") {
            TiiHttpHeaderName::AcceptLanguage
        }         else if chars_eq_lower_str(&v, "access-control-request-method") {
            TiiHttpHeaderName::AccessControlRequestMethod
        }         else if chars_eq_lower_str(&v, "access-control-request-headers") {
            TiiHttpHeaderName::AccessControlRequestHeaders
        }         else if chars_eq_lower_str(&v, "authorization") {
            TiiHttpHeaderName::Authorization
        }         else if chars_eq_lower_str(&v, "cache-control") {
            TiiHttpHeaderName::CacheControl
        }         else if chars_eq_lower_str(&v, "connection") {
            TiiHttpHeaderName::Connection
        }         else if chars_eq_lower_str(&v, "content-encoding") {
            TiiHttpHeaderName::ContentEncoding
        }         else if chars_eq_lower_str(&v, "content-length") {
            TiiHttpHeaderName::ContentLength
        }         else if chars_eq_lower_str(&v, "content-type") {
            TiiHttpHeaderName::ContentType
        }         else if chars_eq_lower_str(&v, "cookie") {
            TiiHttpHeaderName::Cookie
        }         else if chars_eq_lower_str(&v, "date") {
            TiiHttpHeaderName::Date
        }         else if chars_eq_lower_str(&v, "expect") {
            TiiHttpHeaderName::Expect
        }         else if chars_eq_lower_str(&v, "forwarded") {
            TiiHttpHeaderName::Forwarded
        }         else if chars_eq_lower_str(&v, "from") {
            TiiHttpHeaderName::From
        }         else if chars_eq_lower_str(&v, "host") {
            TiiHttpHeaderName::Host
        }         else if chars_eq_lower_str(&v, "origin") {
            TiiHttpHeaderName::Origin
        }         else if chars_eq_lower_str(&v, "pragma") {
            TiiHttpHeaderName::Pragma
        }         else if chars_eq_lower_str(&v, "referer") {
            TiiHttpHeaderName::Referer
        }         else if chars_eq_lower_str(&v, "upgrade") {
            TiiHttpHeaderName::Upgrade
        }         else if chars_eq_lower_str(&v, "user-agent") {
            TiiHttpHeaderName::UserAgent
        }         else if chars_eq_lower_str(&v, "via") {
            TiiHttpHeaderName::Via
        }         else if chars_eq_lower_str(&v, "warning") {
            TiiHttpHeaderName::Warning
        }         else if chars_eq_lower_str(&v, "access-control-allow-origin") {
            TiiHttpHeaderName::AccessControlAllowOrigin
        }         else if chars_eq_lower_str(&v, "access-control-allow-headers") {
            TiiHttpHeaderName::AccessControlAllowHeaders
        }         else if chars_eq_lower_str(&v, "access-control-allow-methods") {
            TiiHttpHeaderName::AccessControlAllowMethods
        }         else if chars_eq_lower_str(&v, "age") {
            TiiHttpHeaderName::Age
        }         else if chars_eq_lower_str(&v, "allow") {
            TiiHttpHeaderName::Allow
        }         else if chars_eq_lower_str(&v, "content-disposition") {
            TiiHttpHeaderName::ContentDisposition
        }         else if chars_eq_lower_str(&v, "content-language") {
            TiiHttpHeaderName::ContentLanguage
        }         else if chars_eq_lower_str(&v, "content-location") {
            TiiHttpHeaderName::ContentLocation
        }         else if chars_eq_lower_str(&v, "etag") {
            TiiHttpHeaderName::ETag
        }         else if chars_eq_lower_str(&v, "expires") {
            TiiHttpHeaderName::Expires
        }         else if chars_eq_lower_str(&v, "last-modified") {
            TiiHttpHeaderName::LastModified
        }         else if chars_eq_lower_str(&v, "link") {
            TiiHttpHeaderName::Link
        }         else if chars_eq_lower_str(&v, "location") {
            TiiHttpHeaderName::Location
        }         else if chars_eq_lower_str(&v, "server") {
            TiiHttpHeaderName::Server
        }         else if chars_eq_lower_str(&v, "set-cookie") {
            TiiHttpHeaderName::SetCookie
        }         else if chars_eq_lower_str(&v, "transfer-encoding") {
            TiiHttpHeaderName::TransferEncoding
        }         else if chars_eq_lower_str(&v, "proxy-authenticate") {
            TiiHttpHeaderName::ProxyAuthenticate
        }         else if chars_eq_lower_str(&v, "te") {
            TiiHttpHeaderName::TE
        }         else if chars_eq_lower_str(&v, "trailer") {
            TiiHttpHeaderName::Trailer
        } else {
            TiiHttpHeaderName::Custom(lower_string(&v))
        }
    }

    /// All well known header names (the list names Accept twice).
    pub fn well_known() -> (r: Vec<TiiHttpHeaderName>)
        ensures
            r@.len() == 45,
            forall|i: int| 0 <= i < r@.len() ==> !(#[trigger] r@[i] is Custom),
    {
        let r = vec![
            TiiHttpHeaderName::Accept,
            TiiHttpHeaderName::Accept,
            TiiHttpHeaderName::AcceptCharset,
            TiiHttpHeaderName::AcceptEncoding,
            TiiHttpHeaderName::AcceptLanguage,
            TiiHttpHeaderName::AccessControlRequestMethod,
            TiiHttpHeaderName::AccessControlRequestHeaders,
            TiiHttpHeaderName::Authorization,
            TiiHttpHeaderName::CacheControl,
            TiiHttpHeaderName::Connection,
            TiiHttpHeaderName::ContentEncoding,
            TiiHttpHeaderName::ContentLength,
            TiiHttpHeaderName::ContentType,
            TiiHttpHeaderName::Cookie,
            TiiHttpHeaderName::Date,
            TiiHttpHeaderName::Expect,
            TiiHttpHeaderName::Forwarded,
            TiiHttpHeaderName::From,
            TiiHttpHeaderName::Host,
            TiiHttpHeaderName::Origin,
            TiiHttpHeaderName::Pragma,
            TiiHttpHeaderName::Referer,
            TiiHttpHeaderName::Upgrade,
            TiiHttpHeaderName::UserAgent,
            TiiHttpHeaderName::Via,
            TiiHttpHeaderName::Warning,
            TiiHttpHeaderName::AccessControlAllowOrigin,
            TiiHttpHeaderName::AccessControlAllowHeaders,
            TiiHttpHeaderName::AccessControlAllowMethods,
            TiiHttpHeaderName::Age,
            TiiHttpHeaderName::Allow,
            TiiHttpHeaderName::ContentDisposition,
            TiiHttpHeaderName::ContentLanguage,
            TiiHttpHeaderName::ContentLocation,
            TiiHttpHeaderName::ETag,
            TiiHttpHeaderName::Expires,
            TiiHttpHeaderName::LastModified,
            TiiHttpHeaderName::Link,
            TiiHttpHeaderName::Location,
            TiiHttpHeaderName::Server,
            TiiHttpHeaderName::SetCookie,
            TiiHttpHeaderName::TransferEncoding,
            TiiHttpHeaderName::Trailer,
            TiiHttpHeaderName::TE,
            TiiHttpHeaderName::ProxyAuthenticate,
        ];
        r
    }

    /// Returns true if the header is not well known.
    pub fn is_custom(&self) -> (r: bool)
        ensures
            r == self is Custom,
    {
        self.well_known_str().is_none()
    }

    /// Returns true if the header is well known.
    pub fn is_well_known(&self) -> (r: bool)
        ensures
            r == !(self is Custom),
    {
        self.well_known_str().is_some()
    }

    /// The text of the header name.
    pub fn to_str(&self) -> (r: &str)
        ensures
            r@ == header_text(self@),
    {
        match self {
            TiiHttpHeaderName::Accept => "Accept",
            TiiHttpHeaderName::AcceptCharset => "Accept-Charset",
            TiiHttpHeaderName::AcceptEncoding => "Accept-Encoding",
            TiiHttpHeaderName::AcceptLanguage => "Accept-Language",
            TiiHttpHeaderName::AccessControlRequestMethod => "Access-Control-Request-Method",
            TiiHttpHeaderName::AccessControlRequestHeaders => "Access-Control-Request-Headers",
            TiiHttpHeaderName::Authorization => "Authorization",
            TiiHttpHeaderName::CacheControl => "Cache-Control",
            TiiHttpHeaderName::Connection => "Connection",
            TiiHttpHeaderName::ContentEncoding => "Content-Encoding",
            TiiHttpHeaderName::ContentLength => "Content-Length",
            TiiHttpHeaderName::ContentType => "Content-Type",
            TiiHttpHeaderName::Cookie => "Cookie",
            TiiHttpHeaderName::Date => "Date",
            TiiHttpHeaderName::Expect => "Expect",
            TiiHttpHeaderName::Forwarded => "Forwarded",
            TiiHttpHeaderName::From => "From",
            TiiHttpHeaderName::Host => "Host",
            TiiHttpHeaderName::Origin => "Origin",
            TiiHttpHeaderName::Pragma => "Pragma",
            TiiHttpHeaderName::Referer => "Referer",
            TiiHttpHeaderName::Upgrade => "Upgrade",
            TiiHttpHeaderName::UserAgent => "User-Agent",
            TiiHttpHeaderName::Via => "Via",
            TiiHttpHeaderName::Warning => "Warning",
            TiiHttpHeaderName::AccessControlAllowOrigin => "Access-Control-Allow-Origin",
            TiiHttpHeaderName::AccessControlAllowHeaders => "Access-Control-Allow-Headers",
            TiiHttpHeaderName::AccessControlAllowMethods => "Access-Control-Allow-Methods",
            TiiHttpHeaderName::Age => "Age",
            TiiHttpHeaderName::Allow => "Allow",
            TiiHttpHeaderName::ContentDisposition => "Content-Disposition",
            TiiHttpHeaderName::ContentLanguage => "Content-Language",
            TiiHttpHeaderName::ContentLocation => "Content-Location",
            TiiHttpHeaderName::ETag => "ETag",
            TiiHttpHeaderName::Expires => "Expires",
            TiiHttpHeaderName::LastModified => "Last-Modified",
            TiiHttpHeaderName::Link => "Link",
            TiiHttpHeaderName::Location => "Location",
            TiiHttpHeaderName::Server => "Server",
            TiiHttpHeaderName::SetCookie => "Set-Cookie",
            TiiHttpHeaderName::TransferEncoding => "Transfer-Encoding",
            TiiHttpHeaderName::ProxyAuthenticate => "Proxy-Authenticate",
            TiiHttpHeaderName::TE => "TE",
            TiiHttpHeaderName::Trailer => "Trailer",
            TiiHttpHeaderName::Custom(name) => name.as_str(),
        }
    }

    /// The static text of a well known header name; None for custom names.
    pub fn well_known_str(&self) -> (r: Option<&'static str>)
        ensures
            r is None <==> self is Custom,
            r matches Some(t) ==> t@ == header_text(self@),
    {
        match self {
            TiiHttpHeaderName::Accept => Some("Accept"),
            TiiHttpHeaderName::AcceptCharset => Some("Accept-Charset"),
            TiiHttpHeaderName::AcceptEncoding => Some("Accept-Encoding"),
            TiiHttpHeaderName::AcceptLanguage => Some("Accept-Language"),
            TiiHttpHeaderName::AccessControlRequestMethod => Some("Access-Control-Request-Method"),
            TiiHttpHeaderName::AccessControlRequestHeaders => Some("Access-Control-Request-Headers"),
            TiiHttpHeaderName::Authorization => Some("Authorization"),
            TiiHttpHeaderName::CacheControl => Some("Cache-Control"),
            TiiHttpHeaderName::Connection => Some("Connection"),
            TiiHttpHeaderName::ContentEncoding => Some("Content-Encoding"),
            TiiHttpHeaderName::ContentLength => Some("Content-Length"),
            TiiHttpHeaderName::ContentType => Some("Content-Type"),
            TiiHttpHeaderName::Cookie => Some("Cookie"),
            TiiHttpHeaderName::Date => Some("Date"),
            TiiHttpHeaderName::Expect => Some("Expect"),
            TiiHttpHeaderName::Forwarded => Some("Forwarded"),
            TiiHttpHeaderName::From => Some("From"),
            TiiHttpHeaderName::Host => Some("Host"),
            TiiHttpHeaderName::Origin => Some("Origin"),
            TiiHttpHeaderName::Pragma => Some("Pragma"),
            TiiHttpHeaderName::Referer => Some("Referer"),
            TiiHttpHeaderName::Upgrade => Some("Upgrade"),
            TiiHttpHeaderName::UserAgent => Some("User-Agent"),
            TiiHttpHeaderName::Via => Some("Via"),
            TiiHttpHeaderName::Warning => Some("Warning"),
            TiiHttpHeaderName::AccessControlAllowOrigin => Some("Access-Control-Allow-Origin"),
            TiiHttpHeaderName::AccessControlAllowHeaders => Some("Access-Control-Allow-Headers"),
            TiiHttpHeaderName::AccessControlAllowMethods => Some("Access-Control-Allow-Methods"),
            TiiHttpHeaderName::Age => Some("Age"),
            TiiHttpHeaderName::Allow => Some("Allow"),
            TiiHttpHeaderName::ContentDisposition => Some("Content-Disposition"),
            TiiHttpHeaderName::ContentLanguage => Some("Content-Language"),
            TiiHttpHeaderName::ContentLocation => Some("Content-Location"),
            TiiHttpHeaderName::ETag => Some("ETag"),
            TiiHttpHeaderName::Expires => Some("Expires"),
            TiiHttpHeaderName::LastModified => Some("Last-Modified"),
            TiiHttpHeaderName::Link => Some("Link"),
            TiiHttpHeaderName::Location => Some("Location"),
            TiiHttpHeaderName::Server => Some("Server"),
            TiiHttpHeaderName::SetCookie => Some("Set-Cookie"),
            TiiHttpHeaderName::TransferEncoding => Some("Transfer-Encoding"),
            TiiHttpHeaderName::ProxyAuthenticate => Some("Proxy-Authenticate"),
            TiiHttpHeaderName::TE => Some("TE"),
            TiiHttpHeaderName::Trailer => Some("Trailer"),
            TiiHttpHeaderName::Custom(_) => None,
        }
    }

    /// Do two header names denote the same header?
    pub fn same_as(&self, other: &TiiHttpHeaderName) -> (r: bool)
        ensures
            r == (self@ == other@),
    {
        match (self, other) {
            (TiiHttpHeaderName::Accept, TiiHttpHeaderName::Accept) => true,
            (TiiHttpHeaderName::AcceptCharset, TiiHttpHeaderName::AcceptCharset) => true,
            (TiiHttpHeaderName::AcceptEncoding, TiiHttpHeaderName::AcceptEncoding) => true,
            (TiiHttpHeaderName::AcceptLanguage, TiiHttpHeaderName::AcceptLanguage) => true,
            (TiiHttpHeaderName::AccessControlRequestMethod, TiiHttpHeaderName::AccessControlRequestMethod) => true,
            (TiiHttpHeaderName::AccessControlRequestHeaders, TiiHttpHeaderName::AccessControlRequestHeaders) => true,
            (TiiHttpHeaderName::Authorization, TiiHttpHeaderName::Authorization) => true,
            (TiiHttpHeaderName::CacheControl, TiiHttpHeaderName::CacheControl) => true,
            (TiiHttpHeaderName::Connection, TiiHttpHeaderName::Connection) => true,
            (TiiHttpHeaderName::ContentEncoding, TiiHttpHeaderName::ContentEncoding) => true,
            (TiiHttpHeaderName::ContentLength, TiiHttpHeaderName::ContentLength) => true,
            (TiiHttpHeaderName::ContentType, TiiHttpHeaderName::ContentType) => true,
            (TiiHttpHeaderName::Cookie, TiiHttpHeaderName::Cookie) => true,
            (TiiHttpHeaderName::Date, TiiHttpHeaderName::Date) => true,
            (TiiHttpHeaderName::Expect, TiiHttpHeaderName::Expect) => true,
            (TiiHttpHeaderName::Forwarded, TiiHttpHeaderName::Forwarded) => true,
            (TiiHttpHeaderName::From, TiiHttpHeaderName::From) => true,
            (TiiHttpHeaderName::Host, TiiHttpHeaderName::Host) => true,
            (TiiHttpHeaderName::Origin, TiiHttpHeaderName::Origin) => true,
            (TiiHttpHeaderName::Pragma, TiiHttpHeaderName::Pragma) => true,
            (TiiHttpHeaderName::Referer, TiiHttpHeaderName::Referer) => true,
            (TiiHttpHeaderName::Upgrade, TiiHttpHeaderName::Upgrade) => true,
            (TiiHttpHeaderName::UserAgent, TiiHttpHeaderName::UserAgent) => true,
            (TiiHttpHeaderName::Via, TiiHttpHeaderName::Via) => true,
            (TiiHttpHeaderName::Warning, TiiHttpHeaderName::Warning) => true,
            (TiiHttpHeaderName::AccessControlAllowOrigin, TiiHttpHeaderName::AccessControlAllowOrigin) => true,
            (TiiHttpHeaderName::AccessControlAllowHeaders, TiiHttpHeaderName::AccessControlAllowHeaders) => true,
            (TiiHttpHeaderName::AccessControlAllowMethods, TiiHttpHeaderName::AccessControlAllowMethods) => true,
            (TiiHttpHeaderName::Age, TiiHttpHeaderName::Age) => true,
            (TiiHttpHeaderName::Allow, TiiHttpHeaderName::Allow) => true,
            (TiiHttpHeaderName::ContentDisposition, TiiHttpHeaderName::ContentDisposition) => true,
            (TiiHttpHeaderName::ContentLanguage, TiiHttpHeaderName::ContentLanguage) => true,
            (TiiHttpHeaderName::ContentLocation, TiiHttpHeaderName::ContentLocation) => true,
            (TiiHttpHeaderName::ETag, TiiHttpHeaderName::ETag) => true,
            (TiiHttpHeaderName::Expires, TiiHttpHeaderName::Expires) => true,
            (TiiHttpHeaderName::LastModified, TiiHttpHeaderName::LastModified) => true,
            (TiiHttpHeaderName::Link, TiiHttpHeaderName::Link) => true,
            (TiiHttpHeaderName::Location, TiiHttpHeaderName::Location) => true,
            (TiiHttpHeaderName::Server, TiiHttpHeaderName::Server) => true,
            (TiiHttpHeaderName::SetCookie, TiiHttpHeaderName::SetCookie) => true,
            (TiiHttpHeaderName::TransferEncoding, TiiHttpHeaderName::TransferEncoding) => true,
            (TiiHttpHeaderName::ProxyAuthenticate, TiiHttpHeaderName::ProxyAuthenticate) => true,
            (TiiHttpHeaderName::TE, TiiHttpHeaderName::TE) => true,
            (TiiHttpHeaderName::Trailer, TiiHttpHeaderName::Trailer) => true,
            (TiiHttpHeaderName::Custom(a), TiiHttpHeaderName::Custom(b)) => str_eq(a.as_str(), b.as_str()),
            _ => false,
        }
    }

    /// A copy of this header name.
    pub fn duplicate(&self) -> (r: Self)
        ensures
            r@ == self@,
    {
        match self {
            TiiHttpHeaderName::Accept => TiiHttpHeaderName::Accept,
            TiiHttpHeaderName::AcceptCharset => TiiHttpHeaderName::AcceptCharset,
            TiiHttpHeaderName::AcceptEncoding => TiiHttpHeaderName::AcceptEncoding,
            TiiHttpHeaderName::AcceptLanguage => TiiHttpHeaderName::AcceptLanguage,
            TiiHttpHeaderName::AccessControlRequestMethod => TiiHttpHeaderName::AccessControlRequestMethod,
            TiiHttpHeaderName::AccessControlRequestHeaders => TiiHttpHeaderName::AccessControlRequestHeaders,
            TiiHttpHeaderName::Authorization => TiiHttpHeaderName::Authorization,
            TiiHttpHeaderName::CacheControl => TiiHttpHeaderName::CacheControl,
            TiiHttpHeaderName::Connection => TiiHttpHeaderName::Connection,
            TiiHttpHeaderName::ContentEncoding => TiiHttpHeaderName::ContentEncoding,
            TiiHttpHeaderName::ContentLength => TiiHttpHeaderName::ContentLength,
            TiiHttpHeaderName::ContentType => TiiHttpHeaderName::ContentType,
            TiiHttpHeaderName::Cookie => TiiHttpHeaderName::Cookie,
            TiiHttpHeaderName::Date => TiiHttpHeaderName::Date,
            TiiHttpHeaderName::Expect => TiiHttpHeaderName::Expect,
            TiiHttpHeaderName::Forwarded => TiiHttpHeaderName::Forwarded,
            TiiHttpHeaderName::From => TiiHttpHeaderName::From,
            TiiHttpHeaderName::Host => TiiHttpHeaderName::Host,
            TiiHttpHeaderName::Origin => TiiHttpHeaderName::Origin,
            TiiHttpHeaderName::Pragma => TiiHttpHeaderName::Pragma,
            TiiHttpHeaderName::Referer => TiiHttpHeaderName::Referer,
            TiiHttpHeaderName::Upgrade => TiiHttpHeaderName::Upgrade,
            TiiHttpHeaderName::UserAgent => TiiHttpHeaderName::UserAgent,
            TiiHttpHeaderName::Via => TiiHttpHeaderName::Via,
            TiiHttpHeaderName::Warning => TiiHttpHeaderName::Warning,
            TiiHttpHeaderName::AccessControlAllowOrigin => TiiHttpHeaderName::AccessControlAllowOrigin,
            TiiHttpHeaderName::AccessControlAllowHeaders => TiiHttpHeaderName::AccessControlAllowHeaders,
            TiiHttpHeaderName::AccessControlAllowMethods => TiiHttpHeaderName::AccessControlAllowMethods,
            TiiHttpHeaderName::Age => TiiHttpHeaderName::Age,
            TiiHttpHeaderName::Allow => TiiHttpHeaderName::Allow,
            TiiHttpHeaderName::ContentDisposition => TiiHttpHeaderName::ContentDisposition,
            TiiHttpHeaderName::ContentLanguage => TiiHttpHeaderName::ContentLanguage,
            TiiHttpHeaderName::ContentLocation => TiiHttpHeaderName::ContentLocation,
            TiiHttpHeaderName::ETag => TiiHttpHeaderName::ETag,
            TiiHttpHeaderName::Expires => TiiHttpHeaderName::Expires,
            TiiHttpHeaderName::LastModified => TiiHttpHeaderName::LastModified,
            TiiHttpHeaderName::Link => TiiHttpHeaderName::Link,
            TiiHttpHeaderName::Location => TiiHttpHeaderName::Location,
            TiiHttpHeaderName::Server => TiiHttpHeaderName::Server,
            TiiHttpHeaderName::SetCookie => TiiHttpHeaderName::SetCookie,
            TiiHttpHeaderName::TransferEncoding => TiiHttpHeaderName::TransferEncoding,
            TiiHttpHeaderName::ProxyAuthenticate => TiiHttpHeaderName::ProxyAuthenticate,
            TiiHttpHeaderName::TE => TiiHttpHeaderName::TE,
            TiiHttpHeaderName::Trailer => TiiHttpHeaderName::Trailer,
            TiiHttpHeaderName::Custom(s) => TiiHttpHeaderName::Custom(copy_string(s)),
        }
    }
}

/// Represents an individual header.
#[derive(Clone, Debug, Eq, Hash, PartialEq)]
pub struct TiiHttpHeader<S = String> {
    /// The name of the header.
    pub name: TiiHttpHeaderName<S>,
    /// The value of the header.
    pub value: S,
}

impl View for TiiHttpHeader<String> {
    type V = TiiHttpHeader<Seq<char>>;

    open spec fn view(&self) -> TiiHttpHeader<Seq<char>> {
        TiiHttpHeader { name: self.name@, value: self.value@ }
    }
}

impl TiiHttpHeader {
    /// Creates a header with the given name and value.
    pub fn new(name: &str, value: &str) -> (r: Self)
        ensures
            r@ == (TiiHttpHeader { name: header_name_of(name@), value: value@ }),
    {
        TiiHttpHeader { name: TiiHttpHeaderName::from_name(name), value: string_from(value) }
    }

    /// A copy of this header.
    pub fn duplicate(&self) -> (r: Self)
        ensures
            r@ == self@,
    {
        TiiHttpHeader { name: self.name.duplicate(), value: copy_string(&self.value) }
    }
}

/// The values of the headers named `n`, in order.
pub open spec fn values_named(hs: Seq<TiiHttpHeader<Seq<char>>>, n: TiiHttpHeaderName<Seq<char>>) -> Seq<Seq<char>>
    decreases hs.len(),
{
    if hs.len() == 0 {
        seq![]
    } else if hs.last().name == n {
        values_named(hs.drop_last(), n).push(hs.last().value)
    } else {
        values_named(hs.drop_last(), n)
    }
}

/// The headers named `n`, in order.
pub open spec fn headers_named(hs: Seq<TiiHttpHeader<Seq<char>>>, n: TiiHttpHeaderName<Seq<char>>) -> Seq<TiiHttpHeader<Seq<char>>>
    decreases hs.len(),
{
    if hs.len() == 0 {
        seq![]
    } else if hs.last().name == n {
        headers_named(hs.drop_last(), n).push(hs.last())
    } else {
        headers_named(hs.drop_last(), n)
    }
}

/// The headers not named `n`, in order.
pub open spec fn headers_not_named(hs: Seq<TiiHttpHeader<Seq<char>>>, n: TiiHttpHeaderName<Seq<char>>) -> Seq<TiiHttpHeader<Seq<char>>>
    decreases hs.len(),
{
    if hs.len() == 0 {
        seq![]
    } else if hs.last().name != n {
        headers_not_named(hs.drop_last(), n).push(hs.last())
    } else {
        headers_not_named(hs.drop_last(), n)
    }
}

/// The value of the first header named `n`.
pub open spec fn first_value(hs: Seq<TiiHttpHeader<Seq<char>>>, n: TiiHttpHeaderName<Seq<char>>) -> Option<Seq<char>> {
    let vs = values_named(hs, n);
    if vs.len() == 0 {
        None
    } else {
        Some(vs[0])
    }
}

/// Represents a collection of headers as part of a request or response, in order.
#[derive(Clone, Debug, Default, Eq, Hash, PartialEq)]
pub struct Headers(Vec<TiiHttpHeader>);

impl View for Headers {
    type V = Seq<TiiHttpHeader<Seq<char>>>;

    closed spec fn view(&self) -> Seq<TiiHttpHeader<Seq<char>>> {
        Seq::new(self.0@.len(), |i: int| self.0@[i]@)
    }
}

proof fn lemma_named_step(hs: Seq<TiiHttpHeader<Seq<char>>>, n: TiiHttpHeaderName<Seq<char>>, i: int)
    requires
        0 <= i < hs.len(),
    ensures
        hs.take(i + 1).drop_last() == hs.take(i),
        hs.take(i + 1).last() == hs[i],
{
    assert(hs.take(i + 1).drop_last() =~= hs.take(i));
}

proof fn lemma_values_named_empty(hs: Seq<TiiHttpHeader<Seq<char>>>, n: TiiHttpHeaderName<Seq<char>>)
    requires
        forall|j: int| 0 <= j < hs.len() ==> hs[j].name != n,
    ensures
        values_named(hs, n).len() == 0,
    decreases hs.len(),
{
    if hs.len() > 0 {
        lemma_values_named_empty(hs.drop_last(), n);
    }
}

proof fn lemma_values_named_first(hs: Seq<TiiHttpHeader<Seq<char>>>, n: TiiHttpHeaderName<Seq<char>>, i: int)
    requires
        0 <= i < hs.len(),
        hs[i].name == n,
        forall|j: int| 0 <= j < i ==> hs[j].name != n,
    ensures
        values_named(hs, n).len() > 0,
        values_named(hs, n)[0] == hs[i].value,
    decreases hs.len(),
{
    if i == hs.len() - 1 {
        lemma_values_named_empty(hs.drop_last(), n);
    } else {
        lemma_values_named_first(hs.drop_last(), n, i);
    }
}

impl Headers {
    /// Create an empty collection of headers.
    pub fn new() -> (r: Self)
        ensures
            r@ == Seq::<TiiHttpHeader<Seq<char>>>::empty(),
    {
        let r = Headers(Vec::new());
        assert(r@ =~= Seq::<TiiHttpHeader<Seq<char>>>::empty());
        r
    }

    /// Get the number of headers in the collection.
    pub fn len(&self) -> (r: usize)
        ensures
            r == self@.len(),
    {
        self.0.len()
    }

    /// Create and add a new header with the given name and value.
    pub fn add(&mut self, name: &str, value: &str)
        ensures
            final(self)@ == old(self)@.push(
                TiiHttpHeader { name: header_name_of(name@), value: value@ },
            ),
    {
        let h = TiiHttpHeader::new(name, value);
        self.push(h);
    }

    /// Add an existing header to the collection.
    pub fn push(&mut self, header: TiiHttpHeader)
        ensures
            final(self)@ == old(self)@.push(header@),
    {
        self.0.push(header);
        assert(self@ =~= old(self)@.push(header@));
    }

    /// Index of the first header with the given name.
    fn position(&self, n: &TiiHttpHeaderName) -> (r: Option<usize>)
        ensures
            r matches Some(i) ==> i < self@.len() && self@[i as int].name == n@ && forall|j: int|
                0 <= j < i ==> self@[j].name != n@,
            r is None ==> forall|j: int| 0 <= j < self@.len() ==> self@[j].name != n@,
    {
        let mut i: usize = 0;
        while i < self.0.len()
            invariant
                i <= self.0@.len(),
                forall|j: int| 0 <= j < i ==> self@[j].name != n@,
            decreases self.0@.len() - i,
        {
            if self.0[i].name.same_as(n) {
                return Some(i);
            }
            i = i + 1;
        }
        None
    }

    /// The value of the first header with the given name.
    pub fn get(&self, name: &str) -> (r: Option<&str>)
        ensures
            r matches Some(v) ==> first_value(self@, header_name_of(name@)) == Some(v@),
            r is None ==> first_value(self@, header_name_of(name@)) is None,
    {
        let n = TiiHttpHeaderName::from_name(name);
        self.get_named(&n)
    }

    /// The value of the first header with the given name.
    pub fn get_named(&self, n: &TiiHttpHeaderName) -> (r: Option<&str>)
        ensures
            r matches Some(v) ==> first_value(self@, n@) == Some(v@),
            r is None ==> first_value(self@, n@) is None,
    {
        match self.position(n) {
            Some(i) => {
                proof {
                    lemma_values_named_first(self@, n@, i as int);
                }
                Some(self.0[i].value.as_str())
            },
            None => {
                proof {
                    lemma_values_named_empty(self@, n@);
                }
                None
            },
        }
    }

    /// Removes every header with the given name, then adds one with the value.
    /// Afterwards the header is present exactly once.
    pub fn set(&mut self, name: &str, value: &str)
        ensures
            final(self)@ == headers_not_named(old(self)@, header_name_of(name@)).push(
                TiiHttpHeader { name: header_name_of(name@), value: value@ },
            ),
            values_named(final(self)@, header_name_of(name@)) == seq![value@],
    {
        let n = TiiHttpHeaderName::from_name(name);
        self.set_named(&n, value);
    }

    /// Removes every header with the given name, then adds one with the value.
    /// Afterwards the header is present exactly once.
    pub fn set_named(&mut self, n: &TiiHttpHeaderName, value: &str)
        ensures
            final(self)@ == headers_not_named(old(self)@, n@).push(
                TiiHttpHeader { name: n@, value: value@ },
            ),
            values_named(final(self)@, n@) == seq![value@],
    {
        self.remove_named(n);
        self.add_named(n, value);
        proof {
            lemma_not_named_has_none(old(self)@, n@);
            let t = headers_not_named(old(self)@, n@);
            assert(self@.drop_last() =~= t);
            lemma_values_named_empty(t, n@);
        }
    }

    /// Adds a header with the given name and value.
    pub fn add_named(&mut self, n: &TiiHttpHeaderName, value: &str)
        ensures
            final(self)@ == old(self)@.push(TiiHttpHeader { name: n@, value: value@ }),
    {
        self.push(TiiHttpHeader { name: n.duplicate(), value: string_from(value) });
    }

    /// Sets the header if it is not set yet and returns None; otherwise returns the
    /// first value it already has and changes nothing.
    pub fn try_set(&mut self, header: &str, value: &str) -> (r: Option<&str>)
        ensures
            first_value(old(self)@, header_name_of(header@)) is Some ==> final(self)@ == old(self)@
                && r is Some && first_value(old(self)@, header_name_of(header@)) == Some(
                r->0@,
            ),
            first_value(old(self)@, header_name_of(header@)) is None ==> r is None && final(self)@
                == old(self)@.push(
                TiiHttpHeader { name: header_name_of(header@), value: value@ },
            ),
    {
        let n = TiiHttpHeaderName::from_name(header);
        self.try_set_named(&n, value)
    }

    /// Sets the header if it is not set yet and returns None; otherwise returns the
    /// first value it already has and changes nothing.
    pub fn try_set_named(&mut self, n: &TiiHttpHeaderName, value: &str) -> (r: Option<&str>)
        ensures
            first_value(old(self)@, n@) is Some ==> final(self)@ == old(self)@ && r is Some
                && first_value(old(self)@, n@) == Some(r->0@),
            first_value(old(self)@, n@) is None ==> r is None && final(self)@ == old(self)@.push(
                TiiHttpHeader { name: n@, value: value@ },
            ),
    {
        match self.position(n) {
            Some(i) => {
                proof {
                    lemma_values_named_first(self@, n@, i as int);
                }
                Some(self.0[i].value.as_str())
            },
            None => {
                proof {
                    lemma_values_named_empty(self@, n@);
                }
                self.add_named(n, value);
                None
            },
        }
    }

    /// Replaces all headers with the given name by a single header at the end.
    /// Returns the removed headers, in order.
    pub fn replace_all(&mut self, name: &str, value: &str) -> (r: Vec<TiiHttpHeader>)
        ensures
            final(self)@ == headers_not_named(old(self)@, header_name_of(name@)).push(
                TiiHttpHeader { name: header_name_of(name@), value: value@ },
            ),
            Seq::new(r@.len(), |i: int| r@[i]@) == headers_named(old(self)@, header_name_of(name@)),
    {
        let n = TiiHttpHeaderName::from_name(name);
        self.replace_all_named(n, value)
    }

    /// Replaces all headers with the given name by a single header at the end.
    /// Returns the removed headers, in order.
    pub fn replace_all_named(&mut self, n: TiiHttpHeaderName, value: &str) -> (r: Vec<TiiHttpHeader>)
        ensures
            final(self)@ == headers_not_named(old(self)@, n@).push(TiiHttpHeader { name: n@, value: value@ }),
            Seq::new(r@.len(), |i: int| r@[i]@) == headers_named(old(self)@, n@),
    {
        let mut hcopy: Vec<TiiHttpHeader> = Vec::new();
        std::mem::swap(&mut self.0, &mut hcopy);
        let mut hrem: Vec<TiiHttpHeader> = Vec::new();
        let ghost old_hs = Seq::new(hcopy@.len(), |i: int| hcopy@[i]@);
        assert(old_hs =~= old(self)@);
        let mut i: usize = 0;
        while i < hcopy.len()
            invariant
                i <= hcopy@.len(),
                old_hs == Seq::new(hcopy@.len(), |k: int| hcopy@[k]@),
                self@ == headers_not_named(old_hs.take(i as int), n@),
                Seq::new(hrem@.len(), |k: int| hrem@[k]@) == headers_named(old_hs.take(i as int), n@),
            decreases hcopy@.len() - i,
        {
            proof {
                lemma_named_step(old_hs, n@, i as int);
            }
            let h = hcopy[i].duplicate();
            if h.name.same_as(&n) {
                let ghost before = hrem@;
                hrem.push(h);
                assert(Seq::new(hrem@.len(), |k: int| hrem@[k]@) =~= Seq::new(before.len(), |k: int| before[k]@).push(h@));
            } else {
                self.push(h);
            }
            i = i + 1;
        }
        assert(old_hs.take(hcopy@.len() as int) =~= old_hs);
        let nh = TiiHttpHeader { name: n, value: string_from(value) };
        self.push(nh);
        hrem
    }

    /// The values of all headers with the given name, in order; empty if there are none.
    pub fn get_all(&self, name: &str) -> (r: Vec<&str>)
        ensures
            Seq::new(r@.len(), |i: int| r@[i]@) == values_named(self@, header_name_of(name@)),
    {
        let n = TiiHttpHeaderName::from_name(name);
        let mut r: Vec<&str> = Vec::new();
        let mut i: usize = 0;
        while i < self.0.len()
            invariant
                i <= self.0@.len(),
                Seq::new(r@.len(), |k: int| r@[k]@) == values_named(self@.take(i as int), n@),
            decreases self.0@.len() - i,
        {
            proof {
                lemma_named_step(self@, n@, i as int);
            }
            if self.0[i].name.same_as(&n) {
                let ghost before = r@;
                r.push(self.0[i].value.as_str());
                assert(Seq::new(r@.len(), |k: int| r@[k]@) =~= Seq::new(before.len(), |k: int| before[k]@).push(self@[i as int].value));
            }
            i = i + 1;
        }
        assert(self@.take(self.0@.len() as int) =~= self@);
        r
    }

    /// Remove all headers with the given name.
    pub fn remove(&mut self, name: &str)
        ensures
            final(self)@ == headers_not_named(old(self)@, header_name_of(name@)),
    {
        let n = TiiHttpHeaderName::from_name(name);
        self.remove_named(&n);
    }

    /// Remove all headers with the given name.
    pub fn remove_named(&mut self, n: &TiiHttpHeaderName)
        ensures
            final(self)@ == headers_not_named(old(self)@, n@),
    {
        let mut hcopy: Vec<TiiHttpHeader> = Vec::new();
        std::mem::swap(&mut self.0, &mut hcopy);
        let ghost old_hs = Seq::new(hcopy@.len(), |i: int| hcopy@[i]@);
        assert(old_hs =~= old(self)@);
        let mut i: usize = 0;
        while i < hcopy.len()
            invariant
                i <= hcopy@.len(),
                old_hs == Seq::new(hcopy@.len(), |k: int| hcopy@[k]@),
                self@ == headers_not_named(old_hs.take(i as int), n@),
            decreases hcopy@.len() - i,
        {
            proof {
                lemma_named_step(old_hs, n@, i as int);
            }
            if !hcopy[i].name.same_as(n) {
                let h = hcopy[i].duplicate();
                self.push(h);
            }
            i = i + 1;
        }
        assert(old_hs.take(hcopy@.len() as int) =~= old_hs);
    }

    /// The headers as a slice, in order.
    pub fn as_slice(&self) -> (r: &[TiiHttpHeader])
        ensures
            Seq::new(r@.len(), |i: int| r@[i]@) == self@,
    {
        self.0.as_slice()
    }

    /// An iterator over the headers, in order.
    pub fn iter(&self) -> (r: std::slice::Iter<'_, TiiHttpHeader>)
        ensures
            Seq::new(
                vstd::std_specs::slice::into_iter_elts(r).len(),
                |i: int| vstd::std_specs::slice::into_iter_elts(r)[i]@,
            ) == self@,
    {
        let r = self.0.iter();
        proof {
            broadcast use vstd::std_specs::slice::axiom_spec_slice_iter;
            assert(vstd::std_specs::slice::into_iter_elts(r) =~= self.0@);
        }
        r
    }
}

proof fn lemma_not_named_has_none(hs: Seq<TiiHttpHeader<Seq<char>>>, n: TiiHttpHeaderName<Seq<char>>)
    ensures
        forall|j: int| 0 <= j < headers_not_named(hs, n).len() ==> headers_not_named(hs, n)[j].name != n,
    decreases hs.len(),
{
    if hs.len() > 0 {
        lemma_not_named_has_none(hs.drop_last(), n);
    }
}


/// After removing every header of a name and adding one with a value, the
/// name has exactly that one value, and the other names keep theirs.
pub proof fn lemma_set_exactly_once(
    hs: Seq<TiiHttpHeader<Seq<char>>>,
    n: TiiHttpHeaderName<Seq<char>>,
    v: Seq<char>,
    other: TiiHttpHeaderName<Seq<char>>,
)
    ensures
        values_named(headers_not_named(hs, n).push(TiiHttpHeader { name: n, value: v }), n) == seq![v],
        first_value(headers_not_named(hs, n).push(TiiHttpHeader { name: n, value: v }), n) == Some(v),
        other != n ==> values_named(headers_not_named(hs, n).push(TiiHttpHeader { name: n, value: v }), other)
            == values_named(hs, other),
{
    lemma_not_named_has_none(hs, n);
    let t = headers_not_named(hs, n);
    let u = t.push(TiiHttpHeader { name: n, value: v });
    assert(u.drop_last() =~= t);
    lemma_values_named_empty(t, n);
    if other != n {
        lemma_not_named_keeps_others(hs, n, other);
    }
}

/// Removing the headers of one name leaves the values of the other names as they were.
pub proof fn lemma_not_named_keeps_others(
    hs: Seq<TiiHttpHeader<Seq<char>>>,
    n: TiiHttpHeaderName<Seq<char>>,
    other: TiiHttpHeaderName<Seq<char>>,
)
    requires
        other != n,
    ensures
        values_named(headers_not_named(hs, n), other) == values_named(hs, other),
    decreases hs.len(),
{
    if hs.len() > 0 {
        lemma_not_named_keeps_others(hs.drop_last(), n, other);
        let t = headers_not_named(hs.drop_last(), n);
        if hs.last().name != n {
            assert(t.push(hs.last()).drop_last() =~= t);
        }
    }
}


/// Reading back the text of a well known header name gives the name again.
#[verifier::spinoff_prover]
#[verifier::rlimit(100)]
pub proof fn lemma_header_text_round_trip(n: TiiHttpHeaderName<Seq<char>>)
    requires
        !(n is Custom),
    ensures
        header_name_of(header_text(n)) == n,
{
    reveal_strlit("accept");
    reveal_strlit("accept-charset");
    reveal_strlit("accept-encoding");
    reveal_strlit("accept-language");
    reveal_strlit("access-control-request-method");
    reveal_strlit("access-control-request-headers");
    reveal_strlit("authorization");
    reveal_strlit("cache-control");
    reveal_strlit("connection");
    reveal_strlit("content-encoding");
    reveal_strlit("content-length");
    reveal_strlit("content-type");
    reveal_strlit("cookie");
    reveal_strlit("date");
    reveal_strlit("expect");
    reveal_strlit("forwarded");
    reveal_strlit("from");
    reveal_strlit("host");
    reveal_strlit("origin");
    reveal_strlit("pragma");
    reveal_strlit("referer");
    reveal_strlit("upgrade");
    reveal_strlit("user-agent");
    reveal_strlit("via");
    reveal_strlit("warning");
    reveal_strlit("access-control-allow-origin");
    reveal_strlit("access-control-allow-headers");
    reveal_strlit("access-control-allow-methods");
    reveal_strlit("age");
    reveal_strlit("allow");
    reveal_strlit("content-disposition");
    reveal_strlit("content-language");
    reveal_strlit("content-location");
    reveal_strlit("etag");
    reveal_strlit("expires");
    reveal_strlit("last-modified");
    reveal_strlit("link");
    reveal_strlit("location");
    reveal_strlit("server");
    reveal_strlit("set-cookie");
    reveal_strlit("transfer-encoding");
    reveal_strlit("proxy-authenticate");
    reveal_strlit("te");
    reveal_strlit("trailer");
    reveal_strlit("Accept");
    reveal_strlit("Accept-Charset");
    reveal_strlit("Accept-Encoding");
    reveal_strlit("Accept-Language");
    reveal_strlit("Access-Control-Request-Method");
    reveal_strlit("Access-Control-Request-Headers");
    reveal_strlit("Authorization");
    reveal_strlit("Cache-Control");
    reveal_strlit("Connection");
    reveal_strlit("Content-Encoding");
    reveal_strlit("Content-Length");
    reveal_strlit("Content-Type");
    reveal_strlit("Cookie");
    reveal_strlit("Date");
    reveal_strlit("Expect");
    reveal_strlit("Forwarded");
    reveal_strlit("From");
    reveal_strlit("Host");
    reveal_strlit("Origin");
    reveal_strlit("Pragma");
    reveal_strlit("Referer");
    reveal_strlit("Upgrade");
    reveal_strlit("User-Agent");
    reveal_strlit("Via");
    reveal_strlit("Warning");
    reveal_strlit("Access-Control-Allow-Origin");
    reveal_strlit("Access-Control-Allow-Headers");
    reveal_strlit("Access-Control-Allow-Methods");
    reveal_strlit("Age");
    reveal_strlit("Allow");
    reveal_strlit("Content-Disposition");
    reveal_strlit("Content-Language");
    reveal_strlit("Content-Location");
    reveal_strlit("ETag");
    reveal_strlit("Expires");
    reveal_strlit("Last-Modified");
    reveal_strlit("Link");
    reveal_strlit("Location");
    reveal_strlit("Server");
    reveal_strlit("Set-Cookie");
    reveal_strlit("Transfer-Encoding");
    reveal_strlit("Proxy-Authenticate");
    reveal_strlit("TE");
    reveal_strlit("Trailer");
    assert("accept"@.len() == 6 && "accept"@[0] == 'a' && "accept"@[1] == 'c' && "accept"@[2] == 'c' && "accept"@[3] == 'e' && "accept"@[4] == 'p' && "accept"@[5] == 't');
    assert("accept-charset"@.len() == 14 && "accept-charset"@[0] == 'a' && "accept-charset"@[1] == 'c' && "accept-charset"@[2] == 'c' && "accept-charset"@[3] == 'e' && "accept-charset"@[4] == 'p' && "accept-charset"@[5] == 't' && "accept-charset"@[6] == '-' && "accept-charset"@[7] == 'c' && "accept-charset"@[8] == 'h' && "accept-charset"@[9] == 'a' && "accept-charset"@[10] == 'r' && "accept-charset"@[11] == 's' && "accept-charset"@[12] == 'e' && "accept-charset"@[13] == 't');
    assert("accept-encoding"@.len() == 15 && "accept-encoding"@[0] == 'a' && "accept-encoding"@[1] == 'c' && "accept-encoding"@[2] == 'c' && "accept-encoding"@[3] == 'e' && "accept-encoding"@[4] == 'p' && "accept-encoding"@[5] == 't' && "accept-encoding"@[6] == '-' && "accept-encoding"@[7] == 'e' && "accept-encoding"@[8] == 'n' && "accept-encoding"@[9] == 'c' && "accept-encoding"@[10] == 'o' && "accept-encoding"@[11] == 'd' && "accept-encoding"@[12] == 'i' && "accept-encoding"@[13] == 'n' && "accept-encoding"@[14] == 'g');
    assert("accept-language"@.len() == 15 && "accept-language"@[0] == 'a' && "accept-language"@[1] == 'c' && "accept-language"@[2] == 'c' && "accept-language"@[3] == 'e' && "accept-language"@[4] == 'p' && "accept-language"@[5] == 't' && "accept-language"@[6] == '-' && "accept-language"@[7] == 'l' && "accept-language"@[8] == 'a' && "accept-language"@[9] == 'n' && "accept-language"@[10] == 'g' && "accept-language"@[11] == 'u' && "accept-language"@[12] == 'a' && "accept-language"@[13] == 'g' && "accept-language"@[14] == 'e');
    assert("access-control-request-method"@.len() == 29 && "access-control-request-method"@[0] == 'a' && "access-control-request-method"@[1] == 'c' && "access-control-request-method"@[2] == 'c' && "access-control-request-method"@[3] == 'e' && "access-control-request-method"@[4] == 's' && "access-control-request-method"@[5] == 's' && "access-control-request-method"@[6] == '-' && "access-control-request-method"@[7] == 'c' && "access-control-request-method"@[8] == 'o' && "access-control-request-method"@[9] == 'n' && "access-control-request-method"@[10] == 't' && "access-control-request-method"@[11] == 'r' && "access-control-request-method"@[12] == 'o' && "access-control-request-method"@[13] == 'l' && "access-control-request-method"@[14] == '-' && "access-control-request-method"@[15] == 'r' && "access-control-request-method"@[16] == 'e' && "access-control-request-method"@[17] == 'q' && "access-control-request-method"@[18] == 'u' && "access-control-request-method"@[19] == 'e' && "access-control-request-method"@[20] == 's' && "access-control-request-method"@[21] == 't' && "access-control-request-method"@[22] == '-' && "access-control-request-method"@[23] == 'm' && "access-control-request-method"@[24] == 'e' && "access-control-request-method"@[25] == 't' && "access-control-request-method"@[26] == 'h' && "access-control-request-method"@[27] == 'o' && "access-control-request-method"@[28] == 'd');
    assert("access-control-request-headers"@.len() == 30 && "access-control-request-headers"@[0] == 'a' && "access-control-request-headers"@[1] == 'c' && "access-control-request-headers"@[2] == 'c' && "access-control-request-headers"@[3] == 'e' && "access-control-request-headers"@[4] == 's' && "access-control-request-headers"@[5] == 's' && "access-control-request-headers"@[6] == '-' && "access-control-request-headers"@[7] == 'c' && "access-control-request-headers"@[8] == 'o' && "access-control-request-headers"@[9] == 'n' && "access-control-request-headers"@[10] == 't' && "access-control-request-headers"@[11] == 'r' && "access-control-request-headers"@[12] == 'o' && "access-control-request-headers"@[13] == 'l' && "access-control-request-headers"@[14] == '-' && "access-control-request-headers"@[15] == 'r' && "access-control-request-headers"@[16] == 'e' && "access-control-request-headers"@[17] == 'q' && "access-control-request-headers"@[18] == 'u' && "access-control-request-headers"@[19] == 'e' && "access-control-request-headers"@[20] == 's' && "access-control-request-headers"@[21] == 't' && "access-control-request-headers"@[22] == '-' && "access-control-request-headers"@[23] == 'h' && "access-control-request-headers"@[24] == 'e' && "access-control-request-headers"@[25] == 'a' && "access-control-request-headers"@[26] == 'd' && "access-control-request-headers"@[27] == 'e' && "access-control-request-headers"@[28] == 'r' && "access-control-request-headers"@[29] == 's');
    assert("authorization"@.len() == 13 && "authorization"@[0] == 'a' && "authorization"@[1] == 'u' && "authorization"@[2] == 't' && "authorization"@[3] == 'h' && "authorization"@[4] == 'o' && "authorization"@[5] == 'r' && "authorization"@[6] == 'i' && "authorization"@[7] == 'z' && "authorization"@[8] == 'a' && "authorization"@[9] == 't' && "authorization"@[10] == 'i' && "authorization"@[11] == 'o' && "authorization"@[12] == 'n');
    assert("cache-control"@.len() == 13 && "cache-control"@[0] == 'c' && "cache-control"@[1] == 'a' && "cache-control"@[2] == 'c' && "cache-control"@[3] == 'h' && "cache-control"@[4] == 'e' && "cache-control"@[5] == '-' && "cache-control"@[6] == 'c' && "cache-control"@[7] == 'o' && "cache-control"@[8] == 'n' && "cache-control"@[9] == 't' && "cache-control"@[10] == 'r' && "cache-control"@[11] == 'o' && "cache-control"@[12] == 'l');
    assert("connection"@.len() == 10 && "connection"@[0] == 'c' && "connection"@[1] == 'o' && "connection"@[2] == 'n' && "connection"@[3] == 'n' && "connection"@[4] == 'e' && "connection"@[5] == 'c' && "connection"@[6] == 't' && "connection"@[7] == 'i' && "connection"@[8] == 'o' && "connection"@[9] == 'n');
    assert("content-encoding"@.len() == 16 && "content-encoding"@[0] == 'c' && "content-encoding"@[1] == 'o' && "content-encoding"@[2] == 'n' && "content-encoding"@[3] == 't' && "content-encoding"@[4] == 'e' && "content-encoding"@[5] == 'n' && "content-encoding"@[6] == 't' && "content-encoding"@[7] == '-' && "content-encoding"@[8] == 'e' && "content-encoding"@[9] == 'n' && "content-encoding"@[10] == 'c' && "content-encoding"@[11] == 'o' && "content-encoding"@[12] == 'd' && "content-encoding"@[13] == 'i' && "content-encoding"@[14] == 'n' && "content-encoding"@[15] == 'g');
    assert("content-length"@.len() == 14 && "content-length"@[0] == 'c' && "content-length"@[1] == 'o' && "content-length"@[2] == 'n' && "content-length"@[3] == 't' && "content-length"@[4] == 'e' && "content-length"@[5] == 'n' && "content-length"@[6] == 't' && "content-length"@[7] == '-' && "content-length"@[8] == 'l' && "content-length"@[9] == 'e' && "content-length"@[10] == 'n' && "content-length"@[11] == 'g' && "content-length"@[12] == 't' && "content-length"@[13] == 'h');
    assert("content-type"@.len() == 12 && "content-type"@[0] == 'c' && "content-type"@[1] == 'o' && "content-type"@[2] == 'n' && "content-type"@[3] == 't' && "content-type"@[4] == 'e' && "content-type"@[5] == 'n' && "content-type"@[6] == 't' && "content-type"@[7] == '-' && "content-type"@[8] == 't' && "content-type"@[9] == 'y' && "content-type"@[10] == 'p' && "content-type"@[11] == 'e');
    assert("cookie"@.len() == 6 && "cookie"@[0] == 'c' && "cookie"@[1] == 'o' && "cookie"@[2] == 'o' && "cookie"@[3] == 'k' && "cookie"@[4] == 'i' && "cookie"@[5] == 'e');
    assert("date"@.len() == 4 && "date"@[0] == 'd' && "date"@[1] == 'a' && "date"@[2] == 't' && "date"@[3] == 'e');
    assert("expect"@.len() == 6 && "expect"@[0] == 'e' && "expect"@[1] == 'x' && "expect"@[2] == 'p' && "expect"@[3] == 'e' && "expect"@[4] == 'c' && "expect"@[5] == 't');
    assert("forwarded"@.len() == 9 && "forwarded"@[0] == 'f' && "forwarded"@[1] == 'o' && "forwarded"@[2] == 'r' && "forwarded"@[3] == 'w' && "forwarded"@[4] == 'a' && "forwarded"@[5] == 'r' && "forwarded"@[6] == 'd' && "forwarded"@[7] == 'e' && "forwarded"@[8] == 'd');
    assert("from"@.len() == 4 && "from"@[0] == 'f' && "from"@[1] == 'r' && "from"@[2] == 'o' && "from"@[3] == 'm');
    assert("host"@.len() == 4 && "host"@[0] == 'h' && "host"@[1] == 'o' && "host"@[2] == 's' && "host"@[3] == 't');
    assert("origin"@.len() == 6 && "origin"@[0] == 'o' && "origin"@[1] == 'r' && "origin"@[2] == 'i' && "origin"@[3] == 'g' && "origin"@[4] == 'i' && "origin"@[5] == 'n');
    assert("pragma"@.len() == 6 && "pragma"@[0] == 'p' && "pragma"@[1] == 'r' && "pragma"@[2] == 'a' && "pragma"@[3] == 'g' && "pragma"@[4] == 'm' && "pragma"@[5] == 'a');
    assert("referer"@.len() == 7 && "referer"@[0] == 'r' && "referer"@[1] == 'e' && "referer"@[2] == 'f' && "referer"@[3] == 'e' && "referer"@[4] == 'r' && "referer"@[5] == 'e' && "referer"@[6] == 'r');
    assert("upgrade"@.len() == 7 && "upgrade"@[0] == 'u' && "upgrade"@[1] == 'p' && "upgrade"@[2] == 'g' && "upgrade"@[3] == 'r' && "upgrade"@[4] == 'a' && "upgrade"@[5] == 'd' && "upgrade"@[6] == 'e');
    assert("user-agent"@.len() == 10 && "user-agent"@[0] == 'u' && "user-agent"@[1] == 's' && "user-agent"@[2] == 'e' && "user-agent"@[3] == 'r' && "user-agent"@[4] == '-' && "user-agent"@[5] == 'a' && "user-agent"@[6] == 'g' && "user-agent"@[7] == 'e' && "user-agent"@[8] == 'n' && "user-agent"@[9] == 't');
    assert("via"@.len() == 3 && "via"@[0] == 'v' && "via"@[1] == 'i' && "via"@[2] == 'a');
    assert("warning"@.len() == 7 && "warning"@[0] == 'w' && "warning"@[1] == 'a' && "warning"@[2] == 'r' && "warning"@[3] == 'n' && "warning"@[4] == 'i' && "warning"@[5] == 'n' && "warning"@[6] == 'g');
    assert("access-control-allow-origin"@.len() == 27 && "access-control-allow-origin"@[0] == 'a' && "access-control-allow-origin"@[1] == 'c' && "access-control-allow-origin"@[2] == 'c' && "access-control-allow-origin"@[3] == 'e' && "access-control-allow-origin"@[4] == 's' && "access-control-allow-origin"@[5] == 's' && "access-control-allow-origin"@[6] == '-' && "access-control-allow-origin"@[7] == 'c' && "access-control-allow-origin"@[8] == 'o' && "access-control-allow-origin"@[9] == 'n' && "access-control-allow-origin"@[10] == 't' && "access-control-allow-origin"@[11] == 'r' && "access-control-allow-origin"@[12] == 'o' && "access-control-allow-origin"@[13] == 'l' && "access-control-allow-origin"@[14] == '-' && "access-control-allow-origin"@[15] == 'a' && "access-control-allow-origin"@[16] == 'l' && "access-control-allow-origin"@[17] == 'l' && "access-control-allow-origin"@[18] == 'o' && "access-control-allow-origin"@[19] == 'w' && "access-control-allow-origin"@[20] == '-' && "access-control-allow-origin"@[21] == 'o' && "access-control-allow-origin"@[22] == 'r' && "access-control-allow-origin"@[23] == 'i' && "access-control-allow-origin"@[24] == 'g' && "access-control-allow-origin"@[25] == 'i' && "access-control-allow-origin"@[26] == 'n');
    assert("access-control-allow-headers"@.len() == 28 && "access-control-allow-headers"@[0] == 'a' && "access-control-allow-headers"@[1] == 'c' && "access-control-allow-headers"@[2] == 'c' && "access-control-allow-headers"@[3] == 'e' && "access-control-allow-headers"@[4] == 's' && "access-control-allow-headers"@[5] == 's' && "access-control-allow-headers"@[6] == '-' && "access-control-allow-headers"@[7] == 'c' && "access-control-allow-headers"@[8] == 'o' && "access-control-allow-headers"@[9] == 'n' && "access-control-allow-headers"@[10] == 't' && "access-control-allow-headers"@[11] == 'r' && "access-control-allow-headers"@[12] == 'o' && "access-control-allow-headers"@[13] == 'l' && "access-control-allow-headers"@[14] == '-' && "access-control-allow-headers"@[15] == 'a' && "access-control-allow-headers"@[16] == 'l' && "access-control-allow-headers"@[17] == 'l' && "access-control-allow-headers"@[18] == 'o' && "access-control-allow-headers"@[19] == 'w' && "access-control-allow-headers"@[20] == '-' && "access-control-allow-headers"@[21] == 'h' && "access-control-allow-headers"@[22] == 'e' && "access-control-allow-headers"@[23] == 'a' && "access-control-allow-headers"@[24] == 'd' && "access-control-allow-headers"@[25] == 'e' && "access-control-allow-headers"@[26] == 'r' && "access-control-allow-headers"@[27] == 's');
    assert("access-control-allow-methods"@.len() == 28 && "access-control-allow-methods"@[0] == 'a' && "access-control-allow-methods"@[1] == 'c' && "access-control-allow-methods"@[2] == 'c' && "access-control-allow-methods"@[3] == 'e' && "access-control-allow-methods"@[4] == 's' && "access-control-allow-methods"@[5] == 's' && "access-control-allow-methods"@[6] == '-' && "access-control-allow-methods"@[7] == 'c' && "access-control-allow-methods"@[8] == 'o' && "access-control-allow-methods"@[9] == 'n' && "access-control-allow-methods"@[10] == 't' && "access-control-allow-methods"@[11] == 'r' && "access-control-allow-methods"@[12] == 'o' && "access-control-allow-methods"@[13] == 'l' && "access-control-allow-methods"@[14] == '-' && "access-control-allow-methods"@[15] == 'a' && "access-control-allow-methods"@[16] == 'l' && "access-control-allow-methods"@[17] == 'l' && "access-control-allow-methods"@[18] == 'o' && "access-control-allow-methods"@[19] == 'w' && "access-control-allow-methods"@[20] == '-' && "access-control-allow-methods"@[21] == 'm' && "access-control-allow-methods"@[22] == 'e' && "access-control-allow-methods"@[23] == 't' && "access-control-allow-methods"@[24] == 'h' && "access-control-allow-methods"@[25] == 'o' && "access-control-allow-methods"@[26] == 'd' && "access-control-allow-methods"@[27] == 's');
    assert("age"@.len() == 3 && "age"@[0] == 'a' && "age"@[1] == 'g' && "age"@[2] == 'e');
    assert("allow"@.len() == 5 && "allow"@[0] == 'a' && "allow"@[1] == 'l' && "allow"@[2] == 'l' && "allow"@[3] == 'o' && "allow"@[4] == 'w');
    assert("content-disposition"@.len() == 19 && "content-disposition"@[0] == 'c' && "content-disposition"@[1] == 'o' && "content-disposition"@[2] == 'n' && "content-disposition"@[3] == 't' && "content-disposition"@[4] == 'e' && "content-disposition"@[5] == 'n' && "content-disposition"@[6] == 't' && "content-disposition"@[7] == '-' && "content-disposition"@[8] == 'd' && "content-disposition"@[9] == 'i' && "content-disposition"@[10] == 's' && "content-disposition"@[11] == 'p' && "content-disposition"@[12] == 'o' && "content-disposition"@[13] == 's' && "content-disposition"@[14] == 'i' && "content-disposition"@[15] == 't' && "content-disposition"@[16] == 'i' && "content-disposition"@[17] == 'o' && "content-disposition"@[18] == 'n');
    assert("content-language"@.len() == 16 && "content-language"@[0] == 'c' && "content-language"@[1] == 'o' && "content-language"@[2] == 'n' && "content-language"@[3] == 't' && "content-language"@[4] == 'e' && "content-language"@[5] == 'n' && "content-language"@[6] == 't' && "content-language"@[7] == '-' && "content-language"@[8] == 'l' && "content-language"@[9] == 'a' && "content-language"@[10] == 'n' && "content-language"@[11] == 'g' && "content-language"@[12] == 'u' && "content-language"@[13] == 'a' && "content-language"@[14] == 'g' && "content-language"@[15] == 'e');
    assert("content-location"@.len() == 16 && "content-location"@[0] == 'c' && "content-location"@[1] == 'o' && "content-location"@[2] == 'n' && "content-location"@[3] == 't' && "content-location"@[4] == 'e' && "content-location"@[5] == 'n' && "content-location"@[6] == 't' && "content-location"@[7] == '-' && "content-location"@[8] == 'l' && "content-location"@[9] == 'o' && "content-location"@[10] == 'c' && "content-location"@[11] == 'a' && "content-location"@[12] == 't' && "content-location"@[13] == 'i' && "content-location"@[14] == 'o' && "content-location"@[15] == 'n');
    assert("etag"@.len() == 4 && "etag"@[0] == 'e' && "etag"@[1] == 't' && "etag"@[2] == 'a' && "etag"@[3] == 'g');
    assert("expires"@.len() == 7 && "expires"@[0] == 'e' && "expires"@[1] == 'x' && "expires"@[2] == 'p' && "expires"@[3] == 'i' && "expires"@[4] == 'r' && "expires"@[5] == 'e' && "expires"@[6] == 's');
    assert("last-modified"@.len() == 13 && "last-modified"@[0] == 'l' && "last-modified"@[1] == 'a' && "last-modified"@[2] == 's' && "last-modified"@[3] == 't' && "last-modified"@[4] == '-' && "last-modified"@[5] == 'm' && "last-modified"@[6] == 'o' && "last-modified"@[7] == 'd' && "last-modified"@[8] == 'i' && "last-modified"@[9] == 'f' && "last-modified"@[10] == 'i' && "last-modified"@[11] == 'e' && "last-modified"@[12] == 'd');
    assert("link"@.len() == 4 && "link"@[0] == 'l' && "link"@[1] == 'i' && "link"@[2] == 'n' && "link"@[3] == 'k');
    assert("location"@.len() == 8 && "location"@[0] == 'l' && "location"@[1] == 'o' && "location"@[2] == 'c' && "location"@[3] == 'a' && "location"@[4] == 't' && "location"@[5] == 'i' && "location"@[6] == 'o' && "location"@[7] == 'n');
    assert("server"@.len() == 6 && "server"@[0] == 's' && "server"@[1] == 'e' && "server"@[2] == 'r' && "server"@[3] == 'v' && "server"@[4] == 'e' && "server"@[5] == 'r');
    assert("set-cookie"@.len() == 10 && "set-cookie"@[0] == 's' && "set-cookie"@[1] == 'e' && "set-cookie"@[2] == 't' && "set-cookie"@[3] == '-' && "set-cookie"@[4] == 'c' && "set-cookie"@[5] == 'o' && "set-cookie"@[6] == 'o' && "set-cookie"@[7] == 'k' && "set-cookie"@[8] == 'i' && "set-cookie"@[9] == 'e');
    assert("transfer-encoding"@.len() == 17 && "transfer-encoding"@[0] == 't' && "transfer-encoding"@[1] == 'r' && "transfer-encoding"@[2] == 'a' && "transfer-encoding"@[3] == 'n' && "transfer-encoding"@[4] == 's' && "transfer-encoding"@[5] == 'f' && "transfer-encoding"@[6] == 'e' && "transfer-encoding"@[7] == 'r' && "transfer-encoding"@[8] == '-' && "transfer-encoding"@[9] == 'e' && "transfer-encoding"@[10] == 'n' && "transfer-encoding"@[11] == 'c' && "transfer-encoding"@[12] == 'o' && "transfer-encoding"@[13] == 'd' && "transfer-encoding"@[14] == 'i' && "transfer-encoding"@[15] == 'n' && "transfer-encoding"@[16] == 'g');
    assert("proxy-authenticate"@.len() == 18 && "proxy-authenticate"@[0] == 'p' && "proxy-authenticate"@[1] == 'r' && "proxy-authenticate"@[2] == 'o' && "proxy-authenticate"@[3] == 'x' && "proxy-authenticate"@[4] == 'y' && "proxy-authenticate"@[5] == '-' && "proxy-authenticate"@[6] == 'a' && "proxy-authenticate"@[7] == 'u' && "proxy-authenticate"@[8] == 't' && "proxy-authenticate"@[9] == 'h' && "proxy-authenticate"@[10] == 'e' && "proxy-authenticate"@[11] == 'n' && "proxy-authenticate"@[12] == 't' && "proxy-authenticate"@[13] == 'i' && "proxy-authenticate"@[14] == 'c' && "proxy-authenticate"@[15] == 'a' && "proxy-authenticate"@[16] == 't' && "proxy-authenticate"@[17] == 'e');
    assert("te"@.len() == 2 && "te"@[0] == 't' && "te"@[1] == 'e');
    assert("trailer"@.len() == 7 && "trailer"@[0] == 't' && "trailer"@[1] == 'r' && "trailer"@[2] == 'a' && "trailer"@[3] == 'i' && "trailer"@[4] == 'l' && "trailer"@[5] == 'e' && "trailer"@[6] == 'r');
    assert("Accept"@.len() == 6 && "Accept"@[0] == 'A' && "Accept"@[1] == 'c' && "Accept"@[2] == 'c' && "Accept"@[3] == 'e' && "Accept"@[4] == 'p' && "Accept"@[5] == 't');
    assert("Accept-Charset"@.len() == 14 && "Accept-Charset"@[0] == 'A' && "Accept-Charset"@[1] == 'c' && "Accept-Charset"@[2] == 'c' && "Accept-Charset"@[3] == 'e' && "Accept-Charset"@[4] == 'p' && "Accept-Charset"@[5] == 't' && "Accept-Charset"@[6] == '-' && "Accept-Charset"@[7] == 'C' && "Accept-Charset"@[8] == 'h' && "Accept-Charset"@[9] == 'a' && "Accept-Charset"@[10] == 'r' && "Accept-Charset"@[11] == 's' && "Accept-Charset"@[12] == 'e' && "Accept-Charset"@[13] == 't');
    assert("Accept-Encoding"@.len() == 15 && "Accept-Encoding"@[0] == 'A' && "Accept-Encoding"@[1] == 'c' && "Accept-Encoding"@[2] == 'c' && "Accept-Encoding"@[3] == 'e' && "Accept-Encoding"@[4] == 'p' && "Accept-Encoding"@[5] == 't' && "Accept-Encoding"@[6] == '-' && "Accept-Encoding"@[7] == 'E' && "Accept-Encoding"@[8] == 'n' && "Accept-Encoding"@[9] == 'c' && "Accept-Encoding"@[10] == 'o' && "Accept-Encoding"@[11] == 'd' && "Accept-Encoding"@[12] == 'i' && "Accept-Encoding"@[13] == 'n' && "Accept-Encoding"@[14] == 'g');
    assert("Accept-Language"@.len() == 15 && "Accept-Language"@[0] == 'A' && "Accept-Language"@[1] == 'c' && "Accept-Language"@[2] == 'c' && "Accept-Language"@[3] == 'e' && "Accept-Language"@[4] == 'p' && "Accept-Language"@[5] == 't' && "Accept-Language"@[6] == '-' && "Accept-Language"@[7] == 'L' && "Accept-Language"@[8] == 'a' && "Accept-Language"@[9] == 'n' && "Accept-Language"@[10] == 'g' && "Accept-Language"@[11] == 'u' && "Accept-Language"@[12] == 'a' && "Accept-Language"@[13] == 'g' && "Accept-Language"@[14] == 'e');
    assert("Access-Control-Request-Method"@.len() == 29 && "Access-Control-Request-Method"@[0] == 'A' && "Access-Control-Request-Method"@[1] == 'c' && "Access-Control-Request-Method"@[2] == 'c' && "Access-Control-Request-Method"@[3] == 'e' && "Access-Control-Request-Method"@[4] == 's' && "Access-Control-Request-Method"@[5] == 's' && "Access-Control-Request-Method"@[6] == '-' && "Access-Control-Request-Method"@[7] == 'C' && "Access-Control-Request-Method"@[8] == 'o' && "Access-Control-Request-Method"@[9] == 'n' && "Access-Control-Request-Method"@[10] == 't' && "Access-Control-Request-Method"@[11] == 'r' && "Access-Control-Request-Method"@[12] == 'o' && "Access-Control-Request-Method"@[13] == 'l' && "Access-Control-Request-Method"@[14] == '-' && "Access-Control-Request-Method"@[15] == 'R' && "Access-Control-Request-Method"@[16] == 'e' && "Access-Control-Request-Method"@[17] == 'q' && "Access-Control-Request-Method"@[18] == 'u' && "Access-Control-Request-Method"@[19] == 'e' && "Access-Control-Request-Method"@[20] == 's' && "Access-Control-Request-Method"@[21] == 't' && "Access-Control-Request-Method"@[22] == '-' && "Access-Control-Request-Method"@[23] == 'M' && "Access-Control-Request-Method"@[24] == 'e' && "Access-Control-Request-Method"@[25] == 't' && "Access-Control-Request-Method"@[26] == 'h' && "Access-Control-Request-Method"@[27] == 'o' && "Access-Control-Request-Method"@[28] == 'd');
    assert("Access-Control-Request-Headers"@.len() == 30 && "Access-Control-Request-Headers"@[0] == 'A' && "Access-Control-Request-Headers"@[1] == 'c' && "Access-Control-Request-Headers"@[2] == 'c' && "Access-Control-Request-Headers"@[3] == 'e' && "Access-Control-Request-Headers"@[4] == 's' && "Access-Control-Request-Headers"@[5] == 's' && "Access-Control-Request-Headers"@[6] == '-' && "Access-Control-Request-Headers"@[7] == 'C' && "Access-Control-Request-Headers"@[8] == 'o' && "Access-Control-Request-Headers"@[9] == 'n' && "Access-Control-Request-Headers"@[10] == 't' && "Access-Control-Request-Headers"@[11] == 'r' && "Access-Control-Request-Headers"@[12] == 'o' && "Access-Control-Request-Headers"@[13] == 'l' && "Access-Control-Request-Headers"@[14] == '-' && "Access-Control-Request-Headers"@[15] == 'R' && "Access-Control-Request-Headers"@[16] == 'e' && "Access-Control-Request-Headers"@[17] == 'q' && "Access-Control-Request-Headers"@[18] == 'u' && "Access-Control-Request-Headers"@[19] == 'e' && "Access-Control-Request-Headers"@[20] == 's' && "Access-Control-Request-Headers"@[21] == 't' && "Access-Control-Request-Headers"@[22] == '-' && "Access-Control-Request-Headers"@[23] == 'H' && "Access-Control-Request-Headers"@[24] == 'e' && "Access-Control-Request-Headers"@[25] == 'a' && "Access-Control-Request-Headers"@[26] == 'd' && "Access-Control-Request-Headers"@[27] == 'e' && "Access-Control-Request-Headers"@[28] == 'r' && "Access-Control-Request-Headers"@[29] == 's');
    assert("Authorization"@.len() == 13 && "Authorization"@[0] == 'A' && "Authorization"@[1] == 'u' && "Authorization"@[2] == 't' && "Authorization"@[3] == 'h' && "Authorization"@[4] == 'o' && "Authorization"@[5] == 'r' && "Authorization"@[6] == 'i' && "Authorization"@[7] == 'z' && "Authorization"@[8] == 'a' && "Authorization"@[9] == 't' && "Authorization"@[10] == 'i' && "Authorization"@[11] == 'o' && "Authorization"@[12] == 'n');
    assert("Cache-Control"@.len() == 13 && "Cache-Control"@[0] == 'C' && "Cache-Control"@[1] == 'a' && "Cache-Control"@[2] == 'c' && "Cache-Control"@[3] == 'h' && "Cache-Control"@[4] == 'e' && "Cache-Control"@[5] == '-' && "Cache-Control"@[6] == 'C' && "Cache-Control"@[7] == 'o' && "Cache-Control"@[8] == 'n' && "Cache-Control"@[9] == 't' && "Cache-Control"@[10] == 'r' && "Cache-Control"@[11] == 'o' && "Cache-Control"@[12] == 'l');
    assert("Connection"@.len() == 10 && "Connection"@[0] == 'C' && "Connection"@[1] == 'o' && "Connection"@[2] == 'n' && "Connection"@[3] == 'n' && "Connection"@[4] == 'e' && "Connection"@[5] == 'c' && "Connection"@[6] == 't' && "Connection"@[7] == 'i' && "Connection"@[8] == 'o' && "Connection"@[9] == 'n');
    assert("Content-Encoding"@.len() == 16 && "Content-Encoding"@[0] == 'C' && "Content-Encoding"@[1] == 'o' && "Content-Encoding"@[2] == 'n' && "Content-Encoding"@[3] == 't' && "Content-Encoding"@[4] == 'e' && "Content-Encoding"@[5] == 'n' && "Content-Encoding"@[6] == 't' && "Content-Encoding"@[7] == '-' && "Content-Encoding"@[8] == 'E' && "Content-Encoding"@[9] == 'n' && "Content-Encoding"@[10] == 'c' && "Content-Encoding"@[11] == 'o' && "Content-Encoding"@[12] == 'd' && "Content-Encoding"@[13] == 'i' && "Content-Encoding"@[14] == 'n' && "Content-Encoding"@[15] == 'g');
    assert("Content-Length"@.len() == 14 && "Content-Length"@[0] == 'C' && "Content-Length"@[1] == 'o' && "Content-Length"@[2] == 'n' && "Content-Length"@[3] == 't' && "Content-Length"@[4] == 'e' && "Content-Length"@[5] == 'n' && "Content-Length"@[6] == 't' && "Content-Length"@[7] == '-' && "Content-Length"@[8] == 'L' && "Content-Length"@[9] == 'e' && "Content-Length"@[10] == 'n' && "Content-Length"@[11] == 'g' && "Content-Length"@[12] == 't' && "Content-Length"@[13] == 'h');
    assert("Content-Type"@.len() == 12 && "Content-Type"@[0] == 'C' && "Content-Type"@[1] == 'o' && "Content-Type"@[2] == 'n' && "Content-Type"@[3] == 't' && "Content-Type"@[4] == 'e' && "Content-Type"@[5] == 'n' && "Content-Type"@[6] == 't' && "Content-Type"@[7] == '-' && "Content-Type"@[8] == 'T' && "Content-Type"@[9] == 'y' && "Content-Type"@[10] == 'p' && "Content-Type"@[11] == 'e');
    assert("Cookie"@.len() == 6 && "Cookie"@[0] == 'C' && "Cookie"@[1] == 'o' && "Cookie"@[2] == 'o' && "Cookie"@[3] == 'k' && "Cookie"@[4] == 'i' && "Cookie"@[5] == 'e');
    assert("Date"@.len() == 4 && "Date"@[0] == 'D' && "Date"@[1] == 'a' && "Date"@[2] == 't' && "Date"@[3] == 'e');
    assert("Expect"@.len() == 6 && "Expect"@[0] == 'E' && "Expect"@[1] == 'x' && "Expect"@[2] == 'p' && "Expect"@[3] == 'e' && "Expect"@[4] == 'c' && "Expect"@[5] == 't');
    assert("Forwarded"@.len() == 9 && "Forwarded"@[0] == 'F' && "Forwarded"@[1] == 'o' && "Forwarded"@[2] == 'r' && "Forwarded"@[3] == 'w' && "Forwarded"@[4] == 'a' && "Forwarded"@[5] == 'r' && "Forwarded"@[6] == 'd' && "Forwarded"@[7] == 'e' && "Forwarded"@[8] == 'd');
    assert("From"@.len() == 4 && "From"@[0] == 'F' && "From"@[1] == 'r' && "From"@[2] == 'o' && "From"@[3] == 'm');
    assert("Host"@.len() == 4 && "Host"@[0] == 'H' && "Host"@[1] == 'o' && "Host"@[2] == 's' && "Host"@[3] == 't');
    assert("Origin"@.len() == 6 && "Origin"@[0] == 'O' && "Origin"@[1] == 'r' && "Origin"@[2] == 'i' && "Origin"@[3] == 'g' && "Origin"@[4] == 'i' && "Origin"@[5] == 'n');
    assert("Pragma"@.len() == 6 && "Pragma"@[0] == 'P' && "Pragma"@[1] == 'r' && "Pragma"@[2] == 'a' && "Pragma"@[3] == 'g' && "Pragma"@[4] == 'm' && "Pragma"@[5] == 'a');
    assert("Referer"@.len() == 7 && "Referer"@[0] == 'R' && "Referer"@[1] == 'e' && "Referer"@[2] == 'f' && "Referer"@[3] == 'e' && "Referer"@[4] == 'r' && "Referer"@[5] == 'e' && "Referer"@[6] == 'r');
    assert("Upgrade"@.len() == 7 && "Upgrade"@[0] == 'U' && "Upgrade"@[1] == 'p' && "Upgrade"@[2] == 'g' && "Upgrade"@[3] == 'r' && "Upgrade"@[4] == 'a' && "Upgrade"@[5] == 'd' && "Upgrade"@[6] == 'e');
    assert("User-Agent"@.len() == 10 && "User-Agent"@[0] == 'U' && "User-Agent"@[1] == 's' && "User-Agent"@[2] == 'e' && "User-Agent"@[3] == 'r' && "User-Agent"@[4] == '-' && "User-Agent"@[5] == 'A' && "User-Agent"@[6] == 'g' && "User-Agent"@[7] == 'e' && "User-Agent"@[8] == 'n' && "User-Agent"@[9] == 't');
    assert("Via"@.len() == 3 && "Via"@[0] == 'V' && "Via"@[1] == 'i' && "Via"@[2] == 'a');
    assert("Warning"@.len() == 7 && "Warning"@[0] == 'W' && "Warning"@[1] == 'a' && "Warning"@[2] == 'r' && "Warning"@[3] == 'n' && "Warning"@[4] == 'i' && "Warning"@[5] == 'n' && "Warning"@[6] == 'g');
    assert("Access-Control-Allow-Origin"@.len() == 27 && "Access-Control-Allow-Origin"@[0] == 'A' && "Access-Control-Allow-Origin"@[1] == 'c' && "Access-Control-Allow-Origin"@[2] == 'c' && "Access-Control-Allow-Origin"@[3] == 'e' && "Access-Control-Allow-Origin"@[4] == 's' && "Access-Control-Allow-Origin"@[5] == 's' && "Access-Control-Allow-Origin"@[6] == '-' && "Access-Control-Allow-Origin"@[7] == 'C' && "Access-Control-Allow-Origin"@[8] == 'o' && "Access-Control-Allow-Origin"@[9] == 'n' && "Access-Control-Allow-Origin"@[10] == 't' && "Access-Control-Allow-Origin"@[11] == 'r' && "Access-Control-Allow-Origin"@[12] == 'o' && "Access-Control-Allow-Origin"@[13] == 'l' && "Access-Control-Allow-Origin"@[14] == '-' && "Access-Control-Allow-Origin"@[15] == 'A' && "Access-Control-Allow-Origin"@[16] == 'l' && "Access-Control-Allow-Origin"@[17] == 'l' && "Access-Control-Allow-Origin"@[18] == 'o' && "Access-Control-Allow-Origin"@[19] == 'w' && "Access-Control-Allow-Origin"@[20] == '-' && "Access-Control-Allow-Origin"@[21] == 'O' && "Access-Control-Allow-Origin"@[22] == 'r' && "Access-Control-Allow-Origin"@[23] == 'i' && "Access-Control-Allow-Origin"@[24] == 'g' && "Access-Control-Allow-Origin"@[25] == 'i' && "Access-Control-Allow-Origin"@[26] == 'n');
    assert("Access-Control-Allow-Headers"@.len() == 28 && "Access-Control-Allow-Headers"@[0] == 'A' && "Access-Control-Allow-Headers"@[1] == 'c' && "Access-Control-Allow-Headers"@[2] == 'c' && "Access-Control-Allow-Headers"@[3] == 'e' && "Access-Control-Allow-Headers"@[4] == 's' && "Access-Control-Allow-Headers"@[5] == 's' && "Access-Control-Allow-Headers"@[6] == '-' && "Access-Control-Allow-Headers"@[7] == 'C' && "Access-Control-Allow-Headers"@[8] == 'o' && "Access-Control-Allow-Headers"@[9] == 'n' && "Access-Control-Allow-Headers"@[10] == 't' && "Access-Control-Allow-Headers"@[11] == 'r' && "Access-Control-Allow-Headers"@[12] == 'o' && "Access-Control-Allow-Headers"@[13] == 'l' && "Access-Control-Allow-Headers"@[14] == '-' && "Access-Control-Allow-Headers"@[15] == 'A' && "Access-Control-Allow-Headers"@[16] == 'l' && "Access-Control-Allow-Headers"@[17] == 'l' && "Access-Control-Allow-Headers"@[18] == 'o' && "Access-Control-Allow-Headers"@[19] == 'w' && "Access-Control-Allow-Headers"@[20] == '-' && "Access-Control-Allow-Headers"@[21] == 'H' && "Access-Control-Allow-Headers"@[22] == 'e' && "Access-Control-Allow-Headers"@[23] == 'a' && "Access-Control-Allow-Headers"@[24] == 'd' && "Access-Control-Allow-Headers"@[25] == 'e' && "Access-Control-Allow-Headers"@[26] == 'r' && "Access-Control-Allow-Headers"@[27] == 's');
    assert("Access-Control-Allow-Methods"@.len() == 28 && "Access-Control-Allow-Methods"@[0] == 'A' && "Access-Control-Allow-Methods"@[1] == 'c' && "Access-Control-Allow-Methods"@[2] == 'c' && "Access-Control-Allow-Methods"@[3] == 'e' && "Access-Control-Allow-Methods"@[4] == 's' && "Access-Control-Allow-Methods"@[5] == 's' && "Access-Control-Allow-Methods"@[6] == '-' && "Access-Control-Allow-Methods"@[7] == 'C' && "Access-Control-Allow-Methods"@[8] == 'o' && "Access-Control-Allow-Methods"@[9] == 'n' && "Access-Control-Allow-Methods"@[10] == 't' && "Access-Control-Allow-Methods"@[11] == 'r' && "Access-Control-Allow-Methods"@[12] == 'o' && "Access-Control-Allow-Methods"@[13] == 'l' && "Access-Control-Allow-Methods"@[14] == '-' && "Access-Control-Allow-Methods"@[15] == 'A' && "Access-Control-Allow-Methods"@[16] == 'l' && "Access-Control-Allow-Methods"@[17] == 'l' && "Access-Control-Allow-Methods"@[18] == 'o' && "Access-Control-Allow-Methods"@[19] == 'w' && "Access-Control-Allow-Methods"@[20] == '-' && "Access-Control-Allow-Methods"@[21] == 'M' && "Access-Control-Allow-Methods"@[22] == 'e' && "Access-Control-Allow-Methods"@[23] == 't' && "Access-Control-Allow-Methods"@[24] == 'h' && "Access-Control-Allow-Methods"@[25] == 'o' && "Access-Control-Allow-Methods"@[26] == 'd' && "Access-Control-Allow-Methods"@[27] == 's');
    assert("Age"@.len() == 3 && "Age"@[0] == 'A' && "Age"@[1] == 'g' && "Age"@[2] == 'e');
    assert("Allow"@.len() == 5 && "Allow"@[0] == 'A' && "Allow"@[1] == 'l' && "Allow"@[2] == 'l' && "Allow"@[3] == 'o' && "Allow"@[4] == 'w');
    assert("Content-Disposition"@.len() == 19 && "Content-Disposition"@[0] == 'C' && "Content-Disposition"@[1] == 'o' && "Content-Disposition"@[2] == 'n' && "Content-Disposition"@[3] == 't' && "Content-Disposition"@[4] == 'e' && "Content-Disposition"@[5] == 'n' && "Content-Disposition"@[6] == 't' && "Content-Disposition"@[7] == '-' && "Content-Disposition"@[8] == 'D' && "Content-Disposition"@[9] == 'i' && "Content-Disposition"@[10] == 's' && "Content-Disposition"@[11] == 'p' && "Content-Disposition"@[12] == 'o' && "Content-Disposition"@[13] == 's' && "Content-Disposition"@[14] == 'i' && "Content-Disposition"@[15] == 't' && "Content-Disposition"@[16] == 'i' && "Content-Disposition"@[17] == 'o' && "Content-Disposition"@[18] == 'n');
    assert("Content-Language"@.len() == 16 && "Content-Language"@[0] == 'C' && "Content-Language"@[1] == 'o' && "Content-Language"@[2] == 'n' && "Content-Language"@[3] == 't' && "Content-Language"@[4] == 'e' && "Content-Language"@[5] == 'n' && "Content-Language"@[6] == 't' && "Content-Language"@[7] == '-' && "Content-Language"@[8] == 'L' && "Content-Language"@[9] == 'a' && "Content-Language"@[10] == 'n' && "Content-Language"@[11] == 'g' && "Content-Language"@[12] == 'u' && "Content-Language"@[13] == 'a' && "Content-Language"@[14] == 'g' && "Content-Language"@[15] == 'e');
    assert("Content-Location"@.len() == 16 && "Content-Location"@[0] == 'C' && "Content-Location"@[1] == 'o' && "Content-Location"@[2] == 'n' && "Content-Location"@[3] == 't' && "Content-Location"@[4] == 'e' && "Content-Location"@[5] == 'n' && "Content-Location"@[6] == 't' && "Content-Location"@[7] == '-' && "Content-Location"@[8] == 'L' && "Content-Location"@[9] == 'o' && "Content-Location"@[10] == 'c' && "Content-Location"@[11] == 'a' && "Content-Location"@[12] == 't' && "Content-Location"@[13] == 'i' && "Content-Location"@[14] == 'o' && "Content-Location"@[15] == 'n');
    assert("ETag"@.len() == 4 && "ETag"@[0] == 'E' && "ETag"@[1] == 'T' && "ETag"@[2] == 'a' && "ETag"@[3] == 'g');
    assert("Expires"@.len() == 7 && "Expires"@[0] == 'E' && "Expires"@[1] == 'x' && "Expires"@[2] == 'p' && "Expires"@[3] == 'i' && "Expires"@[4] == 'r' && "Expires"@[5] == 'e' && "Expires"@[6] == 's');
    assert("Last-Modified"@.len() == 13 && "Last-Modified"@[0] == 'L' && "Last-Modified"@[1] == 'a' && "Last-Modified"@[2] == 's' && "Last-Modified"@[3] == 't' && "Last-Modified"@[4] == '-' && "Last-Modified"@[5] == 'M' && "Last-Modified"@[6] == 'o' && "Last-Modified"@[7] == 'd' && "Last-Modified"@[8] == 'i' && "Last-Modified"@[9] == 'f' && "Last-Modified"@[10] == 'i' && "Last-Modified"@[11] == 'e' && "Last-Modified"@[12] == 'd');
    assert("Link"@.len() == 4 && "Link"@[0] == 'L' && "Link"@[1] == 'i' && "Link"@[2] == 'n' && "Link"@[3] == 'k');
    assert("Location"@.len() == 8 && "Location"@[0] == 'L' && "Location"@[1] == 'o' && "Location"@[2] == 'c' && "Location"@[3] == 'a' && "Location"@[4] == 't' && "Location"@[5] == 'i' && "Location"@[6] == 'o' && "Location"@[7] == 'n');
    assert("Server"@.len() == 6 && "Server"@[0] == 'S' && "Server"@[1] == 'e' && "Server"@[2] == 'r' && "Server"@[3] == 'v' && "Server"@[4] == 'e' && "Server"@[5] == 'r');
    assert("Set-Cookie"@.len() == 10 && "Set-Cookie"@[0] == 'S' && "Set-Cookie"@[1] == 'e' && "Set-Cookie"@[2] == 't' && "Set-Cookie"@[3] == '-' && "Set-Cookie"@[4] == 'C' && "Set-Cookie"@[5] == 'o' && "Set-Cookie"@[6] == 'o' && "Set-Cookie"@[7] == 'k' && "Set-Cookie"@[8] == 'i' && "Set-Cookie"@[9] == 'e');
    assert("Transfer-Encoding"@.len() == 17 && "Transfer-Encoding"@[0] == 'T' && "Transfer-Encoding"@[1] == 'r' && "Transfer-Encoding"@[2] == 'a' && "Transfer-Encoding"@[3] == 'n' && "Transfer-Encoding"@[4] == 's' && "Transfer-Encoding"@[5] == 'f' && "Transfer-Encoding"@[6] == 'e' && "Transfer-Encoding"@[7] == 'r' && "Transfer-Encoding"@[8] == '-' && "Transfer-Encoding"@[9] == 'E' && "Transfer-Encoding"@[10] == 'n' && "Transfer-Encoding"@[11] == 'c' && "Transfer-Encoding"@[12] == 'o' && "Transfer-Encoding"@[13] == 'd' && "Transfer-Encoding"@[14] == 'i' && "Transfer-Encoding"@[15] == 'n' && "Transfer-Encoding"@[16] == 'g');
    assert("Proxy-Authenticate"@.len() == 18 && "Proxy-Authenticate"@[0] == 'P' && "Proxy-Authenticate"@[1] == 'r' && "Proxy-Authenticate"@[2] == 'o' && "Proxy-Authenticate"@[3] == 'x' && "Proxy-Authenticate"@[4] == 'y' && "Proxy-Authenticate"@[5] == '-' && "Proxy-Authenticate"@[6] == 'A' && "Proxy-Authenticate"@[7] == 'u' && "Proxy-Authenticate"@[8] == 't' && "Proxy-Authenticate"@[9] == 'h' && "Proxy-Authenticate"@[10] == 'e' && "Proxy-Authenticate"@[11] == 'n' && "Proxy-Authenticate"@[12] == 't' && "Proxy-Authenticate"@[13] == 'i' && "Proxy-Authenticate"@[14] == 'c' && "Proxy-Authenticate"@[15] == 'a' && "Proxy-Authenticate"@[16] == 't' && "Proxy-Authenticate"@[17] == 'e');
    assert("TE"@.len() == 2 && "TE"@[0] == 'T' && "TE"@[1] == 'E');
    assert("Trailer"@.len() == 7 && "Trailer"@[0] == 'T' && "Trailer"@[1] == 'r' && "Trailer"@[2] == 'a' && "Trailer"@[3] == 'i' && "Trailer"@[4] == 'l' && "Trailer"@[5] == 'e' && "Trailer"@[6] == 'r');
    match n {
        TiiHttpHeaderName::Accept => assert(lower_seq("Accept"@) =~= "accept"@),
        TiiHttpHeaderName::AcceptCharset => assert(lower_seq("Accept-Charset"@) =~= "accept-charset"@),
        TiiHttpHeaderName::AcceptEncoding => assert(lower_seq("Accept-Encoding"@) =~= "accept-encoding"@),
        TiiHttpHeaderName::AcceptLanguage => assert(lower_seq("Accept-Language"@) =~= "accept-language"@),
        TiiHttpHeaderName::AccessControlRequestMethod => assert(lower_seq("Access-Control-Request-Method"@) =~= "access-control-request-method"@),
        TiiHttpHeaderName::AccessControlRequestHeaders => assert(lower_seq("Access-Control-Request-Headers"@) =~= "access-control-request-headers"@),
        TiiHttpHeaderName::Authorization => assert(lower_seq("Authorization"@) =~= "authorization"@),
        TiiHttpHeaderName::CacheControl => assert(lower_seq("Cache-Control"@) =~= "cache-control"@),
        TiiHttpHeaderName::Connection => assert(lower_seq("Connection"@) =~= "connection"@),
        TiiHttpHeaderName::ContentEncoding => assert(lower_seq("Content-Encoding"@) =~= "content-encoding"@),
        TiiHttpHeaderName::ContentLength => assert(lower_seq("Content-Length"@) =~= "content-length"@),
        TiiHttpHeaderName::ContentType => assert(lower_seq("Content-Type"@) =~= "content-type"@),
        TiiHttpHeaderName::Cookie => assert(lower_seq("Cookie"@) =~= "cookie"@),
        TiiHttpHeaderName::Date => assert(lower_seq("Date"@) =~= "date"@),
        TiiHttpHeaderName::Expect => assert(lower_seq("Expect"@) =~= "expect"@),
        TiiHttpHeaderName::Forwarded => assert(lower_seq("Forwarded"@) =~= "forwarded"@),
        TiiHttpHeaderName::From => assert(lower_seq("From"@) =~= "from"@),
        TiiHttpHeaderName::Host => assert(lower_seq("Host"@) =~= "host"@),
        TiiHttpHeaderName::Origin => assert(lower_seq("Origin"@) =~= "origin"@),
        TiiHttpHeaderName::Pragma => assert(lower_seq("Pragma"@) =~= "pragma"@),
        TiiHttpHeaderName::Referer => assert(lower_seq("Referer"@) =~= "referer"@),
        TiiHttpHeaderName::Upgrade => assert(lower_seq("Upgrade"@) =~= "upgrade"@),
        TiiHttpHeaderName::UserAgent => assert(lower_seq("User-Agent"@) =~= "user-agent"@),
        TiiHttpHeaderName::Via => assert(lower_seq("Via"@) =~= "via"@),
        TiiHttpHeaderName::Warning => assert(lower_seq("Warning"@) =~= "warning"@),
        TiiHttpHeaderName::AccessControlAllowOrigin => assert(lower_seq("Access-Control-Allow-Origin"@) =~= "access-control-allow-origin"@),
        TiiHttpHeaderName::AccessControlAllowHeaders => assert(lower_seq("Access-Control-Allow-Headers"@) =~= "access-control-allow-headers"@),
        TiiHttpHeaderName::AccessControlAllowMethods => assert(lower_seq("Access-Control-Allow-Methods"@) =~= "access-control-allow-methods"@),
        TiiHttpHeaderName::Age => assert(lower_seq("Age"@) =~= "age"@),
        TiiHttpHeaderName::Allow => assert(lower_seq("Allow"@) =~= "allow"@),
        TiiHttpHeaderName::ContentDisposition => assert(lower_seq("Content-Disposition"@) =~= "content-disposition"@),
        TiiHttpHeaderName::ContentLanguage => assert(lower_seq("Content-Language"@) =~= "content-language"@),
        TiiHttpHeaderName::ContentLocation => assert(lower_seq("Content-Location"@) =~= "content-location"@),
        TiiHttpHeaderName::ETag => assert(lower_seq("ETag"@) =~= "etag"@),
        TiiHttpHeaderName::Expires => assert(lower_seq("Expires"@) =~= "expires"@),
        TiiHttpHeaderName::LastModified => assert(lower_seq("Last-Modified"@) =~= "last-modified"@),
        TiiHttpHeaderName::Link => assert(lower_seq("Link"@) =~= "link"@),
        TiiHttpHeaderName::Location => assert(lower_seq("Location"@) =~= "location"@),
        TiiHttpHeaderName::Server => assert(lower_seq("Server"@) =~= "server"@),
        TiiHttpHeaderName::SetCookie => assert(lower_seq("Set-Cookie"@) =~= "set-cookie"@),
        TiiHttpHeaderName::TransferEncoding => assert(lower_seq("Transfer-Encoding"@) =~= "transfer-encoding"@),
        TiiHttpHeaderName::ProxyAuthenticate => assert(lower_seq("Proxy-Authenticate"@) =~= "proxy-authenticate"@),
        TiiHttpHeaderName::TE => assert(lower_seq("TE"@) =~= "te"@),
        TiiHttpHeaderName::Trailer => assert(lower_seq("Trailer"@) =~= "trailer"@),
        _ => {},
    }
}


/// After removing the headers of a name, it has no value.
pub proof fn lemma_removed_has_none(hs: Seq<TiiHttpHeader<Seq<char>>>, n: TiiHttpHeaderName<Seq<char>>)
    ensures
        values_named(headers_not_named(hs, n), n).len() == 0,
{
    lemma_not_named_has_none(hs, n);
    lemma_values_named_empty(headers_not_named(hs, n), n);
}

/// Adding a header of one name leaves the values of the other names as they were.
pub proof fn lemma_push_keeps_others(
    hs: Seq<TiiHttpHeader<Seq<char>>>,
    h: TiiHttpHeader<Seq<char>>,
    other: TiiHttpHeaderName<Seq<char>>,
)
    requires
        h.name != other,
    ensures
        values_named(hs.push(h), other) == values_named(hs, other),
{
    assert(hs.push(h).drop_last() =~= hs);
}

} // verus!
