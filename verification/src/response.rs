//! Responses: their status, headers and body, and how they are written out.
use crate::headers::{
    header_name_of, header_text, headers_named, headers_not_named, values_named, first_value, Headers,
    TiiHttpHeader, TiiHttpHeaderName,
};
use crate::method::{method_text, HttpMethod};
use crate::mime::{mime_text, TiiMimeType};
use crate::request::{version_net_text, HttpVersion};
use crate::response_body::{ResponseBody, ResponseBodyModel};
use crate::status::{status_code_value, status_text, three_digits, TiiStatusCode};
use crate::text::{dec_seq, push_decimal, push_str};
use crate::tii_error::{TiiError, TiiErrorModel, TiiResult, UserError};
use vstd::prelude::*;
use vstd::string::StringSliceAdditionalSpecFns;
use vstd::utf8::encode_utf8;

verus! {

/// Represents a response from the server.
#[derive(Debug)]
pub struct Response {
    /// The status code of the response, for example 200 OK.
    pub status_code: TiiStatusCode,
    /// The headers of the response, in order.
    headers: Headers,
    /// The body of the response.
    pub body: Option<ResponseBody>,
}

/// The model of a response.
pub struct ResponseModel {
    pub status_code: TiiStatusCode,
    pub headers: Seq<TiiHttpHeader<Seq<char>>>,
    pub body: Option<ResponseBodyModel>,
}

/// The model of an optional body.
pub open spec fn body_view(b: Option<ResponseBody>) -> Option<ResponseBodyModel> {
    match b {
        Some(b) => Some(b@),
        None => None,
    }
}

impl View for Response {
    type V = ResponseModel;

    closed spec fn view(&self) -> ResponseModel {
        ResponseModel { status_code: self.status_code, headers: self.headers@, body: body_view(self.body) }
    }
}

/// The headers whose values the library derives from the body and that a
/// user may not set on a response.
pub open spec fn is_framing_header(n: TiiHttpHeaderName<Seq<char>>) -> bool {
    n == TiiHttpHeaderName::<Seq<char>>::ContentLength || n
        == TiiHttpHeaderName::<Seq<char>>::TransferEncoding || n
        == TiiHttpHeaderName::<Seq<char>>::Trailer
}

/// No header of the list is one that the library derives from the body.
pub open spec fn no_framing_headers(hs: Seq<TiiHttpHeader<Seq<char>>>) -> bool {
    forall|i: int| 0 <= i < hs.len() ==> !is_framing_header(#[trigger] hs[i].name)
}

/// A response with the status and nothing else.
pub open spec fn bare_response(s: TiiStatusCode) -> ResponseModel {
    ResponseModel { status_code: s, headers: seq![], body: None }
}

/// A response with the status and one header.
pub open spec fn one_header_response(
    s: TiiStatusCode,
    n: TiiHttpHeaderName<Seq<char>>,
    v: Seq<char>,
) -> ResponseModel {
    ResponseModel { status_code: s, headers: seq![TiiHttpHeader { name: n, value: v }], body: None }
}

/// A response with the status, a body, and a Content-Type header of the mime type.
pub open spec fn typed_response(
    s: TiiStatusCode,
    b: ResponseBodyModel,
    m: TiiMimeType<Seq<char>>,
) -> ResponseModel {
    ResponseModel {
        status_code: s,
        headers: seq![TiiHttpHeader { name: TiiHttpHeaderName::ContentType, value: mime_text(m) }],
        body: Some(b),
    }
}

/// A response with the status and a Location header.
pub open spec fn located_response(s: TiiStatusCode, location: Seq<char>) -> ResponseModel {
    one_header_response(s, TiiHttpHeaderName::Location, location)
}

/// A response with the status, a Location header, a Content-Type header of the
/// mime type, and a body.
pub open spec fn redirect_response(
    s: TiiStatusCode,
    location: Seq<char>,
    b: ResponseBodyModel,
    m: TiiMimeType<Seq<char>>,
) -> ResponseModel {
    ResponseModel {
        status_code: s,
        headers: seq![
            TiiHttpHeader { name: TiiHttpHeaderName::Location, value: location },
            TiiHttpHeader { name: TiiHttpHeaderName::ContentType, value: mime_text(m) },
        ],
        body: Some(b),
    }
}

/// The value of the Allow header for the methods: their names joined by ", ",
/// where no separator follows an empty beginning.
pub open spec fn allow_text(ms: Seq<HttpMethod<Seq<char>>>) -> Seq<char>
    decreases ms.len(),
{
    if ms.len() == 0 {
        seq![]
    } else {
        let acc = allow_text(ms.drop_last());
        if acc.len() == 0 {
            method_text(ms.last())
        } else {
            acc + ", "@ + method_text(ms.last())
        }
    }
}

/// The response for a method that the resource does not allow.
pub open spec fn method_not_allowed_response(ms: Seq<HttpMethod<Seq<char>>>) -> ResponseModel {
    if ms.len() == 0 {
        bare_response(TiiStatusCode::MethodNotAllowed)
    } else {
        one_header_response(TiiStatusCode::MethodNotAllowed, TiiHttpHeaderName::Allow, allow_text(ms))
    }
}

/// The error that adding or setting a header gives: the library derives
/// Content-Length, Transfer-Encoding and Trailer itself.
pub open spec fn header_change_error(n: TiiHttpHeaderName<Seq<char>>) -> Option<TiiErrorModel> {
    if is_framing_header(n) {
        Some(TiiError::UserError(UserError::ImmutableResponseHeaderModified(n)))
    } else {
        None
    }
}

/// The three bytes of the status code as they are sent.
pub open spec fn code_bytes(s: TiiStatusCode) -> Seq<u8> {
    match s {
        TiiStatusCode::CustomStr(_, d, _) => d@,
        TiiStatusCode::CustomString(_, d, _) => d@,
        _ => three_digits(status_code_value(s)),
    }
}

/// One header as it is sent: a line break, the name, ": " and the value.
pub open spec fn header_bytes(h: TiiHttpHeader<Seq<char>>) -> Seq<u8> {
    encode_utf8("\r\n"@) + encode_utf8(header_text(h.name)) + encode_utf8(": "@) + encode_utf8(h.value)
}

/// The headers as they are sent, in order.
pub open spec fn headers_bytes(hs: Seq<TiiHttpHeader<Seq<char>>>) -> Seq<u8>
    decreases hs.len(),
{
    if hs.len() == 0 {
        seq![]
    } else {
        headers_bytes(hs.drop_last()) + header_bytes(hs.last())
    }
}

/// The end of the head and the body: the Content-Length header, the empty
/// line and the body's bytes; the length is zero where there is no body.
pub open spec fn framing_and_body_bytes(b: Option<ResponseBodyModel>) -> Seq<u8> {
    match b {
        Some(b) => encode_utf8("\r\nContent-Length: "@) + encode_utf8(dec_seq(b.bytes.len())) + encode_utf8(
            "\r\n\r\n"@,
        ) + b.bytes,
        None => encode_utf8("\r\nContent-Length: 0\r\n\r\n"@),
    }
}

/// The bytes of the response as it is sent in the given version: in HTTP/0.9
/// only the body; otherwise the status line, the headers, the Content-Length
/// header and the body.
pub open spec fn response_bytes(r: ResponseModel, version: HttpVersion) -> Seq<u8> {
    if version == HttpVersion::Http09 {
        match r.body {
            Some(b) => b.bytes,
            None => seq![],
        }
    } else {
        encode_utf8(version_net_text(version)) + encode_utf8(" "@) + code_bytes(r.status_code)
            + encode_utf8(" "@) + encode_utf8(status_text(r.status_code)) + headers_bytes(r.headers)
            + framing_and_body_bytes(r.body)
    }
}

/// Appends the UTF-8 bytes of the text.
fn push_utf8(dest: &mut Vec<u8>, s: &str)
    ensures
        final(dest)@ == old(dest)@ + encode_utf8(s@),
{
    let b = s.as_bytes();
    push_bytes(dest, b);
}

/// Appends the bytes.
fn push_bytes(dest: &mut Vec<u8>, b: &[u8])
    ensures
        final(dest)@ == old(dest)@ + b@,
{
    let ghost start = dest@;
    let mut i: usize = 0;
    while i < b.len()
        invariant
            i <= b@.len(),
            dest@ == start + b@.take(i as int),
        decreases b@.len() - i,
    {
        dest.push(b[i]);
        i = i + 1;
        assert(dest@ =~= start + b@.take(i as int));
    }
    assert(b@.take(b@.len() as int) =~= b@);
}

impl Response {
    /// The response's well-formedness: it has none of the headers that the
    /// library derives from the body.
    pub open spec fn wf(&self) -> bool {
        no_framing_headers(self@.headers)
    }

    /// A response with the status code, no headers and no body.
    pub fn new(status_code: TiiStatusCode) -> (r: Response)
        ensures
            r@ == bare_response(status_code),
            r.wf(),
    {
        Response { status_code, headers: Headers::new(), body: None }
    }

    /// Adds a header that is not one the library derives from the body.
    pub(crate) fn with_named_header(self, n: TiiHttpHeaderName, value: &str) -> (r: Response)
        requires
            self.wf(),
            !is_framing_header(n@),
        ensures
            r@ == (ResponseModel {
                headers: self@.headers.push(TiiHttpHeader { name: n@, value: value@ }),
                ..self@
            }),
            r.wf(),
    {
        let mut this = self;
        this.headers.add_named(&n, value);
        this
    }

    fn typed(status_code: TiiStatusCode, body: ResponseBody, mime: &TiiMimeType) -> (r: Response)
        ensures
            r@ == typed_response(status_code, body@, mime@),
            r.wf(),
    {
        let r = Response::new(status_code).with_body(body).with_named_header(
            TiiHttpHeaderName::ContentType,
            mime.as_str(),
        );
        assert(r@.headers =~= seq![TiiHttpHeader { name: TiiHttpHeaderName::ContentType, value: mime_text(mime@) }]);
        r
    }

    fn redirect(status_code: TiiStatusCode, location: &str, body: ResponseBody, mime: &TiiMimeType) -> (r: Response)
        ensures
            r@ == redirect_response(status_code, location@, body@, mime@),
            r.wf(),
    {
        let r = Response::new(status_code).with_named_header(TiiHttpHeaderName::Location, location)
            .with_named_header(TiiHttpHeaderName::ContentType, mime.as_str()).with_body(body);
        assert(r@.headers =~= seq![
            TiiHttpHeader { name: TiiHttpHeaderName::Location, value: location@ },
            TiiHttpHeader { name: TiiHttpHeaderName::ContentType, value: mime_text(mime@) },
        ]);
        r
    }

    /// HTTP 200 OK with a body of the given mime type.
    pub fn ok(body: ResponseBody, mime: TiiMimeType) -> (r: Response)
        ensures
            r@ == typed_response(TiiStatusCode::OK, body@, mime@),
            r.wf(),
    {
        Response::typed(TiiStatusCode::OK, body, &mime)
    }

    /// HTTP 201 Created with a body of the given mime type.
    pub fn created(body: ResponseBody, mime: TiiMimeType) -> (r: Response)
        ensures
            r@ == typed_response(TiiStatusCode::Created, body@, mime@),
            r.wf(),
    {
        Response::typed(TiiStatusCode::Created, body, &mime)
    }

    /// HTTP 202 Accepted with a body of the given mime type.
    pub fn accepted(body: ResponseBody, mime: TiiMimeType) -> (r: Response)
        ensures
            r@ == typed_response(TiiStatusCode::Accepted, body@, mime@),
            r.wf(),
    {
        Response::typed(TiiStatusCode::Accepted, body, &mime)
    }

    /// HTTP 203 Non-Authoritative Information with a body of the given mime type.
    pub fn non_authoritative(body: ResponseBody, mime: TiiMimeType) -> (r: Response)
        ensures
            r@ == typed_response(TiiStatusCode::NonAuthoritative, body@, mime@),
            r.wf(),
    {
        Response::typed(TiiStatusCode::NonAuthoritative, body, &mime)
    }

    /// HTTP 206 Partial Content with a body of the given mime type; the caller sets Content-Range.
    pub fn partial_content(body: ResponseBody, mime: TiiMimeType) -> (r: Response)
        ensures
            r@ == typed_response(TiiStatusCode::PartialContent, body@, mime@),
            r.wf(),
    {
        Response::typed(TiiStatusCode::PartialContent, body, &mime)
    }

    /// HTTP 300 Multiple Choices with a body of the given mime type.
    pub fn multiple_choices(body: ResponseBody, mime: TiiMimeType) -> (r: Response)
        ensures
            r@ == typed_response(TiiStatusCode::MultipleChoices, body@, mime@),
            r.wf(),
    {
        Response::typed(TiiStatusCode::MultipleChoices, body, &mime)
    }

    /// HTTP 400 Bad Request with a body of the given mime type.
    pub fn bad_request(body: ResponseBody, mime: TiiMimeType) -> (r: Response)
        ensures
            r@ == typed_response(TiiStatusCode::BadRequest, body@, mime@),
            r.wf(),
    {
        Response::typed(TiiStatusCode::BadRequest, body, &mime)
    }

    /// HTTP 402 Payment Required with a body of the given mime type.
    pub fn payment_required(body: ResponseBody, mime: TiiMimeType) -> (r: Response)
        ensures
            r@ == typed_response(TiiStatusCode::PaymentRequired, body@, mime@),
            r.wf(),
    {
        Response::typed(TiiStatusCode::PaymentRequired, body, &mime)
    }

    /// HTTP 403 Forbidden with a body of the given mime type.
    pub fn forbidden(body: ResponseBody, mime: TiiMimeType) -> (r: Response)
        ensures
            r@ == typed_response(TiiStatusCode::Forbidden, body@, mime@),
            r.wf(),
    {
        Response::typed(TiiStatusCode::Forbidden, body, &mime)
    }

    /// HTTP 404 Not Found with a body of the given mime type.
    pub fn not_found(body: ResponseBody, mime: TiiMimeType) -> (r: Response)
        ensures
            r@ == typed_response(TiiStatusCode::NotFound, body@, mime@),
            r.wf(),
    {
        Response::typed(TiiStatusCode::NotFound, body, &mime)
    }

    /// HTTP 406 Not Acceptable with a body of the given mime type.
    pub fn not_acceptable(body: ResponseBody, mime: TiiMimeType) -> (r: Response)
        ensures
            r@ == typed_response(TiiStatusCode::NotAcceptable, body@, mime@),
            r.wf(),
    {
        Response::typed(TiiStatusCode::NotAcceptable, body, &mime)
    }

    /// HTTP 409 Conflict with a body of the given mime type.
    pub fn conflict(body: ResponseBody, mime: TiiMimeType) -> (r: Response)
        ensures
            r@ == typed_response(TiiStatusCode::Conflict, body@, mime@),
            r.wf(),
    {
        Response::typed(TiiStatusCode::Conflict, body, &mime)
    }

    /// HTTP 410 Gone with a body of the given mime type.
    pub fn gone(body: ResponseBody, mime: TiiMimeType) -> (r: Response)
        ensures
            r@ == typed_response(TiiStatusCode::Gone, body@, mime@),
            r.wf(),
    {
        Response::typed(TiiStatusCode::Gone, body, &mime)
    }

    /// HTTP 411 Length Required with a body of the given mime type.
    pub fn length_required(body: ResponseBody, mime: TiiMimeType) -> (r: Response)
        ensures
            r@ == typed_response(TiiStatusCode::LengthRequired, body@, mime@),
            r.wf(),
    {
        Response::typed(TiiStatusCode::LengthRequired, body, &mime)
    }

    /// HTTP 413 Content Too Large with a body of the given mime type.
    pub fn content_too_large(body: ResponseBody, mime: TiiMimeType) -> (r: Response)
        ensures
            r@ == typed_response(TiiStatusCode::ContentTooLarge, body@, mime@),
            r.wf(),
    {
        Response::typed(TiiStatusCode::ContentTooLarge, body, &mime)
    }

    /// HTTP 415 Unsupported Media Type with a body of the given mime type.
    pub fn unsupported_media_type(body: ResponseBody, mime: TiiMimeType) -> (r: Response)
        ensures
            r@ == typed_response(TiiStatusCode::UnsupportedMediaType, body@, mime@),
            r.wf(),
    {
        Response::typed(TiiStatusCode::UnsupportedMediaType, body, &mime)
    }

    /// HTTP 204 No Content.
    pub fn no_content() -> (r: Response)
        ensures
            r@ == bare_response(TiiStatusCode::NoContent),
            r.wf(),
    {
        Response::new(TiiStatusCode::NoContent)
    }

    /// HTTP 205 Reset Content.
    pub fn reset_content() -> (r: Response)
        ensures
            r@ == bare_response(TiiStatusCode::ResetContent),
            r.wf(),
    {
        Response::new(TiiStatusCode::ResetContent)
    }

    /// HTTP 300 Multiple Choices without a body.
    pub fn multiple_choices_no_body() -> (r: Response)
        ensures
            r@ == bare_response(TiiStatusCode::MultipleChoices),
            r.wf(),
    {
        Response::new(TiiStatusCode::MultipleChoices)
    }

    /// HTTP 304 Not Modified.
    pub fn not_modified() -> (r: Response)
        ensures
            r@ == bare_response(TiiStatusCode::NotModified),
            r.wf(),
    {
        Response::new(TiiStatusCode::NotModified)
    }

    /// HTTP 400 Bad Request without a body.
    pub fn bad_request_no_body() -> (r: Response)
        ensures
            r@ == bare_response(TiiStatusCode::BadRequest),
            r.wf(),
    {
        Response::new(TiiStatusCode::BadRequest)
    }

    /// HTTP 401 Unauthorized.
    pub fn unauthorized() -> (r: Response)
        ensures
            r@ == bare_response(TiiStatusCode::Unauthorized),
            r.wf(),
    {
        Response::new(TiiStatusCode::Unauthorized)
    }

    /// HTTP 402 Payment Required without a body.
    pub fn payment_required_no_body() -> (r: Response)
        ensures
            r@ == bare_response(TiiStatusCode::PaymentRequired),
            r.wf(),
    {
        Response::new(TiiStatusCode::PaymentRequired)
    }

    /// HTTP 403 Forbidden without a body.
    pub fn forbidden_no_body() -> (r: Response)
        ensures
            r@ == bare_response(TiiStatusCode::Forbidden),
            r.wf(),
    {
        Response::new(TiiStatusCode::Forbidden)
    }

    /// HTTP 404 Not Found without a body.
    pub fn not_found_no_body() -> (r: Response)
        ensures
            r@ == bare_response(TiiStatusCode::NotFound),
            r.wf(),
    {
        Response::new(TiiStatusCode::NotFound)
    }

    /// HTTP 406 Not Acceptable without a body.
    pub fn not_acceptable_no_body() -> (r: Response)
        ensures
            r@ == bare_response(TiiStatusCode::NotAcceptable),
            r.wf(),
    {
        Response::new(TiiStatusCode::NotAcceptable)
    }

    /// HTTP 408 Request Timeout.
    pub fn request_timeout() -> (r: Response)
        ensures
            r@ == bare_response(TiiStatusCode::RequestTimeout),
            r.wf(),
    {
        Response::new(TiiStatusCode::RequestTimeout)
    }

    /// HTTP 409 Conflict without a body.
    pub fn conflict_no_body() -> (r: Response)
        ensures
            r@ == bare_response(TiiStatusCode::Conflict),
            r.wf(),
    {
        Response::new(TiiStatusCode::Conflict)
    }

    /// HTTP 410 Gone without a body.
    pub fn gone_no_body() -> (r: Response)
        ensures
            r@ == bare_response(TiiStatusCode::Gone),
            r.wf(),
    {
        Response::new(TiiStatusCode::Gone)
    }

    /// HTTP 411 Length Required without a body.
    pub fn length_required_no_body() -> (r: Response)
        ensures
            r@ == bare_response(TiiStatusCode::LengthRequired),
            r.wf(),
    {
        Response::new(TiiStatusCode::LengthRequired)
    }

    /// HTTP 412 Precondition Failed.
    pub fn precondition_failed() -> (r: Response)
        ensures
            r@ == bare_response(TiiStatusCode::PreconditionFailed),
            r.wf(),
    {
        Response::new(TiiStatusCode::PreconditionFailed)
    }

    /// HTTP 413 Content Too Large without a body.
    pub fn content_too_large_no_body() -> (r: Response)
        ensures
            r@ == bare_response(TiiStatusCode::ContentTooLarge),
            r.wf(),
    {
        Response::new(TiiStatusCode::ContentTooLarge)
    }

    /// HTTP 415 Unsupported Media Type without a body.
    pub fn unsupported_media_type_no_body() -> (r: Response)
        ensures
            r@ == bare_response(TiiStatusCode::UnsupportedMediaType),
            r.wf(),
    {
        Response::new(TiiStatusCode::UnsupportedMediaType)
    }

    /// HTTP 301 Moved Permanently to the location, with a body of the given mime type.
    pub fn moved_permanently(location: &str, body: ResponseBody, mime: TiiMimeType) -> (r: Response)
        ensures
            r@ == redirect_response(TiiStatusCode::MovedPermanently, location@, body@, mime@),
            r.wf(),
    {
        Response::redirect(TiiStatusCode::MovedPermanently, location, body, &mime)
    }

    /// HTTP 302 Found at the location, with a body of the given mime type.
    pub fn found(location: &str, body: ResponseBody, mime: TiiMimeType) -> (r: Response)
        ensures
            r@ == redirect_response(TiiStatusCode::Found, location@, body@, mime@),
            r.wf(),
    {
        Response::redirect(TiiStatusCode::Found, location, body, &mime)
    }

    /// HTTP 303 See Other at the location, with a body of the given mime type.
    pub fn see_other(location: &str, body: ResponseBody, mime: TiiMimeType) -> (r: Response)
        ensures
            r@ == redirect_response(TiiStatusCode::SeeOther, location@, body@, mime@),
            r.wf(),
    {
        Response::redirect(TiiStatusCode::SeeOther, location, body, &mime)
    }

    /// HTTP 307 Temporary Redirect to the location, with a body of the given mime type.
    pub fn temporary_redirect(location: &str, body: ResponseBody, mime: TiiMimeType) -> (r: Response)
        ensures
            r@ == redirect_response(TiiStatusCode::TemporaryRedirect, location@, body@, mime@),
            r.wf(),
    {
        Response::redirect(TiiStatusCode::TemporaryRedirect, location, body, &mime)
    }

    /// HTTP 308 Permanent Redirect to the location, with a body of the given mime type.
    pub fn permanent_redirect(location: &str, body: ResponseBody, mime: TiiMimeType) -> (r: Response)
        ensures
            r@ == redirect_response(TiiStatusCode::PermanentRedirect, location@, body@, mime@),
            r.wf(),
    {
        Response::redirect(TiiStatusCode::PermanentRedirect, location, body, &mime)
    }

    /// HTTP 301 Moved Permanently to the location, without a body.
    pub fn moved_permanently_no_body(location: &str) -> (r: Response)
        ensures
            r@ == located_response(TiiStatusCode::MovedPermanently, location@),
            r.wf(),
    {
        Response::new(TiiStatusCode::MovedPermanently).with_named_header(TiiHttpHeaderName::Location, location)
    }

    /// HTTP 302 Found at the location, without a body.
    pub fn found_no_body(location: &str) -> (r: Response)
        ensures
            r@ == located_response(TiiStatusCode::Found, location@),
            r.wf(),
    {
        Response::new(TiiStatusCode::Found).with_named_header(TiiHttpHeaderName::Location, location)
    }

    /// HTTP 303 See Other at the location, without a body.
    pub fn see_other_no_body(location: &str) -> (r: Response)
        ensures
            r@ == located_response(TiiStatusCode::SeeOther, location@),
            r.wf(),
    {
        Response::new(TiiStatusCode::SeeOther).with_named_header(TiiHttpHeaderName::Location, location)
    }

    /// HTTP 307 Temporary Redirect to the location, without a body.
    pub fn temporary_redirect_no_body(location: &str) -> (r: Response)
        ensures
            r@ == located_response(TiiStatusCode::TemporaryRedirect, location@),
            r.wf(),
    {
        Response::new(TiiStatusCode::TemporaryRedirect).with_named_header(TiiHttpHeaderName::Location, location)
    }

    /// HTTP 308 Permanent Redirect to the location, without a body.
    pub fn permanent_redirect_no_body(location: &str) -> (r: Response)
        ensures
            r@ == located_response(TiiStatusCode::PermanentRedirect, location@),
            r.wf(),
    {
        Response::new(TiiStatusCode::PermanentRedirect).with_named_header(TiiHttpHeaderName::Location, location)
    }

    /// HTTP 405 Method Not Allowed; the Allow header lists the methods, unless there are none.
    pub fn method_not_allowed(allowed_methods: &[HttpMethod]) -> (r: Response)
        ensures
            r@ == method_not_allowed_response(Seq::new(allowed_methods@.len(), |i: int| allowed_methods@[i]@)),
            r.wf(),
    {
        let ghost ms = Seq::new(allowed_methods@.len(), |i: int| allowed_methods@[i]@);
        if allowed_methods.len() == 0 {
            return Response::new(TiiStatusCode::MethodNotAllowed);
        }
        let mut buf = String::new();
        let mut i: usize = 0;
        while i < allowed_methods.len()
            invariant
                i <= allowed_methods@.len(),
                ms == Seq::new(allowed_methods@.len(), |k: int| allowed_methods@[k]@),
                buf@ == allow_text(ms.take(i as int)),
            decreases allowed_methods@.len() - i,
        {
            assert(ms.take(i + 1).drop_last() =~= ms.take(i as int));
            if !buf.as_str().is_empty() {
                push_str(&mut buf, ", ");
            }
            push_str(&mut buf, allowed_methods[i].as_str());
            i = i + 1;
        }
        assert(ms.take(allowed_methods@.len() as int) =~= ms);
        let r = Response::new(TiiStatusCode::MethodNotAllowed).with_named_header(
            TiiHttpHeaderName::Allow,
            buf.as_str(),
        );
        assert(r@.headers =~= seq![TiiHttpHeader { name: TiiHttpHeaderName::Allow, value: allow_text(ms) }]);
        r
    }

    /// HTTP 407 Proxy Authentication Required, with the Proxy-Authenticate header.
    pub fn proxy_authentication_required(authenticate: &str) -> (r: Response)
        ensures
            r@ == one_header_response(
                TiiStatusCode::ProxyAuthenticationRequired,
                TiiHttpHeaderName::ProxyAuthenticate,
                authenticate@,
            ),
            r.wf(),
    {
        let r = Response::new(TiiStatusCode::ProxyAuthenticationRequired).with_named_header(
            TiiHttpHeaderName::ProxyAuthenticate,
            authenticate,
        );
        assert(r@.headers =~= seq![TiiHttpHeader { name: TiiHttpHeaderName::ProxyAuthenticate, value: authenticate@ }]);
        r
    }

    /// Removes the body.
    pub fn without_body(self) -> (r: Response)
        ensures
            r@ == (ResponseModel { body: None, ..self@ }),
            self.wf() ==> r.wf(),
    {
        let mut this = self;
        this.body = None;
        this
    }

    /// Replaces the body.
    pub fn with_body(self, body: ResponseBody) -> (r: Response)
        ensures
            r@ == (ResponseModel { body: Some(body@), ..self@ }),
            self.wf() ==> r.wf(),
    {
        let mut this = self;
        this.body = Some(body);
        this
    }

    /// Replaces the body with the text.
    pub fn with_body_string(self, body: &str) -> (r: Response)
        ensures
            r@ == (ResponseModel {
                body: Some(ResponseBodyModel { gzipped: false, bytes: body.spec_bytes() }),
                ..self@
            }),
            self.wf() ==> r.wf(),
    {
        let mut this = self;
        this.body = Some(ResponseBody::from_string(body));
        this
    }

    /// Replaces the body with the bytes.
    pub fn with_body_vec(self, body: Vec<u8>) -> (r: Response)
        ensures
            r@ == (ResponseModel { body: Some(ResponseBodyModel { gzipped: false, bytes: body@ }), ..self@ }),
            self.wf() ==> r.wf(),
    {
        let mut this = self;
        this.body = Some(ResponseBody::from_data(body));
        this
    }

    /// Replaces the body with a copy of the bytes.
    pub fn with_body_slice(self, body: &[u8]) -> (r: Response)
        ensures
            r@ == (ResponseModel { body: Some(ResponseBodyModel { gzipped: false, bytes: body@ }), ..self@ }),
            self.wf() ==> r.wf(),
    {
        let mut this = self;
        this.body = Some(ResponseBody::from_slice(body));
        this
    }

    /// Adds a header; refused for the headers that the library derives from the body.
    pub fn with_header(self, header: &str, value: &str) -> (r: TiiResult<Response>)
        requires
            self.wf(),
        ensures
            header_change_error(header_name_of(header@)) matches Some(e) ==> (r matches Err(x) && x@ == e),
            header_change_error(header_name_of(header@)) is None ==> (r matches Ok(resp) && resp.wf()
                && resp@ == (ResponseModel {
                headers: self@.headers.push(TiiHttpHeader { name: header_name_of(header@), value: value@ }),
                ..self@
            })),
    {
        let mut this = self;
        match this.add_header(header, value) {
            Ok(()) => Ok(this),
            Err(e) => Err(e),
        }
    }

    fn framing_error(n: TiiHttpHeaderName) -> (r: Option<TiiError>)
        ensures
            r matches Some(e) ==> header_change_error(n@) == Some(e@),
            r is None ==> header_change_error(n@) is None,
    {
        match n {
            TiiHttpHeaderName::ContentLength => Some(
                TiiError::UserError(UserError::ImmutableResponseHeaderModified(TiiHttpHeaderName::ContentLength)),
            ),
            TiiHttpHeaderName::TransferEncoding => Some(
                TiiError::UserError(
                    UserError::ImmutableResponseHeaderModified(TiiHttpHeaderName::TransferEncoding),
                ),
            ),
            TiiHttpHeaderName::Trailer => Some(
                TiiError::UserError(UserError::ImmutableResponseHeaderModified(TiiHttpHeaderName::Trailer)),
            ),
            _ => None,
        }
    }

    /// Adds a header; refused for the headers that the library derives from the body.
    pub fn add_header(&mut self, hdr: &str, value: &str) -> (r: TiiResult<()>)
        requires
            old(self).wf(),
        ensures
            final(self).wf(),
            header_change_error(header_name_of(hdr@)) matches Some(e) ==> (r matches Err(x) && x@ == e
                && final(self)@ == old(self)@),
            header_change_error(header_name_of(hdr@)) is None ==> r is Ok && final(self)@ == (ResponseModel {
                headers: old(self)@.headers.push(TiiHttpHeader { name: header_name_of(hdr@), value: value@ }),
                ..old(self)@
            }),
    {
        let n = TiiHttpHeaderName::from_name(hdr);
        match Response::framing_error(n.duplicate()) {
            Some(e) => Err(e),
            None => {
                self.headers.add_named(&n, value);
                Ok(())
            },
        }
    }

    /// Replaces every header of the name by one with the value; refused for the
    /// headers that the library derives from the body.
    pub fn set_header(&mut self, header: &str, value: &str) -> (r: TiiResult<()>)
        requires
            old(self).wf(),
        ensures
            final(self).wf(),
            header_change_error(header_name_of(header@)) matches Some(e) ==> (r matches Err(x) && x@ == e
                && final(self)@ == old(self)@),
            header_change_error(header_name_of(header@)) is None ==> r is Ok && final(self)@ == (ResponseModel {
                headers: headers_not_named(old(self)@.headers, header_name_of(header@)).push(
                    TiiHttpHeader { name: header_name_of(header@), value: value@ },
                ),
                ..old(self)@
            }),
    {
        let n = TiiHttpHeaderName::from_name(header);
        match Response::framing_error(n.duplicate()) {
            Some(e) => Err(e),
            None => {
                self.headers.set_named(&n, value);
                proof {
                    lemma_not_named_keeps(old(self)@.headers, n@);
                }
                Ok(())
            },
        }
    }

    /// Replaces every Connection header by one with the value, and tells how
    /// many there were before.
    pub(crate) fn replace_connection_header(&mut self, value: &str) -> (r: usize)
        requires
            old(self).wf(),
        ensures
            final(self).wf(),
            final(self)@ == (ResponseModel {
                headers: headers_not_named(old(self)@.headers, TiiHttpHeaderName::Connection).push(
                    TiiHttpHeader { name: TiiHttpHeaderName::Connection, value: value@ },
                ),
                ..old(self)@
            }),
            r == headers_named(old(self)@.headers, TiiHttpHeaderName::Connection).len(),
    {
        let removed = self.headers.replace_all_named(TiiHttpHeaderName::Connection, value);
        proof {
            lemma_not_named_keeps(old(self)@.headers, TiiHttpHeaderName::Connection);
        }
        removed.len()
    }

    /// Whether the response has none of the headers that the library derives
    /// from the body; every response the library makes has none.
    pub fn is_well_formed(&self) -> (r: bool)
        ensures
            r == self.wf(),
    {
        let hs = self.headers.as_slice();
        let ghost hv = Seq::new(hs@.len(), |i: int| hs@[i]@);
        let mut i: usize = 0;
        while i < hs.len()
            invariant
                i <= hs@.len(),
                hv == Seq::new(hs@.len(), |k: int| hs@[k]@),
                hv == self@.headers,
                forall|k: int| 0 <= k < i ==> !is_framing_header(#[trigger] hv[k].name),
            decreases hs@.len() - i,
        {
            match hs[i].name {
                TiiHttpHeaderName::ContentLength | TiiHttpHeaderName::TransferEncoding | TiiHttpHeaderName::Trailer => {
                    assert(is_framing_header(hv[i as int].name));
                    return false;
                },
                _ => {},
            }
            i = i + 1;
        }
        true
    }

    /// Removes every header of the name.
    pub fn remove_header(&mut self, header: &str)
        ensures
            final(self)@ == (ResponseModel {
                headers: headers_not_named(old(self)@.headers, header_name_of(header@)),
                ..old(self)@
            }),
            old(self).wf() ==> final(self).wf(),
    {
        self.headers.remove(header);
        proof {
            if no_framing_headers(old(self)@.headers) {
                lemma_not_named_keeps(old(self)@.headers, header_name_of(header@));
            }
        }
    }

    /// The headers, in order.
    pub fn get_all_headers(&self) -> (r: &[TiiHttpHeader])
        ensures
            Seq::new(r@.len(), |i: int| r@[i]@) == self@.headers,
    {
        self.headers.as_slice()
    }

    /// The value of the first header of the name.
    pub fn get_header(&self, name: &str) -> (r: Option<&str>)
        ensures
            r matches Some(v) ==> first_value(self@.headers, header_name_of(name@)) == Some(v@),
            r is None ==> first_value(self@.headers, header_name_of(name@)) is None,
    {
        self.headers.get(name)
    }

    /// The values of all headers of the name, in order.
    pub fn get_headers(&self, name: &str) -> (r: Vec<&str>)
        ensures
            Seq::new(r@.len(), |i: int| r@[i]@) == values_named(self@.headers, header_name_of(name@)),
    {
        self.headers.get_all(name)
    }

    /// The body, if there is one.
    pub fn body(&self) -> (r: Option<&ResponseBody>)
        ensures
            r matches Some(b) ==> self@.body == Some(b@),
            r is None ==> self@.body is None,
    {
        self.body.as_ref()
    }

    /// Appends the response as it is sent in the given version.
    pub fn write_to(self, version: HttpVersion, destination: &mut Vec<u8>)
        requires
            self.wf(),
        ensures
            final(destination)@ == old(destination)@ + response_bytes(self@, version),
    {
        let ghost start = destination@;
        if version == HttpVersion::Http09 {
            if let Some(body) = &self.body {
                push_bytes(destination, body.bytes());
            } else {
                assert(destination@ =~= start + Seq::<u8>::empty());
            }
            return;
        }
        push_status_line(destination, version, &self.status_code);
        let ghost a = destination@;
        push_headers(destination, self.headers.as_slice());
        let ghost b = destination@;
        push_framing_and_body(destination, &self.body);
        assert(destination@ =~= start + response_bytes(self@, version));
    }
}

/// Appends the status line of the response.
fn push_status_line(destination: &mut Vec<u8>, version: HttpVersion, status: &TiiStatusCode)
    ensures
        final(destination)@ == old(destination)@ + (encode_utf8(version_net_text(version)) + encode_utf8(" "@)
            + code_bytes(*status) + encode_utf8(" "@) + encode_utf8(status_text(*status))),
{
    let ghost start = destination@;
    push_utf8(destination, version.as_net_str());
    push_utf8(destination, " ");
    let code = status.code_as_utf();
    push_bytes(destination, &code);
    push_utf8(destination, " ");
    push_utf8(destination, status.status_line());
    assert(destination@ =~= start + (encode_utf8(version_net_text(version)) + encode_utf8(" "@)
        + code_bytes(*status) + encode_utf8(" "@) + encode_utf8(status_text(*status))));
}

/// Appends the headers, each after a line break.
fn push_headers(destination: &mut Vec<u8>, hs: &[TiiHttpHeader])
    ensures
        final(destination)@ == old(destination)@ + headers_bytes(Seq::new(hs@.len(), |i: int| hs@[i]@)),
{
    let ghost start = destination@;
    let ghost hv = Seq::new(hs@.len(), |i: int| hs@[i]@);
    let mut i: usize = 0;
    assert(headers_bytes(hv.take(0)) =~= Seq::<u8>::empty());
    assert(destination@ =~= start + headers_bytes(hv.take(0)));
    while i < hs.len()
        invariant
            i <= hs@.len(),
            hv == Seq::new(hs@.len(), |k: int| hs@[k]@),
            destination@ == start + headers_bytes(hv.take(i as int)),
        decreases hs@.len() - i,
    {
        let ghost before = destination@;
        assert(hv.take(i + 1).drop_last() =~= hv.take(i as int));
        push_utf8(destination, "\r\n");
        push_utf8(destination, hs[i].name.to_str());
        push_utf8(destination, ": ");
        push_utf8(destination, hs[i].value.as_str());
        assert(destination@ =~= before + header_bytes(hv[i as int]));
        i = i + 1;
        assert(destination@ =~= start + headers_bytes(hv.take(i as int)));
    }
    assert(hv.take(hs@.len() as int) =~= hv);
}

/// Appends the Content-Length header, the empty line and the body.
fn push_framing_and_body(destination: &mut Vec<u8>, body: &Option<ResponseBody>)
    ensures
        final(destination)@ == old(destination)@ + framing_and_body_bytes(body_view(*body)),
{
    let ghost start = destination@;
    match body {
        Some(body) => {
            let bytes = body.bytes();
            let mut len_text = String::new();
            push_decimal(&mut len_text, bytes.len() as u64);
            assert(len_text@ =~= dec_seq(bytes@.len()));
            push_utf8(destination, "\r\nContent-Length: ");
            push_utf8(destination, len_text.as_str());
            push_utf8(destination, "\r\n\r\n");
            push_bytes(destination, bytes);
            assert(destination@ =~= start + framing_and_body_bytes(body_view(Some(*body))));
        },
        None => {
            push_utf8(destination, "\r\nContent-Length: 0\r\n\r\n");
        },
    }
}

/// Removing the headers of one name keeps the list free of the headers that
/// the library derives from the body.
proof fn lemma_not_named_keeps(hs: Seq<TiiHttpHeader<Seq<char>>>, n: TiiHttpHeaderName<Seq<char>>)
    requires
        no_framing_headers(hs),
    ensures
        no_framing_headers(headers_not_named(hs, n)),
    decreases hs.len(),
{
    if hs.len() > 0 {
        lemma_not_named_keeps(hs.drop_last(), n);
    }
}

} // verus!
