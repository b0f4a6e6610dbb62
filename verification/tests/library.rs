use std::io::ErrorKind;
use std::io::Read;
use tii::{
    body_framing, percent_decode_bytes, websocket_handshake, BodyFraming, HttpMethod, HttpVersion,
    InvalidPathError, PercentDecode, RequestContext, RequestHead, RequestHeadParsingError, Response,
    ResponseBody, TiiAcceptMimeType, TiiError, TiiHttpHeaderName, TiiMimeType, TiiQValue,
    TiiRouteable, TiiRoutingDecision, TiiStatusCode, UserError,
};

fn head(start: &str, headers: &[&str]) -> RequestHead {
    let mut lines: Vec<Vec<u8>> = headers.iter().map(|h| format!("{h}\r\n").into_bytes()).collect();
    lines.push(b"\r\n".to_vec());
    RequestHead::new(format!("{start}\r\n").as_bytes(), &lines).expect("valid head")
}

fn context(start: &str, headers: &[&str]) -> RequestContext {
    RequestContext::new(1, 0, "peer", "local", head(start, headers))
}

// ---------------------------------------------------------------- percent decoding

#[test]
fn percent_decode_rejects_short_escape() {
    assert_eq!("abc%2".percent_decode(), None);
    assert_eq!("%".percent_decode(), None);
}

#[test]
fn percent_decode_rejects_non_hex_escape() {
    assert_eq!("%zz".percent_decode(), None);
}

#[test]
fn percent_decode_reads_plus_as_sign() {
    assert_eq!(percent_decode_bytes(b"%+5"), Some(vec![5u8]));
    assert_eq!(String::from("%41%6a").percent_decode(), Some(b"Aj".to_vec()));
}

// ---------------------------------------------------------------- responses

#[test]
fn response_write_to_http11() {
    let r = Response::ok(ResponseBody::from_string("hi"), TiiMimeType::TextPlain);
    let mut out = Vec::new();
    r.write_to(HttpVersion::Http11, &mut out);
    assert_eq!(
        String::from_utf8(out).unwrap(),
        "HTTP/1.1 200 OK\r\nContent-Type: text/plain\r\nContent-Length: 2\r\n\r\nhi"
    );
}

#[test]
fn response_write_to_without_body() {
    let r = Response::not_found_no_body();
    let mut out = Vec::new();
    r.write_to(HttpVersion::Http10, &mut out);
    assert_eq!(String::from_utf8(out).unwrap(), "HTTP/1.0 404 Not Found\r\nContent-Length: 0\r\n\r\n");
}

#[test]
fn response_write_to_http09_is_body_only() {
    let r = Response::ok(ResponseBody::from_slice(b"raw"), TiiMimeType::TextPlain);
    let mut out = Vec::new();
    r.write_to(HttpVersion::Http09, &mut out);
    assert_eq!(out, b"raw".to_vec());
}

#[test]
fn response_accepted_is_202() {
    let r = Response::accepted(ResponseBody::from_data(vec![1, 2]), TiiMimeType::ApplicationOctetStream);
    let mut out = Vec::new();
    r.write_to(HttpVersion::Http11, &mut out);
    assert!(out.starts_with(b"HTTP/1.1 202 Accepted\r\n"));
}

#[test]
fn response_refuses_content_length_header() {
    let mut r = Response::no_content();
    let e = r.add_header("Content-Length", "5").unwrap_err();
    assert!(matches!(
        e,
        TiiError::UserError(UserError::ImmutableResponseHeaderModified(TiiHttpHeaderName::ContentLength))
    ));
    assert!(r.set_header("transfer-encoding", "chunked").is_err());
    assert!(r.with_header("Trailer", "x").is_err());
}

#[test]
fn response_headers_add_set_remove() {
    let mut r = Response::new(TiiStatusCode::OK);
    r.add_header("X-A", "1").unwrap();
    r.add_header("X-A", "2").unwrap();
    assert_eq!(r.get_headers("X-A"), vec!["1", "2"]);
    r.set_header("X-A", "3").unwrap();
    assert_eq!(r.get_header("X-A"), Some("3"));
    r.remove_header("X-A");
    assert_eq!(r.get_header("X-A"), None);
    assert_eq!(r.get_all_headers().len(), 0);
}

#[test]
fn response_method_not_allowed_lists_methods() {
    let r = Response::method_not_allowed(&[HttpMethod::Get, HttpMethod::Post]);
    assert_eq!(r.get_header("Allow"), Some("GET, POST"));
    let r = Response::method_not_allowed(&[]);
    assert_eq!(r.get_header("Allow"), None);
}

#[test]
fn response_redirect_has_location() {
    let r = Response::see_other_no_body("/there");
    assert_eq!(r.get_header("Location"), Some("/there"));
    let r = Response::moved_permanently("/x", ResponseBody::from_string("moved"), TiiMimeType::TextHtml);
    assert_eq!(r.get_header("Location"), Some("/x"));
    assert_eq!(r.get_header("Content-Type"), Some("text/html"));
    assert_eq!(r.body().unwrap().content_length(), Some(5));
}

#[test]
fn response_body_lengths_and_encoding() {
    let b = ResponseBody::from_string("héllo");
    assert_eq!(b.content_length(), Some(6));
    assert_eq!(b.get_content_encoding(), None);
    assert!(!b.is_chunked());
    let g = ResponseBody::from_externally_gzipped_data(vec![1, 2, 3]);
    assert_eq!(g.get_content_encoding(), Some("gzip"));
    assert_eq!(g.content_length(), Some(3));
    assert_eq!(ResponseBody::from_static_slice(b"abcd").bytes(), b"abcd");
}

#[test]
fn response_body_gzip_in_memory_round_trips() {
    let b = ResponseBody::from_data_with_gzip_in_memory(b"hello hello hello");
    assert_eq!(b.get_content_encoding(), Some("gzip"));
    let bytes = b.bytes().to_vec();
    assert_ne!(bytes, b"hello hello hello".to_vec());
    assert_eq!(&bytes[0..2], &[0x1f, 0x8b]);
    let mut dec = libflate::gzip::Decoder::new(&bytes[..]).unwrap();
    let mut plain = Vec::new();
    dec.read_to_end(&mut plain).unwrap();
    assert_eq!(plain, b"hello hello hello".to_vec());
}

// ---------------------------------------------------------------- body framing

#[test]
fn framing_http11_content_length() {
    let h = head("POST /a HTTP/1.1", &["Content-Length: 5"]);
    assert_eq!(body_framing(&h).unwrap(), (BodyFraming::ContentLength(5), false));
    let h = head("POST /a HTTP/1.1", &["Content-Length: +0"]);
    assert_eq!(body_framing(&h).unwrap(), (BodyFraming::NoBody, false));
}

#[test]
fn framing_invalid_content_length() {
    let h = head("POST /a HTTP/1.1", &["Content-Length: abc"]);
    match body_framing(&h) {
        Err(TiiError::RequestHeadParsing(RequestHeadParsingError::InvalidContentLength(v))) => assert_eq!(v, "abc"),
        other => panic!("unexpected {other:?}"),
    }
}

#[test]
fn framing_keep_alive_without_length() {
    let h = head("GET /a HTTP/1.1", &["Connection: keep-alive"]);
    assert_eq!(body_framing(&h).unwrap(), (BodyFraming::NoBody, false));
    let h = head("POST /a HTTP/1.1", &["Connection: keep-alive"]);
    assert_eq!(body_framing(&h).unwrap(), (BodyFraming::NoBody, true));
    let h = head("GET /a HTTP/1.1", &[]);
    assert_eq!(body_framing(&h).unwrap(), (BodyFraming::NoBody, true));
}

#[test]
fn framing_encodings() {
    let h = head("POST /a HTTP/1.1", &["Transfer-Encoding: chunked"]);
    assert_eq!(body_framing(&h).unwrap(), (BodyFraming::Chunked, false));
    let h = head("POST /a HTTP/1.1", &["Transfer-Encoding: gzip", "Content-Length: 9"]);
    assert_eq!(body_framing(&h).unwrap(), (BodyFraming::GzipUncompressedLength(9), true));
    let h = head("POST /a HTTP/1.1", &["Content-Encoding: x-gzip", "Content-Length: 9"]);
    assert_eq!(body_framing(&h).unwrap(), (BodyFraming::GzipCompressedLength(9), false));
    let h = head("POST /a HTTP/1.1", &["Content-Encoding: gzip", "Transfer-Encoding: chunked"]);
    assert_eq!(body_framing(&h).unwrap(), (BodyFraming::GzipChunked, false));
    let h = head("POST /a HTTP/1.1", &["Transfer-Encoding: gzip, chunked"]);
    assert_eq!(body_framing(&h).unwrap(), (BodyFraming::GzipChunked, false));
}

#[test]
fn framing_encoding_errors() {
    let h = head("POST /a HTTP/1.1", &["Content-Encoding: gzip"]);
    assert!(matches!(
        body_framing(&h),
        Err(TiiError::RequestHeadParsing(RequestHeadParsingError::ContentLengthHeaderMissing))
    ));
    let h = head("POST /a HTTP/1.1", &["Transfer-Encoding: compress"]);
    match body_framing(&h) {
        Err(TiiError::RequestHeadParsing(RequestHeadParsingError::TransferEncodingNotSupported(v))) => {
            assert_eq!(v, "compress")
        }
        other => panic!("unexpected {other:?}"),
    }
    let h = head("POST /a HTTP/1.1", &["Content-Encoding: br"]);
    match body_framing(&h) {
        Err(TiiError::RequestHeadParsing(RequestHeadParsingError::ContentEncodingNotSupported(v))) => assert_eq!(v, "br"),
        other => panic!("unexpected {other:?}"),
    }
}

#[test]
fn framing_http10_closes() {
    let h = head("POST /a HTTP/1.0", &["Content-Length: 3"]);
    assert_eq!(body_framing(&h).unwrap(), (BodyFraming::ContentLength(3), true));
    let ctx = RequestContext::from_request_head(7, 9, "p", "l", h).unwrap();
    assert!(ctx.0.is_connection_close_forced());
    assert_eq!(ctx.1, BodyFraming::ContentLength(3));
    assert_eq!(ctx.0.id(), 7);
    assert_eq!(ctx.0.get_timestamp(), 9);
}

// ---------------------------------------------------------------- request context

#[test]
fn context_path_params() {
    let mut ctx = context("GET /a HTTP/1.1", &[]);
    assert_eq!(ctx.set_path_param("id", "1"), None);
    assert_eq!(ctx.set_path_param("name", "x"), None);
    assert_eq!(ctx.set_path_param("id", "2"), Some("1".to_string()));
    assert_eq!(ctx.get_path_param("id"), Some("2"));
    assert_eq!(ctx.get_path_param("other"), None);
    assert_eq!(ctx.get_path_param_keys(), vec!["id", "name"]);
    assert_eq!(ctx.get_path_params(), vec![("id", "2"), ("name", "x")]);
    assert_eq!(ctx.routed_path(), "");
    ctx.set_routed_path("/a");
    assert_eq!(ctx.routed_path(), "/a");
    assert!(!ctx.is_connection_close_forced());
    ctx.force_connection_close();
    assert!(ctx.is_connection_close_forced());
    ctx.request_head_mut().set_path("/b");
    assert_eq!(ctx.request_head().path(), "/b");
    assert_eq!(ctx.peer_address(), "peer");
    assert_eq!(ctx.local_address(), "local");
}

// ---------------------------------------------------------------- routing

fn params(d: &TiiRoutingDecision) -> Vec<(String, String)> {
    match d {
        TiiRoutingDecision::Match(_, p) => p.clone(),
        other => panic!("no match: {other:?}"),
    }
}

#[test]
fn route_variable_and_wildcard() {
    let rt = TiiRouteable::new("/a/{id}/*", HttpMethod::Get, vec![], vec![]).unwrap();
    let d = rt.matches(&context("GET /a/5/x/y HTTP/1.1", &[]));
    assert_eq!(params(&d), vec![("id".to_string(), "5".to_string())]);
    assert!(matches!(d, TiiRoutingDecision::Match(q, _) if q.as_u16() == 1000));
    assert!(matches!(rt.matches(&context("GET /b/5 HTTP/1.1", &[])), TiiRoutingDecision::PathMismatch));
    assert!(matches!(rt.matches(&context("POST /a/5/x HTTP/1.1", &[])), TiiRoutingDecision::MethodMismatch));
}

#[test]
fn route_root_and_literals() {
    let rt = TiiRouteable::new("/", HttpMethod::Get, vec![], vec![]).unwrap();
    assert!(matches!(rt.matches(&context("GET / HTTP/1.1", &[])), TiiRoutingDecision::Match(_, _)));
    assert!(matches!(rt.matches(&context("GET /x HTTP/1.1", &[])), TiiRoutingDecision::PathMismatch));
    let rt = TiiRouteable::new("/a/b", HttpMethod::Get, vec![], vec![]).unwrap();
    assert!(matches!(rt.matches(&context("GET /a/b HTTP/1.1", &[])), TiiRoutingDecision::Match(_, _)));
    assert!(matches!(rt.matches(&context("GET /a/b/ HTTP/1.1", &[])), TiiRoutingDecision::Match(_, _)));
    assert!(matches!(rt.matches(&context("GET /a HTTP/1.1", &[])), TiiRoutingDecision::PathMismatch));
}

#[test]
fn route_regex_variables() {
    let rt = TiiRouteable::new("/u/{id:^[0-9]+$}", HttpMethod::Get, vec![], vec![]).unwrap();
    let d = rt.matches(&context("GET /u/12 HTTP/1.1", &[]));
    assert_eq!(params(&d), vec![("id".to_string(), "12".to_string())]);
    assert!(matches!(rt.matches(&context("GET /u/ab HTTP/1.1", &[])), TiiRoutingDecision::PathMismatch));
    let rt = TiiRouteable::new("/f/{rest:.*}", HttpMethod::Get, vec![], vec![]).unwrap();
    let d = rt.matches(&context("GET /f/x/y/z HTTP/1.1", &[]));
    assert_eq!(params(&d), vec![("rest".to_string(), "x/y/z".to_string())]);
}

#[test]
fn route_path_errors() {
    match TiiRouteable::new("/a/*/b", HttpMethod::Get, vec![], vec![]) {
        Err(TiiError::InvalidPathError(InvalidPathError::MorePartsAfterWildcard(p))) => assert_eq!(p, "/a/*/b"),
        other => panic!("unexpected {other:?}"),
    }
    match TiiRouteable::new("/a/{x:(}", HttpMethod::Get, vec![], vec![]) {
        Err(TiiError::InvalidPathError(InvalidPathError::RegexSyntaxError(p, r, _))) => {
            assert_eq!(p, "/a/{x:(}");
            assert_eq!(r, "(");
        }
        other => panic!("unexpected {other:?}"),
    }
}

#[test]
fn route_mime_and_accept() {
    let json = TiiAcceptMimeType::Specific(TiiMimeType::ApplicationJson);
    let rt = TiiRouteable::new("/j", HttpMethod::Post, vec![json.clone()], vec![json]).unwrap();
    let ok = context("POST /j HTTP/1.1", &["Content-Type: application/json", "Accept: text/html;q=0.5, application/json;q=0.8"]);
    assert!(matches!(rt.matches(&ok), TiiRoutingDecision::Match(q, _) if q.as_u16() == 800));
    let bad_ct = context("POST /j HTTP/1.1", &["Content-Type: text/plain", "Accept: */*"]);
    assert!(matches!(rt.matches(&bad_ct), TiiRoutingDecision::MimeMismatch));
    let bad_acc = context("POST /j HTTP/1.1", &["Content-Type: application/json", "Accept: text/html"]);
    assert!(matches!(rt.matches(&bad_acc), TiiRoutingDecision::AcceptMismatch));
}

#[test]
fn routing_decision_order() {
    let m1 = TiiRoutingDecision::Match(TiiQValue::from_clamped(500), vec![]);
    let m2 = TiiRoutingDecision::Match(TiiQValue::from_clamped(900), vec![]);
    assert!(m1.is_worse_than(&m2));
    assert!(!m2.is_worse_than(&m1));
    assert!(TiiRoutingDecision::PathMismatch.is_worse_than(&TiiRoutingDecision::MethodMismatch));
    assert!(TiiRoutingDecision::AcceptMismatch.is_worse_than(&m1));
    assert!(!m1.is_worse_than(&m1));
}

// ---------------------------------------------------------------- websocket

#[test]
fn websocket_handshake_accept_value() {
    let h = head("GET /ws HTTP/1.1", &["Sec-WebSocket-Key: dGhlIHNhbXBsZSBub25jZQ=="]);
    let r = websocket_handshake(&h).unwrap();
    assert_eq!(r.get_header("Sec-WebSocket-Accept"), Some("s3pPLMBiTxaQ9kYGzzhZRbK+xOo="));
    assert_eq!(r.get_header("Upgrade"), Some("websocket"));
    assert_eq!(r.get_header("Connection"), Some("Upgrade"));
    assert_eq!(r.status_code, TiiStatusCode::SwitchingProtocols);
}

#[test]
fn websocket_handshake_needs_key() {
    let h = head("GET /ws HTTP/1.1", &[]);
    assert!(matches!(
        websocket_handshake(&h),
        Err(TiiError::RequestHeadParsing(RequestHeadParsingError::MissingSecWebSocketKeyHeader))
    ));
}

// ---------------------------------------------------------------- request heads

#[test]
fn request_head_decodes_path() {
    let h = head("GET /a%20b?x=1&y=2 HTTP/1.1", &["Host: h"]);
    assert_eq!(h.path(), "/a b");
    assert_eq!(h.get_query_param("y"), Some("2"));
    assert_eq!(h.get_header("host"), Some("h"));
    assert_eq!(h.method(), &HttpMethod::Get);
}

#[test]
fn io_error_kinds() {
    let e = TiiError::new_io(ErrorKind::PermissionDenied, "no");
    assert_eq!(e.kind(), ErrorKind::PermissionDenied);
    match &e {
        TiiError::IO(io) => assert_eq!(io.to_string(), "no"),
        _ => panic!("not an IO error"),
    }
    assert_eq!(TiiError::from_io_kind(ErrorKind::UnexpectedEof).kind(), ErrorKind::UnexpectedEof);
    assert_eq!(
        TiiError::RequestHeadParsing(RequestHeadParsingError::StatusLineNoCRLF).kind(),
        ErrorKind::InvalidData
    );
    assert_eq!(TiiError::TypeSystem(tii::TypeSystemError::SourceTypeUnknown).kind(), ErrorKind::Other);
}

#[test]
fn custom_header_names_ignore_case() {
    let mut h = tii::Headers::new();
    h.add("Content-Type", "a");
    h.add("content-type", "b");
    h.add("X-Foo", "1");
    assert_eq!(h.get("CONTENT-TYPE"), Some("a"));
    assert_eq!(h.get("X-Foo"), Some("1"));
    assert_eq!(h.get("x-foo"), Some("1"));
    assert_eq!(h.get("Accept"), None);
}

#[test]
fn removing_accept_removes_every_instance() {
    let mut h = head("GET / HTTP/1.1", &["Accept: text/html", "Host: x"]);
    h.remove_header("Accept").unwrap();
    assert_eq!(h.get_header("Accept"), None);
    assert!(h.get_headers("Accept").is_empty());
    assert_eq!(h.get_accept().to_vec(), vec![tii::TiiAcceptQualityMimeType::default()]);
    assert_eq!(h.get_header("Host"), Some("x"));
}

#[test]
fn quality_values_take_digits_only() {
    assert_eq!(TiiQValue::parse("0.+5"), None);
    assert_eq!(TiiQValue::parse("0.5").map(|q| q.as_u16()), Some(500));
    assert_eq!(TiiQValue::parse("0.05").map(|q| q.as_u16()), Some(50));
    assert_eq!(TiiQValue::parse("0.125").map(|q| q.as_u16()), Some(125));
    assert_eq!(TiiQValue::parse("1.00").map(|q| q.as_u16()), Some(1000));
    for bad in ["1.5", "2", "", ".5", "0.", "0.1234", "q=1"] {
        assert_eq!(TiiQValue::parse(bad), None);
    }
    assert_eq!(tii::TiiAcceptQualityMimeType::parse("text/html;q=0.+5"), None);
}

#[test]
fn redirect_answers_moved_permanently() {
    let handler = tii::redirect("/elsewhere");
    let r = handler(&context("GET /old HTTP/1.1", &[])).unwrap();
    assert_eq!(r.status_code, TiiStatusCode::MovedPermanently);
    assert_eq!(r.get_header("Location"), Some("/elsewhere"));
    assert!(r.body().is_none());
}

#[test]
fn raw_bytes_undo_gzip() {
    let data = b"hello hello hello hello".to_vec();
    let mut out = b">".to_vec();
    ResponseBody::from_data_with_gzip_in_memory(&data)
        .write_to_raw(&TiiMimeType::TextPlain, &mut out)
        .unwrap();
    assert_eq!(out, b">hello hello hello hello".to_vec());

    let mut out = Vec::new();
    ResponseBody::from_string("plain").write_to_raw(&TiiMimeType::TextPlain, &mut out).unwrap();
    assert_eq!(out, b"plain".to_vec());

    let mut out = b"kept".to_vec();
    let r = ResponseBody::from_externally_gzipped_data(b"not gzip".to_vec())
        .write_to_raw(&TiiMimeType::TextPlain, &mut out);
    assert!(matches!(r, Err(TiiError::IO(_))));
    assert_eq!(out, b"kept".to_vec());
}

#[test]
fn path_decoding_keeps_stray_percent_signs() {
    assert_eq!(head("GET /a%41%zz%4 HTTP/1.1", &[]).path(), "/aA%zz%4");
    assert_eq!(head("GET /plain+path HTTP/1.1", &[]).path(), "/plain+path");
    let bad = RequestHead::new(b"GET /%ff HTTP/1.1\r\n", &vec![b"\r\n".to_vec()]);
    match bad {
        Err(TiiError::RequestHeadParsing(RequestHeadParsingError::InvalidPathUrlEncoding(p))) => assert_eq!(p, "/%ff"),
        _ => panic!("expected an invalid path encoding"),
    }
}
