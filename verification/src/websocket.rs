//! The server's side of the WebSocket opening handshake.
use crate::headers::{first_value, header_name_of, TiiHttpHeader, TiiHttpHeaderName};
use crate::request::RequestHead;
use crate::response::{Response, ResponseModel};
use crate::status::TiiStatusCode;
use crate::text::lower_seq;
use crate::tii_error::{RequestHeadParsingError, TiiError, TiiResult};
use base64::Engine;
use sha1::Digest;
use vstd::prelude::*;
use vstd::string::StringSliceAdditionalSpecFns;
use vstd::utf8::encode_utf8;

verus! {

/// The SHA-1 digest of the bytes.
pub uninterp spec fn sha1_digest(data: Seq<u8>) -> Seq<u8>;

/// The character of a six bit value in the standard base64 alphabet:
/// A-Z, a-z, 0-9, "+" and "/".
pub open spec fn base64_char(v: int) -> char {
    if v < 26 {
        (65 + v) as char
    } else if v < 52 {
        (97 + v - 26) as char
    } else if v < 62 {
        (48 + v - 52) as char
    } else if v == 62 {
        '+'
    } else {
        '/'
    }
}

/// The standard base64 encoding of the bytes (RFC 4648, with "=" padding):
/// each three bytes become four characters of six bits each.
pub open spec fn base64_standard(d: Seq<u8>) -> Seq<char>
    decreases d.len(),
{
    let a = d[0] as int;
    let b = d[1] as int;
    let c = d[2] as int;
    if d.len() == 0 {
        seq![]
    } else if d.len() == 1 {
        seq![base64_char(a / 4), base64_char((a % 4) * 16), '=', '=']
    } else if d.len() == 2 {
        seq![base64_char(a / 4), base64_char((a % 4) * 16 + b / 16), base64_char((b % 16) * 4), '=']
    } else {
        seq![
            base64_char(a / 4),
            base64_char((a % 4) * 16 + b / 16),
            base64_char((b % 16) * 4 + c / 64),
            base64_char(c % 64),
        ] + base64_standard(d.skip(3))
    }
}

/// Hashes the two byte strings one after the other with the sha1 crate's
/// `Sha1` (`chain_update` twice, then `finalize`), which digests their
/// concatenation; the digest is named by `sha1_digest` and has 20 bytes.
#[verifier::external_body]
fn sha1_of_concat(a: &[u8], b: &[u8]) -> (r: Vec<u8>)
    ensures
        r@ == sha1_digest(a@ + b@),
        r@.len() == 20,
{
    sha1::Sha1::new().chain_update(a).chain_update(b).finalize().to_vec()
}

/// Encodes the bytes with the base64 crate's standard engine
/// (`BASE64_STANDARD.encode`): the standard alphabet with padding, as
/// `base64_standard` states it.
#[verifier::external_body]
fn base64_encode(data: &[u8]) -> (r: String)
    ensures
        r@ == base64_standard(data@),
{
    base64::prelude::BASE64_STANDARD.encode(data)
}

/// The value of the Sec-WebSocket-Accept header for a key: the base64 text of
/// the SHA-1 digest of the key followed by the protocol's fixed GUID.
pub open spec fn websocket_accept(key: Seq<char>) -> Seq<char> {
    base64_standard(sha1_digest(encode_utf8(key) + encode_utf8("258EAFA5-E914-47DA-95CA-C5AB0DC85B11"@)))
}

/// The response that accepts a WebSocket handshake with the key.
pub open spec fn handshake_response(key: Seq<char>) -> ResponseModel {
    ResponseModel {
        status_code: TiiStatusCode::SwitchingProtocols,
        headers: seq![
            TiiHttpHeader { name: TiiHttpHeaderName::Upgrade, value: "websocket"@ },
            TiiHttpHeader { name: TiiHttpHeaderName::Connection, value: "Upgrade"@ },
            TiiHttpHeader { name: header_name_of("Sec-WebSocket-Accept"@), value: websocket_accept(key) },
        ],
        body: None,
    }
}

/// The response to a WebSocket handshake request: 101 Switching Protocols with
/// the accept value computed from the request's Sec-WebSocket-Key header; an
/// error where the request has no such header.
pub fn websocket_handshake(head: &RequestHead) -> (r: TiiResult<Response>)
    ensures
        first_value(head@.headers, header_name_of("Sec-WebSocket-Key"@)) matches Some(key) ==> (r matches Ok(
            resp,
        ) && resp@ == handshake_response(key) && resp.wf()),
        first_value(head@.headers, header_name_of("Sec-WebSocket-Key"@)) is None ==> (r matches Err(e) && e@
            == TiiError::<Seq<char>, Seq<u8>>::RequestHeadParsing(
            RequestHeadParsingError::MissingSecWebSocketKeyHeader,
        )),
{
    let key = match head.get_header("Sec-WebSocket-Key") {
        Some(k) => k,
        None => {
            return Err(TiiError::RequestHeadParsing(RequestHeadParsingError::MissingSecWebSocketKeyHeader));
        },
    };
    let digest = sha1_of_concat(key.as_bytes(), "258EAFA5-E914-47DA-95CA-C5AB0DC85B11".as_bytes());
    let accept = base64_encode(digest.as_slice());
    let accept_name = TiiHttpHeaderName::from_name("Sec-WebSocket-Accept");
    proof {
        reveal_strlit("Sec-WebSocket-Accept");
        reveal_strlit("content-length");
        reveal_strlit("transfer-encoding");
        reveal_strlit("trailer");
        assert(lower_seq("Sec-WebSocket-Accept"@).len() == 20);
    }
    let resp = Response::new(TiiStatusCode::SwitchingProtocols).with_named_header(
        TiiHttpHeaderName::Upgrade,
        "websocket",
    ).with_named_header(TiiHttpHeaderName::Connection, "Upgrade");
    let resp = resp.with_named_header(accept_name, accept.as_str());
    assert(resp@.headers =~= handshake_response(key@).headers);
    Ok(resp)
}

} // verus!
