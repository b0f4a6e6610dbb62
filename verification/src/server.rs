//! The decisions a server makes around each request on a connection: whether
//! it asks for a WebSocket, whether the connection stays open after it, and the
//! Connection header of the response.
use crate::headers::{first_value, headers_named, headers_not_named, TiiHttpHeader, TiiHttpHeaderName};
use crate::request::{HttpVersion, RequestHead, RequestHeadModel};
use crate::response::{Response, ResponseModel};
use crate::text::{chars_eq_lower_str, chars_of, lower_seq, str_eq};
use crate::tii_error::{TiiError, TiiResult};
use vstd::prelude::*;

verus! {

/// Whether the request asks to switch to the WebSocket protocol: an HTTP/1.1
/// request whose Upgrade header is "websocket".
pub open spec fn is_websocket_request(h: RequestHeadModel) -> bool {
    h.version == HttpVersion::Http11 && first_value(h.headers, TiiHttpHeaderName::Upgrade) == Some("websocket"@)
}

/// Whether the connection may stay open after the request: the server is not
/// shutting down, the request is HTTP/1.1, keep-alive is not switched off by
/// a zero timeout, and the client asked for it with `Connection: keep-alive`
/// in any case.
pub open spec fn keep_alive_of(h: RequestHeadModel, shutdown: bool, keep_alive_enabled: bool) -> bool {
    &&& !shutdown
    &&& h.version == HttpVersion::Http11
    &&& keep_alive_enabled
    &&& match first_value(h.headers, TiiHttpHeaderName::Connection) {
        Some(v) => lower_seq(v) == "keep-alive"@,
        None => false,
    }
}

/// Whether the request asks to switch to the WebSocket protocol.
pub fn is_websocket_upgrade(head: &RequestHead) -> (r: bool)
    ensures
        r == is_websocket_request(head@),
{
    if head.version() != HttpVersion::Http11 {
        return false;
    }
    match head.get_header_named(&TiiHttpHeaderName::Upgrade) {
        Some(v) => str_eq(v, "websocket"),
        None => false,
    }
}

/// Whether the connection may stay open after the request, before the
/// request's handling forced it closed.
pub fn keep_alive_requested(head: &RequestHead, shutdown: bool, keep_alive_enabled: bool) -> (r: bool)
    ensures
        r == keep_alive_of(head@, shutdown, keep_alive_enabled),
{
    if shutdown || head.version() != HttpVersion::Http11 || !keep_alive_enabled {
        return false;
    }
    match head.get_header_named(&TiiHttpHeaderName::Connection) {
        Some(v) => {
            let cs = chars_of(v);
            chars_eq_lower_str(&cs, "keep-alive")
        },
        None => false,
    }
}

/// The value of the Connection header a response gets.
pub open spec fn connection_value(keep_alive: bool) -> Seq<char> {
    if keep_alive {
        "Keep-Alive"@
    } else {
        "Close"@
    }
}

/// Gives an HTTP/1.1 response its Connection header: "Keep-Alive" or "Close".
/// A response for which a handler set a Connection header itself is refused
/// with an I/O error of kind InvalidInput; responses in older versions are
/// left as they are.
pub fn prepare_response(response: &mut Response, version: HttpVersion, keep_alive: bool) -> (r: TiiResult<()>)
    requires
        old(response).wf(),
    ensures
        final(response).wf(),
        version != HttpVersion::Http11 ==> r is Ok && final(response)@ == old(response)@,
        version == HttpVersion::Http11 ==> final(response)@ == (ResponseModel {
            headers: headers_not_named(old(response)@.headers, TiiHttpHeaderName::Connection).push(
                TiiHttpHeader { name: TiiHttpHeaderName::Connection, value: connection_value(keep_alive) },
            ),
            ..old(response)@
        }),
        version == HttpVersion::Http11 ==> (r is Ok <==> headers_named(
            old(response)@.headers,
            TiiHttpHeaderName::Connection,
        ).len() == 0),
        r matches Err(e) ==> e is IO,
{
    if version != HttpVersion::Http11 {
        return Ok(());
    }
    let previous = if keep_alive {
        response.replace_connection_header("Keep-Alive")
    } else {
        response.replace_connection_header("Close")
    };
    if previous != 0 {
        return Err(TiiError::new_io(crate::tii_error::invalid_input_kind(), "Endpoint has set banned header 'Connection'"));
    }
    Ok(())
}

} // verus!
