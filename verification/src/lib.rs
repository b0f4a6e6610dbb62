//! Tii: an HTTP/1.1 server library; this crate holds its verified core.
mod builtin_endpoints;
mod chunked;
mod default_functions;
mod headers;
mod method;
mod mime;
mod percent;
mod request;
mod request_context;
mod response;
mod router;
mod server;
mod response_body;
mod response_context;
mod status;
mod text;
mod tii_error;
mod websocket;
pub use headers::{Headers, TiiHttpHeader, TiiHttpHeaderName};
pub use method::HttpMethod;
pub use percent::{percent_decode_bytes, PercentDecode};
pub use mime::{TiiAcceptMimeType, TiiAcceptQualityMimeType, TiiMimeGroup, TiiMimeType, TiiQValue};
pub use request::{parse_raw_query, parse_status_line, Cookie, HttpVersion, RequestHead, RequestHeadModel};
pub use status::TiiStatusCode;
pub use text::chars_of;
pub use tii_error::{
    InvalidPathError, RequestHeadParsingError, TiiError, TiiResult, TypeSystemError, UserError,
};
pub use response_body::{ResponseBody, ResponseBodyModel};
pub use response::{Response, ResponseModel};
pub use request_context::{body_framing, BodyFraming, RequestContext, RequestContextModel};
pub use router::{PathRegex, RegexError, RoutingDecisionModel, TiiRouteable, TiiRoutingDecision};
pub use websocket::websocket_handshake;
pub use chunked::{
    chunked_byte, chunked_data, chunked_need, parse_chunk_size, write_chunk, write_last_chunk,
    ChunkedError, ChunkedNeed, ChunkedReadState,
};
pub use response_context::ResponseContext;
pub use default_functions::{
    allowed_methods, default_error_handler, default_fallback, default_method_not_allowed_handler,
    default_not_acceptable_handler, default_not_found_handler, default_unsupported_media_type_handler,
};
pub use router::{apply_route, select_route};
pub use server::{is_websocket_upgrade, keep_alive_requested, prepare_response};
pub use builtin_endpoints::{file_path, find_candidates, path_below, redirect, PathCandidates};
