//! The errors of the library.
use crate::headers::TiiHttpHeaderName;
use crate::method::HttpMethod;
use crate::request::HttpVersion;
use vstd::prelude::*;

verus! {

/// Errors in the head of a request as it arrives from the network.
///
/// The parameters are the types of texts and of raw bytes: `String` and
/// `Vec<u8>` in executable code, `Seq<char>` and `Seq<u8>` in specifications.
#[derive(Debug, Ord, PartialOrd, Eq, PartialEq, Hash)]
pub enum RequestHeadParsingError<S = String, B = Vec<u8>> {
    StatusLineContainsInvalidBytes,
    StatusLineNoCRLF,
    StatusLineNoWhitespace,
    StatusLineTooManyWhitespaces,
    StatusLineTooLong(B),
    InvalidPath(S),
    InvalidPathUrlEncoding(S),
    MethodNotSupportedByHttpVersion(HttpVersion, HttpMethod<S>),
    HeaderLineIsNotUsAscii,
    HeaderLineNoCRLF,
    HeaderNameEmpty,
    HeaderValueMissing,
    HeaderValueEmpty,
    HeaderLineTooLong(B),
    HttpVersionNotSupported(S),
    TransferEncodingNotSupported(S),
    ContentEncodingNotSupported(S),
    InvalidContentLength(S),
    ContentLengthHeaderMissing,
    InvalidQueryString(S),
    /// An error occurred during the WebSocket handshake.
    MissingSecWebSocketKeyHeader,
    /// The web socket frame opcode was invalid.
    InvalidWebSocketOpcode,
    UnexpectedWebSocketOpcode,
    WebSocketClosedDuringPendingMessage,
    WebSocketTextMessageIsNotUtf8(B),
}

impl View for RequestHeadParsingError<String, Vec<u8>> {
    type V = RequestHeadParsingError<Seq<char>, Seq<u8>>;

    open spec fn view(&self) -> RequestHeadParsingError<Seq<char>, Seq<u8>> {
        match self {
            RequestHeadParsingError::StatusLineContainsInvalidBytes => RequestHeadParsingError::StatusLineContainsInvalidBytes,
            RequestHeadParsingError::StatusLineNoCRLF => RequestHeadParsingError::StatusLineNoCRLF,
            RequestHeadParsingError::StatusLineNoWhitespace => RequestHeadParsingError::StatusLineNoWhitespace,
            RequestHeadParsingError::StatusLineTooManyWhitespaces => RequestHeadParsingError::StatusLineTooManyWhitespaces,
            RequestHeadParsingError::StatusLineTooLong(b) => RequestHeadParsingError::StatusLineTooLong(b@),
            RequestHeadParsingError::InvalidPath(s) => RequestHeadParsingError::InvalidPath(s@),
            RequestHeadParsingError::InvalidPathUrlEncoding(s) => RequestHeadParsingError::InvalidPathUrlEncoding(s@),
            RequestHeadParsingError::MethodNotSupportedByHttpVersion(v, m) => RequestHeadParsingError::MethodNotSupportedByHttpVersion(*v, m@),
            RequestHeadParsingError::HeaderLineIsNotUsAscii => RequestHeadParsingError::HeaderLineIsNotUsAscii,
            RequestHeadParsingError::HeaderLineNoCRLF => RequestHeadParsingError::HeaderLineNoCRLF,
            RequestHeadParsingError::HeaderNameEmpty => RequestHeadParsingError::HeaderNameEmpty,
            RequestHeadParsingError::HeaderValueMissing => RequestHeadParsingError::HeaderValueMissing,
            RequestHeadParsingError::HeaderValueEmpty => RequestHeadParsingError::HeaderValueEmpty,
            RequestHeadParsingError::HeaderLineTooLong(b) => RequestHeadParsingError::HeaderLineTooLong(b@),
            RequestHeadParsingError::HttpVersionNotSupported(s) => RequestHeadParsingError::HttpVersionNotSupported(s@),
            RequestHeadParsingError::TransferEncodingNotSupported(s) => RequestHeadParsingError::TransferEncodingNotSupported(s@),
            RequestHeadParsingError::ContentEncodingNotSupported(s) => RequestHeadParsingError::ContentEncodingNotSupported(s@),
            RequestHeadParsingError::InvalidContentLength(s) => RequestHeadParsingError::InvalidContentLength(s@),
            RequestHeadParsingError::ContentLengthHeaderMissing => RequestHeadParsingError::ContentLengthHeaderMissing,
            RequestHeadParsingError::InvalidQueryString(s) => RequestHeadParsingError::InvalidQueryString(s@),
            RequestHeadParsingError::MissingSecWebSocketKeyHeader => RequestHeadParsingError::MissingSecWebSocketKeyHeader,
            RequestHeadParsingError::InvalidWebSocketOpcode => RequestHeadParsingError::InvalidWebSocketOpcode,
            RequestHeadParsingError::UnexpectedWebSocketOpcode => RequestHeadParsingError::UnexpectedWebSocketOpcode,
            RequestHeadParsingError::WebSocketClosedDuringPendingMessage => RequestHeadParsingError::WebSocketClosedDuringPendingMessage,
            RequestHeadParsingError::WebSocketTextMessageIsNotUtf8(b) => RequestHeadParsingError::WebSocketTextMessageIsNotUtf8(b@),
        }
    }
}

/// Errors caused by how the library was used.
#[derive(Debug, Eq, PartialEq, Hash)]
pub enum UserError<S = String> {
    IllegalContentTypeHeaderValueSet(S),
    IllegalAcceptHeaderValueSet(S),
    MultipleAcceptHeaderValuesSet(S, S),
    MultipleContentTypeHeaderValuesSet(S, S),
    ImmutableRequestHeaderModified(TiiHttpHeaderName<S>, S),
    ImmutableRequestHeaderRemoved(TiiHttpHeaderName<S>),
    ImmutableResponseHeaderModified(TiiHttpHeaderName<S>),
    RequestHeadBufferTooSmall(usize),
    HeaderNotSupportedByHttpVersion(HttpVersion),
    BadFilterOrBadEndpointCausedEntityTypeMismatch,
}

impl View for UserError<String> {
    type V = UserError<Seq<char>>;

    open spec fn view(&self) -> UserError<Seq<char>> {
        match self {
            UserError::IllegalContentTypeHeaderValueSet(s) => UserError::IllegalContentTypeHeaderValueSet(s@),
            UserError::IllegalAcceptHeaderValueSet(s) => UserError::IllegalAcceptHeaderValueSet(s@),
            UserError::MultipleAcceptHeaderValuesSet(a, b) => UserError::MultipleAcceptHeaderValuesSet(a@, b@),
            UserError::MultipleContentTypeHeaderValuesSet(a, b) => UserError::MultipleContentTypeHeaderValuesSet(a@, b@),
            UserError::ImmutableRequestHeaderModified(n, s) => UserError::ImmutableRequestHeaderModified(n@, s@),
            UserError::ImmutableRequestHeaderRemoved(n) => UserError::ImmutableRequestHeaderRemoved(n@),
            UserError::ImmutableResponseHeaderModified(n) => UserError::ImmutableResponseHeaderModified(n@),
            UserError::RequestHeadBufferTooSmall(u) => UserError::RequestHeadBufferTooSmall(*u),
            UserError::HeaderNotSupportedByHttpVersion(v) => UserError::HeaderNotSupportedByHttpVersion(*v),
            UserError::BadFilterOrBadEndpointCausedEntityTypeMismatch => UserError::BadFilterOrBadEndpointCausedEntityTypeMismatch,
        }
    }
}

/// Errors in the paths that routes are declared with.
#[derive(Debug, Ord, PartialOrd, Eq, PartialEq, Hash)]
pub enum InvalidPathError<S = String> {
    MorePartsAfterWildcard(S),
    RegexSyntaxError(S, S, S),
    RegexTooBig(S, S, usize),
}

impl View for InvalidPathError<String> {
    type V = InvalidPathError<Seq<char>>;

    open spec fn view(&self) -> InvalidPathError<Seq<char>> {
        match self {
            InvalidPathError::MorePartsAfterWildcard(s) => InvalidPathError::MorePartsAfterWildcard(s@),
            InvalidPathError::RegexSyntaxError(a, b, c) => InvalidPathError::RegexSyntaxError(a@, b@, c@),
            InvalidPathError::RegexTooBig(a, b, u) => InvalidPathError::RegexTooBig(a@, b@, *u),
        }
    }
}

/// Errors that can occur when dynamic types have to be handled.
#[derive(Debug, Ord, PartialOrd, Eq, PartialEq, Hash)]
pub enum TypeSystemError {
    SourceTypeUnknown,
    NoCastToTargetType,
    SourceTypeDoesNotMatch,
    TargetTypeDoesNotMatch,
}

#[verifier::external_type_specification]
#[verifier::external_body]
pub struct ExIoError(std::io::Error);

#[verifier::external_type_specification]
#[verifier::external_body]
pub struct ExIoErrorKind(std::io::ErrorKind);

/// The error type of the library.
#[derive(Debug)]
pub enum TiiError<S = String, B = Vec<u8>> {
    RequestHeadParsing(RequestHeadParsingError<S, B>),
    UserError(UserError<S>),
    InvalidPathError(InvalidPathError<S>),
    IO(std::io::Error),
    TypeSystem(TypeSystemError),
}

/// The model of an error.
pub type TiiErrorModel = TiiError<Seq<char>, Seq<u8>>;

impl View for TiiError<String, Vec<u8>> {
    type V = TiiErrorModel;

    open spec fn view(&self) -> TiiErrorModel {
        match self {
            TiiError::RequestHeadParsing(e) => TiiError::RequestHeadParsing(e@),
            TiiError::UserError(e) => TiiError::UserError(e@),
            TiiError::InvalidPathError(e) => TiiError::InvalidPathError(e@),
            TiiError::IO(e) => TiiError::IO(*e),
            TiiError::TypeSystem(e) => TiiError::TypeSystem(*e),
        }
    }
}

/// The result type of the library.
pub type TiiResult<T> = Result<T, TiiError>;

/// The kind of an IO error, as `std::io::Error::kind` returns it.
pub uninterp spec fn io_error_kind(e: std::io::Error) -> std::io::ErrorKind;

/// Wraps `std::io::Error::new`, which makes an error that carries the message;
/// its `kind()` is the given kind, as the documentation of `new` and `kind` shows.
#[verifier::external_body]
fn io_error_new(kind: std::io::ErrorKind, message: &str) -> (r: std::io::Error)
    ensures
        io_error_kind(r) == kind,
{
    std::io::Error::new(kind, message)
}

/// Wraps `std::io::Error::from` on an error kind, which makes an error whose
/// `kind()` is that kind, as the documentation of this conversion shows.
#[verifier::external_body]
fn io_error_from_kind(kind: std::io::ErrorKind) -> (r: std::io::Error)
    ensures
        io_error_kind(r) == kind,
{
    std::io::Error::from(kind)
}

/// Wraps `std::io::Error::kind`, which returns the kind of the error.
#[verifier::external_body]
fn io_kind(e: &std::io::Error) -> (r: std::io::ErrorKind)
    ensures
        r == io_error_kind(*e),
{
    e.kind()
}

/// The kind `std::io::ErrorKind::InvalidInput`, which verified code cannot
/// name because the kind type is opaque to it.
#[verifier::external_body]
pub(crate) fn invalid_input_kind() -> std::io::ErrorKind {
    std::io::ErrorKind::InvalidInput
}

/// The kind `std::io::ErrorKind::InvalidData`, which verified code cannot
/// name because the kind type is opaque to it.
#[verifier::external_body]
fn invalid_data_kind() -> std::io::ErrorKind {
    std::io::ErrorKind::InvalidData
}

/// The kind `std::io::ErrorKind::Other`, which verified code cannot name
/// because the kind type is opaque to it.
#[verifier::external_body]
fn other_kind() -> std::io::ErrorKind {
    std::io::ErrorKind::Other
}

impl TiiError {
    /// An IO error of the given kind with a message.
    pub fn new_io(kind: std::io::ErrorKind, message: &str) -> (r: TiiError)
        ensures
            r matches TiiError::IO(e) && io_error_kind(e) == kind,
    {
        TiiError::IO(io_error_new(kind, message))
    }

    /// An IO error of the given kind.
    pub fn from_io_kind(kind: std::io::ErrorKind) -> (r: TiiError)
        ensures
            r matches TiiError::IO(e) && io_error_kind(e) == kind,
    {
        TiiError::IO(io_error_from_kind(kind))
    }

    /// The IO error kind of this error: that of the IO error itself, InvalidData
    /// for a request head that could not be parsed, and Other for the rest.
    pub fn kind(&self) -> (r: std::io::ErrorKind)
        ensures
            self matches TiiError::IO(e) ==> r == io_error_kind(*e),
    {
        match self {
            TiiError::IO(io) => io_kind(io),
            TiiError::RequestHeadParsing(_) => invalid_data_kind(),
            _ => other_kind(),
        }
    }
}

} // verus!
