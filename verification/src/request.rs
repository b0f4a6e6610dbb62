//! The head of an HTTP request: its start line, query, headers, accepted and
//! content mime types.
use crate::headers::{
    first_value, header_name_of, headers_not_named, values_named, Headers, TiiHttpHeader,
    TiiHttpHeaderName,
};
use crate::method::{method_of, HttpMethod};
use crate::mime::{
    accept_list_of, accept_views, mime_type_of, AcceptItem, TiiAcceptMimeType,
    TiiAcceptQualityMimeType, TiiMimeType, TiiQValue,
};
use crate::text::{
    ascii_string, chars_eq_str, chars_of, ends_with_str, find_char, has_suffix, index_of,
    is_alnum, lemma_index_of_bounds, split_chars, split_seq, string_from,
    str_eq, string_of, string_of_range, sub_chars, trim_bounds, trim_seq, utf8_string, views_of,
};
use crate::tii_error::{RequestHeadParsingError, TiiError, TiiErrorModel, TiiResult, UserError};
use vstd::prelude::*;

verus! {

broadcast use vstd::string::group_string_axioms;

/// HTTP versions that the library supports.
#[derive(Clone, Debug, Copy, PartialEq, Eq, Hash, Ord, PartialOrd, Structural)]
pub enum HttpVersion {
    /// Earliest http version. Has no concept of request bodies or headers.
    /// Responses are just the body, no headers, no nothing.
    Http09,
    /// First actually usable http version. Has headers, bodies, etc. but notably 1 connection per request and thus no transfer encoding
    Http10,
    /// Most recent 1.X version, has all features.
    Http11,
}

/// The printable name of an http version.
pub open spec fn version_text(v: HttpVersion) -> Seq<char> {
    match v {
        HttpVersion::Http09 => "HTTP/0.9"@,
        HttpVersion::Http10 => "HTTP/1.0"@,
        HttpVersion::Http11 => "HTTP/1.1"@,
    }
}

/// How an http version appears in a status line; empty for HTTP/0.9.
pub open spec fn version_net_text(v: HttpVersion) -> Seq<char> {
    match v {
        HttpVersion::Http09 => ""@,
        HttpVersion::Http10 => "HTTP/1.0"@,
        HttpVersion::Http11 => "HTTP/1.1"@,
    }
}

/// The http version that the version part of a status line names.
pub open spec fn version_of_net(s: Seq<char>) -> Option<HttpVersion> {
    if s == "HTTP/1.0"@ {
        Some(HttpVersion::Http10)
    } else if s == "HTTP/1.1"@ {
        Some(HttpVersion::Http11)
    } else if s == ""@ {
        Some(HttpVersion::Http09)
    } else {
        None
    }
}

/// The http version that a printable name names.
pub open spec fn version_of_text(s: Seq<char>) -> Option<HttpVersion> {
    if s == "HTTP/1.0"@ {
        Some(HttpVersion::Http10)
    } else if s == "HTTP/1.1"@ {
        Some(HttpVersion::Http11)
    } else if s == "HTTP/0.9"@ {
        Some(HttpVersion::Http09)
    } else {
        None
    }
}

impl HttpVersion {
    /// The printable name of the http version.
    pub fn as_str(&self) -> (r: &'static str)
        ensures
            r@ == version_text(*self),
    {
        match self {
            HttpVersion::Http09 => "HTTP/0.9",
            HttpVersion::Http10 => "HTTP/1.0",
            HttpVersion::Http11 => "HTTP/1.1",
        }
    }

    /// How the http version appears in the status line.
    pub fn as_net_str(&self) -> (r: &'static str)
        ensures
            r@ == version_net_text(*self),
    {
        match self {
            HttpVersion::Http09 => "",
            HttpVersion::Http10 => "HTTP/1.0",
            HttpVersion::Http11 => "HTTP/1.1",
        }
    }

    /// Parses the version part of a status line; the empty string is HTTP/0.9.
    /// Returns the input on error.
    pub fn try_from_net_str(value: &str) -> (r: Result<Self, &str>)
        ensures
            r matches Ok(v) ==> version_of_net(value@) == Some(v),
            r matches Err(e) ==> version_of_net(value@) is None && e == value,
    {
        let v = chars_of(value);
        if chars_eq_str(&v, "HTTP/1.0") {
            Ok(HttpVersion::Http10)
        } else if chars_eq_str(&v, "HTTP/1.1") {
            Ok(HttpVersion::Http11)
        } else if chars_eq_str(&v, "") {
            Ok(HttpVersion::Http09)
        } else {
            Err(value)
        }
    }

    /// Parses the printable name of an http version, as `as_str` gives it.
    /// Returns the input on error.
    pub fn try_from_str(value: &str) -> (r: Result<Self, &str>)
        ensures
            r matches Ok(v) ==> version_of_text(value@) == Some(v),
            r matches Err(e) ==> version_of_text(value@) is None && e == value,
    {
        let v = chars_of(value);
        if chars_eq_str(&v, "HTTP/1.0") {
            Ok(HttpVersion::Http10)
        } else if chars_eq_str(&v, "HTTP/1.1") {
            Ok(HttpVersion::Http11)
        } else if chars_eq_str(&v, "HTTP/0.9") {
            Ok(HttpVersion::Http09)
        } else {
            Err(value)
        }
    }
}

/// Reading back the name of a version gives the version, in both notations.
pub proof fn lemma_version_round_trip(v: HttpVersion)
    ensures
        version_of_text(version_text(v)) == Some(v),
        version_of_net(version_net_text(v)) == Some(v),
{
    reveal_strlit("HTTP/1.0");
    reveal_strlit("HTTP/1.1");
    reveal_strlit("HTTP/0.9");
    reveal_strlit("");
    assert("HTTP/1.0"@[7] == '0' && "HTTP/1.1"@[7] == '1' && "HTTP/0.9"@[5] == '0'
        && "HTTP/1.1"@[5] == '1');
    assert(""@.len() == 0 && "HTTP/1.0"@.len() == 8 && "HTTP/1.1"@.len() == 8);
}

// ---------------------------------------------------------------- url decoding

/// The bytes with each "%" that two hexadecimal digits follow replaced by the
/// byte they stand for; every other byte, a "%" among them, stays as it is.
pub open spec fn url_unescaped(b: Seq<u8>) -> Seq<u8>
    decreases b.len(),
{
    if b.len() == 0 {
        seq![]
    } else if b[0] == 0x25 && b.len() >= 3 && crate::percent::hex_digit_value(b[1]) is Some
        && crate::percent::hex_digit_value(b[2]) is Some {
        seq![
            (crate::percent::hex_digit_value(b[1]).unwrap() * 16 + crate::percent::hex_digit_value(
                b[2],
            ).unwrap()) as u8,
        ] + url_unescaped(b.skip(3))
    } else {
        seq![b[0]] + url_unescaped(b.skip(1))
    }
}

/// The text that `urlencoding::decode` gives for a text: the text itself where
/// it holds no "%"; otherwise the UTF-8 text of its unescaped bytes, or None
/// where those bytes are not UTF-8.
pub open spec fn url_decoded(s: Seq<char>) -> Option<Seq<char>> {
    if !s.contains('%') {
        Some(s)
    } else {
        let b = url_unescaped(vstd::utf8::encode_utf8(s));
        if vstd::utf8::valid_utf8(b) {
            Some(vstd::utf8::decode_utf8(b))
        } else {
            None
        }
    }
}

/// Wraps `urlencoding::decode`, which unescapes the text's bytes as
/// `url_decoded` states (its source keeps a "%" that two hexadecimal digits do
/// not follow, returns a text without "%" unchanged, and fails only where the
/// unescaped bytes are not UTF-8).
#[verifier::external_body]
fn url_decode(s: &str) -> (r: Option<String>)
    ensures
        r matches Some(d) ==> url_decoded(s@) == Some(d@),
        r is None ==> url_decoded(s@) is None,
{
    match urlencoding::decode(s) {
        Ok(decoded) => Some(decoded.into_owned()),
        Err(_) => None,
    }
}

// ---------------------------------------------------------------- the status line

/// Bytes that may stand in a status line: ASCII letters and digits and `!#$&'()*+,/:;=?@[]-._~%`,
/// space, CR and LF.
pub open spec fn status_byte_ok(b: u8) -> bool {
    (48 <= b && b <= 57) || (65 <= b && b <= 90) || (97 <= b && b <= 122) || b == 33 || b == 35
        || b == 36 || b == 38 || b == 39 || b == 40 || b == 41 || b == 42 || b == 43 || b == 44
        || b == 47 || b == 58 || b == 59 || b == 61 || b == 63 || b == 64 || b == 91 || b == 93
        || b == 45 || b == 46 || b == 95 || b == 126 || b == 37 || b == 32 || b == 13 || b == 10
}

/// The characters that ASCII bytes stand for.
pub open spec fn ascii_text(b: Seq<u8>) -> Seq<char> {
    Seq::new(b.len(), |i: int| b[i] as char)
}

/// The text of a status line, when all its bytes are permitted.
pub open spec fn status_line_text(b: Seq<u8>) -> Option<Seq<char>> {
    if forall|i: int| 0 <= i < b.len() ==> status_byte_ok(#[trigger] b[i]) {
        Some(ascii_text(b))
    } else {
        None
    }
}

fn check_status_byte(b: u8) -> (r: bool)
    ensures
        r == status_byte_ok(b),
{
    (48 <= b && b <= 57) || (65 <= b && b <= 90) || (97 <= b && b <= 122) || b == 33 || b == 35
        || b == 36 || b == 38 || b == 39 || b == 40 || b == 41 || b == 42 || b == 43 || b == 44
        || b == 47 || b == 58 || b == 59 || b == 61 || b == 63 || b == 64 || b == 91 || b == 93
        || b == 45 || b == 46 || b == 95 || b == 126 || b == 37 || b == 32 || b == 13 || b == 10
}

/// Checks the bytes of a status line and returns its text.
pub fn parse_status_line(start_line_buf: &[u8]) -> (r: Result<String, TiiError>)
    ensures
        r matches Ok(s) ==> status_line_text(start_line_buf@) == Some(s@),
        r matches Err(e) ==> status_line_text(start_line_buf@) is None && e@ == TiiError::<
            Seq<char>,
            Seq<u8>,
        >::RequestHeadParsing(RequestHeadParsingError::StatusLineContainsInvalidBytes),
{
    let mut i: usize = 0;
    while i < start_line_buf.len()
        invariant
            i <= start_line_buf@.len(),
            forall|j: int| 0 <= j < i ==> status_byte_ok(#[trigger] start_line_buf@[j]),
        decreases start_line_buf@.len() - i,
    {
        if !check_status_byte(start_line_buf[i]) {
            return Err(TiiError::RequestHeadParsing(RequestHeadParsingError::StatusLineContainsInvalidBytes));
        }
        i = i + 1;
    }
    Ok(ascii_string(start_line_buf))
}

// ---------------------------------------------------------------- the query

/// Characters that may stand in a query key or value.
pub open spec fn query_char_ok(c: char) -> bool {
    is_alnum(c) || c == '-' || c == '.' || c == '_' || c == '~' || c == '/'
}

pub open spec fn all_query_chars(s: Seq<char>) -> bool {
    forall|i: int| 0 <= i < s.len() ==> query_char_ok(#[trigger] s[i])
}

/// The key and value of one "&" separated part of a query: exactly one "=",
/// permitted characters on both sides, each side url decoded.
pub open spec fn query_pair_of(part: Seq<char>) -> Option<(Seq<char>, Seq<char>)> {
    let i = index_of(part, '=');
    if i < 0 {
        None
    } else {
        let k = part.take(i);
        let v = part.skip(i + 1);
        if index_of(v, '=') >= 0 || !all_query_chars(k) || !all_query_chars(v) {
            None
        } else {
            match (url_decoded(k), url_decoded(v)) {
                (Some(a), Some(b)) => Some((a, b)),
                _ => None,
            }
        }
    }
}

/// The pairs of all parts, in order, if every part gives one.
pub open spec fn query_pairs_of(parts: Seq<Seq<char>>) -> Option<Seq<(Seq<char>, Seq<char>)>>
    decreases parts.len(),
{
    if parts.len() == 0 {
        Some(seq![])
    } else {
        match query_pairs_of(parts.drop_last()) {
            None => None,
            Some(ps) => match query_pair_of(parts.last()) {
                None => None,
                Some(p) => Some(ps.push(p)),
            },
        }
    }
}

/// The query parameters of a raw query string, in order of appearance.
pub open spec fn query_of(raw: Seq<char>) -> Option<Seq<(Seq<char>, Seq<char>)>> {
    if raw.len() == 0 {
        Some(seq![])
    } else {
        query_pairs_of(split_seq(raw, '&'))
    }
}

/// The model of query parameters.
pub open spec fn query_views(q: Seq<(String, String)>) -> Seq<(Seq<char>, Seq<char>)> {
    Seq::new(q.len(), |i: int| (q[i].0@, q[i].1@))
}

fn all_query_chars_in(v: &Vec<char>, from: usize, to: usize) -> (r: bool)
    requires
        from <= to <= v@.len(),
    ensures
        r == all_query_chars(v@.subrange(from as int, to as int)),
{
    let mut i = from;
    while i < to
        invariant
            from <= i <= to <= v@.len(),
            forall|j: int| from <= j < i ==> query_char_ok(#[trigger] v@[j]),
        decreases to - i,
    {
        let c = v[i];
        if !(crate::text::char_is_alnum(c) || c == '-' || c == '.' || c == '_' || c == '~' || c
            == '/') {
            assert(v@.subrange(from as int, to as int)[i - from] == v@[i as int]);
            return false;
        }
        i = i + 1;
    }
    assert forall|j: int| 0 <= j < to - from implies query_char_ok(
        #[trigger] v@.subrange(from as int, to as int)[j],
    ) by {
        assert(v@.subrange(from as int, to as int)[j] == v@[from + j]);
    }
    true
}

fn parse_query_pair(part: &Vec<char>) -> (r: Option<(String, String)>)
    ensures
        r matches Some(p) ==> query_pair_of(part@) == Some((p.0@, p.1@)),
        r is None ==> query_pair_of(part@) is None,
{
    let n = part.len();
    let i = match find_char(part, '=', 0) {
        Some(i) => i,
        None => {
            proof {
                assert(part@.skip(0) =~= part@);
            }
            return None;
        },
    };
    proof {
        assert(part@.skip(0) =~= part@);
        assert(part@.skip(i + 1) =~= part@.subrange(i + 1, n as int));
        assert(part@.take(i as int) =~= part@.subrange(0, i as int));
    }
    match find_char(part, '=', i + 1) {
        Some(_) => {
            return None;
        },
        None => {},
    }
    if !all_query_chars_in(part, 0, i) || !all_query_chars_in(part, i + 1, n) {
        return None;
    }
    let k = string_of_range(part, 0, i);
    let v = string_of_range(part, i + 1, n);
    let a = url_decode(k.as_str());
    let b = url_decode(v.as_str());
    match (a, b) {
        (Some(a), Some(b)) => Some((a, b)),
        _ => None,
    }
}

proof fn lemma_query_pairs_none(parts: Seq<Seq<char>>, k: int)
    requires
        0 <= k <= parts.len(),
        query_pairs_of(parts.take(k)) is None,
    ensures
        query_pairs_of(parts) is None,
    decreases parts.len() - k,
{
    if k < parts.len() {
        assert(parts.take(k + 1).drop_last() =~= parts.take(k));
        lemma_query_pairs_none(parts, k + 1);
    } else {
        assert(parts.take(k) =~= parts);
    }
}

/// Parses a raw query string into key value pairs in order of appearance.
pub fn parse_raw_query(raw_query: &Vec<char>) -> (r: Result<Vec<(String, String)>, TiiError>)
    ensures
        r matches Ok(q) ==> query_of(raw_query@) == Some(query_views(q@)),
        r matches Err(e) ==> query_of(raw_query@) is None && e@ == TiiError::<
            Seq<char>,
            Seq<u8>,
        >::RequestHeadParsing(RequestHeadParsingError::InvalidQueryString(raw_query@)),
{
    let mut query: Vec<(String, String)> = Vec::new();
    if raw_query.len() == 0 {
        assert(query_views(query@) =~= seq![]);
        return Ok(query);
    }
    let parts = split_chars(raw_query, '&');
    let ghost ps = views_of(parts@);
    let mut i: usize = 0;
    while i < parts.len()
        invariant
            i <= parts@.len(),
            ps == views_of(parts@),
            ps == split_seq(raw_query@, '&'),
            raw_query@.len() > 0,
            query_pairs_of(ps.take(i as int)) == Some(query_views(query@)),
        decreases parts@.len() - i,
    {
        let ghost before = query@;
        assert(ps.take(i + 1).drop_last() =~= ps.take(i as int));
        assert(ps.take(i + 1).last() == parts@[i as int]@);
        match parse_query_pair(&parts[i]) {
            None => {
                proof {
                    lemma_query_pairs_none(ps, i + 1);
                }
                return Err(
                    TiiError::RequestHeadParsing(
                        RequestHeadParsingError::InvalidQueryString(string_of(raw_query)),
                    ),
                );
            },
            Some(p) => {
                let ghost pv = (p.0@, p.1@);
                query.push(p);
                assert(query_views(query@) =~= query_views(before).push(pv));
            },
        }
        i = i + 1;
    }
    assert(ps.take(parts@.len() as int) =~= ps);
    Ok(query)
}

// ---------------------------------------------------------------- the start line

/// What the start line of a request gives.
pub struct StartLine {
    pub method: HttpMethod<Seq<char>>,
    pub version: HttpVersion,
    pub status_line: Seq<char>,
    pub path: Seq<char>,
    pub query: Seq<(Seq<char>, Seq<char>)>,
}

/// The part of a request target before the first "?".
pub open spec fn raw_path_of(uri: Seq<char>) -> Seq<char> {
    let qi = index_of(uri, '?');
    if qi >= 0 {
        uri.take(qi)
    } else {
        uri
    }
}

/// The part of a request target after the first "?", or the empty text.
pub open spec fn raw_query_of(uri: Seq<char>) -> Seq<char> {
    let qi = index_of(uri, '?');
    if qi >= 0 {
        uri.skip(qi + 1)
    } else {
        Seq::empty()
    }
}

/// The start line of a request, read from its bytes (CR LF included), or the error that it gives.
pub open spec fn start_line_of(start: Seq<u8>) -> Result<StartLine, RequestHeadParsingError<Seq<char>, Seq<u8>>> {
    match status_line_text(start) {
        None => Err(RequestHeadParsingError::StatusLineContainsInvalidBytes),
        Some(s) => if !has_suffix(s, "\r\n"@) {
            Err(RequestHeadParsingError::StatusLineNoCRLF)
        } else {
            let line = s.take(s.len() - 2);
            let parts = split_seq(line, ' ');
            let method = method_of(parts[0]);
            if parts.len() < 2 {
                Err(RequestHeadParsingError::StatusLineNoWhitespace)
            } else {
                let uri = parts[1];
                let version = if parts.len() < 3 {
                    Some(HttpVersion::Http09)
                } else {
                    version_of_net(parts[2])
                };
                if version is None {
                    Err(RequestHeadParsingError::HttpVersionNotSupported(parts[2]))
                } else if parts.len() > 3 {
                    Err(RequestHeadParsingError::StatusLineTooManyWhitespaces)
                } else {
                    match url_decoded(raw_path_of(uri)) {
                        None => Err(RequestHeadParsingError::InvalidPathUrlEncoding(raw_path_of(uri))),
                        Some(path) => match query_of(raw_query_of(uri)) {
                            None => Err(RequestHeadParsingError::InvalidQueryString(raw_query_of(uri))),
                            Some(query) => if version == Some(HttpVersion::Http09) && method
                                != HttpMethod::<Seq<char>>::Get {
                                Err(
                                    RequestHeadParsingError::MethodNotSupportedByHttpVersion(
                                        HttpVersion::Http09,
                                        method,
                                    ),
                                )
                            } else {
                                Ok(
                                    StartLine {
                                        method,
                                        version: version.unwrap(),
                                        status_line: line,
                                        path,
                                        query,
                                    },
                                )
                            },
                        },
                    }
                }
            }
        },
    }
}

// ---------------------------------------------------------------- header lines

/// What one header line gives.
pub enum HeaderLine {
    /// The empty line that ends the head.
    End,
    Header(TiiHttpHeader<Seq<char>>),
    Error(RequestHeadParsingError<Seq<char>, Seq<u8>>),
}

/// Does ": " start at index `j` of `s`?
pub open spec fn colon_space_at(s: Seq<char>, j: int) -> bool {
    s[j] == ':' && s[j + 1] == ' '
}

/// Index of the first ": " in `s`, or -1.
pub open spec fn index_of_colon_space(s: Seq<char>) -> int
    decreases s.len(),
{
    if s.len() < 2 {
        -1
    } else if s[0] == ':' && s[1] == ' ' {
        0
    } else {
        let r = index_of_colon_space(s.drop_first());
        if r < 0 {
            -1
        } else {
            r + 1
        }
    }
}

proof fn lemma_index_of_colon_space(s: Seq<char>, i: int)
    requires
        (0 <= i < s.len() - 1 && colon_space_at(s, i) && forall|j: int|
            0 <= j < i ==> !#[trigger] colon_space_at(s, j)) || (i == -1 && forall|j: int|
            0 <= j < s.len() - 1 ==> !#[trigger] colon_space_at(s, j)),
    ensures
        index_of_colon_space(s) == i,
    decreases s.len(),
{
    if s.len() >= 2 && s[0] == ':' && s[1] == ' ' {
        assert(colon_space_at(s, 0));
    }
    if s.len() >= 2 && !(s[0] == ':' && s[1] == ' ') {
        assert(!colon_space_at(s, 0));
        let t = s.drop_first();
        if i == -1 {
            assert forall|j: int| 0 <= j < t.len() - 1 implies !#[trigger] colon_space_at(t, j) by {
                assert(t[j] == s[j + 1] && t[j + 1] == s[j + 2]);
                assert(!colon_space_at(s, j + 1));
            }
            lemma_index_of_colon_space(t, -1);
        } else {
            assert forall|j: int| 0 <= j < i - 1 implies !#[trigger] colon_space_at(t, j) by {
                assert(t[j] == s[j + 1] && t[j + 1] == s[j + 2]);
                assert(!colon_space_at(s, j + 1));
            }
            lemma_index_of_colon_space(t, i - 1);
        }
    }
}

/// What a header line gives: its bytes must be UTF-8 and end in CR LF, and the
/// name before the first ": " and the value after it are trimmed and must not be empty.
pub open spec fn header_line_of(line: Seq<u8>) -> HeaderLine {
    if !vstd::utf8::valid_utf8(line) {
        HeaderLine::Error(RequestHeadParsingError::HeaderLineIsNotUsAscii)
    } else {
        let s = vstd::utf8::decode_utf8(line);
        if s == "\r\n"@ {
            HeaderLine::End
        } else if !has_suffix(s, "\r\n"@) {
            HeaderLine::Error(RequestHeadParsingError::HeaderLineNoCRLF)
        } else {
            let l = s.take(s.len() - 2);
            let k = index_of_colon_space(l);
            let name = trim_seq(
                if k >= 0 {
                    l.take(k)
                } else {
                    l
                },
            );
            if name.len() == 0 {
                HeaderLine::Error(RequestHeadParsingError::HeaderNameEmpty)
            } else if k < 0 {
                HeaderLine::Error(RequestHeadParsingError::HeaderValueMissing)
            } else {
                let value = trim_seq(l.skip(k + 2));
                if value.len() == 0 {
                    HeaderLine::Error(RequestHeadParsingError::HeaderValueEmpty)
                } else {
                    HeaderLine::Header(TiiHttpHeader { name: header_name_of(name), value })
                }
            }
        }
    }
}

/// The headers that the header lines give, read up to the empty line, or the first error.
pub open spec fn headers_from(lines: Seq<Seq<u8>>) -> Result<Seq<TiiHttpHeader<Seq<char>>>, RequestHeadParsingError<Seq<char>, Seq<u8>>>
    decreases lines.len(),
{
    if lines.len() == 0 {
        Ok(seq![])
    } else {
        match header_line_of(lines[0]) {
            HeaderLine::End => Ok(seq![]),
            HeaderLine::Error(e) => Err(e),
            HeaderLine::Header(h) => match headers_from(lines.drop_first()) {
                Ok(rest) => Ok(seq![h] + rest),
                Err(e) => Err(e),
            },
        }
    }
}

/// The accepted mime types that the headers give: the Accept header (or "*/*"),
/// or "*/*" when it does not parse.
pub open spec fn accept_of_headers(hs: Seq<TiiHttpHeader<Seq<char>>>) -> Seq<AcceptItem> {
    let raw = match first_value(hs, TiiHttpHeaderName::Accept) {
        Some(v) => v,
        None => "*/*"@,
    };
    match accept_list_of(raw) {
        Some(l) => l,
        None => seq![(TiiAcceptMimeType::Wildcard, 1000u16)],
    }
}

/// The content type that the Content-Type header gives: None without the header,
/// application/octet-stream when it does not parse.
pub open spec fn content_type_of_headers(hs: Seq<TiiHttpHeader<Seq<char>>>) -> Option<TiiMimeType<Seq<char>>> {
    match first_value(hs, TiiHttpHeaderName::ContentType) {
        None => None,
        Some(raw) => Some(
            match mime_type_of(split_seq(raw, ';')[0]) {
                Some(m) => m,
                None => TiiMimeType::ApplicationOctetStream,
            },
        ),
    }
}

/// Reads one header line.
fn read_header_line(line: &Vec<u8>) -> (r: HeaderLineResult)
    ensures
        match header_line_of(line@) {
            HeaderLine::End => r is End,
            HeaderLine::Error(e) => r matches HeaderLineResult::Error(x) && x@ == e,
            HeaderLine::Header(h) => r matches HeaderLineResult::Header(x) && x@ == h,
        },
{
    let s = match utf8_string(line.clone()) {
        Some(s) => s,
        None => {
            return HeaderLineResult::Error(RequestHeadParsingError::HeaderLineIsNotUsAscii);
        },
    };
    let v = chars_of(s.as_str());
    if chars_eq_str(&v, "\r\n") {
        return HeaderLineResult::End;
    }
    if !ends_with_str(&v, "\r\n") {
        return HeaderLineResult::Error(RequestHeadParsingError::HeaderLineNoCRLF);
    }
    proof {
        reveal_strlit("\r\n");
    }
    let n = v.len() - 2;
    let ghost l = v@.take(n as int);
    let mut k: usize = 0;
    let mut found = false;
    while n > 0 && k < n - 1
        invariant
            n + 2 == v@.len(),
            k <= n,
            found ==> k + 1 < n && colon_space_at(v@, k as int),
            forall|j: int| 0 <= j < k && j + 1 < n ==> !#[trigger] colon_space_at(v@, j),
        ensures
            n + 2 == v@.len(),
            k <= n,
            found ==> k + 1 < n && colon_space_at(v@, k as int),
            forall|j: int| 0 <= j < k && j + 1 < n ==> !#[trigger] colon_space_at(v@, j),
            found || n == 0 || k >= n - 1,
        decreases n - k,
    {
        if v[k] == ':' && v[k + 1] == ' ' {
            found = true;
            break;
        }
        assert(!colon_space_at(v@, k as int));
        k = k + 1;
    }
    proof {
        if found {
            assert forall|j: int| 0 <= j < k implies !#[trigger] colon_space_at(l, j) by {
                assert(l[j] == v@[j] && l[j + 1] == v@[j + 1]);
                assert(!colon_space_at(v@, j));
            }
            lemma_index_of_colon_space(l, k as int);
        } else {
            assert forall|j: int| 0 <= j < l.len() - 1 implies !#[trigger] colon_space_at(l, j) by {
                assert(l[j] == v@[j] && l[j + 1] == v@[j + 1]);
                assert(!colon_space_at(v@, j));
            }
            lemma_index_of_colon_space(l, -1);
        }
    }
    let name_end = if found {
        k
    } else {
        n
    };
    let (a, b) = trim_bounds(&v, 0, name_end);
    proof {
        if found {
            assert(v@.subrange(0, name_end as int) =~= l.take(k as int));
        } else {
            assert(v@.subrange(0, name_end as int) =~= l);
        }
    }
    if a == b {
        return HeaderLineResult::Error(RequestHeadParsingError::HeaderNameEmpty);
    }
    if !found {
        return HeaderLineResult::Error(RequestHeadParsingError::HeaderValueMissing);
    }
    let (c, d) = trim_bounds(&v, k + 2, n);
    proof {
        assert(v@.subrange(k + 2, n as int) =~= l.skip(k + 2));
    }
    if c == d {
        return HeaderLineResult::Error(RequestHeadParsingError::HeaderValueEmpty);
    }
    let name = string_of_range(&v, a, b);
    let value = string_of_range(&v, c, d);
    let h = TiiHttpHeader { name: TiiHttpHeaderName::from_name(name.as_str()), value };
    HeaderLineResult::Header(h)
}

/// What reading one header line gives.
pub enum HeaderLineResult {
    End,
    Header(TiiHttpHeader),
    Error(RequestHeadParsingError),
}

/// Reads the header lines up to the empty line.
fn read_headers(lines: &Vec<Vec<u8>>) -> (r: Result<Headers, RequestHeadParsingError>)
    ensures
        r matches Ok(h) ==> headers_from(lines@.map_values(|l: Vec<u8>| l@)) == Ok::<
            Seq<TiiHttpHeader<Seq<char>>>,
            RequestHeadParsingError<Seq<char>, Seq<u8>>,
        >(h@),
        r matches Err(e) ==> headers_from(lines@.map_values(|l: Vec<u8>| l@)) == Err::<
            Seq<TiiHttpHeader<Seq<char>>>,
            RequestHeadParsingError<Seq<char>, Seq<u8>>,
        >(e@),
{
    let ghost ls = lines@.map_values(|l: Vec<u8>| l@);
    let mut headers = Headers::new();
    let mut i: usize = 0;
    proof {
        assert(ls.skip(0) =~= ls);
        match headers_from(ls) {
            Ok(rest) => {
                assert(headers@ + rest =~= rest);
            },
            Err(_) => {},
        }
    }
    while i < lines.len()
        invariant
            i <= lines@.len(),
            ls == lines@.map_values(|l: Vec<u8>| l@),
            headers_from(ls) == (match headers_from(ls.skip(i as int)) {
                Ok(rest) => Ok(headers@ + rest),
                Err(e) => Err(e),
            }),
        decreases lines@.len() - i,
    {
        let ghost rest = ls.skip(i as int);
        assert(rest[0] == lines@[i as int]@);
        assert(rest.drop_first() =~= ls.skip(i + 1));
        match read_header_line(&lines[i]) {
            HeaderLineResult::End => {
                assert(headers@ + seq![] =~= headers@);
                return Ok(headers);
            },
            HeaderLineResult::Error(e) => {
                return Err(e);
            },
            HeaderLineResult::Header(h) => {
                let ghost before = headers@;
                let ghost hv = h@;
                headers.push(h);
                proof {
                    match headers_from(ls.skip(i + 1)) {
                        Ok(r2) => {
                            assert(before + (seq![hv] + r2) =~= headers@ + r2);
                        },
                        Err(_) => {},
                    }
                }
            },
        }
        i = i + 1;
    }
    assert(ls.skip(lines@.len() as int) =~= Seq::<Seq<u8>>::empty());
    assert(headers@ + seq![] =~= headers@);
    Ok(headers)
}

// ---------------------------------------------------------------- cookies

/// A cookie that a request carries.
#[derive(Clone, Debug, PartialEq, Eq)]
pub struct Cookie<S = String> {
    /// The name of the cookie.
    pub name: S,
    /// The value of the cookie.
    pub value: S,
}

impl View for Cookie<String> {
    type V = Cookie<Seq<char>>;

    open spec fn view(&self) -> Cookie<Seq<char>> {
        Cookie { name: self.name@, value: self.value@ }
    }
}

impl Cookie {
    /// A cookie with the given name and value.
    pub fn new(name: &str, value: &str) -> (r: Cookie)
        ensures
            r@ == (Cookie { name: name@, value: value@ }),
    {
        Cookie { name: string_from(name), value: string_from(value) }
    }
}

/// The cookie of one ";" separated part of a Cookie header: the trimmed texts
/// before and after the first "=", if there is one.
pub open spec fn cookie_of(piece: Seq<char>) -> Option<Cookie<Seq<char>>> {
    let i = index_of(piece, '=');
    if i < 0 {
        None
    } else {
        Some(Cookie { name: trim_seq(piece.take(i)), value: trim_seq(piece.skip(i + 1)) })
    }
}

/// The cookies of all parts that give one, in order.
pub open spec fn cookies_of(pieces: Seq<Seq<char>>) -> Seq<Cookie<Seq<char>>>
    decreases pieces.len(),
{
    if pieces.len() == 0 {
        seq![]
    } else {
        match cookie_of(pieces.last()) {
            Some(c) => cookies_of(pieces.drop_last()).push(c),
            None => cookies_of(pieces.drop_last()),
        }
    }
}

/// The cookies of the headers: those of the first Cookie header.
pub open spec fn cookies_of_headers(hs: Seq<TiiHttpHeader<Seq<char>>>) -> Seq<Cookie<Seq<char>>> {
    match first_value(hs, TiiHttpHeaderName::Cookie) {
        Some(raw) => cookies_of(split_seq(raw, ';')),
        None => seq![],
    }
}

/// The first cookie with the given name.
pub open spec fn first_cookie_named(cs: Seq<Cookie<Seq<char>>>, name: Seq<char>) -> Option<Cookie<Seq<char>>>
    decreases cs.len(),
{
    if cs.len() == 0 {
        None
    } else if cs[0].name == name {
        Some(cs[0])
    } else {
        first_cookie_named(cs.drop_first(), name)
    }
}

// ---------------------------------------------------------------- the request head

/// The model of a request head.
pub struct RequestHeadModel {
    pub method: HttpMethod<Seq<char>>,
    pub version: HttpVersion,
    pub status_line: Seq<char>,
    pub path: Seq<char>,
    pub query: Seq<(Seq<char>, Seq<char>)>,
    pub accept: Seq<AcceptItem>,
    pub content_type: Option<TiiMimeType<Seq<char>>>,
    pub headers: Seq<TiiHttpHeader<Seq<char>>>,
}

/// The request head that a start line and the header lines after it give, or the error.
/// Header lines are not read for HTTP/0.9, which has none.
pub open spec fn request_head_of(start: Seq<u8>, lines: Seq<Seq<u8>>) -> Result<RequestHeadModel, TiiErrorModel> {
    match start_line_of(start) {
        Err(e) => Err(TiiError::RequestHeadParsing(e)),
        Ok(sl) => if sl.version == HttpVersion::Http09 {
            Ok(
                RequestHeadModel {
                    method: sl.method,
                    version: sl.version,
                    status_line: sl.status_line,
                    path: sl.path,
                    query: sl.query,
                    accept: seq![
                        (TiiAcceptMimeType::Specific(TiiMimeType::TextHtml), 1000u16),
                    ],
                    content_type: None,
                    headers: seq![],
                },
            )
        } else {
            match headers_from(lines) {
                Err(e) => Err(TiiError::RequestHeadParsing(e)),
                Ok(hs) => Ok(
                    RequestHeadModel {
                        method: sl.method,
                        version: sl.version,
                        status_line: sl.status_line,
                        path: sl.path,
                        query: sl.query,
                        accept: accept_of_headers(hs),
                        content_type: content_type_of_headers(hs),
                        headers: hs,
                    },
                ),
            }
        },
    }
}

/// The views of byte lines.
pub open spec fn line_views(lines: Seq<Vec<u8>>) -> Seq<Seq<u8>> {
    Seq::new(lines.len(), |i: int| lines[i]@)
}

/// What the start line of a request holds.
struct ParsedStartLine {
    method: HttpMethod,
    version: HttpVersion,
    status_line: String,
    path: String,
    query: Vec<(String, String)>,
}

proof fn lemma_split_nonempty(s: Seq<char>, c: char)
    ensures
        split_seq(s, c).len() >= 1,
{
    lemma_index_of_bounds(s, c);
}

/// Reads the start line of a request.
fn parse_start_line(start_line: &[u8]) -> (r: Result<ParsedStartLine, TiiError>)
    ensures
        r matches Ok(p) ==> start_line_of(start_line@) == Ok::<
            StartLine,
            RequestHeadParsingError<Seq<char>, Seq<u8>>,
        >(
            StartLine {
                method: p.method@,
                version: p.version,
                status_line: p.status_line@,
                path: p.path@,
                query: query_views(p.query@),
            },
        ),
        r matches Err(e) ==> start_line_of(start_line@) matches Err(x) && e@ == TiiError::<
            Seq<char>,
            Seq<u8>,
        >::RequestHeadParsing(x),
{
    let text = match parse_status_line(start_line) {
        Ok(t) => t,
        Err(e) => {
            return Err(e);
        },
    };
    let v = chars_of(text.as_str());
    if !ends_with_str(&v, "\r\n") {
        return Err(TiiError::RequestHeadParsing(RequestHeadParsingError::StatusLineNoCRLF));
    }
    proof {
        reveal_strlit("\r\n");
    }
    let line = sub_chars(&v, 0, v.len() - 2);
    assert(line@ =~= v@.take(v@.len() - 2));
    let parts = split_chars(&line, ' ');
    proof {
        lemma_split_nonempty(line@, ' ');
        assert(parts@[0]@ == split_seq(line@, ' ')[0]);
    }
    let first = string_of(&parts[0]);
    let method = HttpMethod::from(first.as_str());
    if parts.len() < 2 {
        return Err(TiiError::RequestHeadParsing(RequestHeadParsingError::StatusLineNoWhitespace));
    }
    assert(parts@[1]@ == split_seq(line@, ' ')[1]);
    let version = if parts.len() < 3 {
        HttpVersion::Http09
    } else {
        assert(parts@[2]@ == split_seq(line@, ' ')[2]);
        let vtext = string_of(&parts[2]);
        match HttpVersion::try_from_net_str(vtext.as_str()) {
            Ok(v) => v,
            Err(_) => {
                return Err(
                    TiiError::RequestHeadParsing(
                        RequestHeadParsingError::HttpVersionNotSupported(string_of(&parts[2])),
                    ),
                );
            },
        }
    };
    if parts.len() > 3 {
        return Err(
            TiiError::RequestHeadParsing(RequestHeadParsingError::StatusLineTooManyWhitespaces),
        );
    }
    let uri = &parts[1];
    let ulen = uri.len();
    let (raw_path, raw_query) = match find_char(uri, '?', 0) {
        Some(qi) => {
            proof {
                assert(uri@.skip(0) =~= uri@);
            }
            let p = sub_chars(uri, 0, qi);
            let q = sub_chars(uri, qi + 1, ulen);
            assert(p@ =~= raw_path_of(uri@));
            assert(q@ =~= raw_query_of(uri@));
            (p, q)
        },
        None => {
            proof {
                assert(uri@.skip(0) =~= uri@);
            }
            let p = sub_chars(uri, 0, uri.len());
            let q: Vec<char> = Vec::new();
            assert(p@ =~= raw_path_of(uri@));
            assert(q@ =~= raw_query_of(uri@));
            (p, q)
        },
    };
    let raw_path_text = string_of(&raw_path);
    let path = match url_decode(raw_path_text.as_str()) {
        Some(p) => p,
        None => {
            return Err(
                TiiError::RequestHeadParsing(
                    RequestHeadParsingError::InvalidPathUrlEncoding(string_of(&raw_path)),
                ),
            );
        },
    };
    let query = match parse_raw_query(&raw_query) {
        Ok(q) => q,
        Err(e) => {
            return Err(e);
        },
    };
    if version == HttpVersion::Http09 && !matches!(method, HttpMethod::Get) {
        return Err(
            TiiError::RequestHeadParsing(
                RequestHeadParsingError::MethodNotSupportedByHttpVersion(HttpVersion::Http09, method),
            ),
        );
    }
    Ok(ParsedStartLine { method, version, status_line: string_of(&line), path, query })
}

/// Represents the head of a request to the server: its start line and headers,
/// with the accepted mime types and the content type read from them.
#[derive(Clone, Debug)]
pub struct RequestHead {
    method: HttpMethod,
    version: HttpVersion,
    status_line: String,
    path: String,
    query: Vec<(String, String)>,
    accept: Vec<TiiAcceptQualityMimeType>,
    content_type: Option<TiiMimeType>,
    headers: Headers,
}

/// The model of an optional mime type.
pub open spec fn option_mime_view(m: Option<TiiMimeType>) -> Option<TiiMimeType<Seq<char>>> {
    match m {
        Some(x) => Some(x@),
        None => None,
    }
}

impl View for RequestHead {
    type V = RequestHeadModel;

    closed spec fn view(&self) -> RequestHeadModel {
        RequestHeadModel {
            method: self.method@,
            version: self.version,
            status_line: self.status_line@,
            path: self.path@,
            query: query_views(self.query@),
            accept: accept_views(self.accept@),
            content_type: option_mime_view(self.content_type),
            headers: self.headers@,
        }
    }
}

/// The first value of a query parameter with the given key.
pub open spec fn first_query_value(q: Seq<(Seq<char>, Seq<char>)>, key: Seq<char>) -> Option<Seq<char>>
    decreases q.len(),
{
    if q.len() == 0 {
        None
    } else if q[0].0 == key {
        Some(q[0].1)
    } else {
        first_query_value(q.drop_first(), key)
    }
}

/// All values of query parameters with the given key, in order.
pub open spec fn query_values(q: Seq<(Seq<char>, Seq<char>)>, key: Seq<char>) -> Seq<Seq<char>>
    decreases q.len(),
{
    if q.len() == 0 {
        seq![]
    } else if q.last().0 == key {
        query_values(q.drop_last(), key).push(q.last().1)
    } else {
        query_values(q.drop_last(), key)
    }
}

/// The headers with the header named `n` set to the single value `v`.
pub open spec fn headers_set(hs: Seq<TiiHttpHeader<Seq<char>>>, n: TiiHttpHeaderName<Seq<char>>, v: Seq<char>) -> Seq<TiiHttpHeader<Seq<char>>> {
    headers_not_named(hs, n).push(TiiHttpHeader { name: n, value: v })
}

/// What setting a request header does: the new head, or the error (the head then stays as it is).
pub open spec fn request_set_header(h: RequestHeadModel, name: Seq<char>, value: Seq<char>) -> Result<RequestHeadModel, TiiErrorModel> {
    let n = header_name_of(name);
    if n == TiiHttpHeaderName::<Seq<char>>::Accept {
        match accept_list_of(value) {
            Some(l) => Ok(RequestHeadModel { accept: l, headers: headers_set(h.headers, n, value), ..h }),
            None => Err(TiiError::UserError(UserError::IllegalAcceptHeaderValueSet(value))),
        }
    } else if n == TiiHttpHeaderName::<Seq<char>>::ContentType {
        match mime_type_of(value) {
            Some(m) => Ok(
                RequestHeadModel { content_type: Some(m), headers: headers_set(h.headers, n, value), ..h },
            ),
            None => Err(TiiError::UserError(UserError::IllegalContentTypeHeaderValueSet(value))),
        }
    } else if n == TiiHttpHeaderName::<Seq<char>>::TransferEncoding || n
        == TiiHttpHeaderName::<Seq<char>>::ContentLength {
        Err(TiiError::UserError(UserError::ImmutableRequestHeaderModified(n, value)))
    } else {
        Ok(RequestHeadModel { headers: headers_set(h.headers, n, value), ..h })
    }
}

/// What adding a request header does: the new head, or the error (the head then stays as it is).
pub open spec fn request_add_header(h: RequestHeadModel, name: Seq<char>, value: Seq<char>) -> Result<RequestHeadModel, TiiErrorModel> {
    let n = header_name_of(name);
    let added = h.headers.push(TiiHttpHeader { name: n, value });
    if n == TiiHttpHeaderName::<Seq<char>>::Accept {
        match accept_list_of(value) {
            Some(l) => match first_value(h.headers, n) {
                Some(old) => Err(TiiError::UserError(UserError::MultipleAcceptHeaderValuesSet(old, value))),
                None => Ok(RequestHeadModel { accept: l, headers: added, ..h }),
            },
            None => Err(TiiError::UserError(UserError::IllegalAcceptHeaderValueSet(value))),
        }
    } else if n == TiiHttpHeaderName::<Seq<char>>::ContentType {
        match mime_type_of(value) {
            Some(m) => match first_value(h.headers, n) {
                Some(old) => Err(
                    TiiError::UserError(UserError::MultipleContentTypeHeaderValuesSet(old, value)),
                ),
                None => Ok(RequestHeadModel { content_type: Some(m), headers: added, ..h }),
            },
            None => Err(TiiError::UserError(UserError::IllegalContentTypeHeaderValueSet(value))),
        }
    } else if n == TiiHttpHeaderName::<Seq<char>>::TransferEncoding || n
        == TiiHttpHeaderName::<Seq<char>>::ContentLength {
        Err(TiiError::UserError(UserError::ImmutableRequestHeaderModified(n, value)))
    } else {
        Ok(RequestHeadModel { headers: added, ..h })
    }
}

/// What removing a request header does: the new head, or the error (the head then stays as it is).
/// Every header of the name goes; removing Accept also resets the accepted types to "*/*".
pub open spec fn request_remove_header(h: RequestHeadModel, name: Seq<char>) -> Result<RequestHeadModel, TiiErrorModel> {
    let n = header_name_of(name);
    if n == TiiHttpHeaderName::<Seq<char>>::Accept {
        Ok(
            RequestHeadModel {
                accept: seq![(TiiAcceptMimeType::Wildcard, 1000u16)],
                headers: headers_not_named(h.headers, n),
                ..h
            },
        )
    } else if n == TiiHttpHeaderName::<Seq<char>>::ContentType {
        Ok(RequestHeadModel { content_type: None, headers: headers_not_named(h.headers, n), ..h })
    } else if n == TiiHttpHeaderName::<Seq<char>>::TransferEncoding || n
        == TiiHttpHeaderName::<Seq<char>>::ContentLength {
        Err(TiiError::UserError(UserError::ImmutableRequestHeaderRemoved(n)))
    } else {
        Ok(RequestHeadModel { headers: headers_not_named(h.headers, n), ..h })
    }
}

impl RequestHead {
    /// Parses the head of a request from its start line (with its CR LF) and the
    /// header lines that follow it (each with its CR LF); lines after the empty
    /// line are ignored, and for HTTP/0.9 no header lines are read.
    pub fn new(start_line: &[u8], header_lines: &Vec<Vec<u8>>) -> (r: TiiResult<RequestHead>)
        ensures
            r matches Ok(h) ==> request_head_of(start_line@, line_views(header_lines@)) == Ok::<
                RequestHeadModel,
                TiiErrorModel,
            >(h@),
            r matches Err(e) ==> request_head_of(start_line@, line_views(header_lines@)) == Err::<
                RequestHeadModel,
                TiiErrorModel,
            >(e@),
    {
        let sl = match parse_start_line(start_line) {
            Ok(sl) => sl,
            Err(e) => {
                return Err(e);
            },
        };
        if sl.version == HttpVersion::Http09 {
            let accept = vec![
                TiiAcceptQualityMimeType::from_mime(TiiMimeType::TextHtml, TiiQValue::default()),
            ];
            let r = RequestHead {
                method: sl.method,
                version: sl.version,
                status_line: sl.status_line,
                path: sl.path,
                query: sl.query,
                accept,
                content_type: None,
                headers: Headers::new(),
            };
            assert(accept_views(r.accept@) =~= seq![
                (TiiAcceptMimeType::Specific(TiiMimeType::TextHtml), 1000u16),
            ]);
            return Ok(r);
        }
        assert(line_views(header_lines@) =~= header_lines@.map_values(|l: Vec<u8>| l@));
        let headers = match read_headers(header_lines) {
            Ok(h) => h,
            Err(e) => {
                return Err(TiiError::RequestHeadParsing(e));
            },
        };
        let accept_raw = match headers.get_named(&TiiHttpHeaderName::Accept) {
            Some(v) => v,
            None => "*/*",
        };
        let accept = match TiiAcceptQualityMimeType::parse(accept_raw) {
            Some(a) => a,
            None => {
                let d = vec![TiiAcceptQualityMimeType::default()];
                assert(accept_views(d@) =~= seq![(TiiAcceptMimeType::Wildcard, 1000u16)]);
                d
            },
        };
        let content_type = match headers.get_named(&TiiHttpHeaderName::ContentType) {
            None => None,
            Some(raw) => match TiiMimeType::parse_from_content_type_header(raw) {
                Some(m) => Some(m),
                None => Some(TiiMimeType::ApplicationOctetStream),
            },
        };
        Ok(
            RequestHead {
                method: sl.method,
                version: sl.version,
                status_line: sl.status_line,
                path: sl.path,
                query: sl.query,
                accept,
                content_type,
                headers,
            },
        )
    }

    /// Do header lines follow this start line? True unless the start line is
    /// invalid or names HTTP/0.9.
    pub fn needs_header_lines(start_line: &[u8]) -> (r: bool)
        ensures
            r == (start_line_of(start_line@) matches Ok(sl) && sl.version != HttpVersion::Http09),
    {
        match parse_start_line(start_line) {
            Ok(sl) => sl.version != HttpVersion::Http09,
            Err(_) => false,
        }
    }

    /// The http version this request was made in.
    pub fn version(&self) -> (r: HttpVersion)
        ensures
            r == self@.version,
    {
        self.version
    }

    /// The status line as is, without its CR LF.
    pub fn raw_status_line(&self) -> (r: &str)
        ensures
            r@ == self@.status_line,
    {
        self.status_line.as_str()
    }

    /// The path the request will be routed to, without url encoding.
    pub fn path(&self) -> (r: &str)
        ensures
            r@ == self@.path,
    {
        self.path.as_str()
    }

    /// Sets the path the request will be routed to.
    pub fn set_path(&mut self, path: &str)
        ensures
            final(self)@ == (RequestHeadModel { path: path@, ..old(self)@ }),
    {
        self.path = string_from(path);
    }

    /// The query parameters, in order of appearance.
    pub fn query(&self) -> (r: &[(String, String)])
        ensures
            query_views(r@) == self@.query,
    {
        self.query.as_slice()
    }

    /// The value of the first query parameter with the given key.
    pub fn get_query_param(&self, key: &str) -> (r: Option<&str>)
        ensures
            r matches Some(v) ==> first_query_value(self@.query, key@) == Some(v@),
            r is None ==> first_query_value(self@.query, key@) is None,
    {
        let mut i: usize = 0;
        assert(self@.query.skip(0) =~= self@.query);
        while i < self.query.len()
            invariant
                i <= self.query@.len(),
                first_query_value(self@.query, key@) == first_query_value(
                    self@.query.skip(i as int),
                    key@,
                ),
            decreases self.query@.len() - i,
        {
            let ghost rest = self@.query.skip(i as int);
            assert(rest[0] == (self.query@[i as int].0@, self.query@[i as int].1@));
            if str_eq(self.query[i].0.as_str(), key) {
                return Some(self.query[i].1.as_str());
            }
            assert(rest.drop_first() =~= self@.query.skip(i + 1));
            i = i + 1;
        }
        None
    }

    /// The values of all query parameters with the given key, in order; empty if there are none.
    pub fn get_query_params(&self, key: &str) -> (r: Vec<&str>)
        ensures
            Seq::new(r@.len(), |i: int| r@[i]@) == query_values(self@.query, key@),
    {
        let mut result: Vec<&str> = Vec::new();
        let mut i: usize = 0;
        while i < self.query.len()
            invariant
                i <= self.query@.len(),
                Seq::new(result@.len(), |k: int| result@[k]@) == query_values(
                    self@.query.take(i as int),
                    key@,
                ),
            decreases self.query@.len() - i,
        {
            let ghost t = self@.query.take(i + 1);
            assert(t.drop_last() =~= self@.query.take(i as int));
            assert(t.last() == (self.query@[i as int].0@, self.query@[i as int].1@));
            if str_eq(self.query[i].0.as_str(), key) {
                let ghost before = result@;
                result.push(self.query[i].1.as_str());
                assert(Seq::new(result@.len(), |k: int| result@[k]@) =~= Seq::new(
                    before.len(),
                    |k: int| before[k]@,
                ).push(self.query@[i as int].1@));
            }
            i = i + 1;
        }
        assert(self@.query.take(self.query@.len() as int) =~= self@.query);
        result
    }

    /// The vector that holds the query parameters, to change them in place.
    pub fn query_mut(&mut self) -> (r: &mut Vec<(String, String)>)
        ensures
            query_views(r@) == old(self)@.query,
            final(self)@ == (RequestHeadModel { query: query_views(final(r)@), ..old(self)@ }),
    {
        &mut self.query
    }

    /// Sets the query parameters.
    pub fn set_query(&mut self, query: Vec<(String, String)>)
        ensures
            final(self)@ == (RequestHeadModel { query: query_views(query@), ..old(self)@ }),
    {
        self.query = query;
    }

    /// The method of the request.
    pub fn method(&self) -> (r: &HttpMethod)
        ensures
            r@ == self@.method,
    {
        &self.method
    }

    /// Changes the method of the request.
    pub fn set_method(&mut self, method: HttpMethod)
        ensures
            final(self)@ == (RequestHeadModel { method: method@, ..old(self)@ }),
    {
        self.method = method;
    }

    /// The cookies of the request, from its first Cookie header.
    pub fn get_cookies(&self) -> (r: Vec<Cookie>)
        ensures
            Seq::new(r@.len(), |i: int| r@[i]@) == cookies_of_headers(self@.headers),
    {
        let mut result: Vec<Cookie> = Vec::new();
        let raw = match self.headers.get_named(&TiiHttpHeaderName::Cookie) {
            Some(raw) => raw,
            None => {
                assert(Seq::new(result@.len(), |i: int| result@[i]@) =~= Seq::<Cookie<Seq<char>>>::empty());
                return result;
            },
        };
        let v = chars_of(raw);
        let pieces = split_chars(&v, ';');
        let ghost ps = views_of(pieces@);
        let mut i: usize = 0;
        while i < pieces.len()
            invariant
                i <= pieces@.len(),
                ps == views_of(pieces@),
                Seq::new(result@.len(), |k: int| result@[k]@) == cookies_of(ps.take(i as int)),
            decreases pieces@.len() - i,
        {
            let ghost t = ps.take(i + 1);
            assert(t.drop_last() =~= ps.take(i as int));
            assert(t.last() == pieces@[i as int]@);
            let piece = &pieces[i];
            match find_char(piece, '=', 0) {
                Some(k) => {
                    proof {
                        assert(piece@.skip(0) =~= piece@);
                    }
                    assert(k < piece@.len());
                    let (a, b) = trim_bounds(piece, 0, k);
                    let (c, d) = trim_bounds(piece, k + 1, piece.len());
                    assert(piece@.subrange(0, k as int) =~= piece@.take(k as int));
                    assert(piece@.subrange(k + 1, piece@.len() as int) =~= piece@.skip(k + 1));
                    let cookie = Cookie { name: string_of_range(piece, a, b), value: string_of_range(piece, c, d) };
                    let ghost before = result@;
                    result.push(cookie);
                    assert(Seq::new(result@.len(), |k: int| result@[k]@) =~= Seq::new(
                        before.len(),
                        |k: int| before[k]@,
                    ).push(cookie@));
                },
                None => {
                    proof {
                        assert(piece@.skip(0) =~= piece@);
                    }
                },
            }
            i = i + 1;
        }
        assert(ps.take(pieces@.len() as int) =~= ps);
        result
    }

    /// The first cookie with the given name.
    pub fn get_cookie(&self, name: &str) -> (r: Option<Cookie>)
        ensures
            r matches Some(c) ==> first_cookie_named(cookies_of_headers(self@.headers), name@) == Some(c@),
            r is None ==> first_cookie_named(cookies_of_headers(self@.headers), name@) is None,
    {
        let cookies = self.get_cookies();
        let ghost cs = Seq::new(cookies@.len(), |k: int| cookies@[k]@);
        let mut i: usize = 0;
        assert(cs.skip(0) =~= cs);
        while i < cookies.len()
            invariant
                i <= cookies@.len(),
                cs == Seq::new(cookies@.len(), |k: int| cookies@[k]@),
                cs == cookies_of_headers(self@.headers),
                first_cookie_named(cs, name@) == first_cookie_named(cs.skip(i as int), name@),
            decreases cookies@.len() - i,
        {
            let ghost rest = cs.skip(i as int);
            assert(rest[0] == cookies@[i as int]@);
            if str_eq(cookies[i].name.as_str(), name) {
                let c = cookies[i].duplicate();
                assert(rest.len() > 0 && rest[0].name == name@);
                assert(first_cookie_named(rest, name@) == Some(rest[0]));
                assert(c@ == rest[0]);
                return Some(c);
            }
            assert(rest.drop_first() =~= cs.skip(i + 1));
            i = i + 1;
        }
        None
    }

    /// Sets the accepted mime types; this also sets the Accept header.
    pub fn set_accept(&mut self, types: Vec<TiiAcceptQualityMimeType>)
        ensures
            final(self)@ == (RequestHeadModel {
                accept: accept_views(types@),
                headers: headers_set(
                    old(self)@.headers,
                    TiiHttpHeaderName::Accept,
                    crate::mime::accept_header_text(accept_views(types@)),
                ),
                ..old(self)@
            }),
    {
        let hdr_value = TiiAcceptQualityMimeType::elements_to_header_value(&types);
        self.headers.set_named(&TiiHttpHeaderName::Accept, hdr_value.as_str());
        self.accept = types;
    }

    /// The content type of the body, if the request has a Content-Type header;
    /// application/octet-stream when the header that arrived did not parse.
    pub fn get_content_type(&self) -> (r: Option<&TiiMimeType>)
        ensures
            r matches Some(m) ==> self@.content_type == Some(m@),
            r is None ==> self@.content_type is None,
    {
        self.content_type.as_ref()
    }

    /// Sets the content type and the Content-Type header.
    pub fn set_content_type(&mut self, content_type: TiiMimeType)
        ensures
            final(self)@ == (RequestHeadModel {
                content_type: Some(content_type@),
                headers: headers_set(
                    old(self)@.headers,
                    TiiHttpHeaderName::ContentType,
                    crate::mime::mime_text(content_type@),
                ),
                ..old(self)@
            }),
    {
        self.headers.set_named(&TiiHttpHeaderName::ContentType, content_type.as_str());
        self.content_type = Some(content_type);
    }

    /// Removes the content type and the Content-Type header.
    pub fn remove_content_type(&mut self)
        ensures
            final(self)@ == (RequestHeadModel {
                content_type: None,
                headers: headers_not_named(old(self)@.headers, TiiHttpHeaderName::ContentType),
                ..old(self)@
            }),
    {
        self.content_type = None;
        self.headers.remove_named(&TiiHttpHeaderName::ContentType);
    }

    /// The accepted mime types, in descending order of quality value for a request from the network.
    pub fn get_accept(&self) -> (r: &[TiiAcceptQualityMimeType])
        ensures
            accept_views(r@) == self@.accept,
    {
        self.accept.as_slice()
    }

    /// An iterator over all headers.
    pub fn get_all_headers(&self) -> (r: std::slice::Iter<'_, TiiHttpHeader>)
        ensures
            Seq::new(
                vstd::std_specs::slice::into_iter_elts(r).len(),
                |i: int| vstd::std_specs::slice::into_iter_elts(r)[i]@,
            ) == self@.headers,
    {
        self.headers.iter()
    }

    /// The value of the first header with the given name.
    pub fn get_header(&self, name: &str) -> (r: Option<&str>)
        ensures
            r matches Some(v) ==> first_value(self@.headers, header_name_of(name@)) == Some(v@),
            r is None ==> first_value(self@.headers, header_name_of(name@)) is None,
    {
        self.headers.get(name)
    }

    /// The value of the first header with the given name.
    pub(crate) fn get_header_named(&self, n: &TiiHttpHeaderName) -> (r: Option<&str>)
        ensures
            r matches Some(v) ==> first_value(self@.headers, n@) == Some(v@),
            r is None ==> first_value(self@.headers, n@) is None,
    {
        self.headers.get_named(n)
    }

    /// The values of all headers with the given name; empty if there are none.
    pub fn get_headers(&self, name: &str) -> (r: Vec<&str>)
        ensures
            Seq::new(r@.len(), |i: int| r@[i]@) == values_named(self@.headers, header_name_of(name@)),
    {
        self.headers.get_all(name)
    }

    /// Removes all instances of a header. Transfer-Encoding and Content-Length cannot be removed;
    /// removing Accept also resets the accepted types to "*/*".
    pub fn remove_header(&mut self, name: &str) -> (r: TiiResult<()>)
        ensures
            match request_remove_header(old(self)@, name@) {
                Ok(m) => r is Ok && final(self)@ == m,
                Err(e) => r matches Err(x) && x@ == e && final(self)@ == old(self)@,
            },
    {
        let hdr = TiiHttpHeaderName::from_name(name);
        match hdr {
            TiiHttpHeaderName::Accept => {
                self.accept = vec![TiiAcceptQualityMimeType::default()];
                self.headers.remove_named(&hdr);
                assert(accept_views(self.accept@) =~= seq![(TiiAcceptMimeType::Wildcard, 1000u16)]);
                Ok(())
            },
            TiiHttpHeaderName::ContentType => {
                self.headers.remove_named(&hdr);
                self.content_type = None;
                Ok(())
            },
            TiiHttpHeaderName::TransferEncoding | TiiHttpHeaderName::ContentLength => {
                Err(TiiError::UserError(UserError::ImmutableRequestHeaderRemoved(hdr)))
            },
            _ => {
                self.headers.remove_named(&hdr);
                Ok(())
            },
        }
    }

    /// Sets the value of a header. Accept and Content-Type values must parse;
    /// Transfer-Encoding and Content-Length cannot be changed.
    pub fn set_header(&mut self, name: &str, value: &str) -> (r: TiiResult<()>)
        ensures
            match request_set_header(old(self)@, name@, value@) {
                Ok(m) => r is Ok && final(self)@ == m,
                Err(e) => r matches Err(x) && x@ == e && final(self)@ == old(self)@,
            },
    {
        let hdr = TiiHttpHeaderName::from_name(name);
        match hdr {
            TiiHttpHeaderName::Accept => {
                match TiiAcceptQualityMimeType::parse(value) {
                    Some(accept) => {
                        self.accept = accept;
                        self.headers.set_named(&hdr, value);
                        Ok(())
                    },
                    None => Err(
                        TiiError::UserError(UserError::IllegalAcceptHeaderValueSet(string_from(value))),
                    ),
                }
            },
            TiiHttpHeaderName::ContentType => {
                match TiiMimeType::parse(value) {
                    Some(mime) => {
                        self.headers.set_named(&hdr, value);
                        self.content_type = Some(mime);
                        Ok(())
                    },
                    None => Err(
                        TiiError::UserError(
                            UserError::IllegalContentTypeHeaderValueSet(string_from(value)),
                        ),
                    ),
                }
            },
            TiiHttpHeaderName::TransferEncoding | TiiHttpHeaderName::ContentLength => {
                Err(
                    TiiError::UserError(
                        UserError::ImmutableRequestHeaderModified(hdr, string_from(value)),
                    ),
                )
            },
            _ => {
                self.headers.set_named(&hdr, value);
                Ok(())
            },
        }
    }

    /// Adds a header value. Accept and Content-Type values must parse and may only be present once;
    /// Transfer-Encoding and Content-Length cannot be changed.
    pub fn add_header(&mut self, name: &str, value: &str) -> (r: TiiResult<()>)
        ensures
            match request_add_header(old(self)@, name@, value@) {
                Ok(m) => r is Ok && final(self)@ == m,
                Err(e) => r matches Err(x) && x@ == e && final(self)@ == old(self)@,
            },
    {
        let hdr = TiiHttpHeaderName::from_name(name);
        match hdr {
            TiiHttpHeaderName::Accept => {
                match TiiAcceptQualityMimeType::parse(value) {
                    Some(accept) => {
                        if let Some(old_value) = self.headers.try_set_named(&hdr, value) {
                            return Err(
                                TiiError::UserError(
                                    UserError::MultipleAcceptHeaderValuesSet(
                                        string_from(old_value),
                                        string_from(value),
                                    ),
                                ),
                            );
                        }
                        self.accept = accept;
                        Ok(())
                    },
                    None => Err(
                        TiiError::UserError(UserError::IllegalAcceptHeaderValueSet(string_from(value))),
                    ),
                }
            },
            TiiHttpHeaderName::ContentType => {
                match TiiMimeType::parse(value) {
                    Some(mime) => {
                        if let Some(old_value) = self.headers.try_set_named(&hdr, value) {
                            return Err(
                                TiiError::UserError(
                                    UserError::MultipleContentTypeHeaderValuesSet(
                                        string_from(old_value),
                                        string_from(value),
                                    ),
                                ),
                            );
                        }
                        self.content_type = Some(mime);
                        Ok(())
                    },
                    None => Err(
                        TiiError::UserError(
                            UserError::IllegalContentTypeHeaderValueSet(string_from(value)),
                        ),
                    ),
                }
            },
            TiiHttpHeaderName::TransferEncoding | TiiHttpHeaderName::ContentLength => {
                Err(
                    TiiError::UserError(
                        UserError::ImmutableRequestHeaderModified(hdr, string_from(value)),
                    ),
                )
            },
            _ => {
                self.headers.add_named(&hdr, value);
                Ok(())
            },
        }
    }
}


impl Cookie {
    /// A copy of this cookie.
    pub fn duplicate(&self) -> (r: Cookie)
        ensures
            r@ == self@,
    {
        Cookie { name: self.name.clone(), value: self.value.clone() }
    }
}


/// The request head has a content type exactly when it has a Content-Type header.
pub open spec fn content_type_agrees(h: RequestHeadModel) -> bool {
    (h.content_type is Some) == (first_value(h.headers, TiiHttpHeaderName::ContentType) is Some)
}

/// A request head read from the network has a content type exactly when it
/// has a Content-Type header.
pub proof fn lemma_parsed_content_type_agrees(start: Seq<u8>, lines: Seq<Seq<u8>>)
    ensures
        request_head_of(start, lines) matches Ok(h) ==> content_type_agrees(h),
{
}

/// Setting, adding and removing headers, and setting or removing the content
/// type, keep a request head's content type present exactly when its
/// Content-Type header is.
pub proof fn lemma_content_type_kept(
    h: RequestHeadModel,
    name: Seq<char>,
    value: Seq<char>,
    m: TiiMimeType<Seq<char>>,
)
    requires
        content_type_agrees(h),
    ensures
        request_set_header(h, name, value) matches Ok(r) ==> content_type_agrees(r),
        request_add_header(h, name, value) matches Ok(r) ==> content_type_agrees(r),
        request_remove_header(h, name) matches Ok(r) ==> content_type_agrees(r),
        content_type_agrees(
            RequestHeadModel {
                content_type: Some(m),
                headers: headers_set(h.headers, TiiHttpHeaderName::ContentType, crate::mime::mime_text(m)),
                ..h
            },
        ),
        content_type_agrees(
            RequestHeadModel {
                content_type: None,
                headers: headers_not_named(h.headers, TiiHttpHeaderName::ContentType),
                ..h
            },
        ),
{
    let ct = TiiHttpHeaderName::<Seq<char>>::ContentType;
    let n = header_name_of(name);
    crate::headers::lemma_set_exactly_once(h.headers, n, value, ct);
    crate::headers::lemma_set_exactly_once(h.headers, ct, crate::mime::mime_text(m), ct);
    crate::headers::lemma_set_exactly_once(h.headers, TiiHttpHeaderName::Accept, "*/*"@, ct);
    crate::headers::lemma_removed_has_none(h.headers, ct);
    if n != ct {
        crate::headers::lemma_not_named_keeps_others(h.headers, n, ct);
        crate::headers::lemma_push_keeps_others(h.headers, TiiHttpHeader { name: n, value }, ct);
    } else {
        let added = h.headers.push(TiiHttpHeader { name: n, value });
        assert(added.drop_last() =~= h.headers);
    }
}

/// Only the text before the first ";" of the Content-Type header decides the
/// content type of a request head read from the network: a value such as
/// "application/json; charset=utf-8", whose text before the ";" names a mime
/// type, gives that mime type, whatever the parameters after it are.
pub proof fn lemma_content_type_parameters_ignored(
    start: Seq<u8>,
    lines: Seq<Seq<u8>>,
    t: Seq<char>,
    params: Seq<char>,
)
    requires
        request_head_of(start, lines) matches Ok(h) && first_value(h.headers, TiiHttpHeaderName::ContentType)
            == Some(t + seq![';'] + params),
        !t.contains(';'),
        mime_type_of(t) is Some,
    ensures
        request_head_of(start, lines) matches Ok(h) && h.content_type == mime_type_of(t),
{
    let raw = t + seq![';'] + params;
    assert forall|j: int| 0 <= j < t.len() implies raw[j] != ';' by {
        assert(raw[j] == t[j]);
        if t[j] == ';' {
            assert(t.contains(';'));
        }
    }
    assert(raw[t.len() as int] == ';');
    crate::text::lemma_index_of(raw, ';', t.len() as int);
    assert(raw.take(t.len() as int) =~= t);
}

proof fn lemma_cookies_of_trimmed(pieces: Seq<Seq<char>>)
    requires
        forall|k: int| 0 <= k < pieces.len() ==> !(#[trigger] pieces[k]).contains(';'),
    ensures
        forall|i: int| 0 <= i < cookies_of(pieces).len() ==> cookie_trimmed(#[trigger] cookies_of(pieces)[i]),
    decreases pieces.len(),
{
    if pieces.len() > 0 {
        let p = pieces.drop_last();
        assert forall|k: int| 0 <= k < p.len() implies !(#[trigger] p[k]).contains(';') by {
            assert(p[k] == pieces[k]);
        }
        lemma_cookies_of_trimmed(p);
        let piece = pieces.last();
        assert(!pieces[pieces.len() - 1].contains(';'));
        lemma_index_of_bounds(piece, '=');
        let i = index_of(piece, '=');
        if i >= 0 {
            let before = piece.take(i);
            let after = piece.skip(i + 1);
            assert(!before.contains('=')) by {
                assert forall|j: int| 0 <= j < before.len() implies before[j] != '=' by {}
            }
            assert(!before.contains(';')) by {
                assert forall|j: int| 0 <= j < before.len() implies before[j] != ';' by {
                    assert(before[j] == piece[j]);
                    if piece[j] == ';' {
                        assert(piece.contains(';'));
                    }
                }
            }
            assert(!after.contains(';')) by {
                assert forall|j: int| 0 <= j < after.len() implies after[j] != ';' by {
                    assert(after[j] == piece[j + i + 1]);
                    if piece[j + i + 1] == ';' {
                        assert(piece.contains(';'));
                    }
                }
            }
            crate::text::lemma_trim_facts(before, '=');
            crate::text::lemma_trim_facts(before, ';');
            crate::text::lemma_trim_facts(after, ';');
            let c = cookie_of(piece).unwrap();
            assert(cookie_trimmed(c));
            let cs = cookies_of(p);
            assert(cookies_of(pieces) == cs.push(c));
            assert forall|j: int| 0 <= j < cs.push(c).len() implies cookie_trimmed(#[trigger] cs.push(c)[j]) by {
                if j < cs.len() {
                    assert(cs.push(c)[j] == cs[j]);
                }
            }
        }
    }
}

/// A cookie's name and value hold no white space at either end; the name holds
/// no "=" and neither holds ";".
pub open spec fn cookie_trimmed(c: Cookie<Seq<char>>) -> bool {
    &&& c.name.len() > 0 ==> !crate::text::is_white_space(c.name[0])
        && !crate::text::is_white_space(c.name.last())
    &&& c.value.len() > 0 ==> !crate::text::is_white_space(c.value[0])
        && !crate::text::is_white_space(c.value.last())
    &&& !c.name.contains('=')
    &&& !c.name.contains(';')
    &&& !c.value.contains(';')
}

/// The cookies that `get_cookies` and `get_cookie` read from a request's Cookie
/// header are trimmed: "session=abc; theme=dark" gives the names "session" and
/// "theme", never " theme".
pub proof fn lemma_cookies_trimmed(hs: Seq<TiiHttpHeader<Seq<char>>>)
    ensures
        forall|i: int| 0 <= i < cookies_of_headers(hs).len() ==> cookie_trimmed(
            #[trigger] cookies_of_headers(hs)[i],
        ),
{
    match first_value(hs, TiiHttpHeaderName::Cookie) {
        Some(raw) => {
            crate::text::lemma_split_has_no_separator(raw, ';');
            lemma_cookies_of_trimmed(split_seq(raw, ';'));
        },
        None => {},
    }
}

} // verus!
