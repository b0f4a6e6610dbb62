//! The state of one request: its head, how its body is framed, its path
//! parameters and whether the connection closes after it.
use crate::headers::{first_value, TiiHttpHeaderName};
use crate::request::{HttpVersion, RequestHead, RequestHeadModel};
use crate::text::{chars_of, copy_string, parse_unsigned, parse_unsigned_range, str_eq, string_from};
use crate::tii_error::{RequestHeadParsingError, TiiError, TiiErrorModel, TiiResult};
use vstd::prelude::*;

verus! {

/// How the body of a request is framed on the connection.
#[derive(Clone, Copy, Debug, PartialEq, Eq, Structural)]
pub enum BodyFraming {
    /// The request has no body.
    NoBody,
    /// The body has this many bytes.
    ContentLength(u64),
    /// The body comes in chunked transfer encoding.
    Chunked,
    /// The body is a gzip stream that decompresses to this many bytes.
    GzipUncompressedLength(u64),
    /// The body is a gzip stream of this many bytes.
    GzipCompressedLength(u64),
    /// The body is a gzip stream in chunked transfer encoding.
    GzipChunked,
}

/// The Content-Length of the request, if it gives one, read as `u64::from_str` reads it.
pub open spec fn content_length_of(h: RequestHeadModel) -> Result<Option<u64>, TiiErrorModel> {
    match first_value(h.headers, TiiHttpHeaderName::ContentLength) {
        None => Ok(None),
        Some(v) => match parse_unsigned(v, u64::MAX as nat) {
            Some(n) => Ok(Some(n as u64)),
            None => Err(TiiError::RequestHeadParsing(RequestHeadParsingError::InvalidContentLength(v))),
        },
    }
}

/// Whether the text names the gzip encoding.
pub open spec fn is_gzip_name(v: Seq<char>) -> bool {
    v == "gzip"@ || v == "x-gzip"@
}

/// The framing of an HTTP/1.1 body and whether the connection must close
/// after the request, from the Content-Encoding, Transfer-Encoding and
/// Connection headers and the Content-Length.
pub open spec fn http11_body(h: RequestHeadModel, cl: Option<u64>) -> Result<(BodyFraming, bool), TiiErrorModel> {
    let ce = first_value(h.headers, TiiHttpHeaderName::ContentEncoding);
    let te = first_value(h.headers, TiiHttpHeaderName::TransferEncoding);
    if ce is None && te is None {
        match cl {
            None => if first_value(h.headers, TiiHttpHeaderName::Connection) != Some("keep-alive"@) {
                Ok((BodyFraming::NoBody, true))
            } else if h.method is Post || h.method is Put || h.method is Patch || h.method is Custom {
                Ok((BodyFraming::NoBody, true))
            } else {
                Ok((BodyFraming::NoBody, false))
            },
            Some(n) => if n == 0 {
                Ok((BodyFraming::NoBody, false))
            } else {
                Ok((BodyFraming::ContentLength(n), false))
            },
        }
    } else if ce is None && te == Some("chunked"@) {
        Ok((BodyFraming::Chunked, false))
    } else if ce is None && is_gzip_name(te.unwrap()) {
        match cl {
            None => Err(TiiError::RequestHeadParsing(RequestHeadParsingError::ContentLengthHeaderMissing)),
            Some(n) => Ok((BodyFraming::GzipUncompressedLength(n), true)),
        }
    } else if te is None && is_gzip_name(ce.unwrap()) {
        match cl {
            None => Err(TiiError::RequestHeadParsing(RequestHeadParsingError::ContentLengthHeaderMissing)),
            Some(n) => Ok((BodyFraming::GzipCompressedLength(n), false)),
        }
    } else if (ce is Some && is_gzip_name(ce.unwrap()) && te == Some("chunked"@)) || (ce is None && (te
        == Some("gzip, chunked"@) || te == Some("x-gzip, chunked"@))) {
        Ok((BodyFraming::GzipChunked, false))
    } else if te is Some && te != Some("chunked"@) {
        Err(TiiError::RequestHeadParsing(RequestHeadParsingError::TransferEncodingNotSupported(te.unwrap())))
    } else {
        Err(TiiError::RequestHeadParsing(RequestHeadParsingError::ContentEncodingNotSupported(ce.unwrap())))
    }
}

/// The framing of the request's body and whether the connection must close
/// after the request, or the error that the head gives.
pub open spec fn body_decision(h: RequestHeadModel) -> Result<(BodyFraming, bool), TiiErrorModel> {
    match h.version {
        HttpVersion::Http09 => Ok((BodyFraming::NoBody, true)),
        HttpVersion::Http10 => match content_length_of(h) {
            Err(e) => Err(e),
            Ok(None) => Ok((BodyFraming::NoBody, true)),
            Ok(Some(n)) => if n == 0 {
                Ok((BodyFraming::NoBody, true))
            } else {
                Ok((BodyFraming::ContentLength(n), true))
            },
        },
        HttpVersion::Http11 => match content_length_of(h) {
            Err(e) => Err(e),
            Ok(cl) => http11_body(h, cl),
        },
    }
}

fn content_length(head: &RequestHead) -> (r: TiiResult<Option<u64>>)
    ensures
        r matches Ok(cl) ==> content_length_of(head@) == Ok::<Option<u64>, TiiErrorModel>(cl),
        r matches Err(e) ==> content_length_of(head@) == Err::<Option<u64>, TiiErrorModel>(e@),
{
    match head.get_header_named(&TiiHttpHeaderName::ContentLength) {
        None => Ok(None),
        Some(v) => {
            let cs = chars_of(v);
            assert(cs@.subrange(0, cs@.len() as int) =~= cs@);
            match parse_unsigned_range(&cs, 0, cs.len(), u64::MAX) {
                Some(n) => Ok(Some(n)),
                None => Err(
                    TiiError::RequestHeadParsing(RequestHeadParsingError::InvalidContentLength(string_from(v))),
                ),
            }
        },
    }
}

fn is_gzip(v: &str) -> (r: bool)
    ensures
        r == is_gzip_name(v@),
{
    str_eq(v, "gzip") || str_eq(v, "x-gzip")
}

fn opt_eq(v: Option<&str>, lit: &str) -> (r: bool)
    ensures
        r == (v matches Some(s) && s@ == lit@),
{
    match v {
        Some(s) => str_eq(s, lit),
        None => false,
    }
}

#[verifier::rlimit(40)]
fn http11_framing(head: &RequestHead, cl: Option<u64>) -> (r: TiiResult<(BodyFraming, bool)>)
    ensures
        r matches Ok(d) ==> http11_body(head@, cl) == Ok::<(BodyFraming, bool), TiiErrorModel>(d),
        r matches Err(e) ==> http11_body(head@, cl) == Err::<(BodyFraming, bool), TiiErrorModel>(e@),
{
    let ce = head.get_header_named(&TiiHttpHeaderName::ContentEncoding);
    let te = head.get_header_named(&TiiHttpHeaderName::TransferEncoding);
    let ghost cev = first_value(head@.headers, TiiHttpHeaderName::ContentEncoding);
    let ghost tev = first_value(head@.headers, TiiHttpHeaderName::TransferEncoding);
    assert(ce is None <==> cev is None);
    assert(te is None <==> tev is None);
    assert(ce matches Some(c) ==> cev == Some(c@));
    assert(te matches Some(t) ==> tev == Some(t@));
    let te_chunked = opt_eq(te, "chunked");
    if ce.is_none() && te.is_none() {
        match cl {
            None => {
                let conn = head.get_header_named(&TiiHttpHeaderName::Connection);
                if !opt_eq(conn, "keep-alive") {
                    return Ok((BodyFraming::NoBody, true));
                }
                if head.method().is_likely_to_have_request_body() {
                    return Ok((BodyFraming::NoBody, true));
                }
                return Ok((BodyFraming::NoBody, false));
            },
            Some(n) => {
                if n == 0 {
                    return Ok((BodyFraming::NoBody, false));
                }
                return Ok((BodyFraming::ContentLength(n), false));
            },
        }
    }
    if ce.is_none() && te_chunked {
        return Ok((BodyFraming::Chunked, false));
    }
    if ce.is_none() {
        let t = te.unwrap();
        if is_gzip(t) {
            return match cl {
                None => Err(TiiError::RequestHeadParsing(RequestHeadParsingError::ContentLengthHeaderMissing)),
                Some(n) => Ok((BodyFraming::GzipUncompressedLength(n), true)),
            };
        }
        if str_eq(t, "gzip, chunked") || str_eq(t, "x-gzip, chunked") {
            return Ok((BodyFraming::GzipChunked, false));
        }
        return Err(
            TiiError::RequestHeadParsing(RequestHeadParsingError::TransferEncodingNotSupported(string_from(t))),
        );
    }
    let c = ce.unwrap();
    let c_gzip = is_gzip(c);
    if te.is_none() {
        if c_gzip {
            return match cl {
                None => Err(TiiError::RequestHeadParsing(RequestHeadParsingError::ContentLengthHeaderMissing)),
                Some(n) => Ok((BodyFraming::GzipCompressedLength(n), false)),
            };
        }
        return Err(
            TiiError::RequestHeadParsing(RequestHeadParsingError::ContentEncodingNotSupported(string_from(c))),
        );
    }
    if c_gzip && te_chunked {
        return Ok((BodyFraming::GzipChunked, false));
    }
    if !te_chunked {
        let t = te.unwrap();
        return Err(
            TiiError::RequestHeadParsing(RequestHeadParsingError::TransferEncodingNotSupported(string_from(t))),
        );
    }
    Err(TiiError::RequestHeadParsing(RequestHeadParsingError::ContentEncodingNotSupported(string_from(c))))
}

/// The framing of the request's body and whether the connection must close
/// after the request; an error where the head's Content-Length is not a
/// number, or its encodings are not supported or lack a length.
pub fn body_framing(head: &RequestHead) -> (r: TiiResult<(BodyFraming, bool)>)
    ensures
        r matches Ok(d) ==> body_decision(head@) == Ok::<(BodyFraming, bool), TiiErrorModel>(d),
        r matches Err(e) ==> body_decision(head@) == Err::<(BodyFraming, bool), TiiErrorModel>(e@),
{
    match head.version() {
        HttpVersion::Http09 => Ok((BodyFraming::NoBody, true)),
        HttpVersion::Http10 => match content_length(head) {
            Err(e) => Err(e),
            Ok(None) => Ok((BodyFraming::NoBody, true)),
            Ok(Some(n)) => if n == 0 {
                Ok((BodyFraming::NoBody, true))
            } else {
                Ok((BodyFraming::ContentLength(n), true))
            },
        },
        HttpVersion::Http11 => match content_length(head) {
            Err(e) => Err(e),
            Ok(cl) => http11_framing(head, cl),
        },
    }
}


/// The position of the first path parameter with the key, or -1.
pub open spec fn param_index(ps: Seq<(Seq<char>, Seq<char>)>, k: Seq<char>) -> int
    decreases ps.len(),
{
    if ps.len() == 0 {
        -1
    } else if ps[0].0 == k {
        0
    } else {
        let i = param_index(ps.drop_first(), k);
        if i < 0 {
            -1
        } else {
            i + 1
        }
    }
}

/// The value of the path parameter with the key.
pub open spec fn param_value(ps: Seq<(Seq<char>, Seq<char>)>, k: Seq<char>) -> Option<Seq<char>> {
    let i = param_index(ps, k);
    if i < 0 {
        None
    } else {
        Some(ps[i].1)
    }
}

/// The path parameters after setting the key to the value: the value of an
/// existing key is replaced in place, a new key comes last.
pub open spec fn params_set(ps: Seq<(Seq<char>, Seq<char>)>, k: Seq<char>, v: Seq<char>) -> Seq<(Seq<char>, Seq<char>)> {
    let i = param_index(ps, k);
    if i < 0 {
        ps.push((k, v))
    } else {
        ps.update(i, (k, v))
    }
}

/// No key occurs twice.
pub open spec fn distinct_keys(ps: Seq<(Seq<char>, Seq<char>)>) -> bool {
    forall|i: int, j: int| 0 <= i < j < ps.len() ==> #[trigger] ps[i].0 != #[trigger] ps[j].0
}

/// Where the first parameter with a key stands, and that no earlier one has it.
pub proof fn lemma_param_index(ps: Seq<(Seq<char>, Seq<char>)>, k: Seq<char>)
    ensures
        -1 <= param_index(ps, k) < ps.len(),
        param_index(ps, k) >= 0 ==> ps[param_index(ps, k)].0 == k,
        param_index(ps, k) >= 0 ==> forall|j: int| 0 <= j < param_index(ps, k) ==> ps[j].0 != k,
        param_index(ps, k) < 0 ==> forall|j: int| 0 <= j < ps.len() ==> ps[j].0 != k,
    decreases ps.len(),
{
    if ps.len() > 0 && ps[0].0 != k {
        lemma_param_index(ps.drop_first(), k);
        assert forall|j: int| 1 <= j < ps.len() implies ps[j] == ps.drop_first()[j - 1] by {}
    }
}

/// The model of a request's state.
pub struct RequestContextModel {
    pub id: u128,
    pub timestamp: u128,
    pub peer_address: Seq<char>,
    pub local_address: Seq<char>,
    pub head: RequestHeadModel,
    pub force_connection_close: bool,
    pub routed_path: Option<Seq<char>>,
    pub path_params: Seq<(Seq<char>, Seq<char>)>,
}

/// The models of key and value pairs.
pub open spec fn pair_views(v: Seq<(String, String)>) -> Seq<(Seq<char>, Seq<char>)> {
    Seq::new(v.len(), |i: int| (v[i].0@, v[i].1@))
}

/// The state of one request that the library keeps; its body is read by
/// whoever holds the connection, as `BodyFraming` tells.
#[derive(Debug)]
pub struct RequestContext {
    id: u128,
    timestamp: u128,
    peer_address: String,
    local_address: String,
    request: RequestHead,
    force_connection_close: bool,
    routed_path: Option<String>,
    path_params: Vec<(String, String)>,
}

impl View for RequestContext {
    type V = RequestContextModel;

    closed spec fn view(&self) -> RequestContextModel {
        RequestContextModel {
            id: self.id,
            timestamp: self.timestamp,
            peer_address: self.peer_address@,
            local_address: self.local_address@,
            head: self.request@,
            force_connection_close: self.force_connection_close,
            routed_path: match self.routed_path {
                Some(p) => Some(p@),
                None => None,
            },
            path_params: pair_views(self.path_params@),
        }
    }
}

/// The state of a new request with the given head: nothing routed, no path
/// parameters.
pub open spec fn fresh_context(
    id: u128,
    timestamp: u128,
    peer: Seq<char>,
    local: Seq<char>,
    head: RequestHeadModel,
    close: bool,
) -> RequestContextModel {
    RequestContextModel {
        id,
        timestamp,
        peer_address: peer,
        local_address: local,
        head,
        force_connection_close: close,
        routed_path: None,
        path_params: seq![],
    }
}

impl RequestContext {
    /// A request's state made by hand, as for testing an endpoint; the
    /// timestamp is milliseconds since the Unix epoch.
    pub fn new(id: u128, timestamp: u128, peer_address: &str, local_address: &str, head: RequestHead) -> (r: Self)
        ensures
            r@ == fresh_context(id, timestamp, peer_address@, local_address@, head@, false),
    {
        let r = RequestContext {
            id,
            timestamp,
            peer_address: string_from(peer_address),
            local_address: string_from(local_address),
            request: head,
            force_connection_close: false,
            routed_path: None,
            path_params: Vec::new(),
        };
        assert(pair_views(r.path_params@) =~= Seq::<(Seq<char>, Seq<char>)>::empty());
        r
    }

    /// The state of a request whose head was read from a connection, and how
    /// its body follows the head; an error where `body_framing` gives one.
    pub fn from_request_head(
        id: u128,
        timestamp: u128,
        peer_address: &str,
        local_address: &str,
        head: RequestHead,
    ) -> (r: TiiResult<(RequestContext, BodyFraming)>)
        ensures
            r matches Ok((ctx, f)) ==> body_decision(head@) == Ok::<(BodyFraming, bool), TiiErrorModel>(
                (f, ctx@.force_connection_close),
            ) && ctx@ == fresh_context(id, timestamp, peer_address@, local_address@, head@, ctx@.force_connection_close),
            r matches Err(e) ==> body_decision(head@) == Err::<(BodyFraming, bool), TiiErrorModel>(e@),
    {
        match body_framing(&head) {
            Err(e) => Err(e),
            Ok((framing, close)) => {
                let mut ctx = RequestContext::new(id, timestamp, peer_address, local_address, head);
                ctx.force_connection_close = close;
                Ok((ctx, framing))
            },
        }
    }

    /// The unique id of the request.
    pub fn id(&self) -> (r: u128)
        ensures
            r == self@.id,
    {
        self.id
    }

    /// When the request began to be read, in milliseconds since the Unix epoch.
    pub fn get_timestamp(&self) -> (r: u128)
        ensures
            r == self@.timestamp,
    {
        self.timestamp
    }

    /// The address of the peer.
    pub fn peer_address(&self) -> (r: &str)
        ensures
            r@ == self@.peer_address,
    {
        self.peer_address.as_str()
    }

    /// The address of the local socket.
    pub fn local_address(&self) -> (r: &str)
        ensures
            r@ == self@.local_address,
    {
        self.local_address.as_str()
    }

    /// The request head.
    pub fn request_head(&self) -> (r: &RequestHead)
        ensures
            r@ == self@.head,
    {
        &self.request
    }

    /// The request head, to change it.
    pub fn request_head_mut(&mut self) -> (r: &mut RequestHead)
        ensures
            r@ == old(self)@.head,
            final(self)@ == (RequestContextModel { head: final(r)@, ..old(self)@ }),
    {
        &mut self.request
    }

    /// The path the request was routed by; empty before routing.
    pub fn routed_path(&self) -> (r: &str)
        ensures
            self@.routed_path matches Some(p) ==> r@ == p,
            self@.routed_path is None ==> r@ == ""@,
    {
        match &self.routed_path {
            Some(p) => p.as_str(),
            None => "",
        }
    }

    /// Sets the path the request was routed by.
    pub fn set_routed_path(&mut self, rp: &str)
        ensures
            final(self)@ == (RequestContextModel { routed_path: Some(rp@), ..old(self)@ }),
    {
        self.routed_path = Some(string_from(rp));
    }

    /// The keys of the path parameters.
    pub fn get_path_param_keys(&self) -> (r: Vec<&str>)
        ensures
            Seq::new(r@.len(), |i: int| r@[i]@) == Seq::new(self@.path_params.len(), |i: int| self@.path_params[i].0),
    {
        let mut r: Vec<&str> = Vec::new();
        let mut i: usize = 0;
        while i < self.path_params.len()
            invariant
                i <= self.path_params@.len(),
                r@.len() == i,
                forall|k: int| 0 <= k < i ==> r@[k]@ == self.path_params@[k].0@,
            decreases self.path_params@.len() - i,
        {
            r.push(self.path_params[i].0.as_str());
            i = i + 1;
        }
        assert(Seq::new(r@.len(), |k: int| r@[k]@) =~= Seq::new(self@.path_params.len(), |k: int| self@.path_params[k].0));
        r
    }

    /// The path parameters as key and value pairs.
    pub fn get_path_params(&self) -> (r: Vec<(&str, &str)>)
        ensures
            Seq::new(r@.len(), |i: int| (r@[i].0@, r@[i].1@)) == self@.path_params,
    {
        let mut r: Vec<(&str, &str)> = Vec::new();
        let mut i: usize = 0;
        while i < self.path_params.len()
            invariant
                i <= self.path_params@.len(),
                r@.len() == i,
                forall|k: int| 0 <= k < i ==> (r@[k].0@, r@[k].1@) == (self.path_params@[k].0@, self.path_params@[k].1@),
            decreases self.path_params@.len() - i,
        {
            r.push((self.path_params[i].0.as_str(), self.path_params[i].1.as_str()));
            i = i + 1;
        }
        assert(Seq::new(r@.len(), |k: int| (r@[k].0@, r@[k].1@)) =~= self@.path_params);
        r
    }

    fn param_position(&self, key: &str) -> (r: Option<usize>)
        ensures
            r matches Some(i) ==> param_index(self@.path_params, key@) == i && i < self@.path_params.len(),
            r is None ==> param_index(self@.path_params, key@) == -1,
    {
        let ghost ps = self@.path_params;
        proof {
            lemma_param_index(ps, key@);
        }
        let mut i: usize = 0;
        while i < self.path_params.len()
            invariant
                i <= self.path_params@.len(),
                ps == pair_views(self.path_params@),
                forall|j: int| 0 <= j < i ==> ps[j].0 != key@,
                -1 <= param_index(ps, key@) < ps.len(),
                param_index(ps, key@) >= 0 ==> ps[param_index(ps, key@)].0 == key@,
                param_index(ps, key@) >= 0 ==> forall|j: int| 0 <= j < param_index(ps, key@) ==> ps[j].0 != key@,
                param_index(ps, key@) < 0 ==> forall|j: int| 0 <= j < ps.len() ==> ps[j].0 != key@,
            decreases self.path_params@.len() - i,
        {
            if str_eq(self.path_params[i].0.as_str(), key) {
                assert(ps[i as int].0 == key@);
                return Some(i);
            }
            i = i + 1;
        }
        None
    }

    /// The value of the path parameter with the key.
    pub fn get_path_param(&self, key: &str) -> (r: Option<&str>)
        ensures
            r matches Some(v) ==> param_value(self@.path_params, key@) == Some(v@),
            r is None ==> param_value(self@.path_params, key@) is None,
    {
        match self.param_position(key) {
            Some(i) => Some(self.path_params[i].1.as_str()),
            None => None,
        }
    }

    /// Sets the path parameter and gives back the value it had.
    pub fn set_path_param(&mut self, key: &str, value: &str) -> (r: Option<String>)
        ensures
            final(self)@ == (RequestContextModel {
                path_params: params_set(old(self)@.path_params, key@, value@),
                ..old(self)@
            }),
            r matches Some(v) ==> param_value(old(self)@.path_params, key@) == Some(v@),
            r is None ==> param_value(old(self)@.path_params, key@) is None,
    {
        match self.param_position(key) {
            Some(i) => {
                let old_value = copy_string(&self.path_params[i].1);
                self.path_params.set(i, (string_from(key), string_from(value)));
                assert(pair_views(self.path_params@) =~= pair_views(old(self).path_params@).update(
                    i as int,
                    (key@, value@),
                ));
                Some(old_value)
            },
            None => {
                self.path_params.push((string_from(key), string_from(value)));
                assert(pair_views(self.path_params@) =~= pair_views(old(self).path_params@).push(
                    (key@, value@),
                ));
                None
            },
        }
    }

    /// Makes the connection close after the request is handled.
    pub fn force_connection_close(&mut self)
        ensures
            final(self)@ == (RequestContextModel { force_connection_close: true, ..old(self)@ }),
    {
        self.force_connection_close = true;
    }

    /// Whether the connection closes after the request is handled.
    pub fn is_connection_close_forced(&self) -> (r: bool)
        ensures
            r == self@.force_connection_close,
    {
        self.force_connection_close
    }
}

/// Setting a path parameter and then reading it gives the value that was set,
/// and leaves the other parameters as they were.
pub proof fn lemma_set_then_get(ps: Seq<(Seq<char>, Seq<char>)>, k: Seq<char>, v: Seq<char>, other: Seq<char>)
    ensures
        param_value(params_set(ps, k, v), k) == Some(v),
        other != k ==> param_value(params_set(ps, k, v), other) == param_value(ps, other),
{
    lemma_param_index(ps, k);
    lemma_param_index(ps, other);
    let qs = params_set(ps, k, v);
    lemma_param_index(qs, k);
    lemma_param_index(qs, other);
    if param_index(ps, k) < 0 {
        assert(qs[ps.len() as int].0 == k);
    } else {
        assert(qs[param_index(ps, k)].0 == k);
    }
    if other != k {
        if param_index(ps, other) >= 0 {
            assert(qs[param_index(ps, other)].0 == other);
        }
    }
}

/// Setting a path parameter keeps the keys distinct.
pub proof fn lemma_set_keeps_distinct(ps: Seq<(Seq<char>, Seq<char>)>, k: Seq<char>, v: Seq<char>)
    requires
        distinct_keys(ps),
    ensures
        distinct_keys(params_set(ps, k, v)),
{
    lemma_param_index(ps, k);
}

} // verus!
