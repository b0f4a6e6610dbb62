//! HTTP request methods.
use crate::text::{chars_eq_str, chars_of, push_char, to_upper_char, upper_seq};
use vstd::prelude::*;

verus! {

/// Represents an HTTP method.
///
/// The parameter is the type of the text of a custom method: `String` in
/// executable code, `Seq<char>` in specifications.
#[derive(Clone, Debug, PartialEq, Eq, Ord, PartialOrd, Hash)]
pub enum HttpMethod<S = String> {
    /// The `GET` method.
    Get,
    /// The `HEAD` method.
    Head,
    /// The `POST` method.
    Post,
    /// The `PUT` method.
    Put,
    /// The `DELETE` method.
    Delete,
    /// The `OPTIONS` method.
    Options,
    /// The `TRACE` method.
    Trace,
    /// The 'PATCH' method.
    Patch,
    /// Anything else your heart desires.
    Custom(S),
}

impl View for HttpMethod<String> {
    type V = HttpMethod<Seq<char>>;

    open spec fn view(&self) -> HttpMethod<Seq<char>> {
        match self {
            HttpMethod::Get => HttpMethod::Get,
            HttpMethod::Head => HttpMethod::Head,
            HttpMethod::Post => HttpMethod::Post,
            HttpMethod::Put => HttpMethod::Put,
            HttpMethod::Delete => HttpMethod::Delete,
            HttpMethod::Options => HttpMethod::Options,
            HttpMethod::Trace => HttpMethod::Trace,
            HttpMethod::Patch => HttpMethod::Patch,
            HttpMethod::Custom(s) => HttpMethod::Custom(s@),
        }
    }
}

/// The method that a request line names: a well known method when the name
/// matches it exactly, otherwise a custom method with the name in ASCII uppercase.
pub open spec fn method_of(name: Seq<char>) -> HttpMethod<Seq<char>> {
    if name == "GET"@ {
        HttpMethod::Get
    } else if name == "HEAD"@ {
        HttpMethod::Head
    } else if name == "POST"@ {
        HttpMethod::Post
    } else if name == "PUT"@ {
        HttpMethod::Put
    } else if name == "DELETE"@ {
        HttpMethod::Delete
    } else if name == "OPTIONS"@ {
        HttpMethod::Options
    } else if name == "TRACE"@ {
        HttpMethod::Trace
    } else if name == "PATCH"@ {
        HttpMethod::Patch
    } else {
        HttpMethod::Custom(upper_seq(name))
    }
}

/// The text of a method.
pub open spec fn method_text(m: HttpMethod<Seq<char>>) -> Seq<char> {
    match m {
        HttpMethod::Get => "GET"@,
        HttpMethod::Head => "HEAD"@,
        HttpMethod::Post => "POST"@,
        HttpMethod::Put => "PUT"@,
        HttpMethod::Delete => "DELETE"@,
        HttpMethod::Options => "OPTIONS"@,
        HttpMethod::Trace => "TRACE"@,
        HttpMethod::Patch => "PATCH"@,
        HttpMethod::Custom(s) => s,
    }
}

/// Is `name` the text of one of the well known methods?
pub open spec fn is_well_known_method_name(name: Seq<char>) -> bool {
    !(method_of(name) is Custom)
}

impl HttpMethod {
    /// Converts from the HTTP verb into an enum variant.
    /// Names that are not exactly a well known method become custom methods in ASCII uppercase.
    pub fn from(name: &str) -> (r: Self)
        ensures
            r@ == method_of(name@),
    {
        let v = chars_of(name);
        if chars_eq_str(&v, "GET") {
            HttpMethod::Get
        } else if chars_eq_str(&v, "HEAD") {
            HttpMethod::Head
        } else if chars_eq_str(&v, "POST") {
            HttpMethod::Post
        } else if chars_eq_str(&v, "PUT") {
            HttpMethod::Put
        } else if chars_eq_str(&v, "DELETE") {
            HttpMethod::Delete
        } else if chars_eq_str(&v, "OPTIONS") {
            HttpMethod::Options
        } else if chars_eq_str(&v, "TRACE") {
            HttpMethod::Trace
        } else if chars_eq_str(&v, "PATCH") {
            HttpMethod::Patch
        } else {
            let mut s = String::new();
            let mut i: usize = 0;
            while i < v.len()
                invariant
                    i <= v@.len(),
                    s@ == upper_seq(v@.subrange(0, i as int)),
                decreases v@.len() - i,
            {
                push_char(&mut s, to_upper_char(v[i]));
                i = i + 1;
                assert(s@ =~= upper_seq(v@.subrange(0, i as int)));
            }
            assert(v@.subrange(0, v@.len() as int) =~= v@);
            HttpMethod::Custom(s)
        }
    }

    /// All well known http methods.
    pub fn well_known() -> (r: Vec<HttpMethod>)
        ensures
            r@.len() == 8,
            forall|i: int| 0 <= i < 8 ==> !(#[trigger] r@[i] is Custom),
            r@[0] is Get && r@[1] is Head && r@[2] is Post && r@[3] is Put && r@[4] is Delete
                && r@[5] is Options && r@[6] is Trace && r@[7] is Patch,
    {
        let r = vec![
            HttpMethod::Get,
            HttpMethod::Head,
            HttpMethod::Post,
            HttpMethod::Put,
            HttpMethod::Delete,
            HttpMethod::Options,
            HttpMethod::Trace,
            HttpMethod::Patch,
        ];
        r
    }

    /// Returns true if this is a well known http method.
    pub fn is_well_known(&self) -> (r: bool)
        ensures
            r == !(self is Custom),
    {
        !matches!(self, HttpMethod::Custom(_))
    }

    /// Returns true if this is a custom http method.
    pub fn is_custom(&self) -> (r: bool)
        ensures
            r == self is Custom,
    {
        matches!(self, HttpMethod::Custom(_))
    }

    /// The static text of a well known method; None for custom methods.
    pub fn well_known_str(&self) -> (r: Option<&'static str>)
        ensures
            r is None <==> self is Custom,
            r matches Some(t) ==> t@ == method_text(self@),
    {
        match self {
            HttpMethod::Get => Some("GET"),
            HttpMethod::Head => Some("HEAD"),
            HttpMethod::Post => Some("POST"),
            HttpMethod::Put => Some("PUT"),
            HttpMethod::Delete => Some("DELETE"),
            HttpMethod::Options => Some("OPTIONS"),
            HttpMethod::Trace => Some("TRACE"),
            HttpMethod::Patch => Some("PATCH"),
            HttpMethod::Custom(_) => None,
        }
    }

    /// The text of the method, for custom methods too.
    pub fn as_str(&self) -> (r: &str)
        ensures
            r@ == method_text(self@),
    {
        match self {
            HttpMethod::Get => "GET",
            HttpMethod::Head => "HEAD",
            HttpMethod::Post => "POST",
            HttpMethod::Put => "PUT",
            HttpMethod::Delete => "DELETE",
            HttpMethod::Options => "OPTIONS",
            HttpMethod::Trace => "TRACE",
            HttpMethod::Patch => "PATCH",
            HttpMethod::Custom(m) => m.as_str(),
        }
    }

    /// True for methods whose requests may carry a body even without a Content-Length header:
    /// POST, PUT, PATCH and every custom method.
    pub fn is_likely_to_have_request_body(&self) -> (r: bool)
        ensures
            r == (self is Post || self is Put || self is Patch || self is Custom),
    {
        match self {
            HttpMethod::Post | HttpMethod::Put | HttpMethod::Patch | HttpMethod::Custom(_) => true,
            _ => false,
        }
    }

    /// Whether the two methods are the same.
    pub fn same_as(&self, other: &HttpMethod) -> (r: bool)
        ensures
            r == (self@ == other@),
    {
        match (self, other) {
            (HttpMethod::Get, HttpMethod::Get) => true,
            (HttpMethod::Head, HttpMethod::Head) => true,
            (HttpMethod::Post, HttpMethod::Post) => true,
            (HttpMethod::Put, HttpMethod::Put) => true,
            (HttpMethod::Delete, HttpMethod::Delete) => true,
            (HttpMethod::Options, HttpMethod::Options) => true,
            (HttpMethod::Trace, HttpMethod::Trace) => true,
            (HttpMethod::Patch, HttpMethod::Patch) => true,
            (HttpMethod::Custom(a), HttpMethod::Custom(b)) => crate::text::str_eq(a.as_str(), b.as_str()),
            _ => false,
        }
    }

    /// A copy of this method.
    pub fn duplicate(&self) -> (r: Self)
        ensures
            r@ == self@,
    {
        match self {
            HttpMethod::Get => HttpMethod::Get,
            HttpMethod::Head => HttpMethod::Head,
            HttpMethod::Post => HttpMethod::Post,
            HttpMethod::Put => HttpMethod::Put,
            HttpMethod::Delete => HttpMethod::Delete,
            HttpMethod::Options => HttpMethod::Options,
            HttpMethod::Trace => HttpMethod::Trace,
            HttpMethod::Patch => HttpMethod::Patch,
            HttpMethod::Custom(m) => HttpMethod::Custom(m.clone()),
        }
    }
}

/// Reading back the text of a method gives the method again: always for the
/// well known methods, and for a custom method whose text is in ASCII uppercase
/// and is not the name of a well known method.
pub proof fn lemma_method_text_round_trip(m: HttpMethod<Seq<char>>)
    requires
        m matches HttpMethod::Custom(s) ==> s == upper_seq(s) && !is_well_known_method_name(s),
    ensures
        method_of(method_text(m)) == m,
{
    reveal_strlit("GET");
    reveal_strlit("HEAD");
    reveal_strlit("POST");
    reveal_strlit("PUT");
    reveal_strlit("DELETE");
    reveal_strlit("OPTIONS");
    reveal_strlit("TRACE");
    reveal_strlit("PATCH");
    assert("GET"@[0] == 'G' && "HEAD"@[0] == 'H' && "POST"@[0] == 'P' && "PUT"@[0] == 'P'
        && "DELETE"@[0] == 'D' && "OPTIONS"@[0] == 'O' && "TRACE"@[0] == 'T' && "PATCH"@[0]
        == 'P');
    assert("POST"@[1] == 'O' && "PUT"@[1] == 'U' && "PATCH"@[1] == 'A');
}

} // verus!
