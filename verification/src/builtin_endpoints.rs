//! The path computations of the built-in file endpoints: where in a directory
//! a request's path points, with paths that climb out of the directory
//! refused.
use crate::request_context::RequestContext;
use crate::response::{located_response, Response};
use crate::status::TiiStatusCode;
use crate::text::{chars_of, string_from, string_of, string_of_range};
use crate::tii_error::TiiResult;
use vstd::prelude::*;

verus! {

/// The text without one trailing `c`.
pub open spec fn strip_one_suffix(s: Seq<char>, c: char) -> Seq<char> {
    if s.len() > 0 && s.last() == c {
        s.drop_last()
    } else {
        s
    }
}

/// The text without one leading `c`.
pub open spec fn strip_one_prefix(s: Seq<char>, c: char) -> Seq<char> {
    if s.len() > 0 && s[0] == c {
        s.drop_first()
    } else {
        s
    }
}

/// The text without any trailing `c`.
pub open spec fn trim_end_char(s: Seq<char>, c: char) -> Seq<char>
    decreases s.len(),
{
    if s.len() > 0 && s.last() == c {
        trim_end_char(s.drop_last(), c)
    } else {
        s
    }
}

/// The text without any leading `c`.
pub open spec fn trim_start_char(s: Seq<char>, c: char) -> Seq<char>
    decreases s.len(),
{
    if s.len() > 0 && s[0] == c {
        trim_start_char(s.drop_first(), c)
    } else {
        s
    }
}

/// Whether the text holds "..".
pub open spec fn has_dot_dot(s: Seq<char>) -> bool {
    exists|i: int| 0 <= i < s.len() - 1 && #[trigger] s[i] == '.' && s[i + 1] == '.'
}

/// The file that a request's path names below a directory: the directory
/// without one trailing "/", a "/", and the path without one leading "/".
pub open spec fn file_path_for(directory: Seq<char>, request_path: Seq<char>) -> Seq<char> {
    strip_one_suffix(directory, '/') + seq!['/'] + strip_one_prefix(request_path, '/')
}

/// The part of a request's path below the route it was routed by: the path
/// after the route (without its trailing "*"), or the route itself where the
/// path does not start with it.
pub open spec fn path_below_route(path: Seq<char>, route: Seq<char>) -> Seq<char> {
    let r = strip_one_suffix(route, '*');
    if r.len() <= path.len() && path.take(r.len() as int) == r {
        path.skip(r.len() as int)
    } else {
        route
    }
}

/// Where a file for a request's path may be found below a directory.
#[derive(Debug, PartialEq, Eq)]
pub enum PathCandidates {
    /// The path names a directory: its index files, in order of preference.
    IndexFiles(Vec<String>),
    /// The path names a file or a directory.
    Plain(String),
}

/// The model of the candidates.
pub enum PathCandidatesModel {
    IndexFiles(Seq<Seq<char>>),
    Plain(Seq<char>),
}

impl View for PathCandidates {
    type V = PathCandidatesModel;

    open spec fn view(&self) -> PathCandidatesModel {
        match self {
            PathCandidates::IndexFiles(v) => PathCandidatesModel::IndexFiles(Seq::new(v@.len(), |i: int| v@[i]@)),
            PathCandidates::Plain(s) => PathCandidatesModel::Plain(s@),
        }
    }
}

/// Where to look for a request's path below the directory: nowhere where the
/// path holds ".." or ":"; the index files of a path that is empty or ends
/// with "/"; else the path itself. Leading "/" of the path and trailing "/"
/// of the directory are dropped.
pub open spec fn candidates_of(directory: Seq<char>, request_path: Seq<char>, index_files: Seq<Seq<char>>) -> Option<
    PathCandidatesModel,
> {
    if has_dot_dot(request_path) || request_path.contains(':') {
        None
    } else {
        let rp = trim_start_char(request_path, '/');
        let d = trim_end_char(directory, '/');
        if rp.len() == 0 || rp.last() == '/' {
            Some(
                PathCandidatesModel::IndexFiles(
                    Seq::new(index_files.len(), |i: int| d + seq!['/'] + rp + index_files[i]),
                ),
            )
        } else {
            Some(PathCandidatesModel::Plain(d + seq!['/'] + rp))
        }
    }
}

fn push_all(out: &mut Vec<char>, s: &Vec<char>, from: usize, to: usize)
    requires
        from <= to <= s@.len(),
    ensures
        final(out)@ == old(out)@ + s@.subrange(from as int, to as int),
{
    let mut i = from;
    while i < to
        invariant
            from <= i <= to <= s@.len(),
            out@ == old(out)@ + s@.subrange(from as int, i as int),
        decreases to - i,
    {
        out.push(s[i]);
        i = i + 1;
        assert(out@ =~= old(out)@ + s@.subrange(from as int, i as int));
    }
}

/// The file that a request's path names below a directory.
pub fn file_path(directory_path: &str, request_path: &str) -> (r: String)
    ensures
        r@ == file_path_for(directory_path@, request_path@),
{
    let d = chars_of(directory_path);
    let p = chars_of(request_path);
    let d_end = if d.len() > 0 && d[d.len() - 1] == '/' { d.len() - 1 } else { d.len() };
    let p_start: usize = if p.len() > 0 && p[0] == '/' { 1 } else { 0 };
    let mut out: Vec<char> = Vec::new();
    push_all(&mut out, &d, 0, d_end);
    out.push('/');
    push_all(&mut out, &p, p_start, p.len());
    proof {
        assert(d@.subrange(0, d_end as int) =~= strip_one_suffix(d@, '/'));
        assert(p@.subrange(p_start as int, p@.len() as int) =~= strip_one_prefix(p@, '/'));
        assert(out@ =~= file_path_for(directory_path@, request_path@));
    }
    string_of(&out)
}

/// The part of a request's path below the route it was routed by.
pub fn path_below(path: &str, routed_path: &str) -> (r: String)
    ensures
        r@ == path_below_route(path@, routed_path@),
{
    let p = chars_of(path);
    let r = chars_of(routed_path);
    let r_end = if r.len() > 0 && r[r.len() - 1] == '*' { r.len() - 1 } else { r.len() };
    let ghost rw = r@.subrange(0, r_end as int);
    assert(rw =~= strip_one_suffix(r@, '*'));
    if r_end <= p.len() {
        let mut i: usize = 0;
        while i < r_end
            invariant
                i <= r_end <= p@.len(),
                r_end <= r@.len(),
                rw == r@.subrange(0, r_end as int),
                rw == strip_one_suffix(r@, '*'),
                p@ == path@,
                r@ == routed_path@,
                forall|k: int| 0 <= k < i ==> p@[k] == r@[k],
            decreases r_end - i,
        {
            if p[i] != r[i] {
                assert(p@.take(r_end as int)[i as int] != rw[i as int]);
                return string_of(&r);
            }
            i = i + 1;
        }
        assert(p@.take(r_end as int) =~= rw);
        let out = string_of_range(&p, r_end, p.len());
        assert(p@.subrange(r_end as int, p@.len() as int) =~= p@.skip(r_end as int));
        return out;
    }
    string_of(&r)
}

fn trim_start_slashes(p: &Vec<char>) -> (r: usize)
    ensures
        r <= p@.len(),
        p@.skip(r as int) == trim_start_char(p@, '/'),
{
    let mut i: usize = 0;
    assert(p@.skip(0) =~= p@);
    while i < p.len() && p[i] == '/'
        invariant
            i <= p@.len(),
            trim_start_char(p@, '/') == trim_start_char(p@.skip(i as int), '/'),
        decreases p@.len() - i,
    {
        assert(p@.skip(i as int).drop_first() =~= p@.skip(i + 1));
        i = i + 1;
    }
    i
}

fn trim_end_slashes(d: &Vec<char>) -> (r: usize)
    ensures
        r <= d@.len(),
        d@.take(r as int) == trim_end_char(d@, '/'),
{
    let mut j: usize = d.len();
    assert(d@.take(d@.len() as int) =~= d@);
    while j > 0 && d[j - 1] == '/'
        invariant
            j <= d@.len(),
            trim_end_char(d@, '/') == trim_end_char(d@.take(j as int), '/'),
        decreases j,
    {
        assert(d@.take(j as int).drop_last() =~= d@.take(j - 1));
        j = j - 1;
    }
    j
}

/// Where to look for a request's path below the directory; `None` where the
/// path holds ".." or ":", so that it cannot name anything outside the directory.
pub fn find_candidates(directory: &str, request_path: &str, index_files: &[&str]) -> (r: Option<PathCandidates>)
    ensures
        r matches Some(c) ==> candidates_of(directory@, request_path@, Seq::new(
            index_files@.len(),
            |i: int| index_files@[i]@,
        )) == Some(c@),
        r is None ==> candidates_of(directory@, request_path@, Seq::new(
            index_files@.len(),
            |i: int| index_files@[i]@,
        )) is None,
{
    let p = chars_of(request_path);
    let mut i: usize = 0;
    let n = p.len();
    while i < n
        invariant
            i <= n == p@.len(),
            p@ == request_path@,
            forall|k: int| 0 <= k < i ==> p@[k] != ':',
            forall|k: int| 0 <= k < i && k + 1 < n ==> !(#[trigger] p@[k] == '.' && p@[k + 1] == '.'),
        decreases n - i,
    {
        if p[i] == ':' {
            assert(p@.contains(':'));
            return None;
        }
        if i + 1 < n && p[i] == '.' && p[i + 1] == '.' {
            assert(has_dot_dot(p@));
            return None;
        }
        i = i + 1;
    }
    assert(!p@.contains(':'));
    let start = trim_start_slashes(&p);
    let d = chars_of(directory);
    let d_end = trim_end_slashes(&d);
    let mut base: Vec<char> = Vec::new();
    push_all(&mut base, &d, 0, d_end);
    base.push('/');
    push_all(&mut base, &p, start, n);
    let ghost rp = trim_start_char(request_path@, '/');
    let ghost dd = trim_end_char(directory@, '/');
    proof {
        assert(d@.subrange(0, d_end as int) =~= d@.take(d_end as int));
        assert(p@.subrange(start as int, n as int) =~= p@.skip(start as int));
        assert(base@ =~= dd + seq!['/'] + rp);
    }
    if start == n || p[n - 1] == '/' {
        proof {
            if start < n {
                assert(rp.last() == p@[n - 1]);
            }
        }
        let ghost ifs = Seq::new(index_files@.len(), |k: int| index_files@[k]@);
        let mut out: Vec<String> = Vec::new();
        let mut k: usize = 0;
        while k < index_files.len()
            invariant
                k <= index_files@.len(),
                ifs == Seq::new(index_files@.len(), |m: int| index_files@[m]@),
                base@ == dd + seq!['/'] + rp,
                out@.len() == k,
                forall|m: int| 0 <= m < k ==> #[trigger] out@[m]@ == dd + seq!['/'] + rp + ifs[m],
            decreases index_files@.len() - k,
        {
            let f = chars_of(index_files[k]);
            let mut path = base.clone();
            assert(path@ == base@);
            push_all(&mut path, &f, 0, f.len());
            assert(f@.subrange(0, f@.len() as int) =~= f@);
            out.push(string_of(&path));
            k = k + 1;
        }
        let r = PathCandidates::IndexFiles(out);
        assert(Seq::new(out@.len(), |m: int| out@[m]@) =~= Seq::new(ifs.len(), |m: int| dd + seq!['/'] + rp + ifs[m]));
        Some(r)
    } else {
        proof {
            assert(rp.len() > 0 && rp.last() == p@[n - 1]);
        }
        Some(PathCandidates::Plain(string_of(&base)))
    }
}


proof fn lemma_trim_start_is_suffix(s: Seq<char>, c: char)
    ensures
        exists|k: int| 0 <= k <= s.len() && trim_start_char(s, c) == s.skip(k),
    decreases s.len(),
{
    if s.len() > 0 && s[0] == c {
        lemma_trim_start_is_suffix(s.drop_first(), c);
        let k = choose|k: int| 0 <= k <= s.drop_first().len() && trim_start_char(s.drop_first(), c)
            == s.drop_first().skip(k);
        assert(s.drop_first().skip(k) =~= s.skip(k + 1));
    } else {
        assert(s.skip(0) =~= s);
    }
}

/// A request's path can make the file endpoints look only below the
/// directory: every place they look is the directory, "/", and a part of the
/// request's path that holds neither ".." nor ":" (followed by an index file's
/// name for a directory).
pub proof fn lemma_candidates_stay_below(directory: Seq<char>, request_path: Seq<char>, index_files: Seq<Seq<char>>)
    ensures
        candidates_of(directory, request_path, index_files) matches Some(PathCandidatesModel::Plain(p))
            ==> exists|s: Seq<char>|
            p == trim_end_char(directory, '/') + seq!['/'] + s && !has_dot_dot(s) && !s.contains(':'),
        candidates_of(directory, request_path, index_files) matches Some(PathCandidatesModel::IndexFiles(v))
            ==> exists|s: Seq<char>|
            !has_dot_dot(s) && !s.contains(':') && v.len() == index_files.len() && forall|i: int|
                0 <= i < v.len() ==> #[trigger] v[i] == trim_end_char(directory, '/') + seq!['/'] + s
                    + index_files[i],
{
    if !(has_dot_dot(request_path) || request_path.contains(':')) {
        let rp = trim_start_char(request_path, '/');
        lemma_trim_start_is_suffix(request_path, '/');
        let k = choose|k: int| 0 <= k <= request_path.len() && rp == request_path.skip(k);
        assert(!has_dot_dot(rp)) by {
            if has_dot_dot(rp) {
                let i = choose|i: int| 0 <= i < rp.len() - 1 && #[trigger] rp[i] == '.' && rp[i + 1] == '.';
                assert(request_path[i + k] == '.' && request_path[i + k + 1] == '.');
            }
        }
        assert(!rp.contains(':')) by {
            if rp.contains(':') {
                let i = choose|i: int| 0 <= i < rp.len() && rp[i] == ':';
                assert(request_path[i + k] == ':');
            }
        }
    }
}


/// An endpoint that answers every request with 301 Moved Permanently to the
/// location, without a body.
pub fn redirect(location: &str) -> (r: impl Fn(&RequestContext) -> TiiResult<Response>)
    ensures
        forall|req: &RequestContext| #[trigger] r.requires((req,)),
        forall|req: &RequestContext, res: TiiResult<Response>|
            #[trigger] r.ensures((req,), res) ==> (res matches Ok(resp) && resp@ == located_response(
                TiiStatusCode::MovedPermanently,
                location@,
            ) && resp.wf()),
{
    let loc = string_from(location);
    move |_request: &RequestContext| -> (res: TiiResult<Response>)
        ensures
            res matches Ok(resp) && resp@ == located_response(TiiStatusCode::MovedPermanently, location@)
                && resp.wf(),
        { Ok(Response::moved_permanently_no_body(loc.as_str())) }
}

} // verus!
