//! Routes: the paths they are declared with, how a request's path is matched
//! against them, and how well a request fits a route.
use crate::method::HttpMethod;
use crate::mime::{permits_spec, permits_specific_spec, TiiAcceptMimeType, TiiMimeType, TiiQValue};
use crate::mime::AcceptItem;
use crate::request::RequestHeadModel;
use crate::request_context::{params_set, RequestContext};
use crate::text::{chars_of, find_char, index_of, string_from, string_of_range};
use crate::tii_error::{InvalidPathError, TiiError, TiiResult};
use vstd::prelude::*;

verus! {

// ---------------------------------------------------------------- regexes

/// What compiling a regex can fail with.
#[derive(Debug)]
pub enum RegexError<S = String> {
    /// The pattern is not a valid regex; the text explains why.
    Syntax(S),
    /// The compiled regex would exceed this size limit.
    TooBig(usize),
}

impl View for RegexError<String> {
    type V = RegexError<Seq<char>>;

    open spec fn view(&self) -> RegexError<Seq<char>> {
        match self {
            RegexError::Syntax(s) => RegexError::Syntax(s@),
            RegexError::TooBig(l) => RegexError::TooBig(*l),
        }
    }
}

/// The error that the regex crate's compiler gives for the pattern, if any.
pub uninterp spec fn regex_error(pattern: Seq<char>) -> Option<RegexError<Seq<char>>>;

/// Whether a regex compiled from the pattern finds a match anywhere in the text.
pub uninterp spec fn regex_finds(pattern: Seq<char>, text: Seq<char>) -> bool;

#[verifier::external_type_specification]
#[verifier::external_body]
pub struct ExRegex(regex::Regex);

/// A compiled regex together with the pattern it was compiled from.
#[derive(Debug)]
pub struct PathRegex {
    pattern: String,
    compiled: regex::Regex,
}

/// Compiles the pattern with `regex::Regex::new`. Its result depends on the
/// pattern alone: the error, if any, is named by `regex_error`, and the regex
/// is kept beside the pattern it was compiled from. Errors other than a
/// syntax error or a size limit (the crate's error enum is open) are given as
/// a syntax error with the error's text.
#[verifier::external_body]
fn compile_regex(pattern: &str) -> (r: Result<PathRegex, RegexError>)
    ensures
        r matches Ok(re) ==> re.pattern@ == pattern@ && regex_error(pattern@) is None,
        r matches Err(e) ==> regex_error(pattern@) == Some(e@),
{
    match regex::Regex::new(pattern) {
        Ok(compiled) => Ok(PathRegex { pattern: pattern.to_string(), compiled }),
        Err(regex::Error::Syntax(s)) => Err(RegexError::Syntax(s)),
        Err(regex::Error::CompiledTooBig(l)) => Err(RegexError::TooBig(l)),
        Err(e) => Err(RegexError::Syntax(e.to_string())),
    }
}

/// Calls `regex::Regex::is_match` on the regex, which was compiled from
/// `re.pattern` (`compile_regex` is the only maker of a `PathRegex`): whether
/// the regex matches anywhere in the text, as named by `regex_finds`.
#[verifier::external_body]
fn regex_is_match(re: &PathRegex, text: &str) -> (r: bool)
    ensures
        r == regex_finds(re.pattern@, text@),
{
    re.compiled.is_match(text)
}

// ---------------------------------------------------------------- route paths

/// One part of a route's path.
#[derive(Debug)]
enum PathPart {
    Literal(String),
    Variable(String),
    Wildcard,
    RegexVariable(String, PathRegex),
    RegexTailVariable(String, PathRegex),
}

/// The model of one part of a route's path: a literal segment, a variable
/// segment, `*` for the rest of the path, or a variable segment (or rest of
/// the path) that must match a regex, given by its pattern.
pub enum PathPartModel {
    Literal(Seq<char>),
    Variable(Seq<char>),
    Wildcard,
    RegexVariable(Seq<char>, Seq<char>),
    RegexTailVariable(Seq<char>, Seq<char>),
}

impl View for PathPart {
    type V = PathPartModel;

    closed spec fn view(&self) -> PathPartModel {
        match self {
            PathPart::Literal(s) => PathPartModel::Literal(s@),
            PathPart::Variable(s) => PathPartModel::Variable(s@),
            PathPart::Wildcard => PathPartModel::Wildcard,
            PathPart::RegexVariable(n, re) => PathPartModel::RegexVariable(n@, re.pattern@),
            PathPart::RegexTailVariable(n, re) => PathPartModel::RegexTailVariable(n@, re.pattern@),
        }
    }
}

spec fn part_views(v: Seq<PathPart>) -> Seq<PathPartModel> {
    Seq::new(v.len(), |i: int| v[i]@)
}

/// Nothing is left of a path, or only a "/".
pub open spec fn nothing_left(s: Seq<char>) -> bool {
    s.len() == 0 || s == seq!['/']
}

/// The text up to the first "/", and the text after it; the whole text and
/// nothing where there is no "/".
pub open spec fn split_first(s: Seq<char>) -> (Seq<char>, Seq<char>) {
    let i = index_of(s, '/');
    if 0 <= i < s.len() {
        (s.take(i), s.skip(i + 1))
    } else {
        (s, seq![])
    }
}

/// The part that a segment other than "*" declares: `{name}` a variable,
/// `{name:regex}` a variable that must match the regex (the rest of the path
/// where it is the last segment), anything else a literal.
pub open spec fn part_of(seg: Seq<char>, last: bool, full: Seq<char>) -> Result<
    PathPartModel,
    InvalidPathError<Seq<char>>,
> {
    if seg.len() >= 2 && seg[0] == '{' && seg.last() == '}' {
        let var = seg.subrange(1, seg.len() - 1);
        let j = index_of(var, ':');
        if j < 0 {
            Ok(PathPartModel::Variable(var))
        } else {
            let name = var.take(j);
            let re = var.skip(j + 1);
            match regex_error(re) {
                Some(RegexError::Syntax(s)) => Err(InvalidPathError::RegexSyntaxError(full, re, s)),
                Some(RegexError::TooBig(l)) => Err(InvalidPathError::RegexTooBig(full, re, l)),
                None => if last {
                    Ok(PathPartModel::RegexTailVariable(name, re))
                } else {
                    Ok(PathPartModel::RegexVariable(name, re))
                },
            }
        }
    } else {
        Ok(PathPartModel::Literal(seg))
    }
}

/// The parts of the rest of a route's path, segment by segment.
pub open spec fn parse_parts(rest: Seq<char>, full: Seq<char>) -> Result<
    Seq<PathPartModel>,
    InvalidPathError<Seq<char>>,
>
    decreases rest.len(),
{
    if nothing_left(rest) {
        Ok(seq![])
    } else {
        let i = index_of(rest, '/');
        let seg = if 0 <= i < rest.len() { rest.take(i) } else { rest };
        let next = if 0 <= i < rest.len() { rest.skip(i + 1) } else { seq![] };
        if seg == seq!['*'] {
            if nothing_left(next) {
                Ok(seq![PathPartModel::Wildcard])
            } else {
                Err(InvalidPathError::MorePartsAfterWildcard(full))
            }
        } else {
            match part_of(seg, nothing_left(next), full) {
                Err(e) => Err(e),
                Ok(p) => match parse_parts(next, full) {
                    Err(e) => Err(e),
                    Ok(ps) => Ok(seq![p] + ps),
                },
            }
        }
    }
}

/// The parts of a route's path, after one leading "/"; "/" and "" have none.
pub open spec fn parsed_path(path: Seq<char>) -> Result<Seq<PathPartModel>, InvalidPathError<Seq<char>>> {
    if nothing_left(path) {
        Ok(seq![])
    } else if path[0] == '/' {
        parse_parts(path.drop_first(), path)
    } else {
        parse_parts(path, path)
    }
}

fn part_from(full: &Vec<char>, path: &str, from: usize, to: usize, last: bool) -> (r: Result<
    PathPart,
    InvalidPathError,
>)
    requires
        from <= to <= full@.len(),
        path@ == full@,
    ensures
        r matches Ok(p) ==> part_of(full@.subrange(from as int, to as int), last, full@) == Ok::<
            PathPartModel,
            InvalidPathError<Seq<char>>,
        >(p@),
        r matches Err(e) ==> part_of(full@.subrange(from as int, to as int), last, full@) == Err::<
            PathPartModel,
            InvalidPathError<Seq<char>>,
        >(e@),
{
    let ghost seg = full@.subrange(from as int, to as int);
    if to - from >= 2 && full[from] == '{' && full[to - 1] == '}' {
        let ghost var = seg.subrange(1, seg.len() - 1);
        assert(var =~= full@.subrange(from + 1, to - 1));
        match find_char(full, ':', from + 1) {
            Some(k) if k < to - 1 => {
                proof {
                    assert forall|j: int| 0 <= j < k - (from + 1) implies var[j] != ':' by {
                        assert(var[j] == full@[from + 1 + j]);
                    }
                    crate::text::lemma_index_of(var, ':', k - (from + 1));
                }
                let name = string_of_range(full, from + 1, k);
                let pattern = string_of_range(full, k + 1, to - 1);
                assert(name@ =~= var.take(k - (from + 1)));
                assert(pattern@ =~= var.skip(k - (from + 1) + 1));
                match compile_regex(pattern.as_str()) {
                    Ok(re) => if last {
                        Ok(PathPart::RegexTailVariable(name, re))
                    } else {
                        Ok(PathPart::RegexVariable(name, re))
                    },
                    Err(RegexError::Syntax(s)) => Err(
                        InvalidPathError::RegexSyntaxError(string_from(path), pattern, s),
                    ),
                    Err(RegexError::TooBig(l)) => Err(InvalidPathError::RegexTooBig(string_from(path), pattern, l)),
                }
            },
            _ => {
                proof {
                    assert forall|j: int| 0 <= j < var.len() implies var[j] != ':' by {
                        assert(var[j] == full@[from + 1 + j]);
                    }
                    crate::text::lemma_index_of(var, ':', -1);
                }
                let name = string_of_range(full, from + 1, to - 1);
                Ok(PathPart::Variable(name))
            },
        }
    } else {
        Ok(PathPart::Literal(string_of_range(full, from, to)))
    }
}

/// Reads the parts of a route's path.
fn parse_path(path: &str) -> (r: Result<Vec<PathPart>, InvalidPathError>)
    ensures
        r matches Ok(v) ==> parsed_path(path@) == Ok::<Seq<PathPartModel>, InvalidPathError<Seq<char>>>(
            part_views(v@),
        ),
        r matches Err(e) ==> parsed_path(path@) == Err::<Seq<PathPartModel>, InvalidPathError<Seq<char>>>(e@),
{
    let full = chars_of(path);
    let n = full.len();
    if n == 0 || (n == 1 && full[0] == '/') {
        proof {
            if n == 1 {
                assert(full@ =~= seq!['/']);
            }
        }
        let v: Vec<PathPart> = Vec::new();
        assert(part_views(v@) =~= Seq::<PathPartModel>::empty());
        return Ok(v);
    }
    let mut pos: usize = if full[0] == '/' { 1 } else { 0 };
    proof {
        if pos == 1 {
            assert(full@.skip(1) =~= full@.drop_first());
        } else {
            assert(full@.skip(0) =~= full@);
        }
    }
    let mut parts: Vec<PathPart> = Vec::new();
    loop
        invariant
            n == full@.len(),
            full@ == path@,
            pos <= n,
            !nothing_left(full@),
            parsed_path(full@) == match parse_parts(full@.skip(pos as int), full@) {
                Ok(ps) => Ok(part_views(parts@) + ps),
                Err(e) => Err(e),
            },
        decreases n - pos,
    {
        let ghost rest = full@.skip(pos as int);
        if pos == n || (pos + 1 == n && full[pos] == '/') {
            proof {
                if pos + 1 == n {
                    assert(rest =~= seq!['/']);
                }
                assert(part_views(parts@) + Seq::<PathPartModel>::empty() =~= part_views(parts@));
            }
            return Ok(parts);
        }
        proof {
            if rest == seq!['/'] {
                assert(rest.len() == 1 && rest[0] == full@[pos as int]);
            }
            crate::text::lemma_index_of_bounds(rest, '/');
        }
        let (seg_end, next) = match find_char(&full, '/', pos) {
            Some(k) => (k, k + 1),
            None => (n, n),
        };
        let ghost seg = full@.subrange(pos as int, seg_end as int);
        proof {
            let i = index_of(rest, '/');
            if 0 <= i < rest.len() {
                assert(seg =~= rest.take(i));
                assert(full@.skip(next as int) =~= rest.skip(i + 1));
            } else {
                assert(seg =~= rest);
                assert(full@.skip(next as int) =~= Seq::<char>::empty());
            }
        }
        let next_nothing = next == n || (next + 1 == n && full[next] == '/');
        proof {
            let nx = full@.skip(next as int);
            if next + 1 == n {
                assert(nx.len() == 1 && nx[0] == full@[next as int]);
                if full@[next as int] == '/' {
                    assert(nx =~= seq!['/']);
                }
            }
            if nx == seq!['/'] {
                assert(nx[0] == full@[next as int]);
            }
            assert(next_nothing == nothing_left(nx));
        }
        if seg_end - pos == 1 && full[pos] == '*' {
            assert(seg =~= seq!['*']);
            if next_nothing {
                let ghost before = part_views(parts@);
                parts.push(PathPart::Wildcard);
                assert(part_views(parts@) =~= before + seq![PathPartModel::Wildcard]);
                return Ok(parts);
            }
            return Err(InvalidPathError::MorePartsAfterWildcard(string_from(path)));
        }
        proof {
            if seg == seq!['*'] {
                assert(seg.len() == 1 && seg[0] == full@[pos as int]);
            }
        }
        match part_from(&full, path, pos, seg_end, next_nothing) {
            Err(e) => {
                return Err(e);
            },
            Ok(p) => {
                let ghost before = part_views(parts@);
                parts.push(p);
                proof {
                    assert(part_views(parts@) =~= before.push(p@));
                    match parse_parts(full@.skip(next as int), full@) {
                        Ok(ps) => {
                            assert(before + (seq![p@] + ps) =~= part_views(parts@) + ps);
                        },
                        Err(_) => {},
                    }
                }
                pos = next;
            },
        }
    }
}


// ---------------------------------------------------------------- matching a path

/// The path parameters that a match binds, in the order they were first bound.
pub type Params = Seq<(Seq<char>, Seq<char>)>;

/// Whether a part matches a segment; `rest` is the path from that segment on.
pub open spec fn part_matches(p: PathPartModel, seg: Seq<char>, rest: Seq<char>) -> bool {
    match p {
        PathPartModel::Literal(l) => seg == l,
        PathPartModel::Variable(_) => true,
        PathPartModel::Wildcard => true,
        PathPartModel::RegexVariable(_, re) => regex_finds(re, seg),
        PathPartModel::RegexTailVariable(_, re) => regex_finds(re, rest),
    }
}

/// The parameters after a part matched: a variable binds the segment, a tail
/// variable the rest of the path.
pub open spec fn bind_part(ps: Params, p: PathPartModel, seg: Seq<char>, rest: Seq<char>) -> Params {
    match p {
        PathPartModel::Variable(n) => params_set(ps, n, seg),
        PathPartModel::RegexVariable(n, _) => params_set(ps, n, seg),
        PathPartModel::RegexTailVariable(n, _) => params_set(ps, n, rest),
        _ => ps,
    }
}

/// Whether a part takes the whole rest of the path.
pub open spec fn is_tail_part(p: PathPartModel) -> bool {
    p is Wildcard || p is RegexTailVariable
}

/// Matches the rest of a request's path against the parts from `k` on:
/// segment by segment; a tail part ends the match; without parts left the
/// path must be used up.
pub open spec fn match_from(parts: Seq<PathPartModel>, k: nat, rest: Seq<char>, ps: Params) -> Option<Params>
    decreases parts.len() - k,
{
    if k >= parts.len() {
        if rest.len() == 0 {
            Some(ps)
        } else {
            None
        }
    } else {
        let seg = split_first(rest).0;
        let p = parts[k as int];
        if !part_matches(p, seg, rest) {
            None
        } else if is_tail_part(p) {
            Some(bind_part(ps, p, seg, rest))
        } else {
            match_from(parts, k + 1, split_first(rest).1, bind_part(ps, p, seg, rest))
        }
    }
}

/// The parameters that a request's path binds when it matches the parts, or
/// `None`; the path must start with "/".
pub open spec fn path_match(parts: Seq<PathPartModel>, path: Seq<char>) -> Option<Params> {
    if path.len() == 0 || path[0] != '/' {
        None
    } else if path.len() == 1 && parts.len() == 0 {
        Some(seq![])
    } else {
        match_from(parts, 0, path.drop_first(), seq![])
    }
}

/// Sets a parameter in a list of key and value pairs.
fn set_param(ps: &mut Vec<(String, String)>, key: &str, value: &str)
    ensures
        crate::request_context::pair_views(final(ps)@) == params_set(
            crate::request_context::pair_views(old(ps)@),
            key@,
            value@,
        ),
{
    let ghost pv = crate::request_context::pair_views(old(ps)@);
    proof {
        crate::request_context::lemma_param_index(pv, key@);
    }
    let mut i: usize = 0;
    while i < ps.len()
        invariant
            i <= ps@.len(),
            pv == crate::request_context::pair_views(ps@),
            pv == crate::request_context::pair_views(old(ps)@),
            forall|j: int| 0 <= j < i ==> pv[j].0 != key@,
            -1 <= crate::request_context::param_index(pv, key@) < pv.len(),
            crate::request_context::param_index(pv, key@) >= 0 ==> pv[crate::request_context::param_index(
                pv,
                key@,
            )].0 == key@,
            crate::request_context::param_index(pv, key@) >= 0 ==> forall|j: int|
                0 <= j < crate::request_context::param_index(pv, key@) ==> pv[j].0 != key@,
            crate::request_context::param_index(pv, key@) < 0 ==> forall|j: int|
                0 <= j < pv.len() ==> pv[j].0 != key@,
        decreases ps@.len() - i,
    {
        if crate::text::str_eq(ps[i].0.as_str(), key) {
            assert(pv[i as int].0 == key@);
            assert(crate::request_context::param_index(pv, key@) == i as int);
            ps.set(i, (string_from(key), string_from(value)));
            assert(crate::request_context::pair_views(ps@) =~= pv.update(i as int, (key@, value@)));
            return;
        }
        i = i + 1;
    }
    ps.push((string_from(key), string_from(value)));
    assert(crate::request_context::pair_views(ps@) =~= pv.push((key@, value@)));
}

impl PathPart {
    fn is_tail(&self) -> (r: bool)
        ensures
            r == is_tail_part(self@),
    {
        match self {
            PathPart::Wildcard => true,
            PathPart::RegexTailVariable(_, _) => true,
            _ => false,
        }
    }

    /// Matches the segment, binding a variable where the part is one.
    fn matches(&self, seg: &str, rest: &str, params: &mut Vec<(String, String)>) -> (r: bool)
        ensures
            r == part_matches(self@, seg@, rest@),
            r ==> crate::request_context::pair_views(final(params)@) == bind_part(
                crate::request_context::pair_views(old(params)@),
                self@,
                seg@,
                rest@,
            ),
    {
        match self {
            PathPart::Literal(literal) => crate::text::str_eq(seg, literal.as_str()),
            PathPart::Variable(name) => {
                set_param(params, name.as_str(), seg);
                true
            },
            PathPart::Wildcard => true,
            PathPart::RegexVariable(name, re) => {
                if regex_is_match(re, seg) {
                    set_param(params, name.as_str(), seg);
                    true
                } else {
                    false
                }
            },
            PathPart::RegexTailVariable(name, re) => {
                if regex_is_match(re, rest) {
                    set_param(params, name.as_str(), rest);
                    true
                } else {
                    false
                }
            },
        }
    }
}

/// Matches a request's path against the parts.
fn match_path(parts: &Vec<PathPart>, path: &str) -> (r: Option<Vec<(String, String)>>)
    ensures
        r matches Some(v) ==> path_match(part_views(parts@), path@) == Some(crate::request_context::pair_views(v@)),
        r is None ==> path_match(part_views(parts@), path@) is None,
{
    let full = chars_of(path);
    let n = full.len();
    let ghost pv = part_views(parts@);
    if n == 0 || full[0] != '/' {
        return None;
    }
    let mut params: Vec<(String, String)> = Vec::new();
    assert(crate::request_context::pair_views(params@) =~= Seq::<(Seq<char>, Seq<char>)>::empty());
    if n == 1 && parts.len() == 0 {
        return Some(params);
    }
    assert(full@.skip(1) =~= full@.drop_first());
    let mut pos: usize = 1;
    let mut k: usize = 0;
    loop
        invariant
            n == full@.len(),
            full@ == path@,
            1 <= pos <= n,
            k <= parts@.len(),
            pv == part_views(parts@),
            path_match(pv, path@) == match_from(
                pv,
                k as nat,
                full@.skip(pos as int),
                crate::request_context::pair_views(params@),
            ),
        decreases parts@.len() - k,
    {
        let ghost rest = full@.skip(pos as int);
        let ghost ps = crate::request_context::pair_views(params@);
        proof {
            crate::text::lemma_index_of_bounds(rest, '/');
        }
        if k >= parts.len() {
            if pos == n {
                assert(rest.len() == 0);
                return Some(params);
            }
            return None;
        }
        let (seg_end, next) = match find_char(&full, '/', pos) {
            Some(j) => (j, j + 1),
            None => (n, n),
        };
        proof {
            let i = index_of(rest, '/');
            if 0 <= i < rest.len() {
                assert(full@.subrange(pos as int, seg_end as int) =~= rest.take(i));
                assert(full@.skip(next as int) =~= rest.skip(i + 1));
            } else {
                assert(full@.subrange(pos as int, seg_end as int) =~= rest);
                assert(full@.skip(next as int) =~= Seq::<char>::empty());
            }
        }
        let seg = string_of_range(&full, pos, seg_end);
        let rest_text = string_of_range(&full, pos, n);
        assert(rest_text@ =~= rest);
        let part = &parts[k];
        if !part.matches(seg.as_str(), rest_text.as_str(), &mut params) {
            return None;
        }
        if part.is_tail() {
            return Some(params);
        }
        k = k + 1;
        pos = next;
    }
}

// ---------------------------------------------------------------- routing decisions

/// How a request could be routed on a route.
#[derive(Debug)]
pub enum TiiRoutingDecision {
    /// The route matches with the given quality; the path parameters it binds.
    Match(TiiQValue, Vec<(String, String)>),
    /// The path does not match.
    PathMismatch,
    /// The path matches, the method does not.
    MethodMismatch,
    /// Path and method match, the request body cannot be processed by the route.
    MimeMismatch,
    /// Path and method match, the client accepts nothing that the route produces.
    AcceptMismatch,
}

/// The model of a routing decision.
pub enum RoutingDecisionModel {
    Match(u16, Params),
    PathMismatch,
    MethodMismatch,
    MimeMismatch,
    AcceptMismatch,
}

impl View for TiiRoutingDecision {
    type V = RoutingDecisionModel;

    open spec fn view(&self) -> RoutingDecisionModel {
        match self {
            TiiRoutingDecision::Match(q, ps) => RoutingDecisionModel::Match(
                q@,
                crate::request_context::pair_views(ps@),
            ),
            TiiRoutingDecision::PathMismatch => RoutingDecisionModel::PathMismatch,
            TiiRoutingDecision::MethodMismatch => RoutingDecisionModel::MethodMismatch,
            TiiRoutingDecision::MimeMismatch => RoutingDecisionModel::MimeMismatch,
            TiiRoutingDecision::AcceptMismatch => RoutingDecisionModel::AcceptMismatch,
        }
    }
}

/// Where decisions stand in the order by which the best route is chosen:
/// a path mismatch lowest, then a method, a mime and an accept mismatch, a
/// match highest.
pub open spec fn decision_rank(d: RoutingDecisionModel) -> int {
    match d {
        RoutingDecisionModel::PathMismatch => 0,
        RoutingDecisionModel::MethodMismatch => 1,
        RoutingDecisionModel::MimeMismatch => 2,
        RoutingDecisionModel::AcceptMismatch => 3,
        RoutingDecisionModel::Match(_, _) => 4,
    }
}

/// Whether decision `a` is ordered below `b`: by rank, and two matches by quality.
pub open spec fn decision_less(a: RoutingDecisionModel, b: RoutingDecisionModel) -> bool {
    match (a, b) {
        (RoutingDecisionModel::Match(qa, _), RoutingDecisionModel::Match(qb, _)) => qa < qb,
        _ => decision_rank(a) < decision_rank(b),
    }
}

impl TiiRoutingDecision {
    /// Whether this decision is ordered below the other one.
    pub fn is_worse_than(&self, other: &TiiRoutingDecision) -> (r: bool)
        ensures
            r == decision_less(self@, other@),
    {
        match (self, other) {
            (TiiRoutingDecision::Match(qa, _), TiiRoutingDecision::Match(qb, _)) => qa.as_u16() < qb.as_u16(),
            _ => self.rank() < other.rank(),
        }
    }

    fn rank(&self) -> (r: u8)
        ensures
            r == decision_rank(self@),
    {
        match self {
            TiiRoutingDecision::PathMismatch => 0,
            TiiRoutingDecision::MethodMismatch => 1,
            TiiRoutingDecision::MimeMismatch => 2,
            TiiRoutingDecision::AcceptMismatch => 3,
            TiiRoutingDecision::Match(_, _) => 4,
        }
    }
}

/// The order of decisions is a strict order: never both ways, and transitive.
pub proof fn lemma_decision_order(a: RoutingDecisionModel, b: RoutingDecisionModel, c: RoutingDecisionModel)
    ensures
        !(decision_less(a, b) && decision_less(b, a)),
        !decision_less(a, a),
        decision_less(a, b) && decision_less(b, c) ==> decision_less(a, c),
        !decision_less(a, b) && !decision_less(b, a) ==> decision_rank(a) == decision_rank(b),
{
}

/// Whether some mime type that the route consumes permits the request's content type.
pub open spec fn consumes_ok(consumes: Seq<TiiAcceptMimeType<Seq<char>>>, ct: Option<TiiMimeType<Seq<char>>>) -> bool {
    match ct {
        None => true,
        Some(m) => exists|i: int| 0 <= i < consumes.len() && permits_specific_spec(consumes[i], m),
    }
}

/// Whether an accepted type permits some type that the route produces.
pub open spec fn accept_permits(a: AcceptItem, produces: Seq<TiiAcceptMimeType<Seq<char>>>) -> bool {
    exists|j: int| 0 <= j < produces.len() && permits_spec(a.0, produces[j])
}

/// The highest quality among the accepted types that permit something the
/// route produces, if any does.
pub open spec fn best_quality(acc: Seq<AcceptItem>, produces: Seq<TiiAcceptMimeType<Seq<char>>>) -> Option<u16>
    decreases acc.len(),
{
    if acc.len() == 0 {
        None
    } else {
        let rest = best_quality(acc.drop_last(), produces);
        if accept_permits(acc.last(), produces) {
            match rest {
                None => Some(acc.last().1),
                Some(q) => Some(if acc.last().1 > q { acc.last().1 } else { q }),
            }
        } else {
            rest
        }
    }
}

/// The model of a route.
pub struct RouteableModel {
    pub path: Seq<char>,
    pub parts: Seq<PathPartModel>,
    pub method: HttpMethod<Seq<char>>,
    pub consumes: Seq<TiiAcceptMimeType<Seq<char>>>,
    pub produces: Seq<TiiAcceptMimeType<Seq<char>>>,
}

/// How the request fits the route: the path must match, then the method; the
/// request's content type must be one the route consumes; a route that
/// produces nothing declared matches with full quality, otherwise the client
/// must accept something, and the best quality of what it accepts decides.
pub open spec fn route_decision(rt: RouteableModel, h: RequestHeadModel) -> RoutingDecisionModel {
    match path_match(rt.parts, h.path) {
        None => RoutingDecisionModel::PathMismatch,
        Some(ps) => if rt.method != h.method {
            RoutingDecisionModel::MethodMismatch
        } else if !consumes_ok(rt.consumes, h.content_type) {
            RoutingDecisionModel::MimeMismatch
        } else if rt.produces.len() == 0 {
            RoutingDecisionModel::Match(1000, ps)
        } else if h.accept.len() == 0 {
            RoutingDecisionModel::MimeMismatch
        } else {
            match best_quality(h.accept, rt.produces) {
                Some(q) => RoutingDecisionModel::Match(q, ps),
                None => RoutingDecisionModel::AcceptMismatch,
            }
        },
    }
}

/// A route: its path, method, and the mime types it consumes and produces.
#[derive(Debug)]
pub struct TiiRouteable {
    path: String,
    parts: Vec<PathPart>,
    method: HttpMethod,
    consumes: Vec<TiiAcceptMimeType>,
    produces: Vec<TiiAcceptMimeType>,
}

/// The models of a list of accepted mime types.
pub open spec fn accept_type_views(v: Seq<TiiAcceptMimeType>) -> Seq<TiiAcceptMimeType<Seq<char>>> {
    Seq::new(v.len(), |i: int| v[i]@)
}

impl View for TiiRouteable {
    type V = RouteableModel;

    closed spec fn view(&self) -> RouteableModel {
        RouteableModel {
            path: self.path@,
            parts: part_views(self.parts@),
            method: self.method@,
            consumes: accept_type_views(self.consumes@),
            produces: accept_type_views(self.produces@),
        }
    }
}

impl TiiRouteable {
    /// A route for the path and method; an error where the path is not a
    /// valid route path. An empty list of produced types means the route
    /// produces whatever matches.
    pub fn new(
        path: &str,
        method: HttpMethod,
        consumes: Vec<TiiAcceptMimeType>,
        produces: Vec<TiiAcceptMimeType>,
    ) -> (r: TiiResult<TiiRouteable>)
        ensures
            r matches Ok(rt) ==> parsed_path(path@) == Ok::<Seq<PathPartModel>, InvalidPathError<Seq<char>>>(
                rt@.parts,
            ) && rt@.path == path@ && rt@.method == method@ && rt@.consumes == accept_type_views(consumes@)
                && rt@.produces == accept_type_views(produces@),
            r matches Err(e) ==> parsed_path(path@) matches Err(pe) && e@ == TiiError::<
                Seq<char>,
                Seq<u8>,
            >::InvalidPathError(pe),
    {
        match parse_path(path) {
            Err(e) => Err(TiiError::InvalidPathError(e)),
            Ok(parts) => Ok(TiiRouteable { path: string_from(path), parts, method, consumes, produces }),
        }
    }

    /// The path of the route.
    pub fn path(&self) -> (r: &str)
        ensures
            r@ == self@.path,
    {
        self.path.as_str()
    }

    /// The method of the route.
    pub fn method(&self) -> (r: &HttpMethod)
        ensures
            r@ == self@.method,
    {
        &self.method
    }

    /// The mime types the route consumes.
    pub fn consumes(&self) -> (r: &[TiiAcceptMimeType])
        ensures
            accept_type_views(r@) == self@.consumes,
    {
        self.consumes.as_slice()
    }

    /// The mime types the route produces.
    pub fn produces(&self) -> (r: &[TiiAcceptMimeType])
        ensures
            accept_type_views(r@) == self@.produces,
    {
        self.produces.as_slice()
    }

    fn consumes_any(&self, ct: &TiiMimeType) -> (r: bool)
        ensures
            r == consumes_ok(self@.consumes, Some(ct@)),
    {
        let ghost cs = self@.consumes;
        let mut i: usize = 0;
        while i < self.consumes.len()
            invariant
                i <= self.consumes@.len(),
                cs == accept_type_views(self.consumes@),
                forall|j: int| 0 <= j < i ==> !permits_specific_spec(cs[j], ct@),
            decreases self.consumes@.len() - i,
        {
            if self.consumes[i].permits_specific(ct) {
                assert(permits_specific_spec(cs[i as int], ct@));
                return true;
            }
            i = i + 1;
        }
        false
    }

    fn permits_any(&self, a: &TiiAcceptMimeType) -> (r: bool)
        ensures
            r == (exists|j: int| 0 <= j < self@.produces.len() && permits_spec(a@, self@.produces[j])),
    {
        let ghost ps = self@.produces;
        let mut i: usize = 0;
        while i < self.produces.len()
            invariant
                i <= self.produces@.len(),
                ps == accept_type_views(self.produces@),
                forall|j: int| 0 <= j < i ==> !permits_spec(a@, ps[j]),
            decreases self.produces@.len() - i,
        {
            if a.permits(&self.produces[i]) {
                assert(permits_spec(a@, self@.produces[i as int]));
                return true;
            }
            i = i + 1;
        }
        false
    }

    /// How the request fits the route, and the path parameters a match binds.
    pub fn matches(&self, route: &RequestContext) -> (r: TiiRoutingDecision)
        ensures
            r@ == route_decision(self@, route@.head),
    {
        let head = route.request_head();
        let params = match match_path(&self.parts, head.path()) {
            None => {
                return TiiRoutingDecision::PathMismatch;
            },
            Some(p) => p,
        };
        if !self.method.same_as(head.method()) {
            return TiiRoutingDecision::MethodMismatch;
        }
        if let Some(content_type) = head.get_content_type() {
            if !self.consumes_any(content_type) {
                return TiiRoutingDecision::MimeMismatch;
            }
        }
        if self.produces.len() == 0 {
            return TiiRoutingDecision::Match(TiiQValue::from_clamped(1000), params);
        }
        let acc = head.get_accept();
        if acc.len() == 0 {
            return TiiRoutingDecision::MimeMismatch;
        }
        let ghost av = head@.accept;
        let mut current: Option<u16> = None;
        let mut i: usize = 0;
        while i < acc.len()
            invariant
                i <= acc@.len(),
                av == head@.accept,
                av.len() == acc@.len(),
                forall|j: int| 0 <= j < acc@.len() ==> #[trigger] av[j] == acc@[j]@,
                current == best_quality(av.take(i as int), self@.produces),
                current matches Some(c) ==> c <= 1000,
            decreases acc@.len() - i,
        {
            let ghost t = av.take(i + 1);
            assert(t.drop_last() =~= av.take(i as int));
            assert(t.last() == acc@[i as int]@);
            if self.permits_any(acc[i].get_type()) {
                let q = acc[i].qvalue().as_u16();
                current = match current {
                    None => Some(q),
                    Some(c) => if q > c {
                        Some(q)
                    } else {
                        Some(c)
                    },
                };
            }
            i = i + 1;
        }
        assert(av.take(acc@.len() as int) =~= av);
        match current {
            Some(q) => TiiRoutingDecision::Match(TiiQValue::from_clamped(q), params),
            None => TiiRoutingDecision::AcceptMismatch,
        }
    }
}


// ---------------------------------------------------------------- choosing a route

/// The best decision among the routes' decisions, and the position of the
/// route that gives it where it is a match: a later decision replaces the
/// best so far only where it is ordered above it, so the first of equally
/// good matches wins.
pub open spec fn best_decision(ds: Seq<RoutingDecisionModel>) -> (RoutingDecisionModel, Option<int>)
    decreases ds.len(),
{
    if ds.len() == 0 {
        (RoutingDecisionModel::PathMismatch, None)
    } else {
        let (b, i) = best_decision(ds.drop_last());
        if decision_less(b, ds.last()) {
            (ds.last(), if ds.last() is Match { Some(ds.len() - 1) } else { i })
        } else {
            (b, i)
        }
    }
}

/// The decisions of the routes for the request, in order.
pub open spec fn decisions_of(routes: Seq<RouteableModel>, h: RequestHeadModel) -> Seq<RoutingDecisionModel> {
    Seq::new(routes.len(), |i: int| route_decision(routes[i], h))
}

/// The models of a list of routes.
pub open spec fn route_views(v: Seq<TiiRouteable>) -> Seq<RouteableModel> {
    Seq::new(v.len(), |i: int| v[i]@)
}

proof fn lemma_best_index(ds: Seq<RoutingDecisionModel>)
    ensures
        best_decision(ds).1 matches Some(i) ==> 0 <= i < ds.len() && best_decision(ds).0 is Match && ds[i]
            == best_decision(ds).0,
        best_decision(ds).0 is Match ==> best_decision(ds).1 is Some,
    decreases ds.len(),
{
    if ds.len() > 0 {
        lemma_best_index(ds.drop_last());
    }
}

/// Decides which route serves the request: the best decision of all routes
/// and, where it is a match, the position of the route that gives it.
pub fn select_route(routes: &[TiiRouteable], request: &RequestContext) -> (r: (TiiRoutingDecision, Option<usize>))
    ensures
        r.0@ == best_decision(decisions_of(route_views(routes@), request@.head)).0,
        r.1 matches Some(i) ==> best_decision(decisions_of(route_views(routes@), request@.head)).1 == Some(
            i as int,
        ),
        r.1 is None ==> best_decision(decisions_of(route_views(routes@), request@.head)).1 is None,
        r.1 matches Some(i) ==> i < routes@.len() && r.0 is Match,
        r.0 is Match ==> r.1 is Some,
{
    let ghost ds = decisions_of(route_views(routes@), request@.head);
    let mut best = TiiRoutingDecision::PathMismatch;
    let mut best_index: Option<usize> = None;
    let mut i: usize = 0;
    assert(ds.take(0) =~= Seq::<RoutingDecisionModel>::empty());
    while i < routes.len()
        invariant
            i <= routes@.len(),
            ds == decisions_of(route_views(routes@), request@.head),
            best@ == best_decision(ds.take(i as int)).0,
            best_index matches Some(k) ==> best_decision(ds.take(i as int)).1 == Some(k as int),
            best_index is None ==> best_decision(ds.take(i as int)).1 is None,
        decreases routes@.len() - i,
    {
        let ghost t = ds.take(i + 1);
        assert(t.drop_last() =~= ds.take(i as int));
        let d = routes[i].matches(request);
        assert(t.last() == d@);
        if best.is_worse_than(&d) {
            if let TiiRoutingDecision::Match(_, _) = d {
                best_index = Some(i);
            }
            best = d;
        }
        i = i + 1;
    }
    assert(ds.take(routes@.len() as int) =~= ds);
    proof {
        lemma_best_index(ds);
    }
    (best, best_index)
}

/// Records the route that serves the request: its path as the routed path,
/// and the path parameters that the match bound, in order.
pub fn apply_route(request: &mut RequestContext, route: &TiiRouteable, params: &Vec<(String, String)>)
    ensures
        final(request)@.routed_path == Some(route@.path),
        final(request)@.head == old(request)@.head,
        final(request)@.force_connection_close == old(request)@.force_connection_close,
        final(request)@.path_params == params_set_all(
            old(request)@.path_params,
            crate::request_context::pair_views(params@),
        ),
{
    request.set_routed_path(route.path());
    let ghost start = request@.path_params;
    let ghost pv = crate::request_context::pair_views(params@);
    let mut i: usize = 0;
    assert(pv.take(0) =~= Seq::<(Seq<char>, Seq<char>)>::empty());
    while i < params.len()
        invariant
            i <= params@.len(),
            pv == crate::request_context::pair_views(params@),
            request@.path_params == params_set_all(start, pv.take(i as int)),
            request@.routed_path == Some(route@.path),
            request@.head == old(request)@.head,
            request@.force_connection_close == old(request)@.force_connection_close,
            start == old(request)@.path_params,
        decreases params@.len() - i,
    {
        let ghost t = pv.take(i + 1);
        assert(t.drop_last() =~= pv.take(i as int));
        let _ = request.set_path_param(params[i].0.as_str(), params[i].1.as_str());
        i = i + 1;
    }
    assert(pv.take(params@.len() as int) =~= pv);
}

/// The parameters after setting each pair in order.
pub open spec fn params_set_all(ps: Params, pairs: Params) -> Params
    decreases pairs.len(),
{
    if pairs.len() == 0 {
        ps
    } else {
        params_set(params_set_all(ps, pairs.drop_last()), pairs.last().0, pairs.last().1)
    }
}

// ---------------------------------------------------------------- laws of matching

proof fn lemma_params_set_no_slash(ps: Params, n: Seq<char>, v: Seq<char>)
    requires
        forall|j: int| 0 <= j < ps.len() ==> !(#[trigger] ps[j]).1.contains('/'),
        !v.contains('/'),
    ensures
        forall|j: int| 0 <= j < params_set(ps, n, v).len() ==> !(#[trigger] params_set(ps, n, v)[j]).1.contains(
            '/',
        ),
{
    let r = params_set(ps, n, v);
    let i = crate::request_context::param_index(ps, n);
    crate::request_context::lemma_param_index(ps, n);
    assert forall|j: int| 0 <= j < r.len() implies !(#[trigger] r[j]).1.contains('/') by {
        if i < 0 {
            if j < ps.len() {
                assert(r[j] == ps[j]);
            } else {
                assert(r[j] == (n, v));
            }
        } else {
            if j == i {
                assert(r[j] == (n, v));
            } else {
                assert(r[j] == ps[j]);
            }
        }
    }
}

proof fn lemma_match_from_no_slash(parts: Seq<PathPartModel>, k: nat, rest: Seq<char>, ps: Params)
    requires
        forall|j: int| 0 <= j < parts.len() ==> !is_tail_part(#[trigger] parts[j]),
        forall|j: int| 0 <= j < ps.len() ==> !(#[trigger] ps[j]).1.contains('/'),
    ensures
        match_from(parts, k, rest, ps) matches Some(out) ==> forall|j: int|
            0 <= j < out.len() ==> !(#[trigger] out[j]).1.contains('/'),
    decreases parts.len() - k,
{
    if k < parts.len() {
        let seg = split_first(rest).0;
        let p = parts[k as int];
        crate::text::lemma_index_of_bounds(rest, '/');
        assert(!seg.contains('/')) by {
            if index_of(rest, '/') >= 0 {
                assert forall|j: int| 0 <= j < seg.len() implies seg[j] != '/' by {}
            }
        }
        assert(!is_tail_part(p));
        let next = bind_part(ps, p, seg, rest);
        match p {
            PathPartModel::Variable(n) => lemma_params_set_no_slash(ps, n, seg),
            PathPartModel::RegexVariable(n, _) => lemma_params_set_no_slash(ps, n, seg),
            _ => {},
        }
        lemma_match_from_no_slash(parts, k + 1, split_first(rest).1, next);
    }
}

/// A route whose path has no tail part (no "*" and no regex variable at its
/// end) binds each path parameter to one segment of the request's path: no
/// bound value holds a "/". So "/u/{id:[0-9]+}/edit" binds id to "12" for
/// "/u/12/edit", never to "12/edit".
pub proof fn lemma_bound_values_hold_no_slash(parts: Seq<PathPartModel>, path: Seq<char>)
    requires
        forall|j: int| 0 <= j < parts.len() ==> !is_tail_part(#[trigger] parts[j]),
    ensures
        path_match(parts, path) matches Some(ps) ==> forall|j: int|
            0 <= j < ps.len() ==> !(#[trigger] ps[j]).1.contains('/'),
{
    if path.len() > 0 && path[0] == '/' && !(path.len() == 1 && parts.len() == 0) {
        lemma_match_from_no_slash(parts, 0, path.drop_first(), seq![]);
    }
}

proof fn lemma_best_quality_bounds(acc: Seq<AcceptItem>, produces: Seq<TiiAcceptMimeType<Seq<char>>>)
    ensures
        forall|i: int| 0 <= i < acc.len() && #[trigger] accept_permits(acc[i], produces) ==> (best_quality(
            acc,
            produces,
        ) matches Some(q) && q >= acc[i].1),
        best_quality(acc, produces) matches Some(q) ==> exists|i: int|
            0 <= i < acc.len() && #[trigger] accept_permits(acc[i], produces) && acc[i].1 == q,
    decreases acc.len(),
{
    if acc.len() > 0 {
        let p = acc.drop_last();
        lemma_best_quality_bounds(p, produces);
        assert forall|i: int| 0 <= i < acc.len() && #[trigger] accept_permits(acc[i], produces) implies (best_quality(
            acc,
            produces,
        ) matches Some(q) && q >= acc[i].1) by {
            if i < p.len() {
                assert(acc[i] == p[i]);
                assert(accept_permits(p[i], produces));
            }
        }
        if best_quality(acc, produces) is Some {
            let q = best_quality(acc, produces).unwrap();
            if accept_permits(acc.last(), produces) && acc.last().1 == q {
                assert(accept_permits(acc[acc.len() - 1], produces));
            } else {
                let i = choose|i: int| 0 <= i < p.len() && #[trigger] accept_permits(p[i], produces) && p[i].1 == q;
                assert(acc[i] == p[i]);
            }
        }
    }
}

/// The quality with which a route that declares what it produces matches a
/// request is the highest quality among the request's accepted types that
/// permit something the route produces: at least the quality of each of them
/// (so one with quality 1.0 gives full quality), and that of one of them.
pub proof fn lemma_match_quality_is_best(rt: RouteableModel, h: RequestHeadModel)
    ensures
        match route_decision(rt, h) {
            RoutingDecisionModel::Match(q, _) => rt.produces.len() > 0 ==> (forall|i: int|
                0 <= i < h.accept.len() && #[trigger] accept_permits(h.accept[i], rt.produces) ==> q
                    >= h.accept[i].1) && (exists|i: int|
                0 <= i < h.accept.len() && #[trigger] accept_permits(h.accept[i], rt.produces)
                    && h.accept[i].1 == q),
            _ => true,
        },
        route_decision(rt, h) is AcceptMismatch ==> forall|i: int|
            0 <= i < h.accept.len() ==> !#[trigger] accept_permits(h.accept[i], rt.produces),
{
    lemma_best_quality_bounds(h.accept, rt.produces);
}

} // verus!
