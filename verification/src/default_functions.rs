//! The responses a router gives where no route serves a request, and where a
//! handler failed.
use crate::method::HttpMethod;
use crate::request_context::RequestContext;
use crate::response::{bare_response, method_not_allowed_response, Response};
use crate::router::{route_decision, route_views, TiiRouteable, TiiRoutingDecision};
use crate::status::TiiStatusCode;
use crate::text::chars_of;
use crate::tii_error::{TiiError, TiiResult};
use vstd::prelude::*;

verus! {

/// Where a method stands in the order that `derive(Ord)` gives methods: by variant.
pub open spec fn method_index(m: HttpMethod<Seq<char>>) -> nat {
    match m {
        HttpMethod::Get => 0,
        HttpMethod::Head => 1,
        HttpMethod::Post => 2,
        HttpMethod::Put => 3,
        HttpMethod::Delete => 4,
        HttpMethod::Options => 5,
        HttpMethod::Trace => 6,
        HttpMethod::Patch => 7,
        HttpMethod::Custom(_) => 8,
    }
}

/// The lexicographic order of texts, character by character, that `String`'s order gives.
pub open spec fn chars_less(a: Seq<char>, b: Seq<char>) -> bool
    decreases a.len(),
{
    if a.len() == 0 {
        b.len() > 0
    } else if b.len() == 0 {
        false
    } else if (a[0] as int) < (b[0] as int) {
        true
    } else if a[0] == b[0] {
        chars_less(a.drop_first(), b.drop_first())
    } else {
        false
    }
}

/// The order of methods: by variant, and custom methods by their text.
pub open spec fn method_less(a: HttpMethod<Seq<char>>, b: HttpMethod<Seq<char>>) -> bool {
    match (a, b) {
        (HttpMethod::Custom(x), HttpMethod::Custom(y)) => chars_less(x, y),
        _ => method_index(a) < method_index(b),
    }
}

/// The methods are in strictly ascending order, so none occurs twice.
pub open spec fn methods_sorted(ms: Seq<HttpMethod<Seq<char>>>) -> bool {
    forall|i: int, j: int| 0 <= i < j < ms.len() ==> method_less(#[trigger] ms[i], #[trigger] ms[j])
}

proof fn lemma_chars_less_irreflexive(a: Seq<char>)
    ensures
        !chars_less(a, a),
    decreases a.len(),
{
    if a.len() > 0 {
        lemma_chars_less_irreflexive(a.drop_first());
    }
}

proof fn lemma_chars_less_asymmetric(a: Seq<char>, b: Seq<char>)
    ensures
        chars_less(a, b) ==> !chars_less(b, a),
    decreases a.len(),
{
    if a.len() > 0 && b.len() > 0 {
        lemma_chars_less_asymmetric(a.drop_first(), b.drop_first());
    }
}

proof fn lemma_chars_less_transitive(a: Seq<char>, b: Seq<char>, c: Seq<char>)
    ensures
        chars_less(a, b) && chars_less(b, c) ==> chars_less(a, c),
    decreases a.len(),
{
    if a.len() > 0 && b.len() > 0 && c.len() > 0 {
        lemma_chars_less_transitive(a.drop_first(), b.drop_first(), c.drop_first());
    }
}

proof fn lemma_chars_less_total(a: Seq<char>, b: Seq<char>)
    ensures
        a != b ==> chars_less(a, b) || chars_less(b, a),
    decreases a.len(),
{
    if a.len() == 0 && b.len() == 0 {
        assert(a =~= b);
    }
    if a.len() > 0 && b.len() > 0 {
        lemma_chars_less_total(a.drop_first(), b.drop_first());
        if a[0] != b[0] {
            assert((a[0] as int) != (b[0] as int));
        }
        if a[0] == b[0] && a.drop_first() == b.drop_first() {
            assert(a =~= seq![a[0]] + a.drop_first());
            assert(b =~= seq![b[0]] + b.drop_first());
        }
    }
}

/// The order of methods is a strict total order.
pub proof fn lemma_method_order(a: HttpMethod<Seq<char>>, b: HttpMethod<Seq<char>>, c: HttpMethod<Seq<char>>)
    ensures
        !method_less(a, a),
        method_less(a, b) ==> !method_less(b, a),
        method_less(a, b) && method_less(b, c) ==> method_less(a, c),
        a != b ==> method_less(a, b) || method_less(b, a),
{
    if let HttpMethod::Custom(x) = a {
        lemma_chars_less_irreflexive(x);
        if let HttpMethod::Custom(y) = b {
            lemma_chars_less_asymmetric(x, y);
            lemma_chars_less_total(x, y);
            if let HttpMethod::Custom(z) = c {
                lemma_chars_less_transitive(x, y, z);
            }
        }
    }
}

fn chars_less_exec(a: &Vec<char>, b: &Vec<char>) -> (r: bool)
    ensures
        r == chars_less(a@, b@),
{
    let mut i: usize = 0;
    assert(a@.skip(0) =~= a@ && b@.skip(0) =~= b@);
    while i < a.len() && i < b.len()
        invariant
            i <= a@.len(),
            i <= b@.len(),
            forall|k: int| 0 <= k < i ==> a@[k] == b@[k],
            chars_less(a@, b@) == chars_less(a@.skip(i as int), b@.skip(i as int)),
        decreases a@.len() - i,
    {
        let ghost sa = a@.skip(i as int);
        let ghost sb = b@.skip(i as int);
        assert(sa[0] == a@[i as int] && sb[0] == b@[i as int]);
        if a[i] < b[i] {
            return true;
        }
        if a[i] != b[i] {
            return false;
        }
        assert(sa.drop_first() =~= a@.skip(i + 1));
        assert(sb.drop_first() =~= b@.skip(i + 1));
        i = i + 1;
    }
    let ghost sa = a@.skip(i as int);
    let ghost sb = b@.skip(i as int);
    i == a.len() && i < b.len()
}

fn method_rank(m: &HttpMethod) -> (r: u8)
    ensures
        r == method_index(m@),
{
    match m {
        HttpMethod::Get => 0,
        HttpMethod::Head => 1,
        HttpMethod::Post => 2,
        HttpMethod::Put => 3,
        HttpMethod::Delete => 4,
        HttpMethod::Options => 5,
        HttpMethod::Trace => 6,
        HttpMethod::Patch => 7,
        HttpMethod::Custom(_) => 8,
    }
}

fn method_less_exec(a: &HttpMethod, b: &HttpMethod) -> (r: bool)
    ensures
        r == method_less(a@, b@),
{
    match (a, b) {
        (HttpMethod::Custom(x), HttpMethod::Custom(y)) => {
            let xs = chars_of(x.as_str());
            let ys = chars_of(y.as_str());
            chars_less_exec(&xs, &ys)
        },
        _ => method_rank(a) < method_rank(b),
    }
}

/// The models of a list of methods.
pub open spec fn method_views(v: Seq<HttpMethod>) -> Seq<HttpMethod<Seq<char>>> {
    Seq::new(v.len(), |i: int| v[i]@)
}

/// Puts the method into its place in the sorted list, unless it is there already.
fn insert_sorted(v: &mut Vec<HttpMethod>, m: &HttpMethod)
    requires
        methods_sorted(method_views(old(v)@)),
    ensures
        methods_sorted(method_views(final(v)@)),
        forall|x: HttpMethod<Seq<char>>| method_views(final(v)@).contains(x) <==> (method_views(
            old(v)@,
        ).contains(x) || x == m@),
{
    let ghost old_v = method_views(v@);
    let mut i: usize = 0;
    while i < v.len() && method_less_exec(&v[i], m)
        invariant
            i <= v@.len(),
            old_v == method_views(v@),
            methods_sorted(old_v),
            forall|k: int| 0 <= k < i ==> method_less(old_v[k], m@),
        decreases v@.len() - i,
    {
        i = i + 1;
    }
    if i < v.len() && v[i].same_as(m) {
        return;
    }
    proof {
        assert forall|k: int| i <= k < old_v.len() implies method_less(m@, #[trigger] old_v[k]) by {
            lemma_method_order(old_v[i as int], m@, old_v[k]);
            lemma_method_order(m@, old_v[i as int], old_v[k]);
            if k > i {
                assert(method_less(old_v[i as int], old_v[k]));
            }
        }
    }
    v.insert(i, m.duplicate());
    proof {
        let nv = method_views(v@);
        assert(nv =~= old_v.insert(i as int, m@));
        assert forall|a: int, b: int| 0 <= a < b < nv.len() implies method_less(#[trigger] nv[a], #[trigger] nv[b]) by {
            if a < i && b == i {
            } else if a < i && b > i {
                lemma_method_order(old_v[a], m@, old_v[b - 1]);
            } else if a == i {
            } else if a < i {
            } else {
                assert(nv[a] == old_v[a - 1] && nv[b] == old_v[b - 1]);
            }
        }
        assert forall|x: HttpMethod<Seq<char>>| nv.contains(x) <==> (old_v.contains(x) || x == m@) by {
            if nv.contains(x) {
                let k = choose|k: int| 0 <= k < nv.len() && nv[k] == x;
                if k < i {
                    assert(old_v[k] == x);
                } else if k > i {
                    assert(old_v[k - 1] == x);
                }
            }
            if old_v.contains(x) {
                let k = choose|k: int| 0 <= k < old_v.len() && old_v[k] == x;
                if k < i {
                    assert(nv[k] == x);
                } else {
                    assert(nv[k + 1] == x);
                }
            }
            if x == m@ {
                assert(nv[i as int] == x);
            }
        }
    }
}

/// Whether a route's method is one that the request would be served with:
/// some route whose path matches but whose method does not has it.
pub open spec fn mismatched_method(
    routes: Seq<crate::router::RouteableModel>,
    h: crate::request::RequestHeadModel,
    m: HttpMethod<Seq<char>>,
) -> bool {
    exists|i: int| 0 <= i < routes.len() && route_decision(routes[i], h) is MethodMismatch && routes[i].method == m
}

/// The methods that the routes whose paths match the request allow, in
/// ascending order and each once.
pub fn allowed_methods(request: &RequestContext, routes: &[TiiRouteable]) -> (r: Vec<HttpMethod>)
    ensures
        methods_sorted(method_views(r@)),
        forall|m: HttpMethod<Seq<char>>| method_views(r@).contains(m) <==> mismatched_method(
            route_views(routes@),
            request@.head,
            m,
        ),
{
    let ghost rv = route_views(routes@);
    let mut v: Vec<HttpMethod> = Vec::new();
    let mut i: usize = 0;
    assert(method_views(v@) =~= Seq::<HttpMethod<Seq<char>>>::empty());
    while i < routes.len()
        invariant
            i <= routes@.len(),
            rv == route_views(routes@),
            methods_sorted(method_views(v@)),
            forall|m: HttpMethod<Seq<char>>| method_views(v@).contains(m) <==> exists|k: int|
                0 <= k < i && route_decision(rv[k], request@.head) is MethodMismatch && rv[k].method == m,
        decreases routes@.len() - i,
    {
        let d = routes[i].matches(request);
        let ghost before = method_views(v@);
        if let TiiRoutingDecision::MethodMismatch = d {
            insert_sorted(&mut v, routes[i].method());
        }
        proof {
            assert forall|m: HttpMethod<Seq<char>>| method_views(v@).contains(m) <==> exists|k: int|
                0 <= k < i + 1 && route_decision(rv[k], request@.head) is MethodMismatch && rv[k].method
                    == m by {
                if method_views(v@).contains(m) && !before.contains(m) {
                    assert(route_decision(rv[i as int], request@.head) is MethodMismatch && rv[i as int].method == m);
                }
                if exists|k: int|
                    0 <= k < i + 1 && route_decision(rv[k], request@.head) is MethodMismatch && rv[k].method
                        == m {
                    let k = choose|k: int|
                        0 <= k < i + 1 && route_decision(rv[k], request@.head) is MethodMismatch
                            && rv[k].method == m;
                    if k < i {
                        assert(before.contains(m));
                    }
                }
            }
        }
        i = i + 1;
    }
    v
}

/// The response where the request's path matches routes but its method none
/// of them: 405 Method Not Allowed, listing the methods those routes allow.
pub fn default_method_not_allowed_handler(request: &RequestContext, routes: &[TiiRouteable]) -> (r: TiiResult<Response>)
    ensures
        r matches Ok(resp) && resp.wf() && exists|ms: Seq<HttpMethod<Seq<char>>>|
            methods_sorted(ms) && (forall|m: HttpMethod<Seq<char>>| ms.contains(m) <==> mismatched_method(
                route_views(routes@),
                request@.head,
                m,
            )) && resp@ == method_not_allowed_response(ms),
{
    let methods = allowed_methods(request, routes);
    let resp = Response::method_not_allowed(methods.as_slice());
    assert(method_views(methods@) =~= Seq::new(methods@.len(), |i: int| methods@[i]@));
    Ok(resp)
}

/// The response where no route's path matches: 404 Not Found.
pub fn default_not_found_handler(request: &RequestContext, routes: &[TiiRouteable]) -> (r: TiiResult<Response>)
    ensures
        r matches Ok(resp) && resp@ == bare_response(TiiStatusCode::NotFound) && resp.wf(),
{
    Ok(Response::not_found_no_body())
}

/// The response where the client accepts nothing a matching route produces: 406 Not Acceptable.
pub fn default_not_acceptable_handler(request: &RequestContext, routes: &[TiiRouteable]) -> (r: TiiResult<Response>)
    ensures
        r matches Ok(resp) && resp@ == bare_response(TiiStatusCode::NotAcceptable) && resp.wf(),
{
    Ok(Response::not_acceptable_no_body())
}

/// The response where no matching route consumes the request's content type:
/// 415 Unsupported Media Type.
pub fn default_unsupported_media_type_handler(request: &RequestContext, routes: &[TiiRouteable]) -> (r: TiiResult<
    Response,
>)
    ensures
        r matches Ok(resp) && resp@ == bare_response(TiiStatusCode::UnsupportedMediaType) && resp.wf(),
{
    Ok(Response::unsupported_media_type_no_body())
}

/// The response where a handler failed: 500 Internal Server Error.
pub fn default_error_handler(request: &RequestContext, error: TiiError) -> (r: TiiResult<Response>)
    ensures
        r matches Ok(resp) && resp@ == bare_response(TiiStatusCode::InternalServerError) && resp.wf(),
{
    Ok(Response::new(TiiStatusCode::InternalServerError))
}

/// The fallback that answers a request no route serves, by the best decision
/// of the routes.
pub fn default_fallback(
    request: &RequestContext,
    routes: &[TiiRouteable],
    best: &TiiRoutingDecision,
) -> (r: TiiResult<Response>)
    requires
        !(best is Match),
    ensures
        best is PathMismatch ==> (r matches Ok(resp) && resp@ == bare_response(TiiStatusCode::NotFound)),
        best is MimeMismatch ==> (r matches Ok(resp) && resp@ == bare_response(
            TiiStatusCode::UnsupportedMediaType,
        )),
        best is AcceptMismatch ==> (r matches Ok(resp) && resp@ == bare_response(TiiStatusCode::NotAcceptable)),
        best is MethodMismatch ==> (r matches Ok(resp) && exists|ms: Seq<HttpMethod<Seq<char>>>|
            methods_sorted(ms) && (forall|m: HttpMethod<Seq<char>>| ms.contains(m) <==> mismatched_method(
                route_views(routes@),
                request@.head,
                m,
            )) && resp@ == method_not_allowed_response(ms)),
        r matches Ok(resp) ==> resp.wf(),
{
    match best {
        TiiRoutingDecision::PathMismatch => default_not_found_handler(request, routes),
        TiiRoutingDecision::MethodMismatch => default_method_not_allowed_handler(request, routes),
        TiiRoutingDecision::MimeMismatch => default_unsupported_media_type_handler(request, routes),
        _ => default_not_acceptable_handler(request, routes),
    }
}

} // verus!
