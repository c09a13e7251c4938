use vstd::prelude::*;
use crate::params::{lookup, value_of};
use crate::text::{chars_of, split, split_text, texts};

verus! {

/// The request methods that routes are registered for.
#[derive(Clone, Copy, Debug, PartialEq, Eq, Structural)]
pub enum Method {
    Get,
    Post,
    Put,
    Delete,
}

/// One registration: requests with `method` whose path fits `pattern` go to
/// `handler`.
#[derive(Clone, Debug, PartialEq, Eq)]
pub struct Route<H> {
    pub method: Method,
    pub pattern: String,
    pub handler: H,
}

/// The registrations, in the order in which they were made.
#[derive(Clone, Debug, PartialEq, Eq)]
pub struct Router<H> {
    pub routes: Vec<Route<H>>,
}

/// What a request resolved to: the position of the registration that took it
/// and the path parameters that its pattern bound, in the pattern's order.
#[derive(Clone, Debug, PartialEq, Eq)]
pub struct RouteMatch {
    pub index: usize,
    pub params: Vec<(String, String)>,
}

/// A pattern segment that starts with `:` names a path parameter.
pub open spec fn is_param(segment: Seq<char>) -> bool {
    segment.len() > 0 && segment[0] == ':'
}

/// A parameter takes any segment that is not empty; any other pattern
/// segment takes only itself.
pub open spec fn segment_matches(segment: Seq<char>, part: Seq<char>) -> bool {
    if is_param(segment) {
        part.len() > 0
    } else {
        segment == part
    }
}

/// The first `n` pattern segments take the first `n` parts of the path.
pub open spec fn segments_match_upto(
    segments: Seq<Seq<char>>,
    parts: Seq<Seq<char>>,
    n: int,
) -> bool {
    forall|i: int| 0 <= i < n ==> segment_matches(#[trigger] segments[i], parts[i])
}

/// Pattern and path have the same number of segments, and each pattern
/// segment takes the path's segment at its place.
pub open spec fn pattern_matches(pattern: Seq<char>, path: Seq<char>) -> bool {
    let segments = split(pattern, '/');
    let parts = split(path, '/');
    segments.len() == parts.len() && segments_match_upto(segments, parts, segments.len() as int)
}

/// The parameters among the first `n` pattern segments, each with the part of
/// the path at its place.
pub open spec fn bindings_upto(segments: Seq<Seq<char>>, parts: Seq<Seq<char>>, n: nat) -> Seq<
    (Seq<char>, Seq<char>),
>
    decreases n,
{
    if n == 0 {
        Seq::empty()
    } else {
        let before = bindings_upto(segments, parts, (n - 1) as nat);
        if is_param(segments[n - 1]) {
            before.push((segments[n - 1].skip(1), parts[n - 1]))
        } else {
            before
        }
    }
}

/// The path parameters that `pattern` binds in `path`.
pub open spec fn bindings(pattern: Seq<char>, path: Seq<char>) -> Seq<(Seq<char>, Seq<char>)> {
    let segments = split(pattern, '/');
    bindings_upto(segments, split(path, '/'), segments.len())
}

/// The names and values that a list of pairs holds.
pub open spec fn pair_texts(pairs: Seq<(String, String)>) -> Seq<(Seq<char>, Seq<char>)> {
    Seq::new(pairs.len(), |i: int| (pairs[i].0@, pairs[i].1@))
}

/// Whether the two strings hold the same text.
pub fn same_text(a: &String, b: &String) -> (same: bool)
    ensures
        same == (a@ == b@),
{
    *a == *b
}

/// Matches the segments of a pattern against the parts of a path and
/// collects the parameters. `None` when the pattern does not fit.
pub fn match_segments(segments: &Vec<String>, parts: &Vec<String>) -> (found: Option<
    Vec<(String, String)>,
>)
    ensures
        found is Some <==> texts(segments@).len() == texts(parts@).len() && segments_match_upto(
            texts(segments@),
            texts(parts@),
            segments@.len() as int,
        ),
        found matches Some(pairs) ==> pair_texts(pairs@) == bindings_upto(
            texts(segments@),
            texts(parts@),
            segments@.len(),
        ),
{
    if segments.len() != parts.len() {
        return None;
    }
    let ghost segs = texts(segments@);
    let ghost pts = texts(parts@);
    let mut pairs: Vec<(String, String)> = Vec::new();
    let mut i: usize = 0;
    assert(pair_texts(pairs@) == bindings_upto(segs, pts, 0));
    while i < segments.len()
        invariant
            i <= segments@.len(),
            segments@.len() == parts@.len(),
            segs == texts(segments@),
            pts == texts(parts@),
            segments_match_upto(segs, pts, i as int),
            pair_texts(pairs@) == bindings_upto(segs, pts, i as nat),
        decreases segments@.len() - i,
    {
        let segment = segments[i].as_str();
        let part = parts[i].as_str();
        assert(segs[i as int] == segment@);
        assert(pts[i as int] == part@);
        let chars = chars_of(segment);
        if chars.len() > 0 && chars[0] == ':' {
            if part.unicode_len() == 0 {
                assert(!segment_matches(segs[i as int], pts[i as int]));
                return None;
            }
            let name = segment.substring_char(1, chars.len());
            let ghost before = pairs@;
            pairs.push((String::from_str(name), String::from_str(part)));
            proof {
                assert(name@ == segs[i as int].skip(1));
                assert(pair_texts(pairs@) == pair_texts(before).push((name@, part@)));
            }
        } else {
            if !same_text(&segments[i], &parts[i]) {
                assert(!segment_matches(segs[i as int], pts[i as int]));
                return None;
            }
        }
        i += 1;
    }
    Some(pairs)
}

impl<H> Route<H> {
    /// Whether this registration takes a request with `method` and `path`.
    pub open spec fn takes(&self, method: Method, path: Seq<char>) -> bool {
        self.method == method && pattern_matches(self.pattern@, path)
    }
}

impl RouteMatch {
    /// The value bound to the path parameter `name`, if the pattern has it.
    pub fn param(&self, name: &str) -> (found: Option<&String>)
        ensures
            match found {
                Some(value) => value_of(self.params@, name@) == Some(value@),
                None => value_of(self.params@, name@) is None,
            },
    {
        lookup(&self.params, name)
    }
}

impl<H> Router<H> {
    /// A router without registrations.
    pub fn new() -> (router: Self)
        ensures
            router.routes@.len() == 0,
    {
        Router { routes: Vec::new() }
    }

    /// Registers `handler` for `method` and `pattern`, behind all earlier
    /// registrations.
    pub fn on(self, method: Method, pattern: &str, handler: H) -> (router: Self)
        ensures
            router.routes@.len() == self.routes@.len() + 1,
            forall|i: int| 0 <= i < self.routes@.len() ==> router.routes@[i] == self.routes@[i],
            router.routes@.last().method == method,
            router.routes@.last().pattern@ == pattern@,
            router.routes@.last().handler == handler,
    {
        let mut routes = self.routes;
        routes.push(Route { method, pattern: String::from_str(pattern), handler });
        Router { routes }
    }

    /// Registers `handler` for GET requests that fit `pattern`.
    pub fn get(self, pattern: &str, handler: H) -> (router: Self)
        ensures
            router.routes@.len() == self.routes@.len() + 1,
            forall|i: int| 0 <= i < self.routes@.len() ==> router.routes@[i] == self.routes@[i],
            router.routes@.last().method == Method::Get,
            router.routes@.last().pattern@ == pattern@,
            router.routes@.last().handler == handler,
    {
        self.on(Method::Get, pattern, handler)
    }

    /// Registers `handler` for POST requests that fit `pattern`.
    pub fn post(self, pattern: &str, handler: H) -> (router: Self)
        ensures
            router.routes@.len() == self.routes@.len() + 1,
            forall|i: int| 0 <= i < self.routes@.len() ==> router.routes@[i] == self.routes@[i],
            router.routes@.last().method == Method::Post,
            router.routes@.last().pattern@ == pattern@,
            router.routes@.last().handler == handler,
    {
        self.on(Method::Post, pattern, handler)
    }

    /// Registers `handler` for PUT requests that fit `pattern`.
    pub fn put(self, pattern: &str, handler: H) -> (router: Self)
        ensures
            router.routes@.len() == self.routes@.len() + 1,
            forall|i: int| 0 <= i < self.routes@.len() ==> router.routes@[i] == self.routes@[i],
            router.routes@.last().method == Method::Put,
            router.routes@.last().pattern@ == pattern@,
            router.routes@.last().handler == handler,
    {
        self.on(Method::Put, pattern, handler)
    }

    /// Registers `handler` for DELETE requests that fit `pattern`.
    pub fn delete(self, pattern: &str, handler: H) -> (router: Self)
        ensures
            router.routes@.len() == self.routes@.len() + 1,
            forall|i: int| 0 <= i < self.routes@.len() ==> router.routes@[i] == self.routes@[i],
            router.routes@.last().method == Method::Delete,
            router.routes@.last().pattern@ == pattern@,
            router.routes@.last().handler == handler,
    {
        self.on(Method::Delete, pattern, handler)
    }

    /// No registration before position `n` takes the request.
    pub open spec fn none_takes_before(&self, method: Method, path: Seq<char>, n: int) -> bool {
        forall|i: int| 0 <= i < n ==> !(#[trigger] self.routes@[i]).takes(method, path)
    }

    /// Finds the first registration that takes the request, and binds its
    /// path parameters. `None` when no registration takes it.
    pub fn resolve(&self, method: Method, path: &str) -> (found: Option<RouteMatch>)
        ensures
            match found {
                None => self.none_takes_before(method, path@, self.routes@.len() as int),
                Some(m) => {
                    &&& m.index < self.routes@.len()
                    &&& self.routes@[m.index as int].takes(method, path@)
                    &&& self.none_takes_before(method, path@, m.index as int)
                    &&& pair_texts(m.params@) == bindings(
                        self.routes@[m.index as int].pattern@,
                        path@,
                    )
                },
            },
    {
        let parts = split_text(path, '/');
        let mut i: usize = 0;
        while i < self.routes.len()
            invariant
                i <= self.routes@.len(),
                texts(parts@) == split(path@, '/'),
                self.none_takes_before(method, path@, i as int),
            decreases self.routes@.len() - i,
        {
            let route = &self.routes[i];
            if route.method == method {
                let segments = split_text(route.pattern.as_str(), '/');
                match match_segments(&segments, &parts) {
                    Some(params) => {
                        return Some(RouteMatch { index: i, params });
                    },
                    None => {},
                }
            }
            i += 1;
        }
        None
    }
}

} // verus!
