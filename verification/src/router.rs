//! Version-gated HTTP dispatch.
//!
//! A router is built from routes, each a (method, version, path pattern)
//! triple; `finish` freezes it into a recognizer.  A pattern is a path
//! template whose `:name` segments capture the matching path segment.
//! Dispatch first reads the `api-version` query parameter (absent or
//! unknown values are answered with a bad-request status and reach no
//! route), then tries the routes of that version and method in
//! registration order; the first pattern match wins.  A method mismatch is
//! judged against every route whose pattern matches the path, whatever its
//! version.

use vstd::prelude::*;

verus! {

use vstd::string::StrSliceExecFns;
use crate::error::{Error, ErrorKind};
use crate::strutil::{
    find_kv, find_kv_value, lookup_pair, lookup_pairs, pairs_view, spec_split, split_str, str_eq,
    views_of,
};
use crate::version::{spec_parse_version, Version};

/// The request methods the local APIs answer.
#[derive(Clone, Copy, Debug, PartialEq, Eq, Structural)]
pub enum Method {
    Get,
    Post,
    Put,
    Delete,
}

/// One segment of a compiled path pattern.
pub enum Segment {
    /// Matches exactly this text.
    Literal(String),
    /// Matches any one segment, capturing it under this name.
    Capture(String),
}

/// The mathematical form of a pattern segment.
pub enum SegView {
    Lit(Seq<char>),
    Cap(Seq<char>),
}

impl View for Segment {
    type V = SegView;

    open spec fn view(&self) -> SegView {
        match self {
            Segment::Literal(l) => SegView::Lit(l@),
            Segment::Capture(n) => SegView::Cap(n@),
        }
    }
}

/// The views of a vector of pattern segments.
pub open spec fn segs_view(s: Seq<Segment>) -> Seq<SegView> {
    s.map_values(|x: Segment| x@)
}

/// How one template segment compiles: a leading colon makes a capture.
pub open spec fn seg_of(s: Seq<char>) -> SegView {
    if s.len() > 0 && s[0] == ':' {
        SegView::Cap(s.drop_first())
    } else {
        SegView::Lit(s)
    }
}

/// A compiled template: its segments, each literal or capture.
pub open spec fn compile_pattern(src: Seq<char>) -> Seq<SegView> {
    spec_split(src, '/').map_values(|t: Seq<char>| seg_of(t))
}

/// Matches pattern segments against path segments, both anchored: every
/// segment must be used.  Yields the captures in pattern order.
pub open spec fn match_segs(pat: Seq<SegView>, segs: Seq<Seq<char>>) -> Option<
    Seq<(Seq<char>, Seq<char>)>,
>
    decreases pat.len(),
{
    if pat.len() != segs.len() {
        None
    } else if pat.len() == 0 {
        Some(Seq::empty())
    } else {
        let rest = match_segs(pat.drop_first(), segs.drop_first());
        match pat[0] {
            SegView::Lit(l) => if segs[0] == l {
                rest
            } else {
                None
            },
            SegView::Cap(nm) => match rest {
                Some(ps) => Some(seq![(nm, segs[0])].add(ps)),
                None => None,
            },
        }
    }
}

/// A registered route.
pub struct Route {
    pub method: Method,
    pub version: Version,
    pub src: String,
    pub segments: Vec<Segment>,
}

/// The mathematical form of a route.
pub struct RouteView {
    pub method: Method,
    pub version: Version,
    pub src: Seq<char>,
    pub pattern: Seq<SegView>,
}

impl View for Route {
    type V = RouteView;

    open spec fn view(&self) -> RouteView {
        RouteView {
            method: self.method,
            version: self.version,
            src: self.src@,
            pattern: segs_view(self.segments@),
        }
    }
}

/// A route's compiled form agrees with its template.
pub open spec fn route_wf(r: RouteView) -> bool {
    r.pattern == compile_pattern(r.src)
}

/// Routes are well formed and no (method, version, template) repeats.
pub open spec fn routes_wf(rs: Seq<RouteView>) -> bool {
    &&& forall|i: int| 0 <= i < rs.len() ==> route_wf(#[trigger] rs[i])
    &&& forall|i: int, j: int|
        0 <= i < j < rs.len() ==> !((#[trigger] rs[i]).method == (#[trigger] rs[j]).method
            && rs[i].version == rs[j].version && rs[i].src == rs[j].src)
}

/// Index of the first route of this method and version whose pattern
/// matches, scanning from `i`; -1 when none does.
pub open spec fn find_route(
    rs: Seq<RouteView>,
    m: Method,
    v: Version,
    segs: Seq<Seq<char>>,
    i: int,
) -> int
    decreases rs.len() - i,
{
    if i < 0 || i >= rs.len() {
        -1
    } else if rs[i].method == m && rs[i].version == v && match_segs(rs[i].pattern, segs) is Some {
        i
    } else {
        find_route(rs, m, v, segs, i + 1)
    }
}

/// Whether the path matches some route that would make the miss a method
/// mismatch rather than an unknown path: one of the same version, or one
/// of another method anywhere in the same-path bucket.
pub open spec fn path_match_other(
    rs: Seq<RouteView>,
    m: Method,
    v: Version,
    segs: Seq<Seq<char>>,
) -> bool {
    exists|j: int|
        0 <= j < rs.len() && match_segs((#[trigger] rs[j]).pattern, segs) is Some && (rs[j].version
            == v || rs[j].method != m)
}

/// The outcome recognition is pinned to.
pub enum RecOutcome {
    Matched(int, Seq<(Seq<char>, Seq<char>)>),
    NotFound,
    MethodNotAllowed,
}

/// What recognition returns, as a function of the routes and the request.
pub open spec fn recognize_spec(
    rs: Seq<RouteView>,
    m: Method,
    v: Version,
    segs: Seq<Seq<char>>,
) -> RecOutcome {
    let f = find_route(rs, m, v, segs, 0);
    if f >= 0 {
        match match_segs(rs[f].pattern, segs) {
            Some(ps) => RecOutcome::Matched(f, ps),
            None => RecOutcome::NotFound,
        }
    } else if path_match_other(rs, m, v, segs) {
        RecOutcome::MethodNotAllowed
    } else {
        RecOutcome::NotFound
    }
}

/// The captures of a successful match, in pattern order.
#[derive(Debug)]
pub struct Parameters {
    pub entries: Vec<(String, String)>,
}

/// The mathematical form of captured parameters.
pub open spec fn params_view(ps: Parameters) -> Seq<(Seq<char>, Seq<char>)> {
    pairs_view(ps.entries@)
}

impl Parameters {
    /// The capture stored under `name`, if the pattern had one.
    pub fn find(&self, name: &str) -> (r: Option<String>)
        ensures
            match r {
                Some(v) => lookup_pairs(params_view(*self), name@) == Some(v@),
                None => lookup_pairs(params_view(*self), name@) is None,
            },
    {
        lookup_pair(&self.entries, name)
    }
}

/// The version a query string names: the value of its first `api-version`
/// pair, when that value is a supported version; nothing otherwise.
pub open spec fn query_version(q: Seq<char>) -> Option<Version> {
    match find_kv(spec_split(q, '&'), "api-version"@, 0) {
        None => None,
        Some(v) => spec_parse_version(v),
    }
}

/// What dispatch answers: a terminal status, or the matched route's index
/// with its captures.
pub enum Dispatch {
    /// The query named no usable `api-version`.
    BadRequest,
    /// No route of this version matches the path.
    NotFound,
    /// The path is known but not under this method.
    MethodNotAllowed,
    /// The route at this registration index handles the request.
    Matched(usize, Parameters),
}

impl Dispatch {
    /// The error kind a terminal dispatch answers with: the version gate
    /// earns `InvalidApiVersion`, the two route misses their own kinds,
    /// and a match none at all.
    pub fn error_kind(&self) -> (r: Option<ErrorKind>)
        ensures
            match self {
                Dispatch::BadRequest => r == Some(ErrorKind::InvalidApiVersion),
                Dispatch::NotFound => r == Some(ErrorKind::NotFound),
                Dispatch::MethodNotAllowed => r == Some(ErrorKind::MethodNotAllowed),
                Dispatch::Matched(..) => r is None,
            },
    {
        match self {
            Dispatch::BadRequest => Some(ErrorKind::InvalidApiVersion),
            Dispatch::NotFound => Some(ErrorKind::NotFound),
            Dispatch::MethodNotAllowed => Some(ErrorKind::MethodNotAllowed),
            Dispatch::Matched(..) => None,
        }
    }
}

/// What registering a route under a version string leaves behind: on
/// success the parsed version's route is appended; an unknown version
/// string or a duplicate triple is a build-time error, never a panic.
pub open spec fn route_str_post(
    pre: Seq<RouteView>,
    method: Method,
    version: Seq<char>,
    pattern: Seq<char>,
    r: Result<Router, Error>,
) -> bool {
    match r {
        Ok(rt) => {
            &&& spec_parse_version(version) is Some
            &&& routes_wf(rt@)
            &&& rt@ == pre.push(
                RouteView {
                    method,
                    version: spec_parse_version(version)->Some_0,
                    src: pattern,
                    pattern: compile_pattern(pattern),
                },
            )
        },
        Err(e) => {
            ||| (e.kind == ErrorKind::UnsupportedApiVersion && spec_parse_version(version)
                is None)
            ||| (e.kind == ErrorKind::Other && exists|i: int|
                0 <= i < pre.len() && (#[trigger] pre[i]).method == method && Some(pre[i].version)
                    == spec_parse_version(version) && pre[i].src == pattern)
        },
    }
}

/// Compiles a path template into its segments.
fn compile(src: &str) -> (r: Vec<Segment>)
    ensures
        segs_view(r@) == compile_pattern(src@),
{
    let parts = split_str(src, '/');
    let ghost target = compile_pattern(src@);
    proof {
        assert(views_of(parts@) == spec_split(src@, '/'));
        assert(target.len() == parts@.len());
    }
    let mut out: Vec<Segment> = Vec::new();
    let mut i: usize = 0;
    while i < parts.len()
        invariant
            0 <= i <= parts@.len(),
            target == compile_pattern(src@),
            views_of(parts@) == spec_split(src@, '/'),
            target.len() == parts@.len(),
            out@.len() == i as int,
            segs_view(out@) =~= target.take(i as int),
        decreases parts@.len() - i,
    {
        let p = parts[i].as_str();
        proof {
            assert(p@ == views_of(parts@)[i as int]);
            assert(target[i as int] == seg_of(p@));
        }
        let ghost prev = out@;
        let n = p.unicode_len();
        if n > 0 && p.get_char(0) == ':' {
            let name = p.substring_char(1, n);
            assert(name@ == p@.drop_first());
            out.push(Segment::Capture(name.to_owned()));
        } else {
            out.push(Segment::Literal(p.to_owned()));
        }
        proof {
            assert(out@ == prev.push(out@[i as int]));
            assert(out@[i as int]@ == seg_of(p@));
            assert forall|k: int| 0 <= k < i + 1 implies #[trigger] segs_view(out@)[k]
                == target.take(i as int + 1)[k] by {
                if k < i {
                    assert(out@[k] == prev[k]);
                    assert(segs_view(prev)[k] == target.take(i as int)[k]);
                }
            }
            assert(segs_view(out@) =~= target.take(i as int + 1));
        }
        i = i + 1;
    }
    proof {
        assert(target.take(parts@.len() as int) =~= target);
    }
    out
}

/// Matches the pattern's segments from position `i` on against the path's
/// segments from the same position.
fn match_from(pat: &Vec<Segment>, segs: &Vec<String>, i: usize) -> (r: Option<
    Vec<(String, String)>,
>)
    requires
        i <= pat@.len(),
        pat@.len() == segs@.len(),
    ensures
        match r {
            Some(ps) => match_segs(
                segs_view(pat@).skip(i as int),
                views_of(segs@).skip(i as int),
            ) == Some(pairs_view(ps@)),
            None => match_segs(
                segs_view(pat@).skip(i as int),
                views_of(segs@).skip(i as int),
            ) is None,
        },
    decreases pat@.len() - i,
{
    let ghost pv = segs_view(pat@);
    let ghost sv = views_of(segs@);
    if i == pat.len() {
        proof {
            assert(pv.skip(i as int) =~= Seq::<SegView>::empty());
            assert(sv.skip(i as int) =~= Seq::<Seq<char>>::empty());
        }
        let ps: Vec<(String, String)> = Vec::new();
        assert(pairs_view(ps@) =~= Seq::<(Seq<char>, Seq<char>)>::empty());
        Some(ps)
    } else {
        proof {
            assert(pv.skip(i as int)[0] == pv[i as int]);
            assert(sv.skip(i as int)[0] == sv[i as int]);
            assert(pv.skip(i as int).drop_first() =~= pv.skip(i as int + 1));
            assert(sv.skip(i as int).drop_first() =~= sv.skip(i as int + 1));
        }
        let rest = match_from(pat, segs, i + 1);
        match &pat[i] {
            Segment::Literal(l) => {
                if str_eq(l.as_str(), segs[i].as_str()) {
                    rest
                } else {
                    None
                }
            },
            Segment::Capture(nm) => match rest {
                None => None,
                Some(ps) => {
                    let mut ps2 = ps;
                    ps2.insert(0, (nm.clone(), segs[i].clone()));
                    proof {
                        let prev = ps2@.drop_first();
                        assert(pairs_view(ps2@) =~= seq![(nm@, sv[i as int])].add(
                            pairs_view(prev),
                        ));
                    }
                    Some(ps2)
                },
            },
        }
    }
}

/// The builder form of the routing fabric: routes accumulate here, with
/// duplicates and unknown version strings rejected as the table is built.
pub struct Router {
    pub routes: Vec<Route>,
}

/// The immutable post-`finish` form that performs dispatch.
pub struct Recognizer {
    pub routes: Vec<Route>,
}

impl View for Router {
    type V = Seq<RouteView>;

    open spec fn view(&self) -> Seq<RouteView> {
        self.routes@.map_values(|r: Route| r@)
    }
}

impl View for Recognizer {
    type V = Seq<RouteView>;

    open spec fn view(&self) -> Seq<RouteView> {
        self.routes@.map_values(|r: Route| r@)
    }
}

impl Router {
    /// An empty route table.
    pub fn new() -> (r: Router)
        ensures
            r@ =~= Seq::<RouteView>::empty(),
            routes_wf(r@),
    {
        let r = Router { routes: Vec::new() };
        proof {
            assert(r@ =~= Seq::<RouteView>::empty());
        }
        r
    }

    /// Registers a route.  A second route with the same method, version and
    /// template is rejected at build time.
    pub fn route(self, method: Method, version: Version, pattern: &str) -> (r: Result<
        Router,
        Error,
    >)
        requires
            routes_wf(self@),
        ensures
            match r {
                Ok(rt) => {
                    &&& routes_wf(rt@)
                    &&& rt@ =~= self@.push(
                        RouteView {
                            method,
                            version,
                            src: pattern@,
                            pattern: compile_pattern(pattern@),
                        },
                    )
                },
                Err(e) => {
                    &&& e.kind == ErrorKind::Other
                    &&& exists|i: int|
                        0 <= i < self@.len() && (#[trigger] self@[i]).method == method
                            && self@[i].version == version && self@[i].src == pattern@
                },
            },
    {
        let mut i: usize = 0;
        while i < self.routes.len()
            invariant
                0 <= i <= self.routes@.len(),
                forall|j: int|
                    0 <= j < i ==> !((#[trigger] self@[j]).method == method && self@[j].version
                        == version && self@[j].src == pattern@),
            decreases self.routes@.len() - i,
        {
            let dup = self.routes[i].method == method && self.routes[i].version == version
                && str_eq(self.routes[i].src.as_str(), pattern);
            if dup {
                proof {
                    assert(0 <= i < self@.len() && (self@[i as int]).method == method
                        && self@[i as int].version == version && self@[i as int].src == pattern@);
                }
                return Err(Error::new(ErrorKind::Other));
            }
            i = i + 1;
        }
        let segments = compile(pattern);
        let route = Route { method, version, src: pattern.to_owned(), segments };
        let mut routes = self.routes;
        routes.push(route);
        let r = Router { routes };
        proof {
            assert(r@ =~= self@.push(
                RouteView {
                    method,
                    version,
                    src: pattern@,
                    pattern: compile_pattern(pattern@),
                },
            ));
        }
        Ok(r)
    }

    /// Registers a route whose version is still a string; an unknown
    /// version string is a build-time error, never a panic.
    pub fn route_str(self, method: Method, version: &str, pattern: &str) -> (r: Result<
        Router,
        Error,
    >)
        requires
            routes_wf(self@),
        ensures
            route_str_post(self@, method, version@, pattern@, r),
    {
        let ghost pre = self@;
        match Version::parse(version) {
            Ok(v) => {
                let r = self.route(method, v, pattern);
                proof {
                    assert(route_str_post(pre, method, version@, pattern@, r));
                }
                r
            },
            Err(e) => Err(e),
        }
    }

    /// Registers a GET route from a version string.
    pub fn get(self, version: &str, pattern: &str) -> (r: Result<Router, Error>)
        requires
            routes_wf(self@),
        ensures
            route_str_post(self@, Method::Get, version@, pattern@, r),
    {
        self.route_str(Method::Get, version, pattern)
    }

    /// Registers a POST route from a version string.
    pub fn post(self, version: &str, pattern: &str) -> (r: Result<Router, Error>)
        requires
            routes_wf(self@),
        ensures
            route_str_post(self@, Method::Post, version@, pattern@, r),
    {
        self.route_str(Method::Post, version, pattern)
    }

    /// Registers a PUT route from a version string.
    pub fn put(self, version: &str, pattern: &str) -> (r: Result<Router, Error>)
        requires
            routes_wf(self@),
        ensures
            route_str_post(self@, Method::Put, version@, pattern@, r),
    {
        self.route_str(Method::Put, version, pattern)
    }

    /// Registers a DELETE route from a version string.
    pub fn delete(self, version: &str, pattern: &str) -> (r: Result<Router, Error>)
        requires
            routes_wf(self@),
        ensures
            route_str_post(self@, Method::Delete, version@, pattern@, r),
    {
        self.route_str(Method::Delete, version, pattern)
    }

    /// Freezes the table into its immutable recognizer.
    pub fn finish(self) -> (r: Recognizer)
        requires
            routes_wf(self@),
        ensures
            r@ == self@,
            routes_wf(r@),
    {
        Recognizer { routes: self.routes }
    }
}

impl Recognizer {
    /// Maps the request to the first route of this method and version whose
    /// pattern matches the path, or to the status a miss earns.
    pub fn recognize(&self, method: &Method, version: &Version, path: &str) -> (r: Result<
        (usize, Parameters),
        ErrorKind,
    >)
        ensures
            ({
                let segs = spec_split(path@, '/');
                match r {
                    Ok(p) => recognize_spec(self@, *method, *version, segs) == RecOutcome::Matched(
                        p.0 as int,
                        params_view(p.1),
                    ),
                    Err(k) => {
                        &&& (k == ErrorKind::NotFound || k == ErrorKind::MethodNotAllowed)
                        &&& recognize_spec(self@, *method, *version, segs)
                            == if k == ErrorKind::MethodNotAllowed {
                            RecOutcome::MethodNotAllowed
                        } else {
                            RecOutcome::NotFound
                        }
                    },
                }
            }),
    {
        let ghost rs = self@;
        let segs = split_str(path, '/');
        let ghost sv = spec_split(path@, '/');
        proof {
            assert(views_of(segs@) == sv);
        }
        let mut i: usize = 0;
        while i < self.routes.len()
            invariant
                0 <= i <= self.routes@.len(),
                rs == self@,
                sv == views_of(segs@),
                sv == spec_split(path@, '/'),
                find_route(rs, *method, *version, sv, 0) == find_route(
                    rs,
                    *method,
                    *version,
                    sv,
                    i as int,
                ),
            decreases self.routes@.len() - i,
        {
            let rt = &self.routes[i];
            if rt.method == *method && rt.version == *version && rt.segments.len() == segs.len() {
                match match_from(&rt.segments, &segs, 0) {
                    Some(ps) => {
                        proof {
                            let pv = segs_view(rt.segments@);
                            assert(pv.skip(0) =~= pv);
                            assert(sv.skip(0) =~= sv);
                            assert(rs[i as int].pattern == pv);
                            assert(match_segs(rs[i as int].pattern, sv) == Some(pairs_view(ps@)));
                            assert(find_route(rs, *method, *version, sv, i as int) == i as int);
                        }
                        return Ok((i, Parameters { entries: ps }));
                    },
                    None => {
                        proof {
                            let pv = segs_view(rt.segments@);
                            assert(pv.skip(0) =~= pv);
                            assert(sv.skip(0) =~= sv);
                            assert(rs[i as int].pattern == pv);
                            assert(match_segs(rs[i as int].pattern, sv) is None);
                        }
                    },
                }
            } else {
                proof {
                    if match_segs(rs[i as int].pattern, sv) is Some {
                        assert(rs[i as int].pattern.len() == sv.len());
                        assert(rs[i as int].pattern == segs_view(rt.segments@));
                    }
                }
            }
            i = i + 1;
        }
        proof {
            assert(find_route(rs, *method, *version, sv, 0) == -1);
        }
        // No full match: decide between an unknown path and a method miss.
        let mut j: usize = 0;
        while j < self.routes.len()
            invariant
                0 <= j <= self.routes@.len(),
                rs == self@,
                sv == views_of(segs@),
                sv == spec_split(path@, '/'),
                find_route(rs, *method, *version, sv, 0) == -1,
                forall|k: int|
                    0 <= k < j ==> !(match_segs((#[trigger] rs[k]).pattern, sv) is Some && (
                    rs[k].version == *version || rs[k].method != *method)),
            decreases self.routes@.len() - j,
        {
            let rt = &self.routes[j];
            let dimension_miss = rt.version == *version || !(rt.method == *method);
            if dimension_miss && rt.segments.len() == segs.len() {
                match match_from(&rt.segments, &segs, 0) {
                    Some(_ps) => {
                        proof {
                            let pv = segs_view(rt.segments@);
                            assert(pv.skip(0) =~= pv);
                            assert(sv.skip(0) =~= sv);
                            assert(match_segs(rs[j as int].pattern, sv) is Some);
                        }
                        return Err(ErrorKind::MethodNotAllowed);
                    },
                    None => {
                        proof {
                            let pv = segs_view(rt.segments@);
                            assert(pv.skip(0) =~= pv);
                            assert(sv.skip(0) =~= sv);
                        }
                    },
                }
            } else {
                proof {
                    if match_segs(rs[j as int].pattern, sv) is Some {
                        assert(rs[j as int].pattern.len() == sv.len());
                        assert(rs[j as int].pattern == segs_view(rt.segments@));
                    }
                }
            }
            j = j + 1;
        }
        proof {
            assert(!path_match_other(rs, *method, *version, sv));
        }
        Err(ErrorKind::NotFound)
    }

    /// Reads the query's first `api-version` value, if it parses.
    fn parse_query_version(query: &str) -> (r: Option<Version>)
        ensures
            r == query_version(query@),
    {
        let pairs = split_str(query, '&');
        match find_kv_value(&pairs, "api-version") {
            None => None,
            Some(v) => match Version::parse(v.as_str()) {
                Ok(v) => Some(v),
                Err(_) => None,
            },
        }
    }

    /// Full dispatch: gate on the `api-version` query parameter, then
    /// recognize the path under the named version.
    pub fn dispatch(&self, method: &Method, path: &str, query: &str) -> (r: Dispatch)
        ensures
            ({
                let qv = query_version(query@);
                let segs = spec_split(path@, '/');
                match qv {
                    None => r is BadRequest,
                    Some(v) => {
                        let o = recognize_spec(self@, *method, v, segs);
                        match r {
                            Dispatch::BadRequest => false,
                            Dispatch::Matched(i, ps) => o == RecOutcome::Matched(
                                i as int,
                                params_view(ps),
                            ),
                            Dispatch::NotFound => o == RecOutcome::NotFound,
                            Dispatch::MethodNotAllowed => o == RecOutcome::MethodNotAllowed,
                        }
                    },
                }
            }),
    {
        match Self::parse_query_version(query) {
            None => Dispatch::BadRequest,
            Some(v) => match self.recognize(method, &v, path) {
                Ok(p) => Dispatch::Matched(p.0, p.1),
                Err(k) => match k {
                    ErrorKind::MethodNotAllowed => Dispatch::MethodNotAllowed,
                    _ => Dispatch::NotFound,
                },
            },
        }
    }
}

/// Router determinism: recognition is a function of the route table and
/// the request alone, so two recognizers built from the same registration
/// sequence answer any request identically, whatever process they live in.
pub proof fn lemma_router_determinism(
    rs1: Seq<RouteView>,
    rs2: Seq<RouteView>,
    m: Method,
    v: Version,
    segs: Seq<Seq<char>>,
)
    requires
        rs1 == rs2,
    ensures
        recognize_spec(rs1, m, v, segs) == recognize_spec(rs2, m, v, segs),
{
}

} // verus!
