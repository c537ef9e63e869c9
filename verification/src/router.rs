//! The route table: an ordered list of `(method, pattern, handler)` bindings
//! in which no `(method, pattern)` pair occurs twice, searched first match
//! first; and scopes, which put a common prefix before patterns.

use vstd::prelude::*;
use vstd::string::StringExecFns;
use vstd::string::StrSliceExecFns;
use crate::fields::Fields;
use crate::method::Method;
use crate::pattern::{captures, path_segments, pattern_matches, pattern_of, Pattern, SegmentView};
use crate::text::{split, texts};

verus! {

/// One binding of the table.
pub struct Route<H> {
    method: Method,
    pattern: Pattern,
    handler: H,
}

/// The mathematical value of a binding.
pub ghost struct RouteView<H> {
    pub method: Method,
    pub pattern: Seq<SegmentView>,
    pub handler: H,
}

impl<H> View for Route<H> {
    type V = RouteView<H>;

    closed spec fn view(&self) -> RouteView<H> {
        RouteView { method: self.method, pattern: self.pattern@, handler: self.handler }
    }
}

/// Whether some binding of `routes` has this method and this pattern.
pub open spec fn has_route<H>(routes: Seq<RouteView<H>>, method: Method, pattern: Seq<SegmentView>) -> bool {
    exists|i: int|
        0 <= i < routes.len() && (#[trigger] routes[i]).method == method && routes[i].pattern
            == pattern
}

/// Whether no `(method, pattern)` pair occurs twice in `routes`.
pub open spec fn distinct_routes<H>(routes: Seq<RouteView<H>>) -> bool {
    forall|i: int, j: int|
        0 <= i < j < routes.len() ==> !((#[trigger] routes[i]).method == (#[trigger] routes[j]).method
            && routes[i].pattern == routes[j].pattern)
}

/// Whether a binding serves this method on the path with these segments.
pub open spec fn route_accepts<H>(route: RouteView<H>, method: Method, pieces: Seq<Seq<char>>) -> bool {
    route.method == method && pattern_matches(route.pattern, pieces)
}

/// The position of the first binding at or after `from` that serves this
/// method on this path, if there is one.
pub open spec fn first_match_from<H>(
    routes: Seq<RouteView<H>>,
    method: Method,
    pieces: Seq<Seq<char>>,
    from: int,
) -> Option<int>
    decreases routes.len() - from,
{
    if from < 0 || from >= routes.len() {
        None
    } else if route_accepts(routes[from], method, pieces) {
        Some(from)
    } else {
        first_match_from(routes, method, pieces, from + 1)
    }
}

/// The position of the binding that serves this method on this path: of
/// those that accept it, the one registered first.
pub open spec fn first_match<H>(routes: Seq<RouteView<H>>, method: Method, pieces: Seq<Seq<char>>) -> Option<
    int,
> {
    first_match_from(routes, method, pieces, 0)
}

/// Whether some binding, of whatever method, accepts this path.
pub open spec fn path_known<H>(routes: Seq<RouteView<H>>, pieces: Seq<Seq<char>>) -> bool {
    exists|i: int| 0 <= i < routes.len() && pattern_matches((#[trigger] routes[i]).pattern, pieces)
}

/// What a search from `from` finds is the earliest accepting binding at or
/// after `from`; it finds nothing exactly when no such binding accepts.
pub proof fn lemma_first_match_from<H>(
    routes: Seq<RouteView<H>>,
    method: Method,
    pieces: Seq<Seq<char>>,
    from: int,
)
    requires
        0 <= from,
    ensures
        match first_match_from(routes, method, pieces, from) {
            Some(i) => {
                &&& from <= i < routes.len()
                &&& route_accepts(routes[i], method, pieces)
                &&& forall|k: int| from <= k < i ==> !route_accepts(#[trigger] routes[k], method, pieces)
            },
            None => forall|k: int|
                from <= k < routes.len() ==> !route_accepts(#[trigger] routes[k], method, pieces),
        },
    decreases routes.len() - from,
{
    if from < routes.len() && !route_accepts(routes[from], method, pieces) {
        lemma_first_match_from(routes, method, pieces, from + 1);
    }
}

/// First match wins: the binding found accepts the request, and no binding
/// registered before it does. Nothing is found exactly when no binding
/// accepts the request.
pub proof fn lemma_first_match_wins<H>(routes: Seq<RouteView<H>>, method: Method, pieces: Seq<Seq<char>>)
    ensures
        match first_match(routes, method, pieces) {
            Some(i) => {
                &&& 0 <= i < routes.len()
                &&& route_accepts(routes[i], method, pieces)
                &&& forall|k: int| 0 <= k < i ==> !route_accepts(#[trigger] routes[k], method, pieces)
            },
            None => forall|k: int|
                0 <= k < routes.len() ==> !route_accepts(#[trigger] routes[k], method, pieces),
        },
{
    lemma_first_match_from(routes, method, pieces, 0);
}

/// A binding that accepts the request, with none before it that does, is
/// the one that is found.
pub proof fn lemma_first_match_is<H>(
    routes: Seq<RouteView<H>>,
    method: Method,
    pieces: Seq<Seq<char>>,
    i: int,
)
    requires
        0 <= i < routes.len(),
        route_accepts(routes[i], method, pieces),
        forall|k: int| 0 <= k < i ==> !route_accepts(#[trigger] routes[k], method, pieces),
    ensures
        first_match(routes, method, pieces) == Some(i),
{
    lemma_first_match_from(routes, method, pieces, 0);
}

/// Registering a route after others changes nothing for the requests that
/// an earlier route already serves.
pub proof fn lemma_later_route_does_not_shadow<H>(
    routes: Seq<RouteView<H>>,
    added: RouteView<H>,
    method: Method,
    pieces: Seq<Seq<char>>,
)
    requires
        first_match(routes, method, pieces) is Some,
    ensures
        first_match(routes.push(added), method, pieces) == first_match(routes, method, pieces),
{
    lemma_first_match_from(routes, method, pieces, 0);
    let i = first_match(routes, method, pieces).unwrap();
    let grown = routes.push(added);
    assert(grown[i] == routes[i]);
    assert forall|k: int| 0 <= k < i implies !route_accepts(#[trigger] grown[k], method, pieces) by {
        assert(grown[k] == routes[k]);
    }
    lemma_first_match_is(grown, method, pieces, i);
}

/// Why a registration was refused.
#[derive(Clone, Copy, Debug, PartialEq, Eq, Structural)]
pub enum RouteError {
    /// The table already binds this method to this pattern.
    Duplicate,
}

/// What a search of the table found.
#[derive(Debug)]
pub enum Lookup {
    /// The binding at `index` serves the request; `params` holds what its
    /// pattern captured from the path.
    Found { index: usize, params: Fields },
    /// No binding serves the request. `path_known` tells whether some
    /// binding accepts the path under another method.
    NoMatch { path_known: bool },
}

/// What a search of `routes` for this method and path has to find.
pub open spec fn lookup_agrees<H>(
    found: Lookup,
    routes: Seq<RouteView<H>>,
    method: Method,
    pieces: Seq<Seq<char>>,
) -> bool {
    match found {
        Lookup::Found { index, params } => {
            &&& first_match(routes, method, pieces) == Some(index as int)
            &&& params@ == captures(routes[index as int].pattern, pieces)
        },
        Lookup::NoMatch { path_known: known } => {
            &&& first_match(routes, method, pieces) is None
            &&& known == path_known(routes, pieces)
        },
    }
}

/// An ordered table of routes.
pub struct RouteTable<H> {
    routes: Vec<Route<H>>,
}

impl<H> View for RouteTable<H> {
    type V = Seq<RouteView<H>>;

    closed spec fn view(&self) -> Seq<RouteView<H>> {
        self.routes@.map_values(|r: Route<H>| r@)
    }
}

impl<H> RouteTable<H> {
    /// The table's invariant: no `(method, pattern)` pair is bound twice.
    pub open spec fn wf(&self) -> bool {
        distinct_routes(self@)
    }

    /// An empty table.
    pub fn new() -> (table: RouteTable<H>)
        ensures
            table.wf(),
            table@ == Seq::<RouteView<H>>::empty(),
    {
        let table = RouteTable { routes: Vec::new() };
        assert(table@ =~= Seq::<RouteView<H>>::empty());
        table
    }

    /// The number of routes.
    pub fn len(&self) -> (n: usize)
        ensures
            n == self@.len(),
    {
        self.routes.len()
    }

    /// The method of the route at `index`.
    pub fn method_at(&self, index: usize) -> (method: Method)
        requires
            index < self@.len(),
        ensures
            method == self@[index as int].method,
    {
        self.routes[index].method
    }

    /// The handler of the route at `index`.
    pub fn handler_at(&self, index: usize) -> (handler: &H)
        requires
            index < self@.len(),
        ensures
            *handler == self@[index as int].handler,
    {
        &self.routes[index].handler
    }

    /// Whether the table binds `method` to exactly this pattern.
    pub fn contains(&self, method: Method, pattern: &Pattern) -> (r: bool)
        ensures
            r == has_route(self@, method, pattern@),
    {
        let n: usize = self.routes.len();
        let mut i: usize = 0;
        while i < n
            invariant
                n == self@.len(),
                n == self.routes@.len(),
                i <= n,
                forall|k: int|
                    0 <= k < i ==> !((#[trigger] self@[k]).method == method && self@[k].pattern
                        == pattern@),
            decreases n - i,
        {
            proof {
                assert(self@[i as int] == self.routes@[i as int]@);
            }
            if self.routes[i].method == method && self.routes[i].pattern.same_as(pattern) {
                return true;
            }
            i = i + 1;
        }
        false
    }

    /// Binds `method` and the pattern written in `pattern` to `handler`, after
    /// all routes registered so far. A pair that the table already holds is
    /// refused, and the table stays as it was.
    pub fn register(&mut self, method: Method, pattern: &str, handler: H) -> (r: Result<(), RouteError>)
        requires
            old(self).wf(),
        ensures
            final(self).wf(),
            match r {
                Ok(()) => {
                    &&& !has_route(old(self)@, method, pattern_of(pattern@))
                    &&& final(self)@ == old(self)@.push(
                        RouteView { method, pattern: pattern_of(pattern@), handler },
                    )
                },
                Err(RouteError::Duplicate) => {
                    &&& has_route(old(self)@, method, pattern_of(pattern@))
                    &&& final(self)@ == old(self)@
                },
            },
    {
        let parsed = Pattern::parse(pattern);
        if self.contains(method, &parsed) {
            return Err(RouteError::Duplicate);
        }
        self.routes.push(Route { method, pattern: parsed, handler });
        proof {
            let added = RouteView { method, pattern: pattern_of(pattern@), handler };
            assert(self@ =~= old(self)@.push(added));
        }
        Ok(())
    }

    /// Searches the table for the route that serves `method` on the path
    /// with these segments. Of several that accept it, the one registered
    /// first is found.
    pub fn find_segments(&self, method: Method, pieces: &Vec<String>) -> (found: Lookup)
        ensures
            lookup_agrees(found, self@, method, texts(pieces@)),
    {
        let n: usize = self.routes.len();
        let mut known = false;
        let mut i: usize = 0;
        let ghost segments = texts(pieces@);
        while i < n
            invariant
                n == self@.len(),
                n == self.routes@.len(),
                i <= n,
                segments == texts(pieces@),
                forall|k: int| 0 <= k < i ==> !route_accepts(#[trigger] self@[k], method, segments),
                known == exists|k: int|
                    0 <= k < i && pattern_matches((#[trigger] self@[k]).pattern, segments),
            decreases n - i,
        {
            proof {
                assert(self@[i as int] == self.routes@[i as int]@);
            }
            if self.routes[i].method == method {
                match self.routes[i].pattern.match_segments(pieces) {
                    Some(params) => {
                        proof {
                            lemma_first_match_is(self@, method, segments, i as int);
                        }
                        return Lookup::Found { index: i, params };
                    },
                    None => {},
                }
            } else if !known {
                known = self.routes[i].pattern.accepts(pieces);
            }
            i = i + 1;
        }
        proof {
            lemma_first_match_wins(self@, method, segments);
            if first_match(self@, method, segments) is Some {
                let at = first_match(self@, method, segments).unwrap();
                assert(route_accepts(self@[at], method, segments));
            }
        }
        Lookup::NoMatch { path_known: known }
    }

    /// Whether some route, of whatever method, accepts `path`.
    pub fn knows_path(&self, path: &str) -> (known: bool)
        ensures
            known == path_known(self@, path_segments(path@)),
    {
        let pieces = split(path, '/');
        let n: usize = self.routes.len();
        let mut i: usize = 0;
        while i < n
            invariant
                n == self@.len(),
                n == self.routes@.len(),
                i <= n,
                texts(pieces@) == path_segments(path@),
                forall|k: int|
                    0 <= k < i ==> !pattern_matches(
                        (#[trigger] self@[k]).pattern,
                        path_segments(path@),
                    ),
            decreases n - i,
        {
            proof {
                assert(self@[i as int] == self.routes@[i as int]@);
            }
            if self.routes[i].pattern.accepts(&pieces) {
                return true;
            }
            i = i + 1;
        }
        false
    }

    /// Searches the table for the route that serves `method` on `path`.
    pub fn find(&self, method: Method, path: &str) -> (found: Lookup)
        ensures
            lookup_agrees(found, self@, method, path_segments(path@)),
    {
        let pieces = split(path, '/');
        self.find_segments(method, &pieces)
    }
}

/// A pattern as it stands under a prefix: one that is not empty and does
/// not begin with a slash gets one.
pub open spec fn rooted(pattern: Seq<char>) -> Seq<char> {
    if pattern.len() > 0 && pattern[0] != '/' {
        seq!['/'] + pattern
    } else {
        pattern
    }
}

/// The pattern that `pattern` stands for under `prefix`.
pub open spec fn scoped(prefix: Seq<char>, pattern: Seq<char>) -> Seq<char> {
    prefix + rooted(pattern)
}

/// A path prefix shared by the routes registered under it.
#[derive(Debug)]
pub struct Scope {
    prefix: String,
}

impl View for Scope {
    type V = Seq<char>;

    closed spec fn view(&self) -> Seq<char> {
        self.prefix@
    }
}

impl Scope {
    /// The scope of this prefix, such as `/api`.
    pub fn new(prefix: &str) -> (scope: Scope)
        ensures
            scope@ == prefix@,
    {
        Scope { prefix: String::from_str(prefix) }
    }

    /// The scope's prefix.
    pub fn prefix(&self) -> (p: &str)
        ensures
            p@ == self@,
    {
        self.prefix.as_str()
    }

    /// The pattern that `pattern` stands for under this scope.
    pub fn path(&self, pattern: &str) -> (full: String)
        ensures
            full@ == scoped(self@, pattern@),
    {
        let mut full = self.prefix.clone();
        if !pattern.is_empty() && pattern.get_char(0) != '/' {
            proof {
                reveal_strlit("/");
                assert("/"@ =~= seq!['/']);
            }
            full.append("/");
        }
        full.append(pattern);
        assert(full@ =~= scoped(self@, pattern@));
        full
    }

    /// The scope of `prefix` inside this scope.
    pub fn nest(&self, prefix: &str) -> (inner: Scope)
        ensures
            inner@ == scoped(self@, prefix@),
    {
        Scope { prefix: self.path(prefix) }
    }

    /// Registers a route under this scope: `pattern` is put behind the
    /// scope's prefix and bound in `table`.
    pub fn register<H>(&self, table: &mut RouteTable<H>, method: Method, pattern: &str, handler: H) -> (r:
        Result<(), RouteError>)
        requires
            old(table).wf(),
        ensures
            final(table).wf(),
            match r {
                Ok(()) => {
                    &&& !has_route(old(table)@, method, pattern_of(scoped(self@, pattern@)))
                    &&& final(table)@ == old(table)@.push(
                        RouteView { method, pattern: pattern_of(scoped(self@, pattern@)), handler },
                    )
                },
                Err(RouteError::Duplicate) => {
                    &&& has_route(old(table)@, method, pattern_of(scoped(self@, pattern@)))
                    &&& final(table)@ == old(table)@
                },
            },
    {
        let full = self.path(pattern);
        table.register(method, full.as_str(), handler)
    }
}

/// Nested scopes compose: a pattern under the inner scope stands for what it
/// would stand for under the outer prefix followed by the inner one.
pub proof fn lemma_scopes_compose(outer: Seq<char>, inner: Seq<char>, pattern: Seq<char>)
    ensures
        scoped(scoped(outer, inner), pattern) == outer + rooted(inner) + rooted(pattern),
{
    assert(scoped(scoped(outer, inner), pattern) =~= outer + rooted(inner) + rooted(pattern));
}

} // verus!
