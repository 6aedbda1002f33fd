//! The route table: which handler answers which request.

use vstd::prelude::*;
use crate::handlers::Handler;
use crate::http::{Method, Outcome, Response, Status, outcome_view, respond, response_to};

verus! {

/// What a request is matched on: its method and its path.
pub type RouteKey = (Method, Seq<char>);

/// One entry of a route table.
struct Route {
    method: Method,
    path: String,
    handler: Handler,
}

impl Route {
    spec fn key(self) -> RouteKey {
        (self.method, self.path@)
    }
}

/// Whether the entry at `i` is the first of `routes` under `key`.
spec fn is_first(routes: Seq<Route>, key: RouteKey, i: int) -> bool {
    &&& 0 <= i < routes.len()
    &&& routes[i].key() == key
    &&& forall|j: int| 0 <= j < i ==> (#[trigger] routes[j]).key() != key
}

/// Whether some entry of `routes` is registered under `key`.
spec fn has_key(routes: Seq<Route>, key: RouteKey) -> bool {
    exists|i: int| is_first(routes, key, i)
}

/// The place of the first entry of `routes` that is registered under `key`.
spec fn first_index(routes: Seq<Route>, key: RouteKey) -> int {
    choose|i: int| is_first(routes, key, i)
}

/// A route table. Its view is the map from method and path to handler.
pub struct Router {
    routes: Vec<Route>,
}

impl View for Router {
    type V = Map<RouteKey, Handler>;

    open spec fn view(&self) -> Map<RouteKey, Handler> {
        self.table()
    }
}

/// The outcome of a request for `path` with `method` on `table`: that of the
/// handler registered for the pair, or `404 Not Found` where there is none.
pub open spec fn dispatched(
    table: Map<RouteKey, Handler>,
    method: Method,
    path: Seq<char>,
) -> Result<Seq<char>, Status> {
    if table.contains_key((method, path)) {
        Ok(table[(method, path)].text())
    } else {
        Err(Status { code: 404 })
    }
}

impl Router {
    /// The table as a map.
    pub closed spec fn table(self) -> Map<RouteKey, Handler> {
        Map::new(
            |key: RouteKey| has_key(self.routes@, key),
            |key: RouteKey| self.routes@[first_index(self.routes@, key)].handler,
        )
    }

    /// An empty route table.
    pub fn new() -> (router: Router)
        ensures
            router@ == Map::<RouteKey, Handler>::empty(),
    {
        let router = Router { routes: Vec::new() };
        assert(router.table() =~= Map::<RouteKey, Handler>::empty());
        router
    }

    /// The place of the first entry registered under `method` and `path`.
    fn position(&self, method: Method, path: &String) -> (found: Option<usize>)
        ensures
            match found {
                Some(i) => is_first(self.routes@, (method, path@), i as int),
                None => forall|j: int|
                    0 <= j < self.routes@.len() ==> (#[trigger] self.routes@[j]).key() != (
                        method,
                        path@,
                    ),
            },
    {
        let mut i: usize = 0;
        while i < self.routes.len()
            invariant
                i <= self.routes@.len(),
                forall|j: int| 0 <= j < i ==> (#[trigger] self.routes@[j]).key() != (method, path@),
            decreases self.routes@.len() - i,
        {
            if self.routes[i].method == method && self.routes[i].path == *path {
                return Some(i);
            }
            i += 1;
        }
        None
    }

    /// Registers `handler` for requests for `path` with `method`, unless the
    /// pair has a handler already: then the table stays as it is. Returns
    /// whether the handler was registered.
    pub fn register(&mut self, method: Method, path: &str, handler: Handler) -> (added: bool)
        ensures
            added == !old(self)@.contains_key((method, path@)),
            added ==> final(self)@ == old(self)@.insert((method, path@), handler),
            !added ==> final(self)@ == old(self)@,
    {
        let owned = path.to_owned();
        match self.position(method, &owned) {
            Some(_) => false,
            None => {
                let ghost before = self.routes@;
                let ghost key = (method, path@);
                self.routes.push(Route { method, path: owned, handler });
                proof {
                    let after = self.routes@;
                    assert(is_first(after, key, before.len() as int));
                    assert forall|k: RouteKey| has_key(after, k) <==> (k == key || has_key(
                        before,
                        k,
                    )) by {
                        if has_key(before, k) {
                            assert(is_first(after, k, first_index(before, k)));
                        }
                        if has_key(after, k) && k != key {
                            let i = first_index(after, k);
                            assert(is_first(after, k, i));
                            assert forall|j: int| 0 <= j < i implies (#[trigger] before[j]).key()
                                != k by {
                                assert(after[j].key() != k);
                            }
                            assert(is_first(before, k, i));
                        }
                    }
                    assert forall|k: RouteKey| has_key(before, k) implies first_index(after, k)
                        == first_index(before, k) by {
                        assert(is_first(after, k, first_index(before, k)));
                    }
                    assert(self.table() =~= old(self).table().insert(key, handler));
                }
                true
            },
        }
    }

    /// The handler registered for requests for `path` with `method`.
    pub fn lookup(&self, method: Method, path: &str) -> (found: Option<Handler>)
        ensures
            found == if self@.contains_key((method, path@)) {
                Some(self@[(method, path@)])
            } else {
                None
            },
    {
        let owned = path.to_owned();
        match self.position(method, &owned) {
            Some(i) => Some(self.routes[i].handler),
            None => None,
        }
    }

    /// Runs the handler registered for the request and returns its outcome;
    /// fails with `404 Not Found` where none is registered.
    pub fn dispatch(&self, method: Method, path: &str) -> (outcome: Outcome)
        ensures
            outcome_view(outcome) == dispatched(self@, method, path@),
    {
        match self.lookup(method, path) {
            Some(handler) => handler.call(),
            None => Err(Status::not_found()),
        }
    }

    /// Answers a request for `path` with `method`.
    pub fn handle(&self, method: Method, path: &str) -> (response: Response)
        ensures
            response@ == response_to(dispatched(self@, method, path@)),
    {
        respond(self.dispatch(method, path))
    }
}

} // verus!
