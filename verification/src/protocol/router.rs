//! The request router: every inbound call is dispatched by the service that
//! its path names.

use vstd::prelude::*;
use vstd::string::*;
use crate::text::same_text;

verus! {

/// What separates the segments of a path.
pub const SEPARATOR: char = '/';

/// Whether `path` is `/<service>/<method>` for this service and this method:
/// a service without a separator in it, and neither of the two empty.
pub open spec fn is_call_path(path: Seq<char>, service: Seq<char>, method: Seq<char>) -> bool {
    &&& path == seq![SEPARATOR] + service + seq![SEPARATOR] + method
    &&& service.len() > 0
    &&& method.len() > 0
    &&& forall|i: int| 0 <= i < service.len() ==> service[i] != SEPARATOR
}

/// The position of the first separator of `path` at or after `from`, or the
/// length of `path` where there is none.
pub open spec fn separator_from(path: Seq<char>, from: int) -> int
    decreases path.len() - from,
{
    if from < 0 || from >= path.len() {
        path.len() as int
    } else if path[from] == SEPARATOR {
        from
    } else {
        separator_from(path, from + 1)
    }
}

/// Where the service segment of `path` ends.
pub open spec fn service_end(path: Seq<char>) -> int {
    separator_from(path, 1)
}

/// Whether `path` has a leading separator, a service and a method.
pub open spec fn well_formed(path: Seq<char>) -> bool {
    &&& path.len() > 0
    &&& path[0] == SEPARATOR
    &&& 1 < service_end(path)
    &&& service_end(path) + 1 < path.len()
}

/// The first segment of a path: the fully qualified name of a service.
pub open spec fn service_segment(path: Seq<char>) -> Seq<char> {
    path.subrange(1, service_end(path))
}

/// What follows the service in a path: the method, which the router does
/// not look into.
pub open spec fn method_segment(path: Seq<char>) -> Seq<char> {
    path.subrange(service_end(path) + 1, path.len() as int)
}

/// `separator_from` is the one position at or after `from` that holds a
/// separator, or ends the path, with no separator before it.
pub proof fn lemma_separator_from(path: Seq<char>, from: int, at: int)
    requires
        0 <= from <= at <= path.len(),
        forall|j: int| from <= j < at ==> path[j] != SEPARATOR,
        at < path.len() ==> path[at] == SEPARATOR,
    ensures
        separator_from(path, from) == at,
    decreases at - from,
{
    if from < at {
        lemma_separator_from(path, from + 1, at);
    }
}

/// Where the separator after `from` lies: within the path, past every
/// character that is none.
pub proof fn lemma_separator_from_bounds(path: Seq<char>, from: int)
    requires
        0 <= from <= path.len(),
    ensures
        from <= separator_from(path, from) <= path.len(),
        forall|j: int| from <= j < separator_from(path, from) ==> path[j] != SEPARATOR,
        separator_from(path, from) < path.len() ==> path[separator_from(path, from)]
            == SEPARATOR,
    decreases path.len() - from,
{
    if from < path.len() && path[from] != SEPARATOR {
        lemma_separator_from_bounds(path, from + 1);
    }
}

/// A well-formed path is made of its two segments.
pub proof fn lemma_well_formed_parts(path: Seq<char>)
    requires
        well_formed(path),
    ensures
        is_call_path(path, service_segment(path), method_segment(path)),
{
    lemma_separator_from_bounds(path, 1);
    let service = service_segment(path);
    let method = method_segment(path);
    assert(path =~= seq![SEPARATOR] + service + seq![SEPARATOR] + method);
}

/// A path is made of a service and a method in one way at most: a path
/// that is `/<service>/<method>` is well formed, and these are its segments.
pub proof fn lemma_call_path_unique(path: Seq<char>, service: Seq<char>, method: Seq<char>)
    requires
        is_call_path(path, service, method),
    ensures
        well_formed(path),
        service_segment(path) == service,
        method_segment(path) == method,
{
    let at: int = service.len() as int + 1;
    assert forall|j: int| 1 <= j < at implies path[j] != SEPARATOR by {
        assert(path[j] == service[j - 1]);
    }
    lemma_separator_from(path, 1, at);
}

/// Splits a path at the separator that follows the service.
///
/// Gives the service and the method of a well-formed path, and `None` for
/// any other.
pub fn split_path(path: &str) -> (res: Option<(&str, &str)>)
    ensures
        res is Some <==> well_formed(path@),
        res matches Some(parts) ==> parts.0@ == service_segment(path@),
        res matches Some(parts) ==> parts.1@ == method_segment(path@),
{
    let n: usize = path.unicode_len();
    let mut i: usize = 0;
    let mut leading = false;
    let mut end: usize = n;
    for c in it: path.chars()
        invariant
            n == path@.len(),
            i == it.index(),
            it.seq() == path@,
            i <= n,
            leading == (i > 0 && path@[0] == SEPARATOR),
            end == n || (1 <= end < i && path@[end as int] == SEPARATOR),
            forall|j: int| 1 <= j < i && j < end ==> path@[j] != SEPARATOR,
    {
        if i == 0 {
            leading = c == SEPARATOR;
        } else if end == n && c == SEPARATOR {
            end = i;
        }
        i = i + 1;
    }
    proof {
        if n >= 1 {
            lemma_separator_from(path@, 1, end as int);
        }
    }
    if !leading || end <= 1 || end >= n - 1 {
        return None;
    }
    let service = path.substring_char(1, end);
    let method = path.substring_char(end + 1, n);
    Some((service, method))
}

/// Why a call is not served.
#[derive(Clone, Copy, Debug, PartialEq, Eq, Structural)]
pub enum Rejection {
    /// The path is not `/<service>/<method>`.
    InvalidRequest,
    /// No handler is registered for the service that the path names.
    UnimplementedService,
    /// The service is there, and has no method of the name in the path. It
    /// is for the handler to say so: the router does not look at methods.
    UnimplementedMethod,
}

/// A handler, under the fully qualified name of the service it implements.
#[derive(Debug)]
struct Route<H> {
    service_name: String,
    handler: H,
}

/// The handlers of a process, each under the name of its service.
///
/// No name occurs twice. The table is filled before the listener starts and
/// only read from then on.
#[derive(Debug)]
pub struct RouteTable<H> {
    routes: Vec<Route<H>>,
}

impl<H> View for RouteTable<H> {
    type V = Map<Seq<char>, H>;

    /// The handler of each registered service, by the service's name.
    closed spec fn view(&self) -> Map<Seq<char>, H> {
        Map::new(
            |name: Seq<char>| self.registered(name),
            |name: Seq<char>| self.routes@[self.position(name)].handler,
        )
    }
}

impl<H> RouteTable<H> {
    #[verifier::type_invariant]
    spec fn names_are_unique(&self) -> bool {
        forall|i: int, j: int|
            0 <= i < j < self.routes@.len() ==> self.routes@[i].service_name@
                != self.routes@[j].service_name@
    }

    spec fn holds_at(&self, name: Seq<char>, i: int) -> bool {
        0 <= i < self.routes@.len() && self.routes@[i].service_name@ == name
    }

    spec fn registered(&self, name: Seq<char>) -> bool {
        exists|i: int| self.holds_at(name, i)
    }

    spec fn position(&self, name: Seq<char>) -> int {
        choose|i: int| self.holds_at(name, i)
    }

    spec fn names_below(&self, k: int) -> Set<Seq<char>> {
        Set::new(|name: Seq<char>| exists|i: int| 0 <= i < k && self.holds_at(name, i))
    }

    /// As no name occurs twice, the first `k` routes have `k` names.
    proof fn lemma_names_below(&self, k: int)
        requires
            self.names_are_unique(),
            0 <= k <= self.routes@.len(),
        ensures
            self.names_below(k).finite(),
            self.names_below(k).len() == k,
        decreases k,
    {
        if k == 0 {
            assert(self.names_below(0) =~= Set::<Seq<char>>::empty());
        } else {
            self.lemma_names_below(k - 1);
            let last: Seq<char> = self.routes@[k - 1].service_name@;
            assert(self.holds_at(last, k - 1));
            assert(self.names_below(k) =~= self.names_below(k - 1).insert(last));
        }
    }

    /// A table without any service.
    pub fn new() -> (res: Self)
        ensures
            res@ == Map::<Seq<char>, H>::empty(),
    {
        RouteTable { routes: Vec::new() }
    }

    /// Finds the place of a service in the table.
    fn find(&self, service_name: &str) -> (res: Option<usize>)
        ensures
            res is Some <==> self.registered(service_name@),
            res matches Some(i) ==> self.holds_at(service_name@, i as int),
    {
        let mut i: usize = 0;
        while i < self.routes.len()
            invariant
                i <= self.routes@.len(),
                forall|j: int| 0 <= j < i ==> !self.holds_at(service_name@, j),
            decreases self.routes@.len() - i,
        {
            if same_text(self.routes[i].service_name.as_str(), service_name) {
                assert(self.holds_at(service_name@, i as int));
                return Some(i);
            }
            i = i + 1;
        }
        None
    }

    /// Registers `handler` under `service_name`.
    ///
    /// A name that is taken stays with the handler it has, and the
    /// handler that was offered comes back.
    pub fn register(&mut self, service_name: String, handler: H) -> (res: Result<(), H>)
        ensures
            old(self)@.contains_key(service_name@) ==> res == Err::<(), H>(handler),
            old(self)@.contains_key(service_name@) ==> final(self)@ == old(self)@,
            !old(self)@.contains_key(service_name@) ==> res is Ok,
            !old(self)@.contains_key(service_name@) ==> final(self)@ == old(self)@.insert(
                service_name@,
                handler,
            ),
    {
        proof {
            use_type_invariant(&*self);
        }
        if self.find(service_name.as_str()).is_some() {
            return Err(handler);
        }
        let ghost before = *self;
        let ghost name = service_name@;
        let mut routes: Vec<Route<H>> = Vec::new();
        std::mem::swap(&mut self.routes, &mut routes);
        routes.push(Route { service_name, handler });
        proof {
            assert forall|i: int, j: int| 0 <= i < j < routes@.len() implies routes@[i].service_name@
                != routes@[j].service_name@ by {
                if j == before.routes@.len() {
                    assert(!before.holds_at(name, i));
                }
            }
        }
        self.routes = routes;
        proof {
            let n: int = before.routes@.len() as int;
            assert forall|key: Seq<char>| self.registered(key) == (key == name
                || before.registered(key)) by {
                if key == name {
                    assert(self.holds_at(key, n));
                }
                if before.registered(key) {
                    let i: int = before.position(key);
                    assert(self.holds_at(key, i));
                }
                if self.registered(key) && key != name {
                    let i: int = self.position(key);
                    assert(before.holds_at(key, i));
                }
            }
            assert forall|key: Seq<char>| self.registered(key) implies #[trigger] self@[key]
                == before@.insert(name, handler)[key] by {
                if key != name {
                    assert(before.holds_at(key, self.position(key)));
                    assert(self.holds_at(key, before.position(key)));
                }
            }
        }
        Ok(())
    }

    /// The number of services in the table. Each has a name of its own, so
    /// this is the number of names.
    pub fn len(&self) -> (res: usize)
        ensures
            self@.dom().finite(),
            res == self@.dom().len(),
    {
        proof {
            use_type_invariant(self);
            let n: int = self.routes@.len() as int;
            self.lemma_names_below(n);
            assert(self@.dom() =~= self.names_below(n));
        }
        self.routes.len()
    }

    /// The handler registered for a service, if there is one.
    pub fn lookup(&self, service_name: &str) -> (res: Option<&H>)
        ensures
            res is Some <==> self@.contains_key(service_name@),
            res matches Some(handler) ==> *handler == self@[service_name@],
    {
        proof {
            use_type_invariant(self);
        }
        match self.find(service_name) {
            Some(i) => {
                proof {
                    // No name occurs twice: the place found is the one the view picks.
                    assert(self.holds_at(service_name@, self.position(service_name@)));
                }
                Some(&self.routes[i].handler)
            },
            None => None,
        }
    }
}

/// Where the router sends a call: to the handler of the service, together
/// with what the path says after the service.
#[derive(Debug)]
pub struct Forward<'a, H> {
    pub handler: &'a H,
    pub method: &'a str,
}

/// The single entry point for inbound calls.
///
/// It owns the route table, which nothing changes once the router exists.
#[derive(Debug)]
pub struct Router<H> {
    table: RouteTable<H>,
}

impl<H> View for Router<H> {
    type V = Map<Seq<char>, H>;

    /// The handlers that the router dispatches to, by service name.
    closed spec fn view(&self) -> Map<Seq<char>, H> {
        self.table@
    }
}

impl<H> Router<H> {
    /// A router over the handlers of `table`.
    pub fn new(table: RouteTable<H>) -> (res: Self)
        ensures
            res@ == table@,
    {
        Router { table }
    }

    /// Dispatches one call by its path.
    ///
    /// A path that is not `/<service>/<method>` is an invalid request. A
    /// well-formed path is forwarded to the handler registered for exactly
    /// its service, with its method; where there is none, the service is
    /// unimplemented.
    pub fn call<'a>(&'a self, path: &'a str) -> (res: Result<Forward<'a, H>, Rejection>)
        ensures
            !well_formed(path@) <==> res == Err::<Forward<'a, H>, Rejection>(
                Rejection::InvalidRequest,
            ),
            well_formed(path@) && !self@.contains_key(service_segment(path@)) <==> res == Err::<
                Forward<'a, H>,
                Rejection,
            >(Rejection::UnimplementedService),
            well_formed(path@) && self@.contains_key(service_segment(path@)) <==> res is Ok,
            res matches Ok(forward) ==> *forward.handler == self@[service_segment(path@)],
            res matches Ok(forward) ==> forward.method@ == method_segment(path@),
    {
        let (service, method) = match split_path(path) {
            Some(parts) => parts,
            None => {
                return Err(Rejection::InvalidRequest);
            },
        };
        match self.table.lookup(service) {
            Some(handler) => Ok(Forward { handler, method }),
            None => Err(Rejection::UnimplementedService),
        }
    }
}

} // verus!
