//! The route builder and the finished route descriptor.

use vstd::prelude::*;
use crate::method::{accepts, method_set_accepts, Method};
use crate::service::FramedRouteFactory;

verus! {

/// A route in the making: a path pattern and the verbs accepted so far.
/// Attaching a handler with `to` finishes it.
pub struct FramedRouteBuilder {
    pattern: String,
    methods: Vec<Method>,
}

/// A finished route: path pattern, accepted verbs and the handler that
/// serves them. No declared verb means that every verb is accepted.
pub struct FramedRoute<F> {
    handler: F,
    pattern: String,
    methods: Vec<Method>,
}

impl FramedRouteBuilder {
    /// The path pattern that the builder was started with.
    pub closed spec fn pattern(&self) -> Seq<char> {
        self.pattern@
    }

    /// The verbs given so far, in the order of the calls.
    pub closed spec fn methods(&self) -> Seq<Method> {
        self.methods@
    }

    pub(crate) fn new(path: &str) -> (builder: FramedRouteBuilder)
        ensures
            builder.pattern() == path@,
            builder.methods() == Seq::<Method>::empty(),
    {
        FramedRouteBuilder { pattern: path.to_owned(), methods: Vec::new() }
    }

    /// Adds one accepted verb after those already given.
    pub fn method(self, method: Method) -> (builder: FramedRouteBuilder)
        ensures
            builder.pattern() == self.pattern(),
            builder.methods() == self.methods().push(method),
    {
        let mut builder = self;
        builder.methods.push(method);
        builder
    }

    /// Finishes the route by attaching its handler.
    pub fn to<F>(self, handler: F) -> (route: FramedRoute<F>)
        ensures
            route.pattern() == self.pattern(),
            route.methods() == self.methods(),
            route.handler() == handler,
    {
        FramedRoute { handler, pattern: self.pattern, methods: self.methods }
    }
}

impl FramedRoute<()> {
    /// Starts a route for `path` that accepts every verb.
    pub fn build(path: &str) -> (builder: FramedRouteBuilder)
        ensures
            builder.pattern() == path@,
            builder.methods() == Seq::<Method>::empty(),
    {
        FramedRouteBuilder::new(path)
    }

    /// Starts a route for `path` that accepts `GET`.
    pub fn get(path: &str) -> (builder: FramedRouteBuilder)
        ensures
            builder.pattern() == path@,
            builder.methods() == seq![Method::Get],
    {
        FramedRouteBuilder::new(path).method(Method::Get)
    }

    /// Starts a route for `path` that accepts `POST`.
    pub fn post(path: &str) -> (builder: FramedRouteBuilder)
        ensures
            builder.pattern() == path@,
            builder.methods() == seq![Method::Post],
    {
        FramedRouteBuilder::new(path).method(Method::Post)
    }

    /// Starts a route for `path` that accepts `PUT`.
    pub fn put(path: &str) -> (builder: FramedRouteBuilder)
        ensures
            builder.pattern() == path@,
            builder.methods() == seq![Method::Put],
    {
        FramedRouteBuilder::new(path).method(Method::Put)
    }

    /// Starts a route for `path` that accepts `DELETE`.
    pub fn delete(path: &str) -> (builder: FramedRouteBuilder)
        ensures
            builder.pattern() == path@,
            builder.methods() == seq![Method::Delete],
    {
        FramedRouteBuilder::new(path).method(Method::Delete)
    }
}

impl<F> FramedRoute<F> {
    /// The path pattern of the route.
    pub closed spec fn pattern(&self) -> Seq<char> {
        self.pattern@
    }

    /// The declared verbs, in the order in which they were given.
    pub closed spec fn methods(&self) -> Seq<Method> {
        self.methods@
    }

    /// The handler of the route.
    pub closed spec fn handler(&self) -> F {
        self.handler
    }

    /// A route for `pattern` that accepts every verb.
    pub fn new(pattern: &str, handler: F) -> (route: FramedRoute<F>)
        ensures
            route.pattern() == pattern@,
            route.methods() == Seq::<Method>::empty(),
            route.handler() == handler,
    {
        FramedRoute { handler, pattern: pattern.to_owned(), methods: Vec::new() }
    }

    /// Adds one accepted verb after those already declared.
    pub fn method(self, method: Method) -> (route: FramedRoute<F>)
        ensures
            route.pattern() == self.pattern(),
            route.methods() == self.methods().push(method),
            route.handler() == self.handler(),
    {
        let mut route = self;
        route.methods.push(method);
        route
    }

    /// The path pattern, as the route table needs it for matching.
    pub fn path(&self) -> (pattern: &str)
        ensures
            pattern@ == self.pattern(),
    {
        self.pattern.as_str()
    }

    /// Whether the route takes a request made with `verb`.
    pub fn accepts(&self, verb: Method) -> (accepted: bool)
        ensures
            accepted == accepts(self.methods(), verb),
    {
        method_set_accepts(&self.methods, verb)
    }

    /// Turns the route into the factory of its per-connection services.
    /// Verbs and handler move over; the pattern has done its work.
    pub fn create(self) -> (factory: FramedRouteFactory<F>)
        ensures
            factory.methods() == self.methods(),
            factory.handler() == self.handler(),
    {
        FramedRouteFactory::assemble(self.handler, self.methods)
    }
}

} // verus!
