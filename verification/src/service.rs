//! The per-route service factory and the per-connection dispatcher.

use vstd::prelude::*;
use vstd::string::StringExecFns;
use crate::method::{accepts, copy_method_set, method_set_accepts, Method};

verus! {

/// The reusable template of a route's services: nothing in it changes when
/// a service is made, so it can be activated any number of times.
pub struct FramedRouteFactory<F> {
    handler: F,
    methods: Vec<Method>,
}

/// The dispatcher of one connection, with its own copy of the route's verbs
/// and handler.
pub struct FramedRouteService<F> {
    handler: F,
    methods: Vec<Method>,
}

/// What a dispatcher answers when asked whether it can take a request.
#[derive(Clone, Copy, Debug, PartialEq, Eq, Structural)]
pub enum Readiness {
    Ready,
    NotReady,
}

/// The failure that the dispatcher's interface makes room for. Handler
/// errors never become one.
#[derive(Clone, Copy, Debug, PartialEq, Eq, Structural)]
pub enum DispatchError {
    Infrastructure,
}

/// How a call ends once the handler's outcome is known: the result that the
/// caller sees, and the line to hand to the error log, if any.
pub struct Completion {
    pub result: Result<(), DispatchError>,
    pub log: Option<String>,
}

/// The text that is logged for a handler error whose rendering is `error`.
pub open spec fn error_line(error: Seq<char>) -> Seq<char> {
    "Error in request handler: "@ + error
}

impl<F> FramedRouteFactory<F> {
    /// The verbs that every service of this factory carries.
    pub closed spec fn methods(&self) -> Seq<Method> {
        self.methods@
    }

    /// The handler that every service of this factory gets a clone of.
    pub closed spec fn handler(&self) -> F {
        self.handler
    }

    pub(crate) fn assemble(handler: F, methods: Vec<Method>) -> (factory: FramedRouteFactory<F>)
        ensures
            factory.methods() == methods@,
            factory.handler() == handler,
    {
        FramedRouteFactory { handler, methods }
    }

    /// Makes the service of one connection. It always succeeds, and the
    /// service holds copies of its own: the factory's verbs in their order
    /// and a clone of its handler.
    pub fn new_service(&self, _cfg: &()) -> (made: Result<FramedRouteService<F>, ()>) where
        F: Clone,

        ensures
            made is Ok,
            made->Ok_0.methods() == self.methods(),
            cloned(self.handler(), made->Ok_0.handler()),
    {
        Ok(
            FramedRouteService {
                handler: self.handler.clone(),
                methods: copy_method_set(&self.methods),
            },
        )
    }
}

impl<F> FramedRouteService<F> {
    /// The verbs that the route declared.
    pub closed spec fn methods(&self) -> Seq<Method> {
        self.methods@
    }

    /// The handler that `call` runs.
    pub closed spec fn handler(&self) -> F {
        self.handler
    }

    /// Always ready: the dispatcher holds no request back.
    pub fn poll_ready(&mut self) -> (ready: Result<Readiness, DispatchError>)
        ensures
            ready == Ok::<Readiness, DispatchError>(Readiness::Ready),
            *final(self) == *old(self),
    {
        Ok(Readiness::Ready)
    }

    /// Whether the route of this service takes a request made with `verb`.
    /// `call` does not ask: whoever routes the request does.
    pub fn accepts(&self, verb: Method) -> (accepted: bool)
        ensures
            accepted == accepts(self.methods(), verb),
    {
        method_set_accepts(&self.methods, verb)
    }

    /// Runs the handler on `req` and returns its outcome as the handler gave
    /// it, still to be awaited and settled by `complete`. The declared verbs
    /// stay as they were; the handler may have changed what it keeps for
    /// itself.
    pub fn call<Req, R>(&mut self, req: Req) -> (outcome: R) where F: FnMut(Req) -> R
        requires
            call_requires(old(self).handler(), (req,)),
        ensures
            call_ensures(old(self).handler(), (req,), outcome),
            final(self).methods() == old(self).methods(),
    {
        (self.handler)(req)
    }
}

/// Settles a call from the handler's outcome, the error already rendered as
/// text. The result is a success either way: a handler error is logged, not
/// passed on. Exactly the error case yields a log line, and that line ends
/// with the error's text.
pub fn complete(outcome: Result<(), String>) -> (done: Completion)
    ensures
        done.result == Ok::<(), DispatchError>(()),
        outcome is Ok ==> done.log is None,
        outcome is Err ==> done.log is Some && done.log->Some_0@ == error_line(
            outcome->Err_0@,
        ),
{
    match outcome {
        Ok(()) => Completion { result: Ok(()), log: None },
        Err(error) => {
            let line = String::from_str("Error in request handler: ").concat(error.as_str());
            Completion { result: Ok(()), log: Some(line) }
        },
    }
}

} // verus!
