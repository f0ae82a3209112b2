//! The interceptor: one decision for each request.

use crate::page::{default_page, DefaultResponse};
use crate::response::{responds, MaintenanceResponse, SharedResponse};
use crate::state::MaintenanceState;
use axum::body::Body;
use axum::http::Response;
use vstd::prelude::*;

verus! {

/// What becomes of one request.
pub enum Routed<Req> {
    /// Maintenance mode is on: this is the answer, and the wrapped handler
    /// does not get to see the request.
    Respond(Response<Body>),
    /// Maintenance mode is off: the request, as it came, is for the wrapped
    /// handler, and the handler's answer is the answer.
    Forward(Req),
}

/// Maintenance mode interceptor around a handler `S`, with the generator `R`
/// of the response that is served while maintenance mode is on.
pub struct MaintenanceMiddleware<S, R: MaintenanceResponse> {
    inner: S,
    response: SharedResponse<R>,
}

impl<S, R: MaintenanceResponse> MaintenanceMiddleware<S, R> {
    /// The wrapped handler.
    pub closed spec fn handler(&self) -> S {
        self.inner
    }

    /// The bound generator.
    pub closed spec fn generator(&self) -> R {
        self.response@
    }

    /// Whether `routed` is what becomes of `req` while the flag reads
    /// `enabled`. While maintenance mode is off, the one outcome is that
    /// the request, as it came, is forwarded. While it is on, the outcomes
    /// are the responses that a call of the bound generator returns.
    pub open spec fn routes<Req>(&self, enabled: bool, req: Req, routed: Routed<Req>) -> bool {
        if enabled {
            routed is Respond && responds(self.generator(), routed->Respond_0)
        } else {
            routed == Routed::Forward(req)
        }
    }

    /// Wraps `inner`, with `response` as the generator.
    pub(crate) fn new(inner: S, response: SharedResponse<R>) -> (middleware: Self)
        ensures
            middleware.handler() == inner,
            middleware.generator() == response@,
    {
        MaintenanceMiddleware { inner, response }
    }

    /// The wrapped handler.
    pub fn inner(&self) -> (inner: &S)
        ensures
            *inner == self.handler(),
    {
        &self.inner
    }

    /// The wrapped handler, to drive it. The generator stays bound.
    pub fn inner_mut(&mut self) -> (inner: &mut S)
        ensures
            *inner == old(self).handler(),
            final(self).handler() == *final(inner),
            final(self).generator() == old(self).generator(),
    {
        &mut self.inner
    }

    /// Decides what becomes of `req`, given the flag as it stands.
    ///
    /// While maintenance mode is on, the answer is a response of the bound
    /// generator, and the request goes no further. While it is off, the
    /// request comes back unchanged, to be handed to the wrapped handler.
    /// The wrapped handler is never called here: nothing is asked of `S`,
    /// so there is nothing to call it by.
    pub fn call<Req>(&self, state: &MaintenanceState, req: Req) -> (routed: Routed<Req>)
        ensures
            self.routes(state@, req, routed),
    {
        if state.status() {
            Routed::Respond(self.response.response())
        } else {
            Routed::Forward(req)
        }
    }
}

/// While maintenance mode is off, every request is forwarded, and forwarded
/// as it came: no response is made in its place.
pub proof fn lemma_off_forwards_unchanged<S, R: MaintenanceResponse, Req>(
    middleware: MaintenanceMiddleware<S, R>,
    req: Req,
    routed: Routed<Req>,
)
    requires
        middleware.routes(false, req, routed),
    ensures
        routed == Routed::Forward(req),
        routed !is Respond,
{
}

/// While maintenance mode is on, every request is answered with a response
/// of the bound generator, and none is forwarded.
pub proof fn lemma_on_short_circuits<S, R: MaintenanceResponse, Req>(
    middleware: MaintenanceMiddleware<S, R>,
    req: Req,
    routed: Routed<Req>,
)
    requires
        middleware.routes(true, req, routed),
    ensures
        routed is Respond,
        responds(middleware.generator(), routed->Respond_0),
        routed !is Forward,
{
}

/// With the default generator, the answer while maintenance mode is on is
/// the default page: status 503, `Content-Type: text/html`, and the fixed
/// body.
pub proof fn lemma_default_generator_serves_default_page<S, Req>(
    middleware: MaintenanceMiddleware<S, DefaultResponse>,
    req: Req,
    routed: Routed<Req>,
)
    requires
        middleware.routes(true, req, routed),
    ensures
        routed == Routed::<Req>::Respond(default_page()),
{
}

/// With a generator that returns one response only, the answer while
/// maintenance mode is on is exactly that response, and so the default page
/// only where that is what the generator returns.
pub proof fn lemma_custom_generator_serves_its_response<S, R: MaintenanceResponse, Req>(
    middleware: MaintenanceMiddleware<S, R>,
    page: Response<Body>,
    req: Req,
    routed: Routed<Req>,
)
    requires
        forall|response: Response<Body>| #[trigger]
            responds(middleware.generator(), response) ==> response == page,
        middleware.routes(true, req, routed),
    ensures
        routed == Routed::<Req>::Respond(page),
        page != default_page() ==> routed != Routed::<Req>::Respond(default_page()),
{
}

impl<S: Clone, R: MaintenanceResponse> Clone for MaintenanceMiddleware<S, R> {
    /// A copy with a clone of the wrapped handler and the same generator.
    fn clone(&self) -> (copy: Self)
        ensures
            cloned(self.handler(), copy.handler()),
            copy.generator() == self.generator(),
    {
        MaintenanceMiddleware { inner: self.inner.clone(), response: self.response.clone() }
    }
}

} // verus!
