//! Response generators: what makes the response that is served while
//! maintenance mode is on.

use axum::body::Body;
use axum::http::Response;
use std::sync::Arc;
use vstd::prelude::*;

verus! {

/// `axum::body::Body`, opaque here: a body is passed through unread.
#[verifier::external_type_specification]
#[verifier::external_body]
pub struct ExBody(Body);

/// `http::Response`, as axum re-exports it, opaque here: a response is
/// passed through unread.
#[verifier::external_type_specification]
#[verifier::external_body]
#[verifier::reject_recursive_types(T)]
pub struct ExResponse<T>(Response<T>);

/// A source of the response that is served while maintenance mode is on.
///
/// Every closure and function `Fn() -> Response<Body>` that can be shared
/// between threads is one. A generator is shared by all the requests that
/// are served at the same time, so `response` takes `&self`.
///
/// A generator says what it returns by an `ensures` on its own `response`;
/// [`responds`] speaks of it.
pub trait MaintenanceResponse: Send + Sync + 'static {
    /// Whether `response` may be called. A generator that asks nothing of
    /// its caller is always ready, and that is what holds of a generator
    /// that does not say otherwise.
    open spec fn ready(&self) -> bool {
        true
    }

    /// Produces one complete response.
    fn response(&self) -> (response: Response<Body>)
        requires
            self.ready(),
    ;
}

impl<F> MaintenanceResponse for F where F: Fn() -> Response<Body> + Send + Sync + 'static {
    /// A closure is ready when its own precondition holds.
    open spec fn ready(&self) -> bool {
        call_requires(*self, ())
    }

    /// Calls the closure.
    fn response(&self) -> (response: Response<Body>)
        ensures
            call_ensures(*self, (), response),
    {
        (self)()
    }
}

/// Whether `response` is what a call of `generator.response()` returns.
pub open spec fn responds<R: MaintenanceResponse>(generator: R, response: Response<Body>) -> bool {
    call_ensures(R::response, (&generator,), response)
}

/// A closure or function as a generator: it is ready when its own
/// precondition holds, and what it returns as a generator is what its own
/// postcondition admits.
pub proof fn lemma_fn_is_generator<F>(f: F) where
    F: Fn() -> Response<Body> + Send + Sync + 'static,

    ensures
        f.ready() == call_requires(f, ()),
        forall|response: Response<Body>| #[trigger]
            responds(f, response) ==> call_ensures(f, (), response),
{
}

/// A generator that may be called at any time, held once and shared by a
/// layer and the interceptors that it makes.
pub(crate) struct SharedResponse<R: MaintenanceResponse> {
    generator: Arc<R>,
}

impl<R: MaintenanceResponse> View for SharedResponse<R> {
    type V = R;

    /// The generator.
    closed spec fn view(&self) -> R {
        *self.generator
    }
}

impl<R: MaintenanceResponse> SharedResponse<R> {
    /// The generator is ready.
    #[verifier::type_invariant]
    spec fn generator_is_ready(self) -> bool {
        self.generator.ready()
    }

    /// Takes `generator` to share it.
    pub(crate) fn new(generator: R) -> (shared: Self)
        requires
            generator.ready(),
        ensures
            shared@ == generator,
    {
        SharedResponse { generator: Arc::new(generator) }
    }

    /// Produces one response of the generator.
    pub(crate) fn response(&self) -> (response: Response<Body>)
        ensures
            responds(self@, response),
    {
        proof {
            use_type_invariant(self);
        }
        self.generator.response()
    }
}

impl<R: MaintenanceResponse> Clone for SharedResponse<R> {
    /// Another handle to the same generator.
    fn clone(&self) -> (copy: Self)
        ensures
            copy@ == self@,
    {
        proof {
            use_type_invariant(self);
        }
        SharedResponse { generator: self.generator.clone() }
    }
}

} // verus!
