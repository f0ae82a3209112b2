//! The layer: what makes an interceptor of a handler.

use crate::middleware::MaintenanceMiddleware;
use crate::page::DefaultResponse;
use crate::response::{MaintenanceResponse, SharedResponse};
use vstd::prelude::*;

verus! {

/// A middleware layer for the maintenance mode. It holds the generator of
/// the response that is served while maintenance mode is on, and puts it
/// around every handler that it is laid over.
pub struct MaintenanceLayer<R: MaintenanceResponse = DefaultResponse> {
    response: SharedResponse<R>,
}

impl MaintenanceLayer<DefaultResponse> {
    /// Creates a new `MaintenanceLayer` with the default response.
    pub fn new() -> (layer: Self)
        ensures
            layer.generator() == DefaultResponse,
    {
        MaintenanceLayer { response: SharedResponse::new(DefaultResponse) }
    }
}

impl<R: MaintenanceResponse> MaintenanceLayer<R> {
    /// The bound generator.
    pub closed spec fn generator(&self) -> R {
        self.response@
    }

    /// Creates a new `MaintenanceLayer` with a provided response generator.
    pub fn with_response(response: R) -> (layer: Self)
        requires
            response.ready(),
        ensures
            layer.generator() == response,
    {
        MaintenanceLayer { response: SharedResponse::new(response) }
    }

    /// Puts the interceptor around `inner`, with this layer's generator.
    pub fn layer<S>(&self, inner: S) -> (middleware: MaintenanceMiddleware<S, R>)
        ensures
            middleware.handler() == inner,
            middleware.generator() == self.generator(),
    {
        MaintenanceMiddleware::new(inner, self.response.clone())
    }
}

impl<R: MaintenanceResponse> Clone for MaintenanceLayer<R> {
    /// A copy with the same generator.
    fn clone(&self) -> (copy: Self)
        ensures
            copy.generator() == self.generator(),
    {
        MaintenanceLayer { response: self.response.clone() }
    }
}

} // verus!
