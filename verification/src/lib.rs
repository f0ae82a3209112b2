//! Maintenance mode for a request pipeline.
//!
//! A [`MaintenanceState`] is the flag that an operator toggles. A
//! [`MaintenanceLayer`] puts a [`MaintenanceMiddleware`] around a handler,
//! and the middleware decides for each request, by the flag as it stands,
//! whether the request goes on to the handler or is answered on the spot
//! with the response of a [`MaintenanceResponse`]: by default a short HTML
//! page with status 503.
//!
//! Nothing here waits or performs I/O. The host keeps the flag behind a lock
//! of its choice, reads it for each request, asks the middleware what
//! becomes of the request, and does as it is told.

pub mod layer;
pub mod middleware;
pub mod page;
pub mod response;
pub mod state;

pub use layer::MaintenanceLayer;
pub use middleware::{MaintenanceMiddleware, Routed};
pub use page::{default_response, DefaultResponse};
pub use response::MaintenanceResponse;
pub use state::MaintenanceState;
