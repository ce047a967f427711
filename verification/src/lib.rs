//! Verified core of a handler-based microservice framework: the in-process
//! message bus, the publish/dispatch protocol spoken over it, the shared state
//! store, request authentication, the HTTP replies of the routes, client
//! certificate name checks and the manager's configuration and start-up plan.

pub mod communication;
pub mod json;
pub mod manager;
pub mod routes;
pub mod security;
pub mod states;
pub mod text;
pub mod traits;
