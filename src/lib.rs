//! A development bridge that runs an application's command handlers on behalf of
//! HTTP clients: a registry of named commands, the adapters between JSON and typed
//! commands, and the request handling of a loop-back HTTP endpoint.
pub mod json;
pub mod reply;
pub mod registry;
pub mod adapter;
pub mod bridge;
pub mod laws;
