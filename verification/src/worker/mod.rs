//! The worker side of the pool: one `WebSocket` connection each.

pub mod context;
pub mod handler;
