//! Flash messages: short-lived, session-scoped notifications that are queued
//! while one request is served and shown while a later one is.
//!
//! The crate holds the whole life of such a message as plain, verified
//! functions: the levelled [`message::Message`], the per-session
//! [`queue::MessageQueue`], the request-scoped [`manager::Messages`] that
//! loads and flushes it, the two demonstration handlers, the
//! response-rewriting transformers and the pipeline that runs them in their
//! fixed order against an in-memory session store.
pub mod handlers;
pub mod laws;
pub mod manager;
pub mod message;
pub mod pipeline;
pub mod queue;
pub mod response;
pub mod route;
pub mod session;
pub mod transform;
