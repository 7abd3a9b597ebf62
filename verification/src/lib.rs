//! Verified core of the management server: the JSON and message model,
//! the request routing and authorisation rules, the per-request decisions
//! of the handlers, the bookkeeping of agent connections and outstanding
//! agent requests, and the interpretation of agent replies.
pub mod text;
pub mod json;
pub mod message;
pub mod context;
pub mod auth;
pub mod dispatch;
pub mod pending;
pub mod agents;
pub mod registry;
pub mod frames;
pub mod session;
pub mod replies;
pub mod handlers;
pub mod login;
pub mod tls;
