//! Token-gated request dispatch for the vote gateway: verification of vote
//! tokens, construction of the envelopes sent to the backend services, and
//! mapping of backend replies onto the gateway's error taxonomy.
//!
//! The handlers plan each outbound call as a [`services::BackendRequest`];
//! the caller performs it and hands the reply back as a
//! [`common::BackendReply`], which [`common::settle_reply`] turns into a
//! typed result or a [`common::ServiceError`].
pub mod common;
pub mod context;
pub mod json;
pub mod schema;
pub mod services;
pub mod submit_handler;
pub mod token;
pub mod user_manager;
