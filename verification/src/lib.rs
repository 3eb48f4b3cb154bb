//! Verified core of the Dapr SDK: configuration, endpoint handling, request
//! shaping, workflow history helpers and the decisions that the runtime
//! wrappers in `app/` act on.

pub mod text;
pub mod duration;
pub mod error;
pub mod config;
pub mod interceptor;
pub mod proto_common;
pub mod appcallback;
pub mod durabletask;
pub mod workflow;
pub mod client;
pub mod server_http;
