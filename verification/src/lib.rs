//! The logic of a byte cache served over HTTP and gRPC: configuration,
//! request decisions, replies and access control.

pub mod auth;
pub mod configuration;
pub mod keys;
pub mod logging;
pub mod replies;
pub mod rpc;
pub mod settings;
pub mod text;
