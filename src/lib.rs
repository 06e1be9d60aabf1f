//! A client library for a GraphQL-style HTTP API with a Pusher-compatible
//! subscription socket: the value and query model, request building, the
//! rate limiter, pagination and the socket's decisions, all verified.
pub mod text;
pub mod value;
pub mod field;
pub mod query;
pub mod resolve;
pub mod json;
pub mod variable;
pub mod rate_limiter;
pub mod request;
pub mod config;
pub mod data;
pub mod kit;
pub mod paginator;
pub mod event;
pub mod subscription;
pub mod registry;
pub mod to_query_string;
pub mod subscribe;
pub mod socket;
