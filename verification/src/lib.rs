//! Verified core of a networking and tracing toolkit.
pub mod grpc;
pub mod json;
pub mod net;
pub mod text;
pub mod trace;
