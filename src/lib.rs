//! Verified core of a stdio JSON-RPC relay to a documentation service, and
//! the pure helpers of the editor extension that launches it.

pub mod bridge;
pub mod extension;
pub mod install;
pub mod json;
pub mod text;
pub mod transport;
