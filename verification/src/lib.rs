//! First-boot agent for cloud instances, without the wire.
//!
//! The library decides; its caller sends, waits and touches the host. A
//! provider prepares each request, says what it makes of each answer, and
//! leads a probe step by step to the configuration, the instance and its
//! group. The host module turns what a probe found into the list of things
//! to do to the host.

pub mod configuration;
pub mod document;
pub mod host;
pub mod http_client;
pub mod provider;
pub mod text;
