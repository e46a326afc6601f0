//! Native host core for a multi-account chat client.
//!
//! The crate verifies the two subsystems that need real resource lifecycle
//! management: the per-server isolated browsing-context manager with its
//! device-mediation script, and the push-to-talk key-state monitor with its
//! shared registry. Platform I/O (webview attachment, raw key sampling, the
//! OS microphone endpoint, the filesystem) stays in the host application,
//! which drives the verified state machines defined here.

pub mod devices;
pub mod isolation;
pub mod keys;
pub mod monitor;
pub mod profile;
pub mod registry;
pub mod script;
pub mod servers;
pub mod surfaces;
pub mod text;
