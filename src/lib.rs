//! Routing of platform-agnostic forge requests to the backend that serves
//! them: auto-discovery of a host's forge kind, flagship-instance fallback
//! for federated forges, and one small error vocabulary for every failure.

pub mod kind;
pub mod error;
pub mod config;
pub mod discovery;
pub mod dispatch;
