//! Verified core of the SLIM service bindings: how a service's identity is
//! derived, which connection id it reports, where a published message is
//! routed, and how a received message is turned into a payload or an error.

pub mod error;
pub mod identity;
pub mod naming;
pub mod publish;
pub mod receive;
pub mod service;
