//! Browser-less login handshake against an ADFS-style identity provider:
//! the artifact extractors, the form builders and the step function that
//! sequences probe, login, one-time ticket and SAML exchange.
//!
//! The library performs no network traffic. A driver performs each
//! action the step function asks for and reports the outcome as an event.

pub mod artifacts;
pub mod error;
pub mod forms;
pub mod handshake;
pub mod pattern;
pub mod ticket;
pub mod url;
