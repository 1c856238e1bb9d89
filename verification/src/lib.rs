//! Content-security guards for a tool-calling gateway.
//!
//! Two detection engines decide whether traffic is allowed, allowed with a
//! warning, or denied:
//!
//! * [`injection`] scores free text (tool arguments, server responses)
//!   against keyword-sequence patterns to detect prompt injection.
//! * [`spoofing`] checks server identities and tool listings against a
//!   whitelist and a registry of known tools to detect impersonation.
//!
//! Every function is verified against a contract stated over sequences of
//! characters; state (configuration, tool registry) is passed in explicitly.

pub mod gateway;
pub mod injection;
pub mod json;
pub mod spoofing;
pub mod text;
