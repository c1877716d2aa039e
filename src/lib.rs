//! Discovery of the (host, port) endpoint that serves a paymail domain.
//!
//! A resolution tries three lookup tiers in a fixed order: the service
//! record `_bsvalias._tcp.<domain>`, then the IPv4 addresses of the domain,
//! then its IPv6 addresses. The first tier that yields a record decides the
//! endpoint. The library decides what to look up next and what the answers
//! mean; the lookups are performed by a `provider::Resolver`, or by a caller
//! that drives the steps of `resolution` itself.
pub mod lemmas;
pub mod names;
pub mod provider;
pub mod resolution;
