//! A dynamic-DNS reconciliation library.
//!
//! The library keeps a DNS A record in step with a host's current public
//! address. Each cycle it re-establishes the record on file (or reuses a
//! cached copy), discovers the current address, and, only when the two
//! differ, asks for an update; any failure invalidates the cache so that the
//! next cycle starts from ground truth. The decisions of a cycle live in
//! [`cycle`] as a verified step machine; [`lookup`] reads the record out of
//! the provider's response, [`public_ip`] finds the address in the device
//! endpoint's answer, and [`requests`] builds the texts of the outgoing
//! requests. The embedding program only performs the network calls the
//! machine asks for.

pub mod cycle;
pub mod errors;
pub mod lookup;
pub mod public_ip;
pub mod record;
pub mod requests;
