//! A certificate registry: accounts submit short text claims, the registry
//! stores them per owner and claim identifier, and a privileged verifier
//! later attaches a confidence score and a status to each claim.

pub mod address;
pub mod bytes;
pub mod certificate;
pub mod contract;
pub mod error;
pub mod events;
pub mod index;
pub mod keys;
pub mod laws;
pub mod rules;
pub mod store;
pub mod table;
