//! Core data model for a DAO (decentralized autonomous organization)
//! governance subsystem: strict scalar conversion of externally supplied
//! strings, untrusted payload models, bounded on-ledger records with
//! validation, deterministic binary encoding, and the capability interfaces
//! through which other modules query or initialize DAO state.

pub mod codec;
pub mod convert;
pub mod provider;
pub mod scalar;
pub mod types;
