//! What the contracts of the protocol share.

pub mod errors;
pub mod events;
pub mod host;
pub mod laws;
pub mod reentrancy;
pub mod table;
pub mod types;
pub mod validation;
pub mod xdr;
