//! An owner-gated, append-only registry of string values keyed by account
//! identifier. A single owner may append a value to any account's list;
//! anyone may read a list. A key that was never written reads as the empty
//! list, indistinguishable from an empty one.

pub mod model;
pub mod registry;
pub mod storage;

pub use registry::Contract;
pub use registry::RegistryError;
