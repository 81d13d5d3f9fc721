//! Transactional core of a hierarchical-deterministic wallet.
//!
//! The crate decides; it does not do cryptography. Key derivation, address
//! encoding, fee estimation and transaction hashing are carried out by a
//! collaborator, and every answer of the collaborator enters the library as
//! a plain value. What the library adds is the part that can be wrong without
//! anyone noticing: which index comes next in an address sequence, in which
//! order a request is validated, and that a finished transaction balances.
//!
//! - [`addresses`]: accounts and lazy address sequences.
//! - [`builder`]: a build, from two JSON lists to a balanced transaction.
//! - [`transaction`]: inputs, outputs, totals, and the transaction itself.
//! - [`records`] and [`json`]: reading the caller's lists.
//! - [`codec`]: transaction identifiers in hexadecimal.
//! - [`chain`]: chains and derivation paths.
//! - [`error`]: the failures.

pub mod addresses;
pub mod builder;
pub mod chain;
pub mod codec;
pub mod error;
pub mod json;
pub mod records;
pub mod transaction;
