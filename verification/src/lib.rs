//! Custodial vault transfers: a client moves lamports from a source account
//! into a vault whose address is derived from a seed tag, the source identity
//! and the owning program, and which therefore has no signing key.
//!
//! * [`derivation`] finds the vault address and its bump,
//! * [`payload`] is the nine-byte wire form of `(bump, amount)`,
//! * [`executor`] validates a transfer and moves the balances,
//! * [`client`] assembles what a client submits.

pub mod account;
pub mod client;
pub mod derivation;
pub mod error;
pub mod executor;
pub mod identity;
pub mod payload;

pub use error::TransferError;
pub use identity::Identity;
pub use account::Account;
pub use payload::{decode, encode, InstructionData};
