//! Solana helper library: deterministic keypair derivation from a secret
//! phrase, batched SOL and SPL-token transfer planning, associated token
//! account addressing, and stake account setup.
//!
//! The planning logic is verified; calls into the Solana SDK (key derivation,
//! instruction encoding, transaction signing) stand behind trusted wrappers
//! whose contracts mirror what the SDK's sources show.

pub mod account;
pub mod encode;
pub mod error;
pub mod keypair_generator;
pub mod network;
pub mod ops;
pub mod spl_token;
pub mod stake;
pub mod transfer;
