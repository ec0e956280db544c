//! Verified core of a small set of Solana tools and programs: secret-key
//! loading, address derivation, transaction instruction plans for a wallet
//! client, and the state rules of a "favorites" program and a token escrow
//! program.

pub mod bytes;
pub mod ids;
pub mod secret_key;
pub mod keypair;
pub mod pda;
pub mod favorites;
pub mod escrow;
pub mod instruction;
pub mod base58;
pub mod client;
pub mod message;
