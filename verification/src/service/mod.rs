//! The Solana bridge: accounts to watch, and transfers to send.
pub mod base58;
pub mod failed;
pub mod json;
pub mod jsonrpc;
pub mod keys;
pub mod sol;
pub mod transfer;
