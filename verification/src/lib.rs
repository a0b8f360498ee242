//! The decision logic of a peer-to-peer node and of its Solana bridge.
//!
//! [`net`] decides what a manual outbound session does next, [`service`]
//! watches Solana accounts and prepares transfers, and [`map`] holds what the
//! network map displays. Nothing here opens a socket: callers perform the
//! actions that these modules ask for and hand back what happened.
pub mod map;
pub mod net;
pub mod service;
pub mod text;
