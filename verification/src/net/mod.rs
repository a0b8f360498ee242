//! Outbound connections to a predefined set of peers.
pub mod connect_laws;
pub mod connect_loop;
pub mod manual_session;
pub mod settings;
