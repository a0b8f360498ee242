//! What the network map displays: the known nodes and what is said of each.
pub mod app;
pub mod info;
pub mod list;
pub mod nodes;
pub mod types;
