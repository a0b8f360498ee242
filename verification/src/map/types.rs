//! The vocabulary of the network map.
use vstd::prelude::*;

verus! {

/// The title under which a node is listed.
pub type NodeId = String;

/// What is shown below a node's title.
pub type NodeInfo = String;

} // verus!
