//! Details of a node beyond its entry in the list.
use vstd::prelude::*;

verus! {

/// Details of the selected node. There are none yet.
#[derive(Clone, Copy, Debug, PartialEq, Eq, Structural)]
pub struct NodeExtra {}

impl NodeExtra {
    /// The details before any node reports some.
    pub fn new() -> (r: NodeExtra)
        ensures
            r == (NodeExtra {  }),
    {
        NodeExtra {  }
    }
}

} // verus!
