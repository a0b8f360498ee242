//! The list of nodes on the map.
use vstd::prelude::*;

use crate::map::info::NodeExtra;
use crate::map::nodes::NodeMap;

verus! {

/// The nodes by title, with the details that go with the list.
pub struct StatefulList {
    pub nodes: NodeMap,
    pub node_info: NodeExtra,
}

impl View for StatefulList {
    type V = Map<Seq<char>, Seq<char>>;

    /// The text shown for each title.
    open spec fn view(&self) -> Map<Seq<char>, Seq<char>> {
        self.nodes@
    }
}

impl StatefulList {
    /// A list of the given nodes.
    pub fn new(nodes: NodeMap, node_info: NodeExtra) -> (r: StatefulList)
        ensures
            r.nodes == nodes,
            r.node_info == node_info,
    {
        StatefulList { nodes, node_info }
    }
}

impl Clone for StatefulList {
    fn clone(&self) -> (r: StatefulList)
        ensures
            r@ == self@,
            r.node_info == self.node_info,
    {
        StatefulList { nodes: self.nodes.clone(), node_info: self.node_info }
    }
}

/// The contents of a list are those of its nodes.
pub proof fn list_contents(list: StatefulList)
    ensures
        list@ == list.nodes@,
{
}

} // verus!
