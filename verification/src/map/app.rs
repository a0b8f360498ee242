//! The state of the map application.
use vstd::prelude::*;

use crate::map::info::NodeExtra;
use crate::map::list::StatefulList;
use crate::map::nodes::NodeMap;
use crate::map::types::{NodeId, NodeInfo};
use crate::text::{
    affixes_cancel, decimal, decimal_injective, decimal_reads_back, is_numeral, number_in,
    write_decimal,
};

verus! {

/// The state of the map application.
pub struct App {
    pub node_list: StatefulList,
}

/// One more than the number of the last node on the map.
pub const NODES_END: u64 = 100;

/// The title of node `num`: the word and the number on a line of their own.
pub open spec fn node_title(num: nat) -> Seq<char> {
    "\nNode "@ + decimal(num) + "\n"@
}

/// Whether `title` is the title of one of the nodes numbered from 1.
pub open spec fn is_listed(title: Seq<char>) -> bool {
    exists|num: nat| 1 <= num < NODES_END && title == #[trigger] node_title(num)
}

/// What a new application shows: every numbered node, each with nothing below
/// its title.
pub open spec fn initial_nodes() -> Map<Seq<char>, Seq<char>> {
    Map::new(|title: Seq<char>| is_listed(title), |title: Seq<char>| Seq::<char>::empty())
}

impl App {
    /// An application that shows the nodes of [`App::get_node_id`], each with
    /// the last text of [`App::get_node_info`].
    pub fn new() -> (r: App)
        ensures
            r.node_list@ == initial_nodes(),
            r.node_list.node_info == (NodeExtra {  }),
    {
        let mut nodes = NodeMap::new();

        let node_id = Self::get_node_id();
        let node_info = Self::get_node_info();

        assert(nodes@ =~= listed_until(1));
        let mut i: usize = 0;
        while i < node_id.len()
            invariant
                i <= node_id.len(),
                node_id.len() == NODES_END - 1,
                forall|k: int|
                    0 <= k < node_id.len() ==> (#[trigger] node_id[k])@ == node_title(
                        (k + 1) as nat,
                    ),
                node_info.len() == NODES_END - 1,
                forall|k: int|
                    0 <= k < node_info.len() ==> (#[trigger] node_info[k])@ == Seq::<char>::empty(),
                nodes@ == listed_until((i + 1) as nat),
            decreases node_id.len() - i,
        {
            let ghost title = node_title((i + 1) as nat);
            let mut j: usize = 0;
            while j < node_info.len()
                invariant
                    i < node_id.len(),
                    node_id[i as int]@ == title,
                    j <= node_info.len(),
                    forall|k: int|
                        0 <= k < node_info.len() ==> (#[trigger] node_info[k])@ == Seq::<
                            char,
                        >::empty(),
                    nodes@ == (if j == 0 {
                        listed_until((i + 1) as nat)
                    } else {
                        listed_until((i + 1) as nat).insert(title, Seq::empty())
                    }),
                decreases node_info.len() - j,
            {
                nodes.insert(node_id[i].clone(), node_info[j].clone());
                assert(listed_until((i + 1) as nat).insert(title, Seq::empty()).insert(
                    title,
                    Seq::empty(),
                ) =~= listed_until((i + 1) as nat).insert(title, Seq::empty()));
                j = j + 1;
            }
            proof {
                listed_until_step((i + 1) as nat);
            }
            i = i + 1;
        }
        proof {
            assert(listed_until(NODES_END as nat) =~= initial_nodes());
        }

        let node_info = NodeExtra::new();
        App { node_list: StatefulList::new(nodes, node_info) }
    }

    /// The titles of the nodes, in the order of their numbers.
    pub fn get_node_id() -> (r: Vec<NodeId>)
        ensures
            r.len() == NODES_END - 1,
            forall|k: int| 0 <= k < r.len() ==> (#[trigger] r[k])@ == node_title((k + 1) as nat),
    {
        let mut node_list: Vec<NodeId> = Vec::new();
        for num in 1..NODES_END
            invariant
                node_list.len() == num - 1,
                forall|k: int|
                    0 <= k < node_list.len() ==> (#[trigger] node_list[k])@ == node_title(
                        (k + 1) as nat,
                    ),
        {
            let new_nodes = "\nNode ".to_owned().concat(write_decimal(num).as_str()).concat("\n");
            node_list.push(new_nodes);
        }
        node_list
    }

    /// What is shown below each title: nothing yet.
    pub fn get_node_info() -> (r: Vec<NodeInfo>)
        ensures
            r.len() == NODES_END - 1,
            forall|k: int| 0 <= k < r.len() ==> (#[trigger] r[k])@ == Seq::<char>::empty(),
    {
        let mut node_info: Vec<NodeInfo> = Vec::new();
        for num in 1..NODES_END
            invariant
                node_info.len() == num - 1,
                forall|k: int|
                    0 <= k < node_info.len() ==> (#[trigger] node_info[k])@ == Seq::<char>::empty(),
        {
            node_info.push(String::new());
        }
        node_info
    }
}

impl Clone for App {
    /// An application that shows the same.
    fn clone(&self) -> (r: App)
        ensures
            r.node_list@ == self.node_list@,
            r.node_list.node_info == self.node_list.node_info,
    {
        App { node_list: self.node_list.clone() }
    }
}

/// The part of [`initial_nodes`] with numbers below `end`.
spec fn listed_until(end: nat) -> Map<Seq<char>, Seq<char>> {
    Map::new(
        |title: Seq<char>|
            exists|num: nat| 1 <= num < end && title == #[trigger] node_title(num),
        |title: Seq<char>| Seq::<char>::empty(),
    )
}

proof fn listed_until_step(end: nat)
    requires
        end >= 1,
    ensures
        listed_until(end).insert(node_title(end), Seq::empty()) == listed_until(end + 1),
{
    let grown = listed_until(end).insert(node_title(end), Seq::empty());
    assert forall|title: Seq<char>| grown.contains_key(title) implies listed_until(
        end + 1,
    ).contains_key(title) by {
        if title == node_title(end) {
        } else {
            let num = choose|num: nat| 1 <= num < end && title == #[trigger] node_title(num);
            assert(1 <= num < end + 1 && title == node_title(num));
        }
    }
    assert(grown =~= listed_until(end + 1));
}

/// No two nodes share a title.
pub proof fn node_titles_distinct(a: nat, b: nat)
    requires
        node_title(a) == node_title(b),
    ensures
        a == b,
{
    affixes_cancel("\nNode "@, decimal(a), decimal(b), "\n"@);
    decimal_injective(a, b);
}

/// A title is a line of its own: the word, a space and the numeral of the node's
/// number.
pub proof fn title_tells_the_number(num: nat)
    ensures
        ({
            let title = node_title(num);
            let end = title.len() - 1;
            &&& end > 6
            &&& title.subrange(0, 6) == seq!['\n', 'N', 'o', 'd', 'e', ' ']
            &&& title[end] == '\n'
            &&& is_numeral(title.subrange(6, end))
            &&& number_in(title.subrange(6, end)) == num
        }),
{
    reveal_strlit("\nNode ");
    reveal_strlit("\n");
    decimal_reads_back(num);
    let title = node_title(num);
    assert(title.subrange(0, 6) =~= seq!['\n', 'N', 'o', 'd', 'e', ' ']);
    assert(title.subrange(6, title.len() - 1) =~= decimal(num));
}

/// A new application shows the nodes from 1 to 99 and no other entry, and says
/// nothing of any.
pub proof fn initial_nodes_are_numbered(title: Seq<char>, num: nat)
    ensures
        initial_nodes().contains_key(node_title(num)) <==> 1 <= num <= 99,
        initial_nodes().contains_key(title) ==> {
            &&& initial_nodes()[title].len() == 0
            &&& exists|n: nat| 1 <= n <= 99 && title == #[trigger] node_title(n)
        },
{
    if initial_nodes().contains_key(node_title(num)) {
        let n = choose|n: nat| 1 <= n < NODES_END && node_title(num) == #[trigger] node_title(n);
        node_titles_distinct(num, n);
    }
    if initial_nodes().contains_key(title) {
        let n = choose|n: nat| 1 <= n < NODES_END && title == #[trigger] node_title(n);
        assert(1 <= n <= 99 && title == node_title(n));
    }
}

/// A new application shows one entry for each node number.
pub proof fn initial_nodes_count()
    ensures
        initial_nodes().dom().finite(),
        initial_nodes().len() == NODES_END - 1,
{
    listed_until_count(NODES_END as nat);
    assert(listed_until(NODES_END as nat) =~= initial_nodes());
}

proof fn listed_until_count(end: nat)
    requires
        end >= 1,
    ensures
        listed_until(end).dom().finite(),
        listed_until(end).len() == end - 1,
    decreases end,
{
    if end == 1 {
        assert(listed_until(end).dom() =~= Set::empty());
    } else {
        let prev = (end - 1) as nat;
        listed_until_count(prev);
        listed_until_step(prev);
        assert(!listed_until(prev).contains_key(node_title(prev))) by {
            if listed_until(prev).contains_key(node_title(prev)) {
                let num = choose|num: nat|
                    1 <= num < prev && node_title(prev) == #[trigger] node_title(num);
                node_titles_distinct(prev, num);
            }
        }
        assert(listed_until(end).dom() =~= listed_until(prev).dom().insert(node_title(prev)));
    }
}

} // verus!
