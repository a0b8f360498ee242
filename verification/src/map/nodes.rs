//! The nodes on the map, by title.
use vstd::hash_map::StringHashMap;
use vstd::prelude::*;

use crate::map::types::{NodeId, NodeInfo};

verus! {

/// The text shown for each title.
pub struct NodeMap {
    infos: StringHashMap<NodeInfo>,
    /// The keys of `infos`, each once.
    titles: Vec<NodeId>,
}

impl View for NodeMap {
    type V = Map<Seq<char>, Seq<char>>;

    closed spec fn view(&self) -> Map<Seq<char>, Seq<char>> {
        self.infos@.map_values(|info: NodeInfo| info@)
    }
}

/// Whether `titles` are the keys of `nodes`, each once.
pub open spec fn lists_keys(titles: Seq<NodeId>, nodes: Map<Seq<char>, Seq<char>>) -> bool {
    &&& forall|i: int| 0 <= i < titles.len() ==> nodes.contains_key((#[trigger] titles[i])@)
    &&& forall|title: Seq<char>| #[trigger]
        nodes.contains_key(title) ==> exists|i: int|
            0 <= i < titles.len() && (#[trigger] titles[i])@ == title
    &&& forall|i: int, j: int|
        0 <= i < j < titles.len() ==> (#[trigger] titles[i])@ != (#[trigger] titles[j])@
}

impl NodeMap {
    #[verifier::type_invariant]
    spec fn valid(self) -> bool {
        lists_keys(self.titles@, self@)
    }

    /// No nodes.
    pub fn new() -> (r: NodeMap)
        ensures
            r@ == Map::<Seq<char>, Seq<char>>::empty(),
    {
        let infos: StringHashMap<NodeInfo> = StringHashMap::new();
        assert(infos@.map_values(|info: NodeInfo| info@) =~= Map::empty());
        NodeMap { infos, titles: Vec::new() }
    }

    /// Shows `info` for `title`, in place of what was shown for it before.
    pub fn insert(&mut self, title: NodeId, info: NodeInfo)
        ensures
            final(self)@ == old(self)@.insert(title@, info@),
    {
        let mut nodes = NodeMap::new();
        std::mem::swap(self, &mut nodes);
        proof {
            use_type_invariant(&nodes);
        }
        let NodeMap { mut infos, mut titles } = nodes;
        let ghost shown = infos@.map_values(|info: NodeInfo| info@);
        let ghost listed = titles@;
        if !infos.contains_key(title.as_str()) {
            titles.push(title.clone());
        }
        let ghost added = title@;
        infos.insert(title, info);
        proof {
            let after = infos@.map_values(|info: NodeInfo| info@);
            assert(after =~= shown.insert(added, info@));
            assert forall|key: Seq<char>| #[trigger] after.contains_key(key) implies exists|i: int|
                0 <= i < titles.len() && (#[trigger] titles@[i])@ == key by {
                if shown.contains_key(key) {
                    let i = choose|i: int| 0 <= i < listed.len() && (#[trigger] listed[i])@ == key;
                    assert(titles@[i] == listed[i]);
                } else {
                    assert(titles@[listed.len() as int]@ == key);
                }
            }
        }
        *self = NodeMap { infos, titles };
    }

    /// What is shown for `title`, if it is on the map.
    pub fn get(&self, title: &str) -> (r: Option<&NodeInfo>)
        ensures
            match r {
                Some(info) => self@.contains_key(title@) && info@ == self@[title@],
                None => !self@.contains_key(title@),
            },
    {
        self.infos.get(title)
    }

    /// The titles on the map, each once.
    pub fn titles(&self) -> (r: &Vec<NodeId>)
        ensures
            lists_keys(r@, self@),
    {
        proof {
            use_type_invariant(self);
        }
        &self.titles
    }

    /// How many nodes there are.
    pub fn len(&self) -> (r: usize)
        ensures
            r == self@.len(),
    {
        assert(self@.dom() =~= self.infos@.dom());
        self.infos.len()
    }
}

impl Clone for NodeMap {
    fn clone(&self) -> (r: NodeMap)
        ensures
            r@ == self@,
    {
        proof {
            use_type_invariant(self);
        }
        let mut copy = NodeMap::new();
        for i in 0..self.titles.len()
            invariant
                lists_keys(self.titles@, self@),
                forall|key: Seq<char>| #[trigger]
                    copy@.contains_key(key) <==> exists|k: int|
                        0 <= k < i && (#[trigger] self.titles@[k])@ == key,
                forall|key: Seq<char>| #[trigger]
                    copy@.contains_key(key) ==> self@.contains_key(key) && copy@[key] == self@[key],
        {
            let title = &self.titles[i];
            let ghost before = copy@;
            assert(self@.contains_key(self.titles@[i as int]@));
            if let Some(info) = self.infos.get(title.as_str()) {
                copy.insert(title.clone(), info.clone());
            }
            proof {
                assert forall|key: Seq<char>| #[trigger] copy@.contains_key(key) <==> exists|k: int|
                    0 <= k < i + 1 && (#[trigger] self.titles@[k])@ == key by {
                    if before.contains_key(key) {
                        let k = choose|k: int| 0 <= k < i && (#[trigger] self.titles@[k])@ == key;
                        assert(0 <= k < i + 1 && self.titles@[k]@ == key);
                    } else if key == self.titles@[i as int]@ {
                        assert(0 <= i < i + 1 && self.titles@[i as int]@ == key);
                    }
                }
            }
        }
        assert(copy@ =~= self@);
        copy
    }
}

/// Walking the titles reaches every node and each once: there are as many titles
/// as nodes, no two are alike, and a node is on the map exactly if its title is
/// among them.
pub proof fn titles_reach_every_node_once(
    titles: Seq<NodeId>,
    nodes: Map<Seq<char>, Seq<char>>,
    title: Seq<char>,
)
    requires
        lists_keys(titles, nodes),
    ensures
        nodes.dom().finite(),
        nodes.len() == titles.len(),
        nodes.contains_key(title) <==> exists|i: int|
            0 <= i < titles.len() && (#[trigger] titles[i])@ == title,
        forall|i: int, j: int|
            0 <= i < titles.len() && 0 <= j < titles.len() && (#[trigger] titles[i])@ == (
            #[trigger] titles[j])@ ==> i == j,
{
    let keys = titles.map_values(|id: NodeId| id@);
    assert forall|key: Seq<char>| nodes.dom().contains(key) <==> #[trigger] keys.contains(key) by {
        if nodes.contains_key(key) {
            let i = choose|i: int| 0 <= i < titles.len() && (#[trigger] titles[i])@ == key;
            assert(keys[i] == key);
        }
        if keys.contains(key) {
            let i = choose|i: int| 0 <= i < keys.len() && keys[i] == key;
            assert(titles[i]@ == key);
        }
    }
    assert(nodes.dom() =~= keys.to_set());
    assert forall|i: int, j: int|
        0 <= i < titles.len() && 0 <= j < titles.len() && (#[trigger] titles[i])@ == (
        #[trigger] titles[j])@ implies i == j by {
        if i < j {
            assert(titles[i]@ != titles[j]@);
        } else if j < i {
            assert(titles[j]@ != titles[i]@);
        }
    }
    assert(keys.no_duplicates()) by {
        assert forall|i: int, j: int|
            0 <= i < keys.len() && 0 <= j < keys.len() && i != j implies keys[i] != keys[j] by {
            assert(keys[i] == titles[i]@ && keys[j] == titles[j]@);
        }
    }
    keys.unique_seq_to_set();
}

} // verus!
