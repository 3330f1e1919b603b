//! The registry: one record for each node that was ever heard of, found by
//! the node's identifier.

use crate::node::{ComprehensiveNode, NodeView};
use std::collections::HashMap;
use vstd::prelude::*;
use vstd::std_specs::hash::spec_keys_iter;
use vstd::std_specs::iter::IteratorSpec;

verus! {

broadcast use vstd::std_specs::hash::group_hash_axioms;

/// The records of all known nodes, keyed by node identifier.
#[derive(Debug)]
pub struct NodeRegistry {
    nodes: HashMap<u32, ComprehensiveNode>,
}

impl View for NodeRegistry {
    type V = Map<u32, NodeView>;

    closed spec fn view(&self) -> Map<u32, NodeView> {
        self.nodes@.map_values(|n: ComprehensiveNode| n@)
    }
}

impl NodeRegistry {
    /// A registry that knows no node.
    pub fn new() -> (registry: Self)
        ensures
            registry@ == Map::<u32, NodeView>::empty(),
    {
        let registry = NodeRegistry { nodes: HashMap::new() };
        assert(registry@ =~= Map::<u32, NodeView>::empty());
        registry
    }

    /// A registry has finitely many records.
    pub proof fn lemma_finite(&self)
        ensures
            self@.dom().finite(),
    {
        assert(self@.dom() =~= self.nodes@.dom());
    }

    /// The number of known nodes.
    pub fn len(&self) -> (n: usize)
        ensures
            n == self@.dom().len(),
    {
        assert(self@.dom() =~= self.nodes@.dom());
        self.nodes.len()
    }

    /// Whether a node is known.
    pub fn contains(&self, id: u32) -> (b: bool)
        ensures
            b == self@.contains_key(id),
    {
        self.nodes.contains_key(&id)
    }

    /// The record of a node, if it is known.
    pub fn get(&self, id: u32) -> (r: Option<&ComprehensiveNode>)
        ensures
            match r {
                Some(node) => self@.contains_key(id) && node@ == self@[id],
                None => !self@.contains_key(id),
            },
    {
        self.nodes.get(&id)
    }

    /// The record of a node, created first if the node was unknown.
    ///
    /// What the caller writes through the returned reference becomes the
    /// node's record; every other record stays as it was.
    pub fn upsert(&mut self, id: u32) -> (node: &mut ComprehensiveNode)
        ensures
            node@ == if old(self)@.contains_key(id) {
                old(self)@[id]
            } else {
                ComprehensiveNode::fresh(id)
            },
            final(self)@ == old(self)@.insert(id, final(node)@),
    {
        self.nodes.entry(id).or_insert(ComprehensiveNode::with_id(id))
    }

    /// Stores a record under an identifier, replacing the one that was there.
    pub fn put(&mut self, id: u32, node: ComprehensiveNode)
        ensures
            final(self)@ == old(self)@.insert(id, node@),
    {
        self.nodes.insert(id, node);
        assert(self@ =~= old(self)@.insert(id, node@));
    }

    /// The identifiers of all known nodes, each once, in no particular order.
    pub fn keys(&self) -> (ids: Vec<u32>)
        ensures
            ids@.no_duplicates(),
            ids@.to_set() == self@.dom(),
    {
        let mut ids: Vec<u32> = Vec::new();
        let ghost all = spec_keys_iter(&self.nodes).remaining();
        for k in iter: self.nodes.keys()
            invariant
                iter.seq() == all,
                ids@.len() == iter.index(),
                forall|i: int| 0 <= i < ids@.len() ==> ids@[i] == *iter.seq()[i],
        {
            ids.push(*k);
        }
        assert(ids@ =~= all.unref());
        assert(self@.dom() =~= self.nodes@.dom());
        ids
    }
}

} // verus!
