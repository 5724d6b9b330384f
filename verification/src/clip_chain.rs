//! The shared clip chain: the ordered list of clip sources that must mask a
//! node's content.
//!
//! Chain links are immutable once created and shared between nodes, so they
//! live in an arena and refer to one another by index: a link's `prev` always
//! points at an earlier slot, built by prepending to the parent's chain. A
//! chain handle is the index of its innermost link, or `None` for "no clip
//! upstream". The arena lives exactly as long as one frame's walk.

use vstd::prelude::*;

use crate::types::ClipSourcesHandle;
use crate::types::CoordinateSystemId;
use crate::types::PackedLayerIndex;

verus! {

/// One clip mask to apply: which packed layer renders it, which clip sources
/// it draws, and the coordinate system it was recorded in.
#[derive(Clone, Copy, PartialEq, Eq, Structural, Debug)]
pub struct ClipWorkItem {
    pub packed_layer_index: PackedLayerIndex,
    pub clip_sources: ClipSourcesHandle,
    pub coordinate_system_id: CoordinateSystemId,
}

/// One link of a clip chain: its work item and the index of the link it was
/// prepended to, if any.
#[derive(Clone, Copy, PartialEq, Eq, Structural, Debug)]
pub struct ClipChainNode {
    pub work_item: ClipWorkItem,
    pub prev: Option<usize>,
}

/// The arena that owns every clip-chain link of one frame's walk.
#[derive(Debug)]
pub struct ClipChainArena {
    pub nodes: Vec<ClipChainNode>,
}

/// The link at `i` points only at an earlier slot.
pub open spec fn prev_ok(nodes: Seq<ClipChainNode>, i: int) -> bool {
    nodes[i].prev matches Some(j) ==> (j as int) < i
}

/// Every link points only at earlier slots, so every chain is finite and
/// acyclic.
pub open spec fn arena_well_formed(nodes: Seq<ClipChainNode>) -> bool {
    forall|i: int| 0 <= i < nodes.len() ==> #[trigger] prev_ok(nodes, i)
}

/// A chain handle points inside the arena.
pub open spec fn valid_chain(nodes: Seq<ClipChainNode>, chain: Option<usize>) -> bool {
    chain matches Some(i) ==> (i as int) < nodes.len()
}

/// The work items of a chain, innermost (most recently prepended) first.
pub open spec fn chain_seq(nodes: Seq<ClipChainNode>, chain: Option<usize>) -> Seq<ClipWorkItem>
    decreases (match chain {
        Option::Some(i) => i as int + 1,
        Option::None => 0,
    }),
{
    match chain {
        Option::None => Seq::empty(),
        Option::Some(i) => {
            if (i as int) < nodes.len() && prev_ok(nodes, i as int) {
                seq![nodes[i as int].work_item] + chain_seq(nodes, nodes[i as int].prev)
            } else {
                Seq::empty()
            }
        },
    }
}

/// A chain starting at slot `i` holds at most `i + 1` items.
pub proof fn lemma_chain_seq_len_bound(nodes: Seq<ClipChainNode>, chain: Option<usize>)
    ensures
        chain_seq(nodes, chain).len() <= (match chain {
            Option::Some(i) => i as int + 1,
            Option::None => 0int,
        }),
    decreases (match chain {
        Option::Some(i) => i as int + 1,
        Option::None => 0,
    }),
{
    match chain {
        Option::None => {},
        Option::Some(i) => {
            if (i as int) < nodes.len() && prev_ok(nodes, i as int) {
                lemma_chain_seq_len_bound(nodes, nodes[i as int].prev);
            }
        },
    }
}

/// Appending a fresh link to the arena leaves the items of every existing
/// chain as they were.
pub proof fn lemma_chain_seq_push(
    nodes: Seq<ClipChainNode>,
    node: ClipChainNode,
    chain: Option<usize>,
)
    requires
        valid_chain(nodes, chain),
    ensures
        chain_seq(nodes.push(node), chain) == chain_seq(nodes, chain),
    decreases (match chain {
        Option::Some(i) => i as int + 1,
        Option::None => 0,
    }),
{
    match chain {
        Option::None => {
            assert(chain_seq(nodes.push(node), chain) =~= chain_seq(nodes, chain));
        },
        Option::Some(i) => {
            assert(nodes.push(node)[i as int] == nodes[i as int]);
            if prev_ok(nodes, i as int) {
                lemma_chain_seq_push(nodes, node, nodes[i as int].prev);
                assert(chain_seq(nodes.push(node), chain) =~= chain_seq(nodes, chain));
            } else {
                assert(!prev_ok(nodes.push(node), i as int));
            }
        },
    }
}

impl ClipChainArena {
    pub fn new() -> (r: ClipChainArena)
        ensures
            r.nodes@ == Seq::<ClipChainNode>::empty(),
            arena_well_formed(r.nodes@),
    {
        ClipChainArena { nodes: Vec::new() }
    }

    /// Prepends a link carrying `work_item` to the chain `prev`, and returns
    /// the new link's slot: the handle of the extended chain.
    pub fn push_node(&mut self, work_item: ClipWorkItem, prev: Option<usize>) -> (idx: usize)
        requires
            valid_chain(old(self).nodes@, prev),
            old(self).nodes@.len() < usize::MAX,
        ensures
            final(self).nodes@ == old(self).nodes@.push(ClipChainNode { work_item, prev }),
            idx as int == old(self).nodes@.len(),
            arena_well_formed(old(self).nodes@) ==> arena_well_formed(final(self).nodes@),
    {
        let idx = self.nodes.len();
        self.nodes.push(ClipChainNode { work_item, prev });
        proof {
            let new_nodes = self.nodes@;
            let old_nodes = old(self).nodes@;
            if arena_well_formed(old_nodes) {
                assert forall|i: int| 0 <= i < new_nodes.len() implies #[trigger] prev_ok(
                    new_nodes,
                    i,
                ) by {
                    if i < old_nodes.len() {
                        assert(prev_ok(old_nodes, i));
                        assert(new_nodes[i] == old_nodes[i]);
                    }
                }
            }
        }
        idx
    }

    /// The number of links in a chain, walked through the arena.
    pub fn chain_length(&self, chain: Option<usize>) -> (r: usize)
        requires
            arena_well_formed(self.nodes@),
            valid_chain(self.nodes@, chain),
        ensures
            r as int == chain_seq(self.nodes@, chain).len(),
    {
        proof {
            lemma_chain_seq_len_bound(self.nodes@, chain);
            assert(chain_seq(self.nodes@, chain).len() <= self.nodes@.len());
        }
        let arena_len = self.nodes.len();
        let mut count: usize = 0;
        let mut cur = chain;
        while cur.is_some()
            invariant
                arena_well_formed(self.nodes@),
                valid_chain(self.nodes@, cur),
                arena_len == self.nodes@.len(),
                count as int + chain_seq(self.nodes@, cur).len() == chain_seq(
                    self.nodes@,
                    chain,
                ).len(),
                chain_seq(self.nodes@, chain).len() <= self.nodes@.len(),
            decreases (match cur {
                Option::Some(i) => i as int + 1,
                Option::None => 0,
            }),
        {
            let i = cur.unwrap();
            proof {
                assert(prev_ok(self.nodes@, i as int));
                lemma_chain_seq_len_bound(self.nodes@, self.nodes@[i as int].prev);
                assert(chain_seq(self.nodes@, cur).len() == 1 + chain_seq(
                    self.nodes@,
                    self.nodes@[i as int].prev,
                ).len());
            }
            cur = self.nodes[i].prev;
            count = count + 1;
        }
        count
    }
}

} // verus!
