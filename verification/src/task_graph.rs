//! The part of a swarm's task graph that the growth policy and the handlers read.
use crate::text::text_eq;
use vstd::prelude::*;

verus! {

/// What kind of work a node stands for.
#[derive(Debug, Clone, Copy, PartialEq, Eq, Structural)]
pub enum NodeKind {
    Explore,
    Implement,
    Fix,
    Verify,
    Synthesize,
    Critique,
}

/// Where a node stands between seeding and completion.
#[derive(Debug, Clone, Copy, PartialEq, Eq, Structural)]
pub enum NodeStatus {
    /// Waiting to be dispatched.
    Queued,
    /// Completed with an accepted artifact.
    Done,
    /// Any other state, such as running or failed.
    Other,
}

/// The operation that brought a node into the graph.
#[derive(Debug, Clone, Copy, PartialEq, Eq, Structural)]
pub enum NodeOrigin {
    Seed,
    Expand,
    Gate,
    /// Any other operation of the engine.
    Other,
}

/// How rigorously a plan is run.
#[derive(Debug, Clone, Copy, PartialEq, Eq, Structural)]
pub enum Mode {
    Light,
    Deep,
}

/// One task of the graph.
#[derive(Debug, Clone)]
pub struct TaskNode {
    pub id: String,
    pub content: String,
    pub kind: NodeKind,
    pub status: NodeStatus,
    /// The session that the node is assigned to.
    pub owner: Option<String>,
    /// The node that this one was split off from.
    pub parent: Option<String>,
    /// Whether the node is a gate that the engine inserted.
    pub is_gate: bool,
    pub origin: Option<NodeOrigin>,
}

impl TaskNode {
    /// Whether the node is completed.
    pub fn is_done(&self) -> (r: bool)
        ensures
            r == (self.status == NodeStatus::Done),
    {
        self.status == NodeStatus::Done
    }
}

/// A task graph: its nodes in the order in which they were added.
#[derive(Debug, Clone)]
pub struct TaskGraph {
    pub mode: Mode,
    pub nodes: Vec<TaskNode>,
}

/// The index of the first node with the given id, or the number of nodes if
/// there is none.
pub open spec fn index_of_id(nodes: Seq<TaskNode>, id: Seq<char>) -> int
    decreases nodes.len(),
{
    if nodes.len() == 0 || nodes[0].id@ == id {
        0
    } else {
        1 + index_of_id(nodes.skip(1), id)
    }
}

/// The first node with the given id.
pub open spec fn node_with_id(nodes: Seq<TaskNode>, id: Seq<char>) -> Option<TaskNode> {
    let i = index_of_id(nodes, id);
    if 0 <= i < nodes.len() {
        Some(nodes[i])
    } else {
        None
    }
}

/// Where `index_of_id` points: no node before it has the id, and the node there
/// has it unless it is the end.
pub proof fn lemma_index_of_id(nodes: Seq<TaskNode>, id: Seq<char>)
    ensures
        0 <= index_of_id(nodes, id) <= nodes.len(),
        forall|k: int| 0 <= k < index_of_id(nodes, id) ==> (#[trigger] nodes[k]).id@ != id,
        index_of_id(nodes, id) < nodes.len() ==> nodes[index_of_id(nodes, id)].id@ == id,
    decreases nodes.len(),
{
    if nodes.len() > 0 && nodes[0].id@ != id {
        let rest = nodes.skip(1);
        lemma_index_of_id(rest, id);
        assert forall|k: int| 0 <= k < index_of_id(nodes, id) implies (
        #[trigger] nodes[k]).id@ != id by {
            if k > 0 {
                assert(rest[k - 1] == nodes[k]);
            }
        }
    }
}

impl TaskGraph {
    /// A graph without nodes.
    pub fn new(mode: Mode) -> (r: Self)
        ensures
            r.mode == mode,
            r.nodes@ == Seq::<TaskNode>::empty(),
    {
        TaskGraph { mode, nodes: Vec::new() }
    }

    /// Adds a node behind the others.
    pub fn push_node(&mut self, node: TaskNode)
        ensures
            final(self).mode == old(self).mode,
            final(self).nodes@ == old(self).nodes@.push(node),
    {
        self.nodes.push(node);
    }

    /// The number of nodes.
    pub fn len(&self) -> (r: usize)
        ensures
            r == self.nodes@.len(),
    {
        self.nodes.len()
    }

    /// The first node with the given id.
    pub fn get(&self, id: &str) -> (r: Option<&TaskNode>)
        ensures
            match node_with_id(self.nodes@, id@) {
                Some(node) => r == Some(&node),
                None => r is None,
            },
    {
        let mut i: usize = 0;
        assert(self.nodes@.skip(0) == self.nodes@);
        while i < self.nodes.len()
            invariant
                i <= self.nodes@.len(),
                index_of_id(self.nodes@, id@) == i + index_of_id(self.nodes@.skip(i as int), id@),
            decreases self.nodes@.len() - i,
        {
            assert(self.nodes@.skip(i as int)[0] == self.nodes@[i as int]);
            if text_eq(self.nodes[i].id.as_str(), id) {
                return Some(&self.nodes[i]);
            }
            assert(self.nodes@.skip(i as int).skip(1) == self.nodes@.skip(i + 1));
            i += 1;
        }
        None
    }
}

// ---------------------------------------------------------------------------
// Laws
// ---------------------------------------------------------------------------

/// Whether a node is the first with an id.
pub open spec fn is_first_with_id(nodes: Seq<TaskNode>, i: int, id: Seq<char>) -> bool {
    &&& 0 <= i < nodes.len()
    &&& nodes[i].id@ == id
    &&& forall|k: int| 0 <= k < i ==> (#[trigger] nodes[k]).id@ != id
}

/// An id names the first node that has it, and none where none has it.
pub proof fn an_id_names_the_first_that_has_it(nodes: Seq<TaskNode>, id: Seq<char>, i: int)
    ensures
        is_first_with_id(nodes, i, id) ==> node_with_id(nodes, id) == Some(nodes[i]),
        node_with_id(nodes, id) is None <==> forall|k: int|
            0 <= k < nodes.len() ==> (#[trigger] nodes[k]).id@ != id,
{
    lemma_index_of_id(nodes, id);
    let at = index_of_id(nodes, id);
    if is_first_with_id(nodes, i, id) {
        if at < i {
            assert(nodes[at].id@ != id);
        } else if i < at {
            assert(nodes[i].id@ != id);
        }
    }
    if node_with_id(nodes, id) is Some {
        assert(nodes[at].id@ == id);
    }
}

/// What a graph gives for an id is the first node that has it.
pub proof fn a_graph_gives_the_first_with_the_id<'a>(
    graph: &'a TaskGraph,
    id: &str,
    i: int,
    r: Option<&'a TaskNode>,
)
    requires
        call_ensures(TaskGraph::get, (graph, id), r),
    ensures
        is_first_with_id(graph.nodes@, i, id@) ==> r == Some(&graph.nodes@[i]),
        r is None <==> forall|k: int|
            0 <= k < graph.nodes@.len() ==> (#[trigger] graph.nodes@[k]).id@ != id@,
{
    an_id_names_the_first_that_has_it(graph.nodes@, id@, i);
}

} // verus!
