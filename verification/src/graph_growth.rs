//! Admission policy for growing task graphs.
//!
//! Independent seed batches may use the configured hard limit directly; recursive
//! expansion in a deep plan must earn capacity by completing useful work.
use crate::task_graph;
use crate::task_graph::{Mode, NodeKind, NodeOrigin, NodeStatus, TaskGraph, TaskNode};
use crate::text;
use crate::text::{append_decimal, chars_of, join_texts, list_contains, lower_chars, part_of, string_of};
use vstd::prelude::*;
use vstd::string::*;

verus! {

// ---------------------------------------------------------------------------
// Normalized task descriptions
// ---------------------------------------------------------------------------

/// What `char::is_alphanumeric` says of a character beyond ASCII.
pub uninterp spec fn unicode_alphanumeric(c: char) -> bool;

/// Whether `c` is a letter or a digit.
pub open spec fn is_alnum(c: char) -> bool {
    if c <= '\u{7f}' {
        'a' <= c <= 'z' || 'A' <= c <= 'Z' || '0' <= c <= '9'
    } else {
        unicode_alphanumeric(c)
    }
}

/// `char::is_alphanumeric`: among the ASCII characters it holds of the letters
/// and the digits; of the others it holds as Unicode's character tables say.
pub assume_specification[ char::is_alphanumeric ](c: char) -> (r: bool)
    ensures
        r == (if c <= '\u{7f}' {
            'a' <= c <= 'z' || 'A' <= c <= 'Z' || '0' <= c <= '9'
        } else {
            unicode_alphanumeric(c)
        }),
;

/// The length of the run of letters and digits that `s` begins with.
pub open spec fn run_length(s: Seq<char>) -> int
    decreases s.len(),
{
    if s.len() > 0 && is_alnum(s[0]) {
        1 + run_length(s.skip(1))
    } else {
        0
    }
}

/// Bounds of `run_length`, and what stands inside and behind the run.
proof fn lemma_run_length(s: Seq<char>)
    ensures
        0 <= run_length(s) <= s.len(),
        forall|k: int| 0 <= k < run_length(s) ==> is_alnum(#[trigger] s[k]),
        run_length(s) < s.len() ==> !is_alnum(s[run_length(s)]),
    decreases s.len(),
{
    if s.len() > 0 && is_alnum(s[0]) {
        let rest = s.skip(1);
        lemma_run_length(rest);
        assert forall|k: int| 0 <= k < run_length(s) implies is_alnum(#[trigger] s[k]) by {
            if k > 0 {
                assert(rest[k - 1] == s[k]);
            }
        }
    }
}

/// A run that cannot be extended is the one that `run_length` measures.
proof fn lemma_run_length_unique(s: Seq<char>, n: int)
    requires
        0 <= n <= s.len(),
        forall|k: int| 0 <= k < n ==> is_alnum(#[trigger] s[k]),
        n < s.len() ==> !is_alnum(s[n]),
    ensures
        run_length(s) == n,
{
    lemma_run_length(s);
    let m = run_length(s);
    if m < n {
        assert(is_alnum(s[m]));
    } else if n < m {
        assert(is_alnum(s[n]));
    }
}

/// The words of `s`: its longest runs of letters and digits, in order.
pub open spec fn words(s: Seq<char>) -> Seq<Seq<char>>
    decreases s.len(),
    via words_shrink
{
    let k = run_length(s);
    if s.len() == 0 {
        Seq::empty()
    } else if k <= 0 {
        words(s.skip(1))
    } else {
        seq![s.take(k)] + words(s.skip(k))
    }
}

#[via_fn]
proof fn words_shrink(s: Seq<char>) {
    lemma_run_length(s);
}

/// The words of `s` in lower case.
pub open spec fn lower_words(s: Seq<char>) -> Seq<Seq<char>> {
    words(s).map_values(|w: Seq<char>| text::lower_text(w))
}

/// A task description with case, punctuation and spacing evened out.
pub open spec fn normalized(s: Seq<char>) -> Seq<char> {
    text::joined(lower_words(s), " "@)
}

/// The words of a task description in lower case, one space between each two.
pub fn normalized_task(content: &str) -> (r: String)
    ensures
        r@ == normalized(content@),
{
    let chars: Vec<char> = chars_of(content);
    let mut out: Vec<String> = Vec::new();
    let mut i: usize = 0;
    assert(chars@.skip(0) == chars@);
    assert(text::views(out@) + lower_words(chars@) == lower_words(chars@));
    while i < chars.len()
        invariant
            i <= chars@.len(),
            text::views(out@) + lower_words(chars@.skip(i as int)) == lower_words(chars@),
        decreases chars@.len() - i,
    {
        let ghost rest = chars@.skip(i as int);
        if !chars[i].is_alphanumeric() {
            assert(rest[0] == chars@[i as int]);
            assert(run_length(rest) == 0);
            assert(rest.skip(1) == chars@.skip(i + 1));
            i += 1;
            continue;
        }
        let mut end: usize = i + 1;
        while end < chars.len() && chars[end].is_alphanumeric()
            invariant
                i < end <= chars@.len(),
                forall|k: int| i <= k < end ==> is_alnum(#[trigger] chars@[k]),
            decreases chars@.len() - end,
        {
            end += 1;
        }
        proof {
            assert forall|k: int| 0 <= k < end - i implies is_alnum(#[trigger] rest[k]) by {
                assert(rest[k] == chars@[i + k]);
            }
            lemma_run_length_unique(rest, end - i);
            assert(rest.take(end - i) == chars@.subrange(i as int, end as int));
            assert(rest.skip(end - i) == chars@.skip(end as int));
        }
        let word: String = string_of(&lower_chars(&part_of(&chars, i, end)));
        let ghost done = out@;
        out.push(word);
        proof {
            assert(text::views(out@) == text::views(done).push(word@));
            assert(lower_words(rest) == seq![word@] + lower_words(chars@.skip(end as int)));
            assert(text::views(done).push(word@) + lower_words(chars@.skip(end as int)) == text::views(done) + (
            seq![word@] + lower_words(chars@.skip(end as int))));
        }
        i = end;
    }
    assert(chars@.skip(i as int) == Seq::<char>::empty());
    assert(lower_words(Seq::<char>::empty()) == Seq::<Seq<char>>::empty());
    assert(text::views(out@) + Seq::<Seq<char>>::empty() == text::views(out@));
    join_texts(&out, " ")
}

// ---------------------------------------------------------------------------
// Limits and health
// ---------------------------------------------------------------------------

/// The growth limits as they stand in the configuration.
#[derive(Debug, Clone, Copy)]
pub struct SwarmGraphSettings {
    pub swarm_graph_soft_limit: usize,
    pub swarm_graph_hard_limit: usize,
    pub swarm_graph_max_fanout: usize,
    pub swarm_graph_max_depth: usize,
}

/// The growth limits in force.
#[derive(Debug, Clone, Copy)]
pub struct GraphGrowthConfig {
    pub soft_limit: usize,
    pub hard_limit: usize,
    pub max_fanout: usize,
    pub max_depth: usize,
}

/// The larger of two numbers.
pub open spec fn larger(a: int, b: int) -> int {
    if a < b {
        b
    } else {
        a
    }
}

/// The smaller of two numbers.
pub open spec fn smaller(a: int, b: int) -> int {
    if b < a {
        b
    } else {
        a
    }
}

fn at_least_one(n: usize) -> (r: usize)
    ensures
        r == larger(n as int, 1),
{
    if n < 1 {
        1
    } else {
        n
    }
}

impl GraphGrowthConfig {
    /// The limits that the settings call for: each at least one, and the hard
    /// limit at most the ceiling on the items of any plan.
    pub fn current(settings: &SwarmGraphSettings, max_plan_items: usize) -> (r: Self)
        requires
            max_plan_items >= 1,
        ensures
            r.soft_limit == larger(settings.swarm_graph_soft_limit as int, 1),
            r.hard_limit == smaller(
                larger(settings.swarm_graph_hard_limit as int, 1),
                max_plan_items as int,
            ),
            r.max_fanout == larger(settings.swarm_graph_max_fanout as int, 1),
            r.max_depth == larger(settings.swarm_graph_max_depth as int, 1),
    {
        let hard: usize = at_least_one(settings.swarm_graph_hard_limit);
        GraphGrowthConfig {
            soft_limit: at_least_one(settings.swarm_graph_soft_limit),
            hard_limit: if hard > max_plan_items {
                max_plan_items
            } else {
                hard
            },
            max_fanout: at_least_one(settings.swarm_graph_max_fanout),
            max_depth: at_least_one(settings.swarm_graph_max_depth),
        }
    }
}

/// How large a graph is, what it has completed, and what that allows.
#[derive(Debug, Clone, Copy, PartialEq, Eq, Structural)]
pub struct GraphGrowthHealth {
    pub total: usize,
    pub soft_limit: usize,
    pub adaptive_limit: usize,
    pub hard_limit: usize,
    pub completed: usize,
    pub useful_credits: usize,
    pub grown: usize,
    pub max_depth: usize,
}

/// The capacity that completing a node of the given kind earns.
pub open spec fn credit_of(kind: NodeKind) -> nat {
    match kind {
        NodeKind::Implement | NodeKind::Fix => 8,
        NodeKind::Verify => 4,
        NodeKind::Synthesize => 2,
        NodeKind::Explore => 1,
        NodeKind::Critique => 0,
    }
}

/// The capacity that completing a node of the given kind earns.
pub fn useful_completion_credit(kind: NodeKind) -> (r: usize)
    ensures
        r == credit_of(kind),
{
    match kind {
        NodeKind::Implement | NodeKind::Fix => 8,
        NodeKind::Verify => 4,
        NodeKind::Synthesize => 2,
        NodeKind::Explore => 1,
        NodeKind::Critique => 0,
    }
}

/// The length of the chain of parents that starts with `cursor`, counting at
/// most `budget` of them.
pub open spec fn chain_length(
    nodes: Seq<TaskNode>,
    cursor: Option<Seq<char>>,
    budget: nat,
) -> nat
    decreases budget,
{
    match cursor {
        Some(parent) if budget > 0 => 1 + chain_length(
            nodes,
            parent_of(nodes, parent),
            (budget - 1) as nat,
        ),
        _ => 0,
    }
}

/// The parent that the node with the given id names.
pub open spec fn parent_of(nodes: Seq<TaskNode>, id: Seq<char>) -> Option<Seq<char>> {
    match task_graph::node_with_id(nodes, id) {
        Some(node) => text::opt_view(node.parent),
        None => None,
    }
}

/// How many parents stand above a node; one more than the number of nodes where
/// the chain of parents is longer than that (which takes a cycle).
pub open spec fn depth_of(nodes: Seq<TaskNode>, id: Seq<char>) -> nat {
    chain_length(nodes, parent_of(nodes, id), (nodes.len() + 1) as nat)
}

fn parent_text<'a>(graph: &'a TaskGraph, id: &str) -> (r: Option<&'a str>)
    ensures
        text::opt_str_view(r) == parent_of(graph.nodes@, id@),
{
    match graph.get(id) {
        Some(node) => match &node.parent {
            Some(p) => Some(p.as_str()),
            None => None,
        },
        None => None,
    }
}

/// How many parents stand above a node.
///
/// The engine rejects cycles. The bound keeps the count total on a graph that
/// was stored before it did, or was damaged.
pub fn node_depth(graph: &TaskGraph, node_id: &str) -> (r: usize)
    requires
        graph.nodes@.len() < usize::MAX,
    ensures
        r == depth_of(graph.nodes@, node_id@),
        r <= graph.nodes@.len() + 1,
{
    let mut depth: usize = 0;
    let mut cursor: Option<&str> = parent_text(graph, node_id);
    let ghost limit: nat = (graph.nodes@.len() + 1) as nat;
    loop
        invariant_except_break
            depth < limit,
            depth_of(graph.nodes@, node_id@) == depth + chain_length(
                graph.nodes@,
                text::opt_str_view(cursor),
                (limit - depth) as nat,
            ),
        invariant
            limit == graph.nodes@.len() + 1,
            limit <= usize::MAX,
        ensures
            depth <= limit,
            depth == depth_of(graph.nodes@, node_id@),
        decreases limit - depth,
    {
        match cursor {
            Some(parent) => {
                depth += 1;
                if depth > graph.len() {
                    assert(chain_length(graph.nodes@, parent_of(graph.nodes@, parent@), 0) == 0);
                    break;
                }
                cursor = parent_text(graph, parent);
            },
            None => {
                break;
            },
        }
    }
    depth
}

/// The number of completed nodes.
pub open spec fn completed_count(nodes: Seq<TaskNode>) -> nat
    decreases nodes.len(),
{
    if nodes.len() == 0 {
        0
    } else {
        completed_count(nodes.drop_last()) + (if nodes.last().status == NodeStatus::Done {
            1nat
        } else {
            0nat
        })
    }
}

/// The capacity that one node has earned: the credit of its kind, if it is
/// completed and no gate.
pub open spec fn earned_by(node: TaskNode) -> nat {
    if node.status == NodeStatus::Done && !node.is_gate {
        credit_of(node.kind)
    } else {
        0
    }
}

/// The capacity that the completed work of a graph has earned.
pub open spec fn credits(nodes: Seq<TaskNode>) -> nat
    decreases nodes.len(),
{
    if nodes.len() == 0 {
        0
    } else {
        credits(nodes.drop_last()) + earned_by(nodes.last())
    }
}

/// Whether a node was brought in by another operation than a seed.
pub open spec fn is_grown(node: TaskNode) -> bool {
    node.origin is Some && node.origin->0 != NodeOrigin::Seed
}

/// The number of nodes that were not seeded.
pub open spec fn grown_count(nodes: Seq<TaskNode>) -> nat
    decreases nodes.len(),
{
    if nodes.len() == 0 {
        0
    } else {
        grown_count(nodes.drop_last()) + (if is_grown(nodes.last()) {
            1nat
        } else {
            0nat
        })
    }
}

/// The largest depth among the first `n` nodes.
pub open spec fn deepest(nodes: Seq<TaskNode>, n: nat) -> nat
    decreases n,
{
    if n == 0 {
        0
    } else {
        larger(
            deepest(nodes, (n - 1) as nat) as int,
            depth_of(nodes, nodes[n - 1].id@) as int,
        ) as nat
    }
}

/// The number of nodes that a graph may have, given what it has earned.
pub open spec fn adaptive_limit(nodes: Seq<TaskNode>, cfg: GraphGrowthConfig) -> int {
    smaller(cfg.soft_limit + credits(nodes), cfg.hard_limit as int)
}

/// Whether the counts over a graph fit in machine integers.
pub open spec fn countable(graph: TaskGraph) -> bool {
    8 * graph.nodes@.len() + 1 <= usize::MAX
}

/// The health of a graph.
pub open spec fn health_of(graph: TaskGraph, cfg: GraphGrowthConfig) -> GraphGrowthHealth {
    GraphGrowthHealth {
        total: graph.nodes@.len() as usize,
        soft_limit: cfg.soft_limit,
        adaptive_limit: adaptive_limit(graph.nodes@, cfg) as usize,
        hard_limit: cfg.hard_limit,
        completed: completed_count(graph.nodes@) as usize,
        useful_credits: credits(graph.nodes@) as usize,
        grown: grown_count(graph.nodes@) as usize,
        max_depth: deepest(graph.nodes@, graph.nodes@.len()) as usize,
    }
}

/// The health of a graph: every count is exact, and the adaptive limit is the
/// soft limit raised by what was earned, up to the hard limit.
pub fn graph_growth_health(graph: &TaskGraph, cfg: GraphGrowthConfig) -> (r: GraphGrowthHealth)
    requires
        countable(*graph),
    ensures
        r == health_of(*graph, cfg),
        r.total == graph.nodes@.len(),
        r.adaptive_limit == adaptive_limit(graph.nodes@, cfg),
        r.completed == completed_count(graph.nodes@),
        r.useful_credits == credits(graph.nodes@),
        r.grown == grown_count(graph.nodes@),
        r.max_depth == deepest(graph.nodes@, graph.nodes@.len()),
{
    let mut completed: usize = 0;
    let mut useful_credits: usize = 0;
    let mut grown: usize = 0;
    let mut max_depth: usize = 0;
    let mut i: usize = 0;
    while i < graph.nodes.len()
        invariant
            i <= graph.nodes@.len(),
            countable(*graph),
            completed == completed_count(graph.nodes@.take(i as int)),
            completed <= i,
            useful_credits == credits(graph.nodes@.take(i as int)),
            useful_credits <= 8 * i,
            grown == grown_count(graph.nodes@.take(i as int)),
            grown <= i,
            max_depth == deepest(graph.nodes@, i as nat),
        decreases graph.nodes@.len() - i,
    {
        let ghost seen = graph.nodes@.take(i + 1);
        assert(seen.drop_last() == graph.nodes@.take(i as int));
        assert(seen.last() == graph.nodes@[i as int]);
        let node: &TaskNode = &graph.nodes[i];
        if node.is_done() {
            completed += 1;
            if !node.is_gate {
                useful_credits += useful_completion_credit(node.kind);
            }
        }
        if let Some(origin) = node.origin {
            if origin != NodeOrigin::Seed {
                grown += 1;
            }
        }
        let depth: usize = node_depth(graph, node.id.as_str());
        if depth > max_depth {
            max_depth = depth;
        }
        i += 1;
    }
    assert(graph.nodes@.take(i as int) == graph.nodes@);
    let earned: usize = cfg.soft_limit.saturating_add(useful_credits);
    GraphGrowthHealth {
        total: graph.len(),
        soft_limit: cfg.soft_limit,
        adaptive_limit: if cfg.hard_limit < earned {
            cfg.hard_limit
        } else {
            earned
        },
        hard_limit: cfg.hard_limit,
        completed,
        useful_credits,
        grown,
        max_depth,
    }
}

// ---------------------------------------------------------------------------
// Duplicates
// ---------------------------------------------------------------------------

/// Whether no node of `before` has the id of the `j`-th node of `after`.
pub open spec fn is_new(before: Seq<TaskNode>, after: Seq<TaskNode>, j: int) -> bool {
    forall|i: int| 0 <= i < before.len() ==> (#[trigger] before[i]).id@ != after[j].id@
}

/// Whether the `j`-th node of `after` is new, and describes a task that a node of
/// `before`, or an earlier new node, describes too.
pub open spec fn is_duplicate(before: Seq<TaskNode>, after: Seq<TaskNode>, j: int) -> bool {
    &&& is_new(before, after, j)
    &&& {
        ||| exists|i: int|
            0 <= i < before.len() && normalized((#[trigger] before[i]).content@) == normalized(
                after[j].content@,
            )
        ||| exists|k: int|
            0 <= k < j && is_new(before, after, k) && normalized((#[trigger] after[k]).content@)
                == normalized(after[j].content@)
    }
}

/// The number of duplicates among the first `n` nodes of `after`.
pub open spec fn duplicate_count(
    before: Seq<TaskNode>,
    after: Seq<TaskNode>,
    n: nat,
) -> nat
    decreases n,
{
    if n == 0 {
        0
    } else {
        duplicate_count(before, after, (n - 1) as nat) + (if is_duplicate(before, after, n - 1) {
            1nat
        } else {
            0nat
        })
    }
}

/// The texts that a node of `before`, or a new one among the first `n` nodes of
/// `after`, describes.
spec fn is_seen(before: Seq<TaskNode>, after: Seq<TaskNode>, n: int, t: Seq<char>) -> bool {
    ||| exists|i: int| 0 <= i < before.len() && normalized((#[trigger] before[i]).content@) == t
    ||| exists|k: int|
        0 <= k < n && is_new(before, after, k) && normalized((#[trigger] after[k]).content@) == t
}

fn normalized_contents(graph: &TaskGraph) -> (r: Vec<String>)
    ensures
        r@.len() == graph.nodes@.len(),
        forall|i: int|
            0 <= i < r@.len() ==> (#[trigger] r@[i])@ == normalized(graph.nodes@[i].content@),
{
    let mut out: Vec<String> = Vec::new();
    let mut i: usize = 0;
    while i < graph.nodes.len()
        invariant
            i <= graph.nodes@.len(),
            out@.len() == i,
            forall|k: int|
                0 <= k < i ==> (#[trigger] out@[k])@ == normalized(graph.nodes@[k].content@),
        decreases graph.nodes@.len() - i,
    {
        out.push(normalized_task(graph.nodes[i].content.as_str()));
        i += 1;
    }
    out
}

/// The number of nodes that `after` adds to `before` and whose normalized
/// description an existing node, or an earlier added one, has already.
pub fn duplicate_new_nodes(before: &TaskGraph, after: &TaskGraph) -> (r: usize)
    ensures
        r == duplicate_count(before.nodes@, after.nodes@, after.nodes@.len()),
        r <= after.nodes@.len(),
{
    let mut seen: Vec<String> = normalized_contents(before);
    let mut duplicates: usize = 0;
    let mut j: usize = 0;
    proof {
        assert forall|t: Seq<char>| text::views(seen@).contains(t) <==> is_seen(
            before.nodes@,
            after.nodes@,
            0,
            t,
        ) by {
            if text::views(seen@).contains(t) {
                let k = choose|k: int| 0 <= k < text::views(seen@).len() && text::views(seen@)[k] == t;
                assert(seen@[k]@ == normalized(before.nodes@[k].content@));
            }
            if is_seen(before.nodes@, after.nodes@, 0, t) {
                let i = choose|i: int|
                    0 <= i < before.nodes@.len() && normalized(
                        (#[trigger] before.nodes@[i]).content@,
                    ) == t;
                assert(seen@[i]@ == t);
                assert(text::views(seen@)[i] == t);
            }
        }
    }
    while j < after.nodes.len()
        invariant
            j <= after.nodes@.len(),
            duplicates <= j,
            duplicates == duplicate_count(before.nodes@, after.nodes@, j as nat),
            forall|t: Seq<char>|
                text::views(seen@).contains(t) <==> is_seen(before.nodes@, after.nodes@, j as int, t),
        decreases after.nodes@.len() - j,
    {
        let node: &TaskNode = &after.nodes[j];
        let known: bool = before.get(node.id.as_str()).is_some();
        proof {
            task_graph::lemma_index_of_id(before.nodes@, node.id@);
            assert(known == !is_new(before.nodes@, after.nodes@, j as int)) by {
                let at = task_graph::index_of_id(before.nodes@, node.id@);
                if known {
                    assert(before.nodes@[at].id@ == after.nodes@[j as int].id@);
                }
            }
        }
        let ghost seen_before = seen@;
        if !known {
            let description: String = normalized_task(node.content.as_str());
            let duplicate: bool = list_contains(&seen, description.as_str());
            assert(duplicate == is_duplicate(before.nodes@, after.nodes@, j as int));
            if duplicate {
                duplicates += 1;
            } else {
                seen.push(description);
            }
            proof {
                assert forall|t: Seq<char>| text::views(seen@).contains(t) <==> is_seen(
                    before.nodes@,
                    after.nodes@,
                    j + 1,
                    t,
                ) by {
                    lemma_seen_step(before.nodes@, after.nodes@, j as int, t);
                    if duplicate {
                        assert(text::views(seen_before).contains(description@));
                    } else {
                        lemma_views_push(seen_before, description, t);
                    }
                }
            }
        } else {
            proof {
                assert forall|t: Seq<char>| text::views(seen@).contains(t) <==> is_seen(
                    before.nodes@,
                    after.nodes@,
                    j + 1,
                    t,
                ) by {
                    lemma_seen_step(before.nodes@, after.nodes@, j as int, t);
                }
            }
        }
        j += 1;
    }
    duplicates
}

/// One more node of `after` adds its own description, if it is new.
proof fn lemma_seen_step(before: Seq<TaskNode>, after: Seq<TaskNode>, j: int, t: Seq<char>)
    requires
        0 <= j < after.len(),
    ensures
        is_seen(before, after, j + 1, t) <==> is_seen(before, after, j, t) || (is_new(
            before,
            after,
            j,
        ) && normalized(after[j].content@) == t),
{
    if is_seen(before, after, j, t) && !is_seen(before, after, j + 1, t) {
        let k = choose|k: int|
            0 <= k < j && is_new(before, after, k) && normalized((#[trigger] after[k]).content@)
                == t;
        assert(0 <= k < j + 1 && is_new(before, after, k) && normalized(after[k].content@) == t);
    }
    if is_new(before, after, j) && normalized(after[j].content@) == t {
        assert(0 <= j < j + 1 && is_new(before, after, j) && normalized(after[j].content@) == t);
    }
}

/// Appending a text to a list adds exactly that text.
proof fn lemma_views_push(list: Seq<String>, item: String, t: Seq<char>)
    ensures
        text::views(list.push(item)).contains(t) <==> text::views(list).contains(t) || item@ == t,
{
    let a = text::views(list);
    let b = text::views(list.push(item));
    assert(b == a.push(item@));
    if b.contains(t) {
        let k = choose|k: int| 0 <= k < b.len() && b[k] == t;
        if k < a.len() {
            assert(a[k] == t);
        }
    }
    if a.contains(t) {
        let k = choose|k: int| 0 <= k < a.len() && a[k] == t;
        assert(b[k] == t);
    }
    if item@ == t {
        assert(b[a.len() as int] == t);
    }
}

// ---------------------------------------------------------------------------
// Admission
// ---------------------------------------------------------------------------

/// Why a graph may not grow as requested.
#[derive(Debug, Clone, Copy)]
pub enum GrowthObjection {
    /// The plan would exceed the ceiling on the items of any plan.
    AboveCeiling { total: usize, ceiling: usize },
    /// The plan would exceed the configured hard limit.
    AboveHardLimit { total: usize, hard_limit: usize },
    /// The request asks for too many nodes at once.
    Fanout { requested: usize, max_fanout: usize },
    /// The graph would be split too deeply.
    Depth { depth: usize, max_depth: usize },
    /// At least half of the new nodes repeat what is there already.
    Duplicates { duplicates: usize, new_nodes: usize },
    /// The completed work does not allow so many nodes.
    Unearned { health: GraphGrowthHealth },
}

/// The number of nodes by which `after` is larger than `before`.
pub open spec fn added(before: TaskGraph, after: TaskGraph) -> int {
    larger(after.nodes@.len() - before.nodes@.len(), 0)
}

/// The number of new nodes of `after` that repeat a task description.
pub open spec fn repeated(before: TaskGraph, after: TaskGraph) -> nat {
    duplicate_count(before.nodes@, after.nodes@, after.nodes@.len())
}

/// The first objection to letting `before` grow into `after`.
pub open spec fn objection_to(
    before: TaskGraph,
    after: TaskGraph,
    requested_fanout: usize,
    is_seed: bool,
    cfg: GraphGrowthConfig,
    ceiling: usize,
) -> Option<GrowthObjection> {
    let health = health_of(after, cfg);
    if health.total > ceiling {
        Some(GrowthObjection::AboveCeiling { total: health.total, ceiling })
    } else if health.total > cfg.hard_limit {
        Some(GrowthObjection::AboveHardLimit { total: health.total, hard_limit: cfg.hard_limit })
    } else if is_seed || after.mode != Mode::Deep {
        None
    } else if requested_fanout > cfg.max_fanout {
        Some(
            GrowthObjection::Fanout { requested: requested_fanout, max_fanout: cfg.max_fanout },
        )
    } else if health.max_depth > cfg.max_depth {
        Some(GrowthObjection::Depth { depth: health.max_depth, max_depth: cfg.max_depth })
    } else if health.total <= cfg.soft_limit {
        None
    } else if added(before, after) >= 2 && 2 * repeated(before, after) >= added(before, after) {
        Some(
            GrowthObjection::Duplicates {
                duplicates: repeated(before, after) as usize,
                new_nodes: added(before, after) as usize,
            },
        )
    } else if health.total > health.adaptive_limit {
        Some(GrowthObjection::Unearned { health })
    } else {
        None
    }
}

/// The first objection to letting `before` grow into `after`, where no plan may
/// have more than `ceiling` items.
pub fn growth_objection(
    before: &TaskGraph,
    after: &TaskGraph,
    requested_fanout: usize,
    is_seed: bool,
    cfg: GraphGrowthConfig,
    ceiling: usize,
) -> (r: Option<GrowthObjection>)
    requires
        countable(*after),
    ensures
        r == objection_to(*before, *after, requested_fanout, is_seed, cfg, ceiling),
{
    let health: GraphGrowthHealth = graph_growth_health(after, cfg);
    if health.total > ceiling {
        return Some(GrowthObjection::AboveCeiling { total: health.total, ceiling });
    }
    if health.total > health.hard_limit {
        return Some(
            GrowthObjection::AboveHardLimit { total: health.total, hard_limit: health.hard_limit },
        );
    }
    if is_seed || after.mode != Mode::Deep {
        return None;
    }
    if requested_fanout > cfg.max_fanout {
        return Some(
            GrowthObjection::Fanout { requested: requested_fanout, max_fanout: cfg.max_fanout },
        );
    }
    if health.max_depth > cfg.max_depth {
        return Some(
            GrowthObjection::Depth { depth: health.max_depth, max_depth: cfg.max_depth },
        );
    }
    if health.total > health.soft_limit {
        let new_nodes: usize = after.len().saturating_sub(before.len());
        let duplicates: usize = duplicate_new_nodes(before, after);
        if new_nodes >= 2 && (duplicates >= new_nodes || duplicates >= new_nodes - duplicates) {
            return Some(GrowthObjection::Duplicates { duplicates, new_nodes });
        }
        if health.total > health.adaptive_limit {
            return Some(GrowthObjection::Unearned { health });
        }
    }
    None
}

/// The words in which an objection is reported.
pub open spec fn objection_text(o: GrowthObjection) -> Seq<char> {
    match o {
        GrowthObjection::AboveCeiling { total, ceiling } => "plan would contain "@ + text::decimal(
            total as nat,
        ) + " items, exceeding Jcode's absolute emergency ceiling of "@ + text::decimal(
            ceiling as nat,
        ),
        GrowthObjection::AboveHardLimit { total, hard_limit } => "plan would contain "@
            + text::decimal(total as nat)
            + " items, exceeding configured agents.swarm_graph_hard_limit="@ + text::decimal(
            hard_limit as nat,
        ) + "; raise that setting only when the workload is genuinely independent"@,
        GrowthObjection::Fanout { requested, max_fanout } =>
        "adaptive growth throttled: requested fan-out "@ + text::decimal(requested as nat)
            + " exceeds agents.swarm_graph_max_fanout="@ + text::decimal(max_fanout as nat)
            + "; split only after the current wave completes"@,
        GrowthObjection::Depth { depth, max_depth } =>
        "adaptive growth throttled: recursive depth "@ + text::decimal(depth as nat)
            + " exceeds agents.swarm_graph_max_depth="@ + text::decimal(max_depth as nat)
            + "; finish or flatten existing work instead of decomposing again"@,
        GrowthObjection::Duplicates { duplicates, new_nodes } => "adaptive growth throttled: "@
            + text::decimal(duplicates as nat) + " of "@ + text::decimal(new_nodes as nat)
            + " new nodes duplicate existing task descriptions; reuse or complete existing nodes"@,
        GrowthObjection::Unearned { health } => "adaptive growth throttled: graph health total="@
            + text::decimal(health.total as nat) + " grown="@ + text::decimal(health.grown as nat)
            + " completed="@ + text::decimal(health.completed as nat) + " useful_credits="@
            + text::decimal(health.useful_credits as nat) + " allows "@ + text::decimal(
            health.adaptive_limit as nat,
        ) + " nodes (soft="@ + text::decimal(health.soft_limit as nat) + " hard="@ + text::decimal(
            health.hard_limit as nat,
        )
            + "); complete implementation/fix/verification work to earn capacity before expanding again"@,
    }
}

impl GrowthObjection {
    /// The words in which the objection is reported.
    pub fn message(&self) -> (r: String)
        ensures
            r@ == objection_text(*self),
    {
        match self {
            GrowthObjection::AboveCeiling { total, ceiling } => {
                let mut out: String = "plan would contain ".to_owned();
                append_decimal(&mut out, *total as u128);
                out.append(" items, exceeding Jcode's absolute emergency ceiling of ");
                append_decimal(&mut out, *ceiling as u128);
                out
            },
            GrowthObjection::AboveHardLimit { total, hard_limit } => {
                let mut out: String = "plan would contain ".to_owned();
                append_decimal(&mut out, *total as u128);
                out.append(" items, exceeding configured agents.swarm_graph_hard_limit=");
                append_decimal(&mut out, *hard_limit as u128);
                out.append("; raise that setting only when the workload is genuinely independent");
                out
            },
            GrowthObjection::Fanout { requested, max_fanout } => {
                let mut out: String = "adaptive growth throttled: requested fan-out ".to_owned();
                append_decimal(&mut out, *requested as u128);
                out.append(" exceeds agents.swarm_graph_max_fanout=");
                append_decimal(&mut out, *max_fanout as u128);
                out.append("; split only after the current wave completes");
                out
            },
            GrowthObjection::Depth { depth, max_depth } => {
                let mut out: String = "adaptive growth throttled: recursive depth ".to_owned();
                append_decimal(&mut out, *depth as u128);
                out.append(" exceeds agents.swarm_graph_max_depth=");
                append_decimal(&mut out, *max_depth as u128);
                out.append("; finish or flatten existing work instead of decomposing again");
                out
            },
            GrowthObjection::Duplicates { duplicates, new_nodes } => {
                let mut out: String = "adaptive growth throttled: ".to_owned();
                append_decimal(&mut out, *duplicates as u128);
                out.append(" of ");
                append_decimal(&mut out, *new_nodes as u128);
                out.append(
                    " new nodes duplicate existing task descriptions; reuse or complete existing nodes",
                );
                out
            },
            GrowthObjection::Unearned { health } => {
                let mut out: String = "adaptive growth throttled: graph health total=".to_owned();
                append_decimal(&mut out, health.total as u128);
                out.append(" grown=");
                append_decimal(&mut out, health.grown as u128);
                out.append(" completed=");
                append_decimal(&mut out, health.completed as u128);
                out.append(" useful_credits=");
                append_decimal(&mut out, health.useful_credits as u128);
                out.append(" allows ");
                append_decimal(&mut out, health.adaptive_limit as u128);
                out.append(" nodes (soft=");
                append_decimal(&mut out, health.soft_limit as u128);
                out.append(" hard=");
                append_decimal(&mut out, health.hard_limit as u128);
                out.append(
                    "); complete implementation/fix/verification work to earn capacity before expanding again",
                );
                out
            },
        }
    }
}

/// The report of the first objection to letting `before` grow into `after`.
pub open spec fn growth_error_text(
    before: TaskGraph,
    after: TaskGraph,
    requested_fanout: usize,
    is_seed: bool,
    cfg: GraphGrowthConfig,
    ceiling: usize,
) -> Option<Seq<char>> {
    match objection_to(before, after, requested_fanout, is_seed, cfg, ceiling) {
        Some(o) => Some(objection_text(o)),
        None => None,
    }
}

/// Admission policy for machinery-grown deep graphs.
///
/// Independent seed batches may use the configured hard limit directly; recursive
/// expansion must earn capacity by completing useful work. This is intentional
/// hysteresis: every accepted completion permanently raises the current plan's
/// budget, while a stalled audit tree cannot oscillate itself back into an allowed
/// state.
pub fn graph_growth_error(
    before: &TaskGraph,
    after: &TaskGraph,
    requested_fanout: usize,
    is_seed: bool,
    cfg: GraphGrowthConfig,
    ceiling: usize,
) -> (r: Option<String>)
    requires
        countable(*after),
    ensures
        text::opt_view(r) == growth_error_text(
            *before,
            *after,
            requested_fanout,
            is_seed,
            cfg,
            ceiling,
        ),
{
    match growth_objection(before, after, requested_fanout, is_seed, cfg, ceiling) {
        Some(o) => Some(o.message()),
        None => None,
    }
}

// ---------------------------------------------------------------------------
// Laws
// ---------------------------------------------------------------------------

/// A seed batch is admitted exactly when the plan stays within the hard limit and
/// the ceiling, whatever was earned.
pub proof fn seed_needs_only_hard_limits(
    before: TaskGraph,
    after: TaskGraph,
    requested_fanout: usize,
    cfg: GraphGrowthConfig,
    ceiling: usize,
)
    requires
        countable(after),
    ensures
        growth_error_text(before, after, requested_fanout, true, cfg, ceiling) is None
            <==> after.nodes@.len() <= cfg.hard_limit && after.nodes@.len() <= ceiling,
{
}

/// A plan that is not deep is held to the hard limit and the ceiling only.
pub proof fn light_plans_are_not_throttled(
    before: TaskGraph,
    after: TaskGraph,
    requested_fanout: usize,
    is_seed: bool,
    cfg: GraphGrowthConfig,
    ceiling: usize,
)
    requires
        countable(after),
        after.mode != Mode::Deep,
    ensures
        growth_error_text(before, after, requested_fanout, is_seed, cfg, ceiling) is None
            <==> after.nodes@.len() <= cfg.hard_limit && after.nodes@.len() <= ceiling,
{
}

/// No plan is ever admitted beyond the hard limit or the ceiling.
pub proof fn hard_limits_always_hold(
    before: TaskGraph,
    after: TaskGraph,
    requested_fanout: usize,
    is_seed: bool,
    cfg: GraphGrowthConfig,
    ceiling: usize,
)
    requires
        countable(after),
        growth_error_text(before, after, requested_fanout, is_seed, cfg, ceiling) is None,
    ensures
        after.nodes@.len() <= cfg.hard_limit,
        after.nodes@.len() <= ceiling,
{
}

/// Recursive growth of a deep plan beyond what it has earned is refused: an
/// admitted graph is within the soft limit or within the soft limit plus its
/// credits.
pub proof fn recursive_growth_must_be_earned(
    before: TaskGraph,
    after: TaskGraph,
    requested_fanout: usize,
    cfg: GraphGrowthConfig,
    ceiling: usize,
)
    requires
        countable(after),
        after.mode == Mode::Deep,
        growth_error_text(before, after, requested_fanout, false, cfg, ceiling) is None,
    ensures
        after.nodes@.len() <= cfg.soft_limit + credits(after.nodes@),
        requested_fanout <= cfg.max_fanout,
        deepest(after.nodes@, after.nodes@.len()) <= cfg.max_depth,
{
    lemma_health_fits(after, cfg);
}

/// A wave of at least two nodes of which half repeat existing descriptions is
/// refused beyond the soft limit, however much was earned.
pub proof fn duplicate_waves_are_refused(
    before: TaskGraph,
    after: TaskGraph,
    requested_fanout: usize,
    cfg: GraphGrowthConfig,
    ceiling: usize,
)
    requires
        countable(after),
        after.mode == Mode::Deep,
        after.nodes@.len() > cfg.soft_limit,
        added(before, after) >= 2,
        2 * repeated(before, after) >= added(before, after),
    ensures
        growth_error_text(before, after, requested_fanout, false, cfg, ceiling) is Some,
{
}

/// The bounds on the counts over a graph that `countable` admits.
proof fn lemma_health_fits(graph: TaskGraph, cfg: GraphGrowthConfig)
    requires
        countable(graph),
    ensures
        health_of(graph, cfg).total == graph.nodes@.len(),
        health_of(graph, cfg).adaptive_limit == adaptive_limit(graph.nodes@, cfg),
        health_of(graph, cfg).useful_credits == credits(graph.nodes@),
        health_of(graph, cfg).max_depth == deepest(graph.nodes@, graph.nodes@.len()),
{
    lemma_credits_bound(graph.nodes@);
    lemma_deepest_bound(graph.nodes@, graph.nodes@.len());
}

proof fn lemma_credits_bound(nodes: Seq<TaskNode>)
    ensures
        credits(nodes) <= 8 * nodes.len(),
    decreases nodes.len(),
{
    if nodes.len() > 0 {
        lemma_credits_bound(nodes.drop_last());
    }
}

proof fn lemma_chain_bound(nodes: Seq<TaskNode>, cursor: Option<Seq<char>>, budget: nat)
    ensures
        chain_length(nodes, cursor, budget) <= budget,
    decreases budget,
{
    if let Some(parent) = cursor {
        if budget > 0 {
            lemma_chain_bound(nodes, parent_of(nodes, parent), (budget - 1) as nat);
        }
    }
}

proof fn lemma_deepest_bound(nodes: Seq<TaskNode>, n: nat)
    ensures
        deepest(nodes, n) <= nodes.len() + 1,
    decreases n,
{
    if n > 0 {
        lemma_deepest_bound(nodes, (n - 1) as nat);
        lemma_chain_bound(nodes, parent_of(nodes, nodes[n - 1].id@), (nodes.len() + 1) as nat);
    }
}

/// Completing a node never takes earned capacity away, and adds the credit of its
/// kind unless the node is a gate.
pub proof fn completion_raises_the_budget(
    nodes: Seq<TaskNode>,
    i: int,
    completed: TaskNode,
    cfg: GraphGrowthConfig,
)
    requires
        0 <= i < nodes.len(),
        nodes[i].status != NodeStatus::Done,
        completed == (TaskNode { status: NodeStatus::Done, ..nodes[i] }),
    ensures
        credits(nodes.update(i, completed)) == credits(nodes) + (if nodes[i].is_gate {
            0nat
        } else {
            credit_of(nodes[i].kind)
        }),
        adaptive_limit(nodes.update(i, completed), cfg) >= adaptive_limit(nodes, cfg),
    decreases nodes.len(),
{
    let after = nodes.update(i, completed);
    if i == nodes.len() - 1 {
        assert(after.drop_last() == nodes.drop_last());
    } else {
        completion_raises_the_budget(nodes.drop_last(), i, completed, cfg);
        assert(after.drop_last() == nodes.drop_last().update(i, completed));
    }
}

/// What was earned is kept when nodes are added.
pub proof fn earned_capacity_is_kept(
    nodes: Seq<TaskNode>,
    more: Seq<TaskNode>,
    cfg: GraphGrowthConfig,
)
    ensures
        credits(nodes + more) >= credits(nodes),
        adaptive_limit(nodes + more, cfg) >= adaptive_limit(nodes, cfg),
    decreases more.len(),
{
    if more.len() == 0 {
        assert(nodes + more == nodes);
    } else {
        earned_capacity_is_kept(nodes, more.drop_last(), cfg);
        assert((nodes + more).drop_last() == nodes + more.drop_last());
    }
}

/// Nodes that are not completed earn nothing.
proof fn lemma_unfinished_nodes_earn_nothing(nodes: Seq<TaskNode>, more: Seq<TaskNode>)
    requires
        forall|k: int| 0 <= k < more.len() ==> (#[trigger] more[k]).status != NodeStatus::Done,
    ensures
        credits(nodes + more) == credits(nodes),
    decreases more.len(),
{
    if more.len() == 0 {
        assert(nodes + more == nodes);
    } else {
        let less = more.drop_last();
        assert forall|k: int| 0 <= k < less.len() implies (
        #[trigger] less[k]).status != NodeStatus::Done by {
            assert(less[k] == more[k]);
        }
        lemma_unfinished_nodes_earn_nothing(nodes, less);
        assert((nodes + more).drop_last() == nodes + less);
        assert((nodes + more).last() == more.last());
    }
}

/// A deep graph that has outgrown what it earned stays refused when nodes are
/// added to it that complete nothing, whatever is asked for next.
pub proof fn stalled_growth_stays_refused(
    before: TaskGraph,
    stalled: TaskGraph,
    grown: TaskGraph,
    more: Seq<TaskNode>,
    requested_fanout: usize,
    cfg: GraphGrowthConfig,
    ceiling: usize,
)
    requires
        countable(grown),
        grown.mode == Mode::Deep,
        stalled.nodes@.len() > cfg.soft_limit + credits(stalled.nodes@),
        grown.nodes@ == stalled.nodes@ + more,
        forall|k: int| 0 <= k < more.len() ==> (#[trigger] more[k]).status != NodeStatus::Done,
    ensures
        growth_error_text(before, grown, requested_fanout, false, cfg, ceiling) is Some,
{
    lemma_unfinished_nodes_earn_nothing(stalled.nodes@, more);
    lemma_health_fits(grown, cfg);
}

/// The description of a normalized task is the task itself: normalizing twice is
/// normalizing once.
pub proof fn normalizing_is_idempotent(s: Seq<char>)
    ensures
        normalized(normalized(s)) == normalized(s),
{
    let ws = lower_words(s);
    lemma_words_are_words(s);
    assert forall|k: int| 0 <= k < ws.len() implies is_word(#[trigger] ws[k]) && text::lower_text(
        ws[k],
    ) == ws[k] by {
        let w = words(s)[k];
        assert(is_word(w));
        assert(ws[k] == text::lower_text(w));
        lemma_lower_word(w);
    }
    lemma_words_of_joined(ws);
    assert(lower_words(normalized(s)) == ws);
}

/// Whether `w` consists of letters and digits, at least one.
spec fn is_word(w: Seq<char>) -> bool {
    w.len() > 0 && forall|k: int| 0 <= k < w.len() ==> is_alnum(#[trigger] w[k])
}

proof fn lemma_words_are_words(s: Seq<char>)
    ensures
        forall|k: int| 0 <= k < words(s).len() ==> is_word(#[trigger] words(s)[k]),
    decreases s.len(),
{
    lemma_run_length(s);
    let k = run_length(s);
    if s.len() > 0 {
        if k <= 0 {
            lemma_words_are_words(s.skip(1));
            assert(words(s) == words(s.skip(1)));
        } else {
            lemma_words_are_words(s.skip(k));
            assert(words(s) == seq![s.take(k)] + words(s.skip(k)));
            let rest = words(s.skip(k));
            assert forall|i: int| 0 <= i < words(s).len() implies is_word(
                #[trigger] words(s)[i],
            ) by {
                if i == 0 {
                    assert(words(s)[0] == s.take(k));
                    assert(s.take(k).len() > 0);
                    assert forall|m: int| 0 <= m < k implies is_alnum(
                        #[trigger] s.take(k)[m],
                    ) by {
                        assert(s.take(k)[m] == s[m]);
                    }
                } else {
                    assert(words(s)[i] == rest[i - 1]);
                }
            }
        }
    }
}

proof fn lemma_lower_word(w: Seq<char>)
    requires
        is_word(w),
    ensures
        is_word(text::lower_text(w)),
        text::lower_text(text::lower_text(w)) == text::lower_text(w),
{
    let l = text::lower_text(w);
    assert forall|k: int| 0 <= k < l.len() implies is_alnum(#[trigger] l[k]) && text::lower_char(
        l[k],
    ) == l[k] by {
        assert(is_alnum(w[k]));
        assert(l[k] == text::lower_char(w[k]));
    }
    assert(text::lower_text(l) == l);
}

/// Appending a space and a word appends the word to the words.
proof fn lemma_words_append(s: Seq<char>, w: Seq<char>)
    requires
        is_word(w),
    ensures
        words(s + " "@ + w) == words(s).push(w),
    decreases s.len(),
{
    reveal_strlit(" ");
    let t = s + " "@ + w;
    lemma_run_length(s);
    let k = run_length(s);
    if s.len() == 0 {
        assert(t[0] == ' ');
        assert(run_length(t) == 0);
        assert(t.skip(1) == w);
        lemma_run_length_unique(w, w.len() as int);
        assert(w.take(w.len() as int) == w);
        assert(w.skip(w.len() as int) == Seq::<char>::empty());
        assert(words(Seq::<char>::empty()) == Seq::<Seq<char>>::empty());
        assert(words(w) == seq![w]);
        assert(words(s) == Seq::<Seq<char>>::empty());
        assert(words(t) == words(s).push(w));
    } else if k <= 0 {
        assert(t[0] == s[0]);
        assert(run_length(t) == 0);
        assert(t.skip(1) == s.skip(1) + " "@ + w);
        lemma_words_append(s.skip(1), w);
    } else {
        assert forall|m: int| 0 <= m < k implies is_alnum(#[trigger] t[m]) by {
            assert(t[m] == s[m]);
        }
        if k < s.len() {
            assert(t[k] == s[k]);
        } else {
            assert(t[k] == ' ');
        }
        lemma_run_length_unique(t, k);
        assert(t.take(k) == s.take(k));
        assert(t.skip(k) == s.skip(k) + " "@ + w);
        lemma_words_append(s.skip(k), w);
        assert(seq![s.take(k)] + words(s.skip(k)).push(w) == (seq![s.take(k)] + words(
            s.skip(k),
        )).push(w));
    }
}

/// The words of words joined by spaces are those words.
proof fn lemma_words_of_joined(ws: Seq<Seq<char>>)
    requires
        forall|k: int| 0 <= k < ws.len() ==> is_word(#[trigger] ws[k]) && text::lower_text(ws[k])
            == ws[k],
    ensures
        words(text::joined(ws, " "@)) == ws,
        lower_words(text::joined(ws, " "@)) == ws,
    decreases ws.len(),
{
    let j = text::joined(ws, " "@);
    if ws.len() == 0 {
        assert(words(j) == ws);
    } else if ws.len() == 1 {
        let w = ws[0];
        assert(is_word(w));
        lemma_run_length_unique(w, w.len() as int);
        assert(w.take(w.len() as int) == w);
        assert(w.skip(w.len() as int) == Seq::<char>::empty());
        assert(words(Seq::<char>::empty()) == Seq::<Seq<char>>::empty());
        assert(words(w) == seq![w]);
        assert(words(j) == ws);
    } else {
        let less = ws.drop_last();
        assert forall|k: int| 0 <= k < less.len() implies is_word(#[trigger] less[k])
            && text::lower_text(less[k]) == less[k] by {
            assert(less[k] == ws[k]);
        }
        lemma_words_of_joined(less);
        assert(is_word(ws[ws.len() - 1]));
        lemma_words_append(text::joined(less, " "@), ws.last());
        assert(less.push(ws.last()) == ws);
    }
    assert forall|k: int| 0 <= k < ws.len() implies #[trigger] lower_words(j)[k] == ws[k] by {
        assert(is_word(ws[k]));
    }
    assert(lower_words(j) == ws);
}

/// The credits are eight for an implementation or a fix, four for a verification, two
/// for a synthesis, one for an exploration, and none for a critique.
pub proof fn work_earns_by_its_kind(kind: NodeKind, r: usize)
    requires
        call_ensures(useful_completion_credit, (kind,), r),
    ensures
        kind == NodeKind::Implement || kind == NodeKind::Fix ==> r == 8,
        kind == NodeKind::Verify ==> r == 4,
        kind == NodeKind::Synthesize ==> r == 2,
        kind == NodeKind::Explore ==> r == 1,
        kind == NodeKind::Critique ==> r == 0,
{
}

/// The counts over a graph are sums over its nodes: what two lists of nodes count is
/// what each counts.
pub proof fn counts_are_sums(a: Seq<TaskNode>, b: Seq<TaskNode>)
    ensures
        credits(a + b) == credits(a) + credits(b),
        completed_count(a + b) == completed_count(a) + completed_count(b),
        grown_count(a + b) == grown_count(a) + grown_count(b),
    decreases b.len(),
{
    if b.len() == 0 {
        assert(a + b == a);
    } else {
        counts_are_sums(a, b.drop_last());
        assert((a + b).drop_last() == a + b.drop_last());
        assert((a + b).last() == b.last());
    }
}

/// One node counts as completed where it is done, as grown where an operation other
/// than a seed brought it in, and earns the credit of its kind where it is done and no
/// gate.
pub proof fn what_one_node_counts(node: TaskNode, credit: usize)
    requires
        call_ensures(useful_completion_credit, (node.kind,), credit),
    ensures
        completed_count(seq![node]) == if node.status == NodeStatus::Done {
            1nat
        } else {
            0nat
        },
        grown_count(seq![node]) == if node.origin == Some(NodeOrigin::Expand) || node.origin
            == Some(NodeOrigin::Gate) || node.origin == Some(NodeOrigin::Other) {
            1nat
        } else {
            0nat
        },
        credits(seq![node]) == if node.status == NodeStatus::Done && !node.is_gate {
            credit as nat
        } else {
            0nat
        },
{
    let one = seq![node];
    assert(one.drop_last() == Seq::<TaskNode>::empty());
    assert(one.last() == node);
    reveal_with_fuel(credits, 2);
    reveal_with_fuel(completed_count, 2);
    reveal_with_fuel(grown_count, 2);
}

/// A chain that is cut off at a budget is as long as with a larger one, up to the budget.
proof fn lemma_chain_budget(nodes: Seq<TaskNode>, cursor: Option<Seq<char>>, budget: nat)
    ensures
        chain_length(nodes, cursor, budget) == smaller(
            chain_length(nodes, cursor, (budget + 1) as nat) as int,
            budget as int,
        ),
    decreases budget,
{
    reveal_with_fuel(chain_length, 2);
    if let Some(parent) = cursor {
        if budget > 0 {
            lemma_chain_budget(nodes, parent_of(nodes, parent), (budget - 1) as nat);
        }
    }
}

/// A node stands one deeper than its parent, and a node without a parent, or that is
/// not in the graph, at depth zero. The count ends one above the number of nodes.
pub proof fn a_node_stands_below_its_parent(nodes: Seq<TaskNode>, i: int, id: Seq<char>)
    ensures
        task_graph::is_first_with_id(nodes, i, id) && nodes[i].parent is None ==> depth_of(
            nodes,
            id,
        ) == 0,
        task_graph::is_first_with_id(nodes, i, id) && nodes[i].parent is Some ==> depth_of(
            nodes,
            id,
        ) == if depth_of(nodes, nodes[i].parent->0@) < nodes.len() {
            depth_of(nodes, nodes[i].parent->0@) + 1
        } else {
            (nodes.len() + 1) as nat
        },
        (forall|k: int| 0 <= k < nodes.len() ==> (#[trigger] nodes[k]).id@ != id) ==> depth_of(
            nodes,
            id,
        ) == 0,
        depth_of(nodes, id) <= nodes.len() + 1,
{
    task_graph::an_id_names_the_first_that_has_it(nodes, id, i);
    let limit = (nodes.len() + 1) as nat;
    lemma_chain_bound(nodes, parent_of(nodes, id), limit);
    if task_graph::is_first_with_id(nodes, i, id) && nodes[i].parent is Some {
        let above = parent_of(nodes, nodes[i].parent->0@);
        lemma_chain_budget(nodes, above, nodes.len());
        lemma_chain_bound(nodes, above, limit);
    }
}

/// No node stands deeper than the deepest, and some node stands as deep, unless there
/// is none.
pub proof fn the_deepest_is_a_bound_that_is_reached(nodes: Seq<TaskNode>, n: nat)
    requires
        n <= nodes.len(),
    ensures
        forall|k: int|
            0 <= k < n ==> depth_of(nodes, (#[trigger] nodes[k]).id@) <= deepest(nodes, n),
        n > 0 ==> exists|k: int|
            0 <= k < n && depth_of(nodes, (#[trigger] nodes[k]).id@) == deepest(nodes, n),
        n == 0 ==> deepest(nodes, n) == 0,
    decreases n,
{
    if n > 0 {
        let less = (n - 1) as nat;
        the_deepest_is_a_bound_that_is_reached(nodes, less);
        if deepest(nodes, n) == depth_of(nodes, nodes[n - 1].id@) {
            assert(0 <= n - 1 < n);
        } else {
            let k = choose|k: int|
                0 <= k < less && depth_of(nodes, (#[trigger] nodes[k]).id@) == deepest(nodes, less);
            assert(0 <= k < n && depth_of(nodes, nodes[k].id@) == deepest(nodes, n));
        }
    }
}

/// The health of a graph: its size, its counts, and a limit that is what was earned on
/// top of the soft limit, but no more than the hard limit.
pub proof fn health_is_what_was_counted(
    graph: &TaskGraph,
    cfg: GraphGrowthConfig,
    r: GraphGrowthHealth,
)
    requires
        call_ensures(graph_growth_health, (graph, cfg), r),
    ensures
        r.total == graph.nodes@.len(),
        r.soft_limit == cfg.soft_limit,
        r.hard_limit == cfg.hard_limit,
        r.completed == completed_count(graph.nodes@),
        r.useful_credits == credits(graph.nodes@),
        r.grown == grown_count(graph.nodes@),
        r.adaptive_limit <= cfg.hard_limit,
        r.adaptive_limit <= cfg.soft_limit + r.useful_credits,
        r.adaptive_limit == cfg.hard_limit || r.adaptive_limit == cfg.soft_limit
            + r.useful_credits,
        forall|k: int|
            0 <= k < graph.nodes@.len() ==> depth_of(graph.nodes@, (#[trigger] graph.nodes@[k]).id@)
                <= r.max_depth,
        graph.nodes@.len() > 0 ==> exists|k: int|
            0 <= k < graph.nodes@.len() && depth_of(
                graph.nodes@,
                (#[trigger] graph.nodes@[k]).id@,
            ) == r.max_depth,
        graph.nodes@.len() == 0 ==> r.max_depth == 0,
{
    the_deepest_is_a_bound_that_is_reached(graph.nodes@, graph.nodes@.len());
}

/// The limits are those of the settings, but at least one; the hard limit is also at
/// most the ceiling on plans.
pub proof fn limits_are_those_of_the_settings(
    settings: &SwarmGraphSettings,
    max_plan_items: usize,
    r: GraphGrowthConfig,
)
    requires
        max_plan_items >= 1,
        call_ensures(GraphGrowthConfig::current, (settings, max_plan_items), r),
    ensures
        settings.swarm_graph_soft_limit >= 1 ==> r.soft_limit == settings.swarm_graph_soft_limit,
        settings.swarm_graph_soft_limit == 0 ==> r.soft_limit == 1,
        settings.swarm_graph_max_fanout >= 1 ==> r.max_fanout == settings.swarm_graph_max_fanout,
        settings.swarm_graph_max_fanout == 0 ==> r.max_fanout == 1,
        settings.swarm_graph_max_depth >= 1 ==> r.max_depth == settings.swarm_graph_max_depth,
        settings.swarm_graph_max_depth == 0 ==> r.max_depth == 1,
        settings.swarm_graph_hard_limit == 0 ==> r.hard_limit == 1,
        1 <= settings.swarm_graph_hard_limit <= max_plan_items ==> r.hard_limit
            == settings.swarm_graph_hard_limit,
        settings.swarm_graph_hard_limit > max_plan_items ==> r.hard_limit == max_plan_items,
{
}

/// Letters and digits make words: a character between two texts that is neither splits
/// them, a text of letters and digits alone is one word, and an empty one none.
pub proof fn other_characters_split_words(a: Seq<char>, between: char, b: Seq<char>, w: Seq<char>)
    requires
        !is_alnum(between),
        w.len() > 0,
        forall|k: int| 0 <= k < w.len() ==> is_alnum(#[trigger] w[k]),
    ensures
        words(a.push(between) + b) == words(a) + words(b),
        words(w) == seq![w],
        words(Seq::empty()) == Seq::<Seq<char>>::empty(),
{
    lemma_words_between(a, between, b);
    lemma_run_length_unique(w, w.len() as int);
    assert(w.take(w.len() as int) == w);
    assert(w.skip(w.len() as int) == Seq::<char>::empty());
    assert(words(Seq::<char>::empty()) == Seq::<Seq<char>>::empty());
    assert(words(w) == seq![w]);
}

proof fn lemma_words_between(a: Seq<char>, between: char, b: Seq<char>)
    requires
        !is_alnum(between),
    ensures
        words(a.push(between) + b) == words(a) + words(b),
    decreases a.len(),
{
    let t = a.push(between) + b;
    lemma_run_length(a);
    let k = run_length(a);
    if a.len() == 0 {
        assert(t[0] == between);
        assert(run_length(t) == 0);
        assert(t.skip(1) == b);
        assert(words(a) == Seq::<Seq<char>>::empty());
        assert(words(a) + words(b) == words(b));
    } else if k <= 0 {
        assert(t[0] == a[0]);
        assert(run_length(t) == 0);
        assert(t.skip(1) == a.skip(1).push(between) + b);
        lemma_words_between(a.skip(1), between, b);
    } else {
        assert forall|m: int| 0 <= m < k implies is_alnum(#[trigger] t[m]) by {
            assert(t[m] == a[m]);
        }
        if k < a.len() {
            assert(t[k] == a[k]);
        } else {
            assert(t[k] == between);
        }
        lemma_run_length_unique(t, k);
        assert(t.take(k) == a.take(k));
        assert(t.skip(k) == a.skip(k).push(between) + b);
        lemma_words_between(a.skip(k), between, b);
        assert(seq![a.take(k)] + (words(a.skip(k)) + words(b)) == (seq![a.take(k)] + words(
            a.skip(k),
        )) + words(b));
    }
}

/// Of the ASCII characters, exactly the letters and digits count as such; of the others
/// those that Unicode counts.
pub proof fn letters_and_digits_count(c: char)
    ensures
        (c as u32) < 128 ==> (is_alnum(c) <==> 48 <= c as u32 <= 57 || 65 <= c as u32 <= 90 || 97
            <= c as u32 <= 122),
        c as u32 >= 128 ==> is_alnum(c) == unicode_alphanumeric(c),
{
}

/// A normalized task is its words in order, each with its ASCII capitals in lower case,
/// and one space between each two.
pub proof fn a_normalized_task_is_its_words(content: &str, r: String, lowered: Seq<Seq<char>>)
    requires
        call_ensures(normalized_task, (content,), r),
        lowered.len() == words(content@).len(),
        forall|i: int|
            0 <= i < lowered.len() ==> (#[trigger] lowered[i]).len() == words(content@)[i].len(),
        forall|i: int, k: int|
            0 <= i < lowered.len() && 0 <= k < lowered[i].len() ==> (#[trigger] lowered[i][k]) == {
                let c = words(content@)[i][k];
                if 65 <= c as u32 <= 90 {
                    (c as u32 + 32) as char
                } else {
                    c
                }
            },
    ensures
        r@ == text::joined(lowered, seq![' ']),
{
    reveal_strlit(" ");
    assert(" "@ == seq![' ']);
    let ws = words(content@);
    assert forall|i: int| 0 <= i < lowered.len() implies lowered[i] == #[trigger] lower_words(
        content@,
    )[i] by {
        assert(lower_words(content@)[i] == text::lower_text(ws[i]));
        assert forall|k: int| 0 <= k < lowered[i].len() implies lowered[i][k] == text::lower_text(
            ws[i],
        )[k] by {
            let c = ws[i][k];
            assert(text::lower_text(ws[i])[k] == text::lower_char(c));
        }
        assert(lowered[i] == text::lower_text(ws[i]));
    }
    assert(lowered == lower_words(content@));
}

/// Nodes are counted as duplicates one by one: a node counts where its id is new, and a
/// node that was there before, or a new one in front of it, is the same when normalized.
pub proof fn duplicates_are_counted_one_by_one(
    before: Seq<TaskNode>,
    after: Seq<TaskNode>,
    n: nat,
)
    requires
        n < after.len(),
    ensures
        duplicate_count(before, after, 0) == 0,
        ({
            let new = |j: int|
                forall|i: int| 0 <= i < before.len() ==> (#[trigger] before[i]).id@ != after[j].id@;
            let same = |a: TaskNode| normalized(a.content@) == normalized(after[n as int].content@);
            let counts = new(n as int) && ((exists|i: int|
                0 <= i < before.len() && same(#[trigger] before[i])) || (exists|k: int|
                0 <= k < n && new(k) && same(#[trigger] after[k])));
            duplicate_count(before, after, (n + 1) as nat) == duplicate_count(before, after, n)
                + if counts {
                1nat
            } else {
                0nat
            }
        }),
{
    let j = n as int;
    let new = |j: int|
        forall|i: int| 0 <= i < before.len() ==> (#[trigger] before[i]).id@ != after[j].id@;
    let same = |a: TaskNode| normalized(a.content@) == normalized(after[n as int].content@);
    assert forall|k: int| is_new(before, after, k) == #[trigger] new(k) by {}
    assert((exists|i: int|
        0 <= i < before.len() && normalized((#[trigger] before[i]).content@) == normalized(
            after[j].content@,
        )) == (exists|i: int| 0 <= i < before.len() && same(#[trigger] before[i])));
    assert((exists|k: int|
        0 <= k < j && is_new(before, after, k) && normalized((#[trigger] after[k]).content@)
            == normalized(after[j].content@)) == (exists|k: int|
        0 <= k < n && new(k) && same(#[trigger] after[k]))) by {
        if exists|k: int| 0 <= k < n && new(k) && same(#[trigger] after[k]) {
            let k = choose|k: int| 0 <= k < n && new(k) && same(#[trigger] after[k]);
            assert(is_new(before, after, k));
        }
        if exists|k: int|
            0 <= k < j && is_new(before, after, k) && normalized((#[trigger] after[k]).content@)
                == normalized(after[j].content@) {
            let k = choose|k: int|
                0 <= k < j && is_new(before, after, k) && normalized(
                    (#[trigger] after[k]).content@,
                ) == normalized(after[j].content@);
            assert(new(k));
        }
    }
}

/// What the policy admits: the plan stays within the ceiling and the hard limit, and
/// where a deep plan grows other than by a seed, the request stays within the fan-out and
/// every node within the depth. Beyond the soft limit less than half of a wave of two or
/// more may repeat what is there, and the size must be earned.
pub proof fn the_policy_admits_what_stays_within_the_limits(
    before: &TaskGraph,
    after: &TaskGraph,
    requested_fanout: usize,
    is_seed: bool,
    cfg: GraphGrowthConfig,
    ceiling: usize,
    health: GraphGrowthHealth,
    duplicates: usize,
    r: Option<String>,
)
    requires
        countable(*after),
        call_ensures(
            graph_growth_error,
            (before, after, requested_fanout, is_seed, cfg, ceiling),
            r,
        ),
        call_ensures(graph_growth_health, (after, cfg), health),
        call_ensures(duplicate_new_nodes, (before, after), duplicates),
    ensures
        r is None <==> {
            let total = after.nodes@.len();
            let new = total - before.nodes@.len();
            &&& total <= ceiling
            &&& total <= cfg.hard_limit
            &&& !is_seed && after.mode == Mode::Deep ==> {
                &&& requested_fanout <= cfg.max_fanout
                &&& health.max_depth <= cfg.max_depth
                &&& total <= cfg.soft_limit || {
                    &&& new < 2 || duplicates + duplicates < new
                    &&& total <= cfg.soft_limit + health.useful_credits
                }
            }
        },
{
}

/// Each objection is reported in words that name the numbers that it rests on.
pub proof fn objections_name_their_numbers(o: &GrowthObjection, r: String)
    requires
        call_ensures(GrowthObjection::message, (o,), r),
    ensures
        match *o {
            GrowthObjection::AboveCeiling { total, ceiling } => r@ == "plan would contain "@
                + text::decimal(total as nat)
                + " items, exceeding Jcode's absolute emergency ceiling of "@ + text::decimal(
                ceiling as nat,
            ),
            GrowthObjection::AboveHardLimit { total, hard_limit } => r@ == "plan would contain "@
                + text::decimal(total as nat)
                + " items, exceeding configured agents.swarm_graph_hard_limit="@ + text::decimal(
                hard_limit as nat,
            ) + "; raise that setting only when the workload is genuinely independent"@,
            GrowthObjection::Fanout { requested, max_fanout } => r@
                == "adaptive growth throttled: requested fan-out "@ + text::decimal(
                requested as nat,
            ) + " exceeds agents.swarm_graph_max_fanout="@ + text::decimal(max_fanout as nat)
                + "; split only after the current wave completes"@,
            GrowthObjection::Depth { depth, max_depth } => r@
                == "adaptive growth throttled: recursive depth "@ + text::decimal(depth as nat)
                + " exceeds agents.swarm_graph_max_depth="@ + text::decimal(max_depth as nat)
                + "; finish or flatten existing work instead of decomposing again"@,
            GrowthObjection::Duplicates { duplicates, new_nodes } => r@
                == "adaptive growth throttled: "@ + text::decimal(duplicates as nat) + " of "@
                + text::decimal(new_nodes as nat)
                + " new nodes duplicate existing task descriptions; reuse or complete existing nodes"@,
            GrowthObjection::Unearned { health } => r@
                == "adaptive growth throttled: graph health total="@ + text::decimal(
                health.total as nat,
            ) + " grown="@ + text::decimal(health.grown as nat) + " completed="@ + text::decimal(
                health.completed as nat,
            ) + " useful_credits="@ + text::decimal(health.useful_credits as nat) + " allows "@
                + text::decimal(health.adaptive_limit as nat) + " nodes (soft="@ + text::decimal(
                health.soft_limit as nat,
            ) + " hard="@ + text::decimal(health.hard_limit as nat)
                + "); complete implementation/fix/verification work to earn capacity before expanding again"@,
        },
{
}

/// The objection that is made is the first that holds, in this order: the ceiling, the
/// hard limit, the fan-out, the depth, the duplicates, the earned capacity. It carries
/// the numbers of the request, of the limits and of the graph.
pub proof fn the_first_objection_is_made(
    before: &TaskGraph,
    after: &TaskGraph,
    requested_fanout: usize,
    is_seed: bool,
    cfg: GraphGrowthConfig,
    ceiling: usize,
    health: GraphGrowthHealth,
    duplicates: usize,
    r: Option<GrowthObjection>,
)
    requires
        countable(*after),
        call_ensures(
            growth_objection,
            (before, after, requested_fanout, is_seed, cfg, ceiling),
            r,
        ),
        call_ensures(graph_growth_health, (after, cfg), health),
        call_ensures(duplicate_new_nodes, (before, after), duplicates),
    ensures
        ({
            let total = after.nodes@.len();
            let new = total - before.nodes@.len();
            let too_many = total > ceiling;
            let too_large = total > cfg.hard_limit;
            let exempt = is_seed || after.mode != Mode::Deep;
            let too_wide = requested_fanout > cfg.max_fanout;
            let too_deep = health.max_depth > cfg.max_depth;
            let repeats = total > cfg.soft_limit && new >= 2 && duplicates + duplicates >= new;
            &&& too_many ==> r == Some(
                GrowthObjection::AboveCeiling { total: total as usize, ceiling },
            )
            &&& !too_many && too_large ==> r == Some(
                GrowthObjection::AboveHardLimit {
                    total: total as usize,
                    hard_limit: cfg.hard_limit,
                },
            )
            &&& !too_many && !too_large && !exempt && too_wide ==> r == Some(
                GrowthObjection::Fanout { requested: requested_fanout, max_fanout: cfg.max_fanout },
            )
            &&& !too_many && !too_large && !exempt && !too_wide && too_deep ==> r == Some(
                GrowthObjection::Depth { depth: health.max_depth, max_depth: cfg.max_depth },
            )
            &&& !too_many && !too_large && !exempt && !too_wide && !too_deep && repeats ==> r
                == Some(GrowthObjection::Duplicates { duplicates, new_nodes: new as usize })
            &&& !too_many && !too_large && !exempt && !too_wide && !too_deep && !repeats && total
                > cfg.soft_limit && total > health.adaptive_limit ==> r == Some(
                GrowthObjection::Unearned { health },
            )
        }),
{
}

/// What is reported is the message of the objection that is made.
pub proof fn the_report_is_the_objections_message(
    before: &TaskGraph,
    after: &TaskGraph,
    requested_fanout: usize,
    is_seed: bool,
    cfg: GraphGrowthConfig,
    ceiling: usize,
    objection: Option<GrowthObjection>,
    message: String,
    r: Option<String>,
)
    requires
        call_ensures(
            growth_objection,
            (before, after, requested_fanout, is_seed, cfg, ceiling),
            objection,
        ),
        objection is Some ==> call_ensures(
            GrowthObjection::message,
            (&objection->0,),
            message,
        ),
        call_ensures(
            graph_growth_error,
            (before, after, requested_fanout, is_seed, cfg, ceiling),
            r,
        ),
    ensures
        r is Some <==> objection is Some,
        r is Some ==> r->0@ == message@,
{
}

} // verus!
