use jcode::graph_growth::{
    duplicate_new_nodes, graph_growth_error, graph_growth_health, growth_objection, node_depth,
    normalized_task, useful_completion_credit, GraphGrowthConfig, GrowthObjection,
    SwarmGraphSettings,
};
use jcode::task_graph::{Mode, NodeKind, NodeOrigin, NodeStatus, TaskGraph, TaskNode};

/// A ceiling that none of the graphs here comes near.
const CEILING: usize = 1_000;

fn cfg() -> GraphGrowthConfig {
    GraphGrowthConfig { soft_limit: 4, hard_limit: 32, max_fanout: 8, max_depth: 4 }
}

fn node(id: &str, kind: NodeKind, status: NodeStatus, origin: NodeOrigin) -> TaskNode {
    TaskNode {
        id: id.to_string(),
        content: format!("{kind:?} task {id}"),
        kind,
        status,
        owner: None,
        parent: None,
        is_gate: matches!(kind, NodeKind::Critique),
        origin: Some(origin),
    }
}

fn graph(nodes: Vec<TaskNode>) -> TaskGraph {
    let mut graph = TaskGraph::new(Mode::Deep);
    for node in nodes {
        graph.push_node(node);
    }
    graph
}

fn queued(id: &str) -> TaskNode {
    node(id, NodeKind::Explore, NodeStatus::Queued, NodeOrigin::Expand)
}

fn below(id: &str, parent: &str) -> TaskNode {
    let mut n = queued(id);
    n.parent = Some(parent.to_string());
    n
}

#[test]
fn recursive_audit_growth_stalls_without_useful_completions() {
    let before = graph(
        (0..4)
            .map(|i| {
                node(
                    &format!("seed-{i}"),
                    NodeKind::Explore,
                    NodeStatus::Queued,
                    NodeOrigin::Seed,
                )
            })
            .collect(),
    );
    let mut after = before.clone();
    after.push_node(node("audit-a", NodeKind::Explore, NodeStatus::Queued, NodeOrigin::Expand));
    after.push_node(node("audit-b", NodeKind::Critique, NodeStatus::Queued, NodeOrigin::Gate));

    let error = graph_growth_error(&before, &after, 2, false, cfg(), CEILING)
        .expect("unproductive recursive growth should throttle");
    assert!(error.contains("useful_credits=0"), "{error}");
    assert!(error.contains("allows 4 nodes"), "{error}");
}

#[test]
fn implementation_completions_earn_capacity_past_soft_limit() {
    let before = graph(vec![
        node("impl-a", NodeKind::Implement, NodeStatus::Done, NodeOrigin::Seed),
        node("impl-b", NodeKind::Fix, NodeStatus::Done, NodeOrigin::Seed),
        node("seed-c", NodeKind::Explore, NodeStatus::Queued, NodeOrigin::Seed),
        node("seed-d", NodeKind::Explore, NodeStatus::Queued, NodeOrigin::Seed),
    ]);
    let mut after = before.clone();
    for i in 0..8 {
        after.push_node(node(
            &format!("productive-{i}"),
            NodeKind::Implement,
            NodeStatus::Queued,
            NodeOrigin::Expand,
        ));
    }

    assert_eq!(graph_growth_health(&after, cfg()).adaptive_limit, 20);
    assert!(graph_growth_error(&before, &after, 8, false, cfg(), CEILING).is_none());
}

#[test]
fn large_independent_seed_can_exceed_soft_limit() {
    let before = graph(Vec::new());
    let after = graph(
        (0..20)
            .map(|i| {
                node(
                    &format!("independent-{i}"),
                    NodeKind::Implement,
                    NodeStatus::Queued,
                    NodeOrigin::Seed,
                )
            })
            .collect(),
    );

    assert!(graph_growth_error(&before, &after, 20, true, cfg(), CEILING).is_none());
}

#[test]
fn duplicate_recursive_wave_is_rejected_even_with_credits() {
    let before = graph(vec![
        node("impl", NodeKind::Implement, NodeStatus::Done, NodeOrigin::Seed),
        node("a", NodeKind::Explore, NodeStatus::Queued, NodeOrigin::Seed),
        node("b", NodeKind::Explore, NodeStatus::Queued, NodeOrigin::Seed),
        node("c", NodeKind::Explore, NodeStatus::Queued, NodeOrigin::Seed),
    ]);
    let mut after = before.clone();
    let mut first = node("dup-1", NodeKind::Explore, NodeStatus::Queued, NodeOrigin::Expand);
    first.content = "audit the same subsystem".to_string();
    let mut second = node("dup-2", NodeKind::Explore, NodeStatus::Queued, NodeOrigin::Expand);
    second.content = "Audit, the same subsystem!".to_string();
    after.push_node(first);
    after.push_node(second);

    let error = graph_growth_error(&before, &after, 2, false, cfg(), CEILING)
        .expect("duplicate wave should throttle");
    assert!(error.contains("duplicate existing task descriptions"), "{error}");
}

#[test]
fn each_kind_earns_its_own_credit() {
    assert_eq!(useful_completion_credit(NodeKind::Implement), 8);
    assert_eq!(useful_completion_credit(NodeKind::Fix), 8);
    assert_eq!(useful_completion_credit(NodeKind::Verify), 4);
    assert_eq!(useful_completion_credit(NodeKind::Synthesize), 2);
    assert_eq!(useful_completion_credit(NodeKind::Explore), 1);
    assert_eq!(useful_completion_credit(NodeKind::Critique), 0);
}

#[test]
fn descriptions_are_compared_by_their_words() {
    assert_eq!(normalized_task("  Fix: the  Parser's bug!  "), "fix the parser s bug");
    assert_eq!(normalized_task("---"), "");
    assert_eq!(normalized_task(""), "");
    assert_eq!(normalized_task("v2.0-rc1"), "v2 0 rc1");
    // Letters beyond ASCII belong to words; only ASCII letters lose their case.
    assert_eq!(normalized_task("Über-Prüfung №5"), "Über prüfung 5");
    assert_eq!(normalized_task("日本語 テスト"), "日本語 テスト");
}

#[test]
fn normalizing_again_changes_nothing() {
    for text in ["Audit, the same subsystem!", "a  b\tc", "Über-Prüfung", ""] {
        let once = normalized_task(text);
        assert_eq!(normalized_task(&once), once);
    }
}

#[test]
fn settings_are_brought_into_range() {
    let nothing = SwarmGraphSettings {
        swarm_graph_soft_limit: 0,
        swarm_graph_hard_limit: 0,
        swarm_graph_max_fanout: 0,
        swarm_graph_max_depth: 0,
    };
    let low = GraphGrowthConfig::current(&nothing, 100);
    assert_eq!((low.soft_limit, low.hard_limit, low.max_fanout, low.max_depth), (1, 1, 1, 1));
    let much = SwarmGraphSettings {
        swarm_graph_soft_limit: 500,
        swarm_graph_hard_limit: 500,
        swarm_graph_max_fanout: 500,
        swarm_graph_max_depth: 500,
    };
    let high = GraphGrowthConfig::current(&much, 100);
    assert_eq!(
        (high.soft_limit, high.hard_limit, high.max_fanout, high.max_depth),
        (500, 100, 500, 500)
    );
}

#[test]
fn health_counts_every_node() {
    let g = graph(vec![
        node("s", NodeKind::Verify, NodeStatus::Done, NodeOrigin::Seed),
        node("gate", NodeKind::Critique, NodeStatus::Done, NodeOrigin::Gate),
        below("child", "s"),
        below("grandchild", "child"),
    ]);
    let health = graph_growth_health(&g, cfg());
    assert_eq!(health.total, 4);
    assert_eq!(health.completed, 2);
    assert_eq!(health.useful_credits, 4);
    assert_eq!(health.adaptive_limit, 8);
    assert_eq!(health.grown, 3);
    assert_eq!(health.max_depth, 2);
    assert_eq!((health.soft_limit, health.hard_limit), (4, 32));
}

#[test]
fn a_completed_gate_earns_nothing() {
    let mut gate = node("gate", NodeKind::Verify, NodeStatus::Done, NodeOrigin::Gate);
    gate.is_gate = true;
    let health = graph_growth_health(&graph(vec![gate]), cfg());
    assert_eq!((health.completed, health.useful_credits), (1, 0));
}

#[test]
fn the_adaptive_limit_stops_at_the_hard_limit() {
    let done = (0..5)
        .map(|i| {
            node(&format!("d{i}"), NodeKind::Fix, NodeStatus::Done, NodeOrigin::Seed)
        })
        .collect();
    assert_eq!(graph_growth_health(&graph(done), cfg()).adaptive_limit, 32);
}

#[test]
fn depth_follows_the_parents() {
    let g = graph(vec![queued("a"), below("b", "a"), below("c", "b"), below("lost", "gone")]);
    assert_eq!(node_depth(&g, "a"), 0);
    assert_eq!(node_depth(&g, "b"), 1);
    assert_eq!(node_depth(&g, "c"), 2);
    assert_eq!(node_depth(&g, "lost"), 1);
    assert_eq!(node_depth(&g, "nobody"), 0);
}

#[test]
fn depth_stays_bounded_on_a_cycle() {
    let g = graph(vec![below("a", "b"), below("b", "a")]);
    assert_eq!(node_depth(&g, "a"), 3);
}

#[test]
fn duplicates_count_against_old_and_new_nodes() {
    let mut old = queued("old");
    old.content = "Read the parser".to_string();
    let before = graph(vec![old.clone()]);
    let mut again = queued("again");
    again.content = "read the PARSER!".to_string();
    let mut fresh = queued("fresh");
    fresh.content = "write the parser".to_string();
    let mut twice = queued("twice");
    twice.content = "Write the parser".to_string();
    let after = graph(vec![old, again, fresh, twice]);
    assert_eq!(duplicate_new_nodes(&before, &after), 2);
    assert_eq!(duplicate_new_nodes(&after, &after), 0);
}

#[test]
fn the_ceiling_comes_first() {
    let before = graph(Vec::new());
    let after = graph(vec![queued("a"), queued("b"), queued("c")]);
    assert_eq!(
        graph_growth_error(&before, &after, 3, true, cfg(), 2).as_deref(),
        Some("plan would contain 3 items, exceeding Jcode's absolute emergency ceiling of 2")
    );
}

#[test]
fn the_hard_limit_holds_for_seeds_too() {
    let before = graph(Vec::new());
    let after = graph((0..33).map(|i| queued(&format!("n{i}"))).collect());
    assert_eq!(
        graph_growth_error(&before, &after, 33, true, cfg(), CEILING).as_deref(),
        Some(
            "plan would contain 33 items, exceeding configured \
             agents.swarm_graph_hard_limit=32; raise that setting only when the workload is \
             genuinely independent"
        )
    );
}

#[test]
fn a_wide_request_is_refused() {
    let before = graph(Vec::new());
    let after = graph(vec![queued("a")]);
    assert_eq!(
        graph_growth_error(&before, &after, 9, false, cfg(), CEILING).as_deref(),
        Some(
            "adaptive growth throttled: requested fan-out 9 exceeds \
             agents.swarm_graph_max_fanout=8; split only after the current wave completes"
        )
    );
}

#[test]
fn a_deep_request_is_refused() {
    let mut nodes = vec![queued("n0")];
    for i in 1..6 {
        nodes.push(below(&format!("n{i}"), &format!("n{}", i - 1)));
    }
    let after = graph(nodes);
    assert_eq!(
        graph_growth_error(&after, &after, 1, false, cfg(), CEILING).as_deref(),
        Some(
            "adaptive growth throttled: recursive depth 5 exceeds \
             agents.swarm_graph_max_depth=4; finish or flatten existing work instead of \
             decomposing again"
        )
    );
}

#[test]
fn unearned_growth_is_reported_with_the_health() {
    let before = graph((0..4).map(|i| queued(&format!("n{i}"))).collect());
    let mut after = before.clone();
    after.push_node(queued("n4"));
    assert_eq!(
        graph_growth_error(&before, &after, 1, false, cfg(), CEILING).as_deref(),
        Some(
            "adaptive growth throttled: graph health total=5 grown=5 completed=0 \
             useful_credits=0 allows 4 nodes (soft=4 hard=32); complete \
             implementation/fix/verification work to earn capacity before expanding again"
        )
    );
}

#[test]
fn a_single_new_duplicate_is_no_wave() {
    let mut nodes: Vec<TaskNode> = (0..4)
        .map(|i| node(&format!("n{i}"), NodeKind::Fix, NodeStatus::Done, NodeOrigin::Seed))
        .collect();
    let before = graph(nodes.clone());
    let mut copy = queued("copy");
    copy.content = nodes[0].content.clone();
    nodes.push(copy);
    let after = graph(nodes);
    assert_eq!(duplicate_new_nodes(&before, &after), 1);
    assert!(growth_objection(&before, &after, 1, false, cfg(), CEILING).is_none());
}

#[test]
fn light_plans_may_grow_to_the_hard_limit() {
    let mut before = graph(Vec::new());
    before.mode = Mode::Light;
    let mut after = graph((0..32).map(|i| below(&format!("n{i}"), "n0")).collect());
    after.mode = Mode::Light;
    assert!(graph_growth_error(&before, &after, 32, false, cfg(), CEILING).is_none());
}

#[test]
fn completing_work_lifts_a_refusal_and_adding_does_not() {
    let before = graph((0..4).map(|i| queued(&format!("n{i}"))).collect());
    let mut after = before.clone();
    after.push_node(queued("n4"));
    assert!(matches!(
        growth_objection(&before, &after, 1, false, cfg(), CEILING),
        Some(GrowthObjection::Unearned { .. })
    ));
    let mut more = after.clone();
    more.push_node(queued("n5"));
    assert!(growth_objection(&before, &more, 1, false, cfg(), CEILING).is_some());
    let mut done = after.clone();
    done.nodes[0].status = NodeStatus::Done;
    assert!(growth_objection(&before, &done, 1, false, cfg(), CEILING).is_none());
    // What was earned is still there when nodes are added.
    let mut grown = done.clone();
    grown.push_node(queued("n6"));
    assert_eq!(
        graph_growth_health(&grown, cfg()).adaptive_limit,
        graph_growth_health(&done, cfg()).adaptive_limit
    );
}
