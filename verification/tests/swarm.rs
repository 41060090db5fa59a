use jcode::graph_growth::GraphGrowthConfig;
use jcode::string_map::StringMap;
use jcode::swarm::{
    apply_role_changes, begin_seed, claim_queued_node_for_actor, coordinator_is_live,
    ensure_seeder_can_coordinate, friendly_name_for, resolve_mode, settle_plan, spec_from_wire,
    swarm_id_for,
    GraphAction, GraphChange, GraphEvent, GraphOp, GraphRequest, Stage, SwarmEffect, SwarmMember,
    TaskGraphNodeSpec, VersionedPlan, DOWNGRADE_REFUSED,
};
use jcode::task_graph::{Mode, NodeKind, NodeOrigin, NodeStatus, TaskGraph, TaskNode};

const CEILING: usize = 1_000;

fn cfg() -> GraphGrowthConfig {
    GraphGrowthConfig { soft_limit: 2, hard_limit: 8, max_fanout: 4, max_depth: 4 }
}

fn member(role: &str, swarm: Option<&str>, headless: bool) -> SwarmMember<u8> {
    SwarmMember {
        swarm_id: swarm.map(|s| s.to_string()),
        friendly_name: Some(format!("the {role}")),
        role: role.to_string(),
        is_headless: headless,
        event_tx: 7,
    }
}

fn members(list: Vec<(&str, SwarmMember<u8>)>) -> StringMap<SwarmMember<u8>> {
    let mut out = StringMap::new();
    for (id, m) in list {
        out.insert(id.to_string(), m);
    }
    out
}

fn coordinators(list: &[(&str, &str)]) -> StringMap<String> {
    let mut out = StringMap::new();
    for (swarm, session) in list {
        out.insert(swarm.to_string(), session.to_string());
    }
    out
}

fn plan(mode: &str, items: usize) -> VersionedPlan<u8> {
    VersionedPlan {
        mode: mode.to_string(),
        participants: vec!["s0".to_string()],
        version: 3,
        items: vec![0; items],
    }
}

fn node(id: &str, status: NodeStatus, owner: Option<&str>) -> TaskNode {
    TaskNode {
        id: id.to_string(),
        content: format!("task {id}"),
        kind: NodeKind::Explore,
        status,
        owner: owner.map(|o| o.to_string()),
        parent: None,
        is_gate: false,
        origin: Some(NodeOrigin::Expand),
    }
}

fn graph(nodes: Vec<TaskNode>) -> TaskGraph {
    TaskGraph { mode: Mode::Deep, nodes }
}

fn queued(n: usize) -> TaskGraph {
    graph((0..n).map(|i| node(&format!("n{i}"), NodeStatus::Queued, None)).collect())
}

fn change(before: usize, after: usize, changed: bool) -> GraphEvent {
    GraphEvent::EngineRan(Ok(GraphChange { before: queued(before), after: queued(after), changed }))
}

fn refused(action: GraphAction) -> String {
    match action {
        GraphAction::Refuse { message } => message,
        other => panic!("not refused: {other:?}"),
    }
}

fn at_engine(op: GraphOp, count: usize) -> GraphRequest {
    let mut req = GraphRequest::new(op, 9, "s1", count);
    req.advance(GraphEvent::SwarmFound(Some("w".to_string())), cfg(), CEILING);
    if op == GraphOp::Seed {
        req.advance(GraphEvent::CoordinatorSettled, cfg(), CEILING);
    }
    if op == GraphOp::Complete {
        req.advance(GraphEvent::ArtifactParsed(Ok(())), cfg(), CEILING);
    }
    req.advance(GraphEvent::PlanReady, cfg(), CEILING);
    assert_eq!(req.stage, Stage::Engine);
    req
}

#[test]
fn members_are_looked_up() {
    let m = members(vec![("a", member("agent", Some("w"), false)), ("b", member("agent", None, false))]);
    assert_eq!(swarm_id_for("a", &m).as_deref(), Some("w"));
    assert_eq!(swarm_id_for("b", &m), None);
    assert_eq!(swarm_id_for("c", &m), None);
    assert_eq!(friendly_name_for("a", &m).as_deref(), Some("the agent"));
    assert_eq!(friendly_name_for("c", &m), None);
}

#[test]
fn a_coordinator_is_live_while_it_listens() {
    let m = members(vec![("a", member("coordinator", None, false)), ("h", member("coordinator", None, true))]);
    assert!(coordinator_is_live("a", &m, false));
    assert!(!coordinator_is_live("a", &m, true));
    assert!(!coordinator_is_live("h", &m, false));
    assert!(!coordinator_is_live("x", &m, false));
}

#[test]
fn a_seeder_takes_over_an_empty_swarm() {
    let mut c = coordinators(&[("other", "x")]);
    let election = ensure_seeder_can_coordinate("w", "s", &None, false, &mut c);
    assert!(election.seeder_coordinates);
    assert_eq!(c.get("w").map(|s| s.as_str()), Some("s"));
    assert_eq!(c.get("other").map(|s| s.as_str()), Some("x"));
    assert_eq!(election.roles.len(), 1);
    assert_eq!((election.roles[0].session_id.as_str(), election.roles[0].role.as_str()), ("s", "coordinator"));
}

#[test]
fn a_stale_coordinator_is_demoted() {
    let mut c = coordinators(&[("w", "old")]);
    let mut m = members(vec![
        ("old", member("coordinator", Some("w"), true)),
        ("s", member("agent", Some("w"), false)),
        ("t", member("agent", Some("w"), false)),
    ]);
    let observed = Some("old".to_string());
    let election = ensure_seeder_can_coordinate("w", "s", &observed, false, &mut c);
    assert!(election.seeder_coordinates);
    apply_role_changes(&mut m, &election.roles);
    assert_eq!(m.get("s").unwrap().role, "coordinator");
    assert_eq!(m.get("old").unwrap().role, "agent");
    assert_eq!(m.get("t").unwrap().role, "agent");
    assert_eq!(m.get("s").unwrap().event_tx, 7);
    assert_eq!(c.get("w").map(|s| s.as_str()), Some("s"));
}

#[test]
fn a_live_coordinator_stays() {
    let mut c = coordinators(&[("w", "boss")]);
    let observed = Some("boss".to_string());
    let election = ensure_seeder_can_coordinate("w", "s", &observed, true, &mut c);
    assert!(!election.seeder_coordinates && election.roles.is_empty());
    assert_eq!(c.get("w").map(|s| s.as_str()), Some("boss"));
    let own = ensure_seeder_can_coordinate("w", "boss", &observed, true, &mut c);
    assert!(own.seeder_coordinates && own.roles.is_empty());
}

#[test]
fn the_loser_of_a_race_displaces_nobody() {
    let mut c = coordinators(&[("w", "winner")]);
    let election = ensure_seeder_can_coordinate("w", "s", &None, false, &mut c);
    assert!(!election.seeder_coordinates && election.roles.is_empty());
    assert_eq!(c.get("w").map(|s| s.as_str()), Some("winner"));
    // Somebody made the seeder coordinator meanwhile.
    let mut c = coordinators(&[("w", "s")]);
    assert!(ensure_seeder_can_coordinate("w", "s", &None, false, &mut c).seeder_coordinates);
}

#[test]
fn an_explicit_mode_wins() {
    assert_eq!(resolve_mode(Some("light".to_string()), true).as_deref(), Some("light"));
    assert_eq!(resolve_mode(None, true).as_deref(), Some("deep"));
    assert_eq!(resolve_mode(None, false), None);
}

#[test]
fn a_deep_plan_with_tasks_is_not_downgraded() {
    let mut p = plan("Deep", 1);
    let message = begin_seed(&mut p, Some("light".to_string()), "s1").unwrap_err();
    assert_eq!(message, DOWNGRADE_REFUSED);
    assert_eq!(
        message,
        "Seed rejected: this swarm already has a non-empty deep-mode plan; \
         seeding with mode=light would silently strip its gates and artifact \
         validation. Omit `mode` to keep deep, or finish/clear the current plan first."
    );
    assert_eq!((p.mode.as_str(), p.participants.len(), p.version), ("Deep", 1, 3));
    assert!(begin_seed(&mut p, Some("DEEP".to_string()), "s1").is_ok());
    assert_eq!(p.mode, "DEEP");
    assert!(begin_seed(&mut p, None, "s1").is_ok());
    assert_eq!(p.mode, "DEEP");
}

#[test]
fn an_empty_plan_takes_any_mode() {
    let mut p = plan("deep", 0);
    assert!(begin_seed(&mut p, Some("light".to_string()), "s1").is_ok());
    assert_eq!(p.mode, "light");
    assert!(begin_seed(&mut p, Some("deep".to_string()), "s1").is_ok());
    assert_eq!(p.participants, ["s0", "s1"]);
    p.bump_version();
    assert_eq!(p.version, 4);
}

#[test]
fn wire_nodes_become_engine_nodes() {
    let spec = TaskGraphNodeSpec {
        id: "a".to_string(),
        content: "do it".to_string(),
        kind: Some("fix".to_string()),
        depends_on: vec!["b".to_string()],
        priority: 5u8,
    };
    let out = spec_from_wire(spec, NodeKind::Fix);
    assert_eq!(out.id.as_deref(), Some("a"));
    assert_eq!(out.content, "do it");
    assert_eq!(out.kind, NodeKind::Fix);
    assert_eq!(out.depends_on, ["b"]);
    assert_eq!(out.priority, 5);
}

#[test]
fn queued_nodes_are_claimed_by_their_owner_or_by_anyone() {
    let g = graph(vec![
        node("free", NodeStatus::Queued, None),
        node("mine", NodeStatus::Queued, Some("me")),
        node("theirs", NodeStatus::Queued, Some("you")),
        node("running", NodeStatus::Other, Some("me")),
        node("done", NodeStatus::Done, None),
    ]);
    assert!(claim_queued_node_for_actor(&g, "free", "me"));
    assert!(claim_queued_node_for_actor(&g, "mine", "me"));
    assert!(!claim_queued_node_for_actor(&g, "theirs", "me"));
    assert!(!claim_queued_node_for_actor(&g, "running", "me"));
    assert!(!claim_queued_node_for_actor(&g, "done", "me"));
    assert!(!claim_queued_node_for_actor(&g, "none", "me"));
}

#[test]
fn outsiders_are_refused() {
    for op in [GraphOp::Seed, GraphOp::Expand, GraphOp::Complete, GraphOp::Inject] {
        let mut req = GraphRequest::new(op, 1, "s", 1);
        let action = req.advance(GraphEvent::SwarmFound(None), cfg(), CEILING);
        assert_eq!(refused(action), "Not in a swarm.");
        assert_eq!(req.stage, Stage::Closed);
    }
}

#[test]
fn a_seed_passes_through_its_stages() {
    let mut req = GraphRequest::new(GraphOp::Seed, 1, "s", 2);
    let found = GraphEvent::SwarmFound(Some("w".to_string()));
    assert!(matches!(req.advance(found, cfg(), CEILING), GraphAction::SettleCoordinator));
    assert!(matches!(
        req.advance(GraphEvent::CoordinatorSettled, cfg(), CEILING),
        GraphAction::OpenPlan
    ));
    assert!(matches!(req.advance(GraphEvent::PlanReady, cfg(), CEILING), GraphAction::RunEngine));
    // A seed may go beyond what was earned.
    assert!(matches!(req.advance(change(0, 6, true), cfg(), CEILING), GraphAction::Commit));
    assert_eq!(req.stage, Stage::Closed);
}

#[test]
fn a_seed_that_changes_nothing_is_acknowledged() {
    let mut req = at_engine(GraphOp::Seed, 0);
    assert!(matches!(req.advance(change(1, 1, false), cfg(), CEILING), GraphAction::Acknowledge));
}

#[test]
fn a_refused_seed_is_answered_as_it_is() {
    let mut req = GraphRequest::new(GraphOp::Seed, 1, "s", 2);
    req.advance(GraphEvent::SwarmFound(Some("w".to_string())), cfg(), CEILING);
    req.advance(GraphEvent::CoordinatorSettled, cfg(), CEILING);
    let event = GraphEvent::SeedRefused(DOWNGRADE_REFUSED.to_string());
    assert_eq!(refused(req.advance(event, cfg(), CEILING)), DOWNGRADE_REFUSED);
}

#[test]
fn a_swarm_without_a_plan_is_refused() {
    for op in [GraphOp::Expand, GraphOp::Inject] {
        let mut req = GraphRequest::new(op, 1, "s", 1);
        let found = GraphEvent::SwarmFound(Some("w".to_string()));
        assert!(matches!(req.advance(found, cfg(), CEILING), GraphAction::OpenPlan));
        let action = req.advance(GraphEvent::PlanMissing, cfg(), CEILING);
        assert_eq!(refused(action), "No plan for this swarm.");
    }
}

#[test]
fn a_bad_artifact_is_refused() {
    let mut req = GraphRequest::new(GraphOp::Complete, 1, "s", 0);
    let found = GraphEvent::SwarmFound(Some("w".to_string()));
    assert!(matches!(req.advance(found, cfg(), CEILING), GraphAction::ParseArtifact));
    let event = GraphEvent::ArtifactParsed(Err("expected value".to_string()));
    assert_eq!(
        refused(req.advance(event, cfg(), CEILING)),
        "Invalid artifact JSON: expected value"
    );
}

#[test]
fn the_engine_has_the_last_word() {
    for (op, message) in [
        (GraphOp::Seed, "Seed rejected: cycle"),
        (GraphOp::Expand, "Expand rejected: cycle"),
        (GraphOp::Complete, "Complete rejected: cycle"),
        (GraphOp::Inject, "Inject rejected: cycle"),
    ] {
        let mut req = at_engine(op, 1);
        let event = GraphEvent::EngineRan(Err("cycle".to_string()));
        assert_eq!(refused(req.advance(event, cfg(), CEILING)), message);
    }
}

#[test]
fn recursive_growth_is_throttled_and_completion_is_not() {
    for (op, prefix) in [
        (GraphOp::Expand, "Expand rejected: adaptive growth throttled: graph health total=3"),
        (GraphOp::Inject, "Inject rejected: adaptive growth throttled: graph health total=3"),
    ] {
        let mut req = at_engine(op, 1);
        let message = refused(req.advance(change(2, 3, true), cfg(), CEILING));
        assert!(message.starts_with(prefix), "{message}");
    }
    let mut req = at_engine(GraphOp::Expand, 1);
    assert!(matches!(req.advance(change(1, 2, true), cfg(), CEILING), GraphAction::Commit));
    let mut req = at_engine(GraphOp::Complete, 0);
    assert!(matches!(req.advance(change(20, 20, true), cfg(), CEILING), GraphAction::Commit));
}

#[test]
fn only_a_commit_counts_a_change() {
    let mut p = plan("deep", 2);
    settle_plan(&mut p, &GraphAction::Commit);
    assert_eq!((p.version, p.items.len(), p.mode.as_str()), (4, 2, "deep"));
    for action in [
        GraphAction::Acknowledge,
        GraphAction::Refuse { message: "no".to_string() },
        GraphAction::RunEngine,
    ] {
        settle_plan(&mut p, &action);
        assert_eq!(p.version, 4);
    }
    p.version = u64::MAX;
    settle_plan(&mut p, &GraphAction::Acknowledge);
    assert_eq!(p.version, u64::MAX);
}

#[test]
fn a_finished_request_is_made_known() {
    for (op, why, items) in [
        (GraphOp::Seed, "task_graph_seed", 2),
        (GraphOp::Expand, "task_graph_expand", 2),
        (GraphOp::Complete, "task_graph_complete", 1),
        (GraphOp::Inject, "task_graph_inject_gap", 2),
    ] {
        let req = at_engine(op, 2);
        let effects = req.finalize(Some("fox".to_string()));
        assert_eq!(effects.len(), 4);
        assert!(matches!(&effects[0], SwarmEffect::Persist { swarm_id } if swarm_id == "w"));
        assert!(matches!(
            &effects[1],
            SwarmEffect::Broadcast { swarm_id, reason } if swarm_id == "w" && reason == why
        ));
        assert!(matches!(
            &effects[2],
            SwarmEffect::RecordPlanUpdate { session_id, session_name, swarm_id, item_count }
                if session_id == "s1" && session_name.as_deref() == Some("fox")
                    && swarm_id == "w" && *item_count == items
        ));
        assert!(matches!(&effects[3], SwarmEffect::Done { id: 9 }));
    }
}

#[test]
fn a_refusal_goes_to_the_client() {
    let req = GraphRequest::new(GraphOp::Expand, 42, "s", 1);
    assert!(matches!(
        req.err("no".to_string()),
        SwarmEffect::Error { id: 42, message, retry_after_secs: None } if message == "no"
    ));
}

#[test]
fn texts_map_to_values() {
    let mut m: StringMap<u8> = StringMap::new();
    assert!(m.get("a").is_none());
    assert_eq!(m.insert("a".to_string(), 1), None);
    assert_eq!(m.insert("b".to_string(), 2), None);
    assert_eq!(m.insert("a".to_string(), 3), Some(1));
    if let Some(v) = m.get_mut("b") {
        *v = 9;
    }
    assert!(m.get_mut("c").is_none());
    assert_eq!((m.get("a"), m.get("b")), (Some(&3), Some(&9)));
}
