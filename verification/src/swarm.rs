//! Requests that change a swarm's task graph: seed, expand, complete, inject.
//!
//! The graph engine, persistence and broadcast are outside. A request is advanced
//! event by event; each step says what is to be done next, and the last one how
//! the request is answered.
use crate::graph_growth;
use crate::graph_growth::{graph_growth_error, GraphGrowthConfig};
use crate::string_map::StringMap;
use crate::task_graph;
use crate::task_graph::{NodeKind, NodeStatus, TaskGraph, TaskNode};
use crate::text;
use crate::text::{clone_opt, eq_ignore_case, list_contains, opt_is, text_eq};
use vstd::prelude::*;
use vstd::string::*;

verus! {

// ---------------------------------------------------------------------------
// Members and coordinators
// ---------------------------------------------------------------------------

/// A session that takes part in swarms. `T` is the handle through which events
/// reach it.
pub struct SwarmMember<T> {
    pub swarm_id: Option<String>,
    pub friendly_name: Option<String>,
    pub role: String,
    pub is_headless: bool,
    pub event_tx: T,
}

/// The swarm that a session belongs to.
pub fn swarm_id_for<T>(session_id: &str, members: &StringMap<SwarmMember<T>>) -> (r: Option<String>)
    ensures
        r == (if members@.contains_key(session_id@) {
            members@[session_id@].swarm_id
        } else {
            None
        }),
{
    match members.get(session_id) {
        Some(member) => clone_opt(&member.swarm_id),
        None => None,
    }
}

/// The name under which a session is announced.
pub fn friendly_name_for<T>(session_id: &str, members: &StringMap<SwarmMember<T>>) -> (r: Option<
    String,
>)
    ensures
        r == (if members@.contains_key(session_id@) {
            members@[session_id@].friendly_name
        } else {
            None
        }),
{
    match members.get(session_id) {
        Some(member) => clone_opt(&member.friendly_name),
        None => None,
    }
}

/// Whether a coordinator still drives its swarm: it is a member, its event
/// channel is open, and it is not headless.
pub fn coordinator_is_live<T>(
    coordinator: &str,
    members: &StringMap<SwarmMember<T>>,
    channel_closed: bool,
) -> (r: bool)
    ensures
        r == (members@.contains_key(coordinator@) && !channel_closed
            && !members@[coordinator@].is_headless),
{
    match members.get(coordinator) {
        Some(member) => !channel_closed && !member.is_headless,
        None => false,
    }
}

/// A session's new role.
#[derive(Debug)]
pub struct RoleChange {
    pub session_id: String,
    pub role: String,
}

/// What came of the attempt to make a seeding session the coordinator.
#[derive(Debug)]
pub struct Election {
    /// Whether the seeder coordinates the swarm.
    pub seeder_coordinates: bool,
    /// The roles that change.
    pub roles: Vec<RoleChange>,
}

/// The coordinator of a swarm.
pub open spec fn coordinator_of(
    coordinators: Map<Seq<char>, String>,
    swarm_id: Seq<char>,
) -> Option<Seq<char>> {
    if coordinators.contains_key(swarm_id) {
        Some(coordinators[swarm_id]@)
    } else {
        None
    }
}

/// Whether the seeder takes over: it is not the coordinator that was observed, the
/// observed one is not live, and it is still the coordinator now.
pub open spec fn takes_over(
    coordinators: Map<Seq<char>, String>,
    swarm_id: Seq<char>,
    seeder: Seq<char>,
    observed: Option<Seq<char>>,
    observed_is_live: bool,
) -> bool {
    &&& observed != Some(seeder)
    &&& !observed_is_live
    &&& coordinator_of(coordinators, swarm_id) == observed
}

/// Ensures that the seeding session can drive the graph that it just created.
///
/// The seeder is elected coordinator where the swarm has no live coordinator. A
/// live, non-headless coordinator is left untouched, so a real coordinator is
/// never displaced by a worker that happens to seed.
///
/// `observed` is the coordinator that was read before its liveness was checked.
/// Where another session has become coordinator since, that one stays: it was
/// never checked.
pub fn ensure_seeder_can_coordinate(
    swarm_id: &str,
    seeder: &str,
    observed: &Option<String>,
    observed_is_live: bool,
    coordinators: &mut StringMap<String>,
) -> (r: Election)
    ensures
        coordinator_of(final(coordinators)@, swarm_id@) == (if takes_over(
            old(coordinators)@,
            swarm_id@,
            seeder@,
            text::opt_view(*observed),
            observed_is_live,
        ) {
            Some(seeder@)
        } else {
            coordinator_of(old(coordinators)@, swarm_id@)
        }),
        forall|other: Seq<char>|
            other != swarm_id@ ==> coordinator_of(final(coordinators)@, other) == coordinator_of(
                old(coordinators)@,
                other,
            ),
        r.seeder_coordinates == (if text::opt_view(*observed) == Some(seeder@) {
            true
        } else if observed_is_live {
            false
        } else {
            coordinator_of(final(coordinators)@, swarm_id@) == Some(seeder@)
        }),
        if takes_over(
            old(coordinators)@,
            swarm_id@,
            seeder@,
            text::opt_view(*observed),
            observed_is_live,
        ) {
            &&& r.roles@.len() == (if observed is Some {
                2int
            } else {
                1int
            })
            &&& r.roles@[0].session_id@ == seeder@
            &&& r.roles@[0].role@ == "coordinator"@
            &&& observed is Some ==> r.roles@[1].session_id@ == observed->0@ && r.roles@[1].role@
                == "agent"@
        } else {
            r.roles@.len() == 0
        },
{
    if opt_is(observed, seeder) {
        return Election { seeder_coordinates: true, roles: Vec::new() };
    }
    if observed_is_live {
        return Election { seeder_coordinates: false, roles: Vec::new() };
    }
    let current: Option<String> = match coordinators.get(swarm_id) {
        Some(c) => Some(c.clone()),
        None => None,
    };
    let unchanged: bool = match (&current, observed) {
        (Some(a), Some(b)) => text_eq(a.as_str(), b.as_str()),
        (None, None) => true,
        _ => false,
    };
    if !unchanged {
        return Election { seeder_coordinates: opt_is(&current, seeder), roles: Vec::new() };
    }
    let prior: Option<String> = coordinators.insert(swarm_id.to_owned(), seeder.to_owned());
    let mut roles: Vec<RoleChange> = Vec::new();
    roles.push(RoleChange { session_id: seeder.to_owned(), role: "coordinator".to_owned() });
    if let Some(prior) = prior {
        roles.push(RoleChange { session_id: prior, role: "agent".to_owned() });
    }
    Election { seeder_coordinates: true, roles }
}

/// The role that a list of changes gives to a session: that of the last change
/// that names it, or the one that it had.
pub open spec fn role_after(changes: Seq<RoleChange>, session: Seq<char>, role: Seq<char>) -> Seq<
    char,
>
    decreases changes.len(),
{
    if changes.len() == 0 {
        role
    } else if changes.last().session_id@ == session {
        changes.last().role@
    } else {
        role_after(changes.drop_last(), session, role)
    }
}

/// Whether two members differ in their role only.
pub open spec fn same_but_role<T>(a: SwarmMember<T>, b: SwarmMember<T>) -> bool {
    &&& a.swarm_id == b.swarm_id
    &&& a.friendly_name == b.friendly_name
    &&& a.is_headless == b.is_headless
    &&& a.event_tx == b.event_tx
}

/// Gives the members their new roles. A session that is no member is passed over.
pub fn apply_role_changes<T>(members: &mut StringMap<SwarmMember<T>>, changes: &Vec<RoleChange>)
    ensures
        final(members)@.dom() == old(members)@.dom(),
        forall|s: Seq<char>| #[trigger]
            old(members)@.contains_key(s) ==> same_but_role(final(members)@[s], old(members)@[s])
                && final(members)@[s].role@ == role_after(changes@, s, old(members)@[s].role@),
{
    let mut i: usize = 0;
    while i < changes.len()
        invariant
            i <= changes@.len(),
            members@.dom() == old(members)@.dom(),
            forall|s: Seq<char>| #[trigger]
                old(members)@.contains_key(s) ==> same_but_role(members@[s], old(members)@[s])
                    && members@[s].role@ == role_after(
                    changes@.take(i as int),
                    s,
                    old(members)@[s].role@,
                ),
        decreases changes@.len() - i,
    {
        let ghost before = members@;
        let ghost seen = changes@.take(i + 1);
        assert(seen.drop_last() == changes@.take(i as int));
        assert(seen.last() == changes@[i as int]);
        if let Some(member) = members.get_mut(changes[i].session_id.as_str()) {
            member.role = changes[i].role.clone();
        }
        assert(members@.dom() == before.dom());
        i += 1;
    }
    assert(changes@.take(i as int) == changes@);
}

// ---------------------------------------------------------------------------
// Plans
// ---------------------------------------------------------------------------

/// A swarm's plan. `I` is what the plan keeps of one task.
pub struct VersionedPlan<I> {
    pub mode: String,
    pub participants: Vec<String>,
    pub version: u64,
    pub items: Vec<I>,
}

/// Whether a mode, as it is written, means deep.
pub open spec fn means_deep(mode: Seq<char>) -> bool {
    text::lower_text(mode) == text::lower_text("deep"@)
}

/// Whether a mode is the word `deep` in some mixture of cases.
pub open spec fn spells_deep(mode: Seq<char>) -> bool {
    &&& mode.len() == 4
    &&& mode[0] == 'd' || mode[0] == 'D'
    &&& mode[1] == 'e' || mode[1] == 'E'
    &&& mode[2] == 'e' || mode[2] == 'E'
    &&& mode[3] == 'p' || mode[3] == 'P'
}

/// A mode means deep exactly where it is that word.
pub proof fn deep_is_a_word_in_any_case(mode: Seq<char>)
    ensures
        means_deep(mode) <==> spells_deep(mode),
{
    reveal_strlit("deep");
    let deep = "deep"@;
    let l = text::lower_text(mode);
    assert(text::lower_text(deep) == deep) by {
        assert forall|i: int| 0 <= i < 4 implies text::lower_text(deep)[i] == deep[i] by {
            assert(deep[i] == 'd' || deep[i] == 'e' || deep[i] == 'p');
        }
    }
    if means_deep(mode) {
        assert(l[0] == deep[0] && l[1] == deep[1] && l[2] == deep[2] && l[3] == deep[3]);
        assert(l[0] == text::lower_char(mode[0]) && l[1] == text::lower_char(mode[1]));
        assert(l[2] == text::lower_char(mode[2]) && l[3] == text::lower_char(mode[3]));
        lemma_lower_is(mode[0], 'd');
        lemma_lower_is(mode[1], 'e');
        lemma_lower_is(mode[2], 'e');
        lemma_lower_is(mode[3], 'p');
    }
    if spells_deep(mode) {
        assert(l == deep) by {
            assert(l[0] == 'd' && l[1] == 'e' && l[2] == 'e' && l[3] == 'p');
        }
    }
}

proof fn lemma_lower_is(c: char, l: char)
    requires
        text::lower_char(c) == l,
        'a' <= l <= 'z',
    ensures
        c == l || c as u32 + 32 == l as u32,
{
}

/// The mode of a seed request. An explicit mode always wins; otherwise a session
/// that runs at deep-swarm effort seeds a deep plan.
pub fn resolve_mode(mode: Option<String>, deep_effort: bool) -> (r: Option<String>)
    ensures
        match mode {
            Some(m) => r == Some(m),
            None => text::opt_view(r) == (if deep_effort {
                Some("deep"@)
            } else {
                None
            }),
        },
{
    match mode {
        Some(m) => Some(m),
        None => if deep_effort {
            Some("deep".to_owned())
        } else {
            None
        },
    }
}

/// The answer to a seed that would turn a deep plan into a light one.
pub const DOWNGRADE_REFUSED: &'static str = "Seed rejected: this swarm already has a non-empty deep-mode plan; seeding with mode=light would silently strip its gates and artifact validation. Omit `mode` to keep deep, or finish/clear the current plan first.";

/// Whether seeding a plan with the given mode would strip the rigor of tasks that
/// are in it.
pub open spec fn downgrades<I>(plan: VersionedPlan<I>, mode: Option<Seq<char>>) -> bool {
    mode is Some && means_deep(plan.mode@) && !means_deep(mode->0) && plan.items@.len() > 0
}

/// The participants after a session has joined: none occurs twice.
pub open spec fn with_participant(participants: Seq<Seq<char>>, session_id: Seq<char>) -> Seq<
    Seq<char>,
> {
    if participants.contains(session_id) {
        participants
    } else {
        participants.push(session_id)
    }
}

/// Prepares a plan for a seed: takes over the mode and the participant. A
/// non-empty deep plan refuses another mode, and is left as it is.
pub fn begin_seed<I>(
    plan: &mut VersionedPlan<I>,
    mode: Option<String>,
    session_id: &str,
) -> (r: Result<(), String>)
    ensures
        match r {
            Ok(()) => !downgrades(*old(plan), text::opt_view(mode)),
            Err(message) => downgrades(*old(plan), text::opt_view(mode)) && message@
                == DOWNGRADE_REFUSED@,
        },
        r is Err <==> {
            &&& mode is Some
            &&& old(plan).items@.len() > 0
            &&& spells_deep(old(plan).mode@)
            &&& !spells_deep(mode->0@)
        },
        r is Ok ==> {
            &&& final(plan).participants@.len() >= old(plan).participants@.len()
            &&& forall|i: int|
                0 <= i < old(plan).participants@.len() ==> (
                #[trigger] final(plan).participants@[i])@ == old(plan).participants@[i]@
            &&& exists|i: int|
                0 <= i < final(plan).participants@.len() && (
                #[trigger] final(plan).participants@[i])@ == session_id@
        },
        r is Err ==> *final(plan) == *old(plan),
        r is Ok ==> {
            &&& final(plan).items == old(plan).items
            &&& final(plan).version == old(plan).version
            &&& final(plan).mode == (match mode {
                Some(m) => m,
                None => old(plan).mode,
            })
            &&& text::views(final(plan).participants@) == with_participant(
                text::views(old(plan).participants@),
                session_id@,
            )
        },
{
    proof {
        deep_is_a_word_in_any_case(plan.mode@);
        if mode is Some {
            deep_is_a_word_in_any_case(mode->0@);
        }
    }
    let ghost joined = plan.participants@;
    if let Some(m) = mode {
        let downgrades_deep: bool = eq_ignore_case(plan.mode.as_str(), "deep") && !eq_ignore_case(
            m.as_str(),
            "deep",
        ) && plan.items.len() > 0;
        if downgrades_deep {
            return Err(DOWNGRADE_REFUSED.to_owned());
        }
        plan.mode = m;
    }
    if !list_contains(&plan.participants, session_id) {
        let ghost before = text::views(plan.participants@);
        plan.participants.push(session_id.to_owned());
        assert(text::views(plan.participants@) == before.push(session_id@));
        assert(plan.participants@[joined.len() as int]@ == session_id@);
    } else {
        proof {
            let all = text::views(joined);
            let i = choose|i: int| 0 <= i < all.len() && all[i] == session_id@;
            assert(plan.participants@[i]@ == session_id@);
        }
    }
    Ok(())
}

impl<I> VersionedPlan<I> {
    /// Counts a change of the plan.
    pub fn bump_version(&mut self)
        requires
            old(self).version < u64::MAX,
        ensures
            final(self).version == old(self).version + 1,
            final(self).mode == old(self).mode,
            final(self).participants == old(self).participants,
            final(self).items == old(self).items,
    {
        self.version = self.version + 1;
    }
}

// ---------------------------------------------------------------------------
// Nodes on the wire
// ---------------------------------------------------------------------------

/// A node as a request describes it. `P` is the type of a priority.
#[derive(Debug)]
pub struct TaskGraphNodeSpec<P> {
    pub id: String,
    pub content: String,
    pub kind: Option<String>,
    pub depends_on: Vec<String>,
    pub priority: P,
}

/// A node as the graph engine takes it.
#[derive(Debug)]
pub struct NodeSpec<P> {
    pub id: Option<String>,
    pub content: String,
    pub kind: NodeKind,
    pub depends_on: Vec<String>,
    pub priority: P,
}

/// A requested node for the engine, where `kind` is what the engine reads the
/// requested kind as.
pub fn spec_from_wire<P>(spec: TaskGraphNodeSpec<P>, kind: NodeKind) -> (r: NodeSpec<P>)
    ensures
        r.id == Some(spec.id),
        r.content == spec.content,
        r.kind == kind,
        r.depends_on == spec.depends_on,
        r.priority == spec.priority,
{
    NodeSpec {
        id: Some(spec.id),
        content: spec.content,
        kind,
        depends_on: spec.depends_on,
        priority: spec.priority,
    }
}

/// Whether a node may be claimed by an actor: it is queued, and unowned or already
/// assigned to the actor.
pub open spec fn claimable(nodes: Seq<TaskNode>, node_id: Seq<char>, actor: Seq<char>) -> bool {
    match task_graph::node_with_id(nodes, node_id) {
        Some(node) => node.status == NodeStatus::Queued && (node.owner is None || node.owner->0@
            == actor),
        None => false,
    }
}

/// Whether the node that a participant is about to change is to be dispatched to
/// it first.
///
/// Seeded nodes are unowned until dispatch, and a node that was assigned to a
/// client stays queued until the client touches it. Either may be claimed; a node
/// that someone else owns never is.
pub fn claim_queued_node_for_actor(graph: &TaskGraph, node_id: &str, actor: &str) -> (r: bool)
    ensures
        r == claimable(graph.nodes@, node_id@, actor@),
{
    match graph.get(node_id) {
        Some(node) => {
            if node.status != NodeStatus::Queued {
                return false;
            }
            match &node.owner {
                Some(owner) => text_eq(owner.as_str(), actor),
                None => true,
            }
        },
        None => false,
    }
}

// ---------------------------------------------------------------------------
// Requests
// ---------------------------------------------------------------------------

/// What a request does to the graph.
#[derive(Debug, Clone, Copy, PartialEq, Eq, Structural)]
pub enum GraphOp {
    /// Seeds, or re-seeds, the graph from a batch of nodes.
    Seed,
    /// Splits a node that the caller owns into children.
    Expand,
    /// Completes a node that the caller owns.
    Complete,
    /// Adds nodes from a gate that the caller owns.
    Inject,
}

/// What is said before the reason of a refusal.
pub open spec fn refusal_prefix(op: GraphOp) -> Seq<char> {
    match op {
        GraphOp::Seed => "Seed rejected: "@,
        GraphOp::Expand => "Expand rejected: "@,
        GraphOp::Complete => "Complete rejected: "@,
        GraphOp::Inject => "Inject rejected: "@,
    }
}

/// The reason under which a changed plan is broadcast.
pub open spec fn broadcast_reason(op: GraphOp) -> Seq<char> {
    match op {
        GraphOp::Seed => "task_graph_seed"@,
        GraphOp::Expand => "task_graph_expand"@,
        GraphOp::Complete => "task_graph_complete"@,
        GraphOp::Inject => "task_graph_inject_gap"@,
    }
}

impl GraphOp {
    fn refuse(self, why: &str) -> (r: String)
        ensures
            r@ == refusal_prefix(self) + why@,
    {
        let prefix: &str = match self {
            GraphOp::Seed => "Seed rejected: ",
            GraphOp::Expand => "Expand rejected: ",
            GraphOp::Complete => "Complete rejected: ",
            GraphOp::Inject => "Inject rejected: ",
        };
        prefix.to_owned().concat(why)
    }

    fn reason(self) -> (r: String)
        ensures
            r@ == broadcast_reason(self),
    {
        let reason: &str = match self {
            GraphOp::Seed => "task_graph_seed",
            GraphOp::Expand => "task_graph_expand",
            GraphOp::Complete => "task_graph_complete",
            GraphOp::Inject => "task_graph_inject_gap",
        };
        reason.to_owned()
    }
}

/// What a request waits for.
#[derive(Debug, Clone, Copy, PartialEq, Eq, Structural)]
pub enum Stage {
    /// The swarm of the session.
    Swarm,
    /// The election of the seeder.
    Coordinator,
    /// The artifact of a completed node.
    Artifact,
    /// The plan of the swarm.
    Plan,
    /// The graph engine.
    Engine,
    /// Nothing: the request is answered.
    Closed,
}

/// How far a stage is from the start.
pub open spec fn rank(stage: Stage) -> int {
    match stage {
        Stage::Swarm => 0,
        Stage::Coordinator => 1,
        Stage::Artifact => 1,
        Stage::Plan => 2,
        Stage::Engine => 3,
        Stage::Closed => 4,
    }
}

/// A graph before and after the engine has run.
#[derive(Debug)]
pub struct GraphChange {
    pub before: TaskGraph,
    pub after: TaskGraph,
    /// Whether the engine's two graphs differ in anything.
    pub changed: bool,
}

/// What happened outside.
#[derive(Debug)]
pub enum GraphEvent {
    /// The swarm that the session is in, if any.
    SwarmFound(Option<String>),
    /// The election is over.
    CoordinatorSettled,
    /// The artifact was read, or why it was not.
    ArtifactParsed(Result<(), String>),
    /// The swarm has no plan.
    PlanMissing,
    /// The plan refuses the seed.
    SeedRefused(String),
    /// The plan is open for the engine.
    PlanReady,
    /// The engine made the change, or why it did not.
    EngineRan(Result<GraphChange, String>),
}

/// What is to be done next.
#[derive(Debug)]
pub enum GraphAction {
    /// Elect the seeder coordinator, if nobody else coordinates.
    SettleCoordinator,
    /// Read the artifact.
    ParseArtifact,
    /// Open the plan of the swarm; for a seed, create it if there is none.
    OpenPlan,
    /// Claim the node if it may be claimed, and run the engine.
    RunEngine,
    /// Write the changed graph into the plan, count the change, and finalize.
    Commit,
    /// Finalize: there is nothing to write.
    Acknowledge,
    /// Answer with an error.
    Refuse { message: String },
}

/// A request that is being served.
#[derive(Debug)]
pub struct GraphRequest {
    pub op: GraphOp,
    pub id: u64,
    pub session_id: String,
    /// The number of nodes that the request brings.
    pub node_count: usize,
    pub swarm_id: Option<String>,
    pub stage: Stage,
}

/// Whether an event can happen to a request at its stage.
pub open spec fn fits(req: GraphRequest, event: GraphEvent) -> bool {
    match event {
        GraphEvent::SwarmFound(_) => req.stage == Stage::Swarm,
        GraphEvent::CoordinatorSettled => req.stage == Stage::Coordinator,
        GraphEvent::ArtifactParsed(_) => req.stage == Stage::Artifact,
        GraphEvent::PlanMissing => req.stage == Stage::Plan && req.op != GraphOp::Seed,
        GraphEvent::SeedRefused(_) => req.stage == Stage::Plan && req.op == GraphOp::Seed,
        GraphEvent::PlanReady => req.stage == Stage::Plan,
        GraphEvent::EngineRan(change) => req.stage == Stage::Engine && (change matches Ok(c)
            ==> graph_growth::countable(c.after)),
    }
}

/// The error with which an event ends a request, if it does.
pub open spec fn refusal(
    req: GraphRequest,
    event: GraphEvent,
    cfg: GraphGrowthConfig,
    ceiling: usize,
) -> Option<Seq<char>> {
    match event {
        GraphEvent::SwarmFound(None) => Some("Not in a swarm."@),
        GraphEvent::ArtifactParsed(Err(e)) => Some("Invalid artifact JSON: "@ + e@),
        GraphEvent::PlanMissing => Some("No plan for this swarm."@),
        GraphEvent::SeedRefused(message) => Some(message@),
        GraphEvent::EngineRan(Err(e)) => Some(refusal_prefix(req.op) + e@),
        GraphEvent::EngineRan(Ok(change)) => if req.op == GraphOp::Complete {
            None
        } else {
            match graph_growth::growth_error_text(
                change.before,
                change.after,
                req.node_count,
                req.op == GraphOp::Seed,
                cfg,
                ceiling,
            ) {
                Some(e) => Some(refusal_prefix(req.op) + e),
                None => None,
            }
        },
        _ => None,
    }
}

/// The stage behind an event that does not refuse the request.
pub open spec fn next_stage(req: GraphRequest, event: GraphEvent) -> Stage {
    match event {
        GraphEvent::SwarmFound(_) => match req.op {
            GraphOp::Seed => Stage::Coordinator,
            GraphOp::Complete => Stage::Artifact,
            GraphOp::Expand | GraphOp::Inject => Stage::Plan,
        },
        GraphEvent::CoordinatorSettled => Stage::Plan,
        GraphEvent::ArtifactParsed(_) => Stage::Plan,
        GraphEvent::PlanReady => Stage::Engine,
        _ => Stage::Closed,
    }
}

/// Whether an action is the one to take on entering a stage, where `event` led
/// there without a refusal.
pub open spec fn action_fits(action: GraphAction, req: GraphRequest, event: GraphEvent) -> bool {
    match next_stage(req, event) {
        Stage::Coordinator => action is SettleCoordinator,
        Stage::Artifact => action is ParseArtifact,
        Stage::Plan => action is OpenPlan,
        Stage::Engine => action is RunEngine,
        _ => match event {
            GraphEvent::EngineRan(Ok(change)) => if req.op == GraphOp::Seed && !change.changed {
                action is Acknowledge
            } else {
                action is Commit
            },
            _ => false,
        },
    }
}

/// Whether an action answers with an error in the given words.
pub open spec fn is_refusal(action: GraphAction, message: Seq<char>) -> bool {
    action is Refuse && action->message@ == message
}

/// What an engine's change keeps to where it is not refused.
proof fn lemma_admitted(
    req: GraphRequest,
    change: GraphChange,
    cfg: GraphGrowthConfig,
    ceiling: usize,
)
    requires
        graph_growth::countable(change.after),
        req.op != GraphOp::Complete,
        refusal(req, GraphEvent::EngineRan(Ok(change)), cfg, ceiling) is None,
    ensures
        change.after.nodes@.len() <= ceiling,
        change.after.nodes@.len() <= cfg.hard_limit,
        req.op != GraphOp::Seed && change.after.mode == task_graph::Mode::Deep ==> {
            let nodes = change.after.nodes@;
            &&& req.node_count <= cfg.max_fanout
            &&& forall|k: int|
                0 <= k < nodes.len() ==> graph_growth::depth_of(nodes, (#[trigger] nodes[k]).id@)
                    <= cfg.max_depth
            &&& nodes.len() <= cfg.soft_limit + graph_growth::credits(nodes)
        },
{
    graph_growth::hard_limits_always_hold(
        change.before,
        change.after,
        req.node_count,
        req.op == GraphOp::Seed,
        cfg,
        ceiling,
    );
    if req.op != GraphOp::Seed && change.after.mode == task_graph::Mode::Deep {
        graph_growth::recursive_growth_must_be_earned(
            change.before,
            change.after,
            req.node_count,
            cfg,
            ceiling,
        );
        graph_growth::the_deepest_is_a_bound_that_is_reached(
            change.after.nodes@,
            change.after.nodes@.len(),
        );
    }
}

/// Whether an action ends a request.
pub open spec fn is_final(action: GraphAction) -> bool {
    action is Commit || action is Acknowledge || action is Refuse
}

impl GraphRequest {
    /// A request at its start.
    pub fn new(op: GraphOp, id: u64, session_id: &str, node_count: usize) -> (r: Self)
        ensures
            r.op == op,
            r.id == id,
            r.session_id@ == session_id@,
            r.node_count == node_count,
            r.swarm_id is None,
            r.stage == Stage::Swarm,
    {
        GraphRequest {
            op,
            id,
            session_id: session_id.to_owned(),
            node_count,
            swarm_id: None,
            stage: Stage::Swarm,
        }
    }

    /// Whether the request knows its swarm as soon as it is past the first stage,
    /// unless it was refused.
    pub open spec fn wf(self) -> bool {
        self.stage != Stage::Swarm && self.stage != Stage::Closed ==> self.swarm_id is Some
    }

    /// Takes in an event, and says what is to be done next.
    ///
    /// Each step leads to a later stage; the request is closed exactly when the
    /// action is final, so it is answered once.
    pub fn advance(&mut self, event: GraphEvent, cfg: GraphGrowthConfig, ceiling: usize) -> (r:
        GraphAction)
        requires
            fits(*old(self), event),
            old(self).wf(),
        ensures
            final(self).wf(),
            final(self).op == old(self).op,
            final(self).id == old(self).id,
            final(self).session_id == old(self).session_id,
            final(self).node_count == old(self).node_count,
            final(self).swarm_id == (match event {
                GraphEvent::SwarmFound(found) => found,
                _ => old(self).swarm_id,
            }),
            match refusal(*old(self), event, cfg, ceiling) {
                Some(message) => {
                    &&& final(self).stage == Stage::Closed
                    &&& r matches GraphAction::Refuse { message: m } && m@ == message
                },
                None => {
                    &&& final(self).stage == next_stage(*old(self), event)
                    &&& action_fits(r, *old(self), event)
                },
            },
            rank(final(self).stage) > rank(old(self).stage),
            final(self).stage == Stage::Closed <==> is_final(r),
            r is Commit || r is Acknowledge ==> final(self).swarm_id is Some,
            event is SwarmFound && event->SwarmFound_0 is None ==> is_refusal(
                r,
                "Not in a swarm."@,
            ),
            event is SwarmFound && event->SwarmFound_0 is Some ==> match old(self).op {
                GraphOp::Seed => r is SettleCoordinator,
                GraphOp::Complete => r is ParseArtifact,
                GraphOp::Expand => r is OpenPlan,
                GraphOp::Inject => r is OpenPlan,
            },
            event is CoordinatorSettled ==> r is OpenPlan,
            event is ArtifactParsed && event->ArtifactParsed_0 is Ok ==> r is OpenPlan,
            event is ArtifactParsed && event->ArtifactParsed_0 is Err ==> is_refusal(
                r,
                "Invalid artifact JSON: "@ + event->ArtifactParsed_0->Err_0@,
            ),
            event is PlanMissing ==> is_refusal(r, "No plan for this swarm."@),
            event is SeedRefused ==> is_refusal(r, event->SeedRefused_0@),
            event is PlanReady ==> r is RunEngine,
            event is EngineRan && event->EngineRan_0 is Err ==> r is Refuse,
            event is EngineRan && event->EngineRan_0 is Ok && old(self).op == GraphOp::Complete
                ==> r is Commit,
            event is EngineRan && event->EngineRan_0 is Ok && !(r is Refuse) && old(self).op
                != GraphOp::Complete ==> {
                let change = event->EngineRan_0->Ok_0;
                let nodes = change.after.nodes@;
                &&& nodes.len() <= ceiling
                &&& nodes.len() <= cfg.hard_limit
                &&& old(self).op != GraphOp::Seed && change.after.mode == task_graph::Mode::Deep
                    ==> {
                    &&& old(self).node_count <= cfg.max_fanout
                    &&& forall|k: int|
                        0 <= k < nodes.len() ==> graph_growth::depth_of(
                            nodes,
                            (#[trigger] nodes[k]).id@,
                        ) <= cfg.max_depth
                    &&& nodes.len() <= cfg.soft_limit + graph_growth::credits(nodes)
                }
                &&& old(self).op == GraphOp::Seed && !change.changed ==> r is Acknowledge
                &&& old(self).op != GraphOp::Seed || change.changed ==> r is Commit
            },
    {
        match event {
            GraphEvent::SwarmFound(None) => {
                self.stage = Stage::Closed;
                self.swarm_id = None;
                GraphAction::Refuse { message: "Not in a swarm.".to_owned() }
            },
            GraphEvent::SwarmFound(Some(swarm_id)) => {
                self.swarm_id = Some(swarm_id);
                match self.op {
                    GraphOp::Seed => {
                        self.stage = Stage::Coordinator;
                        GraphAction::SettleCoordinator
                    },
                    GraphOp::Complete => {
                        self.stage = Stage::Artifact;
                        GraphAction::ParseArtifact
                    },
                    GraphOp::Expand | GraphOp::Inject => {
                        self.stage = Stage::Plan;
                        GraphAction::OpenPlan
                    },
                }
            },
            GraphEvent::CoordinatorSettled => {
                self.stage = Stage::Plan;
                GraphAction::OpenPlan
            },
            GraphEvent::ArtifactParsed(Ok(())) => {
                self.stage = Stage::Plan;
                GraphAction::OpenPlan
            },
            GraphEvent::ArtifactParsed(Err(e)) => {
                self.stage = Stage::Closed;
                GraphAction::Refuse {
                    message: "Invalid artifact JSON: ".to_owned().concat(e.as_str()),
                }
            },
            GraphEvent::PlanMissing => {
                self.stage = Stage::Closed;
                GraphAction::Refuse { message: "No plan for this swarm.".to_owned() }
            },
            GraphEvent::SeedRefused(message) => {
                self.stage = Stage::Closed;
                GraphAction::Refuse { message }
            },
            GraphEvent::PlanReady => {
                self.stage = Stage::Engine;
                GraphAction::RunEngine
            },
            GraphEvent::EngineRan(Err(e)) => {
                self.stage = Stage::Closed;
                GraphAction::Refuse { message: self.op.refuse(e.as_str()) }
            },
            GraphEvent::EngineRan(Ok(change)) => {
                proof {
                    if self.op != GraphOp::Complete && refusal(
                        *old(self),
                        event,
                        cfg,
                        ceiling,
                    ) is None {
                        lemma_admitted(*old(self), change, cfg, ceiling);
                    }
                }
                self.stage = Stage::Closed;
                let is_seed: bool = self.op == GraphOp::Seed;
                if self.op != GraphOp::Complete {
                    let error: Option<String> = graph_growth_error(
                        &change.before,
                        &change.after,
                        self.node_count,
                        is_seed,
                        cfg,
                        ceiling,
                    );
                    if let Some(e) = error {
                        return GraphAction::Refuse { message: self.op.refuse(e.as_str()) };
                    }
                }
                if is_seed && !change.changed {
                    GraphAction::Acknowledge
                } else {
                    GraphAction::Commit
                }
            },
        }
    }

    /// The number of items that a finished request reports.
    pub open spec fn reported_items(self) -> usize {
        if self.op == GraphOp::Complete {
            1
        } else {
            self.node_count
        }
    }

    /// What follows an accepted request, in order: persist the swarm, broadcast its
    /// plan, record the update, and acknowledge to the client.
    pub fn finalize(&self, session_name: Option<String>) -> (r: Vec<SwarmEffect>)
        requires
            self.swarm_id is Some,
        ensures
            r@.len() == 4,
            r@[0] matches SwarmEffect::Persist { swarm_id } && swarm_id@ == self.swarm_id->0@,
            r@[1] matches SwarmEffect::Broadcast { swarm_id, reason } && swarm_id@
                == self.swarm_id->0@ && reason@ == broadcast_reason(self.op),
            r@[2] matches SwarmEffect::RecordPlanUpdate {
                session_id,
                session_name: name,
                swarm_id,
                item_count,
            } && session_id@ == self.session_id@ && name == session_name && swarm_id@
                == self.swarm_id->0@ && item_count == self.reported_items(),
            r@[3] matches SwarmEffect::Done { id } && id == self.id,
    {
        let swarm_id: String = match &self.swarm_id {
            Some(s) => s.clone(),
            None => String::new(),
        };
        let item_count: usize = if self.op == GraphOp::Complete {
            1
        } else {
            self.node_count
        };
        let mut out: Vec<SwarmEffect> = Vec::new();
        out.push(SwarmEffect::Persist { swarm_id: swarm_id.clone() });
        out.push(
            SwarmEffect::Broadcast { swarm_id: swarm_id.clone(), reason: self.op.reason() },
        );
        out.push(
            SwarmEffect::RecordPlanUpdate {
                session_id: self.session_id.clone(),
                session_name,
                swarm_id,
                item_count,
            },
        );
        out.push(SwarmEffect::Done { id: self.id });
        out
    }

    /// The error that answers a refused request.
    pub fn err(&self, message: String) -> (r: SwarmEffect)
        ensures
            r == (SwarmEffect::Error { id: self.id, message, retry_after_secs: None }),
    {
        SwarmEffect::Error { id: self.id, message, retry_after_secs: None }
    }
}

/// Something that goes out on behalf of a request.
#[derive(Debug)]
pub enum SwarmEffect {
    /// Write the state of the swarm to disk.
    Persist { swarm_id: String },
    /// Send the plan of the swarm to its members.
    Broadcast { swarm_id: String, reason: String },
    /// Add a plan update to the event history.
    RecordPlanUpdate {
        session_id: String,
        session_name: Option<String>,
        swarm_id: String,
        item_count: usize,
    },
    /// Tell the client that the request is done.
    Done { id: u64 },
    /// Tell the client that the request failed.
    Error { id: u64, message: String, retry_after_secs: Option<u64> },
}

/// Counts the change in the plan's version where a request is committed. A request that
/// is acknowledged, refused or still being served leaves the plan as it is.
pub fn settle_plan<I>(plan: &mut VersionedPlan<I>, action: &GraphAction)
    requires
        action is Commit ==> old(plan).version < u64::MAX,
    ensures
        if action is Commit {
            &&& final(plan).version == old(plan).version + 1
            &&& final(plan).mode == old(plan).mode
            &&& final(plan).participants == old(plan).participants
            &&& final(plan).items == old(plan).items
        } else {
            *final(plan) == *old(plan)
        },
{
    if let GraphAction::Commit = action {
        plan.bump_version();
    }
}

// ---------------------------------------------------------------------------
// Laws
// ---------------------------------------------------------------------------

/// A live coordinator that still coordinates is never displaced, and neither is
/// one that came in after the liveness check.
pub proof fn no_unchecked_coordinator_is_displaced(
    coordinators: Map<Seq<char>, String>,
    swarm_id: Seq<char>,
    seeder: Seq<char>,
    observed: Option<Seq<char>>,
    observed_is_live: bool,
)
    requires
        observed_is_live || coordinator_of(coordinators, swarm_id) != observed,
    ensures
        !takes_over(coordinators, swarm_id, seeder, observed, observed_is_live),
{
}

/// A deep plan with tasks in it is still deep after every seed that it accepts.
pub proof fn deep_plans_stay_deep<I>(
    before: VersionedPlan<I>,
    after: VersionedPlan<I>,
    mode: Option<String>,
)
    requires
        means_deep(before.mode@),
        before.items@.len() > 0,
        !downgrades(before, text::opt_view(mode)),
        after.mode == (match mode {
            Some(m) => m,
            None => before.mode,
        }),
    ensures
        means_deep(after.mode@),
{
}

/// No participant is listed twice: a session that joins again changes nothing.
pub proof fn participants_stay_distinct(participants: Seq<Seq<char>>, session_id: Seq<char>)
    requires
        participants.no_duplicates(),
    ensures
        with_participant(participants, session_id).no_duplicates(),
        with_participant(participants, session_id).contains(session_id),
        with_participant(with_participant(participants, session_id), session_id)
            == with_participant(participants, session_id),
{
    let after = with_participant(participants, session_id);
    if !participants.contains(session_id) {
        assert(after[participants.len() as int] == session_id);
    }
}

/// A node that another session owns is never claimed.
pub proof fn owned_nodes_are_never_claimed(
    nodes: Seq<TaskNode>,
    node_id: Seq<char>,
    actor: Seq<char>,
    node: TaskNode,
)
    requires
        task_graph::node_with_id(nodes, node_id) == Some(node),
        node.owner is Some,
        node.owner->0@ != actor,
    ensures
        !claimable(nodes, node_id, actor),
{
}

/// Completing a node is never held back by the growth policy: only the engine
/// refuses it.
pub proof fn completion_is_not_throttled(
    req: GraphRequest,
    change: GraphChange,
    cfg: GraphGrowthConfig,
    ceiling: usize,
)
    requires
        req.op == GraphOp::Complete,
    ensures
        refusal(req, GraphEvent::EngineRan(Ok(change)), cfg, ceiling) is None,
{
}

/// A plan refuses a seed only where it has tasks, is deep, and the seed names a mode that
/// is not. A seed that names no mode, or the deep one, is accepted by every plan, and so
/// is every mode by a plan that is not deep or has no tasks.
pub proof fn only_a_downgrade_is_refused<I>(plan: VersionedPlan<I>, mode: Option<Seq<char>>)
    ensures
        mode is None ==> !downgrades(plan, mode),
        mode is Some && spells_deep(mode->0) ==> !downgrades(plan, mode),
        !spells_deep(plan.mode@) ==> !downgrades(plan, mode),
        plan.items@.len() == 0 ==> !downgrades(plan, mode),
        mode is Some && !spells_deep(mode->0) && spells_deep(plan.mode@) && plan.items@.len() > 0
            ==> downgrades(plan, mode),
{
    deep_is_a_word_in_any_case(plan.mode@);
    if mode is Some {
        deep_is_a_word_in_any_case(mode->0);
    }
}

/// Whoever joins stands behind those who joined before, who stay in their order; one who
/// had joined changes nothing.
pub proof fn whoever_joins_comes_last(participants: Seq<Seq<char>>, session_id: Seq<char>, i: int)
    ensures
        0 <= i < participants.len() ==> with_participant(participants, session_id)[i]
            == participants[i],
        0 <= i < participants.len() && participants[i] == session_id ==> with_participant(
            participants,
            session_id,
        ).len() == participants.len(),
        (forall|k: int| 0 <= k < participants.len() ==> participants[k] != session_id)
            ==> with_participant(participants, session_id).len() == participants.len() + 1
            && with_participant(participants, session_id)[participants.len() as int] == session_id,
{
}

/// A request that brings nodes is answered by the growth policy on what it brings: with
/// the number of its own nodes, as a seed where it is one. It is refused exactly where the
/// policy objects, in the policy's words.
pub proof fn growth_is_asked_for_as_requested(
    req: GraphRequest,
    change: GraphChange,
    cfg: GraphGrowthConfig,
    ceiling: usize,
    objection: Option<String>,
)
    requires
        req.op != GraphOp::Complete,
        call_ensures(
            graph_growth_error,
            (&change.before, &change.after, req.node_count, req.op == GraphOp::Seed, cfg, ceiling),
            objection,
        ),
    ensures
        ({
            let answer = refusal(req, GraphEvent::EngineRan(Ok(change)), cfg, ceiling);
            &&& answer is Some <==> objection is Some
            &&& answer is Some ==> answer->0 == (match req.op {
                GraphOp::Seed => "Seed rejected: "@,
                GraphOp::Expand => "Expand rejected: "@,
                GraphOp::Inject => "Inject rejected: "@,
                GraphOp::Complete => "Complete rejected: "@,
            }) + objection->0@
        }),
{
}

/// What a deep plan grows by, other than by a seed, keeps to the fan-out by the number of
/// nodes that are asked for, to the depth, and to what was earned; else the request is
/// refused.
pub proof fn deep_growth_keeps_to_its_limits(
    req: GraphRequest,
    change: GraphChange,
    cfg: GraphGrowthConfig,
    ceiling: usize,
    k: int,
)
    requires
        req.op == GraphOp::Expand || req.op == GraphOp::Inject,
        change.after.mode == task_graph::Mode::Deep,
        graph_growth::countable(change.after),
        0 <= k < change.after.nodes@.len(),
        req.node_count > cfg.max_fanout || graph_growth::depth_of(
            change.after.nodes@,
            change.after.nodes@[k].id@,
        ) > cfg.max_depth || change.after.nodes@.len() > cfg.soft_limit + graph_growth::credits(
            change.after.nodes@,
        ) || change.after.nodes@.len() > cfg.hard_limit || change.after.nodes@.len() > ceiling,
    ensures
        refusal(req, GraphEvent::EngineRan(Ok(change)), cfg, ceiling) is Some,
{
    if refusal(req, GraphEvent::EngineRan(Ok(change)), cfg, ceiling) is None {
        lemma_admitted(req, change, cfg, ceiling);
    }
}

/// What the engine, the reader of artifacts or the plan objects to is said to the client,
/// behind the name of what was refused.
pub proof fn refusals_say_why(
    req: GraphRequest,
    why: String,
    change: GraphChange,
    cfg: GraphGrowthConfig,
    ceiling: usize,
)
    ensures
        refusal(req, GraphEvent::EngineRan(Err(why)), cfg, ceiling) == Some(
            (match req.op {
                GraphOp::Seed => "Seed rejected: "@,
                GraphOp::Expand => "Expand rejected: "@,
                GraphOp::Inject => "Inject rejected: "@,
                GraphOp::Complete => "Complete rejected: "@,
            }) + why@,
        ),
        refusal(req, GraphEvent::ArtifactParsed(Err(why)), cfg, ceiling) == Some(
            "Invalid artifact JSON: "@ + why@,
        ),
        refusal(req, GraphEvent::SeedRefused(why), cfg, ceiling) == Some(why@),
        refusal(req, GraphEvent::PlanMissing, cfg, ceiling) == Some("No plan for this swarm."@),
        refusal(req, GraphEvent::SwarmFound(None), cfg, ceiling) == Some("Not in a swarm."@),
        refusal(req, GraphEvent::SwarmFound(Some(why)), cfg, ceiling) is None,
        refusal(req, GraphEvent::CoordinatorSettled, cfg, ceiling) is None,
        refusal(req, GraphEvent::ArtifactParsed(Ok(())), cfg, ceiling) is None,
        refusal(req, GraphEvent::PlanReady, cfg, ceiling) is None,
{
}

/// Every request finds its swarm first and runs the engine last. A seed settles the
/// coordinator before the plan is opened, a completion reads its artifact.
pub proof fn requests_take_their_path(req: GraphRequest, swarm: String, change: GraphChange)
    ensures
        req.op == GraphOp::Seed ==> next_stage(req, GraphEvent::SwarmFound(Some(swarm)))
            == Stage::Coordinator,
        req.op == GraphOp::Complete ==> next_stage(req, GraphEvent::SwarmFound(Some(swarm)))
            == Stage::Artifact,
        req.op == GraphOp::Expand || req.op == GraphOp::Inject ==> next_stage(
            req,
            GraphEvent::SwarmFound(Some(swarm)),
        ) == Stage::Plan,
        next_stage(req, GraphEvent::CoordinatorSettled) == Stage::Plan,
        next_stage(req, GraphEvent::ArtifactParsed(Ok(()))) == Stage::Plan,
        next_stage(req, GraphEvent::PlanReady) == Stage::Engine,
        next_stage(req, GraphEvent::EngineRan(Ok(change))) == Stage::Closed,
{
}

/// What follows an accepted request names the swarm, the session, what was done, and how
/// many items it brought: one for a completion.
pub proof fn what_follows_names_the_request(
    req: &GraphRequest,
    session_name: Option<String>,
    r: Vec<SwarmEffect>,
)
    requires
        req.swarm_id is Some,
        call_ensures(GraphRequest::finalize, (req, session_name), r),
    ensures
        r@.len() == 4,
        r@[0] is Persist && r@[0]->Persist_swarm_id@ == req.swarm_id->0@,
        r@[1] is Broadcast && r@[1]->Broadcast_swarm_id@ == req.swarm_id->0@
            && r@[1]->Broadcast_reason@ == (match req.op {
            GraphOp::Seed => "task_graph_seed"@,
            GraphOp::Expand => "task_graph_expand"@,
            GraphOp::Complete => "task_graph_complete"@,
            GraphOp::Inject => "task_graph_inject_gap"@,
        }),
        r@[2] is RecordPlanUpdate && r@[2]->RecordPlanUpdate_session_id@ == req.session_id@
            && r@[2]->RecordPlanUpdate_session_name == session_name
            && r@[2]->RecordPlanUpdate_swarm_id@ == req.swarm_id->0@,
        req.op == GraphOp::Complete ==> r@[2]->RecordPlanUpdate_item_count == 1,
        req.op != GraphOp::Complete ==> r@[2]->RecordPlanUpdate_item_count == req.node_count,
        r@[3] is Done && r@[3]->Done_id == req.id,
{
}

/// A session that seeds takes over where it does not coordinate already, the coordinator
/// that was looked at is not live, and nobody else came in since; in particular where
/// there is none.
pub proof fn a_swarm_without_a_live_coordinator_gets_the_seeder(
    coordinators: Map<Seq<char>, String>,
    swarm_id: Seq<char>,
    seeder: Seq<char>,
)
    ensures
        !coordinators.contains_key(swarm_id) ==> takes_over(
            coordinators,
            swarm_id,
            seeder,
            None,
            false,
        ),
        coordinators.contains_key(swarm_id) && coordinators[swarm_id]@ != seeder ==> takes_over(
            coordinators,
            swarm_id,
            seeder,
            Some(coordinators[swarm_id]@),
            false,
        ),
        coordinators.contains_key(swarm_id) ==> !takes_over(
            coordinators,
            swarm_id,
            seeder,
            None,
            false,
        ) && coordinator_of(coordinators, swarm_id) == Some(coordinators[swarm_id]@),
        !coordinators.contains_key(swarm_id) ==> coordinator_of(coordinators, swarm_id) is None,
        !takes_over(coordinators, swarm_id, seeder, Some(seeder), false),
{
}

/// The last change that names a session gives it its role; one that names another leaves
/// it.
pub proof fn the_last_change_gives_the_role(
    changes: Seq<RoleChange>,
    change: RoleChange,
    session: Seq<char>,
    role: Seq<char>,
)
    ensures
        role_after(Seq::empty(), session, role) == role,
        change.session_id@ == session ==> role_after(changes.push(change), session, role)
            == change.role@,
        change.session_id@ != session ==> role_after(changes.push(change), session, role)
            == role_after(changes, session, role),
{
    assert(changes.push(change).drop_last() == changes);
}

/// A node is claimed where it waits to be dispatched, and nobody has it or the actor
/// itself does; a node that is not in the graph never is.
pub proof fn a_waiting_node_is_claimed(
    graph: &TaskGraph,
    node_id: &str,
    actor: &str,
    i: int,
    r: bool,
)
    requires
        call_ensures(claim_queued_node_for_actor, (graph, node_id, actor), r),
    ensures
        task_graph::is_first_with_id(graph.nodes@, i, node_id@) ==> (r <==> {
            let node = graph.nodes@[i];
            node.status == NodeStatus::Queued && (node.owner is None || node.owner->0@ == actor@)
        }),
        (forall|k: int| 0 <= k < graph.nodes@.len() ==> (#[trigger] graph.nodes@[k]).id@ != node_id@)
            ==> !r,
{
    task_graph::an_id_names_the_first_that_has_it(graph.nodes@, node_id@, i);
}

/// A change of role changes nothing else of a member.
pub proof fn a_role_is_all_that_changes<T>(a: SwarmMember<T>, b: SwarmMember<T>)
    requires
        same_but_role(a, b),
    ensures
        a.swarm_id == b.swarm_id,
        a.friendly_name == b.friendly_name,
        a.is_headless == b.is_headless,
        a.event_tx == b.event_tx,
{
}

} // verus!
