use jcode::session_status::{
    clear_session_ui_status, idle_state_from_todos, prune_backup, prune_session, prune_step,
    publish, read_session_ui_status, recorded_owner, session_status_dir, status_path,
    write_session_ui_status, PruneStep, SessionUiState, SessionUiStatus, StatusHost, StatusWrite,
    TurnStatusGuard,
};
use std::collections::HashMap;
use std::path::{Path, PathBuf};

/// Files in memory. Paths that differ by `.` alone are one.
#[derive(Default)]
struct Disk {
    statuses: HashMap<PathBuf, SessionUiStatus>,
    others: Vec<PathBuf>,
}

impl Disk {
    fn write(&mut self, w: Option<StatusWrite>) {
        if let Some(w) = w {
            self.statuses.insert(PathBuf::from(w.path), w.status);
        }
    }

    fn read(&self, id: &str) -> Option<SessionUiStatus> {
        read_session_ui_status(Some("/home/u/.jcode"), id, |path: &str| {
            self.statuses.get(Path::new(path)).cloned()
        })
    }

    fn state(&self, id: &str) -> Option<SessionUiState> {
        self.read(id).map(|s| s.state)
    }

    fn holds(&self, path: &str) -> bool {
        self.statuses.contains_key(Path::new(path)) || self.others.iter().any(|p| p == Path::new(path))
    }

    fn remove(&mut self, paths: Vec<String>) {
        for path in paths {
            let path = Path::new(&path);
            self.statuses.remove(path);
            self.others.retain(|p| p != path);
        }
    }

    fn prune(&mut self, names: &[String], active: &HashMap<&str, &str>) {
        let jcode_dir = Some("/home/u/.jcode");
        let dir = session_status_dir(jcode_dir).expect("dir");
        for name in names {
            match prune_step(&dir, Some(name)) {
                PruneStep::AskOwner { session_id } => {
                    let owner = recorded_owner(active.get(session_id.as_str()).copied());
                    let runs = owner.map(|pid| pid == 4242);
                    self.remove(prune_session(jcode_dir, &session_id, runs));
                }
                PruneStep::AskPrimary { primary, backup } => {
                    let there = self.holds(&primary);
                    if let Some(path) = prune_backup(backup, there) {
                        self.remove(vec![path]);
                    }
                }
                PruneStep::Keep => {}
            }
        }
    }

    fn sorted_names(&self) -> Vec<String> {
        let mut names = self.names();
        names.sort();
        names
    }

    fn names(&self) -> Vec<String> {
        self.statuses
            .keys()
            .chain(self.others.iter())
            .map(|p| p.file_name().unwrap().to_str().unwrap().to_string())
            .collect()
    }
}

fn host() -> StatusHost {
    StatusHost {
        jcode_dir: Some("/home/u/.jcode".to_string()),
        pid: 4242,
        since_epoch_ms: Some(1_700_000_000_123),
    }
}

fn statuses(list: &[&str]) -> Vec<String> {
    list.iter().map(|s| s.to_string()).collect()
}

#[test]
fn turn_guard_publishes_running_then_idle() {
    let mut disk = Disk::default();
    let id = "session_status_guard_1_aa";
    {
        let (turn, started) = TurnStatusGuard::new(&host(), id.to_string(), None);
        disk.write(started);
        assert_eq!(disk.state(id), Some(SessionUiState::Running));
        disk.write(turn.finish(&host(), None, None));
    }
    // No todos: idle resolves to finished (nothing pending, not red).
    assert_eq!(disk.state(id), Some(SessionUiState::Finished));

    // Incomplete plan: idle resolves to waiting.
    let todos = statuses(&["in_progress"]);
    {
        let (turn, started) = TurnStatusGuard::new(&host(), id.to_string(), None);
        disk.write(started);
        disk.write(turn.finish(&host(), Some(&todos), None));
    }
    assert_eq!(disk.state(id), Some(SessionUiState::Waiting));

    // Completed plan: idle resolves to finished.
    let todos = statuses(&["completed"]);
    {
        let (turn, started) = TurnStatusGuard::new(&host(), id.to_string(), None);
        disk.write(started);
        disk.write(turn.finish(&host(), Some(&todos), None));
    }
    assert_eq!(disk.state(id), Some(SessionUiState::Finished));
}

#[test]
fn write_read_clear_roundtrip() {
    let mut disk = Disk::default();
    assert!(disk.read("session_x").is_none());
    disk.write(write_session_ui_status(
        &host(),
        "session_x",
        SessionUiState::Running,
        Some("~/git/demo".to_string()),
    ));
    let status = disk.read("session_x").expect("status present");
    assert_eq!(status.v, 1);
    assert_eq!(status.state, SessionUiState::Running);
    assert_eq!(status.title.as_deref(), Some("~/git/demo"));
    assert_eq!(status.pid, 4242);
    assert!(status.updated_at_ms > 0);

    disk.write(write_session_ui_status(&host(), "session_x", SessionUiState::Finished, None));
    let status = disk.read("session_x").expect("status present");
    assert_eq!(status.state, SessionUiState::Finished);
    assert_eq!(status.title, None);

    disk.remove(clear_session_ui_status(Some("/home/u/.jcode"), "session_x"));
    assert!(disk.read("session_x").is_none());
}

#[test]
fn prune_drops_dead_sessions_keeps_live_ones() {
    let jcode_dir = Some("/home/u/.jcode");
    let mut disk = Disk::default();
    let mut active: HashMap<&str, &str> = HashMap::new();

    // Live session: active-pid entry pointing at a running process.
    active.insert("session_live", "4242\n");
    disk.write(write_session_ui_status(&host(), "session_live", SessionUiState::Waiting, None));

    // Dead session: active-pid entry pointing at a dead pid.
    active.insert("session_dead", "999999999");
    disk.write(write_session_ui_status(&host(), "session_dead", SessionUiState::Running, None));

    // Orphan: status file with no active-pid entry at all, plus a stray
    // .bak with no primary.
    disk.write(write_session_ui_status(&host(), "session_orphan", SessionUiState::Finished, None));
    let dir = session_status_dir(jcode_dir).expect("dir");
    disk.others.push(PathBuf::from(format!("{dir}/session_ghost.bak")));
    disk.others.push(PathBuf::from(format!("{dir}/session_live.bak")));
    disk.others.push(PathBuf::from(format!("{dir}/notes.txt")));

    let names = disk.names();
    disk.prune(&names, &active);

    assert!(disk.read("session_live").is_some());
    assert!(disk.read("session_dead").is_none());
    assert!(disk.read("session_orphan").is_none());
    assert!(!disk.holds(&format!("{dir}/session_ghost.bak")));
    assert!(disk.holds(&format!("{dir}/session_live.bak")));
    assert!(disk.holds(&format!("{dir}/notes.txt")));
}

#[test]
fn states_have_names() {
    assert_eq!(SessionUiState::Running.as_str(), "running");
    assert_eq!(SessionUiState::Waiting.as_str(), "waiting");
    assert_eq!(SessionUiState::Finished.as_str(), "finished");
    assert_eq!(SessionUiState::Fresh.as_str(), "fresh");
}

#[test]
fn status_files_have_their_place() {
    assert_eq!(session_status_dir(None), None);
    assert_eq!(status_path(None, "s"), None);
    assert_eq!(session_status_dir(Some("/d")).as_deref(), Some("/d/session_status"));
    assert_eq!(status_path(Some("/d"), "s").as_deref(), Some("/d/session_status/s.json"));
    assert_eq!(status_path(Some("/d/"), "s").as_deref(), Some("/d/session_status/s.json"));
}

#[test]
fn clearing_removes_the_backup_first() {
    assert_eq!(
        clear_session_ui_status(Some("/d"), "a.b"),
        vec!["/d/session_status/a.b.bak", "/d/session_status/a.b.json"]
    );
    // A name that starts with its only dot has no extension to replace.
    assert_eq!(
        clear_session_ui_status(Some("/d"), ""),
        vec!["/d/session_status/.json.bak", "/d/session_status/.json"]
    );
    assert!(clear_session_ui_status(None, "a").is_empty());
}

#[test]
fn paths_agree_with_the_standard_library() {
    for id in ["s", "a.b", "", "x/y", "x/", "..", "./a", "/abs", "session_1_aa"] {
        let path = Path::new("/d").join("session_status").join(format!("{id}.json"));
        assert_eq!(status_path(Some("/d"), id).as_deref(), path.to_str());
        let backup = path.with_extension("bak");
        assert_eq!(clear_session_ui_status(Some("/d"), id)[0], backup.to_str().unwrap());
    }
}

#[test]
fn nothing_is_written_without_a_directory() {
    let nowhere = StatusHost { jcode_dir: None, pid: 1, since_epoch_ms: Some(1) };
    assert!(publish(&nowhere, "s", SessionUiState::Fresh, None).is_none());
    assert!(read_session_ui_status(None, "s", |_: &str| None).is_none());
}

#[test]
fn the_time_is_kept_in_the_layout() {
    let stamp = |since_epoch_ms: Option<u128>| {
        let host = StatusHost { jcode_dir: Some("/d".to_string()), pid: 1, since_epoch_ms };
        publish(&host, "s", SessionUiState::Fresh, None).unwrap().status.updated_at_ms
    };
    assert_eq!(stamp(Some(1_700_000_000_123)), 1_700_000_000_123);
    assert_eq!(stamp(None), 0);
    assert_eq!(stamp(Some(u64::MAX as u128)), u64::MAX);
    assert_eq!(stamp(Some(u64::MAX as u128 + 6)), 5);
}

#[test]
fn sessions_keep_apart() {
    let mut disk = Disk::default();
    disk.write(publish(&host(), "a", SessionUiState::Running, None));
    disk.write(publish(&host(), "b", SessionUiState::Waiting, None));
    assert_eq!(disk.state("a"), Some(SessionUiState::Running));
    disk.remove(clear_session_ui_status(Some("/home/u/.jcode"), "a"));
    assert_eq!(disk.state("a"), None);
    assert_eq!(disk.state("b"), Some(SessionUiState::Waiting));
}

#[test]
fn a_dot_in_front_is_the_same_session() {
    let mut disk = Disk::default();
    disk.write(publish(&host(), "./a", SessionUiState::Running, None));
    disk.write(publish(&host(), "b", SessionUiState::Waiting, None));
    assert_eq!(disk.state("a"), Some(SessionUiState::Running));
    assert_eq!(disk.state("./b"), Some(SessionUiState::Waiting));
    disk.remove(clear_session_ui_status(Some("/home/u/.jcode"), "./b"));
    assert_eq!(disk.state("b"), None);
    assert_eq!(disk.state("a"), Some(SessionUiState::Running));
}

#[test]
fn idle_states_follow_the_plan() {
    assert_eq!(idle_state_from_todos(None), SessionUiState::Finished);
    assert_eq!(idle_state_from_todos(Some(&statuses(&[]))), SessionUiState::Finished);
    assert_eq!(
        idle_state_from_todos(Some(&statuses(&["completed", "completed"]))),
        SessionUiState::Finished
    );
    assert_eq!(
        idle_state_from_todos(Some(&statuses(&["completed", "pending"]))),
        SessionUiState::Waiting
    );
    assert_eq!(
        idle_state_from_todos(Some(&statuses(&["Completed"]))),
        SessionUiState::Waiting
    );
}

#[test]
fn a_turn_knows_its_session() {
    let (turn, started) = TurnStatusGuard::new(&host(), "s1".to_string(), Some("t".to_string()));
    assert_eq!(turn.session_id(), "s1");
    let started = started.unwrap();
    assert_eq!(started.path, "/home/u/.jcode/session_status/s1.json");
    assert_eq!(started.status.title.as_deref(), Some("t"));
}

#[test]
fn owners_are_read_from_their_entries() {
    assert_eq!(recorded_owner(Some(" 17\n")), Some(17));
    assert_eq!(recorded_owner(Some("x")), None);
    assert_eq!(recorded_owner(Some("")), None);
    assert_eq!(recorded_owner(Some("4294967296")), None);
    assert_eq!(recorded_owner(None), None);
}

#[test]
fn a_live_session_keeps_its_files() {
    assert!(prune_session(Some("/d"), "s", Some(true)).is_empty());
    assert_eq!(prune_session(Some("/d"), "s", Some(false)).len(), 2);
    assert_eq!(prune_session(Some("/d"), "s", None).len(), 2);
}

#[test]
fn entries_are_told_apart() {
    assert!(matches!(prune_step("/d", None), PruneStep::Keep));
    assert!(matches!(prune_step("/d", Some("json")), PruneStep::Keep));
    assert!(matches!(
        prune_step("/d", Some("s.json")),
        PruneStep::AskOwner { session_id } if session_id == "s"
    ));
    assert!(matches!(
        prune_step("/d", Some("s.bak")),
        PruneStep::AskPrimary { primary, backup } if primary == "/d/s.json" && backup == "/d/s.bak"
    ));
    assert!(matches!(
        prune_step("/d", Some("s.bak.json")),
        PruneStep::AskOwner { session_id } if session_id == "s.bak"
    ));
}

fn disk_with(names: &[&str]) -> Disk {
    let mut disk = Disk::default();
    for name in names {
        disk.others.push(PathBuf::from(format!("/home/u/.jcode/session_status/{name}")));
    }
    disk
}

#[test]
fn backups_stay_with_their_status_files() {
    let names = [
        "live.json", "live.bak", "dead.json", "dead.bak", "ghost.bak", "bare.json", "notes.txt",
        "live.bak.tmp",
    ];
    let active: HashMap<&str, &str> =
        HashMap::from([("live", "4242"), ("bare", " 4242 "), ("dead", "7")]);
    let listed: Vec<String> = names.iter().map(|n| n.to_string()).collect();
    let mut reversed = listed.clone();
    reversed.reverse();
    for order in [listed, reversed] {
        let mut disk = disk_with(&names);
        disk.prune(&order, &active);
        let left = ["bare.json", "live.bak", "live.bak.tmp", "live.json", "notes.txt"];
        assert_eq!(disk.sorted_names(), left);
        // A second pass changes nothing.
        let names = disk.sorted_names();
        disk.prune(&names, &active);
        assert_eq!(disk.sorted_names(), left);
    }
}

#[test]
fn the_empty_name_has_a_backup_of_its_own() {
    let active = HashMap::new();
    let mut disk = disk_with(&[".bak", ".json", ".json.bak"]);
    let order = [".bak".to_string(), ".json".to_string(), ".json.bak".to_string()];
    disk.prune(&order, &active);
    // It was kept on account of a status file that went after it.
    assert_eq!(disk.sorted_names(), [".bak"]);
    let names = disk.sorted_names();
    disk.prune(&names, &active);
    assert!(disk.sorted_names().is_empty());
}

#[test]
fn the_empty_name_keeps_its_rule_while_it_lives() {
    let prune_all = |names: &[&str], active: &HashMap<&str, &str>| {
        let mut disk = disk_with(names);
        let names = disk.names();
        disk.prune(&names, active);
        disk.sorted_names()
    };
    let nobody = HashMap::new();
    let nameless = HashMap::from([("", "4242")]);
    // Without a status file the backup goes, with a live one it stays.
    assert!(prune_all(&[".bak"], &nobody).is_empty());
    assert!(prune_all(&[".bak"], &nameless).is_empty());
    assert_eq!(prune_all(&[".bak", ".json"], &nameless), [".bak", ".json"]);
    // The same of the session whose backup has the same name as that of the empty name.
    let dotted = HashMap::from([(".json", "4242")]);
    assert!(prune_all(&[".json.bak", ".json.json"], &nobody).is_empty());
    assert_eq!(prune_all(&[".json.bak", ".json.json"], &dotted), [".json.bak", ".json.json"]);
    // A nameless session that is not live takes it along.
    assert_eq!(prune_all(&[".json", ".json.bak", ".json.json"], &dotted), [".json.json"]);
    assert!(prune_all(&[".json", ".json.bak", ".json.json"], &nobody).is_empty());
}

#[test]
fn a_turn_may_take_time_and_change_its_title() {
    let mut disk = Disk::default();
    let (turn, started) = TurnStatusGuard::new(&host(), "s".to_string(), Some("a".to_string()));
    disk.write(started);
    let later = StatusHost { since_epoch_ms: Some(1_700_000_009_000), ..host() };
    disk.write(turn.finish(&later, None, Some("b".to_string())));
    let status = disk.read("s").unwrap();
    assert_eq!(status.state, SessionUiState::Finished);
    assert_eq!(status.title.as_deref(), Some("b"));
    assert_eq!(status.updated_at_ms, 1_700_000_009_000);
}
