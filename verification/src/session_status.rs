//! Session status files: one small file per session, which says what a presence
//! display should show for it.
//!
//! A status is written when a turn starts and when it ends, and removed with the
//! session. Sessions that were killed leave their files behind; those are pruned.
//! What is stated of files here is which of them are written, read and removed; a
//! directory of status files is modelled as a map from paths to statuses.
use crate::paths;
use crate::paths::join_path;
use crate::text;
use crate::text::{chars_of, parse_u32, strip_suffix, text_eq, trim_chars, CharClass};
use vstd::prelude::*;
use vstd::string::*;

verus! {

/// What a presence display shows for a session.
#[derive(Debug, Clone, Copy, PartialEq, Eq, Structural)]
pub enum SessionUiState {
    /// A response is streaming.
    Running,
    /// Idle with incomplete work: waiting for the user.
    Waiting,
    /// Idle, and everything that was planned is completed.
    Finished,
    /// Just started: no real input yet.
    Fresh,
}

/// The name of a state.
pub open spec fn state_name(state: SessionUiState) -> Seq<char> {
    match state {
        SessionUiState::Running => "running"@,
        SessionUiState::Waiting => "waiting"@,
        SessionUiState::Finished => "finished"@,
        SessionUiState::Fresh => "fresh"@,
    }
}

impl SessionUiState {
    /// The name of the state.
    pub fn as_str(self) -> (r: &'static str)
        ensures
            r@ == state_name(self),
    {
        match self {
            SessionUiState::Running => "running",
            SessionUiState::Waiting => "waiting",
            SessionUiState::Finished => "finished",
            SessionUiState::Fresh => "fresh",
        }
    }
}

/// What a status file holds.
#[derive(Debug, Clone)]
pub struct SessionUiStatus {
    /// The version of the layout.
    pub v: u32,
    pub state: SessionUiState,
    /// The title of the session, if it has one, in full length.
    pub title: Option<String>,
    /// The process that wrote the status. It need not be the one that displays the
    /// session.
    pub pid: u32,
    /// When the status was written, in milliseconds since the epoch.
    pub updated_at_ms: u64,
}

/// The version of the layout that is written.
pub const STATUS_VERSION: u32 = 1;

/// What a process knows when it writes a status.
#[derive(Debug)]
pub struct StatusHost {
    /// The directory of the application's files, if there is one.
    pub jcode_dir: Option<String>,
    pub pid: u32,
    /// The time in milliseconds since the epoch; nothing if the clock is before it.
    pub since_epoch_ms: Option<u128>,
}

// ---------------------------------------------------------------------------
// Where the files are
// ---------------------------------------------------------------------------

/// The directory of the status files.
pub open spec fn status_dir(jcode_dir: Seq<char>) -> Seq<char> {
    paths::joined_path(jcode_dir, "session_status"@)
}

/// The status file of a session.
pub open spec fn status_file(jcode_dir: Seq<char>, session_id: Seq<char>) -> Seq<char> {
    paths::joined_path(status_dir(jcode_dir), session_id + ".json"@)
}

/// The name of the backup that the writer leaves beside a session's status file:
/// its extension is replaced. A file name that starts with its only dot has none to
/// replace.
pub open spec fn backup_name(session_id: Seq<char>) -> Seq<char> {
    if session_id.len() == 0 || session_id.last() == '/' {
        session_id + ".json.bak"@
    } else {
        session_id + ".bak"@
    }
}

/// The backup of a session's status file.
pub open spec fn backup_file(jcode_dir: Seq<char>, session_id: Seq<char>) -> Seq<char> {
    paths::joined_path(status_dir(jcode_dir), backup_name(session_id))
}

/// The directory of the status files, if there is a directory for the application's
/// files.
pub fn session_status_dir(jcode_dir: Option<&str>) -> (r: Option<String>)
    ensures
        text::opt_view(r) == (match jcode_dir {
            Some(dir) => Some(status_dir(dir@)),
            None => None,
        }),
{
    match jcode_dir {
        Some(dir) => Some(join_path(dir, "session_status")),
        None => None,
    }
}

fn path_in_status_dir(jcode_dir: Option<&str>, stem: &str, ending: &str) -> (r: Option<String>)
    ensures
        text::opt_view(r) == (match jcode_dir {
            Some(dir) => Some(paths::joined_path(status_dir(dir@), stem@ + ending@)),
            None => None,
        }),
{
    match session_status_dir(jcode_dir) {
        Some(dir) => {
            let mut name: String = stem.to_owned();
            name.append(ending);
            Some(join_path(dir.as_str(), name.as_str()))
        },
        None => None,
    }
}

/// The status file of a session, if there is a directory for it.
pub fn status_path(jcode_dir: Option<&str>, session_id: &str) -> (r: Option<String>)
    ensures
        text::opt_view(r) == (match jcode_dir {
            Some(dir) => Some(status_file(dir@, session_id@)),
            None => None,
        }),
{
    path_in_status_dir(jcode_dir, session_id, ".json")
}

fn backup_path(jcode_dir: Option<&str>, session_id: &str) -> (r: Option<String>)
    ensures
        text::opt_view(r) == (match jcode_dir {
            Some(dir) => Some(backup_file(dir@, session_id@)),
            None => None,
        }),
{
    let len: usize = session_id.unicode_len();
    if len == 0 || session_id.get_char(len - 1) == '/' {
        path_in_status_dir(jcode_dir, session_id, ".json.bak")
    } else {
        path_in_status_dir(jcode_dir, session_id, ".bak")
    }
}

// ---------------------------------------------------------------------------
// Writing, reading and clearing
// ---------------------------------------------------------------------------

/// A status to be written to a file. Its directory is created where it is missing.
#[derive(Debug)]
pub struct StatusWrite {
    pub path: String,
    pub status: SessionUiStatus,
}

/// A time in milliseconds as the layout holds it: nought before the epoch.
pub open spec fn stamp(since_epoch_ms: Option<u128>) -> int {
    match since_epoch_ms {
        Some(ms) => (ms % 0x1_0000_0000_0000_0000) as int,
        None => 0,
    }
}

/// Whether a status is the one that a process writes.
pub open spec fn is_status(
    status: SessionUiStatus,
    host: StatusHost,
    state: SessionUiState,
    title: Option<String>,
) -> bool {
    &&& status.v == STATUS_VERSION
    &&& status.state == state
    &&& status.title == title
    &&& status.pid == host.pid
    &&& status.updated_at_ms == stamp(host.since_epoch_ms)
}

/// Whether a write puts a session's status into its file; none is due where there is
/// no directory for it.
pub open spec fn is_status_write(
    w: Option<StatusWrite>,
    host: StatusHost,
    session_id: Seq<char>,
    state: SessionUiState,
    title: Option<String>,
) -> bool {
    match host.jcode_dir {
        Some(dir) => {
            &&& w is Some
            &&& w->0.path@ == status_file(dir@, session_id)
            &&& is_status(w->0.status, host, state, title)
        },
        None => w is None,
    }
}

/// The write that puts the status of a session into its file, over what the file
/// held before.
pub fn write_session_ui_status(
    host: &StatusHost,
    session_id: &str,
    state: SessionUiState,
    title: Option<String>,
) -> (r: Option<StatusWrite>)
    ensures
        is_status_write(r, *host, session_id@, state, title),
{
    let jcode_dir: Option<&str> = match &host.jcode_dir {
        Some(dir) => Some(dir.as_str()),
        None => None,
    };
    let updated_at_ms: u64 = match host.since_epoch_ms {
        Some(ms) => {
            assert((ms as u64) as u128 == ms % 0x1_0000_0000_0000_0000u128) by (bit_vector);
            #[verifier::truncate]
            (ms as u64)
        },
        None => 0,
    };
    match status_path(jcode_dir, session_id) {
        Some(path) => Some(
            StatusWrite {
                path,
                status: SessionUiStatus {
                    v: STATUS_VERSION,
                    state,
                    title,
                    pid: host.pid,
                    updated_at_ms,
                },
            },
        ),
        None => None,
    }
}

/// The status of a session, if there is a directory for it and `read` finds a status
/// in its file.
pub fn read_session_ui_status<F: Fn(&str) -> Option<SessionUiStatus>>(
    jcode_dir: Option<&str>,
    session_id: &str,
    read: F,
) -> (r: Option<SessionUiStatus>)
    requires
        forall|path: &str| #[trigger] call_requires(read, (path,)),
    ensures
        match jcode_dir {
            Some(dir) => exists|path: &str|
                path@ == status_file(dir@, session_id@) && #[trigger] call_ensures(
                    read,
                    (path,),
                    r,
                ),
            None => r is None,
        },
{
    match status_path(jcode_dir, session_id) {
        Some(path) => read(path.as_str()),
        None => None,
    }
}

/// The files to remove, in order, to clear a session's status: the backup, then the
/// status file. None where there is no directory for them.
pub open spec fn clearing(jcode_dir: Option<Seq<char>>, session_id: Seq<char>) -> Seq<Seq<char>> {
    match jcode_dir {
        Some(dir) => seq![backup_file(dir, session_id), status_file(dir, session_id)],
        None => Seq::empty(),
    }
}

/// The files to remove, in order, to clear a session's status.
pub fn clear_session_ui_status(jcode_dir: Option<&str>, session_id: &str) -> (r: Vec<String>)
    ensures
        text::views(r@) == clearing(text::opt_str_view(jcode_dir), session_id@),
{
    let mut out: Vec<String> = Vec::new();
    if let Some(path) = backup_path(jcode_dir, session_id) {
        out.push(path);
    }
    if let Some(path) = status_path(jcode_dir, session_id) {
        out.push(path);
    }
    assert(text::views(out@) == clearing(text::opt_str_view(jcode_dir), session_id@));
    out
}

// ---------------------------------------------------------------------------
// Pruning
// ---------------------------------------------------------------------------

/// What has to be found out before an entry of the status directory is kept or
/// removed.
#[derive(Debug)]
pub enum PruneStep {
    /// Who the owner of the session is, and whether it still runs.
    AskOwner { session_id: String },
    /// Whether the status file exists whose backup the entry is.
    AskPrimary { primary: String, backup: String },
    /// Nothing: the entry stays.
    Keep,
}

/// Whether a step is the one for an entry. Names that are no text stay.
pub open spec fn is_prune_step(
    step: PruneStep,
    status_dir: Seq<char>,
    name: Option<Seq<char>>,
) -> bool {
    match name {
        None => step is Keep,
        Some(name) => match (
            text::without_suffix(name, ".json"@),
            text::without_suffix(name, ".bak"@),
        ) {
            (Some(id), _) => step matches PruneStep::AskOwner { session_id } && session_id@ == id,
            (None, Some(id)) => {
                &&& step is AskPrimary
                &&& step->primary@ == paths::joined_path(status_dir, id + ".json"@)
                &&& step->backup@ == paths::joined_path(status_dir, name)
            },
            (None, None) => step is Keep,
        },
    }
}

/// What has to be found out before an entry of the status directory is kept or
/// removed.
pub fn prune_step(status_dir: &str, name: Option<&str>) -> (r: PruneStep)
    ensures
        is_prune_step(r, status_dir@, text::opt_str_view(name)),
{
    let name: &str = match name {
        Some(n) => n,
        None => {
            return PruneStep::Keep;
        },
    };
    if let Some(session_id) = strip_suffix(name, ".json") {
        return PruneStep::AskOwner { session_id };
    }
    match strip_suffix(name, ".bak") {
        Some(session_id) => {
            let mut primary: String = session_id;
            primary.append(".json");
            PruneStep::AskPrimary {
                primary: join_path(status_dir, primary.as_str()),
                backup: join_path(status_dir, name),
            }
        },
        None => PruneStep::Keep,
    }
}

/// The owner that the text of an active-process entry names.
pub open spec fn owner_in(entry: Option<Seq<char>>) -> Option<int> {
    match entry {
        Some(raw) => text::number_in(text::trimmed(raw), 0, u32::MAX as int),
        None => None,
    }
}

/// The owner that the text of an active-process entry names, if there is such an
/// entry and it holds a number.
pub fn recorded_owner(entry: Option<&str>) -> (r: Option<u32>)
    ensures
        match r {
            Some(pid) => owner_in(text::opt_str_view(entry)) == Some(pid as int),
            None => owner_in(text::opt_str_view(entry)) is None,
        },
{
    match entry {
        Some(raw) => parse_u32(&trim_chars(&chars_of(raw), CharClass::White)),
        None => None,
    }
}

/// The files to remove for a session whose status file was found: those that clear
/// its status, unless its owner is known and runs.
pub fn prune_session(jcode_dir: Option<&str>, session_id: &str, owner_runs: Option<bool>) -> (r:
    Vec<String>)
    ensures
        text::views(r@) == (if owner_runs == Some(true) {
            Seq::empty()
        } else {
            clearing(text::opt_str_view(jcode_dir), session_id@)
        }),
{
    let live: bool = match owner_runs {
        Some(b) => b,
        None => false,
    };
    if live {
        let none: Vec<String> = Vec::new();
        assert(text::views(none@) == Seq::<Seq<char>>::empty());
        none
    } else {
        clear_session_ui_status(jcode_dir, session_id)
    }
}

/// The file to remove for a backup that was found: the backup itself, if its status
/// file is gone.
pub fn prune_backup(backup: String, primary_exists: bool) -> (r: Option<String>)
    ensures
        r == (if primary_exists {
            None
        } else {
            Some(backup)
        }),
{
    if primary_exists {
        None
    } else {
        Some(backup)
    }
}

// ---------------------------------------------------------------------------
// Turns
// ---------------------------------------------------------------------------

/// Whether every planned item is completed.
pub open spec fn all_completed(statuses: Seq<String>) -> bool {
    forall|i: int| 0 <= i < statuses.len() ==> (#[trigger] statuses[i])@ == "completed"@
}

/// The state of an idle session: waiting only where there is an incomplete plan.
/// Sessions without a plan, such as chats, are finished, and so are those whose plan
/// cannot be read.
pub open spec fn idle_state(statuses: Option<Seq<String>>) -> SessionUiState {
    match statuses {
        Some(list) => if all_completed(list) {
            SessionUiState::Finished
        } else {
            SessionUiState::Waiting
        },
        None => SessionUiState::Finished,
    }
}

/// The state of an idle session, from the statuses of its planned items.
pub fn idle_state_from_todos(statuses: Option<&Vec<String>>) -> (r: SessionUiState)
    ensures
        r == idle_state(
            match statuses {
                Some(list) => Some(list@),
                None => None,
            },
        ),
        r is Finished || r is Waiting,
        r is Waiting <==> statuses is Some && exists|i: int|
            0 <= i < statuses->0@.len() && (#[trigger] statuses->0@[i])@ != "completed"@,
{
    let list: &Vec<String> = match statuses {
        Some(list) => list,
        None => {
            return SessionUiState::Finished;
        },
    };
    let mut i: usize = 0;
    while i < list.len()
        invariant
            i <= list@.len(),
            statuses == Some(list),
            forall|k: int| 0 <= k < i ==> (#[trigger] list@[k])@ == "completed"@,
        decreases list@.len() - i,
    {
        if !text_eq(list[i].as_str(), "completed") {
            assert(list@[i as int]@ != "completed"@);
            return SessionUiState::Waiting;
        }
        i += 1;
    }
    SessionUiState::Finished
}

/// The write that publishes a session's state, with its title as it is now.
pub fn publish(
    host: &StatusHost,
    session_id: &str,
    state: SessionUiState,
    title: Option<String>,
) -> (r: Option<StatusWrite>)
    ensures
        is_status_write(r, *host, session_id@, state, title),
{
    write_session_ui_status(host, session_id, state, title)
}

/// A turn, from the moment its session is published as running until it ends and the
/// idle state is published.
#[derive(Debug)]
pub struct TurnStatusGuard {
    session_id: String,
}

impl TurnStatusGuard {
    /// The session whose turn it is.
    pub closed spec fn session(&self) -> Seq<char> {
        self.session_id@
    }

    /// Starts a turn. The session is running from now on.
    pub fn new(host: &StatusHost, session_id: String, title: Option<String>) -> (r: (
        Self,
        Option<StatusWrite>,
    ))
        ensures
            r.0.session() == session_id@,
            is_status_write(r.1, *host, session_id@, SessionUiState::Running, title),
    {
        let started: Option<StatusWrite> = publish(
            host,
            session_id.as_str(),
            SessionUiState::Running,
            title,
        );
        (TurnStatusGuard { session_id }, started)
    }

    /// The session whose turn it is.
    pub fn session_id(&self) -> (r: &str)
        ensures
            r@ == self.session(),
    {
        self.session_id.as_str()
    }

    /// Ends the turn, however it ends. The session is idle from now on, in the state
    /// that its plan says.
    pub fn finish(
        &self,
        host: &StatusHost,
        statuses: Option<&Vec<String>>,
        title: Option<String>,
    ) -> (r: Option<StatusWrite>)
        ensures
            is_status_write(
                r,
                *host,
                self.session(),
                idle_state(
                    match statuses {
                        Some(list) => Some(list@),
                        None => None,
                    },
                ),
                title,
            ),
    {
        publish(host, self.session_id.as_str(), idle_state_from_todos(statuses), title)
    }
}

// ---------------------------------------------------------------------------
// Laws
// ---------------------------------------------------------------------------

/// Where the status file of a session is.
pub open spec fn status_at(jcode_dir: Seq<char>, session_id: Seq<char>) -> paths::Location {
    paths::location(status_file(jcode_dir, session_id))
}

/// The status files after a write. Each file stands at its location.
pub open spec fn after_write(
    files: Map<paths::Location, SessionUiStatus>,
    w: Option<StatusWrite>,
) -> Map<paths::Location, SessionUiStatus> {
    match w {
        Some(w) => files.insert(paths::location(w.path@), w.status),
        None => files,
    }
}

/// Where paths lead.
pub open spec fn locations(list: Seq<Seq<char>>) -> Seq<paths::Location> {
    list.map_values(|path: Seq<char>| paths::location(path))
}

/// The files after some were removed.
pub open spec fn after_removal<T>(
    files: Map<paths::Location, T>,
    removed: Seq<Seq<char>>,
) -> Map<paths::Location, T> {
    files.remove_keys(locations(removed).to_set())
}

/// The status that is read for a session.
pub open spec fn status_read(
    files: Map<paths::Location, SessionUiStatus>,
    jcode_dir: Seq<char>,
    session_id: Seq<char>,
) -> Option<SessionUiStatus> {
    files.get(status_at(jcode_dir, session_id))
}

/// Whether an identifier is a path below the status directory that does not go up.
pub open spec fn stays_below(session_id: Seq<char>) -> bool {
    !paths::is_absolute(session_id) && !paths::goes_up(session_id + ".json"@)
}

/// Whether the paths of two sessions' status files show that the files are two: they
/// lead to different locations, and neither goes up on its way. An identifier can
/// lead out of the status directory, or to another session's file in another way, as
/// `./a` does to that of `a`.
///
/// That different locations are different files is taken for granted: no name on the
/// way is a link, and the file system tells names apart that differ in any character.
pub open spec fn have_own_files(jcode_dir: Seq<char>, a: Seq<char>, b: Seq<char>) -> bool {
    let file_a = status_file(jcode_dir, a);
    let file_b = status_file(jcode_dir, b);
    &&& status_at(jcode_dir, a) != status_at(jcode_dir, b)
    &&& {
        ||| stays_below(a) && stays_below(b)
        ||| paths::is_absolute(file_a) == paths::is_absolute(file_b) && !paths::goes_up(file_a)
            && !paths::goes_up(file_b)
    }
}

/// Whether an identifier is a mere name.
pub open spec fn is_simple(session_id: Seq<char>) -> bool {
    !session_id.contains('/')
}

/// Sessions have files of their own: no two whose identifiers are mere names share a
/// status file, and no backup is some session's status file.
pub proof fn sessions_do_not_share_files(jcode_dir: Seq<char>, a: Seq<char>, b: Seq<char>)
    ensures
        is_simple(a) && is_simple(b) && a != b ==> have_own_files(jcode_dir, a, b),
        paths::location(backup_file(jcode_dir, a)) != status_at(jcode_dir, b),
{
    reveal_strlit(".json");
    reveal_strlit(".bak");
    reveal_strlit(".json.bak");
    if is_simple(a) && is_simple(b) && a != b {
        lemma_endings(a);
        lemma_endings(b);
        lemma_endings_differ(a, b);
        lemma_entries_differ(jcode_dir, a + ".json"@, b + ".json"@);
        lemma_simple_stays_below(a);
        lemma_simple_stays_below(b);
    }
    assert(backup_name(a).last() == 'k');
    assert(backup_file(jcode_dir, a).last() == 'k');
    assert((b + ".json"@).last() == 'n');
    assert(status_file(jcode_dir, b).last() == 'n');
    paths::lemma_location_end(backup_file(jcode_dir, a));
    paths::lemma_location_end(status_file(jcode_dir, b));
}

/// An identifier that starts where the status directory is names the file that the
/// rest of it names.
pub proof fn a_dot_in_front_names_the_same_file(jcode_dir: Seq<char>, session_id: Seq<char>)
    requires
        !paths::is_absolute(session_id),
    ensures
        status_at(jcode_dir, "./"@ + session_id) == status_at(jcode_dir, session_id),
{
    reveal_strlit("session_status");
    reveal_strlit(".json");
    reveal_strlit("./");
    reveal_strlit(".");
    let dir = status_dir(jcode_dir);
    assert(dir.last() == 's');
    let name = session_id + ".json"@;
    assert(name[0] == if session_id.len() > 0 {
        session_id[0]
    } else {
        '.'
    });
    let other = "."@.push('/') + name;
    assert(("./"@ + session_id) + ".json"@ == other);
    text::lemma_pieces_between(dir, name, '/');
    text::lemma_pieces_between(dir, other, '/');
    text::lemma_pieces_between("."@, name, '/');
    text::lemma_one_piece("."@, '/');
    let here = seq!["."@];
    let above = text::pieces(dir, '/');
    let rest = text::pieces(name, '/');
    Seq::filter_distributes_over_add(above, rest, paths::leads_on());
    Seq::filter_distributes_over_add(above, here + rest, paths::leads_on());
    Seq::filter_distributes_over_add(here, rest, paths::leads_on());
    assert(here.filter(paths::leads_on()) == Seq::<Seq<char>>::empty()) by {
        reveal_with_fuel(Seq::filter, 2);
        assert(here.drop_last() == Seq::<Seq<char>>::empty());
        assert(here.last() == "."@);
    }
}

proof fn lemma_simple_stays_below(id: Seq<char>)
    requires
        is_simple(id),
    ensures
        stays_below(id),
{
    reveal_strlit(".json");
    reveal_strlit("..");
    if id.len() > 0 {
        assert(id.contains(id[0]));
    }
    lemma_endings(id);
    let name = id + ".json"@;
    text::lemma_one_piece(name, '/');
    if paths::goes_up(name) {
        let all = text::pieces(name, '/');
        let k = choose|k: int| 0 <= k < all.len() && all[k] == ".."@;
        assert(all[k] == name);
    }
}

/// A read gives back what was written last for the session, whichever way its file is
/// named. A write changes the status of no session that has a file of its own, as all
/// others have whose identifiers are mere names.
pub proof fn a_written_status_is_read(
    files: Map<paths::Location, SessionUiStatus>,
    w: Option<StatusWrite>,
    host: StatusHost,
    session_id: Seq<char>,
    state: SessionUiState,
    title: Option<String>,
    other: Seq<char>,
)
    requires
        host.jcode_dir is Some,
        is_status_write(w, host, session_id, state, title),
    ensures
        ({
            let dir = host.jcode_dir->0@;
            let after = after_write(files, w);
            &&& status_read(after, dir, session_id) is Some
            &&& is_status(status_read(after, dir, session_id)->0, host, state, title)
            &&& status_at(dir, other) == status_at(dir, session_id) ==> status_read(
                after,
                dir,
                other,
            ) == status_read(after, dir, session_id)
            &&& have_own_files(dir, session_id, other) ==> status_read(after, dir, other)
                == status_read(files, dir, other)
            &&& is_simple(session_id) && is_simple(other) && other != session_id ==> status_read(
                after,
                dir,
                other,
            ) == status_read(files, dir, other)
        }),
{
    sessions_do_not_share_files(host.jcode_dir->0@, session_id, other);
}

/// After a status is cleared none is read for the session, whichever way its file is
/// named. The status of every session that has a file of its own, as all others have
/// whose identifiers are mere names, is as it was.
pub proof fn a_cleared_status_is_gone(
    files: Map<paths::Location, SessionUiStatus>,
    jcode_dir: Seq<char>,
    session_id: Seq<char>,
    other: Seq<char>,
)
    ensures
        ({
            let after = after_removal(files, clearing(Some(jcode_dir), session_id));
            &&& status_read(after, jcode_dir, session_id) is None
            &&& status_at(jcode_dir, other) == status_at(jcode_dir, session_id) ==> status_read(
                after,
                jcode_dir,
                other,
            ) is None
            &&& have_own_files(jcode_dir, session_id, other) ==> status_read(
                after,
                jcode_dir,
                other,
            ) == status_read(files, jcode_dir, other)
            &&& is_simple(session_id) && is_simple(other) && other != session_id ==> status_read(
                after,
                jcode_dir,
                other,
            ) == status_read(files, jcode_dir, other)
        }),
{
    let removed = locations(clearing(Some(jcode_dir), session_id));
    assert(removed[1] == status_at(jcode_dir, session_id));
    assert(removed.to_set().contains(status_at(jcode_dir, session_id)));
    sessions_do_not_share_files(jcode_dir, session_id, other);
    if have_own_files(jcode_dir, session_id, other) {
        assert(!removed.contains(status_at(jcode_dir, other)));
    }
}

/// However a turn ends, and however long it lasts, the status does not stick at
/// running: what is read after it is finished or waiting, as the plan says, and never
/// fresh.
pub proof fn a_turn_ends_idle(
    files: Map<paths::Location, SessionUiStatus>,
    started: Option<StatusWrite>,
    ended: Option<StatusWrite>,
    host: StatusHost,
    later: StatusHost,
    session_id: Seq<char>,
    statuses: Option<Seq<String>>,
    title: Option<String>,
    end_title: Option<String>,
)
    requires
        host.jcode_dir is Some,
        later.jcode_dir == host.jcode_dir,
        is_status_write(started, host, session_id, SessionUiState::Running, title),
        is_status_write(ended, later, session_id, idle_state(statuses), end_title),
    ensures
        ({
            let dir = host.jcode_dir->0@;
            let during = status_read(after_write(files, started), dir, session_id);
            let after = status_read(after_write(after_write(files, started), ended), dir, session_id);
            &&& during is Some && is_status(during->0, host, SessionUiState::Running, title)
            &&& after is Some && is_status(after->0, later, idle_state(statuses), end_title)
            &&& after->0.state is Finished || after->0.state is Waiting
        }),
{
}

// ---------------------------------------------------------------------------
// Laws of pruning
// ---------------------------------------------------------------------------

/// Whether a name can be that of an entry of a directory.
pub open spec fn is_entry_name(name: Seq<char>) -> bool {
    name.len() > 0 && !name.contains('/') && name != "."@ && name != ".."@
}

/// An entry of the status directory.
pub open spec fn entry_path(jcode_dir: Seq<char>, name: Seq<char>) -> Seq<char> {
    paths::joined_path(status_dir(jcode_dir), name)
}

/// Where an entry of the status directory is.
pub open spec fn entry_at(jcode_dir: Seq<char>, name: Seq<char>) -> paths::Location {
    paths::location(entry_path(jcode_dir, name))
}

/// Whether a listing holds the names in the status directory: of `files`, those that
/// lie directly in it.
pub open spec fn is_listing<T>(
    names: Seq<Seq<char>>,
    files: Map<paths::Location, T>,
    jcode_dir: Seq<char>,
) -> bool {
    forall|name: Seq<char>| #[trigger]
        names.contains(name) <==> is_entry_name(name) && files.contains_key(
            entry_at(jcode_dir, name),
        )
}

/// Whether the owner of a session runs. `active` holds the texts of the active-process
/// entries by session, and `running` says which processes run.
pub open spec fn is_live(
    active: Map<Seq<char>, Seq<char>>,
    running: spec_fn(int) -> bool,
    session_id: Seq<char>,
) -> bool {
    owner_in(active.get(session_id)) matches Some(pid) && running(pid)
}

/// The files that are removed on account of an entry, where `files` are those that are
/// there at that moment.
pub open spec fn removed_at<T>(
    files: Map<paths::Location, T>,
    jcode_dir: Seq<char>,
    name: Seq<char>,
    active: Map<Seq<char>, Seq<char>>,
    running: spec_fn(int) -> bool,
) -> Seq<Seq<char>> {
    match (text::without_suffix(name, ".json"@), text::without_suffix(name, ".bak"@)) {
        (Some(id), _) => if is_live(active, running, id) {
            Seq::empty()
        } else {
            clearing(Some(jcode_dir), id)
        },
        (None, Some(id)) => if files.contains_key(status_at(jcode_dir, id)) {
            Seq::empty()
        } else {
            seq![entry_path(jcode_dir, name)]
        },
        (None, None) => Seq::empty(),
    }
}

/// The files after the entries of a listing were gone through in turn.
pub open spec fn after_pruning<T>(
    files: Map<paths::Location, T>,
    jcode_dir: Seq<char>,
    names: Seq<Seq<char>>,
    active: Map<Seq<char>, Seq<char>>,
    running: spec_fn(int) -> bool,
) -> Map<paths::Location, T>
    decreases names.len(),
{
    if names.len() == 0 {
        files
    } else {
        let before = after_pruning(files, jcode_dir, names.drop_last(), active, running);
        after_removal(before, removed_at(before, jcode_dir, names.last(), active, running))
    }
}

/// What the steps of pruning find out and remove, entry by entry, is what pruning
/// removes: a session is cleared unless its owner is known to run, and a backup goes if
/// its status file is not there at that moment.
pub proof fn the_steps_are_those_of_pruning<T>(
    step: PruneStep,
    files: Map<paths::Location, T>,
    jcode_dir: Seq<char>,
    name: Seq<char>,
    active: Map<Seq<char>, Seq<char>>,
    running: spec_fn(int) -> bool,
)
    requires
        is_prune_step(step, status_dir(jcode_dir), Some(name)),
    ensures
        removed_at(files, jcode_dir, name, active, running) == (match step {
            PruneStep::AskOwner { session_id } => if is_live(active, running, session_id@) {
                Seq::empty()
            } else {
                clearing(Some(jcode_dir), session_id@)
            },
            PruneStep::AskPrimary { primary, backup } => if files.contains_key(
                paths::location(primary@),
            ) {
                Seq::empty()
            } else {
                seq![backup@]
            },
            PruneStep::Keep => Seq::empty(),
        }),
{
}

/// Whether a location is that of a status file or of a backup in the status directory.
pub open spec fn is_status_or_backup(jcode_dir: Seq<char>, at: paths::Location) -> bool {
    exists|name: Seq<char>|
        is_entry_name(name) && (".json"@.is_suffix_of(name) || ".bak"@.is_suffix_of(name)) && at
            == #[trigger] entry_at(jcode_dir, name)
}

/// Entries with different names are different entries.
proof fn lemma_entries_differ(jcode_dir: Seq<char>, a: Seq<char>, b: Seq<char>)
    requires
        is_entry_name(a),
        is_entry_name(b),
    ensures
        entry_at(jcode_dir, a) == entry_at(jcode_dir, b) ==> a == b,
{
    reveal_strlit("session_status");
    let dir = status_dir(jcode_dir);
    assert(dir.last() == 's');
    paths::lemma_location_below(dir, a);
    paths::lemma_location_below(dir, b);
    let parts = paths::location(dir).parts;
    assert(parts.push(a).last() == a);
    assert(parts.push(b).last() == b);
}

/// A name is a stem and an ending.
proof fn lemma_stem(name: Seq<char>, ending: Seq<char>)
    ensures
        text::without_suffix(name, ending) matches Some(stem) ==> name == stem + ending && (
        !name.contains('/') ==> is_simple(stem)),
{
    if ending.is_suffix_of(name) {
        let stem = text::without_suffix(name, ending)->0;
        assert(name == stem + ending);
        if stem.contains('/') {
            let k = choose|k: int| 0 <= k < stem.len() && stem[k] == '/';
            assert(name[k] == '/');
        }
    }
}

/// A stem and an ending make a name, from which the stem is told.
proof fn lemma_endings(stem: Seq<char>)
    requires
        is_simple(stem),
    ensures
        is_entry_name(stem + ".json"@),
        is_entry_name(stem + ".bak"@),
        text::without_suffix(stem + ".json"@, ".json"@) == Some(stem),
        text::without_suffix(stem + ".bak"@, ".bak"@) == Some(stem),
        text::without_suffix(stem + ".bak"@, ".json"@) is None,
{
    reveal_strlit(".json");
    reveal_strlit(".bak");
    reveal_strlit(".");
    reveal_strlit("..");
    let j = stem + ".json"@;
    let b = stem + ".bak"@;
    if j.contains('/') {
        let k = choose|k: int| 0 <= k < j.len() && j[k] == '/';
        if k < stem.len() {
            assert(stem[k] == '/');
        } else {
            assert(".json"@[k - stem.len()] == '/');
        }
    }
    if b.contains('/') {
        let k = choose|k: int| 0 <= k < b.len() && b[k] == '/';
        if k < stem.len() {
            assert(stem[k] == '/');
        } else {
            assert(".bak"@[k - stem.len()] == '/');
        }
    }
    assert(j.take(j.len() - 5) == stem);
    assert(j.skip(j.len() - 5) == ".json"@);
    assert(b.take(b.len() - 4) == stem);
    assert(b.skip(b.len() - 4) == ".bak"@);
    if ".json"@.is_suffix_of(b) {
        lemma_stem(b, ".json"@);
        lemma_endings_differ(text::without_suffix(b, ".json"@)->0, stem);
    }
}

/// Names with different endings differ, and so do names with different stems.
proof fn lemma_endings_differ(a: Seq<char>, b: Seq<char>)
    ensures
        a + ".json"@ != b + ".bak"@,
        a + ".json"@ == b + ".json"@ ==> a == b,
        a + ".bak"@ == b + ".bak"@ ==> a == b,
{
    reveal_strlit(".json");
    reveal_strlit(".bak");
    assert((a + ".json"@).last() == 'n');
    assert((b + ".bak"@).last() == 'k');
    assert((a + ".json"@).take(a.len() as int) == a);
    assert((a + ".bak"@).take(a.len() as int) == a);
    assert((b + ".json"@).take(b.len() as int) == b);
    assert((b + ".bak"@).take(b.len() as int) == b);
}

/// The session whose backup, by its name, a session's backup is: its own, but for the
/// empty name.
spec fn backup_stem(id: Seq<char>) -> Seq<char> {
    if id.len() > 0 {
        id
    } else {
        ".json"@
    }
}

proof fn lemma_backup_name(id: Seq<char>)
    requires
        is_simple(id),
    ensures
        backup_name(id) == backup_stem(id) + ".bak"@,
        is_simple(backup_stem(id)),
        is_entry_name(backup_name(id)),
{
    reveal_strlit(".json");
    reveal_strlit(".bak");
    reveal_strlit(".json.bak");
    if id.len() > 0 {
        assert(id.contains(id.last()));
    } else {
        assert(id + ".json.bak"@ == ".json"@ + ".bak"@);
    }
    lemma_endings(backup_stem(id));
}

/// Which of a session's files clearing another removes.
proof fn lemma_clearing(jcode_dir: Seq<char>, cleared: Seq<char>, id: Seq<char>)
    requires
        is_simple(cleared),
        is_simple(id),
    ensures
        ({
            let removed = locations(clearing(Some(jcode_dir), cleared));
            &&& removed.contains(status_at(jcode_dir, id)) <==> id == cleared
            &&& removed.contains(entry_at(jcode_dir, id + ".bak"@)) <==> id == backup_stem(cleared)
            &&& forall|at: paths::Location| #[trigger]
                removed.contains(at) ==> is_status_or_backup(jcode_dir, at)
        }),
{
    let removed = locations(clearing(Some(jcode_dir), cleared));
    let stem = backup_stem(cleared);
    lemma_backup_name(cleared);
    lemma_endings(cleared);
    lemma_endings(id);
    lemma_endings_differ(cleared, id);
    lemma_endings_differ(id, stem);
    lemma_endings(stem);
    lemma_entries_differ(jcode_dir, stem + ".bak"@, id + ".json"@);
    lemma_entries_differ(jcode_dir, stem + ".bak"@, id + ".bak"@);
    lemma_entries_differ(jcode_dir, cleared + ".json"@, id + ".json"@);
    lemma_entries_differ(jcode_dir, cleared + ".json"@, id + ".bak"@);
    assert(removed[0] == entry_at(jcode_dir, stem + ".bak"@));
    assert(removed[1] == entry_at(jcode_dir, cleared + ".json"@));
    assert(removed.len() == 2);
}

/// What one entry does to the status file and the backup of a session.
proof fn lemma_prune_step<T>(
    before: Map<paths::Location, T>,
    jcode_dir: Seq<char>,
    name: Seq<char>,
    active: Map<Seq<char>, Seq<char>>,
    running: spec_fn(int) -> bool,
    id: Seq<char>,
)
    requires
        is_entry_name(name),
        is_simple(id),
    ensures
        ({
            let removed = locations(removed_at(before, jcode_dir, name, active, running));
            let dead = !is_live(active, running, id);
            &&& removed.contains(status_at(jcode_dir, id)) <==> name == id + ".json"@ && dead
            &&& removed.contains(entry_at(jcode_dir, id + ".bak"@)) <==> {
                ||| name == id + ".json"@ && dead && id.len() > 0
                ||| name == ".json"@ && id == ".json"@ && !is_live(active, running, Seq::empty())
                ||| name == id + ".bak"@ && !before.contains_key(status_at(jcode_dir, id))
            }
            &&& forall|at: paths::Location| #[trigger]
                removed.contains(at) ==> is_status_or_backup(jcode_dir, at)
        }),
{
    let removed = locations(removed_at(before, jcode_dir, name, active, running));
    let none = Seq::<char>::empty();
    assert(none + ".json"@ == ".json"@);
    lemma_endings(id);
    lemma_endings(none);
    lemma_stem(name, ".json"@);
    lemma_stem(name, ".bak"@);
    if text::without_suffix(name, ".json"@) is Some {
        let x = text::without_suffix(name, ".json"@)->0;
        lemma_clearing(jcode_dir, x, id);
        lemma_endings_differ(x, id);
        lemma_endings_differ(x, none);
        if x.len() == 0 {
            assert(x == none);
        }
    } else if text::without_suffix(name, ".bak"@) is Some {
        let x = text::without_suffix(name, ".bak"@)->0;
        lemma_endings_differ(id, x);
        lemma_endings_differ(none, x);
        lemma_entries_differ(jcode_dir, name, id + ".json"@);
        lemma_entries_differ(jcode_dir, name, id + ".bak"@);
        if !before.contains_key(status_at(jcode_dir, x)) {
            assert(removed[0] == entry_at(jcode_dir, name));
        }
    }
}

/// What going through a listing does to the status file and the backup of a session,
/// and to other files.
proof fn lemma_pruned<T>(
    files: Map<paths::Location, T>,
    jcode_dir: Seq<char>,
    names: Seq<Seq<char>>,
    active: Map<Seq<char>, Seq<char>>,
    running: spec_fn(int) -> bool,
    id: Seq<char>,
)
    requires
        forall|k: int| 0 <= k < names.len() ==> is_entry_name(#[trigger] names[k]),
        is_simple(id),
    ensures
        ({
            let after = after_pruning(files, jcode_dir, names, active, running);
            let status = status_at(jcode_dir, id);
            let backup = entry_at(jcode_dir, id + ".bak"@);
            let live = is_live(active, running, id);
            let shadowed = id == ".json"@ && names.contains(".json"@) && !is_live(
                active,
                running,
                Seq::empty(),
            );
            &&& forall|at: paths::Location| #[trigger]
                after.contains_key(at) ==> files.contains_key(at) && after[at] == files[at]
            &&& forall|at: paths::Location|
                files.contains_key(at) && !is_status_or_backup(jcode_dir, at)
                    ==> #[trigger] after.contains_key(at)
            &&& files.contains_key(status) && live ==> after.contains_key(status)
            &&& files.contains_key(status) && live && files.contains_key(backup) && !shadowed
                ==> after.contains_key(backup)
            &&& shadowed ==> !after.contains_key(backup)
            &&& !files.contains_key(status) && names.contains(id + ".bak"@)
                ==> !after.contains_key(backup)
            &&& !live && names.contains(id + ".json"@) ==> !after.contains_key(status) && (id.len()
                > 0 ==> !after.contains_key(backup))
        }),
    decreases names.len(),
{
    if names.len() > 0 {
        let less = names.drop_last();
        let name = names.last();
        let before = after_pruning(files, jcode_dir, less, active, running);
        let removed = locations(removed_at(before, jcode_dir, name, active, running));
        assert forall|k: int| 0 <= k < less.len() implies is_entry_name(#[trigger] less[k]) by {
            assert(less[k] == names[k]);
        }
        assert(is_entry_name(names[names.len() - 1]));
        lemma_pruned(files, jcode_dir, less, active, running, id);
        lemma_prune_step(before, jcode_dir, name, active, running, id);
        assert forall|n: Seq<char>| #[trigger] names.contains(n) <==> less.contains(n) || n
            == name by {
            if names.contains(n) {
                let k = choose|k: int| 0 <= k < names.len() && names[k] == n;
                if k < less.len() {
                    assert(less[k] == n);
                }
            }
            if less.contains(n) {
                let k = choose|k: int| 0 <= k < less.len() && less[k] == n;
                assert(names[k] == n);
            }
            if n == name {
                assert(names[names.len() - 1] == n);
            }
        }
        let after = after_pruning(files, jcode_dir, names, active, running);
        assert forall|at: paths::Location| #[trigger] after.contains_key(at)
            <==> before.contains_key(at) && !removed.contains(at) by {}
    }
}

/// Pruning keeps exactly the live: of the status files in the directory those of live
/// sessions are left, and a backup is left if and only if its status file is.
///
/// There are two exceptions, since the backup of the session with the empty name is not
/// called `.bak`, but as that of the session named `.json`. Where the former has a
/// status file and is not live, the latter's backup goes with it, and whether `.bak` is
/// left is not said: that rests on the order of the listing.
pub proof fn pruning_keeps_exactly_the_live<T>(
    files: Map<paths::Location, T>,
    jcode_dir: Seq<char>,
    names: Seq<Seq<char>>,
    active: Map<Seq<char>, Seq<char>>,
    running: spec_fn(int) -> bool,
    id: Seq<char>,
)
    requires
        is_listing(names, files, jcode_dir),
        is_simple(id),
    ensures
        ({
            let after = after_pruning(files, jcode_dir, names, active, running);
            let status = status_at(jcode_dir, id);
            let backup = entry_at(jcode_dir, id + ".bak"@);
            let nameless_goes = files.contains_key(entry_at(jcode_dir, ".json"@)) && !is_live(
                active,
                running,
                Seq::empty(),
            );
            &&& after.contains_key(status) <==> files.contains_key(status) && is_live(
                active,
                running,
                id,
            )
            &&& id.len() > 0 || !nameless_goes ==> (after.contains_key(backup)
                <==> files.contains_key(backup) && after.contains_key(status) && !(id == ".json"@
                && nameless_goes))
        }),
{
    lemma_listed(files, jcode_dir, names);
    lemma_pruned(files, jcode_dir, names, active, running, id);
    lemma_endings(id);
    lemma_endings(Seq::empty());
    assert(Seq::<char>::empty() + ".json"@ == ".json"@);
    if id.len() == 0 {
        assert(id == Seq::<char>::empty());
    }
    assert(names.contains(id + ".json"@) <==> files.contains_key(status_at(jcode_dir, id)));
    assert(names.contains(id + ".bak"@) <==> files.contains_key(
        entry_at(jcode_dir, id + ".bak"@),
    ));
    assert(names.contains(".json"@) <==> files.contains_key(entry_at(jcode_dir, ".json"@)));
}

/// The names of a listing are those of entries.
proof fn lemma_listed<T>(files: Map<paths::Location, T>, jcode_dir: Seq<char>, names: Seq<Seq<char>>)
    requires
        is_listing(names, files, jcode_dir),
    ensures
        forall|k: int| 0 <= k < names.len() ==> is_entry_name(#[trigger] names[k]),
{
    assert forall|k: int| 0 <= k < names.len() implies is_entry_name(#[trigger] names[k]) by {
        assert(names.contains(names[k]));
    }
}

/// Pruning only removes: what is left is as it was. And it removes nothing but status
/// files and backups: other files in the directory, and all files elsewhere, such as
/// the active-process entries, are left.
pub proof fn pruning_spares_other_files<T>(
    files: Map<paths::Location, T>,
    jcode_dir: Seq<char>,
    names: Seq<Seq<char>>,
    active: Map<Seq<char>, Seq<char>>,
    running: spec_fn(int) -> bool,
    at: paths::Location,
)
    requires
        is_listing(names, files, jcode_dir),
    ensures
        ({
            let after = after_pruning(files, jcode_dir, names, active, running);
            &&& after.contains_key(at) ==> files.contains_key(at) && after[at] == files[at]
            &&& files.contains_key(at) && !is_status_or_backup(jcode_dir, at)
                ==> after.contains_key(at)
        }),
{
    lemma_listed(files, jcode_dir, names);
    lemma_pruned(files, jcode_dir, names, active, running, Seq::empty());
}

/// Going through entries of which no session is dead, and no backup but that of the
/// session with the empty name is orphaned, removes nothing but that backup.
proof fn lemma_settled<T>(
    files: Map<paths::Location, T>,
    jcode_dir: Seq<char>,
    names: Seq<Seq<char>>,
    active: Map<Seq<char>, Seq<char>>,
    running: spec_fn(int) -> bool,
)
    requires
        forall|k: int| 0 <= k < names.len() ==> is_entry_name(#[trigger] names[k]),
        forall|k: int|
            0 <= k < names.len() ==> (text::without_suffix(#[trigger] names[k], ".json"@) matches Some(
                id,
            ) ==> is_live(active, running, id)),
        forall|k: int|
            0 <= k < names.len() ==> (text::without_suffix(#[trigger] names[k], ".bak"@) matches Some(
                id,
            ) ==> id.len() == 0 || files.contains_key(status_at(jcode_dir, id))),
    ensures
        ({
            let after = after_pruning(files, jcode_dir, names, active, running);
            let odd = entry_at(jcode_dir, ".bak"@);
            &&& after.remove(odd) == files.remove(odd)
            &&& (names.contains(".bak"@) ==> files.contains_key(
                entry_at(jcode_dir, ".json"@),
            )) ==> after == files
        }),
    decreases names.len(),
{
    if names.len() > 0 {
        let less = names.drop_last();
        let name = names.last();
        let before = after_pruning(files, jcode_dir, less, active, running);
        let removed = removed_at(before, jcode_dir, name, active, running);
        let after = after_pruning(files, jcode_dir, names, active, running);
        let odd = entry_at(jcode_dir, ".bak"@);
        let none = Seq::<char>::empty();
        assert forall|k: int| 0 <= k < less.len() implies names[k] == #[trigger] less[k] by {}
        lemma_settled(files, jcode_dir, less, active, running);
        assert(names[names.len() - 1] == name);
        assert(names.contains(name));
        if less.contains(".bak"@) {
            let k = choose|k: int| 0 <= k < less.len() && less[k] == ".bak"@;
            assert(names[k] == ".bak"@);
        }
        lemma_stem(name, ".bak"@);
        lemma_endings(none);
        assert(none + ".json"@ == ".json"@);
        assert(none + ".bak"@ == ".bak"@);
        if text::without_suffix(name, ".json"@) is None && text::without_suffix(name, ".bak"@)
            is Some {
            let x = text::without_suffix(name, ".bak"@)->0;
            lemma_endings(x);
            lemma_endings_differ(x, none);
            if x.len() > 0 {
                lemma_entries_differ(jcode_dir, x + ".json"@, ".bak"@);
                assert(files.remove(odd).contains_key(status_at(jcode_dir, x)));
                assert(before.contains_key(status_at(jcode_dir, x)));
                assert(removed == Seq::<Seq<char>>::empty());
            } else {
                assert(x == none);
                assert(name == ".bak"@);
            }
        }
        if removed.len() == 0 {
            assert(locations(removed).len() == 0);
            assert(after == before);
        } else {
            assert(removed == seq![entry_path(jcode_dir, name)]);
            assert(locations(removed) == seq![odd]);
            assert forall|at: paths::Location| #[trigger] after.contains_key(at)
                <==> before.contains_key(at) && at != odd by {
                assert(locations(removed)[0] == odd);
            }
            assert(after.remove(odd) == before.remove(odd));
        }
    }
}

/// Pruning again, while the same processes run, changes nothing. The one exception is
/// the backup `.bak` of the session with the empty name: the status file of that
/// session can be removed after its backup was kept on its account.
pub proof fn pruning_twice_is_pruning_once<T>(
    files: Map<paths::Location, T>,
    jcode_dir: Seq<char>,
    names: Seq<Seq<char>>,
    again: Seq<Seq<char>>,
    active: Map<Seq<char>, Seq<char>>,
    running: spec_fn(int) -> bool,
)
    requires
        is_listing(names, files, jcode_dir),
        is_listing(again, after_pruning(files, jcode_dir, names, active, running), jcode_dir),
    ensures
        ({
            let once = after_pruning(files, jcode_dir, names, active, running);
            let twice = after_pruning(once, jcode_dir, again, active, running);
            let odd = entry_at(jcode_dir, ".bak"@);
            &&& twice.remove(odd) == once.remove(odd)
            &&& (once.contains_key(odd) ==> once.contains_key(entry_at(jcode_dir, ".json"@)))
                ==> twice == once
        }),
{
    let once = after_pruning(files, jcode_dir, names, active, running);
    lemma_listed(files, jcode_dir, names);
    lemma_listed(once, jcode_dir, again);
    assert forall|k: int| 0 <= k < again.len() implies (text::without_suffix(
        #[trigger] again[k],
        ".json"@,
    ) matches Some(id) ==> is_live(active, running, id)) by {
        assert(again.contains(again[k]));
        lemma_stem(again[k], ".json"@);
        if text::without_suffix(again[k], ".json"@) is Some {
            let id = text::without_suffix(again[k], ".json"@)->0;
            pruning_keeps_exactly_the_live(files, jcode_dir, names, active, running, id);
        }
    }
    assert forall|k: int| 0 <= k < again.len() implies (text::without_suffix(
        #[trigger] again[k],
        ".bak"@,
    ) matches Some(id) ==> id.len() == 0 || once.contains_key(status_at(jcode_dir, id))) by {
        assert(again.contains(again[k]));
        lemma_stem(again[k], ".bak"@);
        if text::without_suffix(again[k], ".bak"@) is Some {
            let id = text::without_suffix(again[k], ".bak"@)->0;
            lemma_endings(id);
            lemma_pruned(files, jcode_dir, names, active, running, id);
            assert(names.contains(id + ".bak"@));
            assert(names.contains(id + ".json"@) <==> files.contains_key(
                status_at(jcode_dir, id),
            ));
        }
    }
    lemma_settled(once, jcode_dir, again, active, running);
    assert(again.contains(".bak"@) ==> once.contains_key(entry_at(jcode_dir, ".bak"@)));
}

// ---------------------------------------------------------------------------
// Laws of what is published
// ---------------------------------------------------------------------------

/// A session waits where one item of its plan, wherever it stands, has another status
/// than `completed`, and is finished where none has.
pub proof fn one_incomplete_item_makes_a_session_wait(
    statuses: Option<&Vec<String>>,
    i: int,
    r: SessionUiState,
)
    requires
        call_ensures(idle_state_from_todos, (statuses,), r),
    ensures
        statuses is Some && 0 <= i < statuses->0@.len() && statuses->0@[i]@ != "completed"@ ==> r
            == SessionUiState::Waiting,
        statuses is Some && (forall|k: int|
            0 <= k < statuses->0@.len() ==> (#[trigger] statuses->0@[k])@ == "completed"@) ==> r
            == SessionUiState::Finished,
        statuses is None ==> r == SessionUiState::Finished,
{
}

/// The order of the items makes no difference to an idle session: a list that has each
/// item of another, and no others, gives the same state.
pub proof fn the_order_of_items_makes_no_difference(
    a: &Vec<String>,
    b: &Vec<String>,
    in_b: spec_fn(int) -> int,
    in_a: spec_fn(int) -> int,
    ra: SessionUiState,
    rb: SessionUiState,
)
    requires
        forall|i: int|
            0 <= i < a@.len() ==> 0 <= #[trigger] in_b(i) < b@.len() && b@[in_b(i)]@ == a@[i]@,
        forall|i: int|
            0 <= i < b@.len() ==> 0 <= #[trigger] in_a(i) < a@.len() && a@[in_a(i)]@ == b@[i]@,
        call_ensures(idle_state_from_todos, (Some(a),), ra),
        call_ensures(idle_state_from_todos, (Some(b),), rb),
    ensures
        ra == rb,
{
    if ra is Waiting {
        let i = choose|i: int| 0 <= i < a@.len() && (#[trigger] a@[i])@ != "completed"@;
        assert(b@[in_b(i)]@ != "completed"@);
    }
    if rb is Waiting {
        let i = choose|i: int| 0 <= i < b@.len() && (#[trigger] b@[i])@ != "completed"@;
        assert(a@[in_a(i)]@ != "completed"@);
    }
}

/// An idle session waits for one item that is not completed, wherever it stands, and is
/// finished where there is none, or no plan.
pub proof fn idle_is_waiting_or_finished(statuses: Option<Seq<String>>, i: int)
    ensures
        statuses is None ==> idle_state(statuses) == SessionUiState::Finished,
        statuses is Some && 0 <= i < statuses->0.len() && statuses->0[i]@ != "completed"@
            ==> idle_state(statuses) == SessionUiState::Waiting,
        statuses is Some && (forall|k: int|
            0 <= k < statuses->0.len() ==> (#[trigger] statuses->0[k])@ == "completed"@)
            ==> idle_state(statuses) == SessionUiState::Finished,
{
}

/// Whether a write puts a status into the file that is named after the session in the
/// directory for statuses: the layout's first version, with the process and the time.
pub open spec fn writes(
    w: StatusWrite,
    host: StatusHost,
    session_id: Seq<char>,
    state: SessionUiState,
    title: Option<String>,
) -> bool {
    &&& w.path@ == paths::joined_path(
        paths::joined_path(host.jcode_dir->0@, "session_status"@),
        session_id + ".json"@,
    )
    &&& w.status.v == 1
    &&& w.status.state == state
    &&& w.status.title == title
    &&& w.status.pid == host.pid
    &&& host.since_epoch_ms is None ==> w.status.updated_at_ms == 0
    &&& host.since_epoch_ms is Some && host.since_epoch_ms->0 <= u64::MAX
        ==> w.status.updated_at_ms == host.since_epoch_ms->0
    &&& host.since_epoch_ms is Some ==> w.status.updated_at_ms == host.since_epoch_ms->0 as int
        % 0x1_0000_0000_0000_0000
}

/// What is published of a session is written to its file, where there is a directory
/// for it, and nowhere else.
pub proof fn what_is_published_is_written(
    host: &StatusHost,
    session_id: &str,
    state: SessionUiState,
    title: Option<String>,
    r: Option<StatusWrite>,
)
    requires
        call_ensures(publish, (host, session_id, state, title), r) || call_ensures(
            write_session_ui_status,
            (host, session_id, state, title),
            r,
        ),
    ensures
        r is Some <==> host.jcode_dir is Some,
        r is Some ==> writes(r->0, *host, session_id@, state, title),
{
}

/// A turn publishes its session as running when it starts, and when it ends as waiting
/// where an item of its plan is incomplete, else as finished.
pub proof fn a_turn_is_published_from_start_to_end(
    host: &StatusHost,
    session_id: String,
    title: Option<String>,
    started: (TurnStatusGuard, Option<StatusWrite>),
    later: &StatusHost,
    statuses: Option<&Vec<String>>,
    end_title: Option<String>,
    ended: Option<StatusWrite>,
)
    requires
        call_ensures(TurnStatusGuard::new, (host, session_id, title), started),
        call_ensures(TurnStatusGuard::finish, (&started.0, later, statuses, end_title), ended),
    ensures
        started.1 is Some <==> host.jcode_dir is Some,
        started.1 is Some ==> writes(
            started.1->0,
            *host,
            session_id@,
            SessionUiState::Running,
            title,
        ),
        ended is Some <==> later.jcode_dir is Some,
        ended is Some ==> writes(
            ended->0,
            *later,
            session_id@,
            if statuses is Some && exists|i: int|
                0 <= i < statuses->0@.len() && (#[trigger] statuses->0@[i])@ != "completed"@ {
                SessionUiState::Waiting
            } else {
                SessionUiState::Finished
            },
            end_title,
        ),
{
}

/// Every state has its name.
pub proof fn states_have_their_names(state: SessionUiState, r: &'static str)
    requires
        call_ensures(SessionUiState::as_str, (state,), r),
    ensures
        state == SessionUiState::Running ==> r@ == "running"@,
        state == SessionUiState::Waiting ==> r@ == "waiting"@,
        state == SessionUiState::Finished ==> r@ == "finished"@,
        state == SessionUiState::Fresh ==> r@ == "fresh"@,
{
}

/// Clearing a session removes its backup and then its status file. Both are named after
/// the session: the backup with `.bak` in place of `.json`, or behind it where the file
/// name has nothing before it.
pub proof fn clearing_removes_the_files_of_the_session(
    jcode_dir: Option<&str>,
    session_id: &str,
    r: Vec<String>,
)
    requires
        call_ensures(clear_session_ui_status, (jcode_dir, session_id), r),
    ensures
        jcode_dir is None ==> r@.len() == 0,
        jcode_dir is Some ==> ({
            let dir = paths::joined_path(jcode_dir->0@, "session_status"@);
            let id = session_id@;
            &&& r@.len() == 2
            &&& id.len() > 0 && id.last() != '/' ==> r@[0]@ == paths::joined_path(
                dir,
                id + ".bak"@,
            )
            &&& id.len() == 0 || id.last() == '/' ==> r@[0]@ == paths::joined_path(
                dir,
                id + ".json.bak"@,
            )
            &&& r@[1]@ == paths::joined_path(dir, id + ".json"@)
        }),
{
    let all = text::views(r@);
    assert(all.len() == r@.len());
    if jcode_dir is Some {
        assert(all[0] == r@[0]@ && all[1] == r@[1]@);
    }
}

/// Pruning removes what clearing removes, unless the owner is known to run, and a backup
/// only where its status file is gone.
pub proof fn pruning_clears_what_nobody_runs(
    jcode_dir: Option<&str>,
    session_id: &str,
    owner_runs: Option<bool>,
    pruned: Vec<String>,
    cleared: Vec<String>,
)
    requires
        call_ensures(prune_session, (jcode_dir, session_id, owner_runs), pruned),
        call_ensures(clear_session_ui_status, (jcode_dir, session_id), cleared),
    ensures
        owner_runs == Some(true) ==> pruned@.len() == 0,
        owner_runs != Some(true) ==> text::views(pruned@) == text::views(cleared@),
{
    assert(text::views(pruned@).len() == pruned@.len());
}

/// An entry named after a session is asked about by its ending: for a status file, who
/// the owner of the session is; for a backup, whether the status file beside it exists.
/// Other entries stay.
pub proof fn entries_are_asked_about_by_their_ending(
    dir: &str,
    name: Option<&str>,
    id: Seq<char>,
    r: PruneStep,
)
    requires
        call_ensures(prune_step, (dir, name), r),
    ensures
        name is None ==> r is Keep,
        name is Some && name->0@ == id + ".json"@ ==> r is AskOwner && r->session_id@ == id,
        name is Some && name->0@ == id + ".bak"@ ==> r is AskPrimary && r->primary@
            == paths::joined_path(dir@, id + ".json"@) && r->backup@ == paths::joined_path(
            dir@,
            name->0@,
        ),
        name is Some && (forall|stem: Seq<char>| name->0@ != #[trigger] (stem + ".json"@)) && (
        forall|stem: Seq<char>| name->0@ != #[trigger] (stem + ".bak"@)) ==> r is Keep,
{
    if name is Some {
        let n = name->0@;
        lemma_stem(n, ".json"@);
        lemma_stem(n, ".bak"@);
        if n == id + ".json"@ {
            lemma_ending(id, ".json"@);
        }
        if n == id + ".bak"@ {
            lemma_ending(id, ".bak"@);
            if ".json"@.is_suffix_of(n) {
                lemma_endings_differ(text::without_suffix(n, ".json"@)->0, id);
            }
        }
    }
}

proof fn lemma_ending(stem: Seq<char>, ending: Seq<char>)
    ensures
        text::without_suffix(stem + ending, ending) == Some(stem),
{
    let s = stem + ending;
    assert(s.subrange(s.len() - ending.len(), s.len() as int) == ending);
    assert(s.skip(s.len() - ending.len()) == ending);
    assert(s.take(s.len() - ending.len()) == stem);
}

/// The owner of a session is the number that its entry holds, in digits and with nothing
/// but white space around it, if it is one that a process can have.
pub proof fn the_owner_is_the_number_in_its_entry(
    entry: Option<&str>,
    before: Seq<char>,
    n: nat,
    after: Seq<char>,
    r: Option<u32>,
)
    requires
        call_ensures(recorded_owner, (entry,), r),
        forall|i: int| 0 <= i < before.len() ==> CharClass::White.has(#[trigger] before[i]),
        forall|i: int| 0 <= i < after.len() ==> CharClass::White.has(#[trigger] after[i]),
    ensures
        entry is None ==> r is None,
        entry is Some && entry->0@ == before + text::decimal(n) + after ==> r == if n <= u32::MAX {
            Some(n as u32)
        } else {
            None
        },
        r is Some ==> ({
            let t = text::trimmed(entry->0@);
            &&& t.len() > 0
            &&& 48 <= t[0] as u32 <= 57 || t.len() > 1 && t[0] == '+'
            &&& forall|i: int| 1 <= i < t.len() ==> 48 <= (#[trigger] t[i]) as u32 <= 57
        }),
{
    text::lemma_decimal_denotes(n);
    let d = text::decimal(n);
    assert(text::is_digit(d[0]) && text::is_digit(d[d.len() - 1]));
    text::trimming_leaves_what_stands_between(before, d, after, CharClass::White);
    text::a_number_is_read_from_its_notation(n as int, 0, u32::MAX as int);
    if r is Some {
        text::a_number_is_a_sign_and_digits(text::trimmed(entry->0@), 0, u32::MAX as int);
    }
}

} // verus!
