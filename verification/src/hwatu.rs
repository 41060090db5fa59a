//! The hwatu browser daemon: which window a session drives, how requests and
//! responses are framed, and how the daemon is found and started.
//!
//! hwatu is a daemon-based browser for tiling window managers. Its daemon takes
//! one JSON request per connection, on one line, and answers with one line.
use crate::json;
use crate::json::{
    bytes_of_json, get_i64, get_member, get_text, parse_json, ObjectBuilder,
};
use crate::paths;
use crate::paths::join_path;
use crate::text;
use crate::text::{text_eq, trim_text};
use serde_json::Value;
use vstd::prelude::*;
use vstd::string::*;

verus! {

// ---------------------------------------------------------------------------
// The session's window
// ---------------------------------------------------------------------------

/// The window that this process last opened or targeted; zero while there is none.
///
/// The daemon keeps its own last target for commands without an id, but that one
/// is shared by all its clients: another session's window would silently receive
/// this session's commands. Pinning the window here keeps sessions apart.
#[derive(Debug, Clone, Copy)]
pub struct SessionWindow {
    pub id: i64,
}

/// The window that a response names.
pub open spec fn response_window(response: Value) -> Option<int> {
    match json::member(response, "window"@) {
        Some(window) => json::member_integer(window, "id"@),
        None => None,
    }
}

/// The window that a command goes to.
#[derive(Debug, Clone, Copy)]
pub enum WindowChoice {
    /// This one, or the daemon's own choice.
    Settled(Option<i64>),
    /// The remembered one, if it is still open.
    IfOpen(i64),
}

/// The window that a command goes to, where the session has the window `own`: an
/// explicit id always wins.
pub open spec fn chosen_window(
    own: i64,
    window_id: Option<i64>,
    tab_id: Option<i64>,
) -> WindowChoice {
    match (window_id, tab_id) {
        (Some(id), _) => WindowChoice::Settled(Some(id)),
        (None, Some(id)) => WindowChoice::Settled(Some(id)),
        (None, None) => if own == 0 {
            WindowChoice::Settled(None)
        } else {
            WindowChoice::IfOpen(own)
        },
    }
}

/// The remembered window, if it is among those that are open; `windows` is nothing
/// where that is not known.
pub open spec fn still_open(remembered: i64, windows: Option<Seq<Value>>) -> Option<i64> {
    if windows is Some && window_is_open(windows->0, remembered as int) {
        Some(remembered)
    } else {
        None
    }
}

/// Whether a window of the list has the given id.
pub open spec fn window_is_open(windows: Seq<Value>, id: int) -> bool {
    exists|i: int|
        0 <= i < windows.len() && json::member_integer(#[trigger] windows[i], "id"@) == Some(id)
}

impl SessionWindow {
    /// No window yet.
    pub fn new() -> (r: Self)
        ensures
            r.id == 0,
    {
        SessionWindow { id: 0 }
    }

    /// Takes over the window that a response names, if it names one.
    pub fn remember_window(&mut self, response: &Value)
        ensures
            final(self).id == (match response_window(*response) {
                Some(id) => id,
                None => old(self).id as int,
            }),
    {
        if let Some(window) = get_member(response, "window") {
            if let Some(id) = get_i64(window, "id") {
                self.id = id;
            }
        }
    }

    /// The window that a tool call should address: an explicit id always wins, else
    /// the window that this session opened, provided it is still open.
    pub fn choose_window(&self, window_id: Option<i64>, tab_id: Option<i64>) -> (r: WindowChoice)
        ensures
            r == chosen_window(self.id, window_id, tab_id),
    {
        match (window_id, tab_id) {
            (Some(id), _) => WindowChoice::Settled(Some(id)),
            (None, Some(id)) => WindowChoice::Settled(Some(id)),
            (None, None) => if self.id == 0 {
                WindowChoice::Settled(None)
            } else {
                WindowChoice::IfOpen(self.id)
            },
        }
    }

    /// The remembered window, if the daemon still lists it. A window that is gone is
    /// forgotten, and the choice falls back to the daemon; `windows` is nothing
    /// where the daemon could not be asked.
    pub fn session_window_id(&mut self, remembered: i64, windows: Option<&Vec<Value>>) -> (r: Option<
        i64,
    >)
        ensures
            r == still_open(
                remembered,
                match windows {
                    Some(list) => Some(list@),
                    None => None,
                },
            ),
            final(self).id == (if r is Some {
                old(self).id
            } else {
                0
            }),
    {
        if let Some(list) = windows {
            let mut i: usize = 0;
            while i < list.len()
                invariant
                    i <= list@.len(),
                    windows == Some(list),
                    *self == *old(self),
                    forall|k: int|
                        0 <= k < i ==> json::member_integer(#[trigger] list@[k], "id"@) != Some(
                            remembered as int,
                        ),
                decreases list@.len() - i,
            {
                if let Some(id) = get_i64(&list[i], "id") {
                    if id == remembered {
                        assert(json::member_integer(list@[i as int], "id"@) == Some(
                            remembered as int,
                        ));
                        return Some(remembered);
                    }
                }
                i += 1;
            }
        }
        self.id = 0;
        None
    }
}

// ---------------------------------------------------------------------------
// Requests and responses
// ---------------------------------------------------------------------------

/// The line that carries a request.
pub open spec fn line_of(request: Value) -> Seq<u8> {
    json::json_bytes(request).push(10u8)
}

/// The line that carries a request: its JSON notation and a line feed, which is the
/// only one.
pub fn request_line(request: &Value) -> (r: Result<Vec<u8>, serde_json::Error>)
    ensures
        r matches Ok(line) && line@ == line_of(*request),
        r matches Ok(line) && forall|i: int| 0 <= i < line@.len() - 1 ==> line@[i] != 10u8,
{
    match bytes_of_json(request) {
        Ok(mut bytes) => {
            bytes.push(10u8);
            Ok(bytes)
        },
        Err(e) => Err(e),
    }
}

/// Why a response is no answer.
#[derive(Debug)]
pub enum IpcError {
    /// The line is not JSON.
    BadResponse(serde_json::Error),
    /// The daemon reports an error.
    Daemon(String),
}

/// The words in which an error is reported.
pub open spec fn ipc_error_text(e: IpcError) -> Seq<char> {
    match e {
        IpcError::BadResponse(_) => "bad response from hwatu daemon"@,
        IpcError::Daemon(message) => "hwatu: "@ + message@,
    }
}

impl IpcError {
    /// The words in which the error is reported.
    pub fn message(&self) -> (r: String)
        ensures
            r@ == ipc_error_text(*self),
    {
        match self {
            IpcError::BadResponse(_) => "bad response from hwatu daemon".to_owned(),
            IpcError::Daemon(message) => "hwatu: ".to_owned().concat(message.as_str()),
        }
    }
}

/// The error that a response reports, if its status says so.
pub open spec fn reported_error(response: Value) -> Option<Seq<char>> {
    if json::member_text(response, "status"@) == Some("err"@) {
        Some(
            match json::member_text(response, "message"@) {
                Some(message) => message,
                None => "unknown hwatu error"@,
            },
        )
    } else {
        None
    }
}

/// Passes a response on, unless it reports an error.
pub fn check_response(response: Value) -> (r: Result<Value, IpcError>)
    ensures
        match reported_error(response) {
            Some(message) => r matches Err(IpcError::Daemon(m)) && m@ == message,
            None => r == Ok::<Value, IpcError>(response),
        },
{
    let status: Option<String> = get_text(&response, "status");
    let failed: bool = match &status {
        Some(s) => text_eq(s.as_str(), "err"),
        None => false,
    };
    if failed {
        let message: String = match get_text(&response, "message") {
            Some(m) => m,
            None => "unknown hwatu error".to_owned(),
        };
        return Err(IpcError::Daemon(message));
    }
    Ok(response)
}

/// Reads the line that carries a response.
pub fn read_response(line: &str) -> (r: Result<Value, IpcError>)
    ensures
        match json::json_document(text::trimmed(line@)) {
            Some(response) => match reported_error(response) {
                Some(message) => r matches Err(IpcError::Daemon(m)) && m@ == message,
                None => r == Ok::<Value, IpcError>(response),
            },
            None => r matches Err(IpcError::BadResponse(_)),
        },
{
    match parse_json(trim_text(line).as_str()) {
        Ok(response) => check_response(response),
        Err(e) => Err(IpcError::BadResponse(e)),
    }
}

/// The request that asks whether the daemon is there.
pub fn ping_request() -> (r: Value)
    ensures
        json::object_fields(r) == command("ping"@),
{
    let mut b: ObjectBuilder = ObjectBuilder::new();
    b.set_text("cmd", "ping");
    b.build()
}

/// The request that asks for the open windows. Windows double as tabs: hwatu has
/// none, the window manager tiles windows.
pub fn list_request() -> (r: Value)
    ensures
        json::object_fields(r) == command("list"@),
{
    let mut b: ObjectBuilder = ObjectBuilder::new();
    b.set_text("cmd", "list");
    b.build()
}

/// The fields of a request that consists of a command.
pub open spec fn command(cmd: Seq<char>) -> Map<Seq<char>, json::JsonView> {
    Map::<Seq<char>, json::JsonView>::empty().insert("cmd"@, json::JsonView::Text(cmd))
}

/// The fields of a request to run a script in a window.
pub open spec fn eval_fields(
    window_id: Option<i64>,
    js: Seq<char>,
    timeout_ms: Option<u64>,
) -> Map<Seq<char>, json::JsonView> {
    json::with_integer(
        json::with_integer(
            command("eval"@).insert("js"@, json::JsonView::Text(js)),
            "id"@,
            opt_i64(window_id),
        ),
        "timeout_ms"@,
        opt_u64(timeout_ms),
    )
}

/// An optional number as an integer.
pub open spec fn opt_i64(n: Option<i64>) -> Option<int> {
    match n {
        Some(n) => Some(n as int),
        None => None,
    }
}

/// An optional number as an integer.
pub open spec fn opt_u64(n: Option<u64>) -> Option<int> {
    match n {
        Some(n) => Some(n as int),
        None => None,
    }
}

/// The request to run the body of a script function in a window.
pub fn eval_request(window_id: Option<i64>, js: &str, timeout_ms: Option<u64>) -> (r: Value)
    ensures
        json::object_fields(r) == eval_fields(window_id, js@, timeout_ms),
{
    let mut b: ObjectBuilder = ObjectBuilder::new();
    b.set_text("cmd", "eval");
    b.set_text("js", js);
    b.set_i64("id", window_id);
    b.set_u64("timeout_ms", timeout_ms);
    b.build()
}

/// A member of a response, or the null value.
pub open spec fn is_member_or_null(v: Value, response: Value, key: Seq<char>) -> bool {
    match json::member(response, key) {
        Some(m) => v == m,
        None => json::json_view(v) == json::JsonView::Null,
    }
}

/// A member of a response, or the null value.
pub fn member_or_null(response: &Value, key: &str) -> (r: Value)
    ensures
        is_member_or_null(r, *response, key@),
{
    match get_member(response, key) {
        Some(v) => json::clone_value(v),
        None => json::null_value(),
    }
}

/// The windows that a response lists.
pub open spec fn listed_windows(response: Value) -> Seq<Value> {
    match json::member(response, "windows"@) {
        Some(v) => match json::json_view(v) {
            json::JsonView::Array(items) => items,
            _ => Seq::empty(),
        },
        None => Seq::empty(),
    }
}

/// The windows that a response lists; none where it has no such list.
pub fn list_windows(response: &Value) -> (r: Vec<Value>)
    ensures
        r@ == listed_windows(*response),
{
    match get_member(response, "windows") {
        Some(v) => match v.as_array() {
            Some(items) => clone_values(items),
            None => Vec::new(),
        },
        None => Vec::new(),
    }
}

fn clone_values(items: &Vec<Value>) -> (r: Vec<Value>)
    ensures
        r@ == items@,
{
    let mut out: Vec<Value> = Vec::new();
    let mut i: usize = 0;
    while i < items.len()
        invariant
            i <= items@.len(),
            out@ == items@.take(i as int),
        decreases items@.len() - i,
    {
        out.push(json::clone_value(&items[i]));
        i += 1;
    }
    out
}

// ---------------------------------------------------------------------------
// Finding and starting the daemon
// ---------------------------------------------------------------------------

/// The daemon's socket, in the runtime directory.
pub fn socket_path(runtime_dir: Option<&str>) -> (r: Option<String>)
    ensures
        text::opt_view(r) == (match runtime_dir {
            Some(dir) => Some(paths::joined_path(dir@, "hwatu.sock"@)),
            None => None,
        }),
{
    match runtime_dir {
        Some(dir) => Some(join_path(dir, "hwatu.sock")),
        None => None,
    }
}

/// Where the client program may be, in the order in which it is looked for.
pub open spec fn candidates_of(
    explicit: Option<Seq<char>>,
    home: Option<Seq<char>>,
    path_dirs: Seq<Seq<char>>,
) -> Seq<Seq<char>> {
    let first = match explicit {
        Some(p) => seq![p],
        None => Seq::empty(),
    };
    let second = match home {
        Some(h) => seq![paths::joined_path(h, ".local/bin/hwatu"@)],
        None => Seq::empty(),
    };
    first + second + path_dirs.map_values(|d: Seq<char>| paths::joined_path(d, "hwatu"@))
}

/// Where the client program may be: the configured place, the user's own
/// programs, then each directory of the search path.
pub fn hwatu_candidates(
    explicit: Option<&str>,
    home: Option<&str>,
    path_dirs: &Vec<String>,
) -> (r: Vec<String>)
    ensures
        text::views(r@) == candidates_of(
            text::opt_str_view(explicit),
            text::opt_str_view(home),
            text::views(path_dirs@),
        ),
{
    let mut out: Vec<String> = Vec::new();
    if let Some(p) = explicit {
        out.push(p.to_owned());
    }
    if let Some(h) = home {
        out.push(join_path(h, ".local/bin/hwatu"));
    }
    let ghost fixed = text::views(out@);
    let ghost below = |d: Seq<char>| paths::joined_path(d, "hwatu"@);
    let ghost dirs = text::views(path_dirs@);
    let mut i: usize = 0;
    assert(fixed + dirs.take(0).map_values(below) == fixed);
    while i < path_dirs.len()
        invariant
            i <= path_dirs@.len(),
            dirs == text::views(path_dirs@),
            below == (|d: Seq<char>| paths::joined_path(d, "hwatu"@)),
            text::views(out@) == fixed + dirs.take(i as int).map_values(below),
        decreases path_dirs@.len() - i,
    {
        let ghost before = out@;
        let place: String = join_path(path_dirs[i].as_str(), "hwatu");
        out.push(place);
        proof {
            assert(text::views(out@) == text::views(before).push(place@));
            assert(dirs.take(i + 1).map_values(below) == dirs.take(i as int).map_values(below).push(
                place@,
            ));
        }
        i += 1;
    }
    assert(dirs.take(i as int) == dirs);
    proof {
        let e = text::opt_str_view(explicit);
        let h = text::opt_str_view(home);
        assert(fixed == (match e {
            Some(p) => seq![p],
            None => Seq::empty(),
        }) + (match h {
            Some(h) => seq![paths::joined_path(h, ".local/bin/hwatu"@)],
            None => Seq::empty(),
        }));
    }
    out
}

/// The first of the candidates that exists. `P` is the type of a place.
pub fn hwatu_binary<P>(candidates: Vec<P>, present: &Vec<bool>) -> (r: Option<P>)
    requires
        present@.len() == candidates@.len(),
    ensures
        match r {
            Some(path) => exists|i: int|
                0 <= i < candidates@.len() && #[trigger] present@[i] && path == candidates@[i] && (
                forall|k: int| 0 <= k < i ==> !present@[k]),
            None => forall|i: int| 0 <= i < candidates@.len() ==> !present@[i],
        },
{
    let mut i: usize = 0;
    while i < candidates.len()
        invariant
            i <= candidates@.len(),
            present@.len() == candidates@.len(),
            forall|k: int| 0 <= k < i ==> !present@[k],
        decreases candidates@.len() - i,
    {
        if present[i] {
            assert(present@[i as int]);
            let mut places: Vec<P> = candidates;
            return Some(places.swap_remove(i));
        }
        i += 1;
    }
    None
}

/// Whether hwatu can be used: its socket exists (the daemon is likely up) or the
/// client program is installed (the daemon can be started).
pub fn hwatu_available(socket_exists: bool, binary_installed: bool) -> (r: bool)
    ensures
        r == (socket_exists || binary_installed),
{
    socket_exists || binary_installed
}

/// What is to be done next to have the daemon up. `P` is the type of a place.
#[derive(Debug)]
pub enum DaemonAction<P> {
    /// Ask the daemon whether it is there.
    Ping,
    /// Run the client program with the argument `ping`, which starts the daemon.
    Start { binary: P },
    /// The daemon is up.
    Ready,
    /// The daemon cannot be had.
    Fail { message: String },
}

/// How far the attempt to have the daemon up has come.
#[derive(Debug, Clone, Copy, PartialEq, Eq, Structural)]
pub enum DaemonStage {
    /// It was asked for the first time.
    FirstPing,
    /// The client program was run.
    Started,
    /// It was asked for the second time.
    SecondPing,
    /// The attempt is over.
    Closed,
}

/// What the client program did.
#[derive(Debug)]
pub struct StartReport {
    pub success: bool,
    /// What it wrote to its standard error.
    pub stderr: String,
}

/// What happened outside.
#[derive(Debug)]
pub enum DaemonEvent<P> {
    /// Whether the daemon answered, and where the client program is.
    Pinged { answered: bool, binary: Option<P> },
    /// The client program ran, or why it did not.
    Ran(Result<StartReport, String>),
}

/// How far a stage is from the start.
pub open spec fn daemon_rank(stage: DaemonStage) -> int {
    match stage {
        DaemonStage::FirstPing => 0,
        DaemonStage::Started => 1,
        DaemonStage::SecondPing => 2,
        DaemonStage::Closed => 3,
    }
}

/// Whether an event can happen at a stage.
pub open spec fn daemon_event_fits<P>(stage: DaemonStage, event: DaemonEvent<P>) -> bool {
    match event {
        DaemonEvent::Pinged { .. } => stage == DaemonStage::FirstPing || stage
            == DaemonStage::SecondPing,
        DaemonEvent::Ran(_) => stage == DaemonStage::Started,
    }
}

/// One step towards a daemon that is up: ask it; if it is down, start it through
/// the client program and ask again. Each step leads to a later stage, so the attempt
/// ends, and it ends exactly when the daemon is up or cannot be had.
pub fn ensure_daemon<P>(stage: DaemonStage, event: DaemonEvent<P>) -> (r: (
    DaemonStage,
    DaemonAction<P>,
))
    requires
        daemon_event_fits(stage, event),
    ensures
        match event {
            DaemonEvent::Pinged { answered, binary } => {
                if answered {
                    r.0 == DaemonStage::Closed && r.1 is Ready
                } else if stage == DaemonStage::SecondPing {
                    &&& r.0 == DaemonStage::Closed
                    &&& r.1 matches DaemonAction::Fail { message } && message@
                        == "hwatu daemon started but its socket is not responding"@
                } else {
                    match binary {
                        Some(path) => r.0 == DaemonStage::Started && r.1 == (
                        DaemonAction::Start { binary: path }),
                        None => {
                            &&& r.0 == DaemonStage::Closed
                            &&& r.1 matches DaemonAction::Fail { message } && message@
                                == "hwatu is not installed (no hwatu binary on PATH or in ~/.local/bin). Install it from https://github.com/hongnoul/hwatu"@
                        },
                    }
                }
            },
            DaemonEvent::Ran(Ok(report)) => if report.success {
                r.0 == DaemonStage::SecondPing && r.1 is Ping
            } else {
                &&& r.0 == DaemonStage::Closed
                &&& r.1 matches DaemonAction::Fail { message } && message@
                    == "could not start the hwatu daemon: "@ + text::trimmed(report.stderr@)
            },
            DaemonEvent::Ran(Err(e)) => {
                &&& r.0 == DaemonStage::Closed
                &&& r.1 matches DaemonAction::Fail { message } && message == e
            },
        },
        daemon_rank(r.0) > daemon_rank(stage),
        r.0 == DaemonStage::Closed <==> r.1 is Ready || r.1 is Fail,
{
    match event {
        DaemonEvent::Pinged { answered, binary } => {
            if answered {
                return (DaemonStage::Closed, DaemonAction::Ready);
            }
            if stage == DaemonStage::SecondPing {
                return (
                    DaemonStage::Closed,
                    DaemonAction::Fail {
                        message: "hwatu daemon started but its socket is not responding".to_owned(),
                    },
                );
            }
            match binary {
                Some(path) => (DaemonStage::Started, DaemonAction::Start { binary: path }),
                None => (
                    DaemonStage::Closed,
                    DaemonAction::Fail {
                        message: "hwatu is not installed (no hwatu binary on PATH or in ~/.local/bin). Install it from https://github.com/hongnoul/hwatu".to_owned(),
                    },
                ),
            }
        },
        DaemonEvent::Ran(Ok(report)) => {
            if report.success {
                (DaemonStage::SecondPing, DaemonAction::Ping)
            } else {
                let message: String = "could not start the hwatu daemon: ".to_owned().concat(
                    trim_text(report.stderr.as_str()).as_str(),
                );
                (DaemonStage::Closed, DaemonAction::Fail { message })
            }
        },
        DaemonEvent::Ran(Err(e)) => (DaemonStage::Closed, DaemonAction::Fail { message: e }),
    }
}

// ---------------------------------------------------------------------------
// Laws
// ---------------------------------------------------------------------------

/// A script that is to run in a window is sent with the id of that window.
pub proof fn a_script_names_its_window(id: i64, js: Seq<char>, timeout_ms: Option<u64>)
    ensures
        eval_fields(Some(id), js, timeout_ms).contains_key("id"@),
        eval_fields(Some(id), js, timeout_ms)["id"@] == json::JsonView::Integer(id as int),
        eval_fields(Some(id), js, timeout_ms)["js"@] == json::JsonView::Text(js),
{
    reveal_strlit("id");
    reveal_strlit("js");
    reveal_strlit("timeout_ms");
    assert("id"@[0] != "js"@[0]);
    assert("timeout_ms"@.len() == 10);
}

/// A request goes out as its JSON notation and one line feed behind it.
pub proof fn a_request_is_one_line(request: &Value, r: Result<Vec<u8>, serde_json::Error>)
    requires
        call_ensures(request_line, (request,), r),
    ensures
        r is Ok,
        r->Ok_0@ == json::json_bytes(*request) + seq![10u8],
{
    assert(json::json_bytes(*request).push(10u8) == json::json_bytes(*request) + seq![10u8]);
}

} // verus!
