//! Decision logic of a coding agent's runtime: task-graph growth and mutation,
//! browser automation over a daemon socket, account credentials, session status
//! files and the keyboard scroll step.

pub mod graph_growth;
pub mod hwatu;
pub mod hwatu_action;
pub mod hwatu_laws;
pub mod hwatu_scripts;
pub mod json;
pub mod muse;
pub mod paths;
pub mod scroll_step;
pub mod session_status;
pub mod string_map;
pub mod swarm;
pub mod task_graph;
pub mod text;
