# jcode

Decision logic of a coding agent's runtime, written in Rust and proved with Verus.

The library in `src/` decides; it does no input or output of its own. What it decides
about:

- `graph_growth`, `task_graph`, `swarm`: when a swarm's task graph may grow, who
  coordinates a swarm, and how requests that change a graph are served;
- `hwatu`, `hwatu_action`, `hwatu_scripts`: how browser actions become requests to the
  hwatu daemon, and its responses become outputs;
- `muse`: accounts, and which credentials are used;
- `session_status`: which status files are written, read and pruned;
- `scroll_step`: how far one press of a scroll key travels.

`text`, `paths`, `string_map` and `json` are what these modules are built from.

Every function states in its `ensures` what it returns. Properties that relate several
functions stand as public proof functions at the end of each module, under "Laws".

What is taken on trust is marked `external_body` or `assume_specification`: calls into
`serde_json`, `base64`, `chrono` and a few functions of the standard library, each with a
comment that says what is claimed of it.

`app/` is the ordinary Rust around the library: files, sockets, processes, channels and
locks. `tests/` runs the library.
