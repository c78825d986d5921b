//! An incremental, cancellable job-orchestration pipeline for an interactive
//! terminal search tool: as the query changes, a search subprocess is
//! superseded and respawned; its output lines are parsed into records; a
//! per-selection preview render runs beside it. The library holds the state
//! machine, the line parser and the argument builders; the surrounding
//! program spawns the processes and feeds their output back as events.
pub mod ansi;
pub mod job;
pub mod laws;
pub mod manager;
pub mod options;
pub mod parse;
pub mod preview;
pub mod text;
