//! Decision core of a guard that sits between a coding agent and its tools:
//! summaries of tool calls, the pre-tool permission verdict, trace entries,
//! rollback planning and the small formatting rules of the command line.
pub mod clock;
pub mod history;
pub mod hook;
pub mod locks;
pub mod rollback;
pub mod text;
pub mod trace_dir;
pub mod types;
