//! The two hook events: the verdict before a tool runs, and the trace after.
pub mod post_tool;
pub mod pre_tool;
