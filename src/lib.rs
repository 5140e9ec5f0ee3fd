//! The core of a command supervisor: it reruns a build or check command when
//! watched files change, streams the command's output, and reacts to the
//! user's keys. The decisions of the supervision live here; processes,
//! threads and channels are driven by the caller.

pub mod change_filter;
pub mod executor;
pub mod export_settings;
pub mod line_type;
pub mod orchestrator;
pub mod text;
