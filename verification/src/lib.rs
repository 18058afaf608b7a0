//! Process-lifecycle core of a multi-mode node application.
//!
//! The crate models the service supervisor of the node: it selects exactly
//! one operating mode from resolved command-line configuration, builds the
//! shared runtime context, plans the launch of the selected mode, and
//! coordinates a single, race-free shutdown whose first accepted reason
//! determines the process exit status.

pub mod context;
pub mod errors;
pub mod modes;
pub mod network;
pub mod shutdown;
pub mod startup;
pub mod strutil;
pub mod supervisor;
