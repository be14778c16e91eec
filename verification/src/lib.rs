//! Lifecycle management for OS child processes launched on behalf of a
//! scripting host: spawning with configurable standard-stream routing,
//! registering the resulting handles under integer identifiers, observing
//! process termination, and gating everything behind a capability pre-check.
//!
//! The library holds the decision logic and the resource registry; the
//! operating-system steps themselves (spawning, polling, signal delivery)
//! are carried out by the embedding host, which executes the plans this
//! library produces and hands the outcomes back.

pub mod errors;
pub mod handles;
pub mod kill;
pub mod laws;
pub mod perms;
pub mod registry;
pub mod run;
pub mod status;
pub mod stdio;
