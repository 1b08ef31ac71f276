//! A polling-based filesystem change detector.
//!
//! A client registers a set of target paths, then periodically asks the
//! watcher to compare each path's freshly probed state against its
//! remembered state and report the transition (creation, modification,
//! deletion, or no change) for each target.
//!
//! The watcher is a passive object: it performs no filesystem access of
//! its own. The caller probes each path and hands the observed states in;
//! the watcher classifies the transitions and remembers the new states.

pub mod state;
pub mod watcher;
