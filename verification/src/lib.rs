//! Build-dispatch and watch-trigger engine for a multi-crate project.
//!
//! The library reads a declarative configuration describing a set of
//! buildable units, decides which units require action for a given mode
//! (one-shot `build` vs. continuous `watch`), plans one external build
//! invocation per actionable unit, registers linkable outputs for a local
//! package-manager linking step, and — in watch mode — coalesces change
//! events per unit into debounced, single-flight rebuild triggers.
//!
//! External work (process spawning, file monitoring, configuration-file
//! parsing) is left to the caller; this crate computes and proves the policy.

pub mod cli;
pub mod config;
pub mod dispatch;
pub mod link;
pub mod paths;
pub mod watch;
