//! Command layer: the parsed command a caller hands the library, and the
//! entry points that plan each command's work.
//!
//! Argument parsing, configuration-file reading and process spawning stay
//! with the caller; the functions here turn an already-parsed command and
//! an already-validated configuration into exact plans.

use vstd::prelude::*;
use vstd::string::StringExecFns;

use crate::config::{Mode, RswConfig};
use crate::dispatch::{dispatch, registry_of, selected, idxs_of, BuildSummary};
use crate::paths::{crate_info_line, info_line_of};
use crate::watch::{initial_watches, states_of, WatchEngine, DEFAULT_DEBOUNCE_MS};

verus! {

/// The subcommands the tool accepts.
pub enum Commands {
    /// Generate the configuration file.
    Init,
    /// Build the configured units once, for shipping.
    Build,
    /// Rebuild local changes automatically, for development.
    Watch,
    /// Undo local linking and remove build outputs.
    Clean,
    /// Scaffold a new unit, optionally from a template.
    New { name: String, template: Option<String>, mode: Option<String> },
}

/// One parsed invocation of the tool.
pub struct Cli {
    pub command: Commands,
}

impl Cli {
    /// Wraps an already-parsed command.
    pub fn new(command: Commands) -> (c: Cli)
        ensures
            c.command == command,
    {
        Cli { command }
    }

    /// Plans a one-shot `build` pass over the configuration.
    pub fn rsw_build(config: &RswConfig) -> (r: BuildSummary)
        ensures
            idxs_of(r.tasks@) == selected(config@.crates, Mode::Build),
            forall|k: int| 0 <= k < r.tasks@.len() ==> r.tasks@[k] < config@.crates.len(),
            r.registry@ == registry_of(config@.cli, config@.crates, Mode::Build),
            r.no_crates == (selected(config@.crates, Mode::Build).len() == 0),
            r.is_link == false,
    {
        Cli::wp_build(config, Mode::Build, false)
    }

    /// Plans `watch` mode: the initial full pass (so the initial state is
    /// always built) plus a fresh Watch Engine, one monitor per
    /// `watch_run` unit. The caller runs the plan's builds and linking
    /// first, then installs the monitors and drives the engine.
    pub fn rsw_watch(config: &RswConfig) -> (r: (BuildSummary, WatchEngine))
        ensures
            idxs_of(r.0.tasks@) == selected(config@.crates, Mode::Watch),
            forall|k: int| 0 <= k < r.0.tasks@.len() ==> r.0.tasks@[k] < config@.crates.len(),
            r.0.registry@ == registry_of(config@.cli, config@.crates, Mode::Watch),
            r.0.no_crates == (selected(config@.crates, Mode::Watch).len() == 0),
            r.0.is_link == true,
            r.1.debounce_ms == DEFAULT_DEBOUNCE_MS,
            states_of(r.1.crates@) == initial_watches(config@.crates),
    {
        let summary = Cli::wp_build(config, Mode::Watch, true);
        let engine = WatchEngine::new(config, DEFAULT_DEBOUNCE_MS);
        (summary, engine)
    }

    /// The per-crate summary recorded for the user when the configuration
    /// is taken in: one `name :~> normalized-output-path` line per unit,
    /// in configuration order. The caller writes the joined lines to the
    /// record file.
    pub fn parse_toml(config: &RswConfig) -> (lines: Vec<String>)
        ensures
            lines@.len() == config@.crates.len(),
            forall|i: int|
                0 <= i < lines@.len() ==> lines@[i]@ == info_line_of(config@.crates[i]),
    {
        let mut lines: Vec<String> = Vec::new();
        let n = config.crates.len();
        let mut idx: usize = 0;
        while idx < n
            invariant
                n == config@.crates.len(),
                idx <= n,
                lines@.len() == idx,
                forall|i: int|
                    0 <= i < idx ==> lines@[i]@ == info_line_of(config@.crates[i]),
            decreases n - idx,
        {
            let c = &config.crates[idx];
            lines.push(crate_info_line(&c.root, &c.name, &c.out_dir));
            idx += 1;
        }
        lines
    }

    /// One dispatch pass: see `dispatch`. `is_link` is handed through to
    /// each external build invocation.
    pub fn wp_build(config: &RswConfig, mode: Mode, is_link: bool) -> (r: BuildSummary)
        ensures
            idxs_of(r.tasks@) == selected(config@.crates, mode),
            forall|k: int| 0 <= k < r.tasks@.len() ==> r.tasks@[k] < config@.crates.len(),
            r.registry@ == registry_of(config@.cli, config@.crates, mode),
            r.no_crates == (selected(config@.crates, mode).len() == 0),
            r.is_link == is_link,
    {
        dispatch(config, mode, is_link)
    }

    /// The status-artifact content the watch notification hook records
    /// after a successful rebuild of `name` triggered by a change to
    /// `path`.
    pub fn watch_info_content(name: &String, path: &String) -> (r: String)
        ensures
            r@ == "[RSW::OK]\n[RSW::NAME] :~> "@ + name@ + "\n[RSW::PATH] :~> "@ + path@,
    {
        let mut s: String = "[RSW::OK]\n[RSW::NAME] :~> ".to_owned();
        s.append(name.as_str());
        s.append("\n[RSW::PATH] :~> ");
        s.append(path.as_str());
        proof {
            assert(s@ =~= "[RSW::OK]\n[RSW::NAME] :~> "@ + name@ + "\n[RSW::PATH] :~> "@
                + path@);
        }
        s
    }
}

} // verus!
