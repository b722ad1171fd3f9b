//! Configuration model: the immutable description of the project's buildable
//! units and global settings, supplied ready-made by the configuration
//! collaborator (this layer does not read or parse configuration files).

use vstd::prelude::*;

verus! {

/// The dispatch mode: a one-shot `build` pass, or the initial pass of
/// `watch` mode.
#[derive(Clone, Copy, Debug, PartialEq, Eq, Structural)]
pub enum Mode {
    Build,
    Watch,
}

/// One buildable unit.
///
/// `root` is the filesystem path holding the unit's directory `root/name`;
/// `out_dir` is the path under `root/name` where build artifacts land.
/// `build_run` / `watch_run` say whether the unit takes part in `build`
/// mode / `watch` mode; `link` says whether its output is registered for
/// local package linking.
pub struct CrateConfig {
    pub name: String,
    pub root: String,
    pub out_dir: String,
    pub build_run: bool,
    pub watch_run: bool,
    pub link: bool,
}

/// Mathematical image of one `CrateConfig`.
pub ghost struct CrateView {
    pub name: Seq<char>,
    pub root: Seq<char>,
    pub out_dir: Seq<char>,
    pub build_run: bool,
    pub watch_run: bool,
    pub link: bool,
}

impl View for CrateConfig {
    type V = CrateView;

    open spec fn view(&self) -> CrateView {
        CrateView {
            name: self.name@,
            root: self.root@,
            out_dir: self.out_dir@,
            build_run: self.build_run,
            watch_run: self.watch_run,
            link: self.link,
        }
    }
}

/// The whole-project configuration: the package-manager identifier and the
/// ordered list of units. Immutable for the lifetime of one invocation.
pub struct RswConfig {
    pub cli: String,
    pub crates: Vec<CrateConfig>,
}

/// Mathematical image of an `RswConfig`.
pub ghost struct RswView {
    pub cli: Seq<char>,
    pub crates: Seq<CrateView>,
}

impl View for RswConfig {
    type V = RswView;

    open spec fn view(&self) -> RswView {
        RswView { cli: self.cli@, crates: Seq::new(self.crates@.len(), |i: int| self.crates@[i]@) }
    }
}

/// A unit is actionable for a mode iff the matching run flag is set.
pub open spec fn actionable(c: CrateView, mode: Mode) -> bool {
    match mode {
        Mode::Build => c.build_run,
        Mode::Watch => c.watch_run,
    }
}

/// The configured package manager supports local linking iff it is `npm`.
pub open spec fn supports_link(cli: Seq<char>) -> bool {
    cli == "npm"@
}

/// The configuration invariant the configuration collaborator establishes
/// before dispatch begins: unit names are unique across the crate list.
pub open spec fn names_unique(crates: Seq<CrateView>) -> bool {
    forall|i: int, j: int|
        0 <= i < j < crates.len() ==> crates[i].name != crates[j].name
}

} // verus!
