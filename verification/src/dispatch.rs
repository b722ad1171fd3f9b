//! Build Dispatcher: selects the units that require action for a mode,
//! plans one external build invocation per actionable unit, and populates
//! the Link Registry.
//!
//! The dispatcher itself performs no process spawning: it returns the exact
//! ordered plan, and the caller invokes the external build tool once per
//! planned unit, in order, streaming output as it occurs. A build failure
//! for one unit never removes later units from the plan (partial-failure
//! semantics), so the plan is complete up front.

use vstd::prelude::*;

use crate::config::{actionable, names_unique, supports_link, CrateView, Mode, RswConfig};
use crate::link::LinkRegistry;
use crate::paths::{crate_out_path, out_path_of};

verus! {

/// The indices of the units actionable for `mode`, in configuration order.
pub open spec fn selected(crates: Seq<CrateView>, mode: Mode) -> Seq<int>
    decreases crates.len(),
{
    if crates.len() == 0 {
        Seq::empty()
    } else {
        let pre = selected(crates.drop_last(), mode);
        if actionable(crates.last(), mode) {
            pre.push(crates.len() - 1)
        } else {
            pre
        }
    }
}

/// A unit enters the Link Registry iff it is actionable for the mode,
/// asks for linking, and the configured package manager supports linking.
pub open spec fn registers_link(c: CrateView, cli: Seq<char>, mode: Mode) -> bool {
    actionable(c, mode) && supports_link(cli) && c.link
}

/// The registry contents a dispatch pass produces: one `(name, output
/// path)` pair per link-registered unit, in configuration order.
pub open spec fn registry_of(cli: Seq<char>, crates: Seq<CrateView>, mode: Mode) -> Seq<
    (Seq<char>, Seq<char>),
>
    decreases crates.len(),
{
    if crates.len() == 0 {
        Seq::empty()
    } else {
        let pre = registry_of(cli, crates.drop_last(), mode);
        let c = crates.last();
        if registers_link(c, cli, mode) {
            pre.push((c.name, out_path_of(c)))
        } else {
            pre
        }
    }
}

/// The index list of a build plan, as mathematical integers.
pub open spec fn idxs_of(v: Seq<usize>) -> Seq<int> {
    v.map_values(|u: usize| u as int)
}

/// What one dispatch pass decides: the ordered build plan, the Link
/// Registry, whether nothing was actionable, and the link-profile flag the
/// external build tool is invoked with.
pub struct BuildSummary {
    /// Indices into the configuration's crate list, one per planned build,
    /// in configuration order.
    pub tasks: Vec<usize>,
    /// The `(name, output path)` pairs registered for local linking.
    pub registry: LinkRegistry,
    /// True iff no unit was actionable for the requested mode: the caller
    /// reports the "no crates selected" condition and exits non-zero.
    pub no_crates: bool,
    /// Passed through to each external build invocation.
    pub is_link: bool,
}

/// Plans one dispatch pass: every unit actionable for `mode` is built
/// exactly once, in configuration order, and every actionable unit that
/// asks for linking under a link-capable package manager is registered
/// with its `root/name/out_dir` output path.
pub fn dispatch(config: &RswConfig, mode: Mode, is_link: bool) -> (r: BuildSummary)
    ensures
        idxs_of(r.tasks@) == selected(config@.crates, mode),
        forall|k: int| 0 <= k < r.tasks@.len() ==> r.tasks@[k] < config@.crates.len(),
        r.registry@ == registry_of(config@.cli, config@.crates, mode),
        r.no_crates == (selected(config@.crates, mode).len() == 0),
        r.is_link == is_link,
{
    let ghost cv = config@.crates;
    let npm: String = "npm".to_owned();
    let mut tasks: Vec<usize> = Vec::new();
    let mut registry = LinkRegistry::new();
    let n = config.crates.len();
    let mut idx: usize = 0;
    proof {
        assert(cv.take(0) =~= Seq::<CrateView>::empty());
        assert(idxs_of(tasks@) =~= Seq::<int>::empty());
    }
    while idx < n
        invariant
            n == config@.crates.len(),
            cv == config@.crates,
            npm@ == "npm"@,
            idx <= n,
            idxs_of(tasks@) == selected(cv.take(idx as int), mode),
            forall|k: int| 0 <= k < tasks@.len() ==> tasks@[k] < n,
            registry@ == registry_of(config@.cli, cv.take(idx as int), mode),
        decreases n - idx,
    {
        let ghost prev_tasks = idxs_of(tasks@);
        let ghost prev_reg = registry@;
        proof {
            assert(cv.take(idx as int + 1).drop_last() =~= cv.take(idx as int));
            assert(cv.take(idx as int + 1).last() == cv[idx as int]);
        }
        let c = &config.crates[idx];
        proof {
            assert(c@ == cv[idx as int]);
        }
        let run = match mode {
            Mode::Build => c.build_run,
            Mode::Watch => c.watch_run,
        };
        if run {
            tasks.push(idx);
            proof {
                assert(idxs_of(tasks@) =~= prev_tasks.push(idx as int));
            }
            if config.cli == npm && c.link {
                let path = crate_out_path(&c.root, &c.name, &c.out_dir);
                registry.insert(c.name.clone(), path);
            }
        }
        idx += 1;
    }
    proof {
        assert(cv.take(n as int) =~= cv);
    }
    let no_crates = tasks.len() == 0;
    proof {
        assert(tasks@.len() == idxs_of(tasks@).len());
    }
    BuildSummary { tasks, registry, no_crates, is_link }
}

/// Every unit actionable for the mode is planned exactly once, nothing
/// else is planned, and the plan keeps configuration order: the planned
/// indices are strictly increasing, each one names an actionable unit, and
/// each actionable unit's index appears.
pub proof fn lemma_dispatch_exactly_actionable(crates: Seq<CrateView>, mode: Mode)
    ensures
        forall|k: int|
            0 <= k < selected(crates, mode).len() ==> 0 <= #[trigger] selected(crates, mode)[k]
                < crates.len() && actionable(crates[selected(crates, mode)[k]], mode),
        forall|i: int|
            0 <= i < crates.len() && actionable(crates[i], mode) ==> selected(
                crates,
                mode,
            ).contains(i),
        forall|k1: int, k2: int|
            0 <= k1 < k2 < selected(crates, mode).len() ==> selected(crates, mode)[k1] < selected(
                crates,
                mode,
            )[k2],
    decreases crates.len(),
{
    if crates.len() > 0 {
        lemma_dispatch_exactly_actionable(crates.drop_last(), mode);
        let pre = selected(crates.drop_last(), mode);
        let s = selected(crates, mode);
        assert forall|i: int|
            0 <= i < crates.len() && actionable(crates[i], mode) implies s.contains(i) by {
            if i < crates.len() - 1 {
                assert(crates.drop_last()[i] == crates[i]);
                assert(pre.contains(i));
                let k = choose|k: int| 0 <= k < pre.len() && pre[k] == i;
                assert(s[k] == i);
            } else {
                assert(s.last() == i);
            }
        }
        assert forall|k: int|
            0 <= k < s.len() implies 0 <= #[trigger] s[k] < crates.len() && actionable(
            crates[s[k]],
            mode,
        ) by {
            if k < pre.len() {
                assert(s[k] == pre[k]);
                assert(crates.drop_last()[pre[k]] == crates[pre[k]]);
            }
        }
    }
}

/// Every registry entry carries the name of some configured unit.
pub proof fn lemma_registry_names_among_crates(cli: Seq<char>, crates: Seq<CrateView>, mode: Mode)
    ensures
        forall|k: int|
            0 <= k < registry_of(cli, crates, mode).len() ==> exists|i: int|
                0 <= i < crates.len() && crates[i].name == #[trigger] registry_of(
                    cli,
                    crates,
                    mode,
                )[k].0,
    decreases crates.len(),
{
    if crates.len() > 0 {
        lemma_registry_names_among_crates(cli, crates.drop_last(), mode);
        let reg = registry_of(cli, crates, mode);
        let pre = registry_of(cli, crates.drop_last(), mode);
        assert forall|k: int| 0 <= k < reg.len() implies exists|i: int|
            0 <= i < crates.len() && crates[i].name == #[trigger] reg[k].0 by {
            if k < pre.len() {
                assert(reg[k] == pre[k]);
                let i = choose|i: int|
                    0 <= i < crates.drop_last().len() && crates.drop_last()[i].name == pre[k].0;
                assert(crates[i] == crates.drop_last()[i]);
                assert(crates[i].name == reg[k].0);
            } else {
                assert(reg[k].0 == crates.last().name);
                assert(crates[crates.len() - 1].name == reg[k].0);
            }
        }
    }
}

/// The Link Registry is a mapping from unit name to output path: under the
/// configuration invariant that names are unique, no two registry entries
/// of a dispatch pass share a name.
pub proof fn lemma_registry_is_a_mapping(cli: Seq<char>, crates: Seq<CrateView>, mode: Mode)
    requires
        names_unique(crates),
    ensures
        forall|k1: int, k2: int|
            0 <= k1 < k2 < registry_of(cli, crates, mode).len() ==> registry_of(
                cli,
                crates,
                mode,
            )[k1].0 != registry_of(cli, crates, mode)[k2].0,
    decreases crates.len(),
{
    if crates.len() > 0 {
        assert forall|i: int, j: int|
            0 <= i < j < crates.drop_last().len() implies crates.drop_last()[i].name
            != crates.drop_last()[j].name by {
            assert(crates.drop_last()[i] == crates[i]);
            assert(crates.drop_last()[j] == crates[j]);
        }
        lemma_registry_is_a_mapping(cli, crates.drop_last(), mode);
        lemma_registry_names_among_crates(cli, crates.drop_last(), mode);
        let reg = registry_of(cli, crates, mode);
        let pre = registry_of(cli, crates.drop_last(), mode);
        assert forall|k1: int, k2: int|
            0 <= k1 < k2 < reg.len() implies reg[k1].0 != reg[k2].0 by {
            if k2 < pre.len() {
                assert(reg[k1] == pre[k1]);
                assert(reg[k2] == pre[k2]);
            } else {
                assert(k1 < pre.len());
                assert(reg[k1] == pre[k1]);
                assert(reg[k2].0 == crates.last().name);
                let i = choose|i: int|
                    0 <= i < crates.drop_last().len() && crates.drop_last()[i].name == pre[k1].0;
                assert(crates[i] == crates.drop_last()[i]);
                assert(crates[i].name != crates[crates.len() - 1].name);
            }
        }
    }
}

} // verus!
