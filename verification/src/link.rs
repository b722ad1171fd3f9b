//! Link Registry and Link Executor.
//!
//! The registry records, during one dispatch pass, which units must be
//! exposed to the local package-manager linking step and their output
//! paths. The executor turns the final registry into exactly one external
//! link invocation batching every collected path — one invocation per
//! registered unit would be incorrect.

use vstd::prelude::*;

verus! {

/// The Link Registry: the `(name, output path)` pairs collected during one
/// dispatch pass, in configuration order. Populated only by the dispatcher,
/// consumed once by the executor; not persisted across invocations.
pub struct LinkRegistry {
    pub entries: Vec<(String, String)>,
}

impl View for LinkRegistry {
    type V = Seq<(Seq<char>, Seq<char>)>;

    open spec fn view(&self) -> Seq<(Seq<char>, Seq<char>)> {
        Seq::new(self.entries@.len(), |i: int| (self.entries@[i].0@, self.entries@[i].1@))
    }
}

impl LinkRegistry {
    /// An empty registry, as each dispatch pass starts with.
    pub fn new() -> (r: LinkRegistry)
        ensures
            r@ == Seq::<(Seq<char>, Seq<char>)>::empty(),
    {
        let r = LinkRegistry { entries: Vec::new() };
        proof {
            assert(r@ =~= Seq::<(Seq<char>, Seq<char>)>::empty());
        }
        r
    }

    /// Records one unit's name and output path.
    pub fn insert(&mut self, name: String, path: String)
        ensures
            final(self)@ == old(self)@.push((name@, path@)),
    {
        let ghost prev = self@;
        let ghost n = name@;
        let ghost p = path@;
        self.entries.push((name, path));
        proof {
            assert(self@ =~= prev.push((n, p)));
        }
    }

    /// How many units are registered.
    pub fn len(&self) -> (n: usize)
        ensures
            n == self@.len(),
    {
        self.entries.len()
    }
}

/// One external link invocation: the package-manager program and the output
/// paths of every registered unit, batched into a single command.
pub struct LinkInvocation {
    pub program: String,
    pub paths: Vec<String>,
}

/// The Link Executor: builds the one link invocation for a non-empty
/// registry. All registered paths appear in it, in registry order; callers
/// issue it once per dispatch pass and never once per unit.
pub fn link_all(package_manager: &String, registry: &LinkRegistry) -> (r: LinkInvocation)
    requires
        registry@.len() > 0,
    ensures
        r.program@ == package_manager@,
        r.paths@.len() == registry@.len(),
        forall|i: int| 0 <= i < registry@.len() ==> r.paths@[i]@ == registry@[i].1,
{
    let mut paths: Vec<String> = Vec::new();
    let mut idx: usize = 0;
    let n = registry.entries.len();
    while idx < n
        invariant
            n == registry@.len(),
            idx <= n,
            paths@.len() == idx,
            forall|i: int| 0 <= i < idx ==> paths@[i]@ == registry@[i].1,
        decreases n - idx,
    {
        paths.push(registry.entries[idx].1.clone());
        idx += 1;
    }
    LinkInvocation { program: package_manager.clone(), paths }
}

} // verus!
