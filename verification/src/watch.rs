//! Watch Engine: the rebuild-trigger policy for `watch` mode.
//!
//! One monitored unit is in one of four phases. A change event for an idle
//! unit arms a debounce timer; further events before the timer fires
//! coalesce into that one pending trigger. When the timer fires, exactly
//! one rebuild of that unit starts. Events arriving while the rebuild runs
//! are deferred; when the rebuild completes, the most recent deferred event
//! is honored with exactly one further rebuild (trailing-edge, single-flight
//! per unit). Units are independent: a step for one unit never touches or
//! waits on another, so rebuilds of different units may overlap.
//!
//! The engine holds state and decisions only. The caller owns the clock,
//! the change monitors, the timers and the build processes: it feeds events
//! in and performs the starts and notifications the engine returns. The
//! caller-supplied notification hook is fired on each successful rebuild
//! and is best-effort: the caller must swallow its failures. Local linking
//! is deliberately not part of any rebuild: the executor runs only on the
//! initial dispatch pass, and per-unit rebuilds never re-link.

use vstd::prelude::*;
use vstd::string::StringExecFns;

use crate::config::{CrateView, RswConfig};

verus! {

/// The rebuild phase of one watched unit.
#[derive(Clone, Copy, Debug, PartialEq, Eq, Structural)]
pub enum WatchPhase {
    /// No change seen since the last completed rebuild.
    Idle,
    /// A change arrived; the debounce timer is armed and further changes
    /// coalesce until it fires.
    Debouncing,
    /// A rebuild is in flight and no change arrived since it started.
    Building,
    /// A rebuild is in flight and at least one change arrived meanwhile;
    /// one follow-up rebuild starts when it completes.
    BuildingPending,
}

/// The watch state of one unit.
pub struct CrateWatch {
    /// The unit's name, handed to the notification hook.
    pub name: String,
    /// The directory the recursive change monitor is rooted at.
    pub dir: String,
    pub phase: WatchPhase,
    /// When the armed debounce timer fires; meaningful while `Debouncing`.
    pub deadline: u64,
    /// The most recently reported changed path.
    pub changed_path: String,
}

/// Mathematical image of one `CrateWatch`.
pub ghost struct CrateWatchView {
    pub name: Seq<char>,
    pub dir: Seq<char>,
    pub phase: WatchPhase,
    pub deadline: u64,
    pub changed_path: Seq<char>,
}

impl View for CrateWatch {
    type V = CrateWatchView;

    open spec fn view(&self) -> CrateWatchView {
        CrateWatchView {
            name: self.name@,
            dir: self.dir@,
            phase: self.phase,
            deadline: self.deadline,
            changed_path: self.changed_path@,
        }
    }
}

/// The fresh watch state of one unit: idle, monitor rooted at `root/name`.
pub open spec fn initial_watch(c: CrateView) -> CrateWatchView {
    CrateWatchView {
        name: c.name,
        dir: c.root + "/"@ + c.name,
        phase: WatchPhase::Idle,
        deadline: 0,
        changed_path: Seq::empty(),
    }
}

/// The fresh watch states of every unit with `watch_run`, in configuration
/// order.
pub open spec fn initial_watches(crates: Seq<CrateView>) -> Seq<CrateWatchView>
    decreases crates.len(),
{
    if crates.len() == 0 {
        Seq::empty()
    } else {
        let pre = initial_watches(crates.drop_last());
        if crates.last().watch_run {
            pre.push(initial_watch(crates.last()))
        } else {
            pre
        }
    }
}

/// How a change event reported at `now` moves one unit's state.
pub open spec fn change_step(c: CrateWatchView, path: Seq<char>, now: u64, window: u64) -> CrateWatchView {
    match c.phase {
        WatchPhase::Idle => (CrateWatchView {
            phase: WatchPhase::Debouncing,
            deadline: ((now + window) as u64),
            changed_path: path,
            ..c
        }),
        WatchPhase::Debouncing => (CrateWatchView { changed_path: path, ..c }),
        WatchPhase::Building => (CrateWatchView {
            phase: WatchPhase::BuildingPending,
            changed_path: path,
            ..c
        }),
        WatchPhase::BuildingPending => (CrateWatchView { changed_path: path, ..c }),
    }
}

/// A debounce timer observed at `now` fires iff the unit is debouncing and
/// the deadline has passed.
pub open spec fn deadline_fires(c: CrateWatchView, now: u64) -> bool {
    c.phase is Debouncing && now >= c.deadline
}

/// How an observed timer moves one unit's state: a firing timer starts the
/// one coalesced rebuild; a stale timer changes nothing.
pub open spec fn deadline_step(c: CrateWatchView, now: u64) -> CrateWatchView {
    if deadline_fires(c, now) {
        CrateWatchView { phase: WatchPhase::Building, ..c }
    } else {
        c
    }
}

/// A unit has a rebuild in flight.
pub open spec fn in_flight(c: CrateWatchView) -> bool {
    c.phase is Building || c.phase is BuildingPending
}

/// A completed rebuild is followed by exactly one further rebuild iff a
/// change was deferred while it ran.
pub open spec fn done_restarts(c: CrateWatchView) -> bool {
    c.phase is BuildingPending
}

/// How a completed rebuild moves one unit's state.
pub open spec fn done_step(c: CrateWatchView) -> CrateWatchView {
    match c.phase {
        WatchPhase::Building => (CrateWatchView { phase: WatchPhase::Idle, ..c }),
        WatchPhase::BuildingPending => (CrateWatchView { phase: WatchPhase::Building, ..c }),
        _ => c,
    }
}

/// One unit's state after a whole burst of change events: event `k` has
/// path `paths[k]` and arrives at `times[k]`, in order.
pub open spec fn run_changes(
    c: CrateWatchView,
    paths: Seq<Seq<char>>,
    times: Seq<u64>,
    window: u64,
) -> CrateWatchView
    decreases paths.len(),
{
    if paths.len() == 0 {
        c
    } else {
        change_step(
            run_changes(c, paths.drop_last(), times.drop_last(), window),
            paths.last(),
            times.last(),
            window,
        )
    }
}

/// Debouncing coalesces a burst into one rebuild: any number of change
/// events for an idle unit leaves exactly one armed trigger, whose
/// deadline is the window after the first event. Only the first event
/// arms a timer, no event of the burst starts a rebuild, and when that one
/// timer fires it starts exactly one rebuild carrying the most recent
/// changed path.
pub proof fn lemma_burst_yields_one_rebuild(
    c: CrateWatchView,
    paths: Seq<Seq<char>>,
    times: Seq<u64>,
    window: u64,
)
    requires
        c.phase is Idle,
        paths.len() >= 1,
        times.len() == paths.len(),
    ensures
        ({
            let c1 = run_changes(c, paths, times, window);
            &&& c1.phase is Debouncing
            &&& c1.deadline == ((times[0] + window) as u64)
            &&& c1.changed_path == paths.last()
            &&& c1.name == c.name
            &&& c1.dir == c.dir
            &&& deadline_fires(c1, c1.deadline)
            &&& deadline_step(c1, c1.deadline).phase is Building
        }),
        forall|k: int|
            1 <= k <= paths.len() ==> (#[trigger] run_changes(
                c,
                paths.take(k),
                times.take(k),
                window,
            )).phase is Debouncing,
    decreases paths.len(),
{
    if paths.len() == 1 {
        assert(paths.take(1) =~= paths);
        assert(times.take(1) =~= times);
        assert(paths.drop_last().len() == 0);
    } else {
        lemma_burst_yields_one_rebuild(c, paths.drop_last(), times.drop_last(), window);
        assert(paths.drop_last()[0] == paths[0]);
        assert forall|k: int|
            1 <= k <= paths.len() implies (#[trigger] run_changes(
            c,
            paths.take(k),
            times.take(k),
            window,
        )).phase is Debouncing by {
            if k < paths.len() {
                assert(paths.take(k) =~= paths.drop_last().take(k));
                assert(times.take(k) =~= times.drop_last().take(k));
            } else {
                assert(paths.take(k) =~= paths);
                assert(times.take(k) =~= times);
            }
        }
    }
}

/// Single-flight with a trailing edge: changes arriving while a rebuild is
/// in flight start nothing and coalesce into one deferred trigger; when
/// the rebuild completes, exactly one follow-up rebuild starts, carrying
/// the most recent changed path.
pub proof fn lemma_deferred_changes_restart_once(
    c: CrateWatchView,
    paths: Seq<Seq<char>>,
    times: Seq<u64>,
    window: u64,
)
    requires
        in_flight(c),
        paths.len() >= 1,
        times.len() == paths.len(),
    ensures
        ({
            let c1 = run_changes(c, paths, times, window);
            &&& c1.phase is BuildingPending
            &&& c1.changed_path == paths.last()
            &&& c1.name == c.name
            &&& c1.dir == c.dir
            &&& done_restarts(c1)
            &&& done_step(c1).phase is Building
            &&& !deadline_fires(c1, c1.deadline)
        }),
    decreases paths.len(),
{
    if paths.len() == 1 {
        assert(paths.drop_last().len() == 0);
        assert(run_changes(c, paths.drop_last(), times.drop_last(), window) == c);
    } else {
        lemma_deferred_changes_restart_once(c, paths.drop_last(), times.drop_last(), window);
    }
}

/// Units rebuild independently and may overlap in time: while a rebuild
/// of unit `i` is in flight, a change to another unit `j` leaves `i`
/// untouched, `j`'s own debounce deadline starts `j`'s rebuild as always —
/// a slow rebuild of `i` never delays it — and afterwards both units have
/// a rebuild in flight at once.
pub proof fn lemma_rebuilds_overlap(
    s: Seq<CrateWatchView>,
    i: int,
    j: int,
    path: Seq<char>,
    t: u64,
    window: u64,
)
    requires
        0 <= i < s.len(),
        0 <= j < s.len(),
        i != j,
        in_flight(s[i]),
        s[j].phase is Idle,
    ensures
        ({
            let s1 = s.update(j, change_step(s[j], path, t, window));
            let s2 = s1.update(j, deadline_step(s1[j], s1[j].deadline));
            &&& s1[i] == s[i]
            &&& deadline_fires(s1[j], s1[j].deadline)
            &&& in_flight(s2[i])
            &&& in_flight(s2[j])
        }),
{
}

/// What the caller hands its notification hook after a successful rebuild.
pub struct Notification {
    /// The rebuilt unit's name.
    pub name: String,
    /// The changed path that triggered the rebuild.
    pub path: String,
}

/// What the caller does after a rebuild completes: start the one deferred
/// follow-up rebuild, and fire the notification hook on success.
pub struct RebuildDone {
    pub restart: bool,
    pub notify: Option<Notification>,
}

/// The debounce coalescing window the engine is normally run with.
pub const DEFAULT_DEBOUNCE_MS: u64 = 300;

/// Local linking runs only on the initial dispatch pass of watch mode:
/// the per-unit rebuilds the engine triggers deliberately never re-link.
/// This quirk is deliberate, recorded as an explicit contract rather than
/// an accidental code-path omission.
pub fn link_on_initial_only() -> (b: bool)
    ensures
        b,
{
    true
}

/// The Watch Engine: per-unit watch state plus the debounce window.
pub struct WatchEngine {
    pub crates: Vec<CrateWatch>,
    pub debounce_ms: u64,
}

/// The mathematical image of the engine's unit states.
pub open spec fn states_of(v: Seq<CrateWatch>) -> Seq<CrateWatchView> {
    Seq::new(v.len(), |i: int| v[i]@)
}

fn join_dir(root: &String, name: &String) -> (r: String)
    ensures
        r@ == root@ + "/"@ + name@,
{
    let mut s = root.clone();
    s.append("/");
    s.append(name.as_str());
    proof {
        assert(s@ =~= root@ + "/"@ + name@);
    }
    s
}

impl WatchEngine {
    /// Sets up one fresh watch state per unit with `watch_run`, in
    /// configuration order. The caller first runs the initial dispatch
    /// pass, then registers one recursive change monitor per returned
    /// unit, rooted at its `dir`.
    pub fn new(config: &RswConfig, debounce_ms: u64) -> (r: WatchEngine)
        ensures
            r.debounce_ms == debounce_ms,
            states_of(r.crates@) == initial_watches(config@.crates),
    {
        let ghost cv = config@.crates;
        let mut crates: Vec<CrateWatch> = Vec::new();
        let n = config.crates.len();
        let mut idx: usize = 0;
        proof {
            assert(cv.take(0) =~= Seq::<CrateView>::empty());
            assert(states_of(crates@) =~= Seq::<CrateWatchView>::empty());
        }
        while idx < n
            invariant
                n == config@.crates.len(),
                cv == config@.crates,
                idx <= n,
                states_of(crates@) == initial_watches(cv.take(idx as int)),
            decreases n - idx,
        {
            let ghost prev = states_of(crates@);
            proof {
                assert(cv.take(idx as int + 1).drop_last() =~= cv.take(idx as int));
                assert(cv.take(idx as int + 1).last() == cv[idx as int]);
            }
            let c = &config.crates[idx];
            proof {
                assert(c@ == cv[idx as int]);
            }
            if c.watch_run {
                let w = CrateWatch {
                    name: c.name.clone(),
                    dir: join_dir(&c.root, &c.name),
                    phase: WatchPhase::Idle,
                    deadline: 0,
                    changed_path: String::new(),
                };
                proof {
                    assert(w@ == initial_watch(cv[idx as int]));
                }
                crates.push(w);
                proof {
                    assert(states_of(crates@) =~= prev.push(initial_watch(cv[idx as int])));
                }
            }
            idx += 1;
        }
        proof {
            assert(cv.take(n as int) =~= cv);
        }
        WatchEngine { crates, debounce_ms }
    }

    /// How many units are watched.
    pub fn len(&self) -> (n: usize)
        ensures
            n == self.crates@.len(),
    {
        self.crates.len()
    }

    /// Feeds one change event for unit `i`, reported at `now`. Returns
    /// whether the caller must arm a debounce timer for `i`, firing at the
    /// unit's new `deadline`: only a change to an idle unit arms one, so a
    /// burst of changes yields one timer and so one rebuild. No change
    /// event ever starts a rebuild by itself, and no other unit's state
    /// moves.
    pub fn on_change(&mut self, i: usize, path: String, now: u64) -> (start_timer: bool)
        requires
            i < old(self).crates@.len(),
            now + old(self).debounce_ms <= u64::MAX,
        ensures
            final(self).debounce_ms == old(self).debounce_ms,
            final(self).crates@.len() == old(self).crates@.len(),
            forall|k: int|
                0 <= k < old(self).crates@.len() && k != i ==> final(self).crates@[k] == old(
                    self,
                ).crates@[k],
            final(self).crates@[i as int]@ == change_step(
                old(self).crates@[i as int]@,
                path@,
                now,
                old(self).debounce_ms,
            ),
            start_timer == (old(self).crates@[i as int]@.phase is Idle),
    {
        let window = self.debounce_ms;
        let c = &mut self.crates[i];
        let mut start_timer = false;
        match c.phase {
            WatchPhase::Idle => {
                c.phase = WatchPhase::Debouncing;
                c.deadline = now + window;
                c.changed_path = path;
                start_timer = true;
            },
            WatchPhase::Debouncing => {
                c.changed_path = path;
            },
            WatchPhase::Building => {
                c.phase = WatchPhase::BuildingPending;
                c.changed_path = path;
            },
            WatchPhase::BuildingPending => {
                c.changed_path = path;
            },
        }
        start_timer
    }

    /// Feeds one debounce-timer observation for unit `i` at `now`. Returns
    /// whether the caller must start a rebuild of `i` — true exactly when
    /// the unit is debouncing and its deadline has passed, so each armed
    /// timer starts at most one rebuild, and never while one is already in
    /// flight (single-flight). Independent of every other unit's state.
    pub fn on_deadline(&mut self, i: usize, now: u64) -> (start_build: bool)
        requires
            i < old(self).crates@.len(),
        ensures
            final(self).debounce_ms == old(self).debounce_ms,
            final(self).crates@.len() == old(self).crates@.len(),
            forall|k: int|
                0 <= k < old(self).crates@.len() && k != i ==> final(self).crates@[k] == old(
                    self,
                ).crates@[k],
            final(self).crates@[i as int]@ == deadline_step(old(self).crates@[i as int]@, now),
            start_build == deadline_fires(old(self).crates@[i as int]@, now),
            start_build ==> !in_flight(old(self).crates@[i as int]@),
    {
        let c = &mut self.crates[i];
        let fires = match c.phase {
            WatchPhase::Debouncing => now >= c.deadline,
            _ => false,
        };
        if fires {
            c.phase = WatchPhase::Building;
        }
        fires
    }

    /// Feeds the completion of a rebuild of unit `i`. On success the
    /// caller fires the notification hook with the unit's name and the
    /// changed path that triggered the rebuild. Exactly one follow-up
    /// rebuild starts iff a change was deferred while the rebuild ran.
    /// Independent of every other unit's state.
    pub fn on_build_done(&mut self, i: usize, ok: bool) -> (r: RebuildDone)
        requires
            i < old(self).crates@.len(),
        ensures
            final(self).debounce_ms == old(self).debounce_ms,
            final(self).crates@.len() == old(self).crates@.len(),
            forall|k: int|
                0 <= k < old(self).crates@.len() && k != i ==> final(self).crates@[k] == old(
                    self,
                ).crates@[k],
            final(self).crates@[i as int]@ == done_step(old(self).crates@[i as int]@),
            r.restart == done_restarts(old(self).crates@[i as int]@),
            (ok && in_flight(old(self).crates@[i as int]@)) == (r.notify is Some),
            r.notify matches Some(n) ==> n.name@ == old(self).crates@[i as int]@.name
                && n.path@ == old(self).crates@[i as int]@.changed_path,
    {
        let c = &mut self.crates[i];
        let was_in_flight = match c.phase {
            WatchPhase::Building => true,
            WatchPhase::BuildingPending => true,
            _ => false,
        };
        let restart = match c.phase {
            WatchPhase::BuildingPending => true,
            _ => false,
        };
        match c.phase {
            WatchPhase::Building => {
                c.phase = WatchPhase::Idle;
            },
            WatchPhase::BuildingPending => {
                c.phase = WatchPhase::Building;
            },
            _ => {},
        }
        let notify = if ok && was_in_flight {
            Some(Notification { name: c.name.clone(), path: c.changed_path.clone() })
        } else {
            None
        };
        RebuildDone { restart, notify }
    }
}

} // verus!
