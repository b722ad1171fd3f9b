use rsw::config::{CrateConfig, RswConfig};
use rsw::watch::{WatchEngine, WatchPhase, DEFAULT_DEBOUNCE_MS};

fn watched(name: &str) -> CrateConfig {
    CrateConfig {
        name: name.to_owned(),
        root: "./crates".to_owned(),
        out_dir: "pkg".to_owned(),
        build_run: false,
        watch_run: true,
        link: false,
    }
}

fn engine_for(names: &[&str]) -> WatchEngine {
    let config = RswConfig {
        cli: "npm".to_owned(),
        crates: names.iter().map(|n| watched(n)).collect(),
    };
    WatchEngine::new(&config, DEFAULT_DEBOUNCE_MS)
}

#[test]
fn burst_of_five_changes_yields_one_rebuild() {
    let mut engine = engine_for(&["x"]);
    let mut timers: u32 = 0;
    for k in 0..5u64 {
        let path = format!("./crates/x/src/file{}.rs", k);
        if engine.on_change(0, path, 10 + k) {
            timers += 1;
        }
    }
    assert_eq!(timers, 1, "a burst arms exactly one debounce timer");
    assert_eq!(engine.crates[0].deadline, 10 + DEFAULT_DEBOUNCE_MS);
    assert_eq!(engine.crates[0].changed_path, "./crates/x/src/file4.rs");

    let started = engine.on_deadline(0, engine.crates[0].deadline);
    assert!(started, "the one timer starts the one rebuild");
    assert_eq!(engine.crates[0].phase, WatchPhase::Building);

    // A sixth event arrives after the rebuild started and before it ends.
    let armed = engine.on_change(0, "./crates/x/src/late.rs".to_owned(), 500);
    assert!(!armed, "no new timer while a rebuild is in flight");
    assert_eq!(engine.crates[0].phase, WatchPhase::BuildingPending);

    let done = engine.on_build_done(0, true);
    assert!(done.restart, "exactly one additional rebuild once the first completes");
    let note = done.notify.expect("a successful rebuild notifies");
    assert_eq!(note.name, "x");
    assert_eq!(note.path, "./crates/x/src/late.rs");
    assert_eq!(engine.crates[0].phase, WatchPhase::Building);

    let done = engine.on_build_done(0, true);
    assert!(!done.restart, "nothing pending after the follow-up rebuild");
    assert_eq!(engine.crates[0].phase, WatchPhase::Idle);
}

#[test]
fn stale_timer_starts_nothing() {
    let mut engine = engine_for(&["x"]);
    assert!(!engine.on_deadline(0, 10_000), "no timer was armed");
    assert!(engine.on_change(0, "./crates/x/a".to_owned(), 0));
    assert!(!engine.on_deadline(0, DEFAULT_DEBOUNCE_MS - 1), "deadline not reached yet");
    assert!(engine.on_deadline(0, DEFAULT_DEBOUNCE_MS));
    assert!(!engine.on_deadline(0, DEFAULT_DEBOUNCE_MS), "already building");
}

#[test]
fn failed_rebuild_does_not_notify() {
    let mut engine = engine_for(&["x"]);
    engine.on_change(0, "./crates/x/a".to_owned(), 0);
    engine.on_deadline(0, DEFAULT_DEBOUNCE_MS);
    let done = engine.on_build_done(0, false);
    assert!(done.notify.is_none());
    assert!(!done.restart);
    assert_eq!(engine.crates[0].phase, WatchPhase::Idle);
}

#[test]
fn concurrent_crates_rebuild_independently() {
    let mut engine = engine_for(&["x", "y"]);

    // X's rebuild starts and runs slowly.
    assert!(engine.on_change(0, "./crates/x/a".to_owned(), 0));
    assert!(engine.on_deadline(0, DEFAULT_DEBOUNCE_MS));
    assert_eq!(engine.crates[0].phase, WatchPhase::Building);

    // Y's change and rebuild start while X is still in flight.
    assert!(engine.on_change(1, "./crates/y/b".to_owned(), 400));
    assert_eq!(engine.crates[0].phase, WatchPhase::Building, "x untouched by y's change");
    assert!(engine.on_deadline(1, 400 + DEFAULT_DEBOUNCE_MS), "a slow rebuild of x never delays y");
    assert_eq!(engine.crates[1].phase, WatchPhase::Building);

    // Y finishes while X still runs; both bookkeepings stay separate.
    let done_y = engine.on_build_done(1, true);
    assert_eq!(done_y.notify.expect("y notifies").name, "y");
    assert_eq!(engine.crates[0].phase, WatchPhase::Building);
    assert_eq!(engine.crates[1].phase, WatchPhase::Idle);

    let done_x = engine.on_build_done(0, true);
    assert_eq!(done_x.notify.expect("x notifies").name, "x");
    assert_eq!(engine.crates[0].phase, WatchPhase::Idle);
}

#[test]
fn linking_happens_only_on_the_initial_pass() {
    assert!(rsw::watch::link_on_initial_only());
}

#[test]
fn engine_watches_only_watch_run_crates() {
    let config = RswConfig {
        cli: "npm".to_owned(),
        crates: vec![
            CrateConfig {
                name: "a".to_owned(),
                root: "./crates".to_owned(),
                out_dir: "pkg".to_owned(),
                build_run: true,
                watch_run: false,
                link: true,
            },
            watched("b"),
        ],
    };
    let engine = WatchEngine::new(&config, 150);
    assert_eq!(engine.len(), 1);
    assert_eq!(engine.crates[0].name, "b");
    assert_eq!(engine.crates[0].dir, "./crates/b");
    assert_eq!(engine.crates[0].phase, WatchPhase::Idle);
    assert_eq!(engine.debounce_ms, 150);
}
