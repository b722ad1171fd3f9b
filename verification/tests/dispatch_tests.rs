use rsw::cli::{Cli, Commands};
use rsw::config::{CrateConfig, Mode, RswConfig};
use rsw::dispatch::dispatch;
use rsw::link::link_all;

fn unit(name: &str, root: &str, out_dir: &str, build: bool, watch: bool, link: bool) -> CrateConfig {
    CrateConfig {
        name: name.to_owned(),
        root: root.to_owned(),
        out_dir: out_dir.to_owned(),
        build_run: build,
        watch_run: watch,
        link,
    }
}

#[test]
fn build_dispatch_invokes_each_actionable_once() {
    let config = RswConfig {
        cli: "npm".to_owned(),
        crates: vec![
            unit("a", "./crates", "pkg", true, false, false),
            unit("b", "./crates", "pkg", false, true, false),
            unit("c", "./crates", "pkg", true, false, false),
        ],
    };
    let summary = Cli::rsw_build(&config);
    assert_eq!(summary.tasks, vec![0, 2]);
    assert!(!summary.no_crates);
    assert!(!summary.is_link);
}

#[test]
fn no_actionable_crates_reports_and_plans_nothing() {
    let config = RswConfig {
        cli: "npm".to_owned(),
        crates: vec![
            unit("a", "./crates", "pkg", false, true, true),
            unit("b", "./crates", "pkg", false, false, false),
        ],
    };
    let summary = Cli::rsw_build(&config);
    assert!(summary.no_crates);
    assert_eq!(summary.tasks.len(), 0);
    assert_eq!(summary.registry.len(), 0);
}

#[test]
fn registry_holds_exactly_the_linked_crate() {
    let config = RswConfig {
        cli: "npm".to_owned(),
        crates: vec![
            unit("a", "./crates", "pkg", true, false, true),
            unit("b", "./crates", "pkg", true, false, false),
        ],
    };
    let summary = Cli::rsw_build(&config);
    assert_eq!(summary.tasks, vec![0, 1]);
    assert_eq!(summary.registry.entries.len(), 1);
    assert_eq!(summary.registry.entries[0].0, "a");
    assert_eq!(summary.registry.entries[0].1, "./crates/a/pkg");
}

#[test]
fn registry_stays_empty_without_link_capable_manager() {
    let config = RswConfig {
        cli: "yarn".to_owned(),
        crates: vec![unit("a", "./crates", "pkg", true, false, true)],
    };
    let summary = Cli::rsw_build(&config);
    assert_eq!(summary.tasks, vec![0]);
    assert_eq!(summary.registry.entries.len(), 0);
}

#[test]
fn link_executor_batches_all_entries_into_one_invocation() {
    let config = RswConfig {
        cli: "npm".to_owned(),
        crates: vec![
            unit("a", "./crates", "pkg", true, false, true),
            unit("b", "./other", "dist", true, false, true),
        ],
    };
    let summary = Cli::rsw_build(&config);
    assert_eq!(summary.registry.entries.len(), 2);
    let invocation = link_all(&config.cli, &summary.registry);
    assert_eq!(invocation.program, "npm");
    assert_eq!(invocation.paths, vec!["./crates/a/pkg", "./other/b/dist"]);
}

#[test]
fn end_to_end_single_linked_crate() {
    let config = RswConfig {
        cli: "npm".to_owned(),
        crates: vec![unit("app", "./crates", "pkg", true, false, true)],
    };
    let summary = dispatch(&config, Mode::Build, false);
    assert_eq!(summary.tasks, vec![0]);
    assert_eq!(summary.registry.entries.len(), 1);
    assert_eq!(summary.registry.entries[0].0, "app");
    assert_eq!(summary.registry.entries[0].1, "./crates/app/pkg");
    let invocation = link_all(&config.cli, &summary.registry);
    assert_eq!(invocation.paths, vec!["./crates/app/pkg"]);
}

#[test]
fn watch_initial_pass_selects_watch_crates_with_link_profile() {
    let config = RswConfig {
        cli: "npm".to_owned(),
        crates: vec![
            unit("a", "./crates", "pkg", true, false, true),
            unit("b", "./crates", "pkg", false, true, true),
        ],
    };
    let (summary, engine) = Cli::rsw_watch(&config);
    assert_eq!(summary.tasks, vec![1]);
    assert!(summary.is_link);
    assert_eq!(summary.registry.entries.len(), 1);
    assert_eq!(summary.registry.entries[0].0, "b");
    assert_eq!(engine.len(), 1);
    assert_eq!(engine.crates[0].name, "b");
    assert_eq!(engine.crates[0].dir, "./crates/b");
}

#[test]
fn parse_toml_records_normalized_output_paths() {
    let config = RswConfig {
        cli: "npm".to_owned(),
        crates: vec![
            unit("app", "./crates", "pkg", true, false, true),
            unit("web", "./crates", "../web-pkg", false, true, false),
        ],
    };
    let lines = Cli::parse_toml(&config);
    assert_eq!(lines.len(), 2);
    assert_eq!(lines[0], "app :~> crates/app/pkg");
    assert_eq!(lines[1], "web :~> crates/web-pkg");
}

#[test]
fn watch_info_content_formats_status_artifact() {
    let content = Cli::watch_info_content(&"app".to_owned(), &"./crates/app/src/lib.rs".to_owned());
    assert_eq!(
        content,
        "[RSW::OK]\n[RSW::NAME] :~> app\n[RSW::PATH] :~> ./crates/app/src/lib.rs"
    );
}

#[test]
fn cli_wraps_parsed_command() {
    let cli = Cli::new(Commands::New {
        name: "demo".to_owned(),
        template: None,
        mode: Some("normal".to_owned()),
    });
    assert!(matches!(cli.command, Commands::New { .. }));
}
