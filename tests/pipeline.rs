use zest::command::Invocation;
use zest::config::{Config, OutputType};
use zest::error::RunError;
use zest::pipeline::{Action, Event, Pipeline, Stage};

fn spawned(a: Action) -> Invocation {
    match a {
        Action::Spawn { invocation } => invocation,
        _ => panic!("expected a process to be spawned"),
    }
}

fn prepared(p: &mut Pipeline) -> Action {
    p.advance(Event::Prepared { profile_dir: "/abs/target/coverage".to_string() })
}

#[test]
fn branch_on_stable_spawns_nothing() {
    let mut c = Config::defaults();
    c.branch = true;
    c.compiler_version = Some("stable".to_string());
    let (mut p, a) = Pipeline::start(c, true);
    assert!(matches!(a, Action::Abort { error: RunError::NightlyRequired }));
    assert_eq!(p.stage(), Stage::Failed { error: RunError::NightlyRequired });
    // nothing moves a stopped run on
    let a = p.advance(Event::Succeeded);
    assert!(matches!(a, Action::Abort { error: RunError::NightlyRequired }));
}

#[test]
fn start_prepares_artifacts_first() {
    let (p, a) = Pipeline::start(Config::defaults(), false);
    assert_eq!(p.stage(), Stage::Prepare);
    match a {
        Action::PrepareArtifacts { coverage_dir } => assert_eq!(coverage_dir, "./target/coverage"),
        _ => panic!("expected preparation"),
    }
}

#[test]
fn prepare_builds_overlay_from_absolute_dir() {
    let (mut p, _) = Pipeline::start(Config::defaults(), false);
    let a = prepared(&mut p);
    assert_eq!(p.stage(), Stage::Build);
    let inv = spawned(a);
    assert_eq!(inv.args[0], "build");
    assert_eq!(p.overlay()[0].1, "/abs/target/coverage/zest-%p-%m.profraw");
}

#[test]
fn prepare_failure_is_io_error() {
    let (mut p, _) = Pipeline::start(Config::defaults(), false);
    let a = p.advance(Event::Failed);
    assert!(matches!(a, Action::Abort { error: RunError::IoError }));
}

#[test]
fn version_adds_install_stage() {
    let mut c = Config::defaults();
    c.compiler_version = Some("nightly".to_string());
    let (mut p, _) = Pipeline::start(c, true);
    let inv = spawned(prepared(&mut p));
    assert_eq!(p.stage(), Stage::Install);
    assert_eq!(inv.program, "rustup");
    let a = p.advance(Event::Failed);
    assert!(matches!(a, Action::Abort { error: RunError::ToolchainInstallFailed }));
}

#[test]
fn build_failure_stops_run() {
    let (mut p, _) = Pipeline::start(Config::defaults(), false);
    prepared(&mut p);
    let a = p.advance(Event::Failed);
    assert!(matches!(a, Action::Abort { error: RunError::BuildFailed }));
    assert_eq!(p.stage(), Stage::Failed { error: RunError::BuildFailed });
}

fn fan_out_config() -> Config {
    let mut c = Config::defaults();
    c.tests = vec!["a".to_string(), "b".to_string()];
    c.skips = vec!["x".to_string()];
    c
}

fn has_skip_x(inv: &Invocation) -> bool {
    inv.args.windows(2).any(|w| w[0] == "--skip" && w[1] == "x")
}

#[test]
fn fan_out_runs_each_filter_once() {
    let (mut p, _) = Pipeline::start(fan_out_config(), false);
    prepared(&mut p);
    let first = spawned(p.advance(Event::Succeeded));
    let second = spawned(p.advance(Event::Succeeded));
    for (inv, name) in [(&first, "a"), (&second, "b")] {
        assert!(has_skip_x(inv));
        assert!(inv.args.iter().any(|s| s == name));
        let filters = inv.args.iter().filter(|s| *s == "a" || *s == "b").count();
        assert_eq!(filters, 1);
    }
    let a = p.advance(Event::Succeeded);
    assert!(matches!(a, Action::Aggregate { .. }));
}

#[test]
fn fan_out_stops_at_first_failure() {
    let (mut p, _) = Pipeline::start(fan_out_config(), false);
    prepared(&mut p);
    let first = spawned(p.advance(Event::Succeeded));
    assert!(first.args.iter().any(|s| s == "a"));
    let a = p.advance(Event::Failed);
    assert!(matches!(a, Action::Abort { error: RunError::TestFailed }));
    let a = p.advance(Event::Succeeded);
    assert!(matches!(a, Action::Abort { error: RunError::TestFailed }));
}

#[test]
fn second_filter_failure_fails_stage() {
    let (mut p, _) = Pipeline::start(fan_out_config(), false);
    prepared(&mut p);
    p.advance(Event::Succeeded);
    p.advance(Event::Succeeded);
    let a = p.advance(Event::Failed);
    assert!(matches!(a, Action::Abort { error: RunError::TestFailed }));
}

#[test]
fn no_filters_single_test_run() {
    let mut c = Config::defaults();
    c.skips = vec!["x".to_string()];
    let (mut p, _) = Pipeline::start(c, false);
    prepared(&mut p);
    let inv = spawned(p.advance(Event::Succeeded));
    assert_eq!(p.stage(), Stage::Test { run: 0 });
    assert!(has_skip_x(&inv));
    let a = p.advance(Event::Succeeded);
    assert!(matches!(a, Action::Aggregate { .. }));
}

#[test]
fn default_run_finishes_with_html_report() {
    let (mut p, _) = Pipeline::start(Config::defaults(), false);
    prepared(&mut p);
    p.advance(Event::Succeeded); // build
    p.advance(Event::Succeeded); // tests
    assert_eq!(p.stage(), Stage::Aggregate);
    let a = p.advance(Event::Succeeded); // aggregation
    match a {
        Action::Report { actions } => {
            assert_eq!(actions.len(), 1);
            assert_eq!(actions[0].format, OutputType::Html);
            assert_eq!(actions[0].open.as_deref(), Some("./target/coverage/html/index.html"));
        }
        _ => panic!("expected reports"),
    }
    let a = p.advance(Event::Succeeded);
    assert!(matches!(a, Action::Finish));
    assert_eq!(p.stage(), Stage::Finished);
}

#[test]
fn aggregation_failure_stops_run() {
    let (mut p, _) = Pipeline::start(Config::defaults(), false);
    prepared(&mut p);
    p.advance(Event::Succeeded);
    p.advance(Event::Succeeded);
    let a = p.advance(Event::Failed);
    assert!(matches!(a, Action::Abort { error: RunError::AggregationFailed }));
}

#[test]
fn config_is_kept() {
    let (p, _) = Pipeline::start(fan_out_config(), false);
    assert_eq!(p.config().tests, vec!["a".to_string(), "b".to_string()]);
}

#[test]
fn report_failure_stops_run() {
    let (mut p, _) = Pipeline::start(Config::defaults(), false);
    prepared(&mut p);
    p.advance(Event::Succeeded);
    p.advance(Event::Succeeded);
    p.advance(Event::Succeeded);
    assert_eq!(p.stage(), Stage::Report);
    let a = p.advance(Event::Failed);
    assert!(matches!(a, Action::Abort { error: RunError::ReportFailed }));
}

#[test]
fn version_run_goes_through_install_then_build() {
    let mut c = Config::defaults();
    c.compiler_version = Some("nightly-2024-05-01".to_string());
    let (mut p, _) = Pipeline::start(c, true);
    prepared(&mut p);
    let build = spawned(p.advance(Event::Succeeded));
    assert_eq!(p.stage(), Stage::Build);
    assert_eq!(build.args[0], "+nightly-2024-05-01");
    assert_eq!(build.args[1], "build");
}
