use zest::artifacts::{after_create, is_profile_data, stale_profile_files, CreateOutcome, PrepareStep};
use zest::command::{
    build_invocation, coverage_dir, env_overlay, install_invocation, target_dir, test_invocation,
};
use zest::config::{Config, CoverageStrategy};

fn strs(v: &[&str]) -> Vec<String> {
    v.iter().map(|s| s.to_string()).collect()
}

fn pairs(v: &[(&str, &str)]) -> Vec<(String, String)> {
    v.iter().map(|(a, b)| (a.to_string(), b.to_string())).collect()
}

#[test]
fn directories() {
    assert_eq!(target_dir(), "./target");
    assert_eq!(coverage_dir(), "./target/coverage");
}

#[test]
fn overlay_instrument_coverage() {
    let o = env_overlay(CoverageStrategy::InstrumentCoverage, false, "/p/target/coverage");
    assert_eq!(
        o,
        pairs(&[
            ("LLVM_PROFILE_FILE", "/p/target/coverage/zest-%p-%m.profraw"),
            ("RUSTFLAGS", "-C instrument-coverage"),
            ("RUST_BACKTRACE", "1"),
            ("RUST_MIN_STACK", "8388608"),
        ])
    );
}

#[test]
fn overlay_branch_adds_mcdc() {
    let o = env_overlay(CoverageStrategy::InstrumentCoverage, true, "/d");
    assert_eq!(o[1], ("RUSTFLAGS".to_string(), "-C instrument-coverage -Z coverage-options=mcdc".to_string()));
}

#[test]
fn overlay_zprofile() {
    let o = env_overlay(CoverageStrategy::ZProfile, false, "/d");
    assert_eq!(
        o,
        pairs(&[
            ("LLVM_PROFILE_FILE", "/d/zest-%p-%m.profraw"),
            ("CARGO_INCREMENTAL", "0"),
            ("RUSTFLAGS", "-Z profile"),
            ("RUST_BACKTRACE", "1"),
            ("RUST_MIN_STACK", "8388608"),
        ])
    );
}

#[test]
fn build_command_standard() {
    let inv = build_invocation(&Config::defaults());
    assert_eq!(inv.program, "cargo");
    assert_eq!(inv.args, strs(&["build", "--color", "always", "--tests", "--target-dir", "./target"]));
    assert!(inv.with_overlay);
}

#[test]
fn build_command_sbf_with_version() {
    let mut c = Config::defaults();
    c.with_sbf = true;
    c.compiler_version = Some("nightly".to_string());
    let inv = build_invocation(&c);
    assert_eq!(
        inv.args,
        strs(&["+nightly", "build-sbf", "--", "--color", "always", "--tests", "--target-dir", "./target"])
    );
}

#[test]
fn test_command_without_filter() {
    let mut c = Config::defaults();
    c.skips = strs(&["x", "y"]);
    let inv = test_invocation(&c, None);
    assert_eq!(inv.program, "cargo");
    assert_eq!(
        inv.args,
        strs(&["test", "--color", "always", "--target-dir", "./target", "--", "--skip", "x", "--skip", "y"])
    );
}

#[test]
fn test_command_sbf_with_filter() {
    let mut c = Config::defaults();
    c.with_sbf = true;
    let f = "my_test".to_string();
    let inv = test_invocation(&c, Some(&f));
    assert_eq!(
        inv.args,
        strs(&["test-sbf", "--", "--color", "always", "my_test", "--target-dir", "./target", "--"])
    );
}

#[test]
fn install_command() {
    let inv = install_invocation(&"nightly-2024-05-01".to_string());
    assert_eq!(inv.program, "rustup");
    assert_eq!(
        inv.args,
        strs(&[
            "toolchain",
            "install",
            "--no-self-update",
            "--profile",
            "minimal",
            "nightly-2024-05-01",
            "--component",
            "llvm-tools-preview",
        ])
    );
    assert!(!inv.with_overlay);
}

#[test]
fn profile_data_names() {
    assert!(is_profile_data("zest-123-456.profraw"));
    assert!(is_profile_data("a.profraw"));
    assert!(!is_profile_data(".profraw"));
    assert!(!is_profile_data("notes.txt"));
    assert!(!is_profile_data("x.profraw.bak"));
    assert!(!is_profile_data("profraw"));
    assert!(!is_profile_data(""));
}

#[test]
fn stale_profiles_selected_in_order() {
    let entries = strs(&["a.profraw", "keep.txt", "html", "b.profraw"]);
    assert_eq!(stale_profile_files(&entries), strs(&["a.profraw", "b.profraw"]));
    assert!(stale_profile_files(&vec![]).is_empty());
}

#[test]
fn second_prepare_keeps_stray_file() {
    // after the first cleanup the directory holds no profile data
    let first: Vec<String> = strs(&["old.profraw", "lcov"]);
    let stale = stale_profile_files(&first);
    let mut dir: Vec<String> = first.into_iter().filter(|n| !stale.contains(n)).collect();
    assert_eq!(dir, strs(&["lcov"]));
    // a stray file and a new profile file appear before the second cleanup
    dir.push("stray.log".to_string());
    dir.push("zest-1-2.profraw".to_string());
    let stale = stale_profile_files(&dir);
    let after: Vec<String> = dir.into_iter().filter(|n| !stale.contains(n)).collect();
    assert_eq!(after, strs(&["lcov", "stray.log"]));
}

#[test]
fn create_outcomes() {
    assert_eq!(after_create(CreateOutcome::Created), PrepareStep::RemoveStaleProfiles);
    assert_eq!(after_create(CreateOutcome::AlreadyExists), PrepareStep::ClearContents);
    assert_eq!(after_create(CreateOutcome::Failed), PrepareStep::Abort);
}
