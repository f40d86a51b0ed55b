use vstd::prelude::*;
use vstd::string::*;

use crate::config::{version_view, Config, CoverageStrategy};

verus! {

/// Views of a list of strings.
pub open spec fn texts(v: Seq<String>) -> Seq<Seq<char>> {
    v.map_values(|s: String| s@)
}

/// Views of a list of name/value pairs.
pub open spec fn pairs(v: Seq<(String, String)>) -> Seq<(Seq<char>, Seq<char>)> {
    v.map_values(|p: (String, String)| (p.0@, p.1@))
}

/// Directory that every build and test writes its artifacts to.
pub open spec fn target_dir_spec() -> Seq<char> {
    "./target"@
}

/// Directory that holds profile data and reports.
pub open spec fn coverage_dir_spec() -> Seq<char> {
    "./target/coverage"@
}

pub fn target_dir() -> (r: &'static str)
    ensures
        r@ == target_dir_spec(),
{
    "./target"
}

pub fn coverage_dir() -> (r: &'static str)
    ensures
        r@ == coverage_dir_spec(),
{
    "./target/coverage"
}

/// An external command to run.
pub struct Invocation {
    pub program: String,
    pub args: Vec<String>,
    /// Whether the run's environment overlay is applied to the process.
    pub with_overlay: bool,
}

/// The environment overlay of a run: the profile file pattern under
/// `profile_dir`, the instrumentation flags, and the backtrace and stack
/// settings.
pub open spec fn overlay_spec(
    strategy: CoverageStrategy,
    branch: bool,
    profile_dir: Seq<char>,
) -> Seq<(Seq<char>, Seq<char>)> {
    let profile = seq![("LLVM_PROFILE_FILE"@, profile_dir + "/zest-%p-%m.profraw"@)];
    let flags = match strategy {
        CoverageStrategy::InstrumentCoverage => seq![
            (
                "RUSTFLAGS"@,
                if branch {
                    "-C instrument-coverage"@ + " -Z coverage-options=mcdc"@
                } else {
                    "-C instrument-coverage"@
                },
            ),
        ],
        CoverageStrategy::ZProfile => seq![("CARGO_INCREMENTAL"@, "0"@), ("RUSTFLAGS"@, "-Z profile"@)],
    };
    profile + flags + seq![("RUST_BACKTRACE"@, "1"@), ("RUST_MIN_STACK"@, "8388608"@)]
}

fn entry(name: &str, value: String) -> (r: (String, String))
    ensures
        r.0@ == name@,
        r.1@ == value@,
{
    (String::from_str(name), value)
}

/// Builds the environment overlay applied to every build and test process;
/// `profile_dir` is the absolute path of the coverage directory.
pub fn env_overlay(strategy: CoverageStrategy, branch: bool, profile_dir: &str) -> (r: Vec<
    (String, String),
>)
    ensures
        pairs(r@) == overlay_spec(strategy, branch, profile_dir@),
{
    let mut v: Vec<(String, String)> = Vec::new();
    let profile = String::from_str(profile_dir).concat("/zest-%p-%m.profraw");
    v.push(entry("LLVM_PROFILE_FILE", profile));
    match strategy {
        CoverageStrategy::InstrumentCoverage => {
            let mut flags = String::from_str("-C instrument-coverage");
            if branch {
                flags.append(" -Z coverage-options=mcdc");
            }
            v.push(entry("RUSTFLAGS", flags));
        },
        CoverageStrategy::ZProfile => {
            v.push(entry("CARGO_INCREMENTAL", String::from_str("0")));
            v.push(entry("RUSTFLAGS", String::from_str("-Z profile")));
        },
    }
    v.push(entry("RUST_BACKTRACE", String::from_str("1")));
    v.push(entry("RUST_MIN_STACK", String::from_str("8388608")));
    assert(pairs(v@) =~= overlay_spec(strategy, branch, profile_dir@));
    v
}

/// The toolchain selector placed before the subcommand, if a version is given.
pub open spec fn toolchain_args(compiler_version: Option<Seq<char>>) -> Seq<Seq<char>> {
    match compiler_version {
        Some(v) => seq!["+"@ + v],
        None => seq![],
    }
}

/// Arguments of the build command.
pub open spec fn build_args_spec(compiler_version: Option<Seq<char>>, with_sbf: bool) -> Seq<
    Seq<char>,
> {
    toolchain_args(compiler_version) + (if with_sbf {
        seq!["build-sbf"@, "--"@]
    } else {
        seq!["build"@]
    }) + seq!["--color"@, "always"@, "--tests"@, "--target-dir"@, target_dir_spec()]
}

/// The skip-list forwarded to the test harness, one `--skip <pattern>` pair per entry.
pub open spec fn skip_args(skips: Seq<Seq<char>>) -> Seq<Seq<char>>
    decreases skips.len(),
{
    if skips.len() == 0 {
        seq![]
    } else {
        skip_args(skips.drop_last()) + seq!["--skip"@, skips.last()]
    }
}

/// Arguments of one test command, with at most one name filter.
pub open spec fn test_args_spec(
    compiler_version: Option<Seq<char>>,
    with_sbf: bool,
    filter: Option<Seq<char>>,
    skips: Seq<Seq<char>>,
) -> Seq<Seq<char>> {
    toolchain_args(compiler_version) + (if with_sbf {
        seq!["test-sbf"@, "--"@]
    } else {
        seq!["test"@]
    }) + seq!["--color"@, "always"@] + (match filter {
        Some(f) => seq![f],
        None => seq![],
    }) + seq!["--target-dir"@, target_dir_spec(), "--"@] + skip_args(skips)
}

/// Arguments of the toolchain installation command for `version`.
pub open spec fn install_args_spec(version: Seq<char>) -> Seq<Seq<char>> {
    seq![
        "toolchain"@,
        "install"@,
        "--no-self-update"@,
        "--profile"@,
        "minimal"@,
        version,
        "--component"@,
        "llvm-tools-preview"@,
    ]
}

pub(crate) fn push_str(v: &mut Vec<String>, s: &str)
    ensures
        texts(final(v)@) == texts(old(v)@).push(s@),
{
    v.push(String::from_str(s));
    assert(texts(final(v)@) =~= texts(old(v)@).push(s@));
}

pub(crate) fn push_string(v: &mut Vec<String>, s: String)
    ensures
        texts(final(v)@) == texts(old(v)@).push(s@),
{
    v.push(s);
    assert(texts(final(v)@) =~= texts(old(v)@).push(s@));
}

fn toolchain_prefix(compiler_version: &Option<String>) -> (r: Vec<String>)
    ensures
        texts(r@) == toolchain_args(version_view(*compiler_version)),
{
    let mut v: Vec<String> = Vec::new();
    if let Some(version) = compiler_version {
        push_string(&mut v, String::from_str("+").concat(version.as_str()));
    }
    assert(texts(v@) =~= toolchain_args(version_view(*compiler_version)));
    v
}

pub open spec fn filter_view(filter: Option<&String>) -> Option<Seq<char>> {
    match filter {
        Some(f) => Some(f@),
        None => None,
    }
}

impl Invocation {
    /// The build command of a run with configuration `c`.
    pub open spec fn is_build_of(&self, c: Config) -> bool {
        &&& self.program@ == "cargo"@
        &&& texts(self.args@) == build_args_spec(version_view(c.compiler_version), c.with_sbf)
        &&& self.with_overlay
    }

    /// The test command of a run with configuration `c`, with name filter `filter`.
    pub open spec fn is_test_of(&self, c: Config, filter: Option<Seq<char>>) -> bool {
        &&& self.program@ == "cargo"@
        &&& texts(self.args@) == test_args_spec(
            version_view(c.compiler_version),
            c.with_sbf,
            filter,
            texts(c.skips@),
        )
        &&& self.with_overlay
    }

    /// The command installing toolchain `version`.
    pub open spec fn is_install_of(&self, version: Seq<char>) -> bool {
        &&& self.program@ == "rustup"@
        &&& texts(self.args@) == install_args_spec(version)
        &&& !self.with_overlay
    }
}

/// The build command: compiles the project and its tests into the target directory.
pub fn build_invocation(config: &Config) -> (r: Invocation)
    ensures
        r.is_build_of(*config),
{
    let mut args = toolchain_prefix(&config.compiler_version);
    if config.with_sbf {
        push_str(&mut args, "build-sbf");
        push_str(&mut args, "--");
    } else {
        push_str(&mut args, "build");
    }
    push_str(&mut args, "--color");
    push_str(&mut args, "always");
    push_str(&mut args, "--tests");
    push_str(&mut args, "--target-dir");
    push_str(&mut args, target_dir());
    assert(texts(args@) =~= build_args_spec(version_view(config.compiler_version), config.with_sbf));
    Invocation { program: String::from_str("cargo"), args, with_overlay: true }
}

/// One test command, optionally restricted by the name filter `filter`;
/// the whole skip-list is always forwarded.
pub fn test_invocation(config: &Config, filter: Option<&String>) -> (r: Invocation)
    ensures
        r.is_test_of(*config, filter_view(filter)),
{
    let mut args = toolchain_prefix(&config.compiler_version);
    if config.with_sbf {
        push_str(&mut args, "test-sbf");
        push_str(&mut args, "--");
    } else {
        push_str(&mut args, "test");
    }
    push_str(&mut args, "--color");
    push_str(&mut args, "always");
    if let Some(f) = filter {
        push_string(&mut args, f.clone());
    }
    push_str(&mut args, "--target-dir");
    push_str(&mut args, target_dir());
    push_str(&mut args, "--");
    let ghost prefix = texts(args@);
    let mut i: usize = 0;
    while i < config.skips.len()
        invariant
            i <= config.skips@.len(),
            texts(args@) == prefix + skip_args(texts(config.skips@.subrange(0, i as int))),
        decreases config.skips@.len() - i,
    {
        push_str(&mut args, "--skip");
        push_string(&mut args, config.skips[i].clone());
        assert(texts(config.skips@.subrange(0, i + 1)).drop_last() =~= texts(
            config.skips@.subrange(0, i as int),
        ));
        i = i + 1;
    }
    assert(config.skips@.subrange(0, i as int) =~= config.skips@);
    assert(texts(args@) =~= test_args_spec(
        version_view(config.compiler_version),
        config.with_sbf,
        filter_view(filter),
        texts(config.skips@),
    ));
    Invocation { program: String::from_str("cargo"), args, with_overlay: true }
}

/// The command that installs `version` with the coverage tooling component.
pub fn install_invocation(version: &String) -> (r: Invocation)
    ensures
        r.is_install_of(version@),
{
    let mut args: Vec<String> = Vec::new();
    push_str(&mut args, "toolchain");
    push_str(&mut args, "install");
    push_str(&mut args, "--no-self-update");
    push_str(&mut args, "--profile");
    push_str(&mut args, "minimal");
    push_string(&mut args, version.clone());
    push_str(&mut args, "--component");
    push_str(&mut args, "llvm-tools-preview");
    assert(texts(args@) =~= install_args_spec(version@));
    Invocation { program: String::from_str("rustup"), args, with_overlay: false }
}

} // verus!
