use vstd::prelude::*;
use vstd::string::*;

verus! {

/// Convention the target project's contracts are written in; it selects which
/// boilerplate lines are left out of coverage accounting.
#[derive(Clone, Copy, Debug, PartialEq, Eq, Hash, Structural)]
pub enum ContractStyle {
    Anchor,
    Native,
}

/// A report format that the aggregator can produce.
#[derive(Clone, Copy, Debug, PartialEq, Eq, Hash, Structural)]
pub enum OutputType {
    Html,
    Lcov,
}

/// Compiler flag family used to instrument the build.
#[derive(Clone, Copy, Debug, PartialEq, Eq, Hash, Structural)]
pub enum CoverageStrategy {
    InstrumentCoverage,
    ZProfile,
}

impl Default for ContractStyle {
    fn default() -> (r: Self)
        ensures
            r == ContractStyle::Anchor,
    {
        ContractStyle::Anchor
    }
}

impl Default for OutputType {
    fn default() -> (r: Self)
        ensures
            r == OutputType::Html,
    {
        OutputType::Html
    }
}

impl Default for CoverageStrategy {
    fn default() -> (r: Self)
        ensures
            r == CoverageStrategy::InstrumentCoverage,
    {
        CoverageStrategy::InstrumentCoverage
    }
}

/// A configuration with a file of its own: the file's name is derived from `NAME`.
pub trait ConfigFileName {
    const NAME: &'static str;
}

/// Whether `pat` occurs in `s` as a contiguous run of characters.
pub open spec fn contains_seq(s: Seq<char>, pat: Seq<char>) -> bool {
    exists|i: int| 0 <= i <= s.len() - pat.len() && #[trigger] s.subrange(i, i + pat.len()) == pat
}

/// Relies on `str::contains`: true if and only if `pat` matches a sub-slice of `s`.
#[verifier::external_body]
fn str_contains(s: &str, pat: &str) -> (r: bool)
    ensures
        r == contains_seq(s@, pat@),
{
    s.contains(pat)
}

/// The channel counts as nightly when no version is given, or when the
/// given version names the nightly channel.
pub open spec fn is_nightly_spec(compiler_version: Option<Seq<char>>) -> bool {
    match compiler_version {
        None => true,
        Some(v) => contains_seq(v, "nightly"@),
    }
}

pub open spec fn version_view(v: Option<String>) -> Option<Seq<char>> {
    match v {
        None => None,
        Some(s) => Some(s@),
    }
}

/// Whether the resolved compiler channel is nightly.
pub fn is_nightly(compiler_version: &Option<String>) -> (r: bool)
    ensures
        r == is_nightly_spec(version_view(*compiler_version)),
{
    match compiler_version {
        None => true,
        Some(v) => str_contains(v.as_str(), "nightly"),
    }
}

/// The resolved configuration of one coverage run.
pub struct Config {
    /// Root of the project to measure.
    pub path: String,
    /// Toolchain to build with instead of the project's own.
    pub compiler_version: Option<String>,
    /// Whether branch coverage is collected.
    pub branch: bool,
    /// Whether the cross-compiling build and test subcommands are used.
    pub with_sbf: bool,
    pub coverage_strategy: CoverageStrategy,
    /// Test-name filters; empty runs every test.
    pub tests: Vec<String>,
    /// Test-name patterns to skip.
    pub skips: Vec<String>,
    /// Requested report formats, never empty.
    pub output_types: Vec<OutputType>,
    pub contract_style: ContractStyle,
}

impl ConfigFileName for Config {
    const NAME: &'static str = "coverage";
}

/// One layer of configuration values (from a file, or from the command
/// line), where `None` leaves the value to a lower layer.
pub struct ConfigLayer {
    pub path: Option<String>,
    pub compiler_version: Option<String>,
    pub branch: Option<bool>,
    pub with_sbf: Option<bool>,
    pub coverage_strategy: Option<CoverageStrategy>,
    pub tests: Option<Vec<String>>,
    pub skips: Option<Vec<String>>,
    pub output_types: Option<Vec<OutputType>>,
    pub contract_style: Option<ContractStyle>,
}

/// The value of one setting: the upper layer's if it has one, else the
/// lower layer's, else the default.
pub open spec fn layered<T>(upper: Option<T>, lower: Option<T>, default: T) -> T {
    match upper {
        Some(u) => u,
        None => match lower {
            Some(l) => l,
            None => default,
        },
    }
}

fn pick<T>(upper: Option<T>, lower: Option<T>, default: T) -> (r: T)
    ensures
        r == layered(upper, lower, default),
{
    match upper {
        Some(u) => u,
        None => match lower {
            Some(l) => l,
            None => default,
        },
    }
}

pub open spec fn strings_view(v: Option<Vec<String>>) -> Option<Seq<Seq<char>>> {
    match v {
        None => None,
        Some(v) => Some(v@.map_values(|s: String| s@)),
    }
}

pub open spec fn formats_view(v: Option<Vec<OutputType>>) -> Option<Seq<OutputType>> {
    match v {
        None => None,
        Some(v) => Some(v@),
    }
}

/// The requested formats, where an empty request stands for the default.
pub open spec fn resolved_formats(v: Seq<OutputType>) -> Seq<OutputType> {
    if v.len() == 0 {
        seq![OutputType::Html]
    } else {
        v
    }
}

impl Config {
    /// Well-formed: at least one report format is requested.
    pub open spec fn wf(&self) -> bool {
        self.output_types@.len() > 0
    }

    /// The configuration with every setting at its default value.
    pub fn defaults() -> (r: Config)
        ensures
            r.path@ == "."@,
            r.compiler_version is None,
            !r.branch,
            !r.with_sbf,
            r.coverage_strategy == CoverageStrategy::InstrumentCoverage,
            r.tests@.len() == 0,
            r.skips@.len() == 0,
            r.output_types@ == seq![OutputType::Html],
            r.contract_style == ContractStyle::Anchor,
            r.wf(),
    {
        let mut output_types = Vec::new();
        output_types.push(OutputType::Html);
        Config {
            path: String::from_str("."),
            compiler_version: None,
            branch: false,
            with_sbf: false,
            coverage_strategy: CoverageStrategy::InstrumentCoverage,
            tests: Vec::new(),
            skips: Vec::new(),
            output_types,
            contract_style: ContractStyle::Anchor,
        }
    }

    /// Resolves the configuration from the command-line layer `flags` over
    /// the file layer `file` over the defaults; an empty list of report
    /// formats stands for the default one.
    pub fn from_layers(file: ConfigLayer, flags: ConfigLayer) -> (r: Config)
        ensures
            r.path@ == layered(version_view(flags.path), version_view(file.path), "."@),
            r.compiler_version == (if flags.compiler_version is Some {
                flags.compiler_version
            } else {
                file.compiler_version
            }),
            r.branch == layered(flags.branch, file.branch, false),
            r.with_sbf == layered(flags.with_sbf, file.with_sbf, false),
            r.coverage_strategy == layered(
                flags.coverage_strategy,
                file.coverage_strategy,
                CoverageStrategy::InstrumentCoverage,
            ),
            r.tests@.map_values(|s: String| s@) == layered(
                strings_view(flags.tests),
                strings_view(file.tests),
                Seq::empty(),
            ),
            r.skips@.map_values(|s: String| s@) == layered(
                strings_view(flags.skips),
                strings_view(file.skips),
                Seq::empty(),
            ),
            r.output_types@ == resolved_formats(
                layered(formats_view(flags.output_types), formats_view(file.output_types), seq![]),
            ),
            r.contract_style == layered(
                flags.contract_style,
                file.contract_style,
                ContractStyle::Anchor,
            ),
            r.wf(),
    {
        let d = Config::defaults();
        let output_types = pick(flags.output_types, file.output_types, d.output_types);
        let output_types = if output_types.len() == 0 {
            let mut v = Vec::new();
            v.push(OutputType::Html);
            v
        } else {
            output_types
        };
        Config {
            path: pick(flags.path, file.path, d.path),
            compiler_version: match flags.compiler_version {
                Some(v) => Some(v),
                None => file.compiler_version,
            },
            branch: pick(flags.branch, file.branch, false),
            with_sbf: pick(flags.with_sbf, file.with_sbf, false),
            coverage_strategy: pick(
                flags.coverage_strategy,
                file.coverage_strategy,
                CoverageStrategy::InstrumentCoverage,
            ),
            tests: pick(flags.tests, file.tests, d.tests),
            skips: pick(flags.skips, file.skips, d.skips),
            output_types,
            contract_style: pick(flags.contract_style, file.contract_style, ContractStyle::Anchor),
        }
    }
}

} // verus!
