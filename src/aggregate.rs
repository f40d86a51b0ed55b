use vstd::prelude::*;
use vstd::string::*;

use crate::command::{
    coverage_dir, coverage_dir_spec, push_str, push_string, target_dir, target_dir_spec, texts,
    Invocation,
};
use crate::config::{Config, ContractStyle, OutputType};
use crate::error::RunError;
use crate::exclusion::{exclusion_pattern, exclusion_pattern_spec, exclusion_regex, regex_compiles};
use crate::report::{unique_formats, unique_spec};

verus! {

/// The aggregator's name for a report format.
pub open spec fn format_name(format: OutputType) -> Seq<char> {
    match format {
        OutputType::Html => "html"@,
        OutputType::Lcov => "lcov"@,
    }
}

/// `flag value` for each value, in order.
pub open spec fn repeated(flag: Seq<char>, values: Seq<Seq<char>>) -> Seq<Seq<char>>
    decreases values.len(),
{
    if values.len() == 0 {
        seq![]
    } else {
        repeated(flag, values.drop_last()) + seq![flag, values.last()]
    }
}

pub open spec fn format_names(formats: Seq<OutputType>) -> Seq<Seq<char>> {
    formats.map_values(|f: OutputType| format_name(f))
}

fn push_repeated(args: &mut Vec<String>, flag: &str, values: &Vec<String>)
    ensures
        texts(final(args)@) == texts(old(args)@) + repeated(flag@, texts(values@)),
{
    let ghost start = texts(args@);
    let mut i: usize = 0;
    while i < values.len()
        invariant
            i <= values@.len(),
            texts(args@) == start + repeated(flag@, texts(values@.subrange(0, i as int))),
        decreases values@.len() - i,
    {
        push_str(args, flag);
        push_string(args, values[i].clone());
        assert(texts(values@.subrange(0, i + 1)).drop_last() =~= texts(values@.subrange(0, i as int)));
        i = i + 1;
    }
    assert(values@.subrange(0, i as int) =~= values@);
}

fn format_name_string(format: OutputType) -> (r: String)
    ensures
        r@ == format_name(format),
{
    match format {
        OutputType::Html => String::from_str("html"),
        OutputType::Lcov => String::from_str("lcov"),
    }
}

fn format_name_list(formats: &Vec<OutputType>) -> (r: Vec<String>)
    ensures
        texts(r@) == format_names(formats@),
{
    let mut r: Vec<String> = Vec::new();
    let mut i: usize = 0;
    while i < formats.len()
        invariant
            i <= formats@.len(),
            texts(r@) == format_names(formats@.subrange(0, i as int)),
        decreases formats@.len() - i,
    {
        let ghost prev = r@;
        r.push(format_name_string(formats[i]));
        assert(texts(r@) =~= texts(prev).push(format_name(formats@[i as int])));
        assert(format_names(formats@.subrange(0, i + 1)) =~= format_names(
            formats@.subrange(0, i as int),
        ).push(format_name(formats@[i as int])));
        i = i + 1;
    }
    assert(formats@.subrange(0, i as int) =~= formats@);
    r
}

/// Everything the coverage aggregator is told for one run.
pub struct AggregationRequest {
    /// Where the profile data is searched for.
    pub paths: Vec<String>,
    /// Where the instrumented binaries are searched for.
    pub binary_path: String,
    /// Root of the sources that coverage is reported on.
    pub source_dir: String,
    /// Where the reports are written.
    pub output_path: String,
    /// Report formats, each once.
    pub output_types: Vec<OutputType>,
    /// Whether sources that no longer exist are skipped.
    pub ignore_not_existing: bool,
    /// Globs of paths that never count toward coverage.
    pub ignore_dir: Vec<String>,
    pub branch: bool,
    /// Formats whose output is sorted.
    pub sort_output_types: Vec<OutputType>,
    /// Lines that match are left out of coverage accounting.
    pub excl_line: regex::Regex,
    pub contract_style: ContractStyle,
}

impl AggregationRequest {
    /// The request owed for a run with configuration `c`, but for the
    /// compiled exclusion pattern.
    pub open spec fn describes(&self, c: Config) -> bool {
        &&& texts(self.paths@) == seq![coverage_dir_spec()]
        &&& self.binary_path@ == target_dir_spec()
        &&& self.source_dir@ == "."@
        &&& self.output_path@ == coverage_dir_spec()
        &&& self.output_types@ == unique_spec(c.output_types@)
        &&& self.ignore_not_existing
        &&& texts(self.ignore_dir@) == seq!["target/*"@, "*tests*"@]
        &&& self.branch == c.branch
        &&& self.sort_output_types@ == seq![OutputType::Html]
        &&& self.contract_style == c.contract_style
    }

    /// Builds the aggregation request for a run: profile data from the
    /// coverage directory, binaries from the target directory, build output
    /// and tests ignored, and the style's exclusion pattern compiled.
    pub fn new(config: &Config) -> (r: Result<AggregationRequest, RunError>)
        ensures
            r is Ok <==> regex_compiles(exclusion_pattern_spec(config.contract_style)),
            r matches Ok(q) ==> q.describes(*config),
            r matches Err(e) ==> e == RunError::AggregationFailed,
    {
        let excl_line = match exclusion_regex(config.contract_style) {
            Ok(re) => re,
            Err(e) => {
                return Err(e);
            },
        };
        let mut paths: Vec<String> = Vec::new();
        paths.push(String::from_str(coverage_dir()));
        assert(texts(paths@) =~= seq![coverage_dir_spec()]);
        let mut ignore_dir: Vec<String> = Vec::new();
        ignore_dir.push(String::from_str("target/*"));
        ignore_dir.push(String::from_str("*tests*"));
        assert(texts(ignore_dir@) =~= seq!["target/*"@, "*tests*"@]);
        let mut sort_output_types: Vec<OutputType> = Vec::new();
        sort_output_types.push(OutputType::Html);
        Ok(
            AggregationRequest {
                paths,
                binary_path: String::from_str(target_dir()),
                source_dir: String::from_str("."),
                output_path: String::from_str(coverage_dir()),
                output_types: unique_formats(&config.output_types),
                ignore_not_existing: true,
                ignore_dir,
                branch: config.branch,
                sort_output_types,
                excl_line,
                contract_style: config.contract_style,
            },
        )
    }
}

impl AggregationRequest {
    /// The aggregator's command-line arguments for this request.
    pub open spec fn args_spec(&self) -> Seq<Seq<char>> {
        texts(self.paths@) + seq![
            "--binary-path"@,
            self.binary_path@,
            "--source-dir"@,
            self.source_dir@,
            "--output-path"@,
            self.output_path@,
        ] + repeated("--output-types"@, format_names(self.output_types@)) + (if self.ignore_not_existing {
            seq!["--ignore-not-existing"@]
        } else {
            seq![]
        }) + repeated("--ignore"@, texts(self.ignore_dir@)) + (if self.branch {
            seq!["--branch"@]
        } else {
            seq![]
        }) + repeated("--sort-output-types"@, format_names(self.sort_output_types@)) + seq![
            "--llvm"@,
            "--log-level"@,
            "ERROR"@,
            "--excl-line"@,
            exclusion_pattern_spec(self.contract_style),
        ]
    }

    /// The aggregator run that carries out this request.
    pub fn invocation(&self) -> (r: Invocation)
        ensures
            r.program@ == "grcov"@,
            texts(r.args@) == self.args_spec(),
            !r.with_overlay,
    {
        let mut args: Vec<String> = Vec::new();
        let mut i: usize = 0;
        while i < self.paths.len()
            invariant
                i <= self.paths@.len(),
                texts(args@) == texts(self.paths@.subrange(0, i as int)),
            decreases self.paths@.len() - i,
        {
            push_string(&mut args, self.paths[i].clone());
            assert(texts(args@) =~= texts(self.paths@.subrange(0, i + 1)));
            i = i + 1;
        }
        assert(self.paths@.subrange(0, i as int) =~= self.paths@);
        push_str(&mut args, "--binary-path");
        push_string(&mut args, self.binary_path.clone());
        push_str(&mut args, "--source-dir");
        push_string(&mut args, self.source_dir.clone());
        push_str(&mut args, "--output-path");
        push_string(&mut args, self.output_path.clone());
        push_repeated(&mut args, "--output-types", &format_name_list(&self.output_types));
        if self.ignore_not_existing {
            push_str(&mut args, "--ignore-not-existing");
        }
        push_repeated(&mut args, "--ignore", &self.ignore_dir);
        if self.branch {
            push_str(&mut args, "--branch");
        }
        push_repeated(&mut args, "--sort-output-types", &format_name_list(&self.sort_output_types));
        push_str(&mut args, "--llvm");
        push_str(&mut args, "--log-level");
        push_str(&mut args, "ERROR");
        push_str(&mut args, "--excl-line");
        push_str(&mut args, exclusion_pattern(self.contract_style));
        assert(texts(args@) =~= self.args_spec());
        Invocation { program: String::from_str("grcov"), args, with_overlay: false }
    }
}

} // verus!
