use vstd::prelude::*;

use crate::config::ContractStyle;
use crate::error::RunError;

verus! {

#[verifier::external_type_specification]
#[verifier::external_body]
pub struct ExRegex(regex::Regex);

#[verifier::external_type_specification]
#[verifier::external_body]
pub struct ExRegexError(regex::Error);

/// Whether the regex crate accepts `pattern`: it parses, and the compiled
/// program stays within the default size limit.
pub uninterp spec fn regex_compiles(pattern: Seq<char>) -> bool;

/// Relies on `regex::Regex::new`: it compiles `pattern`, and fails if and
/// only if the pattern is invalid or too large, which depends on the
/// pattern alone.
#[verifier::external_body]
fn compile_regex(pattern: &str) -> (r: Result<regex::Regex, regex::Error>)
    ensures
        r is Ok <==> regex_compiles(pattern@),
{
    regex::Regex::new(pattern)
}

/// Lines that every style leaves out of coverage accounting: test entry
/// points, derive attributes, and the program-id declaration.
pub open spec fn common_exclusions() -> Seq<char> {
    r"^\s*#\[(tokio::)?test\]$|^\s*#\[derive\(\s*[^\)]+\s*\)\]$|^\s*declare_id!\(\s*.*\s*\);$"@
}

/// The exclusion pattern for a contract style. The Anchor style also drops
/// its program and account attributes and its program declarations.
pub open spec fn exclusion_pattern_spec(style: ContractStyle) -> Seq<char> {
    match style {
        ContractStyle::Anchor => r"^\s*#\[(program|account)\]$|^\s*declare_program!\(\s*.*\s*\);$|"@
            + common_exclusions(),
        ContractStyle::Native => common_exclusions(),
    }
}

/// The regular expression, as text, whose matching lines are left out of
/// coverage accounting for projects of the given style.
pub fn exclusion_pattern(style: ContractStyle) -> (r: &'static str)
    ensures
        r@ == exclusion_pattern_spec(style),
{
    match style {
        ContractStyle::Anchor => {
            let r = r"^\s*#\[(program|account)\]$|^\s*declare_program!\(\s*.*\s*\);$|^\s*#\[(tokio::)?test\]$|^\s*#\[derive\(\s*[^\)]+\s*\)\]$|^\s*declare_id!\(\s*.*\s*\);$";
            proof {
                reveal_strlit(r"^\s*#\[(program|account)\]$|^\s*declare_program!\(\s*.*\s*\);$|^\s*#\[(tokio::)?test\]$|^\s*#\[derive\(\s*[^\)]+\s*\)\]$|^\s*declare_id!\(\s*.*\s*\);$");
                reveal_strlit(r"^\s*#\[(program|account)\]$|^\s*declare_program!\(\s*.*\s*\);$|");
                reveal_strlit(r"^\s*#\[(tokio::)?test\]$|^\s*#\[derive\(\s*[^\)]+\s*\)\]$|^\s*declare_id!\(\s*.*\s*\);$");
            }
            assert(r@ =~= exclusion_pattern_spec(style));
            r
        },
        ContractStyle::Native => r"^\s*#\[(tokio::)?test\]$|^\s*#\[derive\(\s*[^\)]+\s*\)\]$|^\s*declare_id!\(\s*.*\s*\);$",
    }
}

/// Compiles the exclusion pattern of `style`; a pattern that the regex
/// engine refuses fails the aggregation stage.
pub fn exclusion_regex(style: ContractStyle) -> (r: Result<regex::Regex, RunError>)
    ensures
        r is Ok <==> regex_compiles(exclusion_pattern_spec(style)),
        r is Err ==> r == Err::<regex::Regex, RunError>(RunError::AggregationFailed),
{
    match compile_regex(exclusion_pattern(style)) {
        Ok(re) => Ok(re),
        Err(_) => Err(RunError::AggregationFailed),
    }
}

} // verus!
