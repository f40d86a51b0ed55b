use vstd::prelude::*;

use crate::config::{is_nightly, is_nightly_spec, version_view, Config, CoverageStrategy};
use crate::error::RunError;

verus! {

/// The verdict on a configuration's toolchain preconditions, given whether a
/// toolchain manager was detected.
pub open spec fn toolchain_verdict(c: Config, manager_found: bool) -> Result<(), RunError> {
    let nightly = is_nightly_spec(version_view(c.compiler_version));
    if c.compiler_version is Some && !manager_found {
        Err(RunError::ToolchainManagerRequired)
    } else if c.coverage_strategy == CoverageStrategy::ZProfile && !nightly {
        Err(RunError::NightlyRequired)
    } else if c.branch && !nightly {
        Err(RunError::NightlyRequired)
    } else {
        Ok(())
    }
}

/// Checks that the toolchain can serve the requested options: a compiler
/// version needs a toolchain manager, and both the `-Z profile` strategy and
/// branch coverage need the nightly channel.
pub fn check_toolchain(config: &Config, manager_found: bool) -> (r: Result<(), RunError>)
    ensures
        r == toolchain_verdict(*config, manager_found),
{
    let nightly = is_nightly(&config.compiler_version);
    if config.compiler_version.is_some() && !manager_found {
        Err(RunError::ToolchainManagerRequired)
    } else if config.coverage_strategy == CoverageStrategy::ZProfile && !nightly {
        Err(RunError::NightlyRequired)
    } else if config.branch && !nightly {
        Err(RunError::NightlyRequired)
    } else {
        Ok(())
    }
}

} // verus!
