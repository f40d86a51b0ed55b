use vstd::prelude::*;

verus! {

/// Why a coverage run stopped.
#[derive(Clone, Copy, Debug, PartialEq, Eq, Structural)]
pub enum RunError {
    /// A compiler version was requested without a toolchain manager to install it.
    ToolchainManagerRequired,
    /// The requested option needs the nightly compiler channel.
    NightlyRequired,
    /// Preparing the artifact directory failed.
    IoError,
    /// Installing the requested toolchain failed.
    ToolchainInstallFailed,
    /// The build command exited unsuccessfully.
    BuildFailed,
    /// A test command exited unsuccessfully.
    TestFailed,
    /// The coverage aggregator could not be set up or failed.
    AggregationFailed,
    /// A report could not be opened.
    ReportFailed,
}

/// The one-line description of each error.
pub open spec fn message_spec(e: RunError) -> Seq<char> {
    match e {
        RunError::ToolchainManagerRequired => "specifying a compiler version requires a toolchain-manager-managed Rust installation"@,
        RunError::NightlyRequired => "the requested option requires a nightly compiler channel"@,
        RunError::IoError => "could not prepare the coverage directory"@,
        RunError::ToolchainInstallFailed => "installing the toolchain failed"@,
        RunError::BuildFailed => "the build failed"@,
        RunError::TestFailed => "the tests failed"@,
        RunError::AggregationFailed => "aggregating coverage failed"@,
        RunError::ReportFailed => "opening the report failed"@,
    }
}

impl RunError {
    /// A one-line description for the user.
    pub fn message(&self) -> (r: &'static str)
        ensures
            r@ == message_spec(*self),
    {
        match self {
            RunError::ToolchainManagerRequired => "specifying a compiler version requires a toolchain-manager-managed Rust installation",
            RunError::NightlyRequired => "the requested option requires a nightly compiler channel",
            RunError::IoError => "could not prepare the coverage directory",
            RunError::ToolchainInstallFailed => "installing the toolchain failed",
            RunError::BuildFailed => "the build failed",
            RunError::TestFailed => "the tests failed",
            RunError::AggregationFailed => "aggregating coverage failed",
            RunError::ReportFailed => "opening the report failed",
        }
    }
}

} // verus!
