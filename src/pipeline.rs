use vstd::prelude::*;
use vstd::string::*;

use crate::aggregate::AggregationRequest;
use crate::command::{
    build_invocation, coverage_dir, coverage_dir_spec, env_overlay, install_invocation,
    overlay_spec, pairs, test_invocation, Invocation,
};
use crate::config::Config;
use crate::error::RunError;
use crate::exclusion::{exclusion_pattern_spec, regex_compiles};
use crate::guard::{check_toolchain, toolchain_verdict};
use crate::report::{report_actions, unique_spec, ReportAction};

verus! {

/// Where a coverage run stands. The stages follow one another strictly in
/// this order; a failure in any of them ends the run.
#[derive(Clone, Copy, Debug, PartialEq, Eq, Structural)]
pub enum Stage {
    /// The artifact directory is being prepared.
    Prepare,
    /// The requested toolchain is being installed.
    Install,
    /// The project and its tests are being built.
    Build,
    /// Test command number `run` is running.
    Test { run: usize },
    /// The coverage aggregator is running.
    Aggregate,
    /// The reports are being shown or opened.
    Report,
    /// The run completed.
    Finished,
    /// The run stopped on `error`.
    Failed { error: RunError },
}

/// How the work of the current stage ended.
pub enum Event {
    /// The artifact directory is ready; `profile_dir` is its absolute path.
    Prepared { profile_dir: String },
    /// The stage's work succeeded.
    Succeeded,
    /// The stage's work failed.
    Failed,
}

/// The work that the current stage asks for.
pub enum Action {
    /// Create the directory (or empty it if it exists), then remove stale profile data.
    PrepareArtifacts { coverage_dir: String },
    /// Run an external command and report whether it exited successfully.
    Spawn { invocation: Invocation },
    /// Run the coverage aggregator on the request.
    Aggregate { request: AggregationRequest },
    /// Show or open the reports.
    Report { actions: Vec<ReportAction> },
    /// The run is complete.
    Finish,
    /// The run stopped.
    Abort { error: RunError },
}

/// How many test commands a run issues: one per name filter, or a single
/// unfiltered one.
pub open spec fn test_runs(c: Config) -> nat {
    if c.tests@.len() == 0 {
        1
    } else {
        c.tests@.len()
    }
}

/// The name filter of test command number `run`.
pub open spec fn test_filter(c: Config, run: int) -> Option<Seq<char>> {
    if c.tests@.len() == 0 {
        None
    } else {
        Some(c.tests@[run]@)
    }
}

/// The stage that is actually entered: aggregation cannot begin when its
/// exclusion pattern does not compile.
pub open spec fn entered(c: Config, s: Stage) -> Stage {
    if s == Stage::Aggregate && !regex_compiles(exclusion_pattern_spec(c.contract_style)) {
        Stage::Failed { error: RunError::AggregationFailed }
    } else {
        s
    }
}

/// The first stage: the toolchain checks run before anything else.
pub open spec fn initial_stage(c: Config, manager_found: bool) -> Stage {
    match toolchain_verdict(c, manager_found) {
        Ok(_) => Stage::Prepare,
        Err(e) => Stage::Failed { error: e },
    }
}

/// The stage after `s`, given whether its work succeeded.
pub open spec fn next_stage(c: Config, s: Stage, ok: bool) -> Stage {
    entered(
        c,
        match s {
            Stage::Prepare => if !ok {
                Stage::Failed { error: RunError::IoError }
            } else if c.compiler_version is Some {
                Stage::Install
            } else {
                Stage::Build
            },
            Stage::Install => if ok {
                Stage::Build
            } else {
                Stage::Failed { error: RunError::ToolchainInstallFailed }
            },
            Stage::Build => if ok {
                Stage::Test { run: 0 }
            } else {
                Stage::Failed { error: RunError::BuildFailed }
            },
            Stage::Test { run } => if !ok {
                Stage::Failed { error: RunError::TestFailed }
            } else if run + 1 < test_runs(c) {
                Stage::Test { run: (run + 1) as usize }
            } else {
                Stage::Aggregate
            },
            Stage::Aggregate => if ok {
                Stage::Report
            } else {
                Stage::Failed { error: RunError::AggregationFailed }
            },
            Stage::Report => if ok {
                Stage::Finished
            } else {
                Stage::Failed { error: RunError::ReportFailed }
            },
            Stage::Finished => Stage::Finished,
            Stage::Failed { error } => s,
        },
    )
}

/// Whether `a` is the work owed in stage `s` of a run with configuration `c`.
pub open spec fn is_action_for(a: Action, c: Config, s: Stage) -> bool {
    match s {
        Stage::Prepare => a matches Action::PrepareArtifacts { coverage_dir } && coverage_dir@
            == coverage_dir_spec(),
        Stage::Install => a matches Action::Spawn { invocation } && c.compiler_version matches Some(
            v,
        ) && invocation.is_install_of(v@),
        Stage::Build => a matches Action::Spawn { invocation } && invocation.is_build_of(c),
        Stage::Test { run } => a matches Action::Spawn { invocation } && invocation.is_test_of(
            c,
            test_filter(c, run as int),
        ),
        Stage::Aggregate => a matches Action::Aggregate { request } && request.describes(c),
        Stage::Report => a matches Action::Report { actions } && actions@.len() == unique_spec(
            c.output_types@,
        ).len() && forall|i: int|
            0 <= i < actions@.len() ==> (#[trigger] actions@[i]).describes(
                unique_spec(c.output_types@)[i],
                c.path@,
            ),
        Stage::Finished => a is Finish,
        Stage::Failed { error } => a matches Action::Abort { error: e } && e == error,
    }
}

/// The driver of one coverage run: it holds the run's configuration and
/// environment overlay, and hands out the work of each stage in turn.
pub struct Pipeline {
    config: Config,
    stage: Stage,
    prepared: bool,
    profile_dir: String,
    overlay: Vec<(String, String)>,
}

impl Pipeline {
    pub closed spec fn spec_config(&self) -> Config {
        self.config
    }

    pub closed spec fn spec_stage(&self) -> Stage {
        self.stage
    }

    /// Whether the artifact directory is ready and the overlay built.
    pub closed spec fn spec_prepared(&self) -> bool {
        self.prepared
    }

    pub closed spec fn spec_profile_dir(&self) -> Seq<char> {
        self.profile_dir@
    }

    pub closed spec fn wf(&self) -> bool {
        &&& (self.stage == Stage::Prepare ==> !self.prepared)
        &&& (self.stage == Stage::Install ==> self.config.compiler_version is Some)
        &&& (self.stage matches Stage::Test { run } ==> run < test_runs(self.config))
        &&& (self.prepared ==> pairs(self.overlay@) == overlay_spec(
            self.config.coverage_strategy,
            self.config.branch,
            self.profile_dir@,
        ))
    }

    /// The run's configuration.
    pub fn config(&self) -> (r: &Config)
        ensures
            *r == self.spec_config(),
    {
        &self.config
    }

    /// The current stage.
    pub fn stage(&self) -> (r: Stage)
        ensures
            r == self.spec_stage(),
    {
        self.stage
    }

    /// The environment overlay applied to every build and test process.
    pub fn overlay(&self) -> (r: &Vec<(String, String)>)
        requires
            self.wf(),
        ensures
            self.spec_prepared() ==> pairs(r@) == overlay_spec(
                self.spec_config().coverage_strategy,
                self.spec_config().branch,
                self.spec_profile_dir(),
            ),
    {
        &self.overlay
    }

    fn action(&self) -> (r: Action)
        requires
            self.wf(),
            self.stage != Stage::Aggregate,
        ensures
            is_action_for(r, self.config, self.stage),
    {
        match self.stage {
            Stage::Prepare => Action::PrepareArtifacts { coverage_dir: String::from_str(coverage_dir()) },
            Stage::Install => match &self.config.compiler_version {
                Some(v) => Action::Spawn { invocation: install_invocation(v) },
                // the install stage is entered only with a version
                None => Action::Abort { error: RunError::ToolchainInstallFailed },
            },
            Stage::Build => Action::Spawn { invocation: build_invocation(&self.config) },
            Stage::Test { run } => {
                let filter = if self.config.tests.len() == 0 {
                    None
                } else {
                    Some(&self.config.tests[run])
                };
                Action::Spawn { invocation: test_invocation(&self.config, filter) }
            },
            // the request is built when the stage is entered, in `advance`
            Stage::Aggregate => Action::Finish,
            Stage::Report => Action::Report {
                actions: report_actions(&self.config.output_types, self.config.path.as_str()),
            },
            Stage::Finished => Action::Finish,
            Stage::Failed { error } => Action::Abort { error },
        }
    }

    /// Starts a run: the toolchain checks come first, so a run that fails
    /// them stops before any file is touched or any process spawned.
    pub fn start(config: Config, manager_found: bool) -> (r: (Pipeline, Action))
        ensures
            r.0.wf(),
            r.0.spec_config() == config,
            r.0.spec_stage() == initial_stage(config, manager_found),
            !r.0.spec_prepared(),
            is_action_for(r.1, config, r.0.spec_stage()),
    {
        let stage = match check_toolchain(&config, manager_found) {
            Ok(()) => Stage::Prepare,
            Err(error) => Stage::Failed { error },
        };
        let p = Pipeline {
            config,
            stage,
            prepared: false,
            profile_dir: String::new(),
            overlay: Vec::new(),
        };
        let a = p.action();
        (p, a)
    }

    /// Records how the current stage's work ended, moves to the next stage,
    /// and returns the work that stage asks for.
    pub fn advance(&mut self, event: Event) -> (r: Action)
        requires
            old(self).wf(),
            old(self).spec_stage() == Stage::Prepare ==> !(event is Succeeded),
        ensures
            final(self).wf(),
            final(self).spec_config() == old(self).spec_config(),
            final(self).spec_stage() == next_stage(
                old(self).spec_config(),
                old(self).spec_stage(),
                !(event is Failed),
            ),
            is_action_for(r, final(self).spec_config(), final(self).spec_stage()),
            old(self).spec_prepared() ==> final(self).spec_prepared()
                && final(self).spec_profile_dir() == old(self).spec_profile_dir(),
            old(self).spec_stage() == Stage::Prepare ==> (event matches Event::Prepared {
                profile_dir,
            } ==> final(self).spec_prepared() && final(self).spec_profile_dir() == profile_dir@),
    {
        let ok = !matches!(event, Event::Failed);
        let next = match self.stage {
            Stage::Prepare => {
                if let Event::Prepared { profile_dir } = event {
                    self.overlay = env_overlay(
                        self.config.coverage_strategy,
                        self.config.branch,
                        profile_dir.as_str(),
                    );
                    self.profile_dir = profile_dir;
                    self.prepared = true;
                }
                if !ok {
                    Stage::Failed { error: RunError::IoError }
                } else if self.config.compiler_version.is_some() {
                    Stage::Install
                } else {
                    Stage::Build
                }
            },
            Stage::Install => if ok {
                Stage::Build
            } else {
                Stage::Failed { error: RunError::ToolchainInstallFailed }
            },
            Stage::Build => if ok {
                Stage::Test { run: 0 }
            } else {
                Stage::Failed { error: RunError::BuildFailed }
            },
            Stage::Test { run } => if !ok {
                Stage::Failed { error: RunError::TestFailed }
            } else if self.config.tests.len() > 0 && run < self.config.tests.len() - 1 {
                Stage::Test { run: run + 1 }
            } else {
                Stage::Aggregate
            },
            Stage::Aggregate => if ok {
                Stage::Report
            } else {
                Stage::Failed { error: RunError::AggregationFailed }
            },
            Stage::Report => if ok {
                Stage::Finished
            } else {
                Stage::Failed { error: RunError::ReportFailed }
            },
            Stage::Finished => Stage::Finished,
            Stage::Failed { error } => Stage::Failed { error },
        };
        if next == Stage::Aggregate {
            match AggregationRequest::new(&self.config) {
                Ok(request) => {
                    self.stage = Stage::Aggregate;
                    Action::Aggregate { request }
                },
                Err(error) => {
                    self.stage = Stage::Failed { error };
                    Action::Abort { error }
                },
            }
        } else {
            self.stage = next;
            self.action()
        }
    }
}

} // verus!
