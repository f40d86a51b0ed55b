use vstd::prelude::*;

use crate::config::{is_nightly_spec, version_view, Config};
use crate::exclusion::{exclusion_pattern_spec, regex_compiles};
use crate::guard::toolchain_verdict;
use crate::error::RunError;
use crate::pipeline::{entered, initial_stage, is_action_for, next_stage, test_runs, Action, Stage};

verus! {

/// The stage reached from `s` after stages whose work ended as `outcomes` says.
pub open spec fn drive(c: Config, s: Stage, outcomes: Seq<bool>) -> Stage
    decreases outcomes.len(),
{
    if outcomes.len() == 0 {
        s
    } else {
        next_stage(c, drive(c, s, outcomes.drop_last()), outcomes.last())
    }
}

/// Driving through `a` and then `b` is driving through `a + b`.
pub proof fn lemma_drive_append(c: Config, s: Stage, a: Seq<bool>, b: Seq<bool>)
    ensures
        drive(c, s, a + b) == drive(c, drive(c, s, a), b),
    decreases b.len(),
{
    if b.len() == 0 {
        assert(a + b =~= a);
    } else {
        lemma_drive_append(c, s, a, b.drop_last());
        assert((a + b).drop_last() =~= a + b.drop_last());
    }
}

/// A stopped run stays stopped, whatever is reported afterwards.
pub proof fn lemma_failed_stays_failed(c: Config, e: RunError, outcomes: Seq<bool>)
    ensures
        drive(c, Stage::Failed { error: e }, outcomes) == (Stage::Failed { error: e }),
    decreases outcomes.len(),
{
    if outcomes.len() > 0 {
        lemma_failed_stays_failed(c, e, outcomes.drop_last());
    }
}

/// Branch coverage without the nightly channel is refused by the toolchain
/// checks: the run stops before its first stage, its only work is to
/// report the error, and nothing reported afterwards moves it on.
pub proof fn lemma_branch_requires_nightly(
    c: Config,
    manager_found: bool,
    a: Action,
    outcomes: Seq<bool>,
)
    requires
        c.branch,
        !is_nightly_spec(version_view(c.compiler_version)),
    ensures
        initial_stage(c, manager_found) == (Stage::Failed {
            error: if manager_found {
                RunError::NightlyRequired
            } else {
                RunError::ToolchainManagerRequired
            },
        }),
        is_action_for(a, c, initial_stage(c, manager_found)) ==> a is Abort,
        drive(c, initial_stage(c, manager_found), outcomes) == initial_stage(c, manager_found),
{
    let s = initial_stage(c, manager_found);
    assert(s is Failed);
    let e = s->error;
    lemma_failed_stays_failed(c, e, outcomes);
}

proof fn lemma_tests_pass_prefix(c: Config, outcomes: Seq<bool>, k: int)
    requires
        c.tests@.len() <= usize::MAX,
        0 <= k < test_runs(c),
        k <= outcomes.len(),
        forall|i: int| 0 <= i < k ==> outcomes[i],
    ensures
        drive(c, Stage::Test { run: 0 }, outcomes.take(k)) == (Stage::Test { run: k as usize }),
    decreases k,
{
    if k > 0 {
        lemma_tests_pass_prefix(c, outcomes, k - 1);
        assert(outcomes.take(k).drop_last() =~= outcomes.take(k - 1));
    }
}

/// Test fan-out. Starting from the first test command, with a `Vec` of
/// filters (whose length fits a `usize`):
/// - while commands succeed, command number `k` is the next one run (and
///   the work owed for it is the test command with the `k`-th filter and
///   the whole skip-list);
/// - after every command has succeeded the run moves on to aggregation;
/// - after the first failed command the run stops with a test failure and
///   no later command is run.
pub proof fn lemma_test_fan_out(c: Config, outcomes: Seq<bool>)
    requires
        c.tests@.len() <= usize::MAX,
    ensures
        forall|k: int|
            0 <= k < test_runs(c) && k <= outcomes.len() && (forall|i: int|
                0 <= i < k ==> outcomes[i]) ==> #[trigger] drive(
                c,
                Stage::Test { run: 0 },
                outcomes.take(k),
            ) == (Stage::Test { run: k as usize }),
        outcomes.len() == test_runs(c) && (forall|i: int| 0 <= i < outcomes.len() ==> outcomes[i])
            ==> drive(c, Stage::Test { run: 0 }, outcomes) == entered(c, Stage::Aggregate),
        forall|j: int, m: int|
            #![trigger outcomes[j], drive(c, Stage::Test { run: 0 }, outcomes.take(m))]
            0 <= j < m <= outcomes.len() && j < test_runs(c) && !outcomes[j] && (forall|i: int|
                0 <= i < j ==> outcomes[i]) ==> drive(c, Stage::Test { run: 0 }, outcomes.take(m))
                == (Stage::Failed { error: RunError::TestFailed }),
{
    assert forall|k: int|
        0 <= k < test_runs(c) && k <= outcomes.len() && (forall|i: int|
            0 <= i < k ==> outcomes[i]) implies #[trigger] drive(
        c,
        Stage::Test { run: 0 },
        outcomes.take(k),
    ) == (Stage::Test { run: k as usize }) by {
        lemma_tests_pass_prefix(c, outcomes, k);
    }
    if outcomes.len() == test_runs(c) && (forall|i: int| 0 <= i < outcomes.len() ==> outcomes[i]) {
        let n = outcomes.len() as int;
        lemma_tests_pass_prefix(c, outcomes, n - 1);
        assert(outcomes.take(n) =~= outcomes);
        assert(outcomes.take(n).drop_last() =~= outcomes.take(n - 1));
    }
    assert forall|j: int, m: int|
        #![trigger outcomes[j], drive(c, Stage::Test { run: 0 }, outcomes.take(m))]
        0 <= j < m <= outcomes.len() && j < test_runs(c) && !outcomes[j] && (forall|i: int|
            0 <= i < j ==> outcomes[i]) implies drive(c, Stage::Test { run: 0 }, outcomes.take(m))
        == (Stage::Failed { error: RunError::TestFailed }) by {
        lemma_tests_pass_prefix(c, outcomes, j);
        assert(outcomes.take(j + 1).drop_last() =~= outcomes.take(j));
        let failed = Stage::Failed { error: RunError::TestFailed };
        assert(drive(c, Stage::Test { run: 0 }, outcomes.take(j + 1)) == failed);
        let rest = outcomes.subrange(j + 1, m);
        lemma_drive_append(c, Stage::Test { run: 0 }, outcomes.take(j + 1), rest);
        assert(outcomes.take(j + 1) + rest =~= outcomes.take(m));
        lemma_failed_stays_failed(c, RunError::TestFailed, rest);
    }
}

/// `n` successes in a row.
pub open spec fn all_succeed(n: nat) -> Seq<bool> {
    Seq::new(n, |i: int| true)
}

/// How many stages a run that never fails goes through: preparation, the
/// toolchain installation when a version is given, the build, each test
/// command, aggregation and reporting.
pub open spec fn stage_count(c: Config) -> nat {
    (if c.compiler_version is Some {
        1nat
    } else {
        0nat
    }) + 4 + test_runs(c)
}

/// A run whose toolchain checks pass, whose exclusion pattern compiles and
/// whose every stage succeeds finishes after exactly `stage_count(c)` stages.
pub proof fn lemma_successful_run_finishes(c: Config, manager_found: bool)
    requires
        c.tests@.len() <= usize::MAX,
        toolchain_verdict(c, manager_found) is Ok,
        regex_compiles(exclusion_pattern_spec(c.contract_style)),
    ensures
        drive(c, initial_stage(c, manager_found), all_succeed(stage_count(c))) == Stage::Finished,
{
    let install: nat = if c.compiler_version is Some {
        1
    } else {
        0
    };
    let pre = all_succeed(install + 2);
    let tests = all_succeed(test_runs(c));
    let post = all_succeed(2);
    assert(all_succeed(stage_count(c)) =~= pre + tests + post);
    lemma_drive_append(c, Stage::Prepare, pre + tests, post);
    lemma_drive_append(c, Stage::Prepare, pre, tests);
    reveal_with_fuel(drive, 4);
    assert(pre.drop_last() =~= all_succeed((install + 1) as nat));
    assert(all_succeed((install + 1) as nat).drop_last() =~= all_succeed(install));
    if install == 1 {
        assert(all_succeed(1).drop_last() =~= all_succeed(0));
    }
    assert(drive(c, Stage::Prepare, pre) == Stage::Test { run: 0 });
    lemma_test_fan_out(c, tests);
    assert(drive(c, Stage::Test { run: 0 }, tests) == Stage::Aggregate);
    assert(post.drop_last() =~= all_succeed(1));
    assert(all_succeed(1).drop_last() =~= all_succeed(0));
}

} // verus!
