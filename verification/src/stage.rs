//! The four setup stages, their fixed dependency order, the step runner's
//! outcome interpretation, and the fail-fast sub-step rule.

use vstd::prelude::*;
use crate::status::ProjectStatus;
use crate::url::{extract_url_spec, extract_vercel_url};

verus! {

/// One setup stage, in the fixed dependency order in which "Full setup"
/// runs them.
#[derive(Clone, Copy, PartialEq, Eq, Structural, Debug)]
pub enum SetupStage {
    /// Generate the project file tree from the framework template.
    Scaffold,
    /// Initialize the local repository, stage everything, commit.
    VersionControl,
    /// Create the hosted repository and push to it.
    RemoteRepo,
    /// Deploy to the hosting platform.
    Deploy,
}

/// Why a stage was not run.
#[derive(Clone, Copy, PartialEq, Eq, Structural, Debug)]
pub enum SkipReason {
    /// The status snapshot reports the stage complete.
    AlreadyDone,
    /// The collaborator the stage needs is not installed.
    ToolMissing,
    /// The operator answered no at a confirmation gate.
    Declined,
}

/// Why a stage failed.
#[derive(Clone, Copy, PartialEq, Eq, Structural, Debug)]
pub enum FailReason {
    /// The collaborator ran and exited unsuccessfully.
    CollaboratorFailed,
    /// The collaborator could not be started at all.
    LaunchFailed,
}

/// What one step execution came to; consumed immediately by the
/// orchestrator's per-stage policy.
#[derive(Clone, Copy, PartialEq, Eq, Structural, Debug)]
pub enum StepOutcome {
    /// The stage's collaborator(s) all exited successfully.
    Success,
    /// The stage was not attempted.
    Skipped(SkipReason),
    /// The stage was attempted and did not complete.
    Failed(FailReason),
}

/// The status bit that reports `stage` complete.
pub open spec fn stage_done(st: ProjectStatus, stage: SetupStage) -> bool {
    match stage {
        SetupStage::Scaffold => st.has_nextjs,
        SetupStage::VersionControl => st.has_git,
        SetupStage::RemoteRepo => st.has_github,
        SetupStage::Deploy => st.has_vercel,
    }
}

/// Reads the completion bit of one stage from a snapshot.
pub fn is_stage_done(status: &ProjectStatus, stage: SetupStage) -> (b: bool)
    ensures
        b == stage_done(*status, stage),
{
    match stage {
        SetupStage::Scaffold => status.has_nextjs,
        SetupStage::VersionControl => status.has_git,
        SetupStage::RemoteRepo => status.has_github,
        SetupStage::Deploy => status.has_vercel,
    }
}

/// Failure policy: a failed scaffold or version-control stage aborts the
/// whole workflow, because every later stage depends on a working tree; a
/// failed remote-repository or deployment stage is logged and passed over.
pub open spec fn failure_aborts_spec(stage: SetupStage) -> bool {
    stage == SetupStage::Scaffold || stage == SetupStage::VersionControl
}

/// Whether a failure of `stage` aborts the automatic workflow.
pub fn failure_aborts(stage: SetupStage) -> (b: bool)
    ensures
        b == failure_aborts_spec(stage),
{
    match stage {
        SetupStage::Scaffold => true,
        SetupStage::VersionControl => true,
        SetupStage::RemoteRepo => false,
        SetupStage::Deploy => false,
    }
}

/// How one collaborator invocation reads as an outcome: a run that exited
/// zero is success; a nonzero exit, or a collaborator that could not be
/// started, is failure.
pub open spec fn exit_outcome_spec(exit_success: Option<bool>) -> StepOutcome {
    match exit_success {
        Some(true) => StepOutcome::Success,
        Some(false) => StepOutcome::Failed(FailReason::CollaboratorFailed),
        None => StepOutcome::Failed(FailReason::LaunchFailed),
    }
}

/// Interprets one collaborator exit: `None` when the program could not be
/// started, `Some(ok)` for its exit status.
pub fn interpret_exit(exit_success: Option<bool>) -> (r: StepOutcome)
    ensures
        r == exit_outcome_spec(exit_success),
{
    match exit_success {
        Some(true) => StepOutcome::Success,
        Some(false) => StepOutcome::Failed(FailReason::CollaboratorFailed),
        None => StepOutcome::Failed(FailReason::LaunchFailed),
    }
}

/// How far a fail-fast stage gets, and whether it succeeded.
#[derive(Clone, Copy, PartialEq, Eq, Structural, Debug)]
pub struct SubstepReport {
    /// How many sub-steps run before the stage stops.
    pub executed: usize,
    /// Every sub-step exited successfully.
    pub success: bool,
}

/// The fail-fast rule for a stage of ordered sub-steps (version control's
/// initialize, stage, commit): sub-steps run in order until the first
/// unsuccessful exit, and the ones after it are skipped. `results[i]` is
/// the exit each sub-step would report if run.
pub fn run_substeps(results: &Vec<bool>) -> (r: SubstepReport)
    ensures
        r.success == (forall|i: int| 0 <= i < results@.len() ==> results@[i]),
        r.success ==> r.executed == results@.len(),
        !r.success ==> 1 <= r.executed <= results@.len() && !results@[r.executed - 1]
            && forall|i: int| 0 <= i < r.executed - 1 ==> results@[i],
{
    let n = results.len();
    let mut i: usize = 0;
    while i < n
        invariant
            n == results@.len(),
            0 <= i <= n,
            forall|j: int| 0 <= j < i ==> results@[j],
        decreases n - i,
    {
        if !results[i] {
            return SubstepReport { executed: i + 1, success: false };
        }
        i = i + 1;
    }
    SubstepReport { executed: n, success: true }
}

/// What the deployment step reports.
pub struct DeployReport {
    /// How the collaborator's run reads: its exit status interpreted as
    /// for any stage.
    pub outcome: StepOutcome,
    /// The deployment URL found in the collaborator's stdout; `None` is a
    /// degraded success message, not a failure.
    pub url: Option<String>,
}

/// Interprets the deployment collaborator's run: `exit_success` is its
/// exit status (`None` when it could not be started), `stdout` its
/// captured output. A nonzero exit reads as a failure like any other
/// stage's; the URL, if any line of the output reports one, is extracted
/// for the result message either way.
pub fn deploy_outcome(exit_success: Option<bool>, stdout: &Option<String>) -> (r: DeployReport)
    ensures
        r.outcome == exit_outcome_spec(exit_success),
        match *stdout {
            Some(ref out) => match r.url {
                Some(ref u) => extract_url_spec(out@) == Some(u@),
                None => extract_url_spec(out@) is None,
            },
            None => r.url is None,
        },
{
    DeployReport {
        outcome: interpret_exit(exit_success),
        url: match stdout {
            Some(out) => extract_vercel_url(out.as_str()),
            None => None,
        },
    }
}

/// The visibility flag the hosting collaborator takes, from the operator's
/// public/private answer.
pub fn visibility_flag(is_public: bool) -> (s: String)
    ensures
        is_public ==> s@ == "--public"@,
        !is_public ==> s@ == "--private"@,
{
    if is_public {
        "--public".to_owned()
    } else {
        "--private".to_owned()
    }
}

} // verus!
