//! The workflow orchestrator: which stages to run for a status snapshot,
//! in dependency order, with the per-stage failure policy; and the menu
//! protocol's dispatch of one validated choice.

use vstd::prelude::*;
use crate::stage::{failure_aborts_spec, stage_done, SetupStage, SkipReason};
use crate::status::ProjectStatus;

verus! {

/// The stages "Full setup" runs at once, in the fixed dependency order,
/// skipping every stage whose status bit is already true. Deployment is
/// not planned here: it sits behind its own availability-and-confirmation
/// gate.
pub open spec fn full_setup_plan_spec(st: ProjectStatus) -> Seq<SetupStage> {
    (if !st.has_nextjs {
        seq![SetupStage::Scaffold]
    } else {
        Seq::empty()
    }) + (if !st.has_git {
        seq![SetupStage::VersionControl]
    } else {
        Seq::empty()
    }) + (if !st.has_github {
        seq![SetupStage::RemoteRepo]
    } else {
        Seq::empty()
    })
}

/// Plans "Full setup" for one snapshot.
pub fn full_setup_plan(status: &ProjectStatus) -> (plan: Vec<SetupStage>)
    ensures
        plan@ == full_setup_plan_spec(*status),
{
    let mut plan: Vec<SetupStage> = Vec::new();
    if !status.has_nextjs {
        plan.push(SetupStage::Scaffold);
    }
    if !status.has_git {
        plan.push(SetupStage::VersionControl);
    }
    if !status.has_github {
        plan.push(SetupStage::RemoteRepo);
    }
    assert(plan@ =~= full_setup_plan_spec(*status));
    plan
}

/// The single-stage remote-repository request, with the dependency-repair
/// rule: when version control is incomplete it is transparently run first.
pub open spec fn remote_repo_plan_spec(st: ProjectStatus) -> Seq<SetupStage> {
    if !st.has_git {
        seq![SetupStage::VersionControl, SetupStage::RemoteRepo]
    } else {
        seq![SetupStage::RemoteRepo]
    }
}

/// The six menu items.
#[derive(Clone, Copy, PartialEq, Eq, Structural, Debug)]
pub enum MenuChoice {
    /// Run every missing stage, then offer deployment.
    FullSetup,
    /// Scaffold only.
    ScaffoldOnly,
    /// Version control only.
    VersionControlOnly,
    /// Remote repository only (repairing version control first if needed).
    RemoteRepoOnly,
    /// Deployment only.
    DeployOnly,
    /// Leave without running anything.
    Exit,
}

/// The menu item a validated choice in `[1, 6]` names.
pub open spec fn menu_choice_of_spec(n: u32) -> Option<MenuChoice> {
    if n == 1 {
        Some(MenuChoice::FullSetup)
    } else if n == 2 {
        Some(MenuChoice::ScaffoldOnly)
    } else if n == 3 {
        Some(MenuChoice::VersionControlOnly)
    } else if n == 4 {
        Some(MenuChoice::RemoteRepoOnly)
    } else if n == 5 {
        Some(MenuChoice::DeployOnly)
    } else if n == 6 {
        Some(MenuChoice::Exit)
    } else {
        None
    }
}

/// Maps a validated numeric choice onto its menu item.
pub fn menu_choice_of(n: u32) -> (r: Option<MenuChoice>)
    ensures
        r == menu_choice_of_spec(n),
{
    if n == 1 {
        Some(MenuChoice::FullSetup)
    } else if n == 2 {
        Some(MenuChoice::ScaffoldOnly)
    } else if n == 3 {
        Some(MenuChoice::VersionControlOnly)
    } else if n == 4 {
        Some(MenuChoice::RemoteRepoOnly)
    } else if n == 5 {
        Some(MenuChoice::DeployOnly)
    } else if n == 6 {
        Some(MenuChoice::Exit)
    } else {
        None
    }
}

/// What one menu cycle does for a choice, before any collaborator runs.
pub enum MenuDirective {
    /// Run these stages, in order, then finish the cycle.
    Run(Vec<SetupStage>),
    /// Run these stages, then ask the operator yes/no about deploying and
    /// deploy on yes; this question is asked exactly when the deployment
    /// collaborator is available.
    RunThenOfferDeploy(Vec<SetupStage>),
    /// Run these stages and finish without a deployment gate.
    RunWithoutDeploy(Vec<SetupStage>),
    /// Refuse with a warning: the stage is already complete.
    AlreadyDone(SetupStage),
    /// Deployment reads as already done: re-confirm, and deploy only on an
    /// explicit yes.
    ConfirmThenDeploy,
    /// The deployment collaborator is not installed: report and finish.
    MissingTool,
    /// Finish the cycle without running anything.
    Exit,
}

/// The stages a directive runs at once (the deployment gate and the
/// re-deploy confirmation stand apart: they run nothing without a fresh
/// yes).
pub open spec fn directive_stages_spec(choice: MenuChoice, st: ProjectStatus, vercel_available: bool) -> Seq<
    SetupStage,
> {
    match choice {
        MenuChoice::FullSetup => full_setup_plan_spec(st),
        MenuChoice::ScaffoldOnly => if st.has_nextjs {
            Seq::empty()
        } else {
            seq![SetupStage::Scaffold]
        },
        MenuChoice::VersionControlOnly => if st.has_git {
            Seq::empty()
        } else {
            seq![SetupStage::VersionControl]
        },
        MenuChoice::RemoteRepoOnly => if st.has_github {
            Seq::empty()
        } else {
            remote_repo_plan_spec(st)
        },
        MenuChoice::DeployOnly => if !vercel_available {
            Seq::empty()
        } else if st.has_vercel {
            Seq::empty()
        } else {
            seq![SetupStage::Deploy]
        },
        MenuChoice::Exit => Seq::empty(),
    }
}

/// Dispatches one validated menu choice against a fresh snapshot: each
/// single-stage item refuses a completed stage with a warning instead of
/// re-executing it; the remote-repository item repairs version control
/// first when it is incomplete; the deployment item re-confirms when the
/// status already reads deployed; "Full setup" skips completed stages and
/// gates deployment behind availability and a fresh confirmation.
pub fn menu_directive(choice: MenuChoice, status: &ProjectStatus, vercel_available: bool) -> (d:
    MenuDirective)
    ensures
        choice == MenuChoice::FullSetup && vercel_available ==> (d matches
            MenuDirective::RunThenOfferDeploy(v) && v@ == full_setup_plan_spec(*status)),
        choice == MenuChoice::FullSetup && !vercel_available ==> (d matches
            MenuDirective::RunWithoutDeploy(v) && v@ == full_setup_plan_spec(*status)),
        choice == MenuChoice::ScaffoldOnly ==> (if status.has_nextjs {
            d matches MenuDirective::AlreadyDone(SetupStage::Scaffold)
        } else {
            d matches MenuDirective::Run(v) && v@ == seq![SetupStage::Scaffold]
        }),
        choice == MenuChoice::VersionControlOnly ==> (if status.has_git {
            d matches MenuDirective::AlreadyDone(SetupStage::VersionControl)
        } else {
            d matches MenuDirective::Run(v) && v@ == seq![SetupStage::VersionControl]
        }),
        choice == MenuChoice::RemoteRepoOnly ==> (if status.has_github {
            d matches MenuDirective::AlreadyDone(SetupStage::RemoteRepo)
        } else {
            d matches MenuDirective::Run(v) && v@ == remote_repo_plan_spec(*status)
        }),
        choice == MenuChoice::DeployOnly ==> (if !vercel_available {
            d matches MenuDirective::MissingTool
        } else if status.has_vercel {
            d matches MenuDirective::ConfirmThenDeploy
        } else {
            d matches MenuDirective::Run(v) && v@ == seq![SetupStage::Deploy]
        }),
        choice == MenuChoice::Exit ==> d matches MenuDirective::Exit,
{
    match choice {
        MenuChoice::FullSetup => {
            let plan = full_setup_plan(status);
            if vercel_available {
                MenuDirective::RunThenOfferDeploy(plan)
            } else {
                MenuDirective::RunWithoutDeploy(plan)
            }
        },
        MenuChoice::ScaffoldOnly => {
            if status.has_nextjs {
                MenuDirective::AlreadyDone(SetupStage::Scaffold)
            } else {
                let mut v: Vec<SetupStage> = Vec::new();
                v.push(SetupStage::Scaffold);
                assert(v@ =~= seq![SetupStage::Scaffold]);
                MenuDirective::Run(v)
            }
        },
        MenuChoice::VersionControlOnly => {
            if status.has_git {
                MenuDirective::AlreadyDone(SetupStage::VersionControl)
            } else {
                let mut v: Vec<SetupStage> = Vec::new();
                v.push(SetupStage::VersionControl);
                assert(v@ =~= seq![SetupStage::VersionControl]);
                MenuDirective::Run(v)
            }
        },
        MenuChoice::RemoteRepoOnly => {
            if status.has_github {
                MenuDirective::AlreadyDone(SetupStage::RemoteRepo)
            } else {
                let mut v: Vec<SetupStage> = Vec::new();
                if !status.has_git {
                    v.push(SetupStage::VersionControl);
                }
                v.push(SetupStage::RemoteRepo);
                assert(v@ =~= remote_repo_plan_spec(*status));
                MenuDirective::Run(v)
            }
        },
        MenuChoice::DeployOnly => {
            if !vercel_available {
                MenuDirective::MissingTool
            } else if status.has_vercel {
                MenuDirective::ConfirmThenDeploy
            } else {
                let mut v: Vec<SetupStage> = Vec::new();
                v.push(SetupStage::Deploy);
                assert(v@ =~= seq![SetupStage::Deploy]);
                MenuDirective::Run(v)
            }
        },
        MenuChoice::Exit => MenuDirective::Exit,
    }
}

/// The exit each collaborator would report if its stage ran: ground truth
/// about the outside world, observed by the shell, decided over here.
#[derive(Clone, Copy, PartialEq, Eq, Structural, Debug)]
pub struct StageResults {
    /// The scaffold collaborator exits successfully.
    pub scaffold_ok: bool,
    /// All three version-control invocations exit successfully.
    pub version_control_ok: bool,
    /// The hosting collaborator's create-and-push exits successfully.
    pub remote_ok: bool,
    /// The deployment collaborator starts and exits successfully.
    pub deploy_ok: bool,
}

/// The automatic protocol aborts at the scaffold stage: the stage was
/// missing and its collaborator failed.
pub open spec fn scaffold_aborts(st: ProjectStatus, res: StageResults) -> bool {
    !st.has_nextjs && !res.scaffold_ok
}

/// The automatic protocol aborts at the version-control stage.
pub open spec fn version_control_aborts(st: ProjectStatus, res: StageResults) -> bool {
    !scaffold_aborts(st, res) && !st.has_git && !res.version_control_ok
}

/// The automatic protocol aborts before reaching the deployment gate.
pub open spec fn auto_aborts(st: ProjectStatus, res: StageResults) -> bool {
    scaffold_aborts(st, res) || version_control_aborts(st, res)
}

/// The stages the automatic protocol attempts, in order: every missing
/// stage up to the first fatal failure, then — when nothing fatal happened
/// — deployment exactly when its collaborator is available and the
/// operator confirmed.
pub open spec fn attempted_spec(
    st: ProjectStatus,
    res: StageResults,
    vercel_available: bool,
    deploy_confirmed: bool,
) -> Seq<SetupStage> {
    let pre = if !st.has_nextjs {
        seq![SetupStage::Scaffold]
    } else {
        Seq::empty()
    };
    if scaffold_aborts(st, res) {
        pre
    } else {
        let pre2 = pre + (if !st.has_git {
            seq![SetupStage::VersionControl]
        } else {
            Seq::empty()
        });
        if version_control_aborts(st, res) {
            pre2
        } else {
            (pre2 + (if !st.has_github {
                seq![SetupStage::RemoteRepo]
            } else {
                Seq::empty()
            })) + (if vercel_available && deploy_confirmed {
                seq![SetupStage::Deploy]
            } else {
                Seq::empty()
            })
        }
    }
}

/// How one automatic run went, for the shell to report.
#[derive(Debug)]
pub struct WorkflowReport {
    /// The stages attempted, in order.
    pub attempted: Vec<SetupStage>,
    /// A fatal stage failure stopped the run.
    pub aborted: bool,
    /// The run got past the fatal stages to the deployment gate.
    pub reached_deploy_gate: bool,
    /// The remote-repository stage ran and failed: warn and continue.
    pub remote_warning: bool,
    /// Why deployment was not attempted, when it was not.
    pub deploy_skip: Option<SkipReason>,
    /// The process exit code the protocol prescribes.
    pub exit_code: i32,
}

/// Drives the automatic protocol over one fresh snapshot: run each missing
/// stage in dependency order; a scaffold or version-control failure aborts
/// with exit code 1; a remote-repository failure is a logged warning; then
/// deployment, gated behind the collaborator being available and an
/// explicit confirmation, never affects the exit code.
pub fn run_automatic(
    status: &ProjectStatus,
    results: &StageResults,
    vercel_available: bool,
    deploy_confirmed: bool,
) -> (r: WorkflowReport)
    ensures
        r.attempted@ == attempted_spec(*status, *results, vercel_available, deploy_confirmed),
        r.aborted == auto_aborts(*status, *results),
        r.reached_deploy_gate == !auto_aborts(*status, *results),
        r.remote_warning == (!auto_aborts(*status, *results) && !status.has_github
            && !results.remote_ok),
        r.deploy_skip == (if auto_aborts(*status, *results) {
            Option::<SkipReason>::None
        } else if !vercel_available {
            Some(SkipReason::ToolMissing)
        } else if !deploy_confirmed {
            Some(SkipReason::Declined)
        } else {
            Option::<SkipReason>::None
        }),
        r.exit_code == (if auto_aborts(*status, *results) {
            1int
        } else {
            0int
        }),
{
    let mut attempted: Vec<SetupStage> = Vec::new();
    if !status.has_nextjs {
        attempted.push(SetupStage::Scaffold);
        if !results.scaffold_ok {
            assert(attempted@ =~= attempted_spec(
                *status,
                *results,
                vercel_available,
                deploy_confirmed,
            ));
            return WorkflowReport {
                attempted,
                aborted: true,
                reached_deploy_gate: false,
                remote_warning: false,
                deploy_skip: None,
                exit_code: 1,
            };
        }
    }
    if !status.has_git {
        attempted.push(SetupStage::VersionControl);
        if !results.version_control_ok {
            assert(attempted@ =~= attempted_spec(
                *status,
                *results,
                vercel_available,
                deploy_confirmed,
            ));
            return WorkflowReport {
                attempted,
                aborted: true,
                reached_deploy_gate: false,
                remote_warning: false,
                deploy_skip: None,
                exit_code: 1,
            };
        }
    }
    let mut remote_warning = false;
    if !status.has_github {
        attempted.push(SetupStage::RemoteRepo);
        if !results.remote_ok {
            remote_warning = true;
        }
    }
    let deploy_skip: Option<SkipReason> = if !vercel_available {
        Some(SkipReason::ToolMissing)
    } else if !deploy_confirmed {
        Some(SkipReason::Declined)
    } else {
        attempted.push(SetupStage::Deploy);
        None
    };
    assert(attempted@ =~= attempted_spec(*status, *results, vercel_available, deploy_confirmed));
    WorkflowReport {
        attempted,
        aborted: false,
        reached_deploy_gate: true,
        remote_warning,
        deploy_skip,
        exit_code: 0,
    }
}

/// Idempotence: a stage the snapshot reports complete is never among the
/// stages a menu cycle runs. The two sanctioned exceptions stand outside
/// these lists: the dependency-repair rule only ever adds version control
/// when its bit is false, and repeating a deployment always goes through a
/// fresh explicit confirmation, never through a planned stage.
pub proof fn lemma_completed_stage_not_rerun(
    st: ProjectStatus,
    choice: MenuChoice,
    vercel_available: bool,
    stage: SetupStage,
)
    requires
        stage_done(st, stage),
    ensures
        !directive_stages_spec(choice, st, vercel_available).contains(stage),
{
    let stages = directive_stages_spec(choice, st, vercel_available);
    assert forall|i: int| 0 <= i < stages.len() implies stages[i] != stage by {
        assert(!stage_done(st, stages[i]));
    }
}

/// The automatic protocol never attempts a completed scaffold,
/// version-control or remote-repository stage; deployment alone may repeat,
/// and only behind its explicit confirmation gate.
pub proof fn lemma_auto_skips_completed(
    st: ProjectStatus,
    res: StageResults,
    vercel_available: bool,
    deploy_confirmed: bool,
    stage: SetupStage,
)
    requires
        stage_done(st, stage),
        stage != SetupStage::Deploy,
    ensures
        !attempted_spec(st, res, vercel_available, deploy_confirmed).contains(stage),
{
    let stages = attempted_spec(st, res, vercel_available, deploy_confirmed);
    assert forall|i: int| 0 <= i < stages.len() implies stages[i] != stage by {
        assert(stages[i] == SetupStage::Deploy || !stage_done(st, stages[i]));
    }
}

/// Dependency order: while version control is incomplete, the
/// remote-repository stage never stands in a plan without version control
/// standing earlier in the same plan — whichever protocol made the plan.
pub proof fn lemma_remote_repo_needs_version_control(
    st: ProjectStatus,
    res: StageResults,
    choice: MenuChoice,
    vercel_available: bool,
    deploy_confirmed: bool,
)
    requires
        !st.has_git,
    ensures
        forall|i: int|
            0 <= i < directive_stages_spec(choice, st, vercel_available).len()
                && directive_stages_spec(choice, st, vercel_available)[i]
                == SetupStage::RemoteRepo ==> exists|j: int|
                0 <= j < i && directive_stages_spec(choice, st, vercel_available)[j]
                    == SetupStage::VersionControl,
        forall|i: int|
            0 <= i < attempted_spec(st, res, vercel_available, deploy_confirmed).len()
                && attempted_spec(st, res, vercel_available, deploy_confirmed)[i]
                == SetupStage::RemoteRepo ==> exists|j: int|
                0 <= j < i && attempted_spec(st, res, vercel_available, deploy_confirmed)[j]
                    == SetupStage::VersionControl,
{
    let stages = directive_stages_spec(choice, st, vercel_available);
    assert forall|i: int|
        0 <= i < stages.len() && stages[i] == SetupStage::RemoteRepo implies exists|j: int|
        0 <= j < i && stages[j] == SetupStage::VersionControl by {
        let k = i - 1;
        assert(0 <= k < i && stages[k] == SetupStage::VersionControl);
    }
    let att = attempted_spec(st, res, vercel_available, deploy_confirmed);
    assert forall|i: int|
        0 <= i < att.len() && att[i] == SetupStage::RemoteRepo implies exists|j: int|
        0 <= j < i && att[j] == SetupStage::VersionControl by {
        let k = i - 1;
        assert(0 <= k < i && att[k] == SetupStage::VersionControl);
    }
}

} // verus!
