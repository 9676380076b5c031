use nextjs_setup::stage::{
    deploy_outcome, failure_aborts, interpret_exit, is_stage_done, run_substeps, visibility_flag,
    FailReason, SetupStage, SkipReason, StepOutcome,
};
use nextjs_setup::status::ProjectStatus;
use nextjs_setup::workflow::{
    full_setup_plan, menu_choice_of, menu_directive, run_automatic, MenuChoice, MenuDirective,
    StageResults,
};

fn status(nextjs: bool, git: bool, github: bool, vercel: bool) -> ProjectStatus {
    ProjectStatus { has_nextjs: nextjs, has_git: git, has_github: github, has_vercel: vercel }
}

fn all_ok() -> StageResults {
    StageResults { scaffold_ok: true, version_control_ok: true, remote_ok: true, deploy_ok: true }
}

#[test]
fn full_setup_plans_every_missing_stage_in_order() {
    assert_eq!(
        full_setup_plan(&status(false, false, false, false)),
        vec![SetupStage::Scaffold, SetupStage::VersionControl, SetupStage::RemoteRepo]
    );
    assert_eq!(full_setup_plan(&status(true, true, true, true)), vec![]);
    assert_eq!(
        full_setup_plan(&status(true, false, true, false)),
        vec![SetupStage::VersionControl]
    );
    assert_eq!(
        full_setup_plan(&status(false, true, false, true)),
        vec![SetupStage::Scaffold, SetupStage::RemoteRepo]
    );
}

#[test]
fn menu_numbers_map_onto_the_six_items() {
    assert_eq!(menu_choice_of(1), Some(MenuChoice::FullSetup));
    assert_eq!(menu_choice_of(2), Some(MenuChoice::ScaffoldOnly));
    assert_eq!(menu_choice_of(3), Some(MenuChoice::VersionControlOnly));
    assert_eq!(menu_choice_of(4), Some(MenuChoice::RemoteRepoOnly));
    assert_eq!(menu_choice_of(5), Some(MenuChoice::DeployOnly));
    assert_eq!(menu_choice_of(6), Some(MenuChoice::Exit));
    assert_eq!(menu_choice_of(0), None);
    assert_eq!(menu_choice_of(7), None);
}

#[test]
fn completed_single_stages_are_refused_not_rerun() {
    let st = status(true, true, true, true);
    match menu_directive(MenuChoice::ScaffoldOnly, &st, true) {
        MenuDirective::AlreadyDone(SetupStage::Scaffold) => {}
        _ => panic!("expected a refusal for the completed scaffold stage"),
    }
    match menu_directive(MenuChoice::VersionControlOnly, &st, true) {
        MenuDirective::AlreadyDone(SetupStage::VersionControl) => {}
        _ => panic!("expected a refusal for the completed version-control stage"),
    }
    match menu_directive(MenuChoice::RemoteRepoOnly, &st, true) {
        MenuDirective::AlreadyDone(SetupStage::RemoteRepo) => {}
        _ => panic!("expected a refusal for the completed remote-repository stage"),
    }
}

#[test]
fn missing_single_stages_run_alone() {
    let st = status(false, false, false, false);
    match menu_directive(MenuChoice::ScaffoldOnly, &st, true) {
        MenuDirective::Run(v) => assert_eq!(v, vec![SetupStage::Scaffold]),
        _ => panic!("expected a run directive"),
    }
    match menu_directive(MenuChoice::DeployOnly, &st, true) {
        MenuDirective::Run(v) => assert_eq!(v, vec![SetupStage::Deploy]),
        _ => panic!("expected a run directive"),
    }
}

#[test]
fn remote_repo_repairs_missing_version_control_first() {
    let st = status(true, false, false, false);
    match menu_directive(MenuChoice::RemoteRepoOnly, &st, true) {
        MenuDirective::Run(v) => {
            assert_eq!(v, vec![SetupStage::VersionControl, SetupStage::RemoteRepo])
        }
        _ => panic!("expected the repair-then-create plan"),
    }
    let with_git = status(true, true, false, false);
    match menu_directive(MenuChoice::RemoteRepoOnly, &with_git, true) {
        MenuDirective::Run(v) => assert_eq!(v, vec![SetupStage::RemoteRepo]),
        _ => panic!("expected the single-stage plan"),
    }
}

#[test]
fn deploy_only_needs_the_tool_and_reconfirms_when_done() {
    let st = status(true, true, true, true);
    match menu_directive(MenuChoice::DeployOnly, &st, false) {
        MenuDirective::MissingTool => {}
        _ => panic!("expected the missing-tool report"),
    }
    match menu_directive(MenuChoice::DeployOnly, &st, true) {
        MenuDirective::ConfirmThenDeploy => {}
        _ => panic!("expected the re-deploy confirmation"),
    }
}

#[test]
fn full_setup_offers_deploy_gate_only_with_the_tool() {
    let st = status(true, false, true, false);
    match menu_directive(MenuChoice::FullSetup, &st, true) {
        MenuDirective::RunThenOfferDeploy(v) => {
            assert_eq!(v, vec![SetupStage::VersionControl])
        }
        _ => panic!("expected the gated full-setup directive"),
    }
    match menu_directive(MenuChoice::FullSetup, &st, false) {
        MenuDirective::RunWithoutDeploy(v) => {
            assert_eq!(v, vec![SetupStage::VersionControl])
        }
        _ => panic!("expected the ungated full-setup directive"),
    }
}

#[test]
fn exit_choice_runs_nothing() {
    match menu_directive(MenuChoice::Exit, &status(false, false, false, false), true) {
        MenuDirective::Exit => {}
        _ => panic!("expected the exit directive"),
    }
}

#[test]
fn automatic_run_continues_past_remote_failure_to_deploy_gate() {
    // A brand-new project: scaffold and version control succeed, the
    // hosting collaborator fails (say, an auth problem). The run must warn,
    // go on to the deployment gate, and exit 0.
    let st = status(false, false, false, false);
    let res = StageResults {
        scaffold_ok: true,
        version_control_ok: true,
        remote_ok: false,
        deploy_ok: true,
    };
    let r = run_automatic(&st, &res, true, true);
    assert_eq!(
        r.attempted,
        vec![
            SetupStage::Scaffold,
            SetupStage::VersionControl,
            SetupStage::RemoteRepo,
            SetupStage::Deploy
        ]
    );
    assert!(!r.aborted);
    assert!(r.reached_deploy_gate);
    assert!(r.remote_warning);
    assert_eq!(r.deploy_skip, None);
    assert_eq!(r.exit_code, 0);
}

#[test]
fn automatic_run_aborts_on_scaffold_failure() {
    let st = status(false, false, false, false);
    let res = StageResults {
        scaffold_ok: false,
        version_control_ok: true,
        remote_ok: true,
        deploy_ok: true,
    };
    let r = run_automatic(&st, &res, true, true);
    assert_eq!(r.attempted, vec![SetupStage::Scaffold]);
    assert!(r.aborted);
    assert!(!r.reached_deploy_gate);
    assert_eq!(r.exit_code, 1);
}

#[test]
fn automatic_run_aborts_on_version_control_failure() {
    let st = status(true, false, false, false);
    let res = StageResults {
        scaffold_ok: true,
        version_control_ok: false,
        remote_ok: true,
        deploy_ok: true,
    };
    let r = run_automatic(&st, &res, true, true);
    assert_eq!(r.attempted, vec![SetupStage::VersionControl]);
    assert!(r.aborted);
    assert_eq!(r.exit_code, 1);
}

#[test]
fn automatic_run_skips_completed_stages() {
    let st = status(true, true, true, false);
    let r = run_automatic(&st, &all_ok(), true, true);
    assert_eq!(r.attempted, vec![SetupStage::Deploy]);
    assert!(!r.remote_warning);
    assert_eq!(r.exit_code, 0);
}

#[test]
fn automatic_run_records_why_deploy_was_skipped() {
    let st = status(true, true, true, false);
    let declined = run_automatic(&st, &all_ok(), true, false);
    assert_eq!(declined.attempted, vec![]);
    assert_eq!(declined.deploy_skip, Some(SkipReason::Declined));
    assert_eq!(declined.exit_code, 0);
    let no_tool = run_automatic(&st, &all_ok(), false, true);
    assert_eq!(no_tool.deploy_skip, Some(SkipReason::ToolMissing));
    assert_eq!(no_tool.exit_code, 0);
}

#[test]
fn substeps_run_fail_fast() {
    let all = run_substeps(&vec![true, true, true]);
    assert_eq!((all.executed, all.success), (3, true));
    let mid = run_substeps(&vec![true, false, true]);
    assert_eq!((mid.executed, mid.success), (2, false));
    let first = run_substeps(&vec![false, true, true]);
    assert_eq!((first.executed, first.success), (1, false));
    let none = run_substeps(&vec![]);
    assert_eq!((none.executed, none.success), (0, true));
}

#[test]
fn exit_statuses_read_as_outcomes() {
    assert_eq!(interpret_exit(Some(true)), StepOutcome::Success);
    assert_eq!(
        interpret_exit(Some(false)),
        StepOutcome::Failed(FailReason::CollaboratorFailed)
    );
    assert_eq!(interpret_exit(None), StepOutcome::Failed(FailReason::LaunchFailed));
}

#[test]
fn deploy_outcome_reports_url_or_degraded_success() {
    let with_url =
        deploy_outcome(Some(true), &Some("Deployed to https://app.vercel.app now".to_string()));
    assert_eq!(with_url.outcome, StepOutcome::Success);
    assert_eq!(with_url.url, Some("https://app.vercel.app".to_string()));
    let plain = deploy_outcome(Some(true), &Some("nothing to report".to_string()));
    assert_eq!(plain.outcome, StepOutcome::Success);
    assert_eq!(plain.url, None);
}

#[test]
fn deploy_outcome_maps_nonzero_exit_to_failure() {
    let failed = deploy_outcome(Some(false), &Some("Error: quota exceeded".to_string()));
    assert_eq!(failed.outcome, StepOutcome::Failed(FailReason::CollaboratorFailed));
    assert_eq!(failed.url, None);
    // The URL is still extracted from whatever output the failed run wrote.
    let failed_with_url =
        deploy_outcome(Some(false), &Some("Deployed to https://app.vercel.app then broke".to_string()));
    assert_eq!(failed_with_url.outcome, StepOutcome::Failed(FailReason::CollaboratorFailed));
    assert_eq!(failed_with_url.url, Some("https://app.vercel.app".to_string()));
}

#[test]
fn deploy_outcome_maps_unlaunchable_collaborator_to_failure() {
    let failed = deploy_outcome(None, &None);
    assert_eq!(failed.outcome, StepOutcome::Failed(FailReason::LaunchFailed));
    assert_eq!(failed.url, None);
}

#[test]
fn failure_policy_is_fatal_only_for_the_first_two_stages() {
    assert!(failure_aborts(SetupStage::Scaffold));
    assert!(failure_aborts(SetupStage::VersionControl));
    assert!(!failure_aborts(SetupStage::RemoteRepo));
    assert!(!failure_aborts(SetupStage::Deploy));
}

#[test]
fn stage_bits_read_from_the_snapshot() {
    let st = status(true, false, true, false);
    assert!(is_stage_done(&st, SetupStage::Scaffold));
    assert!(!is_stage_done(&st, SetupStage::VersionControl));
    assert!(is_stage_done(&st, SetupStage::RemoteRepo));
    assert!(!is_stage_done(&st, SetupStage::Deploy));
}

#[test]
fn visibility_flag_matches_the_operator_choice() {
    assert_eq!(visibility_flag(true), "--public".to_string());
    assert_eq!(visibility_flag(false), "--private".to_string());
}
