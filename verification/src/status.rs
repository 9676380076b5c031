//! The status probe: from plain observations of the project directory and
//! the external registries, the four independent stage-completion bits.
//! Every check is a total function of what was observed; failed queries
//! count as "absent", never as errors.

use vstd::prelude::*;
use crate::text::{contains_seq, str_contains};

verus! {

/// The four stage-completion bits, recomputed fresh at every decision
/// point, never cached across steps.
#[derive(Clone, Copy, PartialEq, Eq, Structural, Debug)]
pub struct ProjectStatus {
    /// The framework scaffold is present.
    pub has_nextjs: bool,
    /// The version-control metadata directory exists.
    pub has_git: bool,
    /// The hosting registry knows a repository of the project's name.
    pub has_github: bool,
    /// The deployment registry's listing names the project directory.
    pub has_vercel: bool,
}

/// What the filesystem shows about the scaffold stage: whether the project
/// manifest exists, whether a recognized framework config file exists, and
/// the manifest's text where it could be read.
pub struct ScaffoldEvidence {
    /// `package.json` exists at the project root.
    pub manifest_exists: bool,
    /// A `next.config.js`, `next.config.mjs` or `next.config.ts` exists.
    pub config_exists: bool,
    /// The manifest's contents; `None` when the file could not be read.
    pub manifest_contents: Option<String>,
}

/// The scaffold bit: the manifest exists, and either a framework config
/// file is present or the manifest's text names the framework dependency.
pub open spec fn scaffold_status_spec(ev: ScaffoldEvidence) -> bool {
    ev.manifest_exists && (ev.config_exists || match ev.manifest_contents {
        Some(c) => contains_seq(c@, "\"next\""@),
        None => false,
    })
}

/// Scaffold check, two-tiered: a recognized config file decides at once; a
/// manifest that merely names the framework dependency also counts, which
/// handles projects without a dedicated config file.
pub fn check_nextjs_project(ev: &ScaffoldEvidence) -> (b: bool)
    ensures
        b == scaffold_status_spec(*ev),
{
    if !ev.manifest_exists {
        return false;
    }
    if ev.config_exists {
        return true;
    }
    match &ev.manifest_contents {
        Some(c) => str_contains(c.as_str(), "\"next\""),
        None => false,
    }
}

/// Version-control check: exactly the existence of the metadata directory
/// at the project root; no deeper validation.
pub fn check_git_init(git_dir_exists: bool) -> (b: bool)
    ensures
        b == git_dir_exists,
{
    git_dir_exists
}

/// The remote-repository bit: only a query that ran and succeeded counts;
/// a failed or unlaunchable query reads as "absent".
pub open spec fn github_status_spec(query_succeeded: Option<bool>) -> bool {
    query_succeeded == Some(true)
}

/// Remote-repository check over the hosting registry's answer: `None` when
/// the query could not run at all, `Some(ok)` for its exit status.
pub fn check_github_repo(query_succeeded: &Option<bool>) -> (b: bool)
    ensures
        b == github_status_spec(*query_succeeded),
{
    match query_succeeded {
        Some(ok) => *ok,
        None => false,
    }
}

/// The deployment bit: the registry listing ran and its output holds the
/// project directory's name. A heuristic substring match, tolerated to be
/// approximate in both directions.
pub open spec fn vercel_status_spec(listing: Option<String>, dir_name: Option<String>) -> bool {
    match listing {
        Some(out) => match dir_name {
            Some(name) => contains_seq(out@, name@),
            None => false,
        },
        None => false,
    }
}

/// Deployment check: `listing` is the captured stdout of the registry
/// query (`None` when it could not run), `dir_name` the final component of
/// the project path (`None` when the path has none).
pub fn check_vercel_deployment(listing: &Option<String>, dir_name: &Option<String>) -> (b: bool)
    ensures
        b == vercel_status_spec(*listing, *dir_name),
{
    match listing {
        Some(out) => match dir_name {
            Some(name) => str_contains(out.as_str(), name.as_str()),
            None => false,
        },
        None => false,
    }
}

/// Everything one status snapshot is computed from: plain values observed
/// by the shell immediately before the call.
pub struct StatusObservation {
    /// Filesystem evidence for the scaffold check.
    pub scaffold: ScaffoldEvidence,
    /// The version-control metadata directory exists.
    pub git_dir_exists: bool,
    /// Whether the hosting-registry query ran, and its exit status.
    pub github_query: Option<bool>,
    /// Captured stdout of the deployment-registry listing, if it ran.
    pub vercel_listing: Option<String>,
    /// The project directory's name, if the path has a final component.
    pub dir_name: Option<String>,
}

/// The whole snapshot as a spec-level value.
pub open spec fn status_spec(obs: StatusObservation) -> ProjectStatus {
    ProjectStatus {
        has_nextjs: scaffold_status_spec(obs.scaffold),
        has_git: obs.git_dir_exists,
        has_github: github_status_spec(obs.github_query),
        has_vercel: vercel_status_spec(obs.vercel_listing, obs.dir_name),
    }
}

/// One status snapshot: the four checks, each independent of the others.
pub fn check_project_status(obs: &StatusObservation) -> (st: ProjectStatus)
    ensures
        st == status_spec(*obs),
{
    ProjectStatus {
        has_nextjs: check_nextjs_project(&obs.scaffold),
        has_git: check_git_init(obs.git_dir_exists),
        has_github: check_github_repo(&obs.github_query),
        has_vercel: check_vercel_deployment(&obs.vercel_listing, &obs.dir_name),
    }
}

} // verus!
