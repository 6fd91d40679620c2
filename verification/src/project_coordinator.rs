//! Reviewing and resolving the launch of a session in a project.
use vstd::prelude::*;

use crate::domain::{SessionLaunchRoute, SessionOrigin};
use crate::ids::{HostedSessionId, PresetId, ProjectId};
use crate::lists;
use crate::presets;
use crate::presets::{LaunchPreset, PresetSnapshot};
use crate::projects;
use crate::projects::{Project, ProjectSnapshot};

verus! {

#[derive(Clone, Copy, Debug, PartialEq, Eq, Structural)]
pub enum ProjectLaunchReviewError {
    PresetRequired,
    ProjectStoreUnavailable,
    PresetStoreUnavailable,
    ReviewStale,
    ProjectMissing,
    PresetMissing,
}

/// What was chosen, the revisions at which it was chosen, and what the stores
/// hold now.
pub struct ProjectLaunchReviewInput<'a> {
    pub project_id: ProjectId,
    pub selected_preset_id: Option<PresetId>,
    pub project_store_revision: u64,
    pub preset_store_revision: u64,
    pub project_snapshot: Option<&'a ProjectSnapshot>,
    pub preset_snapshot: Option<&'a PresetSnapshot>,
}

#[derive(Debug)]
pub struct ReviewedProjectLaunch {
    pub project: Project,
    pub preset: LaunchPreset,
}

/// A launch that was found possible.
#[derive(Debug)]
pub struct ResolvedLaunch {
    pub session_id: HostedSessionId,
    pub route: SessionLaunchRoute,
    pub origin: SessionOrigin,
    pub working_directory: String,
}

#[derive(Clone, Copy, Debug, PartialEq, Eq, Structural)]
pub enum LaunchResolutionError {
    ExecutableMissing,
    Rejected,
}

#[derive(Debug)]
pub struct ProjectLaunchResolution {
    pub resolved: ResolvedLaunch,
    pub project: Project,
    pub preset: LaunchPreset,
}

/// Whoever finds out on this machine whether a launch is possible.
pub trait ProjectLaunchResolver: Sized {
    fn resolve(
        &self,
        session_id: HostedSessionId,
        project: &Project,
        preset: &LaunchPreset,
        path_snapshot: &Vec<String>,
        platform_home: &Option<String>,
    ) -> Result<ResolvedLaunch, LaunchResolutionError>;
}

pub struct ProjectCoordinator<R: ProjectLaunchResolver> {
    pub resolver: R,
}

/// The project and the preset that a launch is reviewed for, or the first thing
/// that stands against it.
pub open spec fn review(input: ProjectLaunchReviewInput) -> Result<
    (Project, LaunchPreset),
    ProjectLaunchReviewError,
> {
    match (input.selected_preset_id, input.project_snapshot, input.preset_snapshot) {
        (None, _, _) => Err(ProjectLaunchReviewError::PresetRequired),
        (_, None, _) => Err(ProjectLaunchReviewError::ProjectStoreUnavailable),
        (_, _, None) => Err(ProjectLaunchReviewError::PresetStoreUnavailable),
        (Some(preset_id), Some(projects), Some(presets)) => if projects.revision
            != input.project_store_revision || presets.revision != input.preset_store_revision {
            Err(ProjectLaunchReviewError::ReviewStale)
        } else {
            match lists::first_where(projects.projects@, projects::is_project(input.project_id)) {
                None => Err(ProjectLaunchReviewError::ProjectMissing),
                Some(summary) => match lists::first_where(
                    presets.presets@,
                    presets::is_preset(preset_id),
                ) {
                    None => Err(ProjectLaunchReviewError::PresetMissing),
                    Some(preset) => Ok((summary.project, preset)),
                },
            }
        },
    }
}

/// Reviews a launch against what the stores hold.
pub fn review_launch(input: &ProjectLaunchReviewInput<'_>) -> (r: Result<
    ReviewedProjectLaunch,
    ProjectLaunchReviewError,
>)
    ensures
        match review(*input) {
            Ok((project, preset)) => r matches Ok(reviewed) && reviewed.project == project
                && presets::same_preset(reviewed.preset, preset),
            Err(error) => r matches Err(e) && e == error,
        },
{
    let preset_id: PresetId = match input.selected_preset_id {
        Some(id) => id,
        None => {
            return Err(ProjectLaunchReviewError::PresetRequired);
        },
    };
    let project_snapshot = match input.project_snapshot {
        Some(snapshot) => snapshot,
        None => {
            return Err(ProjectLaunchReviewError::ProjectStoreUnavailable);
        },
    };
    let preset_snapshot = match input.preset_snapshot {
        Some(snapshot) => snapshot,
        None => {
            return Err(ProjectLaunchReviewError::PresetStoreUnavailable);
        },
    };
    if project_snapshot.revision != input.project_store_revision || preset_snapshot.revision
        != input.preset_store_revision {
        return Err(ProjectLaunchReviewError::ReviewStale);
    }
    let project: Project = match project_snapshot.summary(input.project_id) {
        Some(summary) => summary.project.duplicate(),
        None => {
            return Err(ProjectLaunchReviewError::ProjectMissing);
        },
    };
    let preset: LaunchPreset = match preset_snapshot.preset(preset_id) {
        Some(preset) => preset.duplicate(),
        None => {
            return Err(ProjectLaunchReviewError::PresetMissing);
        },
    };
    Ok(ReviewedProjectLaunch { project, preset })
}

/// What a reviewed launch comes to, given what the resolver said.
pub open spec fn resolution_of(
    reviewed: ReviewedProjectLaunch,
    outcome: Result<ResolvedLaunch, LaunchResolutionError>,
) -> Result<ProjectLaunchResolution, LaunchResolutionError> {
    match outcome {
        Ok(resolved) => Ok(
            ProjectLaunchResolution { resolved, project: reviewed.project, preset: reviewed.preset },
        ),
        Err(error) => Err(error),
    }
}

/// Joins what the resolver said with what was reviewed.
pub fn finish_resolution(
    reviewed: ReviewedProjectLaunch,
    outcome: Result<ResolvedLaunch, LaunchResolutionError>,
) -> (r: Result<ProjectLaunchResolution, LaunchResolutionError>)
    ensures
        r == resolution_of(reviewed, outcome),
{
    match outcome {
        Ok(resolved) => Ok(
            ProjectLaunchResolution { resolved, project: reviewed.project, preset: reviewed.preset },
        ),
        Err(error) => Err(error),
    }
}

impl<R: ProjectLaunchResolver> ProjectCoordinator<R> {
    pub fn review_session_launch(&self, input: ProjectLaunchReviewInput<'_>) -> (r: Result<
        ReviewedProjectLaunch,
        ProjectLaunchReviewError,
    >)
        ensures
            match review(input) {
                Ok((project, preset)) => r matches Ok(reviewed) && reviewed.project == project
                    && presets::same_preset(reviewed.preset, preset),
                Err(error) => r matches Err(e) && e == error,
            },
    {
        review_launch(&input)
    }

    /// Asks the resolver about exactly what was reviewed.
    pub fn resolve_session_launch(
        &self,
        reviewed: ReviewedProjectLaunch,
        session_id: HostedSessionId,
        path_snapshot: Vec<String>,
        platform_home: Option<String>,
    ) -> (r: Result<ProjectLaunchResolution, LaunchResolutionError>)
        ensures
            exists|outcome: Result<ResolvedLaunch, LaunchResolutionError>| #[trigger]
                call_ensures(
                    R::resolve,
                    (
                        &self.resolver,
                        session_id,
                        &reviewed.project,
                        &reviewed.preset,
                        &path_snapshot,
                        &platform_home,
                    ),
                    outcome,
                ) && r == resolution_of(reviewed, outcome),
    {
        let outcome: Result<ResolvedLaunch, LaunchResolutionError> = self.resolver.resolve(
            session_id,
            &reviewed.project,
            &reviewed.preset,
            &path_snapshot,
            &platform_home,
        );
        finish_resolution(reviewed, outcome)
    }
}

/// A launch passes review only for the chosen project and preset, and only while
/// both stores stand at the revisions at which they were chosen.
pub proof fn law_reviewed_launches_are_current(input: ProjectLaunchReviewInput)
    ensures
        review(input) matches Ok((project, preset)) ==> {
            &&& project.id == input.project_id
            &&& Some(preset.id) == input.selected_preset_id
            &&& input.project_snapshot matches Some(projects) && projects.revision
                == input.project_store_revision
            &&& input.preset_snapshot matches Some(presets) && presets.revision
                == input.preset_store_revision
        },
{
    match (input.selected_preset_id, input.project_snapshot, input.preset_snapshot) {
        (Some(preset_id), Some(projects), Some(presets)) => {
            lists::lemma_first_index_bounds(
                projects.projects@,
                projects::is_project(input.project_id),
            );
            lists::lemma_first_index_bounds(presets.presets@, presets::is_preset(preset_id));
        },
        _ => {},
    }
}

/// A launch whose project and preset are known to stores at the revisions at
/// which they were chosen passes review; one without a preset, with a store that
/// was not read, or with a store that changed since is refused for that.
pub proof fn law_refused_launches_say_why(input: ProjectLaunchReviewInput)
    ensures
        ({
            let outcome = review(input);
            let chosen = input.selected_preset_id is Some;
            let read = input.project_snapshot is Some && input.preset_snapshot is Some;
            let current = input.project_snapshot->0.revision == input.project_store_revision
                && input.preset_snapshot->0.revision == input.preset_store_revision;
            let has_project = exists|i: int|
                0 <= i < input.project_snapshot->0.projects@.len() && (
                #[trigger] input.project_snapshot->0.projects@[i]).project.id == input.project_id;
            let has_preset = exists|i: int|
                0 <= i < input.preset_snapshot->0.presets@.len() && (
                #[trigger] input.preset_snapshot->0.presets@[i]).id
                    == input.selected_preset_id->0;
            &&& outcome is Ok <==> chosen && read && current && has_project && has_preset
            &&& outcome matches Err(error) ==> {
                &&& error is PresetRequired <==> !chosen
                &&& error is ProjectStoreUnavailable <==> chosen && input.project_snapshot is None
                &&& error is PresetStoreUnavailable <==> chosen && input.project_snapshot is Some
                    && input.preset_snapshot is None
                &&& error is ReviewStale <==> chosen && read && !current
                &&& error is ProjectMissing <==> chosen && read && current && !has_project
                &&& error is PresetMissing <==> chosen && read && current && has_project
                    && !has_preset
            }
        }),
{
    match (input.selected_preset_id, input.project_snapshot, input.preset_snapshot) {
        (Some(preset_id), Some(projects), Some(presets)) => {
            let wanted = projects::is_project(input.project_id);
            let named = presets::is_preset(preset_id);
            lists::lemma_first_index_bounds(projects.projects@, wanted);
            lists::lemma_first_index_bounds(presets.presets@, named);
            assert forall|i: int| 0 <= i < projects.projects@.len() implies wanted(
                #[trigger] projects.projects@[i],
            ) == (projects.projects@[i].project.id == input.project_id) by {}
            assert forall|i: int| 0 <= i < presets.presets@.len() implies named(
                #[trigger] presets.presets@[i],
            ) == (presets.presets@[i].id == preset_id) by {}
        },
        _ => {},
    }
}

/// A resolved launch runs what was reviewed: its project and its preset.
pub proof fn law_resolution_keeps_what_was_reviewed(
    reviewed: ReviewedProjectLaunch,
    outcome: Result<ResolvedLaunch, LaunchResolutionError>,
)
    ensures
        resolution_of(reviewed, outcome) is Ok <==> outcome is Ok,
        resolution_of(reviewed, outcome) matches Ok(resolution) ==> {
            &&& resolution.project == reviewed.project
            &&& resolution.preset == reviewed.preset
            &&& Ok::<ResolvedLaunch, LaunchResolutionError>(resolution.resolved) == outcome
        },
        resolution_of(reviewed, outcome) matches Err(error) ==> Err::<
            ResolvedLaunch,
            LaunchResolutionError,
        >(error) == outcome,
{
}

} // verus!
