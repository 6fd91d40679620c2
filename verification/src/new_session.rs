//! Starting a session: the sheet in which it is reviewed, the record that is
//! made of it, and what follows when its terminal is ready or ends.
use vstd::prelude::*;

use crate::domain::{
    ActivityAggregate, HostedSessionState, PermissionPolicy, ProjectStatus,
    SessionLaunchRoute, SessionOrigin, TitleSource,
};
use crate::domain;
use crate::ids::{HostedSessionId, PresetId, ProjectId};
use crate::lists;
use crate::messages::{Atom, MessageId, Text};
use crate::presets;
use crate::presets::{LaunchPreset, PresetLibraryState, WorkingDirectoryRule};
use crate::project_coordinator;
use crate::project_coordinator::{
    review_launch, ProjectLaunchReviewError, ProjectLaunchReviewInput, ResolvedLaunch,
    ReviewedProjectLaunch,
};
use crate::projects;
use crate::projects::{following_generation, Project, ProjectLibraryState};
use crate::saved_state;
use crate::saved_state::{SavedAppAttachedSession, SavedDurableHost, SavedState};
use crate::session_coordinator::{DurableLaunch, DurableSessionPaths};
use crate::session_library::SessionLibraryState;
use crate::text;
use crate::ui;
use crate::ui::{ButtonView, Emphasis, Icon, Notices, Tone};

verus! {

/// The sheet in which a new session is reviewed and started.
#[derive(Debug, PartialEq, Eq)]
pub struct NewSessionState {
    pub project_id: ProjectId,
    pub selected_preset_id: Option<PresetId>,
    pub phase: HostedSessionState,
    pub error: Option<Text>,
    pub generation: u64,
    pub project_store_revision: u64,
    pub preset_store_revision: u64,
    pub hosted_session_id: Option<HostedSessionId>,
    pub spawned_pane_id: Option<u64>,
}

/// While a start is under way the sheet cannot be changed.
pub open spec fn busy(state: HostedSessionState) -> bool {
    state is Validating || state is Starting || state is Provisioning || state is Attaching
        || state is Replaying
}

pub fn new_session_busy(state: HostedSessionState) -> (r: bool)
    ensures
        r == busy(state),
{
    match state {
        HostedSessionState::Validating
        | HostedSessionState::Starting
        | HostedSessionState::Provisioning
        | HostedSessionState::Attaching
        | HostedSessionState::Replaying => true,
        _ => false,
    }
}

pub open spec fn phase_message(state: HostedSessionState) -> MessageId {
    match state {
        HostedSessionState::Draft => MessageId::NewSessionPhaseDraft,
        HostedSessionState::Validating => MessageId::NewSessionPhaseValidating,
        HostedSessionState::Starting => MessageId::NewSessionPhaseStarting,
        HostedSessionState::Provisioning => MessageId::NewSessionPhaseProvisioning,
        HostedSessionState::Attaching => MessageId::NewSessionPhaseAttaching,
        HostedSessionState::Replaying => MessageId::NewSessionPhaseReplaying,
        HostedSessionState::Live => MessageId::NewSessionPhaseLive,
        HostedSessionState::RecordingPaused => MessageId::NewSessionPhaseRecordingPaused,
        HostedSessionState::Stopping => MessageId::NewSessionStatusStopping,
        HostedSessionState::Offline => MessageId::NewSessionPhaseOffline,
        HostedSessionState::Orphaned => MessageId::NewSessionPhaseOrphaned,
        HostedSessionState::Gap => MessageId::NewSessionPhaseGap,
        HostedSessionState::PermissionDenied => MessageId::NewSessionPhasePermissionDenied,
        HostedSessionState::Incompatible => MessageId::NewSessionPhaseIncompatible,
        HostedSessionState::RunningAppAttached => MessageId::NewSessionPhaseRunning,
        HostedSessionState::Failed => MessageId::NewSessionPhaseFailed,
        HostedSessionState::Cancelled => MessageId::NewSessionPhaseCancelled,
        HostedSessionState::Exited => MessageId::NewSessionPhaseExited,
    }
}

pub fn session_phase_label(state: HostedSessionState) -> (r: MessageId)
    ensures
        r == phase_message(state),
{
    match state {
        HostedSessionState::Draft => MessageId::NewSessionPhaseDraft,
        HostedSessionState::Validating => MessageId::NewSessionPhaseValidating,
        HostedSessionState::Starting => MessageId::NewSessionPhaseStarting,
        HostedSessionState::Provisioning => MessageId::NewSessionPhaseProvisioning,
        HostedSessionState::Attaching => MessageId::NewSessionPhaseAttaching,
        HostedSessionState::Replaying => MessageId::NewSessionPhaseReplaying,
        HostedSessionState::Live => MessageId::NewSessionPhaseLive,
        HostedSessionState::RecordingPaused => MessageId::NewSessionPhaseRecordingPaused,
        HostedSessionState::Stopping => MessageId::NewSessionStatusStopping,
        HostedSessionState::Offline => MessageId::NewSessionPhaseOffline,
        HostedSessionState::Orphaned => MessageId::NewSessionPhaseOrphaned,
        HostedSessionState::Gap => MessageId::NewSessionPhaseGap,
        HostedSessionState::PermissionDenied => MessageId::NewSessionPhasePermissionDenied,
        HostedSessionState::Incompatible => MessageId::NewSessionPhaseIncompatible,
        HostedSessionState::RunningAppAttached => MessageId::NewSessionPhaseRunning,
        HostedSessionState::Failed => MessageId::NewSessionPhaseFailed,
        HostedSessionState::Cancelled => MessageId::NewSessionPhaseCancelled,
        HostedSessionState::Exited => MessageId::NewSessionPhaseExited,
    }
}

pub open spec fn policy_message(policy: PermissionPolicy) -> MessageId {
    match policy {
        PermissionPolicy::AskAsNeeded => MessageId::PresetPermissionAsk,
        PermissionPolicy::ReadOnly => MessageId::PresetPermissionReadOnly,
        PermissionPolicy::WorkspaceWrite => MessageId::PresetPermissionWorkspaceWrite,
    }
}

pub fn permission_policy_label(policy: PermissionPolicy) -> (r: MessageId)
    ensures
        r == policy_message(policy),
{
    match policy {
        PermissionPolicy::AskAsNeeded => MessageId::PresetPermissionAsk,
        PermissionPolicy::ReadOnly => MessageId::PresetPermissionReadOnly,
        PermissionPolicy::WorkspaceWrite => MessageId::PresetPermissionWorkspaceWrite,
    }
}

pub open spec fn enabled_favorite() -> spec_fn(LaunchPreset) -> bool {
    |p: LaunchPreset| p.enabled && p.favorite
}

pub open spec fn enabled() -> spec_fn(LaunchPreset) -> bool {
    |p: LaunchPreset| p.enabled
}

/// The preset that a new sheet starts with: the first enabled favourite, else the
/// first enabled one.
pub open spec fn preferred(presets: Seq<LaunchPreset>) -> Option<PresetId> {
    match lists::first_where(presets, enabled_favorite()) {
        Some(preset) => Some(preset.id),
        None => match lists::first_where(presets, enabled()) {
            Some(preset) => Some(preset.id),
            None => None,
        },
    }
}

fn preferred_preset(presets: &Vec<LaunchPreset>) -> (r: Option<PresetId>)
    ensures
        r == preferred(presets@),
{
    let ghost wanted = enabled_favorite();
    let ghost usable = enabled();
    let mut first: Option<PresetId> = None;
    let mut i: usize = 0;
    while i < presets.len()
        invariant
            i <= presets@.len(),
            wanted == enabled_favorite(),
            usable == enabled(),
            forall|k: int| 0 <= k < i ==> !wanted(#[trigger] presets@[k]),
            match first {
                Some(id) => lists::first_where(presets@, usable) matches Some(p) && p.id == id,
                None => forall|k: int| 0 <= k < i ==> !usable(#[trigger] presets@[k]),
            },
        decreases presets@.len() - i,
    {
        let preset = &presets[i];
        if preset.enabled && preset.favorite {
            proof {
                lists::lemma_first_index(presets@, wanted, i as int);
            }
            return Some(preset.id);
        }
        if preset.enabled && first.is_none() {
            proof {
                lists::lemma_first_index(presets@, usable, i as int);
            }
            first = Some(preset.id);
        }
        i += 1;
    }
    proof {
        lists::lemma_first_index(presets@, wanted, i as int);
        if first is None {
            lists::lemma_first_index(presets@, usable, i as int);
        }
    }
    first
}

/// Why a sheet for the project cannot be opened.
pub open spec fn opening_refusal(
    projects: ProjectLibraryState,
    presets: PresetLibraryState,
    project_id: ProjectId,
) -> Option<MessageId> {
    if projects.snapshot is None {
        Some(MessageId::ProjectStoreUnavailable)
    } else {
        match projects.found(project_id) {
            None => Some(MessageId::ProjectErrorStale),
            Some(summary) => if summary.status != ProjectStatus::Available {
                Some(MessageId::ProjectErrorUnavailable)
            } else if presets.snapshot is None {
                Some(MessageId::PresetStoreUnavailable)
            } else {
                None
            },
        }
    }
}

/// A fresh sheet for the project.
pub open spec fn fresh_sheet(
    projects: ProjectLibraryState,
    presets: PresetLibraryState,
    project_id: ProjectId,
) -> NewSessionState {
    let chosen = preferred(presets.presets());
    NewSessionState {
        project_id,
        selected_preset_id: chosen,
        phase: HostedSessionState::Draft,
        error: if chosen is None {
            Some(Text::Message(MessageId::NewSessionPresetRequired))
        } else {
            None
        },
        generation: 1,
        project_store_revision: projects.snapshot->0.revision,
        preset_store_revision: presets.snapshot->0.revision,
        hosted_session_id: None,
        spawned_pane_id: None,
    }
}

/// A fresh sheet selects a preset that can be used: an enabled one, and a
/// favourite wherever some enabled preset is one. No preset before it is as good.
/// Only where no preset is enabled nothing is selected, and the sheet says so.
pub proof fn law_a_fresh_sheet_selects_the_best_preset(
    projects: ProjectLibraryState,
    presets: PresetLibraryState,
    project_id: ProjectId,
)
    ensures
        ({
            let all = presets.presets();
            let sheet = fresh_sheet(projects, presets, project_id);
            let some_favorite = exists|k: int|
                0 <= k < all.len() && (#[trigger] all[k]).enabled && all[k].favorite;
            &&& sheet.project_id == project_id
            &&& sheet.selected_preset_id is None <==> forall|k: int|
                0 <= k < all.len() ==> !(#[trigger] all[k]).enabled
            &&& sheet.selected_preset_id is None <==> sheet.error is Some
            &&& sheet.selected_preset_id matches Some(id) ==> exists|i: int|
                {
                    &&& 0 <= i < all.len()
                    &&& (#[trigger] all[i]).id == id
                    &&& all[i].enabled
                    &&& some_favorite ==> all[i].favorite
                    &&& forall|k: int|
                        0 <= k < i ==> !((#[trigger] all[k]).enabled && (all[k].favorite
                            || !some_favorite))
                }
        }),
{
    let all = presets.presets();
    lists::lemma_first_index_bounds(all, enabled_favorite());
    lists::lemma_first_index_bounds(all, enabled());
    let i = lists::first_index(all, enabled_favorite());
    let j = lists::first_index(all, enabled());
    if i < all.len() {
        assert(all[i].enabled && all[i].favorite);
    } else {
        assert forall|k: int| 0 <= k < all.len() implies !((#[trigger] all[k]).enabled
            && all[k].favorite) by {
            assert(!(enabled_favorite())(all[k]));
        }
        if j < all.len() {
            assert(all[j].enabled);
        } else {
            assert forall|k: int| 0 <= k < all.len() implies !(#[trigger] all[k]).enabled by {
                assert(!(enabled())(all[k]));
            }
        }
    }
}

/// Opens the sheet for a project; says whether it did, so that the input is
/// emptied and takes the focus.
pub fn open_new_session(
    sheet: &mut Option<NewSessionState>,
    initial_input: &mut String,
    projects: &ProjectLibraryState,
    presets: &PresetLibraryState,
    project_id: ProjectId,
    notices: &mut Notices,
) -> (r: bool)
    ensures
        match opening_refusal(*projects, *presets, project_id) {
            Some(message) => {
                &&& !r
                &&& *final(sheet) == *old(sheet)
                &&& *final(initial_input) == *old(initial_input)
                &&& *final(notices) == ui::failed(*old(notices), Text::Message(message))
            },
            None => {
                &&& r
                &&& *final(sheet) == Some(fresh_sheet(*projects, *presets, project_id))
                &&& final(initial_input)@.len() == 0
                &&& *final(notices) == ui::cleared(*old(notices))
            },
        },
        r ==> (*final(sheet) matches Some(state) && state.project_id == project_id) && final(notices).error
            is None,
        !r ==> final(notices).error is Some && *final(sheet) == *old(sheet),
{
    let project_revision: u64 = match projects.project_revision() {
        Some(revision) => revision,
        None => {
            notices.fail(Text::Message(MessageId::ProjectStoreUnavailable));
            return false;
        },
    };
    match projects.project(project_id) {
        None => {
            notices.fail(Text::Message(MessageId::ProjectErrorStale));
            return false;
        },
        Some(summary) => {
            if summary.status != ProjectStatus::Available {
                notices.fail(Text::Message(MessageId::ProjectErrorUnavailable));
                return false;
            }
        },
    }
    let preset_snapshot = match &presets.snapshot {
        Some(snapshot) => snapshot,
        None => {
            notices.fail(Text::Message(MessageId::PresetStoreUnavailable));
            return false;
        },
    };
    let selected_preset_id: Option<PresetId> = preferred_preset(&preset_snapshot.presets);
    *sheet =
    Some(
        NewSessionState {
            project_id,
            selected_preset_id,
            phase: HostedSessionState::Draft,
            error: if selected_preset_id.is_none() {
                Some(Text::Message(MessageId::NewSessionPresetRequired))
            } else {
                None
            },
            generation: 1,
            project_store_revision: project_revision,
            preset_store_revision: preset_snapshot.revision,
            hosted_session_id: None,
            spawned_pane_id: None,
        },
    );
    proof {
        reveal_strlit("");
    }
    *initial_input = "".to_owned();
    notices.clear_error();
    true
}

/// The sheet with another preset chosen; a busy sheet stays as it is.
pub open spec fn with_preset(sheet: Option<NewSessionState>, preset_id: PresetId) -> Option<
    NewSessionState,
> {
    match sheet {
        Some(state) if !busy(state.phase) => Some(
            NewSessionState {
                selected_preset_id: Some(preset_id),
                phase: HostedSessionState::Draft,
                error: None,
                hosted_session_id: None,
                spawned_pane_id: None,
                ..state
            },
        ),
        other => other,
    }
}

pub fn select_new_session_preset(sheet: &mut Option<NewSessionState>, preset_id: PresetId)
    ensures
        *final(sheet) == with_preset(*old(sheet), preset_id),
{
    match sheet.take() {
        None => {},
        Some(mut state) => {
            if !new_session_busy(state.phase) {
                state.selected_preset_id = Some(preset_id);
                state.phase = HostedSessionState::Draft;
                state.error = None;
                state.hosted_session_id = None;
                state.spawned_pane_id = None;
            }
            *sheet = Some(state);
        },
    }
}

/// Opens the sheet for a project with a preset chosen. A sheet that stays open
/// because the new one was refused takes the preset over too.
pub fn open_new_session_with_preset(
    sheet: &mut Option<NewSessionState>,
    initial_input: &mut String,
    projects: &ProjectLibraryState,
    presets: &PresetLibraryState,
    project_id: ProjectId,
    preset_id: PresetId,
    notices: &mut Notices,
) -> (r: bool)
    ensures
        match opening_refusal(*projects, *presets, project_id) {
            Some(message) => {
                &&& !r
                &&& *final(sheet) == with_preset(*old(sheet), preset_id)
                &&& *final(initial_input) == *old(initial_input)
                &&& *final(notices) == ui::failed(*old(notices), Text::Message(message))
            },
            None => {
                &&& r
                &&& *final(sheet) == with_preset(
                    Some(fresh_sheet(*projects, *presets, project_id)),
                    preset_id,
                )
                &&& final(initial_input)@.len() == 0
                &&& *final(notices) == ui::cleared(*old(notices))
            },
        },
        r ==> (*final(sheet) matches Some(state) && state.project_id == project_id
            && state.selected_preset_id == Some(preset_id)) && final(notices).error is None,
        !r ==> final(notices).error is Some,
{
    let opened: bool = open_new_session(
        sheet,
        initial_input,
        projects,
        presets,
        project_id,
        notices,
    );
    select_new_session_preset(sheet, preset_id);
    opened
}

/// What else a cancellation calls for: the pane that was spawned is to be
/// disconnected, and its session is to be marked as cancelled.
#[derive(Clone, Copy, Debug, PartialEq, Eq, Structural)]
pub struct CancelledPane {
    pub pane_id: u64,
    pub session_id: Option<HostedSessionId>,
}

/// The sheet after a cancellation: a spawned or validating start is cancelled,
/// any other sheet closes.
pub open spec fn cancelled_sheet(sheet: Option<NewSessionState>) -> Option<NewSessionState> {
    match sheet {
        None => None,
        Some(state) => {
            let message = if state.spawned_pane_id is Some {
                MessageId::NewSessionCancelledClean
            } else {
                MessageId::NewSessionValidationCancelled
            };
            if state.spawned_pane_id is Some || state.phase is Validating {
                Some(
                    NewSessionState {
                        generation: projects::next_generation(state.generation),
                        phase: HostedSessionState::Cancelled,
                        error: Some(Text::Message(message)),
                        ..state
                    },
                )
            } else {
                None
            }
        },
    }
}

pub open spec fn cancelled_pane(sheet: Option<NewSessionState>) -> Option<CancelledPane> {
    match sheet {
        Some(NewSessionState { spawned_pane_id: Some(pane_id), hosted_session_id, .. }) => Some(
            CancelledPane { pane_id, session_id: hosted_session_id },
        ),
        _ => None,
    }
}

pub fn cancel_new_session(sheet: &mut Option<NewSessionState>) -> (r: Option<CancelledPane>)
    ensures
        *final(sheet) == cancelled_sheet(*old(sheet)),
        r == cancelled_pane(*old(sheet)),
{
    match sheet.take() {
        None => None,
        Some(mut state) => {
            state.generation = following_generation(state.generation);
            match state.spawned_pane_id {
                Some(pane_id) => {
                    let session_id: Option<HostedSessionId> = state.hosted_session_id;
                    state.phase = HostedSessionState::Cancelled;
                    state.error = Some(Text::Message(MessageId::NewSessionCancelledClean));
                    *sheet = Some(state);
                    Some(CancelledPane { pane_id, session_id })
                },
                None => {
                    if state.phase == HostedSessionState::Validating {
                        state.phase = HostedSessionState::Cancelled;
                        state.error = Some(
                            Text::Message(MessageId::NewSessionValidationCancelled),
                        );
                        *sheet = Some(state);
                    }
                    None
                },
            }
        },
    }
}

/// Closes the sheet; a busy one is cancelled instead.
pub fn close_new_session(sheet: &mut Option<NewSessionState>) -> (r: Option<CancelledPane>)
    ensures
        ({
            let was_busy = *old(sheet) matches Some(state) && busy(state.phase);
            &&& *final(sheet) == if was_busy {
                cancelled_sheet(*old(sheet))
            } else {
                None
            }
            &&& r == if was_busy {
                cancelled_pane(*old(sheet))
            } else {
                None
            }
        }),
        r is Some ==> (*old(sheet) matches Some(state) && (state.phase is Validating || state.phase
            is Starting || state.phase is Provisioning || state.phase is Attaching || state.phase
            is Replaying)),
        (*old(sheet) matches Some(state) && (state.phase is Draft || state.phase is Failed || state.phase
            is Live)) ==> *final(sheet) is None && r is None,
{
    let is_busy: bool = match sheet {
        Some(state) => new_session_busy(state.phase),
        None => false,
    };
    if is_busy {
        cancel_new_session(sheet)
    } else {
        *sheet = None;
        None
    }
}

/// The sheet after a failure.
pub open spec fn failed_sheet(sheet: Option<NewSessionState>, message: Text) -> Option<
    NewSessionState,
> {
    match sheet {
        Some(state) => Some(
            NewSessionState { phase: HostedSessionState::Failed, error: Some(message), ..state },
        ),
        None => None,
    }
}

pub fn fail_new_session(sheet: &mut Option<NewSessionState>, message: Text)
    ensures
        *final(sheet) == failed_sheet(*old(sheet), message),
{
    match sheet.take() {
        None => {},
        Some(mut state) => {
            state.phase = HostedSessionState::Failed;
            state.error = Some(message);
            *sheet = Some(state);
        },
    }
}

pub open spec fn review_message(error: ProjectLaunchReviewError) -> MessageId {
    match error {
        ProjectLaunchReviewError::PresetRequired => MessageId::NewSessionPresetRequired,
        ProjectLaunchReviewError::ProjectStoreUnavailable => MessageId::ProjectStoreUnavailable,
        ProjectLaunchReviewError::PresetStoreUnavailable => MessageId::PresetStoreUnavailable,
        ProjectLaunchReviewError::ReviewStale => MessageId::NewSessionReviewStale,
        ProjectLaunchReviewError::ProjectMissing => MessageId::NewSessionProjectMissing,
        ProjectLaunchReviewError::PresetMissing => MessageId::NewSessionPresetMissing,
    }
}

fn review_label(error: ProjectLaunchReviewError) -> (r: MessageId)
    ensures
        r == review_message(error),
{
    match error {
        ProjectLaunchReviewError::PresetRequired => MessageId::NewSessionPresetRequired,
        ProjectLaunchReviewError::ProjectStoreUnavailable => MessageId::ProjectStoreUnavailable,
        ProjectLaunchReviewError::PresetStoreUnavailable => MessageId::PresetStoreUnavailable,
        ProjectLaunchReviewError::ReviewStale => MessageId::NewSessionReviewStale,
        ProjectLaunchReviewError::ProjectMissing => MessageId::NewSessionProjectMissing,
        ProjectLaunchReviewError::PresetMissing => MessageId::NewSessionPresetMissing,
    }
}

/// What the sheet's choice is reviewed against.
pub open spec fn sheet_review(
    state: NewSessionState,
    projects: ProjectLibraryState,
    presets: PresetLibraryState,
) -> Result<(Project, LaunchPreset), ProjectLaunchReviewError> {
    project_coordinator::review(
        ProjectLaunchReviewInput {
            project_id: state.project_id,
            selected_preset_id: state.selected_preset_id,
            project_store_revision: state.project_store_revision,
            preset_store_revision: state.preset_store_revision,
            project_snapshot: match projects.snapshot {
                Some(snapshot) => Some(&snapshot),
                None => None,
            },
            preset_snapshot: match presets.snapshot {
                Some(snapshot) => Some(&snapshot),
                None => None,
            },
        },
    )
}

/// A start that is to be resolved, and the generation under which its outcome is
/// taken.
#[derive(Debug)]
pub struct StartedValidation {
    pub generation: u64,
    pub session_id: HostedSessionId,
    pub reviewed: ReviewedProjectLaunch,
}

/// Begins a start. Without a preset only the error changes; any other obstacle
/// fails the sheet.
pub fn start_new_session(
    sheet: &mut Option<NewSessionState>,
    projects: &ProjectLibraryState,
    presets: &PresetLibraryState,
    session_id: HostedSessionId,
) -> (r: Option<StartedValidation>)
    ensures
        match *old(sheet) {
            None => r is None && *final(sheet) == *old(sheet),
            Some(state) => match sheet_review(state, *projects, *presets) {
                Err(ProjectLaunchReviewError::PresetRequired) => {
                    &&& r is None
                    &&& *final(sheet) == Some(
                        NewSessionState {
                            error: Some(Text::Message(MessageId::NewSessionPresetRequired)),
                            ..state
                        },
                    )
                },
                Err(error) => {
                    &&& r is None
                    &&& *final(sheet) == failed_sheet(
                        *old(sheet),
                        Text::Message(review_message(error)),
                    )
                },
                Ok((project, preset)) => {
                    &&& r matches Some(started)
                    &&& started.generation == projects::next_generation(state.generation)
                    &&& started.session_id == session_id
                    &&& started.reviewed.project == project
                    &&& presets::same_preset(started.reviewed.preset, preset)
                    &&& *final(sheet) == Some(
                        NewSessionState {
                            generation: started.generation,
                            hosted_session_id: Some(session_id),
                            spawned_pane_id: None,
                            phase: HostedSessionState::Validating,
                            error: None,
                            ..state
                        },
                    )
                },
            },
        },
        r matches Some(started) ==> ({
            &&& started.session_id == session_id
            &&& *final(sheet) matches Some(state)
            &&& state.phase is Validating
            &&& state.generation == started.generation
            &&& state.hosted_session_id == Some(session_id)
            &&& state.spawned_pane_id is None
            &&& state.error is None
        }),
        r is None && *old(sheet) is Some ==> (*final(sheet) matches Some(state) && state.error is Some),
{
    match sheet.take() {
        None => None,
        Some(mut state) => {
            let outcome: Result<ReviewedProjectLaunch, ProjectLaunchReviewError> = review_launch(
                &ProjectLaunchReviewInput {
                    project_id: state.project_id,
                    selected_preset_id: state.selected_preset_id,
                    project_store_revision: state.project_store_revision,
                    preset_store_revision: state.preset_store_revision,
                    project_snapshot: match &projects.snapshot {
                        Some(snapshot) => Some(snapshot),
                        None => None,
                    },
                    preset_snapshot: match &presets.snapshot {
                        Some(snapshot) => Some(snapshot),
                        None => None,
                    },
                },
            );
            match outcome {
                Err(error) => {
                    if error != ProjectLaunchReviewError::PresetRequired {
                        state.phase = HostedSessionState::Failed;
                    }
                    state.error = Some(Text::Message(review_label(error)));
                    *sheet = Some(state);
                    None
                },
                Ok(reviewed) => {
                    let generation: u64 = following_generation(state.generation);
                    state.generation = generation;
                    state.hosted_session_id = Some(session_id);
                    state.spawned_pane_id = None;
                    state.phase = HostedSessionState::Validating;
                    state.error = None;
                    *sheet = Some(state);
                    Some(StartedValidation { generation, session_id, reviewed })
                },
            }
        },
    }
}

/// What becomes of the end of a validation.
#[derive(Clone, Copy, Debug, PartialEq, Eq, Structural)]
pub enum ValidationStep {
    /// The start was abandoned or superseded.
    Ignored,
    /// The sheet shows why it cannot go on.
    Failed,
    /// The launch can be prepared.
    Proceed,
}

/// Whether the outcome of a validation is still waited for.
pub open spec fn awaits(sheet: Option<NewSessionState>, generation: u64) -> bool {
    sheet matches Some(state) && state.generation == generation && state.phase is Validating
}

/// Whether both stores stand at the revisions at which the choice was made.
pub open spec fn still_current(
    state: NewSessionState,
    projects: ProjectLibraryState,
    presets: PresetLibraryState,
) -> bool {
    &&& projects.snapshot matches Some(p) && p.revision == state.project_store_revision
    &&& presets.snapshot matches Some(p) && p.revision == state.preset_store_revision
}

/// Takes over whether a launch could be resolved. `refusal` says why it could
/// not.
pub fn finish_new_session_validation(
    sheet: &mut Option<NewSessionState>,
    projects: &ProjectLibraryState,
    presets: &PresetLibraryState,
    generation: u64,
    refusal: Option<String>,
) -> (r: ValidationStep)
    ensures
        r == if !awaits(*old(sheet), generation) {
            ValidationStep::Ignored
        } else if refusal is Some || !still_current(old(sheet)->0, *projects, *presets) {
            ValidationStep::Failed
        } else {
            ValidationStep::Proceed
        },
        r is Proceed ==> {
            &&& refusal is None
            &&& *old(sheet) matches Some(state)
            &&& state.generation == generation
            &&& projects.snapshot matches Some(known)
            &&& known.revision == state.project_store_revision
            &&& presets.snapshot matches Some(known)
            &&& known.revision == state.preset_store_revision
        },
        !(r is Failed) ==> *final(sheet) == *old(sheet),
        r is Failed ==> (*final(sheet) matches Some(state) && state.phase is Failed),
        *final(sheet) == match r {
            ValidationStep::Failed => failed_sheet(
                *old(sheet),
                match refusal {
                    Some(reason) => Text::Filled(
                        MessageId::NewSessionStartError,
                        Atom::Value(reason),
                    ),
                    None => Text::Message(MessageId::NewSessionReviewStale),
                },
            ),
            _ => *old(sheet),
        },
{
    let (waited, current): (bool, bool) = match sheet {
        Some(state) => (
            state.generation == generation && state.phase == HostedSessionState::Validating,
            (match &projects.snapshot {
                Some(snapshot) => snapshot.revision == state.project_store_revision,
                None => false,
            }) && (match &presets.snapshot {
                Some(snapshot) => snapshot.revision == state.preset_store_revision,
                None => false,
            }),
        ),
        None => (false, false),
    };
    if !waited {
        return ValidationStep::Ignored;
    }
    match refusal {
        Some(reason) => {
            fail_new_session(
                sheet,
                Text::Filled(MessageId::NewSessionStartError, Atom::Value(reason)),
            );
            return ValidationStep::Failed;
        },
        None => {},
    }
    if !current {
        fail_new_session(sheet, Text::Message(MessageId::NewSessionReviewStale));
        return ValidationStep::Failed;
    }
    ValidationStep::Proceed
}

/// How the program of a launch is called.
#[derive(Debug)]
pub struct LaunchConfig {
    pub program: String,
    pub args: Vec<String>,
    pub cwd: Option<String>,
}

/// What a pane knows of the session that runs in it.
#[derive(Debug, PartialEq, Eq)]
pub struct AppAttachedPaneState {
    pub hosted_session_id: HostedSessionId,
    pub route: SessionLaunchRoute,
    pub origin: SessionOrigin,
    pub pending_initial_input: Option<String>,
    pub cancel_requested: bool,
    pub last_sequence: u64,
    pub has_writer_lease: bool,
}

/// Everything that is made of a resolved launch.
#[derive(Debug)]
pub struct PreparedSession {
    pub record: SavedAppAttachedSession,
    pub launch: DurableLaunch,
    pub workspace_title: Text,
    pub attached: AppAttachedPaneState,
    pub pane_status: &'static str,
}

/// A session is called by what is first typed into it, else by its preset.
pub open spec fn session_title(
    initial_input: Seq<char>,
    preset_label: String,
    automatic_title: String,
) -> (String, TitleSource) {
    if text::blank(initial_input) {
        (preset_label, TitleSource::Default)
    } else {
        (automatic_title, TitleSource::Automatic)
    }
}

/// The record that is kept of a new session.
pub open spec fn new_record(
    resolved: ResolvedLaunch,
    project: Project,
    preset: LaunchPreset,
    cwd: Option<String>,
    paths: DurableSessionPaths,
    title: (String, TitleSource),
    position: u64,
    now: u64,
) -> SavedAppAttachedSession {
    SavedAppAttachedSession {
        id: resolved.session_id,
        route: resolved.route,
        origin: resolved.origin,
        state: HostedSessionState::Provisioning,
        project_label: project.display_name,
        preset_label: preset.label,
        title: title.0,
        title_source: title.1,
        activity: domain::unknown_activity(0),
        pinned: false,
        read_through_sequence: 0,
        unread_sequence: None,
        archived_at: None,
        revision: 0,
        durable_host: Some(
            SavedDurableHost {
                runtime_root: paths.runtime_root,
                session_dir: paths.session_dir,
                working_directory: cwd,
                last_sequence: 0,
                durable_sequence: 0,
                runtime_recognition: None,
                conversation_handle: None,
                executable: None,
                permission_policy: preset.permission_policy,
                continuity_source_id: None,
            },
        ),
        group_id: None,
        position,
        started_at: now,
        updated_at: now,
    }
}

/// What the pane of a new session knows; an empty input is not sent.
pub open spec fn new_attachment(resolved: ResolvedLaunch, initial_input: String) -> AppAttachedPaneState {
    AppAttachedPaneState {
        hosted_session_id: resolved.session_id,
        route: resolved.route,
        origin: resolved.origin,
        pending_initial_input: if initial_input@.len() == 0 {
            None
        } else {
            Some(initial_input)
        },
        cancel_requested: false,
        last_sequence: 0,
        has_writer_lease: false,
    }
}

/// Prepares a resolved launch. `automatic_title` is the title that the input
/// suggests. The session stands last in its project's root.
pub fn prepare_session(
    resolved: &ResolvedLaunch,
    project: &Project,
    preset: &LaunchPreset,
    config: &LaunchConfig,
    paths: &DurableSessionPaths,
    saved: &SavedState,
    initial_input: &String,
    automatic_title: &String,
    now: u64,
) -> (r: PreparedSession)
    ensures
        r.record == new_record(
            *resolved,
            *project,
            *preset,
            config.cwd,
            *paths,
            session_title(initial_input@, preset.label, *automatic_title),
            saved_state::next_position(saved.app_attached_sessions@, project.id, None),
            now,
        ),
        r.launch.executable == config.program,
        r.launch.arguments@ == config.args@,
        r.launch.cwd == match config.cwd {
            Some(cwd) => cwd,
            None => resolved.working_directory,
        },
        r.launch.runtime_detection is None,
        r.workspace_title == Text::FilledTwo(
            MessageId::NewSessionWorkspaceTitle,
            Atom::Value(project.display_name),
            Atom::Value(preset.label),
        ),
        r.attached == new_attachment(*resolved, *initial_input),
        r.pane_status == "Provisioning",
        config.cwd matches Some(cwd) ==> r.launch.cwd == cwd,
        config.cwd is None ==> r.launch.cwd == resolved.working_directory,
{
    let blank: bool = text::is_blank(initial_input.as_str());
    let (title, title_source): (String, TitleSource) = if blank {
        (preset.label.clone(), TitleSource::Default)
    } else {
        (automatic_title.clone(), TitleSource::Automatic)
    };
    let position: u64 = saved.next_app_attached_session_position(project.id, None);
    let record: SavedAppAttachedSession = SavedAppAttachedSession {
        id: resolved.session_id,
        route: resolved.route,
        origin: resolved.origin,
        state: HostedSessionState::Provisioning,
        project_label: project.display_name.clone(),
        preset_label: preset.label.clone(),
        title,
        title_source,
        activity: ActivityAggregate::default(),
        pinned: false,
        read_through_sequence: 0,
        unread_sequence: None,
        archived_at: None,
        revision: 0,
        durable_host: Some(
            SavedDurableHost {
                runtime_root: paths.runtime_root.clone(),
                session_dir: paths.session_dir.clone(),
                working_directory: domain::duplicate_text(&config.cwd),
                last_sequence: 0,
                durable_sequence: 0,
                runtime_recognition: None,
                conversation_handle: None,
                executable: None,
                permission_policy: preset.permission_policy,
                continuity_source_id: None,
            },
        ),
        group_id: None,
        position,
        started_at: now,
        updated_at: now,
    };
    let launch: DurableLaunch = DurableLaunch {
        executable: config.program.clone(),
        arguments: presets::duplicate_list(&config.args),
        cwd: match &config.cwd {
            Some(cwd) => cwd.clone(),
            None => resolved.working_directory.clone(),
        },
        runtime_detection: None,
    };
    let attached: AppAttachedPaneState = AppAttachedPaneState {
        hosted_session_id: resolved.session_id,
        route: resolved.route,
        origin: resolved.origin,
        pending_initial_input: if initial_input.as_str().is_empty() {
            None
        } else {
            Some(initial_input.clone())
        },
        cancel_requested: false,
        last_sequence: 0,
        has_writer_lease: false,
    };
    PreparedSession {
        record,
        launch,
        workspace_title: Text::FilledTwo(
            MessageId::NewSessionWorkspaceTitle,
            Atom::Value(project.display_name.clone()),
            Atom::Value(preset.label.clone()),
        ),
        attached,
        pane_status: "Provisioning",
    }
}

/// Notes that the session's pane was spawned.
pub fn begin_provisioning(
    sheet: &mut Option<NewSessionState>,
    pane_id: u64,
    notices: &mut Notices,
)
    ensures
        *final(sheet) == match *old(sheet) {
            Some(state) => Some(
                NewSessionState {
                    phase: HostedSessionState::Provisioning,
                    spawned_pane_id: Some(pane_id),
                    ..state
                },
            ),
            None => None,
        },
        *final(notices) == ui::succeeded(Text::Message(MessageId::NewSessionStatusStarting)),
        *final(sheet) matches Some(state) ==> state.phase is Provisioning && state.spawned_pane_id == Some(
            pane_id,
        ),
        *final(sheet) is Some <==> *old(sheet) is Some,
{
    match sheet.take() {
        None => {},
        Some(mut state) => {
            state.phase = HostedSessionState::Provisioning;
            state.spawned_pane_id = Some(pane_id);
            *sheet = Some(state);
        },
    }
    notices.succeed(Text::Message(MessageId::NewSessionStatusStarting));
}

/// A pane of the workspace.
#[derive(Debug, PartialEq, Eq)]
pub struct SessionPane {
    pub id: u64,
    pub closed: bool,
    pub user_closed: bool,
    pub status: &'static str,
    pub app_attached: Option<AppAttachedPaneState>,
}

/// What is sent to the worker of a pane.
#[derive(Clone, Copy, Debug, PartialEq, Eq, Structural)]
pub enum PaneCommand {
    Disconnect,
    StopDurable,
}

impl SessionPane {
    /// Marks the pane of a cancelled start; its worker is to be disconnected.
    pub fn begin_cancelling(&mut self) -> (r: PaneCommand)
        ensures
            r == PaneCommand::Disconnect,
            *final(self) == (SessionPane {
                user_closed: true,
                status: "Cancelling",
                app_attached: match old(self).app_attached {
                    Some(attached) => Some(
                        AppAttachedPaneState { cancel_requested: true, ..attached },
                    ),
                    None => None,
                },
                ..*old(self)
            }),
            final(self).user_closed,
            final(self).app_attached matches Some(attached) ==> attached.cancel_requested,
            final(self).app_attached is Some <==> old(self).app_attached is Some,
    {
        self.user_closed = true;
        match self.app_attached.take() {
            Some(mut attached) => {
                attached.cancel_requested = true;
                self.app_attached = Some(attached);
            },
            None => {},
        }
        self.status = "Cancelling";
        PaneCommand::Disconnect
    }

    /// Whether the session in the pane runs in a host that outlives the console.
    pub open spec fn is_durable(self) -> bool {
        self.app_attached matches Some(attached) && attached.route
            == SessionLaunchRoute::DurableHost
    }

    /// The session that is to be marked as stopping: that of an open pane, where
    /// its life cycle allows it.
    pub fn stop_request(&self, library: &SessionLibraryState) -> (r: Option<HostedSessionId>)
        ensures
            r == match self.app_attached {
                Some(attached) if !self.closed => match library.found(attached.hosted_session_id) {
                    Some(session) if session.can_stop => Some(attached.hosted_session_id),
                    _ => None,
                },
                _ => None,
            },
            r matches Some(id) ==> !self.closed && (self.app_attached matches Some(attached)
                && attached.hosted_session_id == id) && (library.found(id) matches Some(session)
                && session.can_stop),
            (!self.closed && (self.app_attached matches Some(attached) && (
            library.found(attached.hosted_session_id) matches Some(session) && session.can_stop))) ==> r
                is Some,
    {
        if self.closed {
            return None;
        }
        match &self.app_attached {
            None => None,
            Some(attached) => match library.session(attached.hosted_session_id) {
                Some(session) => {
                    if session.can_stop {
                        Some(attached.hosted_session_id)
                    } else {
                        None
                    }
                },
                None => None,
            },
        }
    }

    /// Stops the pane's session once the store has marked it as stopping.
    pub fn stop_app_attached_session(&mut self, notices: &mut Notices) -> (r: PaneCommand)
        ensures
            r == if old(self).is_durable() {
                PaneCommand::StopDurable
            } else {
                PaneCommand::Disconnect
            },
            *final(self) == (SessionPane {
                user_closed: true,
                status: "Stopping",
                ..*old(self)
            }),
            *final(notices) == ui::succeeded(Text::Message(MessageId::NewSessionStatusStopping)),
            r is StopDurable <==> (old(self).app_attached matches Some(attached) && attached.route
                is DurableHost),
            final(self).user_closed,
            final(self).app_attached == old(self).app_attached,
    {
        let durable: bool = match &self.app_attached {
            Some(attached) => attached.route == SessionLaunchRoute::DurableHost,
            None => false,
        };
        self.user_closed = true;
        self.status = "Stopping";
        notices.succeed(Text::Message(MessageId::NewSessionStatusStopping));
        if durable {
            PaneCommand::StopDurable
        } else {
            PaneCommand::Disconnect
        }
    }
}

/// What happens to the input that a new session was given.
#[derive(Debug, PartialEq, Eq)]
pub enum ReadyInput {
    Nothing,
    /// Several lines are reviewed before they are pasted.
    Review(String),
    /// The line is sent, ended by a carriage return.
    Send(String),
}

#[derive(Debug, PartialEq, Eq)]
pub struct ReadyStep {
    pub session_id: HostedSessionId,
    pub lifecycle: HostedSessionState,
    pub input: ReadyInput,
}

pub open spec fn needs_review(input: Seq<char>, confirm_multiline_paste: bool) -> bool {
    confirm_multiline_paste && (input.contains('\n') || input.contains('\r'))
}

pub open spec fn ready_message(input: Option<String>, confirm_multiline_paste: bool) -> MessageId {
    match input {
        None => MessageId::NewSessionStatusReady,
        Some(content) => if needs_review(content@, confirm_multiline_paste) {
            MessageId::NewSessionStatusReviewInput
        } else {
            MessageId::NewSessionStatusReadyInput
        },
    }
}

pub open spec fn is_ready_input(
    step: ReadyInput,
    input: Option<String>,
    confirm_multiline_paste: bool,
) -> bool {
    match input {
        None => step is Nothing,
        Some(content) => if needs_review(content@, confirm_multiline_paste) {
            step == ReadyInput::Review(content)
        } else {
            step matches ReadyInput::Send(line) && line@ == content@ + "\r"@
        },
    }
}

/// Takes over that the terminal of a session is ready: its input is handed out
/// once, and the sheet that started it closes.
pub fn app_attached_ready(
    pane: &mut SessionPane,
    sheet: &mut Option<NewSessionState>,
    confirm_multiline_paste: bool,
    notices: &mut Notices,
) -> (r: Option<ReadyStep>)
    ensures
        match old(pane).app_attached {
            None => {
                &&& r is None
                &&& *final(pane) == *old(pane)
                &&& *final(sheet) == *old(sheet)
                &&& *final(notices) == *old(notices)
            },
            Some(attached) => {
                &&& r matches Some(step)
                &&& step.session_id == attached.hosted_session_id
                &&& step.lifecycle == if attached.route == SessionLaunchRoute::DurableHost {
                    HostedSessionState::Live
                } else {
                    HostedSessionState::RunningAppAttached
                }
                &&& is_ready_input(
                    step.input,
                    attached.pending_initial_input,
                    confirm_multiline_paste,
                )
                &&& *final(pane) == (SessionPane {
                    app_attached: Some(
                        AppAttachedPaneState { pending_initial_input: None, ..attached },
                    ),
                    ..*old(pane)
                })
                &&& *final(sheet) == match *old(sheet) {
                    Some(state) if state.hosted_session_id == Some(attached.hosted_session_id) =>
                        None,
                    other => other,
                }
                &&& *final(notices) == ui::succeeded(
                    Text::Message(
                        ready_message(attached.pending_initial_input, confirm_multiline_paste),
                    ),
                )
            },
        },
        r is Some <==> old(pane).app_attached is Some,
        r matches Some(step) ==> (old(pane).app_attached matches Some(attached) && step.session_id
            == attached.hosted_session_id && (step.lifecycle is Live <==> attached.route is DurableHost)
            && (step.lifecycle is RunningAppAttached <==> attached.route is LegacyAppAttached) && (step.input
            is Nothing <==> attached.pending_initial_input is None)),
        final(pane).app_attached matches Some(attached) ==> attached.pending_initial_input is None,
{
    let mut attached: AppAttachedPaneState = match pane.app_attached.take() {
        Some(attached) => attached,
        None => {
            return None;
        },
    };
    let session_id: HostedSessionId = attached.hosted_session_id;
    let lifecycle: HostedSessionState = if attached.route == SessionLaunchRoute::DurableHost {
        HostedSessionState::Live
    } else {
        HostedSessionState::RunningAppAttached
    };
    let pending: Option<String> = attached.pending_initial_input.take();
    pane.app_attached = Some(attached);
    let (input, message): (ReadyInput, MessageId) = match pending {
        None => (ReadyInput::Nothing, MessageId::NewSessionStatusReady),
        Some(content) => {
            let several: bool = text::has_char(content.as_str(), '\n') || text::has_char(
                content.as_str(),
                '\r',
            );
            if confirm_multiline_paste && several {
                (ReadyInput::Review(content), MessageId::NewSessionStatusReviewInput)
            } else {
                (
                    ReadyInput::Send(text::joined(content.as_str(), "\r")),
                    MessageId::NewSessionStatusReadyInput,
                )
            }
        },
    };
    let own: bool = match sheet {
        Some(state) => state.hosted_session_id == Some(session_id),
        None => false,
    };
    if own {
        *sheet = None;
    }
    notices.succeed(Text::Message(message));
    Some(ReadyStep { session_id, lifecycle, input })
}

/// States that the end of a terminal does not overwrite.
pub open spec fn is_preserved(state: HostedSessionState) -> bool {
    state is Exited || state is Orphaned || state is Gap || state is PermissionDenied
        || state is Incompatible
}

fn preserved(state: HostedSessionState) -> (r: bool)
    ensures
        r == is_preserved(state),
{
    match state {
        HostedSessionState::Exited
        | HostedSessionState::Orphaned
        | HostedSessionState::Gap
        | HostedSessionState::PermissionDenied
        | HostedSessionState::Incompatible => true,
        _ => false,
    }
}

/// The state that a session ends in: cancelled where that was asked for, else
/// what its host has already reported, else offline for a durable session, and
/// for any other whether it failed.
pub open spec fn ended_state(
    attached: AppAttachedPaneState,
    records: Seq<SavedAppAttachedSession>,
    failed: bool,
) -> HostedSessionState {
    if attached.cancel_requested {
        HostedSessionState::Cancelled
    } else {
        match lists::first_where(records, saved_state::is_record(attached.hosted_session_id)) {
            Some(record) if is_preserved(record.state) => record.state,
            _ => if attached.route == SessionLaunchRoute::DurableHost {
                HostedSessionState::Offline
            } else if failed {
                HostedSessionState::Failed
            } else {
                HostedSessionState::Exited
            },
        }
    }
}

/// Takes over that the terminal of a session ended; returns the session and the
/// state to be stored for it.
pub fn set_app_attached_terminal_state(
    pane: &SessionPane,
    saved: &SavedState,
    sheet: &mut Option<NewSessionState>,
    failed: bool,
    message: &String,
) -> (r: Option<(HostedSessionId, HostedSessionState)>)
    ensures
        match pane.app_attached {
            None => r is None && *final(sheet) == *old(sheet),
            Some(attached) => {
                let state = ended_state(attached, saved.app_attached_sessions@, failed);
                &&& r == Some((attached.hosted_session_id, state))
                &&& *final(sheet) == match *old(sheet) {
                    Some(open) if open.hosted_session_id == Some(attached.hosted_session_id) =>
                        Some(
                        NewSessionState {
                            phase: state,
                            error: Some(
                                if text::blank(message@) {
                                    Text::Message(MessageId::NewSessionExitedBeforeReady)
                                } else {
                                    Text::Value(*message)
                                },
                            ),
                            ..open
                        },
                    ),
                    other => other,
                }
            },
        },
        r is Some <==> pane.app_attached is Some,
        r matches Some((id, state)) ==> (pane.app_attached matches Some(attached)
            && attached.hosted_session_id == id) && ((*old(sheet) matches Some(open)
            && open.hosted_session_id == Some(id)) ==> (*final(sheet) matches Some(shown) && shown.phase
            == state && shown.error is Some)),
{
    let attached = match &pane.app_attached {
        Some(attached) => attached,
        None => {
            return None;
        },
    };
    let session_id: HostedSessionId = attached.hosted_session_id;
    let kept: Option<HostedSessionState> = match saved.record(session_id) {
        Some(record) => {
            if preserved(record.state) {
                Some(record.state)
            } else {
                None
            }
        },
        None => None,
    };
    let state: HostedSessionState = if attached.cancel_requested {
        HostedSessionState::Cancelled
    } else {
        match kept {
            Some(state) => state,
            None => {
                if attached.route == SessionLaunchRoute::DurableHost {
                    HostedSessionState::Offline
                } else if failed {
                    HostedSessionState::Failed
                } else {
                    HostedSessionState::Exited
                }
            },
        }
    };
    match sheet.take() {
        None => {},
        Some(mut open) => {
            if open.hosted_session_id == Some(session_id) {
                open.phase = state;
                open.error = Some(
                    if text::is_blank(message.as_str()) {
                        Text::Message(MessageId::NewSessionExitedBeforeReady)
                    } else {
                        Text::Value(message.clone())
                    },
                );
            }
            *sheet = Some(open);
        },
    }
    Some((session_id, state))
}

/// The directories of a search path that are looked through, no more than the
/// limit.
pub fn explicit_path_snapshot(directories: Vec<String>, limit: usize) -> (r: Vec<String>)
    ensures
        r@ == lists::first_of(directories@, limit as int),
        r@.len() <= limit,
{
    let mut r: Vec<String> = directories;
    if r.len() > limit {
        r.truncate(limit);
    }
    r
}

/// The text says where the preset's program would start.
pub open spec fn previews_directory(
    shown: Text,
    project: Option<Project>,
    rule: WorkingDirectoryRule,
) -> bool {
    match (rule, project) {
        (WorkingDirectoryRule::ProjectRoot, Some(p)) => shown == Text::Value(p.canonical_root),
        (WorkingDirectoryRule::ProjectRoot, None) => shown == Text::Message(
            MessageId::NewSessionProjectMissing,
        ),
        (WorkingDirectoryRule::ContainedSubdirectory(relative), Some(p)) => shown matches Text::Value(
            path,
        ) && path@ == text::path_below(p.canonical_root@, relative@),
        (WorkingDirectoryRule::ContainedSubdirectory(relative), None) => shown == Text::Value(
            relative,
        ),
        (WorkingDirectoryRule::PlatformHome, _) => shown == Text::Message(
            MessageId::NewSessionPlatformHome,
        ),
    }
}

pub fn working_directory_preview(project: Option<&Project>, preset: &LaunchPreset) -> (r: Text)
    ensures
        previews_directory(
            r,
            match project {
                Some(p) => Some(*p),
                None => None,
            },
            preset.working_directory,
        ),
{
    match &preset.working_directory {
        WorkingDirectoryRule::ProjectRoot => match project {
            Some(p) => Text::Value(p.canonical_root.clone()),
            None => Text::Message(MessageId::NewSessionProjectMissing),
        },
        WorkingDirectoryRule::ContainedSubdirectory(relative) => match project {
            Some(p) => Text::Value(text::join_path(p.canonical_root.as_str(), relative.as_str())),
            None => Text::Value(relative.clone()),
        },
        WorkingDirectoryRule::PlatformHome => Text::Message(MessageId::NewSessionPlatformHome),
    }
}

/// A validation that was cancelled is no longer waited for.
pub proof fn law_cancelled_validation_is_ignored(sheet: NewSessionState)
    ensures
        !awaits(cancelled_sheet(Some(sheet)), sheet.generation),
{
}

/// The end of a terminal never takes back a cancellation, nor what a durable
/// host has already reported.
pub proof fn law_terminal_end_keeps_what_is_known(
    attached: AppAttachedPaneState,
    records: Seq<SavedAppAttachedSession>,
    record: SavedAppAttachedSession,
    failed: bool,
)
    requires
        lists::first_where(records, saved_state::is_record(attached.hosted_session_id)) == Some(
            record,
        ),
    ensures
        attached.cancel_requested ==> ended_state(attached, records, failed) is Cancelled,
        !attached.cancel_requested && is_preserved(record.state) ==> ended_state(
            attached,
            records,
            failed,
        ) == record.state,
{
}

/// A sheet opens exactly for a project that is known and available, once both
/// stores were read. What stands against it is named: a store that was not read, a
/// project that is gone, a project that cannot be used.
pub proof fn law_sheets_open_for_available_projects(
    projects: ProjectLibraryState,
    presets: PresetLibraryState,
    project_id: ProjectId,
)
    ensures
        ({
            let refusal = opening_refusal(projects, presets, project_id);
            let found = projects.found(project_id);
            &&& refusal is None <==> {
                &&& projects.snapshot is Some
                &&& presets.snapshot is Some
                &&& found matches Some(summary)
                &&& summary.status == ProjectStatus::Available
            }
            &&& projects.snapshot is None ==> refusal == Some(MessageId::ProjectStoreUnavailable)
            &&& projects.snapshot is Some && found is None ==> refusal == Some(
                MessageId::ProjectErrorStale,
            )
            &&& projects.snapshot is Some && (found matches Some(summary) && summary.status
                != ProjectStatus::Available) ==> refusal == Some(
                MessageId::ProjectErrorUnavailable,
            )
            &&& refusal == Some(MessageId::PresetStoreUnavailable) ==> presets.snapshot is None
        }),
{
}

/// A sheet in which a start is under way keeps its preset; any other takes the
/// chosen one over, is a draft again, and forgets its error, its session and its
/// pane. Nothing else of it changes.
pub proof fn law_choosing_a_preset_starts_the_draft_over(sheet: NewSessionState, id: PresetId)
    ensures
        ({
            let under_way = sheet.phase is Validating || sheet.phase is Starting
                || sheet.phase is Provisioning || sheet.phase is Attaching
                || sheet.phase is Replaying;
            let after = with_preset(Some(sheet), id)->0;
            &&& with_preset(Some(sheet), id) is Some
            &&& with_preset(None, id) is None
            &&& under_way ==> after == sheet
            &&& !under_way ==> {
                &&& after.selected_preset_id == Some(id)
                &&& after.phase is Draft
                &&& after.error is None
                &&& after.hosted_session_id is None
                &&& after.spawned_pane_id is None
            }
            &&& after.project_id == sheet.project_id
            &&& after.generation == sheet.generation
            &&& after.project_store_revision == sheet.project_store_revision
            &&& after.preset_store_revision == sheet.preset_store_revision
        }),
{
}

/// Cancelling a start that has a pane, or that is being validated, leaves a
/// cancelled sheet that says so; any other sheet closes. The pane that is
/// disconnected is the one that was spawned, with its session.
pub proof fn law_cancelling_names_the_spawned_pane(sheet: NewSessionState)
    ensures
        ({
            let after = cancelled_sheet(Some(sheet));
            let pane = cancelled_pane(Some(sheet));
            &&& after is Some <==> sheet.spawned_pane_id is Some || sheet.phase is Validating
            &&& after matches Some(cancelled) ==> {
                &&& cancelled.phase is Cancelled
                &&& cancelled.generation != sheet.generation
                &&& cancelled.project_id == sheet.project_id
                &&& cancelled.selected_preset_id == sheet.selected_preset_id
                &&& cancelled.error == Some(
                    Text::Message(
                        if sheet.spawned_pane_id is Some {
                            MessageId::NewSessionCancelledClean
                        } else {
                            MessageId::NewSessionValidationCancelled
                        },
                    ),
                )
            }
            &&& pane is Some <==> sheet.spawned_pane_id is Some
            &&& pane matches Some(spawned) ==> Some(spawned.pane_id) == sheet.spawned_pane_id
                && spawned.session_id == sheet.hosted_session_id
        }),
{
}

/// A failure keeps everything of a sheet but its phase and its error.
pub proof fn law_a_failed_sheet_can_be_tried_again(sheet: NewSessionState, message: Text)
    ensures
        ({
            let after = failed_sheet(Some(sheet), message)->0;
            &&& failed_sheet(Some(sheet), message) is Some
            &&& after.phase is Failed
            &&& after.error == Some(message)
            &&& after.selected_preset_id == sheet.selected_preset_id
            &&& after.project_id == sheet.project_id
            &&& after.generation == sheet.generation
        }),
{
}

/// A validation is waited for only in its own generation and while it runs, and
/// counts only while both stores stand at the revisions that were reviewed.
pub proof fn law_validations_count_while_nothing_changed(
    sheet: NewSessionState,
    projects: ProjectLibraryState,
    presets: PresetLibraryState,
    generation: u64,
)
    ensures
        awaits(Some(sheet), generation) <==> sheet.generation == generation
            && sheet.phase is Validating,
        !awaits(None, generation),
        still_current(sheet, projects, presets) <==> {
            &&& projects.snapshot is Some
            &&& presets.snapshot is Some
            &&& projects.snapshot->0.revision == sheet.project_store_revision
            &&& presets.snapshot->0.revision == sheet.preset_store_revision
        },
{
}

/// A new session is recorded as what was resolved and reviewed: under its
/// identity and origin, in the root of its project behind every session there,
/// neither pinned nor archived nor unread, with the permissions of its preset.
pub proof fn law_new_sessions_are_recorded_as_reviewed(
    resolved: ResolvedLaunch,
    project: Project,
    preset: LaunchPreset,
    cwd: Option<String>,
    paths: DurableSessionPaths,
    input: Seq<char>,
    automatic_title: String,
    position: u64,
    now: u64,
)
    ensures
        ({
            let title = session_title(input, preset.label, automatic_title);
            let record = new_record(resolved, project, preset, cwd, paths, title, position, now);
            &&& record.id == resolved.session_id
            &&& record.route == resolved.route
            &&& record.origin == resolved.origin
            &&& record.state is Provisioning
            &&& record.project_label == project.display_name
            &&& record.preset_label == preset.label
            &&& record.group_id is None
            &&& record.position == position
            &&& !record.pinned
            &&& record.archived_at is None
            &&& record.unread_sequence is None
            &&& record.started_at == now && record.updated_at == now
            &&& record.durable_host matches Some(host)
            &&& host.runtime_root == paths.runtime_root
            &&& host.session_dir == paths.session_dir
            &&& host.working_directory == cwd
            &&& host.permission_policy == preset.permission_policy
            &&& host.conversation_handle is None
            &&& text::blank(input) ==> record.title == preset.label
                && record.title_source is Default
            &&& !text::blank(input) ==> record.title == automatic_title
                && record.title_source is Automatic
        }),
{
}

/// What was typed beforehand is held back until the terminal is ready, and is not
/// held back where nothing was typed.
pub proof fn law_typed_input_waits_for_the_terminal(resolved: ResolvedLaunch, input: String)
    ensures
        ({
            let attached = new_attachment(resolved, input);
            &&& attached.hosted_session_id == resolved.session_id
            &&& attached.route == resolved.route
            &&& attached.pending_initial_input is Some <==> input@.len() > 0
            &&& attached.pending_initial_input matches Some(held) ==> held == input
            &&& !attached.cancel_requested
            &&& !attached.has_writer_lease
        }),
{
}

/// Input of several lines is never sent unseen where such input is to be
/// confirmed; whatever is sent is what was typed, ended by one carriage return.
pub proof fn law_several_lines_are_confirmed(step: ReadyInput, input: String, confirm: bool)
    requires
        is_ready_input(step, Some(input), confirm),
    ensures
        !(step is Nothing),
        step is Review <==> confirm && (input@.contains('\n') || input@.contains('\r')),
        step matches ReadyInput::Review(shown) ==> shown == input,
        step matches ReadyInput::Send(sent) ==> sent@.len() == input@.len() + 1 && sent@.drop_last()
            == input@ && sent@.last() == '\r',
        ready_message(Some(input), confirm) == MessageId::NewSessionStatusReviewInput <==> step
            is Review,
        ready_message(Some(input), confirm) != MessageId::NewSessionStatusReady,
        ready_message(None, confirm) == MessageId::NewSessionStatusReady,
{
    reveal_strlit("\r");
    if let ReadyInput::Send(sent) = step {
        assert(sent@.drop_last() =~= input@);
    }
}

/// A terminal whose host lives on is offline once it ends, never failed nor
/// exited on its own; one without a host has failed exactly where it ended badly.
pub proof fn law_durable_sessions_outlive_their_terminal(
    attached: AppAttachedPaneState,
    records: Seq<SavedAppAttachedSession>,
    failed: bool,
)
    requires
        !attached.cancel_requested,
        forall|i: int|
            0 <= i < records.len() && (#[trigger] records[i]).id == attached.hosted_session_id
                ==> !(records[i].state is Exited || records[i].state is Orphaned
                || records[i].state is Gap || records[i].state is PermissionDenied
                || records[i].state is Incompatible),
    ensures
        ({
            let state = ended_state(attached, records, failed);
            &&& attached.route == SessionLaunchRoute::DurableHost ==> state is Offline
            &&& attached.route != SessionLaunchRoute::DurableHost && failed ==> state is Failed
            &&& attached.route != SessionLaunchRoute::DurableHost && !failed ==> state is Exited
        }),
{
    lists::lemma_first_index_bounds(
        records,
        saved_state::is_record(attached.hosted_session_id),
    );
}

/// What can be asked for in the sheet.
#[derive(Clone, Copy, Debug, PartialEq, Eq, Structural)]
pub enum SheetAction {
    Close,
    ChoosePreset(PresetId),
    Cancel,
    Start,
}

/// A labelled value of the review.
#[derive(Debug, PartialEq, Eq)]
pub struct ReviewRow {
    pub label: MessageId,
    pub value: Text,
}

/// A warning with an icon.
#[derive(Clone, Copy, Debug, PartialEq, Eq, Structural)]
pub struct SheetWarning {
    pub icon: Icon,
    pub tone: Tone,
    pub message: MessageId,
    pub detail: Option<MessageId>,
}

/// What the chosen preset would do.
#[derive(Debug)]
pub struct PresetReview {
    pub working_directory: ReviewRow,
    pub permission: ReviewRow,
    pub risk: Option<SheetWarning>,
}

#[derive(Debug)]
pub struct NewSessionSheet {
    pub title: MessageId,
    pub phase: MessageId,
    pub close: ButtonView<SheetAction>,
    pub warning: SheetWarning,
    pub project: ReviewRow,
    pub preset_field: MessageId,
    pub presets: Vec<ButtonView<SheetAction>>,
    pub review: Option<PresetReview>,
    pub input_field: MessageId,
    pub input_hint: MessageId,
    pub input_disabled: bool,
    pub error: Option<Text>,
    pub buttons: Vec<ButtonView<SheetAction>>,
}

/// The lower half of an identity, which tells the preset buttons apart.
pub open spec fn preset_button_key(id: PresetId) -> u64 {
    id.value as u64
}

pub open spec fn preset_choice(
    preset: LaunchPreset,
    selected: Option<PresetId>,
    is_busy: bool,
) -> ButtonView<SheetAction> {
    ui::disabled_if(
        ui::selected_if(
            ui::plain_button(
                "new-session-preset",
                preset_button_key(preset.id),
                Text::Value(preset.label),
                None,
                Emphasis::Plain,
                SheetAction::ChoosePreset(preset.id),
            ),
            selected == Some(preset.id),
        ),
        is_busy,
    )
}

/// The enabled presets, among which the sheet lets choose.
pub open spec fn offered(presets: PresetLibraryState) -> Seq<LaunchPreset> {
    lists::kept(presets.presets(), enabled())
}

pub open spec fn preset_choices(presets: PresetLibraryState, state: NewSessionState) -> Seq<
    ButtonView<SheetAction>,
> {
    offered(presets).map_values(
        |p: LaunchPreset| preset_choice(p, state.selected_preset_id, busy(state.phase)),
    )
}

/// The chosen preset, where it is offered.
pub open spec fn chosen(presets: PresetLibraryState, state: NewSessionState) -> Option<LaunchPreset> {
    match state.selected_preset_id {
        Some(id) => lists::first_where(offered(presets), presets::is_preset(id)),
        None => None,
    }
}

pub open spec fn reviewed_project(projects: ProjectLibraryState, state: NewSessionState) -> Option<
    Project,
> {
    match projects.found(state.project_id) {
        Some(summary) => Some(summary.project),
        None => None,
    }
}

pub open spec fn reviews_preset(
    view: PresetReview,
    preset: LaunchPreset,
    project: Option<Project>,
) -> bool {
    &&& view.working_directory.label == MessageId::NewSessionWorkingDirectoryField
    &&& previews_directory(view.working_directory.value, project, preset.working_directory)
    &&& view.permission == (ReviewRow {
        label: MessageId::PresetPermissionField,
        value: Text::Message(policy_message(preset.permission_policy)),
    })
    &&& view.risk == if preset.risky {
        Some(
            SheetWarning {
                icon: Icon::TriangleAlert,
                tone: Tone::Warning,
                message: MessageId::NewSessionRiskWarning,
                detail: None,
            },
        )
    } else {
        None
    }
}

pub open spec fn sheet_buttons(is_busy: bool, startable: bool) -> Seq<ButtonView<SheetAction>> {
    seq![
        ui::plain_button(
            "new-session-cancel",
            0,
            Text::Message(
                if is_busy {
                    MessageId::NewSessionCancelStart
                } else {
                    MessageId::CommonCancel
                },
            ),
            None,
            Emphasis::Plain,
            SheetAction::Cancel,
        ),
        ui::disabled_if(
            ui::plain_button(
                "new-session-start",
                0,
                Text::Message(
                    if is_busy {
                        MessageId::NewSessionStartingAction
                    } else {
                        MessageId::CommonRun
                    },
                ),
                Some(
                    if is_busy {
                        Icon::LoaderCircle
                    } else {
                        Icon::SquareTerminal
                    },
                ),
                Emphasis::Primary,
                SheetAction::Start,
            ),
            is_busy || !startable,
        ),
    ]
}

/// The view shows the sheet.
pub open spec fn shows_sheet(
    view: NewSessionSheet,
    state: NewSessionState,
    projects: ProjectLibraryState,
    presets: PresetLibraryState,
) -> bool {
    let is_busy = busy(state.phase);
    let project = reviewed_project(projects, state);
    &&& view.title == MessageId::NewSessionTitle
    &&& view.phase == phase_message(state.phase)
    &&& view.close == ui::disabled_if(
        ui::plain_button(
            "new-session-close",
            0,
            Text::Literal(""),
            Some(Icon::Close),
            Emphasis::Plain,
            SheetAction::Close,
        ),
        is_busy,
    )
    &&& view.warning == (SheetWarning {
        icon: Icon::TriangleAlert,
        tone: Tone::Warning,
        message: MessageId::NewSessionWarning,
        detail: Some(MessageId::NewSessionDurableCopy),
    })
    &&& view.project == (ReviewRow {
        label: MessageId::NewSessionProjectField,
        value: match project {
            Some(p) => Text::Value(p.display_name),
            None => Text::Message(MessageId::NewSessionUnavailableValue),
        },
    })
    &&& view.preset_field == MessageId::NewSessionPresetField
    &&& view.presets@ == preset_choices(presets, state)
    &&& match chosen(presets, state) {
        Some(preset) => view.review matches Some(review) && reviews_preset(review, preset, project),
        None => view.review is None,
    }
    &&& view.input_field == MessageId::NewSessionInitialInputField
    &&& view.input_hint == MessageId::NewSessionInitialInputHint
    &&& view.input_disabled == is_busy
    &&& view.error == state.error
    &&& view.buttons@ == sheet_buttons(is_busy, chosen(presets, state) is Some)
}

fn choice_buttons(list: &Vec<LaunchPreset>, selected: Option<PresetId>, is_busy: bool) -> (r: Vec<
    ButtonView<SheetAction>,
>)
    ensures
        r@ == lists::kept(list@, enabled()).map_values(
            |p: LaunchPreset| preset_choice(p, selected, is_busy),
        ),
{
    let ghost wanted = enabled();
    let ghost draw = |p: LaunchPreset| preset_choice(p, selected, is_busy);
    let mut r: Vec<ButtonView<SheetAction>> = Vec::new();
    let mut i: usize = 0;
    assert(list@.take(0) =~= Seq::empty());
    while i < list.len()
        invariant
            i <= list@.len(),
            wanted == enabled(),
            draw == (|p: LaunchPreset| preset_choice(p, selected, is_busy)),
            r@ =~= lists::kept(list@.take(i as int), wanted).map_values(draw),
        decreases list@.len() - i,
    {
        let preset = &list[i];
        proof {
            lists::lemma_kept_step(list@, wanted, i as int);
        }
        if preset.enabled {
            let value: u128 = preset.id.as_uuid().as_u128();
            r.push(
                ui::button(
                    "new-session-preset",
                    #[verifier::truncate]
                    (value as u64),
                    Text::Value(preset.label.clone()),
                    None,
                    Emphasis::Plain,
                    SheetAction::ChoosePreset(preset.id),
                ).with_selected(selected == Some(preset.id)).with_disabled(is_busy),
            );
        }
        i += 1;
    }
    assert(list@.take(list@.len() as int) =~= list@);
    r
}

/// Index of the first enabled preset of that identity, or the list's length.
fn chosen_index(list: &Vec<LaunchPreset>, id: PresetId) -> (r: usize)
    ensures
        r <= list@.len(),
        match lists::first_where(lists::kept(list@, enabled()), presets::is_preset(id)) {
            Some(preset) => r < list@.len() && list@[r as int] == preset,
            None => r == list@.len(),
        },
{
    let ghost wanted = enabled();
    let ghost named = presets::is_preset(id);
    let mut i: usize = 0;
    assert(list@.take(0) =~= Seq::empty());
    while i < list.len()
        invariant
            i <= list@.len(),
            wanted == enabled(),
            named == presets::is_preset(id),
            forall|k: int|
                0 <= k < lists::kept(list@.take(i as int), wanted).len() ==> !named(
                    #[trigger] lists::kept(list@.take(i as int), wanted)[k],
                ),
        decreases list@.len() - i,
    {
        proof {
            lists::lemma_kept_step(list@, wanted, i as int);
        }
        if list[i].enabled && list[i].id == id {
            proof {
                let before = lists::kept(list@.take(i as int), wanted);
                let n = before.len() as int;
                lemma_kept_prefix(list@, wanted, i + 1);
                let all = lists::kept(list@, wanted);
                assert(all.take(n + 1) == before.push(list@[i as int]));
                assert(all[n] == all.take(n + 1)[n]);
                assert forall|k: int| 0 <= k < before.len() implies !named(#[trigger] all[k]) by {
                    assert(all[k] == all.take(n + 1)[k]);
                    assert(!named(before[k]));
                }
                lists::lemma_first_index(all, named, n);
            }
            return i;
        }
        i += 1;
    }
    proof {
        assert(list@.take(list@.len() as int) =~= list@);
        let all = lists::kept(list@, wanted);
        lists::lemma_first_index(all, named, all.len() as int);
    }
    i
}

proof fn lemma_kept_prefix(s: Seq<LaunchPreset>, wanted: spec_fn(LaunchPreset) -> bool, n: int)
    requires
        0 <= n <= s.len(),
    ensures
        lists::kept(s.take(n), wanted).len() <= lists::kept(s, wanted).len(),
        lists::kept(s, wanted).take(lists::kept(s.take(n), wanted).len() as int) == lists::kept(
            s.take(n),
            wanted,
        ),
    decreases s.len() - n,
{
    if n < s.len() {
        lists::lemma_kept_step(s, wanted, n);
        lemma_kept_prefix(s, wanted, n + 1);
        let part = lists::kept(s.take(n), wanted);
        let more = lists::kept(s.take(n + 1), wanted);
        assert(more.take(part.len() as int) =~= part);
        assert(lists::kept(s, wanted).take(part.len() as int) =~= more.take(part.len() as int));
    } else {
        assert(s.take(n) =~= s);
        assert(lists::kept(s, wanted).take(lists::kept(s, wanted).len() as int) =~= lists::kept(
            s,
            wanted,
        ));
    }
}

fn preset_review(preset: &LaunchPreset, project: Option<&Project>) -> (r: PresetReview)
    ensures
        reviews_preset(
            r,
            *preset,
            match project {
                Some(p) => Some(*p),
                None => None,
            },
        ),
{
    PresetReview {
        working_directory: ReviewRow {
            label: MessageId::NewSessionWorkingDirectoryField,
            value: working_directory_preview(project, preset),
        },
        permission: ReviewRow {
            label: MessageId::PresetPermissionField,
            value: Text::Message(permission_policy_label(preset.permission_policy)),
        },
        risk: if preset.risky {
            Some(
                SheetWarning {
                    icon: Icon::TriangleAlert,
                    tone: Tone::Warning,
                    message: MessageId::NewSessionRiskWarning,
                    detail: None,
                },
            )
        } else {
            None
        },
    }
}

fn start_buttons(is_busy: bool, startable: bool) -> (r: Vec<ButtonView<SheetAction>>)
    ensures
        r@ == sheet_buttons(is_busy, startable),
{
    let mut r: Vec<ButtonView<SheetAction>> = Vec::new();
    r.push(
        ui::button(
            "new-session-cancel",
            0,
            Text::Message(
                if is_busy {
                    MessageId::NewSessionCancelStart
                } else {
                    MessageId::CommonCancel
                },
            ),
            None,
            Emphasis::Plain,
            SheetAction::Cancel,
        ),
    );
    r.push(
        ui::button(
            "new-session-start",
            0,
            Text::Message(
                if is_busy {
                    MessageId::NewSessionStartingAction
                } else {
                    MessageId::CommonRun
                },
            ),
            Some(
                if is_busy {
                    Icon::LoaderCircle
                } else {
                    Icon::SquareTerminal
                },
            ),
            Emphasis::Primary,
            SheetAction::Start,
        ).with_disabled(is_busy || !startable),
    );
    assert(r@ =~= sheet_buttons(is_busy, startable));
    r
}

/// The sheet as it is drawn; nothing where none is open.
pub fn new_session_sheet(
    sheet: &Option<NewSessionState>,
    projects: &ProjectLibraryState,
    presets: &PresetLibraryState,
) -> (r: Option<NewSessionSheet>)
    ensures
        match *sheet {
            None => r is None,
            Some(state) => r matches Some(view) && shows_sheet(view, state, *projects, *presets),
        },
{
    let state = match sheet {
        Some(state) => state,
        None => {
            return None;
        },
    };
    let is_busy: bool = new_session_busy(state.phase);
    let project: Option<&Project> = match projects.project(state.project_id) {
        Some(summary) => Some(&summary.project),
        None => None,
    };
    let mut choices: Vec<ButtonView<SheetAction>> = Vec::new();
    let mut review: Option<PresetReview> = None;
    match &presets.snapshot {
        None => {
            proof {
                assert(presets.presets() =~= Seq::empty());
                assert(offered(*presets) =~= Seq::empty());
                assert(preset_choices(*presets, *state) =~= Seq::empty());
            }
        },
        Some(snapshot) => {
            choices = choice_buttons(&snapshot.presets, state.selected_preset_id, is_busy);
            match state.selected_preset_id {
                None => {},
                Some(id) => {
                    let index: usize = chosen_index(&snapshot.presets, id);
                    if index < snapshot.presets.len() {
                        review = Some(preset_review(&snapshot.presets[index], project));
                    }
                },
            }
        },
    }
    let startable: bool = review.is_some();
    Some(
        NewSessionSheet {
            title: MessageId::NewSessionTitle,
            phase: session_phase_label(state.phase),
            close: ui::button(
                "new-session-close",
                0,
                Text::Literal(""),
                Some(Icon::Close),
                Emphasis::Plain,
                SheetAction::Close,
            ).with_disabled(is_busy),
            warning: SheetWarning {
                icon: Icon::TriangleAlert,
                tone: Tone::Warning,
                message: MessageId::NewSessionWarning,
                detail: Some(MessageId::NewSessionDurableCopy),
            },
            project: ReviewRow {
                label: MessageId::NewSessionProjectField,
                value: match project {
                    Some(p) => Text::Value(p.display_name.clone()),
                    None => Text::Message(MessageId::NewSessionUnavailableValue),
                },
            },
            preset_field: MessageId::NewSessionPresetField,
            presets: choices,
            review,
            input_field: MessageId::NewSessionInitialInputField,
            input_hint: MessageId::NewSessionInitialInputHint,
            input_disabled: is_busy,
            error: match &state.error {
                Some(error) => Some(error.duplicate()),
                None => None,
            },
            buttons: start_buttons(is_busy, startable),
        },
    )
}

/// The sheet offers exactly the enabled presets, and a start exactly where one of
/// them is chosen and no start is under way. While one is under way nothing else
/// can be chosen or typed.
pub proof fn law_sheets_offer_what_can_be_started(
    view: NewSessionSheet,
    state: NewSessionState,
    projects: ProjectLibraryState,
    presets: PresetLibraryState,
)
    requires
        shows_sheet(view, state, projects, presets),
    ensures
        ({
            let under_way = state.phase is Validating || state.phase is Starting
                || state.phase is Provisioning || state.phase is Attaching
                || state.phase is Replaying;
            let all = presets.presets();
            let usable = state.selected_preset_id is Some && exists|i: int|
                0 <= i < all.len() && (#[trigger] all[i]).enabled && Some(all[i].id)
                    == state.selected_preset_id;
            &&& view.buttons@.len() == 2
            &&& view.buttons@[0].action is Cancel && !view.buttons@[0].disabled
            &&& view.buttons@[1].action is Start
            &&& view.buttons@[1].disabled <==> under_way || !usable
            &&& view.close.action is Close && view.close.disabled == under_way
            &&& view.input_disabled == under_way
            &&& view.error == state.error
            &&& view.review is Some <==> usable
            &&& forall|i: int|
                #![trigger view.presets@[i]]
                0 <= i < view.presets@.len() ==> {
                    &&& view.presets@[i].disabled == under_way
                    &&& view.presets@[i].action matches SheetAction::ChoosePreset(id)
                    &&& view.presets@[i].selected <==> state.selected_preset_id == Some(id)
                    &&& exists|k: int|
                        0 <= k < all.len() && (#[trigger] all[k]).enabled && all[k].id == id
                }
        }),
{
    let all = presets.presets();
    let list = offered(presets);
    assert forall|x: LaunchPreset| #[trigger] list.contains(x) <==> all.contains(x)
        && x.enabled by {
        lists::lemma_kept_members(all, enabled(), x);
    }
    assert forall|i: int| #![trigger view.presets@[i]] 0 <= i < view.presets@.len() implies {
        &&& view.presets@[i].action matches SheetAction::ChoosePreset(id)
        &&& exists|k: int| 0 <= k < all.len() && (#[trigger] all[k]).enabled && all[k].id == id
    } by {
        assert(list.contains(list[i]));
        let k = choose|k: int| 0 <= k < all.len() && all[k] == list[i];
        assert(all[k].enabled);
    }
    if let Some(id) = state.selected_preset_id {
        let named = presets::is_preset(id);
        lists::lemma_first_index_bounds(list, named);
        let at = lists::first_index(list, named);
        if at < list.len() {
            assert(list.contains(list[at]));
            let k = choose|k: int| 0 <= k < all.len() && all[k] == list[at];
            assert(all[k].enabled && all[k].id == id);
        } else {
            assert forall|i: int| 0 <= i < all.len() && (#[trigger] all[i]).enabled implies
                all[i].id != id by {
                assert(all.contains(all[i]));
                assert(list.contains(all[i]));
                let k = choose|k: int| 0 <= k < list.len() && list[k] == all[i];
                assert(!named(list[k]));
            }
        }
    }
}

/// Each phase of a new session is told in words of its own.
pub proof fn law_each_phase_has_its_words(state: HostedSessionState)
    ensures
        phase_message(state) == MessageId::NewSessionPhaseDraft <==> state is Draft,
        phase_message(state) == MessageId::NewSessionPhaseValidating <==> state is Validating,
        phase_message(state) == MessageId::NewSessionPhaseStarting <==> state is Starting,
        phase_message(state) == MessageId::NewSessionPhaseProvisioning <==> state is Provisioning,
        phase_message(state) == MessageId::NewSessionPhaseAttaching <==> state is Attaching,
        phase_message(state) == MessageId::NewSessionPhaseReplaying <==> state is Replaying,
        phase_message(state) == MessageId::NewSessionPhaseLive <==> state is Live,
        phase_message(state) == MessageId::NewSessionPhaseRecordingPaused <==> state is RecordingPaused,
        phase_message(state) == MessageId::NewSessionStatusStopping <==> state is Stopping,
        phase_message(state) == MessageId::NewSessionPhaseOffline <==> state is Offline,
        phase_message(state) == MessageId::NewSessionPhaseOrphaned <==> state is Orphaned,
        phase_message(state) == MessageId::NewSessionPhaseGap <==> state is Gap,
        phase_message(state) == MessageId::NewSessionPhasePermissionDenied <==> state is PermissionDenied,
        phase_message(state) == MessageId::NewSessionPhaseIncompatible <==> state is Incompatible,
        phase_message(state) == MessageId::NewSessionPhaseRunning <==> state is RunningAppAttached,
        phase_message(state) == MessageId::NewSessionPhaseFailed <==> state is Failed,
        phase_message(state) == MessageId::NewSessionPhaseCancelled <==> state is Cancelled,
        phase_message(state) == MessageId::NewSessionPhaseExited <==> state is Exited,
{
}

/// Each policy is told in words of its own.
pub proof fn law_each_policy_has_its_words(policy: PermissionPolicy)
    ensures
        policy_message(policy) == MessageId::PresetPermissionAsk <==> policy is AskAsNeeded,
        policy_message(policy) == MessageId::PresetPermissionReadOnly <==> policy is ReadOnly,
        policy_message(policy) == MessageId::PresetPermissionWorkspaceWrite <==> policy is WorkspaceWrite,
{
}

/// Each reason for which a launch is not reviewed is told in words of its own.
pub proof fn law_each_refused_review_has_its_words(error: ProjectLaunchReviewError)
    ensures
        review_message(error) == MessageId::NewSessionPresetRequired <==> error is PresetRequired,
        review_message(error) == MessageId::ProjectStoreUnavailable <==> error is ProjectStoreUnavailable,
        review_message(error) == MessageId::PresetStoreUnavailable <==> error is PresetStoreUnavailable,
        review_message(error) == MessageId::NewSessionReviewStale <==> error is ReviewStale,
        review_message(error) == MessageId::NewSessionProjectMissing <==> error is ProjectMissing,
        review_message(error) == MessageId::NewSessionPresetMissing <==> error is PresetMissing,
{
}

/// The directory that is previewed is the one in which the session will run: the
/// project's root, a directory below it, or the platform's home.
pub proof fn law_the_previewed_directory_is_the_one_chosen(
    shown: Text,
    project: Option<Project>,
    rule: WorkingDirectoryRule,
)
    requires
        previews_directory(shown, project, rule),
    ensures
        rule is PlatformHome <==> shown == Text::Message(MessageId::NewSessionPlatformHome),
        rule is ProjectRoot ==> (project matches Some(p) ==> shown == Text::Value(
            p.canonical_root,
        )),
        rule is ProjectRoot && project is None ==> shown == Text::Message(
            MessageId::NewSessionProjectMissing,
        ),
        rule matches WorkingDirectoryRule::ContainedSubdirectory(relative) ==> (project matches Some(
            p,
        ) ==> shown matches Text::Value(path) && path@ == text::path_below(
            p.canonical_root@,
            relative@,
        )),
{
}

/// The review of a preset warns exactly where it is risky and names the policy
/// that it has.
pub proof fn law_risky_presets_are_warned_of(
    view: PresetReview,
    preset: LaunchPreset,
    project: Option<Project>,
)
    requires
        reviews_preset(view, preset, project),
    ensures
        view.risk is Some <==> preset.risky,
        view.permission.value == Text::Message(MessageId::PresetPermissionAsk)
            <==> preset.permission_policy is AskAsNeeded,
        view.permission.value == Text::Message(MessageId::PresetPermissionReadOnly)
            <==> preset.permission_policy is ReadOnly,
        view.permission.value == Text::Message(MessageId::PresetPermissionWorkspaceWrite)
            <==> preset.permission_policy is WorkspaceWrite,
{
}

/// The sheet's buttons say whether a start is under way.
pub proof fn law_the_sheet_says_whether_it_starts(is_busy: bool, startable: bool)
    ensures
        sheet_buttons(is_busy, startable)[0].label == Text::Message(
            MessageId::NewSessionCancelStart,
        ) <==> is_busy,
        sheet_buttons(is_busy, startable)[0].label == Text::Message(MessageId::CommonCancel)
            <==> !is_busy,
        sheet_buttons(is_busy, startable)[1].label == Text::Message(
            MessageId::NewSessionStartingAction,
        ) <==> is_busy,
        sheet_buttons(is_busy, startable)[1].label == Text::Message(MessageId::CommonRun)
            <==> !is_busy,
        sheet_buttons(is_busy, startable)[1].icon == Some(Icon::LoaderCircle) <==> is_busy,
        sheet_buttons(is_busy, startable)[1].disabled <==> is_busy || !startable,
        !sheet_buttons(is_busy, startable)[0].disabled,
{
}

/// The presets that are offered are the enabled ones in their order, each by its
/// own name and key.
pub proof fn law_presets_are_offered_by_name(
    preset: LaunchPreset,
    selected: Option<PresetId>,
    is_busy: bool,
)
    ensures
        preset_choice(preset, selected, is_busy).label == Text::Value(preset.label),
        preset_choice(preset, selected, is_busy).action == SheetAction::ChoosePreset(preset.id),
        preset_choice(preset, selected, is_busy).selected <==> selected == Some(preset.id),
        preset_choice(preset, selected, is_busy).disabled == is_busy,
{
}

/// What the sheet reviews is what it was opened for, at the revisions at which it
/// was chosen, against what the stores hold.
pub proof fn law_the_sheet_reviews_its_own_choice(
    state: NewSessionState,
    projects: ProjectLibraryState,
    presets: PresetLibraryState,
)
    ensures
        sheet_review(state, projects, presets) matches Ok((project, preset)) ==> project.id
            == state.project_id && state.selected_preset_id == Some(preset.id),
        projects.snapshot is None ==> sheet_review(state, projects, presets) is Err,
        presets.snapshot is None ==> sheet_review(state, projects, presets) is Err,
        state.selected_preset_id is None ==> sheet_review(state, projects, presets) is Err,
{
    if let Some(snapshot) = projects.snapshot {
        lists::lemma_first_index_bounds(
            snapshot.projects@,
            projects::is_project(state.project_id),
        );
    }
    if let Some(snapshot) = presets.snapshot {
        if let Some(id) = state.selected_preset_id {
            lists::lemma_first_index_bounds(snapshot.presets@, presets::is_preset(id));
        }
    }
}

/// The sheet names its project where it is known, warns, and labels its fields.
pub proof fn law_the_sheet_names_its_project(
    view: NewSessionSheet,
    state: NewSessionState,
    projects: ProjectLibraryState,
    presets: PresetLibraryState,
)
    requires
        shows_sheet(view, state, projects, presets),
    ensures
        view.title == MessageId::NewSessionTitle,
        view.warning.message == MessageId::NewSessionWarning,
        view.warning.detail == Some(MessageId::NewSessionDurableCopy),
        view.project.label == MessageId::NewSessionProjectField,
        projects.found(state.project_id) matches Some(summary) ==> view.project.value
            == Text::Value(summary.project.display_name),
        projects.found(state.project_id) is None ==> view.project.value == Text::Message(
            MessageId::NewSessionUnavailableValue,
        ),
        view.preset_field == MessageId::NewSessionPresetField,
        view.input_field == MessageId::NewSessionInitialInputField,
        view.input_hint == MessageId::NewSessionInitialInputHint,
        view.review matches Some(review) ==> review.permission.label
            == MessageId::PresetPermissionField && review.working_directory.label
            == MessageId::NewSessionWorkingDirectoryField && (review.risk matches Some(risk)
            ==> risk.message == MessageId::NewSessionRiskWarning),
{
}

} // verus!
