//! Continuing an exited session's conversation in a replacement session: what
//! is offered, the steps from validation to start, and what the sheet shows.
use vstd::prelude::*;

use crate::domain;
use crate::domain::{
    ActivityAggregate, ActivityConfidence, ActivityState, HostedSession, HostedSessionState,
    PermissionPolicy, ResumeError, RuntimeCapabilitySet, RuntimeRecognition, SessionLaunchRoute,
    TitleSource,
};
use crate::ids::{HostedSessionId, ProjectId};
use crate::lists;
use crate::messages::{Atom, MessageId, Text};
use crate::new_session::AppAttachedPaneState;
use crate::presets::duplicate_list;
use crate::runtimes::RuntimeDetectionStatus;
use crate::saved_state;
use crate::saved_state::{SavedAppAttachedSession, SavedDurableHost, SavedState};
use crate::session_coordinator::{
    ContinuityLink, DurableContinuityCommit, DurableLaunch, DurableSessionPaths,
    RuntimeDetectionResult, SessionStartRequest,
};
use crate::text;
use crate::ui;
use crate::ui::{ButtonView, Emphasis, Icon, Notices};

verus! {

#[derive(Clone, Copy, Debug, PartialEq, Eq, Structural)]
pub enum SessionResumePhase {
    Validating,
    Review,
    Starting,
    Failed,
}

/// A resume that was found to be possible, with everything needed to start it.
#[derive(Debug)]
pub struct ResumePlan {
    pub expected_revision: u64,
    pub handle: String,
    pub runtime_id: String,
    pub prior_generation: u64,
    pub executable_fingerprint: u64,
    pub replacement_session_id: HostedSessionId,
    pub executable: String,
    pub arguments: Vec<String>,
    pub working_directory: String,
    pub permission_policy: PermissionPolicy,
    pub safe_conversation_label: String,
}

#[derive(Debug)]
pub struct SessionResumeState {
    pub source_session_id: HostedSessionId,
    pub replacement_session_id: HostedSessionId,
    pub command_id: u128,
    pub phase: SessionResumePhase,
    pub plan: Option<ResumePlan>,
    pub error: Option<ResumeError>,
    pub spawned_pane_id: Option<u64>,
    pub source_title: String,
    pub project_label: String,
}

#[derive(Clone, Copy, Debug, PartialEq, Eq, Structural)]
pub struct SessionResumeProjection {
    pub visible: bool,
    pub enabled: bool,
    pub reason: Option<ResumeError>,
}

/// Whether a record names a program whose sessions can be resumed.
pub open spec fn resumable_runtime(record: SavedAppAttachedSession) -> bool {
    record.durable_host matches Some(host) && host.runtime_recognition matches Some(recognition)
        && recognition.occupant matches Some(occupant) && occupant.runtime_id@ == "codex"@
}

/// What is offered: nothing for other programs; else resuming, enabled where the
/// evaluation allows it or only the conversation is still to be found.
pub open spec fn resume_offer(
    record: SavedAppAttachedSession,
    evaluation: Result<(), ResumeError>,
) -> SessionResumeProjection {
    if !resumable_runtime(record) {
        SessionResumeProjection { visible: false, enabled: false, reason: None }
    } else {
        match evaluation {
            Ok(()) => SessionResumeProjection { visible: true, enabled: true, reason: None },
            Err(error) => if error is ConversationMissing {
                SessionResumeProjection { visible: true, enabled: true, reason: None }
            } else {
                SessionResumeProjection { visible: true, enabled: false, reason: Some(error) }
            },
        }
    }
}

fn has_resumable_runtime(record: &SavedAppAttachedSession) -> (r: bool)
    ensures
        r == resumable_runtime(*record),
{
    match &record.durable_host {
        Some(host) => match &host.runtime_recognition {
            Some(recognition) => match &recognition.occupant {
                Some(occupant) => text::same_text(occupant.runtime_id.as_str(), "codex"),
                None => false,
            },
            None => false,
        },
        None => false,
    }
}

/// What is offered once a resume was evaluated.
pub fn evaluated_resume_projection(
    saved: &SavedAppAttachedSession,
    evaluation: Result<(), ResumeError>,
) -> (r: SessionResumeProjection)
    ensures
        r == resume_offer(*saved, evaluation),
{
    if !has_resumable_runtime(saved) {
        return SessionResumeProjection { visible: false, enabled: false, reason: None };
    }
    match evaluation {
        Ok(()) | Err(ResumeError::ConversationMissing) => SessionResumeProjection {
            visible: true,
            enabled: true,
            reason: None,
        },
        Err(error) => SessionResumeProjection { visible: true, enabled: false, reason: Some(error) },
    }
}

/// What is evaluated before resuming is offered: the session and the revision and
/// occupant under which it was last seen, with what was recognized of its program
/// and the conversation it is known to hold.
#[derive(Debug)]
pub struct ResumeEvaluation {
    pub command_id: u128,
    pub session_id: HostedSessionId,
    pub expected_generation: u64,
    pub expected_revision: u64,
    pub recognition: RuntimeRecognition,
    pub handle: Option<String>,
}

/// The evaluation that a record calls for: none where resuming is not offered at
/// all.
pub open spec fn evaluation_of(
    record: SavedAppAttachedSession,
    metadata: HostedSession,
    command_id: u128,
) -> Option<ResumeEvaluation> {
    if !resumable_runtime(record) {
        None
    } else {
        let host = record.durable_host->0;
        let recognition = host.runtime_recognition->0;
        Some(
            ResumeEvaluation {
                command_id,
                session_id: record.id,
                expected_generation: recognition.occupant->0.generation,
                expected_revision: metadata.revision,
                recognition,
                handle: host.conversation_handle,
            },
        )
    }
}

/// The evaluation to ask for before resuming is offered.
pub fn resume_evaluation(
    saved: &SavedAppAttachedSession,
    metadata: &HostedSession,
    command_id: u128,
) -> (r: Option<ResumeEvaluation>)
    ensures
        r == evaluation_of(*saved, *metadata, command_id),
{
    if !has_resumable_runtime(saved) {
        return None;
    }
    match &saved.durable_host {
        Some(host) => match &host.runtime_recognition {
            Some(recognition) => match &recognition.occupant {
                Some(occupant) => Some(
                    ResumeEvaluation {
                        command_id,
                        session_id: saved.id,
                        expected_generation: occupant.generation,
                        expected_revision: metadata.revision,
                        recognition: recognition.duplicate(),
                        handle: domain::duplicate_text(&host.conversation_handle),
                    },
                ),
                None => None,
            },
            None => None,
        },
        None => None,
    }
}

/// What is offered for a session. `evaluate` judges the resume; it is asked once,
/// and only where the program's sessions can be resumed at all.
pub fn session_resume_projection<
    E: Fn(&ResumeEvaluation, &HostedSession) -> Result<(), ResumeError>,
>(
    saved: &SavedAppAttachedSession,
    metadata: &HostedSession,
    command_id: u128,
    evaluate: &E,
) -> (r: SessionResumeProjection)
    requires
        forall|request: &ResumeEvaluation|
            Some(*request) == evaluation_of(*saved, *metadata, command_id)
                ==> #[trigger] evaluate.requires((request, metadata)),
    ensures
        match evaluation_of(*saved, *metadata, command_id) {
            None => r == (SessionResumeProjection { visible: false, enabled: false, reason: None }),
            Some(request) => exists|evaluation: Result<(), ResumeError>| #[trigger]
                evaluate.ensures((&request, metadata), evaluation) && r == resume_offer(
                    *saved,
                    evaluation,
                ),
        },
        r.enabled ==> r.visible,
        r.visible ==> (saved.durable_host matches Some(host) && host.runtime_recognition is Some),
{
    match resume_evaluation(saved, metadata, command_id) {
        None => SessionResumeProjection { visible: false, enabled: false, reason: None },
        Some(request) => {
            let evaluation: Result<(), ResumeError> = evaluate(&request, metadata);
            evaluated_resume_projection(saved, evaluation)
        },
    }
}

/// Resuming is enabled only where it is offered, and a reason is given exactly
/// where it is offered and not enabled.
pub proof fn law_resume_offer_is_explained(
    record: SavedAppAttachedSession,
    evaluation: Result<(), ResumeError>,
)
    ensures
        ({
            let offer = resume_offer(record, evaluation);
            &&& offer.enabled ==> offer.visible
            &&& offer.reason is Some <==> offer.visible && !offer.enabled
        }),
{
}

pub open spec fn resume_message(error: ResumeError) -> MessageId {
    match error {
        ResumeError::StillRunning => MessageId::SessionResumeErrorStillRunning,
        ResumeError::OwnershipUnproven => MessageId::SessionResumeErrorOwnership,
        ResumeError::StaleOccupant
        | ResumeError::StaleRevision => MessageId::SessionResumeErrorStale,
        ResumeError::UnsupportedVersion => MessageId::SessionResumeErrorUnsupported,
        ResumeError::ConversationMissing => MessageId::SessionResumeErrorMissing,
        ResumeError::ConversationMalformed => MessageId::SessionResumeErrorMalformed,
        ResumeError::PermissionDenied => MessageId::SessionResumeErrorPermission,
        ResumeError::ProviderUnavailable => MessageId::SessionResumeErrorProvider,
        ResumeError::ResourceLimit => MessageId::SessionResumeErrorLimit,
        ResumeError::Cancelled => MessageId::SessionResumeCancelled,
        ResumeError::ContinuityConflict => MessageId::SessionResumeErrorConflict,
    }
}

pub fn resume_error_message(error: ResumeError) -> (r: MessageId)
    ensures
        r == resume_message(error),
{
    match error {
        ResumeError::StillRunning => MessageId::SessionResumeErrorStillRunning,
        ResumeError::OwnershipUnproven => MessageId::SessionResumeErrorOwnership,
        ResumeError::StaleOccupant | ResumeError::StaleRevision => {
            MessageId::SessionResumeErrorStale
        },
        ResumeError::UnsupportedVersion => MessageId::SessionResumeErrorUnsupported,
        ResumeError::ConversationMissing => MessageId::SessionResumeErrorMissing,
        ResumeError::ConversationMalformed => MessageId::SessionResumeErrorMalformed,
        ResumeError::PermissionDenied => MessageId::SessionResumeErrorPermission,
        ResumeError::ProviderUnavailable => MessageId::SessionResumeErrorProvider,
        ResumeError::ResourceLimit => MessageId::SessionResumeErrorLimit,
        ResumeError::Cancelled => MessageId::SessionResumeCancelled,
        ResumeError::ContinuityConflict => MessageId::SessionResumeErrorConflict,
    }
}

pub open spec fn permission_message(policy: PermissionPolicy) -> MessageId {
    match policy {
        PermissionPolicy::AskAsNeeded => MessageId::PresetPermissionAsk,
        PermissionPolicy::ReadOnly => MessageId::PresetPermissionReadOnly,
        PermissionPolicy::WorkspaceWrite => MessageId::PresetPermissionWorkspaceWrite,
    }
}

pub fn resume_permission_label(policy: PermissionPolicy) -> (r: MessageId)
    ensures
        r == permission_message(policy),
{
    match policy {
        PermissionPolicy::AskAsNeeded => MessageId::PresetPermissionAsk,
        PermissionPolicy::ReadOnly => MessageId::PresetPermissionReadOnly,
        PermissionPolicy::WorkspaceWrite => MessageId::PresetPermissionWorkspaceWrite,
    }
}

/// The last part of a path, or the path itself where there is none.
pub fn basename_or_path(path: &str) -> (r: String)
    ensures
        r@ == match text::file_name(path@) {
            Some(name) => name,
            None => path@,
        },
{
    match text::path_file_name(path) {
        Some(name) => name,
        None => path.to_owned(),
    }
}

/// What is validated in the background before a resume can be reviewed.
#[derive(Debug)]
pub struct ResumeValidation {
    pub command_id: u128,
    pub session_id: HostedSessionId,
    pub expected_generation: u64,
    pub expected_revision: u64,
    pub handle: Option<String>,
    pub project_id: ProjectId,
    pub working_directory: String,
    pub executable: String,
    pub permission_policy: PermissionPolicy,
    pub not_before_millis: u64,
}

/// Why a resume is not opened: `None` where one is already open and nothing is
/// said, else the message that says why.
#[derive(Clone, Copy, Debug, PartialEq, Eq, Structural)]
pub struct ResumeRefusal {
    pub message: Option<MessageId>,
}

/// How far back from the start of a session its conversation is searched, in
/// milliseconds.
pub const CONVERSATION_SEARCH_MARGIN: u64 = 5_000;

/// Whether a resume can be opened, and if not why.
pub open spec fn resume_refusal(
    sheet_open: bool,
    metadata: Option<HostedSession>,
    source: Option<SavedAppAttachedSession>,
    conversation_root_known: bool,
) -> Option<ResumeRefusal> {
    if sheet_open {
        Some(ResumeRefusal { message: None })
    } else if metadata is None || source is None {
        Some(ResumeRefusal { message: Some(MessageId::SessionLibraryOperationFailed) })
    } else {
        match source->0.durable_host {
            None => Some(refused(ResumeError::OwnershipUnproven)),
            Some(host) => if !(host.runtime_recognition matches Some(recognition)
                && recognition.occupant is Some) {
                Some(refused(ResumeError::OwnershipUnproven))
            } else if host.working_directory is None {
                Some(refused(ResumeError::ConversationMalformed))
            } else if host.executable is None {
                Some(refused(ResumeError::ProviderUnavailable))
            } else if !conversation_root_known {
                Some(refused(ResumeError::ConversationMissing))
            } else {
                None
            },
        }
    }
}

pub open spec fn refused(error: ResumeError) -> ResumeRefusal {
    ResumeRefusal { message: Some(resume_message(error)) }
}

fn refuse(error: ResumeError) -> (r: ResumeRefusal)
    ensures
        r == refused(error),
{
    ResumeRefusal { message: Some(resume_error_message(error)) }
}

/// The state and the validation job of a resume that is being opened.
pub open spec fn opened_resume(
    metadata: HostedSession,
    source: SavedAppAttachedSession,
    command_id: u128,
    replacement_session_id: HostedSessionId,
) -> (SessionResumeState, ResumeValidation) {
    let host = source.durable_host->0;
    (
        SessionResumeState {
            source_session_id: metadata.id,
            replacement_session_id,
            command_id,
            phase: SessionResumePhase::Validating,
            plan: None,
            error: None,
            spawned_pane_id: None,
            source_title: source.title,
            project_label: source.project_label,
        },
        ResumeValidation {
            command_id,
            session_id: metadata.id,
            expected_generation: host.runtime_recognition->0.occupant->0.generation,
            expected_revision: metadata.revision,
            handle: host.conversation_handle,
            project_id: source.origin.project_id,
            working_directory: host.working_directory->0,
            executable: host.executable->0,
            permission_policy: host.permission_policy,
            not_before_millis: if source.started_at >= CONVERSATION_SEARCH_MARGIN {
                (source.started_at - CONVERSATION_SEARCH_MARGIN) as u64
            } else {
                0
            },
        },
    )
}

/// Opens a resume of a session, unless another sheet is open or something that
/// it needs is missing.
pub fn open_session_resume(
    sheet_open: bool,
    metadata: Option<&HostedSession>,
    source: Option<&SavedAppAttachedSession>,
    conversation_root_known: bool,
    command_id: u128,
    replacement_session_id: HostedSessionId,
) -> (r: Result<(SessionResumeState, ResumeValidation), ResumeRefusal>)
    ensures
        ({
            let known = match metadata {
                Some(session) => Some(*session),
                None => None,
            };
            let record = match source {
                Some(record) => Some(*record),
                None => None,
            };
            match resume_refusal(sheet_open, known, record, conversation_root_known) {
                Some(refusal) => r == Err::<
                    (SessionResumeState, ResumeValidation),
                    ResumeRefusal,
                >(refusal),
                None => r == Ok::<(SessionResumeState, ResumeValidation), ResumeRefusal>(
                    opened_resume(known->0, record->0, command_id, replacement_session_id),
                ),
            }
        }),
        r matches Ok((state, validation)) ==> !sheet_open && conversation_root_known && metadata is Some
            && source is Some && state.command_id == command_id && state.replacement_session_id
            == replacement_session_id && state.phase is Validating,
        sheet_open ==> r is Err,
{
    if sheet_open {
        return Err(ResumeRefusal { message: None });
    }
    let (session, record): (&HostedSession, &SavedAppAttachedSession) = match (metadata, source) {
        (Some(session), Some(record)) => (session, record),
        _ => {
            return Err(
                ResumeRefusal { message: Some(MessageId::SessionLibraryOperationFailed) },
            );
        },
    };
    let host: &SavedDurableHost = match &record.durable_host {
        Some(host) => host,
        None => {
            return Err(refuse(ResumeError::OwnershipUnproven));
        },
    };
    let expected_generation: u64 = match &host.runtime_recognition {
        Some(recognition) => match &recognition.occupant {
            Some(occupant) => occupant.generation,
            None => {
                return Err(refuse(ResumeError::OwnershipUnproven));
            },
        },
        None => {
            return Err(refuse(ResumeError::OwnershipUnproven));
        },
    };
    let working_directory: String = match &host.working_directory {
        Some(path) => path.clone(),
        None => {
            return Err(refuse(ResumeError::ConversationMalformed));
        },
    };
    let executable: String = match &host.executable {
        Some(path) => path.clone(),
        None => {
            return Err(refuse(ResumeError::ProviderUnavailable));
        },
    };
    if !conversation_root_known {
        return Err(refuse(ResumeError::ConversationMissing));
    }
    let state: SessionResumeState = SessionResumeState {
        source_session_id: session.id,
        replacement_session_id,
        command_id,
        phase: SessionResumePhase::Validating,
        plan: None,
        error: None,
        spawned_pane_id: None,
        source_title: record.title.clone(),
        project_label: record.project_label.clone(),
    };
    let validation: ResumeValidation = ResumeValidation {
        command_id,
        session_id: session.id,
        expected_generation,
        expected_revision: session.revision,
        handle: domain::duplicate_text(&host.conversation_handle),
        project_id: record.origin.project_id,
        working_directory,
        executable,
        permission_policy: host.permission_policy,
        not_before_millis: if record.started_at >= CONVERSATION_SEARCH_MARGIN {
            record.started_at - CONVERSATION_SEARCH_MARGIN
        } else {
            0
        },
    };
    Ok((state, validation))
}

/// The record with a newly found conversation.
pub open spec fn with_handle(
    record: SavedAppAttachedSession,
    handle: String,
) -> SavedAppAttachedSession {
    match record.durable_host {
        None => record,
        Some(host) => SavedAppAttachedSession {
            durable_host: Some(SavedDurableHost { conversation_handle: Some(handle), ..host }),
            ..record
        },
    }
}

pub open spec fn with_source(
    record: SavedAppAttachedSession,
    source: HostedSessionId,
) -> SavedAppAttachedSession {
    match record.durable_host {
        None => record,
        Some(host) => SavedAppAttachedSession {
            durable_host: Some(SavedDurableHost { continuity_source_id: Some(source), ..host }),
            ..record
        },
    }
}

/// The records after the first one of that identity was replaced by `f` of it.
pub open spec fn changed_record(
    records: Seq<SavedAppAttachedSession>,
    id: HostedSessionId,
    f: spec_fn(SavedAppAttachedSession) -> SavedAppAttachedSession,
) -> Seq<SavedAppAttachedSession> {
    let i = lists::first_index(records, saved_state::is_record(id));
    if i < records.len() {
        records.update(i, f(records[i]))
    } else {
        records
    }
}

fn remember_handle(saved: &mut SavedState, id: HostedSessionId, handle: &String)
    ensures
        final(saved).app_attached_sessions@ == changed_record(
            old(saved).app_attached_sessions@,
            id,
            |r: SavedAppAttachedSession| with_handle(r, *handle),
        ),
{
    let i: usize = saved.record_index(id);
    if i < saved.app_attached_sessions.len() {
        let mut record: SavedAppAttachedSession = saved.app_attached_sessions[i].duplicate();
        match record.durable_host.take() {
            Some(host) => {
                let mut next: SavedDurableHost = host;
                next.conversation_handle = Some(handle.clone());
                record.durable_host = Some(next);
            },
            None => {},
        }
        saved.app_attached_sessions.set(i, record);
    }
}

fn remember_source(saved: &mut SavedState, id: HostedSessionId, source: HostedSessionId)
    ensures
        final(saved).app_attached_sessions@ == changed_record(
            old(saved).app_attached_sessions@,
            id,
            |r: SavedAppAttachedSession| with_source(r, source),
        ),
{
    let i: usize = saved.record_index(id);
    if i < saved.app_attached_sessions.len() {
        let mut record: SavedAppAttachedSession = saved.app_attached_sessions[i].duplicate();
        match record.durable_host.take() {
            Some(host) => {
                let mut next: SavedDurableHost = host;
                next.continuity_source_id = Some(source);
                record.durable_host = Some(next);
            },
            None => {},
        }
        saved.app_attached_sessions.set(i, record);
    }
}

impl SessionResumeState {
    /// The resume after a failure.
    pub open spec fn failed_with(self, error: ResumeError) -> Self {
        SessionResumeState { phase: SessionResumePhase::Failed, error: Some(error), ..self }
    }

    /// The resume after its plan was found to be good.
    pub open spec fn reviewed_with(self, plan: ResumePlan) -> Self {
        SessionResumeState {
            phase: SessionResumePhase::Review,
            plan: Some(plan),
            error: None,
            ..self
        }
    }

    /// Takes over the answer of the validation with that command, if it is the
    /// one awaited. A plan counts only if the source session has not changed
    /// since; its conversation is then remembered with the source.
    pub fn finish_session_resume_validation(
        &mut self,
        saved: &mut SavedState,
        source_revision: Option<u64>,
        command_id: u128,
        result: Result<ResumePlan, ResumeError>,
    ) -> (taken: bool)
        ensures
            taken == (old(self).command_id == command_id && old(self).phase is Validating),
            ({
                let before = old(saved).app_attached_sessions@;
                let after = final(saved).app_attached_sessions@;
                if !taken {
                    *final(self) == *old(self) && after == before
                } else {
                    match result {
                        Ok(plan) => if source_revision == Some(plan.expected_revision) {
                            &&& *final(self) == old(self).reviewed_with(plan)
                            &&& after == changed_record(
                                before,
                                old(self).source_session_id,
                                |r: SavedAppAttachedSession| with_handle(r, plan.handle),
                            )
                        } else {
                            &&& *final(self) == old(self).failed_with(ResumeError::StaleRevision)
                            &&& after == before
                        },
                        Err(error) => *final(self) == old(self).failed_with(error) && after
                            == before,
                    }
                }
            }),
            final(self).phase is Review && old(self).phase is Validating ==> {
                &&& result matches Ok(plan)
                &&& source_revision == Some(plan.expected_revision)
                &&& old(self).command_id == command_id
                &&& final(self).plan == Some(plan)
            },
            final(self).phase is Starting ==> old(self).phase is Starting,
    {
        if self.command_id != command_id || self.phase != SessionResumePhase::Validating {
            return false;
        }
        match result {
            Ok(plan) => {
                if source_revision == Some(plan.expected_revision) {
                    remember_handle(saved, self.source_session_id, &plan.handle);
                    self.plan = Some(plan);
                    self.phase = SessionResumePhase::Review;
                    self.error = None;
                } else {
                    self.phase = SessionResumePhase::Failed;
                    self.error = Some(ResumeError::StaleRevision);
                }
            },
            Err(error) => {
                self.phase = SessionResumePhase::Failed;
                self.error = Some(error);
            },
        }
        true
    }

    pub fn fail_session_resume(&mut self, error: ResumeError)
        ensures
            *final(self) == old(self).failed_with(error),
            final(self).phase is Failed && final(self).error == Some(error),
    {
        self.phase = SessionResumePhase::Failed;
        self.error = Some(error);
    }

    /// Fails the resume if its replacement is the session in question.
    pub fn fail_active_session_resume(&mut self, session_id: HostedSessionId, error: ResumeError)
        ensures
            *final(self) == if old(self).replacement_session_id == session_id {
                old(self).failed_with(error)
            } else {
                *old(self)
            },
            old(self).replacement_session_id == session_id ==> final(self).phase is Failed
                && final(self).error == Some(error),
            old(self).replacement_session_id != session_id ==> final(self).phase == old(self).phase
                && final(self).error == old(self).error,
    {
        if self.replacement_session_id == session_id {
            self.fail_session_resume(error);
        }
    }

    /// Remembers the pane in which the replacement starts.
    pub fn begin_starting(&mut self, pane_id: u64, notices: &mut Notices)
        ensures
            *final(self) == (SessionResumeState {
                phase: SessionResumePhase::Starting,
                spawned_pane_id: Some(pane_id),
                ..*old(self)
            }),
            *final(notices) == ui::succeeded(Text::Message(MessageId::SessionResumePhaseStarting)),
            final(self).phase is Starting && final(self).spawned_pane_id == Some(pane_id),
            final(self).plan == old(self).plan && final(self).source_session_id == old(self).source_session_id,
            final(notices).error is None,
    {
        self.phase = SessionResumePhase::Starting;
        self.spawned_pane_id = Some(pane_id);
        notices.succeed(Text::Message(MessageId::SessionResumePhaseStarting));
    }
}

/// What stands in the way of starting a reviewed resume.
pub open spec fn start_obstacle(
    plan: ResumePlan,
    metadata: Option<HostedSession>,
    source: Option<SavedAppAttachedSession>,
) -> Option<ResumeError> {
    match (metadata, source) {
        (Some(session), Some(record)) => match record.durable_host {
            None => Some(ResumeError::OwnershipUnproven),
            Some(host) => if session.revision != plan.expected_revision || !(
            host.conversation_handle matches Some(handle) && handle@ == plan.handle@) {
                Some(ResumeError::StaleRevision)
            } else {
                None
            },
        },
        _ => Some(ResumeError::StaleRevision),
    }
}

/// Whether a resume can be started: `None` where it is not under review, else
/// what stands in the way, if anything.
pub open spec fn start_verdict(
    state: SessionResumeState,
    metadata: Option<HostedSession>,
    source: Option<SavedAppAttachedSession>,
) -> Option<Result<(), ResumeError>> {
    if state.phase is Review {
        match state.plan {
            None => None,
            Some(plan) => match start_obstacle(plan, metadata, source) {
                Some(error) => Some(Err(error)),
                None => Some(Ok(())),
            },
        }
    } else {
        None
    }
}

/// A resume starts exactly where it is under review, its session still has the
/// revision that was reviewed, and its record still holds the conversation that
/// was reviewed. A session or a conversation that changed is refused as stale, a
/// record without a host as not proved to be owned.
pub proof fn law_a_resume_starts_only_as_reviewed(
    state: SessionResumeState,
    metadata: Option<HostedSession>,
    source: Option<SavedAppAttachedSession>,
)
    ensures
        ({
            let verdict = start_verdict(state, metadata, source);
            &&& verdict is Some <==> state.phase == SessionResumePhase::Review && state.plan is Some
            &&& verdict == Some(Ok::<(), ResumeError>(())) <==> {
                &&& state.phase == SessionResumePhase::Review
                &&& state.plan matches Some(plan)
                &&& metadata matches Some(session)
                &&& source matches Some(record)
                &&& record.durable_host matches Some(host)
                &&& host.conversation_handle matches Some(handle)
                &&& session.revision == plan.expected_revision
                &&& handle@ == plan.handle@
            }
            &&& verdict matches Some(Err(error)) ==> error == if metadata is Some && (
            source matches Some(record) && record.durable_host is None) {
                ResumeError::OwnershipUnproven
            } else {
                ResumeError::StaleRevision
            }
        }),
{
}

pub fn check_resume_start(
    state: &SessionResumeState,
    metadata: Option<&HostedSession>,
    source: Option<&SavedAppAttachedSession>,
) -> (r: Option<Result<(), ResumeError>>)
    ensures
        r == start_verdict(
            *state,
            match metadata {
                Some(session) => Some(*session),
                None => None,
            },
            match source {
                Some(record) => Some(*record),
                None => None,
            },
        ),
{
    if state.phase != SessionResumePhase::Review {
        return None;
    }
    let plan: &ResumePlan = match &state.plan {
        Some(plan) => plan,
        None => {
            return None;
        },
    };
    let (session, record): (&HostedSession, &SavedAppAttachedSession) = match (metadata, source) {
        (Some(session), Some(record)) => (session, record),
        _ => {
            return Some(Err(ResumeError::StaleRevision));
        },
    };
    let host: &SavedDurableHost = match &record.durable_host {
        Some(host) => host,
        None => {
            return Some(Err(ResumeError::OwnershipUnproven));
        },
    };
    let same_handle: bool = match &host.conversation_handle {
        Some(handle) => text::same_text(handle.as_str(), plan.handle.as_str()),
        None => false,
    };
    if session.revision != plan.expected_revision || !same_handle {
        return Some(Err(ResumeError::StaleRevision));
    }
    Some(Ok(()))
}

/// What could be had for the start: the store's directory, the revision of the
/// continuity records, and the directories of the replacement.
#[derive(Debug)]
pub struct ResumeEnvironment {
    pub store_root: Option<String>,
    pub continuity_revision: Option<u64>,
    pub paths: Option<DurableSessionPaths>,
}

/// The first thing that could not be had, as an error.
pub fn environment_obstacle(environment: &ResumeEnvironment) -> (r: Option<ResumeError>)
    ensures
        r == if environment.store_root is None {
            Some(ResumeError::PermissionDenied)
        } else if environment.continuity_revision is None {
            Some(ResumeError::ContinuityConflict)
        } else if environment.paths is None {
            Some(ResumeError::PermissionDenied)
        } else {
            None
        },
        r is None <==> environment.store_root is Some && environment.continuity_revision is Some
            && environment.paths is Some,
        r == Some(ResumeError::ContinuityConflict) <==> environment.store_root is Some
            && environment.continuity_revision is None,
{
    if environment.store_root.is_none() {
        Some(ResumeError::PermissionDenied)
    } else if environment.continuity_revision.is_none() {
        Some(ResumeError::ContinuityConflict)
    } else if environment.paths.is_none() {
        Some(ResumeError::PermissionDenied)
    } else {
        None
    }
}

/// The generation that follows an occupant's.
pub open spec fn next_occupant(generation: u64) -> u64 {
    if generation == u64::MAX {
        u64::MAX
    } else {
        (generation + 1) as u64
    }
}

pub fn next_occupant_generation(generation: u64) -> (r: u64)
    ensures
        r == next_occupant(generation),
{
    if generation == u64::MAX {
        u64::MAX
    } else {
        generation + 1
    }
}

/// The record of the replacement: it takes over the source's origin, labels,
/// title, pin and group, and starts with nothing read, written or archived.
pub open spec fn replacement_record(
    source: SavedAppAttachedSession,
    plan: ResumePlan,
    paths: DurableSessionPaths,
    position: u64,
    now: u64,
) -> SavedAppAttachedSession {
    SavedAppAttachedSession {
        id: plan.replacement_session_id,
        route: SessionLaunchRoute::DurableHost,
        origin: source.origin,
        state: HostedSessionState::Provisioning,
        project_label: source.project_label,
        preset_label: source.preset_label,
        title: source.title,
        title_source: if source.title_source == TitleSource::Manual {
            TitleSource::Manual
        } else {
            TitleSource::Imported
        },
        activity: domain::unknown_activity(next_occupant(plan.prior_generation)),
        pinned: source.pinned,
        read_through_sequence: 0,
        unread_sequence: None,
        archived_at: None,
        revision: 0,
        durable_host: Some(
            SavedDurableHost {
                runtime_root: paths.runtime_root,
                session_dir: paths.session_dir,
                working_directory: Some(plan.working_directory),
                last_sequence: 0,
                durable_sequence: 0,
                runtime_recognition: None,
                conversation_handle: Some(plan.handle),
                executable: Some(plan.executable),
                permission_policy: plan.permission_policy,
                continuity_source_id: None,
            },
        ),
        group_id: source.group_id,
        position,
        started_at: now,
        updated_at: now,
    }
}

/// The record under which the replacement of a reviewed resume is kept: at the
/// end of the list in which the source stands.
pub fn resume_record(
    saved: &SavedState,
    source: &SavedAppAttachedSession,
    plan: &ResumePlan,
    paths: &DurableSessionPaths,
    now: u64,
) -> (r: SavedAppAttachedSession)
    ensures
        r == replacement_record(
            *source,
            *plan,
            *paths,
            saved_state::next_position(
                saved.app_attached_sessions@,
                source.origin.project_id,
                source.group_id,
            ),
            now,
        ),
{
    let position: u64 = saved.next_app_attached_session_position(
        source.origin.project_id,
        source.group_id,
    );
    SavedAppAttachedSession {
        id: plan.replacement_session_id,
        route: SessionLaunchRoute::DurableHost,
        origin: source.origin,
        state: HostedSessionState::Provisioning,
        project_label: source.project_label.clone(),
        preset_label: source.preset_label.clone(),
        title: source.title.clone(),
        title_source: if source.title_source == TitleSource::Manual {
            TitleSource::Manual
        } else {
            TitleSource::Imported
        },
        activity: ActivityAggregate {
            state: ActivityState::Unknown,
            confidence: ActivityConfidence::Estimated,
            stale: false,
            generation: next_occupant_generation(plan.prior_generation),
            effective_sequence: 0,
            attention_sequence: None,
            source: 0,
        },
        pinned: source.pinned,
        read_through_sequence: 0,
        unread_sequence: None,
        archived_at: None,
        revision: 0,
        durable_host: Some(
            SavedDurableHost {
                runtime_root: paths.runtime_root.clone(),
                session_dir: paths.session_dir.clone(),
                working_directory: Some(plan.working_directory.clone()),
                last_sequence: 0,
                durable_sequence: 0,
                runtime_recognition: None,
                conversation_handle: Some(plan.handle.clone()),
                executable: Some(plan.executable.clone()),
                permission_policy: plan.permission_policy,
                continuity_source_id: None,
            },
        ),
        group_id: source.group_id,
        position,
        started_at: now,
        updated_at: now,
    }
}

/// The link from the source to its replacement, one generation on.
pub open spec fn link_of(state: SessionResumeState, plan: ResumePlan, committed_at: u64) -> ContinuityLink {
    ContinuityLink {
        command_id: state.command_id,
        source_session_id: state.source_session_id,
        replacement_session_id: plan.replacement_session_id,
        runtime_id: plan.runtime_id,
        prior_generation: plan.prior_generation,
        replacement_generation: next_occupant(plan.prior_generation),
        committed_at,
    }
}

pub fn resume_link(state: &SessionResumeState, plan: &ResumePlan, committed_at: u64) -> (r:
    ContinuityLink)
    ensures
        r == link_of(*state, *plan, committed_at),
{
    ContinuityLink {
        command_id: state.command_id,
        source_session_id: state.source_session_id,
        replacement_session_id: plan.replacement_session_id,
        runtime_id: plan.runtime_id.clone(),
        prior_generation: plan.prior_generation,
        replacement_generation: next_occupant_generation(plan.prior_generation),
        committed_at,
    }
}

/// What the launch announces of the runtime that is resumed.
pub open spec fn announced(plan: ResumePlan) -> RuntimeDetectionResult {
    RuntimeDetectionResult {
        runtime_id: plan.runtime_id,
        descriptor_version: 1,
        status: RuntimeDetectionStatus::Available,
        fingerprint: Some(plan.executable_fingerprint),
        safe_version: Some("0.150.1"),
        capabilities: RuntimeCapabilitySet {
            interactive_pty: true,
            structured_events: false,
            approval_requests: false,
            cancellation: true,
            context_handoff: false,
            remote_launch: false,
            resume: true,
            transcript_export: false,
        },
    }
}

pub fn resume_detection(plan: &ResumePlan) -> (r: RuntimeDetectionResult)
    ensures
        r == announced(*plan),
{
    RuntimeDetectionResult {
        runtime_id: plan.runtime_id.clone(),
        descriptor_version: 1,
        status: RuntimeDetectionStatus::Available,
        fingerprint: Some(plan.executable_fingerprint),
        safe_version: Some("0.150.1"),
        capabilities: RuntimeCapabilitySet {
            interactive_pty: true,
            structured_events: false,
            approval_requests: false,
            cancellation: true,
            context_handoff: false,
            remote_launch: false,
            resume: true,
            transcript_export: false,
        },
    }
}

/// What the replacement is started with.
#[derive(Debug)]
pub struct ResumeStart {
    pub request: SessionStartRequest,
    pub workspace_title: Text,
    pub attached: AppAttachedPaneState,
    pub pane_status: MessageId,
}

/// The start is that of the plan: its program in its directory, one generation
/// on, and committed as the continuation of the source.
pub open spec fn is_start_of(
    start: ResumeStart,
    state: SessionResumeState,
    plan: ResumePlan,
    source: SavedAppAttachedSession,
    pane_id: u64,
    paths: DurableSessionPaths,
    store_root: String,
    continuity_revision: u64,
    committed_at: u64,
) -> bool {
    let spec = start.request.spec_of();
    &&& spec.pane_id == pane_id
    &&& spec.session_id == plan.replacement_session_id
    &&& spec.paths == paths
    &&& spec.launch matches Some(launch) && {
        &&& launch.executable == plan.executable
        &&& launch.arguments@ == plan.arguments@
        &&& launch.cwd == plan.working_directory
        &&& launch.runtime_detection == Some(announced(plan))
    }
    &&& spec.from_sequence == 0
    &&& spec.expected_occupant_generation == Some(next_occupant(plan.prior_generation))
    &&& spec.continuity == Some(
        DurableContinuityCommit {
            store_root,
            expected_revision: continuity_revision,
            link: link_of(state, plan, committed_at),
        },
    )
    &&& start.workspace_title == Text::Filled(
        MessageId::SessionResumeWorkspaceTitle,
        Atom::Value(source.title),
    )
    &&& start.attached == (AppAttachedPaneState {
        hosted_session_id: plan.replacement_session_id,
        route: SessionLaunchRoute::DurableHost,
        origin: source.origin,
        pending_initial_input: None,
        cancel_requested: false,
        last_sequence: 0,
        has_writer_lease: false,
    })
    &&& start.pane_status == MessageId::SessionResumePhaseStarting
}

/// Puts together what the replacement is started with.
pub fn start_session_resume(
    state: &SessionResumeState,
    plan: &ResumePlan,
    source: &SavedAppAttachedSession,
    pane_id: u64,
    paths: DurableSessionPaths,
    store_root: String,
    continuity_revision: u64,
    committed_at: u64,
) -> (r: ResumeStart)
    ensures
        is_start_of(
            r,
            *state,
            *plan,
            *source,
            pane_id,
            paths,
            store_root,
            continuity_revision,
            committed_at,
        ),
{
    let launch: DurableLaunch = DurableLaunch {
        executable: plan.executable.clone(),
        arguments: duplicate_list(&plan.arguments),
        cwd: plan.working_directory.clone(),
        runtime_detection: Some(resume_detection(plan)),
    };
    let request: SessionStartRequest = SessionStartRequest::launch(
        pane_id,
        plan.replacement_session_id,
        paths,
        launch,
        Some(next_occupant_generation(plan.prior_generation)),
        Some(
            DurableContinuityCommit {
                store_root,
                expected_revision: continuity_revision,
                link: resume_link(state, plan, committed_at),
            },
        ),
    );
    ResumeStart {
        request,
        workspace_title: Text::Filled(
            MessageId::SessionResumeWorkspaceTitle,
            Atom::Value(source.title.clone()),
        ),
        attached: AppAttachedPaneState {
            hosted_session_id: plan.replacement_session_id,
            route: SessionLaunchRoute::DurableHost,
            origin: source.origin,
            pending_initial_input: None,
            cancel_requested: false,
            last_sequence: 0,
            has_writer_lease: false,
        },
        pane_status: MessageId::SessionResumePhaseStarting,
    }
}

/// Where conversations are kept: below the runtime's own directory, or below the
/// one in the user's home.
pub open spec fn conversation_root(codex_home: Option<String>, home: Option<String>) -> Option<
    Seq<char>,
> {
    match codex_home {
        Some(root) => Some(text::path_below(root@, "sessions"@)),
        None => match home {
            Some(root) => Some(
                text::path_below(text::path_below(root@, ".codex"@), "sessions"@),
            ),
            None => None,
        },
    }
}

pub fn codex_conversation_root(codex_home: &Option<String>, home: &Option<String>) -> (r: Option<
    String,
>)
    ensures
        match r {
            Some(root) => conversation_root(*codex_home, *home) == Some(root@),
            None => conversation_root(*codex_home, *home) is None,
        },
{
    match codex_home {
        Some(root) => Some(text::join_path(root.as_str(), "sessions")),
        None => match home {
            Some(root) => {
                let runtime: String = text::join_path(root.as_str(), ".codex");
                Some(text::join_path(runtime.as_str(), "sessions"))
            },
            None => None,
        },
    }
}

/// Gives a resume up. Where its replacement has already been started, the pane
/// that is to be disconnected is named.
pub fn cancel_session_resume(
    resume: &mut Option<SessionResumeState>,
    notices: &mut Notices,
) -> (disconnect: Option<u64>)
    ensures
        *final(resume) is None,
        disconnect == match *old(resume) {
            Some(state) if state.phase is Starting => state.spawned_pane_id,
            _ => None,
        },
        *final(notices) == if *old(resume) is Some {
            ui::informed(*old(notices), Text::Message(MessageId::SessionResumeCancelled))
        } else {
            *old(notices)
        },
        disconnect is Some ==> (*old(resume) matches Some(state) && state.phase is Starting
            && disconnect == state.spawned_pane_id),
{
    match resume.take() {
        None => None,
        Some(state) => {
            notices.inform(Text::Message(MessageId::SessionResumeCancelled));
            if state.phase == SessionResumePhase::Starting {
                state.spawned_pane_id
            } else {
                None
            }
        },
    }
}

/// Ends the resume whose replacement has become ready, if there is one, and
/// notes in the replacement's record where it comes from.
pub fn complete_session_resume_ready(
    resume: &mut Option<SessionResumeState>,
    saved: &mut SavedState,
    session_id: HostedSessionId,
    notices: &mut Notices,
) -> (completed: bool)
    ensures
        completed == (*old(resume) matches Some(state) && state.replacement_session_id
            == session_id),
        completed ==> {
            &&& *final(resume) is None
            &&& final(saved).app_attached_sessions@ == changed_record(
                old(saved).app_attached_sessions@,
                session_id,
                |r: SavedAppAttachedSession| with_source(r, old(resume)->0.source_session_id),
            )
            &&& *final(notices) == ui::informed(
                *old(notices),
                Text::Message(MessageId::SessionResumeReady),
            )
        },
        !completed ==> {
            &&& *final(resume) == *old(resume)
            &&& final(saved).app_attached_sessions@ == old(saved).app_attached_sessions@
            &&& *final(notices) == *old(notices)
        },
{
    let source: Option<HostedSessionId> = match resume {
        Some(state) => {
            if state.replacement_session_id == session_id {
                Some(state.source_session_id)
            } else {
                None
            }
        },
        None => None,
    };
    match source {
        None => false,
        Some(source_id) => {
            remember_source(saved, session_id, source_id);
            *resume = None;
            notices.inform(Text::Message(MessageId::SessionResumeReady));
            true
        },
    }
}

/// A resume that is only being validated or has failed can never be started.
pub proof fn law_only_reviewed_resumes_start(state: SessionResumeState, plan: ResumePlan)
    ensures
        state.reviewed_with(plan).phase is Review && state.reviewed_with(plan).plan == Some(plan),
        forall|error: ResumeError| !(#[trigger] state.failed_with(error).phase is Review),
{
}

#[derive(Clone, Copy, Debug, PartialEq, Eq, Structural)]
pub enum ResumeAction {
    Cancel,
    Start,
}

#[derive(Debug)]
pub struct ReviewRow {
    pub label: MessageId,
    pub value: Text,
}

/// What the resume sheet shows.
#[derive(Debug)]
pub struct ResumeSheetView {
    pub title: MessageId,
    pub phase: MessageId,
    pub notice: MessageId,
    pub close: ButtonView<ResumeAction>,
    pub rows: Vec<ReviewRow>,
    pub error: Option<MessageId>,
    pub cancel: ButtonView<ResumeAction>,
    pub confirm: ButtonView<ResumeAction>,
}

pub open spec fn busy_phase(phase: SessionResumePhase) -> bool {
    phase is Validating || phase is Starting
}

pub open spec fn phase_message(phase: SessionResumePhase) -> MessageId {
    match phase {
        SessionResumePhase::Validating => MessageId::SessionResumePhaseValidating,
        SessionResumePhase::Review => MessageId::SessionResumePhaseReview,
        SessionResumePhase::Starting => MessageId::SessionResumePhaseStarting,
        SessionResumePhase::Failed => MessageId::SessionResumePhaseFailed,
    }
}

/// The rows of the sheet: source and project, and of a plan the provider, the
/// conversation, the last part of the directory and the permission.
pub open spec fn sheet_rows(rows: Seq<ReviewRow>, state: SessionResumeState) -> bool {
    &&& rows.len() == if state.plan is Some {
        6nat
    } else {
        2nat
    }
    &&& rows[0] == (ReviewRow {
        label: MessageId::SessionResumeSourceField,
        value: Text::Value(state.source_title),
    })
    &&& rows[1] == (ReviewRow {
        label: MessageId::NewSessionProjectField,
        value: Text::Value(state.project_label),
    })
    &&& state.plan matches Some(plan) ==> {
        &&& rows[2] == (ReviewRow {
            label: MessageId::SessionResumeProviderField,
            value: Text::Filled(
                MessageId::SessionResumeProviderValue,
                Atom::Literal("0.150.1"),
            ),
        })
        &&& rows[3] == (ReviewRow {
            label: MessageId::SessionResumeConversationField,
            value: Text::Value(plan.safe_conversation_label),
        })
        &&& rows[4].label == MessageId::NewSessionWorkingDirectoryField
        &&& rows[4].value matches Text::Value(name)
        &&& name@ == match text::file_name(plan.working_directory@) {
            Some(last) => last,
            None => plan.working_directory@,
        }
        &&& rows[5] == (ReviewRow {
            label: MessageId::PresetPermissionField,
            value: Text::Message(permission_message(plan.permission_policy)),
        })
    }
}

/// The resume sheet: it can be closed while nothing runs, and started only from
/// the review.
pub fn session_resume_sheet(state: &SessionResumeState) -> (r: ResumeSheetView)
    ensures
        r.title == MessageId::SessionResumeTitle,
        r.phase == phase_message(state.phase),
        r.notice == MessageId::SessionResumeNotice,
        r.close == ui::disabled_if(
            ui::plain_button(
                "session-resume-close",
                0,
                Text::Literal(""),
                Some(Icon::Close),
                Emphasis::Plain,
                ResumeAction::Cancel,
            ),
            busy_phase(state.phase),
        ),
        sheet_rows(r.rows@, *state),
        r.error == match state.error {
            Some(error) => Some(resume_message(error)),
            None => None,
        },
        r.cancel == ui::plain_button(
            "session-resume-cancel",
            0,
            Text::Message(MessageId::CommonCancel),
            None,
            Emphasis::Plain,
            ResumeAction::Cancel,
        ),
        r.confirm == ui::disabled_if(
            ui::plain_button(
                "session-resume-confirm",
                0,
                Text::Message(MessageId::SessionResumeConfirmAction),
                Some(
                    if busy_phase(state.phase) {
                        Icon::LoaderCircle
                    } else {
                        Icon::SquareTerminal
                    },
                ),
                Emphasis::Primary,
                ResumeAction::Start,
            ),
            !(state.phase is Review),
        ),
        !r.confirm.disabled <==> state.phase == SessionResumePhase::Review,
        r.confirm.action is Start && r.cancel.action is Cancel && r.close.action is Cancel,
        r.error is Some <==> state.error is Some,
{
    let busy: bool = state.phase == SessionResumePhase::Validating || state.phase
        == SessionResumePhase::Starting;
    let mut rows: Vec<ReviewRow> = Vec::new();
    rows.push(
        ReviewRow {
            label: MessageId::SessionResumeSourceField,
            value: Text::Value(state.source_title.clone()),
        },
    );
    rows.push(
        ReviewRow {
            label: MessageId::NewSessionProjectField,
            value: Text::Value(state.project_label.clone()),
        },
    );
    match &state.plan {
        None => {},
        Some(plan) => {
            rows.push(
                ReviewRow {
                    label: MessageId::SessionResumeProviderField,
                    value: Text::Filled(
                MessageId::SessionResumeProviderValue,
                Atom::Literal("0.150.1"),
            ),
                },
            );
            rows.push(
                ReviewRow {
                    label: MessageId::SessionResumeConversationField,
                    value: Text::Value(plan.safe_conversation_label.clone()),
                },
            );
            rows.push(
                ReviewRow {
                    label: MessageId::NewSessionWorkingDirectoryField,
                    value: Text::Value(basename_or_path(plan.working_directory.as_str())),
                },
            );
            rows.push(
                ReviewRow {
                    label: MessageId::PresetPermissionField,
                    value: Text::Message(resume_permission_label(plan.permission_policy)),
                },
            );
        },
    }
    ResumeSheetView {
        title: MessageId::SessionResumeTitle,
        phase: match state.phase {
            SessionResumePhase::Validating => MessageId::SessionResumePhaseValidating,
            SessionResumePhase::Review => MessageId::SessionResumePhaseReview,
            SessionResumePhase::Starting => MessageId::SessionResumePhaseStarting,
            SessionResumePhase::Failed => MessageId::SessionResumePhaseFailed,
        },
        notice: MessageId::SessionResumeNotice,
        close: ui::button(
            "session-resume-close",
            0,
            Text::Literal(""),
            Some(Icon::Close),
            Emphasis::Plain,
            ResumeAction::Cancel,
        ).with_disabled(busy),
        rows,
        error: match state.error {
            Some(error) => Some(resume_error_message(error)),
            None => None,
        },
        cancel: ui::button(
            "session-resume-cancel",
            0,
            Text::Message(MessageId::CommonCancel),
            None,
            Emphasis::Plain,
            ResumeAction::Cancel,
        ),
        confirm: ui::button(
            "session-resume-confirm",
            0,
            Text::Message(MessageId::SessionResumeConfirmAction),
            Some(
                if busy {
                    Icon::LoaderCircle
                } else {
                    Icon::SquareTerminal
                },
            ),
            Emphasis::Primary,
            ResumeAction::Start,
        ).with_disabled(state.phase != SessionResumePhase::Review),
    }
}

/// Resuming is offered for sessions of the one program that can be resumed and for
/// no others. It is enabled where the evaluation allows it, or found nothing but
/// that the conversation is still to be looked for; else the evaluation's reason is
/// given.
pub proof fn law_resuming_is_offered_as_evaluated(
    record: SavedAppAttachedSession,
    evaluation: Result<(), ResumeError>,
)
    ensures
        ({
            let offer = resume_offer(record, evaluation);
            let runs_it = {
                &&& record.durable_host matches Some(host)
                &&& host.runtime_recognition matches Some(recognition)
                &&& recognition.occupant matches Some(occupant)
                &&& occupant.runtime_id@ == "codex"@
            };
            &&& offer.visible <==> runs_it
            &&& offer.enabled <==> runs_it && (evaluation is Ok || evaluation == Err::<
                (),
                ResumeError,
            >(ResumeError::ConversationMissing))
            &&& offer.reason matches Some(error) ==> evaluation == Err::<(), ResumeError>(error)
        }),
{
}

/// An evaluation names the session of the record, the occupant that was recognized
/// there and the revision that the library knows.
pub proof fn law_evaluations_name_what_was_last_seen(
    record: SavedAppAttachedSession,
    metadata: HostedSession,
    command_id: u128,
    evaluation: Result<(), ResumeError>,
)
    ensures
        evaluation_of(record, metadata, command_id) is Some <==> resume_offer(
            record,
            evaluation,
        ).visible,
        evaluation_of(record, metadata, command_id) matches Some(request) ==> {
            &&& request.command_id == command_id
            &&& request.session_id == record.id
            &&& request.expected_revision == metadata.revision
            &&& record.durable_host matches Some(host)
            &&& request.handle == host.conversation_handle
            &&& host.runtime_recognition == Some(request.recognition)
            &&& request.recognition.occupant matches Some(occupant)
            &&& request.expected_generation == occupant.generation
        },
{
}

/// A resume opens exactly where no sheet is open, the session is known and saved,
/// and its host says which program runs there, in which directory and from which
/// file, once it is known where conversations are kept.
pub proof fn law_resumes_open_with_all_they_need(
    sheet_open: bool,
    metadata: Option<HostedSession>,
    source: Option<SavedAppAttachedSession>,
    root_known: bool,
)
    ensures
        ({
            let refusal = resume_refusal(sheet_open, metadata, source, root_known);
            &&& refusal is None <==> {
                &&& !sheet_open
                &&& root_known
                &&& metadata is Some
                &&& source matches Some(record)
                &&& record.durable_host matches Some(host)
                &&& host.working_directory is Some
                &&& host.executable is Some
                &&& host.runtime_recognition matches Some(recognition)
                &&& recognition.occupant is Some
            }
            &&& refusal matches Some(reason) ==> (reason.message is None <==> sheet_open)
            &&& refusal matches Some(reason) ==> !sheet_open ==> {
                &&& reason.message == Some(MessageId::SessionLibraryOperationFailed)
                    <==> metadata is None || source is None
                &&& reason.message == Some(MessageId::SessionResumeErrorMissing) ==> !root_known
                &&& reason.message == Some(MessageId::SessionResumeErrorMalformed)
                    ==> source->0.durable_host->0.working_directory is None
                &&& reason.message == Some(MessageId::SessionResumeErrorProvider)
                    ==> source->0.durable_host->0.executable is None
            }
        }),
{
}

/// A resume that opens is one of the session that was asked for: its validation
/// names the revision, the occupant, the conversation, the directory, the program
/// and the permissions that are known of it, and looks for conversations from
/// shortly before its start.
pub proof fn law_an_opened_resume_validates_its_session(
    metadata: HostedSession,
    source: SavedAppAttachedSession,
    command_id: u128,
    replacement: HostedSessionId,
)
    requires
        resume_refusal(false, Some(metadata), Some(source), true) is None,
    ensures
        ({
            let (state, job) = opened_resume(metadata, source, command_id, replacement);
            let host = source.durable_host->0;
            &&& state.source_session_id == metadata.id
            &&& state.replacement_session_id == replacement
            &&& state.command_id == command_id && job.command_id == command_id
            &&& state.phase is Validating
            &&& state.plan is None && state.error is None && state.spawned_pane_id is None
            &&& state.source_title == source.title
            &&& state.project_label == source.project_label
            &&& job.session_id == metadata.id
            &&& job.expected_revision == metadata.revision
            &&& Some(job.expected_generation) == match host.runtime_recognition->0.occupant {
                Some(occupant) => Some(occupant.generation),
                None => None,
            }
            &&& job.handle == host.conversation_handle
            &&& job.project_id == source.origin.project_id
            &&& Some(job.working_directory) == host.working_directory
            &&& Some(job.executable) == host.executable
            &&& job.permission_policy == host.permission_policy
            &&& job.not_before_millis <= source.started_at
            &&& source.started_at >= 5_000 ==> source.started_at - job.not_before_millis == 5_000
            &&& source.started_at < 5_000 ==> job.not_before_millis == 0
        }),
{
}

/// The session that replaces a resumed one continues its conversation, in its
/// place: with its origin, labels, title, pin and group, the conversation, program,
/// directory and permissions of the plan, and nothing read or archived yet.
pub proof fn law_a_replacement_continues_its_source(
    source: SavedAppAttachedSession,
    plan: ResumePlan,
    paths: DurableSessionPaths,
    position: u64,
    now: u64,
)
    ensures
        ({
            let record = replacement_record(source, plan, paths, position, now);
            &&& record.id == plan.replacement_session_id
            &&& record.route == SessionLaunchRoute::DurableHost
            &&& record.origin == source.origin
            &&& record.state is Provisioning
            &&& record.project_label == source.project_label
            &&& record.preset_label == source.preset_label
            &&& record.title == source.title
            &&& record.title_source is Manual <==> source.title_source is Manual
            &&& record.title_source is Manual || record.title_source is Imported
            &&& record.pinned == source.pinned
            &&& record.group_id == source.group_id
            &&& record.position == position
            &&& record.archived_at is None && record.unread_sequence is None
            &&& record.started_at == now && record.updated_at == now
            &&& record.durable_host matches Some(host)
            &&& host.runtime_root == paths.runtime_root
            &&& host.session_dir == paths.session_dir
            &&& host.conversation_handle == Some(plan.handle)
            &&& host.working_directory == Some(plan.working_directory)
            &&& host.executable == Some(plan.executable)
            &&& host.permission_policy == plan.permission_policy
        }),
{
}

/// A started resume runs the reviewed program on the reviewed conversation, as the
/// occupant that follows the one before it, and links the replacement to its
/// source.
pub proof fn law_a_started_resume_runs_its_plan(
    start: ResumeStart,
    state: SessionResumeState,
    plan: ResumePlan,
    source: SavedAppAttachedSession,
    pane_id: u64,
    paths: DurableSessionPaths,
    store_root: String,
    continuity_revision: u64,
    committed_at: u64,
)
    requires
        is_start_of(
            start,
            state,
            plan,
            source,
            pane_id,
            paths,
            store_root,
            continuity_revision,
            committed_at,
        ),
    ensures
        ({
            let spec = start.request.spec_of();
            &&& spec.pane_id == pane_id
            &&& spec.session_id == plan.replacement_session_id
            &&& spec.launch->0.executable == plan.executable
            &&& spec.launch->0.arguments@ == plan.arguments@
            &&& spec.launch->0.cwd == plan.working_directory
            &&& plan.prior_generation < u64::MAX ==> spec.expected_occupant_generation == Some(
                (plan.prior_generation + 1) as u64,
            )
            &&& spec.continuity matches Some(commit)
            &&& commit.store_root == store_root
            &&& commit.expected_revision == continuity_revision
            &&& commit.link.source_session_id == state.source_session_id
            &&& commit.link.replacement_session_id == plan.replacement_session_id
            &&& commit.link.command_id == state.command_id
            &&& commit.link.runtime_id == plan.runtime_id
            &&& commit.link.prior_generation == plan.prior_generation
            &&& commit.link.committed_at == committed_at
            &&& start.attached.hosted_session_id == plan.replacement_session_id
            &&& start.attached.origin == source.origin
        }),
{
}

/// What is remembered of a session changes its record only: a found conversation
/// its handle, a completed resume its source.
pub proof fn law_remembering_changes_one_record(
    records: Seq<SavedAppAttachedSession>,
    id: HostedSessionId,
    handle: String,
    source: HostedSessionId,
    at: int,
)
    requires
        saved_state::distinct_records(records),
        0 <= at < records.len(),
    ensures
        ({
            let found = changed_record(
                records,
                id,
                |r: SavedAppAttachedSession| with_handle(r, handle),
            );
            let linked = changed_record(
                records,
                id,
                |r: SavedAppAttachedSession| with_source(r, source),
            );
            &&& found.len() == records.len() && linked.len() == records.len()
            &&& records[at].id != id ==> found[at] == records[at] && linked[at] == records[at]
            &&& records[at].id == id ==> (records[at].durable_host matches Some(host) ==> {
                &&& found[at].durable_host matches Some(now)
                &&& now.conversation_handle == Some(handle)
                &&& now.continuity_source_id == host.continuity_source_id
                &&& linked[at].durable_host matches Some(later)
                &&& later.continuity_source_id == Some(source)
                &&& later.conversation_handle == host.conversation_handle
            })
        }),
{
    lists::lemma_first_index_bounds(records, saved_state::is_record(id));
    let i = lists::first_index(records, saved_state::is_record(id));
    if records[at].id == id {
        if i < at {
            assert(records[i].id == records[at].id);
        } else if i > at {
            assert(!(saved_state::is_record(id))(records[at]));
        }
    }
}

/// Conversations are kept below the directory that was set for them, and only
/// where none was set below the home directory.
pub proof fn law_conversations_are_kept_where_set(set: Option<String>, home: Option<String>)
    ensures
        conversation_root(set, home) is None <==> set is None && home is None,
        set matches Some(root) ==> conversation_root(set, home) == Some(
            text::path_below(root@, "sessions"@),
        ),
        set is None ==> (home matches Some(root) ==> conversation_root(set, home) == Some(
            text::path_below(text::path_below(root@, ".codex"@), "sessions"@),
        )),
{
}

/// Every reason against a resume is told by a message of its own, but for the two
/// ways of being out of date, which are told alike.
pub proof fn law_resume_errors_are_told_apart(a: ResumeError, b: ResumeError)
    ensures
        resume_message(a) == resume_message(b) <==> a == b || {
            &&& a is StaleOccupant || a is StaleRevision
            &&& b is StaleOccupant || b is StaleRevision
        },
        resume_message(a) == MessageId::SessionResumeErrorStillRunning <==> a is StillRunning,
        resume_message(a) == MessageId::SessionResumeErrorOwnership <==> a is OwnershipUnproven,
        resume_message(a) == MessageId::SessionResumeErrorUnsupported <==> a is UnsupportedVersion,
        resume_message(a) == MessageId::SessionResumeErrorMissing <==> a is ConversationMissing,
        resume_message(a) == MessageId::SessionResumeErrorMalformed
            <==> a is ConversationMalformed,
        resume_message(a) == MessageId::SessionResumeErrorPermission <==> a is PermissionDenied,
        resume_message(a) == MessageId::SessionResumeErrorProvider <==> a is ProviderUnavailable,
        resume_message(a) == MessageId::SessionResumeErrorLimit <==> a is ResourceLimit,
        resume_message(a) == MessageId::SessionResumeCancelled <==> a is Cancelled,
        resume_message(a) == MessageId::SessionResumeErrorConflict <==> a is ContinuityConflict,
        resume_message(a) == MessageId::SessionResumeErrorStale <==> a is StaleOccupant
            || a is StaleRevision,
{
}

/// Each phase of a resume is told in words of its own.
pub proof fn law_each_resume_phase_has_its_words(phase: SessionResumePhase)
    ensures
        phase_message(phase) == MessageId::SessionResumePhaseValidating <==> phase is Validating,
        phase_message(phase) == MessageId::SessionResumePhaseReview <==> phase is Review,
        phase_message(phase) == MessageId::SessionResumePhaseStarting <==> phase is Starting,
        phase_message(phase) == MessageId::SessionResumePhaseFailed <==> phase is Failed,
{
}

/// Each policy is told in words of its own.
pub proof fn law_each_permission_has_its_words(policy: PermissionPolicy)
    ensures
        permission_message(policy) == MessageId::PresetPermissionAsk <==> policy is AskAsNeeded,
        permission_message(policy) == MessageId::PresetPermissionReadOnly <==> policy is ReadOnly,
        permission_message(policy) == MessageId::PresetPermissionWorkspaceWrite <==> policy is WorkspaceWrite,
{
}

/// A resumed program is announced as available, by the plan's identity and
/// fingerprint, interactive, cancellable and resumable and nothing more.
pub proof fn law_a_resumed_program_is_announced_as_planned(plan: ResumePlan)
    ensures
        ({
            let told = announced(plan);
            &&& told.runtime_id == plan.runtime_id
            &&& told.fingerprint == Some(plan.executable_fingerprint)
            &&& told.status is Available
            &&& told.descriptor_version == 1
            &&& told.capabilities.interactive_pty && told.capabilities.cancellation
                && told.capabilities.resume
            &&& !told.capabilities.structured_events && !told.capabilities.approval_requests
                && !told.capabilities.context_handoff && !told.capabilities.remote_launch
                && !told.capabilities.transcript_export
        }),
{
}

/// The replacement's occupant follows the one before it, as far as that can be
/// counted.
pub proof fn law_occupants_follow_one_another(
    state: SessionResumeState,
    plan: ResumePlan,
    committed_at: u64,
)
    ensures
        plan.prior_generation < u64::MAX ==> link_of(state, plan, committed_at).replacement_generation
            == plan.prior_generation + 1,
        plan.prior_generation == u64::MAX ==> link_of(
            state,
            plan,
            committed_at,
        ).replacement_generation == u64::MAX,
        link_of(state, plan, committed_at).prior_generation == plan.prior_generation,
{
}

/// The sheet names the session and its project, and once there is a plan, what
/// it would run: the conversation, the last part of the directory, the policy.
pub proof fn law_the_resume_sheet_shows_its_plan(rows: Seq<ReviewRow>, state: SessionResumeState)
    requires
        sheet_rows(rows, state),
    ensures
        rows[0].value == Text::Value(state.source_title),
        rows[1].value == Text::Value(state.project_label),
        rows[0].label == MessageId::SessionResumeSourceField,
        rows[1].label == MessageId::NewSessionProjectField,
        state.plan is None <==> rows.len() == 2,
        state.plan matches Some(plan) ==> ({
            &&& rows.len() == 6
            &&& rows[3].value == Text::Value(plan.safe_conversation_label)
            &&& rows[5].value == Text::Message(MessageId::PresetPermissionReadOnly)
                <==> plan.permission_policy is ReadOnly
            &&& rows[5].value == Text::Message(MessageId::PresetPermissionAsk)
                <==> plan.permission_policy is AskAsNeeded
            &&& rows[4].value matches Text::Value(name) && (!plan.working_directory@.contains('/')
                || plan.working_directory@ == name@ || text::file_name(plan.working_directory@)
                == Some(name@))
        }),
        busy_phase(state.phase) <==> state.phase is Validating || state.phase is Starting,
{
}

/// The rows of the resume sheet are labelled by what they show.
pub proof fn law_resume_rows_are_labelled(rows: Seq<ReviewRow>, state: SessionResumeState)
    requires
        sheet_rows(rows, state),
        state.plan is Some,
    ensures
        rows[2].label == MessageId::SessionResumeProviderField,
        rows[2].value matches Text::Filled(MessageId::SessionResumeProviderValue, _),
        rows[3].label == MessageId::SessionResumeConversationField,
        rows[4].label == MessageId::NewSessionWorkingDirectoryField,
        rows[5].label == MessageId::PresetPermissionField,
{
}

} // verus!
