use termirust_console::domain::{
    ActivityAggregate, ActivityConfidence, ActivityState, HostedSession, HostedSessionState,
    OccupantOwnership, PermissionPolicy, RecognitionConfidence, ResumeError, RuntimeCapabilitySet,
    RuntimeOccupant, RuntimeRecognition, SessionLaunchRoute, SessionOrigin, SessionStateError,
    StoreError, StoreHealth, TitleSource,
};
use termirust_console::ids::{GroupId, HostedSessionId, PresetId, ProjectId};
use termirust_console::saved_state::{SavedAppAttachedSession, SavedDurableHost, SavedState};
use termirust_console::session_library::{
    classify_store_failure, MutationRequest, RemovalManifest, SessionLibraryFailure,
    SessionLibraryFilter, SessionLibraryLoadState, SessionLibraryRecovery, SessionLibraryState,
    SessionLibraryView, SessionMutation, SessionRemovalPlan, SessionSnapshot, StoreOpening,
};
use termirust_console::session_resume::{
    resume_evaluation, session_resume_projection, ResumeEvaluation, SessionResumeProjection,
};

fn session_id(value: u128) -> HostedSessionId {
    HostedSessionId { value }
}

fn durable_host() -> SavedDurableHost {
    SavedDurableHost {
        runtime_root: String::new(),
        session_dir: String::new(),
        working_directory: None,
        last_sequence: 0,
        durable_sequence: 0,
        runtime_recognition: None,
        conversation_handle: None,
        executable: None,
        permission_policy: PermissionPolicy::AskAsNeeded,
        continuity_source_id: None,
    }
}

fn record(id: u128, project: u128, state: HostedSessionState) -> SavedAppAttachedSession {
    SavedAppAttachedSession {
        id: session_id(id),
        route: SessionLaunchRoute::DurableHost,
        origin: SessionOrigin {
            project_id: ProjectId { value: project },
            preset_id: PresetId { value: 900 },
        },
        state,
        project_label: "Project".to_string(),
        preset_label: "Codex".to_string(),
        title: "Investigate parser".to_string(),
        title_source: TitleSource::Manual,
        activity: ActivityAggregate::default(),
        pinned: false,
        read_through_sequence: 0,
        unread_sequence: None,
        archived_at: None,
        revision: 0,
        durable_host: Some(durable_host()),
        group_id: None,
        position: 0,
        started_at: 1,
        updated_at: 1,
    }
}

/// A session store in memory.
struct MemoryStore {
    sessions: Vec<HostedSession>,
    revision: u64,
}

impl MemoryStore {
    fn new() -> Self {
        MemoryStore { sessions: Vec::new(), revision: 0 }
    }

    fn snapshot(&self) -> Result<SessionSnapshot, StoreError> {
        Ok(SessionSnapshot {
            revision: self.revision,
            sessions: self.sessions.iter().map(|session| session.duplicate()).collect(),
            health: StoreHealth::Healthy,
            read_only: false,
        })
    }

    fn create(&mut self, record: &SavedAppAttachedSession) -> Result<HostedSession, StoreError> {
        self.revision += 1;
        let live = matches!(
            record.state,
            HostedSessionState::Live | HostedSessionState::RunningAppAttached
        );
        let session = HostedSession {
            id: record.id,
            project_id: record.origin.project_id,
            group_id: record.group_id,
            position: record.position,
            title: record.title.clone(),
            title_source: record.title_source,
            lifecycle: record.state,
            can_stop: live,
            exited: record.state == HostedSessionState::Exited,
            removable: !live,
            activity: record.activity,
            pinned: record.pinned,
            unread: record.unread_sequence.is_some(),
            read_through_sequence: record.read_through_sequence,
            unread_sequence: record.unread_sequence,
            last_output_sequence: 0,
            archived_at: record.archived_at,
            revision: self.revision,
        };
        self.sessions.push(session.duplicate());
        Ok(session)
    }

    fn apply(&mut self, request: MutationRequest) -> Result<HostedSession, StoreError> {
        if request.expected_revision != self.revision {
            return Err(StoreError::SessionDomain(SessionStateError::StaleRevision));
        }
        let session = self
            .sessions
            .iter_mut()
            .find(|session| session.id == request.id)
            .ok_or(StoreError::SessionDomain(SessionStateError::Unavailable))?;
        match request.mutation {
            SessionMutation::SetPinned(pinned) => session.pinned = pinned,
            SessionMutation::ObserveOutput { through } => {
                session.last_output_sequence = session.last_output_sequence.max(through);
            }
            SessionMutation::MarkUnread { at } => {
                session.unread_sequence = Some(at);
                session.unread = true;
            }
            SessionMutation::Archive { at } => {
                if session.can_stop {
                    return Err(StoreError::SessionDomain(
                        SessionStateError::StopRequiredBeforeArchive,
                    ));
                }
                session.archived_at = Some(at);
            }
            SessionMutation::Restore => session.archived_at = None,
            SessionMutation::ApplyActivity { activity, .. } => {
                session.activity = activity;
                if let Some(at) = activity.attention_sequence {
                    session.unread_sequence = Some(at);
                    session.unread = true;
                }
            }
            other => panic!("unexpected mutation {other:?}"),
        }
        self.revision += 1;
        session.revision = self.revision;
        Ok(session.duplicate())
    }

    fn mutate(
        &mut self,
        library: &mut SessionLibraryState,
        saved: &mut SavedState,
        id: HostedSessionId,
        mutation: SessionMutation,
    ) -> Result<HostedSession, StoreError> {
        let request = library.mutation_request(id, mutation, 5)?;
        let reply = self.apply(request);
        let loaded = self.snapshot();
        library.mutate(saved, reply, loaded)
    }
}

fn state_with_repository(store: &mut MemoryStore, saved: &mut SavedState) -> SessionLibraryState {
    let mut library = SessionLibraryState::open_default(StoreOpening::Opened);
    let mut outcome = library.reload(store.snapshot());
    if outcome.is_ok() {
        let order = library.migration_order(saved);
        let mut from = 0;
        while let Some(index) = library.next_migration(&order, from) {
            let created = store.create(saved.record(order[index]).unwrap());
            outcome = created.map(|_| ());
            if outcome.is_err() {
                break;
            }
            outcome = library.reload(store.snapshot());
            from = index + 1;
        }
    }
    library.finish_open(saved, outcome);
    library
}

#[test]
fn migrated_session_library_survives_restart_and_filters_pin_unread_archive() {
    let mut store = MemoryStore::new();
    let record = record(1, 10, HostedSessionState::Exited);
    let id = record.id;
    let project_id = record.origin.project_id;
    let mut saved = SavedState { app_attached_sessions: vec![record] };
    let mut library = state_with_repository(&mut store, &mut saved);
    store.mutate(&mut library, &mut saved, id, SessionMutation::SetPinned(true)).unwrap();
    store
        .mutate(&mut library, &mut saved, id, SessionMutation::ObserveOutput { through: 4 })
        .unwrap();
    store.mutate(&mut library, &mut saved, id, SessionMutation::MarkUnread { at: 4 }).unwrap();
    library.filter = SessionLibraryFilter::Unread;
    assert_eq!(library.visible_sessions(project_id, None).len(), 1);
    store.mutate(&mut library, &mut saved, id, SessionMutation::Archive { at: 9 }).unwrap();
    assert!(library.visible_sessions(project_id, None).is_empty());
    library.view = SessionLibraryView::Archive;
    assert_eq!(library.visible_sessions(project_id, None).len(), 1);

    let reopened = state_with_repository(&mut store, &mut saved);
    let metadata = reopened.session(id).unwrap();
    assert!(metadata.pinned);
    assert!(metadata.unread);
    assert_eq!(metadata.archived_at, Some(9));
    assert_eq!(store.sessions.len(), 1);
    assert_eq!(saved.app_attached_sessions[0].archived_at, Some(9));
}

#[test]
fn archived_restore_never_changes_exited_lifecycle() {
    let mut store = MemoryStore::new();
    let record = record(1, 10, HostedSessionState::Exited);
    let id = record.id;
    let mut saved = SavedState { app_attached_sessions: vec![record] };
    let mut library = state_with_repository(&mut store, &mut saved);
    store.mutate(&mut library, &mut saved, id, SessionMutation::Archive { at: 9 }).unwrap();
    let restored =
        store.mutate(&mut library, &mut saved, id, SessionMutation::Restore).unwrap();
    assert_eq!(restored.archived_at, None);
    assert_eq!(restored.lifecycle, HostedSessionState::Exited);
}

#[test]
fn live_archive_is_rejected_and_pending_stop_is_explicit() {
    let mut store = MemoryStore::new();
    let record = record(1, 10, HostedSessionState::Live);
    let id = record.id;
    let mut saved = SavedState { app_attached_sessions: vec![record] };
    let mut library = state_with_repository(&mut store, &mut saved);
    assert!(matches!(
        store.mutate(&mut library, &mut saved, id, SessionMutation::Archive { at: 9 }),
        Err(StoreError::SessionDomain(SessionStateError::StopRequiredBeforeArchive))
    ));
    library.pending_archive_after_stop = Some(id);
    assert_eq!(library.pending_archive_after_stop, Some(id));
    assert_eq!(library.session(id).unwrap().archived_at, None);
}

#[test]
fn session_library_filters_preserve_pinned_order_and_archive_is_orthogonal() {
    let mut store = MemoryStore::new();
    let first = record(1, 10, HostedSessionState::Exited);
    let project_id = first.origin.project_id;
    let first_id = first.id;
    let second = record(2, 10, HostedSessionState::Exited);
    let second_id = second.id;
    let mut saved = SavedState { app_attached_sessions: vec![first, second] };
    let mut library = state_with_repository(&mut store, &mut saved);
    store.mutate(&mut library, &mut saved, second_id, SessionMutation::SetPinned(true)).unwrap();
    store
        .mutate(&mut library, &mut saved, first_id, SessionMutation::ObserveOutput { through: 3 })
        .unwrap();
    store
        .mutate(&mut library, &mut saved, first_id, SessionMutation::MarkUnread { at: 3 })
        .unwrap();

    let visible = library.visible_sessions(project_id, None);
    assert_eq!(visible[0].id, second_id);
    assert_eq!(visible[1].id, first_id);
    library.filter = SessionLibraryFilter::Unread;
    assert_eq!(library.visible_sessions(project_id, None)[0].id, first_id);

    library.filter = SessionLibraryFilter::All;
    store.mutate(&mut library, &mut saved, first_id, SessionMutation::Archive { at: 9 }).unwrap();
    assert_eq!(library.visible_sessions(project_id, None)[0].id, second_id);
    library.view = SessionLibraryView::Archive;
    assert_eq!(library.visible_sessions(project_id, None)[0].id, first_id);
    assert!(library.session(first_id).unwrap().unread);
}

#[test]
fn unified_sessions_query_spans_projects_and_keeps_archive_orthogonal() {
    let mut store = MemoryStore::new();
    let first = record(1, 10, HostedSessionState::Live);
    let first_id = first.id;
    let first_project = first.origin.project_id;
    let mut second = record(2, 11, HostedSessionState::RunningAppAttached);
    second.route = SessionLaunchRoute::LegacyAppAttached;
    second.durable_host = None;
    let second_id = second.id;
    let second_project = second.origin.project_id;
    let mut archived = record(3, 12, HostedSessionState::Exited);
    archived.archived_at = Some(9);
    let archived_id = archived.id;
    let mut saved = SavedState { app_attached_sessions: vec![first, second, archived] };

    let mut library = state_with_repository(&mut store, &mut saved);
    let active = library.visible_sessions_all();
    assert_eq!(active.len(), 2);
    assert!(active.iter().any(|session| session.id == first_id));
    assert!(active.iter().any(|session| session.id == second_id));
    assert_ne!(first_project, second_project);

    library.view = SessionLibraryView::Archive;
    let archived = library.visible_sessions_all();
    assert_eq!(archived.len(), 1);
    assert_eq!(archived[0].id, archived_id);
}

#[test]
fn activity_attention_is_unread_but_output_and_row_selection_are_not_acknowledgements() {
    let mut store = MemoryStore::new();
    let record = record(1, 10, HostedSessionState::Live);
    let id = record.id;
    let mut saved = SavedState { app_attached_sessions: vec![record] };
    let mut library = state_with_repository(&mut store, &mut saved);
    let output = store
        .mutate(&mut library, &mut saved, id, SessionMutation::ObserveOutput { through: 4 })
        .unwrap();
    assert!(!output.unread);
    let activity = ActivityAggregate {
        state: ActivityState::NeedsInput,
        confidence: ActivityConfidence::Verified,
        stale: false,
        generation: 0,
        effective_sequence: 1,
        attention_sequence: Some(4),
        source: 7,
    };
    let attention = store
        .mutate(
            &mut library,
            &mut saved,
            id,
            SessionMutation::ApplyActivity { activity, visible_through: None },
        )
        .unwrap();
    assert!(attention.unread);
    assert!(library.session(id).unwrap().unread);
    assert_eq!(saved.app_attached_sessions[0].unread_sequence, Some(4));
}

#[test]
fn stale_revision_brings_every_record_up_to_date() {
    let mut store = MemoryStore::new();
    let record = record(1, 10, HostedSessionState::Exited);
    let id = record.id;
    let mut saved = SavedState { app_attached_sessions: vec![record] };
    let mut library = state_with_repository(&mut store, &mut saved);
    store.sessions[0].title = "Renamed elsewhere".to_string();
    store.revision += 1;
    let error = store
        .mutate(&mut library, &mut saved, id, SessionMutation::SetPinned(true))
        .unwrap_err();
    assert!(matches!(error, StoreError::SessionDomain(SessionStateError::StaleRevision)));
    assert_eq!(saved.app_attached_sessions[0].title, "Renamed elsewhere");
    assert_eq!(library.revision(), store.revision);
}

#[test]
fn a_library_without_a_store_reports_why_and_refuses() {
    let library = SessionLibraryState::open_default(StoreOpening::Refused(StoreError::Io {
        permission_denied: true,
    }));
    assert_eq!(
        library.load_state,
        SessionLibraryLoadState::Failed(SessionLibraryFailure::PermissionDenied)
    );
    assert_eq!(library.recovery_state(), Some(SessionLibraryRecovery::PermissionDenied));
    assert_eq!(library.revision(), 0);
    assert!(library.mutation_request(session_id(1), SessionMutation::Restore, 1).is_err());
}

#[test]
fn store_failures_are_classified() {
    assert_eq!(classify_store_failure(&StoreError::Corrupt), SessionLibraryFailure::Corrupt);
    assert_eq!(classify_store_failure(&StoreError::TooLarge), SessionLibraryFailure::Corrupt);
    assert_eq!(classify_store_failure(&StoreError::StoreNewer), SessionLibraryFailure::Newer);
    assert_eq!(
        classify_store_failure(&StoreError::Io { permission_denied: false }),
        SessionLibraryFailure::Unavailable
    );
}

#[test]
fn removal_needs_the_title_where_it_is_asked_for() {
    let mut store = MemoryStore::new();
    let record = record(1, 10, HostedSessionState::Exited);
    let id = record.id;
    let mut saved = SavedState { app_attached_sessions: vec![record] };
    let mut library = state_with_repository(&mut store, &mut saved);
    let revision = library.revision();
    library
        .prepare_removal(Ok(SessionRemovalPlan {
            session_id: id,
            title: "Investigate parser".to_string(),
            expected_revision: revision,
            manifest: RemovalManifest {
                metadata_bytes: 1,
                journal_bytes: 2,
                transcript_bytes: 3,
                artifact_bytes: 4,
                file_count: 5,
                requires_title_confirmation: true,
            },
        }))
        .unwrap();
    assert!(library.removal_request("something else").is_err());
    assert_eq!(library.removal_request("Investigate parser").unwrap().id, id);
    store.sessions.clear();
    store.revision += 1;
    let removed = library
        .confirm_removal(&mut saved, "Investigate parser", Ok(id), store.snapshot())
        .unwrap();
    assert_eq!(removed, id);
    assert!(saved.app_attached_sessions.is_empty());
    assert!(library.session(id).is_none());
}

#[test]
fn sessions_of_a_group_are_listed_by_position() {
    let mut store = MemoryStore::new();
    let group = GroupId { value: 70 };
    let mut late = record(1, 10, HostedSessionState::Exited);
    late.group_id = Some(group);
    late.position = 8;
    let mut early = record(2, 10, HostedSessionState::Exited);
    early.group_id = Some(group);
    early.position = 3;
    let elsewhere = record(3, 10, HostedSessionState::Exited);
    let mut saved = SavedState { app_attached_sessions: vec![late, early, elsewhere] };
    let library = state_with_repository(&mut store, &mut saved);
    let listed: Vec<u128> = library
        .visible_sessions(ProjectId { value: 10 }, Some(group))
        .iter()
        .map(|session| session.id.value)
        .collect();
    assert_eq!(listed, vec![2, 1]);
}

fn resumable(
    lifecycle: HostedSessionState,
    runtime: &str,
    version: &str,
    ownership: OccupantOwnership,
) -> SavedAppAttachedSession {
    let mut saved = record(1, 10, lifecycle);
    saved.preset_label = "Agent".to_string();
    saved.title = "Resume fixture".to_string();
    saved.title_source = TitleSource::Default;
    saved.revision = 4;
    let mut host = durable_host();
    host.runtime_recognition = Some(RuntimeRecognition {
        occupant: Some(RuntimeOccupant {
            runtime_id: runtime.to_string(),
            safe_version: Some(version.to_string()),
            generation: 3,
            ownership,
            capabilities: RuntimeCapabilitySet {
                interactive_pty: true,
                structured_events: false,
                approval_requests: false,
                cancellation: false,
                context_handoff: false,
                remote_launch: false,
                resume: true,
                transcript_export: false,
            },
            stale: false,
        }),
        confidence: RecognitionConfidence::Verified,
    });
    saved.durable_host = Some(host);
    saved
}

/// What the library says of a saved record.
fn metadata(saved: &SavedAppAttachedSession) -> HostedSession {
    let mut session = MemoryStore::new().create(saved).unwrap();
    session.revision = saved.revision;
    session
}

/// Judges a resume by what it is handed.
fn evaluate(request: &ResumeEvaluation, metadata: &HostedSession) -> Result<(), ResumeError> {
    if request.session_id != metadata.id || request.expected_revision != metadata.revision {
        return Err(ResumeError::StaleRevision);
    }
    let occupant = request.recognition.occupant.as_ref().ok_or(ResumeError::OwnershipUnproven)?;
    if request.expected_generation != occupant.generation {
        return Err(ResumeError::StaleOccupant);
    }
    if metadata.lifecycle == HostedSessionState::Live {
        return Err(ResumeError::StillRunning);
    }
    if occupant.ownership == OccupantOwnership::Observed {
        return Err(ResumeError::OwnershipUnproven);
    }
    match occupant.safe_version.as_deref() {
        Some(version) if version.starts_with("0.150.") => {}
        _ => return Err(ResumeError::UnsupportedVersion),
    }
    match request.handle {
        Some(_) => Ok(()),
        None => Err(ResumeError::ConversationMissing),
    }
}

fn projected(saved: &SavedAppAttachedSession) -> SessionResumeProjection {
    session_resume_projection(saved, &metadata(saved), 70, &evaluate)
}

#[test]
fn a_resume_is_evaluated_under_what_was_last_seen() {
    let mut saved =
        resumable(HostedSessionState::Exited, "codex", "0.150.1", OccupantOwnership::Managed);
    saved.durable_host.as_mut().unwrap().conversation_handle = Some("talk".to_string());
    let mut session = metadata(&saved);
    session.revision = 9;
    let request = resume_evaluation(&saved, &session, 70).unwrap();
    assert_eq!(request.command_id, 70);
    assert_eq!(request.session_id, session_id(1));
    assert_eq!(request.expected_generation, 3);
    assert_eq!(request.expected_revision, 9);
    assert_eq!(request.handle.as_deref(), Some("talk"));
    assert_eq!(request.recognition.occupant.unwrap().safe_version.as_deref(), Some("0.150.1"));
    saved.durable_host = None;
    assert!(resume_evaluation(&saved, &session, 70).is_none());
}

#[test]
fn session_resume_exact_exited_codex_contract_is_visible_and_can_discover_its_handle() {
    let saved =
        resumable(HostedSessionState::Exited, "codex", "0.150.1", OccupantOwnership::Managed);
    let projection = projected(&saved);
    assert!(projection.visible);
    assert!(projection.enabled);
    assert_eq!(projection.reason, None);
}

#[test]
fn session_resume_live_observed_and_unsupported_have_exact_reasons() {
    let live = resumable(HostedSessionState::Live, "codex", "0.150.1", OccupantOwnership::Managed);
    let observed =
        resumable(HostedSessionState::Exited, "codex", "0.150.1", OccupantOwnership::Observed);
    let unsupported =
        resumable(HostedSessionState::Exited, "codex", "0.151.0", OccupantOwnership::Managed);

    let live_projection = projected(&live);
    let observed_projection = projected(&observed);
    let unsupported_projection = projected(&unsupported);

    assert_eq!(live_projection.reason, Some(ResumeError::StillRunning));
    assert_eq!(observed_projection.reason, Some(ResumeError::OwnershipUnproven));
    assert_eq!(unsupported_projection.reason, Some(ResumeError::UnsupportedVersion));
    assert!(!live_projection.enabled);
    assert!(!observed_projection.enabled);
    assert!(!unsupported_projection.enabled);
}

#[test]
fn session_resume_unrelated_runtime_does_not_advertise_resume() {
    let saved =
        resumable(HostedSessionState::Exited, "gemini", "1.0.0", OccupantOwnership::Managed);
    let projection = projected(&saved);
    assert!(!projection.visible);
    assert!(!projection.enabled);
    assert_eq!(projection.reason, None);
}
