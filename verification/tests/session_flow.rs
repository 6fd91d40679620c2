use termirust_console::domain::{
    ActivityAggregate, HostedSession, HostedSessionState, PermissionPolicy, ResumeError,
    StoreHealth, TitleSource,
};
use termirust_console::ids::{HostedSessionId, ProjectId};
use termirust_console::messages::{Atom, MessageId, Text};
use termirust_console::saved_state::SavedState;
use termirust_console::session_coordinator::PendingArchiveAction;
use termirust_console::session_library::{
    SessionLibraryState, SessionMutation, SessionSnapshot, StoreOpening,
};
use termirust_console::session_resume::{
    cancel_session_resume, check_resume_start, codex_conversation_root, environment_obstacle,
    session_resume_sheet, ResumeEnvironment, ResumePlan, SessionResumePhase, SessionResumeState,
};
use termirust_console::session_sidebar::{
    archive_or_stop_session, begin_session_rename, cancel_session_rename,
    complete_pending_session_archive, confirm_stop_and_archive, finish_stop_and_archive,
    save_session_rename, stop_session_only, toggle_session_pin, toggle_session_read, PaneLink,
};
use termirust_console::sftp::{sftp_surface, SftpSurface};
use termirust_console::ui::Notices;

fn quiet() -> Notices {
    Notices { status: None, error: None }
}

fn id(value: u128) -> HostedSessionId {
    HostedSessionId { value }
}

fn hosted(value: u128, lifecycle: HostedSessionState) -> HostedSession {
    HostedSession {
        id: id(value),
        project_id: ProjectId { value: 10 },
        group_id: None,
        position: 0,
        title: format!("Session {value}"),
        title_source: TitleSource::Manual,
        lifecycle,
        can_stop: lifecycle == HostedSessionState::Live,
        exited: lifecycle == HostedSessionState::Exited,
        removable: lifecycle == HostedSessionState::Exited,
        activity: ActivityAggregate::default(),
        pinned: false,
        unread: false,
        read_through_sequence: 0,
        unread_sequence: None,
        last_output_sequence: 0,
        archived_at: None,
        revision: 1,
    }
}

fn library(sessions: Vec<HostedSession>) -> SessionLibraryState {
    let mut library = SessionLibraryState::open_default(StoreOpening::Opened);
    library
        .reload(Ok(SessionSnapshot {
            revision: 1,
            sessions,
            health: StoreHealth::Healthy,
            read_only: false,
        }))
        .unwrap();
    library
}

#[test]
fn pins_and_read_marks_are_toggled() {
    let mut output = hosted(2, HostedSessionState::Live);
    output.last_output_sequence = 7;
    let mut unread = hosted(3, HostedSessionState::Live);
    unread.last_output_sequence = 9;
    unread.unread = true;
    let library = library(vec![hosted(1, HostedSessionState::Live), output, unread]);
    assert_eq!(toggle_session_pin(&library, id(1)), Some(SessionMutation::SetPinned(true)));
    assert_eq!(toggle_session_pin(&library, id(9)), None);
    assert_eq!(toggle_session_read(&library, id(1)), None);
    assert_eq!(
        toggle_session_read(&library, id(2)),
        Some(SessionMutation::MarkUnread { at: 7 })
    );
    assert_eq!(
        toggle_session_read(&library, id(3)),
        Some(SessionMutation::MarkRead { through: 9 })
    );
}

#[test]
fn a_live_session_is_stopped_before_it_is_archived() {
    let mut notices = quiet();
    let mut library = library(vec![
        hosted(1, HostedSessionState::Live),
        hosted(2, HostedSessionState::Exited),
        hosted(3, HostedSessionState::Stopping),
    ]);
    assert_eq!(
        archive_or_stop_session(&mut library, id(2), 50),
        Some(SessionMutation::Archive { at: 50 })
    );
    assert_eq!(archive_or_stop_session(&mut library, id(1), 50), None);
    assert_eq!(library.pending_stop_archive_review, Some(id(1)));
    let panes = vec![PaneLink { pane_id: 4, session: Some(id(1)) }];
    assert_eq!(
        confirm_stop_and_archive(&mut library, &panes, &mut notices),
        Some((id(1), 4))
    );
    assert_eq!(library.pending_archive_after_stop, Some(id(1)));
    assert_eq!(
        complete_pending_session_archive(
            &mut library,
            id(1),
            PendingArchiveAction::Nothing,
            60,
            &mut notices
        ),
        None
    );
    assert_eq!(
        complete_pending_session_archive(
            &mut library,
            id(1),
            PendingArchiveAction::Archive,
            60,
            &mut notices
        ),
        Some(SessionMutation::Archive { at: 60 })
    );
    assert_eq!(library.pending_archive_after_stop, None);
    library.pending_archive_after_stop = Some(id(3));
    finish_stop_and_archive(&mut library, id(3), &mut notices);
    assert_eq!(library.pending_archive_after_stop, Some(id(3)));
    finish_stop_and_archive(&mut library, id(2), &mut notices);
    assert_eq!(library.pending_archive_after_stop, None);
}

#[test]
fn a_session_without_a_pane_cannot_be_stopped() {
    let mut notices = quiet();
    assert_eq!(stop_session_only(&Vec::new(), id(1), &mut notices), None);
    assert_eq!(
        notices.error,
        Some(Text::Message(MessageId::SessionLibraryOperationFailed))
    );
}

#[test]
fn renaming_starts_from_the_title() {
    let mut notices = quiet();
    let mut library = library(vec![hosted(1, HostedSessionState::Live)]);
    assert_eq!(begin_session_rename(&mut library, id(9)), None);
    assert_eq!(begin_session_rename(&mut library, id(1)).as_deref(), Some("Session 1"));
    assert_eq!(
        save_session_rename(&library, Some("New".to_string()), &mut notices),
        Some((id(1), SessionMutation::Rename("New".to_string())))
    );
    assert_eq!(save_session_rename(&library, None, &mut notices), None);
    assert!(notices.error.is_some());
    cancel_session_rename(&mut library);
    assert_eq!(save_session_rename(&library, Some("New".to_string()), &mut notices), None);
}

fn plan() -> ResumePlan {
    ResumePlan {
        expected_revision: 1,
        handle: "handle".to_string(),
        runtime_id: "codex".to_string(),
        prior_generation: 4,
        executable_fingerprint: 9,
        replacement_session_id: id(2),
        executable: "/bin/codex".to_string(),
        arguments: Vec::new(),
        working_directory: "/work".to_string(),
        permission_policy: PermissionPolicy::ReadOnly,
        safe_conversation_label: "label".to_string(),
    }
}

fn resume() -> SessionResumeState {
    SessionResumeState {
        source_session_id: id(1),
        replacement_session_id: id(2),
        command_id: 3,
        phase: SessionResumePhase::Validating,
        plan: None,
        error: None,
        spawned_pane_id: None,
        source_title: "Session 1".to_string(),
        project_label: "Project".to_string(),
    }
}

#[test]
fn only_the_awaited_validation_is_reviewed() {
    let mut saved = SavedState { app_attached_sessions: Vec::new() };
    let mut state = resume();
    assert!(!state.finish_session_resume_validation(&mut saved, Some(1), 99, Ok(plan())));
    assert_eq!(state.phase, SessionResumePhase::Validating);
    assert!(state.finish_session_resume_validation(&mut saved, Some(1), 3, Ok(plan())));
    assert_eq!(state.phase, SessionResumePhase::Review);
    let sheet = session_resume_sheet(&state);
    assert!(sheet.error.is_none());
    assert_eq!(
        sheet.rows[2].value,
        Text::Filled(MessageId::SessionResumeProviderValue, Atom::Literal("0.150.1"))
    );
    let missing = check_resume_start(&state, None, None);
    assert_eq!(missing, Some(Err(ResumeError::StaleRevision)));

    let mut stale = resume();
    assert!(stale.finish_session_resume_validation(&mut saved, Some(8), 3, Ok(plan())));
    assert_eq!(stale.phase, SessionResumePhase::Failed);
    assert_eq!(stale.error, Some(ResumeError::StaleRevision));
    assert_eq!(check_resume_start(&stale, None, None), None);
}

#[test]
fn a_cancelled_resume_names_the_pane_that_was_started() {
    let mut notices = quiet();
    let mut starting = resume();
    starting.begin_starting(6, &mut notices);
    let mut open = Some(starting);
    assert_eq!(cancel_session_resume(&mut open, &mut notices), Some(6));
    assert!(open.is_none());
    let mut other = resume();
    other.fail_active_session_resume(id(9), ResumeError::PermissionDenied);
    assert_eq!(other.error, None);
    other.fail_active_session_resume(id(2), ResumeError::PermissionDenied);
    assert_eq!(other.error, Some(ResumeError::PermissionDenied));
}

#[test]
fn what_a_resume_needs_is_checked_in_order() {
    let environment = |root: Option<&str>, revision| ResumeEnvironment {
        store_root: root.map(str::to_string),
        continuity_revision: revision,
        paths: None,
    };
    assert_eq!(
        environment_obstacle(&environment(None, None)),
        Some(ResumeError::PermissionDenied)
    );
    assert_eq!(
        environment_obstacle(&environment(Some("/store"), None)),
        Some(ResumeError::ContinuityConflict)
    );
    assert_eq!(
        environment_obstacle(&environment(Some("/store"), Some(1))),
        Some(ResumeError::PermissionDenied)
    );
    let home = Some("/home/me".to_string());
    assert_eq!(
        codex_conversation_root(&None, &home).as_deref(),
        Some("/home/me/.codex/sessions")
    );
    assert_eq!(
        codex_conversation_root(&Some("/c".to_string()), &home).as_deref(),
        Some("/c/sessions")
    );
    assert_eq!(codex_conversation_root(&None, &None), None);
}

#[test]
fn files_of_the_active_workspace_come_first() {
    assert_eq!(sftp_surface(Some(3), true, true), Some(SftpSurface::Workspace(3)));
    assert_eq!(sftp_surface(None, true, true), Some(SftpSurface::Library));
    assert_eq!(sftp_surface(None, true, false), None);
}
