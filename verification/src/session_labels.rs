//! The words and tones in which the state of projects and sessions is told.
use vstd::prelude::*;

use crate::domain::{
    ActivityAggregate, ActivityConfidence, ActivityState, HostedSessionState, ProjectStatus,
    SessionLaunchRoute, TitleSource,
};
use crate::messages::{Atom, MessageId, Text};
use crate::session_library::SessionLibraryRecovery;
use crate::ui::Tone;

verus! {

pub open spec fn project_status_text(status: ProjectStatus) -> MessageId {
    match status {
        ProjectStatus::Available => MessageId::ProjectStatusAvailable,
        ProjectStatus::Unavailable => MessageId::ProjectStatusUnavailable,
        ProjectStatus::PermissionDenied => MessageId::ProjectStatusPermissionDenied,
    }
}

pub fn project_status_message_id(status: ProjectStatus) -> (r: MessageId)
    ensures
        r == project_status_text(status),
{
    match status {
        ProjectStatus::Available => MessageId::ProjectStatusAvailable,
        ProjectStatus::Unavailable => MessageId::ProjectStatusUnavailable,
        ProjectStatus::PermissionDenied => MessageId::ProjectStatusPermissionDenied,
    }
}

pub open spec fn state_text(state: HostedSessionState) -> MessageId {
    match state {
        HostedSessionState::Draft => MessageId::NewSessionPhaseDraft,
        HostedSessionState::Validating => MessageId::NewSessionPhaseValidating,
        HostedSessionState::Starting => MessageId::NewSessionPhaseStarting,
        HostedSessionState::Provisioning => MessageId::NewSessionPhaseProvisioning,
        HostedSessionState::Attaching => MessageId::NewSessionPhaseAttaching,
        HostedSessionState::Replaying => MessageId::NewSessionPhaseReplaying,
        HostedSessionState::Live => MessageId::NewSessionPhaseLive,
        HostedSessionState::RecordingPaused => MessageId::NewSessionPhaseRecordingPaused,
        HostedSessionState::Stopping => MessageId::NewSessionStatusStopping,
        HostedSessionState::Offline => MessageId::NewSessionPhaseOffline,
        HostedSessionState::Orphaned => MessageId::NewSessionPhaseOrphaned,
        HostedSessionState::Gap => MessageId::NewSessionPhaseGap,
        HostedSessionState::PermissionDenied => MessageId::NewSessionPhasePermissionDenied,
        HostedSessionState::Incompatible => MessageId::NewSessionPhaseIncompatible,
        HostedSessionState::RunningAppAttached => MessageId::NewSessionPhaseRunning,
        HostedSessionState::Failed => MessageId::NewSessionPhaseFailed,
        HostedSessionState::Cancelled => MessageId::NewSessionPhaseCancelled,
        HostedSessionState::Exited => MessageId::NewSessionPhaseExited,
    }
}

/// The message for the state of a session, as assistive technology gets it.
pub fn session_state_message_id(state: HostedSessionState) -> (r: MessageId)
    ensures
        r == state_text(state),
{
    match state {
        HostedSessionState::Draft => MessageId::NewSessionPhaseDraft,
        HostedSessionState::Validating => MessageId::NewSessionPhaseValidating,
        HostedSessionState::Starting => MessageId::NewSessionPhaseStarting,
        HostedSessionState::Provisioning => MessageId::NewSessionPhaseProvisioning,
        HostedSessionState::Attaching => MessageId::NewSessionPhaseAttaching,
        HostedSessionState::Replaying => MessageId::NewSessionPhaseReplaying,
        HostedSessionState::Live => MessageId::NewSessionPhaseLive,
        HostedSessionState::RecordingPaused => MessageId::NewSessionPhaseRecordingPaused,
        HostedSessionState::Stopping => MessageId::NewSessionStatusStopping,
        HostedSessionState::Offline => MessageId::NewSessionPhaseOffline,
        HostedSessionState::Orphaned => MessageId::NewSessionPhaseOrphaned,
        HostedSessionState::Gap => MessageId::NewSessionPhaseGap,
        HostedSessionState::PermissionDenied => MessageId::NewSessionPhasePermissionDenied,
        HostedSessionState::Incompatible => MessageId::NewSessionPhaseIncompatible,
        HostedSessionState::RunningAppAttached => MessageId::NewSessionPhaseRunning,
        HostedSessionState::Failed => MessageId::NewSessionPhaseFailed,
        HostedSessionState::Cancelled => MessageId::NewSessionPhaseCancelled,
        HostedSessionState::Exited => MessageId::NewSessionPhaseExited,
    }
}

/// The same message as a text on screen.
pub fn session_state_label(state: HostedSessionState) -> (r: Text)
    ensures
        r == Text::Message(state_text(state)),
{
    Text::Message(session_state_message_id(state))
}

pub open spec fn state_tone(state: HostedSessionState) -> Tone {
    match state {
        HostedSessionState::RunningAppAttached | HostedSessionState::Live => Tone::Success,
        HostedSessionState::Starting | HostedSessionState::Provisioning
        | HostedSessionState::Attaching | HostedSessionState::Replaying
        | HostedSessionState::Stopping | HostedSessionState::Validating => Tone::Warning,
        HostedSessionState::Failed | HostedSessionState::RecordingPaused
        | HostedSessionState::Offline | HostedSessionState::Orphaned | HostedSessionState::Gap
        | HostedSessionState::PermissionDenied
        | HostedSessionState::Incompatible => Tone::Danger,
        _ => Tone::Muted,
    }
}

pub fn session_state_color(state: HostedSessionState) -> (r: Tone)
    ensures
        r == state_tone(state),
{
    match state {
        HostedSessionState::RunningAppAttached | HostedSessionState::Live => Tone::Success,
        HostedSessionState::Starting | HostedSessionState::Provisioning
        | HostedSessionState::Attaching | HostedSessionState::Replaying
        | HostedSessionState::Stopping | HostedSessionState::Validating => Tone::Warning,
        HostedSessionState::Failed | HostedSessionState::RecordingPaused
        | HostedSessionState::Offline | HostedSessionState::Orphaned | HostedSessionState::Gap
        | HostedSessionState::PermissionDenied | HostedSessionState::Incompatible => Tone::Danger,
        _ => Tone::Muted,
    }
}

pub open spec fn title_source_text(source: TitleSource) -> MessageId {
    match source {
        TitleSource::Default => MessageId::SessionLibraryTitleSourceDefault,
        TitleSource::Automatic => MessageId::SessionLibraryTitleSourceAutomatic,
        TitleSource::Imported => MessageId::SessionLibraryTitleSourceImported,
        TitleSource::Manual => MessageId::SessionLibraryTitleSourceManual,
    }
}

pub fn title_source_label(source: TitleSource) -> (r: MessageId)
    ensures
        r == title_source_text(source),
{
    match source {
        TitleSource::Default => MessageId::SessionLibraryTitleSourceDefault,
        TitleSource::Automatic => MessageId::SessionLibraryTitleSourceAutomatic,
        TitleSource::Imported => MessageId::SessionLibraryTitleSourceImported,
        TitleSource::Manual => MessageId::SessionLibraryTitleSourceManual,
    }
}

pub open spec fn activity_state_text(state: ActivityState) -> MessageId {
    match state {
        ActivityState::Unknown => MessageId::SessionLibraryActivityUnknown,
        ActivityState::Idle => MessageId::SessionLibraryActivityIdle,
        ActivityState::Busy => MessageId::SessionLibraryActivityBusy,
        ActivityState::NeedsInput => MessageId::SessionLibraryActivityNeedsInput,
        ActivityState::Done => MessageId::SessionLibraryActivityDone,
        ActivityState::Failed => MessageId::SessionLibraryActivityFailed,
    }
}

/// How far an activity can be relied on. That it is stale outweighs how it was
/// found.
pub open spec fn activity_confidence_text(activity: ActivityAggregate) -> MessageId {
    if activity.stale {
        MessageId::RuntimeStaleLabel
    } else if activity.confidence == ActivityConfidence::Verified {
        MessageId::RuntimeConfidenceVerified
    } else {
        MessageId::SessionLibraryActivityEstimated
    }
}

pub open spec fn activity_text(activity: ActivityAggregate) -> Text {
    Text::Qualified(
        Atom::Message(activity_state_text(activity.state)),
        Atom::Message(activity_confidence_text(activity)),
    )
}

pub fn activity_label(activity: &ActivityAggregate) -> (r: Text)
    ensures
        r == activity_text(*activity),
{
    let state: MessageId = match activity.state {
        ActivityState::Unknown => MessageId::SessionLibraryActivityUnknown,
        ActivityState::Idle => MessageId::SessionLibraryActivityIdle,
        ActivityState::Busy => MessageId::SessionLibraryActivityBusy,
        ActivityState::NeedsInput => MessageId::SessionLibraryActivityNeedsInput,
        ActivityState::Done => MessageId::SessionLibraryActivityDone,
        ActivityState::Failed => MessageId::SessionLibraryActivityFailed,
    };
    let confidence: MessageId = if activity.stale {
        MessageId::RuntimeStaleLabel
    } else if activity.confidence == ActivityConfidence::Verified {
        MessageId::RuntimeConfidenceVerified
    } else {
        MessageId::SessionLibraryActivityEstimated
    };
    Text::Qualified(Atom::Message(state), Atom::Message(confidence))
}

pub open spec fn ownership_text(route: SessionLaunchRoute) -> Text {
    match route {
        SessionLaunchRoute::LegacyAppAttached => Text::Literal("App-attached"),
        SessionLaunchRoute::DurableHost => Text::Literal("Durable"),
    }
}

pub fn session_ownership_label(route: SessionLaunchRoute) -> (r: Text)
    ensures
        r == ownership_text(route),
{
    match route {
        SessionLaunchRoute::LegacyAppAttached => Text::Literal("App-attached"),
        SessionLaunchRoute::DurableHost => Text::Literal("Durable"),
    }
}

pub open spec fn recovery_text(recovery: SessionLibraryRecovery) -> MessageId {
    match recovery {
        SessionLibraryRecovery::RecoveredLastGood => MessageId::SessionLibraryRecoveredLastGood,
        SessionLibraryRecovery::Corrupt => MessageId::SessionLibraryStoreCorrupt,
        SessionLibraryRecovery::Newer => MessageId::SessionLibraryStoreNewer,
        SessionLibraryRecovery::PermissionDenied => MessageId::SessionLibraryStorePermission,
        SessionLibraryRecovery::Unavailable => MessageId::SessionLibraryStoreUnavailable,
    }
}

pub fn session_recovery_label(recovery: SessionLibraryRecovery) -> (r: MessageId)
    ensures
        r == recovery_text(recovery),
{
    match recovery {
        SessionLibraryRecovery::RecoveredLastGood => MessageId::SessionLibraryRecoveredLastGood,
        SessionLibraryRecovery::Corrupt => MessageId::SessionLibraryStoreCorrupt,
        SessionLibraryRecovery::Newer => MessageId::SessionLibraryStoreNewer,
        SessionLibraryRecovery::PermissionDenied => MessageId::SessionLibraryStorePermission,
        SessionLibraryRecovery::Unavailable => MessageId::SessionLibraryStoreUnavailable,
    }
}

/// Each status of a project is told in words of its own.
pub proof fn law_each_project_status_has_its_words(status: ProjectStatus)
    ensures
        project_status_text(status) == MessageId::ProjectStatusAvailable <==> status is Available,
        project_status_text(status) == MessageId::ProjectStatusUnavailable <==> status is Unavailable,
        project_status_text(status) == MessageId::ProjectStatusPermissionDenied <==> status is PermissionDenied,
{
}

/// Each state of a session is told in words of its own.
pub proof fn law_each_session_state_has_its_words(state: HostedSessionState)
    ensures
        state_text(state) == MessageId::NewSessionPhaseDraft <==> state is Draft,
        state_text(state) == MessageId::NewSessionPhaseValidating <==> state is Validating,
        state_text(state) == MessageId::NewSessionPhaseStarting <==> state is Starting,
        state_text(state) == MessageId::NewSessionPhaseProvisioning <==> state is Provisioning,
        state_text(state) == MessageId::NewSessionPhaseAttaching <==> state is Attaching,
        state_text(state) == MessageId::NewSessionPhaseReplaying <==> state is Replaying,
        state_text(state) == MessageId::NewSessionPhaseLive <==> state is Live,
        state_text(state) == MessageId::NewSessionPhaseRecordingPaused <==> state is RecordingPaused,
        state_text(state) == MessageId::NewSessionStatusStopping <==> state is Stopping,
        state_text(state) == MessageId::NewSessionPhaseOffline <==> state is Offline,
        state_text(state) == MessageId::NewSessionPhaseOrphaned <==> state is Orphaned,
        state_text(state) == MessageId::NewSessionPhaseGap <==> state is Gap,
        state_text(state) == MessageId::NewSessionPhasePermissionDenied <==> state is PermissionDenied,
        state_text(state) == MessageId::NewSessionPhaseIncompatible <==> state is Incompatible,
        state_text(state) == MessageId::NewSessionPhaseRunning <==> state is RunningAppAttached,
        state_text(state) == MessageId::NewSessionPhaseFailed <==> state is Failed,
        state_text(state) == MessageId::NewSessionPhaseCancelled <==> state is Cancelled,
        state_text(state) == MessageId::NewSessionPhaseExited <==> state is Exited,
{
}

/// Each source of a title is told in words of its own.
pub proof fn law_each_title_source_has_its_words(source: TitleSource)
    ensures
        title_source_text(source) == MessageId::SessionLibraryTitleSourceDefault <==> source is Default,
        title_source_text(source) == MessageId::SessionLibraryTitleSourceAutomatic <==> source is Automatic,
        title_source_text(source) == MessageId::SessionLibraryTitleSourceImported <==> source is Imported,
        title_source_text(source) == MessageId::SessionLibraryTitleSourceManual <==> source is Manual,
{
}

/// Each activity is told in words of its own.
pub proof fn law_each_activity_has_its_words(state: ActivityState)
    ensures
        activity_state_text(state) == MessageId::SessionLibraryActivityUnknown <==> state is Unknown,
        activity_state_text(state) == MessageId::SessionLibraryActivityIdle <==> state is Idle,
        activity_state_text(state) == MessageId::SessionLibraryActivityBusy <==> state is Busy,
        activity_state_text(state) == MessageId::SessionLibraryActivityNeedsInput <==> state is NeedsInput,
        activity_state_text(state) == MessageId::SessionLibraryActivityDone <==> state is Done,
        activity_state_text(state) == MessageId::SessionLibraryActivityFailed <==> state is Failed,
{
}

/// Each way in which the store is in trouble is told in words of its own.
pub proof fn law_each_recovery_has_its_words(recovery: SessionLibraryRecovery)
    ensures
        recovery_text(recovery) == MessageId::SessionLibraryRecoveredLastGood <==> recovery is RecoveredLastGood,
        recovery_text(recovery) == MessageId::SessionLibraryStoreCorrupt <==> recovery is Corrupt,
        recovery_text(recovery) == MessageId::SessionLibraryStoreNewer <==> recovery is Newer,
        recovery_text(recovery) == MessageId::SessionLibraryStorePermission <==> recovery is PermissionDenied,
        recovery_text(recovery) == MessageId::SessionLibraryStoreUnavailable <==> recovery is Unavailable,
{
}

/// Only running sessions look well; those on their way warn; those that cannot
/// go on alarm; a draft and the ended ones stand back.
pub proof fn law_tones_follow_the_session_state(state: HostedSessionState)
    ensures
        state_tone(state) is Success <==> (state is Live || state is RunningAppAttached),
        state_tone(state) is Muted <==> (state is Draft || state is Cancelled || state is Exited),
        state_tone(state) is Warning <==> (state is Validating || state is Starting
            || state is Provisioning || state is Attaching || state is Replaying
            || state is Stopping),
        state_tone(state) is Danger <==> (state is Failed || state is RecordingPaused
            || state is Offline || state is Orphaned || state is Gap || state is PermissionDenied
            || state is Incompatible),
{
}

/// An activity is called verified only where it is fresh and was verified, and
/// stale wherever it is; the activity itself is told either way.
pub proof fn law_activities_are_told_with_their_confidence(activity: ActivityAggregate)
    ensures
        activity_text(activity) matches Text::Qualified(
            Atom::Message(state),
            Atom::Message(confidence),
        ) && ({
            &&& confidence == MessageId::RuntimeConfidenceVerified <==> !activity.stale
                && activity.confidence is Verified
            &&& confidence == MessageId::RuntimeStaleLabel <==> activity.stale
            &&& confidence == MessageId::SessionLibraryActivityEstimated <==> !activity.stale
                && activity.confidence is Estimated
            &&& state == MessageId::SessionLibraryActivityBusy <==> activity.state is Busy
            &&& state == MessageId::SessionLibraryActivityNeedsInput <==> activity.state
                is NeedsInput
        }),
{
}

/// A session is called durable exactly where a host runs it.
pub proof fn law_durable_sessions_are_called_so(route: SessionLaunchRoute)
    ensures
        ownership_text(route) == Text::Literal("Durable") <==> route is DurableHost,
        ownership_text(route) == Text::Literal("App-attached") <==> route is LegacyAppAttached,
{
    reveal_strlit("Durable");
    reveal_strlit("App-attached");
}

} // verus!
