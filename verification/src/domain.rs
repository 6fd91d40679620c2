//! The plain facts about projects, presets, sessions and stores on which the
//! console decides.
use vstd::prelude::*;

use crate::ids::{GroupId, HostedSessionId, PresetId, ProjectId};
use crate::lists;

verus! {

#[derive(Clone, Copy, Debug, PartialEq, Eq, Structural)]
pub enum HostedSessionState {
    Draft,
    Validating,
    Starting,
    Provisioning,
    Attaching,
    Replaying,
    Live,
    RecordingPaused,
    Stopping,
    Offline,
    Orphaned,
    Gap,
    PermissionDenied,
    Incompatible,
    RunningAppAttached,
    Failed,
    Cancelled,
    Exited,
}

#[derive(Clone, Copy, Debug, PartialEq, Eq, Structural)]
pub enum SessionLaunchRoute {
    LegacyAppAttached,
    DurableHost,
}

#[derive(Clone, Copy, Debug, PartialEq, Eq, Structural)]
pub enum TitleSource {
    Default,
    Automatic,
    Imported,
    Manual,
}

#[derive(Clone, Copy, Debug, PartialEq, Eq, Structural)]
pub enum ActivityState {
    Unknown,
    Idle,
    Busy,
    NeedsInput,
    Done,
    Failed,
}

#[derive(Clone, Copy, Debug, PartialEq, Eq, Structural)]
pub enum ActivityConfidence {
    Estimated,
    Verified,
}

/// What is known of a session's activity.
#[derive(Clone, Copy, Debug, PartialEq, Eq, Structural)]
pub struct ActivityAggregate {
    pub state: ActivityState,
    pub confidence: ActivityConfidence,
    pub stale: bool,
    pub generation: u64,
    pub effective_sequence: u64,
    pub attention_sequence: Option<u64>,
    /// The number under which the reporting source is registered.
    pub source: u64,
}

impl Default for ActivityAggregate {
    fn default() -> (r: Self)
        ensures
            r == unknown_activity(0),
    {
        ActivityAggregate {
            state: ActivityState::Unknown,
            confidence: ActivityConfidence::Estimated,
            stale: false,
            generation: 0,
            effective_sequence: 0,
            attention_sequence: None,
            source: 0,
        }
    }
}

/// The activity of a session of which nothing has been observed.
pub open spec fn unknown_activity(generation: u64) -> ActivityAggregate {
    ActivityAggregate {
        state: ActivityState::Unknown,
        confidence: ActivityConfidence::Estimated,
        stale: false,
        generation,
        effective_sequence: 0,
        attention_sequence: None,
        source: 0,
    }
}

#[derive(Clone, Copy, Debug, PartialEq, Eq, Structural)]
pub enum PermissionPolicy {
    AskAsNeeded,
    ReadOnly,
    WorkspaceWrite,
}

#[derive(Clone, Copy, Debug, PartialEq, Eq, Structural)]
pub enum ProjectStatus {
    Available,
    Unavailable,
    PermissionDenied,
}

#[derive(Clone, Copy, Debug, PartialEq, Eq, Structural)]
pub enum StoreHealth {
    Healthy,
    RecoveredLastGood,
}

#[derive(Clone, Copy, Debug, PartialEq, Eq, Structural)]
pub enum ResumeError {
    StillRunning,
    OwnershipUnproven,
    StaleOccupant,
    StaleRevision,
    UnsupportedVersion,
    ConversationMissing,
    ConversationMalformed,
    PermissionDenied,
    ProviderUnavailable,
    ResourceLimit,
    Cancelled,
    ContinuityConflict,
}

#[derive(Clone, Copy, Debug, PartialEq, Eq, Structural)]
pub enum RecognitionConfidence {
    Verified,
    Observed,
    Uncertain,
}

#[derive(Clone, Copy, Debug, PartialEq, Eq, Structural)]
pub enum OccupantOwnership {
    Managed,
    Observed,
    Ambiguous,
}

#[derive(Clone, Copy, Debug, PartialEq, Eq, Structural)]
pub enum RuntimeCapability {
    InteractivePty,
    StructuredEvents,
    ApprovalRequests,
    Cancellation,
    ContextHandoff,
    RemoteLaunch,
    Resume,
    TranscriptExport,
}

/// A set of capabilities.
#[derive(Clone, Copy, Debug, PartialEq, Eq, Structural)]
pub struct RuntimeCapabilitySet {
    pub interactive_pty: bool,
    pub structured_events: bool,
    pub approval_requests: bool,
    pub cancellation: bool,
    pub context_handoff: bool,
    pub remote_launch: bool,
    pub resume: bool,
    pub transcript_export: bool,
}

impl RuntimeCapabilitySet {
    /// The members, each once, in the order in which they are declared.
    #[verifier::opaque]
    pub open spec fn members(self) -> Seq<RuntimeCapability> {
        Seq::empty() + lists::optional(self.interactive_pty, RuntimeCapability::InteractivePty) + lists::optional(
            self.structured_events,
            RuntimeCapability::StructuredEvents,
        ) + lists::optional(self.approval_requests, RuntimeCapability::ApprovalRequests) + lists::optional(
            self.cancellation,
            RuntimeCapability::Cancellation,
        ) + lists::optional(self.context_handoff, RuntimeCapability::ContextHandoff) + lists::optional(
            self.remote_launch,
            RuntimeCapability::RemoteLaunch,
        ) + lists::optional(self.resume, RuntimeCapability::Resume) + lists::optional(
            self.transcript_export,
            RuntimeCapability::TranscriptExport,
        )
    }

    pub fn to_vec(&self) -> (r: Vec<RuntimeCapability>)
        ensures
            r@ == self.members(),
    {
        proof {
            reveal(RuntimeCapabilitySet::members);
        }
        let mut r: Vec<RuntimeCapability> = Vec::new();
        lists::push_if(&mut r, self.interactive_pty, RuntimeCapability::InteractivePty);
        lists::push_if(&mut r, self.structured_events, RuntimeCapability::StructuredEvents);
        lists::push_if(&mut r, self.approval_requests, RuntimeCapability::ApprovalRequests);
        lists::push_if(&mut r, self.cancellation, RuntimeCapability::Cancellation);
        lists::push_if(&mut r, self.context_handoff, RuntimeCapability::ContextHandoff);
        lists::push_if(&mut r, self.remote_launch, RuntimeCapability::RemoteLaunch);
        lists::push_if(&mut r, self.resume, RuntimeCapability::Resume);
        lists::push_if(&mut r, self.transcript_export, RuntimeCapability::TranscriptExport);
        r
    }
}

#[derive(Clone, Copy, Debug, PartialEq, Eq)]
pub enum ProjectError {
    EmptyPath,
    PathContainsNul,
    PermissionDenied,
    Unavailable,
    PathChanged,
    PathValidation,
    NotDirectory,
    PathTooLong,
    NonUnicodePath,
    EmptyLabel,
    LabelContainsNul,
    LabelTooLong,
    StaleRevision,
    AlreadyPresent { id: ProjectId },
    ResourceLimit,
    RevisionOverflow,
    Store,
}

#[derive(Clone, Copy, Debug, PartialEq, Eq)]
pub enum GroupError {
    EmptyName,
    NameContainsNul,
    NameTooLong,
    DuplicateName,
    StaleRevision,
    Rejected,
}

#[derive(Clone, Copy, Debug, PartialEq, Eq)]
pub enum PresetError {
    StaleRevision,
    RiskConfirmationRequired,
    Invalid,
}

#[derive(Clone, Copy, Debug, PartialEq, Eq)]
pub enum SessionStateError {
    Unavailable,
    StaleRevision,
    StopRequiredBeforeArchive,
    Store { code: &'static str },
    Rejected,
}

/// Why a store did not do what it was asked.
#[derive(Clone, Copy, Debug, PartialEq, Eq)]
pub enum StoreError {
    Corrupt,
    UnsafeEntry,
    TooLarge,
    StoreNewer,
    Io { permission_denied: bool },
    InvalidInstanceId,
    Domain(ProjectError),
    GroupDomain(GroupError),
    PresetDomain(PresetError),
    SessionDomain(SessionStateError),
    WorktreeDomain,
}

/// Where a session was launched from.
#[derive(Clone, Copy, Debug, PartialEq, Eq, Structural)]
pub struct SessionOrigin {
    pub project_id: ProjectId,
    pub preset_id: PresetId,
}

/// The authoritative metadata of a hosted session. `can_stop`, `exited`,
/// `removable` and `unread` are the verdicts of the session's life cycle.
#[derive(Debug)]
pub struct HostedSession {
    pub id: HostedSessionId,
    pub project_id: ProjectId,
    pub group_id: Option<GroupId>,
    pub position: u64,
    pub title: String,
    pub title_source: TitleSource,
    pub lifecycle: HostedSessionState,
    pub can_stop: bool,
    pub exited: bool,
    pub removable: bool,
    pub activity: ActivityAggregate,
    pub pinned: bool,
    pub unread: bool,
    pub read_through_sequence: u64,
    pub unread_sequence: Option<u64>,
    pub last_output_sequence: u64,
    pub archived_at: Option<u64>,
    pub revision: u64,
}

impl HostedSession {
    pub fn duplicate(&self) -> (r: Self)
        ensures
            r == *self,
    {
        HostedSession {
            id: self.id,
            project_id: self.project_id,
            group_id: self.group_id,
            position: self.position,
            title: self.title.clone(),
            title_source: self.title_source,
            lifecycle: self.lifecycle,
            can_stop: self.can_stop,
            exited: self.exited,
            removable: self.removable,
            activity: self.activity,
            pinned: self.pinned,
            unread: self.unread,
            read_through_sequence: self.read_through_sequence,
            unread_sequence: self.unread_sequence,
            last_output_sequence: self.last_output_sequence,
            archived_at: self.archived_at,
            revision: self.revision,
        }
    }
}

/// The program that occupies a durable session's terminal, with the
/// capabilities that are in effect for it.
#[derive(Debug)]
pub struct RuntimeOccupant {
    pub runtime_id: String,
    pub safe_version: Option<String>,
    pub generation: u64,
    pub ownership: OccupantOwnership,
    pub capabilities: RuntimeCapabilitySet,
    pub stale: bool,
}

#[derive(Debug)]
pub struct RuntimeRecognition {
    pub occupant: Option<RuntimeOccupant>,
    pub confidence: RecognitionConfidence,
}

pub fn duplicate_text(value: &Option<String>) -> (r: Option<String>)
    ensures
        r == *value,
{
    match value {
        Some(text) => Some(text.clone()),
        None => None,
    }
}

impl RuntimeRecognition {
    pub fn duplicate(&self) -> (r: Self)
        ensures
            r == *self,
    {
        RuntimeRecognition {
            occupant: match &self.occupant {
                Some(o) => Some(
                    RuntimeOccupant {
                        runtime_id: o.runtime_id.clone(),
                        safe_version: duplicate_text(&o.safe_version),
                        generation: o.generation,
                        ownership: o.ownership,
                        capabilities: o.capabilities,
                        stale: o.stale,
                    },
                ),
                None => None,
            },
            confidence: self.confidence,
        }
    }
}

/// A set lists exactly the capabilities that it has, each once.
pub proof fn law_a_set_lists_what_it_has(set: RuntimeCapabilitySet)
    ensures
        set.members().contains(RuntimeCapability::InteractivePty) <==> set.interactive_pty,
        set.members().contains(RuntimeCapability::StructuredEvents) <==> set.structured_events,
        set.members().contains(RuntimeCapability::ApprovalRequests) <==> set.approval_requests,
        set.members().contains(RuntimeCapability::Cancellation) <==> set.cancellation,
        set.members().contains(RuntimeCapability::ContextHandoff) <==> set.context_handoff,
        set.members().contains(RuntimeCapability::RemoteLaunch) <==> set.remote_launch,
        set.members().contains(RuntimeCapability::Resume) <==> set.resume,
        set.members().contains(RuntimeCapability::TranscriptExport) <==> set.transcript_export,
        set.members().no_duplicates(),
{
    reveal(RuntimeCapabilitySet::members);
    let none = Seq::<RuntimeCapability>::empty();
    let s1 = lemma_listed(none, set.interactive_pty, RuntimeCapability::InteractivePty);
    let s2 = lemma_listed(s1, set.structured_events, RuntimeCapability::StructuredEvents);
    let s3 = lemma_listed(s2, set.approval_requests, RuntimeCapability::ApprovalRequests);
    let s4 = lemma_listed(s3, set.cancellation, RuntimeCapability::Cancellation);
    let s5 = lemma_listed(s4, set.context_handoff, RuntimeCapability::ContextHandoff);
    let s6 = lemma_listed(s5, set.remote_launch, RuntimeCapability::RemoteLaunch);
    let s7 = lemma_listed(s6, set.resume, RuntimeCapability::Resume);
    let s8 = lemma_listed(s7, set.transcript_export, RuntimeCapability::TranscriptExport);
    assert(s8 == set.members());
}

/// Listing one more capability adds it, where it is there, and nothing else.
proof fn lemma_listed(
    list: Seq<RuntimeCapability>,
    there: bool,
    capability: RuntimeCapability,
) -> (r: Seq<RuntimeCapability>)
    requires
        list.no_duplicates(),
        !list.contains(capability),
    ensures
        r == list + lists::optional(there, capability),
        r.no_duplicates(),
        forall|c: RuntimeCapability| #[trigger]
            r.contains(c) <==> list.contains(c) || (there && c == capability),
{
    let r = list + lists::optional(there, capability);
    if there {
        assert(r == list.push(capability));
        assert forall|c: RuntimeCapability| #[trigger] r.contains(c) <==> list.contains(c) || c
            == capability by {
            if list.contains(c) {
                let i = choose|i: int| 0 <= i < list.len() && list[i] == c;
                assert(r[i] == c);
            }
            if c == capability {
                assert(r[list.len() as int] == c);
            }
        }
    } else {
        assert(r == list);
    }
    r
}

/// Nothing is known of an activity that was never observed: it is neither busy
/// nor verified, asks for nothing, and belongs to its generation.
pub proof fn law_nothing_is_known_of_an_unobserved_activity(generation: u64)
    ensures
        unknown_activity(generation).state is Unknown,
        unknown_activity(generation).confidence is Estimated,
        !unknown_activity(generation).stale,
        unknown_activity(generation).generation == generation,
        unknown_activity(generation).effective_sequence == 0,
        unknown_activity(generation).attention_sequence is None,
        unknown_activity(generation).source == 0,
{
}

} // verus!
