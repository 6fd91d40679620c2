//! Starting durable sessions and taking over what their hosts report.
use vstd::prelude::*;

use crate::domain::{ActivityAggregate, HostedSession, HostedSessionState, RuntimeCapabilitySet, StoreError};
use crate::ids::HostedSessionId;
use crate::lists;
use crate::runtimes::RuntimeDetectionStatus;
use crate::saved_state;
use crate::saved_state::{SavedAppAttachedSession, SavedDurableHost, SavedState};
use crate::session_library;
use crate::session_library::{SessionLibraryState, SessionSnapshot};

verus! {

#[derive(Clone, Copy, Debug, PartialEq, Eq, Structural)]
pub enum HostedDevUrlAction {
    Preserve,
    MarkGap,
    MarkUnavailable,
}

#[derive(Clone, Copy, Debug, PartialEq, Eq, Structural)]
pub struct HostedPaneStatusProjection {
    pub last_sequence: u64,
    pub has_writer_lease: bool,
    pub dev_url_action: HostedDevUrlAction,
}

/// What a session's host reports.
#[derive(Clone, Copy, Debug, PartialEq, Eq, Structural)]
pub struct HostedStatusInput {
    pub hosted_session_id: HostedSessionId,
    pub state: HostedSessionState,
    pub last_sequence: u64,
    pub durable_sequence: u64,
    pub activity: ActivityAggregate,
    pub has_writer_lease: bool,
    pub visibly_focused: bool,
}

#[derive(Clone, Copy, Debug, PartialEq, Eq, Structural)]
pub enum PendingArchiveAction {
    Nothing,
    Archive,
    Fail,
}

#[derive(Debug, PartialEq, Eq)]
pub struct HostedStatusWarnings {
    pub compatibility_save: Option<String>,
    pub activity_observation: Option<String>,
}

#[derive(Debug)]
pub struct HostedStatusProjection {
    pub pending_archive: PendingArchiveAction,
    pub warnings: HostedStatusWarnings,
}

/// A change of a session: how it was known before, how it is now, and whether
/// it is in sight.
pub ghost struct SessionTransition {
    pub previous: Option<HostedSession>,
    pub current: HostedSession,
    pub visibly_focused: bool,
}

/// Whoever follows how sessions change. One that is to be proved defines both
/// logs: of those given here nothing is known, so that no body can be shown to
/// extend them. They stand only so that an observer outside the proofs need not
/// name them.
pub trait SessionActivityObserver {
    /// The changes it was told of, in order.
    closed spec fn told(&self) -> Seq<SessionTransition> {
        arbitrary()
    }

    /// What it answered last.
    closed spec fn answer(&self) -> Result<(), String> {
        arbitrary()
    }

    /// Tells it of one change.
    fn observe_session_transition(
        &mut self,
        previous: Option<&HostedSession>,
        current: &HostedSession,
        visibly_focused: bool,
    ) -> (r: Result<(), String>)
        ensures
            final(self).told() == old(self).told().push(
                SessionTransition {
                    previous: match previous {
                        Some(session) => Some(*session),
                        None => None,
                    },
                    current: *current,
                    visibly_focused,
                },
            ),
            r == final(self).answer(),
    ;
}

#[derive(Debug)]
pub struct DurableSessionPaths {
    pub runtime_root: String,
    pub session_dir: String,
}

/// The runtime that a launch announces to the host.
#[derive(Debug)]
pub struct RuntimeDetectionResult {
    pub runtime_id: String,
    pub descriptor_version: u32,
    pub status: RuntimeDetectionStatus,
    pub fingerprint: Option<u64>,
    pub safe_version: Option<&'static str>,
    pub capabilities: RuntimeCapabilitySet,
}

#[derive(Debug)]
pub struct DurableLaunch {
    pub executable: String,
    pub arguments: Vec<String>,
    pub cwd: String,
    pub runtime_detection: Option<RuntimeDetectionResult>,
}

/// The link from a session to the one that continues it.
#[derive(Debug)]
pub struct ContinuityLink {
    pub command_id: u128,
    pub source_session_id: HostedSessionId,
    pub replacement_session_id: HostedSessionId,
    pub runtime_id: String,
    pub prior_generation: u64,
    pub replacement_generation: u64,
    pub committed_at: u64,
}

#[derive(Debug)]
pub struct DurableContinuityCommit {
    pub store_root: String,
    pub expected_revision: u64,
    pub link: ContinuityLink,
}

/// Everything a durable session's worker needs.
#[derive(Debug)]
pub struct DurableSessionSpec {
    pub pane_id: u64,
    pub session_id: HostedSessionId,
    pub paths: DurableSessionPaths,
    pub launch: Option<DurableLaunch>,
    pub from_sequence: u64,
    pub expected_occupant_generation: Option<u64>,
    pub continuity: Option<DurableContinuityCommit>,
}

#[derive(Debug)]
pub struct SessionLaunchRequest {
    pub pane_id: u64,
    pub session_id: HostedSessionId,
    pub paths: DurableSessionPaths,
    pub launch: DurableLaunch,
    pub expected_occupant_generation: Option<u64>,
    pub continuity: Option<DurableContinuityCommit>,
}

#[derive(Debug)]
pub struct SessionAttachRequest {
    pub pane_id: u64,
    pub session_id: HostedSessionId,
    pub paths: DurableSessionPaths,
    pub from_sequence: u64,
}

#[derive(Debug)]
pub enum SessionStartRequest {
    Launch(Box<SessionLaunchRequest>),
    Attach(SessionAttachRequest),
}

impl SessionStartRequest {
    /// What the worker is given: a launch starts at the beginning of the output,
    /// an attachment launches nothing and continues where it left off.
    pub open spec fn spec_of(self) -> DurableSessionSpec {
        match self {
            SessionStartRequest::Launch(request) => DurableSessionSpec {
                pane_id: request.pane_id,
                session_id: request.session_id,
                paths: request.paths,
                launch: Some(request.launch),
                from_sequence: 0,
                expected_occupant_generation: request.expected_occupant_generation,
                continuity: request.continuity,
            },
            SessionStartRequest::Attach(request) => DurableSessionSpec {
                pane_id: request.pane_id,
                session_id: request.session_id,
                paths: request.paths,
                launch: None,
                from_sequence: request.from_sequence,
                expected_occupant_generation: None,
                continuity: None,
            },
        }
    }

    pub fn launch(
        pane_id: u64,
        session_id: HostedSessionId,
        paths: DurableSessionPaths,
        launch: DurableLaunch,
        expected_occupant_generation: Option<u64>,
        continuity: Option<DurableContinuityCommit>,
    ) -> (r: Self)
        ensures
            r.spec_of() == (DurableSessionSpec {
                pane_id,
                session_id,
                paths,
                launch: Some(launch),
                from_sequence: 0,
                expected_occupant_generation,
                continuity,
            }),
    {
        SessionStartRequest::Launch(
            Box::new(
                SessionLaunchRequest {
                    pane_id,
                    session_id,
                    paths,
                    launch,
                    expected_occupant_generation,
                    continuity,
                },
            ),
        )
    }

    pub fn attach(
        pane_id: u64,
        session_id: HostedSessionId,
        paths: DurableSessionPaths,
        from_sequence: u64,
    ) -> (r: Self)
        ensures
            r.spec_of() == (DurableSessionSpec {
                pane_id,
                session_id,
                paths,
                launch: None,
                from_sequence,
                expected_occupant_generation: None,
                continuity: None,
            }),
    {
        SessionStartRequest::Attach(
            SessionAttachRequest { pane_id, session_id, paths, from_sequence },
        )
    }

    pub fn into_spec(self) -> (r: DurableSessionSpec)
        ensures
            r == self.spec_of(),
    {
        match self {
            SessionStartRequest::Launch(boxed) => {
                let request: SessionLaunchRequest = *boxed;
                DurableSessionSpec {
                    pane_id: request.pane_id,
                    session_id: request.session_id,
                    paths: request.paths,
                    launch: Some(request.launch),
                    from_sequence: 0,
                    expected_occupant_generation: request.expected_occupant_generation,
                    continuity: request.continuity,
                }
            },
            SessionStartRequest::Attach(request) => DurableSessionSpec {
                pane_id: request.pane_id,
                session_id: request.session_id,
                paths: request.paths,
                launch: None,
                from_sequence: request.from_sequence,
                expected_occupant_generation: None,
                continuity: None,
            },
        }
    }
}

/// States in which the host of a session cannot be reached.
pub open spec fn host_unavailable(state: HostedSessionState) -> bool {
    state is Exited || state is Failed || state is Orphaned || state is Offline
        || state is PermissionDenied || state is Incompatible
}

fn hosted_state_marks_host_unavailable(state: HostedSessionState) -> (r: bool)
    ensures
        r == host_unavailable(state),
{
    match state {
        HostedSessionState::Exited
        | HostedSessionState::Failed
        | HostedSessionState::Orphaned
        | HostedSessionState::Offline
        | HostedSessionState::PermissionDenied
        | HostedSessionState::Incompatible => true,
        _ => false,
    }
}

impl HostedStatusInput {
    /// What the pane of the session takes over.
    pub fn pane_projection(&self) -> (r: HostedPaneStatusProjection)
        ensures
            r.last_sequence == self.last_sequence,
            r.has_writer_lease == self.has_writer_lease,
            r.dev_url_action == if self.state == HostedSessionState::Gap {
                HostedDevUrlAction::MarkGap
            } else if host_unavailable(self.state) {
                HostedDevUrlAction::MarkUnavailable
            } else {
                HostedDevUrlAction::Preserve
            },
            r.dev_url_action is MarkGap <==> self.state is Gap,
            r.dev_url_action is MarkUnavailable <==> (self.state is Exited || self.state is Failed || self.state
                is Orphaned || self.state is Offline || self.state is PermissionDenied || self.state
                is Incompatible),
    {
        let dev_url_action: HostedDevUrlAction = if self.state == HostedSessionState::Gap {
            HostedDevUrlAction::MarkGap
        } else if hosted_state_marks_host_unavailable(self.state) {
            HostedDevUrlAction::MarkUnavailable
        } else {
            HostedDevUrlAction::Preserve
        };
        HostedPaneStatusProjection {
            last_sequence: self.last_sequence,
            has_writer_lease: self.has_writer_lease,
            dev_url_action,
        }
    }
}

/// What becomes of an archive that waits for the session to stop: an exit lets
/// it go ahead, any other end of the session makes it fail, and else it waits.
pub open spec fn archive_action(
    waiting: Option<HostedSessionId>,
    id: HostedSessionId,
    state: HostedSessionState,
) -> PendingArchiveAction {
    if waiting != Some(id) {
        PendingArchiveAction::Nothing
    } else if state is Exited {
        PendingArchiveAction::Archive
    } else if host_unavailable(state) || state is Gap {
        PendingArchiveAction::Fail
    } else {
        PendingArchiveAction::Nothing
    }
}

pub fn pending_archive_action(
    library: &SessionLibraryState,
    id: HostedSessionId,
    state: HostedSessionState,
) -> (r: PendingArchiveAction)
    ensures
        r == archive_action(library.pending_archive_after_stop, id, state),
{
    if library.pending_archive_after_stop != Some(id) {
        return PendingArchiveAction::Nothing;
    }
    match state {
        HostedSessionState::Exited => PendingArchiveAction::Archive,
        HostedSessionState::Failed
        | HostedSessionState::Offline
        | HostedSessionState::Orphaned
        | HostedSessionState::Gap
        | HostedSessionState::PermissionDenied
        | HostedSessionState::Incompatible => PendingArchiveAction::Fail,
        _ => PendingArchiveAction::Nothing,
    }
}

pub open spec fn larger(a: u64, b: u64) -> u64 {
    if a >= b {
        a
    } else {
        b
    }
}

/// The record with its host's watermarks advanced, never set back.
pub open spec fn record_advanced(
    record: SavedAppAttachedSession,
    last_sequence: u64,
    durable_sequence: u64,
) -> SavedAppAttachedSession {
    match record.durable_host {
        None => record,
        Some(host) => SavedAppAttachedSession {
            durable_host: Some(
                SavedDurableHost {
                    last_sequence: larger(host.last_sequence, last_sequence),
                    durable_sequence: larger(host.durable_sequence, durable_sequence),
                    ..host
                },
            ),
            ..record
        },
    }
}

/// The records with the watermarks of one session advanced.
pub open spec fn advanced(
    records: Seq<SavedAppAttachedSession>,
    id: HostedSessionId,
    last_sequence: u64,
    durable_sequence: u64,
) -> Seq<SavedAppAttachedSession> {
    let i = lists::first_index(records, saved_state::is_record(id));
    if i < records.len() {
        records.update(i, record_advanced(records[i], last_sequence, durable_sequence))
    } else {
        records
    }
}

fn advance_watermarks(
    saved: &mut SavedState,
    id: HostedSessionId,
    last_sequence: u64,
    durable_sequence: u64,
)
    ensures
        final(saved).app_attached_sessions@ == advanced(
            old(saved).app_attached_sessions@,
            id,
            last_sequence,
            durable_sequence,
        ),
{
    let i: usize = saved.record_index(id);
    if i < saved.app_attached_sessions.len() {
        let mut record: SavedAppAttachedSession = saved.app_attached_sessions[i].duplicate();
        match record.durable_host.take() {
            Some(host) => {
                let mut next: SavedDurableHost = host;
                if next.last_sequence < last_sequence {
                    next.last_sequence = last_sequence;
                }
                if next.durable_sequence < durable_sequence {
                    next.durable_sequence = durable_sequence;
                }
                record.durable_host = Some(next);
            },
            None => {},
        }
        saved.app_attached_sessions.set(i, record);
    }
}

fn error_of(outcome: Result<(), String>) -> (r: Option<String>)
    ensures
        r == match outcome {
            Ok(()) => None,
            Err(message) => Some(message),
        },
{
    match outcome {
        Ok(()) => None,
        Err(message) => Some(message),
    }
}

/// What is reported of a host's status once it was taken over: what becomes of
/// a waiting archive, and what went wrong without being fatal.
pub fn hosted_status_projection(
    library: &SessionLibraryState,
    id: HostedSessionId,
    state: HostedSessionState,
    persisted: Result<(), String>,
    observed: Result<(), String>,
) -> (r: HostedStatusProjection)
    ensures
        r == (HostedStatusProjection {
            pending_archive: archive_action(library.pending_archive_after_stop, id, state),
            warnings: HostedStatusWarnings {
                compatibility_save: match persisted {
                    Ok(()) => None,
                    Err(message) => Some(message),
                },
                activity_observation: match observed {
                    Ok(()) => None,
                    Err(message) => Some(message),
                },
            },
        }),
        r.warnings.compatibility_save is Some <==> persisted is Err,
        r.warnings.activity_observation is Some <==> observed is Err,
{
    HostedStatusProjection {
        pending_archive: pending_archive_action(library, id, state),
        warnings: HostedStatusWarnings {
            compatibility_save: error_of(persisted),
            activity_observation: error_of(observed),
        },
    }
}

/// Whether the library already stands where the host says.
pub open spec fn is_current(library: SessionLibraryState, input: HostedStatusInput) -> bool {
    library.already_reconciled(
        input.hosted_session_id,
        input.state,
        input.activity,
        input.last_sequence,
    )
}

/// Why a host's report cannot be taken over, if so: the store refused, or could
/// not be read again.
pub open spec fn status_failure(
    library: SessionLibraryState,
    input: HostedStatusInput,
    reply: Result<HostedSession, StoreError>,
    loaded: Result<SessionSnapshot, StoreError>,
) -> Option<StoreError> {
    if is_current(library, input) {
        None
    } else {
        match reply {
            Err(error) => Some(error),
            Ok(_) => match library.reload_result(loaded) {
                Err(error) => Some(error),
                Ok(()) => None,
            },
        }
    }
}

/// The library after a host's report.
pub open spec fn status_library(
    library: SessionLibraryState,
    input: HostedStatusInput,
    reply: Result<HostedSession, StoreError>,
    loaded: Result<SessionSnapshot, StoreError>,
) -> SessionLibraryState {
    if is_current(library, input) || (reply matches Err(error) && !session_library::is_stale(
        error,
    )) {
        library
    } else {
        library.reloaded(loaded)
    }
}

/// The saved records after a host's report.
pub open spec fn status_records(
    before: Seq<SavedAppAttachedSession>,
    library: SessionLibraryState,
    input: HostedStatusInput,
    reply: Result<HostedSession, StoreError>,
    loaded: Result<SessionSnapshot, StoreError>,
) -> Seq<SavedAppAttachedSession> {
    let records = advanced(
        before,
        input.hosted_session_id,
        input.last_sequence,
        input.durable_sequence,
    );
    if is_current(library, input) {
        records
    } else {
        match reply {
            Ok(session) => if status_failure(library, input, reply, loaded) is None {
                saved_state::applied(records, session)
            } else {
                records
            },
            Err(error) => if session_library::is_stale(error) {
                saved_state::synced(records, status_library(library, input, reply, loaded).known())
            } else {
                records
            },
        }
    }
}

/// Starts durable sessions; `T` is the channel on which their events arrive.
pub struct SessionCoordinator<T> {
    pub event_tx: T,
}

impl<T> SessionCoordinator<T> {
    pub fn new(event_tx: T) -> (r: Self)
        ensures
            r.event_tx == event_tx,
    {
        SessionCoordinator { event_tx }
    }

    /// The worker that a request calls for, and the channel it reports to.
    pub fn start(&self, request: SessionStartRequest) -> (r: (DurableSessionSpec, &T))
        ensures
            r.0 == request.spec_of(),
            *r.1 == self.event_tx,
    {
        (request.into_spec(), &self.event_tx)
    }

    /// Takes over a host's report: the saved watermarks advance, the library
    /// follows the store's answer, and only then the records are saved and the
    /// observer is told, once, of the session as it was known and as it is.
    /// Failures of those two are reported, not fatal. Where the session cannot be
    /// brought up to date the observer hears nothing, and `persist` need not be
    /// callable at all.
    pub fn project_hosted_status<O: SessionActivityObserver, F: FnOnce(&SavedState) -> Result<
        (),
        String,
    >>(
        &self,
        input: HostedStatusInput,
        saved: &mut SavedState,
        library: &mut SessionLibraryState,
        reply: Result<HostedSession, StoreError>,
        loaded: Result<SessionSnapshot, StoreError>,
        observer: &mut O,
        persist: F,
    ) -> (r: Result<HostedStatusProjection, StoreError>)
        requires
            status_failure(*old(library), input, reply, loaded) is None ==> forall|
                state: &SavedState,
            |
                state.app_attached_sessions@ == status_records(
                    old(saved).app_attached_sessions@,
                    *old(library),
                    input,
                    reply,
                    loaded,
                ) ==> #[trigger] persist.requires((state,)),
        ensures
            *final(library) == status_library(*old(library), input, reply, loaded),
            final(saved).app_attached_sessions@ == status_records(
                old(saved).app_attached_sessions@,
                *old(library),
                input,
                reply,
                loaded,
            ),
            match status_failure(*old(library), input, reply, loaded) {
                Some(error) => {
                    &&& r == Err::<HostedStatusProjection, StoreError>(error)
                    &&& *final(observer) == *old(observer)
                },
                None => {
                    let id = input.hosted_session_id;
                    &&& r matches Ok(projection)
                    &&& projection.pending_archive == archive_action(
                        old(library).pending_archive_after_stop,
                        id,
                        input.state,
                    )
                    &&& exists|outcome: Result<(), String>| #[trigger]
                        persist.ensures((final(saved),), outcome)
                            && projection.warnings.compatibility_save == match outcome {
                            Ok(()) => None::<String>,
                            Err(message) => Some(message),
                        }
                    &&& final(observer).told() == old(observer).told().push(
                        SessionTransition {
                            previous: old(library).found(id),
                            current: if is_current(*old(library), input) {
                                old(library).found(id)->0
                            } else {
                                reply->Ok_0
                            },
                            visibly_focused: input.visibly_focused,
                        },
                    )
                    &&& projection.warnings.activity_observation == match final(observer).answer() {
                        Ok(()) => None::<String>,
                        Err(message) => Some(message),
                    }
                },
            },
            r is Ok ==> (r->Ok_0.pending_archive is Archive ==> old(library).pending_archive_after_stop == Some(
                input.hosted_session_id,
            ) && input.state is Exited),
    {
        let id: HostedSessionId = input.hosted_session_id;
        let previous: Option<HostedSession> = match library.session(id) {
            Some(session) => Some(session.duplicate()),
            None => None,
        };
        advance_watermarks(saved, id, input.last_sequence, input.durable_sequence);
        let current: HostedSession = match library.reconcile(
            saved,
            id,
            input.state,
            input.activity,
            input.last_sequence,
            reply,
            loaded,
        ) {
            Ok(session) => session,
            Err(error) => {
                return Err(error);
            },
        };
        let persisted: Result<(), String> = persist(&*saved);
        let observed: Result<(), String> = observer.observe_session_transition(
            previous.as_ref(),
            &current,
            input.visibly_focused,
        );
        Ok(hosted_status_projection(library, id, input.state, persisted, observed))
    }
}

/// A report never sets a watermark back and touches no other session.
pub proof fn law_watermarks_only_advance(
    records: Seq<SavedAppAttachedSession>,
    id: HostedSessionId,
    last_sequence: u64,
    durable_sequence: u64,
    k: int,
)
    requires
        0 <= k < records.len(),
    ensures
        ({
            let after = advanced(records, id, last_sequence, durable_sequence);
            &&& after.len() == records.len()
            &&& after[k].id == records[k].id
            &&& records[k].id != id ==> after[k] == records[k]
            &&& records[k].durable_host matches Some(before) ==> after[k].durable_host matches Some(
                now,
            ) && now.last_sequence >= before.last_sequence && now.durable_sequence
                >= before.durable_sequence
        }),
{
    lists::lemma_first_index_bounds(records, saved_state::is_record(id));
}

/// Reporting the same watermarks twice is as good as once.
pub proof fn law_watermarks_are_idempotent(
    records: Seq<SavedAppAttachedSession>,
    id: HostedSessionId,
    last_sequence: u64,
    durable_sequence: u64,
)
    ensures
        ({
            let once = advanced(records, id, last_sequence, durable_sequence);
            advanced(once, id, last_sequence, durable_sequence) == once
        }),
{
    lists::lemma_first_index_bounds(records, saved_state::is_record(id));
    let i = lists::first_index(records, saved_state::is_record(id));
    let once = advanced(records, id, last_sequence, durable_sequence);
    if i < records.len() {
        assert forall|k: int| 0 <= k < i implies !saved_state::is_record(id)(#[trigger] once[k]) by {
            assert(once[k] == records[k]);
        }
        lists::lemma_first_index(once, saved_state::is_record(id), i);
        assert(advanced(once, id, last_sequence, durable_sequence) =~= once);
    }
}

/// What a started session's worker is given is what was asked for: a launch
/// carries its program from the beginning of the output, an attachment launches
/// nothing, commits nothing and goes on where the output was left.
pub proof fn law_workers_are_given_what_was_asked_for(request: SessionStartRequest)
    ensures
        request matches SessionStartRequest::Launch(launch) ==> ({
            let spec = request.spec_of();
            &&& spec.pane_id == launch.pane_id
            &&& spec.session_id == launch.session_id
            &&& spec.paths == launch.paths
            &&& spec.launch == Some(launch.launch)
            &&& spec.from_sequence == 0
            &&& spec.expected_occupant_generation == launch.expected_occupant_generation
            &&& spec.continuity == launch.continuity
        }),
        request matches SessionStartRequest::Attach(attach) ==> ({
            let spec = request.spec_of();
            &&& spec.pane_id == attach.pane_id
            &&& spec.session_id == attach.session_id
            &&& spec.paths == attach.paths
            &&& spec.launch is None
            &&& spec.from_sequence == attach.from_sequence
            &&& spec.expected_occupant_generation is None
            &&& spec.continuity is None
        }),
{
}

/// A stop that an archive waits for is followed up for that session alone: it is
/// archived exactly where it exited, given up where its host is out of reach or
/// its output has a gap, and waited for as long as it runs.
pub proof fn law_a_waiting_archive_follows_the_exit(
    waiting: Option<HostedSessionId>,
    id: HostedSessionId,
    state: HostedSessionState,
)
    ensures
        archive_action(waiting, id, state) is Archive <==> waiting == Some(id)
            && state is Exited,
        archive_action(waiting, id, state) is Fail <==> waiting == Some(id) && (state is Gap
            || state is Failed || state is Orphaned || state is Offline
            || state is PermissionDenied || state is Incompatible),
{
}

/// The states in which a session's host cannot be reached: none in which the
/// session starts, runs, detaches, stops or has a gap.
pub proof fn law_hosts_are_unavailable_once_gone(state: HostedSessionState)
    ensures
        host_unavailable(state) <==> (state == HostedSessionState::Exited || state
            == HostedSessionState::Failed || state == HostedSessionState::Orphaned || state
            == HostedSessionState::Offline || state == HostedSessionState::PermissionDenied
            || state == HostedSessionState::Incompatible),
        state is Gap ==> !host_unavailable(state),
{
}

/// The first record of the session takes over both watermarks, each as far as
/// it is ahead; another session's record, or one without a host, stays.
pub proof fn law_watermarks_reach_what_was_reported(
    records: Seq<SavedAppAttachedSession>,
    id: HostedSessionId,
    last_sequence: u64,
    durable_sequence: u64,
    k: int,
)
    requires
        0 <= k < records.len(),
        records[k].id == id,
        forall|j: int| 0 <= j < k ==> (#[trigger] records[j]).id != id,
    ensures
        ({
            let after = advanced(records, id, last_sequence, durable_sequence)[k];
            &&& records[k].durable_host is None ==> after == records[k]
            &&& records[k].durable_host matches Some(before) ==> after.durable_host matches Some(
                now,
            ) && ({
                &&& now.last_sequence >= last_sequence
                &&& now.durable_sequence >= durable_sequence
                &&& now.last_sequence == before.last_sequence || now.last_sequence
                    == last_sequence
                &&& now.durable_sequence == before.durable_sequence || now.durable_sequence
                    == durable_sequence
            })
        }),
{
    lists::lemma_first_index(records, saved_state::is_record(id), k);
}

/// A report changes the store's records only where the library does not know it
/// yet, and fails only then: on what the store answered, or on reading it again.
pub proof fn law_known_reports_are_not_repeated(
    before: Seq<SavedAppAttachedSession>,
    library: SessionLibraryState,
    input: HostedStatusInput,
    reply: Result<HostedSession, StoreError>,
    loaded: Result<SessionSnapshot, StoreError>,
)
    ensures
        (library.found(input.hosted_session_id) matches Some(current) && current.lifecycle
            == input.state && current.activity == input.activity
            && current.last_output_sequence >= input.last_sequence) ==> ({
            &&& status_failure(library, input, reply, loaded) is None
            &&& status_library(library, input, reply, loaded) == library
            &&& status_records(before, library, input, reply, loaded) == advanced(
                before,
                input.hosted_session_id,
                input.last_sequence,
                input.durable_sequence,
            )
        }),
        status_failure(library, input, reply, loaded) matches Some(error) ==> reply == Err::<
            HostedSession,
            StoreError,
        >(error) || (reply is Ok && (!library.has_repository || loaded == Err::<
            SessionSnapshot,
            StoreError,
        >(error))),
        status_failure(library, input, reply, loaded) is None ==> !(library.found(
            input.hosted_session_id,
        ) matches Some(current) && current.lifecycle == input.state && current.activity
            == input.activity && current.last_output_sequence >= input.last_sequence)
            ==> reply is Ok && library.has_repository && loaded is Ok && status_library(
            library,
            input,
            reply,
            loaded,
        ).snapshot == Some(loaded->Ok_0),
{
}

} // verus!
