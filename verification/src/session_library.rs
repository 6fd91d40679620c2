//! The library of hosted sessions: what the session store last said, what of it
//! is visible, and how replies of the store are taken over.
use vstd::prelude::*;

use crate::domain::{
    ActivityAggregate, HostedSession, HostedSessionState, SessionStateError, StoreError, StoreHealth,
};
use crate::ids::{GroupId, HostedSessionId, ProjectId};
use crate::lists;
use crate::saved_state;
use crate::saved_state::{SavedAppAttachedSession, SavedSessionPlacement, SavedState};
use crate::text;

verus! {

#[derive(Clone, Copy, Debug, PartialEq, Eq, Structural)]
pub enum SessionLibraryView {
    Active,
    Archive,
}

#[derive(Clone, Copy, Debug, PartialEq, Eq, Structural)]
pub enum SessionLibraryFilter {
    All,
    Unread,
    Pinned,
}

#[derive(Clone, Copy, Debug, PartialEq, Eq, Structural)]
pub enum SessionLibraryFailure {
    Corrupt,
    Newer,
    PermissionDenied,
    Unavailable,
}

#[derive(Clone, Copy, Debug, PartialEq, Eq, Structural)]
pub enum SessionLibraryRecovery {
    RecoveredLastGood,
    Corrupt,
    Newer,
    PermissionDenied,
    Unavailable,
}

#[derive(Clone, Copy, Debug, PartialEq, Eq, Structural)]
pub enum SessionLibraryLoadState {
    Ready,
    Failed(SessionLibraryFailure),
}

/// What the session store holds at one revision.
#[derive(Debug)]
pub struct SessionSnapshot {
    pub revision: u64,
    pub sessions: Vec<HostedSession>,
    pub health: StoreHealth,
    pub read_only: bool,
}

/// What would be removed with a session.
#[derive(Clone, Copy, Debug, PartialEq, Eq, Structural)]
pub struct RemovalManifest {
    pub metadata_bytes: u64,
    pub journal_bytes: u64,
    pub transcript_bytes: u64,
    pub artifact_bytes: u64,
    pub file_count: u64,
    pub requires_title_confirmation: bool,
}

#[derive(Debug)]
pub struct SessionRemovalPlan {
    pub session_id: HostedSessionId,
    pub title: String,
    pub expected_revision: u64,
    pub manifest: RemovalManifest,
}

/// A change of one session that the store is asked to make.
#[derive(Debug, PartialEq, Eq)]
pub enum SessionMutation {
    SetPinned(bool),
    ObserveOutput { through: u64 },
    MarkUnread { at: u64 },
    MarkRead { through: u64 },
    Archive { at: u64 },
    Restore,
    Rename(String),
    SetLifecycle(HostedSessionState),
    ApplyActivity { activity: ActivityAggregate, visible_through: Option<u64> },
    Reconcile { lifecycle: HostedSessionState, activity: ActivityAggregate, through: u64 },
}

/// A mutation as it is handed to the store.
#[derive(Debug)]
pub struct MutationRequest {
    pub id: HostedSessionId,
    pub expected_revision: u64,
    pub mutation: SessionMutation,
    pub at: u64,
}

/// A rearrangement as it is handed to the store.
#[derive(Debug)]
pub struct PlacementsRequest {
    pub placements: Vec<SavedSessionPlacement>,
    pub expected_revision: u64,
    pub at: u64,
}

#[derive(Clone, Copy, Debug, PartialEq, Eq, Structural)]
pub struct RemovalRequest {
    pub id: HostedSessionId,
    pub expected_revision: u64,
}

/// What came of opening the session store.
#[derive(Clone, Copy, Debug, PartialEq, Eq)]
pub enum StoreOpening {
    NoDirectory,
    Refused(StoreError),
    Opened,
}

#[derive(Debug)]
pub struct SessionLibraryState {
    pub has_repository: bool,
    pub snapshot: Option<SessionSnapshot>,
    pub load_state: SessionLibraryLoadState,
    pub view: SessionLibraryView,
    pub filter: SessionLibraryFilter,
    pub pending_stop_archive_review: Option<HostedSessionId>,
    pub pending_archive_after_stop: Option<HostedSessionId>,
    pub pending_removal: Option<SessionRemovalPlan>,
    pub renaming: Option<HostedSessionId>,
}

/// The error of an operation for which no store is open.
pub open spec fn unavailable() -> StoreError {
    StoreError::SessionDomain(SessionStateError::Unavailable)
}

fn no_store() -> (r: StoreError)
    ensures
        r == unavailable(),
{
    StoreError::SessionDomain(SessionStateError::Unavailable)
}

pub open spec fn is_session(id: HostedSessionId) -> spec_fn(HostedSession) -> bool {
    |s: HostedSession| s.id == id
}

pub open spec fn is_stale(error: StoreError) -> bool {
    error matches StoreError::SessionDomain(SessionStateError::StaleRevision)
}

/// The kind of failure that a store's error amounts to.
pub open spec fn store_failure(error: StoreError) -> SessionLibraryFailure {
    match error {
        StoreError::Corrupt | StoreError::UnsafeEntry
        | StoreError::TooLarge => SessionLibraryFailure::Corrupt,
        StoreError::StoreNewer => SessionLibraryFailure::Newer,
        StoreError::Io { permission_denied } => if permission_denied {
            SessionLibraryFailure::PermissionDenied
        } else {
            SessionLibraryFailure::Unavailable
        },
        _ => SessionLibraryFailure::Unavailable,
    }
}

pub fn classify_store_failure(error: &StoreError) -> (r: SessionLibraryFailure)
    ensures
        r == store_failure(*error),
{
    match error {
        StoreError::Corrupt | StoreError::UnsafeEntry | StoreError::TooLarge => {
            SessionLibraryFailure::Corrupt
        },
        StoreError::StoreNewer => SessionLibraryFailure::Newer,
        StoreError::Io { permission_denied } => {
            if *permission_denied {
                SessionLibraryFailure::PermissionDenied
            } else {
                SessionLibraryFailure::Unavailable
            }
        },
        _ => SessionLibraryFailure::Unavailable,
    }
}

/// Whether a view shows a session.
pub open spec fn in_view(view: SessionLibraryView, session: HostedSession) -> bool {
    match view {
        SessionLibraryView::Active => session.archived_at is None,
        SessionLibraryView::Archive => session.archived_at is Some,
    }
}

/// Whether a filter lets a session through.
pub open spec fn in_filter(filter: SessionLibraryFilter, session: HostedSession) -> bool {
    match filter {
        SessionLibraryFilter::All => true,
        SessionLibraryFilter::Unread => session.unread,
        SessionLibraryFilter::Pinned => session.pinned,
    }
}

/// Pinned sessions first, then by position, then by identity.
pub open spec fn list_before() -> spec_fn(HostedSession, HostedSession) -> bool {
    |a: HostedSession, b: HostedSession|
        if a.pinned != b.pinned {
            a.pinned
        } else if a.position != b.position {
            a.position < b.position
        } else {
            a.id.value < b.id.value
        }
}

/// By project, and within a project as in its lists.
pub open spec fn library_before() -> spec_fn(HostedSession, HostedSession) -> bool {
    |a: HostedSession, b: HostedSession|
        if a.project_id != b.project_id {
            a.project_id.value < b.project_id.value
        } else {
            list_before()(a, b)
        }
}

/// The order in which records enter the store: by project, group, position and
/// identity; the project root comes before its groups.
pub open spec fn migration_before() -> spec_fn(
    SavedAppAttachedSession,
    SavedAppAttachedSession,
) -> bool {
    |a: SavedAppAttachedSession, b: SavedAppAttachedSession|
        if a.origin.project_id != b.origin.project_id {
            a.origin.project_id.value < b.origin.project_id.value
        } else if a.group_id != b.group_id {
            match (a.group_id, b.group_id) {
                (None, _) => true,
                (_, None) => false,
                (Some(x), Some(y)) => x.value < y.value,
            }
        } else if a.position != b.position {
            a.position < b.position
        } else {
            a.id.value < b.id.value
        }
}

impl SessionLibraryState {
    /// The sessions of the last snapshot.
    pub open spec fn known(self) -> Seq<HostedSession> {
        match self.snapshot {
            Some(snapshot) => snapshot.sessions@,
            None => Seq::empty(),
        }
    }

    /// The revision of the last snapshot.
    pub open spec fn current_revision(self) -> u64 {
        match self.snapshot {
            Some(snapshot) => snapshot.revision,
            None => 0,
        }
    }

    /// The session of that identity in the last snapshot.
    pub open spec fn found(self, id: HostedSessionId) -> Option<HostedSession> {
        lists::first_where(self.known(), is_session(id))
    }

    pub open spec fn shown_in(self, project_id: ProjectId, group_id: Option<GroupId>) -> spec_fn(
        HostedSession,
    ) -> bool {
        |s: HostedSession|
            s.project_id == project_id && s.group_id == group_id && in_view(self.view, s)
                && in_filter(self.filter, s)
    }

    pub open spec fn shown(self) -> spec_fn(HostedSession) -> bool {
        |s: HostedSession| in_view(self.view, s) && in_filter(self.filter, s)
    }

    /// The visible sessions of one list, in the order in which they are shown.
    pub open spec fn visible(self, project_id: ProjectId, group_id: Option<GroupId>) -> Seq<
        HostedSession,
    > {
        lists::stable_sort(
            lists::kept(self.known(), self.shown_in(project_id, group_id)),
            list_before(),
        )
    }

    /// All visible sessions, in the order in which they are shown.
    pub open spec fn visible_all(self) -> Seq<HostedSession> {
        lists::stable_sort(lists::kept(self.known(), self.shown()), library_before())
    }

    /// The library after the store was read: a failed read changes nothing.
    pub open spec fn reloaded(self, loaded: Result<SessionSnapshot, StoreError>) -> Self {
        match loaded {
            Ok(snapshot) if self.has_repository => SessionLibraryState {
                snapshot: Some(snapshot),
                load_state: SessionLibraryLoadState::Ready,
                ..self
            },
            _ => self,
        }
    }

    /// What reading the store answers.
    pub open spec fn reload_result(self, loaded: Result<SessionSnapshot, StoreError>) -> Result<
        (),
        StoreError,
    > {
        if !self.has_repository {
            Err(unavailable())
        } else {
            match loaded {
                Ok(_) => Ok(()),
                Err(error) => Err(error),
            }
        }
    }

    /// Whether a reconciliation would change nothing: the store already has the
    /// life cycle and activity and has seen the output.
    pub open spec fn already_reconciled(
        self,
        id: HostedSessionId,
        lifecycle: HostedSessionState,
        activity: ActivityAggregate,
        through: u64,
    ) -> bool {
        self.found(id) matches Some(current) && current.lifecycle == lifecycle && current.activity
            == activity && current.last_output_sequence >= through
    }

    /// What confirming the pending removal answers before the store is asked.
    pub open spec fn removal_check(self, confirmation: Seq<char>) -> Result<
        RemovalRequest,
        StoreError,
    > {
        match self.pending_removal {
            None => Err(unavailable()),
            Some(plan) => if plan.manifest.requires_title_confirmation && confirmation
                != plan.title@ {
                Err(
                    StoreError::SessionDomain(
                        SessionStateError::Store { code: "title-confirmation-mismatch" },
                    ),
                )
            } else if !self.has_repository {
                Err(unavailable())
            } else {
                Ok(
                    RemovalRequest {
                        id: plan.session_id,
                        expected_revision: self.current_revision(),
                    },
                )
            },
        }
    }

    fn fresh(has_repository: bool, load_state: SessionLibraryLoadState) -> (r: Self)
        ensures
            r == fresh_library(has_repository, load_state),
    {
        SessionLibraryState {
            has_repository,
            snapshot: None,
            load_state,
            view: SessionLibraryView::Active,
            filter: SessionLibraryFilter::All,
            pending_stop_archive_review: None,
            pending_archive_after_stop: None,
            pending_removal: None,
            renaming: None,
        }
    }

    /// The library as it stands once the store was opened and before it was
    /// read, or the failure that opening ended in.
    pub fn open_default(opening: StoreOpening) -> (r: Self)
        ensures
            r == match opening {
                StoreOpening::NoDirectory => fresh_library(
                    false,
                    SessionLibraryLoadState::Failed(SessionLibraryFailure::Unavailable),
                ),
                StoreOpening::Refused(error) => fresh_library(
                    false,
                    SessionLibraryLoadState::Failed(store_failure(error)),
                ),
                StoreOpening::Opened => fresh_library(true, SessionLibraryLoadState::Ready),
            },
            r.has_repository <==> opening is Opened,
            r.load_state is Ready <==> opening is Opened,
            opening is NoDirectory ==> r.load_state == SessionLibraryLoadState::Failed(
                SessionLibraryFailure::Unavailable,
            ),
    {
        match opening {
            StoreOpening::NoDirectory => Self::fresh(
                false,
                SessionLibraryLoadState::Failed(SessionLibraryFailure::Unavailable),
            ),
            StoreOpening::Refused(error) => Self::fresh(
                false,
                SessionLibraryLoadState::Failed(classify_store_failure(&error)),
            ),
            StoreOpening::Opened => Self::fresh(true, SessionLibraryLoadState::Ready),
        }
    }

    /// Ends opening: a failure is remembered, a success brings the saved records
    /// up to date.
    pub fn finish_open(&mut self, saved: &mut SavedState, outcome: Result<(), StoreError>)
        ensures
            match outcome {
                Err(error) => {
                    &&& *final(self) == (SessionLibraryState {
                        load_state: SessionLibraryLoadState::Failed(store_failure(error)),
                        ..*old(self)
                    })
                    &&& final(saved).app_attached_sessions@ == old(saved).app_attached_sessions@
                },
                Ok(()) => {
                    &&& *final(self) == *old(self)
                    &&& final(saved).app_attached_sessions@ == saved_state::synced(
                        old(saved).app_attached_sessions@,
                        old(self).known(),
                    )
                },
            },
            outcome is Err ==> final(self).load_state is Failed && final(saved).app_attached_sessions@
                == old(saved).app_attached_sessions@,
            outcome is Ok ==> final(self).load_state == old(self).load_state,
            final(self).snapshot == old(self).snapshot,
    {
        match outcome {
            Err(error) => {
                self.load_state = SessionLibraryLoadState::Failed(classify_store_failure(&error));
            },
            Ok(()) => {
                self.sync_saved_projection(saved);
            },
        }
    }

    /// Takes over what reading the store returned.
    pub fn reload(&mut self, loaded: Result<SessionSnapshot, StoreError>) -> (r: Result<
        (),
        StoreError,
    >)
        ensures
            *final(self) == old(self).reloaded(loaded),
            r == old(self).reload_result(loaded),
    {
        if !self.has_repository {
            return Err(no_store());
        }
        match loaded {
            Ok(snapshot) => {
                self.load_state = SessionLibraryLoadState::Ready;
                self.snapshot = Some(snapshot);
                Ok(())
            },
            Err(error) => Err(error),
        }
    }

    /// The saved records in the order in which those that the store lacks are
    /// to be created there; none where the store is read-only.
    pub fn migration_order(&self, saved: &SavedState) -> (r: Vec<HostedSessionId>)
        ensures
            r@ == if self.snapshot matches Some(snapshot) && snapshot.read_only {
                Seq::empty()
            } else {
                lists::stable_sort(saved.app_attached_sessions@, migration_before()).map_values(
                    |record: SavedAppAttachedSession| record.id,
                )
            },
    {
        let mut ids: Vec<HostedSessionId> = Vec::new();
        let read_only: bool = match &self.snapshot {
            Some(snapshot) => snapshot.read_only,
            None => false,
        };
        if read_only {
            return ids;
        }
        let ghost all = saved.app_attached_sessions@;
        let ghost name = |record: SavedAppAttachedSession| record.id;
        let mut records: Vec<SavedAppAttachedSession> = Vec::new();
        let mut i: usize = 0;
        while i < saved.app_attached_sessions.len()
            invariant
                saved.app_attached_sessions@ == all,
                i <= all.len(),
                records@ =~= all.take(i as int),
            decreases all.len() - i,
        {
            records.push(saved.app_attached_sessions[i].duplicate());
            i += 1;
        }
        assert(all.take(all.len() as int) =~= all);
        let earlier = |a: &SavedAppAttachedSession, b: &SavedAppAttachedSession| -> (x: bool)
            ensures
                x == migration_before()(*a, *b),
            {
                if a.origin.project_id != b.origin.project_id {
                    a.origin.project_id.value < b.origin.project_id.value
                } else if a.group_id != b.group_id {
                    match (a.group_id, b.group_id) {
                        (None, _) => true,
                        (_, None) => false,
                        (Some(x), Some(y)) => x.value < y.value,
                    }
                } else if a.position != b.position {
                    a.position < b.position
                } else {
                    a.id.value < b.id.value
                }
            };
        let sorted: Vec<SavedAppAttachedSession> = lists::sort_list(
            records,
            earlier,
            Ghost(migration_before()),
        );
        let mut k: usize = 0;
        while k < sorted.len()
            invariant
                k <= sorted@.len(),
                name == (|record: SavedAppAttachedSession| record.id),
                ids@ =~= sorted@.take(k as int).map_values(name),
            decreases sorted@.len() - k,
        {
            assert(sorted@.take(k + 1) =~= sorted@.take(k as int).push(sorted@[k as int]));
            ids.push(sorted[k].id);
            k += 1;
        }
        assert(sorted@.take(sorted@.len() as int) =~= sorted@);
        ids
    }

    /// The first record from `from` on that the store lacks.
    pub fn next_migration(&self, order: &Vec<HostedSessionId>, from: usize) -> (r: Option<usize>)
        ensures
            match r {
                Some(i) => {
                    &&& from <= i < order@.len()
                    &&& self.found(order@[i as int]) is None
                    &&& forall|k: int|
                        from <= k < i ==> self.found(#[trigger] order@[k]) is Some
                },
                None => forall|k: int|
                    from <= k < order@.len() ==> self.found(#[trigger] order@[k]) is Some,
            },
    {
        let mut i: usize = from;
        while i < order.len()
            invariant
                from <= i,
                forall|k: int|
                    from <= k < i && k < order@.len() ==> self.found(#[trigger] order@[k]) is Some,
            decreases order@.len() - i,
        {
            if self.session(order[i]).is_none() {
                return Some(i);
            }
            i += 1;
        }
        None
    }

    /// Takes over a session that the store created from a saved record.
    pub fn create_from_saved(
        &mut self,
        saved: &mut SavedState,
        record: SavedAppAttachedSession,
        created: Result<HostedSession, StoreError>,
        loaded: Result<SessionSnapshot, StoreError>,
    ) -> (r: Result<HostedSession, StoreError>)
        ensures
            match created {
                Err(error) => {
                    &&& r == Err::<HostedSession, StoreError>(error)
                    &&& *final(self) == *old(self)
                    &&& final(saved).app_attached_sessions@ == old(saved).app_attached_sessions@
                },
                Ok(session) => {
                    let records = old(saved).app_attached_sessions@;
                    let entry = saved_state::record_with(record, session);
                    let i = lists::first_index(records, saved_state::is_record(record.id));
                    &&& *final(self) == old(self).reloaded(loaded)
                    &&& r == match old(self).reload_result(loaded) {
                        Ok(()) => Ok(session),
                        Err(error) => Err(error),
                    }
                    &&& final(saved).app_attached_sessions@ == if i < records.len() {
                        records.update(i, entry)
                    } else {
                        records.push(entry)
                    }
                },
            },
            r is Ok <==> created is Ok && old(self).has_repository && loaded is Ok,
            r matches Ok(session) ==> created == Ok::<HostedSession, StoreError>(session),
            created is Err ==> final(saved).app_attached_sessions@ == old(saved).app_attached_sessions@,
    {
        match created {
            Err(error) => Err(error),
            Ok(session) => {
                let mut entry: SavedAppAttachedSession = record;
                entry.apply_hosted_session(&session);
                saved.upsert_app_attached_session(entry);
                match self.reload(loaded) {
                    Ok(()) => Ok(session),
                    Err(error) => Err(error),
                }
            },
        }
    }

    /// What the store is asked for a mutation; without a store nothing is asked.
    pub fn mutation_request(
        &self,
        id: HostedSessionId,
        mutation: SessionMutation,
        now: u64,
    ) -> (r: Result<MutationRequest, StoreError>)
        ensures
            r == if self.has_repository {
                Ok(
                    MutationRequest {
                        id,
                        expected_revision: self.current_revision(),
                        mutation,
                        at: now,
                    },
                )
            } else {
                Err(unavailable())
            },
            r is Ok <==> self.has_repository,
            r matches Ok(request) ==> request.id == id && request.mutation == mutation && request.at == now && (
            self.snapshot matches Some(snapshot) ==> request.expected_revision == snapshot.revision),
    {
        if !self.has_repository {
            return Err(no_store());
        }
        Ok(MutationRequest { id, expected_revision: self.revision(), mutation, at: now })
    }

    /// Takes over the store's answer to a mutation. After a success the session's
    /// record follows; a stale revision brings every record up to date; any other
    /// failure changes nothing.
    pub fn mutate(
        &mut self,
        saved: &mut SavedState,
        reply: Result<HostedSession, StoreError>,
        loaded: Result<SessionSnapshot, StoreError>,
    ) -> (r: Result<HostedSession, StoreError>)
        ensures
            ({
                let before = old(saved).app_attached_sessions@;
                let after = final(saved).app_attached_sessions@;
                match reply {
                    Ok(session) => {
                        &&& *final(self) == old(self).reloaded(loaded)
                        &&& match old(self).reload_result(loaded) {
                            Ok(()) => r == Ok::<HostedSession, StoreError>(session) && after
                                == saved_state::applied(before, session),
                            Err(error) => r == Err::<HostedSession, StoreError>(error) && after
                                == before,
                        }
                    },
                    Err(error) => {
                        &&& r == Err::<HostedSession, StoreError>(error)
                        &&& *final(self) == if is_stale(error) {
                            old(self).reloaded(loaded)
                        } else {
                            *old(self)
                        }
                        &&& after == if is_stale(error) {
                            saved_state::synced(before, final(self).known())
                        } else {
                            before
                        }
                    },
                }
            }),
            r is Ok <==> reply is Ok && old(self).has_repository && loaded is Ok,
            r matches Ok(session) ==> reply == Ok::<HostedSession, StoreError>(session),
            (reply matches Err(error) && error != StoreError::SessionDomain(
                SessionStateError::StaleRevision,
            )) ==> *final(self) == *old(self) && final(saved).app_attached_sessions@
                == old(saved).app_attached_sessions@,
    {
        match reply {
            Ok(session) => match self.reload(loaded) {
                Ok(()) => {
                    saved.apply_metadata(&session);
                    Ok(session)
                },
                Err(error) => Err(error),
            },
            Err(error) => {
                let stale: bool = match error {
                    StoreError::SessionDomain(SessionStateError::StaleRevision) => true,
                    _ => false,
                };
                if stale {
                    let _ = self.reload(loaded);
                    self.sync_saved_projection(saved);
                }
                Err(error)
            },
        }
    }

    /// What the store is asked to reconcile a session with its host; `None`
    /// where it already knows all of it.
    pub fn reconcile_request(
        &self,
        id: HostedSessionId,
        lifecycle: HostedSessionState,
        activity: ActivityAggregate,
        through: u64,
        now: u64,
    ) -> (r: Option<Result<MutationRequest, StoreError>>)
        ensures
            r == if self.already_reconciled(id, lifecycle, activity, through) {
                None
            } else if self.has_repository {
                Some(
                    Ok(
                        MutationRequest {
                            id,
                            expected_revision: self.current_revision(),
                            mutation: SessionMutation::Reconcile { lifecycle, activity, through },
                            at: now,
                        },
                    ),
                )
            } else {
                Some(Err(unavailable()))
            },
            r is None <==> (self.found(id) matches Some(current) && current.lifecycle == lifecycle
                && current.activity == activity && current.last_output_sequence >= through),
            r matches Some(Ok(request)) ==> request.id == id && request.at == now && (
            request.mutation matches SessionMutation::Reconcile {
                lifecycle: state,
                activity: seen,
                through: upto,
            } && state == lifecycle && seen == activity && upto == through),
            r matches Some(Err(_)) ==> !self.has_repository,
    {
        match self.session(id) {
            Some(current) => {
                if current.lifecycle == lifecycle && current.activity == activity
                    && current.last_output_sequence >= through {
                    return None;
                }
            },
            None => {},
        }
        Some(
            self.mutation_request(
                id,
                SessionMutation::Reconcile { lifecycle, activity, through },
                now,
            ),
        )
    }

    /// Takes over a reconciliation: where the store already knew all of it the
    /// session is returned as it is, else the store's answer counts.
    pub fn reconcile(
        &mut self,
        saved: &mut SavedState,
        id: HostedSessionId,
        lifecycle: HostedSessionState,
        activity: ActivityAggregate,
        through: u64,
        reply: Result<HostedSession, StoreError>,
        loaded: Result<SessionSnapshot, StoreError>,
    ) -> (r: Result<HostedSession, StoreError>)
        ensures
            ({
                let before = old(saved).app_attached_sessions@;
                let after = final(saved).app_attached_sessions@;
                if old(self).already_reconciled(id, lifecycle, activity, through) {
                    &&& r == Ok::<HostedSession, StoreError>(old(self).found(id)->0)
                    &&& *final(self) == *old(self)
                    &&& after == before
                } else {
                    match reply {
                        Ok(session) => {
                            &&& *final(self) == old(self).reloaded(loaded)
                            &&& match old(self).reload_result(loaded) {
                                Ok(()) => r == Ok::<HostedSession, StoreError>(session) && after
                                    == saved_state::applied(before, session),
                                Err(error) => r == Err::<HostedSession, StoreError>(error)
                                    && after == before,
                            }
                        },
                        Err(error) => {
                            &&& r == Err::<HostedSession, StoreError>(error)
                            &&& *final(self) == if is_stale(error) {
                                old(self).reloaded(loaded)
                            } else {
                                *old(self)
                            }
                            &&& after == if is_stale(error) {
                                saved_state::synced(before, final(self).known())
                            } else {
                                before
                            }
                        },
                    }
                }
            }),
            (old(self).found(id) matches Some(current) && current.lifecycle == lifecycle && current.activity
                == activity && current.last_output_sequence >= through) ==> r is Ok && *final(self)
                == *old(self),
            reply is Err && r is Ok ==> (old(self).found(id) matches Some(current) && current.lifecycle
                == lifecycle),
    {
        match self.session(id) {
            Some(current) => {
                if current.lifecycle == lifecycle && current.activity == activity
                    && current.last_output_sequence >= through {
                    return Ok(current.duplicate());
                }
            },
            None => {},
        }
        self.mutate(saved, reply, loaded)
    }

    /// Remembers the plan for removing a session, or reports why there is none.
    pub fn prepare_removal(&mut self, plan: Result<SessionRemovalPlan, StoreError>) -> (r: Result<
        (),
        StoreError,
    >)
        ensures
            !old(self).has_repository ==> r == Err::<(), StoreError>(unavailable()) && *final(self)
                == *old(self),
            old(self).has_repository ==> match plan {
                Ok(made) => r == Ok::<(), StoreError>(()) && *final(self) == (SessionLibraryState {
                    pending_removal: Some(made),
                    ..*old(self)
                }),
                Err(error) => r == Err::<(), StoreError>(error) && *final(self) == *old(self),
            },
            r is Ok <==> old(self).has_repository && plan is Ok,
            r is Ok ==> final(self).pending_removal == Some(plan->Ok_0),
            r is Err ==> final(self).pending_removal == old(self).pending_removal,
    {
        if !self.has_repository {
            return Err(no_store());
        }
        match plan {
            Ok(made) => {
                self.pending_removal = Some(made);
                Ok(())
            },
            Err(error) => Err(error),
        }
    }

    /// What the store is asked to rearrange.
    pub fn placements_request(&self, placements: &Vec<SavedSessionPlacement>, now: u64) -> (r:
        Result<PlacementsRequest, StoreError>)
        ensures
            match r {
                Ok(request) => {
                    &&& self.has_repository
                    &&& request.placements@ == placements@
                    &&& request.expected_revision == self.current_revision()
                    &&& request.at == now
                },
                Err(error) => !self.has_repository && error == unavailable(),
            },
            r is Ok <==> self.has_repository,
            r matches Ok(request) ==> request.placements@ == placements@ && request.at == now,
    {
        if !self.has_repository {
            return Err(no_store());
        }
        let mut values: Vec<SavedSessionPlacement> = Vec::new();
        let mut i: usize = 0;
        while i < placements.len()
            invariant
                i <= placements@.len(),
                values@ =~= placements@.take(i as int),
            decreases placements@.len() - i,
        {
            values.push(placements[i]);
            i += 1;
        }
        Ok(PlacementsRequest { placements: values, expected_revision: self.revision(), at: now })
    }

    /// Takes over the store's answer to a rearrangement.
    pub fn apply_placements(
        &mut self,
        saved: &mut SavedState,
        outcome: Result<(), StoreError>,
        loaded: Result<SessionSnapshot, StoreError>,
    ) -> (r: Result<(), StoreError>)
        ensures
            ({
                let before = old(saved).app_attached_sessions@;
                let after = final(saved).app_attached_sessions@;
                match outcome {
                    Err(error) => {
                        &&& r == Err::<(), StoreError>(error)
                        &&& *final(self) == *old(self)
                        &&& after == before
                    },
                    Ok(()) => {
                        &&& r == old(self).reload_result(loaded)
                        &&& *final(self) == old(self).reloaded(loaded)
                        &&& after == if r is Ok {
                            saved_state::synced(before, final(self).known())
                        } else {
                            before
                        }
                    },
                }
            }),
            r is Ok <==> outcome is Ok && old(self).has_repository && loaded is Ok,
            r is Err ==> final(saved).app_attached_sessions@ == old(saved).app_attached_sessions@,
    {
        match outcome {
            Err(error) => Err(error),
            Ok(()) => match self.reload(loaded) {
                Err(error) => Err(error),
                Ok(()) => {
                    self.sync_saved_projection(saved);
                    Ok(())
                },
            },
        }
    }

    /// What the store is asked to remove, once the title was typed where that is
    /// called for.
    pub fn removal_request(&self, confirmation: &str) -> (r: Result<RemovalRequest, StoreError>)
        ensures
            r == self.removal_check(confirmation@),
    {
        match &self.pending_removal {
            None => Err(no_store()),
            Some(plan) => {
                if plan.manifest.requires_title_confirmation && !text::same_text(
                    confirmation,
                    plan.title.as_str(),
                ) {
                    return Err(
                        StoreError::SessionDomain(
                            SessionStateError::Store { code: "title-confirmation-mismatch" },
                        ),
                    );
                }
                if !self.has_repository {
                    return Err(no_store());
                }
                Ok(RemovalRequest { id: plan.session_id, expected_revision: self.revision() })
            },
        }
    }

    /// Takes over a removal: without a valid confirmation or with the store's
    /// refusal nothing changes; once the store removed the session the plan is
    /// forgotten, and the record too if the store could be read again.
    pub fn confirm_removal(
        &mut self,
        saved: &mut SavedState,
        confirmation: &str,
        removed: Result<HostedSessionId, StoreError>,
        loaded: Result<SessionSnapshot, StoreError>,
    ) -> (r: Result<HostedSessionId, StoreError>)
        ensures
            ({
                let before = old(saved).app_attached_sessions@;
                let after = final(saved).app_attached_sessions@;
                match old(self).removal_check(confirmation@) {
                    Err(error) => {
                        &&& r == Err::<HostedSessionId, StoreError>(error)
                        &&& *final(self) == *old(self)
                        &&& after == before
                    },
                    Ok(_) => match removed {
                        Err(error) => {
                            &&& r == Err::<HostedSessionId, StoreError>(error)
                            &&& *final(self) == *old(self)
                            &&& after == before
                        },
                        Ok(id) => {
                            let cleared = SessionLibraryState {
                                pending_removal: None,
                                ..*old(self)
                            };
                            &&& *final(self) == cleared.reloaded(loaded)
                            &&& match cleared.reload_result(loaded) {
                                Err(error) => r == Err::<HostedSessionId, StoreError>(error)
                                    && after == before,
                                Ok(()) => r == Ok::<HostedSessionId, StoreError>(id) && after
                                    == lists::kept(
                                    before,
                                    |record: SavedAppAttachedSession| record.id != id,
                                ),
                            }
                        },
                    },
                }
            }),
            r is Ok ==> removed is Ok && old(self).pending_removal is Some && final(self).pending_removal
                is None,
            r matches Ok(id) ==> removed == Ok::<HostedSessionId, StoreError>(id),
            r is Err ==> final(saved).app_attached_sessions@ == old(saved).app_attached_sessions@,
            (old(self).pending_removal matches Some(plan) && plan.manifest.requires_title_confirmation
                && confirmation@ != plan.title@) ==> r is Err,
    {
        match self.removal_request(confirmation) {
            Err(error) => Err(error),
            Ok(_) => match removed {
                Err(error) => Err(error),
                Ok(id) => {
                    self.pending_removal = None;
                    match self.reload(loaded) {
                        Err(error) => Err(error),
                        Ok(()) => {
                            saved.remove_app_attached_session(id);
                            Ok(id)
                        },
                    }
                },
            },
        }
    }

    pub fn revision(&self) -> (r: u64)
        ensures
            r == self.current_revision(),
    {
        match &self.snapshot {
            Some(snapshot) => snapshot.revision,
            None => 0,
        }
    }

    /// The session of that identity.
    pub fn session(&self, id: HostedSessionId) -> (r: Option<&HostedSession>)
        ensures
            match self.found(id) {
                Some(session) => r == Some(&session),
                None => r is None,
            },
    {
        match &self.snapshot {
            None => None,
            Some(snapshot) => {
                let mut i: usize = 0;
                while i < snapshot.sessions.len()
                    invariant
                        i <= snapshot.sessions@.len(),
                        self.known() == snapshot.sessions@,
                        forall|k: int|
                            0 <= k < i ==> !is_session(id)(#[trigger] snapshot.sessions@[k]),
                    decreases snapshot.sessions@.len() - i,
                {
                    if snapshot.sessions[i].id == id {
                        proof {
                            lists::lemma_first_index(
                                snapshot.sessions@,
                                is_session(id),
                                i as int,
                            );
                        }
                        return Some(&snapshot.sessions[i]);
                    }
                    i += 1;
                }
                proof {
                    lists::lemma_first_index(snapshot.sessions@, is_session(id), i as int);
                }
                None
            },
        }
    }

    fn is_shown(&self, session: &HostedSession) -> (r: bool)
        ensures
            r == (in_view(self.view, *session) && in_filter(self.filter, *session)),
    {
        let in_this_view: bool = match self.view {
            SessionLibraryView::Active => session.archived_at.is_none(),
            SessionLibraryView::Archive => session.archived_at.is_some(),
        };
        let let_through: bool = match self.filter {
            SessionLibraryFilter::All => true,
            SessionLibraryFilter::Unread => session.unread,
            SessionLibraryFilter::Pinned => session.pinned,
        };
        in_this_view && let_through
    }

    /// The visible sessions of the project root or of one of its groups.
    pub fn visible_sessions(&self, project_id: ProjectId, group_id: Option<GroupId>) -> (r: Vec<
        HostedSession,
    >)
        ensures
            r@ == self.visible(project_id, group_id),
    {
        let mut sessions: Vec<HostedSession> = Vec::new();
        let ghost all = self.known();
        let ghost wanted = self.shown_in(project_id, group_id);
        match &self.snapshot {
            None => {},
            Some(snapshot) => {
                let mut i: usize = 0;
                assert(all.take(0) =~= Seq::empty());
                while i < snapshot.sessions.len()
                    invariant
                        all == snapshot.sessions@,
                        i <= all.len(),
                        wanted == self.shown_in(project_id, group_id),
                        sessions@ == lists::kept(all.take(i as int), wanted),
                    decreases all.len() - i,
                {
                    proof {
                        lists::lemma_kept_step(all, wanted, i as int);
                    }
                    let session = &snapshot.sessions[i];
                    let keep: bool = session.project_id == project_id && session.group_id
                        == group_id && self.is_shown(session);
                    lists::push_if(&mut sessions, keep, session.duplicate());
                    i += 1;
                }
                assert(all.take(all.len() as int) =~= all);
            },
        }
        let earlier = |a: &HostedSession, b: &HostedSession| -> (x: bool)
            ensures
                x == list_before()(*a, *b),
            {
                if a.pinned != b.pinned {
                    a.pinned
                } else if a.position != b.position {
                    a.position < b.position
                } else {
                    a.id.value < b.id.value
                }
            };
        lists::sort_list(sessions, earlier, Ghost(list_before()))
    }

    /// All visible sessions, across projects.
    pub fn visible_sessions_all(&self) -> (r: Vec<HostedSession>)
        ensures
            r@ == self.visible_all(),
    {
        let mut sessions: Vec<HostedSession> = Vec::new();
        let ghost all = self.known();
        let ghost wanted = self.shown();
        match &self.snapshot {
            None => {},
            Some(snapshot) => {
                let mut i: usize = 0;
                assert(all.take(0) =~= Seq::empty());
                while i < snapshot.sessions.len()
                    invariant
                        all == snapshot.sessions@,
                        i <= all.len(),
                        wanted == self.shown(),
                        sessions@ == lists::kept(all.take(i as int), wanted),
                    decreases all.len() - i,
                {
                    proof {
                        lists::lemma_kept_step(all, wanted, i as int);
                    }
                    let session = &snapshot.sessions[i];
                    let keep: bool = self.is_shown(session);
                    lists::push_if(&mut sessions, keep, session.duplicate());
                    i += 1;
                }
                assert(all.take(all.len() as int) =~= all);
            },
        }
        let earlier = |a: &HostedSession, b: &HostedSession| -> (x: bool)
            ensures
                x == library_before()(*a, *b),
            {
                if a.project_id != b.project_id {
                    a.project_id.value < b.project_id.value
                } else if a.pinned != b.pinned {
                    a.pinned
                } else if a.position != b.position {
                    a.position < b.position
                } else {
                    a.id.value < b.id.value
                }
            };
        lists::sort_list(sessions, earlier, Ghost(library_before()))
    }

    /// What is to be said of the state of the store, if anything.
    pub fn recovery_state(&self) -> (r: Option<SessionLibraryRecovery>)
        ensures
            r == self.recovery(),
    {
        match self.load_state {
            SessionLibraryLoadState::Ready => match &self.snapshot {
                Some(snapshot) => {
                    if snapshot.health == StoreHealth::RecoveredLastGood {
                        Some(SessionLibraryRecovery::RecoveredLastGood)
                    } else {
                        None
                    }
                },
                None => None,
            },
            SessionLibraryLoadState::Failed(failure) => Some(
                match failure {
                    SessionLibraryFailure::Corrupt => SessionLibraryRecovery::Corrupt,
                    SessionLibraryFailure::Newer => SessionLibraryRecovery::Newer,
                    SessionLibraryFailure::PermissionDenied => {
                        SessionLibraryRecovery::PermissionDenied
                    },
                    SessionLibraryFailure::Unavailable => SessionLibraryRecovery::Unavailable,
                },
            ),
        }
    }

    pub open spec fn recovery(self) -> Option<SessionLibraryRecovery> {
        match self.load_state {
            SessionLibraryLoadState::Ready => if self.snapshot matches Some(snapshot)
                && snapshot.health == StoreHealth::RecoveredLastGood {
                Some(SessionLibraryRecovery::RecoveredLastGood)
            } else {
                None
            },
            SessionLibraryLoadState::Failed(failure) => Some(
                match failure {
                    SessionLibraryFailure::Corrupt => SessionLibraryRecovery::Corrupt,
                    SessionLibraryFailure::Newer => SessionLibraryRecovery::Newer,
                    SessionLibraryFailure::PermissionDenied => {
                        SessionLibraryRecovery::PermissionDenied
                    },
                    SessionLibraryFailure::Unavailable => SessionLibraryRecovery::Unavailable,
                },
            ),
        }
    }

    /// Brings every saved record up to date with the last snapshot.
    fn sync_saved_projection(&self, saved: &mut SavedState)
        ensures
            final(saved).app_attached_sessions@ == saved_state::synced(
                old(saved).app_attached_sessions@,
                self.known(),
            ),
    {
        let ghost start = saved.app_attached_sessions@;
        match &self.snapshot {
            None => {},
            Some(snapshot) => {
                let mut i: usize = 0;
                assert(snapshot.sessions@.take(0) =~= Seq::empty());
                while i < snapshot.sessions.len()
                    invariant
                        i <= snapshot.sessions@.len(),
                        saved.app_attached_sessions@ == saved_state::synced(
                            start,
                            snapshot.sessions@.take(i as int),
                        ),
                    decreases snapshot.sessions@.len() - i,
                {
                    assert(snapshot.sessions@.take(i + 1).drop_last() =~= snapshot.sessions@.take(
                        i as int,
                    ));
                    saved.apply_metadata(&snapshot.sessions[i]);
                    i += 1;
                }
                assert(snapshot.sessions@.take(snapshot.sessions@.len() as int)
                    =~= snapshot.sessions@);
            },
        }
    }
}

/// A library that has shown nothing yet.
pub open spec fn fresh_library(
    has_repository: bool,
    load_state: SessionLibraryLoadState,
) -> SessionLibraryState {
    SessionLibraryState {
        has_repository,
        snapshot: None,
        load_state,
        view: SessionLibraryView::Active,
        filter: SessionLibraryFilter::All,
        pending_stop_archive_review: None,
        pending_archive_after_stop: None,
        pending_removal: None,
        renaming: None,
    }
}

proof fn lemma_orders()
    ensures
        lists::weak_order(list_before()),
        lists::weak_order(library_before()),
        lists::weak_order(migration_before()),
{
}

/// Archive and active view are complementary: with no filter set, the two
/// together show every session of the library exactly as often as it is there.
pub proof fn law_archive_is_orthogonal(library: SessionLibraryState)
    ensures
        ({
            let active = SessionLibraryState {
                view: SessionLibraryView::Active,
                filter: SessionLibraryFilter::All,
                ..library
            };
            let archive = SessionLibraryState {
                view: SessionLibraryView::Archive,
                filter: SessionLibraryFilter::All,
                ..library
            };
            active.visible_all().to_multiset().add(archive.visible_all().to_multiset())
                == library.known().to_multiset()
        }),
{
    lemma_orders();
    let active = SessionLibraryState {
        view: SessionLibraryView::Active,
        filter: SessionLibraryFilter::All,
        ..library
    };
    let archive = SessionLibraryState {
        view: SessionLibraryView::Archive,
        filter: SessionLibraryFilter::All,
        ..library
    };
    lists::law_stable_sort(lists::kept(library.known(), active.shown()), library_before());
    lists::law_stable_sort(lists::kept(library.known(), archive.shown()), library_before());
    lists::lemma_kept_parts(library.known(), active.shown(), archive.shown());
}

/// Whether a session belongs to a list.
pub open spec fn in_list(project_id: ProjectId, group_id: Option<GroupId>) -> spec_fn(
    HostedSession,
) -> bool {
    |s: HostedSession| s.project_id == project_id && s.group_id == group_id
}

/// The query across projects is ordered by project, pin, position and identity,
/// and what it shows of a list is that list, in the same order.
pub proof fn law_unified_query_spans_all_lists(
    library: SessionLibraryState,
    project_id: ProjectId,
    group_id: Option<GroupId>,
)
    ensures
        lists::ordered(library.visible_all(), library_before()),
        lists::kept(library.visible_all(), in_list(project_id, group_id)) == library.visible(
            project_id,
            group_id,
        ),
{
    lemma_orders();
    let shown = lists::kept(library.known(), library.shown());
    lists::law_stable_sort(shown, library_before());
    lists::law_picking_commutes_with_sorting(
        shown,
        in_list(project_id, group_id),
        library_before(),
        list_before(),
    );
    lists::lemma_kept_twice(
        library.known(),
        library.shown(),
        in_list(project_id, group_id),
        library.shown_in(project_id, group_id),
    );
}

/// In every list pinned sessions stand before the others, and among equals the
/// position decides.
pub proof fn law_pinned_sessions_come_first(
    library: SessionLibraryState,
    project_id: ProjectId,
    group_id: Option<GroupId>,
    i: int,
    j: int,
)
    requires
        0 <= i < j < library.visible(project_id, group_id).len(),
    ensures
        ({
            let list = library.visible(project_id, group_id);
            &&& list[j].pinned ==> list[i].pinned
            &&& list[i].pinned == list[j].pinned ==> list[i].position <= list[j].position
        }),
{
    lemma_orders();
    let t = lists::kept(library.known(), library.shown_in(project_id, group_id));
    lists::law_stable_sort(t, list_before());
    let list = library.visible(project_id, group_id);
    assert(!list_before()(list[j], list[i]));
}

/// A session that the store has just read is found there again: reading gives
/// the library exactly the store's sessions.
pub proof fn law_reload_shows_the_store(
    library: SessionLibraryState,
    snapshot: SessionSnapshot,
)
    requires
        library.has_repository,
    ensures
        library.reloaded(Ok(snapshot)).known() == snapshot.sessions@,
        library.reloaded(Ok(snapshot)).current_revision() == snapshot.revision,
        library.reloaded(Ok(snapshot)).view == library.view,
        library.reloaded(Ok(snapshot)).filter == library.filter,
{
}

/// A list shows a session exactly where the store holds it in that project and
/// group, it is archived in the archive and not archived elsewhere, and it is
/// unread or pinned where only such sessions are asked for.
pub proof fn law_lists_show_what_was_asked_for(
    library: SessionLibraryState,
    project_id: ProjectId,
    group_id: Option<GroupId>,
    session: HostedSession,
)
    ensures
        ({
            let asked = {
                &&& library.known().contains(session)
                &&& library.view is Active <==> session.archived_at is None
                &&& library.filter is Unread ==> session.unread
                &&& library.filter is Pinned ==> session.pinned
            };
            &&& library.visible_all().contains(session) <==> asked
            &&& library.visible(project_id, group_id).contains(session) <==> asked
                && session.project_id == project_id && session.group_id == group_id
        }),
{
    lemma_orders();
    let shown = library.shown();
    let shown_in = library.shown_in(project_id, group_id);
    lists::lemma_kept_members(library.known(), shown, session);
    lists::lemma_kept_members(library.known(), shown_in, session);
    lists::lemma_sorted_members(
        lists::kept(library.known(), shown),
        library_before(),
        session,
    );
    lists::lemma_sorted_members(
        lists::kept(library.known(), shown_in),
        list_before(),
        session,
    );
}

/// The list across projects goes by project; within one, pinned sessions come
/// first, then lower positions, then lower identities.
pub proof fn law_the_list_of_all_goes_by_project(library: SessionLibraryState, i: int, j: int)
    requires
        0 <= i < j < library.visible_all().len(),
    ensures
        ({
            let a = library.visible_all()[i];
            let b = library.visible_all()[j];
            &&& a.project_id.value <= b.project_id.value
            &&& a.project_id == b.project_id && b.pinned ==> a.pinned
            &&& a.project_id == b.project_id && a.pinned == b.pinned ==> a.position <= b.position
            &&& a.project_id == b.project_id && a.pinned == b.pinned && a.position == b.position
                ==> a.id.value <= b.id.value
        }),
{
    lemma_orders();
    lists::law_stable_sort(lists::kept(library.known(), library.shown()), library_before());
    let list = library.visible_all();
    assert(!library_before()(list[j], list[i]));
}

/// A session is removed only after its removal was planned, where there is a
/// store, and with its title typed exactly where the plan asks for it. What is
/// removed is the planned session, under the revision that is known.
pub proof fn law_removals_are_planned_and_confirmed(
    library: SessionLibraryState,
    confirmation: Seq<char>,
)
    ensures
        ({
            let checked = library.removal_check(confirmation);
            &&& checked is Ok <==> {
                &&& library.has_repository
                &&& library.pending_removal matches Some(plan)
                &&& plan.manifest.requires_title_confirmation ==> confirmation == plan.title@
            }
            &&& checked matches Ok(request) ==> {
                &&& request.id == library.pending_removal->0.session_id
                &&& library.snapshot matches Some(snapshot) ==> request.expected_revision
                    == snapshot.revision
            }
            &&& checked matches Err(StoreError::SessionDomain(SessionStateError::Store { code }))
                ==> {
                &&& code@ == "title-confirmation-mismatch"@
                &&& library.pending_removal matches Some(plan)
                &&& plan.manifest.requires_title_confirmation
                &&& confirmation != plan.title@
            }
        }),
{
}

/// Removing a session keeps the records of all others, in order, and none of it.
pub proof fn law_removal_takes_one_session_only(
    records: Seq<SavedAppAttachedSession>,
    id: HostedSessionId,
    record: SavedAppAttachedSession,
)
    ensures
        lists::kept(
            records,
            |record: SavedAppAttachedSession| record.id != id,
        ).contains(record) <==> records.contains(record) && record.id != id,
{
    lists::lemma_kept_members(
        records,
        |record: SavedAppAttachedSession| record.id != id,
        record,
    );
}

/// A store that cannot be read is called what is wrong with it: only one that
/// was refused for want of permission is said to be so, and one that was written
/// by a newer program is never called damaged.
pub proof fn law_store_failures_are_told_apart(error: StoreError)
    ensures
        store_failure(error) is Newer <==> error is StoreNewer,
        store_failure(error) is PermissionDenied <==> (error matches StoreError::Io {
            permission_denied,
        } && permission_denied),
        store_failure(error) is Corrupt <==> error is Corrupt || error is UnsafeEntry
            || error is TooLarge,
{
}

/// Nothing is said of recovery exactly where the store was read and is healthy;
/// every failure is named by itself.
pub proof fn law_recovery_is_named(library: SessionLibraryState)
    ensures
        library.recovery() is None <==> library.load_state is Ready && !(
        library.snapshot matches Some(snapshot) && snapshot.health
            == StoreHealth::RecoveredLastGood),
        library.recovery() == Some(SessionLibraryRecovery::RecoveredLastGood)
            ==> library.load_state is Ready,
        library.recovery() == Some(SessionLibraryRecovery::Corrupt) <==> library.load_state
            == SessionLibraryLoadState::Failed(SessionLibraryFailure::Corrupt),
        library.recovery() == Some(SessionLibraryRecovery::Newer) <==> library.load_state
            == SessionLibraryLoadState::Failed(SessionLibraryFailure::Newer),
        library.recovery() == Some(SessionLibraryRecovery::PermissionDenied) <==> library.load_state
            == SessionLibraryLoadState::Failed(SessionLibraryFailure::PermissionDenied),
        library.recovery() == Some(SessionLibraryRecovery::Unavailable) <==> library.load_state
            == SessionLibraryLoadState::Failed(SessionLibraryFailure::Unavailable),
{
}

/// A report need not be taken to the store exactly where a session is known that
/// already stands as reported and has seen the output up to there.
pub proof fn law_reports_are_taken_once(
    library: SessionLibraryState,
    id: HostedSessionId,
    lifecycle: HostedSessionState,
    activity: ActivityAggregate,
    through: u64,
)
    ensures
        library.already_reconciled(id, lifecycle, activity, through) ==> exists|i: int|
            {
                &&& 0 <= i < library.known().len()
                &&& (#[trigger] library.known()[i]).id == id
                &&& library.known()[i].lifecycle == lifecycle
                &&& library.known()[i].activity == activity
                &&& library.known()[i].last_output_sequence >= through
            },
        library.already_reconciled(id, lifecycle, activity, through) ==> forall|earlier: u64|
            earlier <= through ==> #[trigger] library.already_reconciled(
                id,
                lifecycle,
                activity,
                earlier,
            ),
        !library.already_reconciled(id, lifecycle, activity, through) ==> {
            ||| library.found(id) is None
            ||| library.found(id)->0.lifecycle != lifecycle
            ||| library.found(id)->0.activity != activity
            ||| library.found(id)->0.last_output_sequence < through
        },
{
    lists::lemma_first_index_bounds(library.known(), is_session(id));
}

/// A session is found exactly where the store holds one of that identity, and
/// what is found has it.
pub proof fn law_sessions_are_found_by_identity(library: SessionLibraryState, id: HostedSessionId)
    ensures
        library.found(id) is Some <==> exists|i: int|
            0 <= i < library.known().len() && (#[trigger] library.known()[i]).id == id,
        library.found(id) matches Some(session) ==> session.id == id && library.known().contains(
            session,
        ),
{
    lists::lemma_first_index_bounds(library.known(), is_session(id));
    let at = lists::first_index(library.known(), is_session(id));
    if at < library.known().len() {
        assert(library.known()[at].id == id);
    } else {
        assert forall|i: int| 0 <= i < library.known().len() implies (
        #[trigger] library.known()[i]).id != id by {
            assert(!(is_session(id))(library.known()[i]));
        }
    }
}

/// Records are taken over project by project; within one those outside of groups
/// come first, then group by group, and in each by position.
pub proof fn law_migration_keeps_the_order_of_lists(
    records: Seq<SavedAppAttachedSession>,
    i: int,
    j: int,
)
    requires
        0 <= i < j < lists::stable_sort(records, migration_before()).len(),
    ensures
        ({
            let order = lists::stable_sort(records, migration_before());
            let a = order[i];
            let b = order[j];
            &&& a.origin.project_id.value <= b.origin.project_id.value
            &&& a.origin.project_id == b.origin.project_id && b.group_id is None
                ==> a.group_id is None
            &&& a.origin.project_id == b.origin.project_id && a.group_id == b.group_id
                ==> a.position <= b.position
            &&& records.contains(a)
        }),
{
    lemma_orders();
    lists::law_stable_sort(records, migration_before());
    let order = lists::stable_sort(records, migration_before());
    assert(!migration_before()(order[j], order[i]));
    lists::lemma_sorted_members(records, migration_before(), order[i]);
}

/// A library without a store answers that it is unavailable, whatever is read;
/// with one, the reading's own error is answered.
pub proof fn law_reading_answers_its_own_error(
    library: SessionLibraryState,
    loaded: Result<SessionSnapshot, StoreError>,
)
    ensures
        !library.has_repository ==> library.reload_result(loaded) == Err::<(), StoreError>(
            StoreError::SessionDomain(SessionStateError::Unavailable),
        ),
        library.has_repository ==> (library.reload_result(loaded) is Ok <==> loaded is Ok),
        library.has_repository ==> (loaded matches Err(error) ==> library.reload_result(loaded)
            == Err::<(), StoreError>(error)),
{
}

/// Only a stale revision of a session is stale.
pub proof fn law_only_stale_revisions_are_stale(error: StoreError)
    ensures
        is_stale(error) <==> error == StoreError::SessionDomain(SessionStateError::StaleRevision),
{
}

/// A fresh library shows the active sessions, all of them, and waits for nothing.
pub proof fn law_a_fresh_library_waits_for_nothing(
    has_repository: bool,
    load_state: SessionLibraryLoadState,
)
    ensures
        ({
            let fresh = fresh_library(has_repository, load_state);
            &&& fresh.has_repository == has_repository
            &&& fresh.load_state == load_state
            &&& fresh.snapshot is None
            &&& fresh.view is Active
            &&& fresh.filter is All
            &&& fresh.pending_stop_archive_review is None
            &&& fresh.pending_archive_after_stop is None
            &&& fresh.pending_removal is None
            &&& fresh.renaming is None
        }),
{
}

} // verus!
