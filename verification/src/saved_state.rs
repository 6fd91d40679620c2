//! The records of app-attached sessions that the console keeps beside the
//! session store, and how sessions are arranged in projects and groups.
use vstd::prelude::*;

use crate::domain::{
    duplicate_text, ActivityAggregate, HostedSession, HostedSessionState, PermissionPolicy,
    RuntimeRecognition, SessionLaunchRoute, SessionOrigin, TitleSource,
};
use crate::ids::{GroupId, HostedSessionId, ProjectId};
use crate::lists;

verus! {

/// The position of the first session of a list.
pub const FIRST_POSITION: u64 = 0;

/// What is remembered of the host that runs a durable session.
#[derive(Debug)]
pub struct SavedDurableHost {
    pub runtime_root: String,
    pub session_dir: String,
    pub working_directory: Option<String>,
    pub last_sequence: u64,
    pub durable_sequence: u64,
    pub runtime_recognition: Option<RuntimeRecognition>,
    pub conversation_handle: Option<String>,
    pub executable: Option<String>,
    pub permission_policy: PermissionPolicy,
    pub continuity_source_id: Option<HostedSessionId>,
}

#[derive(Debug)]
pub struct SavedAppAttachedSession {
    pub id: HostedSessionId,
    pub route: SessionLaunchRoute,
    pub origin: SessionOrigin,
    pub state: HostedSessionState,
    pub project_label: String,
    pub preset_label: String,
    pub title: String,
    pub title_source: TitleSource,
    pub activity: ActivityAggregate,
    pub pinned: bool,
    pub read_through_sequence: u64,
    pub unread_sequence: Option<u64>,
    pub archived_at: Option<u64>,
    pub revision: u64,
    pub durable_host: Option<SavedDurableHost>,
    pub group_id: Option<GroupId>,
    pub position: u64,
    pub started_at: u64,
    pub updated_at: u64,
}

/// Where a session stands: in a group or at the project root, and at which
/// position.
#[derive(Clone, Copy, Debug, PartialEq, Eq, Structural)]
pub struct SavedSessionPlacement {
    pub id: HostedSessionId,
    pub group_id: Option<GroupId>,
    pub position: u64,
}

#[derive(Clone, Copy, Debug, PartialEq, Eq, Structural)]
pub enum GroupDestination {
    ProjectRoot,
    Group(GroupId),
}

/// A group that exists, and the project it belongs to.
#[derive(Clone, Copy, Debug, PartialEq, Eq, Structural)]
pub struct GroupMembership {
    pub group_id: GroupId,
    pub project_id: ProjectId,
}

#[derive(Debug)]
pub struct SavedState {
    pub app_attached_sessions: Vec<SavedAppAttachedSession>,
}

/// The group that a destination stands for.
pub open spec fn destination_group(destination: GroupDestination) -> Option<GroupId> {
    match destination {
        GroupDestination::ProjectRoot => None,
        GroupDestination::Group(id) => Some(id),
    }
}

pub open spec fn is_record(id: HostedSessionId) -> spec_fn(SavedAppAttachedSession) -> bool {
    |r: SavedAppAttachedSession| r.id == id
}

/// No two records have the same identity.
pub open spec fn distinct_records(records: Seq<SavedAppAttachedSession>) -> bool {
    forall|i: int, j: int|
        0 <= i < j < records.len() ==> (#[trigger] records[i]).id != (#[trigger] records[j]).id
}

/// The record with what the store knows of the session taken over: everything
/// but the identity, the route, the origin, the labels, the host and the times.
pub open spec fn record_with(
    record: SavedAppAttachedSession,
    metadata: HostedSession,
) -> SavedAppAttachedSession {
    SavedAppAttachedSession {
        state: metadata.lifecycle,
        title: metadata.title,
        title_source: metadata.title_source,
        activity: metadata.activity,
        pinned: metadata.pinned,
        read_through_sequence: metadata.read_through_sequence,
        unread_sequence: metadata.unread_sequence,
        archived_at: metadata.archived_at,
        revision: metadata.revision,
        group_id: metadata.group_id,
        position: metadata.position,
        ..record
    }
}

/// The records after the first one of that identity took the metadata over.
pub open spec fn applied(
    records: Seq<SavedAppAttachedSession>,
    metadata: HostedSession,
) -> Seq<SavedAppAttachedSession> {
    let i = lists::first_index(records, is_record(metadata.id));
    if i < records.len() {
        records.update(i, record_with(records[i], metadata))
    } else {
        records
    }
}

/// The records after each of `sessions` was taken over in turn.
pub open spec fn synced(
    records: Seq<SavedAppAttachedSession>,
    sessions: Seq<HostedSession>,
) -> Seq<SavedAppAttachedSession>
    decreases sessions.len(),
{
    if sessions.len() == 0 {
        records
    } else {
        applied(synced(records, sessions.drop_last()), sessions.last())
    }
}

/// The record at a new place.
pub open spec fn placed(
    record: SavedAppAttachedSession,
    group_id: Option<GroupId>,
    position: u64,
) -> SavedAppAttachedSession {
    SavedAppAttachedSession { group_id, position, ..record }
}

pub open spec fn placement(record: SavedAppAttachedSession) -> SavedSessionPlacement {
    SavedSessionPlacement { id: record.id, group_id: record.group_id, position: record.position }
}

/// The placements of a project's sessions.
pub open spec fn placements_of(
    records: Seq<SavedAppAttachedSession>,
    project_id: ProjectId,
) -> Seq<SavedSessionPlacement>
    decreases records.len(),
{
    if records.len() == 0 {
        Seq::empty()
    } else {
        placements_of(records.drop_last(), project_id) + lists::optional(
            records.last().origin.project_id == project_id,
            placement(records.last()),
        )
    }
}

/// The records after each placement was put back in turn.
pub open spec fn restored(
    records: Seq<SavedAppAttachedSession>,
    placements: Seq<SavedSessionPlacement>,
) -> Seq<SavedAppAttachedSession>
    decreases placements.len(),
{
    if placements.len() == 0 {
        records
    } else {
        let before = restored(records, placements.drop_last());
        let p = placements.last();
        let i = lists::first_index(before, is_record(p.id));
        if i < before.len() {
            before.update(i, placed(before[i], p.group_id, p.position))
        } else {
            before
        }
    }
}

/// Whether a record belongs to a list: the project's root or one of its groups.
pub open spec fn in_list(
    record: SavedAppAttachedSession,
    project_id: ProjectId,
    group_id: Option<GroupId>,
) -> bool {
    record.origin.project_id == project_id && record.group_id == group_id
}

/// The position behind the last session of a list.
pub open spec fn next_position(
    records: Seq<SavedAppAttachedSession>,
    project_id: ProjectId,
    group_id: Option<GroupId>,
) -> u64
    decreases records.len(),
{
    if records.len() == 0 {
        FIRST_POSITION
    } else {
        let before = next_position(records.drop_last(), project_id, group_id);
        let r = records.last();
        if in_list(r, project_id, group_id) && r.position >= before {
            if r.position == u64::MAX {
                u64::MAX
            } else {
                (r.position + 1) as u64
            }
        } else {
            before
        }
    }
}

/// The records after each chosen one, from index `i` on, was put at the end of
/// the list `target` of its project.
pub open spec fn reseated(
    records: Seq<SavedAppAttachedSession>,
    i: int,
    chosen: spec_fn(SavedAppAttachedSession) -> bool,
    target: Option<GroupId>,
) -> Seq<SavedAppAttachedSession>
    decreases records.len() - i,
{
    if i < 0 || i >= records.len() {
        records
    } else if chosen(records[i]) {
        reseated(
            records.update(
                i,
                placed(
                    records[i],
                    target,
                    next_position(records, records[i].origin.project_id, target),
                ),
            ),
            i + 1,
            chosen,
            target,
        )
    } else {
        reseated(records, i + 1, chosen, target)
    }
}

/// A record whose group does not exist in its project.
pub open spec fn dangling(valid: Seq<GroupMembership>) -> spec_fn(SavedAppAttachedSession) -> bool {
    |r: SavedAppAttachedSession|
        match r.group_id {
            Some(group_id) => !valid.contains(
                GroupMembership { group_id, project_id: r.origin.project_id },
            ),
            None => false,
        }
}

pub open spec fn in_group(
    project_id: ProjectId,
    group_id: GroupId,
) -> spec_fn(SavedAppAttachedSession) -> bool {
    |r: SavedAppAttachedSession| in_list(r, project_id, Some(group_id))
}

pub open spec fn of_group(group_id: GroupId) -> spec_fn(SavedAppAttachedSession) -> bool {
    |r: SavedAppAttachedSession| r.group_id == Some(group_id)
}

/// Only the place of the record differs.
pub open spec fn same_but_place(
    a: SavedAppAttachedSession,
    b: SavedAppAttachedSession,
) -> bool {
    b == placed(a, b.group_id, b.position)
}

/// Only the places of records differ: none is added, lost or moved in the file.
pub open spec fn only_places_differ(
    a: Seq<SavedAppAttachedSession>,
    b: Seq<SavedAppAttachedSession>,
) -> bool {
    &&& a.len() == b.len()
    &&& forall|i: int| 0 <= i < a.len() ==> same_but_place(a[i], #[trigger] b[i])
}

/// One member of a list with the key by which the list is ordered.
pub struct ListEntry {
    pub position: u64,
    pub id: HostedSessionId,
}

pub open spec fn entry_before() -> spec_fn(ListEntry, ListEntry) -> bool {
    |a: ListEntry, b: ListEntry|
        a.position < b.position || (a.position == b.position && a.id.value < b.id.value)
}

/// The members of a list other than `moved`, as they stand in the file.
pub open spec fn list_entries(
    records: Seq<SavedAppAttachedSession>,
    project_id: ProjectId,
    group_id: Option<GroupId>,
    moved: HostedSessionId,
) -> Seq<ListEntry>
    decreases records.len(),
{
    if records.len() == 0 {
        Seq::empty()
    } else {
        let r = records.last();
        list_entries(records.drop_last(), project_id, group_id, moved) + lists::optional(
            in_list(r, project_id, group_id) && r.id != moved,
            ListEntry { position: r.position, id: r.id },
        )
    }
}

pub open spec fn is_entry(id: HostedSessionId) -> spec_fn(ListEntry) -> bool {
    |e: ListEntry| e.id == id
}

/// The order of a list after `moved` was put in front of `before`, or at the
/// end; `None` where `before` is not in the list.
pub open spec fn list_order(
    records: Seq<SavedAppAttachedSession>,
    project_id: ProjectId,
    group_id: Option<GroupId>,
    moved: HostedSessionId,
    before: Option<HostedSessionId>,
) -> Option<Seq<ListEntry>> {
    let rest = lists::stable_sort(
        list_entries(records, project_id, group_id, moved),
        entry_before(),
    );
    let entry = ListEntry { position: 0, id: moved };
    match before {
        None => Some(rest.push(entry)),
        Some(id) => {
            let at = lists::first_index(rest, is_entry(id));
            if at < rest.len() {
                Some(rest.insert(at, entry))
            } else {
                None
            }
        },
    }
}

/// The records after those named in `order` were numbered in that order and
/// put in the list of `group_id`.
pub open spec fn renumbered(
    records: Seq<SavedAppAttachedSession>,
    order: Seq<ListEntry>,
    group_id: Option<GroupId>,
) -> Seq<SavedAppAttachedSession> {
    Seq::new(
        records.len(),
        |i: int|
            {
                let slot = lists::first_index(order, is_entry(records[i].id));
                if slot < order.len() {
                    placed(records[i], group_id, (FIRST_POSITION + slot) as u64)
                } else {
                    records[i]
                }
            },
    )
}

impl SavedDurableHost {
    pub fn duplicate(&self) -> (r: Self)
        ensures
            r == *self,
    {
        SavedDurableHost {
            runtime_root: self.runtime_root.clone(),
            session_dir: self.session_dir.clone(),
            working_directory: duplicate_text(&self.working_directory),
            last_sequence: self.last_sequence,
            durable_sequence: self.durable_sequence,
            runtime_recognition: match &self.runtime_recognition {
                Some(recognition) => Some(recognition.duplicate()),
                None => None,
            },
            conversation_handle: duplicate_text(&self.conversation_handle),
            executable: duplicate_text(&self.executable),
            permission_policy: self.permission_policy,
            continuity_source_id: self.continuity_source_id,
        }
    }
}

impl SavedAppAttachedSession {
    pub fn duplicate(&self) -> (r: Self)
        ensures
            r == *self,
    {
        SavedAppAttachedSession {
            id: self.id,
            route: self.route,
            origin: self.origin,
            state: self.state,
            project_label: self.project_label.clone(),
            preset_label: self.preset_label.clone(),
            title: self.title.clone(),
            title_source: self.title_source,
            activity: self.activity,
            pinned: self.pinned,
            read_through_sequence: self.read_through_sequence,
            unread_sequence: self.unread_sequence,
            archived_at: self.archived_at,
            revision: self.revision,
            durable_host: match &self.durable_host {
                Some(host) => Some(host.duplicate()),
                None => None,
            },
            group_id: self.group_id,
            position: self.position,
            started_at: self.started_at,
            updated_at: self.updated_at,
        }
    }

    /// Takes over what the store knows of the session.
    pub fn apply_hosted_session(&mut self, metadata: &HostedSession)
        ensures
            *final(self) == record_with(*old(self), *metadata),
    {
        self.state = metadata.lifecycle;
        self.title = metadata.title.clone();
        self.title_source = metadata.title_source;
        self.activity = metadata.activity;
        self.pinned = metadata.pinned;
        self.read_through_sequence = metadata.read_through_sequence;
        self.unread_sequence = metadata.unread_sequence;
        self.archived_at = metadata.archived_at;
        self.revision = metadata.revision;
        self.group_id = metadata.group_id;
        self.position = metadata.position;
    }
}

impl SavedState {
    /// Index of the first record of that identity, or the number of records.
    pub fn record_index(&self, id: HostedSessionId) -> (r: usize)
        ensures
            r == lists::first_index(self.app_attached_sessions@, is_record(id)),
            r <= self.app_attached_sessions@.len(),
    {
        let mut i: usize = 0;
        while i < self.app_attached_sessions.len() && self.app_attached_sessions[i].id != id
            invariant
                i <= self.app_attached_sessions@.len(),
                forall|k: int|
                    0 <= k < i ==> !is_record(id)(#[trigger] self.app_attached_sessions@[k]),
            decreases self.app_attached_sessions@.len() - i,
        {
            i += 1;
        }
        proof {
            lists::lemma_first_index(self.app_attached_sessions@, is_record(id), i as int);
        }
        i
    }

    /// The first record of that identity.
    pub fn record(&self, id: HostedSessionId) -> (r: Option<&SavedAppAttachedSession>)
        ensures
            match lists::first_where(self.app_attached_sessions@, is_record(id)) {
                Some(found) => r == Some(&found),
                None => r is None,
            },
    {
        let i: usize = self.record_index(id);
        if i < self.app_attached_sessions.len() {
            Some(&self.app_attached_sessions[i])
        } else {
            None
        }
    }

    fn set_record(&mut self, i: usize, record: SavedAppAttachedSession)
        requires
            i < old(self).app_attached_sessions@.len(),
        ensures
            final(self).app_attached_sessions@ == old(self).app_attached_sessions@.update(
                i as int,
                record,
            ),
    {
        self.app_attached_sessions.set(i, record);
    }

    /// The record of the session takes the metadata over; other records stay.
    pub fn apply_metadata(&mut self, metadata: &HostedSession)
        ensures
            final(self).app_attached_sessions@ == applied(
                old(self).app_attached_sessions@,
                *metadata,
            ),
    {
        let i: usize = self.record_index(metadata.id);
        if i < self.app_attached_sessions.len() {
            let mut record: SavedAppAttachedSession = self.app_attached_sessions[i].duplicate();
            record.apply_hosted_session(metadata);
            self.set_record(i, record);
        }
    }

    /// Replaces the record of the same identity, or adds the record.
    pub fn upsert_app_attached_session(&mut self, record: SavedAppAttachedSession)
        ensures
            ({
                let records = old(self).app_attached_sessions@;
                let i = lists::first_index(records, is_record(record.id));
                final(self).app_attached_sessions@ == if i < records.len() {
                    records.update(i, record)
                } else {
                    records.push(record)
                }
            }),
            final(self).app_attached_sessions@.contains(record),
            final(self).app_attached_sessions@.len() >= old(self).app_attached_sessions@.len(),
            forall|k: int|
                0 <= k < old(self).app_attached_sessions@.len() && (#[trigger] old(
                    self).app_attached_sessions@[k]).id != record.id ==> final(self).app_attached_sessions@[k]
                    == old(self).app_attached_sessions@[k],
    {
        let i: usize = self.record_index(record.id);
        proof {
            lists::lemma_first_index_bounds(self.app_attached_sessions@, is_record(record.id));
        }
        if i < self.app_attached_sessions.len() {
            self.set_record(i, record);
        } else {
            self.app_attached_sessions.push(record);
        }
        assert(self.app_attached_sessions@[i as int] == record);
    }

    /// Forgets every record of that identity.
    pub fn remove_app_attached_session(&mut self, id: HostedSessionId)
        ensures
            final(self).app_attached_sessions@ == lists::kept(
                old(self).app_attached_sessions@,
                |r: SavedAppAttachedSession| r.id != id,
            ),
    {
        let ghost all = self.app_attached_sessions@;
        let ghost stays = |r: SavedAppAttachedSession| r.id != id;
        let mut rest: Vec<SavedAppAttachedSession> = Vec::new();
        let mut i: usize = 0;
        assert(all.take(0) =~= Seq::empty());
        while i < self.app_attached_sessions.len()
            invariant
                self.app_attached_sessions@ == all,
                i <= all.len(),
                stays == (|r: SavedAppAttachedSession| r.id != id),
                rest@ == lists::kept(all.take(i as int), stays),
            decreases all.len() - i,
        {
            proof {
                lists::lemma_kept_step(all, stays, i as int);
            }
            let keep: bool = self.app_attached_sessions[i].id != id;
            lists::push_if(&mut rest, keep, self.app_attached_sessions[i].duplicate());
            i += 1;
        }
        assert(all.take(all.len() as int) =~= all);
        self.app_attached_sessions = rest;
    }

    pub fn duplicate(&self) -> (r: Self)
        ensures
            r.app_attached_sessions@ == self.app_attached_sessions@,
    {
        let ghost all = self.app_attached_sessions@;
        let mut records: Vec<SavedAppAttachedSession> = Vec::new();
        let mut i: usize = 0;
        while i < self.app_attached_sessions.len()
            invariant
                self.app_attached_sessions@ == all,
                i <= all.len(),
                records@ =~= all.take(i as int),
            decreases all.len() - i,
        {
            records.push(self.app_attached_sessions[i].duplicate());
            i += 1;
        }
        assert(all.take(all.len() as int) =~= all);
        SavedState { app_attached_sessions: records }
    }

    /// The placements of all sessions of a project.
    pub fn app_attached_session_placements(&self, project_id: ProjectId) -> (r: Vec<
        SavedSessionPlacement,
    >)
        ensures
            r@ == placements_of(self.app_attached_sessions@, project_id),
    {
        let ghost all = self.app_attached_sessions@;
        let mut r: Vec<SavedSessionPlacement> = Vec::new();
        let mut i: usize = 0;
        assert(all.take(0) =~= Seq::empty());
        while i < self.app_attached_sessions.len()
            invariant
                self.app_attached_sessions@ == all,
                i <= all.len(),
                r@ == placements_of(all.take(i as int), project_id),
            decreases all.len() - i,
        {
            assert(all.take(i + 1).drop_last() =~= all.take(i as int));
            let record = &self.app_attached_sessions[i];
            lists::push_if(
                &mut r,
                record.origin.project_id == project_id,
                SavedSessionPlacement {
                    id: record.id,
                    group_id: record.group_id,
                    position: record.position,
                },
            );
            i += 1;
        }
        assert(all.take(all.len() as int) =~= all);
        r
    }

    /// Puts sessions back where the placements say they stood.
    pub fn restore_app_attached_session_placements(&mut self, placements: &Vec<
        SavedSessionPlacement,
    >)
        ensures
            final(self).app_attached_sessions@ == restored(
                old(self).app_attached_sessions@,
                placements@,
            ),
    {
        let ghost start = self.app_attached_sessions@;
        let mut k: usize = 0;
        assert(placements@.take(0) =~= Seq::empty());
        while k < placements.len()
            invariant
                k <= placements@.len(),
                self.app_attached_sessions@ == restored(start, placements@.take(k as int)),
            decreases placements@.len() - k,
        {
            proof {
                assert(placements@.take(k + 1).drop_last() =~= placements@.take(k as int));
            }
            let p: SavedSessionPlacement = placements[k];
            let i: usize = self.record_index(p.id);
            if i < self.app_attached_sessions.len() {
                let mut record: SavedAppAttachedSession = self.app_attached_sessions[i].duplicate();
                record.group_id = p.group_id;
                record.position = p.position;
                self.set_record(i, record);
            }
            k += 1;
        }
        assert(placements@.take(placements@.len() as int) =~= placements@);
    }

    /// The position behind the last session of a list.
    pub fn next_app_attached_session_position(
        &self,
        project_id: ProjectId,
        group_id: Option<GroupId>,
    ) -> (r: u64)
        ensures
            r == next_position(self.app_attached_sessions@, project_id, group_id),
    {
        let ghost all = self.app_attached_sessions@;
        let mut next: u64 = FIRST_POSITION;
        let mut i: usize = 0;
        assert(all.take(0) =~= Seq::empty());
        while i < self.app_attached_sessions.len()
            invariant
                self.app_attached_sessions@ == all,
                i <= all.len(),
                next == next_position(all.take(i as int), project_id, group_id),
            decreases all.len() - i,
        {
            assert(all.take(i + 1).drop_last() =~= all.take(i as int));
            let record = &self.app_attached_sessions[i];
            if record.origin.project_id == project_id && record.group_id == group_id
                && record.position >= next {
                next = if record.position == u64::MAX {
                    u64::MAX
                } else {
                    record.position + 1
                };
            }
            i += 1;
        }
        assert(all.take(all.len() as int) =~= all);
        next
    }

    /// How many sessions stand in a group.
    pub fn group_session_count(&self, id: GroupId) -> (r: usize)
        ensures
            r == lists::kept(self.app_attached_sessions@, of_group(id)).len(),
    {
        let ghost all = self.app_attached_sessions@;
        let mut count: usize = 0;
        let mut i: usize = 0;
        assert(all.take(0) =~= Seq::empty());
        while i < self.app_attached_sessions.len()
            invariant
                self.app_attached_sessions@ == all,
                count <= i <= all.len(),
                count == lists::kept(all.take(i as int), of_group(id)).len(),
            decreases all.len() - i,
        {
            proof {
                lists::lemma_kept_step(all, of_group(id), i as int);
            }
            if self.app_attached_sessions[i].group_id == Some(id) {
                count += 1;
            }
            i += 1;
        }
        assert(all.take(all.len() as int) =~= all);
        count
    }

    /// Moves the sessions of a group to a destination in the same project and
    /// returns where the project's sessions stood before.
    pub fn relocate_group_sessions(
        &mut self,
        project_id: ProjectId,
        group_id: GroupId,
        destination: GroupDestination,
    ) -> (inverse: Vec<SavedSessionPlacement>)
        ensures
            inverse@ == placements_of(old(self).app_attached_sessions@, project_id),
            final(self).app_attached_sessions@ == reseated(
                old(self).app_attached_sessions@,
                0,
                in_group(project_id, group_id),
                destination_group(destination),
            ),
    {
        let inverse: Vec<SavedSessionPlacement> = self.app_attached_session_placements(project_id);
        let target: Option<GroupId> = match destination {
            GroupDestination::ProjectRoot => None,
            GroupDestination::Group(id) => Some(id),
        };
        let ghost start = self.app_attached_sessions@;
        let ghost chosen = in_group(project_id, group_id);
        let mut i: usize = 0;
        while i < self.app_attached_sessions.len()
            invariant
                i <= self.app_attached_sessions@.len() == start.len(),
                chosen == in_group(project_id, group_id),
                reseated(start, 0, chosen, target) == reseated(
                    self.app_attached_sessions@,
                    i as int,
                    chosen,
                    target,
                ),
            decreases start.len() - i,
        {
            let own_project: ProjectId = self.app_attached_sessions[i].origin.project_id;
            if own_project == project_id && self.app_attached_sessions[i].group_id == Some(group_id)
            {
                let next: u64 = self.next_app_attached_session_position(own_project, target);
                let mut record: SavedAppAttachedSession = self.app_attached_sessions[i].duplicate();
                record.group_id = target;
                record.position = next;
                self.set_record(i, record);
            }
            i += 1;
        }
        inverse
    }

    /// Moves every session whose group does not exist to its project's root and
    /// names those sessions.
    pub fn repair_app_attached_group_references(&mut self, valid: &Vec<GroupMembership>) -> (r: Vec<
        HostedSessionId,
    >)
        ensures
            final(self).app_attached_sessions@ == reseated(
                old(self).app_attached_sessions@,
                0,
                dangling(valid@),
                None,
            ),
            r@ == lists::kept(old(self).app_attached_sessions@, dangling(valid@)).map_values(
                |record: SavedAppAttachedSession| record.id,
            ),
    {
        let ghost start = self.app_attached_sessions@;
        let ghost chosen = dangling(valid@);
        let ghost name = |record: SavedAppAttachedSession| record.id;
        let mut r: Vec<HostedSessionId> = Vec::new();
        let mut i: usize = 0;
        proof {
            assert(start.take(0) =~= Seq::empty());
            assert(lists::kept(start.take(0), chosen).map_values(name) =~= Seq::empty());
        }
        while i < self.app_attached_sessions.len()
            invariant
                i <= self.app_attached_sessions@.len() == start.len(),
                chosen == dangling(valid@),
                name == (|record: SavedAppAttachedSession| record.id),
                forall|k: int|
                    i <= k < start.len() ==> #[trigger] self.app_attached_sessions@[k] == start[k],
                r@ == lists::kept(start.take(i as int), chosen).map_values(name),
                reseated(start, 0, chosen, None) == reseated(
                    self.app_attached_sessions@,
                    i as int,
                    chosen,
                    None,
                ),
            decreases start.len() - i,
        {
            assert(self.app_attached_sessions@[i as int] == start[i as int]);
            proof {
                lists::lemma_kept_step(start, chosen, i as int);
            }
            let ghost earlier = lists::kept(start.take(i as int), chosen);
            let own_project: ProjectId = self.app_attached_sessions[i].origin.project_id;
            let lost: bool = match self.app_attached_sessions[i].group_id {
                Some(group_id) => !is_valid_group(valid, group_id, own_project),
                None => false,
            };
            assert(lost == chosen(start[i as int]));
            if lost {
                let next: u64 = self.next_app_attached_session_position(own_project, None);
                let mut record: SavedAppAttachedSession = self.app_attached_sessions[i].duplicate();
                let id: HostedSessionId = record.id;
                record.group_id = None;
                record.position = next;
                self.set_record(i, record);
                r.push(id);
                assert(earlier.push(start[i as int]).map_values(name) =~= earlier.map_values(
                    name,
                ).push(id));
                assert(earlier + lists::optional(true, start[i as int]) =~= earlier.push(
                    start[i as int],
                ));
            } else {
                assert(earlier + lists::optional(false, start[i as int]) =~= earlier);
            }
            i += 1;
        }
        assert(start.take(start.len() as int) =~= start);
        r
    }

    /// Moves a session to a list, in front of `before` or at the end, and
    /// returns where the project's sessions stood before. Nothing changes and
    /// `None` comes back where the session is unknown or `before` is not in the
    /// list.
    pub fn move_app_attached_session(
        &mut self,
        id: HostedSessionId,
        destination: GroupDestination,
        before: Option<HostedSessionId>,
    ) -> (inverse: Option<Vec<SavedSessionPlacement>>)
        ensures
            ({
                let records = old(self).app_attached_sessions@;
                let target = destination_group(destination);
                match lists::first_where(records, is_record(id)) {
                    None => inverse is None && final(self).app_attached_sessions@ == records,
                    Some(record) => {
                        let project_id = record.origin.project_id;
                        match list_order(records, project_id, target, id, before) {
                            None => inverse is None && final(self).app_attached_sessions@
                                == records,
                            Some(order) => {
                                &&& inverse matches Some(places)
                                &&& places@ == placements_of(records, project_id)
                                &&& final(self).app_attached_sessions@ == renumbered(
                                    records,
                                    order,
                                    target,
                                )
                            },
                        }
                    },
                }
            }),
            inverse is None ==> final(self).app_attached_sessions@ == old(self).app_attached_sessions@,
    {
        let found: usize = self.record_index(id);
        if found >= self.app_attached_sessions.len() {
            return None;
        }
        let project_id: ProjectId = self.app_attached_sessions[found].origin.project_id;
        let target: Option<GroupId> = match destination {
            GroupDestination::ProjectRoot => None,
            GroupDestination::Group(group_id) => Some(group_id),
        };
        let mut order: Vec<ListEntry> = self.sorted_list(project_id, target, id);
        let entry: ListEntry = ListEntry { position: 0, id };
        match before {
            None => {
                order.push(entry);
            },
            Some(before_id) => {
                let at: usize = entry_index(&order, before_id);
                if at >= order.len() {
                    return None;
                }
                order.insert(at, entry);
            },
        }
        let inverse: Vec<SavedSessionPlacement> = self.app_attached_session_placements(project_id);
        self.renumber(&order, target);
        Some(inverse)
    }

    fn sorted_list(
        &self,
        project_id: ProjectId,
        group_id: Option<GroupId>,
        moved: HostedSessionId,
    ) -> (r: Vec<ListEntry>)
        ensures
            r@ == lists::stable_sort(
                list_entries(self.app_attached_sessions@, project_id, group_id, moved),
                entry_before(),
            ),
    {
        let ghost all = self.app_attached_sessions@;
        let mut entries: Vec<ListEntry> = Vec::new();
        let mut i: usize = 0;
        assert(all.take(0) =~= Seq::empty());
        while i < self.app_attached_sessions.len()
            invariant
                self.app_attached_sessions@ == all,
                i <= all.len(),
                entries@ == list_entries(all.take(i as int), project_id, group_id, moved),
            decreases all.len() - i,
        {
            assert(all.take(i + 1).drop_last() =~= all.take(i as int));
            let record = &self.app_attached_sessions[i];
            lists::push_if(
                &mut entries,
                record.origin.project_id == project_id && record.group_id == group_id && record.id
                    != moved,
                ListEntry { position: record.position, id: record.id },
            );
            i += 1;
        }
        assert(all.take(all.len() as int) =~= all);
        let earlier = |a: &ListEntry, b: &ListEntry| -> (x: bool)
            ensures
                x == entry_before()(*a, *b),
            {
                a.position < b.position || (a.position == b.position && a.id.value < b.id.value)
            };
        lists::sort_list(entries, earlier, Ghost(entry_before()))
    }

    fn renumber(&mut self, order: &Vec<ListEntry>, group_id: Option<GroupId>)
        ensures
            final(self).app_attached_sessions@ == renumbered(
                old(self).app_attached_sessions@,
                order@,
                group_id,
            ),
    {
        let ghost start = self.app_attached_sessions@;
        let ghost target = renumbered(start, order@, group_id);
        let mut i: usize = 0;
        while i < self.app_attached_sessions.len()
            invariant
                i <= self.app_attached_sessions@.len() == start.len(),
                target == renumbered(start, order@, group_id),
                forall|k: int|
                    0 <= k < i ==> #[trigger] self.app_attached_sessions@[k] == target[k],
                forall|k: int|
                    i <= k < start.len() ==> #[trigger] self.app_attached_sessions@[k] == start[k],
            decreases start.len() - i,
        {
            assert(self.app_attached_sessions@[i as int] == start[i as int]);
            let slot: usize = entry_index(order, self.app_attached_sessions[i].id);
            if slot < order.len() {
                let mut record: SavedAppAttachedSession = self.app_attached_sessions[i].duplicate();
                record.group_id = group_id;
                record.position = FIRST_POSITION + slot as u64;
                self.set_record(i, record);
            }
            assert(self.app_attached_sessions@[i as int] == target[i as int]);
            i += 1;
        }
        assert(self.app_attached_sessions@ =~= target);
    }
}

fn entry_index(order: &Vec<ListEntry>, id: HostedSessionId) -> (r: usize)
    ensures
        r == lists::first_index(order@, is_entry(id)),
        r <= order@.len(),
{
    let mut i: usize = 0;
    while i < order.len() && order[i].id != id
        invariant
            i <= order@.len(),
            forall|k: int| 0 <= k < i ==> !is_entry(id)(#[trigger] order@[k]),
        decreases order@.len() - i,
    {
        i += 1;
    }
    proof {
        lists::lemma_first_index(order@, is_entry(id), i as int);
    }
    i
}

fn is_valid_group(valid: &Vec<GroupMembership>, group_id: GroupId, project_id: ProjectId) -> (r:
    bool)
    ensures
        r == valid@.contains(GroupMembership { group_id, project_id }),
{
    let wanted: GroupMembership = GroupMembership { group_id, project_id };
    let mut i: usize = 0;
    while i < valid.len()
        invariant
            i <= valid@.len(),
            wanted == (GroupMembership { group_id, project_id }),
            forall|k: int| 0 <= k < i ==> #[trigger] valid@[k] != wanted,
        decreases valid@.len() - i,
    {
        if valid[i] == wanted {
            return true;
        }
        i += 1;
    }
    false
}

/// Outside a project the two record lists agree.
pub open spec fn agree_outside(
    a: Seq<SavedAppAttachedSession>,
    b: Seq<SavedAppAttachedSession>,
    project_id: ProjectId,
) -> bool {
    forall|i: int|
        0 <= i < a.len() && a[i].origin.project_id != project_id ==> #[trigger] b[i] == a[i]
}

proof fn lemma_restored_prefix(
    a: Seq<SavedAppAttachedSession>,
    b: Seq<SavedAppAttachedSession>,
    project_id: ProjectId,
    k: int,
)
    requires
        distinct_records(a),
        only_places_differ(a, b),
        agree_outside(a, b, project_id),
        0 <= k <= a.len(),
    ensures
        restored(b, placements_of(a.take(k), project_id)) == a.take(k) + b.skip(k),
    decreases k,
{
    if k == 0 {
        assert(a.take(0) =~= Seq::empty());
        assert(a.take(0) + b.skip(0) =~= b);
    } else {
        lemma_restored_prefix(a, b, project_id, k - 1);
        assert(a.take(k).drop_last() =~= a.take(k - 1));
        let earlier = placements_of(a.take(k - 1), project_id);
        let before = a.take(k - 1) + b.skip(k - 1);
        let r = a[k - 1];
        assert(a.take(k).last() == r);
        assert(before[k - 1] == b[k - 1]);
        assert(same_but_place(a[k - 1], b[k - 1]));
        let now = earlier + lists::optional(r.origin.project_id == project_id, placement(r));
        assert(placements_of(a.take(k), project_id) == now);
        if r.origin.project_id == project_id {
            assert(now.drop_last() =~= earlier);
            assert(now.last() == placement(r));
            let wanted = is_record(r.id);
            assert forall|m: int| 0 <= m < k - 1 implies !wanted(#[trigger] before[m]) by {
                assert(before[m] == a[m]);
                assert(a[m].id != a[k - 1].id);
            }
            assert(wanted(before[k - 1]));
            lists::lemma_first_index(before, wanted, k - 1);
            assert(restored(b, now) == before.update(
                k - 1,
                placed(before[k - 1], r.group_id, r.position),
            ));
            assert(placed(before[k - 1], r.group_id, r.position) == r);
            assert(before.update(k - 1, r) =~= a.take(k) + b.skip(k));
        } else {
            assert(now =~= earlier);
            assert(b[k - 1] == r);
            assert(before =~= a.take(k) + b.skip(k));
        }
    }
}

/// Putting back where a project's sessions stood undoes every change that only
/// moved sessions of that project.
pub proof fn law_restore_undoes_rearranging(
    records: Seq<SavedAppAttachedSession>,
    changed: Seq<SavedAppAttachedSession>,
    project_id: ProjectId,
)
    requires
        distinct_records(records),
        only_places_differ(records, changed),
        agree_outside(records, changed, project_id),
    ensures
        restored(changed, placements_of(records, project_id)) == records,
{
    lemma_restored_prefix(records, changed, project_id, records.len() as int);
    assert(records.take(records.len() as int) =~= records);
    assert(records + changed.skip(records.len() as int) =~= records);
}

proof fn lemma_list_entries_project(
    records: Seq<SavedAppAttachedSession>,
    project_id: ProjectId,
    group_id: Option<GroupId>,
    moved: HostedSessionId,
)
    ensures
        forall|k: int|
            0 <= k < list_entries(records, project_id, group_id, moved).len() ==> exists|i: int|
                0 <= i < records.len() && (#[trigger] records[i]).id == (
                #[trigger] list_entries(records, project_id, group_id, moved)[k]).id && records[
                i].origin.project_id == project_id,
    decreases records.len(),
{
    if records.len() > 0 {
        let t = records.drop_last();
        lemma_list_entries_project(t, project_id, group_id, moved);
        let front = list_entries(t, project_id, group_id, moved);
        let all = list_entries(records, project_id, group_id, moved);
        assert forall|k: int| 0 <= k < all.len() implies exists|i: int|
            0 <= i < records.len() && (#[trigger] records[i]).id == (#[trigger] all[k]).id
                && records[i].origin.project_id == project_id by {
            if k < front.len() {
                assert(all[k] == front[k]);
                let i = choose|i: int|
                    0 <= i < t.len() && (#[trigger] t[i]).id == front[k].id
                        && t[i].origin.project_id == project_id;
                assert(records[i] == t[i]);
            } else {
                assert(records[records.len() - 1] == records.last());
            }
        }
    }
}

proof fn lemma_sorted_member<A>(s: Seq<A>, before: spec_fn(A, A) -> bool, k: int)
    requires
        lists::weak_order(before),
        0 <= k < lists::stable_sort(s, before).len(),
    ensures
        s.contains(lists::stable_sort(s, before)[k]),
{
    broadcast use vstd::seq_lib::group_to_multiset_ensures;

    lists::law_stable_sort(s, before);
    let r = lists::stable_sort(s, before);
    assert(r.to_multiset().count(r[k]) > 0) by {
        assert(r.contains(r[k]));
    }
}

/// Moving a session changes nothing of any record but its place, and only
/// within the session's project.
pub proof fn law_move_changes_only_places(
    records: Seq<SavedAppAttachedSession>,
    id: HostedSessionId,
    destination: GroupDestination,
    before: Option<HostedSessionId>,
)
    requires
        distinct_records(records),
        lists::first_where(records, is_record(id)) is Some,
        list_order(
            records,
            lists::first_where(records, is_record(id))->0.origin.project_id,
            destination_group(destination),
            id,
            before,
        ) is Some,
    ensures
        ({
            let project_id = lists::first_where(records, is_record(id))->0.origin.project_id;
            let target = destination_group(destination);
            let order = list_order(records, project_id, target, id, before)->0;
            let moved = renumbered(records, order, target);
            &&& only_places_differ(records, moved)
            &&& agree_outside(records, moved, project_id)
        }),
{
    let project_id = lists::first_where(records, is_record(id))->0.origin.project_id;
    let target = destination_group(destination);
    let order = list_order(records, project_id, target, id, before)->0;
    let moved = renumbered(records, order, target);
    let rest = list_entries(records, project_id, target, id);
    let sorted = lists::stable_sort(rest, entry_before());
    let at = lists::first_index(records, is_record(id));
    lists::lemma_first_index_bounds(records, is_record(id));
    assert(lists::weak_order(entry_before()));
    lists::law_stable_sort(rest, entry_before());
    if before is Some {
        lists::lemma_first_index_bounds(sorted, is_entry(before->0));
    }
    assert forall|i: int|
        0 <= i < records.len() && records[i].origin.project_id
            != project_id implies #[trigger] moved[i] == records[i] by {
        let slot = lists::first_index(order, is_entry(records[i].id));
        lists::lemma_first_index_bounds(order, is_entry(records[i].id));
        if slot < order.len() {
            let e = order[slot];
            assert(e.id == records[i].id);
            if e.id == id {
                assert(records[at].id == id);
                assert(i == at);
            } else {
                lemma_list_entries_project(records, project_id, target, id);
                assert(sorted.contains(e)) by {
                    if before is None {
                        assert(sorted[slot] == e);
                    } else {
                        let mid = lists::first_index(sorted, is_entry(before->0));
                        if slot < mid {
                            assert(sorted[slot] == e);
                        } else {
                            assert(sorted[slot - 1] == e);
                        }
                    }
                }
                let k = choose|k: int| 0 <= k < sorted.len() && sorted[k] == e;
                lemma_sorted_member(rest, entry_before(), k);
                let m = choose|m: int| 0 <= m < rest.len() && rest[m] == e;
                let j = choose|j: int|
                    0 <= j < records.len() && (#[trigger] records[j]).id == rest[m].id
                        && records[j].origin.project_id == project_id;
                assert(i == j);
            }
        }
    }
}

/// A move is undone by putting back the placements that it handed out.
pub proof fn law_move_is_undone_by_its_inverse(
    records: Seq<SavedAppAttachedSession>,
    id: HostedSessionId,
    destination: GroupDestination,
    before: Option<HostedSessionId>,
)
    requires
        distinct_records(records),
        lists::first_where(records, is_record(id)) is Some,
        list_order(
            records,
            lists::first_where(records, is_record(id))->0.origin.project_id,
            destination_group(destination),
            id,
            before,
        ) is Some,
    ensures
        ({
            let project_id = lists::first_where(records, is_record(id))->0.origin.project_id;
            let target = destination_group(destination);
            let order = list_order(records, project_id, target, id, before)->0;
            restored(renumbered(records, order, target), placements_of(records, project_id))
                == records
        }),
{
    let project_id = lists::first_where(records, is_record(id))->0.origin.project_id;
    let target = destination_group(destination);
    let order = list_order(records, project_id, target, id, before)->0;
    law_move_changes_only_places(records, id, destination, before);
    law_restore_undoes_rearranging(records, renumbered(records, order, target), project_id);
}

proof fn lemma_reseated(
    records: Seq<SavedAppAttachedSession>,
    i: int,
    chosen: spec_fn(SavedAppAttachedSession) -> bool,
    target: Option<GroupId>,
)
    requires
        0 <= i <= records.len(),
    ensures
        only_places_differ(records, reseated(records, i, chosen, target)),
        forall|k: int|
            0 <= k < records.len() && (k < i || !chosen(records[k])) ==> #[trigger] reseated(
                records,
                i,
                chosen,
                target,
            )[k] == records[k],
        forall|k: int|
            i <= k < records.len() && chosen(records[k]) ==> (#[trigger] reseated(
                records,
                i,
                chosen,
                target,
            )[k]).group_id == target,
    decreases records.len() - i,
{
    if i < records.len() {
        if chosen(records[i]) {
            let step = records.update(
                i,
                placed(
                    records[i],
                    target,
                    next_position(records, records[i].origin.project_id, target),
                ),
            );
            lemma_reseated(step, i + 1, chosen, target);
            let r = reseated(step, i + 1, chosen, target);
            assert forall|k: int| 0 <= k < records.len() implies same_but_place(
                records[k],
                #[trigger] r[k],
            ) by {
                assert(same_but_place(step[k], r[k]));
            }
            assert forall|k: int|
                0 <= k < records.len() && (k < i || !chosen(records[k])) implies #[trigger] r[k]
                == records[k] by {
                assert(step[k] == records[k]);
            }
            assert forall|k: int| i <= k < records.len() && chosen(records[k]) implies (
            #[trigger] r[k]).group_id == target by {
                if k == i {
                    assert(r[k] == step[k]);
                } else {
                    assert(step[k] == records[k]);
                }
            }
        } else {
            lemma_reseated(records, i + 1, chosen, target);
        }
    }
}

/// Repairing loses no session and changes nothing but places, leaves every
/// session alone whose group exists, and leaves no session in a group that
/// does not.
pub proof fn law_repair_keeps_sessions_and_mends_groups(
    records: Seq<SavedAppAttachedSession>,
    valid: Seq<GroupMembership>,
)
    ensures
        ({
            let repaired = reseated(records, 0, dangling(valid), None);
            &&& only_places_differ(records, repaired)
            &&& forall|k: int|
                0 <= k < records.len() ==> !dangling(valid)(#[trigger] repaired[k])
            &&& forall|k: int|
                0 <= k < records.len() && !dangling(valid)(records[k]) ==> #[trigger] repaired[k]
                    == records[k]
            &&& forall|k: int|
                0 <= k < records.len() && dangling(valid)(records[k]) ==> (
                #[trigger] repaired[k]).group_id is None
        }),
{
    lemma_reseated(records, 0, dangling(valid), None);
    let repaired = reseated(records, 0, dangling(valid), None);
    assert forall|k: int| 0 <= k < records.len() implies !dangling(valid)(
        #[trigger] repaired[k],
    ) by {
        if !dangling(valid)(records[k]) {
            assert(repaired[k] == records[k]);
        }
    }
}

/// Repairing a second time changes nothing.
pub proof fn law_repair_is_idempotent(
    records: Seq<SavedAppAttachedSession>,
    valid: Seq<GroupMembership>,
)
    ensures
        ({
            let repaired = reseated(records, 0, dangling(valid), None);
            reseated(repaired, 0, dangling(valid), None) == repaired
        }),
{
    law_repair_keeps_sessions_and_mends_groups(records, valid);
    let repaired = reseated(records, 0, dangling(valid), None);
    law_repair_keeps_sessions_and_mends_groups(repaired, valid);
    assert(reseated(repaired, 0, dangling(valid), None) =~= repaired);
}

/// Emptying a group into another list of its project moves exactly the group's
/// sessions there, and putting the placements back undoes it.
pub proof fn law_relocation_is_undone_by_its_inverse(
    records: Seq<SavedAppAttachedSession>,
    project_id: ProjectId,
    group_id: GroupId,
    destination: GroupDestination,
)
    requires
        distinct_records(records),
    ensures
        ({
            let target = destination_group(destination);
            let moved = reseated(records, 0, in_group(project_id, group_id), target);
            &&& only_places_differ(records, moved)
            &&& forall|k: int|
                0 <= k < records.len() ==> (#[trigger] moved[k]).group_id == if in_list(
                    records[k],
                    project_id,
                    Some(group_id),
                ) {
                    target
                } else {
                    records[k].group_id
                }
            &&& restored(moved, placements_of(records, project_id)) == records
        }),
{
    let target = destination_group(destination);
    let chosen = in_group(project_id, group_id);
    lemma_reseated(records, 0, chosen, target);
    let moved = reseated(records, 0, chosen, target);
    assert forall|k: int| 0 <= k < records.len() implies (#[trigger] moved[k]).group_id
        == if in_list(records[k], project_id, Some(group_id)) {
        target
    } else {
        records[k].group_id
    } by {
        if chosen(records[k]) {
        }
    }
    law_restore_undoes_rearranging(records, moved, project_id);
}

proof fn lemma_applied_ids(records: Seq<SavedAppAttachedSession>, metadata: HostedSession)
    ensures
        applied(records, metadata).len() == records.len(),
        forall|k: int|
            0 <= k < records.len() ==> (#[trigger] applied(records, metadata)[k]).id
                == records[k].id,
        forall|k: int|
            0 <= k < records.len() && records[k].id != metadata.id ==> #[trigger] applied(
                records,
                metadata,
            )[k] == records[k],
{
    lists::lemma_first_index_bounds(records, is_record(metadata.id));
}

/// Taking metadata over neither adds, loses nor reorders records, and leaves
/// the identity, route, origin, labels, host and times of each as they are.
pub proof fn law_sync_keeps_records(
    records: Seq<SavedAppAttachedSession>,
    sessions: Seq<HostedSession>,
)
    ensures
        synced(records, sessions).len() == records.len(),
        forall|k: int|
            0 <= k < records.len() ==> {
                let a = records[k];
                let b = #[trigger] synced(records, sessions)[k];
                &&& b.id == a.id
                &&& b.route == a.route
                &&& b.origin == a.origin
                &&& b.project_label == a.project_label
                &&& b.preset_label == a.preset_label
                &&& b.durable_host == a.durable_host
                &&& b.started_at == a.started_at
                &&& b.updated_at == a.updated_at
            },
    decreases sessions.len(),
{
    if sessions.len() > 0 {
        law_sync_keeps_records(records, sessions.drop_last());
        let before = synced(records, sessions.drop_last());
        lemma_applied_ids(before, sessions.last());
        lists::lemma_first_index_bounds(before, is_record(sessions.last().id));
    }
}

/// The store's sessions stand where the placements put them, each of which names
/// a session that is there.
pub open spec fn stand_at(
    sessions: Seq<HostedSession>,
    placements: Seq<SavedSessionPlacement>,
) -> bool {
    forall|i: int|
        0 <= i < placements.len() ==> has_session(sessions, (#[trigger] placements[i]).id)
            && all_stand_at(sessions, placements[i])
}

pub open spec fn has_session(sessions: Seq<HostedSession>, id: HostedSessionId) -> bool {
    exists|j: int| 0 <= j < sessions.len() && (#[trigger] sessions[j]).id == id
}

pub open spec fn all_stand_at(
    sessions: Seq<HostedSession>,
    place: SavedSessionPlacement,
) -> bool {
    forall|j: int|
        0 <= j < sessions.len() && (#[trigger] sessions[j]).id == place.id ==> sessions[j].group_id
            == place.group_id && sessions[j].position == place.position
}

/// The store's sessions are in the states that the records know.
pub open spec fn states_agree(
    sessions: Seq<HostedSession>,
    records: Seq<SavedAppAttachedSession>,
) -> bool {
    forall|j: int, k: int|
        0 <= j < sessions.len() && 0 <= k < records.len() && (#[trigger] sessions[j]).id == (
        #[trigger] records[k]).id ==> sessions[j].lifecycle == records[k].state
}

proof fn lemma_synced_record(
    records: Seq<SavedAppAttachedSession>,
    sessions: Seq<HostedSession>,
    k: int,
)
    requires
        distinct_records(records),
        0 <= k < records.len(),
        states_agree(sessions, records),
    ensures
        synced(records, sessions)[k].state == records[k].state,
        forall|place: SavedSessionPlacement|
            place.id == records[k].id && has_session(sessions, place.id) && #[trigger] all_stand_at(
                sessions,
                place,
            ) ==> placement(synced(records, sessions)[k]) == place,
    decreases sessions.len(),
{
    law_sync_keeps_records(records, sessions);
    if sessions.len() > 0 {
        let earlier = sessions.drop_last();
        let last = sessions.last();
        let before = synced(records, earlier);
        law_sync_keeps_records(records, earlier);
        assert(states_agree(earlier, records)) by {
            assert forall|j: int, m: int|
                0 <= j < earlier.len() && 0 <= m < records.len() && (#[trigger] earlier[j]).id == (
                #[trigger] records[m]).id implies earlier[j].lifecycle == records[m].state by {
                assert(earlier[j] == sessions[j]);
            }
        }
        lemma_synced_record(records, earlier, k);
        lemma_applied_ids(before, last);
        assert(sessions[sessions.len() - 1] == last);
        if last.id == records[k].id {
            let wanted = is_record(last.id);
            assert forall|m: int| 0 <= m < k implies !wanted(#[trigger] before[m]) by {
                assert(records[m].id != records[k].id);
            }
            assert(wanted(before[k]));
            lists::lemma_first_index(before, wanted, k);
        } else {
            assert forall|place: SavedSessionPlacement|
                place.id == records[k].id && has_session(sessions, place.id)
                    && #[trigger] all_stand_at(sessions, place) implies placement(
                synced(records, sessions)[k],
            ) == place by {
                let j = choose|j: int|
                    0 <= j < sessions.len() && (#[trigger] sessions[j]).id == place.id;
                assert(earlier[j] == sessions[j]);
                assert(all_stand_at(earlier, place)) by {
                    assert forall|m: int|
                        0 <= m < earlier.len() && (#[trigger] earlier[m]).id
                            == place.id implies earlier[m].group_id == place.group_id
                        && earlier[m].position == place.position by {
                        assert(earlier[m] == sessions[m]);
                    }
                }
            }
        }
    }
}

proof fn lemma_placement_listed(
    records: Seq<SavedAppAttachedSession>,
    project_id: ProjectId,
    k: int,
)
    requires
        0 <= k < records.len(),
        records[k].origin.project_id == project_id,
    ensures
        placements_of(records, project_id).contains(placement(records[k])),
    decreases records.len(),
{
    let list = placements_of(records, project_id);
    if k == records.len() - 1 {
        assert(list[list.len() - 1] == placement(records[k]));
    } else {
        let t = records.drop_last();
        assert(t[k] == records[k]);
        lemma_placement_listed(t, project_id, k);
        let front = placements_of(t, project_id);
        let i = choose|i: int| 0 <= i < front.len() && front[i] == placement(records[k]);
        assert(list[i] == placement(records[k]));
    }
}

/// Records that follow a store which took the placements of a project over stand
/// where those placements put them; their origin and state are as they were.
pub proof fn law_records_follow_the_store(
    records: Seq<SavedAppAttachedSession>,
    arranged: Seq<SavedAppAttachedSession>,
    sessions: Seq<HostedSession>,
    project_id: ProjectId,
    k: int,
)
    requires
        distinct_records(records),
        only_places_differ(records, arranged),
        stand_at(sessions, placements_of(arranged, project_id)),
        states_agree(sessions, records),
        0 <= k < records.len(),
        records[k].origin.project_id == project_id,
    ensures
        ({
            let after = synced(records, sessions);
            &&& after.len() == records.len()
            &&& placement(after[k]) == placement(arranged[k])
            &&& after[k].origin == records[k].origin
            &&& after[k].state == records[k].state
        }),
{
    law_sync_keeps_records(records, sessions);
    lemma_synced_record(records, sessions, k);
    assert(same_but_place(records[k], arranged[k]));
    lemma_placement_listed(arranged, project_id, k);
    let list = placements_of(arranged, project_id);
    let i = choose|i: int| 0 <= i < list.len() && list[i] == placement(arranged[k]);
    assert(has_session(sessions, list[i].id) && all_stand_at(sessions, list[i]));
}

pub proof fn lemma_states_kept(
    records: Seq<SavedAppAttachedSession>,
    sessions: Seq<HostedSession>,
)
    requires
        distinct_records(records),
        states_agree(sessions, records),
    ensures
        forall|k: int|
            0 <= k < records.len() ==> (#[trigger] synced(records, sessions)[k]).state
                == records[k].state,
{
    assert forall|k: int| 0 <= k < records.len() implies (#[trigger] synced(
        records,
        sessions,
    )[k]).state == records[k].state by {
        lemma_synced_record(records, sessions, k);
    }
}

pub proof fn lemma_same_placements(
    a: Seq<SavedAppAttachedSession>,
    b: Seq<SavedAppAttachedSession>,
    project_id: ProjectId,
)
    requires
        a.len() == b.len(),
        forall|k: int|
            0 <= k < a.len() ==> placement(#[trigger] a[k]) == placement(b[k])
                && a[k].origin == b[k].origin,
    ensures
        placements_of(a, project_id) == placements_of(b, project_id),
    decreases a.len(),
{
    if a.len() > 0 {
        let s = a.drop_last();
        let t = b.drop_last();
        assert forall|k: int| 0 <= k < s.len() implies placement(#[trigger] s[k]) == placement(t[k])
            && s[k].origin == t[k].origin by {
            assert(s[k] == a[k] && t[k] == b[k]);
        }
        lemma_same_placements(s, t, project_id);
        assert(placement(a[a.len() - 1]) == placement(b[b.len() - 1]));
    }
}

/// A session that is added to a list stands behind every one that is there, as
/// long as there is a position left.
pub proof fn law_the_next_position_is_behind_all(
    records: Seq<SavedAppAttachedSession>,
    project_id: ProjectId,
    group_id: Option<GroupId>,
    i: int,
)
    requires
        0 <= i < records.len(),
        records[i].origin.project_id == project_id,
        records[i].group_id == group_id,
    ensures
        next_position(records, project_id, group_id) > records[i].position || next_position(
            records,
            project_id,
            group_id,
        ) == u64::MAX,
    decreases records.len(),
{
    if i < records.len() - 1 {
        law_the_next_position_is_behind_all(records.drop_last(), project_id, group_id, i);
    }
}

/// The entry stands for the record at `i`, which is in the list and not the moved
/// one.
spec fn stands_for(
    records: Seq<SavedAppAttachedSession>,
    i: int,
    project_id: ProjectId,
    group_id: Option<GroupId>,
    moved: HostedSessionId,
    e: ListEntry,
) -> bool {
    &&& 0 <= i < records.len()
    &&& records[i].origin.project_id == project_id
    &&& records[i].group_id == group_id
    &&& records[i].id != moved
    &&& e == (ListEntry { position: records[i].position, id: records[i].id })
}

spec fn stands_for_one(
    records: Seq<SavedAppAttachedSession>,
    project_id: ProjectId,
    group_id: Option<GroupId>,
    moved: HostedSessionId,
    e: ListEntry,
) -> bool {
    exists|i: int| stands_for(records, i, project_id, group_id, moved, e)
}

proof fn lemma_entries_of_list(
    records: Seq<SavedAppAttachedSession>,
    project_id: ProjectId,
    group_id: Option<GroupId>,
    moved: HostedSessionId,
    e: ListEntry,
)
    ensures
        list_entries(records, project_id, group_id, moved).contains(e) <==> exists|i: int|
            #[trigger] stands_for(records, i, project_id, group_id, moved, e),
    decreases records.len(),
{
    let list = list_entries(records, project_id, group_id, moved);
    if records.len() > 0 {
        let t = records.drop_last();
        let r = records.last();
        let front = list_entries(t, project_id, group_id, moved);
        let fits = in_list(r, project_id, group_id) && r.id != moved;
        let last = ListEntry { position: r.position, id: r.id };
        lemma_entries_of_list(t, project_id, group_id, moved, e);
        assert(list == front + lists::optional(fits, last));
        if list.contains(e) {
            let k = choose|k: int| 0 <= k < list.len() && list[k] == e;
            if k < front.len() {
                assert(front[k] == e);
                assert(front.contains(e));
                let i = choose|i: int|
                    #[trigger] stands_for(t, i, project_id, group_id, moved, e);
                assert(stands_for(records, i, project_id, group_id, moved, e));
            } else {
                assert(stands_for(records, records.len() - 1, project_id, group_id, moved, e));
            }
        }
        if exists|i: int|
            #[trigger] stands_for(records, i, project_id, group_id, moved, e) {
            let i = choose|i: int|
                #[trigger] stands_for(records, i, project_id, group_id, moved, e);
            if i < t.len() {
                assert(stands_for(t, i, project_id, group_id, moved, e));
                assert(front.contains(e));
                let k = choose|k: int| 0 <= k < front.len() && front[k] == e;
                assert(list[k] == e);
            } else {
                assert(fits && last == e);
                assert(list[front.len() as int] == e);
            }
        }
    }
}

proof fn lemma_entries_distinct(
    records: Seq<SavedAppAttachedSession>,
    project_id: ProjectId,
    group_id: Option<GroupId>,
    moved: HostedSessionId,
)
    requires
        distinct_records(records),
    ensures
        list_entries(records, project_id, group_id, moved).no_duplicates(),
    decreases records.len(),
{
    if records.len() > 0 {
        let t = records.drop_last();
        let r = records.last();
        lemma_entries_distinct(t, project_id, group_id, moved);
        let front = list_entries(t, project_id, group_id, moved);
        let last = ListEntry { position: r.position, id: r.id };
        lemma_entries_of_list(t, project_id, group_id, moved, last);
        if front.contains(last) {
            let i = choose|i: int|
                #[trigger] stands_for(t, i, project_id, group_id, moved, last);
            assert(records[i].id == records[records.len() - 1].id);
        }
    }
}

/// The entries of a list, sorted: each stands for a record of the list other than
/// the moved one, no two for the same.
proof fn lemma_sorted_entries(
    records: Seq<SavedAppAttachedSession>,
    project_id: ProjectId,
    group_id: Option<GroupId>,
    moved: HostedSessionId,
)
    requires
        distinct_records(records),
    ensures
        ({
            let rest = lists::stable_sort(
                list_entries(records, project_id, group_id, moved),
                entry_before(),
            );
            &&& forall|j: int, k: int|
                0 <= j < k < rest.len() ==> (#[trigger] rest[j]).id != (#[trigger] rest[k]).id
            &&& forall|j: int, k: int|
                0 <= j < k < rest.len() ==> (#[trigger] rest[j]).position <= (
                #[trigger] rest[k]).position
            &&& forall|j: int| 0 <= j < rest.len() ==> (#[trigger] rest[j]).id != moved
            &&& forall|i: int|
                0 <= i < records.len() && (#[trigger] records[i]).origin.project_id == project_id
                    && records[i].group_id == group_id && records[i].id != moved
                    ==> rest.contains(
                    ListEntry { position: records[i].position, id: records[i].id },
                )
            &&& forall|j: int|
                0 <= j < rest.len() ==> stands_for_one(
                    records,
                    project_id,
                    group_id,
                    moved,
                    #[trigger] rest[j],
                )
        }),
{
    broadcast use vstd::seq_lib::group_to_multiset_ensures;

    let list = list_entries(records, project_id, group_id, moved);
    let rest = lists::stable_sort(list, entry_before());
    assert(lists::weak_order(entry_before()));
    lists::law_stable_sort(list, entry_before());
    lemma_entries_distinct(records, project_id, group_id, moved);
    list.lemma_multiset_has_no_duplicates();
    rest.lemma_multiset_has_no_duplicates_conv();
    assert forall|j: int| 0 <= j < rest.len() implies stands_for_one(
        records,
        project_id,
        group_id,
        moved,
        #[trigger] rest[j],
    ) by {
        lists::lemma_sorted_members(list, entry_before(), rest[j]);
        assert(rest.contains(rest[j]));
        lemma_entries_of_list(records, project_id, group_id, moved, rest[j]);
    }
    assert forall|i: int|
        0 <= i < records.len() && (#[trigger] records[i]).origin.project_id == project_id
            && records[i].group_id == group_id && records[i].id != moved implies rest.contains(
        ListEntry { position: records[i].position, id: records[i].id },
    ) by {
        let e = ListEntry { position: records[i].position, id: records[i].id };
        lemma_entries_of_list(records, project_id, group_id, moved, e);
        assert(stands_for(records, i, project_id, group_id, moved, e));
        lists::lemma_sorted_members(list, entry_before(), e);
    }
    assert forall|j: int, k: int| 0 <= j < k < rest.len() implies (#[trigger] rest[j]).id != (
    #[trigger] rest[k]).id by {
        if rest[j].id == rest[k].id {
            let a = choose|i: int|
                #[trigger] stands_for(records, i, project_id, group_id, moved, rest[j]);
            let b = choose|i: int|
                #[trigger] stands_for(records, i, project_id, group_id, moved, rest[k]);
            assert(a == b);
            assert(rest[j] == rest[k]);
        }
    }
    assert forall|j: int, k: int| 0 <= j < k < rest.len() implies (#[trigger] rest[j]).position <= (
    #[trigger] rest[k]).position by {
        assert(!entry_before()(rest[k], rest[j]));
    }
    assert forall|j: int| 0 <= j < rest.len() implies (#[trigger] rest[j]).id != moved by {
        let i = choose|i: int|
            #[trigger] stands_for(records, i, project_id, group_id, moved, rest[j]);
        assert(records[i].id != moved);
    }
}

/// A moved session stands in the group it was moved to, right in front of the one
/// it was put before, or behind all where it was put at the end. The others of
/// that list keep their order.
pub proof fn law_a_move_puts_the_session_in_its_place(
    records: Seq<SavedAppAttachedSession>,
    at: int,
    destination: GroupDestination,
    before: Option<HostedSessionId>,
)
    requires
        distinct_records(records),
        0 <= at < records.len(),
        records.len() + FIRST_POSITION < u64::MAX,
        list_order(
            records,
            records[at].origin.project_id,
            destination_group(destination),
            records[at].id,
            before,
        ) is Some,
    ensures
        ({
            let target = match destination {
                GroupDestination::Group(id) => Some(id),
                GroupDestination::ProjectRoot => None,
            };
            let project_id = records[at].origin.project_id;
            let order = list_order(
                records,
                project_id,
                destination_group(destination),
                records[at].id,
                before,
            )->0;
            let moved = renumbered(records, order, destination_group(destination));
            &&& moved[at].group_id == target
            &&& before matches Some(next) ==> exists|k: int|
                {
                    &&& 0 <= k < records.len()
                    &&& (#[trigger] moved[k]).id == next
                    &&& moved[k].group_id == target
                    &&& moved[k].position == moved[at].position + 1
                }
            &&& before is None ==> forall|k: int|
                0 <= k < records.len() && k != at && records[k].origin.project_id == project_id
                    && records[k].group_id == target ==> (#[trigger] moved[k]).position
                    < moved[at].position
            &&& forall|k: int, l: int|
                #![trigger moved[k], moved[l]]
                0 <= k < records.len() && 0 <= l < records.len() && k != at && l != at
                    && records[k].origin.project_id == project_id && records[l].origin.project_id
                    == project_id && records[k].group_id == target && records[l].group_id == target
                    && records[k].position < records[l].position ==> moved[k].position
                    < moved[l].position
        }),
{
    broadcast use vstd::seq_lib::group_to_multiset_ensures;

    let target = destination_group(destination);
    let project_id = records[at].origin.project_id;
    let id = records[at].id;
    let list = list_entries(records, project_id, target, id);
    let rest = lists::stable_sort(list, entry_before());
    let order = list_order(records, project_id, target, id, before)->0;
    let moved = renumbered(records, order, target);
    lemma_sorted_entries(records, project_id, target, id);
    lemma_entries_bounded(records, project_id, target, id);
    assert(lists::weak_order(entry_before()));
    lists::law_stable_sort(list, entry_before());
    let slot = match before {
        None => rest.len() as int,
        Some(next) => lists::first_index(rest, is_entry(next)),
    };
    if let Some(next) = before {
        lists::lemma_first_index_bounds(rest, is_entry(next));
    }
    assert(order =~= rest.insert(slot, ListEntry { position: 0, id }));
    assert forall|k: int| 0 <= k < order.len() implies lists::first_index(
        order,
        is_entry((#[trigger] order[k]).id),
    ) == k by {
        assert forall|j: int| 0 <= j < k implies !(is_entry(order[k].id))(#[trigger] order[j]) by {}
        lists::lemma_first_index(order, is_entry(order[k].id), k);
    }
    assert(order[slot].id == id);
    assert(lists::first_index(order, is_entry(id)) == slot);
    assert(moved[at] == placed(records[at], target, (FIRST_POSITION + slot) as u64));
    if let Some(next) = before {
        assert(rest[slot].id == next);
        let k = choose|i: int|
            #[trigger] stands_for(records, i, project_id, target, id, rest[slot]);
        assert(order[slot + 1] == rest[slot]);
        assert(moved[k] == placed(records[k], target, (FIRST_POSITION + slot + 1) as u64));
        assert(moved[k].id == next);
    }
    assert forall|k: int|
        0 <= k < records.len() && k != at && records[k].origin.project_id == project_id
            && records[k].group_id == target implies exists|j: int|
        {
            &&& 0 <= j < rest.len()
            &&& rest[j] == (ListEntry { position: records[k].position, id: records[k].id })
            &&& (#[trigger] moved[k]).position == FIRST_POSITION + if j < slot {
                j
            } else {
                j + 1
            }
        } by {
        let e = ListEntry { position: records[k].position, id: records[k].id };
        assert(records[k].id != id);
        assert(rest.contains(e));
        let j = choose|j: int| 0 <= j < rest.len() && rest[j] == e;
        let m = if j < slot {
            j
        } else {
            j + 1
        };
        assert(order[m] == rest[j]);
        assert(moved[k] == placed(records[k], target, (FIRST_POSITION + m) as u64));
        assert(rest[j] == (ListEntry { position: records[k].position, id: records[k].id }));
    }
}

proof fn lemma_entries_bounded(
    records: Seq<SavedAppAttachedSession>,
    project_id: ProjectId,
    group_id: Option<GroupId>,
    moved: HostedSessionId,
)
    ensures
        list_entries(records, project_id, group_id, moved).len() <= records.len(),
    decreases records.len(),
{
    if records.len() > 0 {
        lemma_entries_bounded(records.drop_last(), project_id, group_id, moved);
    }
}

/// A record takes from the store how its session stands, is called, is placed and
/// was read, and keeps what it alone knows. A record of another session stays as it
/// is.
pub proof fn law_records_take_over_what_the_store_says(
    records: Seq<SavedAppAttachedSession>,
    metadata: HostedSession,
    at: int,
)
    requires
        distinct_records(records),
        0 <= at < records.len(),
    ensures
        ({
            let a = records[at];
            let b = applied(records, metadata)[at];
            &&& applied(records, metadata).len() == records.len()
            &&& a.id != metadata.id ==> b == a
            &&& a.id == metadata.id ==> {
                &&& b.state == metadata.lifecycle
                &&& b.title == metadata.title
                &&& b.title_source == metadata.title_source
                &&& b.activity == metadata.activity
                &&& b.pinned == metadata.pinned
                &&& b.read_through_sequence == metadata.read_through_sequence
                &&& b.unread_sequence == metadata.unread_sequence
                &&& b.archived_at == metadata.archived_at
                &&& b.revision == metadata.revision
                &&& b.group_id == metadata.group_id
                &&& b.position == metadata.position
            }
            &&& b.id == a.id
            &&& b.route == a.route
            &&& b.origin == a.origin
            &&& b.project_label == a.project_label
            &&& b.preset_label == a.preset_label
            &&& b.durable_host == a.durable_host
            &&& b.started_at == a.started_at
            &&& b.updated_at == a.updated_at
        }),
{
    lists::lemma_first_index_bounds(records, is_record(metadata.id));
    let i = lists::first_index(records, is_record(metadata.id));
    if records[at].id == metadata.id {
        if i < at {
            assert(records[i].id == records[at].id);
        } else if i > at {
            assert(!(is_record(metadata.id))(records[at]));
        }
    }
}

/// The placements of a project are those of its sessions, each with the group and
/// the position that its record has, and of no others.
pub proof fn law_placements_are_those_of_the_project(
    records: Seq<SavedAppAttachedSession>,
    project_id: ProjectId,
    place: SavedSessionPlacement,
)
    ensures
        placements_of(records, project_id).contains(place) <==> exists|i: int|
            {
                &&& 0 <= i < records.len()
                &&& (#[trigger] records[i]).origin.project_id == project_id
                &&& records[i].id == place.id
                &&& records[i].group_id == place.group_id
                &&& records[i].position == place.position
            },
    decreases records.len(),
{
    let list = placements_of(records, project_id);
    if records.len() > 0 {
        let t = records.drop_last();
        let r = records.last();
        let front = placements_of(t, project_id);
        law_placements_are_those_of_the_project(t, project_id, place);
        assert(list == front + lists::optional(
            r.origin.project_id == project_id,
            placement(r),
        ));
        if list.contains(place) {
            let k = choose|k: int| 0 <= k < list.len() && list[k] == place;
            if k < front.len() {
                assert(front[k] == place);
                assert(front.contains(place));
                let i = choose|i: int|
                    {
                        &&& 0 <= i < t.len()
                        &&& (#[trigger] t[i]).origin.project_id == project_id
                        &&& t[i].id == place.id
                        &&& t[i].group_id == place.group_id
                        &&& t[i].position == place.position
                    };
                assert(records[i] == t[i]);
            } else {
                assert(records[records.len() - 1] == r);
            }
        }
        if exists|i: int|
            {
                &&& 0 <= i < records.len()
                &&& (#[trigger] records[i]).origin.project_id == project_id
                &&& records[i].id == place.id
                &&& records[i].group_id == place.group_id
                &&& records[i].position == place.position
            } {
            let i = choose|i: int|
                {
                    &&& 0 <= i < records.len()
                    &&& (#[trigger] records[i]).origin.project_id == project_id
                    &&& records[i].id == place.id
                    &&& records[i].group_id == place.group_id
                    &&& records[i].position == place.position
                };
            if i < t.len() {
                assert(t[i] == records[i]);
                assert(front.contains(place));
                let k = choose|k: int| 0 <= k < front.len() && front[k] == place;
                assert(list[k] == place);
            } else {
                assert(list[front.len() as int] == place);
            }
        }
    }
}

} // verus!
