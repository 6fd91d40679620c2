//! Organizing sessions: groups, moves and their undo, the changes of single
//! sessions, and the recovery of hosts.
use vstd::prelude::*;

use crate::domain::{
    GroupError, HostedSession, HostedSessionState, ProjectError, SessionStateError, StoreError,
};
use crate::ids;
use crate::ids::{accessible_session_id, AccessibleRowId, GroupId, HostedSessionId, ProjectId};
use crate::lists;
use crate::messages::{MessageId, Text};
use crate::projects::{Group, ProjectLibraryState};
use crate::saved_state;
use crate::saved_state::{
    GroupDestination, GroupMembership, SavedAppAttachedSession, SavedSessionPlacement, SavedState,
};
use crate::session_coordinator::PendingArchiveAction;
use crate::session_library;
use crate::session_library::{
    SessionLibraryFilter, SessionLibraryState, SessionLibraryView, SessionMutation,
    SessionRemovalPlan, SessionSnapshot,
};
use crate::ui;
use crate::ui::Notices;

verus! {

/// How long a change of the organization can be undone, in milliseconds.
pub const ORGANIZATION_UNDO_WINDOW: u64 = 10_000;

#[derive(Clone, Copy, Debug, PartialEq, Eq, Structural)]
pub struct GroupEditor {
    pub project_id: ProjectId,
    pub group_id: Option<GroupId>,
}

#[derive(Clone, Copy, Debug, PartialEq, Eq, Structural)]
pub struct PendingGroupRemoval {
    pub group_id: GroupId,
}

/// The change of a group that takes the last one back.
#[derive(Debug)]
pub enum GroupInverseCommand {
    RemoveCreated { group_id: GroupId },
    Rename { group_id: GroupId, name: String },
    SetCollapsed { group_id: GroupId, collapsed: bool },
    MoveBefore { group_id: GroupId, before: Option<GroupId> },
    RestoreRemoved { group: Group },
}

#[derive(Debug)]
pub enum OrganizationInverse {
    Group { command: GroupInverseCommand, placements: Vec<SavedSessionPlacement> },
    Session { placements: Vec<SavedSessionPlacement> },
}

#[derive(Debug)]
pub struct PendingOrganizationUndo {
    pub inverse: OrganizationInverse,
    pub expires_at: u64,
}

#[derive(Debug)]
pub struct SessionSidebarState {
    pub editor: Option<GroupEditor>,
    pub pending_removal: Option<PendingGroupRemoval>,
    pub pending_undo: Option<PendingOrganizationUndo>,
    pub selected_session: Option<HostedSessionId>,
}

/// What the project store is asked to do with a group, under which revision.
#[derive(Debug)]
pub struct GroupRequest {
    pub change: GroupChange,
    pub expected_revision: u64,
}

#[derive(Debug)]
pub enum GroupChange {
    Create { project_id: ProjectId, group_id: GroupId, name: String },
    Rename { group_id: GroupId, name: String },
    SetCollapsed { group_id: GroupId, collapsed: bool },
    MoveBefore { group_id: GroupId, before: Option<GroupId> },
    Remove { group_id: GroupId, destination: Option<GroupDestination>, has_sessions: bool },
    Restore { group: Group },
}

/// What follows once the project store has answered.
#[derive(Clone, Copy, Debug, PartialEq, Eq, Structural)]
pub enum GroupFollowUp {
    Nothing,
    /// Read the project store again and repair group references.
    Refresh,
    /// Refresh, then report that the organization was updated.
    Complete,
}

/// The rows before and after a change and the one that was selected: from these
/// the next selection is decided.
#[derive(Debug)]
pub struct SelectionChange {
    pub previous: Vec<AccessibleRowId>,
    pub next: Vec<AccessibleRowId>,
    pub selected: Option<AccessibleRowId>,
}

/// The element that one which moves by `delta` is put in front of: `None` where
/// there is no such place, `Some(None)` for the end of the list.
pub open spec fn move_target<A>(list: Seq<A>, index: int, delta: int) -> Option<Option<A>> {
    let target = index + delta;
    if target < 0 || target >= list.len() {
        None
    } else if delta < 0 {
        Some(Some(list[target]))
    } else if index + 2 < list.len() {
        Some(Some(list[index + 2]))
    } else {
        Some(None)
    }
}

/// The index in front of which an element moves: `None` where there is no such
/// place, `Some(None)` for the end.
pub(crate) fn move_index(len: usize, index: usize, delta: isize) -> (r: Option<Option<usize>>)
    requires
        index < len,
    ensures
        ({
            let target = index + delta;
            r == if target < 0 || target >= len {
                None
            } else if delta < 0 {
                Some(Some(target as usize))
            } else if index + 2 < len {
                Some(Some((index + 2) as usize))
            } else {
                Some(None)
            }
        }),
        r is Some <==> 0 <= index + delta < len,
        r matches Some(Some(before)) ==> before < len && before != index,
        r == Some(None::<usize>) ==> delta >= 0 && index + 2 >= len,
{
    let target: i128 = index as i128 + delta as i128;
    if target < 0 || target >= len as i128 {
        None
    } else if delta < 0 {
        Some(Some(target as usize))
    } else if len - index > 2 {
        Some(Some(index + 2))
    } else {
        Some(None)
    }
}

pub open spec fn operation_failed(before: Notices) -> Notices {
    ui::failed(before, Text::Message(MessageId::SessionLibraryOperationFailed))
}

pub open spec fn operation_complete() -> Notices {
    ui::succeeded(Text::Message(MessageId::SessionLibraryOperationComplete))
}

pub open spec fn organization_updated() -> Notices {
    ui::succeeded(Text::Message(MessageId::GroupOrganizationUpdated))
}

/// The session library after a failed operation: a stale revision has the store
/// read again.
pub open spec fn after_error(
    library: SessionLibraryState,
    error: StoreError,
    reread: Result<SessionSnapshot, StoreError>,
) -> SessionLibraryState {
    if session_library::is_stale(error) {
        library.reloaded(reread)
    } else {
        library
    }
}

/// How an answer of the session store to a rearrangement is taken over: `ok`
/// says whether it took effect.
pub open spec fn placements_taken(
    before: SessionLibraryState,
    after: SessionLibraryState,
    records: Seq<SavedAppAttachedSession>,
    records_after: Seq<SavedAppAttachedSession>,
    outcome: Result<(), StoreError>,
    loaded: Result<SessionSnapshot, StoreError>,
    reread: Result<SessionSnapshot, StoreError>,
    ok: bool,
) -> bool {
    match outcome {
        Err(error) => {
            &&& !ok
            &&& after == after_error(before, error, reread)
            &&& records_after == records
        },
        Ok(()) => match before.reload_result(loaded) {
            Ok(()) => {
                &&& ok
                &&& after == before.reloaded(loaded)
                &&& records_after == saved_state::synced(records, after.known())
            },
            Err(error) => {
                &&& !ok
                &&& after == after_error(before.reloaded(loaded), error, reread)
                &&& records_after == records
            },
        },
    }
}

/// Reports a failed operation; a stale revision has the store read again.
pub fn handle_session_library_error(
    library: &mut SessionLibraryState,
    error: StoreError,
    reread: Result<SessionSnapshot, StoreError>,
    notices: &mut Notices,
)
    ensures
        *final(library) == after_error(*old(library), error, reread),
        *final(notices) == operation_failed(*old(notices)),
{
    let stale: bool = match error {
        StoreError::SessionDomain(SessionStateError::StaleRevision) => true,
        _ => false,
    };
    if stale {
        let _ = library.reload(reread);
    }
    notices.fail(Text::Message(MessageId::SessionLibraryOperationFailed));
}

/// The message for a failed change of a group.
pub open spec fn group_error_message(error: StoreError) -> MessageId {
    match error {
        StoreError::GroupDomain(GroupError::EmptyName)
        | StoreError::GroupDomain(GroupError::NameContainsNul)
        | StoreError::GroupDomain(GroupError::NameTooLong) => MessageId::GroupErrorInvalidName,
        StoreError::GroupDomain(GroupError::DuplicateName) => MessageId::GroupErrorDuplicate,
        StoreError::Domain(ProjectError::StaleRevision)
        | StoreError::GroupDomain(GroupError::StaleRevision) => MessageId::GroupErrorStale,
        _ => MessageId::GroupErrorGeneric,
    }
}

/// Reports a failed change of a group; a stale revision has the project store
/// read again.
pub fn handle_group_error(error: StoreError, notices: &mut Notices) -> (r: GroupFollowUp)
    ensures
        *final(notices) == ui::failed(*old(notices), Text::Message(group_error_message(error))),
        r == if group_error_message(error) == MessageId::GroupErrorStale {
            GroupFollowUp::Refresh
        } else {
            GroupFollowUp::Nothing
        },
        r is Refresh <==> error == StoreError::Domain(ProjectError::StaleRevision) || error
            == StoreError::GroupDomain(GroupError::StaleRevision),
        !(r is Complete),
        final(notices).error is Some && final(notices).status == old(notices).status,
{
    let message: MessageId = match error {
        StoreError::GroupDomain(GroupError::EmptyName)
        | StoreError::GroupDomain(GroupError::NameContainsNul)
        | StoreError::GroupDomain(GroupError::NameTooLong) => MessageId::GroupErrorInvalidName,
        StoreError::GroupDomain(GroupError::DuplicateName) => MessageId::GroupErrorDuplicate,
        StoreError::Domain(ProjectError::StaleRevision)
        | StoreError::GroupDomain(GroupError::StaleRevision) => MessageId::GroupErrorStale,
        _ => MessageId::GroupErrorGeneric,
    };
    notices.fail(Text::Message(message));
    if message == MessageId::GroupErrorStale {
        GroupFollowUp::Refresh
    } else {
        GroupFollowUp::Nothing
    }
}

/// The revision under which groups are changed, where a store is open and was
/// read.
pub open spec fn change_revision(projects: ProjectLibraryState) -> Option<u64> {
    if projects.has_repository {
        projects.known_revision()
    } else {
        None
    }
}

fn revision_for_change(projects: &ProjectLibraryState) -> (r: Option<u64>)
    ensures
        r == change_revision(*projects),
{
    if projects.has_repository {
        projects.project_revision()
    } else {
        None
    }
}

pub open spec fn request(
    projects: ProjectLibraryState,
    change: GroupChange,
) -> Option<GroupRequest> {
    match change_revision(projects) {
        Some(expected_revision) => Some(GroupRequest { change, expected_revision }),
        None => None,
    }
}

fn request_change(projects: &ProjectLibraryState, change: GroupChange) -> (r: Option<GroupRequest>)
    ensures
        r == request(*projects, change),
{
    match revision_for_change(projects) {
        Some(expected_revision) => Some(GroupRequest { change, expected_revision }),
        None => None,
    }
}

/// What the editor asks the store for.
pub open spec fn editor_change(editor: GroupEditor, name: String, fresh: GroupId) -> GroupChange {
    match editor.group_id {
        Some(group_id) => GroupChange::Rename { group_id, name },
        None => GroupChange::Create { project_id: editor.project_id, group_id: fresh, name },
    }
}

/// Asks the store to collapse or expand a group.
pub fn set_group_collapsed(
    projects: &ProjectLibraryState,
    group_id: GroupId,
    collapsed: bool,
) -> (r: Option<GroupRequest>)
    ensures
        r == request(*projects, GroupChange::SetCollapsed { group_id, collapsed }),
{
    request_change(projects, GroupChange::SetCollapsed { group_id, collapsed })
}

/// The group in front of which a group moves.
pub open spec fn group_move(
    projects: ProjectLibraryState,
    id: GroupId,
    delta: int,
) -> Option<Option<GroupId>> {
    match projects.found_group(id) {
        None => None,
        Some(group) => {
            let groups = projects.groups_of(group.project_id);
            let index = lists::first_index(groups, crate::projects::is_group(id));
            if index >= groups.len() {
                None
            } else {
                match move_target(groups, index, delta) {
                    None => None,
                    Some(None) => Some(None),
                    Some(Some(other)) => Some(Some(other.id)),
                }
            }
        },
    }
}

/// Index of a group in a list, or the list's length.
pub(crate) fn group_index(groups: &Vec<Group>, id: GroupId) -> (r: usize)
    ensures
        r == lists::first_index(groups@, crate::projects::is_group(id)),
        r <= groups@.len(),
{
    let ghost wanted = crate::projects::is_group(id);
    let mut i: usize = 0;
    while i < groups.len()
        invariant
            i <= groups@.len(),
            wanted == crate::projects::is_group(id),
            forall|k: int| 0 <= k < i ==> !wanted(#[trigger] groups@[k]),
        decreases groups@.len() - i,
    {
        if groups[i].id == id {
            proof {
                lists::lemma_first_index(groups@, wanted, i as int);
            }
            return i;
        }
        i += 1;
    }
    proof {
        lists::lemma_first_index(groups@, wanted, i as int);
    }
    i
}

/// Asks the store to move a group among those of its project.
pub fn move_group(projects: &ProjectLibraryState, group_id: GroupId, delta: isize) -> (r: Option<
    GroupRequest,
>)
    ensures
        r == match group_move(*projects, group_id, delta as int) {
            None => None,
            Some(before) => request(*projects, GroupChange::MoveBefore { group_id, before }),
        },
        r matches Some(asked) ==> (asked.change matches GroupChange::MoveBefore { group_id: moved, .. }
            && moved == group_id) && projects.known_revision() == Some(asked.expected_revision),
        r is Some ==> projects.has_repository && projects.found_group(group_id) is Some,
{
    let project_id: ProjectId = match projects.group(group_id) {
        Some(group) => group.project_id,
        None => {
            return None;
        },
    };
    let groups: Vec<Group> = projects.project_groups(project_id);
    let index: usize = group_index(&groups, group_id);
    if index >= groups.len() {
        return None;
    }
    match move_index(groups.len(), index, delta) {
        None => None,
        Some(None) => request_change(projects, GroupChange::MoveBefore { group_id, before: None }),
        Some(Some(at)) => request_change(
            projects,
            GroupChange::MoveBefore { group_id, before: Some(groups[at].id) },
        ),
    }
}

pub open spec fn undoable(inverse: OrganizationInverse, now: u64) -> Option<
    PendingOrganizationUndo,
> {
    Some(
        PendingOrganizationUndo { inverse, expires_at: (now + ORGANIZATION_UNDO_WINDOW) as u64 },
    )
}

impl SessionSidebarState {
    /// Opens the group editor and returns the text of its name field.
    pub fn open_group_editor(
        &mut self,
        projects: &ProjectLibraryState,
        project_id: ProjectId,
        group_id: Option<GroupId>,
        notices: &mut Notices,
    ) -> (name: String)
        ensures
            *final(self) == (SessionSidebarState {
                editor: Some(GroupEditor { project_id, group_id }),
                pending_removal: None,
                ..*old(self)
            }),
            *final(notices) == ui::cleared(*old(notices)),
            name@ == match group_id {
                Some(id) => match projects.found_group(id) {
                    Some(group) => group.name@,
                    None => Seq::empty(),
                },
                None => Seq::empty(),
            },
            final(self).editor matches Some(editor) && editor.project_id == project_id && editor.group_id
                == group_id,
            final(self).pending_removal is None,
            final(self).selected_session == old(self).selected_session,
            final(self).pending_undo == old(self).pending_undo,
            group_id is None ==> name@.len() == 0,
    {
        self.editor = Some(GroupEditor { project_id, group_id });
        self.pending_removal = None;
        notices.clear_error();
        match group_id {
            Some(id) => match projects.group(id) {
                Some(group) => group.name.clone(),
                None => String::new(),
            },
            None => String::new(),
        }
    }

    pub fn cancel_group_editor(&mut self, notices: &mut Notices)
        ensures
            *final(self) == (SessionSidebarState { editor: None, ..*old(self) }),
            *final(notices) == ui::cleared(*old(notices)),
            final(self).editor is None && final(self).pending_removal == old(self).pending_removal
                && final(self).pending_undo == old(self).pending_undo,
            final(notices).error is None,
    {
        self.editor = None;
        notices.clear_error();
    }

    /// What the store is asked for when the editor is saved.
    pub fn save_group_editor(
        &self,
        projects: &ProjectLibraryState,
        name: String,
        fresh: GroupId,
        notices: &mut Notices,
    ) -> (r: Option<GroupRequest>)
        ensures
            r == match self.editor {
                None => None,
                Some(editor) => request(*projects, editor_change(editor, name, fresh)),
            },
            *final(notices) == if self.editor is Some && !projects.has_repository {
                ui::failed(*old(notices), Text::Message(MessageId::ProjectStoreUnavailable))
            } else {
                *old(notices)
            },
            r is Some ==> self.editor is Some && projects.has_repository,
            self.editor is None ==> final(notices).error == old(notices).error,
            r matches Some(asked) ==> projects.known_revision() == Some(asked.expected_revision),
    {
        match self.editor {
            None => None,
            Some(editor) => {
                if !projects.has_repository {
                    notices.fail(Text::Message(MessageId::ProjectStoreUnavailable));
                    return None;
                }
                let change: GroupChange = match editor.group_id {
                    Some(group_id) => GroupChange::Rename { group_id, name },
                    None => GroupChange::Create {
                        project_id: editor.project_id,
                        group_id: fresh,
                        name,
                    },
                };
                request_change(projects, change)
            },
        }
    }

    pub fn record_group_inverse(
        &mut self,
        command: GroupInverseCommand,
        placements: Vec<SavedSessionPlacement>,
        now: u64,
    )
        requires
            now + ORGANIZATION_UNDO_WINDOW <= u64::MAX,
        ensures
            *final(self) == (SessionSidebarState {
                pending_undo: undoable(OrganizationInverse::Group { command, placements }, now),
                ..*old(self)
            }),
            final(self).pending_undo matches Some(pending) && pending.expires_at == now + 10_000 && (
            pending.inverse matches OrganizationInverse::Group { command: kept, placements: places } && kept
                == command && places == placements),
            final(self).editor == old(self).editor,
    {
        self.pending_undo = Some(
            PendingOrganizationUndo {
                inverse: OrganizationInverse::Group { command, placements },
                expires_at: now + ORGANIZATION_UNDO_WINDOW,
            },
        );
    }

    /// Takes over the store's answer to a change of a group: a success can be
    /// undone and closes the editor where the change came from there.
    pub fn finish_group_change(
        &mut self,
        from_editor: bool,
        reply: Result<GroupInverseCommand, StoreError>,
        now: u64,
        notices: &mut Notices,
    ) -> (r: GroupFollowUp)
        requires
            now + ORGANIZATION_UNDO_WINDOW <= u64::MAX,
        ensures
            match reply {
                Ok(command) => {
                    &&& r == GroupFollowUp::Complete
                    &&& final(self).editor == if from_editor {
                        None
                    } else {
                        old(self).editor
                    }
                    &&& final(self).pending_removal == old(self).pending_removal
                    &&& final(self).selected_session == old(self).selected_session
                    &&& final(self).pending_undo matches Some(pending)
                    &&& pending.expires_at == now + ORGANIZATION_UNDO_WINDOW
                    &&& pending.inverse matches OrganizationInverse::Group { command: c, placements }
                    &&& c == command
                    &&& placements@ == Seq::<SavedSessionPlacement>::empty()
                    &&& *final(notices) == *old(notices)
                },
                Err(error) => {
                    &&& *final(self) == *old(self)
                    &&& *final(notices) == ui::failed(
                        *old(notices),
                        Text::Message(group_error_message(error)),
                    )
                    &&& r == if group_error_message(error) == MessageId::GroupErrorStale {
                        GroupFollowUp::Refresh
                    } else {
                        GroupFollowUp::Nothing
                    }
                },
            },
            r is Complete <==> reply is Ok,
            reply is Ok && from_editor ==> final(self).editor is None,
            reply matches Ok(command) ==> (final(self).pending_undo matches Some(pending)
                && pending.expires_at == now + 10_000 && (pending.inverse matches OrganizationInverse::Group {
                command: kept,
                ..
            } && kept == command)),
            reply is Err ==> final(self).pending_undo == old(self).pending_undo && final(notices).error is Some,
    {
        match reply {
            Ok(command) => {
                if from_editor {
                    self.editor = None;
                }
                self.record_group_inverse(command, Vec::new(), now);
                GroupFollowUp::Complete
            },
            Err(error) => handle_group_error(error, notices),
        }
    }

    /// Starts removing a group. An empty one is removed at once, which the
    /// result says; else the user chooses where its sessions go.
    pub fn begin_group_removal(&mut self, saved: &SavedState, id: GroupId) -> (at_once: bool)
        ensures
            at_once == (lists::kept(
                saved.app_attached_sessions@,
                saved_state::of_group(id),
            ).len() == 0),
            *final(self) == if at_once {
                *old(self)
            } else {
                SessionSidebarState {
                    pending_removal: Some(PendingGroupRemoval { group_id: id }),
                    editor: None,
                    ..*old(self)
                }
            },
            !at_once ==> (final(self).pending_removal matches Some(pending) && pending.group_id == id)
                && final(self).editor is None,
            at_once ==> final(self).pending_removal == old(self).pending_removal,
            final(self).selected_session == old(self).selected_session,
    {
        if saved.group_session_count(id) == 0 {
            true
        } else {
            self.pending_removal = Some(PendingGroupRemoval { group_id: id });
            self.editor = None;
            false
        }
    }

    pub fn cancel_group_removal(&mut self)
        ensures
            *final(self) == (SessionSidebarState { pending_removal: None, ..*old(self) }),
            final(self).pending_removal is None && final(self).editor == old(self).editor
                && final(self).pending_undo == old(self).pending_undo,
    {
        self.pending_removal = None;
    }

    /// What the store is asked for to remove a group. A group that no longer
    /// exists only ends the removal.
    pub fn remove_group_to(
        &mut self,
        projects: &ProjectLibraryState,
        saved: &SavedState,
        group_id: GroupId,
        destination: Option<GroupDestination>,
    ) -> (r: Option<GroupRequest>)
        ensures
            *final(self) == if projects.found_group(group_id) is None {
                SessionSidebarState { pending_removal: None, ..*old(self) }
            } else {
                *old(self)
            },
            r == if projects.found_group(group_id) is None {
                None
            } else {
                request(
                    *projects,
                    GroupChange::Remove {
                        group_id,
                        destination,
                        has_sessions: lists::kept(
                            saved.app_attached_sessions@,
                            saved_state::of_group(group_id),
                        ).len() > 0,
                    },
                )
            },
            r matches Some(asked) ==> (asked.change matches GroupChange::Remove {
                group_id: removed,
                destination: to,
                ..
            } && removed == group_id && to == destination) && projects.found_group(group_id) is Some,
            projects.found_group(group_id) is None ==> final(self).pending_removal is None,
    {
        if projects.group(group_id).is_none() {
            self.pending_removal = None;
            return None;
        }
        let has_sessions: bool = saved.group_session_count(group_id) > 0;
        request_change(projects, GroupChange::Remove { group_id, destination, has_sessions })
    }

    /// Takes over the session store's answer to the placements of the sessions
    /// of a removed group; a success can be undone.
    pub fn finish_group_removal(
        &mut self,
        library: &mut SessionLibraryState,
        saved: &mut SavedState,
        outcome: Result<(), StoreError>,
        loaded: Result<SessionSnapshot, StoreError>,
        reread: Result<SessionSnapshot, StoreError>,
        command: GroupInverseCommand,
        placements: Vec<SavedSessionPlacement>,
        now: u64,
        notices: &mut Notices,
    ) -> (r: GroupFollowUp)
        requires
            now + ORGANIZATION_UNDO_WINDOW <= u64::MAX,
        ensures
            placements_taken(
                *old(library),
                *final(library),
                old(saved).app_attached_sessions@,
                final(saved).app_attached_sessions@,
                outcome,
                loaded,
                reread,
                r is Complete,
            ),
            r is Complete ==> {
                &&& *final(self) == (SessionSidebarState {
                    pending_removal: None,
                    pending_undo: undoable(OrganizationInverse::Group { command, placements }, now),
                    ..*old(self)
                })
                &&& *final(notices) == *old(notices)
            },
            !(r is Complete) ==> {
                &&& r is Nothing
                &&& *final(self) == *old(self)
                &&& *final(notices) == operation_failed(*old(notices))
            },
    {
        match library.apply_placements(saved, outcome, loaded) {
            Err(error) => {
                handle_session_library_error(library, error, reread, notices);
                GroupFollowUp::Nothing
            },
            Ok(()) => {
                self.pending_removal = None;
                self.record_group_inverse(command, placements, now);
                GroupFollowUp::Complete
            },
        }
    }

    /// Selects a session, or gives the selection up where it was selected.
    /// Says whether what belongs to it is to be looked up again.
    pub fn select_session_for_move(&mut self, id: HostedSessionId) -> (refresh: bool)
        ensures
            refresh == (old(self).selected_session != Some(id)),
            *final(self) == (SessionSidebarState {
                selected_session: if refresh {
                    Some(id)
                } else {
                    None
                },
                ..*old(self)
            }),
            final(self).selected_session == Some(id) <==> old(self).selected_session != Some(id),
            refresh <==> final(self).selected_session is Some,
    {
        if self.selected_session == Some(id) {
            self.selected_session = None;
            false
        } else {
            self.selected_session = Some(id);
            true
        }
    }

    /// Takes over the decision which row is selected next.
    pub fn reconcile_visible_session_selection(&mut self, selected: Option<AccessibleRowId>)
        ensures
            *final(self) == (SessionSidebarState {
                selected_session: match selected {
                    Some(row) => Some(HostedSessionId { value: row.value }),
                    None => None,
                },
                ..*old(self)
            }),
            final(self).selected_session is Some <==> selected is Some,
            selected matches Some(row) ==> (final(self).selected_session matches Some(id) && id.value
                == row.value),
            final(self).editor == old(self).editor,
    {
        self.selected_session = match selected {
            Some(row) => Some(HostedSessionId::from_uuid(uuid::Uuid::from_u128(row.value))),
            None => None,
        };
    }

    /// The row of the selected session.
    pub open spec fn selected_row(self) -> Option<AccessibleRowId> {
        match self.selected_session {
            Some(id) => Some(ids::session_row(id)),
            None => None,
        }
    }

    fn selected_row_id(&self) -> (r: Option<AccessibleRowId>)
        ensures
            r == self.selected_row(),
    {
        match self.selected_session {
            Some(id) => Some(accessible_session_id(id)),
            None => None,
        }
    }
}

/// Moves the sessions of a removed group and returns where the project's
/// sessions stood before and where they stand now.
pub fn relocate_removed_group(
    saved: &mut SavedState,
    project_id: ProjectId,
    group_id: GroupId,
    destination: Option<GroupDestination>,
) -> (r: (Vec<SavedSessionPlacement>, Vec<SavedSessionPlacement>))
    ensures
        ({
            let before = old(saved).app_attached_sessions@;
            let after = final(saved).app_attached_sessions@;
            &&& after == saved_state::reseated(
                before,
                0,
                saved_state::in_group(project_id, group_id),
                match destination {
                    Some(GroupDestination::Group(id)) => Some(id),
                    _ => None,
                },
            )
            &&& r.0@ == saved_state::placements_of(before, project_id)
            &&& r.1@ == saved_state::placements_of(after, project_id)
        }),
{
    let target: GroupDestination = match destination {
        Some(chosen) => chosen,
        None => GroupDestination::ProjectRoot,
    };
    let inverse: Vec<SavedSessionPlacement> = saved.relocate_group_sessions(
        project_id,
        group_id,
        target,
    );
    let updated: Vec<SavedSessionPlacement> = saved.app_attached_session_placements(project_id);
    (inverse, updated)
}

/// The rows of all visible sessions.
pub open spec fn shown_rows(library: SessionLibraryState) -> Seq<AccessibleRowId> {
    library.visible_all().map_values(|session: HostedSession| ids::session_row(session.id))
}

pub fn visible_accessible_session_ids(library: &SessionLibraryState) -> (r: Vec<AccessibleRowId>)
    ensures
        r@ == shown_rows(*library),
{
    let sessions: Vec<HostedSession> = library.visible_sessions_all();
    let ghost row = |session: HostedSession| ids::session_row(session.id);
    let mut rows: Vec<AccessibleRowId> = Vec::new();
    let mut i: usize = 0;
    while i < sessions.len()
        invariant
            i <= sessions@.len(),
            row == (|session: HostedSession| ids::session_row(session.id)),
            rows@ =~= sessions@.map_values(row).take(i as int),
        decreases sessions@.len() - i,
    {
        rows.push(accessible_session_id(sessions[i].id));
        i += 1;
    }
    assert(sessions@.map_values(row).take(sessions@.len() as int) =~= sessions@.map_values(row));
    rows
}

/// The change of the visible rows from one state of the library to another.
pub open spec fn is_selection_change(
    change: SelectionChange,
    before: SessionLibraryState,
    after: SessionLibraryState,
    sidebar: SessionSidebarState,
) -> bool {
    &&& change.previous@ == shown_rows(before)
    &&& change.next@ == shown_rows(after)
    &&& change.selected == sidebar.selected_row()
}

/// Shows another view; open questions about sessions are dropped.
pub fn set_session_library_view(
    library: &mut SessionLibraryState,
    sidebar: &SessionSidebarState,
    view: SessionLibraryView,
) -> (r: SelectionChange)
    ensures
        *final(library) == (SessionLibraryState {
            view,
            pending_stop_archive_review: None,
            pending_removal: None,
            renaming: None,
            ..*old(library)
        }),
        is_selection_change(r, *old(library), *final(library), *sidebar),
        final(library).view == view && final(library).filter == old(library).filter,
        final(library).pending_removal is None && final(library).renaming is None
            && final(library).pending_stop_archive_review is None,
        final(library).pending_archive_after_stop == old(library).pending_archive_after_stop,
{
    let previous: Vec<AccessibleRowId> = visible_accessible_session_ids(library);
    library.view = view;
    library.pending_stop_archive_review = None;
    library.pending_removal = None;
    library.renaming = None;
    let next: Vec<AccessibleRowId> = visible_accessible_session_ids(library);
    SelectionChange { previous, next, selected: sidebar.selected_row_id() }
}

pub fn set_session_library_filter(
    library: &mut SessionLibraryState,
    sidebar: &SessionSidebarState,
    filter: SessionLibraryFilter,
) -> (r: SelectionChange)
    ensures
        *final(library) == (SessionLibraryState { filter, ..*old(library) }),
        is_selection_change(r, *old(library), *final(library), *sidebar),
        final(library).filter == filter && final(library).view == old(library).view,
        final(library).pending_removal == old(library).pending_removal,
{
    let previous: Vec<AccessibleRowId> = visible_accessible_session_ids(library);
    library.filter = filter;
    let next: Vec<AccessibleRowId> = visible_accessible_session_ids(library);
    SelectionChange { previous, next, selected: sidebar.selected_row_id() }
}

/// Starts renaming a session and returns the text of the title field.
pub fn begin_session_rename(library: &mut SessionLibraryState, id: HostedSessionId) -> (r: Option<
    String,
>)
    ensures
        match old(library).found(id) {
            None => r is None && *final(library) == *old(library),
            Some(session) => r == Some(session.title) && *final(library) == (SessionLibraryState {
                renaming: Some(id),
                pending_removal: None,
                ..*old(library)
            }),
        },
        r is Some <==> old(library).found(id) is Some,
        r is Some ==> final(library).renaming == Some(id) && final(library).pending_removal is None,
        final(library).snapshot == old(library).snapshot,
{
    let title: String = match library.session(id) {
        Some(session) => session.title.clone(),
        None => {
            return None;
        },
    };
    library.renaming = Some(id);
    library.pending_removal = None;
    Some(title)
}

pub fn cancel_session_rename(library: &mut SessionLibraryState)
    ensures
        *final(library) == (SessionLibraryState { renaming: None, ..*old(library) }),
        final(library).renaming is None && final(library).pending_removal == old(library).pending_removal,
{
    library.renaming = None;
}

/// The rename that the store is asked for; `title` is absent where what was
/// typed is no valid title.
pub fn save_session_rename(
    library: &SessionLibraryState,
    title: Option<String>,
    notices: &mut Notices,
) -> (r: Option<(HostedSessionId, SessionMutation)>)
    ensures
        r == match (library.renaming, title) {
            (Some(id), Some(text)) => Some((id, SessionMutation::Rename(text))),
            _ => None,
        },
        *final(notices) == if library.renaming is Some && title is None {
            operation_failed(*old(notices))
        } else {
            *old(notices)
        },
        r matches Some((id, mutation)) ==> library.renaming == Some(id) && (
        mutation matches SessionMutation::Rename(text) && title == Some(text)),
        library.renaming is Some && title is None ==> r is None && final(notices).error is Some,
{
    match library.renaming {
        None => None,
        Some(id) => match title {
            None => {
                notices.fail(Text::Message(MessageId::SessionLibraryOperationFailed));
                None
            },
            Some(text) => Some((id, SessionMutation::Rename(text))),
        },
    }
}

/// Takes over the store's answer to a change of a session. After a success the
/// change of the visible rows is returned.
pub fn mutate_session(
    library: &mut SessionLibraryState,
    saved: &mut SavedState,
    sidebar: &SessionSidebarState,
    reply: Result<HostedSession, StoreError>,
    loaded: Result<SessionSnapshot, StoreError>,
    reread: Result<SessionSnapshot, StoreError>,
    notices: &mut Notices,
) -> (r: Option<SelectionChange>)
    ensures
        ({
            let before = old(saved).app_attached_sessions@;
            let after = final(saved).app_attached_sessions@;
            match reply {
                Ok(session) => match old(library).reload_result(loaded) {
                    Ok(()) => {
                        &&& *final(library) == old(library).reloaded(loaded)
                        &&& after == saved_state::applied(before, session)
                        &&& *final(notices) == operation_complete()
                        &&& r matches Some(change)
                        &&& is_selection_change(change, *old(library), *final(library), *sidebar)
                    },
                    Err(error) => {
                        &&& r is None
                        &&& *final(library) == after_error(
                            old(library).reloaded(loaded),
                            error,
                            reread,
                        )
                        &&& after == before
                        &&& *final(notices) == operation_failed(*old(notices))
                    },
                },
                Err(error) => {
                    let stale = session_library::is_stale(error);
                    let once = if stale {
                        old(library).reloaded(loaded)
                    } else {
                        *old(library)
                    };
                    &&& r is None
                    &&& *final(library) == after_error(once, error, reread)
                    &&& after == if stale {
                        saved_state::synced(before, once.known())
                    } else {
                        before
                    }
                    &&& *final(notices) == operation_failed(*old(notices))
                },
            }
        }),
        r is Some <==> reply is Ok && old(library).has_repository && loaded is Ok,
        r is Some ==> final(notices).error is None,
        r is None ==> final(notices).error is Some,
        (reply matches Err(error) && error != StoreError::SessionDomain(
            SessionStateError::StaleRevision,
        )) ==> final(saved).app_attached_sessions@ == old(saved).app_attached_sessions@ && *final(library)
            == *old(library),
{
    let previous: Vec<AccessibleRowId> = visible_accessible_session_ids(library);
    match library.mutate(saved, reply, loaded) {
        Ok(_) => {
            let next: Vec<AccessibleRowId> = visible_accessible_session_ids(library);
            notices.succeed(Text::Message(MessageId::SessionLibraryOperationComplete));
            Some(SelectionChange { previous, next, selected: sidebar.selected_row_id() })
        },
        Err(error) => {
            handle_session_library_error(library, error, reread, notices);
            None
        },
    }
}

/// The change that pins a session or takes its pin away.
pub fn toggle_session_pin(library: &SessionLibraryState, id: HostedSessionId) -> (r: Option<
    SessionMutation,
>)
    ensures
        r == match library.found(id) {
            Some(session) => Some(SessionMutation::SetPinned(!session.pinned)),
            None => None,
        },
        r matches Some(change) ==> {
            &&& change matches SessionMutation::SetPinned(pinned)
            &&& library.found(id) matches Some(session)
            &&& pinned != session.pinned
        },
{
    match library.session(id) {
        Some(session) => Some(SessionMutation::SetPinned(!session.pinned)),
        None => None,
    }
}

/// The change that marks a session read or unread, through its last output; a
/// session that is read and has no output is left alone.
pub fn toggle_session_read(library: &SessionLibraryState, id: HostedSessionId) -> (r: Option<
    SessionMutation,
>)
    ensures
        r == match library.found(id) {
            None => None,
            Some(session) => if session.unread {
                Some(SessionMutation::MarkRead { through: session.last_output_sequence })
            } else if session.last_output_sequence > 0 {
                Some(SessionMutation::MarkUnread { at: session.last_output_sequence })
            } else {
                None
            },
        },
        r is Some ==> library.found(id) is Some,
        r matches Some(SessionMutation::MarkRead { through }) ==> library.found(id)->0.unread
            && through == library.found(id)->0.last_output_sequence,
        r matches Some(SessionMutation::MarkUnread { at }) ==> !library.found(id)->0.unread && at
            > 0 && at == library.found(id)->0.last_output_sequence,
        r matches Some(change) ==> change is MarkRead || change is MarkUnread,
{
    match library.session(id) {
        None => None,
        Some(session) => {
            if session.unread {
                Some(SessionMutation::MarkRead { through: session.last_output_sequence })
            } else if session.last_output_sequence > 0 {
                Some(SessionMutation::MarkUnread { at: session.last_output_sequence })
            } else {
                None
            }
        },
    }
}

/// Archives an exited session; one that can be stopped is put up for review
/// first.
pub fn archive_or_stop_session(
    library: &mut SessionLibraryState,
    id: HostedSessionId,
    now: u64,
) -> (r: Option<SessionMutation>)
    ensures
        *final(library) == match old(library).found(id) {
            Some(session) if session.can_stop => SessionLibraryState {
                pending_stop_archive_review: Some(id),
                ..*old(library)
            },
            _ => *old(library),
        },
        r == match old(library).found(id) {
            Some(session) if !session.can_stop && session.exited => Some(
                SessionMutation::Archive { at: now },
            ),
            _ => None,
        },
        r matches Some(change) ==> {
            &&& change == (SessionMutation::Archive { at: now })
            &&& old(library).found(id) matches Some(session)
            &&& session.exited
            &&& !session.can_stop
        },
        old(library).found(id) matches Some(session) ==> session.can_stop ==> {
            &&& r is None
            &&& final(library).pending_stop_archive_review == Some(id)
        },
{
    let (can_stop, exited): (bool, bool) = match library.session(id) {
        Some(session) => (session.can_stop, session.exited),
        None => {
            return None;
        },
    };
    if can_stop {
        library.pending_stop_archive_review = Some(id);
        None
    } else if exited {
        Some(SessionMutation::Archive { at: now })
    } else {
        None
    }
}

/// A pane and the session that it shows, if any.
#[derive(Clone, Copy, Debug, PartialEq, Eq, Structural)]
pub struct PaneLink {
    pub pane_id: u64,
    pub session: Option<HostedSessionId>,
}

pub open spec fn shows_session(id: HostedSessionId) -> spec_fn(PaneLink) -> bool {
    |pane: PaneLink| pane.session == Some(id)
}

pub open spec fn pane_of(panes: Seq<PaneLink>, id: HostedSessionId) -> Option<u64> {
    match lists::first_where(panes, shows_session(id)) {
        Some(pane) => Some(pane.pane_id),
        None => None,
    }
}

/// The first pane that shows a session.
pub fn session_pane_id(panes: &Vec<PaneLink>, id: HostedSessionId) -> (r: Option<u64>)
    ensures
        r == pane_of(panes@, id),
{
    let ghost wanted = shows_session(id);
    let mut i: usize = 0;
    while i < panes.len()
        invariant
            i <= panes@.len(),
            wanted == shows_session(id),
            forall|k: int| 0 <= k < i ==> !wanted(#[trigger] panes@[k]),
        decreases panes@.len() - i,
    {
        if panes[i].session == Some(id) {
            proof {
                lists::lemma_first_index(panes@, wanted, i as int);
            }
            return Some(panes[i].pane_id);
        }
        i += 1;
    }
    proof {
        lists::lemma_first_index(panes@, wanted, i as int);
    }
    None
}

/// The pane through which a session is stopped; a session without one cannot
/// be stopped.
pub fn stop_session_only(panes: &Vec<PaneLink>, id: HostedSessionId, notices: &mut Notices) -> (r:
    Option<u64>)
    ensures
        r == pane_of(panes@, id),
        *final(notices) == if r is None {
            operation_failed(*old(notices))
        } else {
            *old(notices)
        },
        r is None ==> final(notices).error is Some,
        r is Some ==> final(notices).error == old(notices).error,
{
    let pane: Option<u64> = session_pane_id(panes, id);
    if pane.is_none() {
        notices.fail(Text::Message(MessageId::SessionLibraryOperationFailed));
    }
    pane
}

/// Confirms stopping and archiving: the session that is under review waits for
/// its end, and is stopped through the pane that is returned.
pub fn confirm_stop_and_archive(
    library: &mut SessionLibraryState,
    panes: &Vec<PaneLink>,
    notices: &mut Notices,
) -> (r: Option<(HostedSessionId, u64)>)
    ensures
        ({
            let review = old(library).pending_stop_archive_review;
            let pane = pane_of(panes@, review->0);
            &&& r == if review is Some && pane is Some {
                Some((review->0, pane->0))
            } else {
                None
            }
            &&& *final(library) == (SessionLibraryState {
                pending_stop_archive_review: None,
                pending_archive_after_stop: if r is Some {
                    review
                } else {
                    old(library).pending_archive_after_stop
                },
                ..*old(library)
            })
            &&& *final(notices) == if review is Some && pane is None {
                operation_failed(*old(notices))
            } else {
                *old(notices)
            }
        }),
        r matches Some((id, pane)) ==> {
            &&& old(library).pending_stop_archive_review == Some(id)
            &&& pane_of(panes@, id) == Some(pane)
            &&& final(library).pending_archive_after_stop == Some(id)
        },
        final(library).pending_stop_archive_review is None,
{
    match library.pending_stop_archive_review.take() {
        None => None,
        Some(id) => match session_pane_id(panes, id) {
            None => {
                notices.fail(Text::Message(MessageId::SessionLibraryOperationFailed));
                None
            },
            Some(pane_id) => {
                library.pending_archive_after_stop = Some(id);
                Some((id, pane_id))
            },
        },
    }
}

/// After the stop was asked for: a session that is stopping is waited for, any
/// other no longer.
pub fn finish_stop_and_archive(
    library: &mut SessionLibraryState,
    id: HostedSessionId,
    notices: &mut Notices,
)
    ensures
        ({
            let stopping = old(library).found(id) matches Some(session) && session.lifecycle
                == HostedSessionState::Stopping;
            &&& *final(library) == if stopping {
                *old(library)
            } else {
                SessionLibraryState { pending_archive_after_stop: None, ..*old(library) }
            }
            &&& *final(notices) == if stopping {
                ui::informed(
                    *old(notices),
                    Text::Message(MessageId::SessionLibraryStopArchivePending),
                )
            } else {
                *old(notices)
            }
        }),
        (old(library).found(id) matches Some(session) && session.lifecycle is Stopping)
            ==> final(library).pending_archive_after_stop
            == old(library).pending_archive_after_stop,
        !(old(library).found(id) matches Some(session) && session.lifecycle is Stopping)
            ==> final(library).pending_archive_after_stop is None,
        final(library).snapshot == old(library).snapshot,
{
    let stopping: bool = match library.session(id) {
        Some(session) => session.lifecycle == HostedSessionState::Stopping,
        None => false,
    };
    if stopping {
        notices.inform(Text::Message(MessageId::SessionLibraryStopArchivePending));
    } else {
        library.pending_archive_after_stop = None;
    }
}

pub fn cancel_stop_and_archive(library: &mut SessionLibraryState)
    ensures
        *final(library) == (SessionLibraryState {
            pending_stop_archive_review: None,
            ..*old(library)
        }),
        final(library).pending_stop_archive_review is None && final(library).pending_archive_after_stop
            == old(library).pending_archive_after_stop,
{
    library.pending_stop_archive_review = None;
}

/// Ends waiting for a session's end, if it is the one waited for and its end
/// was decided: it is archived, or the archiving is reported as failed.
pub fn complete_pending_session_archive(
    library: &mut SessionLibraryState,
    id: HostedSessionId,
    action: PendingArchiveAction,
    now: u64,
    notices: &mut Notices,
) -> (r: Option<SessionMutation>)
    ensures
        ({
            let awaited = old(library).pending_archive_after_stop == Some(id);
            let decided = awaited && !(action is Nothing);
            &&& r == if awaited && action is Archive {
                Some(SessionMutation::Archive { at: now })
            } else {
                None
            }
            &&& *final(library) == if decided {
                SessionLibraryState { pending_archive_after_stop: None, ..*old(library) }
            } else {
                *old(library)
            }
            &&& *final(notices) == if awaited && action is Fail {
                operation_failed(*old(notices))
            } else {
                *old(notices)
            }
        }),
        r matches Some(change) ==> {
            &&& change == (SessionMutation::Archive { at: now })
            &&& action is Archive
            &&& old(library).pending_archive_after_stop == Some(id)
        },
        old(library).pending_archive_after_stop != Some(id) ==> *final(library) == *old(library),
{
    if library.pending_archive_after_stop != Some(id) {
        return None;
    }
    match action {
        PendingArchiveAction::Archive => {
            library.pending_archive_after_stop = None;
            Some(SessionMutation::Archive { at: now })
        },
        PendingArchiveAction::Fail => {
            library.pending_archive_after_stop = None;
            notices.fail(Text::Message(MessageId::SessionLibraryOperationFailed));
            None
        },
        PendingArchiveAction::Nothing => None,
    }
}

/// Starts removing a session with the plan that the store made.
pub fn begin_session_removal(
    library: &mut SessionLibraryState,
    plan: Result<SessionRemovalPlan, StoreError>,
    reread: Result<SessionSnapshot, StoreError>,
    notices: &mut Notices,
) -> (r: bool)
    ensures
        r == (old(library).has_repository && plan is Ok),
        r ==> {
            &&& *final(library) == (SessionLibraryState {
                pending_removal: Some(plan->Ok_0),
                renaming: None,
                ..*old(library)
            })
            &&& *final(notices) == ui::cleared(*old(notices))
        },
        !r ==> {
            let error = if old(library).has_repository {
                plan->Err_0
            } else {
                session_library::unavailable()
            };
            &&& *final(library) == after_error(*old(library), error, reread)
            &&& *final(notices) == operation_failed(*old(notices))
        },
        r ==> (plan matches Ok(made) && final(library).pending_removal == Some(made))
            && final(library).renaming is None && final(notices).error is None,
        !r ==> final(library).pending_removal == old(library).pending_removal && final(notices).error
            is Some,
{
    match library.prepare_removal(plan) {
        Ok(()) => {
            library.renaming = None;
            notices.clear_error();
            true
        },
        Err(error) => {
            handle_session_library_error(library, error, reread, notices);
            false
        },
    }
}

pub fn cancel_session_removal(library: &mut SessionLibraryState)
    ensures
        *final(library) == (SessionLibraryState { pending_removal: None, ..*old(library) }),
        final(library).pending_removal is None && final(library).renaming == old(library).renaming,
{
    library.pending_removal = None;
}

/// Takes over a confirmed removal; see `SessionLibraryState::confirm_removal`.
/// After a success the change of the visible rows is returned.
pub fn confirm_session_removal(
    library: &mut SessionLibraryState,
    saved: &mut SavedState,
    sidebar: &SessionSidebarState,
    confirmation: &str,
    removed: Result<HostedSessionId, StoreError>,
    loaded: Result<SessionSnapshot, StoreError>,
    reread: Result<SessionSnapshot, StoreError>,
    notices: &mut Notices,
) -> (r: Option<SelectionChange>)
    ensures
        ({
            let before = old(saved).app_attached_sessions@;
            let after = final(saved).app_attached_sessions@;
            let cleared = SessionLibraryState { pending_removal: None, ..*old(library) };
            let failure = match old(library).removal_check(confirmation@) {
                Err(error) => Some((*old(library), error)),
                Ok(_) => match removed {
                    Err(error) => Some((*old(library), error)),
                    Ok(_) => match cleared.reload_result(loaded) {
                        Err(error) => Some((cleared.reloaded(loaded), error)),
                        Ok(()) => None,
                    },
                },
            };
            match failure {
                Some((reached, error)) => {
                    &&& r is None
                    &&& *final(library) == after_error(reached, error, reread)
                    &&& after == before
                    &&& *final(notices) == operation_failed(*old(notices))
                },
                None => {
                    &&& *final(library) == cleared.reloaded(loaded)
                    &&& after == lists::kept(
                        before,
                        |record: SavedAppAttachedSession| record.id != removed->Ok_0,
                    )
                    &&& *final(notices) == operation_complete()
                    &&& r matches Some(change)
                    &&& is_selection_change(change, *old(library), *final(library), *sidebar)
                },
            }
        }),
        r is Some ==> removed is Ok && final(library).pending_removal is None && final(notices).error
            is None,
        r is None ==> final(saved).app_attached_sessions@ == old(saved).app_attached_sessions@
            && final(notices).error is Some,
        (old(library).pending_removal matches Some(plan) && plan.manifest.requires_title_confirmation
            && confirmation@ != plan.title@) ==> r is None,
        old(library).pending_removal is None ==> r is None,
{
    let previous: Vec<AccessibleRowId> = visible_accessible_session_ids(library);
    match library.confirm_removal(saved, confirmation, removed, loaded) {
        Ok(_) => {
            let next: Vec<AccessibleRowId> = visible_accessible_session_ids(library);
            notices.succeed(Text::Message(MessageId::SessionLibraryOperationComplete));
            Some(SelectionChange { previous, next, selected: sidebar.selected_row_id() })
        },
        Err(error) => {
            handle_session_library_error(library, error, reread, notices);
            None
        },
    }
}

/// The records of the given sessions, where there are any.
pub open spec fn records_of(
    sessions: Seq<HostedSession>,
    records: Seq<SavedAppAttachedSession>,
) -> Seq<SavedAppAttachedSession>
    decreases sessions.len(),
{
    if sessions.len() == 0 {
        Seq::empty()
    } else {
        let before = records_of(sessions.drop_last(), records);
        match lists::first_where(records, saved_state::is_record(sessions.last().id)) {
            Some(record) => before.push(record),
            None => before,
        }
    }
}

pub(crate) fn saved_records_of(sessions: &Vec<HostedSession>, saved: &SavedState) -> (r: Vec<
    SavedAppAttachedSession,
>)
    ensures
        r@ == records_of(sessions@, saved.app_attached_sessions@),
{
    let mut r: Vec<SavedAppAttachedSession> = Vec::new();
    let mut i: usize = 0;
    assert(sessions@.take(0) =~= Seq::empty());
    while i < sessions.len()
        invariant
            i <= sessions@.len(),
            r@ == records_of(sessions@.take(i as int), saved.app_attached_sessions@),
        decreases sessions@.len() - i,
    {
        assert(sessions@.take(i + 1).drop_last() =~= sessions@.take(i as int));
        match saved.record(sessions[i].id) {
            Some(record) => {
                r.push(record.duplicate());
            },
            None => {},
        }
        i += 1;
    }
    assert(sessions@.take(sessions@.len() as int) =~= sessions@);
    r
}

/// The records of the visible sessions of one list, in the order in which they
/// are shown.
pub open spec fn listed(
    library: SessionLibraryState,
    saved: SavedState,
    project_id: ProjectId,
    group_id: Option<GroupId>,
) -> Seq<SavedAppAttachedSession> {
    records_of(library.visible(project_id, group_id), saved.app_attached_sessions@)
}

pub fn sessions_in_destination(
    library: &SessionLibraryState,
    saved: &SavedState,
    project_id: ProjectId,
    group_id: Option<GroupId>,
) -> (r: Vec<SavedAppAttachedSession>)
    ensures
        r@ == listed(*library, *saved, project_id, group_id),
{
    let sessions: Vec<HostedSession> = library.visible_sessions(project_id, group_id);
    saved_records_of(&sessions, saved)
}

/// Index of a record in a list, or the list's length.
pub(crate) fn listed_index(list: &Vec<SavedAppAttachedSession>, id: HostedSessionId) -> (r: usize)
    ensures
        r == lists::first_index(list@, saved_state::is_record(id)),
        r <= list@.len(),
{
    let ghost wanted = saved_state::is_record(id);
    let mut i: usize = 0;
    while i < list.len()
        invariant
            i <= list@.len(),
            wanted == saved_state::is_record(id),
            forall|k: int| 0 <= k < i ==> !wanted(#[trigger] list@[k]),
        decreases list@.len() - i,
    {
        if list[i].id == id {
            proof {
                lists::lemma_first_index(list@, wanted, i as int);
            }
            return i;
        }
        i += 1;
    }
    proof {
        lists::lemma_first_index(list@, wanted, i as int);
    }
    i
}

/// A move of a session: where the project's sessions stood, and where they are
/// to stand.
#[derive(Debug)]
pub struct SessionMove {
    pub inverse: Vec<SavedSessionPlacement>,
    pub placements: Vec<SavedSessionPlacement>,
}

/// What the session store is asked for to move a session; nothing where the
/// session is unknown or there is no such place.
pub fn move_session_to(
    saved: &SavedState,
    id: HostedSessionId,
    destination: GroupDestination,
    before: Option<HostedSessionId>,
    notices: &mut Notices,
) -> (r: Option<SessionMove>)
    ensures
        ({
            let records = saved.app_attached_sessions@;
            let target = saved_state::destination_group(destination);
            let order = match lists::first_where(records, saved_state::is_record(id)) {
                None => None,
                Some(record) => saved_state::list_order(
                    records,
                    record.origin.project_id,
                    target,
                    id,
                    before,
                ),
            };
            match order {
                None => {
                    &&& r is None
                    &&& *final(notices) == ui::failed(
                        *old(notices),
                        Text::Message(MessageId::GroupErrorGeneric),
                    )
                },
                Some(entries) => {
                    let project_id = lists::first_where(
                        records,
                        saved_state::is_record(id),
                    )->0.origin.project_id;
                    &&& r matches Some(step)
                    &&& step.inverse@ == saved_state::placements_of(records, project_id)
                    &&& step.placements@ == saved_state::placements_of(
                        saved_state::renumbered(records, entries, target),
                        project_id,
                    )
                    &&& *final(notices) == *old(notices)
                },
            }
        }),
        r is None ==> final(notices).error == Some(Text::Message(MessageId::GroupErrorGeneric)),
{
    let project_id: ProjectId = match saved.record(id) {
        Some(record) => record.origin.project_id,
        None => {
            notices.fail(Text::Message(MessageId::GroupErrorGeneric));
            return None;
        },
    };
    let mut candidate: SavedState = saved.duplicate();
    match candidate.move_app_attached_session(id, destination, before) {
        None => {
            notices.fail(Text::Message(MessageId::GroupErrorGeneric));
            None
        },
        Some(inverse) => Some(
            SessionMove {
                inverse,
                placements: candidate.app_attached_session_placements(project_id),
            },
        ),
    }
}

impl SessionSidebarState {
    /// Takes over the session store's answer to a move: a success can be undone
    /// and selects the session.
    pub fn finish_session_move(
        &mut self,
        library: &mut SessionLibraryState,
        saved: &mut SavedState,
        id: HostedSessionId,
        inverse: Vec<SavedSessionPlacement>,
        outcome: Result<(), StoreError>,
        loaded: Result<SessionSnapshot, StoreError>,
        reread: Result<SessionSnapshot, StoreError>,
        now: u64,
        notices: &mut Notices,
    ) -> (r: bool)
        requires
            now + ORGANIZATION_UNDO_WINDOW <= u64::MAX,
        ensures
            placements_taken(
                *old(library),
                *final(library),
                old(saved).app_attached_sessions@,
                final(saved).app_attached_sessions@,
                outcome,
                loaded,
                reread,
                r,
            ),
            r ==> {
                &&& *final(self) == (SessionSidebarState {
                    pending_undo: undoable(
                        OrganizationInverse::Session { placements: inverse },
                        now,
                    ),
                    selected_session: Some(id),
                    ..*old(self)
                })
                &&& *final(notices) == organization_updated()
            },
            !r ==> {
                &&& *final(self) == *old(self)
                &&& *final(notices) == operation_failed(*old(notices))
            },
    {
        match library.apply_placements(saved, outcome, loaded) {
            Err(error) => {
                handle_session_library_error(library, error, reread, notices);
                false
            },
            Ok(()) => {
                self.pending_undo = Some(
                    PendingOrganizationUndo {
                        inverse: OrganizationInverse::Session { placements: inverse },
                        expires_at: now + ORGANIZATION_UNDO_WINDOW,
                    },
                );
                self.selected_session = Some(id);
                notices.succeed(Text::Message(MessageId::GroupOrganizationUpdated));
                true
            },
        }
    }
}

/// Where a session that moves by `delta` within its list goes.
pub open spec fn session_move(
    library: SessionLibraryState,
    saved: SavedState,
    id: HostedSessionId,
    delta: int,
) -> Option<(GroupDestination, Option<HostedSessionId>)> {
    match lists::first_where(saved.app_attached_sessions@, saved_state::is_record(id)) {
        None => None,
        Some(record) => {
            let list = listed(library, saved, record.origin.project_id, record.group_id);
            let index = lists::first_index(list, saved_state::is_record(id));
            if index >= list.len() {
                None
            } else {
                match move_target(list, index, delta) {
                    None => None,
                    Some(before) => Some(
                        (
                            own_list(record.group_id),
                            match before {
                                Some(other) => Some(other.id),
                                None => None,
                            },
                        ),
                    ),
                }
            }
        },
    }
}

pub open spec fn own_list(group_id: Option<GroupId>) -> GroupDestination {
    match group_id {
        Some(id) => GroupDestination::Group(id),
        None => GroupDestination::ProjectRoot,
    }
}

pub fn move_session_by(
    library: &SessionLibraryState,
    saved: &SavedState,
    id: HostedSessionId,
    delta: isize,
) -> (r: Option<(GroupDestination, Option<HostedSessionId>)>)
    ensures
        r == session_move(*library, *saved, id, delta as int),
{
    let (project_id, group_id): (ProjectId, Option<GroupId>) = match saved.record(id) {
        Some(record) => (record.origin.project_id, record.group_id),
        None => {
            return None;
        },
    };
    let list: Vec<SavedAppAttachedSession> = sessions_in_destination(
        library,
        saved,
        project_id,
        group_id,
    );
    let index: usize = listed_index(&list, id);
    if index >= list.len() {
        return None;
    }
    let destination: GroupDestination = match group_id {
        Some(group) => GroupDestination::Group(group),
        None => GroupDestination::ProjectRoot,
    };
    match move_index(list.len(), index, delta) {
        None => None,
        Some(None) => Some((destination, None)),
        Some(Some(at)) => Some((destination, Some(list[at].id))),
    }
}

/// Moving a session up or down never changes the group it belongs to: where the
/// move is possible, its destination is the group of the session's record, or the
/// root of the project where the record has none.
pub proof fn law_moving_by_places_keeps_the_group(
    library: SessionLibraryState,
    saved: SavedState,
    id: HostedSessionId,
    delta: int,
    at: int,
)
    requires
        0 <= at < saved.app_attached_sessions@.len(),
        saved.app_attached_sessions@[at].id == id,
        forall|k: int| 0 <= k < at ==> (#[trigger] saved.app_attached_sessions@[k]).id != id,
        session_move(library, saved, id, delta) is Some,
    ensures
        ({
            let destination = (session_move(library, saved, id, delta)->0).0;
            match saved.app_attached_sessions@[at].group_id {
                Some(group_id) => destination == GroupDestination::Group(group_id),
                None => destination == GroupDestination::ProjectRoot,
            }
        }),
{
    lists::lemma_first_index(saved.app_attached_sessions@, saved_state::is_record(id), at);
}

/// A session moves within the list that shows it: up by one it goes in front of the
/// session above, down by one behind the session below, and not beyond either end.
pub proof fn law_sessions_move_past_their_neighbours(
    library: SessionLibraryState,
    saved: SavedState,
    id: HostedSessionId,
    delta: int,
    at: int,
    i: int,
)
    requires
        0 <= at < saved.app_attached_sessions@.len(),
        saved.app_attached_sessions@[at].id == id,
        forall|k: int| 0 <= k < at ==> (#[trigger] saved.app_attached_sessions@[k]).id != id,
        ({
            let record = saved.app_attached_sessions@[at];
            let list = listed(library, saved, record.origin.project_id, record.group_id);
            &&& 0 <= i < list.len()
            &&& list[i].id == id
            &&& forall|k: int| 0 <= k < i ==> (#[trigger] list[k]).id != id
        }),
    ensures
        ({
            let record = saved.app_attached_sessions@[at];
            let list = listed(library, saved, record.origin.project_id, record.group_id);
            let moved = session_move(library, saved, id, delta);
            &&& moved is Some <==> 0 <= i + delta < list.len()
            &&& delta == -1 && i > 0 ==> (moved->0).1 == Some(list[i - 1].id)
            &&& delta == 1 && i + 2 < list.len() ==> (moved->0).1 == Some(list[i + 2].id)
            &&& delta == 1 && i + 2 == list.len() ==> (moved->0).1 is None
        }),
{
    lists::lemma_first_index(saved.app_attached_sessions@, saved_state::is_record(id), at);
    let record = saved.app_attached_sessions@[at];
    let list = listed(library, saved, record.origin.project_id, record.group_id);
    lists::lemma_first_index(list, saved_state::is_record(id), i);
}

/// Moving up by one puts an element in front of the one above it, moving down by
/// one behind the one below it; the first cannot go up nor the last down. Once
/// it is taken out and put there, it stands one place further.
pub proof fn law_moving_by_one_shifts_one_place<A>(list: Seq<A>, index: int)
    requires
        0 <= index < list.len(),
    ensures
        move_target(list, index, -1) is Some <==> index > 0,
        index > 0 ==> move_target(list, index, -1)->0 == Some(list[index - 1]),
        move_target(list, index, 1) is Some <==> index + 1 < list.len(),
        index + 2 < list.len() ==> move_target(list, index, 1)->0 == Some(list[index + 2]),
        index + 2 == list.len() ==> move_target(list, index, 1)->0 is None,
        ({
            let others = list.remove(index);
            &&& index > 0 ==> others.insert(index - 1, list[index]) =~= list.update(
                index,
                list[index - 1],
            ).update(index - 1, list[index])
            &&& index + 2 < list.len() ==> others[index + 1] == list[index + 2]
        }),
{
}

/// What follows from asking to undo the last change of the organization.
#[derive(Debug)]
pub enum OrganizationUndoStep {
    Nothing,
    Expired,
    Session { placements: Vec<SavedSessionPlacement> },
    Group { command: GroupInverseCommand, placements: Vec<SavedSessionPlacement> },
}

pub open spec fn undo_step(pending: Option<PendingOrganizationUndo>, now: u64) -> OrganizationUndoStep {
    match pending {
        None => OrganizationUndoStep::Nothing,
        Some(undo) => if now >= undo.expires_at {
            OrganizationUndoStep::Expired
        } else {
            match undo.inverse {
                OrganizationInverse::Session { placements } => OrganizationUndoStep::Session {
                    placements,
                },
                OrganizationInverse::Group {
                    command,
                    placements,
                } => OrganizationUndoStep::Group { command, placements },
            }
        },
    }
}

impl SessionSidebarState {
    /// Starts undoing the last change. The change is forgotten in any case, and
    /// from its deadline on it can no longer be undone.
    pub fn undo_organization(&mut self, now: u64, notices: &mut Notices) -> (step:
        OrganizationUndoStep)
        ensures
            *final(self) == (SessionSidebarState { pending_undo: None, ..*old(self) }),
            step == undo_step(old(self).pending_undo, now),
            *final(notices) == if step is Expired {
                ui::informed(*old(notices), Text::Message(MessageId::ProjectUndoExpired))
            } else {
                *old(notices)
            },
            final(self).pending_undo is None,
            step is Nothing <==> old(self).pending_undo is None,
            step is Expired <==> (old(self).pending_undo matches Some(pending) && now >= pending.expires_at),
            final(self).selected_session == old(self).selected_session,
            final(notices).error == old(notices).error,
    {
        match self.pending_undo.take() {
            None => OrganizationUndoStep::Nothing,
            Some(pending) => {
                if now >= pending.expires_at {
                    notices.inform(Text::Message(MessageId::ProjectUndoExpired));
                    return OrganizationUndoStep::Expired;
                }
                match pending.inverse {
                    OrganizationInverse::Session { placements } => OrganizationUndoStep::Session {
                        placements,
                    },
                    OrganizationInverse::Group {
                        command,
                        placements,
                    } => OrganizationUndoStep::Group { command, placements },
                }
            },
        }
    }
}

/// Takes over the session store's answer to the undo of a move.
pub fn finish_session_undo(
    library: &mut SessionLibraryState,
    saved: &mut SavedState,
    outcome: Result<(), StoreError>,
    loaded: Result<SessionSnapshot, StoreError>,
    reread: Result<SessionSnapshot, StoreError>,
    notices: &mut Notices,
) -> (r: bool)
    ensures
        placements_taken(
            *old(library),
            *final(library),
            old(saved).app_attached_sessions@,
            final(saved).app_attached_sessions@,
            outcome,
            loaded,
            reread,
            r,
        ),
        *final(notices) == if r {
            organization_updated()
        } else {
            operation_failed(*old(notices))
        },
        r <==> outcome is Ok && old(library).has_repository && loaded is Ok,
        !r ==> final(saved).app_attached_sessions@ == old(saved).app_attached_sessions@
            && final(notices).error is Some,
        r ==> final(notices).error is None,
{
    match library.apply_placements(saved, outcome, loaded) {
        Err(error) => {
            handle_session_library_error(library, error, reread, notices);
            false
        },
        Ok(()) => {
            notices.succeed(Text::Message(MessageId::GroupOrganizationUpdated));
            true
        },
    }
}

/// A move that the store took over is taken back within the window: the undo asks
/// the store for exactly the placements from before, and once it took those over
/// every session of the project stands where it stood, with its origin and state
/// as they were throughout; a second undo does nothing.
pub proof fn law_move_is_taken_back_through_the_store(
    saved: SavedState,
    id: HostedSessionId,
    destination: GroupDestination,
    before: Option<HostedSessionId>,
    inverse: Vec<SavedSessionPlacement>,
    moved_at: u64,
    now: u64,
    libraries: (SessionLibraryState, SessionLibraryState, SessionLibraryState),
    moved: SavedState,
    undone: SavedState,
    after_move: SessionSnapshot,
    after_undo: SessionSnapshot,
    rereads: (Result<SessionSnapshot, StoreError>, Result<SessionSnapshot, StoreError>),
    k: int,
)
    requires
        saved_state::distinct_records(saved.app_attached_sessions@),
        moved_at + ORGANIZATION_UNDO_WINDOW <= u64::MAX,
        now < moved_at + ORGANIZATION_UNDO_WINDOW,
        lists::first_where(saved.app_attached_sessions@, saved_state::is_record(id)) is Some,
        ({
            let records = saved.app_attached_sessions@;
            let project_id = lists::first_where(
                records,
                saved_state::is_record(id),
            )->0.origin.project_id;
            let target = saved_state::destination_group(destination);
            let order = saved_state::list_order(records, project_id, target, id, before);
            &&& order is Some
            &&& inverse@ == saved_state::placements_of(records, project_id)
            &&& saved_state::stand_at(
                after_move.sessions@,
                saved_state::placements_of(
                    saved_state::renumbered(records, order->0, target),
                    project_id,
                ),
            )
            &&& saved_state::states_agree(after_move.sessions@, records)
            &&& saved_state::stand_at(after_undo.sessions@, inverse@)
            &&& saved_state::states_agree(after_undo.sessions@, records)
            &&& 0 <= k < records.len()
            &&& records[k].origin.project_id == project_id
        }),
        placements_taken(
            libraries.0,
            libraries.1,
            saved.app_attached_sessions@,
            moved.app_attached_sessions@,
            Ok(()),
            Ok(after_move),
            rereads.0,
            true,
        ),
        placements_taken(
            libraries.1,
            libraries.2,
            moved.app_attached_sessions@,
            undone.app_attached_sessions@,
            Ok(()),
            Ok(after_undo),
            rereads.1,
            true,
        ),
    ensures
        ({
            let pending = undoable(OrganizationInverse::Session { placements: inverse }, moved_at);
            undo_step(pending, now) == OrganizationUndoStep::Session { placements: inverse }
        }),
        undo_step(None, now) is Nothing,
        ({
            let first = saved.app_attached_sessions@[k];
            let middle = moved.app_attached_sessions@[k];
            let last = undone.app_attached_sessions@[k];
            &&& undone.app_attached_sessions@.len() == saved.app_attached_sessions@.len()
            &&& last.id == first.id
            &&& last.group_id == first.group_id
            &&& last.position == first.position
            &&& middle.origin == first.origin && last.origin == first.origin
            &&& middle.state == first.state && last.state == first.state
        }),
{
    let records = saved.app_attached_sessions@;
    let project_id = lists::first_where(records, saved_state::is_record(id))->0.origin.project_id;
    let target = saved_state::destination_group(destination);
    let order = saved_state::list_order(records, project_id, target, id, before)->0;
    let arranged = saved_state::renumbered(records, order, target);
    saved_state::law_move_changes_only_places(records, id, destination, before);
    saved_state::law_records_follow_the_store(
        records,
        arranged,
        after_move.sessions@,
        project_id,
        k,
    );
    let between = moved.app_attached_sessions@;
    assert(between == saved_state::synced(records, after_move.sessions@));
    saved_state::law_sync_keeps_records(records, after_move.sessions@);
    saved_state::lemma_states_kept(records, after_move.sessions@);
    let back = Seq::new(
        between.len(),
        |i: int| saved_state::placed(between[i], records[i].group_id, records[i].position),
    );
    saved_state::lemma_same_placements(back, records, project_id);
    saved_state::law_records_follow_the_store(
        between,
        back,
        after_undo.sessions@,
        project_id,
        k,
    );
}

/// What taking a change of a group back asks of the project store, and the
/// group whose sessions go to the project's root once it has agreed.
#[derive(Debug)]
pub struct GroupTakeBack {
    pub request: GroupRequest,
    pub relocate: Option<GroupMembership>,
}

pub open spec fn has_sessions(saved: SavedState, id: GroupId) -> bool {
    lists::kept(saved.app_attached_sessions@, saved_state::of_group(id)).len() > 0
}

/// The change that an inverse command stands for; a created group that is gone
/// needs none.
pub open spec fn inverse_change(
    projects: ProjectLibraryState,
    saved: SavedState,
    command: GroupInverseCommand,
) -> Option<(GroupChange, Option<GroupMembership>)> {
    match command {
        GroupInverseCommand::RemoveCreated { group_id } => match projects.found_group(group_id) {
            None => None,
            Some(group) => Some(
                (
                    GroupChange::Remove {
                        group_id,
                        destination: Some(GroupDestination::ProjectRoot),
                        has_sessions: has_sessions(saved, group_id),
                    },
                    if has_sessions(saved, group_id) {
                        Some(GroupMembership { group_id, project_id: group.project_id })
                    } else {
                        None
                    },
                ),
            ),
        },
        GroupInverseCommand::Rename { group_id, name } => Some(
            (GroupChange::Rename { group_id, name }, None),
        ),
        GroupInverseCommand::SetCollapsed { group_id, collapsed } => Some(
            (GroupChange::SetCollapsed { group_id, collapsed }, None),
        ),
        GroupInverseCommand::MoveBefore { group_id, before } => Some(
            (GroupChange::MoveBefore { group_id, before }, None),
        ),
        GroupInverseCommand::RestoreRemoved { group } => Some(
            (GroupChange::Restore { group }, None),
        ),
    }
}

/// Starts taking a change of a group back.
pub fn apply_group_inverse(
    projects: &ProjectLibraryState,
    saved: &SavedState,
    command: GroupInverseCommand,
    notices: &mut Notices,
) -> (r: Option<GroupTakeBack>)
    ensures
        r == match (change_revision(*projects), inverse_change(*projects, *saved, command)) {
            (Some(expected_revision), Some((change, relocate))) => Some(
                GroupTakeBack { request: GroupRequest { change, expected_revision }, relocate },
            ),
            _ => None,
        },
        *final(notices) == if projects.has_repository {
            *old(notices)
        } else {
            ui::failed(*old(notices), Text::Message(MessageId::ProjectStoreUnavailable))
        },
        r matches Some(back) ==> projects.has_repository && projects.known_revision() == Some(
            back.request.expected_revision,
        ),
        !projects.has_repository ==> r is None && final(notices).error is Some,
{
    if !projects.has_repository {
        notices.fail(Text::Message(MessageId::ProjectStoreUnavailable));
        return None;
    }
    let expected_revision: u64 = match projects.project_revision() {
        Some(revision) => revision,
        None => {
            return None;
        },
    };
    let (change, relocate): (GroupChange, Option<GroupMembership>) = match command {
        GroupInverseCommand::RemoveCreated { group_id } => match projects.group(group_id) {
            None => {
                return None;
            },
            Some(group) => {
                let occupied: bool = saved.group_session_count(group_id) > 0;
                (
                    GroupChange::Remove {
                        group_id,
                        destination: Some(GroupDestination::ProjectRoot),
                        has_sessions: occupied,
                    },
                    if occupied {
                        Some(GroupMembership { group_id, project_id: group.project_id })
                    } else {
                        None
                    },
                )
            },
        },
        GroupInverseCommand::Rename { group_id, name } => (
            GroupChange::Rename { group_id, name },
            None,
        ),
        GroupInverseCommand::SetCollapsed { group_id, collapsed } => (
            GroupChange::SetCollapsed { group_id, collapsed },
            None,
        ),
        GroupInverseCommand::MoveBefore { group_id, before } => (
            GroupChange::MoveBefore { group_id, before },
            None,
        ),
        GroupInverseCommand::RestoreRemoved { group } => (GroupChange::Restore { group }, None),
    };
    Some(GroupTakeBack { request: GroupRequest { change, expected_revision }, relocate })
}

/// Once the project store has agreed: the sessions of a group that went away
/// move to the project's root, and the remembered placements are put back.
pub fn take_back_group_change(
    saved: &mut SavedState,
    relocate: Option<GroupMembership>,
    placements: &Vec<SavedSessionPlacement>,
)
    ensures
        final(saved).app_attached_sessions@ == saved_state::restored(
            match relocate {
                Some(group) => saved_state::reseated(
                    old(saved).app_attached_sessions@,
                    0,
                    saved_state::in_group(group.project_id, group.group_id),
                    None,
                ),
                None => old(saved).app_attached_sessions@,
            },
            placements@,
        ),
{
    match relocate {
        Some(group) => {
            let _ = saved.relocate_group_sessions(
                group.project_id,
                group.group_id,
                GroupDestination::ProjectRoot,
            );
        },
        None => {},
    }
    saved.restore_app_attached_session_placements(placements);
}

/// Ends taking a change of a group back. Where placements were put back, the
/// session store's answer to them decides.
pub fn finish_group_inverse(
    library: &mut SessionLibraryState,
    saved: &mut SavedState,
    placements_moved: bool,
    outcome: Result<(), StoreError>,
    loaded: Result<SessionSnapshot, StoreError>,
    reread: Result<SessionSnapshot, StoreError>,
    notices: &mut Notices,
) -> (r: GroupFollowUp)
    ensures
        !placements_moved ==> {
            &&& r is Complete
            &&& *final(library) == *old(library)
            &&& final(saved).app_attached_sessions@ == old(saved).app_attached_sessions@
            &&& *final(notices) == *old(notices)
        },
        placements_moved ==> {
            &&& r is Complete || r is Nothing
            &&& placements_taken(
                *old(library),
                *final(library),
                old(saved).app_attached_sessions@,
                final(saved).app_attached_sessions@,
                outcome,
                loaded,
                reread,
                r is Complete,
            )
            &&& *final(notices) == if r is Complete {
                *old(notices)
            } else {
                operation_failed(*old(notices))
            }
        },
        placements_moved ==> (r is Complete <==> outcome is Ok && old(library).has_repository && loaded
            is Ok),
        r is Nothing ==> final(saved).app_attached_sessions@ == old(saved).app_attached_sessions@,
{
    if !placements_moved {
        return GroupFollowUp::Complete;
    }
    match library.apply_placements(saved, outcome, loaded) {
        Err(error) => {
            handle_session_library_error(library, error, reread, notices);
            GroupFollowUp::Nothing
        },
        Ok(()) => GroupFollowUp::Complete,
    }
}

/// A change can be undone exactly until the window after it has passed.
pub proof fn law_organization_undo_window_is_exact(
    inverse: OrganizationInverse,
    changed_at: u64,
    now: u64,
)
    requires
        changed_at + ORGANIZATION_UNDO_WINDOW <= u64::MAX,
    ensures
        undoable(inverse, changed_at) matches Some(pending) && (now < pending.expires_at <==> now
            < changed_at + 10_000),
{
}

/// A host whose state was inspected and can be reconciled if the preview says
/// so.
#[derive(Clone, Copy, Debug, PartialEq, Eq, Structural)]
pub struct HostRecoveryPlan {
    pub session_id: HostedSessionId,
    pub preview_reconciled: bool,
}

/// The recovery that is running and the one that waits for confirmation.
#[derive(Clone, Copy, Debug, PartialEq, Eq, Structural)]
pub struct HostRecoveryState {
    pub operation: Option<HostedSessionId>,
    pub plan: Option<HostRecoveryPlan>,
}

/// Where the host of a session lives.
#[derive(Debug)]
pub struct HostLocation {
    pub runtime_root: String,
    pub session_dir: String,
}

/// The steps of inspecting a host, in order.
#[derive(Clone, Copy, Debug, PartialEq, Eq, Structural)]
pub enum InspectionStep {
    Start,
    RecoverInterrupted,
    Plan,
    Done,
    Cancelled,
}

/// The step after `step`; a cancelled inspection stops before its next step, and
/// one that was cancelled during the last yields no plan.
pub fn next_inspection_step(step: InspectionStep, cancelled: bool) -> (r: InspectionStep)
    ensures
        r == if step is Cancelled || (cancelled && !(step is Done)) {
            InspectionStep::Cancelled
        } else {
            match step {
                InspectionStep::Start => InspectionStep::RecoverInterrupted,
                InspectionStep::RecoverInterrupted => InspectionStep::Plan,
                _ => InspectionStep::Done,
            }
        },
        step is Cancelled ==> r is Cancelled,
        r is RecoverInterrupted ==> step is Start && !cancelled,
        r is Plan ==> step is RecoverInterrupted && !cancelled,
        r is Done ==> step is Done || (step is Plan && !cancelled),
        !(r is Start),
{
    match step {
        InspectionStep::Done => InspectionStep::Done,
        InspectionStep::Cancelled => InspectionStep::Cancelled,
        _ => {
            if cancelled {
                InspectionStep::Cancelled
            } else {
                match step {
                    InspectionStep::Start => InspectionStep::RecoverInterrupted,
                    InspectionStep::RecoverInterrupted => InspectionStep::Plan,
                    _ => InspectionStep::Done,
                }
            }
        },
    }
}

/// The durable host of a record.
pub open spec fn host_location(records: Seq<SavedAppAttachedSession>, id: HostedSessionId) -> Option<
    HostLocation,
> {
    match lists::first_where(records, saved_state::is_record(id)) {
        Some(record) => match record.durable_host {
            Some(host) => Some(
                HostLocation { runtime_root: host.runtime_root, session_dir: host.session_dir },
            ),
            None => None,
        },
        None => None,
    }
}

fn location_of_host(saved: &SavedState, id: HostedSessionId) -> (r: Option<HostLocation>)
    ensures
        r == host_location(saved.app_attached_sessions@, id),
{
    match saved.record(id) {
        Some(record) => match &record.durable_host {
            Some(host) => Some(
                HostLocation {
                    runtime_root: host.runtime_root.clone(),
                    session_dir: host.session_dir.clone(),
                },
            ),
            None => None,
        },
        None => None,
    }
}

impl HostRecoveryState {
    /// Starts inspecting the host of a session. `allowed` says whether the
    /// session's route and state permit a recovery at all.
    pub fn prepare_host_recovery(
        &mut self,
        saved: &SavedState,
        id: HostedSessionId,
        allowed: bool,
        notices: &mut Notices,
    ) -> (r: Option<HostLocation>)
        ensures
            ({
                let records = saved.app_attached_sessions@;
                let tried = old(self).operation is None && old(self).plan is None
                    && lists::first_where(records, saved_state::is_record(id)) is Some && allowed;
                &&& r == if tried {
                    host_location(records, id)
                } else {
                    None
                }
                &&& *final(self) == if r is Some {
                    HostRecoveryState { operation: Some(id), plan: None }
                } else {
                    *old(self)
                }
                &&& *final(notices) == if r is Some {
                    ui::succeeded(Text::Message(MessageId::RecoveryInspecting))
                } else if tried {
                    ui::failed(
                        *old(notices),
                        Text::Message(MessageId::RecoveryErrorVerification),
                    )
                } else {
                    *old(notices)
                }
            }),
            r is Some ==> allowed && old(self).operation is None && old(self).plan is None
                && final(self).operation == Some(id) && final(self).plan is None && final(notices).error is None,
            r is None ==> final(self).operation == old(self).operation && final(self).plan == old(self).plan,
            !allowed ==> r is None,
    {
        if self.operation.is_some() || self.plan.is_some() {
            return None;
        }
        if saved.record(id).is_none() || !allowed {
            return None;
        }
        match location_of_host(saved, id) {
            None => {
                notices.fail(Text::Message(MessageId::RecoveryErrorVerification));
                None
            },
            Some(location) => {
                self.operation = Some(id);
                notices.succeed(Text::Message(MessageId::RecoveryInspecting));
                Some(location)
            },
        }
    }

    /// Takes over what the inspection found; a failure comes with its message.
    pub fn finish_host_inspection(
        &mut self,
        result: Result<HostRecoveryPlan, MessageId>,
        notices: &mut Notices,
    )
        ensures
            *final(self) == (HostRecoveryState {
                operation: None,
                plan: match result {
                    Ok(plan) => Some(plan),
                    Err(_) => None,
                },
            }),
            *final(notices) == match result {
                Ok(_) => ui::succeeded(Text::Message(MessageId::RecoveryConfirmationRequired)),
                Err(message) => ui::failed(*old(notices), Text::Message(message)),
            },
            final(self).operation is None,
            result matches Ok(plan) ==> final(self).plan == Some(plan) && final(notices).error is None,
            result matches Err(message) ==> final(self).plan is None && final(notices).error == Some(
                Text::Message(message),
            ),
    {
        self.operation = None;
        match result {
            Ok(plan) => {
                self.plan = Some(plan);
                notices.succeed(Text::Message(MessageId::RecoveryConfirmationRequired));
            },
            Err(message) => {
                self.plan = None;
                notices.fail(Text::Message(message));
            },
        }
    }

    /// Starts reconciling a host whose inspection promised success. The plan is
    /// used up by that, and kept in every other case.
    pub fn confirm_host_recovery(
        &mut self,
        saved: &SavedState,
        id: HostedSessionId,
        notices: &mut Notices,
    ) -> (r: Option<(HostRecoveryPlan, String)>)
        ensures
            ({
                let location = host_location(saved.app_attached_sessions@, id);
                let ready = old(self).operation is None && (old(self).plan matches Some(plan)
                    && plan.session_id == id && plan.preview_reconciled);
                &&& r == if ready && location is Some {
                    Some((old(self).plan->0, location->0.runtime_root))
                } else {
                    None
                }
                &&& *final(self) == if r is Some {
                    HostRecoveryState { operation: Some(id), plan: None }
                } else {
                    *old(self)
                }
                &&& *final(notices) == if r is Some {
                    ui::succeeded(Text::Message(MessageId::RecoveryRunning))
                } else if ready {
                    ui::failed(
                        *old(notices),
                        Text::Message(MessageId::RecoveryErrorVerification),
                    )
                } else {
                    *old(notices)
                }
            }),
            r matches Some((plan, _)) ==> plan.session_id == id && plan.preview_reconciled && old(self).plan
                == Some(plan) && old(self).operation is None && final(self).operation == Some(id)
                && final(self).plan is None,
            r is None ==> final(self).plan == old(self).plan && final(self).operation == old(self).operation,
    {
        if self.operation.is_some() {
            return None;
        }
        let plan: HostRecoveryPlan = match self.plan {
            Some(plan) => plan,
            None => {
                return None;
            },
        };
        if plan.session_id != id || !plan.preview_reconciled {
            return None;
        }
        match location_of_host(saved, id) {
            None => {
                notices.fail(Text::Message(MessageId::RecoveryErrorVerification));
                None
            },
            Some(location) => {
                self.plan = None;
                self.operation = Some(id);
                notices.succeed(Text::Message(MessageId::RecoveryRunning));
                Some((plan, location.runtime_root))
            },
        }
    }

    /// Takes over the end of a reconciliation: where the host was reconciled the
    /// session is to become orphaned.
    pub fn finish_host_recovery(
        &mut self,
        result: Result<bool, MessageId>,
        notices: &mut Notices,
    ) -> (r: Option<SessionMutation>)
        ensures
            *final(self) == (HostRecoveryState { operation: None, ..*old(self) }),
            r == if result == Ok::<bool, MessageId>(true) {
                Some(SessionMutation::SetLifecycle(HostedSessionState::Orphaned))
            } else {
                None
            },
            *final(notices) == match result {
                Ok(reconciled) => if reconciled {
                    *old(notices)
                } else {
                    ui::succeeded(Text::Message(MessageId::RecoveryNoChange))
                },
                Err(message) => ui::failed(*old(notices), Text::Message(message)),
            },
            final(self).operation is None,
            final(self).plan == old(self).plan,
            r is Some <==> (result matches Ok(reconciled) && reconciled),
            r matches Some(mutation) ==> (mutation matches SessionMutation::SetLifecycle(state) && state
                is Orphaned),
            result matches Err(message) ==> final(notices).error == Some(Text::Message(message)),
    {
        self.operation = None;
        match result {
            Ok(reconciled) => {
                if reconciled {
                    Some(SessionMutation::SetLifecycle(HostedSessionState::Orphaned))
                } else {
                    notices.succeed(Text::Message(MessageId::RecoveryNoChange));
                    None
                }
            },
            Err(message) => {
                notices.fail(Text::Message(message));
                None
            },
        }
    }

    /// Gives a recovery up. Says whether a running one is to be cancelled.
    pub fn cancel_host_recovery(&mut self, id: HostedSessionId, notices: &mut Notices) -> (r: bool)
        ensures
            r == (old(self).operation == Some(id)),
            *final(self) == (HostRecoveryState {
                plan: if old(self).plan matches Some(plan) && plan.session_id == id {
                    None
                } else {
                    old(self).plan
                },
                ..*old(self)
            }),
            *final(notices) == ui::succeeded(Text::Message(MessageId::RecoveryCancelled)),
            r <==> old(self).operation == Some(id),
            final(self).operation == old(self).operation,
            !(final(self).plan matches Some(plan) && plan.session_id == id),
            (old(self).plan matches Some(plan) && plan.session_id != id) ==> final(self).plan == old(self).plan,
    {
        match self.plan {
            Some(plan) => {
                if plan.session_id == id {
                    self.plan = None;
                }
            },
            None => {},
        }
        notices.succeed(Text::Message(MessageId::RecoveryCancelled));
        self.operation == Some(id)
    }
}

/// Reports a recovery that reached its end, where the session became orphaned.
pub fn report_host_recovery(orphaned: bool, notices: &mut Notices)
    ensures
        *final(notices) == if orphaned {
            ui::succeeded(Text::Message(MessageId::RecoveryComplete))
        } else {
            *old(notices)
        },
        !orphaned ==> final(notices).status == old(notices).status && final(notices).error
            == old(notices).error,
        orphaned ==> final(notices).status == Some(Text::Message(MessageId::RecoveryComplete)),
{
    if orphaned {
        notices.succeed(Text::Message(MessageId::RecoveryComplete));
    }
}

/// A group keeps its place or moves within its own project: what it is put in
/// front of is a group of the same project, or the end of the list. Up by one is
/// in front of the group above, down by one behind the group below.
pub proof fn law_groups_move_within_their_project(
    projects: ProjectLibraryState,
    id: GroupId,
    delta: int,
    i: int,
)
    requires
        projects.found_group(id) is Some,
        ({
            let list = projects.groups_of(projects.found_group(id)->0.project_id);
            &&& 0 <= i < list.len()
            &&& list[i].id == id
            &&& forall|k: int| 0 <= k < i ==> (#[trigger] list[k]).id != id
        }),
    ensures
        ({
            let list = projects.groups_of(projects.found_group(id)->0.project_id);
            let moved = group_move(projects, id, delta);
            &&& moved is Some <==> 0 <= i + delta < list.len()
            &&& delta == -1 && i > 0 ==> moved->0 == Some(list[i - 1].id)
            &&& delta == 1 && i + 2 < list.len() ==> moved->0 == Some(list[i + 2].id)
            &&& delta == 1 && i + 2 == list.len() ==> moved->0 is None
        }),
{
    let list = projects.groups_of(projects.found_group(id)->0.project_id);
    lists::lemma_first_index(list, crate::projects::is_group(id), i);
}

/// Saving the editor renames the group that is edited, or makes a new one in the
/// project that is edited, under the typed name.
pub proof fn law_the_editor_saves_its_own_group(editor: GroupEditor, name: String, fresh: GroupId)
    ensures
        ({
            let change = editor_change(editor, name, fresh);
            &&& editor.group_id matches Some(id) ==> change == (GroupChange::Rename {
                group_id: id,
                name,
            })
            &&& editor.group_id is None ==> change == (GroupChange::Create {
                project_id: editor.project_id,
                group_id: fresh,
                name,
            })
        }),
{
}

/// Groups are changed only where there is a store that was read, and under the
/// revision that was read.
pub proof fn law_group_changes_name_the_known_revision(
    projects: ProjectLibraryState,
    change: GroupChange,
)
    ensures
        request(projects, change) is Some <==> projects.has_repository && projects.snapshot is Some,
        request(projects, change) matches Some(asked) ==> asked.change == change
            && asked.expected_revision == projects.snapshot->0.revision,
{
}

/// Taking a change of a group back changes that group and no other: a group that
/// was made is removed and its sessions go to the root of their project, an old
/// name, an old state and an old place are set again, and a removed group comes
/// back as it was.
pub proof fn law_taking_back_names_the_same_group(
    projects: ProjectLibraryState,
    saved: SavedState,
    command: GroupInverseCommand,
)
    ensures
        ({
            let back = inverse_change(projects, saved, command);
            &&& back is None <==> (command matches GroupInverseCommand::RemoveCreated { group_id }
                && projects.found_group(group_id) is None)
            &&& back matches Some((change, relocate)) ==> {
                &&& change is Remove <==> command is RemoveCreated
                &&& change matches GroupChange::Remove { group_id, destination, has_sessions } ==> {
                    &&& command == (GroupInverseCommand::RemoveCreated { group_id })
                    &&& destination == Some(GroupDestination::ProjectRoot)
                    &&& has_sessions <==> relocate is Some
                    &&& relocate matches Some(group) ==> group.group_id == group_id
                }
                &&& change matches GroupChange::Rename { group_id, name } ==> command == (
                GroupInverseCommand::Rename { group_id, name })
                &&& change matches GroupChange::SetCollapsed { group_id, collapsed } ==> command
                    == (GroupInverseCommand::SetCollapsed { group_id, collapsed })
                &&& change matches GroupChange::MoveBefore { group_id, before } ==> command == (
                GroupInverseCommand::MoveBefore { group_id, before })
                &&& change matches GroupChange::Restore { group } ==> command == (
                GroupInverseCommand::RestoreRemoved { group })
                &&& !(change is Create)
                &&& !(change is Remove) ==> relocate is None
            }
        }),
{
}

/// A group has sessions exactly where some record names it.
pub proof fn law_sessions_of_a_group_are_seen(saved: SavedState, id: GroupId)
    ensures
        has_sessions(saved, id) <==> exists|i: int|
            0 <= i < saved.app_attached_sessions@.len() && (
            #[trigger] saved.app_attached_sessions@[i]).group_id == Some(id),
{
    let records = saved.app_attached_sessions@;
    let picked = lists::kept(records, saved_state::of_group(id));
    if picked.len() > 0 {
        lists::lemma_kept_members(records, saved_state::of_group(id), picked[0]);
        assert(picked.contains(picked[0]));
        let i = choose|i: int| 0 <= i < records.len() && records[i] == picked[0];
        assert(records[i].group_id == Some(id));
    }
    if exists|i: int| 0 <= i < records.len() && (#[trigger] records[i]).group_id == Some(id) {
        let i = choose|i: int|
            0 <= i < records.len() && (#[trigger] records[i]).group_id == Some(id);
        lists::lemma_kept_members(records, saved_state::of_group(id), records[i]);
        assert(picked.contains(records[i]));
    }
}

/// Names that cannot be used, names that are taken and stale revisions are told
/// apart.
pub proof fn law_group_errors_are_told_apart(error: StoreError)
    ensures
        group_error_message(error) == MessageId::GroupErrorInvalidName <==> {
            ||| error == StoreError::GroupDomain(GroupError::EmptyName)
            ||| error == StoreError::GroupDomain(GroupError::NameContainsNul)
            ||| error == StoreError::GroupDomain(GroupError::NameTooLong)
        },
        group_error_message(error) == MessageId::GroupErrorDuplicate <==> error
            == StoreError::GroupDomain(GroupError::DuplicateName),
        group_error_message(error) == MessageId::GroupErrorStale <==> {
            ||| error == StoreError::Domain(ProjectError::StaleRevision)
            ||| error == StoreError::GroupDomain(GroupError::StaleRevision)
        },
{
}

/// The store is read again after a stale revision and after nothing else.
pub proof fn law_only_stale_revisions_are_read_again(
    library: SessionLibraryState,
    error: StoreError,
    reread: Result<SessionSnapshot, StoreError>,
)
    ensures
        ({
            let after = after_error(library, error, reread);
            let stale = error == StoreError::SessionDomain(SessionStateError::StaleRevision);
            &&& !stale ==> after == library
            &&& stale && library.has_repository ==> (reread matches Ok(snapshot) ==> after.snapshot
                == Some(snapshot))
            &&& reread is Err ==> after == library
            &&& after.view == library.view && after.filter == library.filter
            &&& after.pending_removal == library.pending_removal
        }),
{
}

/// A change can be taken back until its time has run out and not from then on,
/// and what is taken back is what was remembered.
pub proof fn law_undo_gives_back_what_was_remembered(
    pending: Option<PendingOrganizationUndo>,
    now: u64,
)
    ensures
        ({
            let step = undo_step(pending, now);
            &&& step is Nothing <==> pending is None
            &&& step is Expired <==> (pending matches Some(undo) && undo.expires_at <= now)
            &&& step matches OrganizationUndoStep::Session { placements } ==> pending->0.inverse
                == (OrganizationInverse::Session { placements })
            &&& step matches OrganizationUndoStep::Group { command, placements }
                ==> pending->0.inverse == (OrganizationInverse::Group { command, placements })
        }),
{
}

/// A pane shows a session exactly where one is linked to it; the pane that is
/// named is linked to that very session.
pub proof fn law_panes_are_found_by_session(panes: Seq<PaneLink>, id: HostedSessionId)
    ensures
        pane_of(panes, id) is Some <==> exists|i: int|
            0 <= i < panes.len() && (#[trigger] panes[i]).session == Some(id),
        pane_of(panes, id) matches Some(pane) ==> exists|i: int|
            0 <= i < panes.len() && (#[trigger] panes[i]).pane_id == pane && panes[i].session
                == Some(id),
{
    lists::lemma_first_index_bounds(panes, shows_session(id));
    let at = lists::first_index(panes, shows_session(id));
    if at < panes.len() {
        assert(panes[at].session == Some(id));
    } else {
        assert forall|i: int| 0 <= i < panes.len() implies (#[trigger] panes[i]).session != Some(
            id,
        ) by {
            assert(!(shows_session(id))(panes[i]));
        }
    }
}

/// The host of a session is looked for where its own record says.
pub proof fn law_hosts_are_located_by_their_record(
    records: Seq<SavedAppAttachedSession>,
    id: HostedSessionId,
)
    ensures
        host_location(records, id) matches Some(location) ==> exists|i: int|
            {
                &&& 0 <= i < records.len()
                &&& (#[trigger] records[i]).id == id
                &&& records[i].durable_host matches Some(host)
                &&& location.runtime_root == host.runtime_root
                &&& location.session_dir == host.session_dir
            },
{
    lists::lemma_first_index_bounds(records, saved_state::is_record(id));
}

/// A placement that the store refuses changes no record; one that it takes leaves
/// the records as the store has them.
pub proof fn law_refused_placements_change_no_record(
    before: SessionLibraryState,
    after: SessionLibraryState,
    records: Seq<SavedAppAttachedSession>,
    records_after: Seq<SavedAppAttachedSession>,
    outcome: Result<(), StoreError>,
    loaded: Result<SessionSnapshot, StoreError>,
    reread: Result<SessionSnapshot, StoreError>,
    ok: bool,
)
    requires
        placements_taken(before, after, records, records_after, outcome, loaded, reread, ok),
    ensures
        ok <==> outcome is Ok && loaded is Ok && before.has_repository,
        !ok ==> records_after == records,
        ok ==> after.snapshot == Some(loaded->Ok_0),
        ok ==> records_after == saved_state::synced(records, loaded->Ok_0.sessions@),
{
}

/// A failed operation is told as an error, a finished one as a success, and each
/// by its own words.
pub proof fn law_operations_are_told_by_their_outcome(before: Notices)
    ensures
        operation_failed(before) == ui::failed(
            before,
            Text::Message(MessageId::SessionLibraryOperationFailed),
        ),
        operation_complete() == ui::succeeded(
            Text::Message(MessageId::SessionLibraryOperationComplete),
        ),
        organization_updated() == ui::succeeded(
            Text::Message(MessageId::GroupOrganizationUpdated),
        ),
{
}

/// The records of sessions are listed in the sessions' order, each the first of
/// its session; a session without a record has none.
pub proof fn law_records_are_listed_in_the_order_of_sessions(
    sessions: Seq<HostedSession>,
    session: HostedSession,
    records: Seq<SavedAppAttachedSession>,
    k: int,
)
    requires
        0 <= k <= records.len(),
        k == records.len() || records[k].id == session.id,
        forall|j: int| 0 <= j < k ==> (#[trigger] records[j]).id != session.id,
    ensures
        k < records.len() ==> records_of(sessions.push(session), records) == records_of(
            sessions,
            records,
        ).push(records[k]),
        k == records.len() ==> records_of(sessions.push(session), records) == records_of(
            sessions,
            records,
        ),
{
    assert(sessions.push(session).drop_last() =~= sessions);
    lists::lemma_first_index(records, saved_state::is_record(session.id), k);
}

/// What is told of a change of rows: those shown before, those shown after, and
/// the one that is selected.
pub proof fn law_selection_changes_tell_what_was_shown(
    change: SelectionChange,
    before: SessionLibraryState,
    after: SessionLibraryState,
    sidebar: SessionSidebarState,
    i: int,
)
    requires
        is_selection_change(change, before, after, sidebar),
        0 <= i,
    ensures
        change.previous@.len() == before.visible_all().len(),
        change.next@.len() == after.visible_all().len(),
        i < before.visible_all().len() ==> change.previous@[i].kind is Session
            && change.previous@[i].value == before.visible_all()[i].id.value,
        i < after.visible_all().len() ==> change.next@[i].kind is Session && change.next@[i].value
            == after.visible_all()[i].id.value,
        sidebar.selected_session is None <==> change.selected is None,
        sidebar.selected_session matches Some(id) ==> (change.selected matches Some(row)
            && row.kind is Session && row.value == id.value),
{
}

} // verus!
