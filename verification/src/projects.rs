//! The project library: what the project store last said, adding and removing
//! projects, and what the projects view shows.
use vstd::prelude::*;

use crate::domain::{ProjectError, ProjectStatus, StoreError, StoreHealth};
use crate::group_repair;
use crate::group_repair::{repair_session_group_references, PlacementReply};
use crate::ids::{project_element_key, GroupId, ProjectId};
use crate::ids;
use crate::lists;
use crate::messages::{Atom, MessageId, Text};
use crate::saved_state::{SavedSessionPlacement, SavedState};
use crate::session_library::SessionLibraryState;
use crate::ui;
use crate::ui::{ButtonView, Emphasis, Icon, Notices, Tone};

verus! {

/// How long a removed project can be restored, in milliseconds.
pub const PROJECT_UNDO_WINDOW: u64 = 10_000;

#[derive(Clone, Copy, Debug, PartialEq, Eq, Structural)]
pub enum ProjectStoreFailure {
    Corrupt,
    Newer,
    Unavailable,
}

#[derive(Clone, Copy, Debug, PartialEq, Eq, Structural)]
pub enum ProjectLibraryLoadState {
    Loading,
    Ready,
    Failed(ProjectStoreFailure),
}

#[derive(Debug, PartialEq, Eq)]
pub struct Project {
    pub id: ProjectId,
    pub display_name: String,
    pub canonical_root: String,
    pub position: u64,
    pub revision: u64,
}

impl Project {
    pub fn duplicate(&self) -> (r: Self)
        ensures
            r == *self,
    {
        Project {
            id: self.id,
            display_name: self.display_name.clone(),
            canonical_root: self.canonical_root.clone(),
            position: self.position,
            revision: self.revision,
        }
    }
}

#[derive(Debug)]
pub struct ProjectSummary {
    pub project: Project,
    pub status: ProjectStatus,
}

#[derive(Debug)]
pub struct Group {
    pub id: GroupId,
    pub project_id: ProjectId,
    pub name: String,
    pub collapsed: bool,
    pub position: u64,
}

impl Group {
    pub fn duplicate(&self) -> (r: Self)
        ensures
            r == *self,
    {
        Group {
            id: self.id,
            project_id: self.project_id,
            name: self.name.clone(),
            collapsed: self.collapsed,
            position: self.position,
        }
    }
}

/// What the project store holds at one revision.
#[derive(Debug)]
pub struct ProjectSnapshot {
    pub revision: u64,
    pub projects: Vec<ProjectSummary>,
    pub groups: Vec<Group>,
    /// The plans of worktrees whose creation was interrupted.
    pub worktree_intents: Vec<u128>,
    pub health: StoreHealth,
    pub read_only: bool,
}

#[derive(Debug)]
pub struct ProjectAddDraft {
    pub canonical_root: String,
}

#[derive(Debug)]
pub struct ProjectAddValidation {
    pub generation: u64,
    pub selected_root: String,
}

/// A removed project that can still be restored until `expires_at`.
#[derive(Debug)]
pub struct PendingProjectRemoval {
    pub project_id: ProjectId,
    pub name: String,
    pub expires_at: u64,
}

#[derive(Debug)]
pub struct ProjectLibraryState {
    pub has_repository: bool,
    pub load_state: ProjectLibraryLoadState,
    pub snapshot: Option<ProjectSnapshot>,
    pub selected_id: Option<ProjectId>,
    pub add_draft: Option<ProjectAddDraft>,
    pub add_validation: Option<ProjectAddValidation>,
    pub pending_removal: Option<PendingProjectRemoval>,
    pub next_validation_generation: u64,
}

/// A folder that was found to be usable as a project.
#[derive(Debug)]
pub struct ResolvedFolder {
    pub canonical_root: String,
    pub default_name: Option<String>,
}

/// What came of opening the project store.
#[derive(Clone, Copy, Debug, PartialEq, Eq)]
pub enum ProjectStoreOpening {
    NoDirectory,
    Refused(StoreError),
    Opened,
}

/// What follows from the end of a folder's validation.
#[derive(Debug)]
pub enum ValidationOutcome {
    /// The validation was abandoned before it ended.
    Ignored,
    /// The label field takes this name and the focus.
    Review(String),
    Rejected,
}

/// What follows from asking to undo a removal.
#[derive(Clone, Copy, Debug, PartialEq, Eq, Structural)]
pub enum UndoStep {
    Nothing,
    Expired,
    NoStore,
    NoSnapshot,
    Restore { project_id: ProjectId, expected_revision: u64 },
}

/// A project as it is to be added.
#[derive(Debug)]
pub struct AddProject {
    pub id: ProjectId,
    pub root: String,
    pub display_name: String,
    pub expected_revision: u64,
}

pub open spec fn store_failure(error: StoreError) -> ProjectStoreFailure {
    match error {
        StoreError::StoreNewer => ProjectStoreFailure::Newer,
        StoreError::Corrupt | StoreError::UnsafeEntry
        | StoreError::TooLarge => ProjectStoreFailure::Corrupt,
        _ => ProjectStoreFailure::Unavailable,
    }
}

pub fn classify_store_failure(error: &StoreError) -> (r: ProjectStoreFailure)
    ensures
        r == store_failure(*error),
{
    match error {
        StoreError::StoreNewer => ProjectStoreFailure::Newer,
        StoreError::Corrupt | StoreError::UnsafeEntry | StoreError::TooLarge => {
            ProjectStoreFailure::Corrupt
        },
        _ => ProjectStoreFailure::Unavailable,
    }
}

pub open spec fn failure_message(failure: ProjectStoreFailure) -> MessageId {
    match failure {
        ProjectStoreFailure::Corrupt => MessageId::ProjectStoreCorrupt,
        ProjectStoreFailure::Newer => MessageId::ProjectStoreNewer,
        ProjectStoreFailure::Unavailable => MessageId::ProjectStoreUnavailable,
    }
}

fn failure_label(failure: ProjectStoreFailure) -> (r: MessageId)
    ensures
        r == failure_message(failure),
{
    match failure {
        ProjectStoreFailure::Corrupt => MessageId::ProjectStoreCorrupt,
        ProjectStoreFailure::Newer => MessageId::ProjectStoreNewer,
        ProjectStoreFailure::Unavailable => MessageId::ProjectStoreUnavailable,
    }
}

pub fn project_store_error_message(error: &StoreError) -> (r: MessageId)
    ensures
        r == failure_message(store_failure(*error)),
{
    failure_label(classify_store_failure(error))
}

/// The message for a refused folder, label or revision. It names no path.
pub open spec fn refusal_message(error: ProjectError) -> MessageId {
    match error {
        ProjectError::EmptyPath | ProjectError::PathContainsNul => MessageId::ProjectErrorEmptyPath,
        ProjectError::PermissionDenied => MessageId::ProjectErrorPermissionDenied,
        ProjectError::Unavailable | ProjectError::PathChanged
        | ProjectError::PathValidation => MessageId::ProjectErrorUnavailable,
        ProjectError::NotDirectory => MessageId::ProjectErrorNotDirectory,
        ProjectError::PathTooLong
        | ProjectError::NonUnicodePath => MessageId::ProjectErrorPathTooLong,
        ProjectError::EmptyLabel | ProjectError::LabelContainsNul
        | ProjectError::LabelTooLong => MessageId::ProjectErrorInvalidLabel,
        ProjectError::StaleRevision => MessageId::ProjectErrorStale,
        _ => MessageId::ProjectErrorGeneric,
    }
}

pub fn project_error_message(error: &ProjectError) -> (r: MessageId)
    ensures
        r == refusal_message(*error),
{
    match error {
        ProjectError::EmptyPath | ProjectError::PathContainsNul => MessageId::ProjectErrorEmptyPath,
        ProjectError::PermissionDenied => MessageId::ProjectErrorPermissionDenied,
        ProjectError::Unavailable | ProjectError::PathChanged | ProjectError::PathValidation => {
            MessageId::ProjectErrorUnavailable
        },
        ProjectError::NotDirectory => MessageId::ProjectErrorNotDirectory,
        ProjectError::PathTooLong | ProjectError::NonUnicodePath => {
            MessageId::ProjectErrorPathTooLong
        },
        ProjectError::EmptyLabel | ProjectError::LabelContainsNul | ProjectError::LabelTooLong => {
            MessageId::ProjectErrorInvalidLabel
        },
        ProjectError::StaleRevision => MessageId::ProjectErrorStale,
        _ => MessageId::ProjectErrorGeneric,
    }
}

/// Text, tone and icon for the status of a project.
pub open spec fn status_presentation(status: ProjectStatus) -> (MessageId, Tone, Icon) {
    match status {
        ProjectStatus::Available => (MessageId::ProjectStatusAvailable, Tone::Success, Icon::Check),
        ProjectStatus::Unavailable => (
            MessageId::ProjectStatusUnavailable,
            Tone::Warning,
            Icon::TriangleAlert,
        ),
        ProjectStatus::PermissionDenied => (
            MessageId::ProjectStatusPermissionDenied,
            Tone::Danger,
            Icon::TriangleAlert,
        ),
    }
}

pub fn project_status_presentation(status: ProjectStatus) -> (r: (MessageId, Tone, Icon))
    ensures
        r == status_presentation(status),
{
    match status {
        ProjectStatus::Available => (MessageId::ProjectStatusAvailable, Tone::Success, Icon::Check),
        ProjectStatus::Unavailable => (
            MessageId::ProjectStatusUnavailable,
            Tone::Warning,
            Icon::TriangleAlert,
        ),
        ProjectStatus::PermissionDenied => (
            MessageId::ProjectStatusPermissionDenied,
            Tone::Danger,
            Icon::TriangleAlert,
        ),
    }
}

/// The generation after `generation`; never zero.
pub open spec fn next_generation(generation: u64) -> u64 {
    if generation == u64::MAX {
        1
    } else {
        (generation + 1) as u64
    }
}

pub(crate) fn following_generation(generation: u64) -> (r: u64)
    ensures
        r == next_generation(generation),
{
    if generation == u64::MAX {
        1
    } else {
        generation + 1
    }
}

pub open spec fn is_project(id: ProjectId) -> spec_fn(ProjectSummary) -> bool {
    |s: ProjectSummary| s.project.id == id
}

pub open spec fn is_group(id: GroupId) -> spec_fn(Group) -> bool {
    |g: Group| g.id == id
}

pub open spec fn in_project(id: ProjectId) -> spec_fn(Group) -> bool {
    |g: Group| g.project_id == id
}

/// Groups are shown by position, then by identity.
pub open spec fn group_before() -> spec_fn(Group, Group) -> bool {
    |a: Group, b: Group|
        a.position < b.position || (a.position == b.position && a.id.value < b.id.value)
}

impl ProjectSnapshot {
    pub fn summary(&self, id: ProjectId) -> (r: Option<&ProjectSummary>)
        ensures
            match lists::first_where(self.projects@, is_project(id)) {
                Some(found) => r == Some(&found),
                None => r is None,
            },
    {
        let mut i: usize = 0;
        while i < self.projects.len()
            invariant
                i <= self.projects@.len(),
                forall|k: int| 0 <= k < i ==> !is_project(id)(#[trigger] self.projects@[k]),
            decreases self.projects@.len() - i,
        {
            if self.projects[i].project.id == id {
                proof {
                    lists::lemma_first_index(self.projects@, is_project(id), i as int);
                }
                return Some(&self.projects[i]);
            }
            i += 1;
        }
        proof {
            lists::lemma_first_index(self.projects@, is_project(id), i as int);
        }
        None
    }
}

impl ProjectLibraryState {
    pub open spec fn projects(self) -> Seq<ProjectSummary> {
        match self.snapshot {
            Some(snapshot) => snapshot.projects@,
            None => Seq::empty(),
        }
    }

    pub open spec fn groups(self) -> Seq<Group> {
        match self.snapshot {
            Some(snapshot) => snapshot.groups@,
            None => Seq::empty(),
        }
    }

    /// The revision of the last snapshot, if there is one.
    pub open spec fn known_revision(self) -> Option<u64> {
        match self.snapshot {
            Some(snapshot) => Some(snapshot.revision),
            None => None,
        }
    }

    pub open spec fn found(self, id: ProjectId) -> Option<ProjectSummary> {
        lists::first_where(self.projects(), is_project(id))
    }

    pub open spec fn found_group(self, id: GroupId) -> Option<Group> {
        lists::first_where(self.groups(), is_group(id))
    }

    /// The groups of a project, in the order in which they are shown.
    pub open spec fn groups_of(self, project_id: ProjectId) -> Seq<Group> {
        lists::stable_sort(lists::kept(self.groups(), in_project(project_id)), group_before())
    }

    /// The library after the store was read. A selection that no longer exists
    /// is given up.
    pub open spec fn reloaded(self, loaded: Result<ProjectSnapshot, StoreError>) -> Self {
        if !self.has_repository {
            ProjectLibraryState {
                load_state: ProjectLibraryLoadState::Failed(ProjectStoreFailure::Unavailable),
                snapshot: None,
                ..self
            }
        } else {
            match loaded {
                Ok(snapshot) => ProjectLibraryState {
                    selected_id: match self.selected_id {
                        Some(id) => if lists::first_where(snapshot.projects@, is_project(id)) is Some {
                            Some(id)
                        } else {
                            None
                        },
                        None => None,
                    },
                    snapshot: Some(snapshot),
                    load_state: ProjectLibraryLoadState::Ready,
                    ..self
                },
                Err(error) => ProjectLibraryState {
                    snapshot: None,
                    load_state: ProjectLibraryLoadState::Failed(store_failure(error)),
                    ..self
                },
            }
        }
    }

    /// What is to be said of the state of the store, if anything.
    pub open spec fn store_notice(self) -> Option<MessageId> {
        match self.load_state {
            ProjectLibraryLoadState::Failed(failure) => Some(failure_message(failure)),
            _ => if self.snapshot matches Some(snapshot) && snapshot.health
                == StoreHealth::RecoveredLastGood {
                Some(MessageId::ProjectStoreRecovered)
            } else {
                None
            },
        }
    }

    /// The library as it stands once the store was opened and before it was
    /// read, or the failure that opening ended in.
    pub fn open_default(opening: ProjectStoreOpening) -> (r: Self)
        ensures
            r == (ProjectLibraryState {
                has_repository: opening is Opened,
                load_state: match opening {
                    ProjectStoreOpening::NoDirectory => ProjectLibraryLoadState::Failed(
                        ProjectStoreFailure::Unavailable,
                    ),
                    ProjectStoreOpening::Refused(error) => ProjectLibraryLoadState::Failed(
                        store_failure(error),
                    ),
                    ProjectStoreOpening::Opened => ProjectLibraryLoadState::Loading,
                },
                snapshot: None,
                selected_id: None,
                add_draft: None,
                add_validation: None,
                pending_removal: None,
                next_validation_generation: 1,
            }),
            r.has_repository <==> opening is Opened,
            r.load_state is Loading <==> opening is Opened,
            opening is NoDirectory ==> r.load_state == ProjectLibraryLoadState::Failed(
                ProjectStoreFailure::Unavailable,
            ),
    {
        let (has_repository, load_state): (bool, ProjectLibraryLoadState) = match opening {
            ProjectStoreOpening::NoDirectory => (
                false,
                ProjectLibraryLoadState::Failed(ProjectStoreFailure::Unavailable),
            ),
            ProjectStoreOpening::Refused(error) => (
                false,
                ProjectLibraryLoadState::Failed(classify_store_failure(&error)),
            ),
            ProjectStoreOpening::Opened => (true, ProjectLibraryLoadState::Loading),
        };
        ProjectLibraryState {
            has_repository,
            load_state,
            snapshot: None,
            selected_id: None,
            add_draft: None,
            add_validation: None,
            pending_removal: None,
            next_validation_generation: 1,
        }
    }

    /// Takes over what reading the store returned.
    pub fn reload(&mut self, loaded: Result<ProjectSnapshot, StoreError>)
        ensures
            *final(self) == old(self).reloaded(loaded),
    {
        if !self.has_repository {
            self.load_state = ProjectLibraryLoadState::Failed(ProjectStoreFailure::Unavailable);
            self.snapshot = None;
            return;
        }
        match loaded {
            Ok(snapshot) => {
                match self.selected_id {
                    Some(id) => {
                        if snapshot.summary(id).is_none() {
                            self.selected_id = None;
                        }
                    },
                    None => {},
                }
                self.snapshot = Some(snapshot);
                self.load_state = ProjectLibraryLoadState::Ready;
            },
            Err(error) => {
                self.snapshot = None;
                self.load_state = ProjectLibraryLoadState::Failed(classify_store_failure(&error));
            },
        }
    }

    pub fn error_message(&self) -> (r: Option<MessageId>)
        ensures
            r == self.store_notice(),
    {
        match self.load_state {
            ProjectLibraryLoadState::Failed(failure) => Some(failure_label(failure)),
            _ => match &self.snapshot {
                Some(snapshot) => {
                    if snapshot.health == StoreHealth::RecoveredLastGood {
                        Some(MessageId::ProjectStoreRecovered)
                    } else {
                        None
                    }
                },
                None => None,
            },
        }
    }

    pub fn project_revision(&self) -> (r: Option<u64>)
        ensures
            r == self.known_revision(),
    {
        match &self.snapshot {
            Some(snapshot) => Some(snapshot.revision),
            None => None,
        }
    }

    /// The project of that identity.
    pub fn project(&self, id: ProjectId) -> (r: Option<&ProjectSummary>)
        ensures
            match self.found(id) {
                Some(summary) => r == Some(&summary),
                None => r is None,
            },
    {
        match &self.snapshot {
            Some(snapshot) => snapshot.summary(id),
            None => None,
        }
    }

    /// The group of that identity.
    pub fn group(&self, id: GroupId) -> (r: Option<&Group>)
        ensures
            match self.found_group(id) {
                Some(group) => r == Some(&group),
                None => r is None,
            },
    {
        match &self.snapshot {
            None => None,
            Some(snapshot) => {
                let mut i: usize = 0;
                while i < snapshot.groups.len()
                    invariant
                        i <= snapshot.groups@.len(),
                        self.groups() == snapshot.groups@,
                        forall|k: int| 0 <= k < i ==> !is_group(id)(#[trigger] snapshot.groups@[k]),
                    decreases snapshot.groups@.len() - i,
                {
                    if snapshot.groups[i].id == id {
                        proof {
                            lists::lemma_first_index(snapshot.groups@, is_group(id), i as int);
                        }
                        return Some(&snapshot.groups[i]);
                    }
                    i += 1;
                }
                proof {
                    lists::lemma_first_index(snapshot.groups@, is_group(id), i as int);
                }
                None
            },
        }
    }

    pub fn project_groups(&self, project_id: ProjectId) -> (r: Vec<Group>)
        ensures
            r@ == self.groups_of(project_id),
    {
        let mut groups: Vec<Group> = Vec::new();
        let ghost all = self.groups();
        let ghost wanted = in_project(project_id);
        match &self.snapshot {
            None => {},
            Some(snapshot) => {
                let mut i: usize = 0;
                assert(all.take(0) =~= Seq::empty());
                while i < snapshot.groups.len()
                    invariant
                        all == snapshot.groups@,
                        i <= all.len(),
                        wanted == in_project(project_id),
                        groups@ == lists::kept(all.take(i as int), wanted),
                    decreases all.len() - i,
                {
                    proof {
                        lists::lemma_kept_step(all, wanted, i as int);
                    }
                    let keep: bool = snapshot.groups[i].project_id == project_id;
                    lists::push_if(&mut groups, keep, snapshot.groups[i].duplicate());
                    i += 1;
                }
                assert(all.take(all.len() as int) =~= all);
            },
        }
        let earlier = |a: &Group, b: &Group| -> (x: bool)
            ensures
                x == group_before()(*a, *b),
            {
                a.position < b.position || (a.position == b.position && a.id.value < b.id.value)
            };
        lists::sort_list(groups, earlier, Ghost(group_before()))
    }

    /// Starts validating a chosen folder; the answer is awaited under the
    /// returned generation, and earlier ones no longer count.
    pub fn start_project_validation(&mut self, root: String, notices: &mut Notices) -> (generation:
        u64)
        ensures
            generation == old(self).next_validation_generation,
            *final(self) == (ProjectLibraryState {
                next_validation_generation: next_generation(generation),
                add_draft: None,
                add_validation: Some(ProjectAddValidation { generation, selected_root: root }),
                ..*old(self)
            }),
            *final(notices) == ui::cleared(*old(notices)),
    {
        let generation: u64 = self.next_validation_generation;
        self.next_validation_generation = following_generation(generation);
        self.add_draft = None;
        self.add_validation = Some(ProjectAddValidation { generation, selected_root: root });
        notices.clear_error();
        generation
    }

    /// Takes over the answer of a validation, if it is still the one awaited.
    pub fn finish_project_validation(
        &mut self,
        generation: u64,
        result: Result<ResolvedFolder, ProjectError>,
        notices: &mut Notices,
    ) -> (outcome: ValidationOutcome)
        ensures
            ({
                let awaited = old(self).add_validation matches Some(validation)
                    && validation.generation == generation;
                if !awaited {
                    &&& outcome is Ignored
                    &&& *final(self) == *old(self)
                    &&& *final(notices) == *old(notices)
                } else {
                    match result {
                        Ok(folder) => {
                            &&& *final(self) == (ProjectLibraryState {
                                add_validation: None,
                                add_draft: Some(
                                    ProjectAddDraft { canonical_root: folder.canonical_root },
                                ),
                                ..*old(self)
                            })
                            &&& outcome matches ValidationOutcome::Review(name)
                            &&& match folder.default_name {
                                Some(default_name) => name == default_name,
                                None => name@.len() == 0,
                            }
                            &&& *final(notices) == ui::cleared(*old(notices))
                        },
                        Err(error) => {
                            &&& outcome is Rejected
                            &&& *final(self) == (ProjectLibraryState {
                                add_validation: None,
                                ..*old(self)
                            })
                            &&& *final(notices) == ui::failed(
                                *old(notices),
                                Text::Message(refusal_message(error)),
                            )
                        },
                    }
                }
            }),
            outcome is Review ==> {
                &&& old(self).add_validation matches Some(validation)
                &&& validation.generation == generation
                &&& result matches Ok(folder)
                &&& final(self).add_draft matches Some(draft)
                &&& draft.canonical_root == folder.canonical_root
            },
            final(self).add_draft is Some && old(self).add_draft is None ==> outcome is Review,
    {
        let awaited: bool = match &self.add_validation {
            Some(validation) => validation.generation == generation,
            None => false,
        };
        if !awaited {
            return ValidationOutcome::Ignored;
        }
        self.add_validation = None;
        match result {
            Ok(folder) => {
                self.add_draft = Some(ProjectAddDraft { canonical_root: folder.canonical_root });
                notices.clear_error();
                match folder.default_name {
                    Some(name) => ValidationOutcome::Review(name),
                    None => ValidationOutcome::Review(String::new()),
                }
            },
            Err(error) => {
                notices.fail(Text::Message(project_error_message(&error)));
                ValidationOutcome::Rejected
            },
        }
    }

    /// Gives up adding a project; an answer that is still awaited is ignored.
    pub fn cancel_project_add(&mut self, notices: &mut Notices)
        ensures
            *final(self) == (ProjectLibraryState {
                add_draft: None,
                add_validation: None,
                next_validation_generation: next_generation(old(self).next_validation_generation),
                ..*old(self)
            }),
            *final(notices) == ui::cleared(*old(notices)),
            final(self).add_draft is None && final(self).add_validation is None,
            final(self).snapshot == old(self).snapshot && final(self).pending_removal
                == old(self).pending_removal && final(self).selected_id == old(self).selected_id,
            final(notices).error is None,
    {
        self.add_draft = None;
        self.add_validation = None;
        self.next_validation_generation = following_generation(self.next_validation_generation);
        notices.clear_error();
    }

    /// What the store is asked to add; `None` where nothing is being added or no
    /// store is open, the latter with a notice.
    pub fn add_request(&self, id: ProjectId, display_name: String, notices: &mut Notices) -> (r:
        Option<AddProject>)
        ensures
            match self.add_draft {
                None => r is None && *final(notices) == *old(notices),
                Some(draft) => if self.has_repository {
                    &&& r == Some(
                        AddProject {
                            id,
                            root: draft.canonical_root,
                            display_name,
                            expected_revision: match self.known_revision() {
                                Some(revision) => revision,
                                None => 0,
                            },
                        },
                    )
                    &&& *final(notices) == *old(notices)
                } else {
                    &&& r is None
                    &&& *final(notices) == ui::failed(
                        *old(notices),
                        Text::Message(MessageId::ProjectStoreUnavailable),
                    )
                },
            },
            r matches Some(request) ==> {
                &&& request.id == id
                &&& self.add_draft matches Some(draft)
                &&& request.root == draft.canonical_root
                &&& request.display_name == display_name
                &&& self.snapshot matches Some(known) ==> request.expected_revision
                    == known.revision
            },
    {
        match &self.add_draft {
            None => None,
            Some(draft) => {
                if !self.has_repository {
                    notices.fail(Text::Message(MessageId::ProjectStoreUnavailable));
                    return None;
                }
                let expected_revision: u64 = match self.project_revision() {
                    Some(revision) => revision,
                    None => 0,
                };
                Some(
                    AddProject {
                        id,
                        root: draft.canonical_root.clone(),
                        display_name,
                        expected_revision,
                    },
                )
            },
        }
    }

    /// Takes over the store's answer to adding a project. Says whether the list
    /// takes the focus: where the project was added or was already present.
    pub fn commit_project_add(
        &mut self,
        reply: Result<Project, StoreError>,
        loaded: Result<ProjectSnapshot, StoreError>,
        notices: &mut Notices,
    ) -> (focus_list: bool)
        ensures
            ({
                let closed = ProjectLibraryState { add_draft: None, ..*old(self) };
                match reply {
                    Ok(project) => {
                        &&& focus_list
                        &&& *final(self) == (ProjectLibraryState {
                            selected_id: Some(project.id),
                            ..closed.reloaded(loaded)
                        })
                        &&& *final(notices) == ui::succeeded(
                            Text::Filled(
                                MessageId::ProjectAddedStatus,
                                Atom::Value(project.display_name),
                            ),
                        )
                    },
                    Err(StoreError::Domain(ProjectError::AlreadyPresent { id })) => {
                        &&& focus_list
                        &&& *final(self) == (ProjectLibraryState {
                            selected_id: Some(id),
                            ..closed.reloaded(loaded)
                        })
                        &&& final(notices).error is None
                        &&& final(notices).status matches Some(
                            Text::Filled(message, Atom::Value(name)),
                        )
                        &&& message == MessageId::ProjectDuplicateStatus
                        &&& match closed.reloaded(loaded).found(id) {
                            Some(summary) => name == summary.project.display_name,
                            None => name@.len() == 0,
                        }
                    },
                    Err(StoreError::Domain(ProjectError::StaleRevision)) => {
                        &&& !focus_list
                        &&& *final(self) == old(self).reloaded(loaded)
                        &&& *final(notices) == ui::failed(
                            *old(notices),
                            Text::Message(MessageId::ProjectErrorStale),
                        )
                    },
                    Err(StoreError::Domain(error)) => {
                        &&& !focus_list
                        &&& *final(self) == *old(self)
                        &&& *final(notices) == ui::failed(
                            *old(notices),
                            Text::Message(refusal_message(error)),
                        )
                    },
                    Err(error) => {
                        &&& !focus_list
                        &&& *final(self) == old(self).reloaded(loaded)
                        &&& *final(notices) == ui::failed(
                            *old(notices),
                            Text::Message(failure_message(store_failure(error))),
                        )
                    },
                }
            }),
            focus_list <==> reply is Ok || (reply matches Err(StoreError::Domain(
                ProjectError::AlreadyPresent { .. },
            ))),
            reply matches Ok(project) ==> final(self).selected_id == Some(project.id) && final(self).add_draft
                is None && final(notices).error is None,
            reply matches Err(StoreError::Domain(ProjectError::AlreadyPresent { id }))
                ==> final(self).selected_id == Some(id),
            !focus_list ==> final(self).add_draft == old(self).add_draft && final(notices).error is Some,
    {
        match reply {
            Ok(project) => {
                self.add_draft = None;
                self.reload(loaded);
                self.selected_id = Some(project.id);
                notices.succeed(
                    Text::Filled(
                        MessageId::ProjectAddedStatus,
                        Atom::Value(project.display_name),
                    ),
                );
                true
            },
            Err(StoreError::Domain(ProjectError::AlreadyPresent { id })) => {
                self.add_draft = None;
                self.reload(loaded);
                let name: String = match self.project(id) {
                    Some(summary) => summary.project.display_name.clone(),
                    None => String::new(),
                };
                self.selected_id = Some(id);
                notices.succeed(
                    Text::Filled(MessageId::ProjectDuplicateStatus, Atom::Value(name)),
                );
                true
            },
            Err(StoreError::Domain(ProjectError::StaleRevision)) => {
                self.reload(loaded);
                notices.fail(Text::Message(MessageId::ProjectErrorStale));
                false
            },
            Err(StoreError::Domain(error)) => {
                notices.fail(Text::Message(project_error_message(&error)));
                false
            },
            Err(error) => {
                notices.fail(Text::Message(project_store_error_message(&error)));
                self.reload(loaded);
                false
            },
        }
    }

    /// The revision under which the store is asked to remove a project; without
    /// an open store a notice says so.
    pub fn removal_request(&self, notices: &mut Notices) -> (r: Option<u64>)
        ensures
            r == if self.has_repository {
                self.known_revision()
            } else {
                None
            },
            *final(notices) == if self.has_repository {
                *old(notices)
            } else {
                ui::failed(*old(notices), Text::Message(MessageId::ProjectStoreUnavailable))
            },
            r is Some ==> self.has_repository && (self.snapshot matches Some(snapshot) && r == Some(
                snapshot.revision,
            )),
            !self.has_repository ==> r is None && final(notices).error is Some,
    {
        if !self.has_repository {
            notices.fail(Text::Message(MessageId::ProjectStoreUnavailable));
            return None;
        }
        self.project_revision()
    }

    /// The library once the store has removed a project: it can be restored for
    /// the length of the undo window.
    pub open spec fn without(self, project: Project, now: u64) -> Self {
        ProjectLibraryState {
            pending_removal: Some(
                PendingProjectRemoval {
                    project_id: project.id,
                    name: project.display_name,
                    expires_at: (now + PROJECT_UNDO_WINDOW) as u64,
                },
            ),
            ..self
        }
    }

    /// Takes over the store's answer to removing a project. It can be restored
    /// for the length of the undo window; the store is read again, references to
    /// groups that went with the project are repaired, and only then is the
    /// removal reported, whatever the repair had to report.
    pub fn remove_project<
        P: Fn(&SessionLibraryState, &Vec<SavedSessionPlacement>) -> PlacementReply,
        S: Fn(&SavedState),
    >(
        &mut self,
        sessions: &mut SessionLibraryState,
        saved: &mut SavedState,
        reply: Result<Project, StoreError>,
        loaded: Result<ProjectSnapshot, StoreError>,
        now: u64,
        place: &P,
        persist: &S,
        notices: &mut Notices,
    )
        requires
            now + PROJECT_UNDO_WINDOW <= u64::MAX,
            reply matches Ok(project) ==> group_repair::repairable(
                *place,
                *persist,
                old(self).without(project, now).reloaded(loaded).groups(),
                *old(sessions),
                old(saved).app_attached_sessions@,
            ),
        ensures
            match reply {
                Ok(project) => {
                    &&& *final(self) == old(self).without(project, now).reloaded(loaded)
                    &&& exists|all: bool| #[trigger]
                        group_repair::references_repaired(
                            *place,
                            *persist,
                            final(self).groups(),
                            *old(sessions),
                            old(saved).app_attached_sessions@,
                            *final(sessions),
                            final(saved).app_attached_sessions@,
                            all,
                        )
                    &&& *final(notices) == ui::succeeded(
                        Text::Filled(
                            MessageId::ProjectRemovedStatus,
                            Atom::Value(project.display_name),
                        ),
                    )
                },
                Err(error) => {
                    let stale = error == StoreError::Domain(ProjectError::StaleRevision);
                    &&& *final(self) == if stale {
                        old(self).reloaded(loaded)
                    } else {
                        *old(self)
                    }
                    &&& *final(sessions) == *old(sessions)
                    &&& *final(saved) == *old(saved)
                    &&& *final(notices) == ui::failed(
                        *old(notices),
                        Text::Message(
                            if stale {
                                MessageId::ProjectErrorStale
                            } else {
                                failure_message(store_failure(error))
                            },
                        ),
                    )
                },
            },
            reply matches Ok(project) ==> (final(self).pending_removal matches Some(pending)
                && pending.project_id == project.id && pending.expires_at == now + 10_000)
                && final(notices).error is None,
            reply is Err ==> final(self).pending_removal == old(self).pending_removal && final(notices).error
                is Some,
    {
        match reply {
            Ok(project) => {
                self.pending_removal = Some(
                    PendingProjectRemoval {
                        project_id: project.id,
                        name: project.display_name.clone(),
                        expires_at: now + PROJECT_UNDO_WINDOW,
                    },
                );
                self.reload(loaded);
                let _ = repair_session_group_references(
                    &*self,
                    sessions,
                    saved,
                    place,
                    persist,
                    notices,
                );
                notices.succeed(
                    Text::Filled(
                        MessageId::ProjectRemovedStatus,
                        Atom::Value(project.display_name),
                    ),
                );
            },
            Err(StoreError::Domain(ProjectError::StaleRevision)) => {
                self.reload(loaded);
                notices.fail(Text::Message(MessageId::ProjectErrorStale));
            },
            Err(error) => {
                notices.fail(Text::Message(project_store_error_message(&error)));
            },
        }
    }

    /// Starts undoing a removal. The removal is forgotten in any case; what the
    /// store is asked depends on whether the undo window is still open.
    pub fn undo_project_removal(&mut self, now: u64, notices: &mut Notices) -> (step: UndoStep)
        ensures
            *final(self) == (ProjectLibraryState { pending_removal: None, ..*old(self) }),
            match old(self).pending_removal {
                None => step is Nothing && *final(notices) == *old(notices),
                Some(pending) => if now >= pending.expires_at {
                    &&& step is Expired
                    &&& *final(notices) == ui::informed(
                        *old(notices),
                        Text::Message(MessageId::ProjectUndoExpired),
                    )
                } else if !old(self).has_repository {
                    &&& step is NoStore
                    &&& *final(notices) == ui::failed(
                        *old(notices),
                        Text::Message(MessageId::ProjectStoreUnavailable),
                    )
                } else {
                    &&& *final(notices) == *old(notices)
                    &&& step == match old(self).known_revision() {
                        Some(expected_revision) => UndoStep::Restore {
                            project_id: pending.project_id,
                            expected_revision,
                        },
                        None => UndoStep::NoSnapshot,
                    }
                },
            },
            step matches UndoStep::Restore { project_id, expected_revision } ==> {
                &&& old(self).pending_removal matches Some(pending)
                &&& pending.project_id == project_id
                &&& now < pending.expires_at
                &&& old(self).snapshot matches Some(known)
                &&& known.revision == expected_revision
            },
            step is Expired ==> old(self).pending_removal->0.expires_at <= now,
            final(self).pending_removal is None,
    {
        let (project_id, expires_at): (ProjectId, u64) = match &self.pending_removal {
            None => {
                return UndoStep::Nothing;
            },
            Some(pending) => (pending.project_id, pending.expires_at),
        };
        self.pending_removal = None;
        if now >= expires_at {
            notices.inform(Text::Message(MessageId::ProjectUndoExpired));
            return UndoStep::Expired;
        }
        if !self.has_repository {
            notices.fail(Text::Message(MessageId::ProjectStoreUnavailable));
            return UndoStep::NoStore;
        }
        match self.project_revision() {
            Some(expected_revision) => UndoStep::Restore { project_id, expected_revision },
            None => UndoStep::NoSnapshot,
        }
    }

    /// Takes over the store's answer to restoring a project. Says whether the
    /// list takes the focus.
    pub fn finish_project_restore(
        &mut self,
        reply: Result<Project, StoreError>,
        loaded: Result<ProjectSnapshot, StoreError>,
        notices: &mut Notices,
    ) -> (focus_list: bool)
        ensures
            match reply {
                Ok(project) => {
                    &&& focus_list
                    &&& *final(self) == (ProjectLibraryState {
                        selected_id: Some(project.id),
                        ..old(self).reloaded(loaded)
                    })
                    &&& *final(notices) == ui::succeeded(
                        Text::Filled(
                            MessageId::ProjectRestoredStatus,
                            Atom::Value(project.display_name),
                        ),
                    )
                },
                Err(error) => {
                    &&& !focus_list
                    &&& *final(self) == old(self).reloaded(loaded)
                    &&& *final(notices) == ui::failed(
                        *old(notices),
                        Text::Message(failure_message(store_failure(error))),
                    )
                },
            },
            reply matches Ok(project) ==> final(self).selected_id == Some(project.id),
            focus_list <==> reply is Ok,
    {
        match reply {
            Ok(project) => {
                self.reload(loaded);
                self.selected_id = Some(project.id);
                notices.succeed(
                    Text::Filled(
                        MessageId::ProjectRestoredStatus,
                        Atom::Value(project.display_name),
                    ),
                );
                true
            },
            Err(error) => {
                notices.fail(Text::Message(project_store_error_message(&error)));
                self.reload(loaded);
                false
            },
        }
    }

    /// Forgets a removal whose undo window has closed and says whether it did.
    pub fn process_project_undo_expiry(&mut self, now: u64, notices: &mut Notices) -> (expired:
        bool)
        ensures
            expired == (old(self).pending_removal matches Some(pending) && now
                >= pending.expires_at),
            *final(self) == if expired {
                ProjectLibraryState { pending_removal: None, ..*old(self) }
            } else {
                *old(self)
            },
            *final(notices) == if expired {
                ui::informed(*old(notices), Text::Message(MessageId::ProjectUndoExpired))
            } else {
                *old(notices)
            },
            final(self).pending_removal matches Some(pending) ==> now < pending.expires_at,
            old(self).pending_removal matches Some(pending) ==> now < pending.expires_at ==> final(
                self).pending_removal == old(self).pending_removal,
    {
        let expired: bool = match &self.pending_removal {
            Some(pending) => now >= pending.expires_at,
            None => false,
        };
        if expired {
            self.pending_removal = None;
            notices.inform(Text::Message(MessageId::ProjectUndoExpired));
        }
        expired
    }

    /// Reads the store again on request, repairs references to groups that are
    /// gone, and then reports how the store was found. Says whether the list
    /// takes the focus.
    pub fn retry_project_library<
        P: Fn(&SessionLibraryState, &Vec<SavedSessionPlacement>) -> PlacementReply,
        S: Fn(&SavedState),
    >(
        &mut self,
        sessions: &mut SessionLibraryState,
        saved: &mut SavedState,
        loaded: Result<ProjectSnapshot, StoreError>,
        place: &P,
        persist: &S,
        notices: &mut Notices,
    ) -> (focus_list: bool)
        requires
            group_repair::repairable(
                *place,
                *persist,
                old(self).reloaded(loaded).groups(),
                *old(sessions),
                old(saved).app_attached_sessions@,
            ),
        ensures
            *final(self) == old(self).reloaded(loaded),
            focus_list == (final(self).load_state == ProjectLibraryLoadState::Ready),
            exists|all: bool|
                {
                    &&& #[trigger] group_repair::references_repaired(
                        *place,
                        *persist,
                        final(self).groups(),
                        *old(sessions),
                        old(saved).app_attached_sessions@,
                        *final(sessions),
                        final(saved).app_attached_sessions@,
                        all,
                    )
                    &&& *final(notices) == if focus_list {
                        ui::succeeded(Text::Message(MessageId::ProjectsReadyStatus))
                    } else {
                        ui::failed(
                            group_repair::repair_reported(
                                *old(notices),
                                group_repair::lost_sessions(
                                    old(saved).app_attached_sessions@,
                                    final(self).groups(),
                                ).len(),
                                all,
                            ),
                            Text::Message(
                                match final(self).store_notice() {
                                    Some(message) => message,
                                    None => MessageId::ProjectStoreUnavailable,
                                },
                            ),
                        )
                    }
                },
            old(self).has_repository && loaded is Ok ==> focus_list,
            focus_list ==> final(notices).error is None,
            !focus_list ==> final(notices).error is Some,
    {
        self.reload(loaded);
        let _ = repair_session_group_references(&*self, sessions, saved, place, persist, notices);
        if self.load_state == ProjectLibraryLoadState::Ready {
            notices.succeed(Text::Message(MessageId::ProjectsReadyStatus));
            true
        } else {
            let message: MessageId = match self.error_message() {
                Some(message) => message,
                None => MessageId::ProjectStoreUnavailable,
            };
            notices.fail(Text::Message(message));
            false
        }
    }
}

/// A removed project can be restored for exactly ten seconds: at every moment
/// before the window closes nothing is forgotten, from then on it is.
pub proof fn law_undo_window_is_exact(pending: PendingProjectRemoval, removed_at: u64, now: u64)
    requires
        pending.expires_at == removed_at + PROJECT_UNDO_WINDOW,
    ensures
        now < removed_at + 10_000 <==> !(now >= pending.expires_at),
{
}

/// A new validation never waits under the generation of the one before it, so
/// that an answer to an abandoned validation is told from the awaited one.
pub proof fn law_generations_differ(generation: u64)
    ensures
        next_generation(generation) != generation,
        next_generation(generation) > 0,
{
}

/// What can be asked for in the projects view.
#[derive(Clone, Copy, Debug, PartialEq, Eq, Structural)]
pub enum ProjectAction {
    ChooseFolder,
    RetryLibrary,
    Select(ProjectId),
    NewSession(ProjectId),
    NewWorktree(ProjectId),
    Remove(ProjectId),
    UndoRemoval,
    ReviewWorktreeRecovery(u128),
    ConfirmAdd,
    CancelAdd,
}

/// One project in the list.
#[derive(Debug)]
pub struct ProjectRowView {
    pub key: u64,
    pub name: String,
    pub root: String,
    pub border: Tone,
    pub status: MessageId,
    pub status_tone: Tone,
    pub status_icon: Icon,
    pub select: ProjectAction,
    pub buttons: Vec<ButtonView<ProjectAction>>,
    pub footnote: MessageId,
}

#[derive(Debug)]
pub enum ProjectListView {
    Empty {
        icon: Icon,
        title: MessageId,
        description: MessageId,
        add: ButtonView<ProjectAction>,
        safety: MessageId,
        local_only: MessageId,
    },
    Rows(Vec<ProjectRowView>),
}

/// The buttons of a project: retrying is offered where the project cannot be
/// used, launching is enabled where it can.
pub open spec fn project_buttons(summary: ProjectSummary) -> Seq<ButtonView<ProjectAction>> {
    let id = summary.project.id;
    let key = ids::folded_key(id.value);
    let unusable = summary.status != ProjectStatus::Available;
    Seq::empty() + lists::optional(
        unusable,
        ui::plain_button(
            "project-retry",
            key,
            Text::Message(MessageId::CommonRetry),
            Some(Icon::Redo2),
            Emphasis::Plain,
            ProjectAction::RetryLibrary,
        ),
    ) + seq![
        ui::disabled_if(
            ui::plain_button(
                "project-new-session",
                key,
                Text::Message(MessageId::NewSessionAction),
                Some(Icon::SquareTerminal),
                Emphasis::Primary,
                ProjectAction::NewSession(id),
            ),
            unusable,
        ),
    ] + seq![
        ui::disabled_if(
            ui::plain_button(
                "project-new-worktree",
                key,
                Text::Message(MessageId::WorktreeNewAction),
                Some(Icon::Plus),
                Emphasis::Plain,
                ProjectAction::NewWorktree(id),
            ),
            unusable,
        ),
    ] + seq![
        ui::plain_button(
            "project-remove",
            key,
            Text::Message(MessageId::ProjectRemoveAction),
            Some(Icon::Delete),
            Emphasis::Danger,
            ProjectAction::Remove(id),
        ),
    ]
}

/// The row shows the project.
pub open spec fn shows_project(
    row: ProjectRowView,
    summary: ProjectSummary,
    selected: Option<ProjectId>,
) -> bool {
    &&& row.key == ids::folded_key(summary.project.id.value)
    &&& row.name == summary.project.display_name
    &&& row.root == summary.project.canonical_root
    &&& row.border == if selected == Some(summary.project.id) {
        Tone::FocusRing
    } else {
        Tone::Border
    }
    &&& (row.status, row.status_tone, row.status_icon) == status_presentation(summary.status)
    &&& row.select == ProjectAction::Select(summary.project.id)
    &&& row.buttons@ == project_buttons(summary)
    &&& row.footnote == MessageId::ProjectFilesStay
}

fn project_row(summary: &ProjectSummary, selected: Option<ProjectId>) -> (row: ProjectRowView)
    ensures
        shows_project(row, *summary, selected),
{
    let id: ProjectId = summary.project.id;
    let key: u64 = project_element_key(id);
    let unusable: bool = summary.status != ProjectStatus::Available;
    let (status, status_tone, status_icon): (MessageId, Tone, Icon) = project_status_presentation(
        summary.status,
    );
    let mut buttons: Vec<ButtonView<ProjectAction>> = Vec::new();
    lists::push_if(
        &mut buttons,
        unusable,
        ui::button(
            "project-retry",
            key,
            Text::Message(MessageId::CommonRetry),
            Some(Icon::Redo2),
            Emphasis::Plain,
            ProjectAction::RetryLibrary,
        ),
    );
    lists::push_one(
        &mut buttons,
        ui::button(
            "project-new-session",
            key,
            Text::Message(MessageId::NewSessionAction),
            Some(Icon::SquareTerminal),
            Emphasis::Primary,
            ProjectAction::NewSession(id),
        ).with_disabled(unusable),
    );
    lists::push_one(
        &mut buttons,
        ui::button(
            "project-new-worktree",
            key,
            Text::Message(MessageId::WorktreeNewAction),
            Some(Icon::Plus),
            Emphasis::Plain,
            ProjectAction::NewWorktree(id),
        ).with_disabled(unusable),
    );
    lists::push_one(
        &mut buttons,
        ui::button(
            "project-remove",
            key,
            Text::Message(MessageId::ProjectRemoveAction),
            Some(Icon::Delete),
            Emphasis::Danger,
            ProjectAction::Remove(id),
        ),
    );
    ProjectRowView {
        key,
        name: summary.project.display_name.clone(),
        root: summary.project.canonical_root.clone(),
        border: if selected == Some(id) {
            Tone::FocusRing
        } else {
            Tone::Border
        },
        status,
        status_tone,
        status_icon,
        select: ProjectAction::Select(id),
        buttons,
        footnote: MessageId::ProjectFilesStay,
    }
}

impl ProjectLibraryState {
    /// The list shows the projects, or, where there are none, the invitation to
    /// add one.
    pub open spec fn shows_list(self, list: ProjectListView) -> bool {
        if self.projects().len() == 0 {
            list == (ProjectListView::Empty {
                icon: Icon::FolderOpen,
                title: MessageId::ProjectsEmptyTitle,
                description: MessageId::ProjectsEmptyDescription,
                add: ui::plain_button(
                    "projects-empty-add",
                    0,
                    Text::Message(MessageId::ProjectsAddAction),
                    Some(Icon::Plus),
                    Emphasis::Primary,
                    ProjectAction::ChooseFolder,
                ),
                safety: MessageId::ProjectsFolderSafety,
                local_only: MessageId::ProjectsLocalOnly,
            })
        } else {
            &&& list matches ProjectListView::Rows(rows)
            &&& rows@.len() == self.projects().len()
            &&& forall|i: int|
                0 <= i < rows@.len() ==> shows_project(
                    #[trigger] rows@[i],
                    self.projects()[i],
                    self.selected_id,
                )
        }
    }

    /// The list of projects, or what stands in its place where there are none.
    pub fn project_list_view(&self) -> (r: ProjectListView)
        ensures
            self.shows_list(r),
    {
        let mut rows: Vec<ProjectRowView> = Vec::new();
        match &self.snapshot {
            None => {},
            Some(snapshot) => {
                let mut i: usize = 0;
                while i < snapshot.projects.len()
                    invariant
                        i <= snapshot.projects@.len(),
                        self.projects() == snapshot.projects@,
                        rows@.len() == i,
                        forall|k: int|
                            0 <= k < i ==> shows_project(
                                #[trigger] rows@[k],
                                self.projects()[k],
                                self.selected_id,
                            ),
                    decreases snapshot.projects@.len() - i,
                {
                    rows.push(project_row(&snapshot.projects[i], self.selected_id));
                    i += 1;
                }
            },
        }
        if rows.len() == 0 {
            return ProjectListView::Empty {
                icon: Icon::FolderOpen,
                title: MessageId::ProjectsEmptyTitle,
                description: MessageId::ProjectsEmptyDescription,
                add: ui::button(
                    "projects-empty-add",
                    0,
                    Text::Message(MessageId::ProjectsAddAction),
                    Some(Icon::Plus),
                    Emphasis::Primary,
                    ProjectAction::ChooseFolder,
                ),
                safety: MessageId::ProjectsFolderSafety,
                local_only: MessageId::ProjectsLocalOnly,
            };
        }
        ProjectListView::Rows(rows)
    }
}

/// The main area of the projects view.
#[derive(Debug)]
pub enum ProjectsContent {
    Loading(MessageId),
    Failed { message: MessageId, retry: ButtonView<ProjectAction> },
    Ready { list: ProjectListView, sidebar_project: Option<ProjectId> },
}

/// A line that offers one thing to do.
#[derive(Debug)]
pub struct ProjectBanner {
    pub id: &'static str,
    pub message: Text,
    pub button: ButtonView<ProjectAction>,
}

/// The folder that is to be added, before or after its validation.
#[derive(Debug)]
pub struct ProjectAddView {
    pub id: &'static str,
    pub title: MessageId,
    pub description: Text,
    pub label_field: Option<MessageId>,
    pub confirm: Option<ButtonView<ProjectAction>>,
    pub cancel: ButtonView<ProjectAction>,
    pub safety: Option<MessageId>,
}

#[derive(Debug)]
pub struct ProjectsView {
    pub title: MessageId,
    pub subtitle: MessageId,
    pub add: ButtonView<ProjectAction>,
    pub recovery: Option<MessageId>,
    pub undo: Option<ProjectBanner>,
    pub add_review: Option<ProjectAddView>,
    pub validation: Option<ProjectAddView>,
    pub worktree_recovery: Option<ProjectBanner>,
    pub content: ProjectsContent,
}

pub open spec fn add_review_of(draft: ProjectAddDraft) -> ProjectAddView {
    ProjectAddView {
        id: "project-add-review",
        title: MessageId::ProjectReviewTitle,
        description: Text::Filled(
            MessageId::ProjectReviewDescription,
            Atom::Value(draft.canonical_root),
        ),
        label_field: Some(MessageId::ProjectLabelField),
        confirm: Some(
            ui::plain_button(
                "project-add-confirm",
                0,
                Text::Message(MessageId::ProjectAddConfirm),
                None,
                Emphasis::Primary,
                ProjectAction::ConfirmAdd,
            ),
        ),
        cancel: ui::plain_button(
            "project-add-cancel",
            0,
            Text::Message(MessageId::CommonCancel),
            None,
            Emphasis::Plain,
            ProjectAction::CancelAdd,
        ),
        safety: Some(MessageId::ProjectsFolderSafety),
    }
}

pub open spec fn validation_of(validation: ProjectAddValidation) -> ProjectAddView {
    ProjectAddView {
        id: "project-validation",
        title: MessageId::ProjectValidating,
        description: Text::Filled(
            MessageId::ProjectReviewDescription,
            Atom::Value(validation.selected_root),
        ),
        label_field: None,
        confirm: None,
        cancel: ui::plain_button(
            "project-validation-cancel",
            0,
            Text::Message(MessageId::CommonCancel),
            None,
            Emphasis::Plain,
            ProjectAction::CancelAdd,
        ),
        safety: None,
    }
}

pub open spec fn undo_banner_of(pending: PendingProjectRemoval) -> ProjectBanner {
    ProjectBanner {
        id: "project-undo-banner",
        message: Text::Filled(MessageId::ProjectRemovedStatus, Atom::Value(pending.name)),
        button: ui::plain_button(
            "project-undo",
            0,
            Text::Message(MessageId::ProjectUndoAction),
            Some(Icon::Undo2),
            Emphasis::Plain,
            ProjectAction::UndoRemoval,
        ),
    }
}

pub open spec fn worktree_banner_of(plan: u128) -> ProjectBanner {
    ProjectBanner {
        id: "worktree-recovery-banner",
        message: Text::Message(MessageId::WorktreeRecoveryBanner),
        button: ui::plain_button(
            "worktree-review-recovery",
            0,
            Text::Message(MessageId::WorktreeReviewRecoveryAction),
            None,
            Emphasis::Plain,
            ProjectAction::ReviewWorktreeRecovery(plan),
        ),
    }
}

/// The projects view around its list.
pub fn projects_view(library: &ProjectLibraryState) -> (r: ProjectsView)
    ensures
        r.title == MessageId::ProjectsTitle,
        r.subtitle == MessageId::ProjectsSubtitle,
        r.add == ui::disabled_if(
            ui::plain_button(
                "projects-add",
                0,
                Text::Message(MessageId::ProjectsAddAction),
                Some(Icon::Plus),
                Emphasis::Primary,
                ProjectAction::ChooseFolder,
            ),
            library.snapshot matches Some(snapshot) && snapshot.read_only,
        ),
        r.recovery == library.store_notice(),
        r.undo == match library.pending_removal {
            Some(pending) => Some(undo_banner_of(pending)),
            None => None,
        },
        r.add_review == match library.add_draft {
            Some(draft) => Some(add_review_of(draft)),
            None => None,
        },
        r.validation == match library.add_validation {
            Some(validation) => Some(validation_of(validation)),
            None => None,
        },
        r.worktree_recovery == match library.snapshot {
            Some(snapshot) if snapshot.worktree_intents@.len() > 0 => Some(
                worktree_banner_of(snapshot.worktree_intents@[0]),
            ),
            _ => None,
        },
        match library.load_state {
            ProjectLibraryLoadState::Loading => r.content == ProjectsContent::Loading(
                MessageId::ProjectsLoading,
            ),
            ProjectLibraryLoadState::Failed(failure) => r.content == (ProjectsContent::Failed {
                message: failure_message(failure),
                retry: ui::plain_button(
                    "projects-store-retry",
                    0,
                    Text::Message(MessageId::CommonRetry),
                    Some(Icon::Redo2),
                    Emphasis::Plain,
                    ProjectAction::RetryLibrary,
                ),
            }),
            ProjectLibraryLoadState::Ready => r.content matches ProjectsContent::Ready {
                list,
                sidebar_project,
            } && sidebar_project == library.selected_id && library.shows_list(list),
        },
        r.add.disabled ==> (library.snapshot matches Some(known) && known.read_only),
        r.undo is Some <==> library.pending_removal is Some,
        r.add_review is Some <==> library.add_draft is Some,
        r.content is Ready <==> library.load_state is Ready,
        r.content is Failed <==> library.load_state is Failed,
{
    let read_only: bool = match &library.snapshot {
        Some(snapshot) => snapshot.read_only,
        None => false,
    };
    let content: ProjectsContent = match library.load_state {
        ProjectLibraryLoadState::Loading => ProjectsContent::Loading(MessageId::ProjectsLoading),
        ProjectLibraryLoadState::Failed(failure) => ProjectsContent::Failed {
            message: failure_label(failure),
            retry: ui::button(
                "projects-store-retry",
                0,
                Text::Message(MessageId::CommonRetry),
                Some(Icon::Redo2),
                Emphasis::Plain,
                ProjectAction::RetryLibrary,
            ),
        },
        ProjectLibraryLoadState::Ready => ProjectsContent::Ready {
            list: library.project_list_view(),
            sidebar_project: library.selected_id,
        },
    };
    ProjectsView {
        title: MessageId::ProjectsTitle,
        subtitle: MessageId::ProjectsSubtitle,
        add: ui::button(
            "projects-add",
            0,
            Text::Message(MessageId::ProjectsAddAction),
            Some(Icon::Plus),
            Emphasis::Primary,
            ProjectAction::ChooseFolder,
        ).with_disabled(read_only),
        recovery: library.error_message(),
        undo: match &library.pending_removal {
            Some(pending) => Some(
                ProjectBanner {
                    id: "project-undo-banner",
                    message: Text::Filled(
                        MessageId::ProjectRemovedStatus,
                        Atom::Value(pending.name.clone()),
                    ),
                    button: ui::button(
                        "project-undo",
                        0,
                        Text::Message(MessageId::ProjectUndoAction),
                        Some(Icon::Undo2),
                        Emphasis::Plain,
                        ProjectAction::UndoRemoval,
                    ),
                },
            ),
            None => None,
        },
        add_review: match &library.add_draft {
            Some(draft) => Some(
                ProjectAddView {
                    id: "project-add-review",
                    title: MessageId::ProjectReviewTitle,
                    description: Text::Filled(
                        MessageId::ProjectReviewDescription,
                        Atom::Value(draft.canonical_root.clone()),
                    ),
                    label_field: Some(MessageId::ProjectLabelField),
                    confirm: Some(
                        ui::button(
                            "project-add-confirm",
                            0,
                            Text::Message(MessageId::ProjectAddConfirm),
                            None,
                            Emphasis::Primary,
                            ProjectAction::ConfirmAdd,
                        ),
                    ),
                    cancel: ui::button(
                        "project-add-cancel",
                        0,
                        Text::Message(MessageId::CommonCancel),
                        None,
                        Emphasis::Plain,
                        ProjectAction::CancelAdd,
                    ),
                    safety: Some(MessageId::ProjectsFolderSafety),
                },
            ),
            None => None,
        },
        validation: match &library.add_validation {
            Some(validation) => Some(
                ProjectAddView {
                    id: "project-validation",
                    title: MessageId::ProjectValidating,
                    description: Text::Filled(
                        MessageId::ProjectReviewDescription,
                        Atom::Value(validation.selected_root.clone()),
                    ),
                    label_field: None,
                    confirm: None,
                    cancel: ui::button(
                        "project-validation-cancel",
                        0,
                        Text::Message(MessageId::CommonCancel),
                        None,
                        Emphasis::Plain,
                        ProjectAction::CancelAdd,
                    ),
                    safety: None,
                },
            ),
            None => None,
        },
        worktree_recovery: match &library.snapshot {
            Some(snapshot) => {
                if snapshot.worktree_intents.len() > 0 {
                    Some(
                        ProjectBanner {
                            id: "worktree-recovery-banner",
                            message: Text::Message(MessageId::WorktreeRecoveryBanner),
                            button: ui::button(
                                "worktree-review-recovery",
                                0,
                                Text::Message(MessageId::WorktreeReviewRecoveryAction),
                                None,
                                Emphasis::Plain,
                                ProjectAction::ReviewWorktreeRecovery(snapshot.worktree_intents[0]),
                            ),
                        },
                    )
                } else {
                    None
                }
            },
            None => None,
        },
        content,
    }
}

/// Reading the store gives its projects, groups and revision, keeps a selection
/// exactly where its project is still there, and is ready; a store that cannot be
/// read shows nothing of what was known before and says what is wrong.
pub proof fn law_reading_shows_the_store(
    library: ProjectLibraryState,
    loaded: Result<ProjectSnapshot, StoreError>,
)
    ensures
        ({
            let after = library.reloaded(loaded);
            &&& after.load_state is Ready <==> library.has_repository && loaded is Ok
            &&& after.load_state is Ready ==> {
                &&& after.projects() == loaded->Ok_0.projects@
                &&& after.groups() == loaded->Ok_0.groups@
                &&& after.known_revision() == Some(loaded->Ok_0.revision)
                &&& after.selected_id matches Some(id) ==> library.selected_id == Some(id)
                    && exists|i: int|
                    0 <= i < after.projects().len() && (#[trigger] after.projects()[i]).project.id
                        == id
                &&& after.selected_id is None ==> (library.selected_id matches Some(id)
                    ==> forall|i: int|
                    0 <= i < after.projects().len() ==> (
                    #[trigger] after.projects()[i]).project.id != id)
            }
            &&& !(after.load_state is Ready) ==> after.projects().len() == 0
                && after.known_revision() is None && after.load_state is Failed
            &&& library.has_repository ==> (loaded matches Err(error) ==> {
                &&& after.load_state == ProjectLibraryLoadState::Failed(ProjectStoreFailure::Newer)
                    <==> error is StoreNewer
                &&& after.load_state == ProjectLibraryLoadState::Failed(
                    ProjectStoreFailure::Corrupt,
                ) <==> error is Corrupt || error is UnsafeEntry || error is TooLarge
            })
            &&& after.pending_removal == library.pending_removal
            &&& after.add_draft == library.add_draft
            &&& after.has_repository == library.has_repository
        }),
{
    if let Ok(snapshot) = loaded {
        if let Some(id) = library.selected_id {
            let wanted = is_project(id);
            lists::lemma_first_index_bounds(snapshot.projects@, wanted);
            assert forall|i: int| 0 <= i < snapshot.projects@.len() implies wanted(
                #[trigger] snapshot.projects@[i],
            ) == (snapshot.projects@[i].project.id == id) by {}
        }
    }
}

/// A project is found exactly where the store holds one of that identity, and so is
/// a group; what is found has that identity.
pub proof fn law_projects_and_groups_are_found_by_identity(
    library: ProjectLibraryState,
    project_id: ProjectId,
    group_id: GroupId,
)
    ensures
        library.found(project_id) is Some <==> exists|i: int|
            0 <= i < library.projects().len() && (#[trigger] library.projects()[i]).project.id
                == project_id,
        library.found(project_id) matches Some(summary) ==> summary.project.id == project_id
            && library.projects().contains(summary),
        library.found_group(group_id) is Some <==> exists|i: int|
            0 <= i < library.groups().len() && (#[trigger] library.groups()[i]).id == group_id,
        library.found_group(group_id) matches Some(group) ==> group.id == group_id
            && library.groups().contains(group),
{
    let wanted = is_project(project_id);
    let named = is_group(group_id);
    lists::lemma_first_index_bounds(library.projects(), wanted);
    lists::lemma_first_index_bounds(library.groups(), named);
    assert forall|i: int| 0 <= i < library.projects().len() implies wanted(
        #[trigger] library.projects()[i],
    ) == (library.projects()[i].project.id == project_id) by {}
    assert forall|i: int| 0 <= i < library.groups().len() implies named(
        #[trigger] library.groups()[i],
    ) == (library.groups()[i].id == group_id) by {}
}

/// The groups of a project are exactly those that belong to it, by position.
pub proof fn law_groups_are_listed_by_position(
    library: ProjectLibraryState,
    project_id: ProjectId,
    group: Group,
    i: int,
    j: int,
)
    ensures
        library.groups_of(project_id).contains(group) <==> library.groups().contains(group)
            && group.project_id == project_id,
        0 <= i < j < library.groups_of(project_id).len() ==> library.groups_of(
            project_id,
        )[i].position <= library.groups_of(project_id)[j].position,
{
    let list = lists::kept(library.groups(), in_project(project_id));
    assert(lists::weak_order(group_before()));
    lists::law_stable_sort(list, group_before());
    lists::lemma_sorted_members(list, group_before(), group);
    lists::lemma_kept_members(library.groups(), in_project(project_id), group);
    if 0 <= i < j < library.groups_of(project_id).len() {
        let sorted = library.groups_of(project_id);
        assert(!group_before()(sorted[j], sorted[i]));
    }
}

/// A removed project is remembered under its own identity and name, for the length of
/// the undo window from its removal on.
pub proof fn law_a_removal_remembers_its_project(
    library: ProjectLibraryState,
    project: Project,
    now: u64,
)
    requires
        now + 10_000 <= u64::MAX,
    ensures
        library.without(project, now).pending_removal matches Some(pending) && {
            &&& pending.project_id == project.id
            &&& pending.name == project.display_name
            &&& pending.expires_at - now == 10_000
        },
        library.without(project, now).snapshot == library.snapshot,
{
}

/// A failed store is named by what is wrong with it, a recovered one is mentioned,
/// and a healthy one is not.
pub proof fn law_the_store_is_mentioned_where_it_matters(library: ProjectLibraryState)
    ensures
        library.store_notice() == Some(MessageId::ProjectStoreCorrupt) <==> library.load_state
            == ProjectLibraryLoadState::Failed(ProjectStoreFailure::Corrupt),
        library.store_notice() == Some(MessageId::ProjectStoreNewer) <==> library.load_state
            == ProjectLibraryLoadState::Failed(ProjectStoreFailure::Newer),
        library.store_notice() == Some(MessageId::ProjectStoreUnavailable) <==> library.load_state
            == ProjectLibraryLoadState::Failed(ProjectStoreFailure::Unavailable),
        library.store_notice() == Some(MessageId::ProjectStoreRecovered) <==> !(
        library.load_state is Failed) && (library.snapshot matches Some(snapshot)
            && snapshot.health == StoreHealth::RecoveredLastGood),
{
}

/// Every refused folder is explained by its own reason.
pub proof fn law_refused_folders_are_explained(error: ProjectError)
    ensures
        refusal_message(error) == MessageId::ProjectErrorEmptyPath <==> error is EmptyPath
            || error is PathContainsNul,
        refusal_message(error) == MessageId::ProjectErrorPermissionDenied
            <==> error is PermissionDenied,
        refusal_message(error) == MessageId::ProjectErrorUnavailable <==> error is Unavailable
            || error is PathChanged || error is PathValidation,
        refusal_message(error) == MessageId::ProjectErrorNotDirectory <==> error is NotDirectory,
        refusal_message(error) == MessageId::ProjectErrorPathTooLong <==> error is PathTooLong
            || error is NonUnicodePath,
        refusal_message(error) == MessageId::ProjectErrorInvalidLabel <==> error is EmptyLabel
            || error is LabelContainsNul || error is LabelTooLong,
        refusal_message(error) == MessageId::ProjectErrorStale <==> error is StaleRevision,
{
}

/// A project that is available looks as such, and only it does; a refused one looks
/// more alarming than an absent one.
pub proof fn law_project_states_look_different(status: ProjectStatus)
    ensures
        ({
            let (message, tone, icon) = status_presentation(status);
            &&& message == MessageId::ProjectStatusAvailable <==> status is Available
            &&& message == MessageId::ProjectStatusPermissionDenied <==> status is PermissionDenied
            &&& message == MessageId::ProjectStatusUnavailable <==> status is Unavailable
            &&& tone is Success <==> status is Available
            &&& tone is Danger <==> status is PermissionDenied
            &&& icon is Check <==> status is Available
        }),
{
}

/// The buttons of a project act on that very project. Sessions and worktrees are
/// started only where it is available, a retry is offered only where it is not, and
/// it can always be removed.
pub proof fn law_project_buttons_act_on_their_project(summary: ProjectSummary, i: int)
    requires
        0 <= i < project_buttons(summary).len(),
    ensures
        ({
            let buttons = project_buttons(summary);
            let id = summary.project.id;
            let available = summary.status == ProjectStatus::Available;
            &&& {
                ||| buttons[i].action == ProjectAction::RetryLibrary && !available
                ||| buttons[i].action == ProjectAction::NewSession(id)
                ||| buttons[i].action == ProjectAction::NewWorktree(id)
                ||| buttons[i].action == ProjectAction::Remove(id)
            }
            &&& buttons[i].disabled <==> !available && (buttons[i].action is NewSession
                || buttons[i].action is NewWorktree)
            &&& buttons.last().action is Remove && buttons.last().emphasis is Danger
            &&& buttons.len() == if available {
                3nat
            } else {
                4nat
            }
        }),
{
}

/// The list shows every project once, in order, under its own name and folder;
/// choosing a row selects its project.
pub proof fn law_the_list_shows_every_project(
    library: ProjectLibraryState,
    list: ProjectListView,
    i: int,
)
    requires
        library.shows_list(list),
        0 <= i < library.projects().len(),
    ensures
        list matches ProjectListView::Rows(rows) && {
            let project = library.projects()[i].project;
            &&& rows@.len() == library.projects().len()
            &&& rows@[i].name == project.display_name
            &&& rows@[i].root == project.canonical_root
            &&& rows@[i].select == ProjectAction::Select(project.id)
            &&& rows@[i].border is FocusRing <==> library.selected_id == Some(project.id)
            &&& rows@[i].status == MessageId::ProjectStatusAvailable
                <==> library.projects()[i].status is Available
        },
{
    if let ProjectListView::Rows(rows) = list {
        assert(shows_project(rows@[i], library.projects()[i], library.selected_id));
    }
}

/// The banner of a removal offers to take it back, the review of a folder to add it
/// and to leave it, and a folder that is being looked at only to leave it.
pub proof fn law_banners_offer_their_own_step(
    pending: PendingProjectRemoval,
    draft: ProjectAddDraft,
    validation: ProjectAddValidation,
    plan: u128,
)
    ensures
        undo_banner_of(pending).button.action is UndoRemoval,
        undo_banner_of(pending).message == Text::Filled(
            MessageId::ProjectRemovedStatus,
            Atom::Value(pending.name),
        ),
        add_review_of(draft).confirm matches Some(button) && button.action is ConfirmAdd
            && !button.disabled,
        add_review_of(draft).cancel.action is CancelAdd,
        add_review_of(draft).description == Text::Filled(
            MessageId::ProjectReviewDescription,
            Atom::Value(draft.canonical_root),
        ),
        validation_of(validation).confirm is None,
        validation_of(validation).cancel.action is CancelAdd,
        worktree_banner_of(plan).button.action == ProjectAction::ReviewWorktreeRecovery(plan),
{
}

/// Each failure of the store is told in words of its own.
pub proof fn law_each_project_store_failure_has_its_words(failure: ProjectStoreFailure)
    ensures
        failure_message(failure) == MessageId::ProjectStoreCorrupt <==> failure is Corrupt,
        failure_message(failure) == MessageId::ProjectStoreNewer <==> failure is Newer,
        failure_message(failure) == MessageId::ProjectStoreUnavailable <==> failure is Unavailable,
{
}

/// A row shows its project: name, root, its own buttons, and a ring exactly where
/// it is selected.
pub proof fn law_project_rows_show_their_project(
    row: ProjectRowView,
    summary: ProjectSummary,
    selected: Option<ProjectId>,
)
    requires
        shows_project(row, summary, selected),
    ensures
        row.name == summary.project.display_name,
        row.root == summary.project.canonical_root,
        row.border is FocusRing <==> selected == Some(summary.project.id),
        row.border is Border <==> selected != Some(summary.project.id),
        row.select == ProjectAction::Select(summary.project.id),
        row.footnote == MessageId::ProjectFilesStay,
{
}

/// A project's buttons and banners are called by what they do.
pub proof fn law_project_buttons_are_called_by_what_they_do(
    summary: ProjectSummary,
    i: int,
    pending: PendingProjectRemoval,
    draft: ProjectAddDraft,
    validation: ProjectAddValidation,
    plan: u128,
)
    requires
        0 <= i < project_buttons(summary).len(),
    ensures
        ({
            let b = project_buttons(summary)[i];
            &&& b.label == Text::Message(MessageId::CommonRetry) <==> b.action is RetryLibrary
            &&& b.label == Text::Message(MessageId::NewSessionAction) <==> b.action is NewSession
            &&& b.label == Text::Message(MessageId::WorktreeNewAction) <==> b.action is NewWorktree
            &&& b.label == Text::Message(MessageId::ProjectRemoveAction) <==> b.action is Remove
        }),
        undo_banner_of(pending).message == Text::Filled(
            MessageId::ProjectRemovedStatus,
            Atom::Value(pending.name),
        ),
        undo_banner_of(pending).button.label == Text::Message(MessageId::ProjectUndoAction),
        add_review_of(draft).title == MessageId::ProjectReviewTitle,
        add_review_of(draft).label_field == Some(MessageId::ProjectLabelField),
        add_review_of(draft).safety == Some(MessageId::ProjectsFolderSafety),
        add_review_of(draft).description == Text::Filled(
            MessageId::ProjectReviewDescription,
            Atom::Value(draft.canonical_root),
        ),
        validation_of(validation).title == MessageId::ProjectValidating,
        validation_of(validation).description == Text::Filled(
            MessageId::ProjectReviewDescription,
            Atom::Value(validation.selected_root),
        ),
        validation_of(validation).confirm is None && validation_of(validation).label_field is None,
        worktree_banner_of(plan).message == Text::Message(MessageId::WorktreeRecoveryBanner),
        worktree_banner_of(plan).button.label == Text::Message(
            MessageId::WorktreeReviewRecoveryAction,
        ),
{
}

/// What is not refused for a reason of its own is refused in general words.
pub proof fn law_other_refusals_are_told_in_general(error: ProjectError)
    ensures
        refusal_message(error) == MessageId::ProjectErrorGeneric <==> (error is AlreadyPresent
            || error is ResourceLimit || error is RevisionOverflow || error is Store),
{
}

} // verus!
