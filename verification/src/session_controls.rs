//! The project and session surface as assistive technology sees it: its
//! controls, its rows, its dialog, and what a command does.
use vstd::prelude::*;

use crate::domain::{
    HostedSession, ProjectStatus, ResumeError, SessionLaunchRoute,
};
use crate::ids;
use crate::ids::{
    accessible_group_id, accessible_group_row_id, accessible_project_id, accessible_project_row_id,
    accessible_session_id, accessible_session_row_id, AccessibleRowId, AccessibleRowKind, GroupId,
    HostedSessionId, ProjectId,
};
use crate::lists;
use crate::messages::{MessageId, Text};
use crate::projects;
use crate::projects::{
    Group, ProjectLibraryLoadState, ProjectLibraryState, ProjectStoreFailure, ProjectSummary,
};
use crate::runtimes::RuntimeRegistry;
use crate::saved_state;
use crate::saved_state::{GroupDestination, SavedAppAttachedSession, SavedState};
use crate::session_labels;
use crate::session_labels::{project_status_message_id, session_state_message_id};
use crate::session_library::{
    SessionLibraryFilter, SessionLibraryRecovery, SessionLibraryState, SessionLibraryView,
};
use crate::session_resume;
use crate::session_resume::{evaluated_resume_projection, SessionResumeProjection};
use crate::session_sidebar;
use crate::session_sidebar::{
    listed_index, sessions_in_destination, SessionSidebarState,
};
use crate::text;
use crate::ui::SemanticActionValue;

verus! {

#[derive(Clone, Copy, Debug, PartialEq, Eq, Structural)]
pub enum ProductSessionScreen {
    Projects,
    Sessions,
}

#[derive(Clone, Copy, Debug, PartialEq, Eq, Structural)]
pub enum ProductMoveDirection {
    Up,
    Down,
}

/// By how many places a direction moves.
pub fn product_move_delta(direction: ProductMoveDirection) -> (r: isize)
    ensures
        r == match direction {
            ProductMoveDirection::Up => -1isize,
            ProductMoveDirection::Down => 1isize,
        },
        direction is Up <==> r < 0,
        r == 1 || r == -1,
{
    match direction {
        ProductMoveDirection::Up => -1,
        ProductMoveDirection::Down => 1,
    }
}

#[derive(Clone, Copy, Debug, PartialEq, Eq, Structural)]
pub enum ProductSessionAction {
    RetryProjects,
    AddProject,
    SetProjectName,
    ConfirmProjectAdd,
    CancelProjectAdd,
    RemoveProject(AccessibleRowId),
    UndoProjectRemoval,
    AddGroup(AccessibleRowId),
    RenameGroup(AccessibleRowId),
    SetGroupName,
    SaveGroup,
    CancelGroup,
    ToggleGroup(AccessibleRowId),
    MoveGroup(AccessibleRowId, ProductMoveDirection),
    RemoveGroup(AccessibleRowId),
    RemoveGroupTo(AccessibleRowId, Option<AccessibleRowId>),
    UndoOrganization,
    ShowActiveSessions,
    ShowArchivedSessions,
    FilterAllSessions,
    FilterUnreadSessions,
    FilterPinnedSessions,
    RenameSession(AccessibleRowId),
    SetSessionTitle,
    SaveSessionTitle,
    CancelSessionTitle,
    ToggleSessionPin(AccessibleRowId),
    ToggleSessionRead(AccessibleRowId),
    OpenSession(AccessibleRowId),
    StopSession(AccessibleRowId),
    ResumeSession(AccessibleRowId),
    ArchiveOrStopSession(AccessibleRowId),
    RestoreSession(AccessibleRowId),
    BeginSessionRemoval(AccessibleRowId),
    SetSessionRemovalConfirmation,
    MoveSession(AccessibleRowId, ProductMoveDirection),
    MoveSessionToRoot(AccessibleRowId),
}

#[derive(Clone, Copy, Debug, PartialEq, Eq, Structural)]
pub enum ProductControlRole {
    Button,
    Tab,
    TextField,
}

#[derive(Debug)]
pub struct ProductSessionControl {
    pub action: ProductSessionAction,
    pub parent: Option<AccessibleRowId>,
    pub role: ProductControlRole,
    pub name: MessageId,
    pub value: Option<String>,
    pub selected: bool,
    pub disabled: bool,
    pub in_dialog: bool,
}

/// What the text fields of the surface hold.
#[derive(Debug)]
pub struct ProductInputs {
    pub project_label: String,
    pub group_name: String,
    pub session_title: String,
    pub removal_confirmation: String,
}

/// Everything that the project and session surface shows.
#[derive(Debug)]
pub struct ProductConsole {
    pub projects: ProjectLibraryState,
    pub sessions: SessionLibraryState,
    pub saved: SavedState,
    pub sidebar: SessionSidebarState,
    pub inputs: ProductInputs,
    pub runtimes: RuntimeRegistry,
}

pub open spec fn button(
    action: ProductSessionAction,
    name: MessageId,
    parent: Option<AccessibleRowId>,
) -> ProductSessionControl {
    ProductSessionControl {
        action,
        parent,
        role: ProductControlRole::Button,
        name,
        value: None,
        selected: false,
        disabled: false,
        in_dialog: false,
    }
}

pub open spec fn disabled_if(control: ProductSessionControl, disabled: bool) -> ProductSessionControl {
    ProductSessionControl { disabled, ..control }
}

pub open spec fn tab(
    action: ProductSessionAction,
    name: MessageId,
    selected: bool,
) -> ProductSessionControl {
    ProductSessionControl {
        action,
        parent: None,
        role: ProductControlRole::Tab,
        name,
        value: None,
        selected,
        disabled: false,
        in_dialog: false,
    }
}

pub open spec fn text_field(
    action: ProductSessionAction,
    name: MessageId,
    value: String,
    in_dialog: bool,
) -> ProductSessionControl {
    ProductSessionControl {
        action,
        parent: None,
        role: ProductControlRole::TextField,
        name,
        value: Some(value),
        selected: false,
        disabled: false,
        in_dialog,
    }
}

fn product_button(
    action: ProductSessionAction,
    name: MessageId,
    parent: Option<AccessibleRowId>,
) -> (r: ProductSessionControl)
    ensures
        r == button(action, name, parent),
{
    ProductSessionControl {
        action,
        parent,
        role: ProductControlRole::Button,
        name,
        value: None,
        selected: false,
        disabled: false,
        in_dialog: false,
    }
}

fn product_button_disabled_if(
    action: ProductSessionAction,
    name: MessageId,
    parent: Option<AccessibleRowId>,
    disabled: bool,
) -> (r: ProductSessionControl)
    ensures
        r == disabled_if(button(action, name, parent), disabled),
{
    let mut control: ProductSessionControl = product_button(action, name, parent);
    control.disabled = disabled;
    control
}

fn product_tab(action: ProductSessionAction, name: MessageId, selected: bool) -> (r:
    ProductSessionControl)
    ensures
        r == tab(action, name, selected),
{
    ProductSessionControl {
        action,
        parent: None,
        role: ProductControlRole::Tab,
        name,
        value: None,
        selected,
        disabled: false,
        in_dialog: false,
    }
}

fn product_text_field(
    action: ProductSessionAction,
    name: MessageId,
    value: &String,
    in_dialog: bool,
) -> (r: ProductSessionControl)
    ensures
        r == text_field(action, name, *value, in_dialog),
{
    ProductSessionControl {
        action,
        parent: None,
        role: ProductControlRole::TextField,
        name,
        value: Some(value.clone()),
        selected: false,
        disabled: false,
        in_dialog,
    }
}

/// The buttons that remove the available projects.
pub open spec fn removal_controls(projects: Seq<ProjectSummary>) -> Seq<ProductSessionControl>
    decreases projects.len(),
{
    if projects.len() == 0 {
        Seq::empty()
    } else {
        let id = ids::project_row(projects.last().project.id);
        removal_controls(projects.drop_last()) + lists::optional(
            projects.last().status == ProjectStatus::Available,
            button(
                ProductSessionAction::RemoveProject(id),
                MessageId::ProjectRemoveAction,
                Some(id),
            ),
        )
    }
}

fn project_removal_controls(summaries: &Vec<ProjectSummary>) -> (r: Vec<ProductSessionControl>)
    ensures
        r@ == removal_controls(summaries@),
{
    let mut r: Vec<ProductSessionControl> = Vec::new();
    let mut i: usize = 0;
    assert(summaries@.take(0) =~= Seq::empty());
    while i < summaries.len()
        invariant
            i <= summaries@.len(),
            r@ == removal_controls(summaries@.take(i as int)),
        decreases summaries@.len() - i,
    {
        assert(summaries@.take(i + 1).drop_last() =~= summaries@.take(i as int));
        let id: AccessibleRowId = accessible_project_id(summaries[i].project.id);
        lists::push_if(
            &mut r,
            summaries[i].status == ProjectStatus::Available,
            product_button(
                ProductSessionAction::RemoveProject(id),
                MessageId::ProjectRemoveAction,
                Some(id),
            ),
        );
        i += 1;
    }
    assert(summaries@.take(summaries@.len() as int) =~= summaries@);
    r
}

/// The controls of the group at index `i` of `count`. The first cannot move up
/// and the last cannot move down.
pub open spec fn controls_of_group(group: Group, i: int, count: int) -> Seq<ProductSessionControl> {
    let id = ids::group_row(group.id);
    seq![
        button(
            ProductSessionAction::ToggleGroup(id),
            if group.collapsed {
                MessageId::GroupExpandAction
            } else {
                MessageId::GroupCollapseAction
            },
            Some(id),
        ),
        disabled_if(
            button(
                ProductSessionAction::MoveGroup(id, ProductMoveDirection::Up),
                MessageId::GroupMoveUpAction,
                Some(id),
            ),
            i == 0,
        ),
        disabled_if(
            button(
                ProductSessionAction::MoveGroup(id, ProductMoveDirection::Down),
                MessageId::GroupMoveDownAction,
                Some(id),
            ),
            i + 1 == count,
        ),
        button(ProductSessionAction::RenameGroup(id), MessageId::GroupRenameAction, Some(id)),
        button(ProductSessionAction::RemoveGroup(id), MessageId::GroupRemoveAction, Some(id)),
    ]
}

/// The controls of the first `n` groups.
pub open spec fn controls_of_groups(groups: Seq<Group>, n: int) -> Seq<ProductSessionControl>
    decreases n,
{
    if n <= 0 {
        Seq::empty()
    } else {
        controls_of_groups(groups, n - 1) + controls_of_group(
            groups[n - 1],
            n - 1,
            groups.len() as int,
        )
    }
}

fn group_controls(groups: &Vec<Group>) -> (r: Vec<ProductSessionControl>)
    ensures
        r@ == controls_of_groups(groups@, groups@.len() as int),
{
    let mut r: Vec<ProductSessionControl> = Vec::new();
    let mut i: usize = 0;
    while i < groups.len()
        invariant
            i <= groups@.len(),
            r@ == controls_of_groups(groups@, i as int),
        decreases groups@.len() - i,
    {
        let id: AccessibleRowId = accessible_group_id(groups[i].id);
        let ghost before = r@;
        r.push(
            product_button(
                ProductSessionAction::ToggleGroup(id),
                if groups[i].collapsed {
                    MessageId::GroupExpandAction
                } else {
                    MessageId::GroupCollapseAction
                },
                Some(id),
            ),
        );
        r.push(
            product_button_disabled_if(
                ProductSessionAction::MoveGroup(id, ProductMoveDirection::Up),
                MessageId::GroupMoveUpAction,
                Some(id),
                i == 0,
            ),
        );
        r.push(
            product_button_disabled_if(
                ProductSessionAction::MoveGroup(id, ProductMoveDirection::Down),
                MessageId::GroupMoveDownAction,
                Some(id),
                i + 1 == groups.len(),
            ),
        );
        r.push(
            product_button(
                ProductSessionAction::RenameGroup(id),
                MessageId::GroupRenameAction,
                Some(id),
            ),
        );
        r.push(
            product_button(
                ProductSessionAction::RemoveGroup(id),
                MessageId::GroupRemoveAction,
                Some(id),
            ),
        );
        assert(r@ =~= before + controls_of_group(groups@[i as int], i as int, groups@.len() as int));
        i += 1;
    }
    r
}

/// The buttons that remove a group and move its sessions to another one.
pub open spec fn destination_controls(groups: Seq<Group>, removed: GroupId) -> Seq<
    ProductSessionControl,
>
    decreases groups.len(),
{
    if groups.len() == 0 {
        Seq::empty()
    } else {
        let group = groups.last();
        destination_controls(groups.drop_last(), removed) + lists::optional(
            group.id != removed,
            ProductSessionControl {
                value: Some(group.name),
                in_dialog: true,
                ..button(
                    ProductSessionAction::RemoveGroupTo(
                        ids::group_row(removed),
                        Some(ids::group_row(group.id)),
                    ),
                    MessageId::GroupMoveSessionAction,
                    None,
                )
            },
        )
    }
}

fn group_destination_controls(groups: &Vec<Group>, removed: GroupId) -> (r: Vec<
    ProductSessionControl,
>)
    ensures
        r@ == destination_controls(groups@, removed),
{
    let mut r: Vec<ProductSessionControl> = Vec::new();
    let mut i: usize = 0;
    assert(groups@.take(0) =~= Seq::empty());
    while i < groups.len()
        invariant
            i <= groups@.len(),
            r@ == destination_controls(groups@.take(i as int), removed),
        decreases groups@.len() - i,
    {
        assert(groups@.take(i + 1).drop_last() =~= groups@.take(i as int));
        let mut control: ProductSessionControl = product_button(
            ProductSessionAction::RemoveGroupTo(
                accessible_group_id(removed),
                Some(accessible_group_id(groups[i].id)),
            ),
            MessageId::GroupMoveSessionAction,
            None,
        );
        control.value = Some(groups[i].name.clone());
        control.in_dialog = true;
        lists::push_if(&mut r, groups[i].id != removed, control);
        i += 1;
    }
    assert(groups@.take(groups@.len() as int) =~= groups@);
    r
}

/// The controls of a group removal that waits for a destination.
pub open spec fn pending_removal_controls(projects: ProjectLibraryState, removed: GroupId) -> Seq<
    ProductSessionControl,
> {
    Seq::empty() + seq![
        ProductSessionControl {
            in_dialog: true,
            ..button(
                ProductSessionAction::RemoveGroupTo(ids::group_row(removed), None),
                MessageId::GroupMoveToRootAction,
                None,
            )
        },
    ] + match projects.found_group(removed) {
        Some(group) => destination_controls(projects.groups_of(group.project_id), removed),
        None => Seq::empty(),
    }
}

fn group_removal_controls(library: &ProjectLibraryState, removed: GroupId) -> (r: Vec<
    ProductSessionControl,
>)
    ensures
        r@ == pending_removal_controls(*library, removed),
{
    let mut r: Vec<ProductSessionControl> = Vec::new();
    let mut to_root: ProductSessionControl = product_button(
        ProductSessionAction::RemoveGroupTo(accessible_group_id(removed), None),
        MessageId::GroupMoveToRootAction,
        None,
    );
    to_root.in_dialog = true;
    lists::push_one(&mut r, to_root);
    let destinations: Vec<ProductSessionControl> = match library.group(removed) {
        Some(group) => {
            let groups: Vec<Group> = library.project_groups(group.project_id);
            group_destination_controls(&groups, removed)
        },
        None => Vec::new(),
    };
    lists::push_all(&mut r, destinations);
    r
}

/// The controls of adding a project that is under review or being validated.
pub open spec fn adding_controls(console: ProductConsole) -> Seq<ProductSessionControl> {
    let cancel = button(
        ProductSessionAction::CancelProjectAdd,
        MessageId::CommonCancel,
        None,
    );
    if console.projects.add_draft is Some {
        seq![
            text_field(
                ProductSessionAction::SetProjectName,
                MessageId::ProjectLabelField,
                console.inputs.project_label,
                false,
            ),
            button(
                ProductSessionAction::ConfirmProjectAdd,
                MessageId::ProjectAddConfirm,
                None,
            ),
            cancel,
        ]
    } else if console.projects.add_validation is Some {
        seq![cancel]
    } else {
        Seq::empty()
    }
}

/// The controls of the selected project: a new group, and its groups.
pub open spec fn selected_project_controls(projects: ProjectLibraryState) -> Seq<
    ProductSessionControl,
> {
    match projects.selected_id {
        None => Seq::empty(),
        Some(id) => {
            let row = ids::project_row(id);
            let groups = projects.groups_of(id);
            Seq::empty() + seq![
                button(ProductSessionAction::AddGroup(row), MessageId::GroupNewAction, Some(row)),
            ] + controls_of_groups(groups, groups.len() as int)
        },
    }
}

/// The controls of the group editor.
pub open spec fn editor_controls(name: String) -> Seq<ProductSessionControl> {
    seq![
        text_field(ProductSessionAction::SetGroupName, MessageId::GroupNameField, name, false),
        button(ProductSessionAction::SaveGroup, MessageId::CommonSave, None),
        button(ProductSessionAction::CancelGroup, MessageId::CommonCancel, None),
    ]
}

/// The controls of the projects screen.
pub open spec fn project_screen_controls(console: ProductConsole) -> Seq<ProductSessionControl> {
    Seq::empty() + seq![
        disabled_if(
            button(ProductSessionAction::AddProject, MessageId::ProjectsAddAction, None),
            console.projects.add_draft is Some || console.projects.add_validation is Some,
        ),
    ] + adding_controls(console) + lists::optional(
        console.projects.pending_removal is Some,
        button(ProductSessionAction::UndoProjectRemoval, MessageId::ProjectUndoAction, None),
    ) + removal_controls(console.projects.projects()) + selected_project_controls(console.projects)
        + lists::optional(
        console.sidebar.pending_undo is Some,
        button(ProductSessionAction::UndoOrganization, MessageId::GroupUndoAction, None),
    ) + lists::optional_list(
        console.sidebar.editor is Some,
        editor_controls(console.inputs.group_name),
    ) + match console.sidebar.pending_removal {
        Some(pending) => pending_removal_controls(console.projects, pending.group_id),
        None => Seq::empty(),
    }
}

/// The tabs of the sessions screen: two views and three filters.
pub open spec fn session_tabs(library: SessionLibraryState) -> Seq<ProductSessionControl> {
    seq![
        tab(
            ProductSessionAction::ShowActiveSessions,
            MessageId::SessionLibraryActiveView,
            library.view == SessionLibraryView::Active,
        ),
        tab(
            ProductSessionAction::ShowArchivedSessions,
            MessageId::SessionLibraryArchiveView,
            library.view == SessionLibraryView::Archive,
        ),
        tab(
            ProductSessionAction::FilterAllSessions,
            MessageId::SessionLibraryFilterAll,
            library.filter == SessionLibraryFilter::All,
        ),
        tab(
            ProductSessionAction::FilterUnreadSessions,
            MessageId::SessionLibraryFilterUnread,
            library.filter == SessionLibraryFilter::Unread,
        ),
        tab(
            ProductSessionAction::FilterPinnedSessions,
            MessageId::SessionLibraryFilterPinned,
            library.filter == SessionLibraryFilter::Pinned,
        ),
    ]
}

/// The buttons that move a record within its visible list, if it is in it.
pub open spec fn position_controls(
    list: Seq<SavedAppAttachedSession>,
    id: HostedSessionId,
) -> Seq<ProductSessionControl> {
    let row = ids::session_row(id);
    let index = lists::first_index(list, saved_state::is_record(id));
    if index < list.len() {
        seq![
            disabled_if(
                button(
                    ProductSessionAction::MoveSession(row, ProductMoveDirection::Up),
                    MessageId::GroupMoveUpAction,
                    Some(row),
                ),
                index == 0,
            ),
            disabled_if(
                button(
                    ProductSessionAction::MoveSession(row, ProductMoveDirection::Down),
                    MessageId::GroupMoveDownAction,
                    Some(row),
                ),
                index + 1 == list.len(),
            ),
        ]
    } else {
        Seq::empty()
    }
}

/// The controls of a selected session that has a record.
pub open spec fn record_controls(
    console: ProductConsole,
    record: SavedAppAttachedSession,
    metadata: HostedSession,
    row: AccessibleRowId,
    evaluation: Result<(), ResumeError>,
) -> Seq<ProductSessionControl> {
    let offer = session_resume::resume_offer(record, evaluation);
    Seq::empty() + lists::optional(
        record.route == SessionLaunchRoute::DurableHost,
        button(ProductSessionAction::OpenSession(row), MessageId::CommonOpen, Some(row)),
    ) + lists::optional(
        metadata.can_stop,
        button(ProductSessionAction::StopSession(row), MessageId::NewSessionStopAction, Some(row)),
    ) + lists::optional(
        offer.visible,
        disabled_if(
            button(
                ProductSessionAction::ResumeSession(row),
                MessageId::SessionLibraryResumeAction,
                Some(row),
            ),
            !offer.enabled,
        ),
    ) + position_controls(
        session_sidebar::listed(
            console.sessions,
            console.saved,
            record.origin.project_id,
            record.group_id,
        ),
        record.id,
    ) + seq![
        button(
            ProductSessionAction::MoveSessionToRoot(row),
            MessageId::GroupMoveToRootAction,
            Some(row),
        ),
    ]
}

/// The controls that archive a session, or restore and remove an archived one.
pub open spec fn archive_controls(metadata: HostedSession, row: AccessibleRowId) -> Seq<
    ProductSessionControl,
> {
    if metadata.archived_at is None {
        seq![
            disabled_if(
                button(
                    ProductSessionAction::ArchiveOrStopSession(row),
                    if metadata.can_stop {
                        MessageId::SessionLibraryStopArchiveAction
                    } else {
                        MessageId::SessionLibraryArchiveAction
                    },
                    Some(row),
                ),
                !metadata.can_stop && !metadata.exited,
            ),
        ]
    } else {
        seq![
            button(
                ProductSessionAction::RestoreSession(row),
                MessageId::SessionLibraryRestoreAction,
                Some(row),
            ),
            disabled_if(
                button(
                    ProductSessionAction::BeginSessionRemoval(row),
                    MessageId::SessionLibraryRemoveAction,
                    Some(row),
                ),
                !metadata.removable,
            ),
        ]
    }
}

/// The controls of renaming.
pub open spec fn rename_controls(title: String, row: AccessibleRowId) -> Seq<
    ProductSessionControl,
> {
    seq![
        text_field(
            ProductSessionAction::SetSessionTitle,
            MessageId::SessionLibraryTitleField,
            title,
            false,
        ),
        button(ProductSessionAction::SaveSessionTitle, MessageId::CommonSave, Some(row)),
        button(ProductSessionAction::CancelSessionTitle, MessageId::CommonCancel, Some(row)),
    ]
}

/// Whether the removal of a session waits for its title to be typed.
pub open spec fn awaits_confirmation(library: SessionLibraryState, id: HostedSessionId) -> bool {
    library.pending_removal matches Some(plan) && plan.session_id == id
        && plan.manifest.requires_title_confirmation
}

/// The controls of the selected session.
pub open spec fn session_controls(
    console: ProductConsole,
    id: HostedSessionId,
    metadata: HostedSession,
    evaluation: Result<(), ResumeError>,
) -> Seq<ProductSessionControl> {
    let row = ids::session_row(id);
    Seq::empty() + seq![
        button(
            ProductSessionAction::RenameSession(row),
            MessageId::SessionLibraryRenameAction,
            Some(row),
        ),
    ] + seq![
        button(
            ProductSessionAction::ToggleSessionPin(row),
            if metadata.pinned {
                MessageId::SessionLibraryUnpinAction
            } else {
                MessageId::SessionLibraryPinAction
            },
            Some(row),
        ),
    ] + seq![
        disabled_if(
            button(
                ProductSessionAction::ToggleSessionRead(row),
                if metadata.unread {
                    MessageId::SessionLibraryMarkReadAction
                } else {
                    MessageId::SessionLibraryMarkUnreadAction
                },
                Some(row),
            ),
            !metadata.unread && metadata.last_output_sequence == 0,
        ),
    ] + match lists::first_where(
        console.saved.app_attached_sessions@,
        saved_state::is_record(id),
    ) {
        Some(record) => record_controls(console, record, metadata, row, evaluation),
        None => Seq::empty(),
    } + archive_controls(metadata, row) + lists::optional_list(
        console.sessions.renaming == Some(id),
        rename_controls(console.inputs.session_title, row),
    ) + lists::optional(
        awaits_confirmation(console.sessions, id),
        text_field(
            ProductSessionAction::SetSessionRemovalConfirmation,
            MessageId::SessionLibraryRemoveConfirmPlaceholder,
            console.inputs.removal_confirmation,
            true,
        ),
    )
}

impl ProductConsole {
    /// The controls of a screen. Where the project store could not be read there
    /// is only a retry. `evaluation` says whether the selected session can be
    /// resumed.
    pub open spec fn controls(
        self,
        screen: ProductSessionScreen,
        evaluation: Result<(), ResumeError>,
    ) -> Seq<ProductSessionControl> {
        if self.projects.load_state is Failed {
            seq![button(ProductSessionAction::RetryProjects, MessageId::CommonRetry, None)]
        } else {
            Seq::empty() + lists::optional_list(
                screen == ProductSessionScreen::Projects,
                project_screen_controls(self),
            ) + lists::optional_list(
                screen == ProductSessionScreen::Sessions,
                session_tabs(self.sessions),
            ) + match self.sidebar.selected_session {
                Some(id) => match self.sessions.found(id) {
                    Some(metadata) => session_controls(self, id, metadata, evaluation),
                    None => Seq::empty(),
                },
                None => Seq::empty(),
            }
        }
    }

    fn project_screen(&self) -> (r: Vec<ProductSessionControl>)
        ensures
            r@ == project_screen_controls(*self),
    {
        let mut r: Vec<ProductSessionControl> = Vec::new();
        let draft: bool = self.projects.add_draft.is_some();
        let validating: bool = self.projects.add_validation.is_some();
        lists::push_one(
            &mut r,
            product_button_disabled_if(
                ProductSessionAction::AddProject,
                MessageId::ProjectsAddAction,
                None,
                draft || validating,
            ),
        );
        let mut adding: Vec<ProductSessionControl> = Vec::new();
        if draft {
            adding.push(
                product_text_field(
                    ProductSessionAction::SetProjectName,
                    MessageId::ProjectLabelField,
                    &self.inputs.project_label,
                    false,
                ),
            );
            adding.push(
                product_button(
                    ProductSessionAction::ConfirmProjectAdd,
                    MessageId::ProjectAddConfirm,
                    None,
                ),
            );
        }
        if draft || validating {
            adding.push(
                product_button(
                    ProductSessionAction::CancelProjectAdd,
                    MessageId::CommonCancel,
                    None,
                ),
            );
        }
        assert(adding@ =~= adding_controls(*self));
        lists::push_all(&mut r, adding);
        lists::push_if(
            &mut r,
            self.projects.pending_removal.is_some(),
            product_button(
                ProductSessionAction::UndoProjectRemoval,
                MessageId::ProjectUndoAction,
                None,
            ),
        );
        let removals: Vec<ProductSessionControl> = match &self.projects.snapshot {
            Some(snapshot) => project_removal_controls(&snapshot.projects),
            None => Vec::new(),
        };
        assert(removals@ =~= removal_controls(self.projects.projects()));
        lists::push_all(&mut r, removals);
        let selected: Vec<ProductSessionControl> = match self.projects.selected_id {
            None => Vec::new(),
            Some(project_id) => {
                let row: AccessibleRowId = accessible_project_id(project_id);
                let groups: Vec<Group> = self.projects.project_groups(project_id);
                let mut part: Vec<ProductSessionControl> = Vec::new();
                lists::push_one(
                    &mut part,
                    product_button(
                        ProductSessionAction::AddGroup(row),
                        MessageId::GroupNewAction,
                        Some(row),
                    ),
                );
                lists::push_all(&mut part, group_controls(&groups));
                part
            },
        };
        lists::push_all(&mut r, selected);
        lists::push_if(
            &mut r,
            self.sidebar.pending_undo.is_some(),
            product_button(
                ProductSessionAction::UndoOrganization,
                MessageId::GroupUndoAction,
                None,
            ),
        );
        let mut editor: Vec<ProductSessionControl> = Vec::new();
        if self.sidebar.editor.is_some() {
            editor.push(
                product_text_field(
                    ProductSessionAction::SetGroupName,
                    MessageId::GroupNameField,
                    &self.inputs.group_name,
                    false,
                ),
            );
            editor.push(product_button(ProductSessionAction::SaveGroup, MessageId::CommonSave, None));
            editor.push(
                product_button(ProductSessionAction::CancelGroup, MessageId::CommonCancel, None),
            );
        }
        assert(editor@ =~= lists::optional_list(
            self.sidebar.editor is Some,
            editor_controls(self.inputs.group_name),
        ));
        lists::push_all(&mut r, editor);
        let removal: Vec<ProductSessionControl> = match self.sidebar.pending_removal {
            Some(pending) => group_removal_controls(&self.projects, pending.group_id),
            None => Vec::new(),
        };
        lists::push_all(&mut r, removal);
        r
    }

    fn record_part(
        &self,
        record: &SavedAppAttachedSession,
        metadata: &HostedSession,
        row: AccessibleRowId,
        evaluation: Result<(), ResumeError>,
    ) -> (r: Vec<ProductSessionControl>)
        requires
            row == ids::session_row(record.id),
        ensures
            r@ == record_controls(*self, *record, *metadata, row, evaluation),
    {
        let mut r: Vec<ProductSessionControl> = Vec::new();
        lists::push_if(
            &mut r,
            record.route == SessionLaunchRoute::DurableHost,
            product_button(
                ProductSessionAction::OpenSession(row),
                MessageId::CommonOpen,
                Some(row),
            ),
        );
        lists::push_if(
            &mut r,
            metadata.can_stop,
            product_button(
                ProductSessionAction::StopSession(row),
                MessageId::NewSessionStopAction,
                Some(row),
            ),
        );
        let offer: SessionResumeProjection = evaluated_resume_projection(record, evaluation);
        lists::push_if(
            &mut r,
            offer.visible,
            product_button_disabled_if(
                ProductSessionAction::ResumeSession(row),
                MessageId::SessionLibraryResumeAction,
                Some(row),
                !offer.enabled,
            ),
        );
        let list: Vec<SavedAppAttachedSession> = sessions_in_destination(
            &self.sessions,
            &self.saved,
            record.origin.project_id,
            record.group_id,
        );
        let index: usize = listed_index(&list, record.id);
        let mut moves: Vec<ProductSessionControl> = Vec::new();
        if index < list.len() {
            moves.push(
                product_button_disabled_if(
                    ProductSessionAction::MoveSession(row, ProductMoveDirection::Up),
                    MessageId::GroupMoveUpAction,
                    Some(row),
                    index == 0,
                ),
            );
            moves.push(
                product_button_disabled_if(
                    ProductSessionAction::MoveSession(row, ProductMoveDirection::Down),
                    MessageId::GroupMoveDownAction,
                    Some(row),
                    index + 1 == list.len(),
                ),
            );
        }
        assert(moves@ =~= position_controls(list@, record.id));
        lists::push_all(&mut r, moves);
        lists::push_one(
            &mut r,
            product_button(
                ProductSessionAction::MoveSessionToRoot(row),
                MessageId::GroupMoveToRootAction,
                Some(row),
            ),
        );
        r
    }

    fn session_part(
        &self,
        id: HostedSessionId,
        metadata: &HostedSession,
        evaluation: Result<(), ResumeError>,
    ) -> (r: Vec<ProductSessionControl>)
        ensures
            r@ == session_controls(*self, id, *metadata, evaluation),
    {
        let row: AccessibleRowId = accessible_session_id(id);
        let mut r: Vec<ProductSessionControl> = Vec::new();
        lists::push_one(
            &mut r,
            product_button(
                ProductSessionAction::RenameSession(row),
                MessageId::SessionLibraryRenameAction,
                Some(row),
            ),
        );
        lists::push_one(
            &mut r,
            product_button(
                ProductSessionAction::ToggleSessionPin(row),
                if metadata.pinned {
                    MessageId::SessionLibraryUnpinAction
                } else {
                    MessageId::SessionLibraryPinAction
                },
                Some(row),
            ),
        );
        lists::push_one(
            &mut r,
            product_button_disabled_if(
                ProductSessionAction::ToggleSessionRead(row),
                if metadata.unread {
                    MessageId::SessionLibraryMarkReadAction
                } else {
                    MessageId::SessionLibraryMarkUnreadAction
                },
                Some(row),
                !metadata.unread && metadata.last_output_sequence == 0,
            ),
        );
        let own: Vec<ProductSessionControl> = match self.saved.record(id) {
            Some(record) => {
                proof {
                    lists::lemma_first_index_bounds(
                        self.saved.app_attached_sessions@,
                        saved_state::is_record(id),
                    );
                }
                self.record_part(record, metadata, row, evaluation)
            },
            None => Vec::new(),
        };
        lists::push_all(&mut r, own);
        let mut archive: Vec<ProductSessionControl> = Vec::new();
        if metadata.archived_at.is_none() {
            archive.push(
                product_button_disabled_if(
                    ProductSessionAction::ArchiveOrStopSession(row),
                    if metadata.can_stop {
                        MessageId::SessionLibraryStopArchiveAction
                    } else {
                        MessageId::SessionLibraryArchiveAction
                    },
                    Some(row),
                    !metadata.can_stop && !metadata.exited,
                ),
            );
        } else {
            archive.push(
                product_button(
                    ProductSessionAction::RestoreSession(row),
                    MessageId::SessionLibraryRestoreAction,
                    Some(row),
                ),
            );
            archive.push(
                product_button_disabled_if(
                    ProductSessionAction::BeginSessionRemoval(row),
                    MessageId::SessionLibraryRemoveAction,
                    Some(row),
                    !metadata.removable,
                ),
            );
        }
        assert(archive@ =~= archive_controls(*metadata, row));
        lists::push_all(&mut r, archive);
        let mut renaming: Vec<ProductSessionControl> = Vec::new();
        if self.sessions.renaming == Some(id) {
            renaming.push(
                product_text_field(
                    ProductSessionAction::SetSessionTitle,
                    MessageId::SessionLibraryTitleField,
                    &self.inputs.session_title,
                    false,
                ),
            );
            renaming.push(
                product_button(
                    ProductSessionAction::SaveSessionTitle,
                    MessageId::CommonSave,
                    Some(row),
                ),
            );
            renaming.push(
                product_button(
                    ProductSessionAction::CancelSessionTitle,
                    MessageId::CommonCancel,
                    Some(row),
                ),
            );
        }
        assert(renaming@ =~= lists::optional_list(
            self.sessions.renaming == Some(id),
            rename_controls(self.inputs.session_title, row),
        ));
        lists::push_all(&mut r, renaming);
        let confirmation: bool = match &self.sessions.pending_removal {
            Some(plan) => plan.session_id == id && plan.manifest.requires_title_confirmation,
            None => false,
        };
        lists::push_if(
            &mut r,
            confirmation,
            product_text_field(
                ProductSessionAction::SetSessionRemovalConfirmation,
                MessageId::SessionLibraryRemoveConfirmPlaceholder,
                &self.inputs.removal_confirmation,
                true,
            ),
        );
        r
    }

    pub fn product_session_controls(
        &self,
        screen: ProductSessionScreen,
        evaluation: Result<(), ResumeError>,
    ) -> (r: Vec<ProductSessionControl>)
        ensures
            r@ == self.controls(screen, evaluation),
    {
        let mut r: Vec<ProductSessionControl> = Vec::new();
        let failed: bool = match self.projects.load_state {
            ProjectLibraryLoadState::Failed(_) => true,
            _ => false,
        };
        if failed {
            r.push(
                product_button(ProductSessionAction::RetryProjects, MessageId::CommonRetry, None),
            );
            assert(r@ =~= self.controls(screen, evaluation));
            return r;
        }
        let projects_part: Vec<ProductSessionControl> = if screen == ProductSessionScreen::Projects {
            self.project_screen()
        } else {
            Vec::new()
        };
        lists::push_all(&mut r, projects_part);
        let mut tabs: Vec<ProductSessionControl> = Vec::new();
        if screen == ProductSessionScreen::Sessions {
            tabs.push(
                product_tab(
                    ProductSessionAction::ShowActiveSessions,
                    MessageId::SessionLibraryActiveView,
                    self.sessions.view == SessionLibraryView::Active,
                ),
            );
            tabs.push(
                product_tab(
                    ProductSessionAction::ShowArchivedSessions,
                    MessageId::SessionLibraryArchiveView,
                    self.sessions.view == SessionLibraryView::Archive,
                ),
            );
            tabs.push(
                product_tab(
                    ProductSessionAction::FilterAllSessions,
                    MessageId::SessionLibraryFilterAll,
                    self.sessions.filter == SessionLibraryFilter::All,
                ),
            );
            tabs.push(
                product_tab(
                    ProductSessionAction::FilterUnreadSessions,
                    MessageId::SessionLibraryFilterUnread,
                    self.sessions.filter == SessionLibraryFilter::Unread,
                ),
            );
            tabs.push(
                product_tab(
                    ProductSessionAction::FilterPinnedSessions,
                    MessageId::SessionLibraryFilterPinned,
                    self.sessions.filter == SessionLibraryFilter::Pinned,
                ),
            );
        }
        assert(tabs@ =~= lists::optional_list(
            screen == ProductSessionScreen::Sessions,
            session_tabs(self.sessions),
        ));
        lists::push_all(&mut r, tabs);
        let selected: Vec<ProductSessionControl> = match self.sidebar.selected_session {
            Some(id) => match self.sessions.session(id) {
                Some(metadata) => self.session_part(id, metadata, evaluation),
                None => Vec::new(),
            },
            None => Vec::new(),
        };
        lists::push_all(&mut r, selected);
        r
    }
}

#[derive(Clone, Copy, Debug, PartialEq, Eq, Structural)]
pub enum DestructiveActionKind {
    RemoveSessionData,
    StopAndArchive,
    RemoveGroup,
}

/// A destructive action that waits for confirmation.
#[derive(Clone, Copy, Debug, PartialEq, Eq, Structural)]
pub struct DestructiveActionPresentation {
    pub kind: DestructiveActionKind,
    pub target: AccessibleRowId,
    pub revision: u64,
    pub confirm_enabled: bool,
}

impl ProductConsole {
    /// The destructive action that is open: removing a session's data comes
    /// before stopping and archiving, and that before removing a group.
    pub open spec fn destructive(self) -> Option<DestructiveActionPresentation> {
        if self.sessions.pending_removal is Some {
            let plan = self.sessions.pending_removal->0;
            Some(
                DestructiveActionPresentation {
                    kind: DestructiveActionKind::RemoveSessionData,
                    target: ids::session_row(plan.session_id),
                    revision: plan.expected_revision,
                    confirm_enabled: !plan.manifest.requires_title_confirmation
                        || self.inputs.removal_confirmation@ == plan.title@,
                },
            )
        } else if self.sessions.pending_stop_archive_review is Some {
            Some(
                DestructiveActionPresentation {
                    kind: DestructiveActionKind::StopAndArchive,
                    target: ids::session_row(self.sessions.pending_stop_archive_review->0),
                    revision: self.sessions.current_revision(),
                    confirm_enabled: true,
                },
            )
        } else if self.sidebar.pending_removal is Some {
            Some(
                DestructiveActionPresentation {
                    kind: DestructiveActionKind::RemoveGroup,
                    target: ids::group_row(self.sidebar.pending_removal->0.group_id),
                    revision: match self.projects.known_revision() {
                        Some(revision) => revision,
                        None => 0,
                    },
                    confirm_enabled: false,
                },
            )
        } else {
            None
        }
    }

    pub fn product_destructive_presentation(&self) -> (r: Option<DestructiveActionPresentation>)
        ensures
            r == self.destructive(),
    {
        match &self.sessions.pending_removal {
            Some(plan) => {
                return Some(
                    DestructiveActionPresentation {
                        kind: DestructiveActionKind::RemoveSessionData,
                        target: accessible_session_id(plan.session_id),
                        revision: plan.expected_revision,
                        confirm_enabled: !plan.manifest.requires_title_confirmation
                            || text::same_text(
                            self.inputs.removal_confirmation.as_str(),
                            plan.title.as_str(),
                        ),
                    },
                );
            },
            None => {},
        }
        match self.sessions.pending_stop_archive_review {
            Some(id) => {
                return Some(
                    DestructiveActionPresentation {
                        kind: DestructiveActionKind::StopAndArchive,
                        target: accessible_session_id(id),
                        revision: self.sessions.revision(),
                        confirm_enabled: true,
                    },
                );
            },
            None => {},
        }
        match self.sidebar.pending_removal {
            Some(pending) => Some(
                DestructiveActionPresentation {
                    kind: DestructiveActionKind::RemoveGroup,
                    target: accessible_group_id(pending.group_id),
                    revision: match self.projects.project_revision() {
                        Some(revision) => revision,
                        None => 0,
                    },
                    confirm_enabled: false,
                },
            ),
            None => None,
        }
    }
}

#[derive(Clone, Copy, Debug, PartialEq, Eq, Structural)]
pub enum ProductSessionSurfaceState {
    Loading,
    Unavailable,
    Recovery,
    Partial,
    PermissionDenied,
    FilterEmpty,
    Empty,
    Ready,
}

/// The state of the whole surface: what is wrong with the projects comes first,
/// then what is wrong with the sessions, then whether anything is shown.
pub open spec fn surface_state(
    project_load: ProjectLibraryLoadState,
    recovery: Option<SessionLibraryRecovery>,
    rows_empty: bool,
    filtered: bool,
) -> ProductSessionSurfaceState {
    match project_load {
        ProjectLibraryLoadState::Loading => ProductSessionSurfaceState::Loading,
        ProjectLibraryLoadState::Failed(failure) => match failure {
            ProjectStoreFailure::Unavailable => ProductSessionSurfaceState::Unavailable,
            ProjectStoreFailure::Corrupt
            | ProjectStoreFailure::Newer => ProductSessionSurfaceState::Recovery,
        },
        ProjectLibraryLoadState::Ready => match recovery {
            Some(cause) => match cause {
                SessionLibraryRecovery::RecoveredLastGood => ProductSessionSurfaceState::Partial,
                SessionLibraryRecovery::Corrupt
                | SessionLibraryRecovery::Newer => ProductSessionSurfaceState::Recovery,
                SessionLibraryRecovery::PermissionDenied => {
                    ProductSessionSurfaceState::PermissionDenied
                },
                SessionLibraryRecovery::Unavailable => ProductSessionSurfaceState::Unavailable,
            },
            None => if !rows_empty {
                ProductSessionSurfaceState::Ready
            } else if filtered {
                ProductSessionSurfaceState::FilterEmpty
            } else {
                ProductSessionSurfaceState::Empty
            },
        },
    }
}

pub fn product_session_surface_state(
    project_load: ProjectLibraryLoadState,
    recovery: Option<SessionLibraryRecovery>,
    rows_empty: bool,
    filtered: bool,
) -> (r: ProductSessionSurfaceState)
    ensures
        r == surface_state(project_load, recovery, rows_empty, filtered),
{
    match project_load {
        ProjectLibraryLoadState::Loading => {
            return ProductSessionSurfaceState::Loading;
        },
        ProjectLibraryLoadState::Failed(ProjectStoreFailure::Unavailable) => {
            return ProductSessionSurfaceState::Unavailable;
        },
        ProjectLibraryLoadState::Failed(_) => {
            return ProductSessionSurfaceState::Recovery;
        },
        ProjectLibraryLoadState::Ready => {},
    }
    match recovery {
        Some(SessionLibraryRecovery::RecoveredLastGood) => ProductSessionSurfaceState::Partial,
        Some(SessionLibraryRecovery::Corrupt) | Some(SessionLibraryRecovery::Newer) => {
            ProductSessionSurfaceState::Recovery
        },
        Some(SessionLibraryRecovery::PermissionDenied) => {
            ProductSessionSurfaceState::PermissionDenied
        },
        Some(SessionLibraryRecovery::Unavailable) => ProductSessionSurfaceState::Unavailable,
        None => {
            if !rows_empty {
                ProductSessionSurfaceState::Ready
            } else if filtered {
                ProductSessionSurfaceState::FilterEmpty
            } else {
                ProductSessionSurfaceState::Empty
            }
        },
    }
}

#[derive(Clone, Copy, Debug, PartialEq, Eq, Structural)]
pub enum HierarchyLevel {
    Project,
    Group,
    Session,
}

#[derive(Debug)]
pub struct AccessibleCollectionRow {
    pub id: AccessibleRowId,
    pub parent: Option<AccessibleRowId>,
    pub level: HierarchyLevel,
    pub name: Text,
    pub status: MessageId,
    pub selected: bool,
    pub expanded: Option<bool>,
    pub unread: bool,
    pub disabled: bool,
    pub position: usize,
    pub set_size: usize,
}

#[derive(Debug)]
pub struct ProductSessionSemanticSnapshot {
    pub screen: ProductSessionScreen,
    pub state: ProductSessionSurfaceState,
    pub rows: Vec<AccessibleCollectionRow>,
    pub controls: Vec<ProductSessionControl>,
    pub dialog: Option<DestructiveActionPresentation>,
    pub recording_friendly: bool,
}

/// A count of siblings; never zero.
pub open spec fn siblings(count: int) -> usize {
    if count == 0 {
        1
    } else {
        count as usize
    }
}

fn sibling_count(count: usize) -> (r: usize)
    ensures
        r == siblings(count as int),
{
    if count == 0 {
        1
    } else {
        count
    }
}

pub open spec fn session_row(
    metadata: HostedSession,
    parent: AccessibleRowId,
    selected: Option<HostedSessionId>,
    index: int,
    set_size: int,
) -> AccessibleCollectionRow {
    AccessibleCollectionRow {
        id: ids::session_row(metadata.id),
        parent: Some(parent),
        level: HierarchyLevel::Session,
        name: Text::Value(metadata.title),
        status: session_labels::state_text(metadata.lifecycle),
        selected: selected == Some(metadata.id),
        expanded: None,
        unread: metadata.unread,
        disabled: false,
        position: (index + 1) as usize,
        set_size: siblings(set_size),
    }
}

/// The rows of the first `n` sessions of a list. A session that the library
/// does not know has no row, but keeps its place.
pub open spec fn session_rows(
    list: Seq<SavedAppAttachedSession>,
    n: int,
    parent: AccessibleRowId,
    library: SessionLibraryState,
    selected: Option<HostedSessionId>,
    set_size: int,
) -> Seq<AccessibleCollectionRow>
    decreases n,
{
    if n <= 0 {
        Seq::empty()
    } else {
        let before = session_rows(list, n - 1, parent, library, selected, set_size);
        match library.found(list[n - 1].id) {
            Some(metadata) => before + seq![
                session_row(metadata, parent, selected, n - 1, set_size),
            ],
            None => before,
        }
    }
}

fn append_accessible_session_rows(
    rows: &mut Vec<AccessibleCollectionRow>,
    list: &Vec<SavedAppAttachedSession>,
    parent: AccessibleRowId,
    library: &SessionLibraryState,
    selected: Option<HostedSessionId>,
    set_size: usize,
)
    ensures
        final(rows)@ == old(rows)@ + session_rows(
            list@,
            list@.len() as int,
            parent,
            *library,
            selected,
            set_size as int,
        ),
{
    let ghost start = rows@;
    assert(start + Seq::<AccessibleCollectionRow>::empty() =~= start);
    let mut i: usize = 0;
    while i < list.len()
        invariant
            i <= list@.len(),
            rows@ == start + session_rows(
                list@,
                i as int,
                parent,
                *library,
                selected,
                set_size as int,
            ),
        decreases list@.len() - i,
    {
        let id: HostedSessionId = list[i].id;
        let ghost done = session_rows(list@, i as int, parent, *library, selected, set_size as int);
        match library.session(id) {
            None => {},
            Some(metadata) => {
                proof {
                    lists::lemma_first_index_bounds(
                        library.known(),
                        crate::session_library::is_session(id),
                    );
                }
                let row: AccessibleCollectionRow = AccessibleCollectionRow {
                    id: accessible_session_id(id),
                    parent: Some(parent),
                    level: HierarchyLevel::Session,
                    name: Text::Value(metadata.title.clone()),
                    status: session_state_message_id(metadata.lifecycle),
                    selected: selected == Some(id),
                    expanded: None,
                    unread: metadata.unread,
                    disabled: false,
                    position: i + 1,
                    set_size: sibling_count(set_size),
                };
                rows.push(row);
                assert(rows@ =~= start + (done + seq![row]));
            },
        }
        i += 1;
    }
}

pub open spec fn group_row(
    group: Group,
    parent: AccessibleRowId,
    index: int,
    set_size: int,
) -> AccessibleCollectionRow {
    AccessibleCollectionRow {
        id: ids::group_row(group.id),
        parent: Some(parent),
        level: HierarchyLevel::Group,
        name: Text::Value(group.name),
        status: MessageId::ProductSurfaceStateReady,
        selected: false,
        expanded: Some(!group.collapsed),
        unread: false,
        disabled: false,
        position: (index + 1) as usize,
        set_size: siblings(set_size),
    }
}

impl ProductConsole {
    pub open spec fn listed(self, project_id: ProjectId, group_id: Option<GroupId>) -> Seq<
        SavedAppAttachedSession,
    > {
        session_sidebar::listed(self.sessions, self.saved, project_id, group_id)
    }

    /// The rows of the first `n` groups of a project, which stand behind
    /// `offset` sessions, each followed by its sessions unless it is collapsed.
    pub open spec fn group_rows(
        self,
        project_id: ProjectId,
        n: int,
        offset: int,
        set_size: int,
    ) -> Seq<AccessibleCollectionRow>
        decreases n,
    {
        if n <= 0 {
            Seq::empty()
        } else {
            let group = self.projects.groups_of(project_id)[n - 1];
            let inside = self.listed(project_id, Some(group.id));
            self.group_rows(project_id, n - 1, offset, set_size) + seq![
                group_row(group, ids::project_row(project_id), offset + n - 1, set_size),
            ] + lists::optional_list(
                !group.collapsed,
                session_rows(
                    inside,
                    inside.len() as int,
                    ids::group_row(group.id),
                    self.sessions,
                    self.sidebar.selected_session,
                    inside.len() as int,
                ),
            )
        }
    }

    /// The rows below a project: its sessions that are in no group, then its
    /// groups.
    pub open spec fn child_rows(self, project_id: ProjectId) -> Seq<AccessibleCollectionRow> {
        let ungrouped = self.listed(project_id, None);
        let groups = self.projects.groups_of(project_id);
        let count = ungrouped.len() + groups.len();
        session_rows(
            ungrouped,
            ungrouped.len() as int,
            ids::project_row(project_id),
            self.sessions,
            self.sidebar.selected_session,
            count as int,
        ) + self.group_rows(
            project_id,
            groups.len() as int,
            ungrouped.len() as int,
            count as int,
        )
    }

    /// The name of a project: its own, else the one that a record remembers.
    pub open spec fn project_name(self, project_id: ProjectId) -> Text {
        match self.projects.found(project_id) {
            Some(summary) => Text::Value(summary.project.display_name),
            None => match lists::first_where(
                self.saved.app_attached_sessions@,
                of_project(project_id),
            ) {
                Some(record) => Text::Value(record.project_label),
                None => Text::Message(MessageId::ProjectsNavLabel),
            },
        }
    }

    /// Whether the rows below a project are shown.
    pub open spec fn shows_children(self, screen: ProductSessionScreen, id: ProjectId) -> bool {
        screen == ProductSessionScreen::Sessions || self.projects.selected_id == Some(id)
    }

    pub open spec fn project_row(
        self,
        screen: ProductSessionScreen,
        id: ProjectId,
        index: int,
        set_size: int,
    ) -> AccessibleCollectionRow {
        let status = match self.projects.found(id) {
            Some(summary) => summary.status,
            None => ProjectStatus::Unavailable,
        };
        AccessibleCollectionRow {
            id: ids::project_row(id),
            parent: None,
            level: HierarchyLevel::Project,
            name: self.project_name(id),
            status: session_labels::project_status_text(status),
            selected: self.projects.selected_id == Some(id),
            expanded: Some(self.shows_children(screen, id)),
            unread: false,
            disabled: status != ProjectStatus::Available,
            position: (index + 1) as usize,
            set_size: siblings(set_size),
        }
    }

    /// The rows of the first `n` of the shown projects.
    pub open spec fn rows(self, screen: ProductSessionScreen, shown: Seq<ProjectId>, n: int) -> Seq<
        AccessibleCollectionRow,
    >
        decreases n,
    {
        if n <= 0 {
            Seq::empty()
        } else {
            self.rows(screen, shown, n - 1) + seq![
                self.project_row(screen, shown[n - 1], n - 1, shown.len() as int),
            ] + lists::optional_list(
                self.shows_children(screen, shown[n - 1]),
                self.child_rows(shown[n - 1]),
            )
        }
    }

    /// The projects that a screen shows: all of them, or those of the visible
    /// sessions in the order of their identities.
    pub open spec fn shown_projects(self, screen: ProductSessionScreen) -> Seq<ProjectId> {
        if screen == ProductSessionScreen::Projects {
            self.projects.projects().map_values(|summary: ProjectSummary| summary.project.id)
        } else {
            without_repeats(
                lists::stable_sort(
                    self.sessions.visible_all().map_values(|s: HostedSession| s.project_id),
                    project_before(),
                ),
            )
        }
    }

    /// The counts of sessions and groups that are added up fit the machine.
    pub open spec fn countable(self) -> bool {
        self.sessions.known().len() + self.projects.groups().len() <= usize::MAX
    }
}

pub open spec fn of_project(id: ProjectId) -> spec_fn(SavedAppAttachedSession) -> bool {
    |record: SavedAppAttachedSession| record.origin.project_id == id
}

pub open spec fn project_before() -> spec_fn(ProjectId, ProjectId) -> bool {
    |a: ProjectId, b: ProjectId| a.value < b.value
}

/// The sequence without elements that repeat the one in front of them.
pub open spec fn without_repeats(s: Seq<ProjectId>) -> Seq<ProjectId>
    decreases s.len(),
{
    if s.len() == 0 {
        s
    } else {
        let before = without_repeats(s.drop_last());
        if before.len() > 0 && before.last() == s.last() {
            before
        } else {
            before.push(s.last())
        }
    }
}

proof fn lemma_insert_len<A>(s: Seq<A>, x: A, before: spec_fn(A, A) -> bool)
    ensures
        lists::insert_stable(s, x, before).len() == s.len() + 1,
    decreases s.len(),
{
    if s.len() > 0 && before(x, s.last()) {
        lemma_insert_len(s.drop_last(), x, before);
    }
}

proof fn lemma_sort_len<A>(s: Seq<A>, before: spec_fn(A, A) -> bool)
    ensures
        lists::stable_sort(s, before).len() == s.len(),
    decreases s.len(),
{
    if s.len() > 0 {
        lemma_sort_len(s.drop_last(), before);
        lemma_insert_len(lists::stable_sort(s.drop_last(), before), s.last(), before);
    }
}

proof fn lemma_kept_len<A>(s: Seq<A>, wanted: spec_fn(A) -> bool)
    ensures
        lists::kept(s, wanted).len() <= s.len(),
    decreases s.len(),
{
    if s.len() > 0 {
        lemma_kept_len(s.drop_last(), wanted);
    }
}

proof fn lemma_records_len(sessions: Seq<HostedSession>, records: Seq<SavedAppAttachedSession>)
    ensures
        session_sidebar::records_of(sessions, records).len() <= sessions.len(),
    decreases sessions.len(),
{
    if sessions.len() > 0 {
        lemma_records_len(sessions.drop_last(), records);
    }
}

proof fn lemma_counts_fit(console: ProductConsole, id: ProjectId)
    requires
        console.countable(),
    ensures
        console.listed(id, None).len() + console.projects.groups_of(id).len() <= usize::MAX,
{
    let shown = lists::kept(console.sessions.known(), console.sessions.shown_in(id, None));
    lemma_kept_len(console.sessions.known(), console.sessions.shown_in(id, None));
    lemma_sort_len(shown, crate::session_library::list_before());
    lemma_records_len(
        console.sessions.visible(id, None),
        console.saved.app_attached_sessions@,
    );
    let own = lists::kept(console.projects.groups(), projects::in_project(id));
    lemma_kept_len(console.projects.groups(), projects::in_project(id));
    lemma_sort_len(own, projects::group_before());
}

impl ProductConsole {
    fn append_group_rows(
        &self,
        rows: &mut Vec<AccessibleCollectionRow>,
        project_id: ProjectId,
        groups: &Vec<Group>,
        offset: usize,
        set_size: usize,
    )
        requires
            groups@ == self.projects.groups_of(project_id),
            offset + groups@.len() <= usize::MAX,
        ensures
            final(rows)@ == old(rows)@ + self.group_rows(
                project_id,
                groups@.len() as int,
                offset as int,
                set_size as int,
            ),
    {
        let ghost start = rows@;
        assert(start + Seq::<AccessibleCollectionRow>::empty() =~= start);
        let mut i: usize = 0;
        while i < groups.len()
            invariant
                i <= groups@.len(),
                groups@ == self.projects.groups_of(project_id),
                offset + groups@.len() <= usize::MAX,
                rows@ == start + self.group_rows(
                    project_id,
                    i as int,
                    offset as int,
                    set_size as int,
                ),
            decreases groups@.len() - i,
        {
            let group = &groups[i];
            let ghost done = self.group_rows(
                project_id,
                i as int,
                offset as int,
                set_size as int,
            );
            let row: AccessibleCollectionRow = AccessibleCollectionRow {
                id: accessible_group_id(group.id),
                parent: Some(accessible_project_id(project_id)),
                level: HierarchyLevel::Group,
                name: Text::Value(group.name.clone()),
                status: MessageId::ProductSurfaceStateReady,
                selected: false,
                expanded: Some(!group.collapsed),
                unread: false,
                disabled: false,
                position: offset + i + 1,
                set_size: sibling_count(set_size),
            };
            rows.push(row);
            let ghost head = rows@;
            assert(head =~= start + (done + seq![row]));
            if !group.collapsed {
                let inside: Vec<SavedAppAttachedSession> = sessions_in_destination(
                    &self.sessions,
                    &self.saved,
                    project_id,
                    Some(group.id),
                );
                append_accessible_session_rows(
                    rows,
                    &inside,
                    accessible_group_id(group.id),
                    &self.sessions,
                    self.sidebar.selected_session,
                    inside.len(),
                );
            }
            let ghost listed = self.listed(project_id, Some(group.id));
            let ghost tail = lists::optional_list(
                !group.collapsed,
                session_rows(
                    listed,
                    listed.len() as int,
                    ids::group_row(group.id),
                    self.sessions,
                    self.sidebar.selected_session,
                    listed.len() as int,
                ),
            );
            assert(rows@ =~= start + (done + seq![row] + tail));
            i += 1;
        }
    }

    fn append_child_rows(&self, rows: &mut Vec<AccessibleCollectionRow>, project_id: ProjectId)
        requires
            self.countable(),
        ensures
            final(rows)@ == old(rows)@ + self.child_rows(project_id),
    {
        let ghost start = rows@;
        let ungrouped: Vec<SavedAppAttachedSession> = sessions_in_destination(
            &self.sessions,
            &self.saved,
            project_id,
            None,
        );
        let groups: Vec<Group> = self.projects.project_groups(project_id);
        proof {
            lemma_counts_fit(*self, project_id);
        }
        let count: usize = ungrouped.len() + groups.len();
        append_accessible_session_rows(
            rows,
            &ungrouped,
            accessible_project_id(project_id),
            &self.sessions,
            self.sidebar.selected_session,
            count,
        );
        let ghost middle = rows@;
        self.append_group_rows(rows, project_id, &groups, ungrouped.len(), count);
        assert(rows@ =~= start + self.child_rows(project_id));
    }

    fn project_label(&self, project_id: ProjectId) -> (r: Text)
        ensures
            r == self.project_name(project_id),
    {
        match self.projects.project(project_id) {
            Some(summary) => {
                return Text::Value(summary.project.display_name.clone());
            },
            None => {},
        }
        let ghost wanted = of_project(project_id);
        let mut i: usize = 0;
        while i < self.saved.app_attached_sessions.len()
            invariant
                i <= self.saved.app_attached_sessions@.len(),
                wanted == of_project(project_id),
                self.projects.found(project_id) is None,
                forall|k: int|
                    0 <= k < i ==> !wanted(#[trigger] self.saved.app_attached_sessions@[k]),
            decreases self.saved.app_attached_sessions@.len() - i,
        {
            if self.saved.app_attached_sessions[i].origin.project_id == project_id {
                proof {
                    lists::lemma_first_index(
                        self.saved.app_attached_sessions@,
                        wanted,
                        i as int,
                    );
                }
                return Text::Value(self.saved.app_attached_sessions[i].project_label.clone());
            }
            i += 1;
        }
        proof {
            lists::lemma_first_index(self.saved.app_attached_sessions@, wanted, i as int);
        }
        Text::Message(MessageId::ProjectsNavLabel)
    }

    fn screen_projects(&self, screen: ProductSessionScreen) -> (r: Vec<ProjectId>)
        ensures
            r@ == self.shown_projects(screen),
    {
        let mut found: Vec<ProjectId> = Vec::new();
        if screen == ProductSessionScreen::Projects {
            let ghost name = |summary: ProjectSummary| summary.project.id;
            match &self.projects.snapshot {
                None => {},
                Some(snapshot) => {
                    let mut i: usize = 0;
                    while i < snapshot.projects.len()
                        invariant
                            i <= snapshot.projects@.len(),
                            name == (|summary: ProjectSummary| summary.project.id),
                            found@ =~= snapshot.projects@.map_values(name).take(i as int),
                        decreases snapshot.projects@.len() - i,
                    {
                        found.push(snapshot.projects[i].project.id);
                        i += 1;
                    }
                },
            }
            assert(found@ =~= self.projects.projects().map_values(name));
            return found;
        }
        let sessions: Vec<HostedSession> = self.sessions.visible_sessions_all();
        let ghost name = |s: HostedSession| s.project_id;
        let mut i: usize = 0;
        while i < sessions.len()
            invariant
                i <= sessions@.len(),
                name == (|s: HostedSession| s.project_id),
                found@ =~= sessions@.map_values(name).take(i as int),
            decreases sessions@.len() - i,
        {
            found.push(sessions[i].project_id);
            i += 1;
        }
        assert(found@ =~= sessions@.map_values(name));
        let earlier = |a: &ProjectId, b: &ProjectId| -> (x: bool)
            ensures
                x == project_before()(*a, *b),
            { a.value < b.value };
        let sorted: Vec<ProjectId> = lists::sort_list(found, earlier, Ghost(project_before()));
        let mut r: Vec<ProjectId> = Vec::new();
        let mut k: usize = 0;
        assert(sorted@.take(0) =~= Seq::empty());
        while k < sorted.len()
            invariant
                k <= sorted@.len(),
                r@ == without_repeats(sorted@.take(k as int)),
            decreases sorted@.len() - k,
        {
            assert(sorted@.take(k + 1).drop_last() =~= sorted@.take(k as int));
            if r.len() == 0 || r[r.len() - 1] != sorted[k] {
                r.push(sorted[k]);
            }
            k += 1;
        }
        assert(sorted@.take(sorted@.len() as int) =~= sorted@);
        r
    }

    fn append_project(
        &self,
        rows: &mut Vec<AccessibleCollectionRow>,
        screen: ProductSessionScreen,
        id: ProjectId,
        index: usize,
        set_size: usize,
    )
        requires
            self.countable(),
            index < set_size,
        ensures
            final(rows)@ == old(rows)@ + (seq![
                self.project_row(screen, id, index as int, set_size as int),
            ] + lists::optional_list(self.shows_children(screen, id), self.child_rows(id))),
    {
        let ghost start = rows@;
        let status: ProjectStatus = match self.projects.project(id) {
            Some(summary) => summary.status,
            None => ProjectStatus::Unavailable,
        };
        let selected: bool = self.projects.selected_id == Some(id);
        let children: bool = screen == ProductSessionScreen::Sessions || selected;
        let row: AccessibleCollectionRow = AccessibleCollectionRow {
            id: accessible_project_id(id),
            parent: None,
            level: HierarchyLevel::Project,
            name: self.project_label(id),
            status: project_status_message_id(status),
            selected,
            expanded: Some(children),
            unread: false,
            disabled: status != ProjectStatus::Available,
            position: index + 1,
            set_size: sibling_count(set_size),
        };
        rows.push(row);
        assert(rows@ =~= start + seq![row]);
        if children {
            self.append_child_rows(rows, id);
            assert(rows@ =~= start + (seq![row] + self.child_rows(id)));
        } else {
            assert(rows@ =~= start + (seq![row] + Seq::<AccessibleCollectionRow>::empty()));
        }
    }

    /// What assistive technology is told of the project and session surface.
    pub fn product_session_semantic_snapshot(
        &self,
        screen: ProductSessionScreen,
        evaluation: Result<(), ResumeError>,
        recording_friendly: bool,
    ) -> (r: ProductSessionSemanticSnapshot)
        requires
            self.countable(),
        ensures
            ({
                let shown = self.shown_projects(screen);
                &&& r.screen == screen
                &&& r.rows@ == self.rows(screen, shown, shown.len() as int)
                &&& r.controls@ == self.controls(screen, evaluation)
                &&& r.dialog == self.destructive()
                &&& r.recording_friendly == recording_friendly
                &&& r.state == surface_state(
                    self.projects.load_state,
                    self.sessions.recovery(),
                    r.rows@.len() == 0,
                    self.sessions.filter != SessionLibraryFilter::All,
                )
            }),
    {
        let shown: Vec<ProjectId> = self.screen_projects(screen);
        let mut rows: Vec<AccessibleCollectionRow> = Vec::new();
        let mut i: usize = 0;
        while i < shown.len()
            invariant
                i <= shown@.len(),
                self.countable(),
                rows@ == self.rows(screen, shown@, i as int),
            decreases shown@.len() - i,
        {
            let ghost done = rows@;
            self.append_project(&mut rows, screen, shown[i], i, shown.len());
            proof {
                let row = self.project_row(screen, shown@[i as int], i as int, shown@.len() as int);
                let tail = lists::optional_list(
                    self.shows_children(screen, shown@[i as int]),
                    self.child_rows(shown@[i as int]),
                );
                assert(done + (seq![row] + tail) =~= done + seq![row] + tail);
            }
            i += 1;
        }
        let dialog: Option<DestructiveActionPresentation> = self.product_destructive_presentation();
        let controls: Vec<ProductSessionControl> = self.product_session_controls(
            screen,
            evaluation,
        );
        let state: ProductSessionSurfaceState = product_session_surface_state(
            self.projects.load_state,
            self.sessions.recovery_state(),
            rows.len() == 0,
            self.sessions.filter != SessionLibraryFilter::All,
        );
        ProductSessionSemanticSnapshot { screen, state, rows, controls, dialog, recording_friendly }
    }
}

#[derive(Clone, Copy, Debug, PartialEq, Eq, Structural)]
pub enum ProductSessionAccessibilityCommand {
    FocusRow(AccessibleRowId),
    ActivateRow(AccessibleRowId),
    FocusControl(ProductSessionAction),
    SetControlValue(ProductSessionAction),
    ActivateControl(ProductSessionAction),
    FocusSafeAction,
    FocusConfirmAction,
    ConfirmDialog,
    CancelDialog,
}

/// The text fields of the surface.
#[derive(Clone, Copy, Debug, PartialEq, Eq, Structural)]
pub enum ProductInput {
    ProjectLabel,
    GroupName,
    SessionTitle,
    RemovalConfirmation,
}

/// Where the keyboard focus goes.
#[derive(Clone, Copy, Debug, PartialEq, Eq, Structural)]
pub enum ProductFocus {
    List,
    Input(ProductInput),
}

/// What is to be done next on the surface.
#[derive(Clone, Copy, Debug, PartialEq, Eq, Structural)]
pub enum ProductOperation {
    Nothing,
    RetryProjects,
    ChooseProjectFolder,
    CommitProjectAdd,
    CancelProjectAdd,
    RemoveProject(ProjectId),
    UndoProjectRemoval,
    OpenGroupEditor(ProjectId, Option<GroupId>),
    SaveGroupEditor,
    CancelGroupEditor,
    SetGroupCollapsed(GroupId, bool),
    MoveGroup(GroupId, ProductMoveDirection),
    BeginGroupRemoval(GroupId),
    RemoveGroupTo(GroupId, GroupDestination),
    CancelGroupRemoval,
    UndoOrganization,
    ShowView(SessionLibraryView),
    ShowFilter(SessionLibraryFilter),
    RefreshArtifacts(HostedSessionId),
    SelectSession(HostedSessionId),
    BeginSessionRename(HostedSessionId),
    SaveSessionRename,
    CancelSessionRename,
    ToggleSessionPin(HostedSessionId),
    ToggleSessionRead(HostedSessionId),
    OpenSession(HostedSessionId),
    StopSession(HostedSessionId),
    ResumeSession(HostedSessionId),
    ArchiveOrStopSession(HostedSessionId),
    ConfirmStopAndArchive,
    CancelStopAndArchive,
    RestoreSession(HostedSessionId),
    BeginSessionRemoval(HostedSessionId),
    ConfirmSessionRemoval,
    CancelSessionRemoval,
    MoveSession(HostedSessionId, ProductMoveDirection),
    MoveSessionTo(HostedSessionId, GroupDestination),
    PrepareHostRecovery(HostedSessionId),
    ConfirmHostRecovery(HostedSessionId),
    CancelHostRecovery(HostedSessionId),
}

/// What a command asks of the surface.
#[derive(Clone, Copy, Debug, PartialEq, Eq, Structural)]
pub struct ProductStep {
    pub select_project: Option<ProjectId>,
    pub select_session: Option<HostedSessionId>,
    pub focus: Option<ProductFocus>,
    /// The text field that takes the value sent with the command.
    pub set_input: Option<ProductInput>,
    pub operation: ProductOperation,
}

pub open spec fn no_step() -> ProductStep {
    ProductStep {
        select_project: None,
        select_session: None,
        focus: None,
        set_input: None,
        operation: ProductOperation::Nothing,
    }
}

fn idle_step() -> (r: ProductStep)
    ensures
        r == no_step(),
{
    ProductStep {
        select_project: None,
        select_session: None,
        focus: None,
        set_input: None,
        operation: ProductOperation::Nothing,
    }
}

pub open spec fn focus_step(focus: ProductFocus) -> ProductStep {
    ProductStep { focus: Some(focus), ..no_step() }
}

pub open spec fn step_to(operation: ProductOperation) -> ProductStep {
    ProductStep { operation, ..no_step() }
}

/// The text field that an action sets.
pub open spec fn input_of(action: ProductSessionAction) -> Option<ProductInput> {
    match action {
        ProductSessionAction::SetProjectName => Some(ProductInput::ProjectLabel),
        ProductSessionAction::SetGroupName => Some(ProductInput::GroupName),
        ProductSessionAction::SetSessionTitle => Some(ProductInput::SessionTitle),
        ProductSessionAction::SetSessionRemovalConfirmation => Some(
            ProductInput::RemovalConfirmation,
        ),
        _ => None,
    }
}

fn action_input(action: ProductSessionAction) -> (r: Option<ProductInput>)
    ensures
        r == input_of(action),
{
    match action {
        ProductSessionAction::SetProjectName => Some(ProductInput::ProjectLabel),
        ProductSessionAction::SetGroupName => Some(ProductInput::GroupName),
        ProductSessionAction::SetSessionTitle => Some(ProductInput::SessionTitle),
        ProductSessionAction::SetSessionRemovalConfirmation => Some(
            ProductInput::RemovalConfirmation,
        ),
        _ => None,
    }
}

impl ProductConsole {
    pub open spec fn knows_project(self, row: AccessibleRowId) -> bool {
        ids::row_project(row) matches Some(id) && self.projects.found(id) is Some
    }

    pub open spec fn knows_group(self, row: AccessibleRowId) -> bool {
        ids::row_group(row) matches Some(id) && self.projects.found_group(id) is Some
    }

    pub open spec fn knows_session(self, row: AccessibleRowId) -> bool {
        ids::row_session(row) matches Some(id) && self.sessions.found(id) is Some
    }

    /// What focusing or activating a row does: a row that no longer exists does
    /// nothing; a group that is activated is expanded or collapsed as well.
    pub open spec fn row_step(self, row: AccessibleRowId, activate: bool) -> ProductStep {
        match row.kind {
            AccessibleRowKind::Project => if self.knows_project(row) {
                ProductStep {
                    select_project: ids::row_project(row),
                    focus: Some(ProductFocus::List),
                    ..no_step()
                }
            } else {
                no_step()
            },
            AccessibleRowKind::Group => match self.projects.found_group(GroupId { value: row.value }) {
                Some(group) => ProductStep {
                    select_project: Some(group.project_id),
                    focus: Some(ProductFocus::List),
                    operation: if activate {
                        ProductOperation::SetGroupCollapsed(
                            GroupId { value: row.value },
                            !group.collapsed,
                        )
                    } else {
                        ProductOperation::Nothing
                    },
                    ..no_step()
                },
                None => no_step(),
            },
            AccessibleRowKind::Session => {
                let id = HostedSessionId { value: row.value };
                match self.sessions.found(id) {
                    Some(session) => ProductStep {
                        select_project: Some(session.project_id),
                        select_session: Some(id),
                        focus: Some(ProductFocus::List),
                        operation: ProductOperation::RefreshArtifacts(id),
                        ..no_step()
                    },
                    None => no_step(),
                }
            },
        }
    }

    /// Whether a text field is open, so that it can take a value.
    pub open spec fn input_open(self, input: ProductInput) -> bool {
        match input {
            ProductInput::ProjectLabel => self.projects.add_draft is Some,
            ProductInput::GroupName => self.sidebar.editor is Some,
            ProductInput::SessionTitle => self.sessions.renaming is Some,
            ProductInput::RemovalConfirmation => self.sessions.pending_removal is Some,
        }
    }

    /// What activating a control asks for. An action on something that no longer
    /// exists, or on a row of the wrong kind, asks for nothing.
    pub open spec fn control_operation(self, action: ProductSessionAction) -> ProductOperation {
        match action {
            ProductSessionAction::RetryProjects => ProductOperation::RetryProjects,
            ProductSessionAction::AddProject => ProductOperation::ChooseProjectFolder,
            ProductSessionAction::ConfirmProjectAdd => ProductOperation::CommitProjectAdd,
            ProductSessionAction::CancelProjectAdd => ProductOperation::CancelProjectAdd,
            ProductSessionAction::RemoveProject(row) => if self.knows_project(row) {
                ProductOperation::RemoveProject(ProjectId { value: row.value })
            } else {
                ProductOperation::Nothing
            },
            ProductSessionAction::UndoProjectRemoval => ProductOperation::UndoProjectRemoval,
            ProductSessionAction::AddGroup(row) => if self.knows_project(row) {
                ProductOperation::OpenGroupEditor(ProjectId { value: row.value }, None)
            } else {
                ProductOperation::Nothing
            },
            ProductSessionAction::RenameGroup(row) => if self.knows_group(row) {
                ProductOperation::OpenGroupEditor(
                    self.projects.found_group(GroupId { value: row.value })->0.project_id,
                    Some(GroupId { value: row.value }),
                )
            } else {
                ProductOperation::Nothing
            },
            ProductSessionAction::SaveGroup => ProductOperation::SaveGroupEditor,
            ProductSessionAction::CancelGroup => ProductOperation::CancelGroupEditor,
            ProductSessionAction::ToggleGroup(row) => if self.knows_group(row) {
                ProductOperation::SetGroupCollapsed(
                    GroupId { value: row.value },
                    !self.projects.found_group(GroupId { value: row.value })->0.collapsed,
                )
            } else {
                ProductOperation::Nothing
            },
            ProductSessionAction::MoveGroup(row, direction) => if self.knows_group(row) {
                ProductOperation::MoveGroup(GroupId { value: row.value }, direction)
            } else {
                ProductOperation::Nothing
            },
            ProductSessionAction::RemoveGroup(row) => if self.knows_group(row) {
                ProductOperation::BeginGroupRemoval(GroupId { value: row.value })
            } else {
                ProductOperation::Nothing
            },
            ProductSessionAction::RemoveGroupTo(row, destination) => if self.knows_group(row) {
                match destination {
                    None => ProductOperation::RemoveGroupTo(
                        GroupId { value: row.value },
                        GroupDestination::ProjectRoot,
                    ),
                    Some(other) => if self.knows_group(other) {
                        ProductOperation::RemoveGroupTo(
                            GroupId { value: row.value },
                            GroupDestination::Group(GroupId { value: other.value }),
                        )
                    } else {
                        ProductOperation::Nothing
                    },
                }
            } else {
                ProductOperation::Nothing
            },
            ProductSessionAction::UndoOrganization => ProductOperation::UndoOrganization,
            ProductSessionAction::ShowActiveSessions => ProductOperation::ShowView(
                SessionLibraryView::Active,
            ),
            ProductSessionAction::ShowArchivedSessions => ProductOperation::ShowView(
                SessionLibraryView::Archive,
            ),
            ProductSessionAction::FilterAllSessions => ProductOperation::ShowFilter(
                SessionLibraryFilter::All,
            ),
            ProductSessionAction::FilterUnreadSessions => ProductOperation::ShowFilter(
                SessionLibraryFilter::Unread,
            ),
            ProductSessionAction::FilterPinnedSessions => ProductOperation::ShowFilter(
                SessionLibraryFilter::Pinned,
            ),
            ProductSessionAction::RenameSession(row) => if self.knows_session(row) {
                ProductOperation::BeginSessionRename(HostedSessionId { value: row.value })
            } else {
                ProductOperation::Nothing
            },
            ProductSessionAction::SaveSessionTitle => ProductOperation::SaveSessionRename,
            ProductSessionAction::CancelSessionTitle => ProductOperation::CancelSessionRename,
            ProductSessionAction::ToggleSessionPin(row) => match ids::row_session(row) {
                Some(id) => ProductOperation::ToggleSessionPin(id),
                None => ProductOperation::Nothing,
            },
            ProductSessionAction::ToggleSessionRead(row) => match ids::row_session(row) {
                Some(id) => ProductOperation::ToggleSessionRead(id),
                None => ProductOperation::Nothing,
            },
            ProductSessionAction::OpenSession(row) => match ids::row_session(row) {
                Some(id) => ProductOperation::OpenSession(id),
                None => ProductOperation::Nothing,
            },
            ProductSessionAction::StopSession(row) => if self.knows_session(row) {
                ProductOperation::StopSession(HostedSessionId { value: row.value })
            } else {
                ProductOperation::Nothing
            },
            ProductSessionAction::ResumeSession(row) => if self.knows_session(row) {
                ProductOperation::ResumeSession(HostedSessionId { value: row.value })
            } else {
                ProductOperation::Nothing
            },
            ProductSessionAction::ArchiveOrStopSession(row) => match ids::row_session(row) {
                Some(id) => ProductOperation::ArchiveOrStopSession(id),
                None => ProductOperation::Nothing,
            },
            ProductSessionAction::RestoreSession(row) => match ids::row_session(row) {
                Some(id) => ProductOperation::RestoreSession(id),
                None => ProductOperation::Nothing,
            },
            ProductSessionAction::BeginSessionRemoval(row) => if self.knows_session(row) {
                ProductOperation::BeginSessionRemoval(HostedSessionId { value: row.value })
            } else {
                ProductOperation::Nothing
            },
            ProductSessionAction::MoveSession(row, direction) => if self.knows_session(row) {
                ProductOperation::MoveSession(HostedSessionId { value: row.value }, direction)
            } else {
                ProductOperation::Nothing
            },
            ProductSessionAction::MoveSessionToRoot(row) => if self.knows_session(row) {
                ProductOperation::MoveSessionTo(
                    HostedSessionId { value: row.value },
                    GroupDestination::ProjectRoot,
                )
            } else {
                ProductOperation::Nothing
            },
            ProductSessionAction::SetProjectName | ProductSessionAction::SetGroupName
            | ProductSessionAction::SetSessionTitle
            | ProductSessionAction::SetSessionRemovalConfirmation => ProductOperation::Nothing,
        }
    }

    /// What confirming the open dialog does.
    pub open spec fn confirm_operation(self) -> ProductOperation {
        if !(self.destructive() matches Some(dialog) && dialog.confirm_enabled) {
            ProductOperation::Nothing
        } else if self.sessions.pending_removal is Some {
            ProductOperation::ConfirmSessionRemoval
        } else if self.sessions.pending_stop_archive_review is Some {
            ProductOperation::ConfirmStopAndArchive
        } else {
            ProductOperation::Nothing
        }
    }

    /// What cancelling the open dialog does.
    pub open spec fn cancel_operation(self) -> ProductOperation {
        if self.sessions.pending_removal is Some {
            ProductOperation::CancelSessionRemoval
        } else if self.sessions.pending_stop_archive_review is Some {
            ProductOperation::CancelStopAndArchive
        } else if self.sidebar.pending_removal is Some {
            ProductOperation::CancelGroupRemoval
        } else {
            ProductOperation::Nothing
        }
    }

    /// What a command does.
    pub open spec fn step(
        self,
        command: ProductSessionAccessibilityCommand,
        value: Option<SemanticActionValue>,
    ) -> ProductStep {
        match command {
            ProductSessionAccessibilityCommand::FocusRow(row) => self.row_step(row, false),
            ProductSessionAccessibilityCommand::ActivateRow(row) => self.row_step(row, true),
            ProductSessionAccessibilityCommand::FocusControl(action) => focus_step(
                match input_of(action) {
                    Some(input) => ProductFocus::Input(input),
                    None => ProductFocus::List,
                },
            ),
            ProductSessionAccessibilityCommand::SetControlValue(action) => match input_of(action) {
                Some(input) if value matches Some(SemanticActionValue::Text(_)) && self.input_open(
                    input,
                ) => ProductStep { set_input: Some(input), ..no_step() },
                _ => no_step(),
            },
            ProductSessionAccessibilityCommand::ActivateControl(action) => step_to(
                self.control_operation(action),
            ),
            ProductSessionAccessibilityCommand::FocusSafeAction
            | ProductSessionAccessibilityCommand::FocusConfirmAction => focus_step(
                ProductFocus::List,
            ),
            ProductSessionAccessibilityCommand::ConfirmDialog => step_to(self.confirm_operation()),
            ProductSessionAccessibilityCommand::CancelDialog => ProductStep {
                focus: Some(ProductFocus::List),
                ..step_to(self.cancel_operation())
            },
        }
    }

    fn project_on(&self, row: AccessibleRowId) -> (r: Option<ProjectId>)
        ensures
            r == if self.knows_project(row) {
                ids::row_project(row)
            } else {
                None
            },
    {
        match accessible_project_row_id(row) {
            Some(id) => {
                if self.projects.project(id).is_some() {
                    Some(id)
                } else {
                    None
                }
            },
            None => None,
        }
    }

    fn group_on(&self, row: AccessibleRowId) -> (r: Option<GroupId>)
        ensures
            r == if self.knows_group(row) {
                ids::row_group(row)
            } else {
                None
            },
    {
        match accessible_group_row_id(row) {
            Some(id) => {
                if self.projects.group(id).is_some() {
                    Some(id)
                } else {
                    None
                }
            },
            None => None,
        }
    }

    fn session_on(&self, row: AccessibleRowId) -> (r: Option<HostedSessionId>)
        ensures
            r == if self.knows_session(row) {
                ids::row_session(row)
            } else {
                None
            },
    {
        match accessible_session_row_id(row) {
            Some(id) => {
                if self.sessions.session(id).is_some() {
                    Some(id)
                } else {
                    None
                }
            },
            None => None,
        }
    }

    fn decide_row(&self, row: AccessibleRowId, activate: bool) -> (r: ProductStep)
        ensures
            r == self.row_step(row, activate),
    {
        let mut step: ProductStep = idle_step();
        match row.kind {
            AccessibleRowKind::Project => match self.project_on(row) {
                Some(id) => {
                    step.select_project = Some(id);
                    step.focus = Some(ProductFocus::List);
                },
                None => {},
            },
            AccessibleRowKind::Group => {
                let id: GroupId = GroupId::from_uuid(uuid::Uuid::from_u128(row.value));
                match self.projects.group(id) {
                    Some(group) => {
                        step.select_project = Some(group.project_id);
                        step.focus = Some(ProductFocus::List);
                        if activate {
                            step.operation =
                            ProductOperation::SetGroupCollapsed(id, !group.collapsed);
                        }
                    },
                    None => {},
                }
            },
            AccessibleRowKind::Session => {
                let id: HostedSessionId = HostedSessionId::from_uuid(
                    uuid::Uuid::from_u128(row.value),
                );
                match self.sessions.session(id) {
                    Some(session) => {
                        step.select_project = Some(session.project_id);
                        step.select_session = Some(id);
                        step.focus = Some(ProductFocus::List);
                        step.operation = ProductOperation::RefreshArtifacts(id);
                    },
                    None => {},
                }
            },
        }
        step
    }

    fn decide_group_control(&self, action: ProductSessionAction, row: AccessibleRowId) -> (r:
        ProductOperation)
        requires
            action == ProductSessionAction::RenameGroup(row) || action
                == ProductSessionAction::ToggleGroup(row) || action
                == ProductSessionAction::RemoveGroup(row) || (action matches
                ProductSessionAction::MoveGroup(r, _) && r == row) || (action matches
                ProductSessionAction::RemoveGroupTo(r, _) && r == row),
        ensures
            r == self.control_operation(action),
    {
        let id: GroupId = match self.group_on(row) {
            Some(id) => id,
            None => {
                return ProductOperation::Nothing;
            },
        };
        match action {
            ProductSessionAction::RenameGroup(_) => match self.projects.group(id) {
                Some(group) => ProductOperation::OpenGroupEditor(group.project_id, Some(id)),
                None => ProductOperation::Nothing,
            },
            ProductSessionAction::ToggleGroup(_) => match self.projects.group(id) {
                Some(group) => ProductOperation::SetGroupCollapsed(id, !group.collapsed),
                None => ProductOperation::Nothing,
            },
            ProductSessionAction::MoveGroup(_, direction) => {
                ProductOperation::MoveGroup(id, direction)
            },
            ProductSessionAction::RemoveGroup(_) => ProductOperation::BeginGroupRemoval(id),
            ProductSessionAction::RemoveGroupTo(_, destination) => match destination {
                None => ProductOperation::RemoveGroupTo(id, GroupDestination::ProjectRoot),
                Some(other) => match self.group_on(other) {
                    Some(target) => ProductOperation::RemoveGroupTo(
                        id,
                        GroupDestination::Group(target),
                    ),
                    None => ProductOperation::Nothing,
                },
            },
            _ => ProductOperation::Nothing,
        }
    }

    fn decide_control(&self, action: ProductSessionAction) -> (r: ProductOperation)
        ensures
            r == self.control_operation(action),
    {
        match action {
            ProductSessionAction::RetryProjects => ProductOperation::RetryProjects,
            ProductSessionAction::AddProject => ProductOperation::ChooseProjectFolder,
            ProductSessionAction::ConfirmProjectAdd => ProductOperation::CommitProjectAdd,
            ProductSessionAction::CancelProjectAdd => ProductOperation::CancelProjectAdd,
            ProductSessionAction::RemoveProject(row) => match self.project_on(row) {
                Some(id) => ProductOperation::RemoveProject(id),
                None => ProductOperation::Nothing,
            },
            ProductSessionAction::UndoProjectRemoval => ProductOperation::UndoProjectRemoval,
            ProductSessionAction::AddGroup(row) => match self.project_on(row) {
                Some(id) => ProductOperation::OpenGroupEditor(id, None),
                None => ProductOperation::Nothing,
            },
            ProductSessionAction::RenameGroup(row) | ProductSessionAction::ToggleGroup(row)
            | ProductSessionAction::RemoveGroup(row) | ProductSessionAction::MoveGroup(row, _)
            | ProductSessionAction::RemoveGroupTo(row, _) => {
                self.decide_group_control(action, row)
            },
            ProductSessionAction::SaveGroup => ProductOperation::SaveGroupEditor,
            ProductSessionAction::CancelGroup => ProductOperation::CancelGroupEditor,
            ProductSessionAction::UndoOrganization => ProductOperation::UndoOrganization,
            ProductSessionAction::ShowActiveSessions => ProductOperation::ShowView(
                SessionLibraryView::Active,
            ),
            ProductSessionAction::ShowArchivedSessions => ProductOperation::ShowView(
                SessionLibraryView::Archive,
            ),
            ProductSessionAction::FilterAllSessions => ProductOperation::ShowFilter(
                SessionLibraryFilter::All,
            ),
            ProductSessionAction::FilterUnreadSessions => ProductOperation::ShowFilter(
                SessionLibraryFilter::Unread,
            ),
            ProductSessionAction::FilterPinnedSessions => ProductOperation::ShowFilter(
                SessionLibraryFilter::Pinned,
            ),
            ProductSessionAction::RenameSession(row) => match self.session_on(row) {
                Some(id) => ProductOperation::BeginSessionRename(id),
                None => ProductOperation::Nothing,
            },
            ProductSessionAction::SaveSessionTitle => ProductOperation::SaveSessionRename,
            ProductSessionAction::CancelSessionTitle => ProductOperation::CancelSessionRename,
            ProductSessionAction::ToggleSessionPin(row) => match accessible_session_row_id(row) {
                Some(id) => ProductOperation::ToggleSessionPin(id),
                None => ProductOperation::Nothing,
            },
            ProductSessionAction::ToggleSessionRead(row) => match accessible_session_row_id(row) {
                Some(id) => ProductOperation::ToggleSessionRead(id),
                None => ProductOperation::Nothing,
            },
            ProductSessionAction::OpenSession(row) => match accessible_session_row_id(row) {
                Some(id) => ProductOperation::OpenSession(id),
                None => ProductOperation::Nothing,
            },
            ProductSessionAction::StopSession(row) => match self.session_on(row) {
                Some(id) => ProductOperation::StopSession(id),
                None => ProductOperation::Nothing,
            },
            ProductSessionAction::ResumeSession(row) => match self.session_on(row) {
                Some(id) => ProductOperation::ResumeSession(id),
                None => ProductOperation::Nothing,
            },
            ProductSessionAction::ArchiveOrStopSession(row) => {
                match accessible_session_row_id(row) {
                    Some(id) => ProductOperation::ArchiveOrStopSession(id),
                    None => ProductOperation::Nothing,
                }
            },
            ProductSessionAction::RestoreSession(row) => match accessible_session_row_id(row) {
                Some(id) => ProductOperation::RestoreSession(id),
                None => ProductOperation::Nothing,
            },
            ProductSessionAction::BeginSessionRemoval(row) => match self.session_on(row) {
                Some(id) => ProductOperation::BeginSessionRemoval(id),
                None => ProductOperation::Nothing,
            },
            ProductSessionAction::MoveSession(row, direction) => match self.session_on(row) {
                Some(id) => ProductOperation::MoveSession(id, direction),
                None => ProductOperation::Nothing,
            },
            ProductSessionAction::MoveSessionToRoot(row) => match self.session_on(row) {
                Some(id) => ProductOperation::MoveSessionTo(id, GroupDestination::ProjectRoot),
                None => ProductOperation::Nothing,
            },
            ProductSessionAction::SetProjectName | ProductSessionAction::SetGroupName
            | ProductSessionAction::SetSessionTitle
            | ProductSessionAction::SetSessionRemovalConfirmation => ProductOperation::Nothing,
        }
    }

    fn takes_value(&self, input: ProductInput) -> (r: bool)
        ensures
            r == self.input_open(input),
    {
        match input {
            ProductInput::ProjectLabel => self.projects.add_draft.is_some(),
            ProductInput::GroupName => self.sidebar.editor.is_some(),
            ProductInput::SessionTitle => self.sessions.renaming.is_some(),
            ProductInput::RemovalConfirmation => self.sessions.pending_removal.is_some(),
        }
    }

    fn decide(
        &self,
        command: ProductSessionAccessibilityCommand,
        value: &Option<SemanticActionValue>,
    ) -> (r: ProductStep)
        ensures
            r == self.step(command, *value),
    {
        let mut step: ProductStep = idle_step();
        match command {
            ProductSessionAccessibilityCommand::FocusRow(row) => {
                return self.decide_row(row, false);
            },
            ProductSessionAccessibilityCommand::ActivateRow(row) => {
                return self.decide_row(row, true);
            },
            ProductSessionAccessibilityCommand::FocusControl(action) => {
                step.focus = Some(
                    match action_input(action) {
                        Some(input) => ProductFocus::Input(input),
                        None => ProductFocus::List,
                    },
                );
            },
            ProductSessionAccessibilityCommand::SetControlValue(action) => {
                let is_text: bool = match value {
                    Some(SemanticActionValue::Text(_)) => true,
                    _ => false,
                };
                match action_input(action) {
                    Some(input) => {
                        if is_text && self.takes_value(input) {
                            step.set_input = Some(input);
                        }
                    },
                    None => {},
                }
            },
            ProductSessionAccessibilityCommand::ActivateControl(action) => {
                step.operation = self.decide_control(action);
            },
            ProductSessionAccessibilityCommand::FocusSafeAction
            | ProductSessionAccessibilityCommand::FocusConfirmAction => {
                step.focus = Some(ProductFocus::List);
            },
            ProductSessionAccessibilityCommand::ConfirmDialog => {
                let enabled: bool = match self.product_destructive_presentation() {
                    Some(dialog) => dialog.confirm_enabled,
                    None => false,
                };
                if enabled {
                    if self.sessions.pending_removal.is_some() {
                        step.operation = ProductOperation::ConfirmSessionRemoval;
                    } else if self.sessions.pending_stop_archive_review.is_some() {
                        step.operation = ProductOperation::ConfirmStopAndArchive;
                    }
                }
            },
            ProductSessionAccessibilityCommand::CancelDialog => {
                if self.sessions.pending_removal.is_some() {
                    step.operation = ProductOperation::CancelSessionRemoval;
                } else if self.sessions.pending_stop_archive_review.is_some() {
                    step.operation = ProductOperation::CancelStopAndArchive;
                } else if self.sidebar.pending_removal.is_some() {
                    step.operation = ProductOperation::CancelGroupRemoval;
                }
                step.focus = Some(ProductFocus::List);
            },
        }
        step
    }

    /// The inputs after a command: the text field that it sets takes the text.
    pub open spec fn inputs_after(
        self,
        step: ProductStep,
        value: Option<SemanticActionValue>,
    ) -> ProductInputs {
        match (step.set_input, value) {
            (Some(input), Some(SemanticActionValue::Text(text))) => match input {
                ProductInput::ProjectLabel => ProductInputs { project_label: text, ..self.inputs },
                ProductInput::GroupName => ProductInputs { group_name: text, ..self.inputs },
                ProductInput::SessionTitle => ProductInputs { session_title: text, ..self.inputs },
                ProductInput::RemovalConfirmation => ProductInputs {
                    removal_confirmation: text,
                    ..self.inputs
                },
            },
            _ => self.inputs,
        }
    }

    /// Carries out what a command does to the selection and the text fields, and
    /// returns what else it asks for.
    pub fn handle_product_session_accessibility_command(
        &mut self,
        command: ProductSessionAccessibilityCommand,
        value: Option<SemanticActionValue>,
    ) -> (step: ProductStep)
        ensures
            step == old(self).step(command, value),
            *final(self) == (ProductConsole {
                projects: ProjectLibraryState {
                    selected_id: if step.select_project is Some {
                        step.select_project
                    } else {
                        old(self).projects.selected_id
                    },
                    ..old(self).projects
                },
                sidebar: SessionSidebarState {
                    selected_session: if step.select_session is Some {
                        step.select_session
                    } else {
                        old(self).sidebar.selected_session
                    },
                    ..old(self).sidebar
                },
                inputs: old(self).inputs_after(step, value),
                ..*old(self)
            }),
            step.select_project matches Some(id) ==> final(self).projects.selected_id == Some(id),
            step.select_project is None ==> final(self).projects.selected_id == old(self).projects.selected_id,
            final(self).projects.snapshot == old(self).projects.snapshot,
    {
        let step: ProductStep = self.decide(command, &value);
        if step.select_project.is_some() {
            self.projects.selected_id = step.select_project;
        }
        if step.select_session.is_some() {
            self.sidebar.selected_session = step.select_session;
        }
        match (step.set_input, value) {
            (Some(input), Some(SemanticActionValue::Text(text))) => match input {
                ProductInput::ProjectLabel => {
                    self.inputs.project_label = text;
                },
                ProductInput::GroupName => {
                    self.inputs.group_name = text;
                },
                ProductInput::SessionTitle => {
                    self.inputs.session_title = text;
                },
                ProductInput::RemovalConfirmation => {
                    self.inputs.removal_confirmation = text;
                },
            },
            _ => {},
        }
        step
    }
}

/// Every enabled dialog is confirmed by the operation it presents, and a dialog
/// that cannot be confirmed is not.
pub proof fn law_dialog_confirms_what_it_presents(console: ProductConsole)
    ensures
        match console.destructive() {
            Some(dialog) if dialog.confirm_enabled => match dialog.kind {
                DestructiveActionKind::RemoveSessionData => console.confirm_operation()
                    == ProductOperation::ConfirmSessionRemoval,
                DestructiveActionKind::StopAndArchive => console.confirm_operation()
                    == ProductOperation::ConfirmStopAndArchive,
                DestructiveActionKind::RemoveGroup => false,
            },
            _ => console.confirm_operation() == ProductOperation::Nothing,
        },
{
}

/// Every open dialog can be cancelled.
pub proof fn law_every_dialog_can_be_cancelled(console: ProductConsole)
    ensures
        console.destructive() is Some <==> console.cancel_operation() != ProductOperation::Nothing,
{
}

/// No command acts on a project, group or session of another kind than the row
/// that was named, and none on a project or group that is unknown.
pub proof fn law_unknown_rows_do_nothing(console: ProductConsole, row: AccessibleRowId)
    ensures
        !console.knows_project(row) ==> console.control_operation(
            ProductSessionAction::RemoveProject(row),
        ) == ProductOperation::Nothing,
        !console.knows_group(row) ==> console.control_operation(
            ProductSessionAction::RemoveGroup(row),
        ) == ProductOperation::Nothing && console.control_operation(
            ProductSessionAction::ToggleGroup(row),
        ) == ProductOperation::Nothing,
        !console.knows_session(row) ==> console.control_operation(
            ProductSessionAction::BeginSessionRemoval(row),
        ) == ProductOperation::Nothing && console.control_operation(
            ProductSessionAction::StopSession(row),
        ) == ProductOperation::Nothing,
        !console.knows_project(row) && !console.knows_group(row) && !console.knows_session(row)
            ==> console.row_step(row, true) == no_step(),
{
}

/// Every operation on a session is asked for by the control made for it and by no
/// other, for the very session of its row.
pub proof fn law_session_operations_come_from_their_controls(
    console: ProductConsole,
    action: ProductSessionAction,
)
    ensures
        ({
            let asked = console.control_operation(action);
            &&& asked is BeginSessionRemoval ==> action is BeginSessionRemoval
            &&& asked is StopSession ==> action is StopSession
            &&& asked is ResumeSession ==> action is ResumeSession
            &&& asked is ArchiveOrStopSession ==> action is ArchiveOrStopSession
            &&& asked is RestoreSession ==> action is RestoreSession
            &&& asked is ToggleSessionPin ==> action is ToggleSessionPin
            &&& asked is ToggleSessionRead ==> action is ToggleSessionRead
            &&& asked is OpenSession ==> action is OpenSession
            &&& asked is BeginSessionRename ==> action is RenameSession
            &&& asked is MoveSession ==> action is MoveSession
            &&& asked is MoveSessionTo ==> action is MoveSessionToRoot
            &&& action matches ProductSessionAction::BeginSessionRemoval(row)
                ==> console.knows_session(row) ==> asked == ProductOperation::BeginSessionRemoval(
                HostedSessionId { value: row.value },
            )
            &&& action matches ProductSessionAction::StopSession(row) ==> console.knows_session(
                row,
            ) ==> asked == ProductOperation::StopSession(HostedSessionId { value: row.value })
            &&& action matches ProductSessionAction::ResumeSession(row) ==> console.knows_session(
                row,
            ) ==> asked == ProductOperation::ResumeSession(HostedSessionId { value: row.value })
            &&& action matches ProductSessionAction::RenameSession(row) ==> console.knows_session(
                row,
            ) ==> asked == ProductOperation::BeginSessionRename(
                HostedSessionId { value: row.value },
            )
            &&& action matches ProductSessionAction::MoveSession(row, direction)
                ==> console.knows_session(row) ==> asked == ProductOperation::MoveSession(
                HostedSessionId { value: row.value },
                direction,
            )
            &&& action matches ProductSessionAction::MoveSessionToRoot(row)
                ==> console.knows_session(row) ==> asked == ProductOperation::MoveSessionTo(
                HostedSessionId { value: row.value },
                GroupDestination::ProjectRoot,
            )
            &&& action matches ProductSessionAction::ArchiveOrStopSession(row) ==> row.kind
                is Session ==> asked == ProductOperation::ArchiveOrStopSession(
                HostedSessionId { value: row.value },
            )
            &&& action matches ProductSessionAction::RestoreSession(row) ==> row.kind
                is Session ==> asked == ProductOperation::RestoreSession(
                HostedSessionId { value: row.value },
            )
            &&& action matches ProductSessionAction::ToggleSessionPin(row) ==> row.kind
                is Session ==> asked == ProductOperation::ToggleSessionPin(
                HostedSessionId { value: row.value },
            )
            &&& action matches ProductSessionAction::ToggleSessionRead(row) ==> row.kind
                is Session ==> asked == ProductOperation::ToggleSessionRead(
                HostedSessionId { value: row.value },
            )
            &&& action matches ProductSessionAction::OpenSession(row) ==> row.kind
                is Session ==> asked == ProductOperation::OpenSession(
                HostedSessionId { value: row.value },
            )
            &&& action is SaveSessionTitle <==> asked is SaveSessionRename
            &&& action is CancelSessionTitle <==> asked is CancelSessionRename
            &&& !(asked is ConfirmSessionRemoval || asked is ConfirmStopAndArchive)
        }),
{
}

/// Every operation on a project, a group or a list is asked for by the control made
/// for it and by no other, for the very project or group of its row.
pub proof fn law_organizing_operations_come_from_their_controls(
    console: ProductConsole,
    action: ProductSessionAction,
)
    ensures
        ({
            let asked = console.control_operation(action);
            &&& asked is RemoveProject ==> action is RemoveProject
            &&& asked is RemoveGroupTo ==> action is RemoveGroupTo
            &&& asked is BeginGroupRemoval ==> action is RemoveGroup
            &&& asked is MoveGroup ==> action is MoveGroup
            &&& asked is SetGroupCollapsed ==> action is ToggleGroup
            &&& asked is OpenGroupEditor ==> action is AddGroup || action is RenameGroup
            &&& asked is RetryProjects <==> action is RetryProjects
            &&& asked is ChooseProjectFolder <==> action is AddProject
            &&& asked is CommitProjectAdd <==> action is ConfirmProjectAdd
            &&& asked is CancelProjectAdd <==> action is CancelProjectAdd
            &&& asked is UndoProjectRemoval <==> action is UndoProjectRemoval
            &&& asked is SaveGroupEditor <==> action is SaveGroup
            &&& asked is CancelGroupEditor <==> action is CancelGroup
            &&& asked is UndoOrganization <==> action is UndoOrganization
            &&& asked == ProductOperation::ShowView(SessionLibraryView::Active)
                <==> action is ShowActiveSessions
            &&& asked == ProductOperation::ShowView(SessionLibraryView::Archive)
                <==> action is ShowArchivedSessions
            &&& asked == ProductOperation::ShowFilter(SessionLibraryFilter::All)
                <==> action is FilterAllSessions
            &&& asked == ProductOperation::ShowFilter(SessionLibraryFilter::Unread)
                <==> action is FilterUnreadSessions
            &&& asked == ProductOperation::ShowFilter(SessionLibraryFilter::Pinned)
                <==> action is FilterPinnedSessions
            &&& action matches ProductSessionAction::RemoveProject(row) ==> console.knows_project(
                row,
            ) ==> asked == ProductOperation::RemoveProject(ProjectId { value: row.value })
            &&& action matches ProductSessionAction::AddGroup(row) ==> console.knows_project(row)
                ==> asked == ProductOperation::OpenGroupEditor(
                ProjectId { value: row.value },
                None,
            )
            &&& action matches ProductSessionAction::RenameGroup(row) ==> console.knows_group(row)
                ==> (asked matches ProductOperation::OpenGroupEditor(_, Some(group)) && group.value
                == row.value)
            &&& action matches ProductSessionAction::RemoveGroup(row) ==> console.knows_group(row)
                ==> asked == ProductOperation::BeginGroupRemoval(GroupId { value: row.value })
            &&& action matches ProductSessionAction::MoveGroup(row, direction)
                ==> console.knows_group(row) ==> asked == ProductOperation::MoveGroup(
                GroupId { value: row.value },
                direction,
            )
            &&& action matches ProductSessionAction::ToggleGroup(row) ==> console.knows_group(row)
                ==> (asked matches ProductOperation::SetGroupCollapsed(group, collapsed)
                && group.value == row.value && collapsed != console.projects.found_group(
                group,
            )->0.collapsed)
            &&& action matches ProductSessionAction::RemoveGroupTo(row, None)
                ==> console.knows_group(row) ==> asked == ProductOperation::RemoveGroupTo(
                GroupId { value: row.value },
                GroupDestination::ProjectRoot,
            )
            &&& action matches ProductSessionAction::RemoveGroupTo(row, Some(other))
                ==> console.knows_group(row) && console.knows_group(other) ==> asked
                == ProductOperation::RemoveGroupTo(
                GroupId { value: row.value },
                GroupDestination::Group(GroupId { value: other.value }),
            )
        }),
{
}

/// A row is known as what it stands for: as a project, a group or a session of its own
/// identity, and as nothing else.
pub proof fn law_rows_are_known_as_what_they_are(console: ProductConsole, row: AccessibleRowId)
    ensures
        console.knows_project(row) ==> row.kind is Project && console.projects.found(
            ProjectId { value: row.value },
        ) is Some,
        console.knows_group(row) ==> row.kind is Group && console.projects.found_group(
            GroupId { value: row.value },
        ) is Some,
        console.knows_session(row) ==> row.kind is Session && console.sessions.found(
            HostedSessionId { value: row.value },
        ) is Some,
        row.kind is Project && console.projects.found(ProjectId { value: row.value }) is Some
            ==> console.knows_project(row),
        row.kind is Group && console.projects.found_group(GroupId { value: row.value }) is Some
            ==> console.knows_group(row),
        row.kind is Session && console.sessions.found(HostedSessionId { value: row.value }) is Some
            ==> console.knows_session(row),
{
}

/// Activating a row selects what it stands for: a project itself, a group its project,
/// a session both itself and its project. A group is folded only when it is activated.
pub proof fn law_rows_select_what_they_stand_for(
    console: ProductConsole,
    row: AccessibleRowId,
    activate: bool,
)
    ensures
        ({
            let step = console.row_step(row, activate);
            &&& step.set_input is None
            &&& console.knows_project(row) ==> step.select_project == Some(
                ProjectId { value: row.value },
            ) && step.select_session is None && step.operation is Nothing
            &&& console.knows_session(row) ==> {
                &&& step.select_session == Some(HostedSessionId { value: row.value })
                &&& step.select_project == Some(
                    console.sessions.found(HostedSessionId { value: row.value })->0.project_id,
                )
                &&& step.operation == ProductOperation::RefreshArtifacts(
                    HostedSessionId { value: row.value },
                )
            }
            &&& console.knows_group(row) ==> {
                let group = console.projects.found_group(GroupId { value: row.value })->0;
                &&& step.select_project == Some(group.project_id)
                &&& step.select_session is None
                &&& activate ==> step.operation == ProductOperation::SetGroupCollapsed(
                    GroupId { value: row.value },
                    !group.collapsed,
                )
                &&& !activate ==> step.operation is Nothing
            }
        }),
{
}

/// A value goes to the field that was named, and only while what it belongs to is
/// open; only text is taken.
pub proof fn law_values_go_to_open_fields(
    console: ProductConsole,
    action: ProductSessionAction,
    value: Option<SemanticActionValue>,
)
    ensures
        ({
            let step = console.step(
                ProductSessionAccessibilityCommand::SetControlValue(action),
                value,
            );
            &&& step.operation is Nothing
            &&& step.set_input is Some ==> (value matches Some(SemanticActionValue::Text(_)))
            &&& step.set_input == Some(ProductInput::ProjectLabel) ==> action is SetProjectName
                && console.projects.add_draft is Some
            &&& step.set_input == Some(ProductInput::GroupName) ==> action is SetGroupName
                && console.sidebar.editor is Some
            &&& step.set_input == Some(ProductInput::SessionTitle) ==> action is SetSessionTitle
                && console.sessions.renaming is Some
            &&& step.set_input == Some(ProductInput::RemovalConfirmation)
                ==> action is SetSessionRemovalConfirmation && console.sessions.pending_removal
                is Some
        }),
{
}

/// Only confirming an open dialog confirms anything, cancelling one cancels it, and
/// moving the focus does nothing else.
pub proof fn law_commands_do_no_more_than_they_say(
    console: ProductConsole,
    command: ProductSessionAccessibilityCommand,
    value: Option<SemanticActionValue>,
)
    ensures
        ({
            let asked = console.step(command, value).operation;
            &&& asked is ConfirmSessionRemoval ==> command is ConfirmDialog && {
                &&& console.sessions.pending_removal matches Some(plan)
                &&& plan.manifest.requires_title_confirmation
                    ==> console.inputs.removal_confirmation@ == plan.title@
            }
            &&& asked is ConfirmStopAndArchive ==> command is ConfirmDialog
                && console.sessions.pending_stop_archive_review is Some
            &&& asked is CancelSessionRemoval ==> command is CancelDialog
                && console.sessions.pending_removal is Some
            &&& asked is CancelStopAndArchive ==> command is CancelDialog
                && console.sessions.pending_stop_archive_review is Some
            &&& asked is CancelGroupRemoval ==> command is CancelDialog
                && console.sidebar.pending_removal is Some
            &&& command is FocusControl || command is FocusSafeAction
                || command is FocusConfirmAction ==> asked is Nothing
            &&& asked is RemoveProject || asked is RemoveGroupTo || asked is StopSession
                ==> command is ActivateControl
        }),
{
}

/// The dialog presents the one destructive step that waits: removing the planned
/// session before stopping the reviewed one before removing the group. Removing a
/// session can be confirmed exactly once its title was typed where that is asked for.
pub proof fn law_the_dialog_presents_what_waits(console: ProductConsole)
    ensures
        ({
            let dialog = console.destructive();
            &&& dialog is None <==> console.sessions.pending_removal is None
                && console.sessions.pending_stop_archive_review is None
                && console.sidebar.pending_removal is None
            &&& console.sessions.pending_removal matches Some(plan) ==> {
                &&& dialog->0.kind is RemoveSessionData
                &&& dialog->0.target.kind is Session && dialog->0.target.value
                    == plan.session_id.value
                &&& dialog->0.revision == plan.expected_revision
                &&& dialog->0.confirm_enabled <==> !plan.manifest.requires_title_confirmation
                    || console.inputs.removal_confirmation@ == plan.title@
            }
            &&& console.sessions.pending_removal is None
                ==> (console.sessions.pending_stop_archive_review matches Some(id) ==> {
                &&& dialog->0.kind is StopAndArchive
                &&& dialog->0.target.kind is Session && dialog->0.target.value == id.value
                &&& dialog->0.confirm_enabled
            })
            &&& console.sessions.pending_removal is None
                && console.sessions.pending_stop_archive_review is None
                ==> (console.sidebar.pending_removal matches Some(pending) ==> {
                &&& dialog->0.kind is RemoveGroup
                &&& dialog->0.target.kind is Group && dialog->0.target.value
                    == pending.group_id.value
                &&& !dialog->0.confirm_enabled
            })
        }),
{
}

/// The surface is ready exactly where both stores are in order and something is shown;
/// what is wrong with a store comes before anything else.
pub proof fn law_the_surface_tells_what_is_wrong(
    load: ProjectLibraryLoadState,
    recovery: Option<SessionLibraryRecovery>,
    rows_empty: bool,
    filtered: bool,
)
    ensures
        ({
            let state = surface_state(load, recovery, rows_empty, filtered);
            let sound = load is Ready && recovery is None;
            &&& state is Ready <==> sound && !rows_empty
            &&& state is FilterEmpty <==> sound && rows_empty && filtered
            &&& state is Empty <==> sound && rows_empty && !filtered
            &&& state is Loading <==> load is Loading
            &&& state is Partial <==> load is Ready && recovery == Some(
                SessionLibraryRecovery::RecoveredLastGood,
            )
            &&& state is PermissionDenied <==> load is Ready && recovery == Some(
                SessionLibraryRecovery::PermissionDenied,
            )
            &&& state is Unavailable <==> load == ProjectLibraryLoadState::Failed(
                ProjectStoreFailure::Unavailable,
            ) || (load is Ready && recovery == Some(SessionLibraryRecovery::Unavailable))
        }),
{
}

/// An archived session can be restored, and removed where its data can go; any other
/// can be archived once it has ended, or stopped and archived while it runs.
pub proof fn law_archiving_follows_the_session(metadata: HostedSession, row: AccessibleRowId)
    ensures
        ({
            let c = archive_controls(metadata, row);
            &&& metadata.archived_at is Some ==> {
                &&& c.len() == 2
                &&& c[0].action == ProductSessionAction::RestoreSession(row) && !c[0].disabled
                &&& c[1].action == ProductSessionAction::BeginSessionRemoval(row) && c[1].disabled
                    == !metadata.removable
            }
            &&& metadata.archived_at is None ==> {
                &&& c.len() == 1
                &&& c[0].action == ProductSessionAction::ArchiveOrStopSession(row)
                &&& !c[0].disabled <==> metadata.can_stop || metadata.exited
                &&& c[0].name == MessageId::SessionLibraryStopArchiveAction <==> metadata.can_stop
            }
        }),
{
}

/// A session can be stopped exactly where it says so, opened where a host keeps it,
/// and resumed as offered; it can always be moved to the root of its project.
pub proof fn law_session_controls_follow_the_session(
    console: ProductConsole,
    record: SavedAppAttachedSession,
    metadata: HostedSession,
    row: AccessibleRowId,
    evaluation: Result<(), ResumeError>,
    i: int,
)
    requires
        0 <= i < record_controls(console, record, metadata, row, evaluation).len(),
    ensures
        ({
            let c = record_controls(console, record, metadata, row, evaluation);
            let offer = session_resume::resume_offer(record, evaluation);
            &&& c[i].action is StopSession ==> metadata.can_stop
            &&& c[i].action is OpenSession ==> record.route == SessionLaunchRoute::DurableHost
            &&& c[i].action is ResumeSession ==> offer.visible && c[i].disabled == !offer.enabled
            &&& c[i].action is StopSession ==> c[i].action == ProductSessionAction::StopSession(
                row,
            )
            &&& !(c[i].action is BeginSessionRemoval || c[i].action is ArchiveOrStopSession)
            &&& c[i].parent == Some(row) || c[i].action is MoveSession
            &&& c.last().action == ProductSessionAction::MoveSessionToRoot(row)
        }),
{
}

/// The tabs mark the list and the filter that are shown, each exactly one.
pub proof fn law_tabs_mark_what_is_shown(library: SessionLibraryState, i: int)
    requires
        0 <= i < session_tabs(library).len(),
    ensures
        ({
            let t = session_tabs(library);
            &&& t.len() == 5
            &&& !t[i].disabled && t[i].role is Tab
            &&& t[i].action is ShowActiveSessions ==> t[i].selected == (library.view is Active)
            &&& t[i].action is ShowArchivedSessions ==> t[i].selected == (library.view is Archive)
            &&& t[i].action is FilterAllSessions ==> t[i].selected == (library.filter is All)
            &&& t[i].action is FilterUnreadSessions ==> t[i].selected == (library.filter is Unread)
            &&& t[i].action is FilterPinnedSessions ==> t[i].selected == (library.filter is Pinned)
            &&& t[0].action is ShowActiveSessions && t[1].action is ShowArchivedSessions
            &&& t[2].action is FilterAllSessions && t[3].action is FilterUnreadSessions
                && t[4].action is FilterPinnedSessions
        }),
{
}

/// The controls of a group act on that very group: the first cannot go up nor the last
/// down, and folding is named by what it does.
pub proof fn law_group_controls_act_on_their_group(group: Group, index: int, count: int)
    ensures
        ({
            let c = controls_of_group(group, index, count);
            let row = AccessibleRowId { kind: AccessibleRowKind::Group, value: group.id.value };
            &&& c.len() == 5
            &&& c[0].action == ProductSessionAction::ToggleGroup(row)
            &&& c[0].name == MessageId::GroupExpandAction <==> group.collapsed
            &&& c[0].name == MessageId::GroupCollapseAction <==> !group.collapsed
            &&& c[1].action == ProductSessionAction::MoveGroup(row, ProductMoveDirection::Up)
                && c[1].disabled == (index == 0)
            &&& c[2].action == ProductSessionAction::MoveGroup(row, ProductMoveDirection::Down)
                && c[2].disabled == (index + 1 == count)
            &&& c[3].action == ProductSessionAction::RenameGroup(row) && !c[3].disabled
            &&& c[4].action == ProductSessionAction::RemoveGroup(row) && !c[4].disabled
        }),
{
}

/// A session can be moved up unless it is the first of its list and down unless it is
/// the last.
pub proof fn law_position_controls_stop_at_the_ends(
    list: Seq<SavedAppAttachedSession>,
    id: HostedSessionId,
    i: int,
)
    requires
        0 <= i < list.len(),
        list[i].id == id,
        forall|k: int| 0 <= k < i ==> (#[trigger] list[k]).id != id,
    ensures
        ({
            let c = position_controls(list, id);
            let row = AccessibleRowId { kind: AccessibleRowKind::Session, value: id.value };
            &&& c.len() == 2
            &&& c[0].action == ProductSessionAction::MoveSession(row, ProductMoveDirection::Up)
            &&& c[0].disabled == (i == 0)
            &&& c[1].action == ProductSessionAction::MoveSession(row, ProductMoveDirection::Down)
            &&& c[1].disabled == (i + 1 == list.len())
        }),
{
    lists::lemma_first_index(list, saved_state::is_record(id), i);
}

/// The sessions of a removed group can go to the root or to another group, never to
/// the removed one.
pub proof fn law_a_removed_group_is_no_destination(groups: Seq<Group>, removed: GroupId, i: int)
    requires
        0 <= i < destination_controls(groups, removed).len(),
    ensures
        destination_controls(groups, removed)[i].action matches ProductSessionAction::RemoveGroupTo(
            row,
            Some(other),
        ) && {
            &&& row.kind is Group && row.value == removed.value
            &&& other.kind is Group && other.value != removed.value
            &&& exists|k: int|
                0 <= k < groups.len() && (#[trigger] groups[k]).id.value == other.value
        },
    decreases groups.len(),
{
    let t = groups.drop_last();
    let front = destination_controls(t, removed);
    if i < front.len() {
        law_a_removed_group_is_no_destination(t, removed, i);
        assert(destination_controls(groups, removed)[i] == front[i]);
        if let ProductSessionAction::RemoveGroupTo(row, Some(other)) = front[i].action {
            let k = choose|k: int| 0 <= k < t.len() && (#[trigger] t[k]).id.value == other.value;
            assert(groups[k] == t[k]);
        }
    } else {
        assert(groups[groups.len() - 1] == groups.last());
    }
}

/// Adding a project can be confirmed only once its folder was reviewed, and cancelled
/// from the moment it was chosen.
pub proof fn law_adding_is_confirmed_after_review(console: ProductConsole, i: int)
    requires
        0 <= i < adding_controls(console).len(),
    ensures
        ({
            let c = adding_controls(console);
            &&& c[i].action is ConfirmProjectAdd ==> console.projects.add_draft is Some
            &&& c[i].action is SetProjectName ==> console.projects.add_draft is Some
            &&& c.last().action is CancelProjectAdd
            &&& c[i].action is ConfirmProjectAdd || c[i].action is SetProjectName
                || c[i].action is CancelProjectAdd
        }),
{
}

/// The row of a session stands for it: under its identity, title and state, selected
/// where it is the selected one, unread where it is unread.
pub proof fn law_session_rows_stand_for_their_session(
    metadata: HostedSession,
    parent: AccessibleRowId,
    selected: Option<HostedSessionId>,
    index: int,
    set_size: int,
)
    requires
        0 <= index < set_size < usize::MAX,
    ensures
        ({
            let row = session_row(metadata, parent, selected, index, set_size);
            &&& row.id.kind is Session && row.id.value == metadata.id.value
            &&& row.parent == Some(parent)
            &&& row.level is Session
            &&& row.name == Text::Value(metadata.title)
            &&& row.selected <==> selected == Some(metadata.id)
            &&& row.unread == metadata.unread
            &&& row.position == index + 1 && row.set_size == set_size
            &&& row.position <= row.set_size
        }),
{
}

/// The row of a project stands for it: selected where it is the selected one, disabled
/// where it is not available or not known, and unfolded where its children are shown.
pub proof fn law_project_rows_stand_for_their_project(
    console: ProductConsole,
    screen: ProductSessionScreen,
    id: ProjectId,
    index: int,
    set_size: int,
)
    ensures
        ({
            let row = console.project_row(screen, id, index, set_size);
            &&& row.id.kind is Project && row.id.value == id.value
            &&& row.parent is None
            &&& row.level is Project
            &&& row.selected <==> console.projects.selected_id == Some(id)
            &&& row.disabled <==> !(console.projects.found(id) matches Some(summary)
                && summary.status is Available)
            &&& row.expanded == Some(
                screen is Sessions || console.projects.selected_id == Some(id),
            )
            &&& console.projects.found(id) matches Some(summary) ==> row.name == Text::Value(
                summary.project.display_name,
            )
        }),
{
}

/// The row of a group is unfolded exactly where the group is not collapsed.
pub proof fn law_group_rows_stand_for_their_group(
    group: Group,
    parent: AccessibleRowId,
    index: int,
    set_size: int,
)
    ensures
        ({
            let row = group_row(group, parent, index, set_size);
            &&& row.id.kind is Group && row.id.value == group.id.value
            &&& row.parent == Some(parent)
            &&& row.level is Group
            &&& row.name == Text::Value(group.name)
            &&& row.expanded == Some(!group.collapsed)
            &&& !row.selected
        }),
{
}

/// A text that is given to an open field is taken over in that field as it is,
/// and no other field changes.
pub proof fn law_given_texts_are_taken_over(
    console: ProductConsole,
    action: ProductSessionAction,
    given: String,
)
    ensures
        ({
            let value = Some(SemanticActionValue::Text(given));
            let step = console.step(
                ProductSessionAccessibilityCommand::SetControlValue(action),
                value,
            );
            let after = console.inputs_after(step, value);
            &&& after.project_label == given || after.project_label == console.inputs.project_label
            &&& step.set_input is None ==> after == console.inputs
            &&& step.set_input == Some(ProductInput::ProjectLabel) ==> after == (ProductInputs {
                project_label: given,
                ..console.inputs
            })
            &&& step.set_input == Some(ProductInput::GroupName) ==> after == (ProductInputs {
                group_name: given,
                ..console.inputs
            })
            &&& step.set_input == Some(ProductInput::SessionTitle) ==> after == (ProductInputs {
                session_title: given,
                ..console.inputs
            })
            &&& step.set_input == Some(ProductInput::RemovalConfirmation) ==> after == (
            ProductInputs { removal_confirmation: given, ..console.inputs })
        }),
{
}

/// Exactly the projects that are available can be removed.
pub proof fn law_available_projects_can_be_removed(
    projects: Seq<ProjectSummary>,
    k: int,
)
    requires
        0 <= k < projects.len(),
    ensures
        projects[k].status is Available ==> exists|i: int|
            0 <= i < removal_controls(projects).len() && (#[trigger] removal_controls(
                projects,
            )[i]).action == ProductSessionAction::RemoveProject(
                ids::project_row(projects[k].project.id),
            ),
    decreases projects.len(),
{
    let rest = projects.drop_last();
    let before = removal_controls(rest);
    let all = removal_controls(projects);
    if projects[k].status is Available {
        if k < rest.len() {
            law_available_projects_can_be_removed(rest, k);
            let i = choose|i: int|
                0 <= i < before.len() && (#[trigger] before[i]).action
                    == ProductSessionAction::RemoveProject(ids::project_row(rest[k].project.id));
            assert(all[i] == before[i]);
        } else {
            assert(all[before.len() as int].action == ProductSessionAction::RemoveProject(
                ids::project_row(projects[k].project.id),
            ));
        }
    }
}

/// A control of removal removes a project of the list that is available.
pub proof fn law_removal_controls_act_on_available_projects(
    projects: Seq<ProjectSummary>,
    i: int,
)
    requires
        0 <= i < removal_controls(projects).len(),
    ensures
        removal_controls(projects)[i].action is RemoveProject,
        !removal_controls(projects)[i].disabled,
        exists|k: int|
            0 <= k < projects.len() && (#[trigger] projects[k]).status is Available
                && removal_controls(projects)[i].action == ProductSessionAction::RemoveProject(
                ids::project_row(projects[k].project.id),
            ),
    decreases projects.len(),
{
    let rest = projects.drop_last();
    let before = removal_controls(rest);
    let all = removal_controls(projects);
    if i < before.len() {
        law_removal_controls_act_on_available_projects(rest, i);
        let k = choose|k: int|
            0 <= k < rest.len() && (#[trigger] rest[k]).status is Available && before[i].action
                == ProductSessionAction::RemoveProject(ids::project_row(rest[k].project.id));
        assert(projects[k] == rest[k]);
    } else {
        assert(projects[projects.len() - 1].status is Available);
    }
}

/// The controls of a list of groups are those of its groups, five for each, in
/// their order.
pub proof fn law_every_group_has_its_controls(groups: Seq<Group>, n: int, k: int, j: int)
    requires
        0 <= k < n <= groups.len(),
        0 <= j < 5,
    ensures
        controls_of_groups(groups, n).len() == 5 * n,
        controls_of_groups(groups, n)[5 * k + j] == controls_of_group(
            groups[k],
            k,
            groups.len() as int,
        )[j],
    decreases n,
{
    if n > 1 {
        law_every_group_has_its_controls(
            groups,
            n - 1,
            if k < n - 1 {
                k
            } else {
                0
            },
            j,
        );
    } else {
        assert(controls_of_groups(groups, 0).len() == 0);
    }
}

/// On the screen of projects one can be added unless that is under way; what was
/// removed, or moved, can be taken back where there is such a thing, and the
/// controls of an editor or a removal are there only with it.
pub proof fn law_the_project_screen_offers_what_is_open(console: ProductConsole, i: int)
    requires
        0 <= i < project_screen_controls(console).len(),
    ensures
        ({
            let controls = project_screen_controls(console);
            let c = controls[i];
            &&& controls[0].action is AddProject
            &&& controls[0].disabled <==> console.projects.add_draft is Some
                || console.projects.add_validation is Some
            &&& c.action is ConfirmProjectAdd || c.action is SetProjectName
                ==> console.projects.add_draft is Some
            &&& c.action is CancelProjectAdd ==> console.projects.add_draft is Some
                || console.projects.add_validation is Some
            &&& c.action is UndoProjectRemoval ==> console.projects.pending_removal is Some
            &&& c.action is UndoOrganization ==> console.sidebar.pending_undo is Some
            &&& c.action is SetGroupName || c.action is SaveGroup || c.action is CancelGroup
                ==> console.sidebar.editor is Some
            &&& c.action is RemoveGroupTo ==> console.sidebar.pending_removal is Some
            &&& c.action matches ProductSessionAction::AddGroup(row) ==> (
            console.projects.selected_id matches Some(id) && row == ids::project_row(id))
            &&& c.action is SetGroupName ==> c.value == Some(console.inputs.group_name)
            &&& c.action is SetProjectName ==> c.value == Some(console.inputs.project_label)
        }),
{
    let removal = removal_controls(console.projects.projects());
    let selected = selected_project_controls(console.projects);
    let pending = match console.sidebar.pending_removal {
        Some(pending) => pending_removal_controls(console.projects, pending.group_id),
        None => Seq::empty(),
    };
    lemma_screen_parts(console, i);
    lemma_plain_parts(console);
    let c = project_screen_controls(console)[i];
    if removal.contains(c) {
        let k = choose|k: int| 0 <= k < removal.len() && removal[k] == c;
        law_removal_controls_act_on_available_projects(console.projects.projects(), k);
    } else if selected.contains(c) {
        let k = choose|k: int| 0 <= k < selected.len() && selected[k] == c;
        lemma_selected_controls(console.projects, k);
    } else if pending.contains(c) {
        let k = choose|k: int| 0 <= k < pending.len() && pending[k] == c;
        lemma_pending_controls(console.projects, console.sidebar.pending_removal->0.group_id, k);
    }
}

/// A control of the screen of projects that is there on its own.
spec fn stands_alone(console: ProductConsole, c: ProductSessionControl) -> bool {
    ||| c.action is AddProject
    ||| c.action is SetProjectName && console.projects.add_draft is Some && c.value == Some(
        console.inputs.project_label,
    )
    ||| c.action is ConfirmProjectAdd && console.projects.add_draft is Some
    ||| c.action is CancelProjectAdd && (console.projects.add_draft is Some
        || console.projects.add_validation is Some)
    ||| c.action is UndoProjectRemoval && console.projects.pending_removal is Some
    ||| c.action is UndoOrganization && console.sidebar.pending_undo is Some
    ||| c.action is SetGroupName && console.sidebar.editor is Some && c.value == Some(
        console.inputs.group_name,
    )
    ||| (c.action is SaveGroup || c.action is CancelGroup) && console.sidebar.editor is Some
}

spec fn undo_project_controls(console: ProductConsole) -> Seq<ProductSessionControl> {
    lists::optional(
        console.projects.pending_removal is Some,
        button(ProductSessionAction::UndoProjectRemoval, MessageId::ProjectUndoAction, None),
    )
}

spec fn undo_controls(console: ProductConsole) -> Seq<ProductSessionControl> {
    lists::optional(
        console.sidebar.pending_undo is Some,
        button(ProductSessionAction::UndoOrganization, MessageId::GroupUndoAction, None),
    )
}

spec fn open_editor_controls(console: ProductConsole) -> Seq<ProductSessionControl> {
    lists::optional_list(
        console.sidebar.editor is Some,
        editor_controls(console.inputs.group_name),
    )
}

spec fn first_control(console: ProductConsole) -> ProductSessionControl {
    disabled_if(
        button(ProductSessionAction::AddProject, MessageId::ProjectsAddAction, None),
        console.projects.add_draft is Some || console.projects.add_validation is Some,
    )
}

proof fn lemma_plain_parts(console: ProductConsole)
    ensures
        stands_alone(console, first_control(console)),
        forall|c: ProductSessionControl| #[trigger]
            adding_controls(console).contains(c) ==> stands_alone(console, c),
        forall|c: ProductSessionControl| #[trigger]
            undo_project_controls(console).contains(c) ==> stands_alone(console, c),
        forall|c: ProductSessionControl| #[trigger]
            undo_controls(console).contains(c) ==> stands_alone(console, c),
        forall|c: ProductSessionControl| #[trigger]
            open_editor_controls(console).contains(c) ==> stands_alone(console, c),
{
}

proof fn lemma_joined(
    a: Seq<ProductSessionControl>,
    b: Seq<ProductSessionControl>,
    i: int,
)
    requires
        0 <= i < (a + b).len(),
    ensures
        i < a.len() ==> (a + b)[i] == a[i],
        i >= a.len() ==> b.contains((a + b)[i]),
{
    if i >= a.len() {
        assert(b[i - a.len()] == (a + b)[i]);
    }
}

proof fn lemma_screen_parts(console: ProductConsole, i: int)
    requires
        0 <= i < project_screen_controls(console).len(),
    ensures
        ({
            let c = project_screen_controls(console)[i];
            ||| c == first_control(console)
            ||| adding_controls(console).contains(c)
            ||| undo_project_controls(console).contains(c)
            ||| removal_controls(console.projects.projects()).contains(c)
            ||| selected_project_controls(console.projects).contains(c)
            ||| undo_controls(console).contains(c)
            ||| open_editor_controls(console).contains(c)
            ||| (match console.sidebar.pending_removal {
                Some(pending) => pending_removal_controls(console.projects, pending.group_id),
                None => Seq::empty(),
            }).contains(c)
        }),
        project_screen_controls(console)[0] == first_control(console),
{
    let one = Seq::empty() + seq![first_control(console)];
    let two = one + adding_controls(console);
    let three = two + undo_project_controls(console);
    let four = three + removal_controls(console.projects.projects());
    let five = four + selected_project_controls(console.projects);
    let six = five + undo_controls(console);
    let seven = six + open_editor_controls(console);
    let pending = match console.sidebar.pending_removal {
        Some(pending) => pending_removal_controls(console.projects, pending.group_id),
        None => Seq::empty(),
    };
    let all = seven + pending;
    assert(all == project_screen_controls(console));
    lemma_joined(seven, pending, i);
    if i < seven.len() {
        lemma_joined(six, open_editor_controls(console), i);
    }
    if i < six.len() {
        lemma_joined(five, undo_controls(console), i);
    }
    if i < five.len() {
        lemma_joined(four, selected_project_controls(console.projects), i);
    }
    if i < four.len() {
        lemma_joined(three, removal_controls(console.projects.projects()), i);
    }
    if i < three.len() {
        lemma_joined(two, undo_project_controls(console), i);
    }
    if i < two.len() {
        lemma_joined(one, adding_controls(console), i);
    }
    assert(one.len() == 1 && one[0] == first_control(console));
    assert(two[0] == one[0]);
    assert(three[0] == two[0]);
    assert(four[0] == three[0]);
    assert(five[0] == four[0]);
    assert(six[0] == five[0]);
    assert(seven[0] == six[0]);
    assert(all[0] == seven[0]);
}

proof fn lemma_selected_controls(projects: ProjectLibraryState, i: int)
    requires
        0 <= i < selected_project_controls(projects).len(),
    ensures
        ({
            let action = selected_project_controls(projects)[i].action;
            action is ToggleGroup || action is MoveGroup || action is RenameGroup || action
                is RemoveGroup || (projects.selected_id matches Some(id) && action
                == ProductSessionAction::AddGroup(ids::project_row(id)))
        }),
{
    if let Some(id) = projects.selected_id {
        let groups = projects.groups_of(id);
        lemma_group_controls(groups, groups.len() as int);
        if i > 0 {
            assert(selected_project_controls(projects)[i] == controls_of_groups(
                groups,
                groups.len() as int,
            )[i - 1]);
        }
    }
}

proof fn lemma_pending_controls(projects: ProjectLibraryState, removed: GroupId, i: int)
    requires
        0 <= i < pending_removal_controls(projects, removed).len(),
    ensures
        pending_removal_controls(projects, removed)[i].action is RemoveGroupTo,
{
    if let Some(group) = projects.found_group(removed) {
        let destinations = destination_controls(projects.groups_of(group.project_id), removed);
        lemma_destination_controls(projects.groups_of(group.project_id), removed);
        if i > 0 {
            assert(pending_removal_controls(projects, removed)[i] == destinations[i - 1]);
        }
    }
}

proof fn lemma_group_controls(groups: Seq<Group>, n: int)
    requires
        0 <= n <= groups.len(),
    ensures
        forall|i: int|
            0 <= i < controls_of_groups(groups, n).len() ==> ({
                let action = (#[trigger] controls_of_groups(groups, n)[i]).action;
                action is ToggleGroup || action is MoveGroup || action is RenameGroup || action
                    is RemoveGroup
            }),
    decreases n,
{
    if n > 0 {
        lemma_group_controls(groups, n - 1);
        let before = controls_of_groups(groups, n - 1);
        let all = controls_of_groups(groups, n);
        assert forall|i: int| 0 <= i < all.len() implies ({
            let action = (#[trigger] all[i]).action;
            action is ToggleGroup || action is MoveGroup || action is RenameGroup || action
                is RemoveGroup
        }) by {
            if i < before.len() {
                assert(all[i] == before[i]);
            }
        }
    }
}

proof fn lemma_destination_controls(groups: Seq<Group>, removed: GroupId)
    ensures
        forall|i: int|
            0 <= i < destination_controls(groups, removed).len() ==> (#[trigger] destination_controls(
                groups,
                removed,
            )[i]).action is RemoveGroupTo,
    decreases groups.len(),
{
    if groups.len() > 0 {
        lemma_destination_controls(groups.drop_last(), removed);
        let before = destination_controls(groups.drop_last(), removed);
        let all = destination_controls(groups, removed);
        assert forall|i: int| 0 <= i < all.len() implies (#[trigger] all[i]).action
            is RemoveGroupTo by {
            if i < before.len() {
                assert(all[i] == before[i]);
            }
        }
    }
}

/// Each of these is offered wherever it is called for.
pub proof fn law_what_waits_can_be_taken_back(console: ProductConsole)
    ensures
        console.projects.pending_removal is Some ==> exists|i: int|
            0 <= i < project_screen_controls(console).len() && (#[trigger] project_screen_controls(
                console,
            )[i]).action is UndoProjectRemoval,
{
    if console.projects.pending_removal is Some {
        let i = 1 + adding_controls(console).len() as int;
        assert(project_screen_controls(console)[i].action is UndoProjectRemoval);
    }
}

/// The controls of the selected session act on it; pinning and reading are called
/// by what they would do.
pub proof fn law_the_selected_session_has_its_controls(
    console: ProductConsole,
    id: HostedSessionId,
    metadata: HostedSession,
    evaluation: Result<(), ResumeError>,
)
    ensures
        ({
            let controls = session_controls(console, id, metadata, evaluation);
            let row = ids::session_row(id);
            &&& controls.len() >= 4
            &&& controls[0].action == ProductSessionAction::RenameSession(row)
            &&& controls[1].action == ProductSessionAction::ToggleSessionPin(row)
            &&& controls[1].name == MessageId::SessionLibraryUnpinAction <==> metadata.pinned
            &&& controls[1].name == MessageId::SessionLibraryPinAction <==> !metadata.pinned
            &&& controls[2].action == ProductSessionAction::ToggleSessionRead(row)
            &&& controls[2].name == MessageId::SessionLibraryMarkReadAction <==> metadata.unread
            &&& controls[2].name == MessageId::SessionLibraryMarkUnreadAction <==> !metadata.unread
            &&& controls[2].disabled <==> !metadata.unread && metadata.last_output_sequence == 0
            &&& !controls[0].disabled && !controls[1].disabled
            &&& controls[0].parent == Some(row) && controls[1].parent == Some(row)
                && controls[2].parent == Some(row)
            &&& controls.last().action is SetSessionRemovalConfirmation <==> (
            console.sessions.pending_removal matches Some(plan) && plan.session_id == id
                && plan.manifest.requires_title_confirmation)
            &&& controls.last().action is SetSessionRemovalConfirmation ==> controls.last().value
                == Some(console.inputs.removal_confirmation) && controls.last().in_dialog
        }),
{
}

/// A failed store offers another try and nothing else.
pub proof fn law_a_failed_store_offers_another_try(
    console: ProductConsole,
    screen: ProductSessionScreen,
    evaluation: Result<(), ResumeError>,
)
    requires
        console.projects.load_state is Failed,
    ensures
        console.controls(screen, evaluation).len() == 1,
        console.controls(screen, evaluation)[0].action is RetryProjects,
        !console.controls(screen, evaluation)[0].disabled,
{
}

/// The rows of a list's sessions stand below their parent and count from one, in
/// a set of the given size; a session that the library does not know has none.
pub proof fn law_session_rows_stand_below_their_parent(
    list: Seq<SavedAppAttachedSession>,
    n: int,
    parent: AccessibleRowId,
    library: SessionLibraryState,
    selected: Option<HostedSessionId>,
    set_size: int,
    i: int,
)
    requires
        0 <= n <= list.len() < usize::MAX,
        0 <= i < session_rows(list, n, parent, library, selected, set_size).len(),
    ensures
        ({
            let row = session_rows(list, n, parent, library, selected, set_size)[i];
            &&& row.parent == Some(parent)
            &&& row.level is Session
            &&& 1 <= row.position <= n
            &&& row.id.kind is Session
            &&& row.expanded is None
            &&& !row.disabled
            &&& row.selected <==> (selected matches Some(id) && row.id.value == id.value)
            &&& library.found(list[row.position - 1].id) matches Some(metadata) && row.id.value
                == metadata.id.value && row.unread == metadata.unread && row.name == Text::Value(
                metadata.title,
            )
        }),
    decreases n,
{
    if n > 0 {
        let before = session_rows(list, n - 1, parent, library, selected, set_size);
        if i < before.len() {
            law_session_rows_stand_below_their_parent(
                list,
                n - 1,
                parent,
                library,
                selected,
                set_size,
                i,
            );
        }
    }
}

/// A project is named by the store, else by what a session of it remembers, else
/// by the word for projects.
pub proof fn law_projects_are_named_as_far_as_known(
    console: ProductConsole,
    id: ProjectId,
    k: int,
)
    requires
        0 <= k < console.saved.app_attached_sessions@.len(),
    ensures
        console.projects.found(id) matches Some(summary) ==> console.project_name(id)
            == Text::Value(summary.project.display_name),
        console.projects.found(id) is None && console.saved.app_attached_sessions@[k].origin.project_id
            == id && (forall|j: int|
            0 <= j < k ==> (#[trigger] console.saved.app_attached_sessions@[j]).origin.project_id
                != id) ==> console.project_name(id) == Text::Value(
            console.saved.app_attached_sessions@[k].project_label,
        ),
{
    let records = console.saved.app_attached_sessions@;
    if records[k].origin.project_id == id && (forall|j: int|
        0 <= j < k ==> (#[trigger] records[j]).origin.project_id != id) {
        lists::lemma_first_index(records, of_project(id), k);
    }
}

proof fn lemma_without_repeats(s: Seq<ProjectId>, x: ProjectId)
    ensures
        without_repeats(s).contains(x) <==> s.contains(x),
        s.len() > 0 ==> without_repeats(s).len() > 0 && without_repeats(s).last() == s.last(),
    decreases s.len(),
{
    if s.len() > 0 {
        let t = s.drop_last();
        lemma_without_repeats(t, x);
        let before = without_repeats(t);
        let now = without_repeats(s);
        if s.contains(x) {
            let i = choose|i: int| 0 <= i < s.len() && s[i] == x;
            if i < t.len() {
                assert(t[i] == x);
                let j = choose|j: int| 0 <= j < before.len() && before[j] == x;
                assert(now[j] == x);
            } else {
                assert(now[now.len() - 1] == x);
            }
        }
        if now.contains(x) {
            let j = choose|j: int| 0 <= j < now.len() && now[j] == x;
            if j < before.len() {
                assert(before[j] == x);
                let i = choose|i: int| 0 <= i < t.len() && t[i] == x;
                assert(s[i] == x);
            } else {
                assert(s[s.len() - 1] == x);
            }
        }
    }
}

/// The screen of sessions shows the projects of the sessions that are shown; the
/// screen of projects shows all of them, in the store's order.
pub proof fn law_screens_show_their_projects(console: ProductConsole, x: ProjectId)
    ensures
        console.shown_projects(ProductSessionScreen::Sessions).contains(x) <==> exists|i: int|
            0 <= i < console.sessions.visible_all().len()
                && (#[trigger] console.sessions.visible_all()[i]).project_id == x,
        console.shown_projects(ProductSessionScreen::Projects).len()
            == console.projects.projects().len(),
        forall|i: int|
            0 <= i < console.projects.projects().len() ==> (#[trigger] console.shown_projects(
                ProductSessionScreen::Projects,
            )[i]) == console.projects.projects()[i].project.id,
{
    let sessions = console.sessions.visible_all();
    let all = sessions.map_values(|s: HostedSession| s.project_id);
    let sorted = lists::stable_sort(all, project_before());
    assert(lists::weak_order(project_before()));
    lists::lemma_sorted_members(all, project_before(), x);
    lemma_without_repeats(sorted, x);
    if all.contains(x) {
        let i = choose|i: int| 0 <= i < all.len() && all[i] == x;
        assert(sessions[i].project_id == x);
    }
    if exists|i: int| 0 <= i < sessions.len() && (#[trigger] sessions[i]).project_id == x {
        let i = choose|i: int| 0 <= i < sessions.len() && (#[trigger] sessions[i]).project_id == x;
        assert(all[i] == x);
    }
}

/// A project's children are shown on the screen of sessions, and on the screen of
/// projects for the selected one.
pub proof fn law_children_are_shown_for_the_selected_project(
    console: ProductConsole,
    screen: ProductSessionScreen,
    id: ProjectId,
)
    ensures
        console.shows_children(screen, id) <==> screen is Sessions || console.projects.selected_id
            == Some(id),
        console.project_row(screen, id, 0, 1).expanded == Some(console.shows_children(screen, id)),
{
}

/// A group's controls are called by what they do.
pub proof fn law_group_controls_are_called_by_what_they_do(
    group: Group,
    i: int,
    count: int,
    j: int,
)
    requires
        0 <= j < 5,
    ensures
        ({
            let c = controls_of_group(group, i, count)[j];
            &&& c.action is ToggleGroup ==> (c.name == MessageId::GroupExpandAction
                <==> group.collapsed) && (c.name == MessageId::GroupCollapseAction
                <==> !group.collapsed)
            &&& c.action matches ProductSessionAction::MoveGroup(_, direction) ==> (c.name
                == MessageId::GroupMoveUpAction <==> direction is Up) && (c.name
                == MessageId::GroupMoveDownAction <==> direction is Down)
            &&& c.name == MessageId::GroupRenameAction <==> c.action is RenameGroup
            &&& c.name == MessageId::GroupRemoveAction <==> c.action is RemoveGroup
            &&& c.role is Button && c.value is None && !c.in_dialog
        }),
{
}

/// What is done with a session's record is called by what it does.
pub proof fn law_record_controls_are_called_by_what_they_do(
    list: Seq<SavedAppAttachedSession>,
    id: HostedSessionId,
    metadata: HostedSession,
    row: AccessibleRowId,
    library: SessionLibraryState,
    i: int,
)
    requires
        0 <= i,
    ensures
        i < position_controls(list, id).len() ==> (position_controls(list, id)[i].action
            matches ProductSessionAction::MoveSession(_, direction) && (position_controls(list, id)[
        i].name == MessageId::GroupMoveUpAction <==> direction is Up) && (position_controls(
            list,
            id,
        )[i].name == MessageId::GroupMoveDownAction <==> direction is Down)),
        i < archive_controls(metadata, row).len() ==> ({
            let c = archive_controls(metadata, row)[i];
            &&& c.name == MessageId::SessionLibraryRestoreAction <==> c.action is RestoreSession
            &&& c.name == MessageId::SessionLibraryRemoveAction <==> c.action is BeginSessionRemoval
            &&& c.action is ArchiveOrStopSession ==> (c.name
                == MessageId::SessionLibraryStopArchiveAction <==> metadata.can_stop) && (c.name
                == MessageId::SessionLibraryArchiveAction <==> !metadata.can_stop)
        }),
        i < session_tabs(library).len() ==> ({
            let c = session_tabs(library)[i];
            &&& c.name == MessageId::SessionLibraryActiveView <==> c.action is ShowActiveSessions
            &&& c.name == MessageId::SessionLibraryArchiveView <==> c.action is ShowArchivedSessions
            &&& c.name == MessageId::SessionLibraryFilterAll <==> c.action is FilterAllSessions
            &&& c.name == MessageId::SessionLibraryFilterUnread <==> c.action
                is FilterUnreadSessions
            &&& c.name == MessageId::SessionLibraryFilterPinned <==> c.action
                is FilterPinnedSessions
            &&& c.role is Tab && !c.disabled
        }),
{
}

/// A session's record is opened where a host runs it, stopped while it can be,
/// resumed where that is offered, and moved to the top; each is called by what
/// it does and acts on that session.
pub proof fn law_records_are_opened_stopped_and_resumed(
    console: ProductConsole,
    record: SavedAppAttachedSession,
    metadata: HostedSession,
    row: AccessibleRowId,
    evaluation: Result<(), ResumeError>,
    i: int,
)
    requires
        0 <= i < record_controls(console, record, metadata, row, evaluation).len(),
    ensures
        ({
            let controls = record_controls(console, record, metadata, row, evaluation);
            let c = controls[i];
            &&& c.action is OpenSession ==> record.route is DurableHost && c.name
                == MessageId::CommonOpen && c.action == ProductSessionAction::OpenSession(row)
            &&& c.action is StopSession ==> metadata.can_stop && c.name
                == MessageId::NewSessionStopAction && c.action == ProductSessionAction::StopSession(
                row,
            )
            &&& c.action is ResumeSession ==> c.name == MessageId::SessionLibraryResumeAction
                && c.action == ProductSessionAction::ResumeSession(row)
            &&& controls.last().action == ProductSessionAction::MoveSessionToRoot(row)
                && controls.last().name == MessageId::GroupMoveToRootAction
            &&& record.route is DurableHost ==> controls[0].action is OpenSession
        }),
{
}

/// The fields and buttons of an editor, a renaming and an addition are called by
/// what they are for.
pub proof fn law_editing_controls_are_called_by_what_they_do(
    console: ProductConsole,
    name: String,
    row: AccessibleRowId,
)
    ensures
        editor_controls(name).len() == 3,
        editor_controls(name)[0].action is SetGroupName && editor_controls(name)[0].name
            == MessageId::GroupNameField && editor_controls(name)[0].value == Some(name)
            && editor_controls(name)[0].role is TextField,
        editor_controls(name)[1].action is SaveGroup && editor_controls(name)[1].name
            == MessageId::CommonSave,
        editor_controls(name)[2].action is CancelGroup && editor_controls(name)[2].name
            == MessageId::CommonCancel,
        rename_controls(name, row).len() == 3,
        rename_controls(name, row)[0].action is SetSessionTitle && rename_controls(
            name,
            row,
        )[0].name == MessageId::SessionLibraryTitleField && rename_controls(name, row)[0].value
            == Some(name) && rename_controls(name, row)[0].role is TextField,
        rename_controls(name, row)[1].action is SaveSessionTitle && rename_controls(
            name,
            row,
        )[1].name == MessageId::CommonSave,
        rename_controls(name, row)[2].action is CancelSessionTitle && rename_controls(
            name,
            row,
        )[2].name == MessageId::CommonCancel,
        console.projects.add_draft is Some ==> adding_controls(console)[0].name
            == MessageId::ProjectLabelField && adding_controls(console)[1].name
            == MessageId::ProjectAddConfirm && adding_controls(console)[2].name
            == MessageId::CommonCancel,
{
}

/// The controls of a session that is renamed, moved or whose group goes are
/// called by what they do.
pub proof fn law_session_controls_are_called_by_what_they_do(
    console: ProductConsole,
    id: HostedSessionId,
    metadata: HostedSession,
    evaluation: Result<(), ResumeError>,
    projects: ProjectLibraryState,
    removed: GroupId,
)
    ensures
        session_controls(console, id, metadata, evaluation)[0].name
            == MessageId::SessionLibraryRenameAction,
        awaits_confirmation(console.sessions, id) ==> session_controls(
            console,
            id,
            metadata,
            evaluation,
        ).last().name == MessageId::SessionLibraryRemoveConfirmPlaceholder,
        pending_removal_controls(projects, removed)[0].action
            == ProductSessionAction::RemoveGroupTo(ids::group_row(removed), None),
        pending_removal_controls(projects, removed)[0].name == MessageId::GroupMoveToRootAction,
        pending_removal_controls(projects, removed)[0].in_dialog,
        projects.selected_id matches Some(selected) ==> selected_project_controls(projects)[0].name
            == MessageId::GroupNewAction && selected_project_controls(projects)[0].action
            == ProductSessionAction::AddGroup(ids::project_row(selected)),
        project_screen_controls(console)[0].name == MessageId::ProjectsAddAction,
{
    lemma_screen_parts(console, 0);
}

/// A destination is named by its group.
pub proof fn law_destinations_are_named_by_their_group(
    groups: Seq<Group>,
    removed: GroupId,
    i: int,
)
    requires
        0 <= i < destination_controls(groups, removed).len(),
    ensures
        destination_controls(groups, removed)[i].name == MessageId::GroupMoveSessionAction,
        destination_controls(groups, removed)[i].in_dialog,
        exists|k: int|
            0 <= k < groups.len() && (#[trigger] groups[k]).id != removed && destination_controls(
                groups,
                removed,
            )[i].value == Some(groups[k].name) && destination_controls(groups, removed)[i].action
                == ProductSessionAction::RemoveGroupTo(
                ids::group_row(removed),
                Some(ids::group_row(groups[k].id)),
            ),
    decreases groups.len(),
{
    let rest = groups.drop_last();
    let before = destination_controls(rest, removed);
    let all = destination_controls(groups, removed);
    if i < before.len() {
        law_destinations_are_named_by_their_group(rest, removed, i);
        let k = choose|k: int|
            0 <= k < rest.len() && (#[trigger] rest[k]).id != removed && before[i].value == Some(
                rest[k].name,
            ) && before[i].action == ProductSessionAction::RemoveGroupTo(
                ids::group_row(removed),
                Some(ids::group_row(rest[k].id)),
            );
        assert(groups[k] == rest[k]);
    } else {
        assert(groups[groups.len() - 1].id != removed);
    }
}

/// While a folder is looked at only leaving is offered; without a folder nothing
/// is.
pub proof fn law_looking_at_a_folder_can_be_left(console: ProductConsole)
    requires
        console.projects.add_draft is None,
    ensures
        console.projects.add_validation is None <==> adding_controls(console).len() == 0,
        console.projects.add_validation is Some ==> adding_controls(console).len() == 1
            && adding_controls(console)[0].action is CancelProjectAdd && adding_controls(
            console,
        )[0].name == MessageId::CommonCancel,
{
}

/// A session's title is edited exactly where it is being renamed.
pub proof fn law_titles_are_edited_while_renaming(
    console: ProductConsole,
    id: HostedSessionId,
    metadata: HostedSession,
    evaluation: Result<(), ResumeError>,
)
    requires
        !(console.sessions.pending_removal matches Some(plan) && plan.session_id == id),
    ensures
        session_controls(console, id, metadata, evaluation).last().action is CancelSessionTitle
            <==> console.sessions.renaming == Some(id),
        console.sessions.renaming == Some(id) ==> session_controls(
            console,
            id,
            metadata,
            evaluation,
        )[session_controls(console, id, metadata, evaluation).len() - 3].value == Some(
            console.inputs.session_title,
        ),
{
}

} // verus!
