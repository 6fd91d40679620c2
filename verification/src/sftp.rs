//! Browsing local files, picking a host, and the files of a remote workspace.
use vstd::prelude::*;

use crate::lists;
use crate::messages::{Atom, MessageId, Text};
use crate::text;
use crate::ui;
use crate::ui::{ButtonView, Emphasis, Icon, Notices, SemanticActionValue};

verus! {

#[derive(Clone, Copy, Debug, PartialEq, Eq, Structural)]
pub enum SftpSurfaceState {
    Loading,
    Ready,
    Empty,
    FilterEmpty,
    HostRequired,
    LocalUnavailable,
    Stale,
    PermissionDenied,
    Error,
    Queued,
    Transferring,
    CancelRequested,
    Cancelled,
    Conflict,
    Completed,
    Partial,
    DiskFull,
    ResourceLimit,
    Timeout,
    Offline,
}

#[derive(Clone, Copy, Debug, PartialEq, Eq, Structural)]
pub enum SftpScreen {
    Library,
    HostPicker,
    Workspace,
}

/// The identity of a row. Remote entries and transfers belong to a workspace.
#[derive(Debug, PartialEq, Eq)]
pub enum SftpRowId {
    Local { path: String },
    Host { profile_id: String },
    Remote { workspace_id: u64, path: String },
    Transfer { workspace_id: u64, operation_id: u64 },
}

/// Two identities name the same row.
pub open spec fn same_row(a: SftpRowId, b: SftpRowId) -> bool {
    match (a, b) {
        (SftpRowId::Local { path: x }, SftpRowId::Local { path: y }) => x@ == y@,
        (SftpRowId::Host { profile_id: x }, SftpRowId::Host { profile_id: y }) => x@ == y@,
        (
            SftpRowId::Remote { workspace_id: v, path: x },
            SftpRowId::Remote { workspace_id: w, path: y },
        ) => v == w && x@ == y@,
        (
            SftpRowId::Transfer { workspace_id: v, operation_id: x },
            SftpRowId::Transfer { workspace_id: w, operation_id: y },
        ) => v == w && x == y,
        _ => false,
    }
}

impl SftpRowId {
    pub fn duplicate(&self) -> (r: Self)
        ensures
            r == *self,
    {
        match self {
            SftpRowId::Local { path } => SftpRowId::Local { path: path.clone() },
            SftpRowId::Host { profile_id } => SftpRowId::Host { profile_id: profile_id.clone() },
            SftpRowId::Remote { workspace_id, path } => SftpRowId::Remote {
                workspace_id: *workspace_id,
                path: path.clone(),
            },
            SftpRowId::Transfer { workspace_id, operation_id } => SftpRowId::Transfer {
                workspace_id: *workspace_id,
                operation_id: *operation_id,
            },
        }
    }

    pub fn names_same(&self, other: &SftpRowId) -> (r: bool)
        ensures
            r == same_row(*self, *other),
    {
        match (self, other) {
            (SftpRowId::Local { path: x }, SftpRowId::Local { path: y }) => {
                text::same_text(x.as_str(), y.as_str())
            },
            (SftpRowId::Host { profile_id: x }, SftpRowId::Host { profile_id: y }) => {
                text::same_text(x.as_str(), y.as_str())
            },
            (
                SftpRowId::Remote { workspace_id: v, path: x },
                SftpRowId::Remote { workspace_id: w, path: y },
            ) => *v == *w && text::same_text(x.as_str(), y.as_str()),
            (
                SftpRowId::Transfer { workspace_id: v, operation_id: x },
                SftpRowId::Transfer { workspace_id: w, operation_id: y },
            ) => *v == *w && *x == *y,
            _ => false,
        }
    }
}

/// The row of a remote entry.
pub fn remote_sftp_row_id(workspace_id: u64, path: &String) -> (r: SftpRowId)
    ensures
        r == (SftpRowId::Remote { workspace_id, path: *path }),
{
    SftpRowId::Remote { workspace_id, path: path.clone() }
}

/// The row of a remote entry is the same exactly for the same path in the same
/// workspace.
pub proof fn law_remote_rows_are_workspace_scoped(v: u64, x: String, w: u64, y: String)
    ensures
        same_row(
            SftpRowId::Remote { workspace_id: v, path: x },
            SftpRowId::Remote { workspace_id: w, path: y },
        ) <==> v == w && x@ == y@,
{
}

/// What is said of a row beside its name.
#[derive(Debug)]
pub enum SftpDetail {
    Value(String),
    /// A user name and an endpoint, joined by `@`.
    Account { username: String, endpoint: String },
}

#[derive(Clone, Copy, Debug, PartialEq, Eq, Structural)]
pub enum SftpRowStatus {
    Message(MessageId),
    /// The message of a state.
    State(SftpSurfaceState),
}

#[derive(Debug)]
pub struct SftpRow {
    pub id: SftpRowId,
    pub name: String,
    pub detail: Option<SftpDetail>,
    pub status: SftpRowStatus,
    pub selected: bool,
    pub disabled: bool,
    pub activatable: bool,
    pub stale: bool,
    pub position: usize,
    pub set_size: usize,
}

#[derive(Clone, Copy, Debug, PartialEq, Eq, Structural)]
pub enum SftpConflictChoice {
    Replace,
    Skip,
    Resume,
}

#[derive(Debug)]
pub enum SftpAction {
    ToggleLocalFilter,
    SetLocalFilter,
    OpenLocalFolder,
    NavigateLocalParent,
    ShowHostPicker,
    CloseHostPicker,
    ConnectHost(SftpRowId),
    OpenWorkspaceFiles(u64),
    BackToTerminal(u64),
    NavigateRemoteParent(u64),
    RefreshRemote(u64),
    Upload(u64),
    Download(u64),
    Delete(u64),
    SelectEntry(SftpRowId),
    OpenEntry(SftpRowId),
    CancelTransfer { workspace_id: u64, operation_id: u64 },
    RetryTransfer { workspace_id: u64, operation_id: u64 },
    ResolveConflict { workspace_id: u64, operation_id: u64, choice: SftpConflictChoice },
}

/// Two actions are the same.
pub open spec fn same_action(a: SftpAction, b: SftpAction) -> bool {
    match (a, b) {
        (SftpAction::ConnectHost(x), SftpAction::ConnectHost(y)) => same_row(x, y),
        (SftpAction::SelectEntry(x), SftpAction::SelectEntry(y)) => same_row(x, y),
        (SftpAction::OpenEntry(x), SftpAction::OpenEntry(y)) => same_row(x, y),
        (SftpAction::ConnectHost(_), _) | (SftpAction::SelectEntry(_), _)
        | (SftpAction::OpenEntry(_), _) => false,
        _ => a == b,
    }
}

impl SftpAction {
    fn is_same(&self, other: &SftpAction) -> (r: bool)
        ensures
            r == same_action(*self, *other),
    {
        match (self, other) {
            (SftpAction::ToggleLocalFilter, SftpAction::ToggleLocalFilter)
            | (SftpAction::SetLocalFilter, SftpAction::SetLocalFilter)
            | (SftpAction::OpenLocalFolder, SftpAction::OpenLocalFolder)
            | (SftpAction::NavigateLocalParent, SftpAction::NavigateLocalParent)
            | (SftpAction::ShowHostPicker, SftpAction::ShowHostPicker)
            | (SftpAction::CloseHostPicker, SftpAction::CloseHostPicker) => true,
            (SftpAction::ConnectHost(x), SftpAction::ConnectHost(y))
            | (SftpAction::SelectEntry(x), SftpAction::SelectEntry(y))
            | (SftpAction::OpenEntry(x), SftpAction::OpenEntry(y)) => x.names_same(y),
            (SftpAction::OpenWorkspaceFiles(x), SftpAction::OpenWorkspaceFiles(y))
            | (SftpAction::BackToTerminal(x), SftpAction::BackToTerminal(y))
            | (SftpAction::NavigateRemoteParent(x), SftpAction::NavigateRemoteParent(y))
            | (SftpAction::RefreshRemote(x), SftpAction::RefreshRemote(y))
            | (SftpAction::Upload(x), SftpAction::Upload(y))
            | (SftpAction::Download(x), SftpAction::Download(y))
            | (SftpAction::Delete(x), SftpAction::Delete(y)) => *x == *y,
            (
                SftpAction::CancelTransfer { workspace_id: v, operation_id: x },
                SftpAction::CancelTransfer { workspace_id: w, operation_id: y },
            )
            | (
                SftpAction::RetryTransfer { workspace_id: v, operation_id: x },
                SftpAction::RetryTransfer { workspace_id: w, operation_id: y },
            ) => *v == *w && *x == *y,
            (
                SftpAction::ResolveConflict { workspace_id: v, operation_id: x, choice: c },
                SftpAction::ResolveConflict { workspace_id: w, operation_id: y, choice: d },
            ) => *v == *w && *x == *y && *c == *d,
            _ => false,
        }
    }
}

#[derive(Clone, Copy, Debug, PartialEq, Eq, Structural)]
pub enum SftpControlRole {
    Button,
    TextField,
}

#[derive(Debug)]
pub struct SftpControl {
    pub action: SftpAction,
    pub parent: Option<SftpRowId>,
    pub role: SftpControlRole,
    pub name: MessageId,
    pub value: Option<String>,
    pub selected: bool,
    pub disabled: bool,
    pub invalid: bool,
}

#[derive(Debug)]
pub struct SftpSemanticSnapshot {
    pub screen: SftpScreen,
    pub state: SftpSurfaceState,
    pub rows: Vec<SftpRow>,
    pub controls: Vec<SftpControl>,
    pub recording_friendly: bool,
}

pub open spec fn control(
    action: SftpAction,
    parent: Option<SftpRowId>,
    role: SftpControlRole,
    name: MessageId,
    value: Option<String>,
    disabled: bool,
) -> SftpControl {
    SftpControl { action, parent, role, name, value, selected: false, disabled, invalid: false }
}

/// A button without a row.
pub open spec fn plain(action: SftpAction, name: MessageId, disabled: bool) -> SftpControl {
    control(action, None, SftpControlRole::Button, name, None, disabled)
}

fn sftp_control(
    action: SftpAction,
    parent: Option<SftpRowId>,
    role: SftpControlRole,
    name: MessageId,
    value: Option<String>,
    disabled: bool,
) -> (r: SftpControl)
    ensures
        r == control(action, parent, role, name, value, disabled),
{
    SftpControl { action, parent, role, name, value, selected: false, disabled, invalid: false }
}

fn sftp_button(action: SftpAction, name: MessageId, disabled: bool) -> (r: SftpControl)
    ensures
        r == plain(action, name, disabled),
{
    sftp_control(action, None, SftpControlRole::Button, name, None, disabled)
}

fn row_button(action: SftpAction, row: SftpRowId, name: MessageId, disabled: bool) -> (r:
    SftpControl)
    ensures
        r == control(action, Some(row), SftpControlRole::Button, name, None, disabled),
{
    sftp_control(action, Some(row), SftpControlRole::Button, name, None, disabled)
}

/// The name of an entry: its own, or, where that is blank, the last part of its
/// path.
pub open spec fn entry_name(name: Seq<char>, path: Seq<char>) -> Seq<char> {
    if !text::blank(name) {
        name
    } else {
        match text::last_segment(path) {
            Some(part) => part,
            None => "/"@,
        }
    }
}

pub fn non_empty_sftp_name(name: &str, path: &str) -> (r: String)
    ensures
        r@ == entry_name(name@, path@),
{
    if text::is_blank(name) {
        match text::path_last_segment(path) {
            Some(part) => part,
            None => "/".to_owned(),
        }
    } else {
        name.to_owned()
    }
}

/// Whether a status mentions something, in any case.
pub open spec fn mentions(status: Seq<char>, what: Seq<char>) -> bool {
    text::occurs_in(what, text::lowered(status))
}

/// The state of a transfer. A conflict comes first; an active transfer is never
/// reported as ended; then what was verified, then what the status mentions;
/// and what was sent in part is kept as evidence.
pub open spec fn transfer_state(
    status: Seq<char>,
    active: bool,
    conflict: bool,
    verified: bool,
    transferred_bytes: u64,
) -> SftpSurfaceState {
    if conflict {
        SftpSurfaceState::Conflict
    } else if active {
        if mentions(status, "cancellation requested"@) {
            SftpSurfaceState::CancelRequested
        } else if mentions(status, "queued"@) {
            SftpSurfaceState::Queued
        } else {
            SftpSurfaceState::Transferring
        }
    } else if verified {
        SftpSurfaceState::Completed
    } else if mentions(status, "cancel"@) {
        SftpSurfaceState::Cancelled
    } else if mentions(status, "no space"@) || mentions(status, "disk full"@) {
        SftpSurfaceState::DiskFull
    } else if mentions(status, "limit"@) || mentions(status, "too large"@) || mentions(
        status,
        "queue is full"@,
    ) {
        SftpSurfaceState::ResourceLimit
    } else if mentions(status, "timeout"@) || mentions(status, "timed out"@) {
        SftpSurfaceState::Timeout
    } else if mentions(status, "permission"@) || mentions(status, "denied"@) {
        SftpSurfaceState::PermissionDenied
    } else if mentions(status, "offline"@) || mentions(status, "unreachable"@) || mentions(
        status,
        "network"@,
    ) {
        SftpSurfaceState::Offline
    } else if transferred_bytes > 0 {
        SftpSurfaceState::Partial
    } else {
        SftpSurfaceState::Error
    }
}

pub fn classify_sftp_transfer_values(
    status: &str,
    active: bool,
    conflict: bool,
    verified: bool,
    transferred_bytes: u64,
) -> (r: SftpSurfaceState)
    ensures
        r == transfer_state(status@, active, conflict, verified, transferred_bytes),
{
    if conflict {
        return SftpSurfaceState::Conflict;
    }
    let lower: String = text::to_ascii_lowercase(status);
    let s: &str = lower.as_str();
    if active {
        if text::contains(s, "cancellation requested") {
            return SftpSurfaceState::CancelRequested;
        }
        if text::contains(s, "queued") {
            return SftpSurfaceState::Queued;
        }
        return SftpSurfaceState::Transferring;
    }
    if verified {
        return SftpSurfaceState::Completed;
    }
    if text::contains(s, "cancel") {
        return SftpSurfaceState::Cancelled;
    }
    if text::contains(s, "no space") || text::contains(s, "disk full") {
        return SftpSurfaceState::DiskFull;
    }
    if text::contains(s, "limit") || text::contains(s, "too large") || text::contains(
        s,
        "queue is full",
    ) {
        return SftpSurfaceState::ResourceLimit;
    }
    if text::contains(s, "timeout") || text::contains(s, "timed out") {
        return SftpSurfaceState::Timeout;
    }
    if text::contains(s, "permission") || text::contains(s, "denied") {
        return SftpSurfaceState::PermissionDenied;
    }
    if text::contains(s, "offline") || text::contains(s, "unreachable") || text::contains(
        s,
        "network",
    ) {
        return SftpSurfaceState::Offline;
    }
    if transferred_bytes > 0 {
        SftpSurfaceState::Partial
    } else {
        SftpSurfaceState::Error
    }
}

/// An active transfer is never shown as ended, and one that is neither active
/// nor in conflict is never shown as running.
pub proof fn law_transfer_state_separates_running_from_ended(
    status: Seq<char>,
    verified: bool,
    transferred_bytes: u64,
)
    ensures
        ({
            let running = transfer_state(status, true, false, verified, transferred_bytes);
            running is CancelRequested || running is Queued || running is Transferring
        }),
        ({
            let ended = transfer_state(status, false, false, verified, transferred_bytes);
            !(ended is CancelRequested || ended is Queued || ended is Transferring)
        }),
        transfer_state(status, true, true, verified, transferred_bytes) is Conflict,
        transfer_state(status, false, true, verified, transferred_bytes) is Conflict,
{
}

/// A saved host.
#[derive(Debug)]
pub struct HostProfile {
    pub id: String,
    pub display_name: String,
    pub username: String,
    pub endpoint: String,
}

/// An entry of a local folder, with its full path and with its time and size
/// written out.
#[derive(Debug)]
pub struct LocalEntry {
    pub name: String,
    pub path: String,
    pub is_dir: bool,
    pub modified: Option<String>,
    pub size: String,
}

/// What reading a local folder says of one of its entries, with its time and
/// size written out.
#[derive(Debug)]
pub struct FoundEntry {
    pub name: String,
    pub is_dir: bool,
    pub modified: Option<String>,
    pub size: String,
}

#[derive(Clone, Copy, Debug, PartialEq, Eq, Structural)]
pub enum ListingError {
    PermissionDenied,
    NotFound,
    Other,
}

/// The file browser: which local folder is open, its filter, and whether a host
/// is being picked.
#[derive(Debug)]
pub struct SftpLibrary {
    pub local_path: String,
    pub filter_input: String,
    pub filter_visible: bool,
    pub show_host_picker: bool,
    pub profiles: Vec<HostProfile>,
}

pub open spec fn host_row(profile: HostProfile, i: int, count: int) -> SftpRow {
    SftpRow {
        id: SftpRowId::Host { profile_id: profile.id },
        name: profile.display_name,
        detail: Some(
            SftpDetail::Account { username: profile.username, endpoint: profile.endpoint },
        ),
        status: SftpRowStatus::Message(MessageId::SftpRowHost),
        selected: false,
        disabled: false,
        activatable: true,
        stale: false,
        position: (i + 1) as usize,
        set_size: count as usize,
    }
}

pub open spec fn host_rows(profiles: Seq<HostProfile>) -> Seq<SftpRow> {
    Seq::new(profiles.len(), |i: int| host_row(profiles[i], i, profiles.len() as int))
}

pub open spec fn host_controls(profiles: Seq<HostProfile>) -> Seq<SftpControl> {
    seq![
        plain(SftpAction::CloseHostPicker, MessageId::SftpCloseHostPickerAction, false),
    ] + Seq::new(
        profiles.len(),
        |i: int|
            {
                let row = SftpRowId::Host { profile_id: profiles[i].id };
                control(
                    SftpAction::ConnectHost(row),
                    Some(row),
                    SftpControlRole::Button,
                    MessageId::SftpConnectHostAction,
                    None,
                    false,
                )
            },
    )
}

/// An entry as it stands in a folder: its path is the folder's, joined with its
/// name.
pub open spec fn stands_in(folder: Seq<char>, found: FoundEntry, entry: LocalEntry) -> bool {
    &&& entry.name == found.name
    &&& entry.path@ == text::path_below(folder, found.name@)
    &&& entry.is_dir == found.is_dir
    &&& entry.modified == found.modified
    &&& entry.size == found.size
}

/// The entries of a listing stand in a folder, each under its name.
pub open spec fn lists_folder(folder: Seq<char>, entries: Seq<LocalEntry>) -> bool {
    forall|i: int|
        0 <= i < entries.len() ==> (#[trigger] entries[i]).path@ == text::path_below(
            folder,
            entries[i].name@,
        )
}

impl SftpLibrary {
    /// The entries of the open folder, with their full paths.
    pub fn local_listing(&self, found: &Result<Vec<FoundEntry>, ListingError>) -> (r: Result<
        Vec<LocalEntry>,
        ListingError,
    >)
        ensures
            match (*found, r) {
                (Ok(found), Ok(entries)) => {
                    &&& entries@.len() == found@.len()
                    &&& forall|i: int|
                        0 <= i < entries@.len() ==> stands_in(
                            self.local_path@,
                            found@[i],
                            #[trigger] entries@[i],
                        )
                    &&& lists_folder(self.local_path@, entries@)
                },
                (Err(error), Err(failure)) => failure == error,
                _ => false,
            },
    {
        let found: &Vec<FoundEntry> = match found {
            Ok(found) => found,
            Err(error) => {
                return Err(*error);
            },
        };
        let mut entries: Vec<LocalEntry> = Vec::new();
        let mut i: usize = 0;
        while i < found.len()
            invariant
                i <= found@.len(),
                entries@.len() == i,
                forall|k: int|
                    0 <= k < i ==> stands_in(
                        self.local_path@,
                        found@[k],
                        #[trigger] entries@[k],
                    ),
            decreases found@.len() - i,
        {
            let entry: &FoundEntry = &found[i];
            entries.push(
                LocalEntry {
                    name: entry.name.clone(),
                    path: text::join_path(self.local_path.as_str(), entry.name.as_str()),
                    is_dir: entry.is_dir,
                    modified: crate::domain::duplicate_text(&entry.modified),
                    size: entry.size.clone(),
                },
            );
            i += 1;
        }
        Ok(entries)
    }
}

/// The filter as it is applied: without surrounding white space, in lower case.
pub open spec fn applied_filter(input: Seq<char>) -> Seq<char> {
    text::lowered(text::trimmed(input))
}

pub open spec fn passes(filter: Seq<char>) -> spec_fn(LocalEntry) -> bool {
    |entry: LocalEntry|
        filter.len() == 0 || text::occurs_in(filter, text::lowered(entry.name@))
}

/// The entries of a listing that pass the filter; a failed listing has none.
pub open spec fn filtered(
    listing: Result<Vec<LocalEntry>, ListingError>,
    filter: Seq<char>,
) -> Seq<LocalEntry> {
    match listing {
        Ok(entries) => lists::kept(entries@, passes(filter)),
        Err(_) => Seq::empty(),
    }
}

pub open spec fn local_row(entry: LocalEntry, i: int, count: int) -> SftpRow {
    SftpRow {
        id: SftpRowId::Local { path: entry.path },
        name: entry.name,
        detail: Some(SftpDetail::Value(entry.path)),
        status: SftpRowStatus::Message(
            if entry.is_dir {
                MessageId::SftpRowLocalFolder
            } else {
                MessageId::SftpRowLocalFile
            },
        ),
        selected: false,
        disabled: false,
        activatable: entry.is_dir,
        stale: false,
        position: (i + 1) as usize,
        set_size: count as usize,
    }
}

pub open spec fn local_rows(entries: Seq<LocalEntry>) -> Seq<SftpRow> {
    Seq::new(entries.len(), |i: int| local_row(entries[i], i, entries.len() as int))
}

pub open spec fn listing_failure(error: ListingError) -> SftpSurfaceState {
    match error {
        ListingError::PermissionDenied => SftpSurfaceState::PermissionDenied,
        ListingError::NotFound => SftpSurfaceState::Stale,
        ListingError::Other => SftpSurfaceState::Error,
    }
}

/// The state of the local listing: a failure comes first.
pub open spec fn listing_state(
    listing: Result<Vec<LocalEntry>, ListingError>,
    shown: int,
    filter: Seq<char>,
) -> SftpSurfaceState {
    match listing {
        Err(error) => listing_failure(error),
        Ok(_) => if shown > 0 {
            SftpSurfaceState::Ready
        } else if filter.len() > 0 {
            SftpSurfaceState::FilterEmpty
        } else {
            SftpSurfaceState::Empty
        },
    }
}

/// The five controls of the file browser. The filter field shows the filter as
/// it is applied.
pub open spec fn library_controls(
    controls: Seq<SftpControl>,
    filter: Seq<char>,
    has_parent: bool,
) -> bool {
    &&& controls.len() == 5
    &&& controls[0] == plain(SftpAction::ToggleLocalFilter, MessageId::SftpFilterAction, false)
    &&& controls[1] == control(
        SftpAction::SetLocalFilter,
        None,
        SftpControlRole::TextField,
        MessageId::SftpFilterField,
        controls[1].value,
        false,
    )
    &&& match controls[1].value {
        Some(shown) => filter.len() > 0 && shown@ == filter,
        None => filter.len() == 0,
    }
    &&& controls[2] == plain(SftpAction::OpenLocalFolder, MessageId::SftpOpenLocalAction, false)
    &&& controls[3] == plain(
        SftpAction::NavigateLocalParent,
        MessageId::SftpParentAction,
        !has_parent,
    )
    &&& controls[4] == plain(SftpAction::ShowHostPicker, MessageId::SftpSelectHostAction, false)
}

impl LocalEntry {
    fn duplicate(&self) -> (r: Self)
        ensures
            r == *self,
    {
        LocalEntry {
            name: self.name.clone(),
            path: self.path.clone(),
            is_dir: self.is_dir,
            modified: crate::domain::duplicate_text(&self.modified),
            size: self.size.clone(),
        }
    }
}

fn filter_entries(listing: &Result<Vec<LocalEntry>, ListingError>, filter: &str) -> (r: Vec<
    LocalEntry,
>)
    ensures
        r@ == filtered(*listing, filter@),
{
    let mut r: Vec<LocalEntry> = Vec::new();
    match listing {
        Err(_) => {},
        Ok(entries) => {
            let ghost wanted = passes(filter@);
            let unfiltered: bool = filter.is_empty();
            let mut i: usize = 0;
            assert(entries@.take(0) =~= Seq::empty());
            while i < entries.len()
                invariant
                    i <= entries@.len(),
                    wanted == passes(filter@),
                    unfiltered == (filter@.len() == 0),
                    r@ == lists::kept(entries@.take(i as int), wanted),
                decreases entries@.len() - i,
            {
                proof {
                    lists::lemma_kept_step(entries@, wanted, i as int);
                }
                let keep: bool = unfiltered || text::contains(
                    text::to_ascii_lowercase(entries[i].name.as_str()).as_str(),
                    filter,
                );
                lists::push_if(&mut r, keep, entries[i].duplicate());
                i += 1;
            }
            assert(entries@.take(entries@.len() as int) =~= entries@);
        },
    }
    r
}

impl SftpLibrary {
    pub open spec fn filter(self) -> Seq<char> {
        applied_filter(self.filter_input@)
    }

    fn filter_text(&self) -> (r: String)
        ensures
            r@ == self.filter(),
    {
        text::to_ascii_lowercase(text::trim(self.filter_input.as_str()).as_str())
    }

    fn host_picker_snapshot(&self, recording_friendly: bool) -> (r: SftpSemanticSnapshot)
        ensures
            r.screen == SftpScreen::HostPicker,
            r.state == if self.profiles@.len() == 0 {
                SftpSurfaceState::HostRequired
            } else {
                SftpSurfaceState::Ready
            },
            r.rows@ == host_rows(self.profiles@),
            r.controls@ == host_controls(self.profiles@),
            r.recording_friendly == recording_friendly,
    {
        let mut rows: Vec<SftpRow> = Vec::new();
        let mut controls: Vec<SftpControl> = Vec::new();
        controls.push(
            sftp_button(SftpAction::CloseHostPicker, MessageId::SftpCloseHostPickerAction, false),
        );
        let count: usize = self.profiles.len();
        let ghost all_rows = host_rows(self.profiles@);
        let ghost all_controls = host_controls(self.profiles@);
        assert(controls@ =~= all_controls.take(1));
        let mut i: usize = 0;
        while i < self.profiles.len()
            invariant
                i <= self.profiles@.len() == count,
                all_rows == host_rows(self.profiles@),
                all_controls == host_controls(self.profiles@),
                rows@ =~= all_rows.take(i as int),
                controls@ == all_controls.take(i + 1),
            decreases self.profiles@.len() - i,
        {
            let profile = &self.profiles[i];
            let id: SftpRowId = SftpRowId::Host { profile_id: profile.id.clone() };
            controls.push(
                row_button(
                    SftpAction::ConnectHost(id.duplicate()),
                    id.duplicate(),
                    MessageId::SftpConnectHostAction,
                    false,
                ),
            );
            rows.push(
                SftpRow {
                    id,
                    name: profile.display_name.clone(),
                    detail: Some(
                        SftpDetail::Account {
                            username: profile.username.clone(),
                            endpoint: profile.endpoint.clone(),
                        },
                    ),
                    status: SftpRowStatus::Message(MessageId::SftpRowHost),
                    selected: false,
                    disabled: false,
                    activatable: true,
                    stale: false,
                    position: i + 1,
                    set_size: count,
                },
            );
            assert(controls@ =~= all_controls.take(i + 2));
            i += 1;
        }
        assert(rows@ =~= all_rows);
        assert(controls@ =~= all_controls);
        SftpSemanticSnapshot {
            screen: SftpScreen::HostPicker,
            state: if rows.len() == 0 {
                SftpSurfaceState::HostRequired
            } else {
                SftpSurfaceState::Ready
            },
            rows,
            controls,
            recording_friendly,
        }
    }

    /// What assistive technology is told of the file browser: the hosts while
    /// one is being picked, else the open folder, of which at most `max_rows`
    /// entries are listed.
    pub fn library_sftp_semantic_snapshot(
        &self,
        listing: &Result<Vec<LocalEntry>, ListingError>,
        has_parent: bool,
        max_rows: usize,
        recording_friendly: bool,
    ) -> (r: SftpSemanticSnapshot)
        ensures
            r.recording_friendly == recording_friendly,
            self.show_host_picker ==> {
                &&& r.screen == SftpScreen::HostPicker
                &&& r.state == if self.profiles@.len() == 0 {
                    SftpSurfaceState::HostRequired
                } else {
                    SftpSurfaceState::Ready
                }
                &&& r.rows@ == host_rows(self.profiles@)
                &&& r.controls@ == host_controls(self.profiles@)
            },
            !self.show_host_picker ==> {
                let shown = lists::first_of(filtered(*listing, self.filter()), max_rows as int);
                &&& r.screen == SftpScreen::Library
                &&& r.state == listing_state(*listing, shown.len() as int, self.filter())
                &&& r.rows@ == local_rows(shown)
                &&& library_controls(r.controls@, self.filter(), has_parent)
            },
    {
        if self.show_host_picker {
            return self.host_picker_snapshot(recording_friendly);
        }
        let filter: String = self.filter_text();
        let mut entries: Vec<LocalEntry> = filter_entries(listing, filter.as_str());
        if entries.len() > max_rows {
            entries.truncate(max_rows);
        }
        let ghost shown = lists::first_of(filtered(*listing, self.filter()), max_rows as int);
        assert(entries@ =~= shown);
        let count: usize = entries.len();
        let mut rows: Vec<SftpRow> = Vec::new();
        let ghost all_rows = local_rows(shown);
        let mut i: usize = 0;
        while i < entries.len()
            invariant
                i <= entries@.len() == count,
                entries@ == shown,
                all_rows == local_rows(shown),
                rows@ =~= all_rows.take(i as int),
            decreases entries@.len() - i,
        {
            let entry = &entries[i];
            rows.push(
                SftpRow {
                    id: SftpRowId::Local { path: entry.path.clone() },
                    name: entry.name.clone(),
                    detail: Some(SftpDetail::Value(entry.path.clone())),
                    status: SftpRowStatus::Message(
                        if entry.is_dir {
                            MessageId::SftpRowLocalFolder
                        } else {
                            MessageId::SftpRowLocalFile
                        },
                    ),
                    selected: false,
                    disabled: false,
                    activatable: entry.is_dir,
                    stale: false,
                    position: i + 1,
                    set_size: count,
                },
            );
            i += 1;
        }
        assert(rows@ =~= all_rows);
        let unfiltered: bool = filter.as_str().is_empty();
        let state: SftpSurfaceState = match listing {
            Err(ListingError::PermissionDenied) => SftpSurfaceState::PermissionDenied,
            Err(ListingError::NotFound) => SftpSurfaceState::Stale,
            Err(ListingError::Other) => SftpSurfaceState::Error,
            Ok(_) => {
                if rows.len() > 0 {
                    SftpSurfaceState::Ready
                } else if !unfiltered {
                    SftpSurfaceState::FilterEmpty
                } else {
                    SftpSurfaceState::Empty
                }
            },
        };
        let mut controls: Vec<SftpControl> = Vec::new();
        controls.push(
            sftp_button(SftpAction::ToggleLocalFilter, MessageId::SftpFilterAction, false),
        );
        controls.push(
            sftp_control(
                SftpAction::SetLocalFilter,
                None,
                SftpControlRole::TextField,
                MessageId::SftpFilterField,
                if unfiltered {
                    None
                } else {
                    Some(filter)
                },
                false,
            ),
        );
        controls.push(
            sftp_button(SftpAction::OpenLocalFolder, MessageId::SftpOpenLocalAction, false),
        );
        controls.push(
            sftp_button(SftpAction::NavigateLocalParent, MessageId::SftpParentAction, !has_parent),
        );
        controls.push(
            sftp_button(SftpAction::ShowHostPicker, MessageId::SftpSelectHostAction, false),
        );
        SftpSemanticSnapshot {
            screen: SftpScreen::Library,
            state,
            rows,
            controls,
            recording_friendly,
        }
    }
}

/// An entry of a remote folder.
#[derive(Debug)]
pub struct SftpEntry {
    pub path: String,
    pub name: String,
    pub is_dir: bool,
    pub is_symlink: bool,
}

/// The transfer of a workspace. `conflict` says, where the target exists already,
/// whether the transfer could be resumed; `verified` that the copy was checked.
#[derive(Debug)]
pub struct SftpTransfer {
    pub operation_id: u64,
    pub label: String,
    pub status: String,
    pub active: bool,
    pub conflict: Option<bool>,
    pub verified: bool,
    pub transferred_bytes: u64,
}

#[derive(Debug)]
pub struct SftpBrowser {
    pub entries: Vec<SftpEntry>,
    pub selected_path: Option<String>,
    /// Whether the selected entry is a folder, where one is selected.
    pub selected_is_dir: Option<bool>,
    pub has_parent: bool,
    pub loading: bool,
    pub transfer: Option<SftpTransfer>,
}

/// A workspace that shows files: its browser, if one is open, and whether it
/// runs on this machine.
#[derive(Debug)]
pub struct WorkspaceFiles {
    pub browser: Option<SftpBrowser>,
    pub local_shell: bool,
}

pub open spec fn state_of_transfer(transfer: SftpTransfer) -> SftpSurfaceState {
    transfer_state(
        transfer.status@,
        transfer.active,
        transfer.conflict is Some,
        transfer.verified,
        transfer.transferred_bytes,
    )
}

pub fn classify_sftp_transfer_state(transfer: &SftpTransfer) -> (r: SftpSurfaceState)
    ensures
        r == state_of_transfer(*transfer),
{
    classify_sftp_transfer_values(
        transfer.status.as_str(),
        transfer.active,
        transfer.conflict.is_some(),
        transfer.verified,
        transfer.transferred_bytes,
    )
}

/// How many remote entries are listed: one row is kept for a transfer.
pub open spec fn listed_entries(entries: int, max_rows: int) -> int {
    if max_rows == 0 {
        0
    } else if entries < max_rows {
        entries
    } else {
        max_rows - 1
    }
}

/// The size of the collection: with a transfer, the rows that are shown; else
/// all entries of the folder.
pub open spec fn collection_size(browser: SftpBrowser, max_rows: int) -> int {
    if browser.transfer is Some {
        listed_entries(browser.entries@.len() as int, max_rows) + 1
    } else if browser.entries@.len() == 0 {
        1
    } else {
        browser.entries@.len() as int
    }
}

pub open spec fn entry_status(entry: SftpEntry) -> MessageId {
    if entry.is_dir {
        MessageId::SftpRowRemoteFolder
    } else if entry.is_symlink {
        MessageId::SftpRowRemoteSymlink
    } else {
        MessageId::SftpRowRemoteFile
    }
}

/// The row of a remote entry.
pub open spec fn shows_entry(
    row: SftpRow,
    workspace_id: u64,
    browser: SftpBrowser,
    i: int,
    set_size: int,
) -> bool {
    let entry = browser.entries@[i];
    &&& row.id == (SftpRowId::Remote { workspace_id, path: entry.path })
    &&& row.name@ == entry_name(entry.name@, entry.path@)
    &&& row.detail == Some(SftpDetail::Value(entry.path))
    &&& row.status == SftpRowStatus::Message(entry_status(entry))
    &&& row.selected == (browser.selected_path matches Some(path) && path@ == entry.path@)
    &&& row.disabled == browser.loading
    &&& row.activatable
    &&& !row.stale
    &&& row.position == i + 1
    &&& row.set_size == set_size
}

pub open spec fn transfer_row(workspace_id: u64, transfer: SftpTransfer, size: int) -> SftpRow {
    SftpRow {
        id: SftpRowId::Transfer { workspace_id, operation_id: transfer.operation_id },
        name: transfer.label,
        detail: Some(SftpDetail::Value(transfer.status)),
        status: SftpRowStatus::State(state_of_transfer(transfer)),
        selected: false,
        disabled: false,
        activatable: false,
        stale: false,
        position: size as usize,
        set_size: size as usize,
    }
}

/// The rows of a workspace: its entries, then its transfer.
pub open spec fn shows_workspace_rows(
    rows: Seq<SftpRow>,
    workspace_id: u64,
    browser: SftpBrowser,
    max_rows: int,
) -> bool {
    let n = listed_entries(browser.entries@.len() as int, max_rows);
    let size = collection_size(browser, max_rows);
    &&& rows.len() == if browser.transfer is Some {
        n + 1
    } else {
        n
    }
    &&& forall|i: int|
        0 <= i < n ==> shows_entry(#[trigger] rows[i], workspace_id, browser, i, size)
    &&& browser.transfer matches Some(transfer) ==> rows[n] == transfer_row(
        workspace_id,
        transfer,
        size,
    )
}

pub open spec fn entry_control(workspace_id: u64, browser: SftpBrowser, i: int) -> SftpControl {
    let row = SftpRowId::Remote { workspace_id, path: browser.entries@[i].path };
    control(
        SftpAction::SelectEntry(row),
        Some(row),
        SftpControlRole::Button,
        MessageId::SftpSelectEntryAction,
        None,
        browser.loading,
    )
}

pub open spec fn conflict_control(
    workspace_id: u64,
    operation_id: u64,
    choice: SftpConflictChoice,
    name: MessageId,
    disabled: bool,
) -> SftpControl {
    control(
        SftpAction::ResolveConflict { workspace_id, operation_id, choice },
        Some(SftpRowId::Transfer { workspace_id, operation_id }),
        SftpControlRole::Button,
        name,
        None,
        disabled,
    )
}

/// The controls of a transfer: cancel while it runs, retry where it ended
/// without a copy and without a conflict, and the answers to a conflict.
pub open spec fn transfer_controls(workspace_id: u64, transfer: SftpTransfer) -> Seq<SftpControl> {
    let operation_id = transfer.operation_id;
    let row = SftpRowId::Transfer { workspace_id, operation_id };
    Seq::empty() + lists::optional(
        transfer.active,
        control(
            SftpAction::CancelTransfer { workspace_id, operation_id },
            Some(row),
            SftpControlRole::Button,
            MessageId::SftpCancelTransferAction,
            None,
            false,
        ),
    ) + lists::optional(
        !transfer.active && transfer.conflict is None && !transfer.verified,
        control(
            SftpAction::RetryTransfer { workspace_id, operation_id },
            Some(row),
            SftpControlRole::Button,
            MessageId::SftpRetryTransferAction,
            None,
            false,
        ),
    ) + lists::optional(
        transfer.conflict is Some,
        conflict_control(
            workspace_id,
            operation_id,
            SftpConflictChoice::Replace,
            MessageId::SftpReplaceAction,
            false,
        ),
    ) + lists::optional(
        transfer.conflict is Some,
        conflict_control(
            workspace_id,
            operation_id,
            SftpConflictChoice::Skip,
            MessageId::SftpSkipAction,
            false,
        ),
    ) + lists::optional(
        transfer.conflict is Some,
        conflict_control(
            workspace_id,
            operation_id,
            SftpConflictChoice::Resume,
            MessageId::SftpResumeTransferAction,
            transfer.conflict != Some(true),
        ),
    )
}

/// The six controls of a remote folder. While a transfer runs none other can be
/// started.
pub open spec fn folder_controls(workspace_id: u64, browser: SftpBrowser) -> Seq<SftpControl> {
    let busy = browser.transfer matches Some(transfer) && transfer.active;
    seq![
        plain(SftpAction::BackToTerminal(workspace_id), MessageId::SftpBackTerminalAction, false),
        plain(
            SftpAction::NavigateRemoteParent(workspace_id),
            MessageId::SftpParentAction,
            !browser.has_parent,
        ),
        plain(
            SftpAction::RefreshRemote(workspace_id),
            MessageId::SftpRefreshAction,
            browser.loading,
        ),
        plain(SftpAction::Upload(workspace_id), MessageId::SftpUploadAction, busy),
        plain(
            SftpAction::Download(workspace_id),
            MessageId::SftpDownloadAction,
            busy || browser.selected_is_dir != Some(false),
        ),
        plain(
            SftpAction::Delete(workspace_id),
            MessageId::SftpDeleteAction,
            busy || browser.selected_is_dir is None,
        ),
    ]
}

pub open spec fn workspace_controls(workspace_id: u64, browser: SftpBrowser, max_rows: int) -> Seq<
    SftpControl,
> {
    let n = listed_entries(browser.entries@.len() as int, max_rows);
    folder_controls(workspace_id, browser) + Seq::new(
        n as nat,
        |i: int| entry_control(workspace_id, browser, i),
    ) + match browser.transfer {
        Some(transfer) => transfer_controls(workspace_id, transfer),
        None => Seq::empty(),
    }
}

/// The state of a workspace's files: what its transfer does comes first.
pub open spec fn workspace_state(browser: SftpBrowser) -> SftpSurfaceState {
    match browser.transfer {
        Some(transfer) => state_of_transfer(transfer),
        None => if browser.loading {
            SftpSurfaceState::Loading
        } else if browser.entries@.len() == 0 {
            SftpSurfaceState::Empty
        } else {
            SftpSurfaceState::Ready
        },
    }
}

fn entries_listed(entries: usize, max_rows: usize) -> (r: usize)
    ensures
        r == listed_entries(entries as int, max_rows as int),
        r <= entries,
        max_rows > 0 ==> r < max_rows,
{
    if max_rows == 0 {
        0
    } else if entries < max_rows {
        entries
    } else {
        max_rows - 1
    }
}

fn workspace_rows(workspace_id: u64, browser: &SftpBrowser, max_rows: usize) -> (r: Vec<SftpRow>)
    requires
        max_rows < usize::MAX,
    ensures
        shows_workspace_rows(r@, workspace_id, *browser, max_rows as int),
{
    let n: usize = entries_listed(browser.entries.len(), max_rows);
    let size: usize = match &browser.transfer {
        Some(_) => n + 1,
        None => {
            if browser.entries.len() == 0 {
                1
            } else {
                browser.entries.len()
            }
        },
    };
    let mut rows: Vec<SftpRow> = Vec::new();
    let mut i: usize = 0;
    while i < n
        invariant
            i <= n <= browser.entries@.len(),
            rows@.len() == i,
            forall|k: int|
                0 <= k < i ==> shows_entry(
                    #[trigger] rows@[k],
                    workspace_id,
                    *browser,
                    k,
                    size as int,
                ),
        decreases n - i,
    {
        let entry = &browser.entries[i];
        rows.push(
            SftpRow {
                id: remote_sftp_row_id(workspace_id, &entry.path),
                name: non_empty_sftp_name(entry.name.as_str(), entry.path.as_str()),
                detail: Some(SftpDetail::Value(entry.path.clone())),
                status: SftpRowStatus::Message(
                    if entry.is_dir {
                        MessageId::SftpRowRemoteFolder
                    } else if entry.is_symlink {
                        MessageId::SftpRowRemoteSymlink
                    } else {
                        MessageId::SftpRowRemoteFile
                    },
                ),
                selected: match &browser.selected_path {
                    Some(path) => text::same_text(path.as_str(), entry.path.as_str()),
                    None => false,
                },
                disabled: browser.loading,
                activatable: true,
                stale: false,
                position: i + 1,
                set_size: size,
            },
        );
        i += 1;
    }
    match &browser.transfer {
        None => {},
        Some(transfer) => {
            rows.push(
                SftpRow {
                    id: SftpRowId::Transfer { workspace_id, operation_id: transfer.operation_id },
                    name: transfer.label.clone(),
                    detail: Some(SftpDetail::Value(transfer.status.clone())),
                    status: SftpRowStatus::State(classify_sftp_transfer_state(transfer)),
                    selected: false,
                    disabled: false,
                    activatable: false,
                    stale: false,
                    position: size,
                    set_size: size,
                },
            );
        },
    }
    rows
}

fn conflict_button(
    workspace_id: u64,
    operation_id: u64,
    choice: SftpConflictChoice,
    name: MessageId,
    disabled: bool,
) -> (r: SftpControl)
    ensures
        r == conflict_control(workspace_id, operation_id, choice, name, disabled),
{
    row_button(
        SftpAction::ResolveConflict { workspace_id, operation_id, choice },
        SftpRowId::Transfer { workspace_id, operation_id },
        name,
        disabled,
    )
}

fn transfer_buttons(workspace_id: u64, transfer: &SftpTransfer) -> (r: Vec<SftpControl>)
    ensures
        r@ == transfer_controls(workspace_id, *transfer),
{
    let operation_id: u64 = transfer.operation_id;
    let conflict: bool = transfer.conflict.is_some();
    let resumable: bool = match transfer.conflict {
        Some(available) => available,
        None => false,
    };
    let mut r: Vec<SftpControl> = Vec::new();
    lists::push_if(
        &mut r,
        transfer.active,
        row_button(
            SftpAction::CancelTransfer { workspace_id, operation_id },
            SftpRowId::Transfer { workspace_id, operation_id },
            MessageId::SftpCancelTransferAction,
            false,
        ),
    );
    lists::push_if(
        &mut r,
        !transfer.active && !conflict && !transfer.verified,
        row_button(
            SftpAction::RetryTransfer { workspace_id, operation_id },
            SftpRowId::Transfer { workspace_id, operation_id },
            MessageId::SftpRetryTransferAction,
            false,
        ),
    );
    lists::push_if(
        &mut r,
        conflict,
        conflict_button(
            workspace_id,
            operation_id,
            SftpConflictChoice::Replace,
            MessageId::SftpReplaceAction,
            false,
        ),
    );
    lists::push_if(
        &mut r,
        conflict,
        conflict_button(
            workspace_id,
            operation_id,
            SftpConflictChoice::Skip,
            MessageId::SftpSkipAction,
            false,
        ),
    );
    lists::push_if(
        &mut r,
        conflict,
        conflict_button(
            workspace_id,
            operation_id,
            SftpConflictChoice::Resume,
            MessageId::SftpResumeTransferAction,
            !resumable,
        ),
    );
    r
}

fn workspace_buttons(workspace_id: u64, browser: &SftpBrowser, max_rows: usize) -> (r: Vec<
    SftpControl,
>)
    ensures
        r@ == workspace_controls(workspace_id, *browser, max_rows as int),
{
    let n: usize = entries_listed(browser.entries.len(), max_rows);
    let busy: bool = match &browser.transfer {
        Some(transfer) => transfer.active,
        None => false,
    };
    let no_file: bool = match browser.selected_is_dir {
        Some(is_dir) => is_dir,
        None => true,
    };
    let mut r: Vec<SftpControl> = Vec::new();
    r.push(
        sftp_button(
            SftpAction::BackToTerminal(workspace_id),
            MessageId::SftpBackTerminalAction,
            false,
        ),
    );
    r.push(
        sftp_button(
            SftpAction::NavigateRemoteParent(workspace_id),
            MessageId::SftpParentAction,
            !browser.has_parent,
        ),
    );
    r.push(
        sftp_button(
            SftpAction::RefreshRemote(workspace_id),
            MessageId::SftpRefreshAction,
            browser.loading,
        ),
    );
    r.push(sftp_button(SftpAction::Upload(workspace_id), MessageId::SftpUploadAction, busy));
    r.push(
        sftp_button(
            SftpAction::Download(workspace_id),
            MessageId::SftpDownloadAction,
            busy || no_file,
        ),
    );
    r.push(
        sftp_button(
            SftpAction::Delete(workspace_id),
            MessageId::SftpDeleteAction,
            busy || browser.selected_is_dir.is_none(),
        ),
    );
    assert(r@ =~= folder_controls(workspace_id, *browser));
    let mut entries: Vec<SftpControl> = Vec::new();
    let ghost all = Seq::new(n as nat, |i: int| entry_control(workspace_id, *browser, i));
    let mut i: usize = 0;
    while i < n
        invariant
            i <= n <= browser.entries@.len(),
            all == Seq::new(n as nat, |i: int| entry_control(workspace_id, *browser, i)),
            entries@ =~= all.take(i as int),
        decreases n - i,
    {
        entries.push(
            row_button(
                SftpAction::SelectEntry(
                    remote_sftp_row_id(workspace_id, &browser.entries[i].path),
                ),
                remote_sftp_row_id(workspace_id, &browser.entries[i].path),
                MessageId::SftpSelectEntryAction,
                browser.loading,
            ),
        );
        i += 1;
    }
    assert(entries@ =~= all);
    lists::push_all(&mut r, entries);
    let transfer: Vec<SftpControl> = match &browser.transfer {
        Some(transfer) => transfer_buttons(workspace_id, transfer),
        None => Vec::new(),
    };
    lists::push_all(&mut r, transfer);
    r
}

pub open spec fn closed_controls(workspace_id: u64, local: bool) -> Seq<SftpControl> {
    seq![
        plain(
            SftpAction::OpenWorkspaceFiles(workspace_id),
            MessageId::SftpOpenFilesAction,
            local,
        ),
        plain(SftpAction::BackToTerminal(workspace_id), MessageId::SftpBackTerminalAction, false),
    ]
}

/// What assistive technology is told of the files of a workspace that is gone.
pub open spec fn shows_gone_workspace(
    snapshot: SftpSemanticSnapshot,
    workspace_id: u64,
    recording_friendly: bool,
) -> bool {
    &&& snapshot.screen == SftpScreen::Workspace
    &&& snapshot.state == SftpSurfaceState::Stale
    &&& snapshot.rows@ == Seq::<SftpRow>::empty()
    &&& snapshot.controls@ == seq![
        plain(SftpAction::BackToTerminal(workspace_id), MessageId::SftpBackTerminalAction, false),
    ]
    &&& snapshot.recording_friendly == recording_friendly
}

fn gone_workspace_snapshot(workspace_id: u64, recording_friendly: bool) -> (r: SftpSemanticSnapshot)
    ensures
        shows_gone_workspace(r, workspace_id, recording_friendly),
{
    let mut controls: Vec<SftpControl> = Vec::new();
    controls.push(
        sftp_button(
            SftpAction::BackToTerminal(workspace_id),
            MessageId::SftpBackTerminalAction,
            false,
        ),
    );
    assert(controls@ =~= seq![
        plain(SftpAction::BackToTerminal(workspace_id), MessageId::SftpBackTerminalAction, false),
    ]);
    SftpSemanticSnapshot {
        screen: SftpScreen::Workspace,
        state: SftpSurfaceState::Stale,
        rows: Vec::new(),
        controls,
        recording_friendly,
    }
}

/// What assistive technology is told of the files of a workspace, of which at
/// most `max_rows` rows are listed.
pub fn workspace_sftp_semantic_snapshot(
    workspace_id: u64,
    workspace: Option<&WorkspaceFiles>,
    max_rows: usize,
    recording_friendly: bool,
) -> (r: SftpSemanticSnapshot)
    requires
        max_rows < usize::MAX,
    ensures
        match workspace {
            None => shows_gone_workspace(r, workspace_id, recording_friendly),
            Some(files) => {
                &&& r.screen == SftpScreen::Workspace
                &&& r.recording_friendly == recording_friendly
                &&& match files.browser {
                    None => {
                        &&& r.state == if files.local_shell {
                            SftpSurfaceState::LocalUnavailable
                        } else {
                            SftpSurfaceState::HostRequired
                        }
                        &&& r.rows@ == Seq::<SftpRow>::empty()
                        &&& r.controls@ == closed_controls(workspace_id, files.local_shell)
                    },
                    Some(browser) => {
                        &&& r.state == workspace_state(browser)
                        &&& shows_workspace_rows(r.rows@, workspace_id, browser, max_rows as int)
                        &&& r.controls@ == workspace_controls(
                            workspace_id,
                            browser,
                            max_rows as int,
                        )
                    },
                }
            },
        },
{
    let files: &WorkspaceFiles = match workspace {
        Some(files) => files,
        None => {
            return gone_workspace_snapshot(workspace_id, recording_friendly);
        },
    };
    match &files.browser {
        None => {
            let mut controls: Vec<SftpControl> = Vec::new();
            controls.push(
                sftp_button(
                    SftpAction::OpenWorkspaceFiles(workspace_id),
                    MessageId::SftpOpenFilesAction,
                    files.local_shell,
                ),
            );
            controls.push(
                sftp_button(
                    SftpAction::BackToTerminal(workspace_id),
                    MessageId::SftpBackTerminalAction,
                    false,
                ),
            );
            assert(controls@ =~= closed_controls(workspace_id, files.local_shell));
            SftpSemanticSnapshot {
                screen: SftpScreen::Workspace,
                state: if files.local_shell {
                    SftpSurfaceState::LocalUnavailable
                } else {
                    SftpSurfaceState::HostRequired
                },
                rows: Vec::new(),
                controls,
                recording_friendly,
            }
        },
        Some(browser) => SftpSemanticSnapshot {
            screen: SftpScreen::Workspace,
            state: match &browser.transfer {
                Some(transfer) => classify_sftp_transfer_state(transfer),
                None => {
                    if browser.loading {
                        SftpSurfaceState::Loading
                    } else if browser.entries.len() == 0 {
                        SftpSurfaceState::Empty
                    } else {
                        SftpSurfaceState::Ready
                    }
                },
            },
            rows: workspace_rows(workspace_id, browser, max_rows),
            controls: workspace_buttons(workspace_id, browser, max_rows),
            recording_friendly,
        },
    }
}

#[derive(Debug)]
pub enum SftpAccessibilityCommand {
    FocusRow(SftpRowId),
    ActivateRow(SftpRowId),
    FocusControl(SftpAction),
    SetControlValue(SftpAction),
    ActivateControl(SftpAction),
}

/// What a command asks for.
#[derive(Debug)]
pub enum SftpStep {
    Nothing,
    FocusList,
    FocusFilter,
    SetFilter(String),
    ActivateRow(SftpRowId),
    ActivateControl(SftpAction),
}

pub open spec fn row_is_open(rows: Seq<SftpRow>, id: SftpRowId) -> bool {
    exists|i: int|
        0 <= i < rows.len() && same_row((#[trigger] rows[i]).id, id) && rows[i].activatable
            && !rows[i].disabled
}

pub open spec fn has_control(controls: Seq<SftpControl>, action: SftpAction) -> bool {
    exists|i: int| 0 <= i < controls.len() && same_action((#[trigger] controls[i]).action, action)
}

pub open spec fn control_is_open(
    controls: Seq<SftpControl>,
    action: SftpAction,
    role: SftpControlRole,
) -> bool {
    exists|i: int|
        0 <= i < controls.len() && same_action((#[trigger] controls[i]).action, action)
            && controls[i].role == role && !controls[i].disabled
}

fn is_open_row(rows: &Vec<SftpRow>, id: &SftpRowId) -> (r: bool)
    ensures
        r == row_is_open(rows@, *id),
{
    let mut i: usize = 0;
    while i < rows.len()
        invariant
            i <= rows@.len(),
            forall|k: int|
                0 <= k < i ==> !(same_row((#[trigger] rows@[k]).id, *id) && rows@[k].activatable
                    && !rows@[k].disabled),
        decreases rows@.len() - i,
    {
        if rows[i].id.names_same(id) && rows[i].activatable && !rows[i].disabled {
            assert(same_row(rows@[i as int].id, *id));
            return true;
        }
        i += 1;
    }
    false
}

fn offers_control(controls: &Vec<SftpControl>, action: &SftpAction) -> (r: bool)
    ensures
        r == has_control(controls@, *action),
{
    let mut i: usize = 0;
    while i < controls.len()
        invariant
            i <= controls@.len(),
            forall|k: int| 0 <= k < i ==> !same_action((#[trigger] controls@[k]).action, *action),
        decreases controls@.len() - i,
    {
        if controls[i].action.is_same(action) {
            assert(same_action(controls@[i as int].action, *action));
            return true;
        }
        i += 1;
    }
    false
}

fn is_open_control(controls: &Vec<SftpControl>, action: &SftpAction, role: SftpControlRole) -> (r:
    bool)
    ensures
        r == control_is_open(controls@, *action, role),
{
    let mut i: usize = 0;
    while i < controls.len()
        invariant
            i <= controls@.len(),
            forall|k: int|
                0 <= k < i ==> !(same_action((#[trigger] controls@[k]).action, *action)
                    && controls@[k].role == role && !controls@[k].disabled),
        decreases controls@.len() - i,
    {
        if controls[i].action.is_same(action) && controls[i].role == role && !controls[i].disabled {
            assert(same_action(controls@[i as int].action, *action));
            return true;
        }
        i += 1;
    }
    false
}

/// What a command asks for, given what is on offer: only a row or a control that
/// is shown and enabled can be activated.
pub open spec fn command_step(
    rows: Seq<SftpRow>,
    controls: Seq<SftpControl>,
    command: SftpAccessibilityCommand,
    value: Option<SemanticActionValue>,
) -> SftpStep {
    match command {
        SftpAccessibilityCommand::FocusRow(_) => SftpStep::FocusList,
        SftpAccessibilityCommand::ActivateRow(row) => if row_is_open(rows, row) {
            SftpStep::ActivateRow(row)
        } else {
            SftpStep::Nothing
        },
        SftpAccessibilityCommand::FocusControl(action) => if !has_control(controls, action) {
            SftpStep::Nothing
        } else if action is SetLocalFilter {
            SftpStep::FocusFilter
        } else {
            SftpStep::FocusList
        },
        SftpAccessibilityCommand::SetControlValue(action) => match value {
            Some(SemanticActionValue::Text(text)) => if control_is_open(
                controls,
                action,
                SftpControlRole::TextField,
            ) {
                SftpStep::SetFilter(text)
            } else {
                SftpStep::Nothing
            },
            _ => SftpStep::Nothing,
        },
        SftpAccessibilityCommand::ActivateControl(action) => if control_is_open(
            controls,
            action,
            SftpControlRole::Button,
        ) {
            SftpStep::ActivateControl(action)
        } else {
            SftpStep::Nothing
        },
    }
}

pub fn handle_sftp_accessibility_command(
    snapshot: &SftpSemanticSnapshot,
    command: SftpAccessibilityCommand,
    value: Option<SemanticActionValue>,
) -> (r: SftpStep)
    ensures
        r == command_step(snapshot.rows@, snapshot.controls@, command, value),
{
    match command {
        SftpAccessibilityCommand::FocusRow(_) => SftpStep::FocusList,
        SftpAccessibilityCommand::ActivateRow(row) => {
            if is_open_row(&snapshot.rows, &row) {
                SftpStep::ActivateRow(row)
            } else {
                SftpStep::Nothing
            }
        },
        SftpAccessibilityCommand::FocusControl(action) => {
            if !offers_control(&snapshot.controls, &action) {
                SftpStep::Nothing
            } else {
                match action {
                    SftpAction::SetLocalFilter => SftpStep::FocusFilter,
                    _ => SftpStep::FocusList,
                }
            }
        },
        SftpAccessibilityCommand::SetControlValue(action) => match value {
            Some(SemanticActionValue::Text(text)) => {
                if is_open_control(&snapshot.controls, &action, SftpControlRole::TextField) {
                    SftpStep::SetFilter(text)
                } else {
                    SftpStep::Nothing
                }
            },
            _ => SftpStep::Nothing,
        },
        SftpAccessibilityCommand::ActivateControl(action) => {
            if is_open_control(&snapshot.controls, &action, SftpControlRole::Button) {
                SftpStep::ActivateControl(action)
            } else {
                SftpStep::Nothing
            }
        },
    }
}

/// A disabled control is never activated.
pub proof fn law_disabled_controls_are_inert(
    rows: Seq<SftpRow>,
    controls: Seq<SftpControl>,
    action: SftpAction,
)
    requires
        forall|i: int|
            0 <= i < controls.len() && same_action((#[trigger] controls[i]).action, action)
                ==> controls[i].disabled,
    ensures
        command_step(rows, controls, SftpAccessibilityCommand::ActivateControl(action), None)
            is Nothing,
{
}

/// What is to be done next in the file browser.
#[derive(Debug)]
pub enum SftpOperation {
    Nothing,
    FocusFilter,
    OpenLocalFolder,
    ConnectHost(String),
    SelectEntry { workspace_id: u64, path: String, open: bool },
    OpenWorkspaceFiles,
    ShowTerminal,
    NavigateUp,
    Refresh(u64),
    Upload,
    Download,
    Delete,
    CancelTransfer(u64),
    RetryTransfer(u64),
    ResolveTransfer { workspace_id: u64, choice: SftpConflictChoice },
}

pub open spec fn is_local(id: SftpRowId) -> spec_fn(LocalEntry) -> bool {
    |entry: LocalEntry| same_row(SftpRowId::Local { path: entry.path }, id)
}

pub open spec fn is_host(id: SftpRowId) -> spec_fn(HostProfile) -> bool {
    |profile: HostProfile| same_row(SftpRowId::Host { profile_id: profile.id }, id)
}

pub open spec fn is_remote(workspace_id: u64, id: SftpRowId) -> spec_fn(SftpEntry) -> bool {
    |entry: SftpEntry| same_row(SftpRowId::Remote { workspace_id, path: entry.path }, id)
}

/// The local folder that a row opens.
pub open spec fn opened_folder(entries: Seq<LocalEntry>, id: SftpRowId) -> Option<String> {
    match lists::first_where(entries, is_local(id)) {
        Some(entry) => if entry.is_dir {
            Some(entry.path)
        } else {
            None
        },
        None => None,
    }
}

/// A row of the open folder's listing opens nothing but a folder that stands in
/// it: the open folder joined with that folder's name.
pub proof fn law_rows_open_folders_of_the_open_one(
    library: SftpLibrary,
    id: SftpRowId,
    entries: Seq<LocalEntry>,
)
    requires
        id is Local,
        lists_folder(library.local_path@, entries),
    ensures
        ({
            let after = library.after_row(id, entries);
            ||| after == library
            ||| exists|i: int|
                0 <= i < entries.len() && (#[trigger] entries[i]).is_dir && after.local_path@
                    == text::path_below(library.local_path@, entries[i].name@)
        }),
{
    lists::lemma_first_index_bounds(entries, is_local(id));
    let i = lists::first_index(entries, is_local(id));
    if i < entries.len() && entries[i].is_dir {
        let after = library.after_row(id, entries);
        assert(after.local_path@ == text::path_below(library.local_path@, entries[i].name@));
    }
}

fn find_local(entries: &Vec<LocalEntry>, id: &SftpRowId) -> (r: Option<String>)
    ensures
        r == opened_folder(entries@, *id),
{
    let ghost wanted = is_local(*id);
    let mut i: usize = 0;
    while i < entries.len()
        invariant
            i <= entries@.len(),
            wanted == is_local(*id),
            forall|k: int| 0 <= k < i ==> !wanted(#[trigger] entries@[k]),
        decreases entries@.len() - i,
    {
        let own: SftpRowId = SftpRowId::Local { path: entries[i].path.clone() };
        if own.names_same(id) {
            proof {
                lists::lemma_first_index(entries@, wanted, i as int);
            }
            return if entries[i].is_dir {
                Some(entries[i].path.clone())
            } else {
                None
            };
        }
        i += 1;
    }
    proof {
        lists::lemma_first_index(entries@, wanted, i as int);
    }
    None
}

fn find_host(profiles: &Vec<HostProfile>, id: &SftpRowId) -> (r: Option<String>)
    ensures
        r == match lists::first_where(profiles@, is_host(*id)) {
            Some(profile) => Some(profile.id),
            None => None,
        },
{
    let ghost wanted = is_host(*id);
    let mut i: usize = 0;
    while i < profiles.len()
        invariant
            i <= profiles@.len(),
            wanted == is_host(*id),
            forall|k: int| 0 <= k < i ==> !wanted(#[trigger] profiles@[k]),
        decreases profiles@.len() - i,
    {
        let own: SftpRowId = SftpRowId::Host { profile_id: profiles[i].id.clone() };
        if own.names_same(id) {
            proof {
                lists::lemma_first_index(profiles@, wanted, i as int);
            }
            return Some(profiles[i].id.clone());
        }
        i += 1;
    }
    proof {
        lists::lemma_first_index(profiles@, wanted, i as int);
    }
    None
}

/// What activating a remote entry does: it is selected, and opened where it is a
/// folder; only in the workspace that is active.
pub open spec fn remote_operation(
    entries: Seq<SftpEntry>,
    active_workspace: Option<u64>,
    workspace_id: u64,
    id: SftpRowId,
) -> SftpOperation {
    if active_workspace != Some(workspace_id) {
        SftpOperation::Nothing
    } else {
        match lists::first_where(entries, is_remote(workspace_id, id)) {
            Some(entry) => SftpOperation::SelectEntry {
                workspace_id,
                path: entry.path,
                open: entry.is_dir,
            },
            None => SftpOperation::Nothing,
        }
    }
}

fn find_remote(
    entries: &Vec<SftpEntry>,
    active_workspace: Option<u64>,
    workspace_id: u64,
    id: &SftpRowId,
) -> (r: SftpOperation)
    ensures
        r == remote_operation(entries@, active_workspace, workspace_id, *id),
{
    if active_workspace != Some(workspace_id) {
        return SftpOperation::Nothing;
    }
    let ghost wanted = is_remote(workspace_id, *id);
    let mut i: usize = 0;
    while i < entries.len()
        invariant
            i <= entries@.len(),
            active_workspace == Some(workspace_id),
            wanted == is_remote(workspace_id, *id),
            forall|k: int| 0 <= k < i ==> !wanted(#[trigger] entries@[k]),
        decreases entries@.len() - i,
    {
        let own: SftpRowId = remote_sftp_row_id(workspace_id, &entries[i].path);
        if own.names_same(id) {
            proof {
                lists::lemma_first_index(entries@, wanted, i as int);
            }
            return SftpOperation::SelectEntry {
                workspace_id,
                path: entries[i].path.clone(),
                open: entries[i].is_dir,
            };
        }
        i += 1;
    }
    proof {
        lists::lemma_first_index(entries@, wanted, i as int);
    }
    SftpOperation::Nothing
}

impl SftpLibrary {
    /// The library after a row was activated.
    pub open spec fn after_row(self, id: SftpRowId, local: Seq<LocalEntry>) -> Self {
        match id {
            SftpRowId::Local { .. } => match opened_folder(local, id) {
                Some(path) => SftpLibrary { local_path: path, ..self },
                None => self,
            },
            SftpRowId::Host { .. } => if lists::first_where(self.profiles@, is_host(id)) is Some {
                SftpLibrary { show_host_picker: false, ..self }
            } else {
                self
            },
            _ => self,
        }
    }

    /// What activating a row asks for.
    pub open spec fn row_operation(
        self,
        id: SftpRowId,
        active_workspace: Option<u64>,
        remote: Seq<SftpEntry>,
    ) -> SftpOperation {
        match id {
            SftpRowId::Host { .. } => match lists::first_where(self.profiles@, is_host(id)) {
                Some(profile) => SftpOperation::ConnectHost(profile.id),
                None => SftpOperation::Nothing,
            },
            SftpRowId::Remote { workspace_id, .. } => remote_operation(
                remote,
                active_workspace,
                workspace_id,
                id,
            ),
            _ => SftpOperation::Nothing,
        }
    }

    /// Activates a row: a local folder is opened, a host is connected to, a
    /// remote entry is selected. `local` lists the open folder and `remote` the
    /// files of the workspace that the row belongs to.
    pub fn activate_sftp_row(
        &mut self,
        id: &SftpRowId,
        local: &Vec<LocalEntry>,
        active_workspace: Option<u64>,
        remote: &Vec<SftpEntry>,
    ) -> (r: SftpOperation)
        ensures
            *final(self) == old(self).after_row(*id, local@),
            r == old(self).row_operation(*id, active_workspace, remote@),
    {
        match id {
            SftpRowId::Local { .. } => {
                match find_local(local, id) {
                    Some(path) => {
                        self.local_path = path;
                    },
                    None => {},
                }
                SftpOperation::Nothing
            },
            SftpRowId::Host { .. } => match find_host(&self.profiles, id) {
                Some(profile_id) => {
                    self.show_host_picker = false;
                    SftpOperation::ConnectHost(profile_id)
                },
                None => SftpOperation::Nothing,
            },
            SftpRowId::Remote { workspace_id, .. } => {
                find_remote(remote, active_workspace, *workspace_id, id)
            },
            SftpRowId::Transfer { .. } => SftpOperation::Nothing,
        }
    }

    /// The library after a control was activated. `parent` is the folder above
    /// the open one.
    pub open spec fn after_control(
        self,
        action: SftpAction,
        parent: Option<String>,
        local: Seq<LocalEntry>,
    ) -> Self {
        match action {
            SftpAction::ToggleLocalFilter => SftpLibrary {
                filter_visible: !self.filter_visible,
                ..self
            },
            SftpAction::NavigateLocalParent => match parent {
                Some(path) => SftpLibrary { local_path: path, ..self },
                None => self,
            },
            SftpAction::ShowHostPicker => SftpLibrary { show_host_picker: true, ..self },
            SftpAction::CloseHostPicker => SftpLibrary { show_host_picker: false, ..self },
            SftpAction::ConnectHost(row) | SftpAction::SelectEntry(row)
            | SftpAction::OpenEntry(row) => self.after_row(row, local),
            _ => self,
        }
    }

    /// What activating a control asks for. What acts on the active workspace
    /// does nothing for another one.
    pub open spec fn control_operation(
        self,
        action: SftpAction,
        active_workspace: Option<u64>,
        remote: Seq<SftpEntry>,
    ) -> SftpOperation {
        match action {
            SftpAction::ToggleLocalFilter => if self.filter_visible {
                SftpOperation::Nothing
            } else {
                SftpOperation::FocusFilter
            },
            SftpAction::OpenLocalFolder => SftpOperation::OpenLocalFolder,
            SftpAction::ConnectHost(row) | SftpAction::SelectEntry(row)
            | SftpAction::OpenEntry(row) => self.row_operation(row, active_workspace, remote),
            SftpAction::OpenWorkspaceFiles(id) => if active_workspace == Some(id) {
                SftpOperation::OpenWorkspaceFiles
            } else {
                SftpOperation::Nothing
            },
            SftpAction::BackToTerminal(id) => if active_workspace == Some(id) {
                SftpOperation::ShowTerminal
            } else {
                SftpOperation::Nothing
            },
            SftpAction::NavigateRemoteParent(id) => if active_workspace == Some(id) {
                SftpOperation::NavigateUp
            } else {
                SftpOperation::Nothing
            },
            SftpAction::RefreshRemote(id) => SftpOperation::Refresh(id),
            SftpAction::Upload(id) => if active_workspace == Some(id) {
                SftpOperation::Upload
            } else {
                SftpOperation::Nothing
            },
            SftpAction::Download(id) => if active_workspace == Some(id) {
                SftpOperation::Download
            } else {
                SftpOperation::Nothing
            },
            SftpAction::Delete(id) => if active_workspace == Some(id) {
                SftpOperation::Delete
            } else {
                SftpOperation::Nothing
            },
            SftpAction::CancelTransfer { workspace_id, .. } => SftpOperation::CancelTransfer(
                workspace_id,
            ),
            SftpAction::RetryTransfer { workspace_id, .. } => SftpOperation::RetryTransfer(
                workspace_id,
            ),
            SftpAction::ResolveConflict {
                workspace_id,
                choice,
                ..
            } => SftpOperation::ResolveTransfer { workspace_id, choice },
            _ => SftpOperation::Nothing,
        }
    }

    /// Every operation on a workspace is asked for by the control made for it and
    /// by no other: deleting only by the delete control, downloading only by the
    /// download control, and so on, each for the active workspace. Transfers are
    /// cancelled, retried and resolved in the workspace that the control names.
    pub proof fn law_operations_are_asked_for_by_their_controls(
        self,
        action: SftpAction,
        active_workspace: Option<u64>,
        remote: Seq<SftpEntry>,
    )
        ensures
            ({
                let asked = self.control_operation(action, active_workspace, remote);
                &&& asked is Delete <==> (action matches SftpAction::Delete(id) && active_workspace
                    == Some(id))
                &&& asked is Download <==> (action matches SftpAction::Download(id)
                    && active_workspace == Some(id))
                &&& asked is Upload <==> (action matches SftpAction::Upload(id) && active_workspace
                    == Some(id))
                &&& asked is NavigateUp <==> (action matches SftpAction::NavigateRemoteParent(id)
                    && active_workspace == Some(id))
                &&& asked is ShowTerminal <==> (action matches SftpAction::BackToTerminal(id)
                    && active_workspace == Some(id))
                &&& asked is OpenWorkspaceFiles <==> (action matches SftpAction::OpenWorkspaceFiles(
                    id,
                ) && active_workspace == Some(id))
                &&& asked is Refresh <==> action is RefreshRemote
                &&& action matches SftpAction::RefreshRemote(id) ==> asked == SftpOperation::Refresh(
                    id,
                )
                &&& asked is CancelTransfer <==> action is CancelTransfer
                &&& action matches SftpAction::CancelTransfer { workspace_id, .. } ==> asked
                    == SftpOperation::CancelTransfer(workspace_id)
                &&& asked is RetryTransfer <==> action is RetryTransfer
                &&& action matches SftpAction::RetryTransfer { workspace_id, .. } ==> asked
                    == SftpOperation::RetryTransfer(workspace_id)
                &&& asked is ResolveTransfer <==> action is ResolveConflict
                &&& action matches SftpAction::ResolveConflict {
                    workspace_id,
                    choice,
                    ..
                } ==> asked == (SftpOperation::ResolveTransfer { workspace_id, choice })
                &&& asked is OpenLocalFolder <==> action is OpenLocalFolder
                &&& asked is FocusFilter <==> action is ToggleLocalFilter && !self.filter_visible
            }),
    {
    }

    /// A control changes no more of the browser than it stands for: the filter is
    /// shown or put away, the picker of hosts opened or closed, the folder above
    /// opened. The typed filter and the known hosts stay.
    pub proof fn law_controls_change_what_they_stand_for(
        self,
        action: SftpAction,
        parent: Option<String>,
        local: Seq<LocalEntry>,
    )
        ensures
            ({
                let after = self.after_control(action, parent, local);
                &&& after.filter_input == self.filter_input
                &&& after.profiles == self.profiles
                &&& after.filter_visible != self.filter_visible <==> action is ToggleLocalFilter
                &&& action is ShowHostPicker ==> after.show_host_picker
                &&& action is CloseHostPicker ==> !after.show_host_picker
                &&& after.show_host_picker && !self.show_host_picker ==> action is ShowHostPicker
                &&& !after.show_host_picker && self.show_host_picker ==> {
                    ||| action is CloseHostPicker
                    ||| action matches SftpAction::ConnectHost(row) && row is Host
                    ||| action matches SftpAction::SelectEntry(row) && row is Host
                    ||| action matches SftpAction::OpenEntry(row) && row is Host
                }
                &&& action is NavigateLocalParent ==> after.local_path == match parent {
                    Some(path) => path,
                    None => self.local_path,
                }
                &&& after.local_path != self.local_path ==> {
                    ||| action is NavigateLocalParent
                    ||| action matches SftpAction::ConnectHost(row) && row is Local
                    ||| action matches SftpAction::SelectEntry(row) && row is Local
                    ||| action matches SftpAction::OpenEntry(row) && row is Local
                }
            }),
    {
    }

    /// Activating the row of a remote entry selects that very entry in the active
    /// workspace, and opens it exactly where it is a folder; the row of a host
    /// connects to that very host.
    pub proof fn law_rows_act_on_their_own_entry(
        self,
        id: SftpRowId,
        active_workspace: Option<u64>,
        remote: Seq<SftpEntry>,
    )
        ensures
            ({
                let asked = self.row_operation(id, active_workspace, remote);
                &&& asked is Nothing || asked is SelectEntry || asked is ConnectHost
                &&& asked matches SftpOperation::SelectEntry { workspace_id, path, open } ==> {
                    &&& active_workspace == Some(workspace_id)
                    &&& id matches SftpRowId::Remote { workspace_id: own, path: named }
                    &&& own == workspace_id
                    &&& named@ == path@
                    &&& exists|i: int|
                        0 <= i < remote.len() && (#[trigger] remote[i]).path == path
                            && remote[i].is_dir == open
                }
                &&& asked matches SftpOperation::ConnectHost(host) ==> {
                    &&& id matches SftpRowId::Host { profile_id }
                    &&& profile_id@ == host@
                    &&& exists|i: int|
                        0 <= i < self.profiles@.len() && (#[trigger] self.profiles@[i]).id == host
                }
                &&& id matches SftpRowId::Remote { workspace_id, path } ==> (active_workspace
                    == Some(workspace_id) && (exists|i: int|
                    0 <= i < remote.len() && (#[trigger] remote[i]).path@ == path@))
                    == (asked is SelectEntry)
                &&& id matches SftpRowId::Host { profile_id } ==> (exists|i: int|
                    0 <= i < self.profiles@.len() && (#[trigger] self.profiles@[i]).id@
                        == profile_id@) == (asked is ConnectHost)
            }),
    {
        lists::lemma_first_index_bounds(self.profiles@, is_host(id));
        if let SftpRowId::Remote { workspace_id, .. } = id {
            lists::lemma_first_index_bounds(remote, is_remote(workspace_id, id));
            assert forall|i: int| 0 <= i < remote.len() implies (is_remote(workspace_id, id))(
                #[trigger] remote[i],
            ) == same_row(SftpRowId::Remote { workspace_id, path: remote[i].path }, id) by {}
        }
        assert forall|i: int| 0 <= i < self.profiles@.len() implies (is_host(id))(
            #[trigger] self.profiles@[i],
        ) == same_row(SftpRowId::Host { profile_id: self.profiles@[i].id }, id) by {}
    }

    pub fn activate_sftp_control(
        &mut self,
        action: SftpAction,
        parent: Option<String>,
        local: &Vec<LocalEntry>,
        active_workspace: Option<u64>,
        remote: &Vec<SftpEntry>,
    ) -> (r: SftpOperation)
        ensures
            *final(self) == old(self).after_control(action, parent, local@),
            r == old(self).control_operation(action, active_workspace, remote@),
    {
        match action {
            SftpAction::ToggleLocalFilter => {
                self.filter_visible = !self.filter_visible;
                if self.filter_visible {
                    SftpOperation::FocusFilter
                } else {
                    SftpOperation::Nothing
                }
            },
            SftpAction::OpenLocalFolder => SftpOperation::OpenLocalFolder,
            SftpAction::NavigateLocalParent => {
                match parent {
                    Some(path) => {
                        self.local_path = path;
                    },
                    None => {},
                }
                SftpOperation::Nothing
            },
            SftpAction::ShowHostPicker => {
                self.show_host_picker = true;
                SftpOperation::Nothing
            },
            SftpAction::CloseHostPicker => {
                self.show_host_picker = false;
                SftpOperation::Nothing
            },
            SftpAction::ConnectHost(row) | SftpAction::SelectEntry(row)
            | SftpAction::OpenEntry(row) => {
                self.activate_sftp_row(&row, local, active_workspace, remote)
            },
            SftpAction::OpenWorkspaceFiles(id) => {
                if active_workspace == Some(id) {
                    SftpOperation::OpenWorkspaceFiles
                } else {
                    SftpOperation::Nothing
                }
            },
            SftpAction::BackToTerminal(id) => {
                if active_workspace == Some(id) {
                    SftpOperation::ShowTerminal
                } else {
                    SftpOperation::Nothing
                }
            },
            SftpAction::NavigateRemoteParent(id) => {
                if active_workspace == Some(id) {
                    SftpOperation::NavigateUp
                } else {
                    SftpOperation::Nothing
                }
            },
            SftpAction::RefreshRemote(id) => SftpOperation::Refresh(id),
            SftpAction::Upload(id) => {
                if active_workspace == Some(id) {
                    SftpOperation::Upload
                } else {
                    SftpOperation::Nothing
                }
            },
            SftpAction::Download(id) => {
                if active_workspace == Some(id) {
                    SftpOperation::Download
                } else {
                    SftpOperation::Nothing
                }
            },
            SftpAction::Delete(id) => {
                if active_workspace == Some(id) {
                    SftpOperation::Delete
                } else {
                    SftpOperation::Nothing
                }
            },
            SftpAction::CancelTransfer { workspace_id, .. } => {
                SftpOperation::CancelTransfer(workspace_id)
            },
            SftpAction::RetryTransfer { workspace_id, .. } => {
                SftpOperation::RetryTransfer(workspace_id)
            },
            SftpAction::ResolveConflict { workspace_id, choice, .. } => {
                SftpOperation::ResolveTransfer { workspace_id, choice }
            },
            SftpAction::SetLocalFilter => SftpOperation::Nothing,
        }
    }
}

/// A row of the local pane. Pressing a folder opens `opens`.
#[derive(Debug)]
pub struct LocalRowView {
    pub icon: Icon,
    pub name: String,
    pub modified: Text,
    pub size: Text,
    pub kind: MessageId,
    pub opens: Option<String>,
}

pub open spec fn local_row_view(entry: LocalEntry) -> LocalRowView {
    LocalRowView {
        icon: if entry.is_dir {
            Icon::Folder
        } else {
            Icon::File
        },
        name: entry.name,
        modified: match entry.modified {
            Some(time) => Text::Value(time),
            None => Text::Literal("--"),
        },
        size: if entry.is_dir {
            Text::Literal("--")
        } else {
            Text::Value(entry.size)
        },
        kind: if entry.is_dir {
            MessageId::SftpFolderKind
        } else {
            MessageId::SftpFileKind
        },
        opens: if entry.is_dir {
            Some(entry.path)
        } else {
            None
        },
    }
}

/// A part of the open folder's path; all but the last are followed by a
/// separator.
#[derive(Debug)]
pub struct PathSegment {
    pub name: String,
    pub separator: bool,
}

#[derive(Debug)]
pub struct LocalPaneView {
    pub title: MessageId,
    pub filter_toggle: ButtonView<SftpAction>,
    pub open_folder: ButtonView<SftpAction>,
    pub back: ButtonView<SftpAction>,
    pub segments: Vec<PathSegment>,
    pub filter_field: bool,
    pub columns: Vec<MessageId>,
    pub message: Option<MessageId>,
    pub rows: Vec<LocalRowView>,
}

/// What is said in place of, or above, the entries of a folder.
pub open spec fn pane_message(
    listing: Result<Vec<LocalEntry>, ListingError>,
    filter: Seq<char>,
) -> Option<MessageId> {
    match listing {
        Err(ListingError::PermissionDenied) => Some(MessageId::SftpStatePermission),
        Err(ListingError::NotFound) => Some(MessageId::SftpStateStale),
        Err(ListingError::Other) => Some(MessageId::SftpStateError),
        Ok(_) => if filtered(listing, filter).len() > 0 {
            None
        } else if filter.len() == 0 {
            Some(MessageId::SftpStateEmpty)
        } else {
            Some(MessageId::SftpStateFilterEmpty)
        },
    }
}

pub open spec fn shows_segments(segments: Seq<PathSegment>, path: Seq<char>) -> bool {
    let parts = text::components(path);
    &&& segments.len() == parts.len()
    &&& forall|i: int|
        0 <= i < parts.len() ==> (#[trigger] segments[i]).name@ == parts[i]
            && segments[i].separator == (i + 1 < parts.len())
}

pub open spec fn pane_columns() -> Seq<MessageId> {
    seq![
        MessageId::SftpColumnName,
        MessageId::SftpColumnModified,
        MessageId::SftpColumnSize,
        MessageId::SftpColumnKind,
    ]
}

fn path_segments(path: &str) -> (r: Vec<PathSegment>)
    ensures
        shows_segments(r@, path@),
{
    let parts: Vec<String> = text::path_components(path);
    let ghost names = text::components(path@);
    let mut r: Vec<PathSegment> = Vec::new();
    let mut i: usize = 0;
    while i < parts.len()
        invariant
            i <= parts@.len() == names.len(),
            text::have_contents(parts@, names),
            r@.len() == i,
            forall|k: int|
                0 <= k < i ==> (#[trigger] r@[k]).name@ == names[k] && r@[k].separator == (k + 1
                    < names.len()),
        decreases parts@.len() - i,
    {
        r.push(PathSegment { name: parts[i].clone(), separator: parts.len() - i > 1 });
        i += 1;
    }
    r
}

impl SftpLibrary {
    /// The pane of local files.
    pub fn local_pane_view(&self, listing: &Result<Vec<LocalEntry>, ListingError>) -> (r:
        LocalPaneView)
        ensures
            r.title == MessageId::SftpLocalPane,
            r.filter_toggle == ui::plain_button(
                "sftp-filter-toggle",
                0,
                Text::Message(MessageId::SftpFilterAction),
                Some(Icon::Search),
                Emphasis::Plain,
                SftpAction::ToggleLocalFilter,
            ),
            r.open_folder == ui::plain_button(
                "sftp-actions-open",
                0,
                Text::Message(MessageId::SftpOpenLocalAction),
                Some(Icon::ChevronDown),
                Emphasis::Plain,
                SftpAction::OpenLocalFolder,
            ),
            r.back == ui::plain_button(
                "sftp-back",
                0,
                Text::Literal(""),
                Some(Icon::ArrowLeft),
                Emphasis::Plain,
                SftpAction::NavigateLocalParent,
            ),
            shows_segments(r.segments@, self.local_path@),
            r.filter_field == self.filter_visible,
            r.columns@ == pane_columns(),
            r.message == pane_message(*listing, self.filter()),
            r.rows@ == filtered(*listing, self.filter()).map_values(
                |entry: LocalEntry| local_row_view(entry),
            ),
    {
        let filter: String = self.filter_text();
        let entries: Vec<LocalEntry> = filter_entries(listing, filter.as_str());
        let unfiltered: bool = filter.as_str().is_empty();
        let message: Option<MessageId> = match listing {
            Err(ListingError::PermissionDenied) => Some(MessageId::SftpStatePermission),
            Err(ListingError::NotFound) => Some(MessageId::SftpStateStale),
            Err(ListingError::Other) => Some(MessageId::SftpStateError),
            Ok(_) => {
                if entries.len() > 0 {
                    None
                } else if unfiltered {
                    Some(MessageId::SftpStateEmpty)
                } else {
                    Some(MessageId::SftpStateFilterEmpty)
                }
            },
        };
        let ghost draw = |entry: LocalEntry| local_row_view(entry);
        let mut rows: Vec<LocalRowView> = Vec::new();
        let mut i: usize = 0;
        while i < entries.len()
            invariant
                i <= entries@.len(),
                draw == (|entry: LocalEntry| local_row_view(entry)),
                rows@ =~= entries@.map_values(draw).take(i as int),
            decreases entries@.len() - i,
        {
            let entry = &entries[i];
            rows.push(
                LocalRowView {
                    icon: if entry.is_dir {
                        Icon::Folder
                    } else {
                        Icon::File
                    },
                    name: entry.name.clone(),
                    modified: match &entry.modified {
                        Some(time) => Text::Value(time.clone()),
                        None => Text::Literal("--"),
                    },
                    size: if entry.is_dir {
                        Text::Literal("--")
                    } else {
                        Text::Value(entry.size.clone())
                    },
                    kind: if entry.is_dir {
                        MessageId::SftpFolderKind
                    } else {
                        MessageId::SftpFileKind
                    },
                    opens: if entry.is_dir {
                        Some(entry.path.clone())
                    } else {
                        None
                    },
                },
            );
            i += 1;
        }
        assert(rows@ =~= entries@.map_values(draw));
        let mut columns: Vec<MessageId> = Vec::new();
        columns.push(MessageId::SftpColumnName);
        columns.push(MessageId::SftpColumnModified);
        columns.push(MessageId::SftpColumnSize);
        columns.push(MessageId::SftpColumnKind);
        assert(columns@ =~= pane_columns());
        LocalPaneView {
            title: MessageId::SftpLocalPane,
            filter_toggle: ui::button(
                "sftp-filter-toggle",
                0,
                Text::Message(MessageId::SftpFilterAction),
                Some(Icon::Search),
                Emphasis::Plain,
                SftpAction::ToggleLocalFilter,
            ),
            open_folder: ui::button(
                "sftp-actions-open",
                0,
                Text::Message(MessageId::SftpOpenLocalAction),
                Some(Icon::ChevronDown),
                Emphasis::Plain,
                SftpAction::OpenLocalFolder,
            ),
            back: ui::button(
                "sftp-back",
                0,
                Text::Literal(""),
                Some(Icon::ArrowLeft),
                Emphasis::Plain,
                SftpAction::NavigateLocalParent,
            ),
            segments: path_segments(self.local_path.as_str()),
            filter_field: self.filter_visible,
            columns,
            message,
            rows,
        }
    }
}

/// A host that can be connected to.
#[derive(Debug)]
pub struct HostRowView {
    pub name: String,
    pub summary: Text,
    pub connects: SftpAction,
}

/// The right-hand pane: the hosts while one is being picked, else the invitation
/// to pick one.
#[derive(Debug)]
pub enum RemotePaneView {
    Invitation {
        title: MessageId,
        description: MessageId,
        select: ButtonView<SftpAction>,
    },
    Hosts {
        title: MessageId,
        subtitle: MessageId,
        badge: MessageId,
        search: MessageId,
        back: ButtonView<SftpAction>,
        rows: Vec<HostRowView>,
    },
}

pub open spec fn host_row_view(profile: HostProfile) -> HostRowView {
    HostRowView {
        name: profile.display_name,
        summary: Text::FilledTwo(
            MessageId::SftpHostSummary,
            Atom::Value(profile.username),
            Atom::Value(profile.endpoint),
        ),
        connects: SftpAction::ConnectHost(SftpRowId::Host { profile_id: profile.id }),
    }
}

pub open spec fn shows_remote_pane(view: RemotePaneView, library: SftpLibrary) -> bool {
    match view {
        RemotePaneView::Invitation { title, description, select } => {
            &&& !library.show_host_picker
            &&& title == MessageId::SftpConnectEmptyTitle
            &&& description == MessageId::SftpConnectEmptyDescription
            &&& select == ui::plain_button(
                "sftp-select-host",
                0,
                Text::Message(MessageId::SftpSelectHostAction),
                None,
                Emphasis::Plain,
                SftpAction::ShowHostPicker,
            )
        },
        RemotePaneView::Hosts { title, subtitle, badge, search, back, rows } => {
            &&& library.show_host_picker
            &&& title == MessageId::SftpHostPickerTitle
            &&& subtitle == MessageId::SftpRemotePane
            &&& badge == MessageId::SftpLocalPane
            &&& search == MessageId::SftpFilterField
            &&& back == ui::plain_button(
                "sftp-picker-back",
                0,
                Text::Literal(""),
                Some(Icon::ArrowLeft),
                Emphasis::Plain,
                SftpAction::CloseHostPicker,
            )
            &&& rows@ == library.profiles@.map_values(|p: HostProfile| host_row_view(p))
        },
    }
}

impl SftpLibrary {
    pub fn remote_pane_view(&self) -> (r: RemotePaneView)
        ensures
            shows_remote_pane(r, *self),
    {
        if !self.show_host_picker {
            return RemotePaneView::Invitation {
                title: MessageId::SftpConnectEmptyTitle,
                description: MessageId::SftpConnectEmptyDescription,
                select: ui::button(
                    "sftp-select-host",
                    0,
                    Text::Message(MessageId::SftpSelectHostAction),
                    None,
                    Emphasis::Plain,
                    SftpAction::ShowHostPicker,
                ),
            };
        }
        let ghost draw = |p: HostProfile| host_row_view(p);
        let mut rows: Vec<HostRowView> = Vec::new();
        let mut i: usize = 0;
        while i < self.profiles.len()
            invariant
                i <= self.profiles@.len(),
                draw == (|p: HostProfile| host_row_view(p)),
                rows@ =~= self.profiles@.map_values(draw).take(i as int),
            decreases self.profiles@.len() - i,
        {
            let profile = &self.profiles[i];
            rows.push(
                HostRowView {
                    name: profile.display_name.clone(),
                    summary: Text::FilledTwo(
                        MessageId::SftpHostSummary,
                        Atom::Value(profile.username.clone()),
                        Atom::Value(profile.endpoint.clone()),
                    ),
                    connects: SftpAction::ConnectHost(
                        SftpRowId::Host { profile_id: profile.id.clone() },
                    ),
                },
            );
            i += 1;
        }
        assert(rows@ =~= self.profiles@.map_values(draw));
        RemotePaneView::Hosts {
            title: MessageId::SftpHostPickerTitle,
            subtitle: MessageId::SftpRemotePane,
            badge: MessageId::SftpLocalPane,
            search: MessageId::SftpFilterField,
            back: ui::button(
                "sftp-picker-back",
                0,
                Text::Literal(""),
                Some(Icon::ArrowLeft),
                Emphasis::Plain,
                SftpAction::CloseHostPicker,
            ),
            rows,
        }
    }

    /// Reports that the open folder was shown in the file manager.
    pub fn report_opened_folder(&self, notices: &mut Notices)
        ensures
            *final(notices) == ui::informed(
                *old(notices),
                Text::Filled(MessageId::SftpOpenedLocalFolder, Atom::Value(self.local_path)),
            ),
            final(notices).error == old(notices).error && (final(notices).status matches Some(Text::Filled(
                _,
                Atom::Value(path),
            )) && path == self.local_path),
    {
        notices.inform(
            Text::Filled(MessageId::SftpOpenedLocalFolder, Atom::Value(self.local_path.clone())),
        );
    }
}

/// The surface of files that is on screen.
#[derive(Clone, Copy, Debug, PartialEq, Eq, Structural)]
pub enum SftpSurface {
    Workspace(u64),
    Library,
}

/// Which surface of files is on screen, if any: the active workspace where it
/// shows files, else the file browser where it is open.
pub fn sftp_surface(
    workspace_with_files: Option<u64>,
    files_section: bool,
    library_tab_active: bool,
) -> (r: Option<SftpSurface>)
    ensures
        r == match workspace_with_files {
            Some(id) => Some(SftpSurface::Workspace(id)),
            None => if files_section && library_tab_active {
                Some(SftpSurface::Library)
            } else {
                None
            },
        },
        workspace_with_files matches Some(id) ==> r == Some(SftpSurface::Workspace(id)),
        r == Some(SftpSurface::Library) ==> files_section && library_tab_active
            && workspace_with_files is None,
{
    match workspace_with_files {
        Some(id) => Some(SftpSurface::Workspace(id)),
        None => {
            if files_section && library_tab_active {
                Some(SftpSurface::Library)
            } else {
                None
            }
        },
    }
}

/// A transfer is shown as completed exactly where it was verified, as cancelled or
/// failed for a reason only where its status says so, and otherwise by whether
/// anything had come through.
pub proof fn law_ended_transfers_are_shown_by_their_status(
    status: Seq<char>,
    active: bool,
    conflict: bool,
    verified: bool,
    bytes: u64,
)
    ensures
        ({
            let state = transfer_state(status, active, conflict, verified, bytes);
            let low = text::lowered(status);
            &&& state is Conflict <==> conflict
            &&& state is Completed <==> verified && !active && !conflict
            &&& state is CancelRequested <==> active && !conflict && text::occurs_in(
                "cancellation requested"@,
                low,
            )
            &&& state is Queued ==> active && text::occurs_in("queued"@, low)
            &&& state is Cancelled <==> !active && !conflict && !verified && text::occurs_in(
                "cancel"@,
                low,
            )
            &&& state is DiskFull ==> text::occurs_in("no space"@, low) || text::occurs_in(
                "disk full"@,
                low,
            )
            &&& state is ResourceLimit ==> text::occurs_in("limit"@, low) || text::occurs_in(
                "too large"@,
                low,
            ) || text::occurs_in("queue is full"@, low)
            &&& state is Timeout ==> text::occurs_in("timeout"@, low) || text::occurs_in(
                "timed out"@,
                low,
            )
            &&& state is PermissionDenied ==> text::occurs_in("permission"@, low)
                || text::occurs_in("denied"@, low)
            &&& state is Offline ==> text::occurs_in("offline"@, low) || text::occurs_in(
                "unreachable"@,
                low,
            ) || text::occurs_in("network"@, low)
            &&& state is Partial ==> bytes > 0
            &&& state is Error ==> bytes == 0
            &&& state is Partial || state is Error ==> {
                &&& !text::occurs_in("no space"@, low) && !text::occurs_in("disk full"@, low)
                &&& !text::occurs_in("limit"@, low) && !text::occurs_in("too large"@, low)
                &&& !text::occurs_in("timeout"@, low) && !text::occurs_in("timed out"@, low)
                &&& !text::occurs_in("permission"@, low) && !text::occurs_in("denied"@, low)
                &&& !text::occurs_in("offline"@, low) && !text::occurs_in("network"@, low)
            }
            &&& !(state is Loading || state is Ready || state is Empty)
        }),
{
}

/// A running transfer can be cancelled, one that ended unverified and without a
/// conflict can be tried again, and a conflict can be resolved in three ways, by
/// going on only where that is possible. Every control acts on that transfer.
pub proof fn law_transfers_offer_what_can_be_done(workspace_id: u64, transfer: SftpTransfer, i: int)
    requires
        0 <= i < transfer_controls(workspace_id, transfer).len(),
    ensures
        ({
            let c = transfer_controls(workspace_id, transfer);
            let own = transfer.operation_id;
            &&& c[i].action is CancelTransfer ==> transfer.active
            &&& c[i].action is RetryTransfer ==> !transfer.active && !transfer.verified
                && transfer.conflict is None
            &&& c[i].action is ResolveConflict ==> transfer.conflict is Some
            &&& c[i].action is CancelTransfer || c[i].action is RetryTransfer
                || c[i].action is ResolveConflict
            &&& c[i].action matches SftpAction::CancelTransfer { workspace_id: w, operation_id: o }
                ==> w == workspace_id && o == own
            &&& c[i].action matches SftpAction::RetryTransfer { workspace_id: w, operation_id: o }
                ==> w == workspace_id && o == own
            &&& c[i].action matches SftpAction::ResolveConflict {
                workspace_id: w,
                operation_id: o,
                choice,
            } ==> {
                &&& w == workspace_id && o == own
                &&& choice is Replace ==> c[i].name == MessageId::SftpReplaceAction
                &&& choice is Skip ==> c[i].name == MessageId::SftpSkipAction
                &&& choice is Resume ==> c[i].name == MessageId::SftpResumeTransferAction
                &&& c[i].disabled <==> choice is Resume && transfer.conflict != Some(true)
            }
            &&& !(c[i].action is ResolveConflict) ==> !c[i].disabled
            &&& transfer.active ==> c[0].action is CancelTransfer
            &&& transfer.conflict is Some ==> c.len() >= 3
        }),
{
}

/// In a folder uploading waits for the running transfer; downloading asks for a
/// selected file besides, deleting for anything selected. Going up asks for a folder
/// above.
pub proof fn law_folders_offer_what_can_be_done(workspace_id: u64, browser: SftpBrowser, i: int)
    requires
        0 <= i < folder_controls(workspace_id, browser).len(),
    ensures
        ({
            let c = folder_controls(workspace_id, browser);
            let busy = browser.transfer matches Some(transfer) && transfer.active;
            &&& c.len() == 6
            &&& c[i].action == SftpAction::Upload(workspace_id) ==> c[i].disabled == busy
                && c[i].name == MessageId::SftpUploadAction
            &&& c[i].action == SftpAction::Download(workspace_id) ==> (!c[i].disabled <==> !busy
                && browser.selected_is_dir == Some(false)) && c[i].name
                == MessageId::SftpDownloadAction
            &&& c[i].action == SftpAction::Delete(workspace_id) ==> (!c[i].disabled <==> !busy
                && browser.selected_is_dir is Some) && c[i].name == MessageId::SftpDeleteAction
            &&& c[i].action == SftpAction::NavigateRemoteParent(workspace_id) ==> c[i].disabled
                == !browser.has_parent
            &&& c[i].action == SftpAction::RefreshRemote(workspace_id) ==> c[i].disabled
                == browser.loading
            &&& c[i].action == SftpAction::BackToTerminal(workspace_id) ==> !c[i].disabled
            &&& c[3].action is Upload && c[4].action is Download && c[5].action is Delete
            &&& {
                ||| c[i].action == SftpAction::Upload(workspace_id)
                ||| c[i].action == SftpAction::Download(workspace_id)
                ||| c[i].action == SftpAction::Delete(workspace_id)
                ||| c[i].action == SftpAction::NavigateRemoteParent(workspace_id)
                ||| c[i].action == SftpAction::RefreshRemote(workspace_id)
                ||| c[i].action == SftpAction::BackToTerminal(workspace_id)
            }
        }),
{
}

/// A command reaches only what is shown and open: a row that can be activated, a
/// button or a field that is not disabled. A value is set only in a field, and only
/// from text.
pub proof fn law_commands_reach_only_what_is_open(
    rows: Seq<SftpRow>,
    controls: Seq<SftpControl>,
    command: SftpAccessibilityCommand,
    value: Option<SemanticActionValue>,
)
    ensures
        ({
            let step = command_step(rows, controls, command, value);
            &&& step matches SftpStep::ActivateRow(id) ==> {
                &&& command == SftpAccessibilityCommand::ActivateRow(id)
                &&& exists|i: int|
                    0 <= i < rows.len() && (#[trigger] rows[i]).activatable && !rows[i].disabled
                        && same_row(rows[i].id, id)
            }
            &&& step matches SftpStep::ActivateControl(action) ==> {
                &&& command == SftpAccessibilityCommand::ActivateControl(action)
                &&& exists|i: int|
                    0 <= i < controls.len() && !(#[trigger] controls[i]).disabled
                        && controls[i].role is Button && same_action(controls[i].action, action)
            }
            &&& step matches SftpStep::SetFilter(text) ==> {
                &&& command is SetControlValue
                &&& value == Some(SemanticActionValue::Text(text))
                &&& exists|i: int|
                    0 <= i < controls.len() && !(#[trigger] controls[i]).disabled
                        && controls[i].role is TextField
            }
            &&& step is FocusFilter ==> command == SftpAccessibilityCommand::FocusControl(
                SftpAction::SetLocalFilter,
            )
            &&& step is FocusList ==> command is FocusRow || command is FocusControl
        }),
{
}

/// Rows are the same exactly where they are of one kind and name the same; controls
/// that are the same ask for the same.
pub proof fn law_sameness_is_by_kind_and_name(a: SftpRowId, b: SftpRowId, x: SftpAction, y: SftpAction)
    ensures
        same_row(a, b) ==> {
            &&& a is Local <==> b is Local
            &&& a is Host <==> b is Host
            &&& a is Remote <==> b is Remote
            &&& a is Transfer <==> b is Transfer
        },
        a matches SftpRowId::Local { path } ==> same_row(a, b) == (b matches SftpRowId::Local {
            path: other,
        } && path@ == other@),
        a matches SftpRowId::Host { profile_id } ==> same_row(a, b) == (b matches SftpRowId::Host {
            profile_id: other,
        } && profile_id@ == other@),
        a is Transfer ==> same_row(a, b) == (a == b),
        same_row(a, b) == same_row(b, a),
        same_row(a, a),
        same_action(x, y) && !(x is ConnectHost || x is SelectEntry || x is OpenEntry) ==> x == y,
        same_action(x, y) ==> {
            &&& x is Delete <==> y is Delete
            &&& x is Download <==> y is Download
            &&& x is ConnectHost <==> y is ConnectHost
            &&& x is SelectEntry <==> y is SelectEntry
            &&& x is OpenEntry <==> y is OpenEntry
        },
        same_action(x, x),
{
}

/// The filter shows exactly the entries in whose name it occurs, whatever the case,
/// and everything where it is blank. A folder that cannot be read shows nothing.
pub proof fn law_the_filter_shows_matching_names(
    listing: Result<Vec<LocalEntry>, ListingError>,
    input: Seq<char>,
    entry: LocalEntry,
)
    ensures
        filtered(listing, applied_filter(input)).contains(entry) <==> {
            &&& listing matches Ok(entries)
            &&& entries@.contains(entry)
            &&& text::trimmed(input).len() == 0 || text::occurs_in(
                text::lowered(text::trimmed(input)),
                text::lowered(entry.name@),
            )
        },
{
    if let Ok(entries) = listing {
        lists::lemma_kept_members(entries@, passes(applied_filter(input)), entry);
    }
}

/// A folder is shown as ready exactly where something of it is shown; as empty, or as
/// filtered to nothing, only where it could be read; and a failure as what it is.
pub proof fn law_the_state_of_a_listing_tells_why(
    listing: Result<Vec<LocalEntry>, ListingError>,
    filter: Seq<char>,
)
    ensures
        ({
            let shown = filtered(listing, filter).len() as int;
            let state = listing_state(listing, shown, filter);
            let message = pane_message(listing, filter);
            &&& state is Ready <==> shown > 0
            &&& state is Empty <==> listing is Ok && shown == 0 && filter.len() == 0
            &&& state is FilterEmpty <==> listing is Ok && shown == 0 && filter.len() > 0
            &&& state is PermissionDenied <==> listing == Err::<Vec<LocalEntry>, ListingError>(
                ListingError::PermissionDenied,
            )
            &&& state is Stale <==> listing == Err::<Vec<LocalEntry>, ListingError>(
                ListingError::NotFound,
            )
            &&& state is Error <==> listing == Err::<Vec<LocalEntry>, ListingError>(
                ListingError::Other,
            )
            &&& message is None <==> state is Ready
            &&& message == Some(MessageId::SftpStateEmpty) <==> state is Empty
            &&& message == Some(MessageId::SftpStateFilterEmpty) <==> state is FilterEmpty
            &&& message == Some(MessageId::SftpStatePermission) <==> state is PermissionDenied
            &&& message == Some(MessageId::SftpStateStale) <==> state is Stale
            &&& message == Some(MessageId::SftpStateError) <==> state is Error
        }),
{
}

/// A local row stands for its entry: it is named by its path, and only folders can
/// be opened, into their own path.
pub proof fn law_local_rows_stand_for_their_entries(entries: Seq<LocalEntry>, i: int)
    requires
        0 <= i < entries.len() < usize::MAX,
    ensures
        ({
            let row = local_rows(entries)[i];
            let drawn = local_row_view(entries[i]);
            &&& local_rows(entries).len() == entries.len()
            &&& row.id == (SftpRowId::Local { path: entries[i].path })
            &&& row.name == entries[i].name
            &&& row.activatable == entries[i].is_dir
            &&& row.status == SftpRowStatus::Message(MessageId::SftpRowLocalFolder)
                <==> entries[i].is_dir
            &&& row.position == i + 1 && row.set_size == entries.len()
            &&& drawn.name == entries[i].name
            &&& drawn.opens is Some <==> entries[i].is_dir
            &&& drawn.opens matches Some(path) ==> path == entries[i].path
            &&& drawn.icon is Folder <==> entries[i].is_dir
            &&& !entries[i].is_dir ==> drawn.size == Text::Value(entries[i].size)
        }),
{
}

/// The rows of a workspace are its entries, in order, as many as fit beside the row
/// of a transfer; each is selected where it is the selected path and can be used
/// unless the folder is loading.
pub proof fn law_workspace_rows_stand_for_their_entries(
    rows: Seq<SftpRow>,
    workspace_id: u64,
    browser: SftpBrowser,
    max_rows: int,
    i: int,
)
    requires
        shows_workspace_rows(rows, workspace_id, browser, max_rows),
        0 <= i < listed_entries(browser.entries@.len() as int, max_rows),
    ensures
        ({
            let entry = browser.entries@[i];
            &&& i < browser.entries@.len()
            &&& rows[i].id == (SftpRowId::Remote { workspace_id, path: entry.path })
            &&& !text::blank(entry.name@) ==> rows[i].name@ == entry.name@
            &&& rows[i].selected <==> (browser.selected_path matches Some(path) && path@
                == entry.path@)
            &&& rows[i].disabled <==> browser.loading
            &&& rows[i].activatable
            &&& rows[i].position == i + 1
            &&& rows[i].status == SftpRowStatus::Message(MessageId::SftpRowRemoteFolder)
                <==> entry.is_dir
            &&& rows[i].status == SftpRowStatus::Message(MessageId::SftpRowRemoteSymlink)
                <==> !entry.is_dir && entry.is_symlink
            &&& max_rows > 0 ==> rows.len() <= max_rows
            &&& browser.transfer matches Some(transfer) ==> rows.last().id == (
            SftpRowId::Transfer { workspace_id, operation_id: transfer.operation_id })
        }),
{
    assert(shows_entry(
        rows[i],
        workspace_id,
        browser,
        i,
        collection_size(browser, max_rows),
    ));
}

/// A workspace shows the state of its transfer, and without one whether it is
/// loading, empty or ready.
pub proof fn law_workspaces_show_their_transfer_first(browser: SftpBrowser)
    ensures
        browser.transfer matches Some(transfer) ==> workspace_state(browser) == state_of_transfer(
            transfer,
        ),
        browser.transfer is None ==> {
            &&& workspace_state(browser) is Loading <==> browser.loading
            &&& workspace_state(browser) is Empty <==> !browser.loading
                && browser.entries@.len() == 0
            &&& workspace_state(browser) is Ready <==> !browser.loading && browser.entries@.len()
                > 0
        },
{
}

/// The picker lists every host under its own name, and pressing one connects to it.
pub proof fn law_the_picker_connects_to_the_host_it_shows(profiles: Seq<HostProfile>, i: int)
    requires
        0 <= i < profiles.len() < usize::MAX,
    ensures
        ({
            let row = host_rows(profiles)[i];
            let button = host_controls(profiles)[i + 1];
            let id = SftpRowId::Host { profile_id: profiles[i].id };
            &&& host_rows(profiles).len() == profiles.len()
            &&& host_controls(profiles).len() == profiles.len() + 1
            &&& row.id == id
            &&& row.name == profiles[i].display_name
            &&& row.activatable && !row.disabled
            &&& button.action == SftpAction::ConnectHost(id)
            &&& button.parent == Some(id)
            &&& !button.disabled
            &&& host_controls(profiles)[0].action is CloseHostPicker
            &&& host_row_view(profiles[i]).connects == SftpAction::ConnectHost(id)
            &&& host_row_view(profiles[i]).name == profiles[i].display_name
        }),
{
}

/// In the local pane the filter shows what it filters by, the folder above can
/// be reached where there is one, and the rest can always be done.
pub proof fn law_the_local_pane_offers_what_can_be_done(
    controls: Seq<SftpControl>,
    filter: Seq<char>,
    has_parent: bool,
)
    requires
        library_controls(controls, filter, has_parent),
    ensures
        controls.len() == 5,
        controls[0].action is ToggleLocalFilter && !controls[0].disabled,
        controls[1].action is SetLocalFilter && controls[1].role is TextField
            && !controls[1].disabled,
        controls[1].value is Some <==> filter.len() > 0,
        controls[1].value matches Some(shown) ==> shown@ == filter,
        controls[2].action is OpenLocalFolder && !controls[2].disabled,
        controls[3].action is NavigateLocalParent && (controls[3].disabled <==> !has_parent),
        controls[4].action is ShowHostPicker && !controls[4].disabled,
{
}

/// A closed workspace can be opened unless it is local, and left.
pub proof fn law_closed_workspaces_can_be_opened_or_left(workspace_id: u64, local: bool)
    ensures
        closed_controls(workspace_id, local).len() == 2,
        closed_controls(workspace_id, local)[0].action == SftpAction::OpenWorkspaceFiles(
            workspace_id,
        ),
        closed_controls(workspace_id, local)[0].disabled <==> local,
        closed_controls(workspace_id, local)[1].action == SftpAction::BackToTerminal(workspace_id),
        !closed_controls(workspace_id, local)[1].disabled,
{
}

/// A workspace that is gone is stale, shows nothing and can only be left.
pub proof fn law_gone_workspaces_can_only_be_left(
    snapshot: SftpSemanticSnapshot,
    workspace_id: u64,
    recording_friendly: bool,
)
    requires
        shows_gone_workspace(snapshot, workspace_id, recording_friendly),
    ensures
        snapshot.state is Stale,
        snapshot.rows@.len() == 0,
        snapshot.controls@.len() == 1,
        snapshot.controls@[0].action == SftpAction::BackToTerminal(workspace_id),
        !snapshot.controls@[0].disabled,
{
}

/// A workspace's controls: those of its folder, one to select each entry that is
/// listed, and those of its transfer.
pub proof fn law_each_listed_entry_can_be_selected(
    workspace_id: u64,
    browser: SftpBrowser,
    max_rows: int,
    i: int,
)
    requires
        0 <= i < listed_entries(browser.entries@.len() as int, max_rows),
    ensures
        ({
            let controls = workspace_controls(workspace_id, browser, max_rows);
            let c = controls[folder_controls(workspace_id, browser).len() + i];
            let row = SftpRowId::Remote { workspace_id, path: browser.entries@[i].path };
            &&& c.action == SftpAction::SelectEntry(row)
            &&& c.parent == Some(row)
            &&& c.disabled == browser.loading
            &&& browser.transfer is None ==> controls.len() == folder_controls(
                workspace_id,
                browser,
            ).len() + listed_entries(browser.entries@.len() as int, max_rows)
        }),
{
}

/// An entry is called by its name, else by the last part of its path, else it is
/// the root.
pub proof fn law_entries_are_called_by_their_name(name: Seq<char>, path: Seq<char>)
    ensures
        !text::blank(name) ==> entry_name(name, path) == name,
        text::blank(name) ==> (text::last_segment(path) matches Some(part) ==> entry_name(name, path)
            == part),
        text::blank(name) && text::last_segment(path) is None ==> entry_name(name, path) == seq![
            '/',
        ],
{
    reveal_strlit("/");
    assert("/"@ =~= seq!['/']);
}

/// What is found in a folder stands below it, as it was found.
pub proof fn law_found_entries_stand_below_their_folder(
    folder: Seq<char>,
    found: FoundEntry,
    entry: LocalEntry,
)
    requires
        stands_in(folder, found, entry),
        folder.len() > 0,
        folder.last() != '/',
        found.name@.len() > 0,
        found.name@[0] != '/',
    ensures
        entry.path@ == folder + seq!['/'] + found.name@,
        entry.name == found.name,
        entry.is_dir == found.is_dir,
        entry.size == found.size,
        entry.modified == found.modified,
{
    text::law_paths_stand_below_their_root(folder, found.name@);
}

/// A path is shown by its parts, with a separator behind each but the last.
pub proof fn law_paths_are_shown_by_their_parts(
    segments: Seq<PathSegment>,
    path: Seq<char>,
    i: int,
)
    requires
        shows_segments(segments, path),
        0 <= i < segments.len(),
    ensures
        segments.len() == text::components(path).len(),
        segments[i].name@ == text::components(path)[i],
        segments[i].separator <==> i < segments.len() - 1,
{
    assert(segments[i].name@ == text::components(path)[i]);
}

/// The remote pane shows the hosts exactly where the picker is open, each leading
/// to its own host, and else invites to choose one.
pub proof fn law_the_remote_pane_shows_hosts_or_invites(
    view: RemotePaneView,
    library: SftpLibrary,
)
    requires
        shows_remote_pane(view, library),
    ensures
        view is Hosts <==> library.show_host_picker,
        view matches RemotePaneView::Hosts { back, rows, .. } ==> back.action is CloseHostPicker
            && rows@.len() == library.profiles@.len(),
        view matches RemotePaneView::Invitation { select, .. } ==> select.action is ShowHostPicker,
{
}

/// A control is called by what it does.
pub proof fn law_file_controls_are_called_by_what_they_do(
    workspace_id: u64,
    browser: SftpBrowser,
    transfer: SftpTransfer,
    local: bool,
    profiles: Seq<HostProfile>,
    i: int,
)
    requires
        0 <= i,
    ensures
        i < 6 ==> ({
            let c = folder_controls(workspace_id, browser)[i];
            &&& c.name == MessageId::SftpBackTerminalAction <==> c.action is BackToTerminal
            &&& c.name == MessageId::SftpParentAction <==> c.action is NavigateRemoteParent
            &&& c.name == MessageId::SftpRefreshAction <==> c.action is RefreshRemote
            &&& c.name == MessageId::SftpUploadAction <==> c.action is Upload
            &&& c.name == MessageId::SftpDownloadAction <==> c.action is Download
            &&& c.name == MessageId::SftpDeleteAction <==> c.action is Delete
        }),
        i < transfer_controls(workspace_id, transfer).len() ==> ({
            let c = transfer_controls(workspace_id, transfer)[i];
            &&& c.name == MessageId::SftpCancelTransferAction <==> c.action is CancelTransfer
            &&& c.name == MessageId::SftpRetryTransferAction <==> c.action is RetryTransfer
            &&& c.action matches SftpAction::ResolveConflict { choice, .. } ==> (c.name
                == MessageId::SftpReplaceAction <==> choice is Replace) && (c.name
                == MessageId::SftpSkipAction <==> choice is Skip) && (c.name
                == MessageId::SftpResumeTransferAction <==> choice is Resume)
        }),
        closed_controls(workspace_id, local)[0].name == MessageId::SftpOpenFilesAction,
        closed_controls(workspace_id, local)[1].name == MessageId::SftpBackTerminalAction,
        host_controls(profiles)[0].name == MessageId::SftpCloseHostPickerAction,
        i < profiles.len() ==> host_controls(profiles)[i + 1].name
            == MessageId::SftpConnectHostAction,
        i < browser.entries@.len() ==> entry_control(workspace_id, browser, i).name
            == MessageId::SftpSelectEntryAction,
{
}

/// The local pane's controls are called by what they do.
pub proof fn law_local_controls_are_called_by_what_they_do(
    controls: Seq<SftpControl>,
    filter: Seq<char>,
    has_parent: bool,
)
    requires
        library_controls(controls, filter, has_parent),
    ensures
        controls[0].name == MessageId::SftpFilterAction,
        controls[1].name == MessageId::SftpFilterField,
        controls[2].name == MessageId::SftpOpenLocalAction,
        controls[3].name == MessageId::SftpParentAction,
        controls[4].name == MessageId::SftpSelectHostAction,
{
}

/// A row of the panes shows what its entry is: a folder opens and has no size, a
/// file has one and opens nothing; a host connects to itself.
pub proof fn law_pane_rows_show_what_they_are(entry: LocalEntry, profile: HostProfile)
    ensures
        local_row_view(entry).name == entry.name,
        local_row_view(entry).icon is Folder <==> entry.is_dir,
        local_row_view(entry).icon is File <==> !entry.is_dir,
        local_row_view(entry).kind == MessageId::SftpFolderKind <==> entry.is_dir,
        local_row_view(entry).kind == MessageId::SftpFileKind <==> !entry.is_dir,
        entry.is_dir ==> local_row_view(entry).opens == Some(entry.path) && local_row_view(
            entry,
        ).size == Text::Literal("--"),
        !entry.is_dir ==> local_row_view(entry).opens is None && local_row_view(entry).size
            == Text::Value(entry.size),
        entry.modified matches Some(time) ==> local_row_view(entry).modified == Text::Value(time),
        host_row_view(profile).name == profile.display_name,
        host_row_view(profile).connects == SftpAction::ConnectHost(
            SftpRowId::Host { profile_id: profile.id },
        ),
        host_row_view(profile).summary == Text::FilledTwo(
            MessageId::SftpHostSummary,
            Atom::Value(profile.username),
            Atom::Value(profile.endpoint),
        ),
        pane_columns() == seq![
            MessageId::SftpColumnName,
            MessageId::SftpColumnModified,
            MessageId::SftpColumnSize,
            MessageId::SftpColumnKind,
        ],
{
}

/// A row's status tells what its entry is.
pub proof fn law_rows_tell_what_their_entry_is(
    entry: SftpEntry,
    found: LocalEntry,
    profile: HostProfile,
    i: int,
    count: int,
)
    ensures
        entry_status(entry) == MessageId::SftpRowRemoteFolder <==> entry.is_dir,
        entry_status(entry) == MessageId::SftpRowRemoteSymlink <==> !entry.is_dir
            && entry.is_symlink,
        entry_status(entry) == MessageId::SftpRowRemoteFile <==> !entry.is_dir && !entry.is_symlink,
        local_row(found, i, count).status == SftpRowStatus::Message(MessageId::SftpRowLocalFolder)
            <==> found.is_dir,
        local_row(found, i, count).status == SftpRowStatus::Message(MessageId::SftpRowLocalFile)
            <==> !found.is_dir,
        host_row(profile, i, count).status == SftpRowStatus::Message(MessageId::SftpRowHost),
{
}

/// A transfer's row stands for that transfer, last in its list, and is no row to
/// be opened.
pub proof fn law_transfer_rows_stand_for_their_transfer(
    workspace_id: u64,
    transfer: SftpTransfer,
    size: int,
)
    requires
        0 <= size <= usize::MAX,
    ensures
        ({
            let row = transfer_row(workspace_id, transfer, size);
            &&& row.id == (SftpRowId::Transfer {
                workspace_id,
                operation_id: transfer.operation_id,
            })
            &&& row.name == transfer.label
            &&& row.detail == Some(SftpDetail::Value(transfer.status))
            &&& !row.selected && !row.disabled && !row.activatable && !row.stale
            &&& row.position == size && row.set_size == size
        }),
{
}

/// An entry's row stands for that entry: selected exactly where it is, out of
/// reach while the folder is read, numbered in order.
pub proof fn law_entry_rows_stand_for_their_entry(
    row: SftpRow,
    workspace_id: u64,
    browser: SftpBrowser,
    i: int,
    set_size: int,
)
    requires
        0 <= i < browser.entries@.len(),
        shows_entry(row, workspace_id, browser, i, set_size),
    ensures
        row.id == (SftpRowId::Remote { workspace_id, path: browser.entries@[i].path }),
        row.detail == Some(SftpDetail::Value(browser.entries@[i].path)),
        row.selected <==> (browser.selected_path matches Some(path) && path@
            == browser.entries@[i].path@),
        row.disabled == browser.loading,
        row.activatable && !row.stale,
        row.position == i + 1 && row.set_size == set_size,
{
}

/// A host's row stands for that host, and can be opened.
pub proof fn law_host_rows_stand_for_their_host(profile: HostProfile, i: int, count: int)
    requires
        0 <= i < count <= usize::MAX,
    ensures
        ({
            let row = host_row(profile, i, count);
            &&& row.id == (SftpRowId::Host { profile_id: profile.id })
            &&& row.name == profile.display_name
            &&& row.detail == Some(
                SftpDetail::Account { username: profile.username, endpoint: profile.endpoint },
            )
            &&& !row.selected && !row.disabled && row.activatable && !row.stale
            &&& row.position == i + 1 && row.set_size == count
        }),
{
}

} // verus!
