//! The preset library: what the preset store last said, the editor, the scan for
//! installed runtimes, and what the presets view shows.
use vstd::prelude::*;

use crate::domain::{duplicate_text, PermissionPolicy, PresetError, StoreError, StoreHealth};
use crate::ids::{preset_element_key, PresetId};
use crate::ids;
use crate::lists;
use crate::messages::{Atom, MessageId, Text};
use crate::runtimes;
use crate::runtimes::RuntimeRegistry;
use crate::session_sidebar;
use crate::text;
use crate::ui;
use crate::ui::{ButtonView, Emphasis, Icon, Notices, Tone};

verus! {

#[derive(Clone, Copy, Debug, PartialEq, Eq, Structural)]
pub enum PresetStoreFailure {
    Corrupt,
    Newer,
    Unavailable,
}

#[derive(Clone, Copy, Debug, PartialEq, Eq, Structural)]
pub enum PresetLibraryLoadState {
    Loading,
    Ready,
    Failed(PresetStoreFailure),
}

/// Where a preset's program starts, as the editor offers it.
#[derive(Clone, Copy, Debug, PartialEq, Eq, Structural)]
pub enum PresetWorkingChoice {
    ProjectRoot,
    PlatformHome,
    ContainedSubdirectory,
}

impl Default for PresetWorkingChoice {
    fn default() -> (r: Self)
        ensures
            r == PresetWorkingChoice::ProjectRoot,
    {
        PresetWorkingChoice::ProjectRoot
    }
}

/// Where a preset's program starts.
#[derive(Debug, PartialEq, Eq)]
pub enum WorkingDirectoryRule {
    ProjectRoot,
    PlatformHome,
    ContainedSubdirectory(String),
}

/// A program, by its full path or as a name to be searched for.
#[derive(Debug, PartialEq, Eq)]
pub enum ExecutableSpec {
    Absolute(String),
    SearchPath(String),
}

impl ExecutableSpec {
    pub open spec fn value(self) -> String {
        match self {
            ExecutableSpec::Absolute(value) => value,
            ExecutableSpec::SearchPath(value) => value,
        }
    }

    pub fn to_text(&self) -> (r: String)
        ensures
            r == self.value(),
    {
        match self {
            ExecutableSpec::Absolute(value) => value.clone(),
            ExecutableSpec::SearchPath(value) => value.clone(),
        }
    }

    /// The same kind of program with the same text.
    pub open spec fn same_as(self, other: Self) -> bool {
        match (self, other) {
            (ExecutableSpec::Absolute(a), ExecutableSpec::Absolute(b)) => a@ == b@,
            (ExecutableSpec::SearchPath(a), ExecutableSpec::SearchPath(b)) => a@ == b@,
            _ => false,
        }
    }

    fn is_same(&self, other: &Self) -> (r: bool)
        ensures
            r == self.same_as(*other),
    {
        match (self, other) {
            (ExecutableSpec::Absolute(a), ExecutableSpec::Absolute(b)) => text::same_text(
                a.as_str(),
                b.as_str(),
            ),
            (ExecutableSpec::SearchPath(a), ExecutableSpec::SearchPath(b)) => text::same_text(
                a.as_str(),
                b.as_str(),
            ),
            _ => false,
        }
    }
}

#[derive(Clone, Copy, Debug, PartialEq, Eq, Structural)]
pub enum PresetOrigin {
    User,
    Detected,
}

/// A stored preset. `risky` is the verdict on its arguments.
#[derive(Debug, PartialEq, Eq)]
pub struct LaunchPreset {
    pub id: PresetId,
    pub label: String,
    pub executable: ExecutableSpec,
    pub args: Vec<String>,
    pub working_directory: WorkingDirectoryRule,
    pub runtime: Option<String>,
    pub enabled: bool,
    pub favorite: bool,
    pub permission_policy: PermissionPolicy,
    pub origin: PresetOrigin,
    pub risky: bool,
    pub revision: u64,
}

/// The presets agree in everything.
pub open spec fn same_preset(a: LaunchPreset, b: LaunchPreset) -> bool {
    a == LaunchPreset { args: a.args, ..b } && a.args@ == b.args@
}

impl WorkingDirectoryRule {
    pub fn duplicate(&self) -> (r: Self)
        ensures
            r == *self,
    {
        match self {
            WorkingDirectoryRule::ProjectRoot => WorkingDirectoryRule::ProjectRoot,
            WorkingDirectoryRule::PlatformHome => WorkingDirectoryRule::PlatformHome,
            WorkingDirectoryRule::ContainedSubdirectory(value) => {
                WorkingDirectoryRule::ContainedSubdirectory(value.clone())
            },
        }
    }
}

impl ExecutableSpec {
    pub fn duplicate(&self) -> (r: Self)
        ensures
            r == *self,
    {
        match self {
            ExecutableSpec::Absolute(value) => ExecutableSpec::Absolute(value.clone()),
            ExecutableSpec::SearchPath(value) => ExecutableSpec::SearchPath(value.clone()),
        }
    }
}

impl LaunchPreset {
    pub fn duplicate(&self) -> (r: Self)
        ensures
            same_preset(r, *self),
    {
        LaunchPreset {
            id: self.id,
            label: self.label.clone(),
            executable: self.executable.duplicate(),
            args: duplicate_list(&self.args),
            working_directory: self.working_directory.duplicate(),
            runtime: duplicate_text(&self.runtime),
            enabled: self.enabled,
            favorite: self.favorite,
            permission_policy: self.permission_policy,
            origin: self.origin,
            risky: self.risky,
            revision: self.revision,
        }
    }
}

impl PresetSnapshot {
    /// The preset of that identity.
    pub fn preset(&self, id: PresetId) -> (r: Option<&LaunchPreset>)
        ensures
            match lists::first_where(self.presets@, is_preset(id)) {
                Some(found) => r == Some(&found),
                None => r is None,
            },
    {
        let index: usize = preset_index(&self.presets, id);
        if index < self.presets.len() {
            Some(&self.presets[index])
        } else {
            None
        }
    }
}

/// A preset as it is handed to the store. The label of a detected preset is the
/// message that names its runtime.
#[derive(Debug, PartialEq, Eq)]
pub struct PresetDraft {
    pub id: PresetId,
    pub label: Atom,
    pub executable: String,
    pub args: Vec<String>,
    pub working_directory: WorkingDirectoryRule,
    pub runtime: Option<String>,
    pub enabled: bool,
    pub favorite: bool,
    pub permission_policy: PermissionPolicy,
    pub origin: PresetOrigin,
    pub confirm_risky_favorite: bool,
}

/// What the preset store holds at one revision.
#[derive(Debug)]
pub struct PresetSnapshot {
    pub revision: u64,
    pub presets: Vec<LaunchPreset>,
    pub health: StoreHealth,
    pub read_only: bool,
}

#[derive(Clone, Copy, Debug, PartialEq, Eq, Structural)]
pub enum DetectionStatus {
    Supported,
    DetectedUnknownVersion,
    UnsupportedVersion,
    Missing,
    PermissionDenied,
    TimedOut,
    Failed,
}

#[derive(Debug)]
pub struct DetectionCandidate {
    pub runtime: String,
    pub executable: ExecutableSpec,
    pub status: DetectionStatus,
    pub version: Option<String>,
}

/// What a scan for installed runtimes found.
#[derive(Debug)]
pub struct DetectionReport {
    pub candidates: Vec<DetectionCandidate>,
    pub cancelled: bool,
    pub partial: bool,
}

#[derive(Debug, PartialEq, Eq)]
pub struct PresetEditorState {
    pub editing_id: Option<PresetId>,
    pub enabled: bool,
    pub favorite: bool,
    pub permission_policy: PermissionPolicy,
    pub working_choice: PresetWorkingChoice,
    pub runtime: Option<String>,
    pub confirm_risky_favorite: bool,
}

/// The text fields of the editor.
#[derive(Debug)]
pub struct PresetForm {
    pub label: String,
    pub executable: String,
    pub subdirectory: String,
    pub arguments: Vec<String>,
}

#[derive(Debug)]
pub struct PresetLibraryState {
    pub has_repository: bool,
    pub load_state: PresetLibraryLoadState,
    pub snapshot: Option<PresetSnapshot>,
    pub editor: Option<PresetEditorState>,
    pub scan_report: Option<DetectionReport>,
    /// Whether a scan can be cancelled.
    pub scanning: bool,
    pub scan_generation: u64,
}

/// What came of opening the preset store, and of reading it.
#[derive(Debug)]
pub enum PresetStoreOpening {
    NoDirectory,
    Refused(StoreError),
    Opened(Result<PresetSnapshot, StoreError>),
}

/// A draft to be saved, with the name that is reported afterwards.
#[derive(Debug)]
pub struct SavePreset {
    pub name: Atom,
    pub draft: PresetDraft,
    pub expected_revision: u64,
}

#[derive(Debug, PartialEq, Eq)]
pub struct RemovePreset {
    pub id: PresetId,
    pub name: String,
    pub expected_revision: u64,
}

#[derive(Clone, Copy, Debug, PartialEq, Eq, Structural)]
pub struct MovePreset {
    pub id: PresetId,
    pub before: Option<PresetId>,
    pub expected_revision: u64,
}

pub open spec fn store_failure(error: StoreError) -> PresetStoreFailure {
    match error {
        StoreError::StoreNewer => PresetStoreFailure::Newer,
        StoreError::Corrupt | StoreError::UnsafeEntry
        | StoreError::TooLarge => PresetStoreFailure::Corrupt,
        _ => PresetStoreFailure::Unavailable,
    }
}

pub fn classify_store_failure(error: &StoreError) -> (r: PresetStoreFailure)
    ensures
        r == store_failure(*error),
{
    match error {
        StoreError::StoreNewer => PresetStoreFailure::Newer,
        StoreError::Corrupt | StoreError::UnsafeEntry | StoreError::TooLarge => {
            PresetStoreFailure::Corrupt
        },
        _ => PresetStoreFailure::Unavailable,
    }
}

pub open spec fn failure_message(failure: PresetStoreFailure) -> MessageId {
    match failure {
        PresetStoreFailure::Corrupt => MessageId::PresetStoreCorrupt,
        PresetStoreFailure::Newer => MessageId::PresetStoreNewer,
        PresetStoreFailure::Unavailable => MessageId::PresetStoreUnavailable,
    }
}

fn failure_label(failure: PresetStoreFailure) -> (r: MessageId)
    ensures
        r == failure_message(failure),
{
    match failure {
        PresetStoreFailure::Corrupt => MessageId::PresetStoreCorrupt,
        PresetStoreFailure::Newer => MessageId::PresetStoreNewer,
        PresetStoreFailure::Unavailable => MessageId::PresetStoreUnavailable,
    }
}

pub open spec fn store_error_message(error: StoreError) -> MessageId {
    match error {
        StoreError::PresetDomain(PresetError::StaleRevision) => MessageId::PresetErrorStale,
        StoreError::PresetDomain(
            PresetError::RiskConfirmationRequired,
        ) => MessageId::PresetErrorRiskConfirm,
        StoreError::PresetDomain(_) => MessageId::PresetErrorInvalid,
        _ => failure_message(store_failure(error)),
    }
}

pub fn preset_store_error_message(error: &StoreError) -> (r: MessageId)
    ensures
        r == store_error_message(*error),
{
    match error {
        StoreError::PresetDomain(PresetError::StaleRevision) => MessageId::PresetErrorStale,
        StoreError::PresetDomain(PresetError::RiskConfirmationRequired) => {
            MessageId::PresetErrorRiskConfirm
        },
        StoreError::PresetDomain(_) => MessageId::PresetErrorInvalid,
        _ => failure_label(classify_store_failure(error)),
    }
}

/// The message that names a runtime that is known here.
pub open spec fn runtime_message(registry: RuntimeRegistry, runtime: Seq<char>) -> Option<MessageId> {
    if runtime == "codex"@ {
        Some(MessageId::RuntimeLabelCodex)
    } else if runtime == registry.claude_id@ {
        Some(MessageId::RuntimeLabelClaude)
    } else if runtime == "gemini"@ {
        Some(MessageId::RuntimeLabelGemini)
    } else {
        None
    }
}

pub open spec fn runtime_name(registry: RuntimeRegistry, runtime: String) -> Atom {
    match runtime_message(registry, runtime@) {
        Some(message) => Atom::Message(message),
        None => Atom::Value(runtime),
    }
}

/// The name under which a detected runtime is shown and saved.
pub fn runtime_label(registry: &RuntimeRegistry, runtime: &String) -> (r: Atom)
    ensures
        r == runtime_name(*registry, *runtime),
{
    if text::same_text(runtime.as_str(), "codex") {
        Atom::Message(MessageId::RuntimeLabelCodex)
    } else if text::same_text(runtime.as_str(), registry.claude_id.as_str()) {
        Atom::Message(MessageId::RuntimeLabelClaude)
    } else if text::same_text(runtime.as_str(), "gemini") {
        Atom::Message(MessageId::RuntimeLabelGemini)
    } else {
        Atom::Value(runtime.clone())
    }
}

/// What is shown of an executable: the name searched for, or the last part of a
/// full path.
pub open spec fn shown_executable(executable: ExecutableSpec) -> Seq<char> {
    match executable {
        ExecutableSpec::SearchPath(value) => value@,
        ExecutableSpec::Absolute(value) => runtimes::executable_name(value@),
    }
}

pub fn executable_display(executable: &ExecutableSpec) -> (r: String)
    ensures
        r@ == shown_executable(*executable),
{
    match executable {
        ExecutableSpec::SearchPath(value) => value.clone(),
        ExecutableSpec::Absolute(value) => runtimes::executable_basename(value.as_str()),
    }
}

/// A full path is shown without the directories above the program.
pub proof fn law_absolute_executable_display_redacts_parent_path(path: String)
    ensures
        shown_executable(ExecutableSpec::Absolute(path)).len() > 0,
        !shown_executable(ExecutableSpec::Absolute(path)).contains('/'),
{
    runtimes::law_executable_display_never_exposes_parent_path(path@);
}

/// How many directories of the search path are looked through for a program.
pub const SEARCH_DIRECTORIES: usize = 128;

/// Where a program is looked for: at its full path, or in the first directories
/// of the search path.
pub open spec fn executable_places(executable: ExecutableSpec, directories: Seq<String>) -> Seq<
    Seq<char>,
> {
    match executable {
        ExecutableSpec::Absolute(value) => seq![value@],
        ExecutableSpec::SearchPath(value) => lists::first_of(
            directories,
            SEARCH_DIRECTORIES as int,
        ).map_values(|directory: String| text::path_below(directory@, value@)),
    }
}

/// The files of which one has to be executable for the program to be available.
pub fn executable_candidates(executable: &ExecutableSpec, directories: &Vec<String>) -> (r: Vec<
    String,
>)
    ensures
        text::have_contents(r@, executable_places(*executable, directories@)),
{
    let mut r: Vec<String> = Vec::new();
    match executable {
        ExecutableSpec::Absolute(value) => {
            r.push(value.clone());
        },
        ExecutableSpec::SearchPath(value) => {
            let count: usize = if directories.len() < SEARCH_DIRECTORIES {
                directories.len()
            } else {
                SEARCH_DIRECTORIES
            };
            let mut i: usize = 0;
            while i < count
                invariant
                    i <= count <= directories@.len(),
                    r@.len() == i,
                    forall|k: int|
                        0 <= k < i ==> (#[trigger] r@[k])@ == text::path_below(
                            directories@[k]@,
                            value@,
                        ),
                decreases count - i,
            {
                r.push(text::join_path(directories[i].as_str(), value.as_str()));
                i += 1;
            }
        },
    }
    r
}

/// Text, tone and icon for what a scan says of a runtime.
pub open spec fn detection_look(status: DetectionStatus) -> (MessageId, Tone, Icon) {
    match status {
        DetectionStatus::Supported => (
            MessageId::PresetStatusSupported,
            Tone::Success,
            Icon::Check,
        ),
        DetectionStatus::DetectedUnknownVersion => (
            MessageId::PresetStatusUnknown,
            Tone::Warning,
            Icon::TriangleAlert,
        ),
        DetectionStatus::UnsupportedVersion => (
            MessageId::PresetStatusUnsupported,
            Tone::Warning,
            Icon::TriangleAlert,
        ),
        DetectionStatus::Missing => (MessageId::PresetStatusMissing, Tone::Muted, Icon::Close),
        DetectionStatus::PermissionDenied => (
            MessageId::PresetStatusPermission,
            Tone::Danger,
            Icon::TriangleAlert,
        ),
        DetectionStatus::TimedOut => (
            MessageId::PresetStatusTimeout,
            Tone::Warning,
            Icon::TriangleAlert,
        ),
        DetectionStatus::Failed => (
            MessageId::PresetStatusFailed,
            Tone::Danger,
            Icon::TriangleAlert,
        ),
    }
}

pub fn detection_presentation(status: DetectionStatus) -> (r: (MessageId, Tone, Icon))
    ensures
        r == detection_look(status),
{
    match status {
        DetectionStatus::Supported => (
            MessageId::PresetStatusSupported,
            Tone::Success,
            Icon::Check,
        ),
        DetectionStatus::DetectedUnknownVersion => (
            MessageId::PresetStatusUnknown,
            Tone::Warning,
            Icon::TriangleAlert,
        ),
        DetectionStatus::UnsupportedVersion => (
            MessageId::PresetStatusUnsupported,
            Tone::Warning,
            Icon::TriangleAlert,
        ),
        DetectionStatus::Missing => (MessageId::PresetStatusMissing, Tone::Muted, Icon::Close),
        DetectionStatus::PermissionDenied => (
            MessageId::PresetStatusPermission,
            Tone::Danger,
            Icon::TriangleAlert,
        ),
        DetectionStatus::TimedOut => (
            MessageId::PresetStatusTimeout,
            Tone::Warning,
            Icon::TriangleAlert,
        ),
        DetectionStatus::Failed => (
            MessageId::PresetStatusFailed,
            Tone::Danger,
            Icon::TriangleAlert,
        ),
    }
}

/// Every detection status has a text of its own.
pub proof fn law_detection_states_are_told_apart(a: DetectionStatus, b: DetectionStatus)
    ensures
        a != b ==> detection_look(a).0 != detection_look(b).0,
{
}

/// A runtime that a preset can be made of.
pub open spec fn usable(status: DetectionStatus) -> bool {
    status == DetectionStatus::Supported || status == DetectionStatus::DetectedUnknownVersion
}

fn is_usable(status: DetectionStatus) -> (r: bool)
    ensures
        r == usable(status),
{
    match status {
        DetectionStatus::Supported | DetectionStatus::DetectedUnknownVersion => true,
        _ => false,
    }
}

pub open spec fn is_preset(id: PresetId) -> spec_fn(LaunchPreset) -> bool {
    |p: LaunchPreset| p.id == id
}

fn preset_index(presets: &Vec<LaunchPreset>, id: PresetId) -> (r: usize)
    ensures
        r == lists::first_index(presets@, is_preset(id)),
        r <= presets@.len(),
{
    let ghost wanted = is_preset(id);
    let mut i: usize = 0;
    while i < presets.len()
        invariant
            i <= presets@.len(),
            wanted == is_preset(id),
            forall|k: int| 0 <= k < i ==> !wanted(#[trigger] presets@[k]),
        decreases presets@.len() - i,
    {
        if presets[i].id == id {
            proof {
                lists::lemma_first_index(presets@, wanted, i as int);
            }
            return i;
        }
        i += 1;
    }
    proof {
        lists::lemma_first_index(presets@, wanted, i as int);
    }
    i
}

pub(crate) fn duplicate_list(list: &Vec<String>) -> (r: Vec<String>)
    ensures
        r@ == list@,
{
    let mut r: Vec<String> = Vec::new();
    let mut i: usize = 0;
    while i < list.len()
        invariant
            i <= list@.len(),
            r@ == list@.take(i as int),
        decreases list@.len() - i,
    {
        r.push(list[i].clone());
        assert(r@ =~= list@.take(i + 1));
        i += 1;
    }
    assert(list@.take(list@.len() as int) =~= list@);
    r
}

/// The generation of the scan after one of the given generation.
pub open spec fn next_scan(generation: u64) -> u64 {
    if generation == u64::MAX {
        0
    } else {
        (generation + 1) as u64
    }
}

/// What the status line says once a scan has ended.
pub open spec fn scan_message(report: DetectionReport) -> MessageId {
    if report.cancelled {
        MessageId::PresetsScanCancelled
    } else if report.partial {
        MessageId::PresetsScanPartial
    } else if forall|i: int|
        0 <= i < report.candidates@.len() ==> !usable((#[trigger] report.candidates@[i]).status) {
        MessageId::PresetsScanNone
    } else {
        MessageId::PresetsReadyStatus
    }
}

fn scan_status(report: &DetectionReport) -> (r: MessageId)
    ensures
        r == scan_message(*report),
{
    if report.cancelled {
        return MessageId::PresetsScanCancelled;
    }
    if report.partial {
        return MessageId::PresetsScanPartial;
    }
    let mut i: usize = 0;
    while i < report.candidates.len()
        invariant
            i <= report.candidates@.len(),
            !report.cancelled,
            !report.partial,
            forall|k: int|
                0 <= k < i ==> !usable((#[trigger] report.candidates@[k]).status),
        decreases report.candidates@.len() - i,
    {
        if is_usable(report.candidates[i].status) {
            assert(usable(report.candidates@[i as int].status));
            return MessageId::PresetsReadyStatus;
        }
        i += 1;
    }
    MessageId::PresetsScanNone
}

/// Where the program starts, as the editor says it.
pub open spec fn chosen_directory(choice: PresetWorkingChoice, subdirectory: String) -> WorkingDirectoryRule {
    match choice {
        PresetWorkingChoice::ProjectRoot => WorkingDirectoryRule::ProjectRoot,
        PresetWorkingChoice::PlatformHome => WorkingDirectoryRule::PlatformHome,
        PresetWorkingChoice::ContainedSubdirectory => WorkingDirectoryRule::ContainedSubdirectory(
            subdirectory,
        ),
    }
}

pub open spec fn working_choice_of(rule: WorkingDirectoryRule) -> PresetWorkingChoice {
    match rule {
        WorkingDirectoryRule::ProjectRoot => PresetWorkingChoice::ProjectRoot,
        WorkingDirectoryRule::PlatformHome => PresetWorkingChoice::PlatformHome,
        WorkingDirectoryRule::ContainedSubdirectory(
            _,
        ) => PresetWorkingChoice::ContainedSubdirectory,
    }
}

pub open spec fn subdirectory_of(rule: WorkingDirectoryRule) -> Seq<char> {
    match rule {
        WorkingDirectoryRule::ContainedSubdirectory(value) => value@,
        _ => Seq::empty(),
    }
}

/// The editor for a preset that does not exist yet.
pub open spec fn new_editor() -> PresetEditorState {
    PresetEditorState {
        editing_id: None,
        enabled: true,
        favorite: false,
        permission_policy: PermissionPolicy::AskAsNeeded,
        working_choice: PresetWorkingChoice::ProjectRoot,
        runtime: None,
        confirm_risky_favorite: false,
    }
}

pub open spec fn editor_of(preset: LaunchPreset) -> PresetEditorState {
    PresetEditorState {
        editing_id: Some(preset.id),
        enabled: preset.enabled,
        favorite: preset.favorite,
        permission_policy: preset.permission_policy,
        working_choice: working_choice_of(preset.working_directory),
        runtime: preset.runtime,
        confirm_risky_favorite: preset.risky,
    }
}

/// An empty form has one empty argument.
pub open spec fn is_blank_form(form: PresetForm) -> bool {
    &&& form.label@.len() == 0
    &&& form.executable@.len() == 0
    &&& form.subdirectory@.len() == 0
    &&& form.arguments@.len() == 1
    &&& form.arguments@[0]@.len() == 0
}

/// The form shows the preset; where it has no argument there is an empty one.
pub open spec fn is_form_of(form: PresetForm, preset: LaunchPreset) -> bool {
    &&& form.label == preset.label
    &&& form.executable == preset.executable.value()
    &&& form.subdirectory@ == subdirectory_of(preset.working_directory)
    &&& if preset.args@.len() == 0 {
        form.arguments@.len() == 1 && form.arguments@[0]@.len() == 0
    } else {
        form.arguments@ == preset.args@
    }
}

/// The draft is what editor and form say.
pub open spec fn is_draft_of(
    draft: PresetDraft,
    editor: PresetEditorState,
    form: PresetForm,
    new_id: PresetId,
) -> bool {
    &&& draft.id == match editor.editing_id {
        Some(id) => id,
        None => new_id,
    }
    &&& draft.label == Atom::Value(form.label)
    &&& draft.executable == form.executable
    &&& draft.args@ == form.arguments@
    &&& draft.working_directory == chosen_directory(editor.working_choice, form.subdirectory)
    &&& draft.runtime == editor.runtime
    &&& draft.enabled == editor.enabled
    &&& draft.favorite == editor.favorite
    &&& draft.permission_policy == editor.permission_policy
    &&& draft.origin == PresetOrigin::User
    &&& draft.confirm_risky_favorite == editor.confirm_risky_favorite
}

/// The draft of a detected runtime.
pub open spec fn is_detected_draft(
    draft: PresetDraft,
    registry: RuntimeRegistry,
    candidate: DetectionCandidate,
    new_id: PresetId,
) -> bool {
    &&& draft.id == new_id
    &&& draft.label == runtime_name(registry, candidate.runtime)
    &&& draft.executable == candidate.executable.value()
    &&& draft.args@.len() == 0
    &&& draft.working_directory == WorkingDirectoryRule::ProjectRoot
    &&& draft.runtime == Some(candidate.runtime)
    &&& draft.enabled
    &&& !draft.favorite
    &&& draft.permission_policy == PermissionPolicy::AskAsNeeded
    &&& draft.origin == PresetOrigin::Detected
    &&& !draft.confirm_risky_favorite
}

/// A stored preset's draft with flags changed; making it a favourite takes back
/// the confirmation of its risk.
pub open spec fn flagged(draft: PresetDraft, enabled: Option<bool>, favorite: Option<bool>) -> PresetDraft {
    PresetDraft {
        enabled: match enabled {
            Some(value) => value,
            None => draft.enabled,
        },
        favorite: match favorite {
            Some(value) => value,
            None => draft.favorite,
        },
        confirm_risky_favorite: favorite is None && draft.confirm_risky_favorite,
        ..draft
    }
}

impl PresetLibraryState {
    pub open spec fn presets(self) -> Seq<LaunchPreset> {
        match self.snapshot {
            Some(snapshot) => snapshot.presets@,
            None => Seq::empty(),
        }
    }

    pub open spec fn found(self, id: PresetId) -> Option<LaunchPreset> {
        lists::first_where(self.presets(), is_preset(id))
    }

    /// The library after reading the store returned `loaded`.
    pub open spec fn reloaded(self, loaded: Result<PresetSnapshot, StoreError>) -> Self {
        if !self.has_repository {
            PresetLibraryState {
                load_state: PresetLibraryLoadState::Failed(PresetStoreFailure::Unavailable),
                snapshot: None,
                ..self
            }
        } else {
            match loaded {
                Ok(snapshot) => PresetLibraryState {
                    load_state: PresetLibraryLoadState::Ready,
                    snapshot: Some(snapshot),
                    ..self
                },
                Err(error) => PresetLibraryState {
                    load_state: PresetLibraryLoadState::Failed(store_failure(error)),
                    snapshot: None,
                    ..self
                },
            }
        }
    }

    /// What is said of the store where it failed or was repaired.
    pub open spec fn store_notice(self) -> Option<MessageId> {
        match self.load_state {
            PresetLibraryLoadState::Failed(failure) => Some(failure_message(failure)),
            _ => match self.snapshot {
                Some(snapshot) => if snapshot.health == StoreHealth::RecoveredLastGood {
                    Some(MessageId::PresetStoreRecovered)
                } else {
                    None
                },
                None => None,
            },
        }
    }

    pub open spec fn unopened() -> Self {
        PresetLibraryState {
            has_repository: false,
            load_state: PresetLibraryLoadState::Loading,
            snapshot: None,
            editor: None,
            scan_report: None,
            scanning: false,
            scan_generation: 0,
        }
    }

    /// The library once the store was opened and read, or the failure that
    /// opening ended in.
    pub fn open_default(opening: PresetStoreOpening) -> (r: Self)
        ensures
            r == match opening {
                PresetStoreOpening::NoDirectory => PresetLibraryState {
                    load_state: PresetLibraryLoadState::Failed(PresetStoreFailure::Unavailable),
                    ..PresetLibraryState::unopened()
                },
                PresetStoreOpening::Refused(error) => PresetLibraryState {
                    load_state: PresetLibraryLoadState::Failed(store_failure(error)),
                    ..PresetLibraryState::unopened()
                },
                PresetStoreOpening::Opened(loaded) => (PresetLibraryState {
                    has_repository: true,
                    ..PresetLibraryState::unopened()
                }).reloaded(loaded),
            },
            r.has_repository <==> opening is Opened,
            opening is NoDirectory ==> r.load_state == PresetLibraryLoadState::Failed(
                PresetStoreFailure::Unavailable,
            ),
            opening matches PresetStoreOpening::Opened(Ok(snapshot)) ==> r.snapshot == Some(snapshot)
                && r.load_state is Ready,
            r.editor is None && !r.scanning && r.scan_report is None,
    {
        let mut state = PresetLibraryState {
            has_repository: false,
            load_state: PresetLibraryLoadState::Loading,
            snapshot: None,
            editor: None,
            scan_report: None,
            scanning: false,
            scan_generation: 0,
        };
        match opening {
            PresetStoreOpening::NoDirectory => {
                state.load_state = PresetLibraryLoadState::Failed(PresetStoreFailure::Unavailable);
            },
            PresetStoreOpening::Refused(error) => {
                state.load_state = PresetLibraryLoadState::Failed(classify_store_failure(&error));
            },
            PresetStoreOpening::Opened(loaded) => {
                state.has_repository = true;
                state.reload(loaded);
            },
        }
        state
    }

    /// Takes over what reading the store returned.
    pub fn reload(&mut self, loaded: Result<PresetSnapshot, StoreError>)
        ensures
            *final(self) == old(self).reloaded(loaded),
    {
        if !self.has_repository {
            self.load_state = PresetLibraryLoadState::Failed(PresetStoreFailure::Unavailable);
            self.snapshot = None;
            return;
        }
        match loaded {
            Ok(snapshot) => {
                self.snapshot = Some(snapshot);
                self.load_state = PresetLibraryLoadState::Ready;
            },
            Err(error) => {
                self.snapshot = None;
                self.load_state = PresetLibraryLoadState::Failed(classify_store_failure(&error));
            },
        }
    }

    pub fn recovery_message(&self) -> (r: Option<MessageId>)
        ensures
            r == self.store_notice(),
    {
        match self.load_state {
            PresetLibraryLoadState::Failed(failure) => Some(failure_label(failure)),
            _ => match &self.snapshot {
                Some(snapshot) => {
                    if snapshot.health == StoreHealth::RecoveredLastGood {
                        Some(MessageId::PresetStoreRecovered)
                    } else {
                        None
                    }
                },
                None => None,
            },
        }
    }

    /// The preset of that identity.
    pub fn preset(&self, id: PresetId) -> (r: Option<&LaunchPreset>)
        ensures
            match self.found(id) {
                Some(preset) => r == Some(&preset),
                None => r is None,
            },
    {
        match &self.snapshot {
            Some(snapshot) => snapshot.preset(id),
            None => None,
        }
    }

    /// Opens the editor for a new preset.
    pub fn open_new_preset(&mut self, form: &mut PresetForm, notices: &mut Notices)
        ensures
            *final(self) == (PresetLibraryState { editor: Some(new_editor()), ..*old(self) }),
            is_blank_form(*final(form)),
            *final(notices) == ui::cleared(*old(notices)),
    {
        proof {
            reveal_strlit("");
        }
        form.label = "".to_owned();
        form.executable = "".to_owned();
        form.subdirectory = "".to_owned();
        let mut arguments: Vec<String> = Vec::new();
        arguments.push("".to_owned());
        form.arguments = arguments;
        self.editor = Some(
            PresetEditorState {
                editing_id: None,
                enabled: true,
                favorite: false,
                permission_policy: PermissionPolicy::AskAsNeeded,
                working_choice: PresetWorkingChoice::ProjectRoot,
                runtime: None,
                confirm_risky_favorite: false,
            },
        );
        notices.clear_error();
    }

    /// Opens the editor for a stored preset; says whether there is one.
    pub fn edit_preset(&mut self, id: PresetId, form: &mut PresetForm, notices: &mut Notices) -> (r:
        bool)
        ensures
            r == old(self).found(id) is Some,
            match old(self).found(id) {
                Some(preset) => {
                    &&& *final(self) == (PresetLibraryState {
                        editor: Some(editor_of(preset)),
                        ..*old(self)
                    })
                    &&& is_form_of(*final(form), preset)
                    &&& *final(notices) == ui::cleared(*old(notices))
                },
                None => {
                    &&& *final(self) == *old(self)
                    &&& *final(form) == *old(form)
                    &&& *final(notices) == *old(notices)
                },
            },
            r <==> old(self).found(id) is Some,
            old(self).found(id) matches Some(preset) ==> (final(self).editor matches Some(editor)
                && editor.editing_id == Some(preset.id)) && final(notices).error is None,
            !r ==> final(self).editor == old(self).editor,
    {
        let editor: PresetEditorState;
        match self.preset(id) {
            None => {
                return false;
            },
            Some(preset) => {
                proof {
                    reveal_strlit("");
                    assert(""@ =~= Seq::<char>::empty());
                }
                let (working_choice, subdirectory): (PresetWorkingChoice, String) =
                    match &preset.working_directory {
                    WorkingDirectoryRule::ProjectRoot => (
                        PresetWorkingChoice::ProjectRoot,
                        "".to_owned(),
                    ),
                    WorkingDirectoryRule::PlatformHome => (
                        PresetWorkingChoice::PlatformHome,
                        "".to_owned(),
                    ),
                    WorkingDirectoryRule::ContainedSubdirectory(value) => (
                        PresetWorkingChoice::ContainedSubdirectory,
                        value.clone(),
                    ),
                };
                form.label = preset.label.clone();
                form.executable = preset.executable.to_text();
                form.subdirectory = subdirectory;
                let mut arguments: Vec<String> = duplicate_list(&preset.args);
                if arguments.len() == 0 {
                    arguments.push("".to_owned());
                }
                form.arguments = arguments;
                editor = PresetEditorState {
                    editing_id: Some(preset.id),
                    enabled: preset.enabled,
                    favorite: preset.favorite,
                    permission_policy: preset.permission_policy,
                    working_choice,
                    runtime: duplicate_text(&preset.runtime),
                    confirm_risky_favorite: preset.risky,
                };
            },
        }
        self.editor = Some(editor);
        notices.clear_error();
        true
    }

    pub fn cancel_preset_editor(&mut self, notices: &mut Notices)
        ensures
            *final(self) == (PresetLibraryState { editor: None, ..*old(self) }),
            *final(notices) == ui::cleared(*old(notices)),
            final(self).editor is None && final(self).snapshot == old(self).snapshot,
            final(notices).error is None,
    {
        self.editor = None;
        notices.clear_error();
    }

    /// Takes an argument out of the form. With the last one goes the confirmation
    /// of a risk.
    pub fn remove_preset_argument(&mut self, index: usize, form: &mut PresetForm)
        ensures
            final(form).arguments@ == if index < old(form).arguments@.len() {
                old(form).arguments@.remove(index as int)
            } else {
                old(form).arguments@
            },
            final(form).label == old(form).label,
            final(form).executable == old(form).executable,
            final(form).subdirectory == old(form).subdirectory,
            *final(self) == (PresetLibraryState {
                editor: match old(self).editor {
                    Some(editor) => Some(
                        PresetEditorState {
                            confirm_risky_favorite: editor.confirm_risky_favorite
                                && final(form).arguments@.len() > 0,
                            ..editor
                        },
                    ),
                    None => None,
                },
                ..*old(self)
            }),
            final(form).arguments@.len() <= old(form).arguments@.len(),
            index < old(form).arguments@.len() ==> final(form).arguments@.len() + 1
                == old(form).arguments@.len(),
            (final(self).editor matches Some(editor) && editor.confirm_risky_favorite) ==> (
            old(self).editor matches Some(before) && before.confirm_risky_favorite),
            final(self).snapshot == old(self).snapshot,
    {
        if index < form.arguments.len() {
            form.arguments.remove(index);
        }
        if form.arguments.len() == 0 {
            match self.editor.take() {
                Some(mut editor) => {
                    editor.confirm_risky_favorite = false;
                    self.editor = Some(editor);
                },
                None => {},
            }
        }
    }

    pub fn choose_working_directory(&mut self, choice: PresetWorkingChoice)
        ensures
            *final(self) == (PresetLibraryState {
                editor: match old(self).editor {
                    Some(editor) => Some(PresetEditorState { working_choice: choice, ..editor }),
                    None => None,
                },
                ..*old(self)
            }),
            final(self).editor matches Some(editor) ==> editor.working_choice == choice,
            final(self).editor is Some <==> old(self).editor is Some,
            old(self).editor matches Some(before) ==> (final(self).editor matches Some(after)
                && after.permission_policy == before.permission_policy && after.enabled == before.enabled),
    {
        match self.editor.take() {
            Some(mut editor) => {
                editor.working_choice = choice;
                self.editor = Some(editor);
            },
            None => {},
        }
    }

    pub fn choose_permission(&mut self, policy: PermissionPolicy)
        ensures
            *final(self) == (PresetLibraryState {
                editor: match old(self).editor {
                    Some(editor) => Some(PresetEditorState { permission_policy: policy, ..editor }),
                    None => None,
                },
                ..*old(self)
            }),
            old(self).editor is Some ==> final(self).editor->0.permission_policy == policy,
    {
        match self.editor.take() {
            Some(mut editor) => {
                editor.permission_policy = policy;
                self.editor = Some(editor);
            },
            None => {},
        }
    }

    pub fn toggle_enabled(&mut self)
        ensures
            *final(self) == (PresetLibraryState {
                editor: match old(self).editor {
                    Some(editor) => Some(
                        PresetEditorState { enabled: !editor.enabled, ..editor },
                    ),
                    None => None,
                },
                ..*old(self)
            }),
            old(self).editor matches Some(before) ==> (final(self).editor matches Some(after)
                && after.enabled != before.enabled && after.favorite == before.favorite),
    {
        match self.editor.take() {
            Some(mut editor) => {
                editor.enabled = !editor.enabled;
                self.editor = Some(editor);
            },
            None => {},
        }
    }

    pub fn toggle_favorite(&mut self)
        ensures
            *final(self) == (PresetLibraryState {
                editor: match old(self).editor {
                    Some(editor) => Some(
                        PresetEditorState { favorite: !editor.favorite, ..editor },
                    ),
                    None => None,
                },
                ..*old(self)
            }),
            old(self).editor matches Some(before) ==> (final(self).editor matches Some(after)
                && after.favorite != before.favorite && after.enabled == before.enabled),
    {
        match self.editor.take() {
            Some(mut editor) => {
                editor.favorite = !editor.favorite;
                self.editor = Some(editor);
            },
            None => {},
        }
    }

    pub fn toggle_risk_confirmation(&mut self)
        ensures
            *final(self) == (PresetLibraryState {
                editor: match old(self).editor {
                    Some(editor) => Some(
                        PresetEditorState {
                            confirm_risky_favorite: !editor.confirm_risky_favorite,
                            ..editor
                        },
                    ),
                    None => None,
                },
                ..*old(self)
            }),
            old(self).editor matches Some(before) ==> (final(self).editor matches Some(after)
                && after.confirm_risky_favorite != before.confirm_risky_favorite && after.favorite
                == before.favorite && after.enabled == before.enabled),
            old(self).editor is None ==> final(self).editor is None,
    {
        match self.editor.take() {
            Some(mut editor) => {
                editor.confirm_risky_favorite = !editor.confirm_risky_favorite;
                self.editor = Some(editor);
            },
            None => {},
        }
    }

    /// What the editor holds, as a draft. `new_id` is for a preset that is not
    /// stored yet.
    pub fn preset_draft(&self, form: &PresetForm, new_id: PresetId) -> (r: Option<PresetDraft>)
        ensures
            match self.editor {
                Some(editor) => r matches Some(draft) && is_draft_of(draft, editor, *form, new_id),
                None => r is None,
            },
    {
        let editor = match &self.editor {
            Some(editor) => editor,
            None => {
                return None;
            },
        };
        Some(
            PresetDraft {
                id: match editor.editing_id {
                    Some(id) => id,
                    None => new_id,
                },
                label: Atom::Value(form.label.clone()),
                executable: form.executable.clone(),
                args: duplicate_list(&form.arguments),
                working_directory: match editor.working_choice {
                    PresetWorkingChoice::ProjectRoot => WorkingDirectoryRule::ProjectRoot,
                    PresetWorkingChoice::PlatformHome => WorkingDirectoryRule::PlatformHome,
                    PresetWorkingChoice::ContainedSubdirectory => {
                        WorkingDirectoryRule::ContainedSubdirectory(form.subdirectory.clone())
                    },
                },
                runtime: duplicate_text(&editor.runtime),
                enabled: editor.enabled,
                favorite: editor.favorite,
                permission_policy: editor.permission_policy,
                origin: PresetOrigin::User,
                confirm_risky_favorite: editor.confirm_risky_favorite,
            },
        )
    }

    /// What is asked of the store to save the editor. The first save of an empty
    /// store expects revision zero.
    pub fn save_request(&self, form: &PresetForm, new_id: PresetId, notices: &mut Notices) -> (r:
        Option<SavePreset>)
        ensures
            match self.editor {
                None => r is None && *final(notices) == *old(notices),
                Some(editor) => if !self.has_repository {
                    &&& r is None
                    &&& *final(notices) == ui::failed(
                        *old(notices),
                        Text::Message(MessageId::PresetStoreUnavailable),
                    )
                } else {
                    &&& r matches Some(request)
                    &&& is_draft_of(request.draft, editor, *form, new_id)
                    &&& request.name@ == crate::messages::AtomView::Characters(
                        text::trimmed(form.label@),
                    )
                    &&& request.expected_revision == match self.snapshot {
                        Some(snapshot) => snapshot.revision,
                        None => 0,
                    }
                    &&& *final(notices) == *old(notices)
                },
            },
            r is Some <==> self.editor is Some && self.has_repository,
            self.editor is Some && !self.has_repository ==> final(notices).error is Some,
            r matches Some(request) ==> (self.snapshot matches Some(snapshot) ==> request.expected_revision
                == snapshot.revision),
    {
        let draft: PresetDraft = match self.preset_draft(form, new_id) {
            Some(draft) => draft,
            None => {
                return None;
            },
        };
        let name: String = text::trim(form.label.as_str());
        if !self.has_repository {
            notices.fail(Text::Message(MessageId::PresetStoreUnavailable));
            return None;
        }
        let expected_revision: u64 = match &self.snapshot {
            Some(snapshot) => snapshot.revision,
            None => 0,
        };
        Some(SavePreset { name: Atom::Value(name), draft, expected_revision })
    }

    /// Closes the editor where the store saved it; reads the store again where it
    /// had moved on.
    pub fn save_preset_editor(
        &mut self,
        name: Atom,
        reply: Result<(), StoreError>,
        loaded: Result<PresetSnapshot, StoreError>,
        notices: &mut Notices,
    )
        ensures
            match reply {
                Ok(_) => {
                    &&& *final(self) == (PresetLibraryState {
                        editor: None,
                        ..*old(self)
                    }).reloaded(loaded)
                    &&& *final(notices) == ui::succeeded(
                        Text::Filled(MessageId::PresetSavedStatus, name),
                    )
                },
                Err(error) => {
                    &&& *final(self) == if error == StoreError::PresetDomain(
                        PresetError::StaleRevision,
                    ) {
                        old(self).reloaded(loaded)
                    } else {
                        *old(self)
                    }
                    &&& *final(notices) == ui::failed(
                        *old(notices),
                        Text::Message(store_error_message(error)),
                    )
                },
            },
            reply is Ok ==> final(self).editor is None && final(notices).error is None,
            reply is Err ==> final(self).editor == old(self).editor && final(notices).error is Some,
    {
        match reply {
            Ok(_) => {
                self.editor = None;
                self.reload(loaded);
                notices.succeed(Text::Filled(MessageId::PresetSavedStatus, name));
            },
            Err(error) => {
                match error {
                    StoreError::PresetDomain(PresetError::StaleRevision) => {
                        self.reload(loaded);
                    },
                    _ => {},
                }
                notices.fail(Text::Message(preset_store_error_message(&error)));
            },
        }
    }

    /// What is asked of the store to delete a preset.
    pub fn delete_request(&self, id: PresetId) -> (r: Option<RemovePreset>)
        ensures
            match self.snapshot {
                Some(snapshot) if self.has_repository => {
                    &&& r matches Some(request)
                    &&& request.id == id
                    &&& request.expected_revision == snapshot.revision
                    &&& match self.found(id) {
                        Some(preset) => request.name == preset.label,
                        None => request.name@.len() == 0,
                    }
                },
                _ => r is None,
            },
            r matches Some(request) ==> request.id == id && self.has_repository && (self.snapshot matches Some(
                snapshot,
            ) && request.expected_revision == snapshot.revision),
            self.has_repository && self.snapshot is Some ==> r is Some,
    {
        if !self.has_repository {
            return None;
        }
        match &self.snapshot {
            None => None,
            Some(snapshot) => {
                proof {
                    reveal_strlit("");
                }
                let name: String = match self.preset(id) {
                    Some(preset) => preset.label.clone(),
                    None => "".to_owned(),
                };
                Some(RemovePreset { id, name, expected_revision: snapshot.revision })
            },
        }
    }

    pub fn delete_preset(
        &mut self,
        name: String,
        reply: Result<(), StoreError>,
        loaded: Result<PresetSnapshot, StoreError>,
        notices: &mut Notices,
    )
        ensures
            match reply {
                Ok(_) => {
                    &&& *final(self) == old(self).reloaded(loaded)
                    &&& *final(notices) == ui::succeeded(
                        Text::Filled(MessageId::PresetRemovedStatus, Atom::Value(name)),
                    )
                },
                Err(error) => {
                    &&& *final(self) == *old(self)
                    &&& *final(notices) == ui::failed(
                        *old(notices),
                        Text::Message(store_error_message(error)),
                    )
                },
            },
            reply is Ok ==> final(notices).error is None,
            reply is Err ==> final(self).snapshot == old(self).snapshot && final(notices).error is Some,
            final(self).editor == old(self).editor,
    {
        match reply {
            Ok(_) => {
                self.reload(loaded);
                notices.succeed(Text::Filled(MessageId::PresetRemovedStatus, Atom::Value(name)));
            },
            Err(error) => {
                notices.fail(Text::Message(preset_store_error_message(&error)));
            },
        }
    }

    /// What is asked of the store to change a preset's flags. `draft` is the
    /// stored preset's own draft. A risky preset is not made a favourite here.
    pub fn flags_request(
        &self,
        id: PresetId,
        enabled: Option<bool>,
        favorite: Option<bool>,
        draft: PresetDraft,
        notices: &mut Notices,
    ) -> (r: Option<SavePreset>)
        ensures
            match (self.snapshot, self.found(id)) {
                (Some(snapshot), Some(preset)) => if favorite == Some(true) && preset.risky {
                    &&& r is None
                    &&& *final(notices) == ui::failed(
                        *old(notices),
                        Text::Message(MessageId::PresetErrorRiskConfirm),
                    )
                } else {
                    &&& r == if self.has_repository {
                        Some(
                            SavePreset {
                                name: Atom::Value(preset.label),
                                draft: flagged(draft, enabled, favorite),
                                expected_revision: snapshot.revision,
                            },
                        )
                    } else {
                        None
                    }
                    &&& *final(notices) == *old(notices)
                },
                _ => r is None && *final(notices) == *old(notices),
            },
            r matches Some(request) ==> {
                &&& self.found(id) matches Some(preset)
                &&& !(favorite == Some(true) && preset.risky)
                &&& request.draft.id == draft.id
                &&& enabled matches Some(value) ==> request.draft.enabled == value
                &&& favorite matches Some(value) ==> request.draft.favorite == value
            },
    {
        let snapshot = match &self.snapshot {
            Some(snapshot) => snapshot,
            None => {
                return None;
            },
        };
        let preset = match self.preset(id) {
            Some(preset) => preset,
            None => {
                return None;
            },
        };
        let wanted: bool = match favorite {
            Some(value) => value,
            None => false,
        };
        if wanted && preset.risky {
            notices.fail(Text::Message(MessageId::PresetErrorRiskConfirm));
            return None;
        }
        let mut draft: PresetDraft = draft;
        match enabled {
            Some(value) => {
                draft.enabled = value;
            },
            None => {},
        }
        match favorite {
            Some(value) => {
                draft.favorite = value;
                draft.confirm_risky_favorite = false;
            },
            None => {},
        }
        if !self.has_repository {
            return None;
        }
        Some(
            SavePreset {
                name: Atom::Value(preset.label.clone()),
                draft,
                expected_revision: snapshot.revision,
            },
        )
    }

    /// What is asked of the store to move a preset by one place.
    pub fn move_request(&self, id: PresetId, direction: isize) -> (r: Option<MovePreset>)
        ensures
            ({
                let presets = self.presets();
                let index = lists::first_index(presets, is_preset(id));
                let place = session_sidebar::move_target(presets, index, direction as int);
                r == match self.snapshot {
                    Some(snapshot) => if index < presets.len() && place is Some
                        && self.has_repository {
                        Some(
                            MovePreset {
                                id,
                                before: match place->0 {
                                    Some(preset) => Some(preset.id),
                                    None => None,
                                },
                                expected_revision: snapshot.revision,
                            },
                        )
                    } else {
                        None
                    },
                    None => None,
                }
            }),
            r matches Some(request) ==> request.id == id && self.has_repository && (self.snapshot matches Some(
                snapshot,
            ) && request.expected_revision == snapshot.revision),
    {
        let snapshot = match &self.snapshot {
            Some(snapshot) => snapshot,
            None => {
                return None;
            },
        };
        let index: usize = preset_index(&snapshot.presets, id);
        if index >= snapshot.presets.len() {
            return None;
        }
        let place: Option<Option<usize>> = session_sidebar::move_index(
            snapshot.presets.len(),
            index,
            direction,
        );
        let before: Option<PresetId> = match place {
            None => {
                return None;
            },
            Some(None) => None,
            Some(Some(at)) => Some(snapshot.presets[at].id),
        };
        if !self.has_repository {
            return None;
        }
        Some(MovePreset { id, before, expected_revision: snapshot.revision })
    }

    /// Takes over the store's reply to a change of flags or of the order.
    pub fn finish_change(
        &mut self,
        reply: Result<(), StoreError>,
        loaded: Result<PresetSnapshot, StoreError>,
        notices: &mut Notices,
    )
        ensures
            match reply {
                Ok(_) => {
                    &&& *final(self) == old(self).reloaded(loaded)
                    &&& *final(notices) == ui::cleared(*old(notices))
                },
                Err(error) => {
                    &&& *final(self) == *old(self)
                    &&& *final(notices) == ui::failed(
                        *old(notices),
                        Text::Message(store_error_message(error)),
                    )
                },
            },
            reply is Ok ==> final(notices).error is None,
            reply is Err ==> final(self).snapshot == old(self).snapshot && final(notices).error is Some,
            final(notices).status == old(notices).status,
    {
        match reply {
            Ok(_) => {
                self.reload(loaded);
                notices.clear_error();
            },
            Err(error) => {
                notices.fail(Text::Message(preset_store_error_message(&error)));
            },
        }
    }

    /// Begins a scan. Returns its generation and whether an earlier one is to be
    /// cancelled.
    pub fn start_preset_scan(&mut self, notices: &mut Notices) -> (r: (u64, bool))
        ensures
            *final(self) == (PresetLibraryState {
                scanning: true,
                scan_generation: r.0,
                ..*old(self)
            }),
            r.0 == next_scan(old(self).scan_generation),
            r.1 == old(self).scanning,
            *final(notices) == ui::succeeded(Text::Message(MessageId::PresetsScanning)),
    {
        let superseded: bool = self.scanning;
        self.scan_generation = self.scan_generation.wrapping_add(1);
        self.scanning = true;
        notices.succeed(Text::Message(MessageId::PresetsScanning));
        (self.scan_generation, superseded)
    }

    /// Takes over the report of a scan, unless a later one has begun.
    pub fn finish_preset_scan(
        &mut self,
        generation: u64,
        report: DetectionReport,
        notices: &mut Notices,
    )
        ensures
            if generation != old(self).scan_generation {
                &&& *final(self) == *old(self)
                &&& *final(notices) == *old(notices)
            } else {
                &&& *final(self) == (PresetLibraryState {
                    scanning: false,
                    scan_report: Some(report),
                    ..*old(self)
                })
                &&& *final(notices) == ui::informed(
                    *old(notices),
                    Text::Message(scan_message(report)),
                )
            },
            generation == old(self).scan_generation ==> !final(self).scanning,
            generation != old(self).scan_generation ==> final(self).scan_report
                == old(self).scan_report,
    {
        if self.scan_generation != generation {
            return;
        }
        self.scanning = false;
        notices.inform(Text::Message(scan_status(&report)));
        self.scan_report = Some(report);
    }

    /// Whether there is a scan to be cancelled; it ends when it reports.
    pub fn cancel_preset_scan(&self, notices: &mut Notices) -> (r: bool)
        ensures
            r == self.scanning,
            *final(notices) == if self.scanning {
                ui::informed(*old(notices), Text::Message(MessageId::PresetsScanCancelled))
            } else {
                *old(notices)
            },
            final(notices).error == old(notices).error,
            !r ==> final(notices).status == old(notices).status,
    {
        if self.scanning {
            notices.inform(Text::Message(MessageId::PresetsScanCancelled));
        }
        self.scanning
    }

    /// What is asked of the store to make a preset of a detected runtime.
    pub fn accept_request(
        &self,
        registry: &RuntimeRegistry,
        candidate: &DetectionCandidate,
        new_id: PresetId,
    ) -> (r: Option<SavePreset>)
        ensures
            match self.snapshot {
                Some(snapshot) if usable(candidate.status) && self.has_repository => {
                    &&& r matches Some(request)
                    &&& is_detected_draft(request.draft, *registry, *candidate, new_id)
                    &&& request.name == runtime_name(*registry, candidate.runtime)
                    &&& request.expected_revision == snapshot.revision
                },
                _ => r is None,
            },
            r is Some ==> candidate.status is Supported
                || candidate.status is DetectedUnknownVersion,
    {
        if !is_usable(candidate.status) {
            return None;
        }
        let label: Atom = runtime_label(registry, &candidate.runtime);
        let draft: PresetDraft = PresetDraft {
            id: new_id,
            label: label.duplicate(),
            executable: candidate.executable.to_text(),
            args: Vec::new(),
            working_directory: WorkingDirectoryRule::ProjectRoot,
            runtime: Some(candidate.runtime.clone()),
            enabled: true,
            favorite: false,
            permission_policy: PermissionPolicy::AskAsNeeded,
            origin: PresetOrigin::Detected,
            confirm_risky_favorite: false,
        };
        let snapshot = match &self.snapshot {
            Some(snapshot) => snapshot,
            None => {
                return None;
            },
        };
        if !self.has_repository {
            return None;
        }
        Some(SavePreset { name: label, draft, expected_revision: snapshot.revision })
    }

    pub fn accept_detected_preset(
        &mut self,
        label: Atom,
        reply: Result<(), StoreError>,
        loaded: Result<PresetSnapshot, StoreError>,
        notices: &mut Notices,
    )
        ensures
            match reply {
                Ok(_) => {
                    &&& *final(self) == old(self).reloaded(loaded)
                    &&& *final(notices) == ui::succeeded(
                        Text::Filled(MessageId::PresetAcceptedStatus, label),
                    )
                },
                Err(error) => {
                    &&& *final(self) == *old(self)
                    &&& *final(notices) == ui::failed(
                        *old(notices),
                        Text::Message(store_error_message(error)),
                    )
                },
            },
            reply is Ok ==> final(notices).error is None,
            reply is Err ==> final(self).snapshot == old(self).snapshot && final(notices).error is Some,
    {
        match reply {
            Ok(_) => {
                self.reload(loaded);
                notices.succeed(Text::Filled(MessageId::PresetAcceptedStatus, label));
            },
            Err(error) => {
                notices.fail(Text::Message(preset_store_error_message(&error)));
            },
        }
    }

    /// Reads the store again; says whether the list takes the focus.
    pub fn retry_preset_library(
        &mut self,
        loaded: Result<PresetSnapshot, StoreError>,
        notices: &mut Notices,
    ) -> (r: bool)
        ensures
            *final(self) == old(self).reloaded(loaded),
            r == (final(self).load_state == PresetLibraryLoadState::Ready),
            *final(notices) == if r {
                ui::succeeded(Text::Message(MessageId::PresetsReadyStatus))
            } else {
                ui::failed(
                    *old(notices),
                    Text::Message(
                        match final(self).store_notice() {
                            Some(message) => message,
                            None => MessageId::PresetStoreUnavailable,
                        },
                    ),
                )
            },
            r ==> final(notices).error is None,
            !r ==> final(notices).error is Some && final(notices).status == old(notices).status,
            old(self).has_repository && loaded is Ok ==> r,
    {
        self.reload(loaded);
        if self.load_state == PresetLibraryLoadState::Ready {
            notices.succeed(Text::Message(MessageId::PresetsReadyStatus));
            return true;
        }
        let message: MessageId = match self.recovery_message() {
            Some(message) => message,
            None => MessageId::PresetStoreUnavailable,
        };
        notices.fail(Text::Message(message));
        false
    }
}

/// Adds an empty argument to the form unless it has as many as a preset may have;
/// says whether it did.
pub fn add_preset_argument(form: &mut PresetForm, max_arguments: usize, notices: &mut Notices) -> (r:
    bool)
    ensures
        r == (old(form).arguments@.len() < max_arguments),
        final(form).label == old(form).label,
        final(form).executable == old(form).executable,
        final(form).subdirectory == old(form).subdirectory,
        if r {
            &&& final(form).arguments@.len() == old(form).arguments@.len() + 1
            &&& final(form).arguments@.drop_last() == old(form).arguments@
            &&& final(form).arguments@.last()@.len() == 0
            &&& *final(notices) == *old(notices)
        } else {
            &&& final(form).arguments@ == old(form).arguments@
            &&& *final(notices) == ui::failed(
                *old(notices),
                Text::Message(MessageId::PresetErrorInvalid),
            )
        },
{
    if form.arguments.len() >= max_arguments {
        notices.fail(Text::Message(MessageId::PresetErrorInvalid));
        return false;
    }
    proof {
        reveal_strlit("");
    }
    let ghost before = form.arguments@;
    form.arguments.push("".to_owned());
    assert(form.arguments@.drop_last() =~= before);
    true
}

/// Editing a stored preset and saving it unchanged hands the same facts back to
/// the store.
pub proof fn law_editing_keeps_the_preset(
    preset: LaunchPreset,
    form: PresetForm,
    draft: PresetDraft,
    new_id: PresetId,
)
    requires
        is_form_of(form, preset),
        is_draft_of(draft, editor_of(preset), form, new_id),
    ensures
        draft.id == preset.id,
        draft.label == Atom::Value(preset.label),
        draft.executable == preset.executable.value(),
        preset.args@.len() > 0 ==> draft.args@ == preset.args@,
        working_choice_of(draft.working_directory) == working_choice_of(preset.working_directory),
        subdirectory_of(draft.working_directory) == subdirectory_of(preset.working_directory),
        draft.runtime == preset.runtime,
        draft.enabled == preset.enabled,
        draft.favorite == preset.favorite,
        draft.permission_policy == preset.permission_policy,
{
}

/// A scan that was superseded does not report: the generation of a new scan is
/// not that of the one before.
pub proof fn law_scan_generations_differ(generation: u64)
    ensures
        next_scan(generation) != generation,
{
}

/// What can be asked for in the presets view.
#[derive(Clone, Copy, Debug, PartialEq, Eq, Structural)]
pub enum PresetAction {
    Scan,
    CancelScan,
    Add,
    RetryStore,
    AcceptDetected(usize),
    MoveUp(PresetId),
    MoveDown(PresetId),
    SetEnabled(PresetId, bool),
    SetFavorite(PresetId, bool),
    Edit(PresetId),
    Delete(PresetId),
    RemoveArgument(usize),
    AddArgument,
    ChooseWorkingDirectory(PresetWorkingChoice),
    ChoosePermission(PermissionPolicy),
    ToggleEnabled,
    ToggleFavorite,
    ToggleRiskConfirmation,
    Save,
    CancelEditor,
}

/// A short status with a tone and an icon.
#[derive(Clone, Copy, Debug, PartialEq, Eq, Structural)]
pub struct PresetChip {
    pub message: MessageId,
    pub tone: Tone,
    pub icon: Icon,
}

/// One preset in the list; a favourite carries a star.
#[derive(Debug)]
pub struct PresetRowView {
    pub key: u64,
    pub label: String,
    pub star: Option<Icon>,
    pub executable: String,
    pub argument_count: Text,
    pub chips: Vec<PresetChip>,
    pub buttons: Vec<ButtonView<PresetAction>>,
}

pub open spec fn preset_chips(preset: LaunchPreset, available: bool) -> Seq<PresetChip> {
    seq![
        if available {
            PresetChip {
                message: MessageId::PresetStatusSupported,
                tone: Tone::Success,
                icon: Icon::Check,
            }
        } else {
            PresetChip {
                message: MessageId::PresetStatusMissing,
                tone: Tone::Warning,
                icon: Icon::TriangleAlert,
            }
        },
    ] + lists::optional(
        !preset.enabled,
        PresetChip {
            message: MessageId::PresetStatusDisabled,
            tone: Tone::Muted,
            icon: Icon::Close,
        },
    ) + lists::optional(
        preset.risky,
        PresetChip {
            message: MessageId::PresetStatusRisky,
            tone: Tone::Danger,
            icon: Icon::TriangleAlert,
        },
    )
}

pub open spec fn preset_buttons(preset: LaunchPreset, index: int, count: int) -> Seq<
    ButtonView<PresetAction>,
> {
    let id = preset.id;
    let key = ids::folded_key(id.value);
    seq![
        ui::disabled_if(
            ui::plain_button(
                "preset-up",
                key,
                Text::Message(MessageId::PresetMoveUpAction),
                Some(Icon::ChevronUp),
                Emphasis::Plain,
                PresetAction::MoveUp(id),
            ),
            index == 0,
        ),
        ui::disabled_if(
            ui::plain_button(
                "preset-down",
                key,
                Text::Message(MessageId::PresetMoveDownAction),
                Some(Icon::ChevronDown),
                Emphasis::Plain,
                PresetAction::MoveDown(id),
            ),
            index + 1 == count,
        ),
        ui::selected_if(
            ui::plain_button(
                "preset-enabled",
                key,
                Text::Message(MessageId::PresetEnabledField),
                None,
                Emphasis::Plain,
                PresetAction::SetEnabled(id, !preset.enabled),
            ),
            preset.enabled,
        ),
        ui::selected_if(
            ui::plain_button(
                "preset-favorite",
                key,
                Text::Message(MessageId::PresetFavoriteField),
                Some(Icon::Star),
                Emphasis::Plain,
                PresetAction::SetFavorite(id, !preset.favorite),
            ),
            preset.favorite,
        ),
        ui::plain_button(
            "preset-edit",
            key,
            Text::Message(MessageId::PresetEditAction),
            None,
            Emphasis::Plain,
            PresetAction::Edit(id),
        ),
        ui::plain_button(
            "preset-delete",
            key,
            Text::Message(MessageId::PresetDeleteAction),
            Some(Icon::Delete),
            Emphasis::Danger,
            PresetAction::Delete(id),
        ),
    ]
}

/// The row shows the preset at its place in the list.
pub open spec fn shows_preset(
    row: PresetRowView,
    preset: LaunchPreset,
    index: int,
    count: int,
    available: bool,
) -> bool {
    &&& row.key == ids::folded_key(preset.id.value)
    &&& row.label == preset.label
    &&& row.star == if preset.favorite {
        Some(Icon::Star)
    } else {
        None
    }
    &&& row.executable@ == shown_executable(preset.executable)
    &&& row.argument_count == Text::Filled(
        MessageId::PresetArgumentCount,
        Atom::Number(preset.args@.len() as u64),
    )
    &&& row.chips@ == preset_chips(preset, available)
    &&& row.buttons@ == preset_buttons(preset, index, count)
}

fn preset_row(preset: &LaunchPreset, index: usize, count: usize, available: bool) -> (row:
    PresetRowView)
    requires
        index < usize::MAX,
    ensures
        shows_preset(row, *preset, index as int, count as int, available),
{
    let id: PresetId = preset.id;
    let key: u64 = preset_element_key(id);
    let mut chips: Vec<PresetChip> = Vec::new();
    chips.push(
        if available {
            PresetChip {
                message: MessageId::PresetStatusSupported,
                tone: Tone::Success,
                icon: Icon::Check,
            }
        } else {
            PresetChip {
                message: MessageId::PresetStatusMissing,
                tone: Tone::Warning,
                icon: Icon::TriangleAlert,
            }
        },
    );
    lists::push_if(
        &mut chips,
        !preset.enabled,
        PresetChip {
            message: MessageId::PresetStatusDisabled,
            tone: Tone::Muted,
            icon: Icon::Close,
        },
    );
    lists::push_if(
        &mut chips,
        preset.risky,
        PresetChip {
            message: MessageId::PresetStatusRisky,
            tone: Tone::Danger,
            icon: Icon::TriangleAlert,
        },
    );
    assert(chips@ =~= preset_chips(*preset, available));
    let mut buttons: Vec<ButtonView<PresetAction>> = Vec::new();
    buttons.push(
        ui::button(
            "preset-up",
            key,
            Text::Message(MessageId::PresetMoveUpAction),
            Some(Icon::ChevronUp),
            Emphasis::Plain,
            PresetAction::MoveUp(id),
        ).with_disabled(index == 0),
    );
    buttons.push(
        ui::button(
            "preset-down",
            key,
            Text::Message(MessageId::PresetMoveDownAction),
            Some(Icon::ChevronDown),
            Emphasis::Plain,
            PresetAction::MoveDown(id),
        ).with_disabled(index + 1 == count),
    );
    buttons.push(
        ui::button(
            "preset-enabled",
            key,
            Text::Message(MessageId::PresetEnabledField),
            None,
            Emphasis::Plain,
            PresetAction::SetEnabled(id, !preset.enabled),
        ).with_selected(preset.enabled),
    );
    buttons.push(
        ui::button(
            "preset-favorite",
            key,
            Text::Message(MessageId::PresetFavoriteField),
            Some(Icon::Star),
            Emphasis::Plain,
            PresetAction::SetFavorite(id, !preset.favorite),
        ).with_selected(preset.favorite),
    );
    buttons.push(
        ui::button(
            "preset-edit",
            key,
            Text::Message(MessageId::PresetEditAction),
            None,
            Emphasis::Plain,
            PresetAction::Edit(id),
        ),
    );
    buttons.push(
        ui::button(
            "preset-delete",
            key,
            Text::Message(MessageId::PresetDeleteAction),
            Some(Icon::Delete),
            Emphasis::Danger,
            PresetAction::Delete(id),
        ),
    );
    assert(buttons@ =~= preset_buttons(*preset, index as int, count as int));
    PresetRowView {
        key,
        label: preset.label.clone(),
        star: if preset.favorite {
            Some(Icon::Star)
        } else {
            None
        },
        executable: executable_display(&preset.executable),
        argument_count: Text::Filled(
            MessageId::PresetArgumentCount,
            Atom::Number(preset.args.len() as u64),
        ),
        chips,
        buttons,
    }
}

/// The main area of the presets view.
#[derive(Debug)]
pub enum PresetsContent {
    Loading(MessageId),
    Failed { message: MessageId, retry: ButtonView<PresetAction> },
    Empty { icon: Icon, title: MessageId, description: MessageId },
    Rows(Vec<PresetRowView>),
}

/// Whether the program of the preset at a place was found; programs of which
/// nothing was reported were not.
pub open spec fn is_available(available: Seq<bool>, i: int) -> bool {
    i < available.len() && available[i]
}

impl PresetLibraryState {
    /// The list of presets, or what stands in its place.
    pub open spec fn shows_content(self, content: PresetsContent, available: Seq<bool>) -> bool {
        match self.load_state {
            PresetLibraryLoadState::Loading => content == PresetsContent::Loading(
                MessageId::PresetsScanning,
            ),
            PresetLibraryLoadState::Failed(failure) => content == (PresetsContent::Failed {
                message: failure_message(failure),
                retry: ui::plain_button(
                    "presets-store-retry",
                    0,
                    Text::Message(MessageId::CommonRetry),
                    Some(Icon::Redo2),
                    Emphasis::Plain,
                    PresetAction::RetryStore,
                ),
            }),
            PresetLibraryLoadState::Ready => if self.presets().len() == 0 {
                content == (PresetsContent::Empty {
                    icon: Icon::SquareTerminal,
                    title: MessageId::PresetsEmptyTitle,
                    description: MessageId::PresetsEmptyDescription,
                })
            } else {
                &&& content matches PresetsContent::Rows(rows)
                &&& rows@.len() == self.presets().len()
                &&& forall|i: int|
                    0 <= i < rows@.len() ==> shows_preset(
                        #[trigger] rows@[i],
                        self.presets()[i],
                        i,
                        rows@.len() as int,
                        is_available(available, i),
                    )
            },
        }
    }

    /// The list of presets; `available` says of each whether its program was
    /// found.
    pub fn preset_list(&self, available: &Vec<bool>) -> (r: PresetsContent)
        ensures
            self.shows_content(r, available@),
    {
        match self.load_state {
            PresetLibraryLoadState::Loading => {
                return PresetsContent::Loading(MessageId::PresetsScanning);
            },
            PresetLibraryLoadState::Failed(failure) => {
                return PresetsContent::Failed {
                    message: failure_label(failure),
                    retry: ui::button(
                        "presets-store-retry",
                        0,
                        Text::Message(MessageId::CommonRetry),
                        Some(Icon::Redo2),
                        Emphasis::Plain,
                        PresetAction::RetryStore,
                    ),
                };
            },
            PresetLibraryLoadState::Ready => {},
        }
        let mut rows: Vec<PresetRowView> = Vec::new();
        match &self.snapshot {
            None => {},
            Some(snapshot) => {
                let count: usize = snapshot.presets.len();
                let mut i: usize = 0;
                while i < count
                    invariant
                        i <= count,
                        count == snapshot.presets@.len(),
                        self.presets() == snapshot.presets@,
                        rows@.len() == i,
                        forall|k: int|
                            0 <= k < i ==> shows_preset(
                                #[trigger] rows@[k],
                                self.presets()[k],
                                k,
                                count as int,
                                is_available(available@, k),
                            ),
                    decreases count - i,
                {
                    let found: bool = i < available.len() && available[i];
                    rows.push(preset_row(&snapshot.presets[i], i, count, found));
                    i += 1;
                }
            },
        }
        if rows.len() == 0 {
            return PresetsContent::Empty {
                icon: Icon::SquareTerminal,
                title: MessageId::PresetsEmptyTitle,
                description: MessageId::PresetsEmptyDescription,
            };
        }
        PresetsContent::Rows(rows)
    }

    /// Whether a preset runs the detected program as the detected runtime.
    pub open spec fn has_preset_for(self, candidate: DetectionCandidate) -> bool {
        exists|i: int|
            0 <= i < self.presets().len() && covers(#[trigger] self.presets()[i], candidate)
    }

    pub fn preset_exists_for(&self, candidate: &DetectionCandidate) -> (r: bool)
        ensures
            r == self.has_preset_for(*candidate),
    {
        let snapshot = match &self.snapshot {
            Some(snapshot) => snapshot,
            None => {
                return false;
            },
        };
        let mut i: usize = 0;
        while i < snapshot.presets.len()
            invariant
                i <= snapshot.presets@.len(),
                self.presets() == snapshot.presets@,
                forall|k: int| 0 <= k < i ==> !covers(#[trigger] self.presets()[k], *candidate),
            decreases snapshot.presets@.len() - i,
        {
            let same_runtime: bool = match &snapshot.presets[i].runtime {
                Some(runtime) => text::same_text(runtime.as_str(), candidate.runtime.as_str()),
                None => false,
            };
            if same_runtime && snapshot.presets[i].executable.is_same(&candidate.executable) {
                assert(covers(self.presets()[i as int], *candidate));
                return true;
            }
            i += 1;
        }
        false
    }
}

pub open spec fn covers(preset: LaunchPreset, candidate: DetectionCandidate) -> bool {
    &&& preset.runtime matches Some(runtime)
    &&& runtime@ == candidate.runtime@
    &&& preset.executable.same_as(candidate.executable)
}

/// One detected runtime.
#[derive(Debug)]
pub struct DetectedRow {
    pub name: Atom,
    pub chip: PresetChip,
    pub version: Option<Text>,
    pub accept: ButtonView<PresetAction>,
}

#[derive(Debug)]
pub struct DetectionView {
    pub title: MessageId,
    pub partial: Option<MessageId>,
    pub rows: Vec<DetectedRow>,
}

pub open spec fn detected_row(
    registry: RuntimeRegistry,
    candidate: DetectionCandidate,
    index: int,
    exists: bool,
) -> DetectedRow {
    let look = detection_look(candidate.status);
    DetectedRow {
        name: runtime_name(registry, candidate.runtime),
        chip: PresetChip { message: look.0, tone: look.1, icon: look.2 },
        version: match candidate.version {
            Some(version) => Some(
                Text::Filled(MessageId::PresetDetectedVersion, Atom::Value(version)),
            ),
            None => None,
        },
        accept: ui::disabled_if(
            ui::plain_button(
                "accept-detected-preset",
                index as u64,
                Text::Message(MessageId::PresetAcceptAction),
                Some(Icon::Plus),
                Emphasis::Plain,
                PresetAction::AcceptDetected(index as usize),
            ),
            !usable(candidate.status) || exists,
        ),
    }
}

impl PresetLibraryState {
    /// What a scan found. A runtime can be accepted where it is usable and has no
    /// preset yet.
    pub open spec fn shows_report(
        self,
        view: DetectionView,
        registry: RuntimeRegistry,
        report: DetectionReport,
    ) -> bool {
        &&& view.title == MessageId::PresetsDetectedTitle
        &&& view.partial == if report.partial {
            Some(MessageId::PresetsScanPartial)
        } else {
            None
        }
        &&& view.rows@ == Seq::new(
            report.candidates@.len(),
            |i: int|
                detected_row(
                    registry,
                    report.candidates@[i],
                    i,
                    self.has_preset_for(report.candidates@[i]),
                ),
        )
    }

    pub fn detection_report(&self, registry: &RuntimeRegistry, report: &DetectionReport) -> (r:
        DetectionView)
        ensures
            self.shows_report(r, *registry, *report),
    {
        let mut rows: Vec<DetectedRow> = Vec::new();
        let mut i: usize = 0;
        while i < report.candidates.len()
            invariant
                i <= report.candidates@.len(),
                rows@.len() == i,
                forall|k: int|
                    0 <= k < i ==> #[trigger] rows@[k] == detected_row(
                        *registry,
                        report.candidates@[k],
                        k,
                        self.has_preset_for(report.candidates@[k]),
                    ),
            decreases report.candidates@.len() - i,
        {
            let candidate = &report.candidates[i];
            let (message, tone, icon): (MessageId, Tone, Icon) = detection_presentation(
                candidate.status,
            );
            let accept: bool = is_usable(candidate.status) && !self.preset_exists_for(candidate);
            rows.push(
                DetectedRow {
                    name: runtime_label(registry, &candidate.runtime),
                    chip: PresetChip { message, tone, icon },
                    version: match &candidate.version {
                        Some(version) => Some(
                            Text::Filled(
                                MessageId::PresetDetectedVersion,
                                Atom::Value(version.clone()),
                            ),
                        ),
                        None => None,
                    },
                    accept: ui::button(
                        "accept-detected-preset",
                        i as u64,
                        Text::Message(MessageId::PresetAcceptAction),
                        Some(Icon::Plus),
                        Emphasis::Plain,
                        PresetAction::AcceptDetected(i),
                    ).with_disabled(!accept),
                },
            );
            i += 1;
        }
        assert(rows@ =~= Seq::new(
            report.candidates@.len(),
            |i: int|
                detected_row(
                    *registry,
                    report.candidates@[i],
                    i,
                    self.has_preset_for(report.candidates@[i]),
                ),
        ));
        DetectionView {
            title: MessageId::PresetsDetectedTitle,
            partial: if report.partial {
                Some(MessageId::PresetsScanPartial)
            } else {
                None
            },
            rows,
        }
    }
}

/// The warning that a risky preset's editor shows, with its confirmation.
#[derive(Debug)]
pub struct RiskPanel {
    pub icon: Icon,
    pub message: MessageId,
    pub confirm: ButtonView<PresetAction>,
}

#[derive(Debug)]
pub struct PresetEditorView {
    pub border: Tone,
    pub title: MessageId,
    pub fields: Vec<MessageId>,
    pub arguments_field: MessageId,
    pub remove_argument: Vec<ButtonView<PresetAction>>,
    pub add_argument: ButtonView<PresetAction>,
    pub working_field: MessageId,
    pub working_options: Vec<ButtonView<PresetAction>>,
    pub subdirectory_field: Option<MessageId>,
    pub permission_field: MessageId,
    pub permission_options: Vec<ButtonView<PresetAction>>,
    pub toggles: Vec<ButtonView<PresetAction>>,
    pub risk: Option<RiskPanel>,
    pub note: MessageId,
    pub buttons: Vec<ButtonView<PresetAction>>,
}

pub open spec fn toggle(
    id: &'static str,
    label: MessageId,
    selected: bool,
    action: PresetAction,
) -> ButtonView<PresetAction> {
    ui::selected_if(
        ui::plain_button(
            id,
            0,
            Text::Message(label),
            Some(
                if selected {
                    Icon::Check
                } else {
                    Icon::Close
                },
            ),
            Emphasis::Plain,
            action,
        ),
        selected,
    )
}

fn toggle_button(id: &'static str, label: MessageId, selected: bool, action: PresetAction) -> (r:
    ButtonView<PresetAction>)
    ensures
        r == toggle(id, label, selected, action),
{
    ui::button(
        id,
        0,
        Text::Message(label),
        Some(
            if selected {
                Icon::Check
            } else {
                Icon::Close
            },
        ),
        Emphasis::Plain,
        action,
    ).with_selected(selected)
}

pub open spec fn option_button(
    id: &'static str,
    index: u64,
    label: MessageId,
    selected: bool,
    action: PresetAction,
) -> ButtonView<PresetAction> {
    ui::selected_if(
        ui::plain_button(id, index, Text::Message(label), None, Emphasis::Plain, action),
        selected,
    )
}

fn choice_button(
    id: &'static str,
    index: u64,
    label: MessageId,
    selected: bool,
    action: PresetAction,
) -> (r: ButtonView<PresetAction>)
    ensures
        r == option_button(id, index, label, selected, action),
{
    ui::button(id, index, Text::Message(label), None, Emphasis::Plain, action).with_selected(
        selected,
    )
}

pub open spec fn working_option(
    index: u64,
    label: MessageId,
    choice: PresetWorkingChoice,
    chosen: PresetWorkingChoice,
) -> ButtonView<PresetAction> {
    option_button(
        "preset-working-choice",
        index,
        label,
        chosen == choice,
        PresetAction::ChooseWorkingDirectory(choice),
    )
}

pub open spec fn working_options(chosen: PresetWorkingChoice) -> Seq<ButtonView<PresetAction>> {
    seq![
        working_option(
            0,
            MessageId::PresetWorkingProjectRoot,
            PresetWorkingChoice::ProjectRoot,
            chosen,
        ),
        working_option(
            1,
            MessageId::PresetWorkingHome,
            PresetWorkingChoice::PlatformHome,
            chosen,
        ),
        working_option(
            2,
            MessageId::PresetWorkingSubdirectory,
            PresetWorkingChoice::ContainedSubdirectory,
            chosen,
        ),
    ]
}

pub open spec fn permission_option(
    index: u64,
    label: MessageId,
    policy: PermissionPolicy,
    chosen: PermissionPolicy,
) -> ButtonView<PresetAction> {
    option_button(
        "preset-permission",
        index,
        label,
        chosen == policy,
        PresetAction::ChoosePermission(policy),
    )
}

pub open spec fn permission_options(chosen: PermissionPolicy) -> Seq<ButtonView<PresetAction>> {
    seq![
        permission_option(
            0,
            MessageId::PresetPermissionAsk,
            PermissionPolicy::AskAsNeeded,
            chosen,
        ),
        permission_option(
            1,
            MessageId::PresetPermissionReadOnly,
            PermissionPolicy::ReadOnly,
            chosen,
        ),
        permission_option(
            2,
            MessageId::PresetPermissionWorkspaceWrite,
            PermissionPolicy::WorkspaceWrite,
            chosen,
        ),
    ]
}

pub open spec fn editor_toggles(editor: PresetEditorState) -> Seq<ButtonView<PresetAction>> {
    seq![
        toggle(
            "preset-editor-enabled",
            MessageId::PresetEnabledField,
            editor.enabled,
            PresetAction::ToggleEnabled,
        ),
        toggle(
            "preset-editor-favorite",
            MessageId::PresetFavoriteField,
            editor.favorite,
            PresetAction::ToggleFavorite,
        ),
    ]
}

pub open spec fn editor_buttons() -> Seq<ButtonView<PresetAction>> {
    seq![
        ui::plain_button(
            "preset-save",
            0,
            Text::Message(MessageId::PresetSaveAction),
            None,
            Emphasis::Primary,
            PresetAction::Save,
        ),
        ui::plain_button(
            "preset-cancel",
            0,
            Text::Message(MessageId::CommonCancel),
            None,
            Emphasis::Plain,
            PresetAction::CancelEditor,
        ),
    ]
}

pub open spec fn remove_argument_button(index: int) -> ButtonView<PresetAction> {
    ui::plain_button(
        "remove-preset-argument",
        index as u64,
        Text::Message(MessageId::PresetArgumentRemove),
        Some(Icon::Close),
        Emphasis::Plain,
        PresetAction::RemoveArgument(index as usize),
    )
}

/// The view shows the editor for a form with that many arguments. The arguments
/// were found risky or not.
pub open spec fn shows_editor(
    view: PresetEditorView,
    editor: PresetEditorState,
    arguments: nat,
    risky: bool,
) -> bool {
    &&& view.border == if risky {
        Tone::Danger
    } else {
        Tone::FocusRing
    }
    &&& view.title == if editor.editing_id is Some {
        MessageId::PresetFormTitleEdit
    } else {
        MessageId::PresetFormTitleNew
    }
    &&& view.fields@ == seq![MessageId::PresetLabelField, MessageId::PresetExecutableField]
    &&& view.arguments_field == MessageId::PresetArgumentsField
    &&& view.remove_argument@ == Seq::new(arguments, |i: int| remove_argument_button(i))
    &&& view.add_argument == ui::plain_button(
        "add-preset-argument",
        0,
        Text::Message(MessageId::PresetArgumentAdd),
        Some(Icon::Plus),
        Emphasis::Plain,
        PresetAction::AddArgument,
    )
    &&& view.working_field == MessageId::PresetWorkingDirectoryField
    &&& view.working_options@ == working_options(editor.working_choice)
    &&& view.subdirectory_field == if editor.working_choice
        == PresetWorkingChoice::ContainedSubdirectory {
        Some(MessageId::PresetSubdirectoryField)
    } else {
        None
    }
    &&& view.permission_field == MessageId::PresetPermissionField
    &&& view.permission_options@ == permission_options(editor.permission_policy)
    &&& view.toggles@ == editor_toggles(editor)
    &&& view.risk == if risky {
        Some(
            RiskPanel {
                icon: Icon::TriangleAlert,
                message: MessageId::PresetRiskWarning,
                confirm: toggle(
                    "preset-risk-confirm",
                    MessageId::PresetRiskConfirmField,
                    editor.confirm_risky_favorite,
                    PresetAction::ToggleRiskConfirmation,
                ),
            },
        )
    } else {
        None
    }
    &&& view.note == MessageId::PresetSafeCopy
    &&& view.buttons@ == editor_buttons()
}

fn remove_buttons(count: usize) -> (r: Vec<ButtonView<PresetAction>>)
    ensures
        r@ == Seq::new(count as nat, |i: int| remove_argument_button(i)),
{
    let mut r: Vec<ButtonView<PresetAction>> = Vec::new();
    let mut i: usize = 0;
    while i < count
        invariant
            i <= count,
            r@.len() == i,
            forall|k: int| 0 <= k < i ==> #[trigger] r@[k] == remove_argument_button(k),
        decreases count - i,
    {
        r.push(
            ui::button(
                "remove-preset-argument",
                i as u64,
                Text::Message(MessageId::PresetArgumentRemove),
                Some(Icon::Close),
                Emphasis::Plain,
                PresetAction::RemoveArgument(i),
            ),
        );
        i += 1;
    }
    assert(r@ =~= Seq::new(count as nat, |i: int| remove_argument_button(i)));
    r
}

/// The editor for a form with that many arguments, which were found risky or not.
pub fn preset_editor_view(editor: &PresetEditorState, arguments: usize, risky: bool) -> (r:
    PresetEditorView)
    ensures
        shows_editor(r, *editor, arguments as nat, risky),
{
    let chosen: PresetWorkingChoice = editor.working_choice;
    let mut fields: Vec<MessageId> = Vec::new();
    fields.push(MessageId::PresetLabelField);
    fields.push(MessageId::PresetExecutableField);
    assert(fields@ =~= seq![MessageId::PresetLabelField, MessageId::PresetExecutableField]);
    let mut working: Vec<ButtonView<PresetAction>> = Vec::new();
    working.push(
        choice_button(
            "preset-working-choice",
            0,
            MessageId::PresetWorkingProjectRoot,
            chosen == PresetWorkingChoice::ProjectRoot,
            PresetAction::ChooseWorkingDirectory(PresetWorkingChoice::ProjectRoot),
        ),
    );
    working.push(
        choice_button(
            "preset-working-choice",
            1,
            MessageId::PresetWorkingHome,
            chosen == PresetWorkingChoice::PlatformHome,
            PresetAction::ChooseWorkingDirectory(PresetWorkingChoice::PlatformHome),
        ),
    );
    working.push(
        choice_button(
            "preset-working-choice",
            2,
            MessageId::PresetWorkingSubdirectory,
            chosen == PresetWorkingChoice::ContainedSubdirectory,
            PresetAction::ChooseWorkingDirectory(PresetWorkingChoice::ContainedSubdirectory),
        ),
    );
    assert(working@ =~= working_options(chosen));
    let policy: PermissionPolicy = editor.permission_policy;
    let mut permission: Vec<ButtonView<PresetAction>> = Vec::new();
    permission.push(
        choice_button(
            "preset-permission",
            0,
            MessageId::PresetPermissionAsk,
            policy == PermissionPolicy::AskAsNeeded,
            PresetAction::ChoosePermission(PermissionPolicy::AskAsNeeded),
        ),
    );
    permission.push(
        choice_button(
            "preset-permission",
            1,
            MessageId::PresetPermissionReadOnly,
            policy == PermissionPolicy::ReadOnly,
            PresetAction::ChoosePermission(PermissionPolicy::ReadOnly),
        ),
    );
    permission.push(
        choice_button(
            "preset-permission",
            2,
            MessageId::PresetPermissionWorkspaceWrite,
            policy == PermissionPolicy::WorkspaceWrite,
            PresetAction::ChoosePermission(PermissionPolicy::WorkspaceWrite),
        ),
    );
    assert(permission@ =~= permission_options(policy));
    let mut toggles: Vec<ButtonView<PresetAction>> = Vec::new();
    toggles.push(
        toggle_button(
            "preset-editor-enabled",
            MessageId::PresetEnabledField,
            editor.enabled,
            PresetAction::ToggleEnabled,
        ),
    );
    toggles.push(
        toggle_button(
            "preset-editor-favorite",
            MessageId::PresetFavoriteField,
            editor.favorite,
            PresetAction::ToggleFavorite,
        ),
    );
    assert(toggles@ =~= editor_toggles(*editor));
    let mut buttons: Vec<ButtonView<PresetAction>> = Vec::new();
    buttons.push(
        ui::button(
            "preset-save",
            0,
            Text::Message(MessageId::PresetSaveAction),
            None,
            Emphasis::Primary,
            PresetAction::Save,
        ),
    );
    buttons.push(
        ui::button(
            "preset-cancel",
            0,
            Text::Message(MessageId::CommonCancel),
            None,
            Emphasis::Plain,
            PresetAction::CancelEditor,
        ),
    );
    assert(buttons@ =~= editor_buttons());
    PresetEditorView {
        border: if risky {
            Tone::Danger
        } else {
            Tone::FocusRing
        },
        title: if editor.editing_id.is_some() {
            MessageId::PresetFormTitleEdit
        } else {
            MessageId::PresetFormTitleNew
        },
        fields,
        arguments_field: MessageId::PresetArgumentsField,
        remove_argument: remove_buttons(arguments),
        add_argument: ui::button(
            "add-preset-argument",
            0,
            Text::Message(MessageId::PresetArgumentAdd),
            Some(Icon::Plus),
            Emphasis::Plain,
            PresetAction::AddArgument,
        ),
        working_field: MessageId::PresetWorkingDirectoryField,
        working_options: working,
        subdirectory_field: if chosen == PresetWorkingChoice::ContainedSubdirectory {
            Some(MessageId::PresetSubdirectoryField)
        } else {
            None
        },
        permission_field: MessageId::PresetPermissionField,
        permission_options: permission,
        toggles,
        risk: if risky {
            Some(
                RiskPanel {
                    icon: Icon::TriangleAlert,
                    message: MessageId::PresetRiskWarning,
                    confirm: toggle_button(
                        "preset-risk-confirm",
                        MessageId::PresetRiskConfirmField,
                        editor.confirm_risky_favorite,
                        PresetAction::ToggleRiskConfirmation,
                    ),
                },
            )
        } else {
            None
        },
        note: MessageId::PresetSafeCopy,
        buttons,
    }
}

/// A line above the list.
#[derive(Clone, Copy, Debug, PartialEq, Eq)]
pub struct PresetBanner {
    pub id: &'static str,
    pub message: MessageId,
    pub tone: Tone,
}

#[derive(Debug)]
pub struct PresetsView {
    pub title: MessageId,
    pub subtitle: MessageId,
    pub buttons: Vec<ButtonView<PresetAction>>,
    pub banners: Vec<PresetBanner>,
    pub report: Option<DetectionView>,
    pub editor: Option<PresetEditorView>,
    pub content: PresetsContent,
}

impl PresetLibraryState {
    pub open spec fn is_read_only(self) -> bool {
        self.snapshot matches Some(snapshot) && snapshot.read_only
    }

    pub open spec fn header_buttons(self) -> Seq<ButtonView<PresetAction>> {
        seq![
            if self.scanning {
                ui::plain_button(
                    "presets-scan-cancel",
                    0,
                    Text::Message(MessageId::CommonCancel),
                    None,
                    Emphasis::Plain,
                    PresetAction::CancelScan,
                )
            } else {
                ui::disabled_if(
                    ui::plain_button(
                        "presets-scan",
                        0,
                        Text::Message(MessageId::PresetsScanAction),
                        Some(Icon::Redo2),
                        Emphasis::Plain,
                        PresetAction::Scan,
                    ),
                    self.is_read_only(),
                )
            },
            ui::disabled_if(
                ui::plain_button(
                    "presets-add",
                    0,
                    Text::Message(MessageId::PresetsAddAction),
                    Some(Icon::Plus),
                    Emphasis::Primary,
                    PresetAction::Add,
                ),
                self.is_read_only(),
            ),
        ]
    }

    pub open spec fn banners(self) -> Seq<PresetBanner> {
        (match self.store_notice() {
            Some(message) => seq![
                PresetBanner { id: "preset-recovery", message, tone: Tone::Warning },
            ],
            None => Seq::empty(),
        }) + lists::optional(
            self.scanning,
            PresetBanner {
                id: "preset-scanning",
                message: MessageId::PresetsScanning,
                tone: Tone::Accent,
            },
        )
    }

    /// The presets view. `arguments` is the number of arguments in the form,
    /// `risky` the verdict on them, and `available` says of each preset whether
    /// its program was found.
    pub fn presets_view(
        &self,
        registry: &RuntimeRegistry,
        arguments: usize,
        risky: bool,
        available: &Vec<bool>,
    ) -> (r: PresetsView)
        ensures
            r.title == MessageId::PresetsTitle,
            r.subtitle == MessageId::PresetsSubtitle,
            r.buttons@ == self.header_buttons(),
            r.banners@ == self.banners(),
            match self.scan_report {
                Some(report) => r.report matches Some(view) && self.shows_report(view, *registry, report),
                None => r.report is None,
            },
            match self.editor {
                Some(editor) => r.editor matches Some(view) && shows_editor(
                    view,
                    editor,
                    arguments as nat,
                    risky,
                ),
                None => r.editor is None,
            },
            self.shows_content(r.content, available@),
            r.report is Some <==> self.scan_report is Some,
            r.editor is Some <==> self.editor is Some,
    {
        let read_only: bool = match &self.snapshot {
            Some(snapshot) => snapshot.read_only,
            None => false,
        };
        let mut buttons: Vec<ButtonView<PresetAction>> = Vec::new();
        buttons.push(
            if self.scanning {
                ui::button(
                    "presets-scan-cancel",
                    0,
                    Text::Message(MessageId::CommonCancel),
                    None,
                    Emphasis::Plain,
                    PresetAction::CancelScan,
                )
            } else {
                ui::button(
                    "presets-scan",
                    0,
                    Text::Message(MessageId::PresetsScanAction),
                    Some(Icon::Redo2),
                    Emphasis::Plain,
                    PresetAction::Scan,
                ).with_disabled(read_only)
            },
        );
        buttons.push(
            ui::button(
                "presets-add",
                0,
                Text::Message(MessageId::PresetsAddAction),
                Some(Icon::Plus),
                Emphasis::Primary,
                PresetAction::Add,
            ).with_disabled(read_only),
        );
        assert(buttons@ =~= self.header_buttons());
        let mut banners: Vec<PresetBanner> = Vec::new();
        match self.recovery_message() {
            Some(message) => {
                banners.push(
                    PresetBanner { id: "preset-recovery", message, tone: Tone::Warning },
                );
            },
            None => {},
        }
        lists::push_if(
            &mut banners,
            self.scanning,
            PresetBanner {
                id: "preset-scanning",
                message: MessageId::PresetsScanning,
                tone: Tone::Accent,
            },
        );
        assert(banners@ =~= self.banners());
        PresetsView {
            title: MessageId::PresetsTitle,
            subtitle: MessageId::PresetsSubtitle,
            buttons,
            banners,
            report: match &self.scan_report {
                Some(report) => Some(self.detection_report(registry, report)),
                None => None,
            },
            editor: match &self.editor {
                Some(editor) => Some(preset_editor_view(editor, arguments, risky)),
                None => None,
            },
            content: self.preset_list(available),
        }
    }
}

/// The buttons that move a preset are disabled exactly where there is no place to
/// move it to.
pub proof fn law_move_buttons_agree_with_moves(presets: Seq<LaunchPreset>, index: int)
    requires
        0 <= index < presets.len(),
    ensures
        ({
            let buttons = preset_buttons(presets[index], index, presets.len() as int);
            &&& buttons[0].disabled <==> session_sidebar::move_target(presets, index, -1) is None
            &&& buttons[1].disabled <==> session_sidebar::move_target(presets, index, 1) is None
        }),
{
}

/// Reading the store gives its presets and its revision; a store that cannot be read
/// shows none and says what is wrong. The editor and the scan go on.
pub proof fn law_reading_shows_the_stored_presets(
    library: PresetLibraryState,
    loaded: Result<PresetSnapshot, StoreError>,
)
    ensures
        ({
            let after = library.reloaded(loaded);
            &&& after.load_state is Ready <==> library.has_repository && loaded is Ok
            &&& after.load_state is Ready ==> after.snapshot == Some(loaded->Ok_0)
                && after.presets() == loaded->Ok_0.presets@
            &&& !(after.load_state is Ready) ==> after.presets().len() == 0
                && after.load_state is Failed
            &&& library.has_repository ==> (loaded matches Err(error) ==> {
                &&& after.load_state == PresetLibraryLoadState::Failed(PresetStoreFailure::Newer)
                    <==> error is StoreNewer
                &&& after.load_state == PresetLibraryLoadState::Failed(PresetStoreFailure::Corrupt)
                    <==> error is Corrupt || error is UnsafeEntry || error is TooLarge
            })
            &&& after.editor == library.editor
            &&& after.scanning == library.scanning
            &&& after.scan_generation == library.scan_generation
        }),
{
}

/// A failed store is named by what is wrong with it, a recovered one is mentioned.
pub proof fn law_the_preset_store_is_mentioned_where_it_matters(library: PresetLibraryState)
    ensures
        library.store_notice() == Some(MessageId::PresetStoreCorrupt) <==> library.load_state
            == PresetLibraryLoadState::Failed(PresetStoreFailure::Corrupt),
        library.store_notice() == Some(MessageId::PresetStoreNewer) <==> library.load_state
            == PresetLibraryLoadState::Failed(PresetStoreFailure::Newer),
        library.store_notice() == Some(MessageId::PresetStoreUnavailable) <==> library.load_state
            == PresetLibraryLoadState::Failed(PresetStoreFailure::Unavailable),
        library.store_notice() == Some(MessageId::PresetStoreRecovered) <==> !(
        library.load_state is Failed) && (library.snapshot matches Some(snapshot)
            && snapshot.health == StoreHealth::RecoveredLastGood),
{
}

/// A change that was refused as stale, or for want of a confirmation, is told from one
/// that is not valid and from a store that failed.
pub proof fn law_refused_presets_are_explained(error: StoreError)
    ensures
        store_error_message(error) == MessageId::PresetErrorStale <==> error
            == StoreError::PresetDomain(PresetError::StaleRevision),
        store_error_message(error) == MessageId::PresetErrorRiskConfirm <==> error
            == StoreError::PresetDomain(PresetError::RiskConfirmationRequired),
        store_error_message(error) == MessageId::PresetErrorInvalid ==> error is PresetDomain,
        store_error_message(error) == MessageId::PresetStoreNewer <==> error is StoreNewer,
        store_error_message(error) == MessageId::PresetStoreCorrupt <==> error is Corrupt
            || error is UnsafeEntry || error is TooLarge,
{
}

/// A detected program can be taken over exactly where it is supported or its version
/// is merely unknown. A scan that was cancelled or came through only in part says so;
/// a complete one says whether anything can be taken over.
pub proof fn law_scans_say_what_they_found(report: DetectionReport)
    ensures
        forall|status: DetectionStatus|
            #![trigger usable(status)]
            usable(status) <==> status is Supported || status is DetectedUnknownVersion,
        scan_message(report) == MessageId::PresetsScanCancelled <==> report.cancelled,
        scan_message(report) == MessageId::PresetsScanPartial <==> !report.cancelled
            && report.partial,
        scan_message(report) == MessageId::PresetsReadyStatus <==> !report.cancelled
            && !report.partial && exists|i: int|
            0 <= i < report.candidates@.len() && ((
            #[trigger] report.candidates@[i]).status is Supported
                || report.candidates@[i].status is DetectedUnknownVersion),
{
}

/// What a detected program looks like tells whether it can be used: only a supported
/// one looks well, and only a refused or a failed one looks dangerous.
pub proof fn law_detected_programs_look_as_they_are(status: DetectionStatus)
    ensures
        ({
            let (message, tone, icon) = detection_look(status);
            &&& tone is Success <==> status is Supported
            &&& icon is Check <==> status is Supported
            &&& tone is Danger <==> status is PermissionDenied || status is Failed
            &&& tone is Muted <==> status is Missing
            &&& message == MessageId::PresetStatusSupported <==> status is Supported
            &&& message == MessageId::PresetStatusUnknown <==> status is DetectedUnknownVersion
            &&& message == MessageId::PresetStatusUnsupported <==> status is UnsupportedVersion
            &&& message == MessageId::PresetStatusMissing <==> status is Missing
            &&& message == MessageId::PresetStatusPermission <==> status is PermissionDenied
            &&& message == MessageId::PresetStatusTimeout <==> status is TimedOut
            &&& message == MessageId::PresetStatusFailed <==> status is Failed
        }),
{
}

/// A program named by its path is looked for there alone; one named without is looked
/// for in the directories of the search path, in their order, in a limited number.
pub proof fn law_programs_are_looked_for_in_order(
    executable: ExecutableSpec,
    directories: Seq<String>,
)
    ensures
        ({
            let places = executable_places(executable, directories);
            &&& executable matches ExecutableSpec::Absolute(path) ==> places == seq![path@]
            &&& executable matches ExecutableSpec::SearchPath(name) ==> {
                &&& places.len() <= 128 && places.len() <= directories.len()
                &&& directories.len() <= 128 ==> places.len() == directories.len()
                &&& forall|i: int|
                    0 <= i < places.len() ==> #[trigger] places[i] == text::path_below(
                        directories[i]@,
                        name@,
                    )
            }
        }),
{
}

/// A program is shown without the directory it stands in; one that is searched for
/// is shown as it was named.
pub proof fn law_searched_programs_are_shown_as_named(name: String)
    ensures
        shown_executable(ExecutableSpec::SearchPath(name)) == name@,
{
}

/// A new preset starts out usable and harmless: enabled, no favourite, asking before
/// it acts, in the root of the project.
pub proof fn law_new_presets_ask_first()
    ensures
        ({
            let editor = new_editor();
            &&& editor.editing_id is None
            &&& editor.enabled && !editor.favorite && !editor.confirm_risky_favorite
            &&& editor.permission_policy is AskAsNeeded
            &&& editor.working_choice is ProjectRoot
            &&& editor.runtime is None
        }),
{
}

/// What is saved is what was edited: under the identity of the edited preset or a new
/// one, with the typed label, program and arguments, the chosen directory and
/// permissions, and the two switches.
pub proof fn law_drafts_hold_what_was_edited(
    draft: PresetDraft,
    editor: PresetEditorState,
    form: PresetForm,
    new_id: PresetId,
)
    requires
        is_draft_of(draft, editor, form, new_id),
    ensures
        editor.editing_id matches Some(id) ==> draft.id == id,
        editor.editing_id is None ==> draft.id == new_id,
        draft.label == Atom::Value(form.label),
        draft.executable == form.executable,
        draft.args@ == form.arguments@,
        draft.enabled == editor.enabled,
        draft.favorite == editor.favorite,
        draft.permission_policy == editor.permission_policy,
        draft.confirm_risky_favorite == editor.confirm_risky_favorite,
        draft.runtime == editor.runtime,
        draft.origin is User,
        draft.working_directory is ProjectRoot <==> editor.working_choice is ProjectRoot,
        draft.working_directory is PlatformHome <==> editor.working_choice is PlatformHome,
        draft.working_directory matches WorkingDirectoryRule::ContainedSubdirectory(below)
            ==> editor.working_choice is ContainedSubdirectory && below == form.subdirectory,
{
}

/// A detected program becomes a preset that asks before it acts: enabled, no
/// favourite, without arguments, in the root of the project, for that very program.
pub proof fn law_detected_presets_ask_first(
    draft: PresetDraft,
    registry: RuntimeRegistry,
    candidate: DetectionCandidate,
    new_id: PresetId,
)
    requires
        is_detected_draft(draft, registry, candidate, new_id),
    ensures
        draft.id == new_id,
        draft.executable == match candidate.executable {
            ExecutableSpec::Absolute(path) => path,
            ExecutableSpec::SearchPath(name) => name,
        },
        draft.runtime == Some(candidate.runtime),
        draft.args@.len() == 0,
        draft.enabled && !draft.favorite && !draft.confirm_risky_favorite,
        draft.permission_policy is AskAsNeeded,
        draft.working_directory is ProjectRoot,
        draft.origin is Detected,
{
}

/// Setting a switch sets that switch and leaves the other; making a favourite never
/// takes a confirmation of risk over. Nothing else of the preset changes.
pub proof fn law_switches_are_set_one_by_one(
    draft: PresetDraft,
    enabled: Option<bool>,
    favorite: Option<bool>,
)
    ensures
        ({
            let after = flagged(draft, enabled, favorite);
            &&& enabled matches Some(value) ==> after.enabled == value
            &&& enabled is None ==> after.enabled == draft.enabled
            &&& favorite matches Some(value) ==> after.favorite == value
            &&& favorite is None ==> after.favorite == draft.favorite
            &&& favorite is Some ==> !after.confirm_risky_favorite
            &&& favorite is None ==> after.confirm_risky_favorite == draft.confirm_risky_favorite
            &&& after.id == draft.id && after.label == draft.label
            &&& after.executable == draft.executable && after.args == draft.args
            &&& after.permission_policy == draft.permission_policy
            &&& after.working_directory == draft.working_directory
        }),
{
}

/// A preset is found by its identity.
pub proof fn law_presets_are_found_by_identity(library: PresetLibraryState, id: PresetId)
    ensures
        library.found(id) is Some <==> exists|i: int|
            0 <= i < library.presets().len() && (#[trigger] library.presets()[i]).id == id,
        library.found(id) matches Some(preset) ==> preset.id == id && library.presets().contains(
            preset,
        ),
{
    let wanted = is_preset(id);
    lists::lemma_first_index_bounds(library.presets(), wanted);
    assert forall|i: int| 0 <= i < library.presets().len() implies wanted(
        #[trigger] library.presets()[i],
    ) == (library.presets()[i].id == id) by {}
}

/// The buttons of a preset act on that very preset: moving up is closed to the first
/// and moving down to the last, and each switch offers the other state.
pub proof fn law_preset_buttons_act_on_their_preset(preset: LaunchPreset, index: int, count: int)
    ensures
        ({
            let b = preset_buttons(preset, index, count);
            let id = preset.id;
            &&& b.len() == 6
            &&& b[0].action == PresetAction::MoveUp(id) && b[0].disabled == (index == 0)
            &&& b[1].action == PresetAction::MoveDown(id) && b[1].disabled == (index + 1 == count)
            &&& b[2].action == PresetAction::SetEnabled(id, !preset.enabled) && b[2].selected
                == preset.enabled
            &&& b[3].action == PresetAction::SetFavorite(id, !preset.favorite) && b[3].selected
                == preset.favorite
            &&& b[4].action == PresetAction::Edit(id)
            &&& b[5].action == PresetAction::Delete(id) && b[5].emphasis is Danger
            &&& forall|i: int| 2 <= i < 6 ==> !(#[trigger] b[i]).disabled
        }),
{
}

/// A disabled preset, a risky one and one whose program is missing each bear their
/// mark, and no other does.
pub proof fn law_presets_bear_their_marks(preset: LaunchPreset, available: bool)
    ensures
        ({
            let chips = preset_chips(preset, available);
            &&& chips[0].message == MessageId::PresetStatusSupported <==> available
            &&& chips[0].message == MessageId::PresetStatusMissing <==> !available
            &&& (exists|i: int|
                0 <= i < chips.len() && (#[trigger] chips[i]).message
                    == MessageId::PresetStatusDisabled) <==> !preset.enabled
            &&& (exists|i: int|
                0 <= i < chips.len() && (#[trigger] chips[i]).message
                    == MessageId::PresetStatusRisky) <==> preset.risky
        }),
{
    let chips = preset_chips(preset, available);
    if !preset.enabled {
        assert(chips[1].message == MessageId::PresetStatusDisabled);
    }
    if preset.risky {
        assert(chips.last().message == MessageId::PresetStatusRisky);
        assert(chips[chips.len() - 1].message == MessageId::PresetStatusRisky);
    }
}

/// A detected program can be accepted exactly where it can be used and no preset runs
/// it already; accepting takes the one that is shown.
pub proof fn law_detected_programs_are_accepted_once(
    registry: RuntimeRegistry,
    library: PresetLibraryState,
    candidate: DetectionCandidate,
    index: usize,
)
    ensures
        ({
            let row = detected_row(
                registry,
                candidate,
                index as int,
                library.has_preset_for(candidate),
            );
            let known = exists|i: int|
                {
                    let preset = #[trigger] library.presets()[i];
                    &&& 0 <= i < library.presets().len()
                    &&& preset.runtime matches Some(runtime)
                    &&& runtime@ == candidate.runtime@
                    &&& preset.executable is Absolute <==> candidate.executable is Absolute
                    &&& preset.executable.value()@ == candidate.executable.value()@
                };
            &&& row.accept.action == PresetAction::AcceptDetected(index)
            &&& !row.accept.disabled <==> (candidate.status is Supported
                || candidate.status is DetectedUnknownVersion) && !known
        }),
{
    assert forall|i: int| 0 <= i < library.presets().len() implies {
        let preset = #[trigger] library.presets()[i];
        covers(preset, candidate) <==> {
            &&& preset.runtime matches Some(runtime)
            &&& runtime@ == candidate.runtime@
            &&& preset.executable is Absolute <==> candidate.executable is Absolute
            &&& preset.executable.value()@ == candidate.executable.value()@
        }
    } by {}
}

/// Of the directories and of the permissions exactly the chosen one is marked, and
/// choosing one asks for that one.
pub proof fn law_options_mark_the_chosen_one(
    choice: PresetWorkingChoice,
    policy: PermissionPolicy,
    i: int,
)
    requires
        0 <= i < 3,
    ensures
        ({
            let places = working_options(choice);
            let permissions = permission_options(policy);
            &&& places.len() == 3 && permissions.len() == 3
            &&& places[i].action matches PresetAction::ChooseWorkingDirectory(offered)
            &&& places[i].selected <==> offered == choice
            &&& permissions[i].action matches PresetAction::ChoosePermission(granted)
            &&& permissions[i].selected <==> granted == policy
            &&& places[i].label == Text::Message(MessageId::PresetWorkingHome)
                <==> offered is PlatformHome
            &&& places[i].label == Text::Message(MessageId::PresetWorkingProjectRoot)
                <==> offered is ProjectRoot
            &&& permissions[i].label == Text::Message(MessageId::PresetPermissionAsk)
                <==> granted is AskAsNeeded
            &&& permissions[i].label == Text::Message(MessageId::PresetPermissionReadOnly)
                <==> granted is ReadOnly
        }),
{
}

/// Each failure of the store is told in words of its own.
pub proof fn law_each_preset_store_failure_has_its_words(failure: PresetStoreFailure)
    ensures
        failure_message(failure) == MessageId::PresetStoreCorrupt <==> failure is Corrupt,
        failure_message(failure) == MessageId::PresetStoreNewer <==> failure is Newer,
        failure_message(failure) == MessageId::PresetStoreUnavailable <==> failure is Unavailable,
{
}

/// A preset that is being edited shows its switches as they are set, and each
/// switch asks for its own change.
pub proof fn law_the_editor_shows_its_switches(editor: PresetEditorState)
    ensures
        ({
            let toggles = editor_toggles(editor);
            &&& toggles.len() == 2
            &&& toggles[0].action is ToggleEnabled
            &&& toggles[0].selected == editor.enabled
            &&& toggles[0].label == Text::Message(MessageId::PresetEnabledField)
            &&& toggles[1].action is ToggleFavorite
            &&& toggles[1].selected == editor.favorite
            &&& toggles[1].label == Text::Message(MessageId::PresetFavoriteField)
            &&& toggles[0].icon == Some(Icon::Check) <==> editor.enabled
            &&& toggles[0].icon == Some(Icon::Close) <==> !editor.enabled
        }),
        editor_buttons().len() == 2,
        editor_buttons()[0].action is Save,
        editor_buttons()[1].action is CancelEditor,
{
}

/// The editor warns, and asks to confirm, exactly where the preset is risky; it
/// says whether a preset is made or changed, and asks for a directory only where
/// one below the project is chosen.
pub proof fn law_the_editor_asks_for_what_it_needs(
    view: PresetEditorView,
    editor: PresetEditorState,
    arguments: nat,
    risky: bool,
    i: int,
)
    requires
        shows_editor(view, editor, arguments, risky),
        0 <= i < arguments <= usize::MAX,
    ensures
        view.risk is Some <==> risky,
        view.border is Danger <==> risky,
        view.risk matches Some(panel) ==> panel.confirm.action is ToggleRiskConfirmation
            && panel.confirm.selected == editor.confirm_risky_favorite,
        view.title == MessageId::PresetFormTitleEdit <==> editor.editing_id is Some,
        view.title == MessageId::PresetFormTitleNew <==> editor.editing_id is None,
        view.subdirectory_field is Some <==> editor.working_choice is ContainedSubdirectory,
        view.remove_argument@.len() == arguments,
        view.remove_argument@[i].action == PresetAction::RemoveArgument(i as usize),
        view.add_argument.action is AddArgument,
        view.buttons@[0].action is Save,
{
}

/// Presets are looked for, and added, only where they can be changed; a search
/// under way can be cancelled.
pub proof fn law_the_header_offers_what_can_be_done(library: PresetLibraryState)
    ensures
        ({
            let buttons = library.header_buttons();
            let fixed = library.snapshot matches Some(snapshot) && snapshot.read_only;
            &&& buttons.len() == 2
            &&& buttons[0].action is CancelScan <==> library.scanning
            &&& buttons[0].action is Scan <==> !library.scanning
            &&& buttons[0].disabled <==> !library.scanning && fixed
            &&& buttons[1].action is Add
            &&& buttons[1].disabled <==> fixed
        }),
        library.scanning <==> exists|i: int|
            0 <= i < library.banners().len() && (#[trigger] library.banners()[i]).message
                == MessageId::PresetsScanning && library.banners()[i].tone is Accent,
        library.store_notice() matches Some(message) ==> library.banners()[0].message == message
            && library.banners()[0].tone is Warning,
{
    if library.scanning {
        let i = library.banners().len() - 1;
        assert(library.banners()[i].message == MessageId::PresetsScanning);
    }
}

/// The list shows what the store is: on its way, failed with its reason and
/// another try, empty, or every preset in its place.
pub proof fn law_the_list_shows_every_preset(
    library: PresetLibraryState,
    content: PresetsContent,
    available: Seq<bool>,
    i: int,
)
    requires
        library.shows_content(content, available),
        0 <= i,
    ensures
        content is Loading <==> library.load_state is Loading,
        content is Failed <==> library.load_state is Failed,
        content is Empty <==> library.load_state is Ready && library.presets().len() == 0,
        content matches PresetsContent::Failed { retry, .. } ==> retry.action is RetryStore,
        content matches PresetsContent::Rows(rows) ==> ({
            &&& rows@.len() == library.presets().len()
            &&& i < rows@.len() ==> rows@[i].label == library.presets()[i].label
            &&& i < rows@.len() ==> (rows@[i].star is Some <==> library.presets()[i].favorite)
            &&& i < rows@.len() ==> rows@[i].argument_count == Text::Filled(
                MessageId::PresetArgumentCount,
                Atom::Number(library.presets()[i].args@.len() as u64),
            )
        }),
{
    if let PresetsContent::Rows(rows) = content {
        if i < rows@.len() {
            assert(shows_preset(
                rows@[i],
                library.presets()[i],
                i,
                rows@.len() as int,
                is_available(available, i),
            ));
        }
    }
}

/// A preset covers a detected program exactly where both name the same runtime
/// and the same program, found in the same way.
pub proof fn law_presets_cover_their_own_program(preset: LaunchPreset, candidate: DetectionCandidate)
    ensures
        covers(preset, candidate) ==> (preset.runtime matches Some(runtime) && runtime@
            == candidate.runtime@),
        covers(preset, candidate) ==> (preset.executable is Absolute
            <==> candidate.executable is Absolute),
        (preset.executable matches ExecutableSpec::Absolute(a) && (
        candidate.executable matches ExecutableSpec::Absolute(b) && (preset.runtime matches Some(
            runtime,
        ) && runtime@ == candidate.runtime@))) ==> (covers(preset, candidate)
            <==> preset.executable->Absolute_0@ == candidate.executable->Absolute_0@),
        (preset.executable matches ExecutableSpec::SearchPath(a) && (
        candidate.executable matches ExecutableSpec::SearchPath(b) && (preset.runtime matches Some(
            runtime,
        ) && runtime@ == candidate.runtime@))) ==> (covers(preset, candidate)
            <==> preset.executable->SearchPath_0@ == candidate.executable->SearchPath_0@),
{
}

/// The directory that a choice stands for.
pub proof fn law_choices_stand_for_their_directory(
    choice: PresetWorkingChoice,
    subdirectory: String,
)
    ensures
        chosen_directory(choice, subdirectory) is ProjectRoot <==> choice is ProjectRoot,
        chosen_directory(choice, subdirectory) is PlatformHome <==> choice is PlatformHome,
        chosen_directory(choice, subdirectory) == WorkingDirectoryRule::ContainedSubdirectory(
            subdirectory,
        ) <==> choice is ContainedSubdirectory,
{
}

/// A detected runtime that is known is named by its label, any other by its name.
pub proof fn law_detected_runtimes_are_named(registry: RuntimeRegistry, runtime: String)
    ensures
        runtime@ == "codex"@ ==> runtime_name(registry, runtime) == Atom::Message(
            MessageId::RuntimeLabelCodex,
        ),
        runtime@ == registry.claude_id@ && runtime@ != "codex"@ ==> runtime_name(registry, runtime)
            == Atom::Message(MessageId::RuntimeLabelClaude),
        runtime@ == "gemini"@ && runtime@ != registry.claude_id@ ==> runtime_name(registry, runtime)
            == Atom::Message(MessageId::RuntimeLabelGemini),
        runtime@ != "codex"@ && runtime@ != registry.claude_id@ && runtime@ != "gemini"@
            ==> runtime_name(registry, runtime) == Atom::Value(runtime),
{
    reveal_strlit("codex");
    reveal_strlit("gemini");
    assert("codex"@.len() == 5);
    assert("gemini"@.len() == 6);
}

/// A preset's buttons, the header's and the editor's are called by what they do.
pub proof fn law_preset_buttons_are_called_by_what_they_do(
    preset: LaunchPreset,
    index: int,
    count: int,
    library: PresetLibraryState,
    chosen: PresetWorkingChoice,
)
    ensures
        preset_buttons(preset, index, count)[0].label == Text::Message(
            MessageId::PresetMoveUpAction,
        ),
        preset_buttons(preset, index, count)[1].label == Text::Message(
            MessageId::PresetMoveDownAction,
        ),
        preset_buttons(preset, index, count)[2].label == Text::Message(
            MessageId::PresetEnabledField,
        ),
        preset_buttons(preset, index, count)[3].label == Text::Message(
            MessageId::PresetFavoriteField,
        ),
        preset_buttons(preset, index, count)[4].label == Text::Message(MessageId::PresetEditAction),
        preset_buttons(preset, index, count)[5].label == Text::Message(
            MessageId::PresetDeleteAction,
        ),
        library.header_buttons()[0].label == Text::Message(MessageId::PresetsScanAction)
            <==> !library.scanning,
        library.header_buttons()[1].label == Text::Message(MessageId::PresetsAddAction),
        editor_buttons()[0].label == Text::Message(MessageId::PresetSaveAction),
        editor_buttons()[1].label == Text::Message(MessageId::CommonCancel),
        working_options(chosen)[0].label == Text::Message(MessageId::PresetWorkingProjectRoot),
        working_options(chosen)[1].label == Text::Message(MessageId::PresetWorkingHome),
        working_options(chosen)[2].label == Text::Message(MessageId::PresetWorkingSubdirectory),
        remove_argument_button(index).label == Text::Message(MessageId::PresetArgumentRemove),
{
}

/// A search that found nothing usable says so; a cancelled one, and one that saw
/// only a part, say that before.
pub proof fn law_empty_scans_say_so(report: DetectionReport, i: int)
    requires
        0 <= i < report.candidates@.len(),
    ensures
        report.cancelled <==> scan_message(report) == MessageId::PresetsScanCancelled,
        !report.cancelled && report.partial <==> scan_message(report)
            == MessageId::PresetsScanPartial,
        usable(report.candidates@[i].status) ==> scan_message(report) != MessageId::PresetsScanNone,
        scan_message(report) == MessageId::PresetsScanNone ==> !report.cancelled && !report.partial,
        scan_message(report) == MessageId::PresetsReadyStatus ==> exists|k: int|
            0 <= k < report.candidates@.len() && usable(
                (#[trigger] report.candidates@[k]).status,
            ),
{
}

/// A detected program shows its version where one is known, and is accepted by
/// its place.
pub proof fn law_detected_programs_show_their_version(
    registry: RuntimeRegistry,
    candidate: DetectionCandidate,
    index: int,
    known: bool,
)
    ensures
        candidate.version is None <==> detected_row(registry, candidate, index, known).version
            is None,
        candidate.version matches Some(version) ==> detected_row(
            registry,
            candidate,
            index,
            known,
        ).version == Some(Text::Filled(MessageId::PresetDetectedVersion, Atom::Value(version))),
        detected_row(registry, candidate, index, known).accept.label == Text::Message(
            MessageId::PresetAcceptAction,
        ),
        detected_row(registry, candidate, index, known).name == runtime_name(
            registry,
            candidate.runtime,
        ),
{
}

/// A preset's row shows its name, its program as it may be shown, its marks and
/// its buttons.
pub proof fn law_preset_rows_show_their_preset(
    row: PresetRowView,
    preset: LaunchPreset,
    index: int,
    count: int,
    available: bool,
)
    requires
        shows_preset(row, preset, index, count, available),
    ensures
        row.label == preset.label,
        row.executable@ == shown_executable(preset.executable),
        row.chips@ == preset_chips(preset, available),
        row.buttons@ == preset_buttons(preset, index, count),
        row.star is Some <==> preset.favorite,
        row.key == ids::folded_key(preset.id.value),
{
}

/// The report of a search shows every program that it saw, and says where it saw
/// only a part.
pub proof fn law_reports_show_every_program(
    library: PresetLibraryState,
    view: DetectionView,
    registry: RuntimeRegistry,
    report: DetectionReport,
    i: int,
)
    requires
        library.shows_report(view, registry, report),
        0 <= i < report.candidates@.len(),
    ensures
        view.partial is Some <==> report.partial,
        view.rows@.len() == report.candidates@.len(),
        view.rows@[i].name == runtime_name(registry, report.candidates@[i].runtime),
        view.rows@[i].accept.disabled <==> !usable(report.candidates@[i].status)
            || library.has_preset_for(report.candidates@[i]),
{
}

/// A preset is available only where its place says so.
pub proof fn law_presets_are_available_where_said(available: Seq<bool>, i: int)
    requires
        0 <= i,
    ensures
        is_available(available, i) <==> i < available.len() && available[i],
        i >= available.len() ==> !is_available(available, i),
{
}

} // verus!
