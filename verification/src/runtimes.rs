//! What is said of the program that runs in a session: its name, version,
//! ownership, confidence and capabilities.
use vstd::prelude::*;

use crate::domain::{
    OccupantOwnership, RecognitionConfidence, RuntimeCapability,
    RuntimeCapabilitySet, RuntimeRecognition, SessionLaunchRoute,
};
use crate::ids::HostedSessionId;
use crate::lists;
use crate::messages::{Atom, MessageId, Text};
use crate::saved_state;
use crate::saved_state::{SavedAppAttachedSession, SavedState};
use crate::text;

verus! {

/// What the inspector shows of a session's runtime.
#[derive(Debug)]
pub struct RuntimeInspectorProjection {
    pub runtime: Text,
    pub version: Text,
    pub ownership: MessageId,
    pub confidence: MessageId,
    pub generation: u64,
    pub capabilities: RuntimeCapabilitySet,
    pub stale: bool,
    pub explanation: Option<MessageId>,
}

#[derive(Clone, Copy, Debug, PartialEq, Eq, Structural)]
pub enum RuntimeDetectionStatus {
    Available,
    UnsupportedVersion,
    Missing,
    PermissionDenied,
    Partial,
}

/// How runtimes are registered on this machine. `claude_id` is the name under
/// which Anthropic's agent is.
#[derive(Debug, PartialEq, Eq)]
pub struct RuntimeRegistry {
    pub claude_id: String,
}

/// The message that names a well-known runtime.
pub open spec fn known_runtime(registry: RuntimeRegistry, runtime: Seq<char>) -> Option<MessageId> {
    if runtime == "codex"@ {
        Some(MessageId::RuntimeLabelCodex)
    } else if runtime == registry.claude_id@ {
        Some(MessageId::RuntimeLabelClaude)
    } else if runtime == "gemini"@ {
        Some(MessageId::RuntimeLabelGemini)
    } else if runtime == "generic"@ {
        Some(MessageId::RuntimeLabelGeneric)
    } else {
        None
    }
}

/// A runtime's name: its message if it is well known, else the name itself.
pub open spec fn runtime_text(registry: RuntimeRegistry, runtime: String) -> Text {
    match known_runtime(registry, runtime@) {
        Some(message) => Text::Message(message),
        None => Text::Value(runtime),
    }
}

fn known_runtime_message(registry: &RuntimeRegistry, runtime: &str) -> (r: Option<MessageId>)
    ensures
        r == known_runtime(*registry, runtime@),
{
    if text::same_text(runtime, "codex") {
        Some(MessageId::RuntimeLabelCodex)
    } else if text::same_text(runtime, registry.claude_id.as_str()) {
        Some(MessageId::RuntimeLabelClaude)
    } else if text::same_text(runtime, "gemini") {
        Some(MessageId::RuntimeLabelGemini)
    } else if text::same_text(runtime, "generic") {
        Some(MessageId::RuntimeLabelGeneric)
    } else {
        None
    }
}

pub(crate) fn runtime_label_of(registry: &RuntimeRegistry, runtime: &String) -> (r: Text)
    ensures
        r == runtime_text(*registry, *runtime),
{
    match known_runtime_message(registry, runtime.as_str()) {
        Some(message) => Text::Message(message),
        None => Text::Value(runtime.clone()),
    }
}

/// The name under which a runtime is shown.
pub fn runtime_label(registry: &RuntimeRegistry, runtime: &str) -> (r: Text)
    ensures
        match known_runtime(*registry, runtime@) {
            Some(message) => r == Text::Message(message),
            None => r matches Text::Value(name) && name@ == runtime@,
        },
{
    match known_runtime_message(registry, runtime) {
        Some(message) => Text::Message(message),
        None => Text::Value(runtime.to_owned()),
    }
}

/// The name of an executable without the directories above it.
pub open spec fn executable_name(value: Seq<char>) -> Seq<char> {
    match text::file_name(value) {
        Some(name) => name,
        None => "Executable"@,
    }
}

pub fn executable_basename(value: &str) -> (r: String)
    ensures
        r@ == executable_name(value@),
{
    match text::path_file_name(value) {
        Some(name) => name,
        None => "Executable".to_owned(),
    }
}

/// The shown name of an executable is never empty and holds no `/`: it does not
/// give its directory away.
pub proof fn law_executable_display_never_exposes_parent_path(value: Seq<char>)
    ensures
        executable_name(value).len() > 0,
        !executable_name(value).contains('/'),
{
    text::law_file_name_hides_parents(value);
    reveal_strlit("Executable");
}

pub open spec fn detection_message(status: RuntimeDetectionStatus) -> MessageId {
    match status {
        RuntimeDetectionStatus::Available => MessageId::PresetStatusSupported,
        RuntimeDetectionStatus::UnsupportedVersion => MessageId::PresetStatusUnsupported,
        RuntimeDetectionStatus::Missing => MessageId::PresetStatusMissing,
        RuntimeDetectionStatus::PermissionDenied => MessageId::PresetStatusPermission,
        RuntimeDetectionStatus::Partial => MessageId::PresetStatusFailed,
    }
}

pub fn detection_status_label(status: RuntimeDetectionStatus) -> (r: MessageId)
    ensures
        r == detection_message(status),
{
    match status {
        RuntimeDetectionStatus::Available => MessageId::PresetStatusSupported,
        RuntimeDetectionStatus::UnsupportedVersion => MessageId::PresetStatusUnsupported,
        RuntimeDetectionStatus::Missing => MessageId::PresetStatusMissing,
        RuntimeDetectionStatus::PermissionDenied => MessageId::PresetStatusPermission,
        RuntimeDetectionStatus::Partial => MessageId::PresetStatusFailed,
    }
}

pub open spec fn capability_message(capability: RuntimeCapability) -> MessageId {
    match capability {
        RuntimeCapability::InteractivePty => MessageId::RuntimeCapabilityInteractive,
        RuntimeCapability::StructuredEvents => MessageId::RuntimeCapabilityStructured,
        RuntimeCapability::ApprovalRequests => MessageId::RuntimeCapabilityApprovals,
        RuntimeCapability::Cancellation => MessageId::RuntimeCapabilityCancellation,
        RuntimeCapability::ContextHandoff => MessageId::RuntimeCapabilityContext,
        RuntimeCapability::RemoteLaunch => MessageId::RuntimeCapabilityRemote,
        RuntimeCapability::Resume => MessageId::RuntimeCapabilityResume,
        RuntimeCapability::TranscriptExport => MessageId::RuntimeCapabilityTranscript,
    }
}

pub fn runtime_capability_message(capability: RuntimeCapability) -> (r: MessageId)
    ensures
        r == capability_message(capability),
{
    match capability {
        RuntimeCapability::InteractivePty => MessageId::RuntimeCapabilityInteractive,
        RuntimeCapability::StructuredEvents => MessageId::RuntimeCapabilityStructured,
        RuntimeCapability::ApprovalRequests => MessageId::RuntimeCapabilityApprovals,
        RuntimeCapability::Cancellation => MessageId::RuntimeCapabilityCancellation,
        RuntimeCapability::ContextHandoff => MessageId::RuntimeCapabilityContext,
        RuntimeCapability::RemoteLaunch => MessageId::RuntimeCapabilityRemote,
        RuntimeCapability::Resume => MessageId::RuntimeCapabilityResume,
        RuntimeCapability::TranscriptExport => MessageId::RuntimeCapabilityTranscript,
    }
}

/// The messages that are listed, separated by commas, for a set of capabilities:
/// one for each member, or the one that says that there are none.
pub open spec fn capability_messages(capabilities: RuntimeCapabilitySet) -> Seq<MessageId> {
    if capabilities.members().len() == 0 {
        seq![MessageId::RuntimeCapabilitiesNone]
    } else {
        Seq::new(
            capabilities.members().len(),
            |i: int| capability_message(capabilities.members()[i]),
        )
    }
}

pub fn capability_summary(capabilities: &RuntimeCapabilitySet) -> (r: Vec<MessageId>)
    ensures
        r@ == capability_messages(*capabilities),
{
    let members: Vec<RuntimeCapability> = capabilities.to_vec();
    let mut labels: Vec<MessageId> = Vec::new();
    let mut i: usize = 0;
    while i < members.len()
        invariant
            i <= members@.len(),
            members@ == capabilities.members(),
            labels@.len() == i,
            forall|k: int| 0 <= k < i ==> #[trigger] labels@[k] == capability_message(members@[k]),
        decreases members@.len() - i,
    {
        labels.push(runtime_capability_message(members[i]));
        i += 1;
    }
    if labels.len() == 0 {
        labels.push(MessageId::RuntimeCapabilitiesNone);
    }
    assert(labels@ =~= capability_messages(*capabilities));
    labels
}

pub open spec fn ownership_message(ownership: OccupantOwnership) -> MessageId {
    match ownership {
        OccupantOwnership::Managed => MessageId::RuntimeOwnershipManaged,
        OccupantOwnership::Observed => MessageId::RuntimeOwnershipObserved,
        OccupantOwnership::Ambiguous => MessageId::RuntimeOwnershipAmbiguous,
    }
}

pub open spec fn confidence_message(confidence: RecognitionConfidence) -> MessageId {
    match confidence {
        RecognitionConfidence::Verified => MessageId::RuntimeConfidenceVerified,
        RecognitionConfidence::Observed => MessageId::RuntimeConfidenceObserved,
        RecognitionConfidence::Uncertain => MessageId::RuntimeConfidenceUncertain,
    }
}

fn confidence_label(confidence: RecognitionConfidence) -> (r: MessageId)
    ensures
        r == confidence_message(confidence),
{
    match confidence {
        RecognitionConfidence::Verified => MessageId::RuntimeConfidenceVerified,
        RecognitionConfidence::Observed => MessageId::RuntimeConfidenceObserved,
        RecognitionConfidence::Uncertain => MessageId::RuntimeConfidenceUncertain,
    }
}

pub open spec fn no_capabilities() -> RuntimeCapabilitySet {
    RuntimeCapabilitySet {
        interactive_pty: false,
        structured_events: false,
        approval_requests: false,
        cancellation: false,
        context_handoff: false,
        remote_launch: false,
        resume: false,
        transcript_export: false,
    }
}

/// What is shown where no program was recognized.
pub open spec fn unverified() -> RuntimeInspectorProjection {
    RuntimeInspectorProjection {
        runtime: Text::Message(MessageId::RuntimeLabelGeneric),
        version: Text::Message(MessageId::RuntimeVersionUnverified),
        ownership: MessageId::RuntimeOwnershipAmbiguous,
        confidence: MessageId::RuntimeConfidenceUncertain,
        generation: 0,
        capabilities: no_capabilities(),
        stale: false,
        explanation: Some(MessageId::RuntimeUnverifiedExplanation),
    }
}

/// What is shown of a recognition.
pub open spec fn inspected(
    registry: RuntimeRegistry,
    recognition: Option<RuntimeRecognition>,
) -> RuntimeInspectorProjection {
    match recognition {
        Some(RuntimeRecognition { occupant: Some(occupant), confidence }) => {
            RuntimeInspectorProjection {
                runtime: runtime_text(registry, occupant.runtime_id),
                version: match occupant.safe_version {
                    Some(version) => Text::Value(version),
                    None => Text::Message(MessageId::RuntimeVersionUnverified),
                },
                ownership: ownership_message(occupant.ownership),
                confidence: confidence_message(confidence),
                generation: occupant.generation,
                capabilities: occupant.capabilities,
                stale: occupant.stale,
                explanation: if occupant.capabilities == no_capabilities() {
                    Some(MessageId::RuntimeUnverifiedExplanation)
                } else {
                    None
                },
            }
        },
        _ => unverified(),
    }
}

fn empty_capabilities() -> (r: RuntimeCapabilitySet)
    ensures
        r == no_capabilities(),
{
    RuntimeCapabilitySet {
        interactive_pty: false,
        structured_events: false,
        approval_requests: false,
        cancellation: false,
        context_handoff: false,
        remote_launch: false,
        resume: false,
        transcript_export: false,
    }
}

pub fn unverified_projection() -> (r: RuntimeInspectorProjection)
    ensures
        r == unverified(),
{
    RuntimeInspectorProjection {
        runtime: Text::Message(MessageId::RuntimeLabelGeneric),
        version: Text::Message(MessageId::RuntimeVersionUnverified),
        ownership: MessageId::RuntimeOwnershipAmbiguous,
        confidence: MessageId::RuntimeConfidenceUncertain,
        generation: 0,
        capabilities: empty_capabilities(),
        stale: false,
        explanation: Some(MessageId::RuntimeUnverifiedExplanation),
    }
}

pub fn runtime_inspector_projection(
    registry: &RuntimeRegistry,
    recognition: &Option<RuntimeRecognition>,
) -> (r: RuntimeInspectorProjection)
    ensures
        r == inspected(*registry, *recognition),
{
    match recognition {
        None => unverified_projection(),
        Some(seen) => match &seen.occupant {
            None => unverified_projection(),
            Some(occupant) => RuntimeInspectorProjection {
                runtime: runtime_label_of(registry, &occupant.runtime_id),
                version: match &occupant.safe_version {
                    Some(version) => Text::Value(version.clone()),
                    None => Text::Message(MessageId::RuntimeVersionUnverified),
                },
                ownership: match occupant.ownership {
                    OccupantOwnership::Managed => MessageId::RuntimeOwnershipManaged,
                    OccupantOwnership::Observed => MessageId::RuntimeOwnershipObserved,
                    OccupantOwnership::Ambiguous => MessageId::RuntimeOwnershipAmbiguous,
                },
                confidence: confidence_label(seen.confidence),
                generation: occupant.generation,
                capabilities: occupant.capabilities,
                stale: occupant.stale,
                explanation: if occupant.capabilities == empty_capabilities() {
                    Some(MessageId::RuntimeUnverifiedExplanation)
                } else {
                    None
                },
            },
        },
    }
}

/// An explanation is given exactly where no capability is in effect.
pub proof fn law_missing_capabilities_are_explained(
    registry: RuntimeRegistry,
    recognition: Option<RuntimeRecognition>,
)
    ensures
        inspected(registry, recognition).explanation is Some <==> inspected(
            registry,
            recognition,
        ).capabilities.members().len() == 0,
        capability_messages(inspected(registry, recognition).capabilities).len() > 0,
{
    let set = inspected(registry, recognition).capabilities;
    lemma_no_members(set);
    lemma_no_members(no_capabilities());
}

proof fn lemma_no_members(set: RuntimeCapabilitySet)
    ensures
        set == no_capabilities() <==> set.members().len() == 0,
        capability_messages(set).len() > 0,
{
    reveal(RuntimeCapabilitySet::members);
}

/// A row of the runtime inspector: the runtime itself, by its name, or one of its
/// capabilities. The generic runtime is always named by the same literal.
#[derive(Debug, PartialEq, Eq)]
pub enum RuntimeRowId {
    Runtime(Atom),
    Capability(Atom, MessageId),
}

/// Version, ownership, confidence and generation, as one line.
#[derive(Debug)]
pub struct RuntimeDetail {
    pub version: Text,
    pub ownership: MessageId,
    pub confidence: MessageId,
    pub generation: u64,
}

#[derive(Debug)]
pub struct RuntimeRow {
    pub id: RuntimeRowId,
    pub parent: Option<RuntimeRowId>,
    pub name: Text,
    pub status: MessageId,
    pub detail: Option<RuntimeDetail>,
    pub selected: bool,
    pub disabled: bool,
    pub checked: Option<bool>,
    pub risky: bool,
    pub stale: bool,
    pub position: usize,
    pub set_size: usize,
}

#[derive(Clone, Copy, Debug, PartialEq, Eq, Structural)]
pub enum RuntimeSurfaceState {
    Unsupported,
    Partial,
    Ready,
}

#[derive(Debug)]
pub struct RuntimeSemanticSnapshot {
    pub state: RuntimeSurfaceState,
    pub rows: Vec<RuntimeRow>,
    pub recording_friendly: bool,
}

pub open spec fn recognized_runtime(recognition: Option<RuntimeRecognition>) -> Option<String> {
    match recognition {
        Some(RuntimeRecognition { occupant: Some(occupant), .. }) => Some(occupant.runtime_id),
        _ => None,
    }
}

/// The name of a runtime in the identity of its rows. A program that was not
/// recognized counts as the generic runtime.
pub open spec fn row_name(runtime: Option<String>) -> Atom {
    match runtime {
        Some(name) => if name@ == "generic"@ {
            Atom::Literal("generic")
        } else {
            Atom::Value(name)
        },
        None => Atom::Literal("generic"),
    }
}

fn runtime_row_name(runtime: &Option<String>) -> (r: Atom)
    ensures
        r == row_name(*runtime),
{
    match runtime {
        Some(name) => {
            if text::same_text(name.as_str(), "generic") {
                Atom::Literal("generic")
            } else {
                Atom::Value(name.clone())
            }
        },
        None => Atom::Literal("generic"),
    }
}

pub open spec fn recognition_confidence(
    recognition: Option<RuntimeRecognition>,
) -> RecognitionConfidence {
    match recognition {
        Some(seen) => seen.confidence,
        None => RecognitionConfidence::Uncertain,
    }
}

pub open spec fn runtime_row(
    registry: RuntimeRegistry,
    recognition: Option<RuntimeRecognition>,
) -> RuntimeRow {
    let projection = inspected(registry, recognition);
    RuntimeRow {
        id: RuntimeRowId::Runtime(row_name(recognized_runtime(recognition))),
        parent: None,
        name: projection.runtime,
        status: confidence_message(recognition_confidence(recognition)),
        detail: Some(
            RuntimeDetail {
                version: projection.version,
                ownership: projection.ownership,
                confidence: projection.confidence,
                generation: projection.generation,
            },
        ),
        selected: true,
        disabled: recognized_runtime(recognition) is None,
        checked: Some(projection.capabilities.members().len() > 0),
        risky: false,
        stale: projection.stale,
        position: 1,
        set_size: 1,
    }
}

pub open spec fn capability_row(
    registry: RuntimeRegistry,
    recognition: Option<RuntimeRecognition>,
    i: int,
) -> RuntimeRow {
    let projection = inspected(registry, recognition);
    let message = capability_message(projection.capabilities.members()[i]);
    RuntimeRow {
        id: RuntimeRowId::Capability(row_name(recognized_runtime(recognition)), message),
        parent: Some(RuntimeRowId::Runtime(row_name(recognized_runtime(recognition)))),
        name: Text::Message(message),
        status: confidence_message(recognition_confidence(recognition)),
        detail: None,
        selected: false,
        disabled: false,
        checked: Some(true),
        risky: false,
        stale: projection.stale,
        position: (i + 1) as usize,
        set_size: projection.capabilities.members().len() as usize,
    }
}

/// The runtime's own row, then one for each capability.
pub open spec fn runtime_rows(
    registry: RuntimeRegistry,
    recognition: Option<RuntimeRecognition>,
) -> Seq<RuntimeRow> {
    seq![runtime_row(registry, recognition)] + Seq::new(
        inspected(registry, recognition).capabilities.members().len(),
        |i: int| capability_row(registry, recognition, i),
    )
}

pub open spec fn runtime_surface(
    registry: RuntimeRegistry,
    recognition: Option<RuntimeRecognition>,
) -> RuntimeSurfaceState {
    if recognized_runtime(recognition) is None {
        RuntimeSurfaceState::Unsupported
    } else if inspected(registry, recognition).stale || recognition_confidence(recognition)
        != RecognitionConfidence::Verified {
        RuntimeSurfaceState::Partial
    } else {
        RuntimeSurfaceState::Ready
    }
}

pub open spec fn record_recognition(record: SavedAppAttachedSession) -> Option<RuntimeRecognition> {
    match record.durable_host {
        Some(host) => host.runtime_recognition,
        None => None,
    }
}

/// What assistive technology is told of the selected session's runtime; nothing
/// where no durable session is selected.
pub fn runtime_inspector_semantic_snapshot(
    registry: &RuntimeRegistry,
    saved: &SavedState,
    selected: Option<HostedSessionId>,
    recording_friendly: bool,
) -> (r: Option<RuntimeSemanticSnapshot>)
    ensures
        match selected {
            None => r is None,
            Some(id) => match lists::first_where(
                saved.app_attached_sessions@,
                saved_state::is_record(id),
            ) {
                Some(record) if record.route == SessionLaunchRoute::DurableHost => {
                    &&& r matches Some(snapshot)
                    &&& snapshot.state == runtime_surface(*registry, record_recognition(record))
                    &&& snapshot.rows@ == runtime_rows(*registry, record_recognition(record))
                    &&& snapshot.recording_friendly == recording_friendly
                },
                _ => r is None,
            },
        },
        selected is None ==> r is None,
        r matches Some(snapshot) ==> snapshot.recording_friendly == recording_friendly,
{
    let id: HostedSessionId = match selected {
        Some(id) => id,
        None => {
            return None;
        },
    };
    match saved.record(id) {
        None => None,
        Some(record) => {
            if record.route != SessionLaunchRoute::DurableHost {
                return None;
            }
            let recognition: Option<RuntimeRecognition> = match &record.durable_host {
                Some(host) => match &host.runtime_recognition {
                    Some(seen) => Some(seen.duplicate()),
                    None => None,
                },
                None => None,
            };
            Some(recognition_snapshot(registry, &recognition, recording_friendly))
        },
    }
}

fn recognized_name(recognition: &Option<RuntimeRecognition>) -> (r: Option<String>)
    ensures
        r == recognized_runtime(*recognition),
{
    match recognition {
        Some(seen) => match &seen.occupant {
            Some(occupant) => Some(occupant.runtime_id.clone()),
            None => None,
        },
        None => None,
    }
}

fn confidence_of(recognition: &Option<RuntimeRecognition>) -> (r: RecognitionConfidence)
    ensures
        r == recognition_confidence(*recognition),
{
    match recognition {
        Some(seen) => seen.confidence,
        None => RecognitionConfidence::Uncertain,
    }
}

/// The runtime's own row.
fn own_row(registry: &RuntimeRegistry, recognition: &Option<RuntimeRecognition>) -> (r: RuntimeRow)
    ensures
        r == runtime_row(*registry, *recognition),
{
    let projection: RuntimeInspectorProjection = runtime_inspector_projection(
        registry,
        recognition,
    );
    let runtime: Option<String> = recognized_name(recognition);
    let members: Vec<RuntimeCapability> = projection.capabilities.to_vec();
    RuntimeRow {
        id: RuntimeRowId::Runtime(runtime_row_name(&runtime)),
        parent: None,
        name: projection.runtime,
        status: confidence_label(confidence_of(recognition)),
        detail: Some(
            RuntimeDetail {
                version: projection.version,
                ownership: projection.ownership,
                confidence: projection.confidence,
                generation: projection.generation,
            },
        ),
        selected: true,
        disabled: runtime.is_none(),
        checked: Some(members.len() > 0),
        risky: false,
        stale: projection.stale,
        position: 1,
        set_size: 1,
    }
}

/// The row of one capability.
fn one_capability_row(
    recognition: &Option<RuntimeRecognition>,
    members: &Vec<RuntimeCapability>,
    stale: bool,
    i: usize,
    Ghost(registry): Ghost<RuntimeRegistry>,
) -> (r: RuntimeRow)
    requires
        i < members@.len(),
        members@ == inspected(registry, *recognition).capabilities.members(),
        stale == inspected(registry, *recognition).stale,
    ensures
        r == capability_row(registry, *recognition, i as int),
{
    let count: usize = members.len();
    let runtime: Option<String> = recognized_name(recognition);
    let message: MessageId = runtime_capability_message(members[i]);
    RuntimeRow {
        id: RuntimeRowId::Capability(runtime_row_name(&runtime), message),
        parent: Some(RuntimeRowId::Runtime(runtime_row_name(&runtime))),
        name: Text::Message(message),
        status: confidence_label(confidence_of(recognition)),
        detail: None,
        selected: false,
        disabled: false,
        checked: Some(true),
        risky: false,
        stale,
        position: i + 1,
        set_size: count,
    }
}

fn recognition_snapshot(
    registry: &RuntimeRegistry,
    recognition: &Option<RuntimeRecognition>,
    recording_friendly: bool,
) -> (r: RuntimeSemanticSnapshot)
    ensures
        r.state == runtime_surface(*registry, *recognition),
        r.rows@ == runtime_rows(*registry, *recognition),
        r.recording_friendly == recording_friendly,
{
    let projection: RuntimeInspectorProjection = runtime_inspector_projection(
        registry,
        recognition,
    );
    let members: Vec<RuntimeCapability> = projection.capabilities.to_vec();
    let stale: bool = projection.stale;
    let mut rows: Vec<RuntimeRow> = Vec::new();
    rows.push(own_row(registry, recognition));
    let ghost target = runtime_rows(*registry, *recognition);
    assert(rows@ =~= target.take(1));
    let mut i: usize = 0;
    while i < members.len()
        invariant
            i <= members@.len(),
            members@ == inspected(*registry, *recognition).capabilities.members(),
            stale == inspected(*registry, *recognition).stale,
            target == runtime_rows(*registry, *recognition),
            rows@ == target.take(i + 1),
        decreases members@.len() - i,
    {
        rows.push(one_capability_row(recognition, &members, stale, i, Ghost(*registry)));
        assert(rows@ =~= target.take(i + 2));
        i += 1;
    }
    assert(target.take(members@.len() as int + 1) =~= target);
    let recognized: bool = recognized_name(recognition).is_some();
    RuntimeSemanticSnapshot {
        state: if !recognized {
            RuntimeSurfaceState::Unsupported
        } else if stale || confidence_of(recognition) != RecognitionConfidence::Verified {
            RuntimeSurfaceState::Partial
        } else {
            RuntimeSurfaceState::Ready
        },
        rows,
        recording_friendly,
    }
}

/// Each outcome of a detection is told in words of its own.
pub proof fn law_each_detection_has_its_words(status: RuntimeDetectionStatus)
    ensures
        detection_message(status) == MessageId::PresetStatusSupported <==> status is Available,
        detection_message(status) == MessageId::PresetStatusUnsupported <==> status is UnsupportedVersion,
        detection_message(status) == MessageId::PresetStatusMissing <==> status is Missing,
        detection_message(status) == MessageId::PresetStatusPermission <==> status is PermissionDenied,
        detection_message(status) == MessageId::PresetStatusFailed <==> status is Partial,
{
}

/// Each capability is told in words of its own.
pub proof fn law_each_capability_has_its_words(capability: RuntimeCapability)
    ensures
        capability_message(capability) == MessageId::RuntimeCapabilityInteractive <==> capability is InteractivePty,
        capability_message(capability) == MessageId::RuntimeCapabilityStructured <==> capability is StructuredEvents,
        capability_message(capability) == MessageId::RuntimeCapabilityApprovals <==> capability is ApprovalRequests,
        capability_message(capability) == MessageId::RuntimeCapabilityCancellation <==> capability is Cancellation,
        capability_message(capability) == MessageId::RuntimeCapabilityContext <==> capability is ContextHandoff,
        capability_message(capability) == MessageId::RuntimeCapabilityRemote <==> capability is RemoteLaunch,
        capability_message(capability) == MessageId::RuntimeCapabilityResume <==> capability is Resume,
        capability_message(capability) == MessageId::RuntimeCapabilityTranscript <==> capability is TranscriptExport,
{
}

/// Each ownership of the program is told in words of its own.
pub proof fn law_each_ownership_has_its_words(ownership: OccupantOwnership)
    ensures
        ownership_message(ownership) == MessageId::RuntimeOwnershipManaged <==> ownership is Managed,
        ownership_message(ownership) == MessageId::RuntimeOwnershipObserved <==> ownership is Observed,
        ownership_message(ownership) == MessageId::RuntimeOwnershipAmbiguous <==> ownership is Ambiguous,
{
}

/// Each confidence in a recognition is told in words of its own.
pub proof fn law_each_confidence_has_its_words(confidence: RecognitionConfidence)
    ensures
        confidence_message(confidence) == MessageId::RuntimeConfidenceVerified <==> confidence is Verified,
        confidence_message(confidence) == MessageId::RuntimeConfidenceObserved <==> confidence is Observed,
        confidence_message(confidence) == MessageId::RuntimeConfidenceUncertain <==> confidence is Uncertain,
{
}

/// A runtime that the registry knows is named by its own label, and only that
/// one; any other is shown by the name it has.
pub proof fn law_runtimes_are_named_by_what_they_are(registry: RuntimeRegistry, runtime: String)
    ensures
        runtime@ == "codex"@ ==> runtime_text(registry, runtime) == Text::Message(
            MessageId::RuntimeLabelCodex,
        ),
        runtime@ == registry.claude_id@ && runtime@ != "codex"@ ==> runtime_text(registry, runtime)
            == Text::Message(MessageId::RuntimeLabelClaude),
        runtime@ == "gemini"@ && runtime@ != registry.claude_id@ ==> runtime_text(registry, runtime)
            == Text::Message(MessageId::RuntimeLabelGemini),
        runtime@ == "generic"@ && runtime@ != registry.claude_id@ ==> runtime_text(
            registry,
            runtime,
        ) == Text::Message(MessageId::RuntimeLabelGeneric),
        runtime@ != "codex"@ && runtime@ != registry.claude_id@ && runtime@ != "gemini"@ && runtime@
            != "generic"@ ==> runtime_text(registry, runtime) == Text::Value(runtime),
{
    reveal_strlit("codex");
    reveal_strlit("gemini");
    reveal_strlit("generic");
    assert("codex"@.len() == 5);
    assert("gemini"@.len() == 6);
    assert("generic"@.len() == 7);
}

/// What is said of a recognised program is what was recognised of it; where
/// nothing was, nothing is claimed: no capability, no certainty, no ownership.
pub proof fn law_inspection_tells_what_was_recognized(
    registry: RuntimeRegistry,
    recognition: Option<RuntimeRecognition>,
)
    ensures
        ({
            let told = inspected(registry, recognition);
            match recognition {
                Some(RuntimeRecognition { occupant: Some(occupant), confidence }) => {
                    &&& told.runtime == runtime_text(registry, occupant.runtime_id)
                    &&& occupant.safe_version matches Some(version) ==> told.version
                        == Text::Value(version)
                    &&& occupant.safe_version is None ==> told.version == Text::Message(
                        MessageId::RuntimeVersionUnverified,
                    )
                    &&& told.generation == occupant.generation
                    &&& told.capabilities == occupant.capabilities
                    &&& told.stale == occupant.stale
                    &&& told.confidence == MessageId::RuntimeConfidenceVerified <==> confidence
                        is Verified
                    &&& told.ownership == MessageId::RuntimeOwnershipManaged <==> occupant.ownership
                        is Managed
                },
                _ => {
                    &&& told.runtime == Text::Message(MessageId::RuntimeLabelGeneric)
                    &&& told.version == Text::Message(MessageId::RuntimeVersionUnverified)
                    &&& told.ownership == MessageId::RuntimeOwnershipAmbiguous
                    &&& told.confidence == MessageId::RuntimeConfidenceUncertain
                    &&& told.generation == 0
                    &&& !told.stale
                    &&& !told.capabilities.interactive_pty && !told.capabilities.structured_events
                        && !told.capabilities.approval_requests && !told.capabilities.cancellation
                        && !told.capabilities.context_handoff && !told.capabilities.remote_launch
                        && !told.capabilities.resume && !told.capabilities.transcript_export
                },
            }
        }),
{
}

/// The surface is ready only where a program was recognised, verified and is not
/// stale, and unsupported exactly where none was recognised.
pub proof fn law_the_runtime_surface_is_ready_once_verified(
    registry: RuntimeRegistry,
    recognition: Option<RuntimeRecognition>,
)
    ensures
        runtime_surface(registry, recognition) is Unsupported <==> !(recognition matches Some(seen)
            && seen.occupant is Some),
        runtime_surface(registry, recognition) is Ready <==> (recognition matches Some(seen)
            && seen.confidence is Verified && (seen.occupant matches Some(occupant)
            && !occupant.stale)),
{
}

/// The first row stands for the program, every other one for a capability that
/// it has, below the first, numbered in order.
pub proof fn law_runtime_rows_stand_for_the_program(
    registry: RuntimeRegistry,
    recognition: Option<RuntimeRecognition>,
    i: int,
)
    requires
        0 <= i < inspected(registry, recognition).capabilities.members().len(),
        inspected(registry, recognition).capabilities.members().len() < usize::MAX,
    ensures
        ({
            let rows = runtime_rows(registry, recognition);
            let members = inspected(registry, recognition).capabilities.members();
            &&& rows.len() == members.len() + 1
            &&& rows[0].parent is None
            &&& rows[0].selected
            &&& !rows[i + 1].selected
            &&& rows[0].disabled <==> !(recognition matches Some(seen) && seen.occupant is Some)
            &&& rows[0].checked == Some(true)
            &&& rows[i + 1].parent == Some(rows[0].id)
            &&& rows[i + 1].name == Text::Message(capability_message(members[i]))
            &&& rows[i + 1].checked == Some(true)
            &&& !rows[i + 1].disabled
            &&& rows[i + 1].position == i + 1
            &&& rows[i + 1].set_size == members.len()
            &&& rows[i + 1].stale == rows[0].stale
            &&& rows[i + 1].status == rows[0].status
        }),
{
}

/// What a row of a program says of it.
pub proof fn law_the_own_row_details_the_program(
    registry: RuntimeRegistry,
    recognition: Option<RuntimeRecognition>,
)
    ensures
        ({
            let row = runtime_rows(registry, recognition)[0];
            let told = inspected(registry, recognition);
            &&& row.name == told.runtime
            &&& row.stale == told.stale
            &&& row.detail matches Some(detail) && detail.version == told.version
                && detail.ownership == told.ownership && detail.confidence == told.confidence
                && detail.generation == told.generation
            &&& row.status == told.confidence || (recognition matches Some(seen)
                && seen.occupant is None)
            &&& (recognition matches Some(seen) && seen.confidence is Verified)
                <==> row.status == MessageId::RuntimeConfidenceVerified
            &&& recognition matches Some(RuntimeRecognition { occupant: Some(occupant), .. })
                ==> occupant.runtime_id@ != "generic"@ ==> row.id == RuntimeRowId::Runtime(
                Atom::Value(occupant.runtime_id),
            )
        }),
{
}

/// A program without capabilities is said to have none and explained; one with
/// some lists each of them.
pub proof fn law_capabilities_are_listed_one_by_one(set: RuntimeCapabilitySet, i: int)
    requires
        0 <= i < capability_messages(set).len(),
    ensures
        set.members().len() == 0 <==> capability_messages(set)[i]
            == MessageId::RuntimeCapabilitiesNone,
        set.members().len() > 0 ==> capability_messages(set).len() == set.members().len()
            && capability_messages(set)[i] == capability_message(set.members()[i]),
        set.members().len() == 0 ==> capability_messages(set).len() == 1,
{
}

/// An explanation is the one for programs that could not be verified.
pub proof fn law_explanations_are_for_the_unverified(
    registry: RuntimeRegistry,
    recognition: Option<RuntimeRecognition>,
)
    ensures
        inspected(registry, recognition).explanation is None || inspected(
            registry,
            recognition,
        ).explanation == Some(MessageId::RuntimeUnverifiedExplanation),
{
}

} // verus!
