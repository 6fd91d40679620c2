//! What the session sidebar and the session library show.
use vstd::prelude::*;

use crate::domain::{
    HostedSession, HostedSessionState, ResumeError, RuntimeRecognition, SessionLaunchRoute,
};
use crate::ids;
use crate::ids::{group_key, session_key, GroupId, HostedSessionId, ProjectId};
use crate::lists;
use crate::messages::{Atom, MessageId, Text};
use crate::projects::Group;
use crate::runtimes;
use crate::runtimes::{capability_summary, runtime_inspector_projection, RuntimeInspectorProjection, RuntimeRegistry};
use crate::saved_state;
use crate::saved_state::{GroupDestination, SavedAppAttachedSession, SavedState};
use crate::session_controls::{ProductConsole, ProductMoveDirection, ProductOperation};
use crate::session_labels;
use crate::session_labels::{
    activity_label, session_ownership_label, session_recovery_label, session_state_color,
    session_state_label, title_source_label,
};
use crate::session_library::{
    RemovalManifest, SessionLibraryFilter, SessionLibraryState, SessionLibraryView,
    SessionRemovalPlan,
};
use crate::session_resume;
use crate::session_resume::{
    evaluated_resume_projection, resume_error_message, SessionResumeProjection,
};
use crate::session_sidebar;
use crate::session_sidebar::{
    listed_index, saved_records_of, sessions_in_destination, GroupEditor, HostRecoveryState,
};
use crate::text;
use crate::ui;
use crate::ui::{ButtonView, Emphasis, Icon, Tone};

verus! {

/// A short text in a line of them; `selector` names it for tests of the
/// interface.
#[derive(Debug)]
pub struct Caption {
    pub text: Text,
    pub tone: Tone,
    pub selector: Option<&'static str>,
}

/// A labelled value.
#[derive(Debug)]
pub struct Fact {
    pub label: MessageId,
    pub value: Text,
}

#[derive(Debug)]
pub struct RuntimeFacts {
    pub facts: Vec<Fact>,
    pub capabilities_label: MessageId,
    pub capabilities: Vec<MessageId>,
    pub explanation: Option<MessageId>,
}

/// The export of a transcript: why it is unavailable is shown as a tooltip and,
/// where it is, as a warning.
#[derive(Clone, Copy, Debug, PartialEq, Eq, Structural)]
pub struct TranscriptView {
    pub label: MessageId,
    pub disabled: bool,
    pub tooltip: MessageId,
    pub warning: Option<MessageId>,
}

#[derive(Debug)]
pub struct HostRecoveryView {
    pub key: u64,
    pub title: MessageId,
    pub description: MessageId,
    pub safety: MessageId,
    pub evidence: Option<Text>,
    pub buttons: Vec<ButtonView<ProductOperation>>,
}

/// What other parts of the console have decided about a session: whether its
/// conversation can be resumed and its transcript exported, whether its host may
/// be recovered, and how a recovery stands.
#[derive(Debug)]
pub struct SessionVerdicts {
    pub resume: Result<(), ResumeError>,
    pub transcript_available: bool,
    pub transcript_reason: Option<MessageId>,
    pub recovery_allowed: bool,
    pub recovery_evidence: String,
    pub recovery_can_confirm: bool,
    pub recovery_can_cancel: bool,
}

/// What the inspector of the selected session shows.
#[derive(Debug)]
pub struct SessionDetailsView {
    pub rename: Vec<ButtonView<ProductOperation>>,
    pub facts: Vec<Fact>,
    pub runtime: Option<RuntimeFacts>,
    pub transcript: Option<TranscriptView>,
    pub recovery: Option<HostRecoveryView>,
    pub actions: Vec<ButtonView<ProductOperation>>,
    pub lifecycle: Vec<ButtonView<ProductOperation>>,
    pub resume_reason: Option<MessageId>,
    pub placement: Vec<ButtonView<ProductOperation>>,
}

#[derive(Debug)]
pub struct SessionRowView {
    pub key: u64,
    pub selected: bool,
    pub tone: Tone,
    pub title: String,
    pub captions: Vec<Caption>,
    pub inspect: ButtonView<ProductOperation>,
    pub details: Option<SessionDetailsView>,
}

pub open spec fn plain(
    id: &'static str,
    key: u64,
    label: MessageId,
    operation: ProductOperation,
) -> ButtonView<ProductOperation> {
    ui::plain_button(id, key, Text::Message(label), None, Emphasis::Plain, operation)
}

pub open spec fn with_icon(
    id: &'static str,
    key: u64,
    icon: Icon,
    label: MessageId,
    operation: ProductOperation,
) -> ButtonView<ProductOperation> {
    ui::plain_button(id, key, Text::Message(label), Some(icon), Emphasis::Plain, operation)
}

pub open spec fn primary(
    id: &'static str,
    key: u64,
    label: MessageId,
    operation: ProductOperation,
) -> ButtonView<ProductOperation> {
    ui::plain_button(id, key, Text::Message(label), None, Emphasis::Primary, operation)
}

pub open spec fn danger(
    id: &'static str,
    key: u64,
    icon: Option<Icon>,
    label: MessageId,
    operation: ProductOperation,
) -> ButtonView<ProductOperation> {
    ui::plain_button(id, key, Text::Message(label), icon, Emphasis::Danger, operation)
}

fn plain_button(id: &'static str, key: u64, label: MessageId, operation: ProductOperation) -> (r:
    ButtonView<ProductOperation>)
    ensures
        r == plain(id, key, label, operation),
{
    ui::button(id, key, Text::Message(label), None, Emphasis::Plain, operation)
}

fn icon_button(
    id: &'static str,
    key: u64,
    icon: Icon,
    label: MessageId,
    operation: ProductOperation,
) -> (r: ButtonView<ProductOperation>)
    ensures
        r == with_icon(id, key, icon, label, operation),
{
    ui::button(id, key, Text::Message(label), Some(icon), Emphasis::Plain, operation)
}

fn primary_button(id: &'static str, key: u64, label: MessageId, operation: ProductOperation) -> (r:
    ButtonView<ProductOperation>)
    ensures
        r == primary(id, key, label, operation),
{
    ui::button(id, key, Text::Message(label), None, Emphasis::Primary, operation)
}

fn danger_button(
    id: &'static str,
    key: u64,
    icon: Option<Icon>,
    label: MessageId,
    operation: ProductOperation,
) -> (r: ButtonView<ProductOperation>)
    ensures
        r == danger(id, key, icon, label, operation),
{
    ui::button(id, key, Text::Message(label), icon, Emphasis::Danger, operation)
}

/// The line below a session's title.
pub open spec fn captions_of(session: SavedAppAttachedSession, metadata: HostedSession) -> Seq<
    Caption,
> {
    Seq::empty() + seq![
        Caption {
            text: Text::Message(session_labels::state_text(metadata.lifecycle)),
            tone: Tone::Muted,
            selector: None,
        },
    ] + seq![
        Caption {
            text: session_labels::activity_text(metadata.activity),
            tone: Tone::Muted,
            selector: None,
        },
    ] + seq![
        Caption {
            text: Text::Value(session.project_label),
            tone: Tone::Muted,
            selector: Some("session-origin-project"),
        },
    ] + lists::optional(
        !text::blank(session.preset_label@),
        Caption {
            text: Text::Value(session.preset_label),
            tone: Tone::Muted,
            selector: Some("session-origin-preset"),
        },
    ) + seq![
        Caption {
            text: session_labels::ownership_text(session.route),
            tone: Tone::Muted,
            selector: Some("session-origin-ownership"),
        },
    ] + lists::optional(
        metadata.pinned,
        Caption {
            text: Text::Message(MessageId::SessionLibraryPinnedBadge),
            tone: Tone::Accent,
            selector: None,
        },
    ) + lists::optional(
        metadata.unread,
        Caption {
            text: Text::Message(MessageId::SessionLibraryUnreadBadge),
            tone: Tone::Warning,
            selector: None,
        },
    )
}

fn session_captions(session: &SavedAppAttachedSession, metadata: &HostedSession) -> (r: Vec<Caption>)
    ensures
        r@ == captions_of(*session, *metadata),
{
    let mut r: Vec<Caption> = Vec::new();
    lists::push_one(
        &mut r,
        Caption {
            text: session_state_label(metadata.lifecycle),
            tone: Tone::Muted,
            selector: None,
        },
    );
    lists::push_one(
        &mut r,
        Caption { text: activity_label(&metadata.activity), tone: Tone::Muted, selector: None },
    );
    lists::push_one(
        &mut r,
        Caption {
            text: Text::Value(session.project_label.clone()),
            tone: Tone::Muted,
            selector: Some("session-origin-project"),
        },
    );
    lists::push_if(
        &mut r,
        !text::is_blank(session.preset_label.as_str()),
        Caption {
            text: Text::Value(session.preset_label.clone()),
            tone: Tone::Muted,
            selector: Some("session-origin-preset"),
        },
    );
    lists::push_one(
        &mut r,
        Caption {
            text: session_ownership_label(session.route),
            tone: Tone::Muted,
            selector: Some("session-origin-ownership"),
        },
    );
    lists::push_if(
        &mut r,
        metadata.pinned,
        Caption {
            text: Text::Message(MessageId::SessionLibraryPinnedBadge),
            tone: Tone::Accent,
            selector: None,
        },
    );
    lists::push_if(
        &mut r,
        metadata.unread,
        Caption {
            text: Text::Message(MessageId::SessionLibraryUnreadBadge),
            tone: Tone::Warning,
            selector: None,
        },
    );
    r
}

/// The session that a record continues.
pub open spec fn source_of(record: SavedAppAttachedSession) -> Option<HostedSessionId> {
    match record.durable_host {
        Some(host) => host.continuity_source_id,
        None => None,
    }
}

pub open spec fn continues(id: HostedSessionId) -> spec_fn(SavedAppAttachedSession) -> bool {
    |record: SavedAppAttachedSession| source_of(record) == Some(id)
}

/// The title of the session that a record continues, where it is known.
pub open spec fn source_title(
    records: Seq<SavedAppAttachedSession>,
    record: SavedAppAttachedSession,
) -> Option<String> {
    match source_of(record) {
        None => None,
        Some(id) => match lists::first_where(records, saved_state::is_record(id)) {
            Some(source) => Some(source.title),
            None => None,
        },
    }
}

/// The title of the session that continues a session.
pub open spec fn successor_title(records: Seq<SavedAppAttachedSession>, id: HostedSessionId) -> Option<
    String,
> {
    match lists::first_where(records, continues(id)) {
        Some(successor) => Some(successor.title),
        None => None,
    }
}

fn continued_session(record: &SavedAppAttachedSession) -> (r: Option<HostedSessionId>)
    ensures
        r == source_of(*record),
{
    match &record.durable_host {
        Some(host) => host.continuity_source_id,
        None => None,
    }
}

fn continuity_source(saved: &SavedState, record: &SavedAppAttachedSession) -> (r: Option<String>)
    ensures
        r == source_title(saved.app_attached_sessions@, *record),
{
    match continued_session(record) {
        None => None,
        Some(id) => match saved.record(id) {
            Some(source) => Some(source.title.clone()),
            None => None,
        },
    }
}

fn continuity_successor(saved: &SavedState, id: HostedSessionId) -> (r: Option<String>)
    ensures
        r == successor_title(saved.app_attached_sessions@, id),
{
    let ghost wanted = continues(id);
    let mut i: usize = 0;
    while i < saved.app_attached_sessions.len()
        invariant
            i <= saved.app_attached_sessions@.len(),
            wanted == continues(id),
            forall|k: int| 0 <= k < i ==> !wanted(#[trigger] saved.app_attached_sessions@[k]),
        decreases saved.app_attached_sessions@.len() - i,
    {
        if continued_session(&saved.app_attached_sessions[i]) == Some(id) {
            proof {
                lists::lemma_first_index(saved.app_attached_sessions@, wanted, i as int);
            }
            return Some(saved.app_attached_sessions[i].title.clone());
        }
        i += 1;
    }
    proof {
        lists::lemma_first_index(saved.app_attached_sessions@, wanted, i as int);
    }
    None
}

pub open spec fn optional_fact(label: MessageId, value: Option<String>) -> Seq<Fact> {
    match value {
        Some(text) => seq![Fact { label, value: Text::Value(text) }],
        None => Seq::empty(),
    }
}

fn fact_if_known(label: MessageId, value: Option<String>) -> (r: Vec<Fact>)
    ensures
        r@ == optional_fact(label, value),
{
    let mut r: Vec<Fact> = Vec::new();
    match value {
        Some(text) => {
            r.push(Fact { label, value: Text::Value(text) });
        },
        None => {},
    }
    assert(r@ =~= optional_fact(label, value));
    r
}

/// The facts of the inspector: state, title source, activity and position, then
/// what the session continues and what continues it.
pub open spec fn facts_of(
    records: Seq<SavedAppAttachedSession>,
    session: SavedAppAttachedSession,
    metadata: HostedSession,
    index: int,
    count: int,
) -> Seq<Fact> {
    Seq::empty() + seq![
        Fact {
            label: MessageId::SessionLibraryStateLabel,
            value: Text::Message(session_labels::state_text(metadata.lifecycle)),
        },
    ] + seq![
        Fact {
            label: MessageId::SessionLibraryTitleSourceLabel,
            value: Text::Message(session_labels::title_source_text(metadata.title_source)),
        },
    ] + seq![
        Fact {
            label: MessageId::SessionLibraryActivityLabel,
            value: session_labels::activity_text(metadata.activity),
        },
    ] + seq![
        Fact {
            label: MessageId::SessionLibraryPositionLabel,
            value: Text::Ratio((index + 1) as u64, count as u64),
        },
    ] + optional_fact(
        MessageId::SessionResumeSourceField,
        source_title(records, session),
    ) + optional_fact(
        MessageId::SessionResumeSuccessorField,
        successor_title(records, session.id),
    )
}

fn session_facts(
    saved: &SavedState,
    session: &SavedAppAttachedSession,
    metadata: &HostedSession,
    index: usize,
    count: usize,
) -> (r: Vec<Fact>)
    requires
        index < usize::MAX,
    ensures
        r@ == facts_of(
            saved.app_attached_sessions@,
            *session,
            *metadata,
            index as int,
            count as int,
        ),
{
    let mut r: Vec<Fact> = Vec::new();
    lists::push_one(
        &mut r,
        Fact {
            label: MessageId::SessionLibraryStateLabel,
            value: session_state_label(metadata.lifecycle),
        },
    );
    lists::push_one(
        &mut r,
        Fact {
            label: MessageId::SessionLibraryTitleSourceLabel,
            value: Text::Message(title_source_label(metadata.title_source)),
        },
    );
    lists::push_one(
        &mut r,
        Fact {
            label: MessageId::SessionLibraryActivityLabel,
            value: activity_label(&metadata.activity),
        },
    );
    lists::push_one(
        &mut r,
        Fact {
            label: MessageId::SessionLibraryPositionLabel,
            value: Text::Ratio((index + 1) as u64, count as u64),
        },
    );
    lists::push_all(
        &mut r,
        fact_if_known(MessageId::SessionResumeSourceField, continuity_source(saved, session)),
    );
    lists::push_all(
        &mut r,
        fact_if_known(
            MessageId::SessionResumeSuccessorField,
            continuity_successor(saved, session.id),
        ),
    );
    r
}

/// The confidence of a recognition, marked where it is stale.
pub open spec fn confidence_text(projection: RuntimeInspectorProjection) -> Text {
    if projection.stale {
        Text::Qualified(
            Atom::Message(projection.confidence),
            Atom::Message(MessageId::RuntimeStaleLabel),
        )
    } else {
        Text::Message(projection.confidence)
    }
}

pub open spec fn runtime_fact_list(projection: RuntimeInspectorProjection) -> Seq<Fact> {
    seq![
        Fact { label: MessageId::RuntimeInspectorRuntimeLabel, value: projection.runtime },
        Fact { label: MessageId::RuntimeInspectorVersionLabel, value: projection.version },
        Fact {
            label: MessageId::RuntimeInspectorOwnershipLabel,
            value: Text::Message(projection.ownership),
        },
        Fact {
            label: MessageId::RuntimeInspectorConfidenceLabel,
            value: confidence_text(projection),
        },
        Fact {
            label: MessageId::RuntimeInspectorGenerationLabel,
            value: Text::Number(projection.generation),
        },
    ]
}

pub open spec fn shows_runtime(view: RuntimeFacts, projection: RuntimeInspectorProjection) -> bool {
    &&& view.facts@ == runtime_fact_list(projection)
    &&& view.capabilities_label == MessageId::RuntimeInspectorCapabilitiesLabel
    &&& view.capabilities@ == runtimes::capability_messages(projection.capabilities)
    &&& view.explanation == projection.explanation
}

fn runtime_facts(registry: &RuntimeRegistry, recognition: &Option<RuntimeRecognition>) -> (r:
    RuntimeFacts)
    ensures
        shows_runtime(r, runtimes::inspected(*registry, *recognition)),
{
    let projection: RuntimeInspectorProjection = runtime_inspector_projection(
        registry,
        recognition,
    );
    let ghost shown = projection;
    let confidence: Text = if projection.stale {
        Text::Qualified(
            Atom::Message(projection.confidence),
            Atom::Message(MessageId::RuntimeStaleLabel),
        )
    } else {
        Text::Message(projection.confidence)
    };
    let capabilities: Vec<MessageId> = capability_summary(&projection.capabilities);
    let mut facts: Vec<Fact> = Vec::new();
    facts.push(Fact { label: MessageId::RuntimeInspectorRuntimeLabel, value: projection.runtime });
    facts.push(Fact { label: MessageId::RuntimeInspectorVersionLabel, value: projection.version });
    facts.push(
        Fact {
            label: MessageId::RuntimeInspectorOwnershipLabel,
            value: Text::Message(projection.ownership),
        },
    );
    facts.push(Fact { label: MessageId::RuntimeInspectorConfidenceLabel, value: confidence });
    facts.push(
        Fact {
            label: MessageId::RuntimeInspectorGenerationLabel,
            value: Text::Number(projection.generation),
        },
    );
    assert(facts@ =~= runtime_fact_list(shown));
    RuntimeFacts {
        facts,
        capabilities_label: MessageId::RuntimeInspectorCapabilitiesLabel,
        capabilities,
        explanation: projection.explanation,
    }
}

pub open spec fn transcript_of(verdicts: SessionVerdicts) -> TranscriptView {
    let reason = match verdicts.transcript_reason {
        Some(reason) => reason,
        None => MessageId::TranscriptExportUnavailableContract,
    };
    TranscriptView {
        label: MessageId::TranscriptExportAction,
        disabled: !verdicts.transcript_available,
        tooltip: reason,
        warning: if verdicts.transcript_available {
            None
        } else {
            Some(reason)
        },
    }
}

/// Whether a recovery is under way or waits for confirmation for this session.
pub open spec fn recovery_target(recovery: HostRecoveryState, id: HostedSessionId) -> bool {
    (recovery.plan matches Some(plan) && plan.session_id == id) || recovery.operation == Some(id)
}

/// The buttons of the recovery panel: prepare where nothing has begun, confirm
/// where a plan waits, and cancel where that is possible.
pub open spec fn recovery_buttons(
    recovery: HostRecoveryState,
    id: HostedSessionId,
    verdicts: SessionVerdicts,
) -> Seq<ButtonView<ProductOperation>> {
    let key = ids::folded_key(id.value);
    let planned = recovery.plan matches Some(plan) && plan.session_id == id;
    let busy = recovery.operation == Some(id);
    Seq::empty() + lists::optional(
        !planned && !busy,
        primary(
            "session-host-recovery-prepare",
            key,
            MessageId::RecoveryPrepareAction,
            ProductOperation::PrepareHostRecovery(id),
        ),
    ) + lists::optional(
        planned,
        ui::disabled_if(
            primary(
                "session-host-recovery-confirm",
                key,
                MessageId::RecoveryConfirmAction,
                ProductOperation::ConfirmHostRecovery(id),
            ),
            !verdicts.recovery_can_confirm,
        ),
    ) + lists::optional(
        verdicts.recovery_can_cancel,
        plain(
            "session-host-recovery-cancel",
            key,
            MessageId::CommonCancel,
            ProductOperation::CancelHostRecovery(id),
        ),
    )
}

pub open spec fn shows_recovery(
    view: HostRecoveryView,
    recovery: HostRecoveryState,
    id: HostedSessionId,
    verdicts: SessionVerdicts,
) -> bool {
    &&& view.key == ids::folded_key(id.value)
    &&& view.title == MessageId::RecoveryTitle
    &&& view.description == MessageId::RecoveryDescription
    &&& view.safety == MessageId::RecoverySafetyNotice
    &&& view.evidence == if verdicts.recovery_evidence@.len() == 0 {
        None
    } else {
        Some(Text::Value(verdicts.recovery_evidence))
    }
    &&& view.buttons@ == recovery_buttons(recovery, id, verdicts)
}

/// The recovery panel of a session.
pub fn host_recovery_panel(
    recovery: &HostRecoveryState,
    id: HostedSessionId,
    verdicts: &SessionVerdicts,
) -> (r: HostRecoveryView)
    ensures
        shows_recovery(r, *recovery, id, *verdicts),
{
    let key: u64 = session_key(id);
    let planned: bool = match recovery.plan {
        Some(plan) => plan.session_id == id,
        None => false,
    };
    let busy: bool = recovery.operation == Some(id);
    let mut buttons: Vec<ButtonView<ProductOperation>> = Vec::new();
    lists::push_if(
        &mut buttons,
        !planned && !busy,
        primary_button(
            "session-host-recovery-prepare",
            key,
            MessageId::RecoveryPrepareAction,
            ProductOperation::PrepareHostRecovery(id),
        ),
    );
    lists::push_if(
        &mut buttons,
        planned,
        primary_button(
            "session-host-recovery-confirm",
            key,
            MessageId::RecoveryConfirmAction,
            ProductOperation::ConfirmHostRecovery(id),
        ).with_disabled(!verdicts.recovery_can_confirm),
    );
    lists::push_if(
        &mut buttons,
        verdicts.recovery_can_cancel,
        plain_button(
            "session-host-recovery-cancel",
            key,
            MessageId::CommonCancel,
            ProductOperation::CancelHostRecovery(id),
        ),
    );
    HostRecoveryView {
        key,
        title: MessageId::RecoveryTitle,
        description: MessageId::RecoveryDescription,
        safety: MessageId::RecoverySafetyNotice,
        evidence: if verdicts.recovery_evidence.as_str().is_empty() {
            None
        } else {
            Some(Text::Value(verdicts.recovery_evidence.clone()))
        },
        buttons,
    }
}

/// The buttons below the inspector: open a durable session, rename, pin, read.
pub open spec fn action_buttons(session: SavedAppAttachedSession, metadata: HostedSession) -> Seq<
    ButtonView<ProductOperation>,
> {
    let id = session.id;
    let key = ids::folded_key(id.value);
    Seq::empty() + lists::optional(
        session.route == SessionLaunchRoute::DurableHost,
        with_icon(
            "session-open",
            key,
            Icon::SquareTerminal,
            MessageId::CommonOpen,
            ProductOperation::OpenSession(id),
        ),
    ) + seq![
        plain(
            "session-rename",
            key,
            MessageId::SessionLibraryRenameAction,
            ProductOperation::BeginSessionRename(id),
        ),
    ] + seq![
        ui::selected_if(
            with_icon(
                "session-pin",
                key,
                Icon::Star,
                if metadata.pinned {
                    MessageId::SessionLibraryUnpinAction
                } else {
                    MessageId::SessionLibraryPinAction
                },
                ProductOperation::ToggleSessionPin(id),
            ),
            metadata.pinned,
        ),
    ] + seq![
        ui::disabled_if(
            plain(
                "session-read",
                key,
                if metadata.unread {
                    MessageId::SessionLibraryMarkReadAction
                } else {
                    MessageId::SessionLibraryMarkUnreadAction
                },
                ProductOperation::ToggleSessionRead(id),
            ),
            !metadata.unread && metadata.last_output_sequence == 0,
        ),
    ]
}

fn session_action_buttons(session: &SavedAppAttachedSession, metadata: &HostedSession) -> (r: Vec<
    ButtonView<ProductOperation>,
>)
    ensures
        r@ == action_buttons(*session, *metadata),
{
    let id: HostedSessionId = session.id;
    let key: u64 = session_key(id);
    let mut r: Vec<ButtonView<ProductOperation>> = Vec::new();
    lists::push_if(
        &mut r,
        session.route == SessionLaunchRoute::DurableHost,
        icon_button(
            "session-open",
            key,
            Icon::SquareTerminal,
            MessageId::CommonOpen,
            ProductOperation::OpenSession(id),
        ),
    );
    lists::push_one(
        &mut r,
        plain_button(
            "session-rename",
            key,
            MessageId::SessionLibraryRenameAction,
            ProductOperation::BeginSessionRename(id),
        ),
    );
    lists::push_one(
        &mut r,
        icon_button(
            "session-pin",
            key,
            Icon::Star,
            if metadata.pinned {
                MessageId::SessionLibraryUnpinAction
            } else {
                MessageId::SessionLibraryPinAction
            },
            ProductOperation::ToggleSessionPin(id),
        ).with_selected(metadata.pinned),
    );
    lists::push_one(
        &mut r,
        plain_button(
            "session-read",
            key,
            if metadata.unread {
                MessageId::SessionLibraryMarkReadAction
            } else {
                MessageId::SessionLibraryMarkUnreadAction
            },
            ProductOperation::ToggleSessionRead(id),
        ).with_disabled(!metadata.unread && metadata.last_output_sequence == 0),
    );
    r
}

/// The buttons that stop, resume, archive, restore and remove a session.
pub open spec fn lifecycle_buttons(
    session: SavedAppAttachedSession,
    metadata: HostedSession,
    offer: SessionResumeProjection,
) -> Seq<ButtonView<ProductOperation>> {
    let id = session.id;
    let key = ids::folded_key(id.value);
    Seq::empty() + lists::optional(
        metadata.can_stop,
        danger(
            "session-stop",
            key,
            None,
            MessageId::NewSessionStopAction,
            ProductOperation::StopSession(id),
        ),
    ) + lists::optional(
        offer.visible,
        ui::disabled_if(
            with_icon(
                "session-resume",
                key,
                Icon::Redo2,
                MessageId::SessionLibraryResumeAction,
                ProductOperation::ResumeSession(id),
            ),
            !offer.enabled,
        ),
    ) + lists::optional(
        metadata.archived_at is None,
        ui::disabled_if(
            plain(
                "session-archive",
                key,
                if metadata.can_stop {
                    MessageId::SessionLibraryStopArchiveAction
                } else {
                    MessageId::SessionLibraryArchiveAction
                },
                ProductOperation::ArchiveOrStopSession(id),
            ),
            !metadata.can_stop && !metadata.exited,
        ),
    ) + lists::optional(
        metadata.archived_at is Some,
        plain(
            "session-restore",
            key,
            MessageId::SessionLibraryRestoreAction,
            ProductOperation::RestoreSession(id),
        ),
    ) + lists::optional(
        metadata.archived_at is Some,
        ui::disabled_if(
            danger(
                "session-remove",
                key,
                Some(Icon::Delete),
                MessageId::SessionLibraryRemoveAction,
                ProductOperation::BeginSessionRemoval(id),
            ),
            !metadata.removable,
        ),
    )
}

fn session_lifecycle_buttons(
    session: &SavedAppAttachedSession,
    metadata: &HostedSession,
    offer: &SessionResumeProjection,
) -> (r: Vec<ButtonView<ProductOperation>>)
    ensures
        r@ == lifecycle_buttons(*session, *metadata, *offer),
{
    let id: HostedSessionId = session.id;
    let key: u64 = session_key(id);
    let archived: bool = metadata.archived_at.is_some();
    let mut r: Vec<ButtonView<ProductOperation>> = Vec::new();
    lists::push_if(
        &mut r,
        metadata.can_stop,
        danger_button(
            "session-stop",
            key,
            None,
            MessageId::NewSessionStopAction,
            ProductOperation::StopSession(id),
        ),
    );
    lists::push_if(
        &mut r,
        offer.visible,
        icon_button(
            "session-resume",
            key,
            Icon::Redo2,
            MessageId::SessionLibraryResumeAction,
            ProductOperation::ResumeSession(id),
        ).with_disabled(!offer.enabled),
    );
    lists::push_if(
        &mut r,
        !archived,
        plain_button(
            "session-archive",
            key,
            if metadata.can_stop {
                MessageId::SessionLibraryStopArchiveAction
            } else {
                MessageId::SessionLibraryArchiveAction
            },
            ProductOperation::ArchiveOrStopSession(id),
        ).with_disabled(!metadata.can_stop && !metadata.exited),
    );
    lists::push_if(
        &mut r,
        archived,
        plain_button(
            "session-restore",
            key,
            MessageId::SessionLibraryRestoreAction,
            ProductOperation::RestoreSession(id),
        ),
    );
    lists::push_if(
        &mut r,
        archived,
        danger_button(
            "session-remove",
            key,
            Some(Icon::Delete),
            MessageId::SessionLibraryRemoveAction,
            ProductOperation::BeginSessionRemoval(id),
        ).with_disabled(!metadata.removable),
    );
    r
}

/// The button that moves a session to a group.
pub open spec fn to_group_button(session: SavedAppAttachedSession, group: Group) -> ButtonView<
    ProductOperation,
> {
    ui::selected_if(
        ui::plain_button(
            "session-to-group",
            ids::folded_key(group.id.value) ^ ids::folded_key(session.id.value),
            Text::Filled(MessageId::GroupMoveToAction, Atom::Value(group.name)),
            None,
            Emphasis::Plain,
            ProductOperation::MoveSessionTo(session.id, GroupDestination::Group(group.id)),
        ),
        session.group_id == Some(group.id),
    )
}

/// The buttons that move a session: up, down, to the root, and to each group.
pub open spec fn placement_buttons(
    session: SavedAppAttachedSession,
    groups: Seq<Group>,
    index: int,
    count: int,
) -> Seq<ButtonView<ProductOperation>> {
    let id = session.id;
    let key = ids::folded_key(id.value);
    seq![
        ui::disabled_if(
            with_icon(
                "session-up",
                key,
                Icon::ChevronUp,
                MessageId::GroupMoveUpAction,
                ProductOperation::MoveSession(id, ProductMoveDirection::Up),
            ),
            index == 0,
        ),
        ui::disabled_if(
            with_icon(
                "session-down",
                key,
                Icon::ChevronDown,
                MessageId::GroupMoveDownAction,
                ProductOperation::MoveSession(id, ProductMoveDirection::Down),
            ),
            index + 1 == count,
        ),
        ui::selected_if(
            plain(
                "session-to-root",
                key,
                MessageId::GroupMoveToRootAction,
                ProductOperation::MoveSessionTo(id, GroupDestination::ProjectRoot),
            ),
            session.group_id is None,
        ),
    ] + Seq::new(groups.len(), |i: int| to_group_button(session, groups[i]))
}

fn session_placement_buttons(
    session: &SavedAppAttachedSession,
    groups: &Vec<Group>,
    index: usize,
    count: usize,
) -> (r: Vec<ButtonView<ProductOperation>>)
    requires
        index < usize::MAX,
    ensures
        r@ == placement_buttons(*session, groups@, index as int, count as int),
{
    let id: HostedSessionId = session.id;
    let key: u64 = session_key(id);
    let mut r: Vec<ButtonView<ProductOperation>> = Vec::new();
    r.push(
        icon_button(
            "session-up",
            key,
            Icon::ChevronUp,
            MessageId::GroupMoveUpAction,
            ProductOperation::MoveSession(id, ProductMoveDirection::Up),
        ).with_disabled(index == 0),
    );
    r.push(
        icon_button(
            "session-down",
            key,
            Icon::ChevronDown,
            MessageId::GroupMoveDownAction,
            ProductOperation::MoveSession(id, ProductMoveDirection::Down),
        ).with_disabled(index + 1 == count),
    );
    r.push(
        plain_button(
            "session-to-root",
            key,
            MessageId::GroupMoveToRootAction,
            ProductOperation::MoveSessionTo(id, GroupDestination::ProjectRoot),
        ).with_selected(session.group_id.is_none()),
    );
    let ghost target = placement_buttons(*session, groups@, index as int, count as int);
    assert(r@ =~= target.take(3));
    let mut i: usize = 0;
    while i < groups.len()
        invariant
            i <= groups@.len(),
            id == session.id,
            key == ids::folded_key(id.value),
            target == placement_buttons(*session, groups@, index as int, count as int),
            r@ == target.take(3 + i),
        decreases groups@.len() - i,
    {
        let group = &groups[i];
        r.push(
            ui::button(
                "session-to-group",
                group_key(group.id) ^ key,
                Text::Filled(MessageId::GroupMoveToAction, Atom::Value(group.name.clone())),
                None,
                Emphasis::Plain,
                ProductOperation::MoveSessionTo(id, GroupDestination::Group(group.id)),
            ).with_selected(session.group_id == Some(group.id)),
        );
        assert(r@ =~= target.take(3 + i + 1));
        i += 1;
    }
    assert(target.take(3 + groups@.len() as int) =~= target);
    r
}

/// The buttons of renaming.
pub open spec fn rename_buttons(key: u64) -> Seq<ButtonView<ProductOperation>> {
    seq![
        primary(
            "session-rename-save",
            key,
            MessageId::CommonSave,
            ProductOperation::SaveSessionRename,
        ),
        plain(
            "session-rename-cancel",
            key,
            MessageId::CommonCancel,
            ProductOperation::CancelSessionRename,
        ),
    ]
}

/// What the inspector shows of a selected session.
pub open spec fn shows_details(
    view: SessionDetailsView,
    console: ProductConsole,
    recovery: HostRecoveryState,
    session: SavedAppAttachedSession,
    metadata: HostedSession,
    index: int,
    count: int,
    verdicts: SessionVerdicts,
) -> bool {
    let durable = session.route == SessionLaunchRoute::DurableHost;
    let offer = session_resume::resume_offer(session, verdicts.resume);
    let recognition = runtimes::record_recognition(session);
    &&& view.rename@ == lists::optional_list(
        console.sessions.renaming == Some(session.id),
        rename_buttons(ids::folded_key(session.id.value)),
    )
    &&& view.facts@ == facts_of(
        console.saved.app_attached_sessions@,
        session,
        metadata,
        index,
        count,
    )
    &&& match view.runtime {
        Some(facts) => durable && shows_runtime(facts, runtimes::inspected(console.runtimes, recognition)),
        None => !durable,
    }
    &&& view.transcript == if durable {
        Some(transcript_of(verdicts))
    } else {
        None
    }
    &&& match view.recovery {
        Some(panel) => (verdicts.recovery_allowed || recovery_target(recovery, session.id))
            && shows_recovery(panel, recovery, session.id, verdicts),
        None => !verdicts.recovery_allowed && !recovery_target(recovery, session.id),
    }
    &&& view.actions@ == action_buttons(session, metadata)
    &&& view.lifecycle@ == lifecycle_buttons(session, metadata, offer)
    &&& view.resume_reason == match offer.reason {
        Some(error) => Some(session_resume::resume_message(error)),
        None => None,
    }
    &&& view.placement@ == placement_buttons(
        session,
        console.projects.groups_of(session.origin.project_id),
        index,
        count,
    )
}

/// What a session's row shows.
pub open spec fn shows_row(
    view: SessionRowView,
    console: ProductConsole,
    recovery: HostRecoveryState,
    session: SavedAppAttachedSession,
    metadata: HostedSession,
    index: int,
    count: int,
    verdicts: SessionVerdicts,
) -> bool {
    let key = ids::folded_key(session.id.value);
    let selected = console.sidebar.selected_session == Some(session.id);
    &&& view.key == key
    &&& view.selected == selected
    &&& view.tone == session_labels::state_tone(session.state)
    &&& view.title == metadata.title
    &&& view.captions@ == captions_of(session, metadata)
    &&& view.inspect == ui::selected_if(
        plain(
            "session-move",
            key,
            MessageId::SessionLibraryInspectorTitle,
            ProductOperation::SelectSession(session.id),
        ),
        selected,
    )
    &&& match view.details {
        Some(details) => selected && shows_details(
            details,
            console,
            recovery,
            session,
            metadata,
            index,
            count,
            verdicts,
        ),
        None => !selected,
    }
}

fn session_details(
    console: &ProductConsole,
    recovery: &HostRecoveryState,
    session: &SavedAppAttachedSession,
    metadata: &HostedSession,
    index: usize,
    count: usize,
    verdicts: &SessionVerdicts,
) -> (r: SessionDetailsView)
    requires
        index < usize::MAX,
    ensures
        shows_details(
            r,
            *console,
            *recovery,
            *session,
            *metadata,
            index as int,
            count as int,
            *verdicts,
        ),
{
    let id: HostedSessionId = session.id;
    let key: u64 = session_key(id);
    let durable: bool = session.route == SessionLaunchRoute::DurableHost;
    let mut rename: Vec<ButtonView<ProductOperation>> = Vec::new();
    if console.sessions.renaming == Some(id) {
        rename.push(
            primary_button(
                "session-rename-save",
                key,
                MessageId::CommonSave,
                ProductOperation::SaveSessionRename,
            ),
        );
        rename.push(
            plain_button(
                "session-rename-cancel",
                key,
                MessageId::CommonCancel,
                ProductOperation::CancelSessionRename,
            ),
        );
    }
    assert(rename@ =~= lists::optional_list(
        console.sessions.renaming == Some(session.id),
        rename_buttons(key),
    ));
    let runtime: Option<RuntimeFacts> = if durable {
        let recognition: Option<RuntimeRecognition> = match &session.durable_host {
            Some(host) => match &host.runtime_recognition {
                Some(seen) => Some(seen.duplicate()),
                None => None,
            },
            None => None,
        };
        Some(runtime_facts(&console.runtimes, &recognition))
    } else {
        None
    };
    let transcript: Option<TranscriptView> = if durable {
        let reason: MessageId = match verdicts.transcript_reason {
            Some(reason) => reason,
            None => MessageId::TranscriptExportUnavailableContract,
        };
        Some(
            TranscriptView {
                label: MessageId::TranscriptExportAction,
                disabled: !verdicts.transcript_available,
                tooltip: reason,
                warning: if verdicts.transcript_available {
                    None
                } else {
                    Some(reason)
                },
            },
        )
    } else {
        None
    };
    let planned: bool = match recovery.plan {
        Some(plan) => plan.session_id == id,
        None => false,
    };
    let panel: Option<HostRecoveryView> = if verdicts.recovery_allowed || planned
        || recovery.operation == Some(id) {
        Some(host_recovery_panel(recovery, id, verdicts))
    } else {
        None
    };
    let offer: SessionResumeProjection = evaluated_resume_projection(session, verdicts.resume);
    let groups: Vec<Group> = console.projects.project_groups(session.origin.project_id);
    SessionDetailsView {
        rename,
        facts: session_facts(&console.saved, session, metadata, index, count),
        runtime,
        transcript,
        recovery: panel,
        actions: session_action_buttons(session, metadata),
        lifecycle: session_lifecycle_buttons(session, metadata, &offer),
        resume_reason: match offer.reason {
            Some(error) => Some(resume_error_message(error)),
            None => None,
        },
        placement: session_placement_buttons(session, &groups, index, count),
    }
}

/// The row of a session at a place of its list; a session that the library does
/// not know has none.
pub fn session_row_view(
    console: &ProductConsole,
    recovery: &HostRecoveryState,
    session: &SavedAppAttachedSession,
    index: usize,
    count: usize,
    verdicts: &SessionVerdicts,
) -> (r: Option<SessionRowView>)
    requires
        index < usize::MAX,
    ensures
        match console.sessions.found(session.id) {
            None => r is None,
            Some(metadata) => r matches Some(view) && shows_row(
                view,
                *console,
                *recovery,
                *session,
                metadata,
                index as int,
                count as int,
                *verdicts,
            ),
        },
{
    let id: HostedSessionId = session.id;
    match console.sessions.session(id) {
        None => None,
        Some(metadata) => {
            let key: u64 = session_key(id);
            let selected: bool = console.sidebar.selected_session == Some(id);
            let details: Option<SessionDetailsView> = if selected {
                Some(session_details(console, recovery, session, metadata, index, count, verdicts))
            } else {
                None
            };
            Some(
                SessionRowView {
                    key,
                    selected,
                    tone: session_state_color(session.state),
                    title: metadata.title.clone(),
                    captions: session_captions(session, metadata),
                    inspect: plain_button(
                        "session-move",
                        key,
                        MessageId::SessionLibraryInspectorTitle,
                        ProductOperation::SelectSession(id),
                    ).with_selected(selected),
                    details,
                },
            )
        },
    }
}

/// A session's place in its list, for drawing its row.
#[derive(Clone, Copy, Debug, PartialEq, Eq, Structural)]
pub struct RowPlace {
    pub id: HostedSessionId,
    pub index: usize,
    pub count: usize,
}

#[derive(Debug)]
pub struct SessionGroupView {
    pub key: u64,
    pub disclosure: Option<ButtonView<ProductOperation>>,
    pub label: Text,
    pub session_count: Text,
    pub running: Text,
    pub order: Vec<ButtonView<ProductOperation>>,
    pub rows: Vec<RowPlace>,
}

pub open spec fn is_running() -> spec_fn(SavedAppAttachedSession) -> bool {
    |session: SavedAppAttachedSession|
        session.state == HostedSessionState::RunningAppAttached || session.state
            == HostedSessionState::Live || session.state == HostedSessionState::RecordingPaused
}

/// The places of all sessions of a list.
pub open spec fn places(list: Seq<SavedAppAttachedSession>) -> Seq<RowPlace> {
    Seq::new(
        list.len(),
        |i: int| RowPlace { id: list[i].id, index: i as usize, count: list.len() as usize },
    )
}

/// The buttons of a group's header: up, down, rename, remove.
pub open spec fn group_buttons(
    project_id: ProjectId,
    id: GroupId,
    index: int,
    count: int,
) -> Seq<ButtonView<ProductOperation>> {
    let key = ids::folded_key(id.value);
    seq![
        ui::disabled_if(
            with_icon(
                "group-up",
                key,
                Icon::ChevronUp,
                MessageId::GroupMoveUpAction,
                ProductOperation::MoveGroup(id, ProductMoveDirection::Up),
            ),
            index == 0,
        ),
        ui::disabled_if(
            with_icon(
                "group-down",
                key,
                Icon::ChevronDown,
                MessageId::GroupMoveDownAction,
                ProductOperation::MoveGroup(id, ProductMoveDirection::Down),
            ),
            index + 1 == count,
        ),
        plain(
            "group-rename",
            key,
            MessageId::GroupRenameAction,
            ProductOperation::OpenGroupEditor(project_id, Some(id)),
        ),
        danger(
            "group-remove",
            key,
            Some(Icon::Delete),
            MessageId::GroupRemoveAction,
            ProductOperation::BeginGroupRemoval(id),
        ),
    ]
}

pub open spec fn disclosure_button(id: GroupId, collapsed: bool) -> ButtonView<ProductOperation> {
    with_icon(
        "group-disclosure",
        ids::folded_key(id.value),
        if collapsed {
            Icon::ChevronRight
        } else {
            Icon::ChevronDown
        },
        if collapsed {
            MessageId::GroupExpandAction
        } else {
            MessageId::GroupCollapseAction
        },
        ProductOperation::SetGroupCollapsed(id, !collapsed),
    )
}

/// What is common to a group and to the sessions in no group: how many sessions
/// are listed, how many of them run, and their places unless collapsed.
pub open spec fn shows_list(
    view: SessionGroupView,
    list: Seq<SavedAppAttachedSession>,
    collapsed: bool,
) -> bool {
    &&& view.session_count == Text::Filled(
        MessageId::GroupSessionCount,
        Atom::Number(list.len() as u64),
    )
    &&& view.running == Text::Filled(
        MessageId::GroupRunningSummary,
        Atom::Number(lists::kept(list, is_running()).len() as u64),
    )
    &&& view.rows@ == lists::optional_list(!collapsed, places(list))
}

/// The sessions of a project that are in no group.
pub open spec fn shows_ungrouped(
    view: SessionGroupView,
    console: ProductConsole,
    project_id: ProjectId,
) -> bool {
    &&& view.key == 0
    &&& view.disclosure is None
    &&& view.label == Text::Message(MessageId::GroupUngroupedLabel)
    &&& view.order@ == Seq::<ButtonView<ProductOperation>>::empty()
    &&& shows_list(view, console.listed(project_id, None), false)
}

/// A group at its place among the groups of its project.
pub open spec fn shows_group(
    view: SessionGroupView,
    console: ProductConsole,
    project_id: ProjectId,
    group: Group,
    index: int,
    count: int,
) -> bool {
    &&& view.key == ids::folded_key(group.id.value)
    &&& view.disclosure == Some(disclosure_button(group.id, group.collapsed))
    &&& view.label == Text::Value(group.name)
    &&& view.order@ == group_buttons(project_id, group.id, index, count)
    &&& shows_list(view, console.listed(project_id, Some(group.id)), group.collapsed)
}

fn count_running(list: &Vec<SavedAppAttachedSession>) -> (r: usize)
    ensures
        r == lists::kept(list@, is_running()).len(),
{
    let mut count: usize = 0;
    let mut i: usize = 0;
    assert(list@.take(0) =~= Seq::empty());
    while i < list.len()
        invariant
            count <= i <= list@.len(),
            count == lists::kept(list@.take(i as int), is_running()).len(),
        decreases list@.len() - i,
    {
        proof {
            lists::lemma_kept_step(list@, is_running(), i as int);
        }
        let runs: bool = match list[i].state {
            HostedSessionState::RunningAppAttached | HostedSessionState::Live
            | HostedSessionState::RecordingPaused => true,
            _ => false,
        };
        if runs {
            count += 1;
        }
        i += 1;
    }
    assert(list@.take(list@.len() as int) =~= list@);
    count
}

fn list_places(list: &Vec<SavedAppAttachedSession>, collapsed: bool) -> (r: Vec<RowPlace>)
    ensures
        r@ == lists::optional_list(!collapsed, places(list@)),
{
    let mut r: Vec<RowPlace> = Vec::new();
    if !collapsed {
        let mut i: usize = 0;
        while i < list.len()
            invariant
                i <= list@.len(),
                r@ =~= places(list@).take(i as int),
            decreases list@.len() - i,
        {
            r.push(RowPlace { id: list[i].id, index: i, count: list.len() });
            i += 1;
        }
        assert(r@ =~= places(list@));
    }
    r
}

/// The view of a project's sessions that are in no group.
pub fn ungrouped_view(console: &ProductConsole, project_id: ProjectId) -> (r: SessionGroupView)
    ensures
        shows_ungrouped(r, *console, project_id),
{
    let list: Vec<SavedAppAttachedSession> = sessions_in_destination(
        &console.sessions,
        &console.saved,
        project_id,
        None,
    );
    SessionGroupView {
        key: 0,
        disclosure: None,
        label: Text::Message(MessageId::GroupUngroupedLabel),
        session_count: Text::Filled(MessageId::GroupSessionCount, Atom::Number(list.len() as u64)),
        running: Text::Filled(
            MessageId::GroupRunningSummary,
            Atom::Number(count_running(&list) as u64),
        ),
        order: Vec::new(),
        rows: list_places(&list, false),
    }
}

/// The view of a group at its place among the groups of its project.
pub fn session_group_view(
    console: &ProductConsole,
    project_id: ProjectId,
    group: &Group,
    index: usize,
    count: usize,
) -> (r: SessionGroupView)
    requires
        index < usize::MAX,
    ensures
        shows_group(r, *console, project_id, *group, index as int, count as int),
{
    let id: GroupId = group.id;
    let key: u64 = group_key(id);
    let list: Vec<SavedAppAttachedSession> = sessions_in_destination(
        &console.sessions,
        &console.saved,
        project_id,
        Some(id),
    );
    let mut order: Vec<ButtonView<ProductOperation>> = Vec::new();
    order.push(
        icon_button(
            "group-up",
            key,
            Icon::ChevronUp,
            MessageId::GroupMoveUpAction,
            ProductOperation::MoveGroup(id, ProductMoveDirection::Up),
        ).with_disabled(index == 0),
    );
    order.push(
        icon_button(
            "group-down",
            key,
            Icon::ChevronDown,
            MessageId::GroupMoveDownAction,
            ProductOperation::MoveGroup(id, ProductMoveDirection::Down),
        ).with_disabled(index + 1 == count),
    );
    order.push(
        plain_button(
            "group-rename",
            key,
            MessageId::GroupRenameAction,
            ProductOperation::OpenGroupEditor(project_id, Some(id)),
        ),
    );
    order.push(
        danger_button(
            "group-remove",
            key,
            Some(Icon::Delete),
            MessageId::GroupRemoveAction,
            ProductOperation::BeginGroupRemoval(id),
        ),
    );
    assert(order@ =~= group_buttons(project_id, id, index as int, count as int));
    SessionGroupView {
        key,
        disclosure: Some(
            icon_button(
                "group-disclosure",
                key,
                if group.collapsed {
                    Icon::ChevronRight
                } else {
                    Icon::ChevronDown
                },
                if group.collapsed {
                    MessageId::GroupExpandAction
                } else {
                    MessageId::GroupCollapseAction
                },
                ProductOperation::SetGroupCollapsed(id, !group.collapsed),
            ),
        ),
        label: Text::Value(group.name.clone()),
        session_count: Text::Filled(MessageId::GroupSessionCount, Atom::Number(list.len() as u64)),
        running: Text::Filled(
            MessageId::GroupRunningSummary,
            Atom::Number(count_running(&list) as u64),
        ),
        order,
        rows: list_places(&list, group.collapsed),
    }
}

/// The views and filters of the session library.
pub open spec fn library_buttons(library: SessionLibraryState) -> Seq<
    ButtonView<ProductOperation>,
> {
    seq![
        ui::selected_if(
            plain(
                "session-view-active",
                0,
                MessageId::SessionLibraryActiveView,
                ProductOperation::ShowView(SessionLibraryView::Active),
            ),
            library.view == SessionLibraryView::Active,
        ),
        ui::selected_if(
            plain(
                "session-view-archive",
                0,
                MessageId::SessionLibraryArchiveView,
                ProductOperation::ShowView(SessionLibraryView::Archive),
            ),
            library.view == SessionLibraryView::Archive,
        ),
        ui::selected_if(
            plain(
                "session-filter-all",
                0,
                MessageId::SessionLibraryFilterAll,
                ProductOperation::ShowFilter(SessionLibraryFilter::All),
            ),
            library.filter == SessionLibraryFilter::All,
        ),
        ui::selected_if(
            plain(
                "session-filter-unread",
                0,
                MessageId::SessionLibraryFilterUnread,
                ProductOperation::ShowFilter(SessionLibraryFilter::Unread),
            ),
            library.filter == SessionLibraryFilter::Unread,
        ),
        ui::selected_if(
            plain(
                "session-filter-pinned",
                0,
                MessageId::SessionLibraryFilterPinned,
                ProductOperation::ShowFilter(SessionLibraryFilter::Pinned),
            ),
            library.filter == SessionLibraryFilter::Pinned,
        ),
    ]
}

pub fn session_library_controls(library: &SessionLibraryState) -> (r: Vec<
    ButtonView<ProductOperation>,
>)
    ensures
        r@ == library_buttons(*library),
{
    let mut r: Vec<ButtonView<ProductOperation>> = Vec::new();
    r.push(
        plain_button(
            "session-view-active",
            0,
            MessageId::SessionLibraryActiveView,
            ProductOperation::ShowView(SessionLibraryView::Active),
        ).with_selected(library.view == SessionLibraryView::Active),
    );
    r.push(
        plain_button(
            "session-view-archive",
            0,
            MessageId::SessionLibraryArchiveView,
            ProductOperation::ShowView(SessionLibraryView::Archive),
        ).with_selected(library.view == SessionLibraryView::Archive),
    );
    r.push(
        plain_button(
            "session-filter-all",
            0,
            MessageId::SessionLibraryFilterAll,
            ProductOperation::ShowFilter(SessionLibraryFilter::All),
        ).with_selected(library.filter == SessionLibraryFilter::All),
    );
    r.push(
        plain_button(
            "session-filter-unread",
            0,
            MessageId::SessionLibraryFilterUnread,
            ProductOperation::ShowFilter(SessionLibraryFilter::Unread),
        ).with_selected(library.filter == SessionLibraryFilter::Unread),
    );
    r.push(
        plain_button(
            "session-filter-pinned",
            0,
            MessageId::SessionLibraryFilterPinned,
            ProductOperation::ShowFilter(SessionLibraryFilter::Pinned),
        ).with_selected(library.filter == SessionLibraryFilter::Pinned),
    );
    assert(r@ =~= library_buttons(*library));
    r
}

/// A question with its answers.
#[derive(Debug)]
pub struct ReviewView {
    pub title: Option<MessageId>,
    pub description: Text,
    pub facts: Vec<Fact>,
    /// Whether the title of the session is to be typed.
    pub confirmation_field: bool,
    pub buttons: Vec<ButtonView<ProductOperation>>,
}

pub open spec fn stop_archive_buttons() -> Seq<ButtonView<ProductOperation>> {
    seq![
        danger(
            "session-stop-archive-confirm",
            0,
            None,
            MessageId::SessionLibraryStopArchiveAction,
            ProductOperation::ConfirmStopAndArchive,
        ),
        plain(
            "session-stop-archive-cancel",
            0,
            MessageId::CommonCancel,
            ProductOperation::CancelStopAndArchive,
        ),
    ]
}

pub open spec fn shows_stop_archive(view: ReviewView) -> bool {
    &&& view.title is None
    &&& view.description == Text::Message(MessageId::SessionLibraryStopArchiveWarning)
    &&& view.facts@ == Seq::<Fact>::empty()
    &&& !view.confirmation_field
    &&& view.buttons@ == stop_archive_buttons()
}

pub fn stop_archive_review() -> (r: ReviewView)
    ensures
        shows_stop_archive(r),
{
    let mut buttons: Vec<ButtonView<ProductOperation>> = Vec::new();
    buttons.push(
        danger_button(
            "session-stop-archive-confirm",
            0,
            None,
            MessageId::SessionLibraryStopArchiveAction,
            ProductOperation::ConfirmStopAndArchive,
        ),
    );
    buttons.push(
        plain_button(
            "session-stop-archive-cancel",
            0,
            MessageId::CommonCancel,
            ProductOperation::CancelStopAndArchive,
        ),
    );
    assert(buttons@ =~= stop_archive_buttons());
    ReviewView {
        title: None,
        description: Text::Message(MessageId::SessionLibraryStopArchiveWarning),
        facts: Vec::new(),
        confirmation_field: false,
        buttons,
    }
}

/// The group editor.
#[derive(Debug)]
pub struct GroupEditorView {
    pub title: MessageId,
    pub save: ButtonView<ProductOperation>,
    pub cancel: ButtonView<ProductOperation>,
}

pub open spec fn editor_of(editor: GroupEditor) -> GroupEditorView {
    GroupEditorView {
        title: if editor.group_id is Some {
            MessageId::GroupEditorEditTitle
        } else {
            MessageId::GroupEditorNewTitle
        },
        save: primary("group-save", 0, MessageId::CommonSave, ProductOperation::SaveGroupEditor),
        cancel: plain(
            "group-cancel",
            0,
            MessageId::CommonCancel,
            ProductOperation::CancelGroupEditor,
        ),
    }
}

pub fn group_editor_view(editor: &GroupEditor) -> (r: GroupEditorView)
    ensures
        r == editor_of(*editor),
{
    GroupEditorView {
        title: if editor.group_id.is_some() {
            MessageId::GroupEditorEditTitle
        } else {
            MessageId::GroupEditorNewTitle
        },
        save: primary_button(
            "group-save",
            0,
            MessageId::CommonSave,
            ProductOperation::SaveGroupEditor,
        ),
        cancel: plain_button(
            "group-cancel",
            0,
            MessageId::CommonCancel,
            ProductOperation::CancelGroupEditor,
        ),
    }
}

/// The buttons that remove a group and move its sessions to another one.
pub open spec fn remove_to_buttons(groups: Seq<Group>, removed: GroupId) -> Seq<
    ButtonView<ProductOperation>,
>
    decreases groups.len(),
{
    if groups.len() == 0 {
        Seq::empty()
    } else {
        let group = groups.last();
        remove_to_buttons(groups.drop_last(), removed) + lists::optional(
            group.id != removed,
            ui::plain_button(
                "group-remove-to",
                ids::folded_key(group.id.value),
                Text::Filled(MessageId::GroupMoveToAction, Atom::Value(group.name)),
                None,
                Emphasis::Plain,
                ProductOperation::RemoveGroupTo(removed, GroupDestination::Group(group.id)),
            ),
        )
    }
}

fn group_remove_to_buttons(groups: &Vec<Group>, removed: GroupId) -> (r: Vec<
    ButtonView<ProductOperation>,
>)
    ensures
        r@ == remove_to_buttons(groups@, removed),
{
    let mut r: Vec<ButtonView<ProductOperation>> = Vec::new();
    let mut i: usize = 0;
    assert(groups@.take(0) =~= Seq::empty());
    while i < groups.len()
        invariant
            i <= groups@.len(),
            r@ == remove_to_buttons(groups@.take(i as int), removed),
        decreases groups@.len() - i,
    {
        assert(groups@.take(i + 1).drop_last() =~= groups@.take(i as int));
        let group = &groups[i];
        lists::push_if(
            &mut r,
            group.id != removed,
            ui::button(
                "group-remove-to",
                group_key(group.id),
                Text::Filled(MessageId::GroupMoveToAction, Atom::Value(group.name.clone())),
                None,
                Emphasis::Plain,
                ProductOperation::RemoveGroupTo(removed, GroupDestination::Group(group.id)),
            ),
        );
        i += 1;
    }
    assert(groups@.take(groups@.len() as int) =~= groups@);
    r
}

/// The question where the sessions of a removed group go.
pub open spec fn shows_group_removal(view: ReviewView, console: ProductConsole, group: Group) -> bool {
    &&& view.title == Some(MessageId::GroupRemoveTitle)
    &&& view.description == Text::FilledTwo(
        MessageId::GroupRemoveDescription,
        Atom::Value(group.name),
        Atom::Number(
            lists::kept(
                console.saved.app_attached_sessions@,
                saved_state::of_group(group.id),
            ).len() as u64,
        ),
    )
    &&& view.facts@ == Seq::<Fact>::empty()
    &&& !view.confirmation_field
    &&& view.buttons@ == Seq::empty() + seq![
        plain(
            "group-remove-to-root",
            0,
            MessageId::GroupMoveToRootAction,
            ProductOperation::RemoveGroupTo(group.id, GroupDestination::ProjectRoot),
        ),
    ] + remove_to_buttons(console.projects.groups_of(group.project_id), group.id) + seq![
        plain(
            "group-remove-cancel",
            0,
            MessageId::CommonCancel,
            ProductOperation::CancelGroupRemoval,
        ),
    ]
}

/// The question where the sessions of a removed group go; nothing where the
/// group is gone.
pub fn group_removal_view(console: &ProductConsole, id: GroupId) -> (r: Option<ReviewView>)
    ensures
        match console.projects.found_group(id) {
            None => r is None,
            Some(group) => r matches Some(view) && shows_group_removal(view, *console, group),
        },
{
    match console.projects.group(id) {
        None => None,
        Some(group) => {
            let groups: Vec<Group> = console.projects.project_groups(group.project_id);
            let mut buttons: Vec<ButtonView<ProductOperation>> = Vec::new();
            lists::push_one(
                &mut buttons,
                plain_button(
                    "group-remove-to-root",
                    0,
                    MessageId::GroupMoveToRootAction,
                    ProductOperation::RemoveGroupTo(group.id, GroupDestination::ProjectRoot),
                ),
            );
            lists::push_all(&mut buttons, group_remove_to_buttons(&groups, group.id));
            lists::push_one(
                &mut buttons,
                plain_button(
                    "group-remove-cancel",
                    0,
                    MessageId::CommonCancel,
                    ProductOperation::CancelGroupRemoval,
                ),
            );
            Some(
                ReviewView {
                    title: Some(MessageId::GroupRemoveTitle),
                    description: Text::FilledTwo(
                        MessageId::GroupRemoveDescription,
                        Atom::Value(group.name.clone()),
                        Atom::Number(console.saved.group_session_count(group.id) as u64),
                    ),
                    facts: Vec::new(),
                    confirmation_field: false,
                    buttons,
                },
            )
        },
    }
}

pub open spec fn manifest_facts(manifest: RemovalManifest) -> Seq<Fact> {
    seq![
        Fact {
            label: MessageId::SessionLibraryRemoveMetadata,
            value: Text::Number(manifest.metadata_bytes),
        },
        Fact {
            label: MessageId::SessionLibraryRemoveJournal,
            value: Text::Number(manifest.journal_bytes),
        },
        Fact {
            label: MessageId::SessionLibraryRemoveTranscript,
            value: Text::Number(manifest.transcript_bytes),
        },
        Fact {
            label: MessageId::SessionLibraryRemoveArtifacts,
            value: Text::Number(manifest.artifact_bytes),
        },
        Fact {
            label: MessageId::SessionLibraryRemoveFiles,
            value: Text::Number(manifest.file_count),
        },
    ]
}

pub open spec fn removal_buttons(blocked: bool) -> Seq<ButtonView<ProductOperation>> {
    seq![
        ui::disabled_if(
            danger(
                "session-remove-confirm",
                0,
                Some(Icon::Delete),
                MessageId::SessionLibraryConfirmRemoveAction,
                ProductOperation::ConfirmSessionRemoval,
            ),
            blocked,
        ),
        plain(
            "session-remove-cancel",
            0,
            MessageId::CommonCancel,
            ProductOperation::CancelSessionRemoval,
        ),
    ]
}

/// What would be removed with a session, and the question whether to.
pub open spec fn shows_session_removal(
    view: ReviewView,
    plan: SessionRemovalPlan,
    confirmation: Seq<char>,
) -> bool {
    let manifest = plan.manifest;
    &&& view.title == Some(MessageId::SessionLibraryRemoveTitle)
    &&& view.description == Text::Message(MessageId::SessionLibraryRemoveWarning)
    &&& view.facts@ == manifest_facts(manifest)
    &&& view.confirmation_field == manifest.requires_title_confirmation
    &&& view.buttons@ == removal_buttons(
        manifest.requires_title_confirmation && confirmation != plan.title@,
    )
}

pub fn session_removal_view(plan: &SessionRemovalPlan, confirmation: &str) -> (r: ReviewView)
    ensures
        shows_session_removal(r, *plan, confirmation@),
{
    let matching: bool = !plan.manifest.requires_title_confirmation || text::same_text(
        confirmation,
        plan.title.as_str(),
    );
    let mut facts: Vec<Fact> = Vec::new();
    facts.push(
        Fact {
            label: MessageId::SessionLibraryRemoveMetadata,
            value: Text::Number(plan.manifest.metadata_bytes),
        },
    );
    facts.push(
        Fact {
            label: MessageId::SessionLibraryRemoveJournal,
            value: Text::Number(plan.manifest.journal_bytes),
        },
    );
    facts.push(
        Fact {
            label: MessageId::SessionLibraryRemoveTranscript,
            value: Text::Number(plan.manifest.transcript_bytes),
        },
    );
    facts.push(
        Fact {
            label: MessageId::SessionLibraryRemoveArtifacts,
            value: Text::Number(plan.manifest.artifact_bytes),
        },
    );
    facts.push(
        Fact {
            label: MessageId::SessionLibraryRemoveFiles,
            value: Text::Number(plan.manifest.file_count),
        },
    );
    let mut buttons: Vec<ButtonView<ProductOperation>> = Vec::new();
    buttons.push(
        danger_button(
            "session-remove-confirm",
            0,
            Some(Icon::Delete),
            MessageId::SessionLibraryConfirmRemoveAction,
            ProductOperation::ConfirmSessionRemoval,
        ).with_disabled(!matching),
    );
    buttons.push(
        plain_button(
            "session-remove-cancel",
            0,
            MessageId::CommonCancel,
            ProductOperation::CancelSessionRemoval,
        ),
    );
    assert(facts@ =~= manifest_facts(plan.manifest));
    assert(buttons@ =~= removal_buttons(!matching));
    ReviewView {
        title: Some(MessageId::SessionLibraryRemoveTitle),
        description: Text::Message(MessageId::SessionLibraryRemoveWarning),
        facts,
        confirmation_field: plan.manifest.requires_title_confirmation,
        buttons,
    }
}

/// The removal can be confirmed on screen exactly where the library would let
/// it through.
pub proof fn law_removal_button_agrees_with_the_library(
    view: ReviewView,
    library: SessionLibraryState,
    confirmation: Seq<char>,
)
    requires
        library.has_repository,
        library.pending_removal is Some,
        shows_session_removal(view, library.pending_removal->0, confirmation),
    ensures
        !view.buttons@[0].disabled <==> library.removal_check(confirmation) is Ok,
{
}

/// What is shown where a list is empty.
pub open spec fn empty_text(library: SessionLibraryState) -> MessageId {
    if library.filter != SessionLibraryFilter::All {
        MessageId::SessionLibraryFilterEmpty
    } else if library.view == SessionLibraryView::Archive {
        MessageId::SessionLibraryArchiveEmpty
    } else {
        MessageId::SessionSidebarEmpty
    }
}

fn empty_message(library: &SessionLibraryState) -> (r: MessageId)
    ensures
        r == empty_text(*library),
{
    if library.filter != SessionLibraryFilter::All {
        MessageId::SessionLibraryFilterEmpty
    } else if library.view == SessionLibraryView::Archive {
        MessageId::SessionLibraryArchiveEmpty
    } else {
        MessageId::SessionSidebarEmpty
    }
}

/// The parts that the sidebar and the library have in common: the controls, what
/// is wrong with the store, and the open questions about sessions.
#[derive(Debug)]
pub struct LibraryFrame {
    pub controls: Vec<ButtonView<ProductOperation>>,
    pub recovery: Option<MessageId>,
    pub stop_archive: Option<ReviewView>,
    pub undo: Option<ButtonView<ProductOperation>>,
    pub session_removal: Option<ReviewView>,
}

pub open spec fn shows_frame(
    frame: LibraryFrame,
    console: ProductConsole,
    undo_id: &'static str,
) -> bool {
    &&& frame.controls@ == library_buttons(console.sessions)
    &&& frame.recovery == match console.sessions.recovery() {
        Some(recovery) => Some(session_labels::recovery_text(recovery)),
        None => None,
    }
    &&& match frame.stop_archive {
        Some(review) => console.sessions.pending_stop_archive_review is Some
            && shows_stop_archive(review),
        None => console.sessions.pending_stop_archive_review is None,
    }
    &&& frame.undo == if console.sidebar.pending_undo is Some {
        Some(
            with_icon(
                undo_id,
                0,
                Icon::Undo2,
                MessageId::GroupUndoAction,
                ProductOperation::UndoOrganization,
            ),
        )
    } else {
        None
    }
    &&& match frame.session_removal {
        Some(review) => console.sessions.pending_removal is Some && shows_session_removal(
            review,
            console.sessions.pending_removal->0,
            console.inputs.removal_confirmation@,
        ),
        None => console.sessions.pending_removal is None,
    }
}

fn library_frame(console: &ProductConsole, undo_id: &'static str) -> (r: LibraryFrame)
    ensures
        shows_frame(r, *console, undo_id),
{
    LibraryFrame {
        controls: session_library_controls(&console.sessions),
        recovery: match console.sessions.recovery_state() {
            Some(recovery) => Some(session_recovery_label(recovery)),
            None => None,
        },
        stop_archive: if console.sessions.pending_stop_archive_review.is_some() {
            Some(stop_archive_review())
        } else {
            None
        },
        undo: if console.sidebar.pending_undo.is_some() {
            Some(
                icon_button(
                    undo_id,
                    0,
                    Icon::Undo2,
                    MessageId::GroupUndoAction,
                    ProductOperation::UndoOrganization,
                ),
            )
        } else {
            None
        },
        session_removal: match &console.sessions.pending_removal {
            Some(plan) => Some(
                session_removal_view(plan, console.inputs.removal_confirmation.as_str()),
            ),
            None => None,
        },
    }
}

/// The library of all sessions.
#[derive(Debug)]
pub struct GlobalLibraryView {
    pub frame: LibraryFrame,
    pub rows: Vec<RowPlace>,
    pub empty: Option<MessageId>,
}

/// The place of a session in the list that it belongs to.
pub open spec fn own_place(console: ProductConsole, session: SavedAppAttachedSession) -> RowPlace {
    let list = console.listed(session.origin.project_id, session.group_id);
    let index = lists::first_index(list, saved_state::is_record(session.id));
    RowPlace {
        id: session.id,
        index: if index < list.len() {
            index as usize
        } else {
            0
        },
        count: if list.len() == 0 {
            1
        } else {
            list.len() as usize
        },
    }
}

/// The records of all visible sessions.
pub open spec fn library_records(console: ProductConsole) -> Seq<SavedAppAttachedSession> {
    session_sidebar::records_of(
        console.sessions.visible_all(),
        console.saved.app_attached_sessions@,
    )
}

fn place_of(console: &ProductConsole, session: &SavedAppAttachedSession) -> (r: RowPlace)
    ensures
        r == own_place(*console, *session),
        r.index < r.count,
{
    let list: Vec<SavedAppAttachedSession> = sessions_in_destination(
        &console.sessions,
        &console.saved,
        session.origin.project_id,
        session.group_id,
    );
    let index: usize = listed_index(&list, session.id);
    RowPlace {
        id: session.id,
        index: if index < list.len() {
            index
        } else {
            0
        },
        count: if list.len() == 0 {
            1
        } else {
            list.len()
        },
    }
}

pub fn global_session_library(console: &ProductConsole) -> (r: GlobalLibraryView)
    ensures
        shows_frame(r.frame, *console, "global-session-undo"),
        r.rows@ == library_records(*console).map_values(
            |session: SavedAppAttachedSession| own_place(*console, session),
        ),
        r.empty == if library_records(*console).len() == 0 {
            Some(empty_text(console.sessions))
        } else {
            None
        },
{
    let sessions: Vec<HostedSession> = console.sessions.visible_sessions_all();
    let records: Vec<SavedAppAttachedSession> = saved_records_of(&sessions, &console.saved);
    let ghost place = |session: SavedAppAttachedSession| own_place(*console, session);
    let mut rows: Vec<RowPlace> = Vec::new();
    let mut i: usize = 0;
    while i < records.len()
        invariant
            i <= records@.len(),
            place == (|session: SavedAppAttachedSession| own_place(*console, session)),
            rows@ =~= records@.map_values(place).take(i as int),
        decreases records@.len() - i,
    {
        rows.push(place_of(console, &records[i]));
        i += 1;
    }
    assert(rows@ =~= records@.map_values(place));
    GlobalLibraryView {
        frame: library_frame(console, "global-session-undo"),
        empty: if rows.len() == 0 {
            Some(empty_message(&console.sessions))
        } else {
            None
        },
        rows,
    }
}

/// The sessions of one project.
#[derive(Debug)]
pub struct SessionSidebarView {
    pub title: MessageId,
    pub subtitle: MessageId,
    pub new_group: ButtonView<ProductOperation>,
    pub frame: LibraryFrame,
    pub editor: Option<GroupEditorView>,
    pub group_removal: Option<ReviewView>,
    pub ungrouped: SessionGroupView,
    pub groups: Vec<SessionGroupView>,
    pub empty: Option<MessageId>,
}

/// Whether a project lists no session at all.
pub open spec fn lists_nothing(console: ProductConsole, project_id: ProjectId) -> bool {
    let groups = console.projects.groups_of(project_id);
    &&& console.listed(project_id, None).len() == 0
    &&& forall|i: int|
        0 <= i < groups.len() ==> console.listed(
            project_id,
            Some((#[trigger] groups[i]).id),
        ).len() == 0
}

pub open spec fn shows_sidebar(
    view: SessionSidebarView,
    console: ProductConsole,
    project_id: ProjectId,
) -> bool {
    let groups = console.projects.groups_of(project_id);
    &&& view.title == MessageId::SessionSidebarTitle
    &&& view.subtitle == MessageId::SessionSidebarSubtitle
    &&& view.new_group == ui::plain_button(
        "group-new",
        0,
        Text::Message(MessageId::GroupNewAction),
        Some(Icon::Plus),
        Emphasis::Primary,
        ProductOperation::OpenGroupEditor(project_id, None),
    )
    &&& shows_frame(view.frame, console, "group-undo")
    &&& view.editor == match console.sidebar.editor {
        Some(editor) => Some(editor_of(editor)),
        None => None,
    }
    &&& match view.group_removal {
        Some(review) => console.sidebar.pending_removal is Some && console.projects.found_group(
            console.sidebar.pending_removal->0.group_id,
        ) is Some && shows_group_removal(
            review,
            console,
            console.projects.found_group(console.sidebar.pending_removal->0.group_id)->0,
        ),
        None => console.sidebar.pending_removal is None || console.projects.found_group(
            console.sidebar.pending_removal->0.group_id,
        ) is None,
    }
    &&& shows_ungrouped(view.ungrouped, console, project_id)
    &&& view.groups@.len() == groups.len()
    &&& forall|i: int|
        0 <= i < groups.len() ==> shows_group(
            #[trigger] view.groups@[i],
            console,
            project_id,
            groups[i],
            i,
            groups.len() as int,
        )
    &&& view.empty == if lists_nothing(console, project_id) {
        Some(empty_text(console.sessions))
    } else {
        None
    }
}

/// What stands in place of the sidebar where no project is selected.
pub fn session_sidebar_prompt(selected: Option<ProjectId>) -> (r: Option<MessageId>)
    ensures
        r == match selected {
            Some(_) => None,
            None => Some(MessageId::SessionSidebarSelectProject),
        },
{
    match selected {
        Some(_) => None,
        None => Some(MessageId::SessionSidebarSelectProject),
    }
}

/// The sidebar of the selected project; nothing where none is selected.
pub fn session_sidebar_view(console: &ProductConsole, selected: Option<ProjectId>) -> (r: Option<
    SessionSidebarView,
>)
    ensures
        match selected {
            None => r is None,
            Some(project_id) => r matches Some(view) && shows_sidebar(view, *console, project_id),
        },
{
    let project_id: ProjectId = match selected {
        Some(id) => id,
        None => {
            return None;
        },
    };
    let groups: Vec<Group> = console.projects.project_groups(project_id);
    let ungrouped: SessionGroupView = ungrouped_view(console, project_id);
    let unlisted: Vec<SavedAppAttachedSession> = sessions_in_destination(
        &console.sessions,
        &console.saved,
        project_id,
        None,
    );
    let mut nothing: bool = unlisted.len() == 0;
    let mut views: Vec<SessionGroupView> = Vec::new();
    let mut i: usize = 0;
    while i < groups.len()
        invariant
            i <= groups@.len(),
            groups@ == console.projects.groups_of(project_id),
            views@.len() == i,
            nothing == (console.listed(project_id, None).len() == 0 && forall|k: int|
                0 <= k < i ==> console.listed(
                    project_id,
                    Some((#[trigger] groups@[k]).id),
                ).len() == 0),
            forall|k: int|
                0 <= k < i ==> shows_group(
                    #[trigger] views@[k],
                    *console,
                    project_id,
                    groups@[k],
                    k,
                    groups@.len() as int,
                ),
        decreases groups@.len() - i,
    {
        views.push(session_group_view(console, project_id, &groups[i], i, groups.len()));
        let inside: Vec<SavedAppAttachedSession> = sessions_in_destination(
            &console.sessions,
            &console.saved,
            project_id,
            Some(groups[i].id),
        );
        assert(inside@ == console.listed(project_id, Some(groups@[i as int].id)));
        nothing = nothing && inside.len() == 0;
        i += 1;
    }
    Some(
        SessionSidebarView {
            title: MessageId::SessionSidebarTitle,
            subtitle: MessageId::SessionSidebarSubtitle,
            new_group: ui::button(
                "group-new",
                0,
                Text::Message(MessageId::GroupNewAction),
                Some(Icon::Plus),
                Emphasis::Primary,
                ProductOperation::OpenGroupEditor(project_id, None),
            ),
            frame: library_frame(console, "group-undo"),
            editor: match &console.sidebar.editor {
                Some(editor) => Some(group_editor_view(editor)),
                None => None,
            },
            group_removal: match console.sidebar.pending_removal {
                Some(pending) => group_removal_view(console, pending.group_id),
                None => None,
            },
            ungrouped,
            groups: views,
            empty: if nothing {
                Some(empty_message(&console.sessions))
            } else {
                None
            },
        },
    )
}

/// A row's captions tell the state, the activity, the project, the preset where
/// it has a name, and how the session runs; pinned and unread are told exactly
/// where they hold.
pub proof fn law_captions_tell_of_their_session(
    session: SavedAppAttachedSession,
    metadata: HostedSession,
    i: int,
)
    requires
        0 <= i < captions_of(session, metadata).len(),
    ensures
        ({
            let captions = captions_of(session, metadata);
            let named = !text::blank(session.preset_label@);
            &&& captions[0].text == Text::Message(session_labels::state_text(metadata.lifecycle))
            &&& captions[1].text == session_labels::activity_text(metadata.activity)
            &&& captions[2].text == Text::Value(session.project_label)
            &&& named ==> captions[3].text == Text::Value(session.preset_label)
            &&& captions.len() == 4 + (if named {
                1int
            } else {
                0int
            }) + (if metadata.pinned {
                1int
            } else {
                0int
            }) + (if metadata.unread {
                1int
            } else {
                0int
            })
            &&& captions[if named {
                4int
            } else {
                3int
            }].text == session_labels::ownership_text(session.route)
            &&& captions[i].text == Text::Message(MessageId::SessionLibraryPinnedBadge)
                ==> metadata.pinned && captions[i].tone is Accent
            &&& captions[i].text == Text::Message(MessageId::SessionLibraryUnreadBadge)
                ==> metadata.unread && captions[i].tone is Warning
            &&& metadata.unread ==> captions.last().text == Text::Message(
                MessageId::SessionLibraryUnreadBadge,
            )
            &&& metadata.pinned && !metadata.unread ==> captions.last().text == Text::Message(
                MessageId::SessionLibraryPinnedBadge,
            )
        }),
{
}

/// A session names the session that it continues and the one that continues it,
/// by the titles of their records.
pub proof fn law_continuity_is_named_by_titles(
    records: Seq<SavedAppAttachedSession>,
    session: SavedAppAttachedSession,
    k: int,
)
    requires
        0 <= k < records.len(),
    ensures
        (session.durable_host matches Some(host) && host.continuity_source_id == Some(records[k].id)
            && forall|j: int|
            0 <= j < k ==> (#[trigger] records[j]).id != records[k].id) ==> source_title(
            records,
            session,
        ) == Some(records[k].title),
        session.durable_host is None ==> source_title(records, session) is None,
        (records[k].durable_host matches Some(host) && host.continuity_source_id == Some(session.id)
            && forall|j: int|
            0 <= j < k ==> !((#[trigger] records[j]).durable_host matches Some(other)
                && other.continuity_source_id == Some(session.id))) ==> successor_title(
            records,
            session.id,
        ) == Some(records[k].title),
{
    if session.durable_host matches Some(host) && host.continuity_source_id == Some(records[k].id)
        && forall|j: int| 0 <= j < k ==> (#[trigger] records[j]).id != records[k].id {
        lists::lemma_first_index(records, saved_state::is_record(records[k].id), k);
    }
    if records[k].durable_host matches Some(host) && host.continuity_source_id == Some(session.id)
        && forall|j: int|
        0 <= j < k ==> !((#[trigger] records[j]).durable_host matches Some(other)
            && other.continuity_source_id == Some(session.id)) {
        lists::lemma_first_index(records, continues(session.id), k);
    }
}

/// The facts of a session: state, where its title comes from, activity, place
/// counted from one, and its continuity where it has one.
pub proof fn law_facts_tell_of_their_session(
    records: Seq<SavedAppAttachedSession>,
    session: SavedAppAttachedSession,
    metadata: HostedSession,
    index: int,
    count: int,
)
    requires
        0 <= index < count <= u64::MAX,
    ensures
        ({
            let facts = facts_of(records, session, metadata, index, count);
            let source = source_title(records, session);
            let successor = successor_title(records, session.id);
            &&& facts[0].value == Text::Message(session_labels::state_text(metadata.lifecycle))
            &&& facts[0].label == MessageId::SessionLibraryStateLabel
            &&& facts[1].value == Text::Message(
                session_labels::title_source_text(metadata.title_source),
            )
            &&& facts[1].label == MessageId::SessionLibraryTitleSourceLabel
            &&& facts[2].value == session_labels::activity_text(metadata.activity)
            &&& facts[2].label == MessageId::SessionLibraryActivityLabel
            &&& facts[3].value matches Text::Ratio(place, of) && place == index + 1 && of == count
            &&& facts[3].label == MessageId::SessionLibraryPositionLabel
            &&& source matches Some(title) ==> facts[4].value == Text::Value(title)
                && facts[4].label == MessageId::SessionResumeSourceField
            &&& successor matches Some(title) ==> facts.last().value == Text::Value(title)
                && facts.last().label == MessageId::SessionResumeSuccessorField
            &&& facts.len() == 4 + (if source is Some {
                1int
            } else {
                0int
            }) + (if successor is Some {
                1int
            } else {
                0int
            })
        }),
{
}

/// The facts of the running program are those of its inspection; a stale one is
/// qualified as such.
pub proof fn law_runtime_facts_tell_of_their_program(projection: RuntimeInspectorProjection)
    ensures
        ({
            let facts = runtime_fact_list(projection);
            &&& facts.len() == 5
            &&& facts[0].value == projection.runtime
            &&& facts[1].value == projection.version
            &&& facts[2].value == Text::Message(projection.ownership)
            &&& facts[4].value == Text::Number(projection.generation)
            &&& projection.stale ==> facts[3].value == Text::Qualified(
                Atom::Message(projection.confidence),
                Atom::Message(MessageId::RuntimeStaleLabel),
            )
            &&& !projection.stale ==> facts[3].value == Text::Message(projection.confidence)
            &&& facts[0].label == MessageId::RuntimeInspectorRuntimeLabel
            &&& facts[1].label == MessageId::RuntimeInspectorVersionLabel
            &&& facts[2].label == MessageId::RuntimeInspectorOwnershipLabel
            &&& facts[3].label == MessageId::RuntimeInspectorConfidenceLabel
            &&& facts[4].label == MessageId::RuntimeInspectorGenerationLabel
        }),
{
}

/// A transcript can be exported exactly where it is available; where it is not,
/// the reason is shown.
pub proof fn law_transcripts_are_refused_with_a_reason(verdicts: SessionVerdicts)
    ensures
        transcript_of(verdicts).disabled <==> !verdicts.transcript_available,
        transcript_of(verdicts).warning is Some <==> !verdicts.transcript_available,
        !verdicts.transcript_available ==> (verdicts.transcript_reason matches Some(reason)
            ==> transcript_of(verdicts).warning == Some(reason)),
        verdicts.transcript_reason matches Some(reason) ==> transcript_of(verdicts).tooltip
            == reason,
        verdicts.transcript_reason is None ==> transcript_of(verdicts).tooltip
            == MessageId::TranscriptExportUnavailableContract,
        transcript_of(verdicts).label == MessageId::TranscriptExportAction,
{
}

/// A recovery is prepared where none is planned or running for the session,
/// confirmed only where it is planned, and cancelled only where that is allowed;
/// each button acts on that session.
pub proof fn law_recovery_goes_step_by_step(
    recovery: HostRecoveryState,
    id: HostedSessionId,
    verdicts: SessionVerdicts,
    i: int,
)
    requires
        0 <= i < recovery_buttons(recovery, id, verdicts).len(),
    ensures
        ({
            let buttons = recovery_buttons(recovery, id, verdicts);
            let planned = recovery.plan matches Some(plan) && plan.session_id == id;
            let busy = recovery.operation == Some(id);
            let b = buttons[i];
            &&& b.action == ProductOperation::PrepareHostRecovery(id) || b.action
                == ProductOperation::ConfirmHostRecovery(id) || b.action
                == ProductOperation::CancelHostRecovery(id)
            &&& b.action is PrepareHostRecovery ==> !planned && !busy && !b.disabled && i == 0
            &&& b.action is ConfirmHostRecovery ==> planned && (b.disabled
                <==> !verdicts.recovery_can_confirm) && i == 0
            &&& b.action is CancelHostRecovery ==> verdicts.recovery_can_cancel && !b.disabled
                && i == buttons.len() - 1
            &&& buttons.len() == (if planned || !busy {
                1int
            } else {
                0int
            }) + (if verdicts.recovery_can_cancel {
                1int
            } else {
                0int
            })
            &&& b.action is CancelHostRecovery || b.emphasis is Primary
        }),
        recovery_target(recovery, id) <==> recovery.operation == Some(id) || (recovery.plan
            matches Some(plan) && plan.session_id == id),
{
}

/// A session's actions act on that session; it is opened where a host runs it,
/// and pinning and reading are called by what they would do.
pub proof fn law_session_actions_act_on_their_session(
    session: SavedAppAttachedSession,
    metadata: HostedSession,
)
    ensures
        ({
            let buttons = action_buttons(session, metadata);
            let durable = session.route is DurableHost;
            let n: int = if durable {
                1
            } else {
                0
            };
            &&& buttons.len() == 3 + n
            &&& durable ==> buttons[0].action == ProductOperation::OpenSession(session.id)
                && !buttons[0].disabled
            &&& buttons[n].action == ProductOperation::BeginSessionRename(session.id)
            &&& buttons[n + 1].action == ProductOperation::ToggleSessionPin(session.id)
            &&& buttons[n + 1].selected == metadata.pinned
            &&& buttons[n + 1].label == Text::Message(MessageId::SessionLibraryUnpinAction)
                <==> metadata.pinned
            &&& buttons[n + 1].label == Text::Message(MessageId::SessionLibraryPinAction)
                <==> !metadata.pinned
            &&& buttons[n + 2].action == ProductOperation::ToggleSessionRead(session.id)
            &&& buttons[n + 2].label == Text::Message(MessageId::SessionLibraryMarkReadAction)
                <==> metadata.unread
            &&& buttons[n + 2].label == Text::Message(MessageId::SessionLibraryMarkUnreadAction)
                <==> !metadata.unread
            &&& buttons[n + 2].disabled <==> !metadata.unread && metadata.last_output_sequence == 0
            &&& !buttons[n].disabled && !buttons[n + 1].disabled
        }),
{
}

/// What can be done with a session's life: stopped while it can be, resumed
/// where that is offered, archived while it is not, and only archived ones
/// restored and removed; each button acts on that session.
pub proof fn law_lifecycle_buttons_follow_the_session(
    session: SavedAppAttachedSession,
    metadata: HostedSession,
    offer: SessionResumeProjection,
    i: int,
)
    requires
        0 <= i < lifecycle_buttons(session, metadata, offer).len(),
    ensures
        ({
            let buttons = lifecycle_buttons(session, metadata, offer);
            let archived = metadata.archived_at is Some;
            let b = buttons[i];
            &&& b.action == ProductOperation::StopSession(session.id) || b.action
                == ProductOperation::ResumeSession(session.id) || b.action
                == ProductOperation::ArchiveOrStopSession(session.id) || b.action
                == ProductOperation::RestoreSession(session.id) || b.action
                == ProductOperation::BeginSessionRemoval(session.id)
            &&& b.action is StopSession ==> metadata.can_stop && !b.disabled && b.emphasis is Danger
                && i == 0
            &&& b.action is ResumeSession ==> offer.visible && (b.disabled <==> !offer.enabled)
            &&& b.action is ArchiveOrStopSession ==> !archived && (b.disabled
                <==> !metadata.can_stop && !metadata.exited) && (b.label == Text::Message(
                MessageId::SessionLibraryStopArchiveAction,
            ) <==> metadata.can_stop) && i == buttons.len() - 1
            &&& b.action is RestoreSession ==> archived && !b.disabled && i == buttons.len() - 2
            &&& b.action is BeginSessionRemoval ==> archived && (b.disabled
                <==> !metadata.removable) && b.emphasis is Danger && i == buttons.len() - 1
            &&& buttons.len() == (if metadata.can_stop {
                1int
            } else {
                0int
            }) + (if offer.visible {
                1int
            } else {
                0int
            }) + (if archived {
                2int
            } else {
                1int
            })
        }),
{
}

/// A session's places: one up unless it is first, one down unless it is last,
/// to the top of its project, and to each group; where it is already is marked.
pub proof fn law_placement_buttons_lead_to_their_place(
    session: SavedAppAttachedSession,
    groups: Seq<Group>,
    index: int,
    count: int,
    i: int,
)
    requires
        0 <= i < groups.len(),
    ensures
        ({
            let buttons = placement_buttons(session, groups, index, count);
            let id = session.id;
            &&& buttons.len() == 3 + groups.len()
            &&& buttons[0].action == ProductOperation::MoveSession(id, ProductMoveDirection::Up)
            &&& buttons[0].disabled <==> index == 0
            &&& buttons[1].action == ProductOperation::MoveSession(id, ProductMoveDirection::Down)
            &&& buttons[1].disabled <==> index == count - 1
            &&& buttons[2].action == ProductOperation::MoveSessionTo(
                id,
                GroupDestination::ProjectRoot,
            )
            &&& buttons[2].selected <==> session.group_id is None
            &&& buttons[3 + i].action == ProductOperation::MoveSessionTo(
                id,
                GroupDestination::Group(groups[i].id),
            )
            &&& buttons[3 + i].selected <==> session.group_id == Some(groups[i].id)
            &&& buttons[3 + i].label == Text::Filled(
                MessageId::GroupMoveToAction,
                Atom::Value(groups[i].name),
            )
            &&& buttons[0].icon == Some(Icon::ChevronUp)
            &&& buttons[1].icon == Some(Icon::ChevronDown)
        }),
{
}

/// A row opens exactly for the selected session, and its details are that
/// session's: renaming is offered where it is being renamed, the program and its
/// transcript where a host runs it, recovery where that is allowed or under way.
pub proof fn law_details_belong_to_the_selected_session(
    view: SessionRowView,
    console: ProductConsole,
    recovery: HostRecoveryState,
    session: SavedAppAttachedSession,
    metadata: HostedSession,
    index: int,
    count: int,
    verdicts: SessionVerdicts,
)
    requires
        shows_row(view, console, recovery, session, metadata, index, count, verdicts),
    ensures
        view.details is Some <==> console.sidebar.selected_session == Some(session.id),
        view.selected <==> console.sidebar.selected_session == Some(session.id),
        view.inspect.action == ProductOperation::SelectSession(session.id),
        view.inspect.selected == view.selected,
        view.title == metadata.title,
        view.details matches Some(details) ==> ({
            &&& details.rename@.len() > 0 <==> console.sessions.renaming == Some(session.id)
            &&& details.rename@.len() > 0 ==> details.rename@[0].action is SaveSessionRename
                && details.rename@[1].action is CancelSessionRename
            &&& details.runtime is Some <==> session.route is DurableHost
            &&& details.transcript is Some <==> session.route is DurableHost
            &&& details.recovery is Some <==> verdicts.recovery_allowed || recovery.operation
                == Some(session.id) || (recovery.plan matches Some(plan) && plan.session_id
                == session.id)
        }),
{
    assert(rename_buttons(ids::folded_key(session.id.value)).len() == 2);
}

/// A list counts its sessions and those that run, and shows them in their order,
/// each with its place, unless it is folded.
pub proof fn law_lists_show_their_sessions_in_place(
    view: SessionGroupView,
    list: Seq<SavedAppAttachedSession>,
    collapsed: bool,
    i: int,
)
    requires
        shows_list(view, list, collapsed),
        0 <= i < list.len() <= usize::MAX,
    ensures
        collapsed ==> view.rows@.len() == 0,
        !collapsed ==> view.rows@.len() == list.len() && view.rows@[i].id == list[i].id
            && view.rows@[i].index == i && view.rows@[i].count == list.len(),
        view.session_count == Text::Filled(
            MessageId::GroupSessionCount,
            Atom::Number(list.len() as u64),
        ),
        is_running()(list[i]) <==> (list[i].state is Live || list[i].state is RunningAppAttached
            || list[i].state is RecordingPaused),
{
}

/// A group's buttons act on that group: it moves within its project unless it is
/// first or last, is edited and removed; folding asks for the opposite.
pub proof fn law_group_buttons_act_on_their_group(
    project_id: ProjectId,
    id: GroupId,
    index: int,
    count: int,
    collapsed: bool,
)
    ensures
        ({
            let buttons = group_buttons(project_id, id, index, count);
            &&& buttons.len() == 4
            &&& buttons[0].action == ProductOperation::MoveGroup(id, ProductMoveDirection::Up)
            &&& buttons[0].disabled <==> index == 0
            &&& buttons[1].action == ProductOperation::MoveGroup(id, ProductMoveDirection::Down)
            &&& buttons[1].disabled <==> index == count - 1
            &&& buttons[2].action == ProductOperation::OpenGroupEditor(project_id, Some(id))
            &&& buttons[3].action == ProductOperation::BeginGroupRemoval(id)
            &&& buttons[3].emphasis is Danger
        }),
        disclosure_button(id, collapsed).action == ProductOperation::SetGroupCollapsed(
            id,
            !collapsed,
        ),
        disclosure_button(id, collapsed).label == Text::Message(MessageId::GroupExpandAction)
            <==> collapsed,
        disclosure_button(id, collapsed).label == Text::Message(MessageId::GroupCollapseAction)
            <==> !collapsed,
        disclosure_button(id, collapsed).icon == Some(Icon::ChevronRight) <==> collapsed,
{
}

/// What is shown of a group is that group's: its name, its sessions, folded
/// exactly where it is.
pub proof fn law_groups_show_their_own_sessions(
    view: SessionGroupView,
    console: ProductConsole,
    project_id: ProjectId,
    group: Group,
    index: int,
    count: int,
)
    requires
        shows_group(view, console, project_id, group, index, count),
    ensures
        view.label == Text::Value(group.name),
        view.disclosure matches Some(fold) && fold.action == ProductOperation::SetGroupCollapsed(
            group.id,
            !group.collapsed,
        ),
        group.collapsed ==> view.rows@.len() == 0,
        !group.collapsed ==> view.rows@.len() == console.listed(project_id, Some(group.id)).len(),
{
}

/// The view and the filter that are in effect are marked, and each button asks
/// for its own.
pub proof fn law_library_buttons_mark_what_is_shown(library: SessionLibraryState)
    ensures
        ({
            let buttons = library_buttons(library);
            &&& buttons.len() == 5
            &&& buttons[0].action == ProductOperation::ShowView(SessionLibraryView::Active)
            &&& buttons[0].selected <==> library.view is Active
            &&& buttons[1].action == ProductOperation::ShowView(SessionLibraryView::Archive)
            &&& buttons[1].selected <==> library.view is Archive
            &&& buttons[2].action == ProductOperation::ShowFilter(SessionLibraryFilter::All)
            &&& buttons[2].selected <==> library.filter is All
            &&& buttons[3].action == ProductOperation::ShowFilter(SessionLibraryFilter::Unread)
            &&& buttons[3].selected <==> library.filter is Unread
            &&& buttons[4].action == ProductOperation::ShowFilter(SessionLibraryFilter::Pinned)
            &&& buttons[4].selected <==> library.filter is Pinned
        }),
{
}

/// Stopping and archiving is confirmed by the danger button and left by the
/// other one; a session is removed likewise, its title being asked for where its
/// plan says so, and nothing of what goes is hidden.
pub proof fn law_reviews_confirm_before_acting(
    stop: ReviewView,
    removal: ReviewView,
    plan: SessionRemovalPlan,
    confirmation: Seq<char>,
)
    requires
        shows_stop_archive(stop),
        shows_session_removal(removal, plan, confirmation),
    ensures
        stop.buttons@.len() == 2 && stop.buttons@[0].action is ConfirmStopAndArchive
            && stop.buttons@[0].emphasis is Danger && stop.buttons@[1].action
            is CancelStopAndArchive,
        removal.buttons@.len() == 2 && removal.buttons@[0].action is ConfirmSessionRemoval
            && removal.buttons@[0].emphasis is Danger && removal.buttons@[1].action
            is CancelSessionRemoval && !removal.buttons@[1].disabled,
        removal.confirmation_field == plan.manifest.requires_title_confirmation,
        removal.buttons@[0].disabled <==> plan.manifest.requires_title_confirmation && confirmation
            != plan.title@,
        removal.facts@.len() == 5,
        removal.facts@[0].value == Text::Number(plan.manifest.metadata_bytes),
        removal.facts@[1].value == Text::Number(plan.manifest.journal_bytes),
        removal.facts@[2].value == Text::Number(plan.manifest.transcript_bytes),
        removal.facts@[3].value == Text::Number(plan.manifest.artifact_bytes),
        removal.facts@[4].value == Text::Number(plan.manifest.file_count),
        removal.facts@[0].label == MessageId::SessionLibraryRemoveMetadata,
        removal.facts@[1].label == MessageId::SessionLibraryRemoveJournal,
        removal.facts@[2].label == MessageId::SessionLibraryRemoveTranscript,
        removal.facts@[3].label == MessageId::SessionLibraryRemoveArtifacts,
        removal.facts@[4].label == MessageId::SessionLibraryRemoveFiles,
{
}

/// The editor says whether it makes a group or changes one.
pub proof fn law_the_editor_says_what_it_does(editor: GroupEditor)
    ensures
        editor_of(editor).title == MessageId::GroupEditorEditTitle <==> editor.group_id is Some,
        editor_of(editor).title == MessageId::GroupEditorNewTitle <==> editor.group_id is None,
        editor_of(editor).save.action is SaveGroupEditor,
        editor_of(editor).cancel.action is CancelGroupEditor,
{
}

/// A group's sessions go to another group of the list, each offered once, and
/// never to the one that is removed.
pub proof fn law_a_removed_group_is_not_offered(groups: Seq<Group>, removed: GroupId, i: int)
    requires
        0 <= i < remove_to_buttons(groups, removed).len(),
    ensures
        remove_to_buttons(groups, removed)[i].action
            matches ProductOperation::RemoveGroupTo(id, GroupDestination::Group(to)) && id == removed
            && to != removed && exists|k: int|
            0 <= k < groups.len() && (#[trigger] groups[k]).id == to && remove_to_buttons(
                groups,
                removed,
            )[i].label == Text::Filled(MessageId::GroupMoveToAction, Atom::Value(groups[k].name)),
        remove_to_buttons(groups, removed).len() <= groups.len(),
    decreases groups.len(),
{
    let rest = groups.drop_last();
    let before = remove_to_buttons(rest, removed);
    if i < before.len() {
        law_a_removed_group_is_not_offered(rest, removed, i);
        let to = match before[i].action {
            ProductOperation::RemoveGroupTo(_, GroupDestination::Group(to)) => to,
            _ => arbitrary(),
        };
        let k = choose|k: int|
            0 <= k < rest.len() && (#[trigger] rest[k]).id == to && before[i].label == Text::Filled(
                MessageId::GroupMoveToAction,
                Atom::Value(rest[k].name),
            );
        assert(groups[k].id == to);
    } else {
        if before.len() > 0 {
            law_a_removed_group_is_not_offered(rest, removed, 0);
        }
        assert(groups[groups.len() - 1].id != removed);
    }
}

/// Every other group of the list is offered.
pub proof fn law_every_other_group_is_offered(groups: Seq<Group>, removed: GroupId, k: int)
    requires
        0 <= k < groups.len(),
        groups[k].id != removed,
    ensures
        exists|i: int|
            0 <= i < remove_to_buttons(groups, removed).len() && (#[trigger] remove_to_buttons(
                groups,
                removed,
            )[i]).action == ProductOperation::RemoveGroupTo(
                removed,
                GroupDestination::Group(groups[k].id),
            ),
    decreases groups.len(),
{
    let rest = groups.drop_last();
    let before = remove_to_buttons(rest, removed);
    let all = remove_to_buttons(groups, removed);
    if k < rest.len() {
        law_every_other_group_is_offered(rest, removed, k);
        let i = choose|i: int|
            0 <= i < before.len() && (#[trigger] before[i]).action
                == ProductOperation::RemoveGroupTo(removed, GroupDestination::Group(rest[k].id));
        assert(all[i] == before[i]);
    } else {
        assert(all[before.len() as int].action == ProductOperation::RemoveGroupTo(
            removed,
            GroupDestination::Group(groups[k].id),
        ));
    }
}

/// The review of a group's removal offers the top of the project first and
/// leaving it last.
pub proof fn law_a_group_removal_can_be_left(
    view: ReviewView,
    console: ProductConsole,
    group: Group,
)
    requires
        shows_group_removal(view, console, group),
    ensures
        view.buttons@.len() >= 2,
        view.buttons@[0].action == ProductOperation::RemoveGroupTo(
            group.id,
            GroupDestination::ProjectRoot,
        ),
        view.buttons@.last().action is CancelGroupRemoval,
        view.description matches Text::FilledTwo(_, Atom::Value(name), _) && name == group.name,
        !view.confirmation_field,
{
}

/// An empty list says why: the filter, the archive, or that there is nothing.
pub proof fn law_empty_lists_say_why(library: SessionLibraryState)
    ensures
        empty_text(library) == MessageId::SessionLibraryFilterEmpty <==> !(library.filter is All),
        empty_text(library) == MessageId::SessionLibraryArchiveEmpty <==> library.filter is All
            && library.view is Archive,
        empty_text(library) == MessageId::SessionSidebarEmpty <==> library.filter is All
            && library.view is Active,
{
}

/// Around the lists stands what waits: trouble with the store, a stop to
/// confirm, a removal to confirm, something to take back, each exactly where
/// there is such a thing.
pub proof fn law_the_frame_shows_what_waits(
    frame: LibraryFrame,
    console: ProductConsole,
    undo_id: &'static str,
)
    requires
        shows_frame(frame, console, undo_id),
    ensures
        frame.stop_archive is Some <==> console.sessions.pending_stop_archive_review is Some,
        frame.session_removal is Some <==> console.sessions.pending_removal is Some,
        frame.undo is Some <==> console.sidebar.pending_undo is Some,
        frame.undo matches Some(undo) ==> undo.action is UndoOrganization,
        frame.recovery is Some <==> console.sessions.recovery() is Some,
{
}

/// In the list of all, a session keeps the place that it has in its own list.
pub proof fn law_sessions_keep_their_own_place(
    console: ProductConsole,
    session: SavedAppAttachedSession,
    k: int,
)
    requires
        0 <= k < console.listed(session.origin.project_id, session.group_id).len() <= usize::MAX,
        console.listed(session.origin.project_id, session.group_id)[k].id == session.id,
        forall|j: int|
            0 <= j < k ==> (#[trigger] console.listed(
                session.origin.project_id,
                session.group_id,
            )[j]).id != session.id,
    ensures
        own_place(console, session).id == session.id,
        own_place(console, session).index == k,
        own_place(console, session).count == console.listed(
            session.origin.project_id,
            session.group_id,
        ).len(),
{
    lists::lemma_first_index(
        console.listed(session.origin.project_id, session.group_id),
        saved_state::is_record(session.id),
        k,
    );
}

/// The sidebar shows the project's groups in their order, offers a new group for
/// that project, and calls itself empty only where no list has a session.
pub proof fn law_the_sidebar_shows_its_project(
    view: SessionSidebarView,
    console: ProductConsole,
    project_id: ProjectId,
    i: int,
)
    requires
        shows_sidebar(view, console, project_id),
        0 <= i < console.projects.groups_of(project_id).len(),
    ensures
        view.new_group.action == ProductOperation::OpenGroupEditor(project_id, None),
        view.groups@.len() == console.projects.groups_of(project_id).len(),
        view.groups@[i].label == Text::Value(console.projects.groups_of(project_id)[i].name),
        view.empty is Some ==> console.listed(project_id, None).len() == 0 && console.listed(
            project_id,
            Some(console.projects.groups_of(project_id)[i].id),
        ).len() == 0,
        view.editor is Some <==> console.sidebar.editor is Some,
        view.group_removal is Some ==> console.sidebar.pending_removal is Some,
        view.ungrouped.label == Text::Message(MessageId::GroupUngroupedLabel),
        view.ungrouped.rows@.len() == console.listed(project_id, None).len(),
{
    assert(shows_group(
        view.groups@[i],
        console,
        project_id,
        console.projects.groups_of(project_id)[i],
        i,
        console.projects.groups_of(project_id).len() as int,
    ));
}

/// A session's actions are called by what they do.
pub proof fn law_session_actions_are_called_by_what_they_do(
    session: SavedAppAttachedSession,
    metadata: HostedSession,
    i: int,
)
    requires
        0 <= i < action_buttons(session, metadata).len(),
    ensures
        ({
            let b = action_buttons(session, metadata)[i];
            &&& b.label == Text::Message(MessageId::CommonOpen) <==> b.action is OpenSession
            &&& b.label == Text::Message(MessageId::SessionLibraryRenameAction) <==> b.action
                is BeginSessionRename
        }),
{
}

/// What is done with a session's life is called by what it does.
pub proof fn law_lifecycle_buttons_are_called_by_what_they_do(
    session: SavedAppAttachedSession,
    metadata: HostedSession,
    offer: SessionResumeProjection,
    i: int,
)
    requires
        0 <= i < lifecycle_buttons(session, metadata, offer).len(),
    ensures
        ({
            let b = lifecycle_buttons(session, metadata, offer)[i];
            &&& b.action is StopSession ==> b.label == Text::Message(
                MessageId::NewSessionStopAction,
            )
            &&& b.action is ResumeSession ==> b.label == Text::Message(
                MessageId::SessionLibraryResumeAction,
            )
            &&& b.action is RestoreSession ==> b.label == Text::Message(
                MessageId::SessionLibraryRestoreAction,
            )
            &&& b.action is BeginSessionRemoval ==> b.label == Text::Message(
                MessageId::SessionLibraryRemoveAction,
            )
            &&& b.action is ArchiveOrStopSession ==> (b.label == Text::Message(
                MessageId::SessionLibraryArchiveAction,
            ) <==> !metadata.can_stop)
        }),
{
}

/// The places of a session are called by where they lead.
pub proof fn law_placement_buttons_are_called_by_where_they_lead(
    session: SavedAppAttachedSession,
    groups: Seq<Group>,
    index: int,
    count: int,
)
    ensures
        placement_buttons(session, groups, index, count)[0].label == Text::Message(
            MessageId::GroupMoveUpAction,
        ),
        placement_buttons(session, groups, index, count)[1].label == Text::Message(
            MessageId::GroupMoveDownAction,
        ),
        placement_buttons(session, groups, index, count)[2].label == Text::Message(
            MessageId::GroupMoveToRootAction,
        ),
{
}

/// The buttons of groups, recovery, renaming and of the library are called by
/// what they do.
pub proof fn law_library_controls_are_called_by_what_they_do(
    recovery: HostRecoveryState,
    session_id: HostedSessionId,
    verdicts: SessionVerdicts,
    project_id: ProjectId,
    id: GroupId,
    index: int,
    count: int,
    key: u64,
    library: SessionLibraryState,
    i: int,
)
    requires
        0 <= i,
    ensures
        i < recovery_buttons(recovery, session_id, verdicts).len() ==> ({
            let b = recovery_buttons(recovery, session_id, verdicts)[i];
            &&& b.label == Text::Message(MessageId::RecoveryPrepareAction) <==> b.action
                is PrepareHostRecovery
            &&& b.label == Text::Message(MessageId::RecoveryConfirmAction) <==> b.action
                is ConfirmHostRecovery
            &&& b.label == Text::Message(MessageId::CommonCancel) <==> b.action
                is CancelHostRecovery
        }),
        group_buttons(project_id, id, index, count)[0].label == Text::Message(
            MessageId::GroupMoveUpAction,
        ),
        group_buttons(project_id, id, index, count)[1].label == Text::Message(
            MessageId::GroupMoveDownAction,
        ),
        group_buttons(project_id, id, index, count)[2].label == Text::Message(
            MessageId::GroupRenameAction,
        ),
        group_buttons(project_id, id, index, count)[3].label == Text::Message(
            MessageId::GroupRemoveAction,
        ),
        rename_buttons(key)[0].label == Text::Message(MessageId::CommonSave),
        rename_buttons(key)[0].action is SaveSessionRename,
        rename_buttons(key)[1].label == Text::Message(MessageId::CommonCancel),
        rename_buttons(key)[1].action is CancelSessionRename,
        library_buttons(library)[0].label == Text::Message(MessageId::SessionLibraryActiveView),
        library_buttons(library)[1].label == Text::Message(MessageId::SessionLibraryArchiveView),
        library_buttons(library)[2].label == Text::Message(MessageId::SessionLibraryFilterAll),
        library_buttons(library)[3].label == Text::Message(MessageId::SessionLibraryFilterUnread),
        library_buttons(library)[4].label == Text::Message(MessageId::SessionLibraryFilterPinned),
        removal_buttons(true)[0].label == Text::Message(
            MessageId::SessionLibraryConfirmRemoveAction,
        ),
        stop_archive_buttons()[0].label == Text::Message(
            MessageId::SessionLibraryStopArchiveAction,
        ),
{
}

/// The reviews, the panel of recovery and the lists say what they are about.
pub proof fn law_panels_say_what_they_are_about(
    stop: ReviewView,
    removal: ReviewView,
    plan: SessionRemovalPlan,
    confirmation: Seq<char>,
    panel: HostRecoveryView,
    recovery: HostRecoveryState,
    id: HostedSessionId,
    verdicts: SessionVerdicts,
    going: ReviewView,
    console: ProductConsole,
    group: Group,
    listed: SessionGroupView,
    list: Seq<SavedAppAttachedSession>,
    collapsed: bool,
)
    requires
        shows_stop_archive(stop),
        shows_session_removal(removal, plan, confirmation),
        shows_recovery(panel, recovery, id, verdicts),
        shows_group_removal(going, console, group),
        shows_list(listed, list, collapsed),
    ensures
        stop.title is None && stop.description == Text::Message(
            MessageId::SessionLibraryStopArchiveWarning,
        ),
        removal.title == Some(MessageId::SessionLibraryRemoveTitle) && removal.description
            == Text::Message(MessageId::SessionLibraryRemoveWarning),
        panel.title == MessageId::RecoveryTitle && panel.description
            == MessageId::RecoveryDescription && panel.safety == MessageId::RecoverySafetyNotice,
        panel.evidence is Some <==> verdicts.recovery_evidence@.len() > 0,
        panel.evidence matches Some(shown) ==> shown == Text::Value(verdicts.recovery_evidence),
        going.title == Some(MessageId::GroupRemoveTitle),
        going.description matches Text::FilledTwo(MessageId::GroupRemoveDescription, _, _),
        listed.running matches Text::Filled(MessageId::GroupRunningSummary, _),
{
}

} // verus!
