//! The vocabulary of what is drawn: icons, tones, buttons and notices.
use vstd::prelude::*;

use crate::messages::Text;

verus! {

#[derive(Clone, Copy, Debug, PartialEq, Eq, Structural)]
pub enum Icon {
    ArrowLeft,
    Check,
    ChevronDown,
    ChevronRight,
    ChevronUp,
    Close,
    Copy,
    Delete,
    File,
    Folder,
    FolderOpen,
    Inbox,
    LoaderCircle,
    Plus,
    Redo2,
    Search,
    SquareTerminal,
    Star,
    TriangleAlert,
    Undo2,
}

/// The colour role of a text, an icon or a border.
#[derive(Clone, Copy, Debug, PartialEq, Eq, Structural)]
pub enum Tone {
    Accent,
    Border,
    Danger,
    FocusRing,
    Muted,
    Slate,
    Success,
    Warning,
}

#[derive(Clone, Copy, Debug, PartialEq, Eq, Structural)]
pub enum Emphasis {
    Plain,
    Primary,
    Danger,
}

/// The value that assistive technology sends with a command.
#[derive(Debug, PartialEq, Eq)]
pub enum SemanticActionValue {
    Boolean(bool),
    Number(i64),
    Text(String),
}

/// A button: `id` names it, together with `key` where several share the name,
/// and `action` is what pressing it asks for.
#[derive(Debug, PartialEq, Eq)]
pub struct ButtonView<A> {
    pub id: &'static str,
    pub key: u64,
    pub label: Text,
    pub icon: Option<Icon>,
    pub emphasis: Emphasis,
    pub selected: bool,
    pub disabled: bool,
    pub action: A,
}

/// A button that is neither selected nor disabled.
pub open spec fn plain_button<A>(
    id: &'static str,
    key: u64,
    label: Text,
    icon: Option<Icon>,
    emphasis: Emphasis,
    action: A,
) -> ButtonView<A> {
    ButtonView { id, key, label, icon, emphasis, selected: false, disabled: false, action }
}

pub open spec fn disabled_if<A>(button: ButtonView<A>, disabled: bool) -> ButtonView<A> {
    ButtonView { disabled, ..button }
}

pub open spec fn selected_if<A>(button: ButtonView<A>, selected: bool) -> ButtonView<A> {
    ButtonView { selected, ..button }
}

pub(crate) fn button<A>(
    id: &'static str,
    key: u64,
    label: Text,
    icon: Option<Icon>,
    emphasis: Emphasis,
    action: A,
) -> (r: ButtonView<A>)
    ensures
        r == plain_button(id, key, label, icon, emphasis, action),
{
    ButtonView { id, key, label, icon, emphasis, selected: false, disabled: false, action }
}

impl<A> ButtonView<A> {
    pub(crate) fn with_disabled(self, disabled: bool) -> (r: Self)
        ensures
            r == disabled_if(self, disabled),
    {
        ButtonView {
            id: self.id,
            key: self.key,
            label: self.label,
            icon: self.icon,
            emphasis: self.emphasis,
            selected: self.selected,
            disabled,
            action: self.action,
        }
    }

    pub(crate) fn with_selected(self, selected: bool) -> (r: Self)
        ensures
            r == selected_if(self, selected),
    {
        ButtonView {
            id: self.id,
            key: self.key,
            label: self.label,
            icon: self.icon,
            emphasis: self.emphasis,
            selected,
            disabled: self.disabled,
            action: self.action,
        }
    }
}

/// What the status line and the error line say.
#[derive(Debug, PartialEq, Eq)]
pub struct Notices {
    pub status: Option<Text>,
    pub error: Option<Text>,
}

/// The notices after a success: a new status and no error.
pub open spec fn succeeded(status: Text) -> Notices {
    Notices { status: Some(status), error: None }
}

/// The notices after a failure: the status stays.
pub open spec fn failed(before: Notices, error: Text) -> Notices {
    Notices { status: before.status, error: Some(error) }
}

/// The notices with a new status; the error stays.
pub open spec fn informed(before: Notices, status: Text) -> Notices {
    Notices { status: Some(status), error: before.error }
}

pub open spec fn cleared(before: Notices) -> Notices {
    Notices { status: before.status, error: None }
}

impl Notices {
    pub fn succeed(&mut self, status: Text)
        ensures
            *final(self) == succeeded(status),
    {
        self.status = Some(status);
        self.error = None;
    }

    pub fn fail(&mut self, error: Text)
        ensures
            *final(self) == failed(*old(self), error),
    {
        self.error = Some(error);
    }

    pub fn inform(&mut self, status: Text)
        ensures
            *final(self) == informed(*old(self), status),
    {
        self.status = Some(status);
    }

    pub fn clear_error(&mut self)
        ensures
            *final(self) == cleared(*old(self)),
    {
        self.error = None;
    }
}

/// A success is reported without an error, a failure with one; a failure leaves
/// the status and an information leaves the error as they were.
pub proof fn law_notices_tell_success_from_failure(before: Notices, text: Text)
    ensures
        succeeded(text).status == Some(text) && succeeded(text).error is None,
        failed(before, text).error == Some(text) && failed(before, text).status == before.status,
        informed(before, text).status == Some(text) && informed(before, text).error
            == before.error,
        cleared(before).error is None && cleared(before).status == before.status,
{
}

} // verus!
