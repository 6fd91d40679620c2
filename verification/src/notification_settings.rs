//! The settings card for notifications.
use vstd::prelude::*;

use crate::lists;
use crate::messages::{Atom, MessageId, Text};
use crate::ui;
use crate::ui::{ButtonView, Emphasis, Notices};

verus! {

#[derive(Clone, Copy, Debug, PartialEq, Eq, Structural)]
pub enum NotificationMode {
    Off,
    InApp,
    Os,
}

/// Whether the system lets the console notify.
#[derive(Clone, Copy, Debug, PartialEq, Eq, Structural)]
pub enum PermissionState {
    Unknown,
    Granted,
    Denied,
    Unavailable,
}

#[derive(Clone, Copy, Debug, PartialEq, Eq, Structural)]
pub struct NotificationPolicy {
    pub mode: NotificationMode,
    pub recording_friendly: bool,
    pub permission: PermissionState,
}

#[derive(Clone, Copy, Debug, PartialEq, Eq, Structural)]
pub enum NotificationAction {
    SetMode(NotificationMode),
    SetRecordingFriendly(bool),
    RefreshPermission,
    ResetStore,
}

#[derive(Debug)]
pub struct NotificationCard {
    pub title: MessageId,
    pub description: MessageId,
    pub modes: Vec<ButtonView<NotificationAction>>,
    pub recording_title: MessageId,
    pub recording_description: MessageId,
    pub recording: ButtonView<NotificationAction>,
    pub permission: Text,
    pub actions: Vec<ButtonView<NotificationAction>>,
    pub preview: MessageId,
}

pub open spec fn mode_message(mode: NotificationMode) -> MessageId {
    match mode {
        NotificationMode::Off => MessageId::NotificationModeOff,
        NotificationMode::InApp => MessageId::NotificationModeInApp,
        NotificationMode::Os => MessageId::NotificationModeOs,
    }
}

pub(crate) fn mode_label(mode: NotificationMode) -> (r: MessageId)
    ensures
        r == mode_message(mode),
{
    match mode {
        NotificationMode::Off => MessageId::NotificationModeOff,
        NotificationMode::InApp => MessageId::NotificationModeInApp,
        NotificationMode::Os => MessageId::NotificationModeOs,
    }
}

pub open spec fn permission_message(permission: PermissionState) -> MessageId {
    match permission {
        PermissionState::Unknown => MessageId::NotificationPermissionUnknown,
        PermissionState::Granted => MessageId::NotificationPermissionGranted,
        PermissionState::Denied => MessageId::NotificationPermissionDenied,
        PermissionState::Unavailable => MessageId::NotificationPermissionUnavailable,
    }
}

/// What is in effect is emphasised.
pub open spec fn emphasis(chosen: bool) -> Emphasis {
    if chosen {
        Emphasis::Primary
    } else {
        Emphasis::Plain
    }
}

pub open spec fn mode_button(index: u64, mode: NotificationMode, current: NotificationMode) -> ButtonView<
    NotificationAction,
> {
    ui::plain_button(
        "notification-mode",
        index,
        Text::Message(mode_message(mode)),
        None,
        emphasis(current == mode),
        NotificationAction::SetMode(mode),
    )
}

pub open spec fn mode_buttons(current: NotificationMode) -> Seq<ButtonView<NotificationAction>> {
    seq![
        mode_button(0, NotificationMode::Off, current),
        mode_button(1, NotificationMode::InApp, current),
        mode_button(2, NotificationMode::Os, current),
    ]
}

pub open spec fn recording_button(enabled: bool) -> ButtonView<NotificationAction> {
    ui::plain_button(
        "notification-recording-friendly",
        0,
        Text::Message(
            if enabled {
                MessageId::NotificationToggleOn
            } else {
                MessageId::NotificationToggleOff
            },
        ),
        None,
        emphasis(enabled),
        NotificationAction::SetRecordingFriendly(!enabled),
    )
}

/// The permission can be asked for again where the system notifies, and a
/// corrupt store can be reset.
pub open spec fn policy_actions(policy: NotificationPolicy, corrupt: bool) -> Seq<
    ButtonView<NotificationAction>,
> {
    lists::optional(
        policy.mode == NotificationMode::Os,
        ui::plain_button(
            "notification-refresh-permission",
            0,
            Text::Message(MessageId::NotificationRefreshAction),
            None,
            Emphasis::Plain,
            NotificationAction::RefreshPermission,
        ),
    ) + lists::optional(
        corrupt,
        ui::plain_button(
            "notification-reset-store",
            0,
            Text::Message(MessageId::NotificationResetAction),
            None,
            Emphasis::Danger,
            NotificationAction::ResetStore,
        ),
    )
}

fn mode_choice(index: u64, mode: NotificationMode, current: NotificationMode) -> (r: ButtonView<
    NotificationAction,
>)
    ensures
        r == mode_button(index, mode, current),
{
    ui::button(
        "notification-mode",
        index,
        Text::Message(mode_label(mode)),
        None,
        if current == mode {
            Emphasis::Primary
        } else {
            Emphasis::Plain
        },
        NotificationAction::SetMode(mode),
    )
}

/// The card; `corrupt` says that the store of notifications cannot be read.
pub fn notification_settings_card(policy: NotificationPolicy, corrupt: bool) -> (r:
    NotificationCard)
    ensures
        r.title == MessageId::NotificationSettingsTitle,
        r.description == MessageId::NotificationSettingsDescription,
        r.modes@ == mode_buttons(policy.mode),
        r.recording_title == MessageId::NotificationRecordingTitle,
        r.recording_description == MessageId::NotificationRecordingDescription,
        r.recording == recording_button(policy.recording_friendly),
        r.permission == Text::Filled(
            MessageId::NotificationPermissionStatus,
            Atom::Message(permission_message(policy.permission)),
        ),
        r.actions@ == policy_actions(policy, corrupt),
        r.preview == MessageId::NotificationPreview,
{
    let mut modes: Vec<ButtonView<NotificationAction>> = Vec::new();
    modes.push(mode_choice(0, NotificationMode::Off, policy.mode));
    modes.push(mode_choice(1, NotificationMode::InApp, policy.mode));
    modes.push(mode_choice(2, NotificationMode::Os, policy.mode));
    assert(modes@ =~= mode_buttons(policy.mode));
    let mut actions: Vec<ButtonView<NotificationAction>> = Vec::new();
    lists::push_if(
        &mut actions,
        policy.mode == NotificationMode::Os,
        ui::button(
            "notification-refresh-permission",
            0,
            Text::Message(MessageId::NotificationRefreshAction),
            None,
            Emphasis::Plain,
            NotificationAction::RefreshPermission,
        ),
    );
    lists::push_if(
        &mut actions,
        corrupt,
        ui::button(
            "notification-reset-store",
            0,
            Text::Message(MessageId::NotificationResetAction),
            None,
            Emphasis::Danger,
            NotificationAction::ResetStore,
        ),
    );
    assert(actions@ =~= policy_actions(policy, corrupt));
    let permission: MessageId = match policy.permission {
        PermissionState::Unknown => MessageId::NotificationPermissionUnknown,
        PermissionState::Granted => MessageId::NotificationPermissionGranted,
        PermissionState::Denied => MessageId::NotificationPermissionDenied,
        PermissionState::Unavailable => MessageId::NotificationPermissionUnavailable,
    };
    let enabled: bool = policy.recording_friendly;
    NotificationCard {
        title: MessageId::NotificationSettingsTitle,
        description: MessageId::NotificationSettingsDescription,
        modes,
        recording_title: MessageId::NotificationRecordingTitle,
        recording_description: MessageId::NotificationRecordingDescription,
        recording: ui::button(
            "notification-recording-friendly",
            0,
            Text::Message(
                if enabled {
                    MessageId::NotificationToggleOn
                } else {
                    MessageId::NotificationToggleOff
                },
            ),
            None,
            if enabled {
                Emphasis::Primary
            } else {
                Emphasis::Plain
            },
            NotificationAction::SetRecordingFriendly(!enabled),
        ),
        permission: Text::Filled(
            MessageId::NotificationPermissionStatus,
            Atom::Message(permission),
        ),
        actions,
        preview: MessageId::NotificationPreview,
    }
}

pub open spec fn done_message(action: NotificationAction) -> MessageId {
    match action {
        NotificationAction::SetMode(_) => MessageId::NotificationSettingsSaved,
        NotificationAction::SetRecordingFriendly(_) => MessageId::NotificationSettingsSaved,
        NotificationAction::RefreshPermission => MessageId::NotificationPermissionRefreshed,
        NotificationAction::ResetStore => MessageId::NotificationResetComplete,
    }
}

/// Says what came of an action of the card. Neither line replaces the other.
pub fn report_notification_action(action: NotificationAction, succeeded: bool, notices: &mut Notices)
    ensures
        *final(notices) == if succeeded {
            ui::informed(*old(notices), Text::Message(done_message(action)))
        } else {
            ui::failed(*old(notices), Text::Message(MessageId::ActivityCenterOperationFailed))
        },
        succeeded ==> final(notices).error == old(notices).error && final(notices).status is Some,
        !succeeded ==> final(notices).error is Some && final(notices).status == old(notices).status,
{
    if !succeeded {
        notices.fail(Text::Message(MessageId::ActivityCenterOperationFailed));
        return;
    }
    let message: MessageId = match action {
        NotificationAction::SetMode(_) => MessageId::NotificationSettingsSaved,
        NotificationAction::SetRecordingFriendly(_) => MessageId::NotificationSettingsSaved,
        NotificationAction::RefreshPermission => MessageId::NotificationPermissionRefreshed,
        NotificationAction::ResetStore => MessageId::NotificationResetComplete,
    };
    notices.inform(Text::Message(message));
}

/// Exactly one mode is emphasised, and it is the one in effect.
pub proof fn law_one_mode_is_in_effect(current: NotificationMode, i: int)
    requires
        0 <= i < mode_buttons(current).len(),
    ensures
        mode_buttons(current)[i].emphasis == Emphasis::Primary <==> mode_buttons(current)[i].action
            == NotificationAction::SetMode(current),
        mode_buttons(current).len() == 3,
{
}

/// Each mode is told in words of its own.
pub proof fn law_each_notification_mode_has_its_words(mode: NotificationMode)
    ensures
        mode_message(mode) == MessageId::NotificationModeOff <==> mode is Off,
        mode_message(mode) == MessageId::NotificationModeInApp <==> mode is InApp,
        mode_message(mode) == MessageId::NotificationModeOs <==> mode is Os,
{
}

/// Each state of the permission is told in words of its own.
pub proof fn law_each_notification_permission_has_its_words(permission: PermissionState)
    ensures
        permission_message(permission) == MessageId::NotificationPermissionUnknown <==> permission is Unknown,
        permission_message(permission) == MessageId::NotificationPermissionGranted <==> permission is Granted,
        permission_message(permission) == MessageId::NotificationPermissionDenied <==> permission is Denied,
        permission_message(permission) == MessageId::NotificationPermissionUnavailable <==> permission is Unavailable,
{
}

/// The three buttons choose the three modes, none of them twice.
pub proof fn law_every_mode_can_be_chosen(current: NotificationMode, mode: NotificationMode)
    ensures
        exists|i: int|
            0 <= i < 3 && (#[trigger] mode_buttons(current)[i]).action
                == NotificationAction::SetMode(mode) && mode_buttons(current)[i].label
                == Text::Message(mode_message(mode)) && mode_buttons(current)[i].key == i,
        mode_buttons(current)[0].action == NotificationAction::SetMode(NotificationMode::Off),
        mode_buttons(current)[1].action == NotificationAction::SetMode(NotificationMode::InApp),
        mode_buttons(current)[2].action == NotificationAction::SetMode(NotificationMode::Os),
{
    let i: int = match mode {
        NotificationMode::Off => 0,
        NotificationMode::InApp => 1,
        NotificationMode::Os => 2,
    };
    assert(mode_buttons(current)[i].action == NotificationAction::SetMode(mode));
}

/// The switch shows whether recording is spared and asks for the opposite.
pub proof fn law_the_recording_switch_asks_for_the_opposite(enabled: bool)
    ensures
        recording_button(enabled).action == NotificationAction::SetRecordingFriendly(!enabled),
        recording_button(enabled).label == Text::Message(MessageId::NotificationToggleOn)
            <==> enabled,
        recording_button(enabled).label == Text::Message(MessageId::NotificationToggleOff)
            <==> !enabled,
        recording_button(enabled).emphasis == Emphasis::Primary <==> enabled,
{
}

/// The permission is asked again only for the system's notifications, and the
/// store is reset only where it is corrupt.
pub proof fn law_policy_actions_are_offered_where_they_help(
    policy: NotificationPolicy,
    corrupt: bool,
    i: int,
)
    requires
        0 <= i < policy_actions(policy, corrupt).len(),
    ensures
        ({
            let actions = policy_actions(policy, corrupt);
            &&& actions.len() == (if policy.mode is Os {
                1int
            } else {
                0int
            }) + (if corrupt {
                1int
            } else {
                0int
            })
            &&& actions[i].action is RefreshPermission || actions[i].action is ResetStore
            &&& actions[i].action is RefreshPermission ==> policy.mode is Os && actions[i].emphasis
                is Plain
            &&& actions[i].action is ResetStore ==> corrupt && actions[i].emphasis is Danger && i
                == actions.len() - 1
        }),
{
}

/// What is reported of a change that succeeded names that change.
pub proof fn law_changes_are_reported_as_what_they_were(action: NotificationAction)
    ensures
        done_message(action) == MessageId::NotificationResetComplete <==> action is ResetStore,
        done_message(action) == MessageId::NotificationPermissionRefreshed <==> action
            is RefreshPermission,
        done_message(action) == MessageId::NotificationSettingsSaved <==> (action is SetMode
            || action is SetRecordingFriendly),
{
}

/// The actions of the card are called by what they do.
pub proof fn law_policy_actions_are_called_by_what_they_do(
    policy: NotificationPolicy,
    corrupt: bool,
    i: int,
)
    requires
        0 <= i < policy_actions(policy, corrupt).len(),
    ensures
        policy_actions(policy, corrupt)[i].label == Text::Message(
            MessageId::NotificationRefreshAction,
        ) <==> policy_actions(policy, corrupt)[i].action is RefreshPermission,
        policy_actions(policy, corrupt)[i].label == Text::Message(
            MessageId::NotificationResetAction,
        ) <==> policy_actions(policy, corrupt)[i].action is ResetStore,
{
}

} // verus!
