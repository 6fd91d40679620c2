//! The settings as assistive technology sees and changes them.
use vstd::prelude::*;

use crate::messages::{Atom, MessageId, Text};
use crate::notification_settings;
use crate::notification_settings::NotificationMode;
use crate::text;
use crate::ui;
use crate::ui::{Notices, SemanticActionValue};

verus! {

pub const SETTINGS_MIN_SESSION_LOG_LIMIT: i64 = 50;

pub const SETTINGS_MAX_SESSION_LOG_LIMIT: i64 = 1_000;

#[derive(Clone, Copy, Debug, PartialEq, Eq, Structural)]
pub enum ThemePreset {
    Ocean,
    Daylight,
    Other(u16),
}

#[derive(Clone, Copy, Debug, PartialEq, Eq, Structural)]
pub enum Locale {
    EnUs,
    EnXa,
    ArXb,
}

/// A setting. Those of which nothing special is known are numbered.
#[derive(Clone, Copy, Debug, PartialEq, Eq, Structural)]
pub enum SettingId {
    Theme,
    DevelopmentLocale,
    TerminalFontFamily,
    TerminalFontSize,
    CopyOnSelect,
    ConfirmMultilinePaste,
    RestoreWorkspaces,
    SessionHistoryLimit,
    AutoReconnectAttempts,
    SshKeepalive,
    ReconnectDelay,
    DefaultSshDirectory,
    LocalShellProgram,
    LocalShellWorkingDirectory,
    Diagnostics,
    NotificationMode,
    RecordingFriendly,
    BackupExportPassphrase,
    BackupImportPassphrase,
    MobilePairing,
    SyncFolder,
    StorageHealth,
    Onboarding,
    PortableData,
    EncryptedBackup,
    MobileVault,
    SharedFolderSync,
    Other(u16),
}

#[derive(Clone, Copy, Debug, PartialEq, Eq, Structural)]
pub enum SettingValuePresentation {
    Choice(MessageId),
    Number { current: i64, minimum: i64, maximum: i64 },
    Boolean(bool),
    Masked,
    Unavailable,
    Nothing,
}

#[derive(Clone, Copy, Debug, PartialEq, Eq, Structural)]
pub struct SettingPresentation {
    pub id: SettingId,
    pub value: SettingValuePresentation,
    pub disabled: bool,
    pub invalid: bool,
    pub destructive: bool,
}

#[derive(Clone, Copy, Debug, PartialEq, Eq, Structural)]
pub enum SettingsSurfaceState {
    Ready,
    SearchResults,
    SearchEmpty,
    Saving,
    RecoveryRequired,
    Error,
}

/// The settings in effect.
#[derive(Clone, Copy, Debug, PartialEq, Eq, Structural)]
pub struct SettingsValues {
    pub theme_preset: ThemePreset,
    pub locale: Locale,
    pub terminal_font_size: u16,
    pub copy_on_select: bool,
    pub confirm_multiline_paste: bool,
    pub restore_workspaces_on_launch: bool,
    pub session_log_limit: u16,
    pub auto_reconnect_attempts: u8,
    pub ssh_keepalive_secs: u16,
    pub auto_reconnect_delay_secs: u8,
    pub diagnostics_enabled: bool,
    pub notification_mode: NotificationMode,
    pub recording_friendly: bool,
    pub export_passphrase_typed: bool,
    pub import_passphrase_typed: bool,
}

/// What the settings view stands at. `found` is what the search for `query`
/// found, or nothing where it failed.
#[derive(Debug)]
pub struct SettingsScreen {
    pub shown: bool,
    pub query: String,
    pub found: Option<Vec<SettingId>>,
    pub recovery_planned: bool,
    pub diagnostic_running: bool,
    pub health_scan_running: bool,
    pub recovery_running: bool,
    pub has_error: bool,
    pub values: SettingsValues,
}

#[derive(Debug)]
pub struct SettingsSemanticSnapshot {
    pub state: SettingsSurfaceState,
    pub settings: Vec<SettingPresentation>,
    pub search_results: Vec<SettingId>,
    pub query_active: bool,
}

pub open spec fn found_settings(screen: SettingsScreen) -> Seq<SettingId> {
    match screen.found {
        Some(list) => list@,
        None => Seq::empty(),
    }
}

/// A failed search outranks a planned recovery, which outranks running work,
/// which outranks an error, which outranks the search.
pub open spec fn surface_state(screen: SettingsScreen) -> SettingsSurfaceState {
    let searching = !text::blank(screen.query@);
    if screen.found is None {
        SettingsSurfaceState::Error
    } else if screen.recovery_planned {
        SettingsSurfaceState::RecoveryRequired
    } else if screen.diagnostic_running || screen.health_scan_running || screen.recovery_running {
        SettingsSurfaceState::Saving
    } else if screen.has_error {
        SettingsSurfaceState::Error
    } else if searching && found_settings(screen).len() == 0 {
        SettingsSurfaceState::SearchEmpty
    } else if searching {
        SettingsSurfaceState::SearchResults
    } else {
        SettingsSurfaceState::Ready
    }
}

pub open spec fn masked(typed: bool) -> SettingValuePresentation {
    if typed {
        SettingValuePresentation::Masked
    } else {
        SettingValuePresentation::Unavailable
    }
}

pub open spec fn presented_value(id: SettingId, values: SettingsValues) -> SettingValuePresentation {
    match id {
        SettingId::Theme => SettingValuePresentation::Choice(
            match values.theme_preset {
                ThemePreset::Daylight => MessageId::SettingsThemeDaylight,
                _ => MessageId::SettingsThemeOcean,
            },
        ),
        SettingId::DevelopmentLocale => SettingValuePresentation::Choice(
            match values.locale {
                Locale::EnUs => MessageId::SettingsLocaleEnglish,
                Locale::EnXa => MessageId::SettingsLocaleExpanded,
                Locale::ArXb => MessageId::SettingsLocaleRtl,
            },
        ),
        SettingId::TerminalFontSize => SettingValuePresentation::Number {
            current: values.terminal_font_size as i64,
            minimum: 8,
            maximum: 32,
        },
        SettingId::CopyOnSelect => SettingValuePresentation::Boolean(values.copy_on_select),
        SettingId::ConfirmMultilinePaste => SettingValuePresentation::Boolean(
            values.confirm_multiline_paste,
        ),
        SettingId::RestoreWorkspaces => SettingValuePresentation::Boolean(
            values.restore_workspaces_on_launch,
        ),
        SettingId::SessionHistoryLimit => SettingValuePresentation::Number {
            current: values.session_log_limit as i64,
            minimum: SETTINGS_MIN_SESSION_LOG_LIMIT,
            maximum: SETTINGS_MAX_SESSION_LOG_LIMIT,
        },
        SettingId::AutoReconnectAttempts => SettingValuePresentation::Number {
            current: values.auto_reconnect_attempts as i64,
            minimum: 0,
            maximum: 10,
        },
        SettingId::SshKeepalive => SettingValuePresentation::Number {
            current: values.ssh_keepalive_secs as i64,
            minimum: 0,
            maximum: 300,
        },
        SettingId::ReconnectDelay => SettingValuePresentation::Number {
            current: values.auto_reconnect_delay_secs as i64,
            minimum: 1,
            maximum: 120,
        },
        SettingId::Diagnostics => SettingValuePresentation::Boolean(values.diagnostics_enabled),
        SettingId::NotificationMode => SettingValuePresentation::Choice(
            notification_settings::mode_message(values.notification_mode),
        ),
        SettingId::RecordingFriendly => SettingValuePresentation::Boolean(
            values.recording_friendly,
        ),
        SettingId::BackupExportPassphrase => masked(values.export_passphrase_typed),
        SettingId::BackupImportPassphrase => masked(values.import_passphrase_typed),
        _ => SettingValuePresentation::Nothing,
    }
}

pub open spec fn presentation(id: SettingId, values: SettingsValues) -> SettingPresentation {
    SettingPresentation {
        id,
        value: presented_value(id, values),
        disabled: false,
        invalid: false,
        destructive: id == SettingId::StorageHealth,
    }
}

pub fn setting_presentation(id: SettingId, values: &SettingsValues) -> (r: SettingPresentation)
    ensures
        r == presentation(id, *values),
{
    let value: SettingValuePresentation = match id {
        SettingId::Theme => SettingValuePresentation::Choice(
            match values.theme_preset {
                ThemePreset::Daylight => MessageId::SettingsThemeDaylight,
                _ => MessageId::SettingsThemeOcean,
            },
        ),
        SettingId::DevelopmentLocale => SettingValuePresentation::Choice(
            match values.locale {
                Locale::EnUs => MessageId::SettingsLocaleEnglish,
                Locale::EnXa => MessageId::SettingsLocaleExpanded,
                Locale::ArXb => MessageId::SettingsLocaleRtl,
            },
        ),
        SettingId::TerminalFontSize => SettingValuePresentation::Number {
            current: values.terminal_font_size as i64,
            minimum: 8,
            maximum: 32,
        },
        SettingId::CopyOnSelect => SettingValuePresentation::Boolean(values.copy_on_select),
        SettingId::ConfirmMultilinePaste => SettingValuePresentation::Boolean(
            values.confirm_multiline_paste,
        ),
        SettingId::RestoreWorkspaces => SettingValuePresentation::Boolean(
            values.restore_workspaces_on_launch,
        ),
        SettingId::SessionHistoryLimit => SettingValuePresentation::Number {
            current: values.session_log_limit as i64,
            minimum: SETTINGS_MIN_SESSION_LOG_LIMIT,
            maximum: SETTINGS_MAX_SESSION_LOG_LIMIT,
        },
        SettingId::AutoReconnectAttempts => SettingValuePresentation::Number {
            current: values.auto_reconnect_attempts as i64,
            minimum: 0,
            maximum: 10,
        },
        SettingId::SshKeepalive => SettingValuePresentation::Number {
            current: values.ssh_keepalive_secs as i64,
            minimum: 0,
            maximum: 300,
        },
        SettingId::ReconnectDelay => SettingValuePresentation::Number {
            current: values.auto_reconnect_delay_secs as i64,
            minimum: 1,
            maximum: 120,
        },
        SettingId::Diagnostics => SettingValuePresentation::Boolean(values.diagnostics_enabled),
        SettingId::NotificationMode => SettingValuePresentation::Choice(
            notification_settings::mode_label(values.notification_mode),
        ),
        SettingId::RecordingFriendly => SettingValuePresentation::Boolean(
            values.recording_friendly,
        ),
        SettingId::BackupExportPassphrase => {
            if values.export_passphrase_typed {
                SettingValuePresentation::Masked
            } else {
                SettingValuePresentation::Unavailable
            }
        },
        SettingId::BackupImportPassphrase => {
            if values.import_passphrase_typed {
                SettingValuePresentation::Masked
            } else {
                SettingValuePresentation::Unavailable
            }
        },
        _ => SettingValuePresentation::Nothing,
    };
    SettingPresentation {
        id,
        value,
        disabled: false,
        invalid: false,
        destructive: id == SettingId::StorageHealth,
    }
}

fn duplicate_ids(list: &Vec<SettingId>) -> (r: Vec<SettingId>)
    ensures
        r@ == list@,
{
    let mut r: Vec<SettingId> = Vec::new();
    let mut i: usize = 0;
    while i < list.len()
        invariant
            i <= list@.len(),
            r@ == list@.take(i as int),
        decreases list@.len() - i,
    {
        r.push(list[i]);
        assert(r@ =~= list@.take(i + 1));
        i += 1;
    }
    assert(list@.take(list@.len() as int) =~= list@);
    r
}

/// What assistive technology is told of the settings; `all` are the settings
/// there are. Nothing is told while they are not shown.
pub fn settings_semantic_snapshot(screen: &SettingsScreen, all: &Vec<SettingId>) -> (r: Option<
    SettingsSemanticSnapshot,
>)
    ensures
        if screen.shown {
            &&& r matches Some(snapshot)
            &&& snapshot.state == surface_state(*screen)
            &&& snapshot.settings@ == Seq::new(
                all@.len(),
                |i: int| presentation(all@[i], screen.values),
            )
            &&& snapshot.search_results@ == found_settings(*screen)
            &&& snapshot.query_active == !text::blank(screen.query@)
        } else {
            r is None
        },
        r is Some <==> screen.shown,
        r matches Some(snapshot) ==> snapshot.settings@.len() == all@.len() && (snapshot.query_active
            <==> !text::blank(screen.query@)),
{
    if !screen.shown {
        return None;
    }
    let query_active: bool = !text::is_blank(screen.query.as_str());
    let (failed, search_results): (bool, Vec<SettingId>) = match &screen.found {
        Some(list) => (false, duplicate_ids(list)),
        None => (true, Vec::new()),
    };
    let state: SettingsSurfaceState = if failed {
        SettingsSurfaceState::Error
    } else if screen.recovery_planned {
        SettingsSurfaceState::RecoveryRequired
    } else if screen.diagnostic_running || screen.health_scan_running || screen.recovery_running {
        SettingsSurfaceState::Saving
    } else if screen.has_error {
        SettingsSurfaceState::Error
    } else if query_active && search_results.len() == 0 {
        SettingsSurfaceState::SearchEmpty
    } else if query_active {
        SettingsSurfaceState::SearchResults
    } else {
        SettingsSurfaceState::Ready
    };
    let mut settings: Vec<SettingPresentation> = Vec::new();
    let mut i: usize = 0;
    while i < all.len()
        invariant
            i <= all@.len(),
            settings@.len() == i,
            forall|k: int|
                0 <= k < i ==> #[trigger] settings@[k] == presentation(all@[k], screen.values),
        decreases all@.len() - i,
    {
        settings.push(setting_presentation(all[i], &screen.values));
        i += 1;
    }
    assert(settings@ =~= Seq::new(all@.len(), |i: int| presentation(all@[i], screen.values)));
    assert(search_results@ =~= found_settings(*screen));
    Some(SettingsSemanticSnapshot { state, settings, search_results, query_active })
}

/// A text field of the settings view.
#[derive(Clone, Copy, Debug, PartialEq, Eq, Structural)]
pub enum SettingsInput {
    Search,
    TerminalFontFamily,
    DefaultSshStartupDirectory,
    LocalShellProgram,
    LocalShellCwd,
    ExportBackupPassphrase,
    ImportBackupPassphrase,
    MobilePairingRequest,
    SyncFolder,
}

/// What assistive technology asks for. Sections are numbered.
#[derive(Clone, Copy, Debug, PartialEq, Eq, Structural)]
pub enum SettingsAccessibilityCommand {
    FocusSearch,
    SetSearchValue,
    ClearSearch,
    FocusSection(u16),
    FocusSetting(SettingId),
    ActivateSetting(SettingId),
    SetSettingValue(SettingId),
}

/// A change of the settings.
#[derive(Debug, PartialEq, Eq)]
pub enum SettingUpdate {
    CopyOnSelect(bool),
    ConfirmMultilinePaste(bool),
    RestoreWorkspaces(bool),
    Diagnostics(bool),
    RecordingFriendly(bool),
    TerminalFontSize(u16),
    SessionLogLimit(u16),
    AutoReconnectAttempts(u8),
    SshKeepalive(u16),
    AutoReconnectDelay(u8),
    Theme(ThemePreset),
    NotificationMode(NotificationMode),
    DevelopmentLocale(String),
    ResetOnboarding,
    ScanStoreHealth,
    ExportPortableData,
}

/// What follows from a command.
#[derive(Debug, PartialEq, Eq)]
pub enum SettingsStep {
    Nothing,
    Focus(SettingsInput),
    SetInput(SettingsInput, String),
    /// The search is emptied and takes the focus.
    ClearSearch,
    /// The title of a section is searched for, and the search takes the focus.
    SearchSection(u16),
    Update(SettingUpdate),
}

/// The field of a setting that is typed.
pub open spec fn input_of(id: SettingId) -> Option<SettingsInput> {
    match id {
        SettingId::TerminalFontFamily => Some(SettingsInput::TerminalFontFamily),
        SettingId::DefaultSshDirectory => Some(SettingsInput::DefaultSshStartupDirectory),
        SettingId::LocalShellProgram => Some(SettingsInput::LocalShellProgram),
        SettingId::LocalShellWorkingDirectory => Some(SettingsInput::LocalShellCwd),
        SettingId::BackupExportPassphrase => Some(SettingsInput::ExportBackupPassphrase),
        SettingId::BackupImportPassphrase => Some(SettingsInput::ImportBackupPassphrase),
        SettingId::MobilePairing => Some(SettingsInput::MobilePairingRequest),
        SettingId::SyncFolder => Some(SettingsInput::SyncFolder),
        _ => None,
    }
}

fn setting_input(id: SettingId) -> (r: Option<SettingsInput>)
    ensures
        r == input_of(id),
{
    match id {
        SettingId::TerminalFontFamily => Some(SettingsInput::TerminalFontFamily),
        SettingId::DefaultSshDirectory => Some(SettingsInput::DefaultSshStartupDirectory),
        SettingId::LocalShellProgram => Some(SettingsInput::LocalShellProgram),
        SettingId::LocalShellWorkingDirectory => Some(SettingsInput::LocalShellCwd),
        SettingId::BackupExportPassphrase => Some(SettingsInput::ExportBackupPassphrase),
        SettingId::BackupImportPassphrase => Some(SettingsInput::ImportBackupPassphrase),
        SettingId::MobilePairing => Some(SettingsInput::MobilePairingRequest),
        SettingId::SyncFolder => Some(SettingsInput::SyncFolder),
        _ => None,
    }
}

/// A setting without a field leads to the search.
pub open spec fn focus_of(id: SettingId) -> SettingsInput {
    match input_of(id) {
        Some(input) => input,
        None => SettingsInput::Search,
    }
}

pub fn focus_settings_input(id: SettingId) -> (r: SettingsInput)
    ensures
        r == focus_of(id),
{
    match setting_input(id) {
        Some(input) => input,
        None => SettingsInput::Search,
    }
}

/// What activating a setting does: switches flip, actions start, and the
/// sections with a field lead to it.
pub open spec fn activation(id: SettingId, values: SettingsValues) -> SettingsStep {
    match id {
        SettingId::CopyOnSelect => SettingsStep::Update(
            SettingUpdate::CopyOnSelect(!values.copy_on_select),
        ),
        SettingId::ConfirmMultilinePaste => SettingsStep::Update(
            SettingUpdate::ConfirmMultilinePaste(!values.confirm_multiline_paste),
        ),
        SettingId::RestoreWorkspaces => SettingsStep::Update(
            SettingUpdate::RestoreWorkspaces(!values.restore_workspaces_on_launch),
        ),
        SettingId::Diagnostics => SettingsStep::Update(
            SettingUpdate::Diagnostics(!values.diagnostics_enabled),
        ),
        SettingId::RecordingFriendly => SettingsStep::Update(
            SettingUpdate::RecordingFriendly(!values.recording_friendly),
        ),
        SettingId::Onboarding => SettingsStep::Update(SettingUpdate::ResetOnboarding),
        SettingId::StorageHealth => SettingsStep::Update(SettingUpdate::ScanStoreHealth),
        SettingId::PortableData => SettingsStep::Update(SettingUpdate::ExportPortableData),
        SettingId::SharedFolderSync => SettingsStep::Focus(SettingsInput::SyncFolder),
        SettingId::EncryptedBackup => SettingsStep::Focus(SettingsInput::ExportBackupPassphrase),
        SettingId::MobileVault => SettingsStep::Focus(SettingsInput::ExportBackupPassphrase),
        _ => SettingsStep::Nothing,
    }
}

pub fn activate_setting(id: SettingId, values: &SettingsValues) -> (r: SettingsStep)
    ensures
        r == activation(id, *values),
{
    match id {
        SettingId::CopyOnSelect => SettingsStep::Update(
            SettingUpdate::CopyOnSelect(!values.copy_on_select),
        ),
        SettingId::ConfirmMultilinePaste => SettingsStep::Update(
            SettingUpdate::ConfirmMultilinePaste(!values.confirm_multiline_paste),
        ),
        SettingId::RestoreWorkspaces => SettingsStep::Update(
            SettingUpdate::RestoreWorkspaces(!values.restore_workspaces_on_launch),
        ),
        SettingId::Diagnostics => SettingsStep::Update(
            SettingUpdate::Diagnostics(!values.diagnostics_enabled),
        ),
        SettingId::RecordingFriendly => SettingsStep::Update(
            SettingUpdate::RecordingFriendly(!values.recording_friendly),
        ),
        SettingId::Onboarding => SettingsStep::Update(SettingUpdate::ResetOnboarding),
        SettingId::StorageHealth => SettingsStep::Update(SettingUpdate::ScanStoreHealth),
        SettingId::PortableData => SettingsStep::Update(SettingUpdate::ExportPortableData),
        SettingId::EncryptedBackup
        | SettingId::MobileVault
        | SettingId::SharedFolderSync => {
            let target: SettingId = match id {
                SettingId::SharedFolderSync => SettingId::SyncFolder,
                _ => SettingId::BackupExportPassphrase,
            };
            SettingsStep::Focus(focus_settings_input(target))
        },
        _ => SettingsStep::Nothing,
    }
}

/// A text is taken over where it is short enough and holds no NUL.
pub open spec fn acceptable(value: Seq<char>, max_chars: int) -> bool {
    value.len() <= max_chars && !value.contains('\0')
}

fn is_acceptable(value: &str, max_chars: usize) -> (r: bool)
    ensures
        r == acceptable(value@, max_chars as int),
{
    let v: Vec<char> = text::characters(value);
    v.len() <= max_chars && !text::has_char(value, '\0')
}

pub open spec fn switch_step(id: SettingId, value: Option<SemanticActionValue>) -> SettingsStep {
    match (id, value) {
        (SettingId::CopyOnSelect, Some(SemanticActionValue::Boolean(on))) => SettingsStep::Update(
            SettingUpdate::CopyOnSelect(on),
        ),
        (
            SettingId::ConfirmMultilinePaste,
            Some(SemanticActionValue::Boolean(on)),
        ) => SettingsStep::Update(SettingUpdate::ConfirmMultilinePaste(on)),
        (
            SettingId::RestoreWorkspaces,
            Some(SemanticActionValue::Boolean(on)),
        ) => SettingsStep::Update(SettingUpdate::RestoreWorkspaces(on)),
        (SettingId::Diagnostics, Some(SemanticActionValue::Boolean(on))) => SettingsStep::Update(
            SettingUpdate::Diagnostics(on),
        ),
        _ => SettingsStep::Nothing,
    }
}

pub open spec fn number_step(id: SettingId, value: i64) -> SettingsStep {
    match id {
        SettingId::TerminalFontSize if 8 <= value <= 32 => SettingsStep::Update(
            SettingUpdate::TerminalFontSize(value as u16),
        ),
        SettingId::SessionHistoryLimit if SETTINGS_MIN_SESSION_LOG_LIMIT <= value
            <= SETTINGS_MAX_SESSION_LOG_LIMIT => SettingsStep::Update(
            SettingUpdate::SessionLogLimit(value as u16),
        ),
        SettingId::AutoReconnectAttempts if 0 <= value <= 10 => SettingsStep::Update(
            SettingUpdate::AutoReconnectAttempts(value as u8),
        ),
        SettingId::SshKeepalive if 0 <= value <= 300 => SettingsStep::Update(
            SettingUpdate::SshKeepalive(value as u16),
        ),
        SettingId::ReconnectDelay if 1 <= value <= 120 => SettingsStep::Update(
            SettingUpdate::AutoReconnectDelay(value as u8),
        ),
        _ => SettingsStep::Nothing,
    }
}

pub open spec fn theme_named(value: Seq<char>) -> Option<ThemePreset> {
    if value == "ocean"@ {
        Some(ThemePreset::Ocean)
    } else if value == "daylight"@ {
        Some(ThemePreset::Daylight)
    } else {
        None
    }
}

pub open spec fn mode_named(value: Seq<char>) -> Option<NotificationMode> {
    if value == "off"@ {
        Some(NotificationMode::Off)
    } else if value == "in-app"@ {
        Some(NotificationMode::InApp)
    } else if value == "os"@ {
        Some(NotificationMode::Os)
    } else {
        None
    }
}

pub open spec fn text_step(id: SettingId, value: String, max_chars: int) -> SettingsStep {
    match id {
        SettingId::Theme => match theme_named(value@) {
            Some(theme) => SettingsStep::Update(SettingUpdate::Theme(theme)),
            None => SettingsStep::Nothing,
        },
        SettingId::DevelopmentLocale => SettingsStep::Update(
            SettingUpdate::DevelopmentLocale(value),
        ),
        SettingId::NotificationMode => match mode_named(value@) {
            Some(mode) => SettingsStep::Update(SettingUpdate::NotificationMode(mode)),
            None => SettingsStep::Nothing,
        },
        _ => match input_of(id) {
            Some(input) if acceptable(value@, max_chars) => SettingsStep::SetInput(input, value),
            _ => SettingsStep::Nothing,
        },
    }
}

/// What setting a value does. `toggle` says that the setting is a switch.
pub open spec fn value_step(
    id: SettingId,
    toggle: bool,
    value: Option<SemanticActionValue>,
    max_chars: int,
) -> SettingsStep {
    if toggle {
        switch_step(id, value)
    } else {
        match value {
            Some(SemanticActionValue::Number(n)) => number_step(id, n),
            Some(SemanticActionValue::Text(content)) => text_step(id, content, max_chars),
            _ => SettingsStep::Nothing,
        }
    }
}

fn set_number(id: SettingId, value: i64) -> (r: SettingsStep)
    ensures
        r == number_step(id, value),
{
    match id {
        SettingId::TerminalFontSize => {
            if 8 <= value && value <= 32 {
                SettingsStep::Update(SettingUpdate::TerminalFontSize(value as u16))
            } else {
                SettingsStep::Nothing
            }
        },
        SettingId::SessionHistoryLimit => {
            if SETTINGS_MIN_SESSION_LOG_LIMIT <= value && value <= SETTINGS_MAX_SESSION_LOG_LIMIT {
                SettingsStep::Update(SettingUpdate::SessionLogLimit(value as u16))
            } else {
                SettingsStep::Nothing
            }
        },
        SettingId::AutoReconnectAttempts => {
            if 0 <= value && value <= 10 {
                SettingsStep::Update(SettingUpdate::AutoReconnectAttempts(value as u8))
            } else {
                SettingsStep::Nothing
            }
        },
        SettingId::SshKeepalive => {
            if 0 <= value && value <= 300 {
                SettingsStep::Update(SettingUpdate::SshKeepalive(value as u16))
            } else {
                SettingsStep::Nothing
            }
        },
        SettingId::ReconnectDelay => {
            if 1 <= value && value <= 120 {
                SettingsStep::Update(SettingUpdate::AutoReconnectDelay(value as u8))
            } else {
                SettingsStep::Nothing
            }
        },
        _ => SettingsStep::Nothing,
    }
}

fn set_text(id: SettingId, value: String, max_chars: usize) -> (r: SettingsStep)
    ensures
        r == text_step(id, value, max_chars as int),
{
    match id {
        SettingId::Theme => {
            if text::same_text(value.as_str(), "ocean") {
                SettingsStep::Update(SettingUpdate::Theme(ThemePreset::Ocean))
            } else if text::same_text(value.as_str(), "daylight") {
                SettingsStep::Update(SettingUpdate::Theme(ThemePreset::Daylight))
            } else {
                SettingsStep::Nothing
            }
        },
        SettingId::DevelopmentLocale => SettingsStep::Update(
            SettingUpdate::DevelopmentLocale(value),
        ),
        SettingId::NotificationMode => {
            if text::same_text(value.as_str(), "off") {
                SettingsStep::Update(SettingUpdate::NotificationMode(NotificationMode::Off))
            } else if text::same_text(value.as_str(), "in-app") {
                SettingsStep::Update(SettingUpdate::NotificationMode(NotificationMode::InApp))
            } else if text::same_text(value.as_str(), "os") {
                SettingsStep::Update(SettingUpdate::NotificationMode(NotificationMode::Os))
            } else {
                SettingsStep::Nothing
            }
        },
        _ => match setting_input(id) {
            Some(input) => {
                if is_acceptable(value.as_str(), max_chars) {
                    SettingsStep::SetInput(input, value)
                } else {
                    SettingsStep::Nothing
                }
            },
            None => SettingsStep::Nothing,
        },
    }
}

/// Sets a value where it is in its range or among its choices.
pub fn set_setting_accessibility_value(
    id: SettingId,
    toggle: bool,
    value: Option<SemanticActionValue>,
    max_chars: usize,
) -> (r: SettingsStep)
    ensures
        r == value_step(id, toggle, value, max_chars as int),
{
    if toggle {
        return match value {
            Some(SemanticActionValue::Boolean(on)) => match id {
                SettingId::CopyOnSelect => SettingsStep::Update(SettingUpdate::CopyOnSelect(on)),
                SettingId::ConfirmMultilinePaste => SettingsStep::Update(
                    SettingUpdate::ConfirmMultilinePaste(on),
                ),
                SettingId::RestoreWorkspaces => SettingsStep::Update(
                    SettingUpdate::RestoreWorkspaces(on),
                ),
                SettingId::Diagnostics => SettingsStep::Update(SettingUpdate::Diagnostics(on)),
                _ => SettingsStep::Nothing,
            },
            _ => SettingsStep::Nothing,
        };
    }
    match value {
        Some(SemanticActionValue::Number(n)) => set_number(id, n),
        Some(SemanticActionValue::Text(content)) => set_text(id, content, max_chars),
        _ => SettingsStep::Nothing,
    }
}

/// The lengths of text that are taken over, in characters.
#[derive(Clone, Copy, Debug, PartialEq, Eq, Structural)]
pub struct SettingsLimits {
    pub query_chars: usize,
    pub value_chars: usize,
}

pub open spec fn command_step(
    command: SettingsAccessibilityCommand,
    toggle: bool,
    value: Option<SemanticActionValue>,
    values: SettingsValues,
    limits: SettingsLimits,
) -> SettingsStep {
    match command {
        SettingsAccessibilityCommand::FocusSearch => SettingsStep::Focus(SettingsInput::Search),
        SettingsAccessibilityCommand::SetSearchValue => match value {
            Some(SemanticActionValue::Text(content)) if acceptable(
                content@,
                limits.query_chars as int,
            ) => SettingsStep::SetInput(SettingsInput::Search, content),
            _ => SettingsStep::Nothing,
        },
        SettingsAccessibilityCommand::ClearSearch => SettingsStep::ClearSearch,
        SettingsAccessibilityCommand::FocusSection(section) => SettingsStep::SearchSection(section),
        SettingsAccessibilityCommand::FocusSetting(id) => SettingsStep::Focus(focus_of(id)),
        SettingsAccessibilityCommand::ActivateSetting(id) => activation(id, values),
        SettingsAccessibilityCommand::SetSettingValue(id) => value_step(
            id,
            toggle,
            value,
            limits.value_chars as int,
        ),
    }
}

/// What a command of assistive technology does. `toggle` says that the setting
/// it names is a switch.
pub fn handle_settings_accessibility_command(
    command: SettingsAccessibilityCommand,
    toggle: bool,
    value: Option<SemanticActionValue>,
    values: &SettingsValues,
    limits: SettingsLimits,
) -> (r: SettingsStep)
    ensures
        r == command_step(command, toggle, value, *values, limits),
{
    match command {
        SettingsAccessibilityCommand::FocusSearch => SettingsStep::Focus(SettingsInput::Search),
        SettingsAccessibilityCommand::SetSearchValue => match value {
            Some(SemanticActionValue::Text(content)) => {
                if is_acceptable(content.as_str(), limits.query_chars) {
                    SettingsStep::SetInput(SettingsInput::Search, content)
                } else {
                    SettingsStep::Nothing
                }
            },
            _ => SettingsStep::Nothing,
        },
        SettingsAccessibilityCommand::ClearSearch => SettingsStep::ClearSearch,
        SettingsAccessibilityCommand::FocusSection(section) => SettingsStep::SearchSection(section),
        SettingsAccessibilityCommand::FocusSetting(id) => SettingsStep::Focus(
            focus_settings_input(id),
        ),
        SettingsAccessibilityCommand::ActivateSetting(id) => activate_setting(id, values),
        SettingsAccessibilityCommand::SetSettingValue(id) => set_setting_accessibility_value(
            id,
            toggle,
            value,
            limits.value_chars,
        ),
    }
}

/// Says what came of a change of the notification settings.
pub fn report_notification_change(saved: bool, notices: &mut Notices)
    ensures
        *final(notices) == if saved {
            ui::succeeded(Text::Message(MessageId::NotificationSettingsSaved))
        } else {
            ui::failed(*old(notices), Text::Message(MessageId::ActivityCenterOperationFailed))
        },
        saved ==> final(notices).error is None && final(notices).status == Some(
            Text::Message(MessageId::NotificationSettingsSaved),
        ),
        !saved ==> final(notices).error is Some && final(notices).status == old(notices).status,
{
    if saved {
        notices.succeed(Text::Message(MessageId::NotificationSettingsSaved));
    } else {
        notices.fail(Text::Message(MessageId::ActivityCenterOperationFailed));
    }
}

/// Says which development locale is in effect; a refused one leaves no trace.
pub fn report_locale_change(accepted: bool, locale_name: String, notices: &mut Notices)
    ensures
        *final(notices) == if accepted {
            ui::succeeded(
                Text::Filled(MessageId::DevelopmentLocaleActive, Atom::Value(locale_name)),
            )
        } else {
            *old(notices)
        },
        !accepted ==> final(notices).status == old(notices).status && final(notices).error
            == old(notices).error,
        accepted ==> final(notices).status is Some && final(notices).error is None,
{
    if accepted {
        notices.succeed(
            Text::Filled(MessageId::DevelopmentLocaleActive, Atom::Value(locale_name)),
        );
    }
}

/// A number is taken over exactly where it lies in the range that is presented.
pub proof fn law_numbers_are_taken_in_their_range(
    id: SettingId,
    values: SettingsValues,
    value: i64,
    max_chars: int,
)
    ensures
        match presented_value(id, values) {
            SettingValuePresentation::Number { minimum, maximum, .. } => minimum <= value
                <= maximum <==> value_step(
                id,
                false,
                Some(SemanticActionValue::Number(value)),
                max_chars,
            ) is Update,
            _ => value_step(id, false, Some(SemanticActionValue::Number(value)), max_chars)
                is Nothing,
        },
{
}

pub open spec fn switched(update: SettingUpdate) -> Option<bool> {
    match update {
        SettingUpdate::CopyOnSelect(on) => Some(on),
        SettingUpdate::ConfirmMultilinePaste(on) => Some(on),
        SettingUpdate::RestoreWorkspaces(on) => Some(on),
        SettingUpdate::Diagnostics(on) => Some(on),
        SettingUpdate::RecordingFriendly(on) => Some(on),
        _ => None,
    }
}

/// Activating a switch asks for the opposite of what is presented.
pub proof fn law_activation_flips_switches(id: SettingId, values: SettingsValues)
    ensures
        presented_value(id, values) matches SettingValuePresentation::Boolean(on) ==> activation(
            id,
            values,
        ) matches SettingsStep::Update(update) && switched(update) == Some(!on),
{
}

/// A passphrase is never presented, only whether one was typed.
pub proof fn law_passphrases_are_not_presented(id: SettingId, values: SettingsValues)
    requires
        id == SettingId::BackupExportPassphrase || id == SettingId::BackupImportPassphrase,
    ensures
        presented_value(id, values) is Masked || presented_value(id, values) is Unavailable,
{
}

/// The number that is presented is the one that is set, in the range in which it
/// can be changed.
pub proof fn law_presented_numbers_are_those_set(values: SettingsValues)
    ensures
        presented_value(SettingId::TerminalFontSize, values) matches SettingValuePresentation::Number {
            current,
            minimum,
            maximum,
        } && current == values.terminal_font_size && minimum == 8 && maximum == 32,
        presented_value(SettingId::SessionHistoryLimit, values) matches SettingValuePresentation::Number {
            current,
            minimum,
            maximum,
        } && current == values.session_log_limit && minimum == 50 && maximum == 1000,
        presented_value(SettingId::AutoReconnectAttempts, values) matches SettingValuePresentation::Number {
            current,
            minimum,
            maximum,
        } && current == values.auto_reconnect_attempts && minimum == 0 && maximum == 10,
        presented_value(SettingId::SshKeepalive, values) matches SettingValuePresentation::Number {
            current,
            minimum,
            maximum,
        } && current == values.ssh_keepalive_secs && minimum == 0 && maximum == 300,
        presented_value(SettingId::ReconnectDelay, values) matches SettingValuePresentation::Number {
            current,
            minimum,
            maximum,
        } && current == values.auto_reconnect_delay_secs && minimum == 1 && maximum == 120,
{
}

/// A number that is taken is set as it was given, on the setting it was given
/// for.
pub proof fn law_numbers_are_set_as_given(id: SettingId, value: i64, max_chars: int)
    ensures
        ({
            let step = value_step(id, false, Some(SemanticActionValue::Number(value)), max_chars);
            &&& step matches SettingsStep::Update(SettingUpdate::TerminalFontSize(n)) ==> n == value
                && id is TerminalFontSize
            &&& step matches SettingsStep::Update(SettingUpdate::SessionLogLimit(n)) ==> n == value
                && id is SessionHistoryLimit
            &&& step matches SettingsStep::Update(SettingUpdate::AutoReconnectAttempts(n)) ==> n
                == value && id is AutoReconnectAttempts
            &&& step matches SettingsStep::Update(SettingUpdate::SshKeepalive(n)) ==> n == value
                && id is SshKeepalive
            &&& step matches SettingsStep::Update(SettingUpdate::AutoReconnectDelay(n)) ==> n
                == value && id is ReconnectDelay
            &&& step is Nothing || (step matches SettingsStep::Update(update) && (update
                is TerminalFontSize || update is SessionLogLimit || update is AutoReconnectAttempts
                || update is SshKeepalive || update is AutoReconnectDelay))
        }),
{
}

/// A switch shows the value that is set, and changes that value and no other:
/// activated, to its opposite; set, to what is given.
pub proof fn law_switches_change_their_own_setting(
    id: SettingId,
    values: SettingsValues,
    on: bool,
    max_chars: int,
)
    ensures
        presented_value(SettingId::CopyOnSelect, values) == SettingValuePresentation::Boolean(
            values.copy_on_select,
        ),
        presented_value(SettingId::ConfirmMultilinePaste, values)
            == SettingValuePresentation::Boolean(values.confirm_multiline_paste),
        presented_value(SettingId::RestoreWorkspaces, values) == SettingValuePresentation::Boolean(
            values.restore_workspaces_on_launch,
        ),
        presented_value(SettingId::Diagnostics, values) == SettingValuePresentation::Boolean(
            values.diagnostics_enabled,
        ),
        presented_value(SettingId::RecordingFriendly, values) == SettingValuePresentation::Boolean(
            values.recording_friendly,
        ),
        ({
            let flipped = activation(id, values);
            &&& flipped matches SettingsStep::Update(SettingUpdate::CopyOnSelect(_)) ==> id
                is CopyOnSelect
            &&& flipped matches SettingsStep::Update(SettingUpdate::ConfirmMultilinePaste(_))
                ==> id is ConfirmMultilinePaste
            &&& flipped matches SettingsStep::Update(SettingUpdate::RestoreWorkspaces(_)) ==> id
                is RestoreWorkspaces
            &&& flipped matches SettingsStep::Update(SettingUpdate::Diagnostics(_)) ==> id
                is Diagnostics
            &&& flipped matches SettingsStep::Update(SettingUpdate::RecordingFriendly(_)) ==> id
                is RecordingFriendly
        }),
        ({
            let set = value_step(id, true, Some(SemanticActionValue::Boolean(on)), max_chars);
            &&& id is CopyOnSelect <==> set == SettingsStep::Update(SettingUpdate::CopyOnSelect(on))
            &&& id is ConfirmMultilinePaste <==> set == SettingsStep::Update(
                SettingUpdate::ConfirmMultilinePaste(on),
            )
            &&& id is RestoreWorkspaces <==> set == SettingsStep::Update(
                SettingUpdate::RestoreWorkspaces(on),
            )
            &&& id is Diagnostics <==> set == SettingsStep::Update(SettingUpdate::Diagnostics(on))
            &&& set is Nothing || set is Update
            &&& set is Update ==> (id is CopyOnSelect || id is ConfirmMultilinePaste || id
                is RestoreWorkspaces || id is Diagnostics)
        }),
{
}

/// What can be activated but is no switch starts its own work, or leads to the
/// field that it needs; nothing else happens on activation.
pub proof fn law_activation_starts_its_own_work(id: SettingId, values: SettingsValues)
    ensures
        activation(id, values) == SettingsStep::Update(SettingUpdate::ResetOnboarding) <==> id
            is Onboarding,
        activation(id, values) == SettingsStep::Update(SettingUpdate::ScanStoreHealth) <==> id
            is StorageHealth,
        activation(id, values) == SettingsStep::Update(SettingUpdate::ExportPortableData) <==> id
            is PortableData,
        activation(id, values) == SettingsStep::Focus(SettingsInput::SyncFolder) <==> id
            is SharedFolderSync,
        activation(id, values) == SettingsStep::Focus(SettingsInput::ExportBackupPassphrase)
            <==> (id is EncryptedBackup || id is MobileVault),
        activation(id, values) is Nothing <==> !(id is Onboarding || id is StorageHealth || id
            is PortableData || id is SharedFolderSync || id is EncryptedBackup || id is MobileVault
            || presented_value(id, values) is Boolean),
{
}

/// A setting's text goes to that setting's own field, as it was given, and a
/// setting without a field leads to the search.
pub proof fn law_texts_go_to_their_own_field(id: SettingId, value: String, max_chars: int)
    ensures
        focus_of(id) is TerminalFontFamily <==> id is TerminalFontFamily,
        focus_of(id) is DefaultSshStartupDirectory <==> id is DefaultSshDirectory,
        focus_of(id) is LocalShellProgram <==> id is LocalShellProgram,
        focus_of(id) is LocalShellCwd <==> id is LocalShellWorkingDirectory,
        focus_of(id) is ExportBackupPassphrase <==> id is BackupExportPassphrase,
        focus_of(id) is ImportBackupPassphrase <==> id is BackupImportPassphrase,
        focus_of(id) is MobilePairingRequest <==> id is MobilePairing,
        focus_of(id) is SyncFolder <==> id is SyncFolder,
        value_step(id, false, Some(SemanticActionValue::Text(value)), max_chars)
            matches SettingsStep::SetInput(input, given) ==> input == focus_of(id) && given == value
            && value@.len() <= max_chars && !value@.contains('\0'),
        !(focus_of(id) is Search) && value@.len() <= max_chars && !value@.contains('\0')
            ==> value_step(id, false, Some(SemanticActionValue::Text(value)), max_chars)
            == SettingsStep::SetInput(focus_of(id), value),
{
}

/// A choice is set by the name that it has, and any other name changes nothing.
pub proof fn law_choices_are_set_by_name(value: String, max_chars: int)
    ensures
        ({
            let step = value_step(
                SettingId::Theme,
                false,
                Some(SemanticActionValue::Text(value)),
                max_chars,
            );
            &&& step == SettingsStep::Update(SettingUpdate::Theme(ThemePreset::Ocean)) <==> value@
                == "ocean"@
            &&& step == SettingsStep::Update(SettingUpdate::Theme(ThemePreset::Daylight))
                <==> value@ == "daylight"@
            &&& step is Nothing <==> value@ != "ocean"@ && value@ != "daylight"@
        }),
        ({
            let step = value_step(
                SettingId::NotificationMode,
                false,
                Some(SemanticActionValue::Text(value)),
                max_chars,
            );
            &&& step == SettingsStep::Update(SettingUpdate::NotificationMode(NotificationMode::Off))
                <==> value@ == "off"@
            &&& step == SettingsStep::Update(
                SettingUpdate::NotificationMode(NotificationMode::InApp),
            ) <==> value@ == "in-app"@
            &&& step == SettingsStep::Update(SettingUpdate::NotificationMode(NotificationMode::Os))
                <==> value@ == "os"@
            &&& step is Nothing <==> value@ != "off"@ && value@ != "in-app"@ && value@ != "os"@
        }),
        value_step(
            SettingId::DevelopmentLocale,
            false,
            Some(SemanticActionValue::Text(value)),
            max_chars,
        ) == SettingsStep::Update(SettingUpdate::DevelopmentLocale(value)),
{
    reveal_strlit("ocean");
    reveal_strlit("daylight");
    reveal_strlit("off");
    reveal_strlit("in-app");
    reveal_strlit("os");
    assert("ocean"@.len() == 5);
    assert("daylight"@.len() == 8);
    assert("off"@.len() == 3);
    assert("in-app"@.len() == 6);
    assert("os"@.len() == 2);
}

/// The choice that is presented is the one in effect.
pub proof fn law_presented_choices_are_in_effect(values: SettingsValues)
    ensures
        presented_value(SettingId::Theme, values) == SettingValuePresentation::Choice(
            MessageId::SettingsThemeDaylight,
        ) <==> values.theme_preset is Daylight,
        presented_value(SettingId::Theme, values) == SettingValuePresentation::Choice(
            MessageId::SettingsThemeOcean,
        ) <==> !(values.theme_preset is Daylight),
        presented_value(SettingId::DevelopmentLocale, values) == SettingValuePresentation::Choice(
            MessageId::SettingsLocaleEnglish,
        ) <==> values.locale is EnUs,
        presented_value(SettingId::DevelopmentLocale, values) == SettingValuePresentation::Choice(
            MessageId::SettingsLocaleExpanded,
        ) <==> values.locale is EnXa,
        presented_value(SettingId::DevelopmentLocale, values) == SettingValuePresentation::Choice(
            MessageId::SettingsLocaleRtl,
        ) <==> values.locale is ArXb,
        presented_value(SettingId::NotificationMode, values) == SettingValuePresentation::Choice(
            MessageId::NotificationModeOff,
        ) <==> values.notification_mode is Off,
        presented_value(SettingId::NotificationMode, values) == SettingValuePresentation::Choice(
            MessageId::NotificationModeOs,
        ) <==> values.notification_mode is Os,
        presented_value(SettingId::BackupExportPassphrase, values) is Masked
            <==> values.export_passphrase_typed,
        presented_value(SettingId::BackupImportPassphrase, values) is Masked
            <==> values.import_passphrase_typed,
{
}

/// Every setting is shown under its own name, in reach, and only the one that
/// touches the stores is called destructive.
pub proof fn law_settings_are_shown_as_themselves(id: SettingId, values: SettingsValues)
    ensures
        presentation(id, values).id == id,
        !presentation(id, values).disabled,
        !presentation(id, values).invalid,
        presentation(id, values).destructive <==> id is StorageHealth,
{
}

/// The surface is ready only where nothing is looked for, planned, running or
/// wrong; a failing search comes before everything, a planned recovery before
/// work, and work before an error.
pub proof fn law_the_settings_surface_tells_what_is_going_on(screen: SettingsScreen)
    ensures
        ({
            let state = surface_state(screen);
            let works = screen.diagnostic_running || screen.health_scan_running
                || screen.recovery_running;
            &&& screen.found is None ==> state is Error
            &&& state is RecoveryRequired <==> screen.found is Some && screen.recovery_planned
            &&& state is Saving <==> screen.found is Some && !screen.recovery_planned && works
            &&& state is Error <==> screen.found is None || (!screen.recovery_planned && !works
                && screen.has_error)
            &&& state is Ready <==> screen.found is Some && !screen.recovery_planned && !works
                && !screen.has_error && text::blank(screen.query@)
            &&& state is SearchEmpty ==> (screen.found matches Some(list) && list@.len() == 0)
                && !text::blank(screen.query@)
            &&& state is SearchResults ==> (screen.found matches Some(list) && list@.len() > 0)
                && !text::blank(screen.query@)
        }),
{
}

/// A command does its own thing: the search commands reach the search, a
/// section's its section, a setting's its setting.
pub proof fn law_settings_commands_do_what_they_say(
    command: SettingsAccessibilityCommand,
    toggle: bool,
    value: Option<SemanticActionValue>,
    values: SettingsValues,
    limits: SettingsLimits,
)
    ensures
        ({
            let step = command_step(command, toggle, value, values, limits);
            &&& command is FocusSearch ==> step == SettingsStep::Focus(SettingsInput::Search)
            &&& step is ClearSearch <==> command is ClearSearch
            &&& step is SearchSection <==> command is FocusSection
            &&& command matches SettingsAccessibilityCommand::FocusSection(section) ==> step
                == SettingsStep::SearchSection(section)
            &&& command matches SettingsAccessibilityCommand::FocusSetting(id) ==> step
                == SettingsStep::Focus(focus_of(id))
            &&& command matches SettingsAccessibilityCommand::ActivateSetting(id) ==> step
                == activation(id, values)
            &&& command is SetSearchValue ==> (step is Nothing || (step
                matches SettingsStep::SetInput(SettingsInput::Search, given) && value == Some(
                SemanticActionValue::Text(given),
            ) && given@.len() <= limits.query_chars && !given@.contains('\0')))
            &&& command is SetSearchValue ==> (value matches Some(SemanticActionValue::Text(given))
                ==> given@.len() <= limits.query_chars && !given@.contains('\0') ==> step
                == SettingsStep::SetInput(SettingsInput::Search, given))
            &&& step is Update ==> (command is ActivateSetting || command is SetSettingValue)
        }),
{
}

} // verus!
