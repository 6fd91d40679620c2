//! Controllers that are paired with this machine, the machine's identity, and
//! the settings card that shows both.
use vstd::prelude::*;

use crate::lists;
use crate::messages::{Atom, MessageId, Text};
use crate::text;
use crate::ui;
use crate::ui::{ButtonView, Emphasis, Icon, Notices};

verus! {

#[derive(Clone, Copy, Debug, PartialEq, Eq, Structural)]
pub struct ControllerDeviceId {
    pub value: u128,
}

#[derive(Clone, Copy, Debug, PartialEq, Eq, Structural)]
pub enum RemoteDevicesFailure {
    Corrupt,
    Newer,
    Permission,
    Unavailable,
}

#[derive(Clone, Copy, Debug, PartialEq, Eq, Structural)]
pub enum PairingUiState {
    Idle,
    Generating,
    Waiting,
    SasReady,
    SasMismatch,
    Expired,
    RateLimited,
    StorageFailure,
    Uncertain,
    Paired,
    Revoked,
}

#[derive(Clone, Copy, Debug, PartialEq, Eq, Structural)]
pub enum HostIdentityState {
    Ready,
    Locked,
    PermissionDenied,
    Lost,
    ResetRequired,
}

#[derive(Clone, Copy, Debug, PartialEq, Eq, Structural)]
pub enum PairedDeviceStatus {
    Online,
    Offline,
    Revoked,
}

/// What a device may do. `others` are the capabilities that are not decided on
/// here, one bit each.
#[derive(Clone, Copy, Debug, PartialEq, Eq, Structural)]
pub struct ControllerCapabilities {
    pub observe_sessions: bool,
    pub attach_output: bool,
    pub send_input: bool,
    pub resize: bool,
    pub others: u32,
}

/// A paired device. `last_seen` says how long ago it was seen.
#[derive(Debug)]
pub struct PairedDeviceRecord {
    pub device_id: ControllerDeviceId,
    pub display_name: String,
    pub fingerprint_suffix: String,
    pub status: PairedDeviceStatus,
    pub capabilities: ControllerCapabilities,
    pub last_seen: Option<String>,
}

/// The public part of the machine's identity.
#[derive(Debug)]
pub struct HostIdentityPublic {
    pub fingerprint: String,
}

/// What the store of devices holds.
#[derive(Debug)]
pub struct ControllerAuthority {
    pub state: HostIdentityState,
    pub identity: Option<HostIdentityPublic>,
    pub devices: Vec<PairedDeviceRecord>,
}

#[derive(Clone, Copy, Debug, PartialEq, Eq, Structural)]
pub enum ControllerDeviceStoreError {
    Corrupt,
    TooLarge,
    UnsafeEntry,
    Domain,
    Newer,
    Io { permission_denied: bool },
    StaleRevision,
    RevisionOverflow,
}

#[derive(Debug)]
pub struct RemoteDevicesState {
    pub has_repository: bool,
    pub identity_state: HostIdentityState,
    pub identity: Option<HostIdentityPublic>,
    pub devices: Vec<PairedDeviceRecord>,
    pub failure: Option<RemoteDevicesFailure>,
    pub route_available: bool,
    pub pairing_state: PairingUiState,
    pub editing_device_id: Option<ControllerDeviceId>,
}

/// What came of opening the store, of loading the identity, and of reading the
/// devices.
#[derive(Debug)]
pub enum RemoteDevicesOpening {
    NoDirectory,
    Refused(ControllerDeviceStoreError),
    NoIdentity,
    Opened {
        state: HostIdentityState,
        identity: Option<HostIdentityPublic>,
        loaded: Result<ControllerAuthority, ControllerDeviceStoreError>,
    },
}

pub open spec fn store_failure(error: ControllerDeviceStoreError) -> RemoteDevicesFailure {
    match error {
        ControllerDeviceStoreError::Corrupt | ControllerDeviceStoreError::TooLarge
        | ControllerDeviceStoreError::UnsafeEntry
        | ControllerDeviceStoreError::Domain => RemoteDevicesFailure::Corrupt,
        ControllerDeviceStoreError::Newer => RemoteDevicesFailure::Newer,
        ControllerDeviceStoreError::Io {
            permission_denied: true,
        } => RemoteDevicesFailure::Permission,
        _ => RemoteDevicesFailure::Unavailable,
    }
}

pub fn classify_store_failure(error: ControllerDeviceStoreError) -> (r: RemoteDevicesFailure)
    ensures
        r == store_failure(error),
{
    match error {
        ControllerDeviceStoreError::Corrupt
        | ControllerDeviceStoreError::TooLarge
        | ControllerDeviceStoreError::UnsafeEntry
        | ControllerDeviceStoreError::Domain => RemoteDevicesFailure::Corrupt,
        ControllerDeviceStoreError::Newer => RemoteDevicesFailure::Newer,
        ControllerDeviceStoreError::Io { permission_denied: true } => {
            RemoteDevicesFailure::Permission
        },
        _ => RemoteDevicesFailure::Unavailable,
    }
}

pub open spec fn identity_message(state: HostIdentityState, failure: Option<RemoteDevicesFailure>) -> MessageId {
    match failure {
        Some(RemoteDevicesFailure::Corrupt) => MessageId::RemoteDevicesStoreCorrupt,
        Some(RemoteDevicesFailure::Newer) => MessageId::RemoteDevicesStoreNewer,
        Some(RemoteDevicesFailure::Permission) => MessageId::RemoteDevicesPermissionDenied,
        Some(RemoteDevicesFailure::Unavailable) => MessageId::RemoteDevicesUnavailable,
        None => match state {
            HostIdentityState::Ready => MessageId::RemoteDevicesIdentityReady,
            HostIdentityState::Locked => MessageId::RemoteDevicesIdentityLocked,
            HostIdentityState::PermissionDenied => MessageId::RemoteDevicesPermissionDenied,
            HostIdentityState::Lost => MessageId::RemoteDevicesIdentityLost,
            HostIdentityState::ResetRequired => MessageId::RemoteDevicesResetRequired,
        },
    }
}

/// What is said of the identity; a failure of the store comes first.
pub fn remote_identity_status(state: HostIdentityState, failure: Option<RemoteDevicesFailure>) -> (r:
    MessageId)
    ensures
        r == identity_message(state, failure),
{
    match failure {
        Some(RemoteDevicesFailure::Corrupt) => MessageId::RemoteDevicesStoreCorrupt,
        Some(RemoteDevicesFailure::Newer) => MessageId::RemoteDevicesStoreNewer,
        Some(RemoteDevicesFailure::Permission) => MessageId::RemoteDevicesPermissionDenied,
        Some(RemoteDevicesFailure::Unavailable) => MessageId::RemoteDevicesUnavailable,
        None => match state {
            HostIdentityState::Ready => MessageId::RemoteDevicesIdentityReady,
            HostIdentityState::Locked => MessageId::RemoteDevicesIdentityLocked,
            HostIdentityState::PermissionDenied => MessageId::RemoteDevicesPermissionDenied,
            HostIdentityState::Lost => MessageId::RemoteDevicesIdentityLost,
            HostIdentityState::ResetRequired => MessageId::RemoteDevicesResetRequired,
        },
    }
}

pub open spec fn device_message(status: PairedDeviceStatus) -> MessageId {
    match status {
        PairedDeviceStatus::Online => MessageId::RemoteDevicesStatusOnline,
        PairedDeviceStatus::Offline => MessageId::RemoteDevicesStatusOffline,
        PairedDeviceStatus::Revoked => MessageId::RemoteDevicesStatusRevoked,
    }
}

pub fn remote_device_status(status: PairedDeviceStatus) -> (r: MessageId)
    ensures
        r == device_message(status),
{
    match status {
        PairedDeviceStatus::Online => MessageId::RemoteDevicesStatusOnline,
        PairedDeviceStatus::Offline => MessageId::RemoteDevicesStatusOffline,
        PairedDeviceStatus::Revoked => MessageId::RemoteDevicesStatusRevoked,
    }
}

pub open spec fn pairing_message(state: PairingUiState) -> MessageId {
    match state {
        PairingUiState::Idle => MessageId::RemoteDevicesPairingIdle,
        PairingUiState::Generating => MessageId::RemoteDevicesPairingGenerating,
        PairingUiState::Waiting => MessageId::RemoteDevicesPairingWaiting,
        PairingUiState::SasReady => MessageId::RemoteDevicesPairingSasReady,
        PairingUiState::SasMismatch => MessageId::RemoteDevicesPairingSasMismatch,
        PairingUiState::Expired => MessageId::RemoteDevicesPairingExpired,
        PairingUiState::RateLimited => MessageId::RemoteDevicesPairingRateLimited,
        PairingUiState::StorageFailure => MessageId::RemoteDevicesPairingStorageFailure,
        PairingUiState::Uncertain => MessageId::RemoteDevicesPairingUncertain,
        PairingUiState::Paired => MessageId::RemoteDevicesPairingPaired,
        PairingUiState::Revoked => MessageId::RemoteDevicesPairingRevoked,
    }
}

pub fn pairing_ui_status(state: PairingUiState) -> (r: MessageId)
    ensures
        r == pairing_message(state),
{
    match state {
        PairingUiState::Idle => MessageId::RemoteDevicesPairingIdle,
        PairingUiState::Generating => MessageId::RemoteDevicesPairingGenerating,
        PairingUiState::Waiting => MessageId::RemoteDevicesPairingWaiting,
        PairingUiState::SasReady => MessageId::RemoteDevicesPairingSasReady,
        PairingUiState::SasMismatch => MessageId::RemoteDevicesPairingSasMismatch,
        PairingUiState::Expired => MessageId::RemoteDevicesPairingExpired,
        PairingUiState::RateLimited => MessageId::RemoteDevicesPairingRateLimited,
        PairingUiState::StorageFailure => MessageId::RemoteDevicesPairingStorageFailure,
        PairingUiState::Uncertain => MessageId::RemoteDevicesPairingUncertain,
        PairingUiState::Paired => MessageId::RemoteDevicesPairingPaired,
        PairingUiState::Revoked => MessageId::RemoteDevicesPairingRevoked,
    }
}

/// Every pairing state has a text of its own.
pub proof fn law_pairing_states_are_told_apart(a: PairingUiState, b: PairingUiState)
    ensures
        a != b ==> pairing_message(a) != pairing_message(b),
{
}

pub open spec fn is_device(id: ControllerDeviceId) -> spec_fn(PairedDeviceRecord) -> bool {
    |d: PairedDeviceRecord| d.device_id == id
}

/// What a device may do after its input was switched: taking the input away
/// leaves watching only, giving it adds input and resizing.
pub open spec fn toggled(capabilities: ControllerCapabilities) -> ControllerCapabilities {
    if capabilities.send_input {
        ControllerCapabilities {
            observe_sessions: true,
            attach_output: true,
            send_input: false,
            resize: false,
            others: 0,
        }
    } else {
        ControllerCapabilities { send_input: true, resize: true, ..capabilities }
    }
}

/// Switching the input of a device flips it, and a device whose input was taken
/// away may do nothing but watch.
pub proof fn law_restricted_devices_only_watch(capabilities: ControllerCapabilities)
    ensures
        toggled(capabilities).send_input == !capabilities.send_input,
        capabilities.send_input ==> toggled(capabilities) == (ControllerCapabilities {
            observe_sessions: true,
            attach_output: true,
            send_input: false,
            resize: false,
            others: 0,
        }),
{
}

/// What came of replacing the machine's identity.
#[derive(Debug)]
pub struct ResetOutcome {
    pub state: HostIdentityState,
    pub identity: Option<HostIdentityPublic>,
    /// The old secret could not be deleted.
    pub deletion_failed: bool,
}

impl RemoteDevicesState {
    pub open spec fn found(self, id: ControllerDeviceId) -> Option<PairedDeviceRecord> {
        lists::first_where(self.devices@, is_device(id))
    }

    /// The state after reading the store returned `loaded`.
    pub open spec fn refreshed(
        self,
        loaded: Result<ControllerAuthority, ControllerDeviceStoreError>,
    ) -> Self {
        if !self.has_repository {
            self
        } else {
            match loaded {
                Ok(authority) => RemoteDevicesState {
                    identity_state: authority.state,
                    identity: authority.identity,
                    devices: authority.devices,
                    failure: None,
                    ..self
                },
                Err(error) => RemoteDevicesState { failure: Some(store_failure(error)), ..self },
            }
        }
    }

    /// The state is empty but for the failure.
    pub open spec fn is_failed(self, failure: RemoteDevicesFailure) -> bool {
        &&& !self.has_repository
        &&& self.identity_state == HostIdentityState::Lost
        &&& self.identity is None
        &&& self.devices@.len() == 0
        &&& self.failure == Some(failure)
        &&& !self.route_available
        &&& self.pairing_state == PairingUiState::StorageFailure
        &&& self.editing_device_id is None
    }

    pub fn failed(failure: RemoteDevicesFailure) -> (r: Self)
        ensures
            r.is_failed(failure),
    {
        RemoteDevicesState {
            has_repository: false,
            identity_state: HostIdentityState::Lost,
            identity: None,
            devices: Vec::new(),
            failure: Some(failure),
            route_available: false,
            pairing_state: PairingUiState::StorageFailure,
            editing_device_id: None,
        }
    }

    pub fn open_default(opening: RemoteDevicesOpening) -> (r: Self)
        ensures
            match opening {
                RemoteDevicesOpening::NoDirectory => r.is_failed(RemoteDevicesFailure::Unavailable),
                RemoteDevicesOpening::Refused(error) => r.is_failed(store_failure(error)),
                RemoteDevicesOpening::NoIdentity => r.is_failed(RemoteDevicesFailure::Permission),
                RemoteDevicesOpening::Opened { state, identity, loaded } => match loaded {
                    Err(error) => r.is_failed(store_failure(error)),
                    Ok(authority) => r == (RemoteDevicesState {
                        has_repository: true,
                        identity_state: state,
                        identity,
                        devices: authority.devices,
                        failure: None,
                        route_available: false,
                        pairing_state: PairingUiState::Idle,
                        editing_device_id: None,
                    }),
                },
            },
            r.has_repository <==> (opening matches RemoteDevicesOpening::Opened { loaded, .. } && loaded is Ok),
            r.failure is None <==> r.has_repository,
            r.pairing_state is Idle <==> r.has_repository,
            opening matches RemoteDevicesOpening::Opened { state, identity, loaded: Ok(authority) }
                ==> r.devices == authority.devices && r.identity == identity && r.identity_state == state,
            !r.route_available,
    {
        match opening {
            RemoteDevicesOpening::NoDirectory => Self::failed(RemoteDevicesFailure::Unavailable),
            RemoteDevicesOpening::Refused(error) => Self::failed(classify_store_failure(error)),
            RemoteDevicesOpening::NoIdentity => Self::failed(RemoteDevicesFailure::Permission),
            RemoteDevicesOpening::Opened { state, identity, loaded } => match loaded {
                Err(error) => Self::failed(classify_store_failure(error)),
                Ok(authority) => RemoteDevicesState {
                    has_repository: true,
                    identity_state: state,
                    identity,
                    devices: authority.devices,
                    failure: None,
                    route_available: false,
                    pairing_state: PairingUiState::Idle,
                    editing_device_id: None,
                },
            },
        }
    }

    /// Takes over what reading the store returned; says whether it could be read.
    pub fn refresh(&mut self, loaded: Result<ControllerAuthority, ControllerDeviceStoreError>) -> (r:
        bool)
        ensures
            *final(self) == old(self).refreshed(loaded),
            r == (old(self).has_repository && loaded is Ok),
            r <==> old(self).has_repository && loaded is Ok,
            r ==> final(self).failure is None,
            old(self).has_repository && !r ==> final(self).failure is Some,
    {
        if !self.has_repository {
            return false;
        }
        match loaded {
            Ok(authority) => {
                self.identity_state = authority.state;
                self.identity = authority.identity;
                self.devices = authority.devices;
                self.failure = None;
                true
            },
            Err(error) => {
                self.failure = Some(classify_store_failure(error));
                false
            },
        }
    }

    /// The device of that identity.
    pub fn device(&self, id: ControllerDeviceId) -> (r: Option<&PairedDeviceRecord>)
        ensures
            match self.found(id) {
                Some(device) => r == Some(&device),
                None => r is None,
            },
    {
        let ghost wanted = is_device(id);
        let mut i: usize = 0;
        while i < self.devices.len()
            invariant
                i <= self.devices@.len(),
                wanted == is_device(id),
                forall|k: int| 0 <= k < i ==> !wanted(#[trigger] self.devices@[k]),
            decreases self.devices@.len() - i,
        {
            if self.devices[i].device_id == id {
                proof {
                    lists::lemma_first_index(self.devices@, wanted, i as int);
                }
                return Some(&self.devices[i]);
            }
            i += 1;
        }
        proof {
            lists::lemma_first_index(self.devices@, wanted, i as int);
        }
        None
    }

    /// Revokes a device once the store has answered: `revoked` says that it did
    /// so. Without a store nothing changes.
    pub fn revoke_remote_device(
        &mut self,
        revoked: bool,
        loaded: Result<ControllerAuthority, ControllerDeviceStoreError>,
        notices: &mut Notices,
    )
        ensures
            ({
                let done = old(self).has_repository && revoked;
                &&& *final(self) == if done {
                    (RemoteDevicesState {
                        pairing_state: PairingUiState::Revoked,
                        ..*old(self)
                    }).refreshed(loaded)
                } else {
                    *old(self)
                }
                &&& *final(notices) == if done && loaded is Ok {
                    ui::informed(
                        *old(notices),
                        Text::Message(MessageId::RemoteDevicesRevokedNotice),
                    )
                } else {
                    ui::failed(
                        *old(notices),
                        Text::Message(MessageId::RemoteDevicesOperationFailed),
                    )
                }
            }),
            !revoked ==> final(self).pairing_state == old(self).pairing_state && final(notices).error is Some,
            old(self).has_repository && revoked ==> final(self).pairing_state is Revoked,
            final(notices).status == Some(Text::Message(MessageId::RemoteDevicesRevokedNotice))
                || final(notices).status == old(notices).status,
    {
        if self.has_repository && revoked {
            self.pairing_state = PairingUiState::Revoked;
            if self.refresh(loaded) {
                notices.inform(Text::Message(MessageId::RemoteDevicesRevokedNotice));
                return;
            }
        }
        notices.fail(Text::Message(MessageId::RemoteDevicesOperationFailed));
    }

    /// What a device may do once its input is switched.
    pub fn toggle_input_request(&self, id: ControllerDeviceId) -> (r: Option<
        ControllerCapabilities,
    >)
        ensures
            r == match self.found(id) {
                Some(device) if self.has_repository => Some(toggled(device.capabilities)),
                _ => None,
            },
            r is Some ==> self.has_repository,
            r matches Some(changed) ==> (self.found(id) matches Some(device) && changed.send_input
                != device.capabilities.send_input),
            self.has_repository && self.found(id) is Some ==> r is Some,
    {
        match self.device(id) {
            None => None,
            Some(device) => {
                let current: ControllerCapabilities = device.capabilities;
                let next: ControllerCapabilities = if current.send_input {
                    ControllerCapabilities {
                        observe_sessions: true,
                        attach_output: true,
                        send_input: false,
                        resize: false,
                        others: 0,
                    }
                } else {
                    ControllerCapabilities {
                        observe_sessions: current.observe_sessions,
                        attach_output: current.attach_output,
                        send_input: true,
                        resize: true,
                        others: current.others,
                    }
                };
                if self.has_repository {
                    Some(next)
                } else {
                    None
                }
            },
        }
    }

    /// Takes over that the capabilities of a device were changed; `changed` says
    /// that the change could be asked for and was made.
    pub fn toggle_remote_device_input(
        &mut self,
        changed: bool,
        loaded: Result<ControllerAuthority, ControllerDeviceStoreError>,
        notices: &mut Notices,
    )
        ensures
            *final(self) == if changed {
                old(self).refreshed(loaded)
            } else {
                *old(self)
            },
            *final(notices) == if changed && old(self).has_repository && loaded is Ok {
                ui::informed(
                    *old(notices),
                    Text::Message(MessageId::RemoteDevicesCapabilitiesSaved),
                )
            } else {
                ui::failed(*old(notices), Text::Message(MessageId::RemoteDevicesOperationFailed))
            },
            !changed ==> final(self).devices == old(self).devices && final(notices).error is Some,
            changed && old(self).has_repository && loaded is Ok ==> final(self).devices
                == loaded->Ok_0.devices && final(notices).error == old(notices).error,
    {
        if changed && self.refresh(loaded) {
            notices.inform(Text::Message(MessageId::RemoteDevicesCapabilitiesSaved));
        } else {
            notices.fail(Text::Message(MessageId::RemoteDevicesOperationFailed));
        }
    }

    pub fn start_remote_device_rename(&mut self, id: ControllerDeviceId)
        ensures
            *final(self) == (RemoteDevicesState { editing_device_id: Some(id), ..*old(self) }),
            final(self).editing_device_id == Some(id),
            final(self).devices == old(self).devices,
    {
        self.editing_device_id = Some(id);
    }

    pub fn cancel_remote_device_rename(&mut self)
        ensures
            *final(self) == (RemoteDevicesState { editing_device_id: None, ..*old(self) }),
            final(self).editing_device_id is None,
            final(self).devices == old(self).devices,
    {
        self.editing_device_id = None;
    }

    /// Takes over that a device was renamed; the field stays open where it was
    /// not.
    pub fn save_remote_device_name(
        &mut self,
        renamed: bool,
        loaded: Result<ControllerAuthority, ControllerDeviceStoreError>,
        notices: &mut Notices,
    )
        ensures
            ({
                let done = old(self).has_repository && renamed;
                let after = if done {
                    old(self).refreshed(loaded)
                } else {
                    *old(self)
                };
                if done && loaded is Ok {
                    &&& *final(self) == (RemoteDevicesState { editing_device_id: None, ..after })
                    &&& *final(notices) == ui::informed(
                        *old(notices),
                        Text::Message(MessageId::RemoteDevicesNameSaved),
                    )
                } else {
                    &&& *final(self) == after
                    &&& *final(notices) == ui::failed(
                        *old(notices),
                        Text::Message(MessageId::RemoteDevicesOperationFailed),
                    )
                }
            }),
            renamed && old(self).has_repository && loaded is Ok ==> final(self).editing_device_id is None,
            !(renamed && old(self).has_repository && loaded is Ok) ==> final(self).editing_device_id
                == old(self).editing_device_id && final(notices).error is Some,
    {
        if self.has_repository && renamed && self.refresh(loaded) {
            self.editing_device_id = None;
            notices.inform(Text::Message(MessageId::RemoteDevicesNameSaved));
        } else {
            notices.fail(Text::Message(MessageId::RemoteDevicesOperationFailed));
        }
    }

    /// Takes over a new identity of the machine. Where the store cannot be read
    /// afterwards the new identity stays, but the reset is reported as failed.
    pub fn reset_remote_identity(
        &mut self,
        outcome: Result<ResetOutcome, ()>,
        loaded: Result<ControllerAuthority, ControllerDeviceStoreError>,
        notices: &mut Notices,
    )
        ensures
            match outcome {
                Ok(reset) if old(self).has_repository => {
                    &&& *final(self) == (RemoteDevicesState {
                        identity_state: reset.state,
                        identity: reset.identity,
                        ..*old(self)
                    }).refreshed(loaded)
                    &&& *final(notices) == if loaded is Err {
                        ui::failed(
                            *old(notices),
                            Text::Message(MessageId::RemoteDevicesOperationFailed),
                        )
                    } else if reset.deletion_failed {
                        ui::informed(
                            *old(notices),
                            Text::Message(MessageId::RemoteDevicesResetOldKeyWarning),
                        )
                    } else {
                        ui::informed(
                            *old(notices),
                            Text::Message(MessageId::RemoteDevicesResetComplete),
                        )
                    }
                },
                _ => {
                    &&& *final(self) == *old(self)
                    &&& *final(notices) == ui::failed(
                        *old(notices),
                        Text::Message(MessageId::RemoteDevicesOperationFailed),
                    )
                },
            },
            outcome is Err ==> final(self).identity == old(self).identity && final(notices).error is Some,
            (outcome matches Ok(reset) && old(self).has_repository && loaded is Err) ==> final(self).identity
                == outcome->Ok_0.identity && final(notices).error is Some,
            (outcome matches Ok(reset) && old(self).has_repository && loaded is Ok && reset.deletion_failed)
                ==> final(notices).status == Some(
                Text::Message(MessageId::RemoteDevicesResetOldKeyWarning),
            ),
            (outcome matches Ok(reset) && old(self).has_repository && loaded is Ok && !reset.deletion_failed)
                ==> final(notices).status == Some(Text::Message(MessageId::RemoteDevicesResetComplete)),
    {
        if self.has_repository {
            match outcome {
                Ok(reset) => {
                    self.identity_state = reset.state;
                    self.identity = reset.identity;
                    if self.refresh(loaded) {
                        notices.inform(
                            Text::Message(
                                if reset.deletion_failed {
                                    MessageId::RemoteDevicesResetOldKeyWarning
                                } else {
                                    MessageId::RemoteDevicesResetComplete
                                },
                            ),
                        );
                        return;
                    }
                },
                Err(_) => {},
            }
        }
        notices.fail(Text::Message(MessageId::RemoteDevicesOperationFailed));
    }
}

/// A reset is confirmed by typing one word.
pub open spec fn confirms_reset(typed: Seq<char>) -> bool {
    typed == "RESET"@
}

/// Says that the fingerprint was copied.
pub fn report_fingerprint_copied(notices: &mut Notices)
    ensures
        *final(notices) == ui::informed(
            *old(notices),
            Text::Message(MessageId::RemoteDevicesFingerprintCopied),
        ),
        final(notices).error == old(notices).error && final(notices).status is Some,
{
    notices.inform(Text::Message(MessageId::RemoteDevicesFingerprintCopied));
}

/// Whether the identity is to be replaced.
pub fn confirm_identity_reset(typed: &str, notices: &mut Notices) -> (r: bool)
    ensures
        r == confirms_reset(typed@),
        *final(notices) == if r {
            *old(notices)
        } else {
            ui::failed(
                *old(notices),
                Text::Message(MessageId::RemoteDevicesResetConfirmationRequired),
            )
        },
        r <==> typed@ == "RESET"@,
        !r ==> final(notices).error is Some,
{
    if text::same_text(typed, "RESET") {
        return true;
    }
    notices.fail(Text::Message(MessageId::RemoteDevicesResetConfirmationRequired));
    false
}

/// What can be asked for in the card.
#[derive(Debug, PartialEq, Eq)]
pub enum RemoteDevicesAction {
    AddController,
    CopyFingerprint(String),
    ToggleInput(ControllerDeviceId),
    Revoke(ControllerDeviceId),
    SaveName(ControllerDeviceId),
    CancelName,
    EditName(ControllerDeviceId, String),
    ResetIdentity,
}

#[derive(Debug)]
pub struct RemoteDeviceRow {
    pub key: u64,
    pub name: String,
    pub detail: Text,
    pub last_seen: Text,
    pub buttons: Vec<ButtonView<RemoteDevicesAction>>,
    pub name_field: bool,
    pub name_buttons: Vec<ButtonView<RemoteDevicesAction>>,
}

pub open spec fn device_buttons(device: PairedDeviceRecord, key: u64) -> Seq<
    ButtonView<RemoteDevicesAction>,
> {
    let revoked = device.status == PairedDeviceStatus::Revoked;
    seq![
        ui::disabled_if(
            ui::plain_button(
                "remote-device-capabilities",
                key,
                Text::Message(
                    if device.capabilities.send_input {
                        MessageId::RemoteDevicesRestrictInputAction
                    } else {
                        MessageId::RemoteDevicesAllowInputAction
                    },
                ),
                None,
                Emphasis::Plain,
                RemoteDevicesAction::ToggleInput(device.device_id),
            ),
            revoked,
        ),
        ui::disabled_if(
            ui::plain_button(
                "remote-device-revoke",
                key,
                Text::Message(MessageId::RemoteDevicesRevokeAction),
                None,
                Emphasis::Danger,
                RemoteDevicesAction::Revoke(device.device_id),
            ),
            revoked,
        ),
    ]
}

pub open spec fn name_buttons(device: PairedDeviceRecord, key: u64, editing: bool) -> Seq<
    ButtonView<RemoteDevicesAction>,
> {
    if editing {
        seq![
            ui::plain_button(
                "remote-device-name-save",
                key,
                Text::Message(MessageId::RemoteDevicesNameSaveAction),
                None,
                Emphasis::Plain,
                RemoteDevicesAction::SaveName(device.device_id),
            ),
            ui::plain_button(
                "remote-device-name-cancel",
                key,
                Text::Message(MessageId::CommonCancel),
                None,
                Emphasis::Plain,
                RemoteDevicesAction::CancelName,
            ),
        ]
    } else {
        seq![
            ui::disabled_if(
                ui::plain_button(
                    "remote-device-name-edit",
                    key,
                    Text::Message(MessageId::RemoteDevicesNameEditAction),
                    None,
                    Emphasis::Plain,
                    RemoteDevicesAction::EditName(device.device_id, device.display_name),
                ),
                device.status == PairedDeviceStatus::Revoked,
            ),
        ]
    }
}

/// The row shows the device. A revoked device can neither be changed nor renamed.
pub open spec fn shows_device(
    row: RemoteDeviceRow,
    device: PairedDeviceRecord,
    index: int,
    editing: Option<ControllerDeviceId>,
) -> bool {
    &&& row.key == index as u64
    &&& row.name == device.display_name
    &&& row.detail == Text::FilledTwo(
        MessageId::RemoteDevicesDeviceDetail,
        Atom::Value(device.fingerprint_suffix),
        Atom::Message(device_message(device.status)),
    )
    &&& row.last_seen == match device.last_seen {
        Some(ago) => Text::Filled(MessageId::RemoteDevicesLastSeen, Atom::Value(ago)),
        None => Text::Message(MessageId::RemoteDevicesNeverSeen),
    }
    &&& row.buttons@ == device_buttons(device, row.key)
    &&& row.name_field == (editing == Some(device.device_id))
    &&& row.name_buttons@ == name_buttons(device, row.key, row.name_field)
}

fn remote_device_row(
    index: usize,
    device: &PairedDeviceRecord,
    editing: Option<ControllerDeviceId>,
) -> (row: RemoteDeviceRow)
    ensures
        shows_device(row, *device, index as int, editing),
{
    let id: ControllerDeviceId = device.device_id;
    let key: u64 = index as u64;
    let revoked: bool = device.status == PairedDeviceStatus::Revoked;
    let own: bool = editing == Some(id);
    let mut buttons: Vec<ButtonView<RemoteDevicesAction>> = Vec::new();
    buttons.push(
        ui::button(
            "remote-device-capabilities",
            key,
            Text::Message(
                if device.capabilities.send_input {
                    MessageId::RemoteDevicesRestrictInputAction
                } else {
                    MessageId::RemoteDevicesAllowInputAction
                },
            ),
            None,
            Emphasis::Plain,
            RemoteDevicesAction::ToggleInput(id),
        ).with_disabled(revoked),
    );
    buttons.push(
        ui::button(
            "remote-device-revoke",
            key,
            Text::Message(MessageId::RemoteDevicesRevokeAction),
            None,
            Emphasis::Danger,
            RemoteDevicesAction::Revoke(id),
        ).with_disabled(revoked),
    );
    assert(buttons@ =~= device_buttons(*device, key));
    let mut naming: Vec<ButtonView<RemoteDevicesAction>> = Vec::new();
    if own {
        naming.push(
            ui::button(
                "remote-device-name-save",
                key,
                Text::Message(MessageId::RemoteDevicesNameSaveAction),
                None,
                Emphasis::Plain,
                RemoteDevicesAction::SaveName(id),
            ),
        );
        naming.push(
            ui::button(
                "remote-device-name-cancel",
                key,
                Text::Message(MessageId::CommonCancel),
                None,
                Emphasis::Plain,
                RemoteDevicesAction::CancelName,
            ),
        );
    } else {
        naming.push(
            ui::button(
                "remote-device-name-edit",
                key,
                Text::Message(MessageId::RemoteDevicesNameEditAction),
                None,
                Emphasis::Plain,
                RemoteDevicesAction::EditName(id, device.display_name.clone()),
            ).with_disabled(revoked),
        );
    }
    assert(naming@ =~= name_buttons(*device, key, own));
    RemoteDeviceRow {
        key,
        name: device.display_name.clone(),
        detail: Text::FilledTwo(
            MessageId::RemoteDevicesDeviceDetail,
            Atom::Value(device.fingerprint_suffix.clone()),
            Atom::Message(remote_device_status(device.status)),
        ),
        last_seen: match &device.last_seen {
            Some(ago) => Text::Filled(MessageId::RemoteDevicesLastSeen, Atom::Value(ago.clone())),
            None => Text::Message(MessageId::RemoteDevicesNeverSeen),
        },
        buttons,
        name_field: own,
        name_buttons: naming,
    }
}

/// The route over which controllers are added.
#[derive(Debug)]
pub struct RemoteRouteSection {
    pub label: MessageId,
    pub state: MessageId,
    pub add: ButtonView<RemoteDevicesAction>,
    pub pairing: MessageId,
    pub required: Option<MessageId>,
}

#[derive(Debug)]
pub struct RemoteIdentitySection {
    pub label: MessageId,
    pub status: MessageId,
    pub fingerprint: Option<String>,
    pub copy: Option<ButtonView<RemoteDevicesAction>>,
    pub explanation: MessageId,
}

#[derive(Debug)]
pub struct RemoteResetSection {
    pub title: MessageId,
    pub description: MessageId,
    pub placeholder: MessageId,
    pub reset: ButtonView<RemoteDevicesAction>,
}

#[derive(Debug)]
pub struct RemoteDevicesCard {
    pub title: MessageId,
    pub description: MessageId,
    pub route: RemoteRouteSection,
    pub identity: RemoteIdentitySection,
    pub devices_title: MessageId,
    pub devices_empty: Option<MessageId>,
    pub devices: Vec<RemoteDeviceRow>,
    pub reset: RemoteResetSection,
}

impl RemoteDevicesState {
    /// A controller can be added only over an available route.
    pub open spec fn route_section(self) -> RemoteRouteSection {
        RemoteRouteSection {
            label: MessageId::RemoteDevicesRouteLabel,
            state: MessageId::RemoteDevicesRouteOff,
            add: ui::disabled_if(
                ui::plain_button(
                    "remote-devices-add",
                    0,
                    Text::Message(MessageId::RemoteDevicesAddAction),
                    Some(Icon::Plus),
                    Emphasis::Plain,
                    RemoteDevicesAction::AddController,
                ),
                !self.route_available,
            ),
            pairing: pairing_message(self.pairing_state),
            required: if self.route_available {
                None
            } else {
                Some(MessageId::RemoteDevicesRouteRequired)
            },
        }
    }

    pub open spec fn identity_section(self) -> RemoteIdentitySection {
        RemoteIdentitySection {
            label: MessageId::RemoteDevicesIdentityLabel,
            status: identity_message(self.identity_state, self.failure),
            fingerprint: match self.identity {
                Some(identity) => Some(identity.fingerprint),
                None => None,
            },
            copy: match self.identity {
                Some(identity) => Some(
                    ui::plain_button(
                        "remote-devices-copy-fingerprint",
                        0,
                        Text::Message(MessageId::RemoteDevicesCopyAction),
                        Some(Icon::Copy),
                        Emphasis::Plain,
                        RemoteDevicesAction::CopyFingerprint(identity.fingerprint),
                    ),
                ),
                None => None,
            },
            explanation: MessageId::RemoteDevicesFingerprintExplanation,
        }
    }

    fn route_view(&self) -> (r: RemoteRouteSection)
        ensures
            r == self.route_section(),
    {
        RemoteRouteSection {
            label: MessageId::RemoteDevicesRouteLabel,
            state: MessageId::RemoteDevicesRouteOff,
            add: ui::button(
                "remote-devices-add",
                0,
                Text::Message(MessageId::RemoteDevicesAddAction),
                Some(Icon::Plus),
                Emphasis::Plain,
                RemoteDevicesAction::AddController,
            ).with_disabled(!self.route_available),
            pairing: pairing_ui_status(self.pairing_state),
            required: if self.route_available {
                None
            } else {
                Some(MessageId::RemoteDevicesRouteRequired)
            },
        }
    }

    fn identity_view(&self) -> (r: RemoteIdentitySection)
        ensures
            r == self.identity_section(),
    {
        let (fingerprint, copy): (Option<String>, Option<ButtonView<RemoteDevicesAction>>) =
            match &self.identity {
            Some(identity) => (
                Some(identity.fingerprint.clone()),
                Some(
                    ui::button(
                        "remote-devices-copy-fingerprint",
                        0,
                        Text::Message(MessageId::RemoteDevicesCopyAction),
                        Some(Icon::Copy),
                        Emphasis::Plain,
                        RemoteDevicesAction::CopyFingerprint(identity.fingerprint.clone()),
                    ),
                ),
            ),
            None => (None, None),
        };
        RemoteIdentitySection {
            label: MessageId::RemoteDevicesIdentityLabel,
            status: remote_identity_status(self.identity_state, self.failure),
            fingerprint,
            copy,
            explanation: MessageId::RemoteDevicesFingerprintExplanation,
        }
    }

    /// The card; `reset_typed` is what was typed to confirm a reset.
    pub fn remote_devices_card(&self, reset_typed: &str) -> (r: RemoteDevicesCard)
        ensures
            r.title == MessageId::RemoteDevicesTitle,
            r.description == MessageId::RemoteDevicesDescription,
            r.route == self.route_section(),
            r.identity == self.identity_section(),
            r.devices_title == MessageId::RemoteDevicesTrustedTitle,
            r.devices_empty == if self.devices@.len() == 0 {
                Some(MessageId::RemoteDevicesEmpty)
            } else {
                None
            },
            r.devices@.len() == self.devices@.len(),
            forall|i: int|
                0 <= i < r.devices@.len() ==> shows_device(
                    #[trigger] r.devices@[i],
                    self.devices@[i],
                    i,
                    self.editing_device_id,
                ),
            r.reset == (RemoteResetSection {
                title: MessageId::RemoteDevicesResetTitle,
                description: MessageId::RemoteDevicesResetDescription,
                placeholder: MessageId::RemoteDevicesResetPlaceholder,
                reset: ui::disabled_if(
                    ui::plain_button(
                        "remote-devices-reset",
                        0,
                        Text::Message(MessageId::RemoteDevicesResetAction),
                        Some(Icon::Delete),
                        Emphasis::Danger,
                        RemoteDevicesAction::ResetIdentity,
                    ),
                    !confirms_reset(reset_typed@),
                ),
            }),
            r.devices_empty is Some <==> self.devices@.len() == 0,
            r.reset.reset.disabled <==> reset_typed@ != "RESET"@,
            r.reset.reset.action is ResetIdentity,
    {
        let mut devices: Vec<RemoteDeviceRow> = Vec::new();
        let mut i: usize = 0;
        while i < self.devices.len()
            invariant
                i <= self.devices@.len(),
                devices@.len() == i,
                forall|k: int|
                    0 <= k < i ==> shows_device(
                        #[trigger] devices@[k],
                        self.devices@[k],
                        k,
                        self.editing_device_id,
                    ),
            decreases self.devices@.len() - i,
        {
            devices.push(remote_device_row(i, &self.devices[i], self.editing_device_id));
            i += 1;
        }
        let confirmed: bool = text::same_text(reset_typed, "RESET");
        RemoteDevicesCard {
            title: MessageId::RemoteDevicesTitle,
            description: MessageId::RemoteDevicesDescription,
            route: self.route_view(),
            identity: self.identity_view(),
            devices_title: MessageId::RemoteDevicesTrustedTitle,
            devices_empty: if self.devices.len() == 0 {
                Some(MessageId::RemoteDevicesEmpty)
            } else {
                None
            },
            devices,
            reset: RemoteResetSection {
                title: MessageId::RemoteDevicesResetTitle,
                description: MessageId::RemoteDevicesResetDescription,
                placeholder: MessageId::RemoteDevicesResetPlaceholder,
                reset: ui::button(
                    "remote-devices-reset",
                    0,
                    Text::Message(MessageId::RemoteDevicesResetAction),
                    Some(Icon::Delete),
                    Emphasis::Danger,
                    RemoteDevicesAction::ResetIdentity,
                ).with_disabled(!confirmed),
            },
        }
    }
}

/// A controller can be added exactly where there is a route, and the card says so
/// where there is none.
pub proof fn law_adding_needs_a_route(state: RemoteDevicesState)
    ensures
        state.route_section().add.disabled <==> !state.route_available,
        state.route_section().required is Some <==> !state.route_available,
{
}

/// Each status of a device is told in words of its own.
pub proof fn law_each_device_status_has_its_words(status: PairedDeviceStatus)
    ensures
        device_message(status) == MessageId::RemoteDevicesStatusOnline <==> status is Online,
        device_message(status) == MessageId::RemoteDevicesStatusOffline <==> status is Offline,
        device_message(status) == MessageId::RemoteDevicesStatusRevoked <==> status is Revoked,
{
}

/// Each state of pairing is told in words of its own.
pub proof fn law_each_pairing_state_has_its_words(state: PairingUiState)
    ensures
        pairing_message(state) == MessageId::RemoteDevicesPairingIdle <==> state is Idle,
        pairing_message(state) == MessageId::RemoteDevicesPairingGenerating <==> state is Generating,
        pairing_message(state) == MessageId::RemoteDevicesPairingWaiting <==> state is Waiting,
        pairing_message(state) == MessageId::RemoteDevicesPairingSasReady <==> state is SasReady,
        pairing_message(state) == MessageId::RemoteDevicesPairingSasMismatch <==> state is SasMismatch,
        pairing_message(state) == MessageId::RemoteDevicesPairingExpired <==> state is Expired,
        pairing_message(state) == MessageId::RemoteDevicesPairingRateLimited <==> state is RateLimited,
        pairing_message(state) == MessageId::RemoteDevicesPairingStorageFailure <==> state is StorageFailure,
        pairing_message(state) == MessageId::RemoteDevicesPairingUncertain <==> state is Uncertain,
        pairing_message(state) == MessageId::RemoteDevicesPairingPaired <==> state is Paired,
        pairing_message(state) == MessageId::RemoteDevicesPairingRevoked <==> state is Revoked,
{
}

/// A failure of the store tells what went wrong: unreadable content, content of
/// a later version, missing permission, or anything else.
pub proof fn law_device_store_failures_are_told_apart(error: ControllerDeviceStoreError)
    ensures
        store_failure(error) is Corrupt <==> (error is Corrupt || error is TooLarge || error
            is UnsafeEntry || error is Domain),
        store_failure(error) is Newer <==> error is Newer,
        store_failure(error) is Permission <==> (error matches ControllerDeviceStoreError::Io {
            permission_denied,
        } && permission_denied),
        store_failure(error) is Unavailable <==> (error is StaleRevision || error
            is RevisionOverflow || (error matches ControllerDeviceStoreError::Io {
            permission_denied,
        } && !permission_denied)),
{
}

/// A failure of the store is told before the identity; the identity is called
/// ready only where nothing failed and it is.
pub proof fn law_failures_hide_the_identity(
    state: HostIdentityState,
    failure: Option<RemoteDevicesFailure>,
)
    ensures
        ({
            let told = identity_message(state, failure);
            &&& told == MessageId::RemoteDevicesIdentityReady <==> failure is None && state is Ready
            &&& told == MessageId::RemoteDevicesIdentityLocked <==> failure is None && state
                is Locked
            &&& told == MessageId::RemoteDevicesIdentityLost <==> failure is None && state is Lost
            &&& told == MessageId::RemoteDevicesResetRequired <==> failure is None && state
                is ResetRequired
            &&& told == MessageId::RemoteDevicesPermissionDenied <==> failure == Some(
                RemoteDevicesFailure::Permission,
            ) || (failure is None && state is PermissionDenied)
            &&& told == MessageId::RemoteDevicesStoreCorrupt <==> failure == Some(
                RemoteDevicesFailure::Corrupt,
            )
            &&& told == MessageId::RemoteDevicesStoreNewer <==> failure == Some(
                RemoteDevicesFailure::Newer,
            )
            &&& told == MessageId::RemoteDevicesUnavailable <==> failure == Some(
                RemoteDevicesFailure::Unavailable,
            )
        }),
{
}

/// Allowing input takes nothing away, and a device that was restricted and
/// allowed again may watch, type and resize and nothing more.
pub proof fn law_allowing_input_keeps_the_rest(capabilities: ControllerCapabilities)
    ensures
        !capabilities.send_input ==> toggled(capabilities).resize && toggled(
            capabilities,
        ).observe_sessions == capabilities.observe_sessions && toggled(capabilities).attach_output
            == capabilities.attach_output && toggled(capabilities).others == capabilities.others,
        capabilities.send_input ==> ({
            let again = toggled(toggled(capabilities));
            again.send_input && again.resize && again.observe_sessions && again.attach_output
                && again.others == 0
        }),
{
}

/// Reading the store shows what it holds and forgets the last failure; a failed
/// reading keeps what was shown and tells the failure. Neither touches the
/// route, the pairing or the name that is being edited.
pub proof fn law_refreshing_shows_the_store(
    state: RemoteDevicesState,
    loaded: Result<ControllerAuthority, ControllerDeviceStoreError>,
)
    ensures
        ({
            let after = state.refreshed(loaded);
            &&& !state.has_repository ==> after == state
            &&& after.has_repository == state.has_repository
            &&& after.route_available == state.route_available
            &&& after.pairing_state == state.pairing_state
            &&& after.editing_device_id == state.editing_device_id
            &&& state.has_repository ==> (loaded matches Ok(authority) ==> after.devices
                == authority.devices && after.identity == authority.identity
                && after.identity_state == authority.state && after.failure is None)
            &&& state.has_repository ==> (loaded is Err ==> after.devices == state.devices
                && after.identity == state.identity && after.identity_state == state.identity_state
                && after.failure is Some)
        }),
{
}

/// A device is found by its identity, the first one that has it.
pub proof fn law_devices_are_found_by_identity(
    state: RemoteDevicesState,
    id: ControllerDeviceId,
    k: int,
)
    requires
        0 <= k < state.devices@.len(),
        state.devices@[k].device_id == id,
        forall|j: int| 0 <= j < k ==> (#[trigger] state.devices@[j]).device_id != id,
    ensures
        state.found(id) == Some(state.devices@[k]),
{
    lists::lemma_first_index(state.devices@, is_device(id), k);
}

/// A device's buttons act on that device: they are out of reach once it is
/// revoked, and the first is called by what it would do.
pub proof fn law_device_buttons_act_on_their_device(
    device: PairedDeviceRecord,
    key: u64,
    editing: bool,
)
    ensures
        ({
            let buttons = device_buttons(device, key);
            &&& buttons.len() == 2
            &&& buttons[0].action == RemoteDevicesAction::ToggleInput(device.device_id)
            &&& buttons[1].action == RemoteDevicesAction::Revoke(device.device_id)
            &&& buttons[1].emphasis is Danger
            &&& buttons[0].emphasis is Plain
            &&& buttons[0].disabled <==> device.status is Revoked
            &&& buttons[1].disabled <==> device.status is Revoked
            &&& buttons[0].label == Text::Message(MessageId::RemoteDevicesRestrictInputAction)
                <==> device.capabilities.send_input
            &&& buttons[0].label == Text::Message(MessageId::RemoteDevicesAllowInputAction)
                <==> !device.capabilities.send_input
            &&& buttons[1].label == Text::Message(MessageId::RemoteDevicesRevokeAction)
        }),
        ({
            let buttons = name_buttons(device, key, editing);
            &&& editing ==> buttons.len() == 2 && buttons[0].action
                == RemoteDevicesAction::SaveName(device.device_id) && buttons[1].action
                == RemoteDevicesAction::CancelName && !buttons[0].disabled && !buttons[1].disabled
            &&& !editing ==> buttons.len() == 1 && buttons[0].action
                == RemoteDevicesAction::EditName(device.device_id, device.display_name) && (
            buttons[0].disabled <==> device.status is Revoked)
        }),
{
}

/// A row tells its device's name, fingerprint, status and when it was last seen,
/// and edits the name of the device that is being named and of no other.
pub proof fn law_device_rows_tell_of_their_device(
    row: RemoteDeviceRow,
    device: PairedDeviceRecord,
    index: int,
    editing: Option<ControllerDeviceId>,
)
    requires
        0 <= index <= u64::MAX,
        shows_device(row, device, index, editing),
    ensures
        row.key == index,
        row.name == device.display_name,
        row.detail matches Text::FilledTwo(_, Atom::Value(suffix), Atom::Message(status)) && suffix
            == device.fingerprint_suffix && (status == MessageId::RemoteDevicesStatusOnline
            <==> device.status is Online) && (status == MessageId::RemoteDevicesStatusRevoked
            <==> device.status is Revoked),
        device.last_seen is None <==> row.last_seen == Text::Message(
            MessageId::RemoteDevicesNeverSeen,
        ),
        device.last_seen matches Some(ago) ==> row.last_seen == Text::Filled(
            MessageId::RemoteDevicesLastSeen,
            Atom::Value(ago),
        ),
        row.name_field <==> editing == Some(device.device_id),
        row.name_field <==> row.name_buttons@.len() == 2,
{
}

/// The identity's fingerprint is shown, and copied, exactly where there is an
/// identity, and it is that identity's.
pub proof fn law_the_own_fingerprint_is_shown(state: RemoteDevicesState)
    ensures
        state.identity matches Some(identity) ==> ({
            let section = state.identity_section();
            &&& section.fingerprint == Some(identity.fingerprint)
            &&& section.copy matches Some(copy) && copy.action
                == RemoteDevicesAction::CopyFingerprint(identity.fingerprint)
        }),
        state.identity is None ==> state.identity_section().fingerprint is None
            && state.identity_section().copy is None,
        state.route_section().add.action is AddController,
{
}

/// An identity is reset only on the very word.
pub proof fn law_resetting_takes_the_very_word(typed: Seq<char>)
    ensures
        confirms_reset(typed) ==> typed.len() == 5 && typed[0] == 'R' && typed[1] == 'E'
            && typed[2] == 'S' && typed[3] == 'E' && typed[4] == 'T',
        typed == seq!['R', 'E', 'S', 'E', 'T'] ==> confirms_reset(typed),
{
    reveal_strlit("RESET");
    assert("RESET"@ =~= seq!['R', 'E', 'S', 'E', 'T']);
}

/// The sections of the card and their buttons say what they are about.
pub proof fn law_the_card_says_what_it_is_about(
    state: RemoteDevicesState,
    device: PairedDeviceRecord,
    key: u64,
)
    ensures
        state.route_section().label == MessageId::RemoteDevicesRouteLabel,
        state.route_section().state == MessageId::RemoteDevicesRouteOff,
        state.route_section().add.label == Text::Message(MessageId::RemoteDevicesAddAction),
        state.route_section().required matches Some(message) ==> message
            == MessageId::RemoteDevicesRouteRequired,
        state.identity_section().label == MessageId::RemoteDevicesIdentityLabel,
        state.identity_section().explanation == MessageId::RemoteDevicesFingerprintExplanation,
        state.identity_section().copy matches Some(copy) ==> copy.label == Text::Message(
            MessageId::RemoteDevicesCopyAction,
        ),
        name_buttons(device, key, true)[0].label == Text::Message(
            MessageId::RemoteDevicesNameSaveAction,
        ),
        name_buttons(device, key, true)[1].label == Text::Message(MessageId::CommonCancel),
        name_buttons(device, key, false)[0].label == Text::Message(
            MessageId::RemoteDevicesNameEditAction,
        ),
{
}

} // verus!
