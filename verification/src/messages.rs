//! The messages that the interface shows. A message is an identity; its wording
//! in the current locale is looked up when it is drawn.
use vstd::prelude::*;

verus! {

#[derive(Clone, Copy, Debug, PartialEq, Eq, Hash, Structural)]
pub enum MessageId {
    ActivityCenterOperationFailed,
    CommonCancel,
    CommonOpen,
    CommonRetry,
    CommonRun,
    CommonSave,
    DevelopmentLocaleActive,
    GlobalPaletteArchivedFallback,
    GlobalPaletteEmpty,
    GlobalPaletteEmptyDetail,
    GlobalPaletteNoMatch,
    GlobalPaletteNoMatchDetail,
    GlobalPalettePosition,
    GlobalPaletteSearching,
    GlobalPaletteShortcutHint,
    GlobalPaletteTitle,
    GroupCollapseAction,
    GroupEditorEditTitle,
    GroupEditorNewTitle,
    GroupErrorDuplicate,
    GroupErrorGeneric,
    GroupErrorInvalidName,
    GroupErrorStale,
    GroupExpandAction,
    GroupMoveDownAction,
    GroupMoveSessionAction,
    GroupMoveToAction,
    GroupMoveToRootAction,
    GroupMoveUpAction,
    GroupNameField,
    GroupNewAction,
    GroupOrganizationUpdated,
    GroupRemoveAction,
    GroupRemoveDescription,
    GroupRemoveTitle,
    GroupRenameAction,
    GroupRepairStatus,
    GroupRunningSummary,
    GroupSessionCount,
    GroupUndoAction,
    GroupUngroupedLabel,
    NewSessionAction,
    NewSessionCancelStart,
    NewSessionCancelledClean,
    NewSessionDurableCopy,
    NewSessionExitedBeforeReady,
    NewSessionInitialInputField,
    NewSessionInitialInputHint,
    NewSessionPhaseAttaching,
    NewSessionPhaseCancelled,
    NewSessionPhaseDraft,
    NewSessionPhaseExited,
    NewSessionPhaseFailed,
    NewSessionPhaseGap,
    NewSessionPhaseIncompatible,
    NewSessionPhaseLive,
    NewSessionPhaseOffline,
    NewSessionPhaseOrphaned,
    NewSessionPhasePermissionDenied,
    NewSessionPhaseProvisioning,
    NewSessionPhaseRecordingPaused,
    NewSessionPhaseReplaying,
    NewSessionPhaseRunning,
    NewSessionPhaseStarting,
    NewSessionPhaseValidating,
    NewSessionPlatformHome,
    NewSessionPresetField,
    NewSessionPresetMissing,
    NewSessionPresetRequired,
    NewSessionProjectField,
    NewSessionProjectMissing,
    NewSessionReviewStale,
    NewSessionRiskWarning,
    NewSessionStartError,
    NewSessionStartingAction,
    NewSessionStatusReady,
    NewSessionStatusReadyInput,
    NewSessionStatusReviewInput,
    NewSessionStatusStarting,
    NewSessionStatusStopping,
    NewSessionStopAction,
    NewSessionTitle,
    NewSessionUnavailableValue,
    NewSessionValidationCancelled,
    NewSessionWarning,
    NewSessionWorkingDirectoryField,
    NewSessionWorkspaceTitle,
    NotificationModeInApp,
    NotificationModeOff,
    NotificationModeOs,
    NotificationPermissionDenied,
    NotificationPermissionGranted,
    NotificationPermissionRefreshed,
    NotificationPermissionStatus,
    NotificationPermissionUnavailable,
    NotificationPermissionUnknown,
    NotificationPreview,
    NotificationRecordingDescription,
    NotificationRecordingTitle,
    NotificationRefreshAction,
    NotificationResetAction,
    NotificationResetComplete,
    NotificationSettingsDescription,
    NotificationSettingsSaved,
    NotificationSettingsTitle,
    NotificationToggleOff,
    NotificationToggleOn,
    PaletteCurrentDirectory,
    PaletteDockerTarget,
    PaletteFilesScope,
    PaletteGitBranch,
    PaletteGroupSnippetDetail,
    PaletteHistoryDetail,
    PaletteKubernetesPod,
    PaletteParentDirectory,
    PalettePinnedGroupSnippetDetail,
    PalettePinnedSnippetDetail,
    PaletteRecentCommand,
    PaletteRecentPath,
    PaletteSnippetDetail,
    PaletteStartupPath,
    PaletteSystemdUnit,
    PaletteThisTarget,
    PresetAcceptAction,
    PresetAcceptedStatus,
    PresetArgumentAdd,
    PresetArgumentCount,
    PresetArgumentRemove,
    PresetArgumentsField,
    PresetDeleteAction,
    PresetDetectedVersion,
    PresetEditAction,
    PresetEnabledField,
    PresetErrorInvalid,
    PresetErrorRiskConfirm,
    PresetErrorStale,
    PresetExecutableField,
    PresetFavoriteField,
    PresetFormTitleEdit,
    PresetFormTitleNew,
    PresetLabelField,
    PresetMoveDownAction,
    PresetMoveUpAction,
    PresetPermissionAsk,
    PresetPermissionField,
    PresetPermissionReadOnly,
    PresetPermissionWorkspaceWrite,
    PresetRemovedStatus,
    PresetRiskConfirmField,
    PresetRiskWarning,
    PresetSafeCopy,
    PresetSaveAction,
    PresetSavedStatus,
    PresetStatusDisabled,
    PresetStatusFailed,
    PresetStatusMissing,
    PresetStatusPermission,
    PresetStatusRisky,
    PresetStatusSupported,
    PresetStatusTimeout,
    PresetStatusUnknown,
    PresetStatusUnsupported,
    PresetStoreCorrupt,
    PresetStoreNewer,
    PresetStoreRecovered,
    PresetStoreUnavailable,
    PresetSubdirectoryField,
    PresetWorkingDirectoryField,
    PresetWorkingHome,
    PresetWorkingProjectRoot,
    PresetWorkingSubdirectory,
    PresetsAddAction,
    PresetsDetectedTitle,
    PresetsEmptyDescription,
    PresetsEmptyTitle,
    PresetsReadyStatus,
    PresetsScanAction,
    PresetsScanCancelled,
    PresetsScanNone,
    PresetsScanPartial,
    PresetsScanning,
    PresetsSubtitle,
    PresetsTitle,
    ProductSurfaceStateReady,
    ProjectAddConfirm,
    ProjectAddedStatus,
    ProjectDuplicateStatus,
    ProjectErrorEmptyPath,
    ProjectErrorGeneric,
    ProjectErrorInvalidLabel,
    ProjectErrorNotDirectory,
    ProjectErrorPathTooLong,
    ProjectErrorPermissionDenied,
    ProjectErrorStale,
    ProjectErrorUnavailable,
    ProjectFilesStay,
    ProjectLabelField,
    ProjectRemoveAction,
    ProjectRemovedStatus,
    ProjectRestoredStatus,
    ProjectReviewDescription,
    ProjectReviewTitle,
    ProjectStatusAvailable,
    ProjectStatusPermissionDenied,
    ProjectStatusUnavailable,
    ProjectStoreCorrupt,
    ProjectStoreNewer,
    ProjectStoreRecovered,
    ProjectStoreUnavailable,
    ProjectUndoAction,
    ProjectUndoExpired,
    ProjectValidating,
    ProjectsAddAction,
    ProjectsEmptyDescription,
    ProjectsEmptyTitle,
    ProjectsFolderSafety,
    ProjectsLoading,
    ProjectsLocalOnly,
    ProjectsNavLabel,
    ProjectsReadyStatus,
    ProjectsSubtitle,
    ProjectsTitle,
    RecoveryCancelled,
    RecoveryComplete,
    RecoveryConfirmAction,
    RecoveryConfirmationRequired,
    RecoveryDescription,
    RecoveryErrorVerification,
    RecoveryInspecting,
    RecoveryNoChange,
    RecoveryPrepareAction,
    RecoveryRunning,
    RecoverySafetyNotice,
    RecoveryTitle,
    RemoteDevicesAddAction,
    RemoteDevicesAllowInputAction,
    RemoteDevicesCapabilitiesSaved,
    RemoteDevicesCopyAction,
    RemoteDevicesDescription,
    RemoteDevicesDeviceDetail,
    RemoteDevicesEmpty,
    RemoteDevicesFingerprintCopied,
    RemoteDevicesFingerprintExplanation,
    RemoteDevicesIdentityLabel,
    RemoteDevicesIdentityLocked,
    RemoteDevicesIdentityLost,
    RemoteDevicesIdentityReady,
    RemoteDevicesLastSeen,
    RemoteDevicesNameEditAction,
    RemoteDevicesNameSaveAction,
    RemoteDevicesNameSaved,
    RemoteDevicesNeverSeen,
    RemoteDevicesOperationFailed,
    RemoteDevicesPairingExpired,
    RemoteDevicesPairingGenerating,
    RemoteDevicesPairingIdle,
    RemoteDevicesPairingPaired,
    RemoteDevicesPairingRateLimited,
    RemoteDevicesPairingRevoked,
    RemoteDevicesPairingSasMismatch,
    RemoteDevicesPairingSasReady,
    RemoteDevicesPairingStorageFailure,
    RemoteDevicesPairingUncertain,
    RemoteDevicesPairingWaiting,
    RemoteDevicesPermissionDenied,
    RemoteDevicesResetAction,
    RemoteDevicesResetComplete,
    RemoteDevicesResetConfirmationRequired,
    RemoteDevicesResetDescription,
    RemoteDevicesResetOldKeyWarning,
    RemoteDevicesResetPlaceholder,
    RemoteDevicesResetRequired,
    RemoteDevicesResetTitle,
    RemoteDevicesRestrictInputAction,
    RemoteDevicesRevokeAction,
    RemoteDevicesRevokedNotice,
    RemoteDevicesRouteLabel,
    RemoteDevicesRouteOff,
    RemoteDevicesRouteRequired,
    RemoteDevicesStatusOffline,
    RemoteDevicesStatusOnline,
    RemoteDevicesStatusRevoked,
    RemoteDevicesStoreCorrupt,
    RemoteDevicesStoreNewer,
    RemoteDevicesTitle,
    RemoteDevicesTrustedTitle,
    RemoteDevicesUnavailable,
    RuntimeCapabilitiesNone,
    RuntimeCapabilityApprovals,
    RuntimeCapabilityCancellation,
    RuntimeCapabilityContext,
    RuntimeCapabilityInteractive,
    RuntimeCapabilityRemote,
    RuntimeCapabilityResume,
    RuntimeCapabilityStructured,
    RuntimeCapabilityTranscript,
    RuntimeConfidenceObserved,
    RuntimeConfidenceUncertain,
    RuntimeConfidenceVerified,
    RuntimeInspectorCapabilitiesLabel,
    RuntimeInspectorConfidenceLabel,
    RuntimeInspectorGenerationLabel,
    RuntimeInspectorOwnershipLabel,
    RuntimeInspectorRuntimeLabel,
    RuntimeInspectorVersionLabel,
    RuntimeLabelClaude,
    RuntimeLabelCodex,
    RuntimeLabelGemini,
    RuntimeLabelGeneric,
    RuntimeOwnershipAmbiguous,
    RuntimeOwnershipManaged,
    RuntimeOwnershipObserved,
    RuntimeStaleLabel,
    RuntimeUnverifiedExplanation,
    RuntimeVersionUnverified,
    SessionLibraryActiveView,
    SessionLibraryActivityBusy,
    SessionLibraryActivityDone,
    SessionLibraryActivityEstimated,
    SessionLibraryActivityFailed,
    SessionLibraryActivityIdle,
    SessionLibraryActivityLabel,
    SessionLibraryActivityNeedsInput,
    SessionLibraryActivityUnknown,
    SessionLibraryArchiveAction,
    SessionLibraryArchiveEmpty,
    SessionLibraryArchiveView,
    SessionLibraryConfirmRemoveAction,
    SessionLibraryFilterAll,
    SessionLibraryFilterEmpty,
    SessionLibraryFilterPinned,
    SessionLibraryFilterUnread,
    SessionLibraryInspectorTitle,
    SessionLibraryMarkReadAction,
    SessionLibraryMarkUnreadAction,
    SessionLibraryOperationComplete,
    SessionLibraryOperationFailed,
    SessionLibraryPinAction,
    SessionLibraryPinnedBadge,
    SessionLibraryPositionLabel,
    SessionLibraryRecoveredLastGood,
    SessionLibraryRemoveAction,
    SessionLibraryRemoveArtifacts,
    SessionLibraryRemoveConfirmPlaceholder,
    SessionLibraryRemoveFiles,
    SessionLibraryRemoveJournal,
    SessionLibraryRemoveMetadata,
    SessionLibraryRemoveTitle,
    SessionLibraryRemoveTranscript,
    SessionLibraryRemoveWarning,
    SessionLibraryRenameAction,
    SessionLibraryRestoreAction,
    SessionLibraryResumeAction,
    SessionLibraryStateLabel,
    SessionLibraryStopArchiveAction,
    SessionLibraryStopArchivePending,
    SessionLibraryStopArchiveWarning,
    SessionLibraryStoreCorrupt,
    SessionLibraryStoreNewer,
    SessionLibraryStorePermission,
    SessionLibraryStoreUnavailable,
    SessionLibraryTitleField,
    SessionLibraryTitleSourceAutomatic,
    SessionLibraryTitleSourceDefault,
    SessionLibraryTitleSourceImported,
    SessionLibraryTitleSourceLabel,
    SessionLibraryTitleSourceManual,
    SessionLibraryUnpinAction,
    SessionLibraryUnreadBadge,
    SessionResumeCancelled,
    SessionResumeConfirmAction,
    SessionResumeConversationField,
    SessionResumeErrorConflict,
    SessionResumeErrorLimit,
    SessionResumeErrorMalformed,
    SessionResumeErrorMissing,
    SessionResumeErrorOwnership,
    SessionResumeErrorPermission,
    SessionResumeErrorProvider,
    SessionResumeErrorStale,
    SessionResumeErrorStillRunning,
    SessionResumeErrorUnsupported,
    SessionResumeNotice,
    SessionResumePhaseFailed,
    SessionResumePhaseReview,
    SessionResumePhaseStarting,
    SessionResumePhaseValidating,
    SessionResumeProviderField,
    SessionResumeProviderValue,
    SessionResumeReady,
    SessionResumeSourceField,
    SessionResumeSuccessorField,
    SessionResumeTitle,
    SessionResumeWorkspaceTitle,
    SessionSidebarEmpty,
    SessionSidebarSelectProject,
    SessionSidebarSubtitle,
    SessionSidebarTitle,
    SettingsLocaleEnglish,
    SettingsLocaleExpanded,
    SettingsLocaleRtl,
    SettingsThemeDaylight,
    SettingsThemeOcean,
    SftpBackTerminalAction,
    SftpCancelTransferAction,
    SftpCloseHostPickerAction,
    SftpColumnKind,
    SftpColumnModified,
    SftpColumnName,
    SftpColumnSize,
    SftpConnectEmptyDescription,
    SftpConnectEmptyTitle,
    SftpConnectHostAction,
    SftpDeleteAction,
    SftpDownloadAction,
    SftpFileKind,
    SftpFilterAction,
    SftpFilterField,
    SftpFolderKind,
    SftpHostPickerTitle,
    SftpHostSummary,
    SftpLocalPane,
    SftpOpenFilesAction,
    SftpOpenLocalAction,
    SftpOpenedLocalFolder,
    SftpParentAction,
    SftpRefreshAction,
    SftpRemotePane,
    SftpReplaceAction,
    SftpResumeTransferAction,
    SftpRetryTransferAction,
    SftpRowHost,
    SftpRowLocalFile,
    SftpRowLocalFolder,
    SftpRowRemoteFile,
    SftpRowRemoteFolder,
    SftpRowRemoteSymlink,
    SftpSelectEntryAction,
    SftpSelectHostAction,
    SftpSkipAction,
    SftpStateEmpty,
    SftpStateError,
    SftpStateFilterEmpty,
    SftpStatePermission,
    SftpStateStale,
    SftpUploadAction,
    TranscriptExportAction,
    TranscriptExportUnavailableContract,
    WorktreeNewAction,
    WorktreeRecoveryBanner,
    WorktreeReviewRecoveryAction,
}

/// What can be filled into a message.
#[derive(Debug, PartialEq, Eq)]
pub enum Atom {
    Message(MessageId),
    Literal(&'static str),
    Value(String),
    Number(u64),
}

/// A text on screen.
#[derive(Debug, PartialEq, Eq)]
pub enum Text {
    /// A localized message.
    Message(MessageId),
    /// A fixed text, the same in every locale.
    Literal(&'static str),
    /// A text that the user or an outside program supplied.
    Value(String),
    /// A number in decimal.
    Number(u64),
    /// A localized message with one blank.
    Filled(MessageId, Atom),
    /// A localized message with two blanks.
    FilledTwo(MessageId, Atom, Atom),
    /// The first text, followed by the second in parentheses.
    Qualified(Atom, Atom),
    /// A position and a count, separated by a slash.
    Ratio(u64, u64),
}

/// What an `Atom` says, with texts as sequences of characters.
pub enum AtomView {
    Message(MessageId),
    Characters(Seq<char>),
    Number(u64),
}

/// What a `Text` says, with texts as sequences of characters.
pub enum TextView {
    Message(MessageId),
    Characters(Seq<char>),
    Number(u64),
    Filled(MessageId, AtomView),
    FilledTwo(MessageId, AtomView, AtomView),
    Qualified(AtomView, AtomView),
    Ratio(u64, u64),
}

impl View for Atom {
    type V = AtomView;

    open spec fn view(&self) -> AtomView {
        match *self {
            Atom::Message(id) => AtomView::Message(id),
            Atom::Literal(text) => AtomView::Characters(text@),
            Atom::Value(text) => AtomView::Characters(text@),
            Atom::Number(n) => AtomView::Number(n),
        }
    }
}

impl View for Text {
    type V = TextView;

    open spec fn view(&self) -> TextView {
        match *self {
            Text::Message(id) => TextView::Message(id),
            Text::Literal(text) => TextView::Characters(text@),
            Text::Value(text) => TextView::Characters(text@),
            Text::Number(n) => TextView::Number(n),
            Text::Filled(id, a) => TextView::Filled(id, a@),
            Text::FilledTwo(id, a, b) => TextView::FilledTwo(id, a@, b@),
            Text::Qualified(a, b) => TextView::Qualified(a@, b@),
            Text::Ratio(a, b) => TextView::Ratio(a, b),
        }
    }
}

impl Atom {
    pub fn duplicate(&self) -> (r: Self)
        ensures
            r == *self,
    {
        match self {
            Atom::Message(id) => Atom::Message(*id),
            Atom::Literal(text) => Atom::Literal(*text),
            Atom::Value(text) => Atom::Value(text.clone()),
            Atom::Number(n) => Atom::Number(*n),
        }
    }
}

impl Text {
    pub fn duplicate(&self) -> (r: Self)
        ensures
            r == *self,
    {
        match self {
            Text::Message(id) => Text::Message(*id),
            Text::Literal(text) => Text::Literal(*text),
            Text::Value(text) => Text::Value(text.clone()),
            Text::Number(n) => Text::Number(*n),
            Text::Filled(id, a) => Text::Filled(*id, a.duplicate()),
            Text::FilledTwo(id, a, b) => Text::FilledTwo(*id, a.duplicate(), b.duplicate()),
            Text::Qualified(a, b) => Text::Qualified(a.duplicate(), b.duplicate()),
            Text::Ratio(a, b) => Text::Ratio(*a, *b),
        }
    }
}

} // verus!
