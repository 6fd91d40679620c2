use termirust_console::sftp::{
    classify_sftp_transfer_values, handle_sftp_accessibility_command, non_empty_sftp_name,
    remote_sftp_row_id, workspace_sftp_semantic_snapshot, FoundEntry, HostProfile, ListingError,
    LocalEntry, SftpAccessibilityCommand, SftpAction, SftpBrowser, SftpEntry, SftpLibrary,
    SftpRowId, SftpScreen, SftpStep, SftpSurfaceState, SftpTransfer, WorkspaceFiles,
};
use termirust_console::ui::SemanticActionValue;

#[test]
fn transfer_state_projection_preserves_conflict_cancel_and_partial_evidence() {
    assert_eq!(
        classify_sftp_transfer_values("Upload queued", true, false, false, 0),
        SftpSurfaceState::Queued
    );
    assert_eq!(
        classify_sftp_transfer_values("Cancellation requested...", true, false, false, 64),
        SftpSurfaceState::CancelRequested
    );
    assert_eq!(
        classify_sftp_transfer_values("waiting", false, true, false, 64),
        SftpSurfaceState::Conflict
    );
    assert_eq!(
        classify_sftp_transfer_values("failed", false, false, false, 64),
        SftpSurfaceState::Partial
    );
    assert_eq!(
        classify_sftp_transfer_values("complete", false, false, true, 64),
        SftpSurfaceState::Completed
    );
}

#[test]
fn remote_entry_ids_are_stable_and_workspace_scoped() {
    let path = "/srv/data.txt".to_string();
    let first = remote_sftp_row_id(7, &path);
    assert_eq!(first, remote_sftp_row_id(7, &path));
    assert_ne!(first, remote_sftp_row_id(8, &path));
    assert_ne!(first, remote_sftp_row_id(7, &"/srv/other.txt".to_string()));
}

#[test]
fn ended_transfers_are_classified_in_any_case() {
    let ended = |status: &str, bytes| {
        classify_sftp_transfer_values(status, false, false, false, bytes)
    };
    assert_eq!(ended("CANCELLED by user", 9), SftpSurfaceState::Cancelled);
    assert_eq!(ended("No Space left", 9), SftpSurfaceState::DiskFull);
    assert_eq!(ended("Queue Is Full", 9), SftpSurfaceState::ResourceLimit);
    assert_eq!(ended("Timed out", 9), SftpSurfaceState::Timeout);
    assert_eq!(ended("Permission denied", 9), SftpSurfaceState::PermissionDenied);
    assert_eq!(ended("Host UNREACHABLE", 9), SftpSurfaceState::Offline);
    assert_eq!(ended("broken", 0), SftpSurfaceState::Error);
    assert_eq!(
        classify_sftp_transfer_values("copying", true, false, false, 1),
        SftpSurfaceState::Transferring
    );
}

#[test]
fn blank_names_fall_back_to_the_path() {
    assert_eq!(non_empty_sftp_name("notes", "/srv/x"), "notes");
    assert_eq!(non_empty_sftp_name("  ", "/srv/x/"), "x");
    assert_eq!(non_empty_sftp_name("", "/"), "/");
}

fn library(picking: bool) -> SftpLibrary {
    SftpLibrary {
        local_path: "/home/me".to_string(),
        filter_input: String::new(),
        filter_visible: false,
        show_host_picker: picking,
        profiles: vec![HostProfile {
            id: "one".to_string(),
            display_name: "One".to_string(),
            username: "me".to_string(),
            endpoint: "one.test:22".to_string(),
        }],
    }
}

fn found(name: &str, is_dir: bool) -> FoundEntry {
    FoundEntry { name: name.to_string(), is_dir, modified: None, size: "1 B".to_string() }
}

fn entry(name: &str, is_dir: bool) -> LocalEntry {
    library(false).local_listing(&Ok(vec![found(name, is_dir)])).unwrap().remove(0)
}

#[test]
fn entries_stand_below_the_open_folder() {
    let mut browser = library(false);
    let listing = browser
        .local_listing(&Ok(vec![found("src", true), found("a.txt", false)]))
        .unwrap();
    let paths: Vec<&str> = listing.iter().map(|entry| entry.path.as_str()).collect();
    assert_eq!(
        paths,
        vec![format!("{}/src", browser.local_path), format!("{}/a.txt", browser.local_path)]
    );
    assert_eq!(
        browser.local_listing(&Err(ListingError::NotFound)).unwrap_err(),
        ListingError::NotFound
    );
    let opened = paths[0].to_string();
    let row = |path: &str| SftpRowId::Local { path: path.to_string() };
    browser.activate_sftp_row(&row(paths[1]), &listing, None, &Vec::new());
    assert_ne!(browser.local_path, paths[1]);
    browser.activate_sftp_row(&row(&opened), &listing, None, &Vec::new());
    assert_eq!(browser.local_path, opened);

    browser.local_path = "/".to_string();
    let root = browser.local_listing(&Ok(vec![found("etc", true)])).unwrap();
    assert_eq!(root[0].path, "/etc");
}

#[test]
fn the_library_lists_hosts_or_the_open_folder() {
    let hosts = library(true).library_sftp_semantic_snapshot(&Ok(Vec::new()), true, 10, false);
    assert_eq!(hosts.screen, SftpScreen::HostPicker);
    assert_eq!(hosts.rows[0].id, SftpRowId::Host { profile_id: "one".to_string() });

    let listing = Ok(vec![entry("src", true), entry("a.txt", false), entry("b.txt", false)]);
    let folder = library(false).library_sftp_semantic_snapshot(&listing, true, 2, true);
    assert_eq!(folder.screen, SftpScreen::Library);
    assert_eq!(folder.rows.len(), 2);
    assert!(folder.recording_friendly);
    let refused = library(false).library_sftp_semantic_snapshot(
        &Err(ListingError::PermissionDenied),
        true,
        2,
        false,
    );
    assert_eq!(refused.state, SftpSurfaceState::PermissionDenied);
}

fn workspace(transfer: Option<SftpTransfer>) -> WorkspaceFiles {
    WorkspaceFiles {
        browser: Some(SftpBrowser {
            entries: vec![SftpEntry {
                path: "/srv/data.txt".to_string(),
                name: String::new(),
                is_dir: false,
                is_symlink: false,
            }],
            selected_path: Some("/srv/data.txt".to_string()),
            selected_is_dir: Some(false),
            has_parent: true,
            loading: false,
            transfer,
        }),
        local_shell: false,
    }
}

#[test]
fn a_workspace_lists_its_entries_and_its_transfer() {
    let files = workspace(Some(SftpTransfer {
        operation_id: 4,
        label: "data.txt".to_string(),
        status: "uploading".to_string(),
        active: true,
        conflict: None,
        verified: false,
        transferred_bytes: 1,
    }));
    let snapshot = workspace_sftp_semantic_snapshot(7, Some(&files), 10, false);
    assert_eq!(snapshot.rows[0].name, "data.txt");
    assert!(snapshot
        .rows
        .iter()
        .any(|row| row.id == SftpRowId::Transfer { workspace_id: 7, operation_id: 4 }));
    let gone = workspace_sftp_semantic_snapshot(7, None, 10, false);
    assert!(gone.rows.is_empty());
}

#[test]
fn commands_reach_only_what_is_offered() {
    let files = workspace(None);
    let snapshot = workspace_sftp_semantic_snapshot(7, Some(&files), 10, false);
    let row = || SftpRowId::Remote { workspace_id: 7, path: "/srv/data.txt".to_string() };
    assert!(matches!(
        handle_sftp_accessibility_command(
            &snapshot,
            SftpAccessibilityCommand::ActivateRow(row()),
            None
        ),
        SftpStep::ActivateRow(_)
    ));
    let elsewhere = SftpRowId::Remote { workspace_id: 8, path: "/srv/data.txt".to_string() };
    assert!(matches!(
        handle_sftp_accessibility_command(
            &snapshot,
            SftpAccessibilityCommand::ActivateRow(elsewhere),
            None
        ),
        SftpStep::Nothing
    ));
    assert!(matches!(
        handle_sftp_accessibility_command(
            &snapshot,
            SftpAccessibilityCommand::ActivateControl(SftpAction::RefreshRemote(8)),
            None
        ),
        SftpStep::Nothing
    ));
    assert!(matches!(
        handle_sftp_accessibility_command(
            &snapshot,
            SftpAccessibilityCommand::SetControlValue(SftpAction::SetLocalFilter),
            Some(SemanticActionValue::Text("x".to_string()))
        ),
        SftpStep::Nothing
    ));
}
