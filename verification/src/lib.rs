//! The decisions behind the project and session console: what is shown, what
//! may be done, and what each action changes.
pub mod domain;
pub mod group_repair;
pub mod ids;
pub mod lists;
pub mod matching;
pub mod messages;
pub mod new_session;
pub mod notification_settings;
pub mod overlay;
pub mod palette;
pub mod presets;
pub mod project_coordinator;
pub mod projects;
pub mod remote_devices;
pub mod runtimes;
pub mod saved_state;
pub mod session_controls;
pub mod session_coordinator;
pub mod session_labels;
pub mod session_library;
pub mod session_resume;
pub mod session_sidebar;
pub mod session_views;
pub mod settings_surface;
pub mod sftp;
pub mod suggestions;
pub mod text;
pub mod ui;
