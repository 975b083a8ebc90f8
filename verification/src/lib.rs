//! The core of a small desktop app launcher: the persisted list of folders
//! and app shortcuts, the JSON form it is stored in, the command line a
//! shortcut is started with, and the decisions behind the launcher's two
//! windows. Everything here is plain computation with a proved contract;
//! the file, the processes and the windows themselves belong to the host.

pub mod codec;
pub mod config;
pub mod error;
pub mod json;
pub mod launch;
pub mod store;
pub mod window;

pub use config::{App, AppView, Config, ConfigView, Folder, FolderView};
pub use error::ConfigError;
pub use launch::{launch_command, LaunchCommand};
pub use store::{parse_config, read_config, render_config, write_config, CONFIG_FILE};
pub use window::{
    settings_window, show_settings_window, toggle_main_window, WindowAction, WindowOptions,
    WindowState, MAIN_WINDOW, SETTINGS_WINDOW, TOGGLE_SHORTCUT,
};
