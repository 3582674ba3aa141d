//! Fluent desktop shell: hosted windows, compositor bookkeeping, taskbar geometry and helpers.

pub mod acrylic;
pub mod app_host;
pub mod clipboard;
pub mod context_menu_registry;
pub mod draw;
pub mod dwm;
pub mod explorer_view;
pub mod font_stub;
pub mod hosted_apps;
pub mod known_folder;
pub mod lnk;
pub mod session;
pub mod session_pointer;
pub mod session_win32;
pub mod shell;
pub mod shell_namespace;
pub mod taskbar;
pub mod wall_clock;
