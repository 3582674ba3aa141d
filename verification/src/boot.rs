//! ZBM10, the UEFI boot manager: configuration policy, menu model and input geometry.

pub mod boot_config;
pub mod boot_menu;
pub mod boot_ui_gfx;
pub mod chainload;
pub mod handoff;
pub mod pointer_input;
