//! The plain state of the control layer.

pub mod app_flags;
pub mod capture_state;
pub mod network_state;
pub mod ui_state;
pub mod user_settings;
