//! Startup logic of the desktop client: which URL the main window loads,
//! and how the launch proceeds from it.

pub mod config;
pub mod launch;
