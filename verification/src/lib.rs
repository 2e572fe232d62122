//! Verified core of the Sekiro tools launcher: configuration, the tool
//! manifest, tool installation and launch decisions, and the application's
//! state machine.
pub mod text;
pub mod paths;
pub mod config;
pub mod manifest;
pub mod tools;
pub mod setup;
pub mod launch;
pub mod wine;
pub mod proton_setup;
pub mod selection;
pub mod app;
pub mod ui;
pub mod screen;
pub mod toast;
pub mod tray;
pub mod report;
