//! Terminal-interface logic that does not draw: state helpers, clipboard
//! encoding, the help overlay, the command registry and when commands can
//! run, and what the git and gist panels show.
pub mod app;
pub mod bar;
pub mod clipboard;
pub mod help;
pub mod command;
pub mod commands;
pub mod event;
pub mod gist;
pub mod gist_panel;
pub mod git_console;
pub mod git_panel;
pub mod git_task;
pub mod icons;
pub mod modal;
pub mod preview;
pub mod session;
pub mod shortcuts;
