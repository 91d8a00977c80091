//! Verified core of the snippet manager: theme colours, schemes and checks,
//! snippet ordering, the command registry and palette, the help view's state,
//! and the decisions behind the git and gist panels of the terminal UI.
pub mod error;
pub mod listing;
pub mod paths;
pub mod sort;
pub mod text;
pub mod service;
pub mod theme;
pub mod tui;
