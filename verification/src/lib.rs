//! Verified decision logic for two editor panels: a dockable terminal panel
//! (pane management, task-to-terminal matching, shell command assembly) and a
//! theme picker (candidate ordering, selection state, dismissal semantics).
//!
//! The host GUI framework owns the views, focus handles and event loops; this
//! crate owns the decisions those views act on, each stated as a contract.

pub mod events;
pub mod panel;
pub mod paste;
pub mod shell;
pub mod tasks;
pub mod text;
pub mod theme_selector;
