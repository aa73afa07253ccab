//! State and view logic for a dashboard of local version-control
//! repositories.
//!
//! The crate scans a chosen folder for repositories (directories with a
//! `.git` subdirectory), builds one summary card per repository, and keeps
//! the dashboard state machine: picking a folder replaces the card list,
//! a card's detail action opens a drawer, and closing the drawer clears the
//! selection. Rendering and all I/O (directory listing, repository
//! inspection, the host toolkit) live outside; the functions here take and
//! return plain values and are verified against their contracts.

pub mod card;
pub mod dashboard;
pub mod drawer;
pub mod graph;
pub mod paths;
pub mod repo;
pub mod scan;
pub mod select;
pub mod timefmt;
