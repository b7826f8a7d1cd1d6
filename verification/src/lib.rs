//! Verified logic of the ROSE Offline client tools: the launcher's
//! configuration and command line, its launch sequence, the reader for the
//! file list of a vanilla `data.idx` archive index, and the decisions taken by
//! a handful of the client's interface and audio systems.

pub mod audio;
pub mod debug_menu;
pub mod extract;
pub mod launcher;
pub mod systems;
pub mod text;
pub mod vfs_index;

