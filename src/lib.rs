//! A launcher manager's data layer: launch items organised into groups, the
//! application settings, and the consolidated configuration snapshot, with the
//! create / partial-update / delete / cascade rules proved over them.

pub mod models;
pub mod outside;
pub mod items;
pub mod groups;
pub mod sync;
pub mod config;
