//! Verified core of a dotfile symlink manager: the mod-file model, entry
//! resolution, base directories and the symlink decision logic.

pub mod text;
pub mod yaml;
pub mod config;
pub mod path;
pub mod entry;
pub mod filesystem;
pub mod symlink;
pub mod linker;
