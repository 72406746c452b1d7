//! An installation discovery engine for Visual Studio Code: it takes raw
//! uninstall-registry entries together with what the disk and the environment
//! show for them, validates each entry against publisher and display-name
//! heuristics, enriches it from the optional product and package descriptors,
//! derives the per-channel paths, and deduplicates the records across the two
//! registry scopes by case-insensitive installation path.

pub mod discovery;
pub mod manifest;
pub mod models;
pub mod output;
pub mod text;
pub mod version;
