//! Storage helpers shared by the rest of the crate.

pub mod archive;
pub mod fs_manager;
pub mod manifest_manager;
pub mod misc_serde;
pub mod nesting;
pub mod sections;
pub mod text;
pub mod text_map;
pub mod timestamp;
pub mod yaml;

pub use fs_manager::{BlockchainKind, FileSystemManager};
pub use manifest_manager::ManifestManager;
pub use misc_serde::GithubAuth;
