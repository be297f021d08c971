//! Tools for fetching, caching and tracking versioned source releases of a
//! proof-of-work node, and for choosing the configure flags it is built with.

pub mod cli;
pub mod config;
pub mod error;
pub mod github;
pub mod strategies;
pub mod utils;

pub use cli::commands::{ActiveCommand, ArgName, SubCommandName};
pub use cli::Cli;
pub use config::{ShranDefault, ShranFile};
pub use error::ShranError;
pub use github::GitRelease;
pub use strategies::bitcoin::{BuildOptionName, BuildStrategy, OptionEnabled};
