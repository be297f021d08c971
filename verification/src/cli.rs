//! The command that the command line asks for.

pub mod commands;
pub mod shran_cli;

pub use shran_cli::Cli;
