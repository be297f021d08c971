//! Releases of the sources as github publishes them.

pub mod releases;

pub use releases::GitRelease;
