//! Where the program keeps its files.

pub mod default;

pub use default::{ShranDefault, ShranFile};
