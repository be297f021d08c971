//! Build strategies: the configure options a node can be built with.

pub mod bitcoin;
