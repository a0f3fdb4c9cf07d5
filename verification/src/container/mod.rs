//! Containers as the engines report them: the records, and the parsing of
//! what the command line prints.

pub mod lifecycle;
pub mod list;
pub mod remove;
pub mod types;

pub use remove::{PruneResult, RemoveOptions};
pub use types::{Container, ContainerListOptions};
