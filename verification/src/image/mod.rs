//! Images as the engines report them: the records, and the parsing of
//! what the command line prints.

pub mod list;
pub mod prune;
pub mod pull;
pub mod remove;
pub mod types;

pub use prune::{PruneImageOptions, PruneResult};
pub use pull::{LayerProgress, PullImageOptions, PullProgress};
pub use remove::RemoveImageOptions;
pub use types::Image;
