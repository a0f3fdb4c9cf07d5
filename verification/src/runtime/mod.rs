//! Detection of installed runtimes: version parsing, the result cache,
//! the detection pipeline and the liveness classification.

pub mod cache;
pub mod detection;
pub mod detector;
pub mod docker;
pub mod locator;
pub mod podman;
pub mod status;
pub mod version;
