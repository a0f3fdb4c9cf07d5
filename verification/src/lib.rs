//! Detection, caching and status polling of container runtimes.

pub mod clock;
pub mod command;
pub mod commands;
pub mod container;
pub mod image;
pub mod polling;
pub mod runtime;
pub mod text;
pub mod types;
