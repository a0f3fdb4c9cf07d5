//! Periodic status polling with backoff for failing runtimes.

pub mod service;

pub use service::PollingService;
