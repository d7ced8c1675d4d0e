//! Orchestration core of a multi-chain event watcher: per-chain settings,
//! one watcher task per chain, and their registration with a host service.

pub mod client;
pub mod config;
pub mod contracts;
pub mod layer;
pub mod logger;
pub mod logger_for_testing;
pub mod service;
pub mod shared;
pub mod task;
pub mod time;
