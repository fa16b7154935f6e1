//! The scheduler.
pub mod config;
pub mod definition;
pub mod pool;
pub mod results;
pub mod runner;
pub mod scheduler;
