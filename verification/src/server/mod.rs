//! The API server.
pub mod accounts;
pub mod asf;
pub mod auth;
pub mod config;
pub mod demos;
pub mod error;
pub mod jobs;
pub mod results;
pub mod specification;
pub mod submit;
