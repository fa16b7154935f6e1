//! What the API server and the scheduler share.
pub mod job;
pub mod queries;
pub mod result;
pub mod stage;
pub mod tier;
pub mod types;
