//! The download container.
pub mod earthdata;
pub mod pipeline;
