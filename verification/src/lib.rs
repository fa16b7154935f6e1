//! SISAR: interferometric radar processing as a service.
//!
//! A server takes requests for an area and a time range, searches for Sentinel-1
//! bursts and writes what a job needs; a scheduler takes each job from stage to
//! stage, one container at a time; the containers download, process and draw.
//! This crate holds the rules that all of these go by and what they compute of
//! texts and integers. Reading, sending and running is left to the programs around
//! it: where the two alternate, the crate holds a state machine that takes an
//! event and says what to do next.
//!
//! - `shared`: jobs, stages, tiers, results and the rows that they are stored as
//! - `server`: configuration, authentication, submission, search and answers
//! - `scheduler`: configuration, the workflow, containers, resources and dispatch
//! - `download`, `mintpy`, `artifacts`: the containers
//! - the rest: texts, numbers, paths, dates and identifiers
pub mod artifacts;
pub mod bursts;
pub mod command;
pub mod download;
pub mod float64;
pub mod ids;
pub mod json;
pub mod literal;
pub mod mintpy;
pub mod number;
pub mod order;
pub mod paths;
pub mod scheduler;
pub mod server;
pub mod shared;
pub mod split;
pub mod text;
pub mod time;
pub mod urls;
