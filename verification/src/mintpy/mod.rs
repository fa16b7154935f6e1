//! The MintPy container.
pub mod rsc;
pub mod runner;
pub mod xml;
