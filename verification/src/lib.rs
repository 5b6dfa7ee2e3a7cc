//! Configuration records for a fleet of scale units, kept in a keyed registry.

pub mod action;
pub mod backend;
pub mod device;
pub mod error;
pub mod generate;
pub mod ichibu;
pub mod laws;
pub mod libra;
pub mod registry;
pub mod sequence;
pub mod text;
