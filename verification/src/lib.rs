//! Regions of the AWS cloud and their canonical identifiers.
//!
//! A [`Region`] names one of a fixed set of deployment zones. Each region has
//! exactly one identifier, such as `us-east-1`, and each identifier belongs to
//! exactly one region. The conversions in both directions are verified against
//! that table, and the table itself is proved to be a bijection.

pub mod region;
mod text;

pub use region::{ParseRegionError, Region};
