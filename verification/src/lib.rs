//! A container with a single slot that tells an empty slot from a full one by the
//! stored bytes alone: memory that is all zero is an empty slot, whatever was written
//! to it.
//!
//! - `pattern`: the trait by which a value says whether its representation is all
//!   zero, and the scan of a buffer for the first item that is not.
//! - `plain`, `address`: the trait for integers, truth values, characters, the unit
//!   value and arrays, and for values that carry an address.
//! - `model`: the states of a slot and the steps between them.
//! - `bucket`: the container.
//! - `laws`: what holds of every bucket.

pub mod pattern;
pub mod plain;
pub mod address;
pub mod model;
pub mod bucket;
pub mod laws;

pub use crate::bucket::Bucket;
pub use crate::pattern::BitPattern;
