//! Builders for the nested result sets of a database driver, and a dummy driver
//! that gives such result sets.
//!
//! [`info`], [`objects`] and [`statistics`] hold the builders. Each takes typed
//! values, keeps the type ids and offsets of the unions, the offsets of the lists
//! and the nulls, and finishes with an Arrow record batch that conforms to the
//! schema of its result set, as [`schemas`] gives it. [`driver`] is the dummy
//! driver.
//!
//! The contracts speak of record batches and arrays through [`model`]: what values
//! they hold, and of what type. [`arrow`] holds all calls into the Arrow crates,
//! each with a contract that says what the call does. [`groups`] is about children
//! that are stored flat with a count for each parent, [`dense`] about dense unions,
//! and [`conform`] about values that conform to a schema. [`laws`] says what the
//! operations do, each in terms of what it is given and what it gives. Floating-point
//! numbers are held as their bits.

use vstd::prelude::*;

pub mod arrow;
pub mod conform;
pub mod dense;
pub mod driver;
pub mod error;
pub mod groups;
pub mod info;
pub mod laws;
pub mod model;
pub mod names;
pub mod objects;
pub mod option_map;
pub mod options;
pub mod reader;
pub mod schemas;
pub mod statistics;

verus! {

} // verus!
