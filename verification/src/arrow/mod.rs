//! Arrow arrays, builders, schemas and record batches, as far as this library
//! calls them.
//!
//! Each function below this module that is marked as having an external body
//! makes a call into an Arrow crate, and its contract says what that call does
//! in the terms of [`crate::model`]. Nothing else in the library calls Arrow.

use crate::model::{Cell, Layout, SchemaTy, Ty};
use arrow_array::{ArrayRef, RecordBatch};
use vstd::prelude::*;

pub mod array;
pub mod builder;
pub mod schema;

verus! {

/// An `arrow_array::ArrayRef`, made by the functions of [`array`] and
/// [`builder`].
#[verifier::external_body]
pub struct Column {
    array: ArrayRef,
}

/// The values that an array holds, in order.
pub uninterp spec fn column_cells(column: Column) -> Seq<Cell>;

/// The data type of an array.
pub uninterp spec fn column_type(column: Column) -> Ty;

/// How an array stores its values: the offsets and the values of a `ListArray`, the
/// columns of a `StructArray`, and the type ids, the offsets and the children of a
/// dense `UnionArray`.
pub uninterp spec fn column_layout(column: Column) -> Layout;

/// An `arrow_array::RecordBatch`.
#[derive(Debug)]
#[verifier::external_body]
pub struct Batch {
    pub inner: RecordBatch,
}

/// The values that a record batch holds, column by column.
pub uninterp spec fn batch_cells(batch: Batch) -> Seq<Seq<Cell>>;

/// The schema of a record batch.
pub uninterp spec fn batch_schema(batch: Batch) -> SchemaTy;

/// How a record batch stores its values, column by column.
pub uninterp spec fn batch_layout(batch: Batch) -> Seq<Layout>;

/// How some columns store their values.
pub open spec fn layouts_of(columns: Seq<Column>) -> Seq<Layout> {
    Seq::new(columns.len(), |i: int| column_layout(columns[i]))
}

/// The values of some columns.
pub open spec fn cells_of(columns: Seq<Column>) -> Seq<Seq<Cell>> {
    Seq::new(columns.len(), |i: int| column_cells(columns[i]))
}

} // verus!
