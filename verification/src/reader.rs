//! A reader of one batch.

use crate::arrow::array::schema_of;
use crate::arrow::schema::schema_tree;
use crate::arrow::{batch_cells, batch_layout, batch_schema, Batch};
use crate::model::{Cell, Layout, SchemaTy};
use arrow_schema::{ArrowError, Schema};
use std::sync::Arc;
use vstd::prelude::*;

verus! {

/// A reader that gives out one batch.
#[derive(Debug)]
pub struct SingleBatchReader {
    batch: Option<Batch>,
    schema: Arc<Schema>,
}

impl SingleBatchReader {
    /// The batch that was not given out yet.
    pub closed spec fn pending(&self) -> Option<Batch> {
        self.batch
    }

    /// The schema of the batch.
    pub closed spec fn schema_model(&self) -> SchemaTy {
        schema_tree(*self.schema)
    }

    /// How the batch that was not given out yet stores its values.
    pub open spec fn layouts(&self) -> Seq<Layout> {
        batch_layout(self.pending()->Some_0)
    }

    /// Whether a batch with this schema and these values is still to be given out.
    pub open spec fn gives(&self, schema: SchemaTy, cells: Seq<Seq<Cell>>) -> bool {
        &&& self.pending() matches Some(batch)
        &&& batch_schema(batch) == schema
        &&& batch_cells(batch) == cells
        &&& self.schema_model() == schema
    }

    /// A reader of the given batch.
    pub fn new(batch: Batch) -> (r: Self)
        ensures
            r.pending() == Some(batch),
            r.schema_model() == batch_schema(batch),
    {
        let schema = schema_of(&batch);
        SingleBatchReader { batch: Some(batch), schema }
    }

    /// The batch at the first call, and nothing after that.
    pub fn next(&mut self) -> (r: Option<Result<Batch, ArrowError>>)
        ensures
            match old(self).pending() {
                Some(batch) => r == Some(Ok::<Batch, ArrowError>(batch)),
                None => r is None,
            },
            final(self).pending() is None,
            final(self).schema_model() == old(self).schema_model(),
    {
        match self.batch.take() {
            Some(batch) => Some(Ok(batch)),
            None => None,
        }
    }

    /// The schema of the batch, whether it was given out or not.
    pub fn schema(&self) -> (r: Arc<Schema>)
        ensures
            schema_tree(*r) == self.schema_model(),
    {
        self.schema.clone()
    }
}

} // verus!
