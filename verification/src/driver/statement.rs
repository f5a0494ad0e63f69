//! The statements of the driver.

use crate::arrow::schema::schema_tree;
use crate::arrow::Batch;
use crate::driver::table::{get_table_data, get_table_schema, table_cells, table_type};
use crate::error::Result;
use crate::option_map::{
    get_option_bytes, get_option_double, get_option_int, get_option_string, reads_bytes,
    reads_double, reads_int, reads_string, set_option, OptionMap,
};
use crate::options::{KeyModel, OptionKey, OptionStatement, OptionValue};
use crate::reader::SingleBatchReader;
use arrow_schema::Schema;
use vstd::prelude::*;

verus! {

/// The parts of a result set that was split.
pub struct PartitionedResult {
    /// What stands for each part.
    pub partitions: Vec<Vec<u8>>,
    /// The schema of the result set.
    pub schema: Schema,
    /// The number of rows that were changed.
    pub rows_affected: i64,
}

/// A statement that only holds its options, and gives the rows of the table.
pub struct DummyStatement {
    options: OptionMap<OptionStatement>,
}

impl Default for DummyStatement {
    fn default() -> (r: Self)
        ensures
            r.wf(),
            r.options() == Map::<KeyModel, OptionValue>::empty(),
    {
        DummyStatement { options: OptionMap::new() }
    }
}

impl DummyStatement {
    /// The options that are set.
    pub closed spec fn options(&self) -> Map<KeyModel, OptionValue> {
        self.options@
    }

    /// Whether no option is held twice.
    pub closed spec fn wf(&self) -> bool {
        self.options.wf()
    }

    /// Sets an option.
    pub fn set_option(&mut self, key: OptionStatement, value: OptionValue) -> (r: Result<()>)
        requires
            old(self).wf(),
        ensures
            r is Ok,
            final(self).wf(),
            final(self).options() == old(self).options().insert(key.key(), value),
    {
        set_option(&mut self.options, key, value)
    }

    /// Reads an option as a byte string.
    pub fn get_option_bytes(&self, key: OptionStatement) -> (r: Result<Vec<u8>>)
        requires
            self.wf(),
        ensures
            reads_bytes(self.options(), key.key(), "statement"@, r),
    {
        get_option_bytes(&self.options, key, "statement")
    }

    /// Reads an option as the bits of a double-precision number.
    pub fn get_option_double(&self, key: OptionStatement) -> (r: Result<u64>)
        requires
            self.wf(),
        ensures
            reads_double(self.options(), key.key(), "statement"@, r),
    {
        get_option_double(&self.options, key, "statement")
    }

    /// Reads an option as an integer.
    pub fn get_option_int(&self, key: OptionStatement) -> (r: Result<i64>)
        requires
            self.wf(),
        ensures
            reads_int(self.options(), key.key(), "statement"@, r),
    {
        get_option_int(&self.options, key, "statement")
    }

    /// Reads an option as a text.
    pub fn get_option_string(&self, key: OptionStatement) -> (r: Result<String>)
        requires
            self.wf(),
        ensures
            reads_string(self.options(), key.key(), "statement"@, r),
    {
        get_option_string(&self.options, key, "statement")
    }

    /// Takes no notice of the parameters.
    pub fn bind(&mut self, _batch: Batch) -> (r: Result<()>)
        ensures
            r is Ok,
            *final(self) == *old(self),
    {
        Ok(())
    }

    /// Takes no notice of the parameters.
    pub fn bind_stream<R>(&mut self, _reader: R) -> (r: Result<()>)
        ensures
            r is Ok,
            *final(self) == *old(self),
    {
        Ok(())
    }

    /// Has nothing to cancel.
    pub fn cancel(&mut self) -> (r: Result<()>)
        ensures
            r is Ok,
            *final(self) == *old(self),
    {
        Ok(())
    }

    /// The rows of the table.
    pub fn execute(&mut self) -> (r: Result<SingleBatchReader>)
        ensures
            r is Ok,
            r->Ok_0.gives(table_type(), table_cells()),
            *final(self) == *old(self),
    {
        let batch = get_table_data();
        Ok(SingleBatchReader::new(batch))
    }

    /// Two partitions of the table.
    pub fn execute_partitions(&mut self) -> (r: Result<PartitionedResult>)
        ensures
            r is Ok,
            r->Ok_0.partitions@.len() == 2,
            r->Ok_0.partitions@[0]@ == seq![65u8, 65u8, 65u8],
            r->Ok_0.partitions@[1]@ == seq![90u8, 90u8, 90u8, 90u8, 90u8],
            schema_tree(r->Ok_0.schema) == table_type(),
            r->Ok_0.rows_affected == 0,
            *final(self) == *old(self),
    {
        let first: Vec<u8> = vec![65, 65, 65];
        let second: Vec<u8> = vec![90, 90, 90, 90, 90];
        Ok(
            PartitionedResult {
                partitions: vec![first, second],
                schema: get_table_schema(),
                rows_affected: 0,
            },
        )
    }

    /// The schema of the table.
    pub fn execute_schema(&mut self) -> (r: Result<Schema>)
        ensures
            r is Ok,
            schema_tree(r->Ok_0) == table_type(),
            *final(self) == *old(self),
    {
        Ok(get_table_schema())
    }

    /// Changes no row.
    pub fn execute_update(&mut self) -> (r: Result<Option<i64>>)
        ensures
            r is Ok,
            r->Ok_0 == Some(0i64),
            *final(self) == *old(self),
    {
        Ok(Some(0))
    }

    /// The schema of the table.
    pub fn get_parameter_schema(&self) -> (r: Result<Schema>)
        ensures
            r is Ok,
            schema_tree(r->Ok_0) == table_type(),
    {
        Ok(get_table_schema())
    }

    /// Has nothing to prepare.
    pub fn prepare(&mut self) -> (r: Result<()>)
        ensures
            r is Ok,
            *final(self) == *old(self),
    {
        Ok(())
    }

    /// Takes no notice of the query.
    pub fn set_sql_query(&mut self, _query: &str) -> (r: Result<()>)
        ensures
            r is Ok,
            *final(self) == *old(self),
    {
        Ok(())
    }

    /// Takes no notice of the plan.
    pub fn set_substrait_plan(&mut self, _plan: &[u8]) -> (r: Result<()>)
        ensures
            r is Ok,
            *final(self) == *old(self),
    {
        Ok(())
    }
}

} // verus!
