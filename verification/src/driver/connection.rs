//! The connections of the driver.

use crate::arrow::array::{
    batch_columns_match, new_batch, required_int16_column, required_utf8_cells,
    required_utf8_column,
};
use crate::arrow::{batch_layout, cells_of};
use crate::arrow::schema::schema_tree;
use crate::dense::laid_out;
use crate::driver::results::{
    dummy_column, dummy_constraint, dummy_entries, dummy_info, dummy_info_rows, dummy_objects,
    dummy_objects_stored,
    dummy_statistics, dummy_statistics_model, dummy_strings, dummy_usage, lemma_dummy_info, lemma_dummy_objects,
    lemma_dummy_objects_stored,
    lemma_dummy_statistics,
};
use crate::driver::statement::DummyStatement;
use crate::driver::table::{get_table_data, get_table_schema, table_cells, table_type};
use crate::error::{Error, Result, Status, ADBC_ERROR_VENDOR_CODE_PRIVATE_DATA};
use crate::info::{entry_cells, number_cells, str_cells, GetInfoBuilder};
use crate::model::{lemma_brief, Cell};
use crate::objects::columns::ColumnSchema;
use crate::objects::constraints::{usages_cells, ConstraintUsage, TableConstraint};
use crate::objects::GetObjectsBuilder;
use crate::option_map::{
    get_option_bytes, get_option_double, get_option_int, get_option_string, reads_bytes,
    reads_double, reads_int, reads_string, same_text, set_option, OptionMap,
};
use crate::options::{
    InfoCode, KeyModel, ObjectDepth, OptionConnection, OptionKey, OptionValue, Statistics,
};
use crate::reader::SingleBatchReader;
use crate::schemas::{
    get_info_type, get_objects_type, get_statistic_names_schema, get_statistic_names_type,
    get_statistics_type, get_table_types_schema, get_table_types_type,
};
use crate::statistics::{GetStatisticsBuilder, StatisticValue};
use arrow_schema::Schema;
use std::collections::HashSet;
use vstd::prelude::*;

verus! {

/// The name of a catalog or schema that may be left out.
pub open spec fn or_default(name: Option<&str>) -> Seq<char> {
    match name {
        Some(s) => s@,
        None => "default"@,
    }
}

/// Whether these name the one table.
pub open spec fn names_table(
    catalog: Option<&str>,
    db_schema: Option<&str>,
    table_name: &str,
) -> bool {
    &&& or_default(catalog) == "default"@
    &&& or_default(db_schema) == "default"@
    &&& table_name@ == "default"@
}

/// The message about a table that there is not.
pub open spec fn missing_table(
    catalog: Seq<char>,
    db_schema: Seq<char>,
    table_name: Seq<char>,
) -> Seq<char> {
    "Table "@ + catalog + "."@ + db_schema + "."@ + table_name + " does not exist"@
}

/// A connection that only holds its options, and gives the same result sets
/// whatever it is asked.
pub struct DummyConnection {
    options: OptionMap<OptionConnection>,
}

impl Default for DummyConnection {
    fn default() -> (r: Self)
        ensures
            r.wf(),
            r.options() == Map::<KeyModel, OptionValue>::empty(),
    {
        DummyConnection { options: OptionMap::new() }
    }
}

impl DummyConnection {
    /// The options that are set.
    pub closed spec fn options(&self) -> Map<KeyModel, OptionValue> {
        self.options@
    }

    /// Whether no option is held twice.
    pub closed spec fn wf(&self) -> bool {
        self.options.wf()
    }

    /// Sets an option.
    pub fn set_option(&mut self, key: OptionConnection, value: OptionValue) -> (r: Result<()>)
        requires
            old(self).wf(),
        ensures
            r is Ok,
            final(self).wf(),
            final(self).options() == old(self).options().insert(key.key(), value),
    {
        set_option(&mut self.options, key, value)
    }

    /// Reads an option as a byte string.
    pub fn get_option_bytes(&self, key: OptionConnection) -> (r: Result<Vec<u8>>)
        requires
            self.wf(),
        ensures
            reads_bytes(self.options(), key.key(), "connection"@, r),
    {
        get_option_bytes(&self.options, key, "connection")
    }

    /// Reads an option as the bits of a double-precision number.
    pub fn get_option_double(&self, key: OptionConnection) -> (r: Result<u64>)
        requires
            self.wf(),
        ensures
            reads_double(self.options(), key.key(), "connection"@, r),
    {
        get_option_double(&self.options, key, "connection")
    }

    /// Reads an option as an integer.
    pub fn get_option_int(&self, key: OptionConnection) -> (r: Result<i64>)
        requires
            self.wf(),
        ensures
            reads_int(self.options(), key.key(), "connection"@, r),
    {
        get_option_int(&self.options, key, "connection")
    }

    /// Reads an option as a text.
    pub fn get_option_string(&self, key: OptionConnection) -> (r: Result<String>)
        requires
            self.wf(),
        ensures
            reads_string(self.options(), key.key(), "connection"@, r),
    {
        get_option_string(&self.options, key, "connection")
    }
    /// A statement without options.
    pub fn new_statement(&mut self) -> (r: Result<DummyStatement>)
        ensures
            r is Ok,
            r->Ok_0.wf(),
            r->Ok_0.options() == Map::<KeyModel, OptionValue>::empty(),
            *final(self) == *old(self),
    {
        Ok(DummyStatement::default())
    }

    /// Fails with an error that has all parts that an error can have.
    pub fn cancel(&mut self) -> (r: Result<()>)
        ensures
            r matches Err(error) && {
                &&& error.message@ == "message"@
                &&& error.status == Status::Cancelled
                &&& error.vendor_code == ADBC_ERROR_VENDOR_CODE_PRIVATE_DATA
                &&& error.sqlstate@ == seq![1i8, 2i8, 3i8, 4i8, 5i8]
                &&& error.details matches Some(details) && {
                    &&& details@.len() == 2
                    &&& details@[0].0@ == "key1"@
                    &&& details@[0].1@ == seq![65u8, 65u8, 65u8]
                    &&& details@[1].0@ == "key2"@
                    &&& details@[1].1@ == seq![90u8, 90u8, 90u8, 90u8, 90u8]
                }
            },
            *final(self) == *old(self),
    {
        let mut error = Error::with_message_and_status("message".to_string(), Status::Cancelled);
        error.vendor_code = ADBC_ERROR_VENDOR_CODE_PRIVATE_DATA;
        error.sqlstate = [1, 2, 3, 4, 5];
        let first: Vec<u8> = vec![65, 65, 65];
        let second: Vec<u8> = vec![90, 90, 90, 90, 90];
        error.details = Some(vec![("key1".to_string(), first), ("key2".to_string(), second)]);
        assert(error.sqlstate@ =~= seq![1i8, 2i8, 3i8, 4i8, 5i8]);
        Err(error)
    }

    /// Has nothing to commit.
    pub fn commit(&mut self) -> (r: Result<()>)
        ensures
            r is Ok,
            *final(self) == *old(self),
    {
        Ok(())
    }

    /// A value of each type, whatever codes are asked for.
    pub fn get_info(&self, _codes: Option<HashSet<InfoCode>>) -> (r: Result<SingleBatchReader>)
        ensures
            r is Ok,
            r->Ok_0.gives(get_info_type(), dummy_info()),
            laid_out(r->Ok_0.layouts()[1], dummy_info()[1], 6),
    {
        let first: Vec<i32> = vec![1, 2, 3];
        let second: Vec<i32> = vec![1, 4, 9];
        let entries = [(42, first), (1337, second)];
        let strings = ["Hello", "World"];
        proof {
            lemma_dummy_info();
            assert(str_cells(strings@) =~= dummy_strings());
            assert(number_cells(entries@[0].1@) =~= dummy_entries()[0].1->List_0);
            assert(number_cells(entries@[1].1@) =~= dummy_entries()[1].1->List_0);
            assert(entry_cells(entries@) =~= dummy_entries());
        }
        let mut builder = GetInfoBuilder::new();
        builder.append_string(InfoCode::VendorName, "MyVendorName");
        builder.append_bool(InfoCode::VendorVersion, true);
        builder.append_int64(InfoCode::VendorArrowVersion, 42);
        builder.append_int32_bitmask(InfoCode::DriverName, 1337);
        builder.append_string_list(InfoCode::DriverVersion, &strings);
        builder.append_int32_to_int32_list_map(InfoCode::DriverArrowVersion, &entries);
        assert(builder@.rows =~= dummy_info_rows());
        match builder.finish() {
            Ok(batch) => Ok(SingleBatchReader::new(batch)),
            Err(error) => Err(error),
        }
    }

    /// One table with one column and one constraint, whatever is asked.
    pub fn get_objects(
        &self,
        _depth: ObjectDepth,
        _catalog: Option<&str>,
        _db_schema: Option<&str>,
        _table_name: Option<&str>,
        _table_type: Option<Vec<&str>>,
        _column_name: Option<&str>,
    ) -> (r: Result<SingleBatchReader>)
        ensures
            r is Ok,
            r->Ok_0.gives(get_objects_type(), dummy_objects()),
            dummy_objects_stored(r->Ok_0.layouts()),
    {
        let column = ColumnSchema {
            column_name: "my_column".to_string(),
            ordinal_position: Some(0),
            remarks: Some("Nice column!".to_string()),
            xdbc_data_type: Some(0),
            xdbc_type_name: Some("my_type".to_string()),
            xdbc_column_size: Some(42),
            xdbc_decimal_digits: Some(42),
            xdbc_num_prec_radix: Some(42),
            xdbc_nullable: Some(42),
            xdbc_column_def: Some("column_def".to_string()),
            xdbc_sql_data_type: Some(42),
            xdbc_datetime_sub: Some(42),
            xdbc_char_octet_length: Some(42),
            xdbc_is_nullable: Some("YES".to_string()),
            xdbc_scope_catalog: Some("MyCatalog".to_string()),
            xdbc_scope_schema: Some("MySchema".to_string()),
            xdbc_scope_table: Some("MyTable".to_string()),
            xdbc_is_autoincrement: Some(true),
            xdbc_is_generatedcolumn: Some(true),
        };
        let usage = ConstraintUsage {
            fk_catalog: Some("my_catalog".to_string()),
            fk_db_schema: Some("my_db_schema".to_string()),
            fk_table: "my_table".to_string(),
            fk_column_name: "my_column".to_string(),
        };
        let constraint = TableConstraint {
            constraint_name: Some("my_constraint".to_string()),
            constraint_type: "FOREIGN KEY".to_string(),
            constraint_column_names: vec!["my_other_column".to_string()],
            constraint_column_usage: vec![usage],
        };
        let ghost appended = (column, constraint);
        proof {
            assert(column.cell()->Struct_0 =~= dummy_column()->Struct_0);
            assert(usage.cell()->Struct_0 =~= dummy_usage()->Struct_0);
            assert(required_utf8_cells(constraint.constraint_column_names@) =~= seq![
                Cell::Utf8("my_other_column"@),
            ]);
            assert(usages_cells(constraint.constraint_column_usage@) =~= seq![dummy_usage()]);
            assert(constraint.cell()->Struct_0 =~= dummy_constraint()->Struct_0);
        }
        let mut builder = GetObjectsBuilder::new(ObjectDepth::All);
        builder.append_catalog(Some("default"));
        builder.append_db_schema(Some("default"));
        builder.append_table("default", "table");
        builder.append_column(column);
        builder.append_constraint(constraint);
        let ghost model = builder@;
        proof {
            lemma_dummy_objects(model, appended.0, appended.1);
        }
        match builder.finish() {
            Ok(batch) => {
                proof {
                    lemma_dummy_objects_stored(model, appended.1, batch_layout(batch));
                }
                Ok(SingleBatchReader::new(batch))
            },
            Err(error) => Err(error),
        }
    }

    /// One statistic about one column, whatever is asked.
    pub fn get_statistics(
        &self,
        _catalog: Option<&str>,
        _db_schema: Option<&str>,
        _table_name: Option<&str>,
        _approximate: bool,
    ) -> (r: Result<SingleBatchReader>)
        ensures
            r is Ok,
            r->Ok_0.gives(get_statistics_type(), dummy_statistics()),
            dummy_statistics_model().stored(r->Ok_0.layouts()),
    {
        let mut builder = GetStatisticsBuilder::new();
        builder.append_catalog(Some("default"));
        builder.append_db_schema(Some("default"));
        builder.append_statistic(
            "default",
            Some("my_column"),
            Statistics::AverageByteWidth,
            StatisticValue::UInt64(42),
            false,
        );
        proof {
            lemma_dummy_statistics(builder@);
        }
        match builder.finish() {
            Ok(batch) => Ok(SingleBatchReader::new(batch)),
            Err(error) => Err(error),
        }
    }

    /// The names and the keys of three statistics.
    pub fn get_statistic_names(&self) -> (r: Result<SingleBatchReader>)
        ensures
            r is Ok,
            r->Ok_0.gives(
                get_statistic_names_type(),
                seq![
                    seq![Cell::Utf8("sum"@), Cell::Utf8("min"@), Cell::Utf8("max"@)],
                    seq![Cell::Int16(0), Cell::Int16(1), Cell::Int16(2)],
                ],
            ),
    {
        let names = vec!["sum".to_string(), "min".to_string(), "max".to_string()];
        let keys: Vec<i16> = vec![0, 1, 2];
        proof {
            reveal_strlit("sum");
            reveal_strlit("min");
            reveal_strlit("max");
            lemma_brief(required_utf8_cells(names@));
        }
        let columns = vec![required_utf8_column(names), required_int16_column(keys)];
        let ghost held = columns@;
        proof {
            assert(cells_of(held) =~~= seq![
                seq![Cell::Utf8("sum"@), Cell::Utf8("min"@), Cell::Utf8("max"@)],
                seq![Cell::Int16(0), Cell::Int16(1), Cell::Int16(2)],
            ]);
        }
        match new_batch(get_statistic_names_schema(), columns) {
            Ok(batch) => Ok(SingleBatchReader::new(batch)),
            Err(error) => {
                proof {
                    assert(batch_columns_match(get_statistic_names_type().fields, held));
                }
                Err(Error::from_arrow(error))
            },
        }
    }

    /// The schema of the table, where it is the table that is meant.
    pub fn get_table_schema(
        &self,
        catalog: Option<&str>,
        db_schema: Option<&str>,
        table_name: &str,
    ) -> (r: Result<Schema>)
        ensures
            match r {
                Ok(schema) => {
                    &&& names_table(catalog, db_schema, table_name)
                    &&& schema_tree(schema) == table_type()
                },
                Err(error) => {
                    &&& !names_table(catalog, db_schema, table_name)
                    &&& error.says(
                        missing_table(or_default(catalog), or_default(db_schema), table_name@),
                        Status::NotFound,
                    )
                },
            },
    {
        let catalog = catalog.unwrap_or("default");
        let db_schema = db_schema.unwrap_or("default");
        if same_text(catalog, "default") && same_text(db_schema, "default") && same_text(
            table_name,
            "default",
        ) {
            Ok(get_table_schema())
        } else {
            let mut message = "Table ".to_string();
            message.append(catalog);
            message.append(".");
            message.append(db_schema);
            message.append(".");
            message.append(table_name);
            message.append(" does not exist");
            Err(Error::with_message_and_status(message, Status::NotFound))
        }
    }

    /// The types of tables.
    pub fn get_table_types(&self) -> (r: Result<SingleBatchReader>)
        ensures
            r is Ok,
            r->Ok_0.gives(
                get_table_types_type(),
                seq![seq![Cell::Utf8("table"@), Cell::Utf8("view"@)]],
            ),
    {
        let names = vec!["table".to_string(), "view".to_string()];
        proof {
            reveal_strlit("table");
            reveal_strlit("view");
            lemma_brief(required_utf8_cells(names@));
        }
        let columns = vec![required_utf8_column(names)];
        let ghost held = columns@;
        proof {
            assert(cells_of(held) =~~= seq![seq![Cell::Utf8("table"@), Cell::Utf8("view"@)]]);
        }
        match new_batch(get_table_types_schema(), columns) {
            Ok(batch) => Ok(SingleBatchReader::new(batch)),
            Err(error) => {
                proof {
                    assert(batch_columns_match(get_table_types_type().fields, held));
                }
                Err(Error::from_arrow(error))
            },
        }
    }

    /// The rows of the table, whatever the partition.
    pub fn read_partition(&self, _partition: &[u8]) -> (r: Result<SingleBatchReader>)
        ensures
            r is Ok,
            r->Ok_0.gives(table_type(), table_cells()),
    {
        let batch = get_table_data();
        Ok(SingleBatchReader::new(batch))
    }

    /// Has nothing to roll back.
    pub fn rollback(&mut self) -> (r: Result<()>)
        ensures
            r is Ok,
            *final(self) == *old(self),
    {
        Ok(())
    }
}

} // verus!
