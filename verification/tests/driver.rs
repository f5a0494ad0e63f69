use adbc_dummy::driver::connection::DummyConnection;
use adbc_dummy::driver::panics::maybe_panic;
use adbc_dummy::driver::statement::DummyStatement;
use adbc_dummy::driver::table::get_table_data;
use adbc_dummy::driver::DummyDriver;
use adbc_dummy::error::{Error, Status, ADBC_ERROR_VENDOR_CODE_PRIVATE_DATA};
use adbc_dummy::options::{
    InfoCode, ObjectDepth, OptionConnection, OptionDatabase, OptionStatement, OptionValue,
};
use adbc_dummy::reader::SingleBatchReader;
use adbc_dummy::schemas::{
    get_info_schema, get_objects_schema, get_statistic_names_schema, get_statistics_schema,
    get_table_types_schema,
};
use arrow_array::cast::AsArray;
use arrow_array::types::{Float64Type, Int16Type, Int32Type, Int64Type, UInt32Type, UInt64Type};
use arrow_array::{Array, RecordBatch};
use arrow_schema::{ArrowError, DataType, Field, Schema};
use std::collections::HashSet;

fn table_schema() -> Schema {
    Schema::new(vec![
        Field::new("a", DataType::UInt32, true),
        Field::new("b", DataType::Float64, false),
        Field::new("c", DataType::Utf8, true),
    ])
}

fn only_batch(mut reader: SingleBatchReader) -> RecordBatch {
    let schema = reader.schema();
    let batch = reader.next().unwrap().unwrap().inner;
    assert_eq!(batch.schema(), schema);
    assert!(reader.next().is_none());
    assert!(reader.next().is_none());
    assert_eq!(reader.schema(), schema);
    batch
}

fn assert_table(batch: &RecordBatch) {
    assert_eq!(*batch.schema(), table_schema());
    assert_eq!(batch.column(0).as_primitive::<UInt32Type>().values().to_vec(), vec![1, 2, 3]);
    assert_eq!(
        batch.column(1).as_primitive::<Float64Type>().values().to_vec(),
        vec![1.5, 2.5, 3.5]
    );
    let letters = batch.column(2).as_string::<i32>();
    assert_eq!((letters.value(0), letters.value(1), letters.value(2)), ("A", "B", "C"));
}

#[test]
fn reader_gives_its_batch_once() {
    let batch = only_batch(SingleBatchReader::new(get_table_data()));
    assert_table(&batch);
}

#[test]
fn statement_gives_the_table() {
    let mut statement = DummyStatement::default();
    assert_table(&only_batch(statement.execute().unwrap()));
    assert_eq!(statement.execute_schema().unwrap(), table_schema());
    assert_eq!(statement.get_parameter_schema().unwrap(), table_schema());
    assert_eq!(statement.execute_update().unwrap(), Some(0));
    let parts = statement.execute_partitions().unwrap();
    assert_eq!(parts.partitions, vec![b"AAA".to_vec(), b"ZZZZZ".to_vec()]);
    assert_eq!(parts.schema, table_schema());
    assert_eq!(parts.rows_affected, 0);
}

#[test]
fn statement_takes_what_it_is_given() {
    let mut statement = DummyStatement::default();
    assert!(statement.bind(get_table_data()).is_ok());
    assert!(statement.bind_stream(SingleBatchReader::new(get_table_data())).is_ok());
    assert!(statement.cancel().is_ok());
    assert!(statement.prepare().is_ok());
    assert!(statement.set_sql_query("SELECT 1").is_ok());
    assert!(statement.set_substrait_plan(b"plan").is_ok());
}

#[test]
fn partitions_are_read_as_the_table() {
    let connection = DummyConnection::default();
    assert_table(&only_batch(connection.read_partition(b"AAA").unwrap()));
    assert_table(&only_batch(connection.read_partition(b"").unwrap()));
}

#[test]
fn connection_commits_and_rolls_back() {
    let mut connection = DummyConnection::default();
    assert!(connection.commit().is_ok());
    assert!(connection.rollback().is_ok());
    assert!(connection.new_statement().is_ok());
}

#[test]
fn connection_cancel_fails_in_full() {
    let error = DummyConnection::default().cancel().unwrap_err();
    assert_eq!(
        error,
        Error {
            message: "message".to_string(),
            status: Status::Cancelled,
            vendor_code: ADBC_ERROR_VENDOR_CODE_PRIVATE_DATA,
            sqlstate: [1, 2, 3, 4, 5],
            details: Some(vec![
                ("key1".to_string(), b"AAA".to_vec()),
                ("key2".to_string(), b"ZZZZZ".to_vec()),
            ]),
        }
    );
    assert_eq!(ADBC_ERROR_VENDOR_CODE_PRIVATE_DATA, i32::MIN);
}

#[test]
fn connection_info_has_one_value_of_each_type() {
    let connection = DummyConnection::default();
    let codes = Some(HashSet::from([InfoCode::VendorName]));
    let asked = only_batch(connection.get_info(codes).unwrap());
    let batch = only_batch(connection.get_info(None).unwrap());
    assert_eq!(asked, batch);
    assert_eq!(batch.schema(), get_info_schema());
    assert_eq!(
        batch.column(0).as_primitive::<UInt32Type>().values().to_vec(),
        vec![0, 1, 2, 100, 101, 102]
    );
    let values = batch.column(1).as_union();
    assert_eq!(values.type_ids().to_vec(), vec![0, 1, 2, 3, 4, 5]);
    assert_eq!(values.value(0).as_string::<i32>().value(0), "MyVendorName");
    assert!(values.value(1).as_boolean().value(0));
    assert_eq!(values.value(2).as_primitive::<Int64Type>().value(0), 42);
    assert_eq!(values.value(3).as_primitive::<Int32Type>().value(0), 1337);
    let list = values.value(4).as_list::<i32>().value(0);
    let items = list.as_string::<i32>();
    assert_eq!((items.len(), items.value(0), items.value(1)), (2, "Hello", "World"));
    let entries = values.value(5).as_map().value(0);
    assert_eq!(
        entries.column(0).as_primitive::<Int32Type>().values().to_vec(),
        vec![42, 1337]
    );
    let lists = entries.column(1).as_list::<i32>();
    assert_eq!(lists.value(0).as_primitive::<Int32Type>().values().to_vec(), vec![1, 2, 3]);
    assert_eq!(lists.value(1).as_primitive::<Int32Type>().values().to_vec(), vec![1, 4, 9]);
}

#[test]
fn connection_objects_hold_one_of_each() {
    let connection = DummyConnection::default();
    let reader = connection
        .get_objects(ObjectDepth::Catalogs, Some("x"), None, None, Some(vec!["view"]), Some("y"))
        .unwrap();
    let batch = only_batch(reader);
    assert_eq!(batch.schema(), get_objects_schema());
    assert_eq!(batch.num_rows(), 1);
    assert_eq!(batch.column(0).as_string::<i32>().value(0), "default");
    let list = batch.column(1).as_list::<i32>().value(0);
    let schemas = list.as_struct();
    assert_eq!(schemas.column(0).as_string::<i32>().value(0), "default");
    let list = schemas.column(1).as_list::<i32>().value(0);
    let tables = list.as_struct();
    assert_eq!(tables.column(0).as_string::<i32>().value(0), "default");
    assert_eq!(tables.column(1).as_string::<i32>().value(0), "table");
    let list = tables.column(2).as_list::<i32>().value(0);
    let columns = list.as_struct();
    assert_eq!(columns.len(), 1);
    for (j, text) in [
        (0, "my_column"),
        (2, "Nice column!"),
        (4, "my_type"),
        (9, "column_def"),
        (13, "YES"),
        (14, "MyCatalog"),
        (15, "MySchema"),
        (16, "MyTable"),
    ] {
        assert_eq!(columns.column(j).as_string::<i32>().value(0), text);
    }
    for (j, number) in [(1, 0), (5, 42), (12, 42)] {
        assert_eq!(columns.column(j).as_primitive::<Int32Type>().value(0), number);
    }
    for (j, number) in [(3, 0), (6, 42), (7, 42), (8, 42), (10, 42), (11, 42)] {
        assert_eq!(columns.column(j).as_primitive::<Int16Type>().value(0), number);
    }
    assert!(columns.column(17).as_boolean().value(0));
    assert!(columns.column(18).as_boolean().value(0));
    let list = tables.column(3).as_list::<i32>().value(0);
    let constraints = list.as_struct();
    assert_eq!(constraints.column(0).as_string::<i32>().value(0), "my_constraint");
    assert_eq!(constraints.column(1).as_string::<i32>().value(0), "FOREIGN KEY");
    let names = constraints.column(2).as_list::<i32>().value(0);
    assert_eq!(names.as_string::<i32>().value(0), "my_other_column");
    let list = constraints.column(3).as_list::<i32>().value(0);
    let usages = list.as_struct();
    for (j, text) in [(0, "my_catalog"), (1, "my_db_schema"), (2, "my_table"), (3, "my_column")] {
        assert_eq!(usages.column(j).as_string::<i32>().value(0), text);
    }
}

#[test]
fn connection_statistics_hold_one() {
    let connection = DummyConnection::default();
    let batch = only_batch(connection.get_statistics(None, Some("s"), None, true).unwrap());
    assert_eq!(batch.schema(), get_statistics_schema());
    assert_eq!(batch.column(0).as_string::<i32>().value(0), "default");
    let list = batch.column(1).as_list::<i32>().value(0);
    let schemas = list.as_struct();
    assert_eq!(schemas.column(0).as_string::<i32>().value(0), "default");
    let list = schemas.column(1).as_list::<i32>().value(0);
    let rows = list.as_struct();
    assert_eq!(rows.len(), 1);
    assert_eq!(rows.column(0).as_string::<i32>().value(0), "default");
    assert_eq!(rows.column(1).as_string::<i32>().value(0), "my_column");
    assert_eq!(rows.column(2).as_primitive::<Int16Type>().value(0), 0);
    let value = rows.column(3).as_union().value(0);
    assert_eq!(value.as_primitive::<UInt64Type>().value(0), 42);
    assert!(!rows.column(4).as_boolean().value(0));
}

#[test]
fn connection_statistic_names_and_table_types() {
    let connection = DummyConnection::default();
    let batch = only_batch(connection.get_statistic_names().unwrap());
    assert_eq!(batch.schema(), get_statistic_names_schema());
    let names = batch.column(0).as_string::<i32>();
    assert_eq!((names.value(0), names.value(1), names.value(2)), ("sum", "min", "max"));
    assert_eq!(batch.column(1).as_primitive::<Int16Type>().values().to_vec(), vec![0, 1, 2]);
    let batch = only_batch(connection.get_table_types().unwrap());
    assert_eq!(batch.schema(), get_table_types_schema());
    let types = batch.column(0).as_string::<i32>();
    assert_eq!((types.len(), types.value(0), types.value(1)), (2, "table", "view"));
}

#[test]
fn connection_knows_the_schema_of_one_table() {
    let connection = DummyConnection::default();
    for catalog in [None, Some("default")] {
        for db_schema in [None, Some("default")] {
            let schema = connection.get_table_schema(catalog, db_schema, "default").unwrap();
            assert_eq!(schema, table_schema());
        }
    }
    for (catalog, db_schema, table, message) in [
        (Some("x"), None, "default", "Table x.default.default does not exist"),
        (None, Some("y"), "default", "Table default.y.default does not exist"),
        (None, None, "z", "Table default.default.z does not exist"),
        (Some("a"), Some("b"), "", "Table a.b. does not exist"),
    ] {
        let error = connection.get_table_schema(catalog, db_schema, table).unwrap_err();
        assert_eq!(error, Error::with_message_and_status(message.to_string(), Status::NotFound));
    }
}

#[test]
fn driver_makes_databases_with_options() {
    let mut driver = DummyDriver::default();
    let database = driver.new_database().unwrap();
    assert!(database.get_option_string(OptionDatabase::Uri).is_err());
    let database = driver
        .new_database_with_opts(vec![
            (OptionDatabase::Uri, OptionValue::String("first".to_string())),
            (OptionDatabase::Password, OptionValue::Int(7)),
            (OptionDatabase::Uri, OptionValue::String("second".to_string())),
        ])
        .unwrap();
    assert_eq!(database.get_option_string(OptionDatabase::Uri).unwrap(), "second");
    assert_eq!(database.get_option_int(OptionDatabase::Password).unwrap(), 7);
    assert!(database.get_option_string(OptionDatabase::Username).is_err());
}

#[test]
fn database_makes_connections_with_options() {
    let database = DummyDriver::default().new_database().unwrap();
    let connection = database.new_connection().unwrap();
    assert!(connection.get_option_int(OptionConnection::ReadOnly).is_err());
    let connection = database
        .new_connection_with_opts(vec![(OptionConnection::ReadOnly, OptionValue::Int(1))])
        .unwrap();
    assert_eq!(connection.get_option_int(OptionConnection::ReadOnly).unwrap(), 1);
}

#[test]
fn database_options_of_every_type_read_back() {
    let mut database = DummyDriver::default().new_database().unwrap();
    let other = || OptionDatabase::Other("o".to_string());
    database.set_option(other(), OptionValue::Bytes(vec![1, 2])).unwrap();
    assert_eq!(database.get_option_bytes(other()).unwrap(), vec![1, 2]);
    database.set_option(other(), OptionValue::Double(0.25f64.to_bits())).unwrap();
    assert_eq!(f64::from_bits(database.get_option_double(other()).unwrap()), 0.25);
    database.set_option(other(), OptionValue::Int(-1)).unwrap();
    assert_eq!(database.get_option_int(other()).unwrap(), -1);
    database.set_option(other(), OptionValue::String("s".to_string())).unwrap();
    assert_eq!(database.get_option_string(other()).unwrap(), "s");
    assert!(database.get_option_string(OptionDatabase::Other("p".to_string())).is_err());
}

#[test]
fn unset_options_are_not_found() {
    let database = DummyDriver::default().new_database().unwrap();
    let mut connection = database.new_connection().unwrap();
    let statement = connection.new_statement().unwrap();
    let not_found =
        |message: &str| Error::with_message_and_status(message.to_string(), Status::NotFound);
    assert_eq!(
        database.get_option_bytes(OptionDatabase::Uri).unwrap_err(),
        not_found("Unrecognized database option: Uri")
    );
    assert_eq!(
        connection.get_option_double(OptionConnection::AutoCommit).unwrap_err(),
        not_found("Unrecognized connection option: AutoCommit")
    );
    assert_eq!(
        statement.get_option_int(OptionStatement::MaxProgress).unwrap_err(),
        not_found("Unrecognized statement option: MaxProgress")
    );
    assert_eq!(
        statement.get_option_string(OptionStatement::Other("a\"b\n".to_string())).unwrap_err(),
        not_found("Unrecognized statement option: Other(\"a\\\"b\\n\")")
    );
}

#[test]
fn options_of_another_type_are_invalid() {
    let mut statement = DummyStatement::default();
    statement.set_option(OptionStatement::Progress, OptionValue::Int(5)).unwrap();
    statement.set_option(OptionStatement::Temporary, OptionValue::Bytes(vec![])).unwrap();
    let invalid = Error::with_message_and_status(
        "Incorrect value for statement option: Progress".to_string(),
        Status::InvalidData,
    );
    assert_eq!(statement.get_option_bytes(OptionStatement::Progress).unwrap_err(), invalid);
    assert_eq!(statement.get_option_double(OptionStatement::Progress).unwrap_err(), invalid);
    assert_eq!(statement.get_option_string(OptionStatement::Progress).unwrap_err(), invalid);
    assert_eq!(
        statement.get_option_int(OptionStatement::Temporary).unwrap_err().message,
        "Incorrect value for statement option: Temporary"
    );
    let mut connection = DummyConnection::default();
    let key = || OptionConnection::Other("k".to_string());
    connection.set_option(key(), OptionValue::Int(1)).unwrap();
    assert_eq!(
        connection.get_option_string(key()).unwrap_err().message,
        "Incorrect value for connection option: Other(\"k\")"
    );
}

#[test]
fn option_names_print_as_in_messages() {
    let statement = DummyStatement::default();
    for key in [
        OptionStatement::IngestMode,
        OptionStatement::TargetTable,
        OptionStatement::TargetCatalog,
        OptionStatement::TargetDbSchema,
        OptionStatement::Temporary,
        OptionStatement::Incremental,
        OptionStatement::Progress,
        OptionStatement::MaxProgress,
        OptionStatement::Other("\u{e9}\t'".to_string()),
    ] {
        let message = format!("Unrecognized statement option: {:?}", key);
        assert_eq!(statement.get_option_int(key).unwrap_err().message, message);
    }
    let connection = DummyConnection::default();
    for key in [
        OptionConnection::AutoCommit,
        OptionConnection::ReadOnly,
        OptionConnection::CurrentCatalog,
        OptionConnection::CurrentSchema,
        OptionConnection::IsolationLevel,
        OptionConnection::Other(String::new()),
    ] {
        let message = format!("Unrecognized connection option: {:?}", key);
        assert_eq!(connection.get_option_bytes(key).unwrap_err().message, message);
    }
    let database = DummyDriver::default().new_database().unwrap();
    for key in [
        OptionDatabase::Uri,
        OptionDatabase::Username,
        OptionDatabase::Password,
        OptionDatabase::Other("x".to_string()),
    ] {
        let message = format!("Unrecognized database option: {:?}", key);
        assert_eq!(database.get_option_double(key).unwrap_err().message, message);
    }
}

#[test]
fn panics_happen_only_where_asked() {
    let text = |s: &str| Some(s.to_string());
    assert_eq!(maybe_panic("StatementClose", None, text("m")), None);
    assert_eq!(maybe_panic("StatementClose", text("StatementExecuteQuery"), None), None);
    assert_eq!(maybe_panic("StatementClose", text("StatementClose"), text("m")), text("m"));
    assert_eq!(
        maybe_panic("StatementClose", text("StatementClose"), None),
        text("We panicked in StatementClose!")
    );
}

#[test]
fn arrow_errors_become_internal_errors() {
    let error = Error::from_arrow(ArrowError::InvalidArgumentError("bad".to_string()));
    assert_eq!(
        error,
        Error::with_message_and_status(
            "Invalid argument error: bad".to_string(),
            Status::Internal
        )
    );
}
