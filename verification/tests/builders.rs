use adbc_dummy::info::GetInfoBuilder;
use adbc_dummy::objects::columns::ColumnSchema;
use adbc_dummy::objects::constraints::{ConstraintUsage, TableConstraint};
use adbc_dummy::objects::GetObjectsBuilder;
use adbc_dummy::options::{InfoCode, ObjectDepth, Statistics};
use adbc_dummy::schemas::{get_info_schema, get_objects_schema, get_statistics_schema};
use adbc_dummy::statistics::{GetStatisticsBuilder, StatisticValue};
use arrow_array::Array;

#[test]
fn get_info_all_variants() {
    let mut builder = GetInfoBuilder::new();
    builder
        .append_string(InfoCode::VendorName, "MyVendor")
        .append_bool(InfoCode::VendorSql, true)
        .append_int64(InfoCode::DriverAdbcVersion, 42)
        .append_int32_bitmask(InfoCode::DriverName, 1337)
        .append_string_list(InfoCode::DriverVersion, &["Hello", "World"])
        .append_int32_to_int32_list_map(
            InfoCode::DriverArrowVersion,
            &[(42, vec![1, 2, 3]), (1337, vec![1, 4, 9])],
        );
    let batch = builder.finish().unwrap().inner;
    assert_eq!(batch.schema(), get_info_schema());
    assert_eq!(batch.num_rows(), 6);
}

#[test]
fn get_info_chained_from_default() {
    let mut builder = GetInfoBuilder::default();
    builder
        .append_string(InfoCode::VendorName, "MyVendor")
        .append_bool(InfoCode::VendorSql, true);
    let batch = builder.finish().unwrap().inner;
    assert_eq!(batch.num_rows(), 2);
}

#[test]
fn get_objects_full_depth() {
    let mut builder = GetObjectsBuilder::new(ObjectDepth::All);
    builder.append_catalog(Some("cat"));
    builder.append_db_schema(Some("schema"));
    builder.append_table("t", "table");
    builder.append_column(ColumnSchema {
        ordinal_position: Some(0),
        remarks: Some("nice".to_string()),
        ..ColumnSchema::new("col")
    });
    builder.append_constraint(TableConstraint {
        constraint_name: Some("pk".to_string()),
        constraint_type: "PRIMARY KEY".to_string(),
        constraint_column_names: vec!["col".to_string()],
        constraint_column_usage: vec![ConstraintUsage {
            fk_table: "t".to_string(),
            fk_column_name: "col".to_string(),
            ..Default::default()
        }],
    });
    let batch = builder.finish().unwrap().inner;
    assert_eq!(batch.schema(), get_objects_schema());
    assert_eq!(batch.num_rows(), 1);
}

#[test]
fn get_objects_catalog_depth_nulls_schemas() {
    let mut builder = GetObjectsBuilder::new(ObjectDepth::Catalogs);
    builder.append_catalog(Some("cat"));
    let batch = builder.finish().unwrap().inner;
    assert_eq!(batch.schema(), get_objects_schema());
    assert_eq!(batch.num_rows(), 1);
    assert_eq!(batch.column(1).null_count(), 1);
}

#[test]
fn get_statistics_basic() {
    let mut builder = GetStatisticsBuilder::new();
    builder.append_catalog(Some("cat"));
    builder.append_db_schema(Some("schema"));
    builder.append_statistic(
        "t",
        Some("col"),
        Statistics::AverageByteWidth,
        StatisticValue::UInt64(42),
        false,
    );
    let batch = builder.finish().unwrap().inner;
    assert_eq!(batch.schema(), get_statistics_schema());
    assert_eq!(batch.num_rows(), 1);
}
