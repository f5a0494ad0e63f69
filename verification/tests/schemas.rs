use adbc_dummy::schemas::{
    column_schema, constraint_schema, get_info_schema, get_objects_schema,
    get_statistic_names_schema, get_statistics_schema, get_table_types_schema,
    objects_db_schema_schema, statistic_value_schema, statistics_db_schema_schema,
    statistics_schema, table_schema, usage_schema,
};
use arrow_schema::{DataType, Field, Fields, Schema, UnionFields, UnionMode};
use std::sync::Arc;

fn list(item: DataType) -> DataType {
    DataType::List(Arc::new(Field::new("item", item, true)))
}

fn fields(parts: &[(&str, DataType, bool)]) -> Fields {
    parts.iter().map(|(name, ty, nullable)| Field::new(*name, ty.clone(), *nullable)).collect()
}

fn dense(parts: &[(&str, DataType)]) -> DataType {
    let fields = parts
        .iter()
        .enumerate()
        .map(|(i, (name, ty))| (i as i8, Arc::new(Field::new(*name, ty.clone(), true))))
        .collect::<UnionFields>();
    DataType::Union(fields, UnionMode::Dense)
}

#[test]
fn schema_of_info() {
    let entries = fields(&[
        ("key", DataType::Int32, false),
        ("value", list(DataType::Int32), true),
    ]);
    let map = DataType::Map(
        Arc::new(Field::new("entries", DataType::Struct(entries), false)),
        false,
    );
    let value = dense(&[
        ("string_value", DataType::Utf8),
        ("bool_value", DataType::Boolean),
        ("int64_value", DataType::Int64),
        ("int32_bitmask", DataType::Int32),
        ("string_list", list(DataType::Utf8)),
        ("int32_to_int32_list_map", map),
    ]);
    let expected = Schema::new(fields(&[
        ("info_name", DataType::UInt32, false),
        ("info_value", value, true),
    ]));
    assert_eq!(*get_info_schema(), expected);
}

#[test]
fn schema_of_objects() {
    let usage = DataType::Struct(fields(&[
        ("fk_catalog", DataType::Utf8, true),
        ("fk_db_schema", DataType::Utf8, true),
        ("fk_table", DataType::Utf8, false),
        ("fk_column_name", DataType::Utf8, false),
    ]));
    assert_eq!(usage_schema(), usage);
    let constraint = DataType::Struct(fields(&[
        ("constraint_name", DataType::Utf8, true),
        ("constraint_type", DataType::Utf8, false),
        ("constraint_column_names", list(DataType::Utf8), false),
        ("constraint_column_usage", list(usage), true),
    ]));
    assert_eq!(constraint_schema(), constraint);
    let column = DataType::Struct(fields(&[
        ("column_name", DataType::Utf8, false),
        ("ordinal_position", DataType::Int32, true),
        ("remarks", DataType::Utf8, true),
        ("xdbc_data_type", DataType::Int16, true),
        ("xdbc_type_name", DataType::Utf8, true),
        ("xdbc_column_size", DataType::Int32, true),
        ("xdbc_decimal_digits", DataType::Int16, true),
        ("xdbc_num_prec_radix", DataType::Int16, true),
        ("xdbc_nullable", DataType::Int16, true),
        ("xdbc_column_def", DataType::Utf8, true),
        ("xdbc_sql_data_type", DataType::Int16, true),
        ("xdbc_datetime_sub", DataType::Int16, true),
        ("xdbc_char_octet_length", DataType::Int32, true),
        ("xdbc_is_nullable", DataType::Utf8, true),
        ("xdbc_scope_catalog", DataType::Utf8, true),
        ("xdbc_scope_schema", DataType::Utf8, true),
        ("xdbc_scope_table", DataType::Utf8, true),
        ("xdbc_is_autoincrement", DataType::Boolean, true),
        ("xdbc_is_generatedcolumn", DataType::Boolean, true),
    ]));
    assert_eq!(column_schema(), column);
    let table = DataType::Struct(fields(&[
        ("table_name", DataType::Utf8, false),
        ("table_type", DataType::Utf8, false),
        ("table_columns", list(column), true),
        ("table_constraints", list(constraint), true),
    ]));
    assert_eq!(table_schema(), table);
    let db_schema = DataType::Struct(fields(&[
        ("db_schema_name", DataType::Utf8, true),
        ("db_schema_tables", list(table), true),
    ]));
    assert_eq!(objects_db_schema_schema(), db_schema);
    let expected = Schema::new(fields(&[
        ("catalog_name", DataType::Utf8, true),
        ("catalog_db_schemas", list(db_schema), true),
    ]));
    assert_eq!(*get_objects_schema(), expected);
}

#[test]
fn schema_of_statistics() {
    let value = dense(&[
        ("int64", DataType::Int64),
        ("uint64", DataType::UInt64),
        ("float64", DataType::Float64),
        ("binary", DataType::Binary),
    ]);
    assert_eq!(statistic_value_schema(), value);
    let statistic = DataType::Struct(fields(&[
        ("table_name", DataType::Utf8, false),
        ("column_name", DataType::Utf8, true),
        ("statistic_key", DataType::Int16, false),
        ("statistic_value", value, false),
        ("statistic_is_approximate", DataType::Boolean, false),
    ]));
    assert_eq!(statistics_schema(), statistic);
    let db_schema = DataType::Struct(fields(&[
        ("db_schema_name", DataType::Utf8, true),
        ("db_schema_statistics", list(statistic), false),
    ]));
    assert_eq!(statistics_db_schema_schema(), db_schema);
    let expected = Schema::new(fields(&[
        ("catalog_name", DataType::Utf8, true),
        ("catalog_db_schemas", list(db_schema), false),
    ]));
    assert_eq!(*get_statistics_schema(), expected);
}

#[test]
fn schemas_of_names_and_types() {
    assert_eq!(
        *get_statistic_names_schema(),
        Schema::new(fields(&[
            ("statistic_name", DataType::Utf8, false),
            ("statistic_key", DataType::Int16, false),
        ]))
    );
    assert_eq!(
        *get_table_types_schema(),
        Schema::new(fields(&[("table_type", DataType::Utf8, false)]))
    );
}
