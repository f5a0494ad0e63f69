//! The data types and schemas of the result sets.

use crate::arrow::array::can_be_empty;
use crate::arrow::builder::int32_list_map;
use crate::arrow::schema::{
    field_tree, list_type, map_type, new_field, new_schema, scalar_type, schema_tree, struct_type,
    type_tree, union_type, Scalar,
};
use crate::model::{field, list_of, schema, FieldTy, SchemaTy, Ty};
use arrow_schema::{DataType, Field, Schema};
use std::sync::Arc;
use vstd::prelude::*;

verus! {

/// Numbers the variants of a union from 0.
pub open spec fn numbered(fields: Seq<FieldTy>) -> Seq<(i8, FieldTy)> {
    Seq::new(fields.len(), |i: int| (i as i8, fields[i]))
}

/// A list item field named `item`.
pub(crate) fn list_item(data_type: DataType) -> (r: Arc<Field>)
    ensures
        field_tree(*r) == field("item"@, type_tree(data_type), true),
{
    Arc::new(new_field("item", data_type, true))
}

/// The type of lists whose items are nullable and named `item`.
fn new_list(data_type: DataType) -> (r: DataType)
    ensures
        type_tree(r) == list_of(type_tree(data_type)),
{
    list_type(list_item(data_type))
}

/// The type of the maps among the values of info codes.
fn info_map_schema() -> (r: DataType)
    ensures
        type_tree(r) == int32_list_map("entries"@, "key"@, "value"@),
{
    let fields = vec![
        new_field("key", scalar_type(Scalar::Int32), false),
        new_field("value", new_list(scalar_type(Scalar::Int32)), true),
    ];
    proof {
        assert(fields@.map_values(|f: Field| field_tree(f)) =~= seq![
            field("key"@, Ty::Int32, false),
            field("value"@, list_of(Ty::Int32), true),
        ]);
    }
    map_type(new_field("entries", struct_type(fields), false))
}

/// The type of the usage of a column by a constraint.
pub open spec fn usage_type() -> Ty {
    Ty::Struct(usage_fields())
}

/// The fields of the usage of a column by a constraint.
pub open spec fn usage_fields() -> Seq<FieldTy> {
    seq![
        field("fk_catalog"@, Ty::Utf8, true),
        field("fk_db_schema"@, Ty::Utf8, true),
        field("fk_table"@, Ty::Utf8, false),
        field("fk_column_name"@, Ty::Utf8, false),
    ]
}

/// The type of the usage of a column by a constraint.
pub fn usage_schema() -> (r: DataType)
    ensures
        type_tree(r) == usage_type(),
{
    let fields = vec![
        new_field("fk_catalog", scalar_type(Scalar::Utf8), true),
        new_field("fk_db_schema", scalar_type(Scalar::Utf8), true),
        new_field("fk_table", scalar_type(Scalar::Utf8), false),
        new_field("fk_column_name", scalar_type(Scalar::Utf8), false),
    ];
    proof {
        assert(fields@.map_values(|f: Field| field_tree(f)) =~= usage_fields());
    }
    struct_type(fields)
}

/// The type of a constraint.
pub open spec fn constraint_type() -> Ty {
    Ty::Struct(constraint_fields())
}

/// The fields of a constraint.
pub open spec fn constraint_fields() -> Seq<FieldTy> {
    seq![
        field("constraint_name"@, Ty::Utf8, true),
        field("constraint_type"@, Ty::Utf8, false),
        field("constraint_column_names"@, list_of(Ty::Utf8), false),
        field("constraint_column_usage"@, list_of(usage_type()), true),
    ]
}

/// The type of a constraint.
pub fn constraint_schema() -> (r: DataType)
    ensures
        type_tree(r) == constraint_type(),
{
    let fields = vec![
        new_field("constraint_name", scalar_type(Scalar::Utf8), true),
        new_field("constraint_type", scalar_type(Scalar::Utf8), false),
        new_field("constraint_column_names", new_list(scalar_type(Scalar::Utf8)), false),
        new_field("constraint_column_usage", new_list(usage_schema()), true),
    ];
    proof {
        assert(fields@.map_values(|f: Field| field_tree(f)) =~= constraint_fields());
    }
    struct_type(fields)
}

/// The type of a column.
pub open spec fn column_type() -> Ty {
    Ty::Struct(column_fields())
}

/// The fields of a column.
pub open spec fn column_fields() -> Seq<FieldTy> {
    seq![
        field("column_name"@, Ty::Utf8, false),
        field("ordinal_position"@, Ty::Int32, true),
        field("remarks"@, Ty::Utf8, true),
        field("xdbc_data_type"@, Ty::Int16, true),
        field("xdbc_type_name"@, Ty::Utf8, true),
        field("xdbc_column_size"@, Ty::Int32, true),
        field("xdbc_decimal_digits"@, Ty::Int16, true),
        field("xdbc_num_prec_radix"@, Ty::Int16, true),
        field("xdbc_nullable"@, Ty::Int16, true),
        field("xdbc_column_def"@, Ty::Utf8, true),
        field("xdbc_sql_data_type"@, Ty::Int16, true),
        field("xdbc_datetime_sub"@, Ty::Int16, true),
        field("xdbc_char_octet_length"@, Ty::Int32, true),
        field("xdbc_is_nullable"@, Ty::Utf8, true),
        field("xdbc_scope_catalog"@, Ty::Utf8, true),
        field("xdbc_scope_schema"@, Ty::Utf8, true),
        field("xdbc_scope_table"@, Ty::Utf8, true),
        field("xdbc_is_autoincrement"@, Ty::Boolean, true),
        field("xdbc_is_generatedcolumn"@, Ty::Boolean, true),
    ]
}

/// The type of a column.
pub fn column_schema() -> (r: DataType)
    ensures
        type_tree(r) == column_type(),
{
    let fields = vec![
        new_field("column_name", scalar_type(Scalar::Utf8), false),
        new_field("ordinal_position", scalar_type(Scalar::Int32), true),
        new_field("remarks", scalar_type(Scalar::Utf8), true),
        new_field("xdbc_data_type", scalar_type(Scalar::Int16), true),
        new_field("xdbc_type_name", scalar_type(Scalar::Utf8), true),
        new_field("xdbc_column_size", scalar_type(Scalar::Int32), true),
        new_field("xdbc_decimal_digits", scalar_type(Scalar::Int16), true),
        new_field("xdbc_num_prec_radix", scalar_type(Scalar::Int16), true),
        new_field("xdbc_nullable", scalar_type(Scalar::Int16), true),
        new_field("xdbc_column_def", scalar_type(Scalar::Utf8), true),
        new_field("xdbc_sql_data_type", scalar_type(Scalar::Int16), true),
        new_field("xdbc_datetime_sub", scalar_type(Scalar::Int16), true),
        new_field("xdbc_char_octet_length", scalar_type(Scalar::Int32), true),
        new_field("xdbc_is_nullable", scalar_type(Scalar::Utf8), true),
        new_field("xdbc_scope_catalog", scalar_type(Scalar::Utf8), true),
        new_field("xdbc_scope_schema", scalar_type(Scalar::Utf8), true),
        new_field("xdbc_scope_table", scalar_type(Scalar::Utf8), true),
        new_field("xdbc_is_autoincrement", scalar_type(Scalar::Boolean), true),
        new_field("xdbc_is_generatedcolumn", scalar_type(Scalar::Boolean), true),
    ];
    proof {
        assert(fields@.map_values(|f: Field| field_tree(f)) =~= column_fields());
    }
    struct_type(fields)
}

/// The type of a table.
pub open spec fn table_type() -> Ty {
    Ty::Struct(table_fields())
}

/// The fields of a table.
pub open spec fn table_fields() -> Seq<FieldTy> {
    seq![
        field("table_name"@, Ty::Utf8, false),
        field("table_type"@, Ty::Utf8, false),
        field("table_columns"@, list_of(column_type()), true),
        field("table_constraints"@, list_of(constraint_type()), true),
    ]
}

/// The type of a table.
pub fn table_schema() -> (r: DataType)
    ensures
        type_tree(r) == table_type(),
{
    let fields = vec![
        new_field("table_name", scalar_type(Scalar::Utf8), false),
        new_field("table_type", scalar_type(Scalar::Utf8), false),
        new_field("table_columns", new_list(column_schema()), true),
        new_field("table_constraints", new_list(constraint_schema()), true),
    ];
    proof {
        assert(fields@.map_values(|f: Field| field_tree(f)) =~= table_fields());
    }
    struct_type(fields)
}

/// The type of a database schema and its tables.
pub open spec fn objects_db_schema_type() -> Ty {
    Ty::Struct(objects_db_schema_fields())
}

/// The fields of a database schema and its tables.
pub open spec fn objects_db_schema_fields() -> Seq<FieldTy> {
    seq![
        field("db_schema_name"@, Ty::Utf8, true),
        field("db_schema_tables"@, list_of(table_type()), true),
    ]
}

/// The type of a database schema and its tables.
pub fn objects_db_schema_schema() -> (r: DataType)
    ensures
        type_tree(r) == objects_db_schema_type(),
{
    let fields = vec![
        new_field("db_schema_name", scalar_type(Scalar::Utf8), true),
        new_field("db_schema_tables", new_list(table_schema()), true),
    ];
    proof {
        assert(fields@.map_values(|f: Field| field_tree(f)) =~= objects_db_schema_fields());
    }
    struct_type(fields)
}

/// The type of the value of a statistic.
pub open spec fn statistic_value_type() -> Ty {
    Ty::DenseUnion(numbered(statistic_value_fields()))
}

/// The variants of the value of a statistic.
pub open spec fn statistic_value_fields() -> Seq<FieldTy> {
    seq![
        field("int64"@, Ty::Int64, true),
        field("uint64"@, Ty::UInt64, true),
        field("float64"@, Ty::Float64, true),
        field("binary"@, Ty::Binary, true),
    ]
}

/// The type of the value of a statistic.
pub fn statistic_value_schema() -> (r: DataType)
    ensures
        type_tree(r) == statistic_value_type(),
{
    let fields = vec![
        new_field("int64", scalar_type(Scalar::Int64), true),
        new_field("uint64", scalar_type(Scalar::UInt64), true),
        new_field("float64", scalar_type(Scalar::Float64), true),
        new_field("binary", scalar_type(Scalar::Binary), true),
    ];
    proof {
        let variants = Seq::new(fields@.len(), |i: int| (i as i8, field_tree(fields@[i])));
        assert(variants =~= numbered(statistic_value_fields()));
    }
    union_type(fields)
}

/// The type of a statistic.
pub open spec fn statistics_type() -> Ty {
    Ty::Struct(statistics_fields())
}

/// The fields of a statistic.
pub open spec fn statistics_fields() -> Seq<FieldTy> {
    seq![
        field("table_name"@, Ty::Utf8, false),
        field("column_name"@, Ty::Utf8, true),
        field("statistic_key"@, Ty::Int16, false),
        field("statistic_value"@, statistic_value_type(), false),
        field("statistic_is_approximate"@, Ty::Boolean, false),
    ]
}

/// The type of a statistic.
pub fn statistics_schema() -> (r: DataType)
    ensures
        type_tree(r) == statistics_type(),
{
    let fields = vec![
        new_field("table_name", scalar_type(Scalar::Utf8), false),
        new_field("column_name", scalar_type(Scalar::Utf8), true),
        new_field("statistic_key", scalar_type(Scalar::Int16), false),
        new_field("statistic_value", statistic_value_schema(), false),
        new_field("statistic_is_approximate", scalar_type(Scalar::Boolean), false),
    ];
    proof {
        assert(fields@.map_values(|f: Field| field_tree(f)) =~= statistics_fields());
    }
    struct_type(fields)
}

/// The type of a database schema and its statistics.
pub open spec fn statistics_db_schema_type() -> Ty {
    Ty::Struct(statistics_db_schema_fields())
}

/// The fields of a database schema and its statistics.
pub open spec fn statistics_db_schema_fields() -> Seq<FieldTy> {
    seq![
        field("db_schema_name"@, Ty::Utf8, true),
        field("db_schema_statistics"@, list_of(statistics_type()), false),
    ]
}

/// The type of a database schema and its statistics.
pub fn statistics_db_schema_schema() -> (r: DataType)
    ensures
        type_tree(r) == statistics_db_schema_type(),
{
    let fields = vec![
        new_field("db_schema_name", scalar_type(Scalar::Utf8), true),
        new_field("db_schema_statistics", new_list(statistics_schema()), false),
    ];
    proof {
        assert(fields@.map_values(|f: Field| field_tree(f)) =~= statistics_db_schema_fields());
    }
    struct_type(fields)
}

/// The type of the value of an info code.
pub open spec fn info_value_type() -> Ty {
    Ty::DenseUnion(numbered(info_value_fields()))
}

/// The variants of the value of an info code.
pub open spec fn info_value_fields() -> Seq<FieldTy> {
    seq![
        field("string_value"@, Ty::Utf8, true),
        field("bool_value"@, Ty::Boolean, true),
        field("int64_value"@, Ty::Int64, true),
        field("int32_bitmask"@, Ty::Int32, true),
        field("string_list"@, list_of(Ty::Utf8), true),
        field("int32_to_int32_list_map"@, int32_list_map("entries"@, "key"@, "value"@), true),
    ]
}

/// The type of the value of an info code.
pub fn info_value_schema() -> (r: DataType)
    ensures
        type_tree(r) == info_value_type(),
{
    let fields = vec![
        new_field("string_value", scalar_type(Scalar::Utf8), true),
        new_field("bool_value", scalar_type(Scalar::Boolean), true),
        new_field("int64_value", scalar_type(Scalar::Int64), true),
        new_field("int32_bitmask", scalar_type(Scalar::Int32), true),
        new_field("string_list", new_list(scalar_type(Scalar::Utf8)), true),
        new_field("int32_to_int32_list_map", info_map_schema(), true),
    ];
    proof {
        let variants = Seq::new(fields@.len(), |i: int| (i as i8, field_tree(fields@[i])));
        assert(variants =~= numbered(info_value_fields()));
    }
    union_type(fields)
}

/// The schema of the result set of the table types.
pub open spec fn get_table_types_type() -> SchemaTy {
    schema(get_table_types_fields())
}

/// The fields of the result set of the table types.
pub open spec fn get_table_types_fields() -> Seq<FieldTy> {
    seq![
        field("table_type"@, Ty::Utf8, false),
    ]
}

/// The schema of the result set of the table types.
pub fn get_table_types_schema() -> (r: Arc<Schema>)
    ensures
        schema_tree(*r) == get_table_types_type(),
{
    let fields = vec![
        new_field("table_type", scalar_type(Scalar::Utf8), false),
    ];
    proof {
        assert(fields@.map_values(|f: Field| field_tree(f)) =~= get_table_types_fields());
    }
    Arc::new(new_schema(fields))
}

/// The schema of the result set of the info codes and their values.
pub open spec fn get_info_type() -> SchemaTy {
    schema(get_info_fields())
}

/// The fields of the result set of the info codes and their values.
pub open spec fn get_info_fields() -> Seq<FieldTy> {
    seq![
        field("info_name"@, Ty::UInt32, false),
        field("info_value"@, info_value_type(), true),
    ]
}

/// The schema of the result set of the info codes and their values.
pub fn get_info_schema() -> (r: Arc<Schema>)
    ensures
        schema_tree(*r) == get_info_type(),
{
    let fields = vec![
        new_field("info_name", scalar_type(Scalar::UInt32), false),
        new_field("info_value", info_value_schema(), true),
    ];
    proof {
        assert(fields@.map_values(|f: Field| field_tree(f)) =~= get_info_fields());
    }
    Arc::new(new_schema(fields))
}

/// The schema of the result set of the catalogs and what is in them.
pub open spec fn get_objects_type() -> SchemaTy {
    schema(get_objects_fields())
}

/// The fields of the result set of the catalogs and what is in them.
pub open spec fn get_objects_fields() -> Seq<FieldTy> {
    seq![
        field("catalog_name"@, Ty::Utf8, true),
        field("catalog_db_schemas"@, list_of(objects_db_schema_type()), true),
    ]
}

/// The schema of the result set of the catalogs and what is in them.
pub fn get_objects_schema() -> (r: Arc<Schema>)
    ensures
        schema_tree(*r) == get_objects_type(),
{
    let fields = vec![
        new_field("catalog_name", scalar_type(Scalar::Utf8), true),
        new_field("catalog_db_schemas", new_list(objects_db_schema_schema()), true),
    ];
    proof {
        assert(fields@.map_values(|f: Field| field_tree(f)) =~= get_objects_fields());
    }
    Arc::new(new_schema(fields))
}

/// The schema of the result set of the catalogs and their statistics.
pub open spec fn get_statistics_type() -> SchemaTy {
    schema(get_statistics_fields())
}

/// The fields of the result set of the catalogs and their statistics.
pub open spec fn get_statistics_fields() -> Seq<FieldTy> {
    seq![
        field("catalog_name"@, Ty::Utf8, true),
        field("catalog_db_schemas"@, list_of(statistics_db_schema_type()), false),
    ]
}

/// The schema of the result set of the catalogs and their statistics.
pub fn get_statistics_schema() -> (r: Arc<Schema>)
    ensures
        schema_tree(*r) == get_statistics_type(),
{
    let fields = vec![
        new_field("catalog_name", scalar_type(Scalar::Utf8), true),
        new_field("catalog_db_schemas", new_list(statistics_db_schema_schema()), false),
    ];
    proof {
        assert(fields@.map_values(|f: Field| field_tree(f)) =~= get_statistics_fields());
    }
    Arc::new(new_schema(fields))
}

/// The schema of the result set of the names and keys of statistics.
pub open spec fn get_statistic_names_type() -> SchemaTy {
    schema(get_statistic_names_fields())
}

/// The fields of the result set of the names and keys of statistics.
pub open spec fn get_statistic_names_fields() -> Seq<FieldTy> {
    seq![
        field("statistic_name"@, Ty::Utf8, false),
        field("statistic_key"@, Ty::Int16, false),
    ]
}

/// The schema of the result set of the names and keys of statistics.
pub fn get_statistic_names_schema() -> (r: Arc<Schema>)
    ensures
        schema_tree(*r) == get_statistic_names_type(),
{
    let fields = vec![
        new_field("statistic_name", scalar_type(Scalar::Utf8), false),
        new_field("statistic_key", scalar_type(Scalar::Int16), false),
    ];
    proof {
        assert(fields@.map_values(|f: Field| field_tree(f)) =~= get_statistic_names_fields());
    }
    Arc::new(new_schema(fields))
}

/// The items of the lists of the result set of objects are of types that have an
/// empty array.
pub proof fn lemma_objects_can_be_empty()
    ensures
        can_be_empty(column_type()),
        can_be_empty(constraint_type()),
        can_be_empty(table_type()),
        can_be_empty(objects_db_schema_type()),
{
    assert forall|i: int| 0 <= i < column_fields().len() implies can_be_empty(
        (#[trigger] column_fields()[i]).ty,
    ) by {}
    assert forall|i: int| 0 <= i < usage_fields().len() implies can_be_empty(
        (#[trigger] usage_fields()[i]).ty,
    ) by {}
    assert(can_be_empty(usage_type()));
    assert(can_be_empty(list_of(Ty::Utf8)));
    assert(can_be_empty(list_of(usage_type())));
    assert forall|i: int| 0 <= i < constraint_fields().len() implies can_be_empty(
        (#[trigger] constraint_fields()[i]).ty,
    ) by {}
    assert(can_be_empty(column_type()));
    assert(can_be_empty(constraint_type()));
    assert(can_be_empty(list_of(column_type())));
    assert(can_be_empty(list_of(constraint_type())));
    assert forall|i: int| 0 <= i < table_fields().len() implies can_be_empty(
        (#[trigger] table_fields()[i]).ty,
    ) by {}
    assert(can_be_empty(table_type()));
    assert(can_be_empty(list_of(table_type())));
    assert forall|i: int| 0 <= i < objects_db_schema_fields().len() implies can_be_empty(
        (#[trigger] objects_db_schema_fields()[i]).ty,
    ) by {}
}

} // verus!
