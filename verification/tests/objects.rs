use adbc_dummy::groups::offsets_from_counts;
use adbc_dummy::objects::columns::ColumnSchema;
use adbc_dummy::objects::constraints::{ConstraintUsage, TableConstraint};
use adbc_dummy::objects::GetObjectsBuilder;
use adbc_dummy::options::ObjectDepth;
use arrow_array::cast::AsArray;
use arrow_array::types::{Int16Type, Int32Type};
use arrow_array::{Array, ArrayRef, RecordBatch, StructArray};

fn strings(array: &ArrayRef) -> Vec<Option<String>> {
    let array = array.as_string::<i32>();
    (0..array.len())
        .map(|i| if array.is_null(i) { None } else { Some(array.value(i).to_string()) })
        .collect()
}

fn some(texts: &[&str]) -> Vec<Option<String>> {
    texts.iter().map(|s| Some(s.to_string())).collect()
}

fn item(lists: &ArrayRef, i: usize) -> StructArray {
    lists.as_list::<i32>().value(i).as_struct().clone()
}

fn sample(depth: ObjectDepth) -> RecordBatch {
    let mut builder = GetObjectsBuilder::new(depth);
    builder.append_catalog(Some("c0"));
    builder.append_db_schema(Some("s0"));
    builder.append_table("t0", "table");
    builder.append_column(ColumnSchema::new("x"));
    builder.append_column(ColumnSchema::new("y"));
    builder.append_table("t1", "view");
    builder.append_db_schema(None);
    builder.append_catalog(None);
    builder.append_catalog(Some("c2"));
    builder.append_db_schema(Some("s2"));
    builder.append_table("t2", "table");
    builder.append_column(ColumnSchema::new("z"));
    builder.append_constraint(TableConstraint {
        constraint_type: "UNIQUE".to_string(),
        constraint_column_names: vec!["z".to_string(), "z2".to_string()],
        ..Default::default()
    });
    builder.append_constraint(TableConstraint {
        constraint_name: Some("fk".to_string()),
        constraint_type: "FOREIGN KEY".to_string(),
        constraint_column_names: vec![],
        constraint_column_usage: vec![
            ConstraintUsage {
                fk_catalog: Some("fc".to_string()),
                fk_db_schema: None,
                fk_table: "ft".to_string(),
                fk_column_name: "fn".to_string(),
            },
            ConstraintUsage {
                fk_catalog: None,
                fk_db_schema: Some("fs".to_string()),
                fk_table: "gt".to_string(),
                fk_column_name: "gn".to_string(),
            },
        ],
    });
    builder.finish().unwrap().inner
}

#[test]
fn offsets_are_sums_of_counts() {
    assert_eq!(offsets_from_counts(&[2, 0, 1]), vec![0, 2, 2, 3]);
    assert_eq!(offsets_from_counts(&[]), vec![0]);
    assert_eq!(offsets_from_counts(&[i32::MAX]), vec![0, i32::MAX]);
}

#[test]
fn objects_belong_to_the_latest_parent() {
    let batch = sample(ObjectDepth::All);
    assert_eq!(
        strings(batch.column(0)),
        vec![Some("c0".to_string()), None, Some("c2".to_string())]
    );
    let schemas: Vec<StructArray> = (0..3).map(|i| item(batch.column(1), i)).collect();
    assert_eq!(strings(schemas[0].column(0)), vec![Some("s0".to_string()), None]);
    assert_eq!(schemas[1].len(), 0);
    assert_eq!(strings(schemas[2].column(0)), some(&["s2"]));
    let tables = item(schemas[0].column(1), 0);
    assert_eq!(strings(tables.column(0)), some(&["t0", "t1"]));
    assert_eq!(strings(tables.column(1)), some(&["table", "view"]));
    assert_eq!(item(schemas[0].column(1), 1).len(), 0);
    assert_eq!(strings(item(tables.column(2), 0).column(0)), some(&["x", "y"]));
    assert_eq!(item(tables.column(2), 1).len(), 0);
    assert_eq!(item(tables.column(3), 0).len(), 0);
    assert!(tables.column(3).is_valid(0));
}

#[test]
fn objects_constraints_and_usages_are_kept() {
    let batch = sample(ObjectDepth::Columns);
    let schemas = item(batch.column(1), 2);
    let tables = item(schemas.column(1), 0);
    assert_eq!(strings(item(tables.column(2), 0).column(0)), some(&["z"]));
    let constraints = item(tables.column(3), 0);
    assert_eq!(strings(constraints.column(0)), vec![None, Some("fk".to_string())]);
    assert_eq!(strings(constraints.column(1)), some(&["UNIQUE", "FOREIGN KEY"]));
    let names = constraints.column(2).as_list::<i32>();
    assert_eq!(strings(&names.value(0)), some(&["z", "z2"]));
    assert_eq!(names.value(1).len(), 0);
    assert!(names.is_valid(1));
    assert_eq!(item(constraints.column(3), 0).len(), 0);
    let usages = item(constraints.column(3), 1);
    assert_eq!(strings(usages.column(0)), vec![Some("fc".to_string()), None]);
    assert_eq!(strings(usages.column(1)), vec![None, Some("fs".to_string())]);
    assert_eq!(strings(usages.column(2)), some(&["ft", "gt"]));
    assert_eq!(strings(usages.column(3)), some(&["fn", "gn"]));
}

#[test]
fn objects_at_catalog_depth_have_null_schemas() {
    let batch = sample(ObjectDepth::Catalogs);
    assert_eq!(batch.num_rows(), 3);
    assert_eq!(batch.column(1).null_count(), 3);
}

#[test]
fn objects_at_schema_depth_have_null_tables() {
    let batch = sample(ObjectDepth::Schemas);
    assert_eq!(batch.column(1).null_count(), 0);
    let schemas = item(batch.column(1), 0);
    assert_eq!(schemas.len(), 2);
    assert_eq!(schemas.column(1).null_count(), 2);
}

#[test]
fn objects_at_table_depth_have_null_columns_and_constraints() {
    let batch = sample(ObjectDepth::Tables);
    let tables = item(item(batch.column(1), 2).column(1), 0);
    assert_eq!(strings(tables.column(0)), some(&["t2"]));
    assert_eq!(tables.column(2).null_count(), 1);
    assert_eq!(tables.column(3).null_count(), 1);
}

#[test]
fn objects_of_both_greatest_depths_agree() {
    assert_eq!(sample(ObjectDepth::All), sample(ObjectDepth::Columns));
}

#[test]
fn objects_without_any_constraint_have_null_constraints() {
    let mut builder = GetObjectsBuilder::new(ObjectDepth::All);
    builder
        .append_catalog(Some("c"))
        .append_db_schema(Some("s"))
        .append_table("t", "table")
        .append_column(ColumnSchema::new("x"));
    let batch = builder.finish().unwrap().inner;
    let tables = item(item(batch.column(1), 0).column(1), 0);
    assert_eq!(tables.column(2).null_count(), 0);
    assert_eq!(tables.column(3).null_count(), 1);
}

#[test]
fn objects_of_nothing_are_empty_at_every_depth() {
    for depth in [
        ObjectDepth::All,
        ObjectDepth::Catalogs,
        ObjectDepth::Schemas,
        ObjectDepth::Tables,
        ObjectDepth::Columns,
    ] {
        let batch = GetObjectsBuilder::new(depth).finish().unwrap().inner;
        assert_eq!(batch.num_rows(), 0);
    }
}

#[test]
fn objects_columns_hold_all_fields() {
    let mut builder = GetObjectsBuilder::new(ObjectDepth::All);
    builder.append_catalog(None).append_db_schema(None).append_table("t", "table");
    builder.append_column(ColumnSchema {
        column_name: "n".to_string(),
        ordinal_position: Some(1),
        remarks: Some("r".to_string()),
        xdbc_data_type: Some(2),
        xdbc_type_name: Some("tn".to_string()),
        xdbc_column_size: Some(3),
        xdbc_decimal_digits: Some(4),
        xdbc_num_prec_radix: Some(5),
        xdbc_nullable: Some(6),
        xdbc_column_def: Some("d".to_string()),
        xdbc_sql_data_type: Some(7),
        xdbc_datetime_sub: Some(8),
        xdbc_char_octet_length: Some(9),
        xdbc_is_nullable: Some("YES".to_string()),
        xdbc_scope_catalog: Some("sc".to_string()),
        xdbc_scope_schema: Some("ss".to_string()),
        xdbc_scope_table: Some("st".to_string()),
        xdbc_is_autoincrement: Some(true),
        xdbc_is_generatedcolumn: Some(false),
    });
    builder.append_column(ColumnSchema::new("m"));
    let batch = builder.finish().unwrap().inner;
    let tables = item(item(batch.column(1), 0).column(1), 0);
    let columns = item(tables.column(2), 0);
    assert_eq!(columns.num_columns(), 19);
    for (j, text) in [(2, "r"), (4, "tn"), (9, "d"), (13, "YES"), (14, "sc"), (15, "ss"), (16, "st")]
    {
        assert_eq!(strings(columns.column(j)), vec![Some(text.to_string()), None]);
    }
    assert_eq!(strings(columns.column(0)), some(&["n", "m"]));
    for (j, number) in [(1, 1), (5, 3), (12, 9)] {
        let column = columns.column(j).as_primitive::<Int32Type>();
        assert_eq!(column.value(0), number);
        assert!(column.is_null(1));
    }
    for (j, number) in [(3, 2), (6, 4), (7, 5), (8, 6), (10, 7), (11, 8)] {
        let column = columns.column(j).as_primitive::<Int16Type>();
        assert_eq!(column.value(0), number);
        assert!(column.is_null(1));
    }
    assert!(columns.column(17).as_boolean().value(0));
    assert!(!columns.column(18).as_boolean().value(0));
    assert!(columns.column(17).is_null(1));
    assert!(columns.column(18).is_null(1));
}

#[test]
fn objects_parts_default_to_nothing() {
    let column = ColumnSchema::default();
    assert_eq!(column.column_name, "");
    assert_eq!(column.ordinal_position, None);
    assert_eq!(column.xdbc_is_generatedcolumn, None);
    let usage = ConstraintUsage::default();
    assert_eq!((usage.fk_catalog, usage.fk_table), (None, String::new()));
    let constraint = TableConstraint::default();
    assert_eq!(constraint.constraint_name, None);
    assert!(constraint.constraint_column_names.is_empty());
    assert!(constraint.constraint_column_usage.is_empty());
}

#[test]
fn objects_keep_their_catalogs_at_every_depth() {
    let names = strings(sample(ObjectDepth::All).column(0));
    for depth in [
        ObjectDepth::Catalogs,
        ObjectDepth::Schemas,
        ObjectDepth::Tables,
        ObjectDepth::Columns,
    ] {
        assert_eq!(strings(sample(depth).column(0)), names);
    }
}

#[test]
fn objects_keep_their_names_at_every_depth() {
    let all = sample(ObjectDepth::All);
    for depth in [ObjectDepth::Schemas, ObjectDepth::Tables, ObjectDepth::Columns] {
        let batch = sample(depth);
        for c in 0..3 {
            let (some, other) = (item(batch.column(1), c), item(all.column(1), c));
            assert_eq!(strings(some.column(0)), strings(other.column(0)));
            if depth != ObjectDepth::Schemas {
                for s in 0..some.len() {
                    let (x, y) = (item(some.column(1), s), item(other.column(1), s));
                    assert_eq!(strings(x.column(0)), strings(y.column(0)));
                    assert_eq!(strings(x.column(1)), strings(y.column(1)));
                }
            }
        }
    }
}

#[test]
fn objects_lists_are_stored_without_gaps() {
    let batch = sample(ObjectDepth::All);
    let schemas = batch.column(1).as_list::<i32>();
    assert_eq!(schemas.value_offsets(), [0, 2, 2, 3]);
    let tables = schemas.values().as_struct().column(1).as_list::<i32>();
    assert_eq!(tables.value_offsets(), [0, 2, 2, 3]);
    let tables = tables.values().as_struct();
    assert_eq!(tables.column(2).as_list::<i32>().value_offsets(), [0, 2, 2, 3]);
    let constraints = tables.column(3).as_list::<i32>();
    assert_eq!(constraints.value_offsets(), [0, 0, 0, 2]);
    let constraints = constraints.values().as_struct();
    assert_eq!(constraints.column(2).as_list::<i32>().value_offsets(), [0, 2, 2]);
    assert_eq!(constraints.column(3).as_list::<i32>().value_offsets(), [0, 0, 2]);
    let nulls = sample(ObjectDepth::Catalogs);
    assert_eq!(nulls.column(1).as_list::<i32>().value_offsets(), [0, 0, 0, 0]);
}
