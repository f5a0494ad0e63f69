//! What the builder of objects does.

use crate::arrow::schema::schema_tree;
use crate::arrow::{batch_cells, batch_layout, batch_schema, Batch};
use crate::error::Result;
use crate::laws::{
    child_count, child_counts, lemma_child_count, lemma_lengths, lemma_place, lemma_same_parents,
    lengths_stored, name_chars, no_children, place, written,
};
use crate::model::{field_cells, list_len, Cell};
use crate::objects::columns::ColumnSchema;
use crate::objects::constraints::{constraints_cells, ConstraintUsage, TableConstraint};
use crate::objects::{GetObjectsBuilder, ObjectsModel};
use crate::options::ObjectDepth;
use crate::schemas::get_objects_schema;
use arrow_schema::Schema;
use std::sync::Arc;
use vstd::prelude::*;

verus! {

/// A new builder keeps the depth and holds nothing.
pub proof fn law_new_objects(depth: ObjectDepth, r: GetObjectsBuilder)
    requires
        call_ensures(GetObjectsBuilder::new, (depth,), r),
    ensures
        r@.depth == depth,
        r@.catalogs.len() == 0,
        r@.db_schemas.len() == 0,
        r@.tables.len() == 0,
        r@.columns.len() == 0,
        r@.constraints.len() == 0,
{
}

/// Appending a catalog adds its name at the end, and changes nothing else.
pub proof fn law_append_catalog(
    b: &mut GetObjectsBuilder,
    name: Option<&str>,
    r: &mut GetObjectsBuilder,
)
    requires
        call_ensures(GetObjectsBuilder::append_catalog, (b, name), r),
    ensures
        old(r)@.catalogs == old(b)@.catalogs.push(name_chars(name)),
        old(r)@.depth == old(b)@.depth,
        old(r)@.db_schemas == old(b)@.db_schemas,
        old(r)@.tables == old(b)@.tables,
        old(r)@.columns == old(b)@.columns,
        old(r)@.constraints == old(b)@.constraints,
{
}

/// Appending a schema adds its name at the end, as a child of the last catalog, and
/// changes nothing else.
pub proof fn law_append_db_schema(
    b: &mut GetObjectsBuilder,
    name: Option<&str>,
    r: &mut GetObjectsBuilder,
)
    requires
        call_ensures(GetObjectsBuilder::append_db_schema, (b, name), r),
    ensures
        old(r)@.db_schemas == old(b)@.db_schemas.push(
            (old(b)@.catalogs.len() - 1, name_chars(name)),
        ),
        old(r)@.depth == old(b)@.depth,
        old(r)@.catalogs == old(b)@.catalogs,
        old(r)@.tables == old(b)@.tables,
        old(r)@.columns == old(b)@.columns,
        old(r)@.constraints == old(b)@.constraints,
{
}

/// Appending a table adds its name and its type at the end, as a child of the last
/// schema, and changes nothing else.
pub proof fn law_append_table(
    b: &mut GetObjectsBuilder,
    table_name: &str,
    table_type: &str,
    r: &mut GetObjectsBuilder,
)
    requires
        call_ensures(GetObjectsBuilder::append_table, (b, table_name, table_type), r),
    ensures
        old(r)@.tables.len() == old(b)@.tables.len() + 1,
        old(r)@.tables.drop_last() == old(b)@.tables,
        old(r)@.tables.last().0 == old(b)@.db_schemas.len() - 1,
        old(r)@.tables.last().1.name == table_name@,
        old(r)@.tables.last().1.table_type == table_type@,
        old(r)@.depth == old(b)@.depth,
        old(r)@.catalogs == old(b)@.catalogs,
        old(r)@.db_schemas == old(b)@.db_schemas,
        old(r)@.columns == old(b)@.columns,
        old(r)@.constraints == old(b)@.constraints,
{
    assert(old(r)@.tables.drop_last() =~= old(b)@.tables);
}

/// Appending a column adds it at the end, as a child of the last table, and changes
/// nothing else.
pub proof fn law_append_column(
    b: &mut GetObjectsBuilder,
    column: ColumnSchema,
    r: &mut GetObjectsBuilder,
)
    requires
        call_ensures(GetObjectsBuilder::append_column, (b, column), r),
    ensures
        old(r)@.columns == old(b)@.columns.push((old(b)@.tables.len() - 1, column)),
        old(r)@.depth == old(b)@.depth,
        old(r)@.catalogs == old(b)@.catalogs,
        old(r)@.db_schemas == old(b)@.db_schemas,
        old(r)@.tables == old(b)@.tables,
        old(r)@.constraints == old(b)@.constraints,
{
}

/// Appending a constraint adds it at the end, as a child of the last table, and
/// changes nothing else.
pub proof fn law_append_constraint(
    b: &mut GetObjectsBuilder,
    constraint: TableConstraint,
    r: &mut GetObjectsBuilder,
)
    requires
        call_ensures(GetObjectsBuilder::append_constraint, (b, constraint), r),
    ensures
        old(r)@.constraints == old(b)@.constraints.push((old(b)@.tables.len() - 1, constraint)),
        old(r)@.depth == old(b)@.depth,
        old(r)@.catalogs == old(b)@.catalogs,
        old(r)@.db_schemas == old(b)@.db_schemas,
        old(r)@.tables == old(b)@.tables,
        old(r)@.columns == old(b)@.columns,
{
}

/// The result set has one row for each catalog, in order. The row holds the name, null
/// where it is missing, and a list with as many items as the catalog has schemas,
/// which is null just where only catalogs are asked for.
pub proof fn law_catalogs_shown(b: GetObjectsBuilder, r: Result<Batch>)
    requires
        call_ensures(GetObjectsBuilder::finish, (b,), r),
    ensures
        r is Ok,
        batch_cells(r->Ok_0).len() == 2,
        batch_cells(r->Ok_0)[0].len() == b@.catalogs.len(),
        batch_cells(r->Ok_0)[1].len() == b@.catalogs.len(),
        forall|c: int|
            0 <= c < b@.catalogs.len() ==> #[trigger] batch_cells(r->Ok_0)[0][c] == written(
                b@.catalogs[c],
            ),
        forall|c: int| #![trigger batch_cells(r->Ok_0)[1][c]]
            0 <= c < b@.catalogs.len() ==> if b@.depth is Catalogs {
                batch_cells(r->Ok_0)[1][c] is Null
            } else {
                &&& batch_cells(r->Ok_0)[1][c] is List
                &&& batch_cells(r->Ok_0)[1][c]->List_0.len() == child_count(b@.db_schemas, c)
            },
{
    let cells = batch_cells(r->Ok_0);
    assert forall|c: int| #![trigger cells[1][c]] 0 <= c < b@.catalogs.len() implies if b@.depth is Catalogs {
        cells[1][c] is Null
    } else {
        &&& cells[1][c] is List
        &&& cells[1][c]->List_0.len() == child_count(b@.db_schemas, c)
    } by {
        let rows = b@.db_schema_rows();
        lemma_child_count(rows, c);
        lemma_same_parents(rows, b@.db_schemas, c, rows.len() as int);
    }
}

/// Where the schema `s` of the builder is in a result set: in the row of its catalog,
/// at its place among the schemas of that catalog.
pub open spec fn shown_db_schema(b: ObjectsModel, cells: Seq<Seq<Cell>>, s: int) -> Cell {
    cells[1][b.db_schemas[s].0]->List_0[place(b.db_schemas, s)]
}

/// Each schema is in the row of its catalog, in order. It has its name, null where it
/// is missing, and a list with as many items as it has tables, which is null just
/// where nothing below the schemas is asked for.
pub proof fn law_db_schema_shown(b: GetObjectsBuilder, r: Result<Batch>, s: int)
    requires
        call_ensures(GetObjectsBuilder::finish, (b,), r),
        b.wf(),
        !(b@.depth is Catalogs),
        0 <= s < b@.db_schemas.len(),
    ensures
        0 <= b@.db_schemas[s].0 < batch_cells(r->Ok_0)[1].len(),
        0 <= place(b@.db_schemas, s)
            < batch_cells(r->Ok_0)[1][b@.db_schemas[s].0]->List_0.len(),
        ({
            let cell = shown_db_schema(b@, batch_cells(r->Ok_0), s);
            &&& cell is Struct
            &&& cell->Struct_0.len() == 2
            &&& cell->Struct_0[0] == written(b@.db_schemas[s].1)
            &&& if b@.depth is Schemas {
                cell->Struct_0[1] is Null
            } else {
                &&& cell->Struct_0[1] is List
                &&& cell->Struct_0[1]->List_0.len() == child_count(b@.tables, s)
            }
        }),
{
    b.law_valid();
    let rows = b@.db_schema_rows();
    lemma_place(rows, s);
    lemma_same_parents(rows, b@.db_schemas, b@.db_schemas[s].0, s);
    let tables = b@.table_rows();
    lemma_child_count(tables, s);
    lemma_same_parents(tables, b@.tables, s, tables.len() as int);
}

/// Where the table `t` of the builder is in a result set: in its schema, at its place
/// among the tables of that schema.
pub open spec fn shown_table(b: ObjectsModel, cells: Seq<Seq<Cell>>, t: int) -> Cell {
    shown_db_schema(b, cells, b.tables[t].0)->Struct_0[1]->List_0[place(b.tables, t)]
}

/// Each table is in its schema, in order. It has its name and its type, a list with as
/// many items as it has columns, and a list with as many items as it has constraints.
/// Both lists are null where nothing below the tables is asked for; the list of
/// constraints is null too where there is no constraint at all.
pub proof fn law_table_shown(b: GetObjectsBuilder, r: Result<Batch>, t: int)
    requires
        call_ensures(GetObjectsBuilder::finish, (b,), r),
        b.wf(),
        b@.depth is Tables || b@.depth is Columns || b@.depth is All,
        0 <= t < b@.tables.len(),
    ensures
        0 <= b@.tables[t].0 < b@.db_schemas.len(),
        0 <= place(b@.tables, t) < shown_db_schema(
            b@,
            batch_cells(r->Ok_0),
            b@.tables[t].0,
        )->Struct_0[1]->List_0.len(),
        ({
            let cell = shown_table(b@, batch_cells(r->Ok_0), t);
            &&& cell is Struct
            &&& cell->Struct_0.len() == 4
            &&& cell->Struct_0[0] == Cell::Utf8(b@.tables[t].1.name)
            &&& cell->Struct_0[1] == Cell::Utf8(b@.tables[t].1.table_type)
            &&& if b@.depth is Tables {
                &&& cell->Struct_0[2] is Null
                &&& cell->Struct_0[3] is Null
            } else {
                &&& cell->Struct_0[2] is List
                &&& cell->Struct_0[2]->List_0.len() == child_count(b@.columns, t)
                &&& b@.constraints.len() == 0 ==> cell->Struct_0[3] is Null
                &&& b@.constraints.len() > 0 ==> {
                    &&& cell->Struct_0[3] is List
                    &&& cell->Struct_0[3]->List_0.len() == child_count(b@.constraints, t)
                }
            }
        }),
{
    b.law_valid();
    let s = b@.tables[t].0;
    law_db_schema_shown(b, r, s);
    lemma_place(b@.db_schema_rows(), s);
    lemma_same_parents(b@.db_schema_rows(), b@.db_schemas, b@.db_schemas[s].0, s);
    let rows = b@.table_rows();
    lemma_place(rows, t);
    lemma_same_parents(rows, b@.tables, s, t);
    lemma_child_count(b@.columns, t);
    lemma_child_count(b@.constraints, t);
}

/// Each column is in its table, in order, and each of its fields is what was given,
/// null just where nothing was given.
pub proof fn law_column_shown(b: GetObjectsBuilder, r: Result<Batch>, x: int)
    requires
        call_ensures(GetObjectsBuilder::finish, (b,), r),
        b.wf(),
        b@.depth is Columns || b@.depth is All,
        0 <= x < b@.columns.len(),
    ensures
        ({
            let given = b@.columns[x].1;
            let list = shown_table(b@, batch_cells(r->Ok_0), b@.columns[x].0)->Struct_0[2]->List_0;
            let fields = list[place(b@.columns, x)]->Struct_0;
            &&& 0 <= b@.columns[x].0 < b@.tables.len()
            &&& 0 <= place(b@.columns, x) < list.len()
            &&& list[place(b@.columns, x)] is Struct
            &&& fields.len() == 19
            &&& fields[0] == Cell::Utf8(given.column_name@)
            &&& fields[1] == match given.ordinal_position {
                Some(v) => Cell::Int32(v),
                None => Cell::Null,
            }
            &&& fields[2] == match given.remarks {
                Some(s) => Cell::Utf8(s@),
                None => Cell::Null,
            }
            &&& fields[3] == match given.xdbc_data_type {
                Some(v) => Cell::Int16(v),
                None => Cell::Null,
            }
            &&& fields[4] == match given.xdbc_type_name {
                Some(s) => Cell::Utf8(s@),
                None => Cell::Null,
            }
            &&& fields[5] == match given.xdbc_column_size {
                Some(v) => Cell::Int32(v),
                None => Cell::Null,
            }
            &&& fields[6] == match given.xdbc_decimal_digits {
                Some(v) => Cell::Int16(v),
                None => Cell::Null,
            }
            &&& fields[7] == match given.xdbc_num_prec_radix {
                Some(v) => Cell::Int16(v),
                None => Cell::Null,
            }
            &&& fields[8] == match given.xdbc_nullable {
                Some(v) => Cell::Int16(v),
                None => Cell::Null,
            }
            &&& fields[9] == match given.xdbc_column_def {
                Some(s) => Cell::Utf8(s@),
                None => Cell::Null,
            }
            &&& fields[10] == match given.xdbc_sql_data_type {
                Some(v) => Cell::Int16(v),
                None => Cell::Null,
            }
            &&& fields[11] == match given.xdbc_datetime_sub {
                Some(v) => Cell::Int16(v),
                None => Cell::Null,
            }
            &&& fields[12] == match given.xdbc_char_octet_length {
                Some(v) => Cell::Int32(v),
                None => Cell::Null,
            }
            &&& fields[13] == match given.xdbc_is_nullable {
                Some(s) => Cell::Utf8(s@),
                None => Cell::Null,
            }
            &&& fields[14] == match given.xdbc_scope_catalog {
                Some(s) => Cell::Utf8(s@),
                None => Cell::Null,
            }
            &&& fields[15] == match given.xdbc_scope_schema {
                Some(s) => Cell::Utf8(s@),
                None => Cell::Null,
            }
            &&& fields[16] == match given.xdbc_scope_table {
                Some(s) => Cell::Utf8(s@),
                None => Cell::Null,
            }
            &&& fields[17] == match given.xdbc_is_autoincrement {
                Some(v) => Cell::Boolean(v),
                None => Cell::Null,
            }
            &&& fields[18] == match given.xdbc_is_generatedcolumn {
                Some(v) => Cell::Boolean(v),
                None => Cell::Null,
            }
        }),
{
    b.law_valid();
    let t = b@.columns[x].0;
    law_table_shown(b, r, t);
    lemma_table_path(b, r, t);
    lemma_place(b@.columns, x);
}

/// Each constraint is in its table, in order. Whatever its type, its columns and its
/// usages are, its name is the one given, null just where none was given; its type is
/// the one given; its list of names holds the given names, one by one; and its list of
/// usages holds the given usages, one by one and field by field.
pub proof fn law_constraint_shown(b: GetObjectsBuilder, r: Result<Batch>, x: int)
    requires
        call_ensures(GetObjectsBuilder::finish, (b,), r),
        b.wf(),
        b@.depth is Columns || b@.depth is All,
        0 <= x < b@.constraints.len(),
    ensures
        ({
            let given = b@.constraints[x].1;
            let table = shown_table(b@, batch_cells(r->Ok_0), b@.constraints[x].0);
            let list = table->Struct_0[3]->List_0;
            let cell = list[place(b@.constraints, x)];
            let names = cell->Struct_0[2]->List_0;
            let usages = cell->Struct_0[3]->List_0;
            &&& 0 <= b@.constraints[x].0 < b@.tables.len()
            &&& 0 <= place(b@.constraints, x) < list.len()
            &&& cell is Struct
            &&& cell->Struct_0.len() == 4
            &&& given.constraint_name matches Some(name) ==> cell->Struct_0[0] == Cell::Utf8(name@)
            &&& given.constraint_name is None ==> cell->Struct_0[0] is Null
            &&& cell->Struct_0[1] == Cell::Utf8(given.constraint_type@)
            &&& cell->Struct_0[2] is List
            &&& names.len() == given.constraint_column_names@.len()
            &&& forall|i: int|
                0 <= i < names.len() ==> #[trigger] names[i] == Cell::Utf8(
                    given.constraint_column_names@[i]@,
                )
            &&& cell->Struct_0[3] is List
            &&& usages.len() == given.constraint_column_usage@.len()
            &&& forall|i: int| #![trigger usages[i]]
                0 <= i < usages.len() ==> {
                    let usage = given.constraint_column_usage@[i];
                    &&& usages[i] is Struct
                    &&& usages[i]->Struct_0.len() == 4
                    &&& usages[i]->Struct_0[0] == match usage.fk_catalog {
                        Some(s) => Cell::Utf8(s@),
                        None => Cell::Null,
                    }
                    &&& usages[i]->Struct_0[1] == match usage.fk_db_schema {
                        Some(s) => Cell::Utf8(s@),
                        None => Cell::Null,
                    }
                    &&& usages[i]->Struct_0[2] == Cell::Utf8(usage.fk_table@)
                    &&& usages[i]->Struct_0[3] == Cell::Utf8(usage.fk_column_name@)
                }
        }),
{
    b.law_valid();
    let t = b@.constraints[x].0;
    law_table_shown(b, r, t);
    lemma_table_path(b, r, t);
    lemma_place(b@.constraints, x);
}

/// The table at its place is the table of the model.
proof fn lemma_table_path(b: GetObjectsBuilder, r: Result<Batch>, t: int)
    requires
        call_ensures(GetObjectsBuilder::finish, (b,), r),
        b.wf(),
        b@.shows_tables(),
        0 <= t < b@.tables.len(),
    ensures
        shown_table(b@, batch_cells(r->Ok_0), t) == b@.table_cell(t),
{
    b.law_valid();
    let s = b@.tables[t].0;
    lemma_place(b@.db_schema_rows(), s);
    lemma_same_parents(b@.db_schema_rows(), b@.db_schemas, b@.db_schemas[s].0, s);
    lemma_place(b@.table_rows(), t);
    lemma_same_parents(b@.table_rows(), b@.tables, s, t);
}

/// The number of names of each constraint.
pub open spec fn name_counts(constraints: Seq<(int, TableConstraint)>) -> Seq<int> {
    Seq::new(
        constraints.len(),
        |x: int| constraints[x].1.constraint_column_names@.len() as int,
    )
}

/// The number of usages of each constraint.
pub open spec fn usage_counts(constraints: Seq<(int, TableConstraint)>) -> Seq<int> {
    Seq::new(
        constraints.len(),
        |x: int| constraints[x].1.constraint_column_usage@.len() as int,
    )
}

/// The offsets of the lists in the result set begin at zero and grow by the number of
/// the children of each parent, down to the depth that was asked for.
pub proof fn law_objects_offsets(b: GetObjectsBuilder, r: Result<Batch>)
    requires
        call_ensures(GetObjectsBuilder::finish, (b,), r),
    ensures
        ({
            let db_schemas = batch_layout(r->Ok_0)[1];
            let tables = (*db_schemas->items)->Struct_0[1];
            let columns = (*tables->items)->Struct_0[2];
            let constraints = (*tables->items)->Struct_0[3];
            let deepest = b@.depth is Columns || b@.depth is All;
            &&& if b@.depth is Catalogs {
                lengths_stored(db_schemas, no_children(b@.catalogs.len()))
            } else {
                lengths_stored(db_schemas, child_counts(b@.db_schemas, b@.catalogs.len()))
            }
            &&& b@.depth is Schemas ==> lengths_stored(tables, no_children(b@.db_schemas.len()))
            &&& b@.depth is Tables || deepest ==> lengths_stored(
                tables,
                child_counts(b@.tables, b@.db_schemas.len()),
            )
            &&& deepest ==> lengths_stored(columns, child_counts(b@.columns, b@.tables.len()))
            &&& deepest && b@.constraints.len() > 0 ==> {
                &&& lengths_stored(constraints, child_counts(b@.constraints, b@.tables.len()))
                &&& lengths_stored((*constraints->items)->Struct_0[2], name_counts(b@.constraints))
                &&& lengths_stored((*constraints->items)->Struct_0[3], usage_counts(b@.constraints))
            }
        }),
{
    let db_schemas = batch_layout(r->Ok_0)[1];
    let tables = (*db_schemas->items)->Struct_0[1];
    let columns = (*tables->items)->Struct_0[2];
    let constraints = (*tables->items)->Struct_0[3];
    let cells = b@.catalog_db_schemas();
    if b@.depth is Catalogs {
        lemma_lengths(db_schemas, cells, no_children(b@.catalogs.len()));
    } else {
        assert forall|c: int| 0 <= c < cells.len() implies #[trigger] list_len(cells[c])
            == child_counts(b@.db_schemas, b@.catalogs.len())[c] by {
            let rows = b@.db_schema_rows();
            lemma_child_count(rows, c);
            lemma_same_parents(rows, b@.db_schemas, c, rows.len() as int);
        }
        lemma_lengths(db_schemas, cells, child_counts(b@.db_schemas, b@.catalogs.len()));
        let schemas = field_cells(b@.db_schema_cells(), 1);
        if b@.depth is Schemas {
            lemma_lengths(tables, schemas, no_children(b@.db_schemas.len()));
        } else {
            assert forall|s: int| 0 <= s < schemas.len() implies #[trigger] list_len(schemas[s])
                == child_counts(b@.tables, b@.db_schemas.len())[s] by {
                let rows = b@.table_rows();
                lemma_child_count(rows, s);
                lemma_same_parents(rows, b@.tables, s, rows.len() as int);
            }
            lemma_lengths(tables, schemas, child_counts(b@.tables, b@.db_schemas.len()));
        }
    }
    if b@.shows_columns() {
        let lists = field_cells(b@.table_cells(), 2);
        assert forall|t: int| 0 <= t < lists.len() implies #[trigger] list_len(lists[t])
            == child_counts(b@.columns, b@.tables.len())[t] by {
            lemma_child_count(b@.columns, t);
        }
        lemma_lengths(columns, lists, child_counts(b@.columns, b@.tables.len()));
    }
    if b@.shows_constraints() {
        let lists = field_cells(b@.table_cells(), 3);
        assert forall|t: int| 0 <= t < lists.len() implies #[trigger] list_len(lists[t])
            == child_counts(b@.constraints, b@.tables.len())[t] by {
            lemma_child_count(b@.constraints, t);
        }
        lemma_lengths(constraints, lists, child_counts(b@.constraints, b@.tables.len()));
        let all = constraints_cells(b@.all_constraints());
        lemma_lengths(
            (*constraints->items)->Struct_0[2],
            field_cells(all, 2),
            name_counts(b@.constraints),
        );
        lemma_lengths(
            (*constraints->items)->Struct_0[3],
            field_cells(all, 3),
            usage_counts(b@.constraints),
        );
    }
}

/// Every result set has the schema of the result set of objects.
pub proof fn law_objects_schema(b: GetObjectsBuilder, r: Result<Batch>, schema: Arc<Schema>)
    requires
        call_ensures(GetObjectsBuilder::finish, (b,), r),
        call_ensures(get_objects_schema, (), schema),
    ensures
        r is Ok,
        batch_schema(r->Ok_0) == schema_tree(*schema),
{
}

/// A usage, a constraint or a column that is left to its defaults holds nothing.
pub proof fn law_default_parts(
    usage: ConstraintUsage,
    constraint: TableConstraint,
    column: ColumnSchema,
)
    requires
        call_ensures(<ConstraintUsage as Default>::default, (), usage),
        call_ensures(<TableConstraint as Default>::default, (), constraint),
        call_ensures(<ColumnSchema as Default>::default, (), column),
    ensures
        usage.fk_catalog is None,
        usage.fk_db_schema is None,
        usage.fk_table@.len() == 0,
        usage.fk_column_name@.len() == 0,
        constraint.constraint_name is None,
        constraint.constraint_type@.len() == 0,
        constraint.constraint_column_names@.len() == 0,
        constraint.constraint_column_usage@.len() == 0,
        column.column_name@.len() == 0,
        column.ordinal_position is None,
        column.remarks is None,
        column.xdbc_data_type is None,
        column.xdbc_type_name is None,
        column.xdbc_column_size is None,
        column.xdbc_decimal_digits is None,
        column.xdbc_num_prec_radix is None,
        column.xdbc_nullable is None,
        column.xdbc_column_def is None,
        column.xdbc_sql_data_type is None,
        column.xdbc_datetime_sub is None,
        column.xdbc_char_octet_length is None,
        column.xdbc_is_nullable is None,
        column.xdbc_scope_catalog is None,
        column.xdbc_scope_schema is None,
        column.xdbc_scope_table is None,
        column.xdbc_is_autoincrement is None,
        column.xdbc_is_generatedcolumn is None,
{
}

/// A column made from a name has that name and no other field.
pub proof fn law_new_column(column_name: &str, r: ColumnSchema)
    requires
        call_ensures(ColumnSchema::new, (column_name,), r),
    ensures
        r.column_name@ == column_name@,
        r.ordinal_position is None,
        r.remarks is None,
        r.xdbc_data_type is None,
        r.xdbc_type_name is None,
        r.xdbc_column_size is None,
        r.xdbc_decimal_digits is None,
        r.xdbc_num_prec_radix is None,
        r.xdbc_nullable is None,
        r.xdbc_column_def is None,
        r.xdbc_sql_data_type is None,
        r.xdbc_datetime_sub is None,
        r.xdbc_char_octet_length is None,
        r.xdbc_is_nullable is None,
        r.xdbc_scope_catalog is None,
        r.xdbc_scope_schema is None,
        r.xdbc_scope_table is None,
        r.xdbc_is_autoincrement is None,
        r.xdbc_is_generatedcolumn is None,
{
}

} // verus!
