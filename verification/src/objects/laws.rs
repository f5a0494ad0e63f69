//! What holds of every result set of objects.

use crate::groups::{
    child_lists, joined, law_child_appended, law_children_kept, lemma_of_owner_field, of_owner,
    unowned,
};
use crate::model::{field_cells, Cell};
use crate::objects::columns::{columns_cells, ColumnSchema};
use crate::objects::constraints::{constraints_cells, TableConstraint};
use crate::objects::{ObjectsModel, TableHead};
use crate::options::ObjectDepth;
use vstd::prelude::*;

verus! {

/// Lists below the depth that was asked for are null, and lists down to that depth
/// are not. Where no constraint was appended at all, the lists of constraints are
/// null at every depth.
pub proof fn law_null_below_depth(model: ObjectsModel)
    ensures
        forall|c: int|
            0 <= c < model.catalogs.len() ==> ((#[trigger] model.cells()[1][c]) is Null
                <==> model.depth is Catalogs),
        forall|s: int|
            0 <= s < model.db_schemas.len() ==> ((#[trigger] model.db_schema_cell(
                s,
            ))->Struct_0[1] is Null <==> model.depth is Catalogs || model.depth is Schemas),
        forall|t: int|
            0 <= t < model.tables.len() ==> ((#[trigger] model.table_cell(t))->Struct_0[2] is Null
                <==> !(model.depth is Columns || model.depth is All)),
        forall|t: int|
            0 <= t < model.tables.len() ==> ((#[trigger] model.table_cell(t))->Struct_0[3] is Null
                <==> !(model.depth is Columns || model.depth is All) || model.constraints.len()
                == 0),
{
}

/// The depth changes nothing about the catalogs themselves: there is one row for
/// each, with its name.
pub proof fn law_depth_keeps_catalogs(model: ObjectsModel, depth: ObjectDepth)
    ensures
        (ObjectsModel { depth, ..model }).cells()[0] == model.cells()[0],
        model.cells()[0].len() == model.catalogs.len(),
        model.cells()[1].len() == model.catalogs.len(),
{
    assert((ObjectsModel { depth, ..model }).catalog_names() =~= model.catalog_names());
}

/// The depth changes nothing about the names of the schemas of each catalog, nor
/// about the names and the types of the tables of each schema.
pub proof fn law_depth_keeps_names(model: ObjectsModel, depth: ObjectDepth)
    ensures
        ({
            let other = ObjectsModel { depth, ..model };
            &&& forall|c: int|
                field_cells(of_owner(other.db_schema_rows(), c), 0) == field_cells(
                    #[trigger] of_owner(model.db_schema_rows(), c),
                    0,
                )
            &&& forall|s: int|
                field_cells(of_owner(other.table_rows(), s), 0) == field_cells(
                    #[trigger] of_owner(model.table_rows(), s),
                    0,
                )
            &&& forall|s: int|
                field_cells(of_owner(other.table_rows(), s), 1) == field_cells(
                    #[trigger] of_owner(model.table_rows(), s),
                    1,
                )
        }),
{
    let other = ObjectsModel { depth, ..model };
    assert forall|c: int|
        field_cells(of_owner(other.db_schema_rows(), c), 0) == field_cells(
            #[trigger] of_owner(model.db_schema_rows(), c),
            0,
        ) by {
        lemma_of_owner_field(other.db_schema_rows(), model.db_schema_rows(), c, 0);
    }
    assert forall|s: int|
        field_cells(of_owner(other.table_rows(), s), 0) == field_cells(
            #[trigger] of_owner(model.table_rows(), s),
            0,
        ) by {
        lemma_of_owner_field(other.table_rows(), model.table_rows(), s, 0);
    }
    assert forall|s: int|
        field_cells(of_owner(other.table_rows(), s), 1) == field_cells(
            #[trigger] of_owner(model.table_rows(), s),
            1,
        ) by {
        lemma_of_owner_field(other.table_rows(), model.table_rows(), s, 1);
    }
}

/// The two names of the greatest depth mean the same.
pub proof fn law_all_is_columns(model: ObjectsModel)
    requires
        model.depth is All,
    ensures
        (ObjectsModel { depth: ObjectDepth::Columns, ..model }).cells() == model.cells(),
{
    let other = ObjectsModel { depth: ObjectDepth::Columns, ..model };
    assert(other.table_rows() =~= model.table_rows());
    assert(other.db_schema_rows() =~= model.db_schema_rows());
    assert(other.cells() =~~= model.cells());
}

/// A schema that is appended is the last of the latest catalog, and the schemas of
/// the other catalogs stay as they are.
pub proof fn law_db_schema_joins_latest(model: ObjectsModel, name: Option<Seq<char>>)
    ensures
        ({
            let more = model.with_db_schema(name);
            let latest = model.catalogs.len() - 1;
            &&& of_owner(more.db_schemas, latest) == of_owner(model.db_schemas, latest).push(name)
            &&& forall|c: int|
                c != latest ==> #[trigger] of_owner(more.db_schemas, c) == of_owner(
                    model.db_schemas,
                    c,
                )
        }),
{
    law_child_appended(model.db_schemas, model.catalogs.len() - 1, name);
}

/// A table that is appended is the last of the latest schema, and the tables of the
/// other schemas stay as they are.
pub proof fn law_table_joins_latest(model: ObjectsModel, head: TableHead)
    ensures
        ({
            let more = model.with_table(head);
            let latest = model.db_schemas.len() - 1;
            &&& of_owner(more.tables, latest) == of_owner(model.tables, latest).push(head)
            &&& forall|s: int|
                s != latest ==> #[trigger] of_owner(more.tables, s) == of_owner(model.tables, s)
        }),
{
    law_child_appended(model.tables, model.db_schemas.len() - 1, head);
}

/// A column that is appended is the last of the latest table, and the columns of
/// the other tables stay as they are.
pub proof fn law_column_joins_latest(model: ObjectsModel, column: ColumnSchema)
    ensures
        ({
            let more = model.with_column(column);
            let latest = model.tables.len() - 1;
            &&& of_owner(more.columns, latest) == of_owner(model.columns, latest).push(column)
            &&& forall|t: int|
                t != latest ==> #[trigger] of_owner(more.columns, t) == of_owner(model.columns, t)
        }),
{
    law_child_appended(model.columns, model.tables.len() - 1, column);
}

/// A constraint that is appended is the last of the latest table, and the
/// constraints of the other tables stay as they are.
pub proof fn law_constraint_joins_latest(model: ObjectsModel, constraint: TableConstraint)
    ensures
        ({
            let more = model.with_constraint(constraint);
            let latest = model.tables.len() - 1;
            &&& of_owner(more.constraints, latest) == of_owner(model.constraints, latest).push(
                constraint,
            )
            &&& forall|t: int|
                t != latest ==> #[trigger] of_owner(more.constraints, t) == of_owner(
                    model.constraints,
                    t,
                )
        }),
{
    law_child_appended(model.constraints, model.tables.len() - 1, constraint);
}

/// The result set holds every schema, table, column and constraint of the levels
/// that it shows, in the order in which they were appended, and nothing else.
pub proof fn law_objects_kept(model: ObjectsModel)
    requires
        model.valid(),
    ensures
        joined(child_lists(model.catalogs.len(), model.db_schema_rows()))
            == model.db_schema_cells(),
        joined(child_lists(model.db_schemas.len(), model.table_rows())) == model.table_cells(),
        joined(child_lists(model.tables.len(), model.columns)) == model.all_columns(),
        joined(child_lists(model.tables.len(), model.constraints)) == model.all_constraints(),
        model.shows_schemas() ==> forall|c: int|
            0 <= c < model.catalogs.len() ==> #[trigger] model.cells()[1][c] == Cell::List(
                child_lists(model.catalogs.len(), model.db_schema_rows())[c],
            ),
        model.shows_tables() ==> forall|s: int|
            0 <= s < model.db_schemas.len() ==> (#[trigger] model.db_schema_cell(s))->Struct_0[1]
                == Cell::List(child_lists(model.db_schemas.len(), model.table_rows())[s]),
        model.shows_columns() ==> forall|t: int|
            0 <= t < model.tables.len() ==> (#[trigger] model.table_cell(t))->Struct_0[2]
                == Cell::List(columns_cells(child_lists(model.tables.len(), model.columns)[t])),
        model.shows_constraints() ==> forall|t: int|
            0 <= t < model.tables.len() ==> (#[trigger] model.table_cell(t))->Struct_0[3]
                == Cell::List(
                constraints_cells(child_lists(model.tables.len(), model.constraints)[t]),
            ),
{
    law_children_kept(model.catalogs.len(), model.db_schema_rows());
    assert(unowned(model.db_schema_rows()) =~= model.db_schema_cells());
    law_children_kept(model.db_schemas.len(), model.table_rows());
    assert(unowned(model.table_rows()) =~= model.table_cells());
    law_children_kept(model.tables.len(), model.columns);
    assert(unowned(model.columns) =~= model.all_columns());
    law_children_kept(model.tables.len(), model.constraints);
    assert(unowned(model.constraints) =~= model.all_constraints());
}

} // verus!
