//! The result sets that the driver gives.

use crate::arrow::array::required_utf8_cells;
use crate::groups::{joined, of_owner};
use crate::info::{info_row, small, InfoModel, InfoRow};
use crate::model::{brief, field_cells, list_len, lists_packed, Cell, Layout};
use crate::objects::columns::{columns_cells, ColumnSchema};
use crate::objects::constraints::{
    constraints_cells, name_lists, usage_lists, usages_cells, TableConstraint,
};
use crate::objects::{table_head, ObjectsModel};
use crate::options::{InfoCode, ObjectDepth};
use crate::statistics::{statistic_row, StatisticValue, StatisticsModel};
use vstd::prelude::*;

verus! {

/// The result set of statistics.
pub open spec fn dummy_statistics() -> Seq<Seq<Cell>> {
    let statistic = Cell::Struct(
        seq![
            Cell::Utf8("default"@),
            Cell::Utf8("my_column"@),
            Cell::Int16(0),
            Cell::Union(1, Box::new(Cell::UInt64(42))),
            Cell::Boolean(false),
        ],
    );
    let db_schema = Cell::Struct(seq![Cell::Utf8("default"@), Cell::List(seq![statistic])]);
    seq![seq![Cell::Utf8("default"@)], seq![Cell::List(seq![db_schema])]]
}

/// What the result set of statistics is built from.
pub open spec fn dummy_statistics_model() -> StatisticsModel {
    StatisticsModel::empty().with_catalog(Some("default"@)).with_db_schema(
        Some("default"@),
    ).with_statistic(
        statistic_row("default"@, Some("my_column"@), 0, StatisticValue::UInt64(42), false),
    )
}

/// The one statistic makes up the result set.
pub(crate) proof fn lemma_dummy_statistics(model: StatisticsModel)
    requires
        model == dummy_statistics_model(),
    ensures
        model.fits(),
        model.cells() == dummy_statistics(),
{
    reveal_strlit("default");
    reveal_strlit("my_column");
    reveal_with_fuel(of_owner, 2);
    let row = model.statistics[0].1;
    assert(of_owner(model.statistic_rows(), 0) =~= seq![row.cell()]);
    assert(of_owner(model.db_schema_rows(), 0) =~= seq![model.db_schema_cell(0)]);
    assert(model.cells() =~~= dummy_statistics());
}

/// The strings among the values of info codes.
pub open spec fn dummy_strings() -> Seq<Cell> {
    seq![Cell::Utf8("Hello"@), Cell::Utf8("World"@)]
}

/// The entries of the map among the values of info codes.
pub open spec fn dummy_entries() -> Seq<(Cell, Cell)> {
    seq![
        (Cell::Int32(42), Cell::List(seq![Cell::Int32(1), Cell::Int32(2), Cell::Int32(3)])),
        (Cell::Int32(1337), Cell::List(seq![Cell::Int32(1), Cell::Int32(4), Cell::Int32(9)])),
    ]
}

/// The rows of the result set of info codes.
pub open spec fn dummy_info_rows() -> Seq<InfoRow> {
    seq![
        info_row(InfoCode::VendorName, 0, Cell::Utf8("MyVendorName"@)),
        info_row(InfoCode::VendorVersion, 1, Cell::Boolean(true)),
        info_row(InfoCode::VendorArrowVersion, 2, Cell::Int64(42)),
        info_row(InfoCode::DriverName, 3, Cell::Int32(1337)),
        info_row(InfoCode::DriverVersion, 4, Cell::List(dummy_strings())),
        info_row(InfoCode::DriverArrowVersion, 5, Cell::Entries(dummy_entries())),
    ]
}

/// The result set of info codes.
pub open spec fn dummy_info() -> Seq<Seq<Cell>> {
    InfoModel { rows: dummy_info_rows() }.cells()
}

/// The values of the rows are small.
pub(crate) proof fn lemma_dummy_info()
    ensures
        forall|i: int| 0 <= i < 6 ==> small((#[trigger] dummy_info_rows()[i]).value),
{
    reveal_strlit("MyVendorName");
    reveal_strlit("Hello");
    reveal_strlit("World");
}

/// The column in the result set of objects.
pub open spec fn dummy_column() -> Cell {
    Cell::Struct(
        seq![
            Cell::Utf8("my_column"@),
            Cell::Int32(0),
            Cell::Utf8("Nice column!"@),
            Cell::Int16(0),
            Cell::Utf8("my_type"@),
            Cell::Int32(42),
            Cell::Int16(42),
            Cell::Int16(42),
            Cell::Int16(42),
            Cell::Utf8("column_def"@),
            Cell::Int16(42),
            Cell::Int16(42),
            Cell::Int32(42),
            Cell::Utf8("YES"@),
            Cell::Utf8("MyCatalog"@),
            Cell::Utf8("MySchema"@),
            Cell::Utf8("MyTable"@),
            Cell::Boolean(true),
            Cell::Boolean(true),
        ],
    )
}

/// The usage in the result set of objects.
pub open spec fn dummy_usage() -> Cell {
    Cell::Struct(
        seq![
            Cell::Utf8("my_catalog"@),
            Cell::Utf8("my_db_schema"@),
            Cell::Utf8("my_table"@),
            Cell::Utf8("my_column"@),
        ],
    )
}

/// The constraint in the result set of objects.
pub open spec fn dummy_constraint() -> Cell {
    Cell::Struct(
        seq![
            Cell::Utf8("my_constraint"@),
            Cell::Utf8("FOREIGN KEY"@),
            Cell::List(seq![Cell::Utf8("my_other_column"@)]),
            Cell::List(seq![dummy_usage()]),
        ],
    )
}

/// The result set of objects.
pub open spec fn dummy_objects() -> Seq<Seq<Cell>> {
    let table = Cell::Struct(
        seq![
            Cell::Utf8("default"@),
            Cell::Utf8("table"@),
            Cell::List(seq![dummy_column()]),
            Cell::List(seq![dummy_constraint()]),
        ],
    );
    let db_schema = Cell::Struct(seq![Cell::Utf8("default"@), Cell::List(seq![table])]);
    seq![seq![Cell::Utf8("default"@)], seq![Cell::List(seq![db_schema])]]
}

/// Whether an array of lists holds one list of one item.
pub open spec fn holds_one(layout: Layout) -> bool {
    layout matches Layout::List { offsets, .. } && offsets == seq![0i32, 1i32]
}

/// How the result set of objects is stored: each list holds one item.
pub open spec fn dummy_objects_stored(layouts: Seq<Layout>) -> bool {
    let db_schemas = *layouts[1]->items;
    let tables = *db_schemas->Struct_0[1]->items;
    let constraints = *tables->Struct_0[3]->items;
    &&& holds_one(layouts[1])
    &&& holds_one(db_schemas->Struct_0[1])
    &&& holds_one(tables->Struct_0[2])
    &&& holds_one(tables->Struct_0[3])
    &&& holds_one(constraints->Struct_0[2])
    &&& holds_one(constraints->Struct_0[3])
}

/// A single list of one item that is stored without gaps has these offsets.
proof fn lemma_holds_one(layout: Layout, lists: Seq<Cell>)
    requires
        lists_packed(layout, lists),
        lists.len() == 1,
        list_len(lists[0]) == 1,
    ensures
        holds_one(layout),
{
    assert(layout->offsets[1] - layout->offsets[0] == list_len(lists[0]));
    assert(layout->offsets =~= seq![0i32, 1i32]);
}

/// Each list of the result set of objects holds one item.
pub(crate) proof fn lemma_dummy_objects_stored(
    model: ObjectsModel,
    constraint: TableConstraint,
    layouts: Seq<Layout>,
)
    requires
        model.cells() == dummy_objects(),
        model.shows_constraints(),
        model.catalogs.len() == 1,
        model.db_schemas.len() == 1,
        model.db_schemas[0].0 == 0,
        model.tables.len() == 1,
        model.tables[0].0 == 0,
        model.constraints.len() == 1,
        model.constraints[0].1 == constraint,
        constraint.cell() == dummy_constraint(),
        model.stored(layouts),
    ensures
        dummy_objects_stored(layouts),
{
    reveal_with_fuel(of_owner, 2);
    let db_schemas = *layouts[1]->items;
    let tables = *db_schemas->Struct_0[1]->items;
    let constraints = *tables->Struct_0[3]->items;
    let db_schema = model.db_schema_cell(0);
    assert(of_owner(model.db_schema_rows(), 0) =~= seq![db_schema]);
    assert(of_owner(model.table_rows(), 0) =~= seq![model.table_cell(0)]);
    assert(model.cells()[1][0] == dummy_objects()[1][0]);
    assert(dummy_objects()[1][0]->List_0[0] == db_schema);
    assert(db_schema->Struct_0[1] == dummy_objects()[1][0]->List_0[0]->Struct_0[1]);
    assert(db_schema->Struct_0[1]->List_0[0] == model.table_cell(0));
    lemma_holds_one(layouts[1], model.catalog_db_schemas());
    lemma_holds_one(db_schemas->Struct_0[1], field_cells(model.db_schema_cells(), 1));
    lemma_holds_one(tables->Struct_0[2], field_cells(model.table_cells(), 2));
    lemma_holds_one(tables->Struct_0[3], field_cells(model.table_cells(), 3));
    assert(model.all_constraints() =~= seq![constraint]);
    let cells = constraints_cells(seq![constraint]);
    lemma_holds_one(constraints->Struct_0[2], field_cells(cells, 2));
    lemma_holds_one(constraints->Struct_0[3], field_cells(cells, 3));
}

/// The texts of the column are short.
proof fn lemma_dummy_column()
    ensures
        forall|j: int| 0 <= j < 19 ==> brief(#[trigger] dummy_column()->Struct_0[j]),
{
    reveal_strlit("my_column");
    reveal_strlit("Nice column!");
    reveal_strlit("my_type");
    reveal_strlit("column_def");
    reveal_strlit("YES");
    reveal_strlit("MyCatalog");
    reveal_strlit("MySchema");
    reveal_strlit("MyTable");
}

/// The texts of the constraint and of the usage are short.
proof fn lemma_dummy_constraint()
    ensures
        forall|j: int| 0 <= j < 2 ==> brief(#[trigger] dummy_constraint()->Struct_0[j]),
        forall|j: int| 0 <= j < 4 ==> brief(#[trigger] dummy_usage()->Struct_0[j]),
{
    reveal_strlit("my_constraint");
    reveal_strlit("FOREIGN KEY");
    reveal_strlit("my_catalog");
    reveal_strlit("my_db_schema");
    reveal_strlit("my_table");
    reveal_strlit("my_column");
}

/// The one column and the one constraint make up the result set.
pub(crate) proof fn lemma_dummy_objects(
    model: ObjectsModel,
    column: ColumnSchema,
    constraint: TableConstraint,
)
    requires
        model == ObjectsModel::empty(ObjectDepth::All).with_catalog(
            Some("default"@),
        ).with_db_schema(Some("default"@)).with_table(
            table_head("default"@, "table"@),
        ).with_column(column).with_constraint(constraint),
        column.cell() == dummy_column(),
        constraint.cell() == dummy_constraint(),
        constraint.constraint_column_names@.len() == 1,
        constraint.constraint_column_usage@.len() == 1,
    ensures
        model.fits(),
        model.cells() == dummy_objects(),
{
    reveal_strlit("default");
    reveal_strlit("table");
    reveal_with_fuel(of_owner, 2);
    assert(of_owner(model.columns, 0) =~= seq![column]);
    assert(of_owner(model.constraints, 0) =~= seq![constraint]);
    assert(columns_cells(seq![column]) =~= seq![dummy_column()]);
    assert(constraints_cells(seq![constraint]) =~= seq![dummy_constraint()]);
    assert(of_owner(model.table_rows(), 0) =~= seq![model.table_cell(0)]);
    assert(of_owner(model.db_schema_rows(), 0) =~= seq![model.db_schema_cell(0)]);
    assert(model.cells() =~~= dummy_objects());
    lemma_dummy_column();
    assert(model.all_columns() =~= seq![column]);
    lemma_dummy_constraint();
    assert(model.all_constraints() =~= seq![constraint]);
    reveal_with_fuel(joined, 2);
    assert(joined(name_lists(seq![constraint])) =~= constraint.constraint_column_names@);
    assert(joined(usage_lists(seq![constraint])) =~= constraint.constraint_column_usage@);
    let names = required_utf8_cells(constraint.constraint_column_names@);
    assert(constraint.cell()->Struct_0[2] == dummy_constraint()->Struct_0[2]);
    reveal_strlit("my_other_column");
    assert(names[0] == Cell::Utf8("my_other_column"@));
    let usages = usages_cells(constraint.constraint_column_usage@);
    assert(constraint.cell()->Struct_0[3] == dummy_constraint()->Struct_0[3]);
    assert(usages[0] == dummy_usage());
}

} // verus!
