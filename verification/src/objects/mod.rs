//! The builder of the result set of catalogs, schemas, tables, columns and
//! constraints.

use crate::arrow::array::{
    batch_columns_match, new_batch, null_list_column, null_lists_fit, required_utf8_cells, required_utf8_column,
    struct_column, utf8_cells, utf8_column,
};
use crate::arrow::schema::struct_fields;
use crate::arrow::{
    batch_cells, batch_layout, batch_schema, cells_of, column_cells, column_layout, column_type,
    Batch, Column,
};
use crate::conform::{all_conform, columns_conform, conforms, fits_field, lemma_list_conforms};
use crate::error::{Error, Result};
use crate::groups::{
    children, count_child, count_parent, counts_valid, lemma_last_count, lemma_of_owner,
    lemma_of_owner_subset, lemma_own_child, lemma_own_parent, lemma_owned_ordered,
    list_of_children, of_owner, ordered, owned, room,
};
use crate::model::{
    bytes_fit, field_cells, fields_fit, lemma_bytes_fit, lemma_fields_fit, lemma_structs,
    lists_packed, utf8_cell, Cell, Layout, Ty,
};
use crate::names::{given, name_texts, own_name};
use crate::objects::columns::{
    build_columns_struct, columns_cells, columns_fit, lemma_column_conforms, ColumnSchema,
};
use crate::objects::constraints::{
    build_constraints_struct, constraints_cells, constraints_fit, constraints_stored,
    lemma_constraint_conforms, TableConstraint,
};
use crate::options::ObjectDepth;
use crate::schemas::{
    column_fields, column_schema, constraint_fields, constraint_schema, get_objects_schema,
    get_objects_type, lemma_objects_can_be_empty, list_item, objects_db_schema_fields, objects_db_schema_schema,
    objects_db_schema_type, table_fields, table_schema, table_type,
};
use vstd::prelude::*;

pub mod columns;
pub mod constraints;
pub mod laws;

verus! {

/// The name and the type of a table.
#[verifier::ext_equal]
pub struct TableHead {
    pub name: Seq<char>,
    pub table_type: Seq<char>,
}

/// The head of a table.
pub open spec fn table_head(name: Seq<char>, table_type: Seq<char>) -> TableHead {
    TableHead { name, table_type }
}

/// What was appended to a builder of objects. Each entry below the catalogs
/// comes with the position of its parent.
#[verifier::ext_equal]
pub struct ObjectsModel {
    pub depth: ObjectDepth,
    pub catalogs: Seq<Option<Seq<char>>>,
    pub db_schemas: Seq<(int, Option<Seq<char>>)>,
    pub tables: Seq<(int, TableHead)>,
    pub columns: Seq<(int, ColumnSchema)>,
    pub constraints: Seq<(int, TableConstraint)>,
}

impl ObjectsModel {
    /// Nothing, for the given depth.
    pub open spec fn empty(depth: ObjectDepth) -> Self {
        ObjectsModel {
            depth,
            catalogs: Seq::empty(),
            db_schemas: Seq::empty(),
            tables: Seq::empty(),
            columns: Seq::empty(),
            constraints: Seq::empty(),
        }
    }

    /// One more catalog.
    pub open spec fn with_catalog(self, name: Option<Seq<char>>) -> Self {
        ObjectsModel { catalogs: self.catalogs.push(name), ..self }
    }

    /// One more schema, of the last catalog.
    pub open spec fn with_db_schema(self, name: Option<Seq<char>>) -> Self {
        ObjectsModel {
            db_schemas: self.db_schemas.push((self.catalogs.len() - 1, name)),
            ..self
        }
    }

    /// One more table, of the last schema.
    pub open spec fn with_table(self, head: TableHead) -> Self {
        ObjectsModel { tables: self.tables.push((self.db_schemas.len() - 1, head)), ..self }
    }

    /// One more column, of the last table.
    pub open spec fn with_column(self, column: ColumnSchema) -> Self {
        ObjectsModel { columns: self.columns.push((self.tables.len() - 1, column)), ..self }
    }

    /// One more constraint, of the last table.
    pub open spec fn with_constraint(self, constraint: TableConstraint) -> Self {
        ObjectsModel {
            constraints: self.constraints.push((self.tables.len() - 1, constraint)),
            ..self
        }
    }

    /// Whether the result set goes down to the schemas.
    pub open spec fn shows_schemas(self) -> bool {
        !(self.depth is Catalogs)
    }

    /// Whether the result set goes down to the tables.
    pub open spec fn shows_tables(self) -> bool {
        self.shows_schemas() && !(self.depth is Schemas)
    }

    /// Whether the result set goes down to the columns and the constraints.
    pub open spec fn shows_columns(self) -> bool {
        self.shows_tables() && !(self.depth is Tables)
    }

    /// Whether the result set holds lists of constraints.
    pub open spec fn shows_constraints(self) -> bool {
        self.shows_columns() && self.constraints.len() > 0
    }

    /// One table as a value of the result set.
    pub open spec fn table_cell(self, table: int) -> Cell {
        Cell::Struct(
            seq![
                Cell::Utf8(self.tables[table].1.name),
                Cell::Utf8(self.tables[table].1.table_type),
                if self.shows_columns() {
                    Cell::List(columns_cells(of_owner(self.columns, table)))
                } else {
                    Cell::Null
                },
                if self.shows_constraints() {
                    Cell::List(constraints_cells(of_owner(self.constraints, table)))
                } else {
                    Cell::Null
                },
            ],
        )
    }

    /// The tables as values of the result set.
    pub open spec fn table_cells(self) -> Seq<Cell> {
        Seq::new(self.tables.len(), |t: int| self.table_cell(t))
    }

    /// The tables as values of the result set, each with its schema.
    pub open spec fn table_rows(self) -> Seq<(int, Cell)> {
        Seq::new(self.tables.len(), |t: int| (self.tables[t].0, self.table_cell(t)))
    }

    /// One schema as a value of the result set.
    pub open spec fn db_schema_cell(self, db_schema: int) -> Cell {
        Cell::Struct(
            seq![
                utf8_cell(self.db_schemas[db_schema].1),
                if self.shows_tables() {
                    Cell::List(of_owner(self.table_rows(), db_schema))
                } else {
                    Cell::Null
                },
            ],
        )
    }

    /// The schemas as values of the result set.
    pub open spec fn db_schema_cells(self) -> Seq<Cell> {
        Seq::new(self.db_schemas.len(), |s: int| self.db_schema_cell(s))
    }

    /// The schemas as values of the result set, each with its catalog.
    pub open spec fn db_schema_rows(self) -> Seq<(int, Cell)> {
        Seq::new(self.db_schemas.len(), |s: int| (self.db_schemas[s].0, self.db_schema_cell(s)))
    }

    /// The names of the catalogs.
    pub open spec fn catalog_names(self) -> Seq<Cell> {
        Seq::new(self.catalogs.len(), |c: int| utf8_cell(self.catalogs[c]))
    }

    /// The lists of the schemas of the catalogs.
    pub open spec fn catalog_db_schemas(self) -> Seq<Cell> {
        Seq::new(
            self.catalogs.len(),
            |c: int|
                if self.shows_schemas() {
                    Cell::List(of_owner(self.db_schema_rows(), c))
                } else {
                    Cell::Null
                },
        )
    }

    /// The columns of the result set.
    pub open spec fn cells(self) -> Seq<Seq<Cell>> {
        seq![self.catalog_names(), self.catalog_db_schemas()]
    }

    /// Whether the columns of the result set store the lists of the levels that it
    /// shows without gaps.
    pub open spec fn stored(self, layouts: Seq<Layout>) -> bool {
        let db_schemas = *layouts[1]->items;
        let tables = *db_schemas->Struct_0[1]->items;
        &&& lists_packed(layouts[1], self.catalog_db_schemas())
        &&& self.shows_schemas() ==> {
            &&& db_schemas is Struct
            &&& lists_packed(db_schemas->Struct_0[1], field_cells(self.db_schema_cells(), 1))
        }
        &&& self.shows_tables() ==> {
            &&& tables is Struct
            &&& lists_packed(tables->Struct_0[2], field_cells(self.table_cells(), 2))
            &&& lists_packed(tables->Struct_0[3], field_cells(self.table_cells(), 3))
        }
        &&& self.shows_constraints() ==> constraints_stored(
            *tables->Struct_0[3]->items,
            self.all_constraints(),
        )
    }

    /// Whether 32-bit offsets can count what the result set shows, and the bytes
    /// of each kind of text in it, and memory can hold the offsets of its nulls.
    pub open spec fn fits(self) -> bool {
        &&& bytes_fit(self.catalog_names())
        &&& self.shows_schemas() ==> {
            &&& self.db_schemas.len() <= i32::MAX
            &&& fields_fit(self.db_schema_cells(), 1)
        }
        &&& self.shows_tables() ==> {
            &&& self.tables.len() <= i32::MAX
            &&& fields_fit(self.table_cells(), 2)
        }
        &&& self.shows_columns() ==> {
            &&& self.columns.len() <= i32::MAX
            &&& columns_fit(self.all_columns())
        }
        &&& self.shows_constraints() ==> {
            &&& self.constraints.len() <= i32::MAX
            &&& constraints_fit(self.all_constraints())
        }
        &&& null_lists_fit(self.catalogs.len())
        &&& null_lists_fit(self.db_schemas.len())
        &&& null_lists_fit(self.tables.len())
    }

    /// Whether each entry below the catalogs has a parent that there is, and stands
    /// in the order of the parents.
    pub open spec fn valid(self) -> bool {
        &&& ordered(self.catalogs.len(), self.db_schemas)
        &&& ordered(self.db_schemas.len(), self.tables)
        &&& ordered(self.tables.len(), self.columns)
        &&& ordered(self.tables.len(), self.constraints)
    }

    /// The columns of all tables.
    pub open spec fn all_columns(self) -> Seq<ColumnSchema> {
        Seq::new(self.columns.len(), |i: int| self.columns[i].1)
    }

    /// The constraints of all tables.
    pub open spec fn all_constraints(self) -> Seq<TableConstraint> {
        Seq::new(self.constraints.len(), |i: int| self.constraints[i].1)
    }
}

/// Whatever was appended, the result set conforms to its schema, at every depth.
pub proof fn law_objects_conform(model: ObjectsModel)
    ensures
        columns_conform(model.cells(), get_objects_type()),
{
    assert forall|t: int| 0 <= t < model.tables.len() implies conforms(
        #[trigger] model.table_cell(t),
        table_type(),
    ) by {
        let columns = of_owner(model.columns, t);
        assert forall|i: int| 0 <= i < columns.len() implies conforms(
            #[trigger] columns_cells(columns)[i],
            Ty::Struct(column_fields()),
        ) by {
            lemma_column_conforms(columns[i]);
        }
        lemma_list_conforms(columns_cells(columns), Ty::Struct(column_fields()));
        let constraints = of_owner(model.constraints, t);
        assert forall|i: int| 0 <= i < constraints.len() implies conforms(
            #[trigger] constraints_cells(constraints)[i],
            Ty::Struct(constraint_fields()),
        ) by {
            lemma_constraint_conforms(constraints[i]);
        }
        lemma_list_conforms(constraints_cells(constraints), Ty::Struct(constraint_fields()));
        let values = model.table_cell(t)->Struct_0;
        assert forall|j: int| 0 <= j < values.len() implies fits_field(
            #[trigger] values[j],
            table_fields()[j],
        ) by {}
    }
    assert forall|s: int| 0 <= s < model.db_schemas.len() implies conforms(
        #[trigger] model.db_schema_cell(s),
        objects_db_schema_type(),
    ) by {
        let items = of_owner(model.table_rows(), s);
        lemma_of_owner_subset(model.table_rows(), s);
        assert(all_conform(items, table_type()));
        lemma_list_conforms(items, table_type());
        let values = model.db_schema_cell(s)->Struct_0;
        assert forall|j: int| 0 <= j < values.len() implies fits_field(
            #[trigger] values[j],
            objects_db_schema_fields()[j],
        ) by {}
    }
    assert forall|c: int| 0 <= c < model.catalogs.len() implies fits_field(
        #[trigger] model.catalog_db_schemas()[c],
        get_objects_type().fields[1],
    ) by {
        let items = of_owner(model.db_schema_rows(), c);
        lemma_of_owner_subset(model.db_schema_rows(), c);
        assert(all_conform(items, objects_db_schema_type()));
        lemma_list_conforms(items, objects_db_schema_type());
    }
}

/// Builder of the result set of catalogs, schemas, tables, columns and
/// constraints.
///
/// The hierarchy is built by appending in order: a catalog, then each of its
/// schemas, each followed by its tables, each followed by its columns and
/// constraints. The depth says how much of the hierarchy the result set shows:
/// lists below that depth are null.
pub struct GetObjectsBuilder {
    depth: ObjectDepth,
    catalog_names: Vec<Option<String>>,
    catalog_schema_counts: Vec<i32>,
    db_schema_names: Vec<Option<String>>,
    schema_table_counts: Vec<i32>,
    table_names: Vec<String>,
    table_types: Vec<String>,
    table_column_counts: Vec<i32>,
    table_constraint_counts: Vec<i32>,
    columns: Vec<ColumnSchema>,
    constraints: Vec<TableConstraint>,
}

impl GetObjectsBuilder {
    /// The heads of the tables.
    spec fn heads(&self) -> Seq<TableHead> {
        Seq::new(
            self.table_names@.len(),
            |i: int| TableHead { name: self.table_names@[i]@, table_type: self.table_types@[i]@ },
        )
    }

    /// Whether the children counted for the parents are those that are held.
    pub closed spec fn wf(&self) -> bool {
        &&& counts_valid(self.catalog_schema_counts@)
        &&& counts_valid(self.schema_table_counts@)
        &&& counts_valid(self.table_column_counts@)
        &&& counts_valid(self.table_constraint_counts@)
        &&& self.catalog_schema_counts@.len() == self.catalog_names@.len()
        &&& self.schema_table_counts@.len() == self.db_schema_names@.len()
        &&& self.table_types@.len() == self.table_names@.len()
        &&& self.table_column_counts@.len() == self.table_names@.len()
        &&& self.table_constraint_counts@.len() == self.table_names@.len()
        &&& children(self.catalog_schema_counts@) == self.db_schema_names@.len()
        &&& children(self.schema_table_counts@) == self.table_names@.len()
        &&& children(self.table_column_counts@) == self.columns@.len()
        &&& children(self.table_constraint_counts@) == self.constraints@.len()
    }

    /// What was appended is in the order of the hierarchy.
    pub proof fn law_valid(&self)
        requires
            self.wf(),
        ensures
            self@.valid(),
    {
        lemma_owned_ordered(self.catalog_schema_counts@, name_texts(self.db_schema_names@));
        lemma_owned_ordered(self.schema_table_counts@, self.heads());
        lemma_owned_ordered(self.table_column_counts@, self.columns@);
        lemma_owned_ordered(self.table_constraint_counts@, self.constraints@);
    }

    /// Creates an empty builder for a result set of the given depth.
    pub fn new(depth: ObjectDepth) -> (r: Self)
        ensures
            r.wf(),
            r@ == ObjectsModel::empty(depth),
    {
        GetObjectsBuilder {
            depth,
            catalog_names: Vec::new(),
            catalog_schema_counts: Vec::new(),
            db_schema_names: Vec::new(),
            schema_table_counts: Vec::new(),
            table_names: Vec::new(),
            table_types: Vec::new(),
            table_column_counts: Vec::new(),
            table_constraint_counts: Vec::new(),
            columns: Vec::new(),
            constraints: Vec::new(),
        }
    }

    /// Begins a new catalog.
    pub fn append_catalog(&mut self, name: Option<&str>) -> (r: &mut Self)
        requires
            old(self).wf(),
        ensures
            r.wf(),
            r@ == old(self)@.with_catalog(given(name)),
            *final(self) == *final(r),
    {
        proof {
            lemma_own_parent(self.catalog_schema_counts@, name_texts(self.db_schema_names@));
        }
        self.catalog_names.push(own_name(name));
        count_parent(&mut self.catalog_schema_counts);
        assert(self@ =~= old(self)@.with_catalog(given(name)));
        self
    }

    /// Begins a new schema within the most recently appended catalog.
    pub fn append_db_schema(&mut self, name: Option<&str>) -> (r: &mut Self)
        requires
            old(self).wf(),
            room(old(self)@.catalogs.len(), old(self)@.db_schemas),
        ensures
            r.wf(),
            r@ == old(self)@.with_db_schema(given(name)),
            *final(self) == *final(r),
    {
        proof {
            let names = name_texts(self.db_schema_names@);
            lemma_last_count(self.catalog_schema_counts@, names);
            lemma_own_child(self.catalog_schema_counts@, names, given(name));
            lemma_own_parent(self.schema_table_counts@, self.heads());
        }
        self.db_schema_names.push(own_name(name));
        count_parent(&mut self.schema_table_counts);
        count_child(&mut self.catalog_schema_counts);
        proof {
            assert(name_texts(self.db_schema_names@) =~= name_texts(
                old(self).db_schema_names@,
            ).push(given(name)));
            assert(self.heads() =~= old(self).heads());
            assert(self@ =~= old(self)@.with_db_schema(given(name)));
        }
        self
    }

    /// Begins a new table within the most recently appended schema.
    pub fn append_table(&mut self, table_name: &str, table_type: &str) -> (r: &mut Self)
        requires
            old(self).wf(),
            room(old(self)@.db_schemas.len(), old(self)@.tables),
        ensures
            r.wf(),
            r@ == old(self)@.with_table(table_head(table_name@, table_type@)),
            *final(self) == *final(r),
    {
        let ghost head = table_head(table_name@, table_type@);
        proof {
            lemma_last_count(self.schema_table_counts@, self.heads());
            lemma_own_child(self.schema_table_counts@, self.heads(), head);
            lemma_own_parent(self.table_column_counts@, self.columns@);
            lemma_own_parent(self.table_constraint_counts@, self.constraints@);
        }
        self.table_names.push(table_name.to_string());
        self.table_types.push(table_type.to_string());
        count_parent(&mut self.table_column_counts);
        count_parent(&mut self.table_constraint_counts);
        count_child(&mut self.schema_table_counts);
        proof {
            assert(self.heads() =~= old(self).heads().push(head));
            assert(self@ =~= old(self)@.with_table(head));
        }
        self
    }

    /// Adds a column to the most recently appended table.
    pub fn append_column(&mut self, column: ColumnSchema) -> (r: &mut Self)
        requires
            old(self).wf(),
            room(old(self)@.tables.len(), old(self)@.columns),
        ensures
            r.wf(),
            r@ == old(self)@.with_column(column),
            *final(self) == *final(r),
    {
        proof {
            lemma_last_count(self.table_column_counts@, self.columns@);
            lemma_own_child(self.table_column_counts@, self.columns@, column);
        }
        self.columns.push(column);
        count_child(&mut self.table_column_counts);
        proof {
            assert(self.heads() =~= old(self).heads());
            assert(self@ =~= old(self)@.with_column(column));
        }
        self
    }

    /// Adds a constraint to the most recently appended table.
    pub fn append_constraint(&mut self, constraint: TableConstraint) -> (r: &mut Self)
        requires
            old(self).wf(),
            room(old(self)@.tables.len(), old(self)@.constraints),
        ensures
            r.wf(),
            r@ == old(self)@.with_constraint(constraint),
            *final(self) == *final(r),
    {
        proof {
            lemma_last_count(self.table_constraint_counts@, self.constraints@);
            lemma_own_child(self.table_constraint_counts@, self.constraints@, constraint);
        }
        self.constraints.push(constraint);
        count_child(&mut self.table_constraint_counts);
        proof {
            assert(self.heads() =~= old(self).heads());
            assert(self@ =~= old(self)@.with_constraint(constraint));
        }
        self
    }

    /// The lists of the columns of the tables, or nulls.
    fn table_columns(&self) -> (r: Column)
        requires
            self.wf(),
            self@.fits(),
            self@.shows_tables(),
        ensures
            column_type(r) == table_fields()[2].ty,
            column_cells(r) == Seq::new(
                self@.tables.len(),
                |t: int| self@.table_cell(t)->Struct_0[2],
            ),
            lists_packed(column_layout(r), column_cells(r)),
    {
        let column_item = list_item(column_schema());
        proof {
            lemma_objects_can_be_empty();
        }
        match self.depth {
            ObjectDepth::Columns | ObjectDepth::All => {
                proof {
                    assert(self@.all_columns() =~= self.columns@);
                }
                let lists = list_of_children(
                    column_item,
                    &self.table_column_counts,
                    build_columns_struct(self.columns.as_slice()),
                );
                proof {
                    assert forall|t: int| 0 <= t < self.table_names@.len() implies of_owner(
                        owned(self.table_column_counts@, columns_cells(self.columns@)),
                        t,
                    ) == columns_cells(of_owner(self@.columns, t)) by {
                        lemma_of_owner(self.table_column_counts@, self.columns@, t);
                        lemma_of_owner(
                            self.table_column_counts@,
                            columns_cells(self.columns@),
                            t,
                        );
                        assert(of_owner(
                            owned(self.table_column_counts@, columns_cells(self.columns@)),
                            t,
                        ) =~= columns_cells(of_owner(self@.columns, t)));
                    }
                }
                lists
            },
            _ => null_list_column(column_item, self.table_names.len()),
        }
    }

    /// The lists of the constraints of the tables, or nulls.
    fn table_constraints(&self) -> (r: Column)
        requires
            self.wf(),
            self@.fits(),
            self@.shows_tables(),
        ensures
            column_type(r) == table_fields()[3].ty,
            column_cells(r) == Seq::new(
                self@.tables.len(),
                |t: int| self@.table_cell(t)->Struct_0[3],
            ),
            lists_packed(column_layout(r), column_cells(r)),
            self@.shows_constraints() ==> constraints_stored(
                *column_layout(r)->items,
                self@.all_constraints(),
            ),
    {
        let constraint_item = list_item(constraint_schema());
        proof {
            lemma_objects_can_be_empty();
        }
        let include_constraints = match self.depth {
            ObjectDepth::Columns | ObjectDepth::All => self.constraints.len() > 0,
            _ => false,
        };
        if include_constraints {
            proof {
                assert(self@.all_constraints() =~= self.constraints@);
            }
            let lists = list_of_children(
                constraint_item,
                &self.table_constraint_counts,
                build_constraints_struct(self.constraints.as_slice()),
            );
            proof {
                let counts = self.table_constraint_counts@;
                let cells = constraints_cells(self.constraints@);
                assert forall|t: int| 0 <= t < self.table_names@.len() implies of_owner(
                    owned(counts, cells),
                    t,
                ) == constraints_cells(of_owner(self@.constraints, t)) by {
                    lemma_of_owner(counts, self.constraints@, t);
                    lemma_of_owner(counts, cells, t);
                    assert(of_owner(owned(counts, cells), t) =~= constraints_cells(
                        of_owner(self@.constraints, t),
                    ));
                }
            }
            lists
        } else {
            null_list_column(constraint_item, self.table_names.len())
        }
    }

    /// Finishes building, and gives a batch with the schema of the result set of
    /// objects.
    pub fn finish(self) -> (r: Result<Batch>)
        requires
            self.wf(),
            self@.fits(),
        ensures
            r is Ok,
            batch_schema(r->Ok_0) == get_objects_type(),
            batch_cells(r->Ok_0) == self@.cells(),
            columns_conform(batch_cells(r->Ok_0), batch_schema(r->Ok_0)),
            self@.stored(batch_layout(r->Ok_0)),
    {
        let ghost model = self@;
        let ghost parts = self;
        let table_item = list_item(table_schema());
        let db_schema_item = list_item(objects_db_schema_schema());
        proof {
            lemma_objects_can_be_empty();
        }
        let catalog_db_schemas = match self.depth {
            ObjectDepth::Catalogs => null_list_column(db_schema_item, self.catalog_names.len()),
            _ => {
                let db_schema_tables = match self.depth {
                    ObjectDepth::Tables | ObjectDepth::Columns | ObjectDepth::All => {
                        let table_columns = self.table_columns();
                        let table_constraints = self.table_constraints();
                        proof {
                            let cells = model.table_cells();
                            lemma_fields_fit(cells, 2);
                            assert(required_utf8_cells(self.table_names@) =~= field_cells(cells, 0));
                            assert(required_utf8_cells(self.table_types@) =~= field_cells(cells, 1));
                            assert(column_cells(table_columns) =~= field_cells(cells, 2));
                            assert(column_cells(table_constraints) =~= field_cells(cells, 3));
                        }
                        let arrays = vec![
                            required_utf8_column(self.table_names),
                            required_utf8_column(self.table_types),
                            table_columns,
                            table_constraints,
                        ];
                        proof {
                            lemma_structs(cells_of(arrays@), model.table_cells());
                        }
                        let tables_struct = struct_column(struct_fields(&table_schema()), arrays);
                        proof {
                            assert(owned(parts.schema_table_counts@, model.table_cells())
                                =~= model.table_rows());
                        }
                        list_of_children(table_item, &self.schema_table_counts, tables_struct)
                    },
                    _ => null_list_column(table_item, self.db_schema_names.len()),
                };
                proof {
                    let cells = model.db_schema_cells();
                    lemma_fields_fit(cells, 1);
                    assert(utf8_cells(self.db_schema_names@) =~= field_cells(cells, 0));
                    assert(column_cells(db_schema_tables) =~= field_cells(cells, 1));
                }
                let arrays = vec![utf8_column(self.db_schema_names), db_schema_tables];
                proof {
                    lemma_structs(cells_of(arrays@), model.db_schema_cells());
                }
                let db_schemas_struct = struct_column(
                    struct_fields(&objects_db_schema_schema()),
                    arrays,
                );
                proof {
                    assert(owned(parts.catalog_schema_counts@, model.db_schema_cells())
                        =~= model.db_schema_rows());
                }
                list_of_children(db_schema_item, &self.catalog_schema_counts, db_schemas_struct)
            },
        };
        proof {
            lemma_bytes_fit(model.catalog_names());
            assert(utf8_cells(self.catalog_names@) =~= model.catalog_names());
            assert(column_cells(catalog_db_schemas) =~= model.catalog_db_schemas());
        }
        let columns = vec![utf8_column(self.catalog_names), catalog_db_schemas];
        let ghost held = columns@;
        match new_batch(get_objects_schema(), columns) {
            Ok(batch) => {
                proof {
                    assert(batch_cells(batch) =~= model.cells());
                    law_objects_conform(model);
                }
                Ok(batch)
            },
            Err(error) => {
                proof {
                    assert(batch_columns_match(get_objects_type().fields, held));
                }
                Err(Error::from_arrow(error))
            },
        }
    }
}

impl View for GetObjectsBuilder {
    type V = ObjectsModel;

    closed spec fn view(&self) -> ObjectsModel {
        ObjectsModel {
            depth: self.depth,
            catalogs: name_texts(self.catalog_names@),
            db_schemas: owned(self.catalog_schema_counts@, name_texts(self.db_schema_names@)),
            tables: owned(self.schema_table_counts@, self.heads()),
            columns: owned(self.table_column_counts@, self.columns@),
            constraints: owned(self.table_constraint_counts@, self.constraints@),
        }
    }
}

} // verus!
