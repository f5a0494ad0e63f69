//! The constraints of tables.

use crate::arrow::array::{
    list_column, required_utf8_cells, required_utf8_column, struct_column, utf8_cells, utf8_column,
};
use crate::arrow::schema::{scalar_type, struct_fields, Scalar};
use crate::arrow::{cells_of, column_cells, column_layout, column_type, Column};
use crate::conform::{conforms, fits_field, lemma_list_conforms};
use crate::groups::{children_before, joined, lemma_joined, lemma_joined_len, offsets_from_counts};
use crate::model::{
    bytes_fit, field_cells, fields_fit, lemma_bytes_fit, lemma_fields_fit, list_cells,
    lists_packed, struct_cells, text, utf8_cell, Cell, Layout, Ty,
};
use crate::names::copy_text;
use crate::schemas::{
    constraint_fields, constraint_schema, list_item, usage_fields, usage_schema,
};
use vstd::prelude::*;

verus! {

/// A column that a constraint uses, such as the target of a foreign key.
#[derive(Debug, Clone)]
pub struct ConstraintUsage {
    pub fk_catalog: Option<String>,
    pub fk_db_schema: Option<String>,
    pub fk_table: String,
    pub fk_column_name: String,
}

impl ConstraintUsage {
    /// The usage as a value of the result set.
    pub open spec fn cell(self) -> Cell {
        Cell::Struct(
            seq![
                utf8_cell(text(self.fk_catalog)),
                utf8_cell(text(self.fk_db_schema)),
                Cell::Utf8(self.fk_table@),
                Cell::Utf8(self.fk_column_name@),
            ],
        )
    }
}

impl Default for ConstraintUsage {
    fn default() -> (r: Self)
        ensures
            r.fk_catalog is None,
            r.fk_db_schema is None,
            r.fk_table@ == Seq::<char>::empty(),
            r.fk_column_name@ == Seq::<char>::empty(),
    {
        ConstraintUsage {
            fk_catalog: None,
            fk_db_schema: None,
            fk_table: String::new(),
            fk_column_name: String::new(),
        }
    }
}

/// A single constraint of a table.
#[derive(Debug, Clone)]
pub struct TableConstraint {
    pub constraint_name: Option<String>,
    pub constraint_type: String,
    pub constraint_column_names: Vec<String>,
    pub constraint_column_usage: Vec<ConstraintUsage>,
}

/// The values of the result set for these usages.
pub open spec fn usages_cells(usages: Seq<ConstraintUsage>) -> Seq<Cell> {
    Seq::new(usages.len(), |i: int| usages[i].cell())
}

impl TableConstraint {
    /// The constraint as a value of the result set.
    pub open spec fn cell(self) -> Cell {
        Cell::Struct(
            seq![
                utf8_cell(text(self.constraint_name)),
                Cell::Utf8(self.constraint_type@),
                Cell::List(required_utf8_cells(self.constraint_column_names@)),
                Cell::List(usages_cells(self.constraint_column_usage@)),
            ],
        )
    }
}

impl Default for TableConstraint {
    fn default() -> (r: Self)
        ensures
            r.constraint_name is None,
            r.constraint_type@ == Seq::<char>::empty(),
            r.constraint_column_names@ == Seq::<String>::empty(),
            r.constraint_column_usage@ == Seq::<ConstraintUsage>::empty(),
    {
        TableConstraint {
            constraint_name: None,
            constraint_type: String::new(),
            constraint_column_names: Vec::new(),
            constraint_column_usage: Vec::new(),
        }
    }
}

/// The column names of each constraint.
pub open spec fn name_lists(constraints: Seq<TableConstraint>) -> Seq<Seq<String>> {
    Seq::new(constraints.len(), |i: int| constraints[i].constraint_column_names@)
}

/// The usages of each constraint.
pub open spec fn usage_lists(constraints: Seq<TableConstraint>) -> Seq<Seq<ConstraintUsage>> {
    Seq::new(constraints.len(), |i: int| constraints[i].constraint_column_usage@)
}

/// The values of the result set for these constraints.
pub open spec fn constraints_cells(constraints: Seq<TableConstraint>) -> Seq<Cell> {
    Seq::new(constraints.len(), |i: int| constraints[i].cell())
}

/// Whether an array of these constraints stores the lists of their names and usages
/// without gaps.
pub open spec fn constraints_stored(layout: Layout, constraints: Seq<TableConstraint>) -> bool {
    &&& layout is Struct
    &&& lists_packed(layout->Struct_0[2], field_cells(constraints_cells(constraints), 2))
    &&& lists_packed(layout->Struct_0[3], field_cells(constraints_cells(constraints), 3))
}

/// A constraint is of the type of constraints.
pub proof fn lemma_constraint_conforms(constraint: TableConstraint)
    ensures
        conforms(constraint.cell(), Ty::Struct(constraint_fields())),
{
    let names = required_utf8_cells(constraint.constraint_column_names@);
    lemma_list_conforms(names, Ty::Utf8);
    let usages = usages_cells(constraint.constraint_column_usage@);
    assert forall|i: int| 0 <= i < usages.len() implies conforms(
        #[trigger] usages[i],
        Ty::Struct(usage_fields()),
    ) by {
        let values = usages[i]->Struct_0;
        assert forall|j: int| 0 <= j < values.len() implies fits_field(
            #[trigger] values[j],
            usage_fields()[j],
        ) by {}
    }
    lemma_list_conforms(usages, Ty::Struct(usage_fields()));
    let values = constraint.cell()->Struct_0;
    assert forall|j: int| 0 <= j < values.len() implies fits_field(
        #[trigger] values[j],
        constraint_fields()[j],
    ) by {}
}

/// Whether 32-bit offsets can count the names, the usages and the bytes of each
/// kind of text of these constraints.
pub open spec fn constraints_fit(constraints: Seq<TableConstraint>) -> bool {
    &&& fields_fit(constraints_cells(constraints), 2)
    &&& joined(name_lists(constraints)).len() <= i32::MAX
    &&& bytes_fit(required_utf8_cells(joined(name_lists(constraints))))
    &&& joined(usage_lists(constraints)).len() <= i32::MAX
    &&& fields_fit(usages_cells(joined(usage_lists(constraints))), 4)
}

/// Builds the lists of the column names of each constraint.
fn build_names_lists(constraints: &[TableConstraint]) -> (r: Column)
    requires
        joined(name_lists(constraints@)).len() <= i32::MAX,
        bytes_fit(required_utf8_cells(joined(name_lists(constraints@)))),
    ensures
        column_type(r) == constraint_fields()[2].ty,
        column_cells(r) == Seq::new(
            constraints@.len(),
            |i: int|
                Cell::List(required_utf8_cells(constraints@[i].constraint_column_names@)),
        ),
        lists_packed(column_layout(r), column_cells(r)),
{
    let ghost lists = name_lists(constraints@);
    let mut counts: Vec<i32> = Vec::new();
    let mut names: Vec<String> = Vec::new();
    let mut k: usize = 0;
    while k < constraints.len()
        invariant
            k <= constraints@.len(),
            lists == name_lists(constraints@),
            joined(lists).len() <= i32::MAX,
            counts@.len() == k,
            forall|i: int| 0 <= i < k ==> #[trigger] counts@[i] == lists[i].len(),
            names@ == joined(lists.take(k as int)),
        decreases constraints@.len() - k,
    {
        proof {
            lemma_joined_len(lists, k as int);
            assert(lists.take(k + 1).drop_last() =~= lists.take(k as int));
        }
        let own = &constraints[k].constraint_column_names;
        counts.push(own.len() as i32);
        let mut m: usize = 0;
        while m < own.len()
            invariant
                m <= own@.len(),
                names@ == joined(lists.take(k as int)) + own@.take(m as int),
            decreases own@.len() - m,
        {
            names.push(own[m].clone());
            m = m + 1;
        }
        assert(own@.take(own@.len() as int) =~= own@);
        k = k + 1;
    }
    assert(lists.take(lists.len() as int) =~= lists);
    let ghost all = joined(lists);
    proof {
        lemma_joined(counts@, lists);
        lemma_bytes_fit(required_utf8_cells(all));
    }
    let offsets = offsets_from_counts(counts.as_slice());
    proof {
        let cells = required_utf8_cells(all);
        assert forall|i: int| #![trigger lists[i]] 0 <= i < lists.len() implies list_cells(
            offsets@,
            cells,
        )[i] == Cell::List(required_utf8_cells(lists[i])) && offsets@[i + 1] - offsets@[i]
            == lists[i].len() by {
            assert(offsets@[i] == children_before(counts@, i));
            assert(offsets@[i + 1] == children_before(counts@, i + 1));
            let sub = cells.subrange(offsets@[i] as int, offsets@[i + 1] as int);
            assert(sub.len() == lists[i].len());
            assert forall|j: int| 0 <= j < sub.len() implies sub[j] == required_utf8_cells(
                lists[i],
            )[j] by {
                assert(all.subrange(offsets@[i] as int, offsets@[i + 1] as int)[j]
                    == lists[i][j]);
            }
            assert(sub =~= required_utf8_cells(lists[i]));
        }
        assert(list_cells(offsets@, cells) =~= Seq::new(
            constraints@.len(),
            |i: int|
                Cell::List(required_utf8_cells(constraints@[i].constraint_column_names@)),
        ));
    }
    list_column(list_item(scalar_type(Scalar::Utf8)), offsets, required_utf8_column(names))
}

/// Whether these are the texts that one field of these usages holds.
spec fn texts_collected(
    texts: Seq<Option<String>>,
    usages: Seq<ConstraintUsage>,
    field: int,
) -> bool {
    forall|i: int|
        0 <= i < texts.len() ==> utf8_cell(text(#[trigger] texts[i]))
            == usages[i].cell()->Struct_0[field]
}

/// Builds the struct array of usages, with one element for each usage.
fn build_usages_struct(usages: &Vec<&ConstraintUsage>) -> (r: Column)
    requires
        fields_fit(usages_cells(usages@.map_values(|u: &ConstraintUsage| *u)), 4),
    ensures
        column_type(r) == Ty::Struct(usage_fields()),
        column_cells(r) == usages_cells(usages@.map_values(|u: &ConstraintUsage| *u)),
{
    let ghost own = usages@.map_values(|u: &ConstraintUsage| *u);
    let mut fk_catalog: Vec<Option<String>> = Vec::new();
    let mut fk_db_schema: Vec<Option<String>> = Vec::new();
    let mut fk_table: Vec<String> = Vec::new();
    let mut fk_column_name: Vec<String> = Vec::new();
    let mut k: usize = 0;
    while k < usages.len()
        invariant
            k <= usages@.len(),
            own == usages@.map_values(|u: &ConstraintUsage| *u),
            fk_catalog@.len() == k,
            texts_collected(fk_catalog@, own, 0),
            fk_db_schema@.len() == k,
            texts_collected(fk_db_schema@, own, 1),
            fk_table@ == Seq::new(k as nat, |i: int| own[i].fk_table),
            fk_column_name@ == Seq::new(k as nat, |i: int| own[i].fk_column_name),
        decreases usages@.len() - k,
    {
        let usage = usages[k];
        fk_catalog.push(copy_text(&usage.fk_catalog));
        fk_db_schema.push(copy_text(&usage.fk_db_schema));
        fk_table.push(usage.fk_table.clone());
        fk_column_name.push(usage.fk_column_name.clone());
        k = k + 1;
    }
    let ghost rows = usages_cells(own);
    proof {
        lemma_fields_fit(rows, 4);
        assert(utf8_cells(fk_catalog@) =~= field_cells(rows, 0));
        assert(utf8_cells(fk_db_schema@) =~= field_cells(rows, 1));
        assert(required_utf8_cells(fk_table@) =~= field_cells(rows, 2));
        assert(required_utf8_cells(fk_column_name@) =~= field_cells(rows, 3));
    }
    let arrays = vec![
        utf8_column(fk_catalog),
        utf8_column(fk_db_schema),
        required_utf8_column(fk_table),
        required_utf8_column(fk_column_name),
    ];
    proof {
        let cells = cells_of(arrays@);
        assert forall|i: int| 0 <= i < rows.len() implies struct_cells(rows.len(), cells)[i]
            == rows[i] by {
            assert(Seq::new(cells.len(), |j: int| cells[j][i]) =~= rows[i]->Struct_0);
        }
        assert(struct_cells(rows.len(), cells) =~= rows);
    }
    struct_column(struct_fields(&usage_schema()), arrays)
}

/// Builds the lists of the usages of each constraint.
fn build_usages_lists(constraints: &[TableConstraint]) -> (r: Column)
    requires
        joined(usage_lists(constraints@)).len() <= i32::MAX,
        fields_fit(usages_cells(joined(usage_lists(constraints@))), 4),
    ensures
        column_type(r) == constraint_fields()[3].ty,
        column_cells(r) == Seq::new(
            constraints@.len(),
            |i: int| Cell::List(usages_cells(constraints@[i].constraint_column_usage@)),
        ),
        lists_packed(column_layout(r), column_cells(r)),
{
    let ghost lists = usage_lists(constraints@);
    let mut counts: Vec<i32> = Vec::new();
    let mut usages: Vec<&ConstraintUsage> = Vec::new();
    let mut k: usize = 0;
    while k < constraints.len()
        invariant
            k <= constraints@.len(),
            lists == usage_lists(constraints@),
            joined(lists).len() <= i32::MAX,
            counts@.len() == k,
            forall|i: int| 0 <= i < k ==> #[trigger] counts@[i] == lists[i].len(),
            usages@.map_values(|u: &ConstraintUsage| *u) == joined(lists.take(k as int)),
        decreases constraints@.len() - k,
    {
        proof {
            lemma_joined_len(lists, k as int);
            assert(lists.take(k + 1).drop_last() =~= lists.take(k as int));
        }
        let own = &constraints[k].constraint_column_usage;
        counts.push(own.len() as i32);
        let mut m: usize = 0;
        while m < own.len()
            invariant
                m <= own@.len(),
                usages@.map_values(|u: &ConstraintUsage| *u) == joined(lists.take(k as int))
                    + own@.take(m as int),
            decreases own@.len() - m,
        {
            let ghost before = usages@;
            usages.push(&own[m]);
            assert(usages@.map_values(|u: &ConstraintUsage| *u) =~= before.map_values(
                |u: &ConstraintUsage| *u,
            ).push(own@[m as int]));
            m = m + 1;
        }
        assert(own@.take(own@.len() as int) =~= own@);
        k = k + 1;
    }
    assert(lists.take(lists.len() as int) =~= lists);
    let ghost all = joined(lists);
    proof {
        lemma_joined(counts@, lists);
    }
    let offsets = offsets_from_counts(counts.as_slice());
    proof {
        let cells = usages_cells(all);
        assert forall|i: int| #![trigger lists[i]] 0 <= i < lists.len() implies list_cells(
            offsets@,
            cells,
        )[i] == Cell::List(usages_cells(lists[i])) && offsets@[i + 1] - offsets@[i]
            == lists[i].len() by {
            assert(offsets@[i] == children_before(counts@, i));
            assert(offsets@[i + 1] == children_before(counts@, i + 1));
            let sub = cells.subrange(offsets@[i] as int, offsets@[i + 1] as int);
            assert(sub.len() == lists[i].len());
            assert forall|j: int| 0 <= j < sub.len() implies sub[j] == usages_cells(
                lists[i],
            )[j] by {
                assert(all.subrange(offsets@[i] as int, offsets@[i + 1] as int)[j]
                    == lists[i][j]);
            }
            assert(sub =~= usages_cells(lists[i]));
        }
        assert(list_cells(offsets@, cells) =~= Seq::new(
            constraints@.len(),
            |i: int| Cell::List(usages_cells(constraints@[i].constraint_column_usage@)),
        ));
    }
    list_column(list_item(usage_schema()), offsets, build_usages_struct(&usages))
}

/// Builds the struct array of constraints, with one element for each constraint.
pub(crate) fn build_constraints_struct(constraints: &[TableConstraint]) -> (r: Column)
    requires
        constraints_fit(constraints@),
    ensures
        column_type(r) == Ty::Struct(constraint_fields()),
        column_cells(r) == constraints_cells(constraints@),
        constraints_stored(column_layout(r), constraints@),
{
    let constraint_column_names = build_names_lists(constraints);
    let constraint_column_usage = build_usages_lists(constraints);
    let ghost rows = constraints_cells(constraints@);
    let mut constraint_name: Vec<Option<String>> = Vec::new();
    let mut constraint_type: Vec<String> = Vec::new();
    let mut k: usize = 0;
    while k < constraints.len()
        invariant
            k <= constraints@.len(),
            rows == constraints_cells(constraints@),
            constraint_name@.len() == k,
            forall|i: int|
                0 <= i < k ==> text(#[trigger] constraint_name@[i]) == text(
                    constraints@[i].constraint_name,
                ),
            constraint_type@ == Seq::new(k as nat, |i: int| constraints@[i].constraint_type),
        decreases constraints@.len() - k,
    {
        constraint_name.push(copy_text(&constraints[k].constraint_name));
        constraint_type.push(constraints[k].constraint_type.clone());
        k = k + 1;
    }
    proof {
        lemma_fields_fit(rows, 2);
        assert(utf8_cells(constraint_name@) =~= field_cells(rows, 0));
        assert(required_utf8_cells(constraint_type@) =~= field_cells(rows, 1));
        assert(column_cells(constraint_column_names) =~= field_cells(rows, 2));
        assert(column_cells(constraint_column_usage) =~= field_cells(rows, 3));
    }
    let arrays = vec![
        utf8_column(constraint_name),
        required_utf8_column(constraint_type),
        constraint_column_names,
        constraint_column_usage,
    ];
    proof {
        let cells = cells_of(arrays@);
        assert forall|i: int| 0 <= i < rows.len() implies struct_cells(rows.len(), cells)[i]
            == rows[i] by {
            assert(Seq::new(cells.len(), |j: int| cells[j][i]) =~= rows[i]->Struct_0);
        }
        assert(struct_cells(rows.len(), cells) =~= rows);
    }
    struct_column(struct_fields(&constraint_schema()), arrays)
}

} // verus!
