//! The columns of tables.

use crate::arrow::array::{
    boolean_column, int16_column, int32_column, required_utf8_cells, required_utf8_column,
    struct_column, utf8_cells, utf8_column,
};
use crate::arrow::schema::struct_fields;
use crate::arrow::{cells_of, column_cells, column_type, Column};
use crate::conform::{conforms, fits_field};
use crate::model::{
    boolean_cell, field_cells, fields_fit, int16_cell, int32_cell, lemma_fields_fit, struct_cells,
    text, utf8_cell, Cell, Ty,
};
use crate::names::copy_text;
use crate::schemas::{column_fields, column_schema};
use vstd::prelude::*;

verus! {

/// A single column of a table.
///
/// Only the name is required; the other fields may be missing.
#[derive(Debug, Clone)]
pub struct ColumnSchema {
    pub column_name: String,
    pub ordinal_position: Option<i32>,
    pub remarks: Option<String>,
    pub xdbc_data_type: Option<i16>,
    pub xdbc_type_name: Option<String>,
    pub xdbc_column_size: Option<i32>,
    pub xdbc_decimal_digits: Option<i16>,
    pub xdbc_num_prec_radix: Option<i16>,
    pub xdbc_nullable: Option<i16>,
    pub xdbc_column_def: Option<String>,
    pub xdbc_sql_data_type: Option<i16>,
    pub xdbc_datetime_sub: Option<i16>,
    pub xdbc_char_octet_length: Option<i32>,
    pub xdbc_is_nullable: Option<String>,
    pub xdbc_scope_catalog: Option<String>,
    pub xdbc_scope_schema: Option<String>,
    pub xdbc_scope_table: Option<String>,
    pub xdbc_is_autoincrement: Option<bool>,
    pub xdbc_is_generatedcolumn: Option<bool>,
}

impl ColumnSchema {
    /// Whether every field but the name is missing.
    pub open spec fn only_named(self) -> bool {
        &&& self.ordinal_position is None
        &&& self.remarks is None
        &&& self.xdbc_data_type is None
        &&& self.xdbc_type_name is None
        &&& self.xdbc_column_size is None
        &&& self.xdbc_decimal_digits is None
        &&& self.xdbc_num_prec_radix is None
        &&& self.xdbc_nullable is None
        &&& self.xdbc_column_def is None
        &&& self.xdbc_sql_data_type is None
        &&& self.xdbc_datetime_sub is None
        &&& self.xdbc_char_octet_length is None
        &&& self.xdbc_is_nullable is None
        &&& self.xdbc_scope_catalog is None
        &&& self.xdbc_scope_schema is None
        &&& self.xdbc_scope_table is None
        &&& self.xdbc_is_autoincrement is None
        &&& self.xdbc_is_generatedcolumn is None
    }

    /// The column as a value of the result set.
    pub open spec fn cell(self) -> Cell {
        Cell::Struct(
            seq![
                Cell::Utf8(self.column_name@),
                int32_cell(self.ordinal_position),
                utf8_cell(text(self.remarks)),
                int16_cell(self.xdbc_data_type),
                utf8_cell(text(self.xdbc_type_name)),
                int32_cell(self.xdbc_column_size),
                int16_cell(self.xdbc_decimal_digits),
                int16_cell(self.xdbc_num_prec_radix),
                int16_cell(self.xdbc_nullable),
                utf8_cell(text(self.xdbc_column_def)),
                int16_cell(self.xdbc_sql_data_type),
                int16_cell(self.xdbc_datetime_sub),
                int32_cell(self.xdbc_char_octet_length),
                utf8_cell(text(self.xdbc_is_nullable)),
                utf8_cell(text(self.xdbc_scope_catalog)),
                utf8_cell(text(self.xdbc_scope_schema)),
                utf8_cell(text(self.xdbc_scope_table)),
                boolean_cell(self.xdbc_is_autoincrement),
                boolean_cell(self.xdbc_is_generatedcolumn),
            ],
        )
    }

    /// A column with the given name and without any other field.
    pub fn new(column_name: &str) -> (r: Self)
        ensures
            r.column_name@ == column_name@,
            r.only_named(),
    {
        ColumnSchema { column_name: column_name.to_string(), ..Default::default() }
    }
}

impl Default for ColumnSchema {
    fn default() -> (r: Self)
        ensures
            r.column_name@ == Seq::<char>::empty(),
            r.only_named(),
    {
        ColumnSchema {
            column_name: String::new(),
            ordinal_position: None,
            remarks: None,
            xdbc_data_type: None,
            xdbc_type_name: None,
            xdbc_column_size: None,
            xdbc_decimal_digits: None,
            xdbc_num_prec_radix: None,
            xdbc_nullable: None,
            xdbc_column_def: None,
            xdbc_sql_data_type: None,
            xdbc_datetime_sub: None,
            xdbc_char_octet_length: None,
            xdbc_is_nullable: None,
            xdbc_scope_catalog: None,
            xdbc_scope_schema: None,
            xdbc_scope_table: None,
            xdbc_is_autoincrement: None,
            xdbc_is_generatedcolumn: None,
        }
    }
}

/// The values of the result set for these columns.
pub open spec fn columns_cells(columns: Seq<ColumnSchema>) -> Seq<Cell> {
    Seq::new(columns.len(), |i: int| columns[i].cell())
}

/// A column is of the type of columns.
pub proof fn lemma_column_conforms(column: ColumnSchema)
    ensures
        conforms(column.cell(), Ty::Struct(column_fields())),
{
    let values = column.cell()->Struct_0;
    assert forall|j: int| 0 <= j < values.len() implies fits_field(
        #[trigger] values[j],
        column_fields()[j],
    ) by {}
}

/// Whether 32-bit offsets can count the bytes of each kind of text of these
/// columns.
pub open spec fn columns_fit(columns: Seq<ColumnSchema>) -> bool {
    fields_fit(columns_cells(columns), 19)
}

/// Whether these are the texts that one field of these columns holds.
spec fn texts_collected(
    texts: Seq<Option<String>>,
    columns: Seq<ColumnSchema>,
    field: int,
) -> bool {
    forall|i: int|
        0 <= i < texts.len() ==> utf8_cell(text(#[trigger] texts[i]))
            == columns[i].cell()->Struct_0[field]
}

/// Builds the struct array of columns, with one element for each column.
#[verifier::rlimit(60)]
pub(crate) fn build_columns_struct(columns: &[ColumnSchema]) -> (r: Column)
    requires
        columns_fit(columns@),
    ensures
        column_type(r) == Ty::Struct(column_fields()),
        column_cells(r) == columns_cells(columns@),
{
    let mut column_name: Vec<String> = Vec::new();
    let mut ordinal_position: Vec<Option<i32>> = Vec::new();
    let mut remarks: Vec<Option<String>> = Vec::new();
    let mut xdbc_data_type: Vec<Option<i16>> = Vec::new();
    let mut xdbc_type_name: Vec<Option<String>> = Vec::new();
    let mut xdbc_column_size: Vec<Option<i32>> = Vec::new();
    let mut xdbc_decimal_digits: Vec<Option<i16>> = Vec::new();
    let mut xdbc_num_prec_radix: Vec<Option<i16>> = Vec::new();
    let mut xdbc_nullable: Vec<Option<i16>> = Vec::new();
    let mut xdbc_column_def: Vec<Option<String>> = Vec::new();
    let mut xdbc_sql_data_type: Vec<Option<i16>> = Vec::new();
    let mut xdbc_datetime_sub: Vec<Option<i16>> = Vec::new();
    let mut xdbc_char_octet_length: Vec<Option<i32>> = Vec::new();
    let mut xdbc_is_nullable: Vec<Option<String>> = Vec::new();
    let mut xdbc_scope_catalog: Vec<Option<String>> = Vec::new();
    let mut xdbc_scope_schema: Vec<Option<String>> = Vec::new();
    let mut xdbc_scope_table: Vec<Option<String>> = Vec::new();
    let mut xdbc_is_autoincrement: Vec<Option<bool>> = Vec::new();
    let mut xdbc_is_generatedcolumn: Vec<Option<bool>> = Vec::new();
    let mut k: usize = 0;
    while k < columns.len()
        invariant
            k <= columns@.len(),
            column_name@.len() == k,
            forall|i: int|
                0 <= i < k ==> (#[trigger] column_name@[i])@ == columns@[i].column_name@,
            ordinal_position@ == Seq::new(k as nat, |i: int| columns@[i].ordinal_position),
            remarks@.len() == k,
            texts_collected(remarks@, columns@, 2),
            xdbc_data_type@ == Seq::new(k as nat, |i: int| columns@[i].xdbc_data_type),
            xdbc_type_name@.len() == k,
            texts_collected(xdbc_type_name@, columns@, 4),
            xdbc_column_size@ == Seq::new(k as nat, |i: int| columns@[i].xdbc_column_size),
            xdbc_decimal_digits@ == Seq::new(k as nat, |i: int| columns@[i].xdbc_decimal_digits),
            xdbc_num_prec_radix@ == Seq::new(k as nat, |i: int| columns@[i].xdbc_num_prec_radix),
            xdbc_nullable@ == Seq::new(k as nat, |i: int| columns@[i].xdbc_nullable),
            xdbc_column_def@.len() == k,
            texts_collected(xdbc_column_def@, columns@, 9),
            xdbc_sql_data_type@ == Seq::new(k as nat, |i: int| columns@[i].xdbc_sql_data_type),
            xdbc_datetime_sub@ == Seq::new(k as nat, |i: int| columns@[i].xdbc_datetime_sub),
            xdbc_char_octet_length@ == Seq::new(k as nat, |i: int| columns@[i].xdbc_char_octet_length),
            xdbc_is_nullable@.len() == k,
            texts_collected(xdbc_is_nullable@, columns@, 13),
            xdbc_scope_catalog@.len() == k,
            texts_collected(xdbc_scope_catalog@, columns@, 14),
            xdbc_scope_schema@.len() == k,
            texts_collected(xdbc_scope_schema@, columns@, 15),
            xdbc_scope_table@.len() == k,
            texts_collected(xdbc_scope_table@, columns@, 16),
            xdbc_is_autoincrement@ == Seq::new(k as nat, |i: int| columns@[i].xdbc_is_autoincrement),
            xdbc_is_generatedcolumn@ == Seq::new(k as nat, |i: int| columns@[i].xdbc_is_generatedcolumn),
        decreases columns@.len() - k,
    {
        let c = &columns[k];
        column_name.push(c.column_name.clone());
        ordinal_position.push(c.ordinal_position);
        remarks.push(copy_text(&c.remarks));
        xdbc_data_type.push(c.xdbc_data_type);
        xdbc_type_name.push(copy_text(&c.xdbc_type_name));
        xdbc_column_size.push(c.xdbc_column_size);
        xdbc_decimal_digits.push(c.xdbc_decimal_digits);
        xdbc_num_prec_radix.push(c.xdbc_num_prec_radix);
        xdbc_nullable.push(c.xdbc_nullable);
        xdbc_column_def.push(copy_text(&c.xdbc_column_def));
        xdbc_sql_data_type.push(c.xdbc_sql_data_type);
        xdbc_datetime_sub.push(c.xdbc_datetime_sub);
        xdbc_char_octet_length.push(c.xdbc_char_octet_length);
        xdbc_is_nullable.push(copy_text(&c.xdbc_is_nullable));
        xdbc_scope_catalog.push(copy_text(&c.xdbc_scope_catalog));
        xdbc_scope_schema.push(copy_text(&c.xdbc_scope_schema));
        xdbc_scope_table.push(copy_text(&c.xdbc_scope_table));
        xdbc_is_autoincrement.push(c.xdbc_is_autoincrement);
        xdbc_is_generatedcolumn.push(c.xdbc_is_generatedcolumn);
        k = k + 1;
    }
    let ghost rows = columns_cells(columns@);
    proof {
        lemma_fields_fit(rows, 19);
        assert(required_utf8_cells(column_name@) =~= field_cells(rows, 0));
        assert(utf8_cells(remarks@) =~= field_cells(rows, 2));
        assert(utf8_cells(xdbc_type_name@) =~= field_cells(rows, 4));
        assert(utf8_cells(xdbc_column_def@) =~= field_cells(rows, 9));
        assert(utf8_cells(xdbc_is_nullable@) =~= field_cells(rows, 13));
        assert(utf8_cells(xdbc_scope_catalog@) =~= field_cells(rows, 14));
        assert(utf8_cells(xdbc_scope_schema@) =~= field_cells(rows, 15));
        assert(utf8_cells(xdbc_scope_table@) =~= field_cells(rows, 16));
    }
    let arrays = vec![
        required_utf8_column(column_name),
        int32_column(ordinal_position),
        utf8_column(remarks),
        int16_column(xdbc_data_type),
        utf8_column(xdbc_type_name),
        int32_column(xdbc_column_size),
        int16_column(xdbc_decimal_digits),
        int16_column(xdbc_num_prec_radix),
        int16_column(xdbc_nullable),
        utf8_column(xdbc_column_def),
        int16_column(xdbc_sql_data_type),
        int16_column(xdbc_datetime_sub),
        int32_column(xdbc_char_octet_length),
        utf8_column(xdbc_is_nullable),
        utf8_column(xdbc_scope_catalog),
        utf8_column(xdbc_scope_schema),
        utf8_column(xdbc_scope_table),
        boolean_column(xdbc_is_autoincrement),
        boolean_column(xdbc_is_generatedcolumn),
    ];
    proof {
        let cells = cells_of(arrays@);
        assert forall|i: int| 0 <= i < rows.len() implies struct_cells(rows.len(), cells)[i]
            == rows[i] by {
            assert(Seq::new(cells.len(), |j: int| cells[j][i]) =~= rows[i]->Struct_0);
        }
        assert(struct_cells(rows.len(), cells) =~= rows);
    }
    struct_column(struct_fields(&column_schema()), arrays)
}

} // verus!
