//! The one table of the driver.

use crate::arrow::array::{
    batch_columns_match, new_batch, required_float64_column, required_uint32_column,
    required_utf8_cells, required_utf8_column,
};
use crate::arrow::schema::{field_tree, new_field, new_schema, scalar_type, schema_tree, Scalar};
use crate::arrow::{batch_cells, batch_schema, Batch};
use crate::model::{field, lemma_brief, schema, Cell, FieldTy, SchemaTy, Ty};
use arrow_schema::{Field, Schema};
use std::sync::Arc;
use vstd::prelude::*;

verus! {

/// The fields of the table.
pub open spec fn table_fields() -> Seq<FieldTy> {
    seq![
        field("a"@, Ty::UInt32, true),
        field("b"@, Ty::Float64, false),
        field("c"@, Ty::Utf8, true),
    ]
}

/// The schema of the table.
pub open spec fn table_type() -> SchemaTy {
    schema(table_fields())
}

/// The rows of the table, column by column. The numbers of the second column are
/// 1.5, 2.5 and 3.5.
pub open spec fn table_cells() -> Seq<Seq<Cell>> {
    seq![
        seq![Cell::UInt32(1), Cell::UInt32(2), Cell::UInt32(3)],
        seq![
            Cell::Float64(0x3FF8_0000_0000_0000),
            Cell::Float64(0x4004_0000_0000_0000),
            Cell::Float64(0x400C_0000_0000_0000),
        ],
        seq![Cell::Utf8("A"@), Cell::Utf8("B"@), Cell::Utf8("C"@)],
    ]
}

/// The schema of the table.
pub fn get_table_schema() -> (r: Schema)
    ensures
        schema_tree(r) == table_type(),
{
    let fields = vec![
        new_field("a", scalar_type(Scalar::UInt32), true),
        new_field("b", scalar_type(Scalar::Float64), false),
        new_field("c", scalar_type(Scalar::Utf8), true),
    ];
    proof {
        assert(fields@.map_values(|f: Field| field_tree(f)) =~= table_fields());
    }
    new_schema(fields)
}

/// The rows of the table.
pub fn get_table_data() -> (r: Batch)
    ensures
        batch_schema(r) == table_type(),
        batch_cells(r) == table_cells(),
{
    let numbers: Vec<u32> = vec![1, 2, 3];
    let bits: Vec<u64> = vec![
        0x3FF8_0000_0000_0000,
        0x4004_0000_0000_0000,
        0x400C_0000_0000_0000,
    ];
    let letters = vec!["A".to_string(), "B".to_string(), "C".to_string()];
    let ghost cells = required_utf8_cells(letters@);
    proof {
        reveal_strlit("A");
        reveal_strlit("B");
        reveal_strlit("C");
        assert(cells =~= table_cells()[2]);
        lemma_brief(cells);
        assert(numbers@.map_values(|v: u32| Cell::UInt32(v)) =~= table_cells()[0]);
        assert(bits@.map_values(|v: u64| Cell::Float64(v)) =~= table_cells()[1]);
    }
    let columns = vec![
        required_uint32_column(numbers),
        required_float64_column(bits),
        required_utf8_column(letters),
    ];
    proof {
        assert(batch_columns_match(table_fields(), columns@));
    }
    let batch = new_batch(Arc::new(get_table_schema()), columns).unwrap();
    assert(batch_cells(batch) =~= table_cells());
    batch
}

} // verus!
