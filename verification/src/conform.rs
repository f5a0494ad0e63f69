//! Values that conform to a schema.

use crate::model::{field, list_of, Cell, FieldTy, SchemaTy, Ty};
use vstd::prelude::*;

verus! {

/// Whether a variant of a union has this type id.
pub open spec fn names_variant(variants: Seq<(i8, FieldTy)>, id: i8, k: int) -> bool {
    0 <= k < variants.len() && variants[k].0 == id
}

/// Whether a value that is not null is of a type.
pub open spec fn conforms(cell: Cell, ty: Ty) -> bool
    decreases cell, 0nat,
{
    match (cell, ty) {
        (Cell::Boolean(_), Ty::Boolean) => true,
        (Cell::Int16(_), Ty::Int16) => true,
        (Cell::Int32(_), Ty::Int32) => true,
        (Cell::Int64(_), Ty::Int64) => true,
        (Cell::UInt32(_), Ty::UInt32) => true,
        (Cell::UInt64(_), Ty::UInt64) => true,
        (Cell::Float64(_), Ty::Float64) => true,
        (Cell::Utf8(_), Ty::Utf8) => true,
        (Cell::Binary(_), Ty::Binary) => true,
        (Cell::List(items), Ty::List(item)) => forall|i: int|
            0 <= i < items.len() ==> fits_field(#[trigger] items[i], *item),
        (Cell::Struct(values), Ty::Struct(fields)) => {
            &&& values.len() == fields.len()
            &&& forall|i: int|
                0 <= i < values.len() ==> fits_field(#[trigger] values[i], fields[i])
        },
        (Cell::Entries(entries), Ty::Entries(entry, _)) => {
            &&& entry.ty is Struct
            &&& entry.ty->Struct_0.len() == 2
            &&& forall|i: int|
                #![trigger entries[i]]
                0 <= i < entries.len() ==> {
                    &&& fits_field(entries[i].0, entry.ty->Struct_0[0])
                    &&& fits_field(entries[i].1, entry.ty->Struct_0[1])
                }
        },
        (Cell::Union(id, value), Ty::DenseUnion(variants)) => exists|k: int|
            #[trigger] names_variant(variants, id, k) && fits_field(*value, variants[k].1),
        _ => false,
    }
}

/// Whether a value can stand in a field: null only where the field allows it.
pub open spec fn fits_field(cell: Cell, field: FieldTy) -> bool
    decreases cell, 1nat,
{
    if cell is Null {
        field.nullable
    } else {
        conforms(cell, field.ty)
    }
}

/// Whether columns of values conform to a schema.
pub open spec fn columns_conform(columns: Seq<Seq<Cell>>, schema: SchemaTy) -> bool {
    &&& columns.len() == schema.fields.len()
    &&& forall|j: int, i: int|
        0 <= j < columns.len() && 0 <= i < columns[j].len() ==> fits_field(
            #[trigger] columns[j][i],
            schema.fields[j],
        )
    &&& forall|j: int, k: int|
        0 <= j < columns.len() && 0 <= k < columns.len() ==> (#[trigger] columns[j]).len() == (
        #[trigger] columns[k]).len()
}

/// Whether all values are of a type, and none is null.
pub open spec fn all_conform(cells: Seq<Cell>, ty: Ty) -> bool {
    forall|i: int| 0 <= i < cells.len() ==> conforms(#[trigger] cells[i], ty)
}

/// A list of values that fit its item type is of the list type.
pub proof fn lemma_list_conforms(items: Seq<Cell>, item: Ty)
    requires
        all_conform(items, item),
    ensures
        conforms(Cell::List(items), list_of(item)),
{
    assert forall|i: int| 0 <= i < items.len() implies fits_field(
        #[trigger] items[i],
        field("item"@, item, true),
    ) by {
        assert(conforms(items[i], item));
    }
}

/// A value of the type of its variant is of the union type.
pub proof fn lemma_union_conforms(id: i8, value: Cell, fields: Seq<(i8, FieldTy)>, k: int)
    requires
        0 <= k < fields.len(),
        fields[k].0 == id,
        conforms(value, fields[k].1.ty),
    ensures
        conforms(Cell::Union(id, Box::new(value)), Ty::DenseUnion(fields)),
{
    assert(names_variant(fields, id, k));
    assert(fits_field(value, fields[k].1));
    let cell = Cell::Union(id, Box::new(value));
    let ty = Ty::DenseUnion(fields);
    assert(cell->Union_0 == id && *cell->Union_1 == value && ty->DenseUnion_0 == fields);
    assert(conforms(cell, ty));
}

} // verus!
