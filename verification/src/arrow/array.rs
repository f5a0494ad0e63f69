//! Arrays and record batches of `arrow_array`.

use crate::arrow::schema::{error_text, field_tree, fields_held, schema_tree, union_fields_held};
use crate::arrow::{
    batch_cells, batch_layout, batch_schema, cells_of, column_cells, column_layout, column_type,
    layouts_of, Batch, Column,
};
use crate::model::{
    boolean_cell, data_bytes, int16_cell, int32_cell, list_cells, no_nulls, rows, struct_cells,
    text, utf8_cell, Cell, FieldTy, Layout, Ty,
};
use arrow_array::{
    BooleanArray, Float64Array, Int16Array, Int32Array, ListArray, RecordBatch, StringArray,
    StructArray, UInt32Array, UnionArray,
};
use arrow_buffer::{Buffer, OffsetBuffer, ScalarBuffer};
use arrow_schema::{ArrowError, Field, Fields, Schema, UnionFields};
use std::sync::Arc;
use vstd::prelude::*;

verus! {

/// The values of a column of optional strings.
pub open spec fn utf8_cells(values: Seq<Option<String>>) -> Seq<Cell> {
    Seq::new(values.len(), |i: int| utf8_cell(text(values[i])))
}

/// The values of a column of strings.
pub open spec fn required_utf8_cells(values: Seq<String>) -> Seq<Cell> {
    Seq::new(values.len(), |i: int| Cell::Utf8(values[i]@))
}

/// `StringArray::from(Vec<Option<String>>)`: one value for each string, null
/// for each missing one. The call panics where the strings take more bytes than
/// a 32-bit offset can count.
#[verifier::external_body]
pub(crate) fn utf8_column(values: Vec<Option<String>>) -> (r: Column)
    requires
        data_bytes(utf8_cells(values@)) <= i32::MAX,
    ensures
        column_type(r) == Ty::Utf8,
        column_cells(r) == utf8_cells(values@),
{
    Column { array: Arc::new(StringArray::from(values)) }
}

/// `StringArray::from(Vec<String>)`: one value for each string. The call panics
/// where the strings take more bytes than a 32-bit offset can count.
#[verifier::external_body]
pub(crate) fn required_utf8_column(values: Vec<String>) -> (r: Column)
    requires
        data_bytes(required_utf8_cells(values@)) <= i32::MAX,
    ensures
        column_type(r) == Ty::Utf8,
        column_cells(r) == required_utf8_cells(values@),
{
    Column { array: Arc::new(StringArray::from(values)) }
}

/// `Int16Array::from(Vec<Option<i16>>)`: one value for each number, null for
/// each missing one.
#[verifier::external_body]
pub(crate) fn int16_column(values: Vec<Option<i16>>) -> (r: Column)
    ensures
        column_type(r) == Ty::Int16,
        column_cells(r) == values@.map_values(|v: Option<i16>| int16_cell(v)),
{
    Column { array: Arc::new(Int16Array::from(values)) }
}

/// `Int16Array::from(Vec<i16>)`: one value for each number.
#[verifier::external_body]
pub(crate) fn required_int16_column(values: Vec<i16>) -> (r: Column)
    ensures
        column_type(r) == Ty::Int16,
        column_cells(r) == values@.map_values(|v: i16| Cell::Int16(v)),
{
    Column { array: Arc::new(Int16Array::from(values)) }
}

/// `Int32Array::from(Vec<Option<i32>>)`: one value for each number, null for
/// each missing one.
#[verifier::external_body]
pub(crate) fn int32_column(values: Vec<Option<i32>>) -> (r: Column)
    ensures
        column_type(r) == Ty::Int32,
        column_cells(r) == values@.map_values(|v: Option<i32>| int32_cell(v)),
{
    Column { array: Arc::new(Int32Array::from(values)) }
}

/// `UInt32Array::from(Vec<u32>)`: one value for each number.
#[verifier::external_body]
pub(crate) fn required_uint32_column(values: Vec<u32>) -> (r: Column)
    ensures
        column_type(r) == Ty::UInt32,
        column_cells(r) == values@.map_values(|v: u32| Cell::UInt32(v)),
{
    Column { array: Arc::new(UInt32Array::from(values)) }
}

/// `BooleanArray::from(Vec<Option<bool>>)`: one value for each boolean, null
/// for each missing one.
#[verifier::external_body]
pub(crate) fn boolean_column(values: Vec<Option<bool>>) -> (r: Column)
    ensures
        column_type(r) == Ty::Boolean,
        column_cells(r) == values@.map_values(|v: Option<bool>| boolean_cell(v)),
{
    Column { array: Arc::new(BooleanArray::from(values)) }
}

/// `BooleanArray::from(Vec<bool>)`: one value for each boolean.
#[verifier::external_body]
pub(crate) fn required_boolean_column(values: Vec<bool>) -> (r: Column)
    ensures
        column_type(r) == Ty::Boolean,
        column_cells(r) == values@.map_values(|v: bool| Cell::Boolean(v)),
{
    Column { array: Arc::new(BooleanArray::from(values)) }
}

/// `Float64Array::new` on a buffer that holds these bit patterns: one value for
/// each pattern.
#[verifier::external_body]
pub(crate) fn required_float64_column(bits: Vec<u64>) -> (r: Column)
    ensures
        column_type(r) == Ty::Float64,
        column_cells(r) == bits@.map_values(|v: u64| Cell::Float64(v)),
{
    Column { array: Arc::new(Float64Array::new(ScalarBuffer::from(Buffer::from_vec(bits)), None)) }
}

/// `ListArray::new` without nulls, on an `OffsetBuffer::new`: the list at `i`
/// holds the items from offset `i` up to offset `i + 1`, and the array keeps the
/// offsets and the items as they are. The calls panic on offsets that are none,
/// negative, falling or beyond the items, and on items of another type than the
/// field's.
#[verifier::external_body]
pub(crate) fn list_column(item: Arc<Field>, offsets: Vec<i32>, items: Column) -> (r: Column)
    requires
        offsets@.len() > 0,
        offsets@[0] >= 0,
        forall|i: int, j: int| 0 <= i <= j < offsets@.len() ==> offsets@[i] <= offsets@[j],
        offsets@.last() <= column_cells(items).len(),
        field_tree(*item).ty == column_type(items),
        field_tree(*item).nullable,
    ensures
        column_type(r) == Ty::List(Box::new(field_tree(*item))),
        column_cells(r) == list_cells(offsets@, column_cells(items)),
        column_layout(r) == (Layout::List {
            offsets: offsets@,
            items: Box::new(column_layout(items)),
        }),
{
    let offsets = OffsetBuffer::new(ScalarBuffer::from(offsets));
    Column { array: Arc::new(ListArray::new(item, offsets, items.array, None)) }
}

/// Whether Arrow can make an empty array of a type, whatever names, nullability and
/// metadata the fields in it have: of the types without parameters, and of lists and
/// structs of such types. Not every union, map or other type has an empty array, so
/// none of these is asked for.
pub open spec fn can_be_empty(ty: Ty) -> bool
    decreases ty,
{
    match ty {
        Ty::Boolean => true,
        Ty::Int16 => true,
        Ty::Int32 => true,
        Ty::Int64 => true,
        Ty::UInt32 => true,
        Ty::UInt64 => true,
        Ty::Float64 => true,
        Ty::Utf8 => true,
        Ty::Binary => true,
        Ty::List(item) => can_be_empty(item.ty),
        Ty::Struct(fields) => forall|i: int|
            0 <= i < fields.len() ==> can_be_empty((#[trigger] fields[i]).ty),
        Ty::Entries(_, _) => false,
        Ty::DenseUnion(_) => false,
        Ty::Other(_) => false,
    }
}

/// Whether a block of memory can hold the offsets of this many lists, at the
/// strictest alignment that Arrow asks for on any machine.
pub open spec fn null_lists_fit(len: nat) -> bool {
    (len + 1) * 4 + 256 <= isize::MAX
}

/// `ListArray::new_null`: `len` lists that are null, with offsets that are all
/// zero, over an empty array of items. The call panics where the offsets of that
/// many lists would not fit in memory, or where Arrow cannot make an empty array of
/// the type of the items. How that empty array is stored is not stated.
#[verifier::external_body]
pub(crate) fn null_list_column(item: Arc<Field>, len: usize) -> (r: Column)
    requires
        null_lists_fit(len as nat),
        can_be_empty(field_tree(*item).ty),
    ensures
        column_type(r) == Ty::List(Box::new(field_tree(*item))),
        column_cells(r) == Seq::new(len as nat, |i: int| Cell::Null),
        column_layout(r) is List,
        column_layout(r)->offsets == Seq::new((len + 1) as nat, |i: int| 0i32),
{
    Column { array: Arc::new(ListArray::new_null(item, len)) }
}

/// Whether columns have the shape that these fields ask for: as many as there
/// are fields, at least one, of one length, and each of the type of its field.
pub open spec fn columns_shaped(fields: Seq<FieldTy>, columns: Seq<Column>) -> bool {
    &&& fields.len() == columns.len()
    &&& columns.len() > 0
    &&& forall|i: int| #![trigger columns[i]]
        0 <= i < columns.len() ==> {
            &&& column_type(columns[i]) == fields[i].ty
            &&& column_cells(columns[i]).len() == column_cells(columns[0]).len()
        }
}

/// Whether columns can be the fields of structs: none holds a value that counts
/// as null where its field allows none.
pub open spec fn struct_columns_match(fields: Seq<FieldTy>, columns: Seq<Column>) -> bool {
    &&& columns_shaped(fields, columns)
    &&& forall|i: int| #![trigger columns[i]]
        0 <= i < columns.len() ==> fields[i].nullable || no_nulls(column_cells(columns[i]))
}

/// Whether columns can be the columns of a batch: none holds a null where its
/// field allows none. A union value is no null here, whatever it holds.
pub open spec fn batch_columns_match(fields: Seq<FieldTy>, columns: Seq<Column>) -> bool {
    &&& columns_shaped(fields, columns)
    &&& forall|i: int| #![trigger columns[i]]
        0 <= i < columns.len() ==> fields[i].nullable || !column_cells(columns[i]).contains(
            Cell::Null,
        )
}

/// `StructArray::new` without nulls: the struct at `i` holds the values at `i`
/// of the columns, and the array keeps the columns as they are. The call panics
/// where there is no column, or where the columns do not match the fields.
#[verifier::external_body]
pub(crate) fn struct_column(fields: Fields, columns: Vec<Column>) -> (r: Column)
    requires
        struct_columns_match(fields_held(fields), columns@),
    ensures
        column_type(r) == Ty::Struct(fields_held(fields)),
        column_cells(r) == struct_cells(rows(cells_of(columns@)), cells_of(columns@)),
        column_layout(r) == Layout::Struct(layouts_of(columns@)),
{
    let arrays = columns.into_iter().map(|c| c.array).collect();
    Column { array: Arc::new(StructArray::new(fields, arrays, None)) }
}

/// Whether the type id at `i` names a variant whose column has a length that a
/// 32-bit offset tells from none.
pub open spec fn union_id_known(ids: Seq<i8>, children: Seq<Column>, i: int) -> bool {
    &&& 0 <= ids[i] < children.len()
    &&& column_cells(children[ids[i] as int]).len() as i32 != i32::MIN
}

/// Whether the offset at `i` lies inside the column of its variant, whose
/// length is taken as 32 bits.
pub open spec fn union_offset_inside(
    ids: Seq<i8>,
    offsets: Seq<i32>,
    children: Seq<Column>,
    i: int,
) -> bool {
    0 <= offsets[i] < column_cells(children[ids[i] as int]).len() as i32
}

/// `UnionArray::try_new` with offsets: the value at `i` is the one at offset
/// `i` of the column of variant `ids[i]`, and the array keeps the type ids, the
/// offsets and the values of the columns as they are. The call fails where a type id names no
/// variant, or an offset lies outside the column of its variant; it takes the
/// lengths of the columns as 32 bits.
#[verifier::external_body]
pub(crate) fn union_column(
    fields: UnionFields,
    ids: Vec<i8>,
    offsets: Vec<i32>,
    children: Vec<Column>,
) -> (r: Result<Column, ArrowError>)
    requires
        ids@.len() == offsets@.len(),
        union_fields_held(fields).len() == children@.len(),
        forall|i: int| #![trigger children@[i]]
            0 <= i < children@.len() ==> {
                &&& union_fields_held(fields)[i].0 == i
                &&& union_fields_held(fields)[i].1.ty == column_type(children@[i])
            },
    ensures
        match r {
            Ok(column) => {
                &&& forall|i: int| #![trigger ids@[i]]
                    0 <= i < ids@.len() ==> union_id_known(ids@, children@, i)
                        && union_offset_inside(ids@, offsets@, children@, i)
                &&& column_type(column) == Ty::DenseUnion(union_fields_held(fields))
                &&& column_cells(column) == Seq::new(
                    ids@.len(),
                    |i: int|
                        Cell::Union(
                            ids@[i],
                            Box::new(column_cells(children@[ids@[i] as int])[offsets@[i] as int]),
                        ),
                )
                &&& column_layout(column) == (Layout::Union {
                    type_ids: ids@,
                    value_offsets: offsets@,
                    children: cells_of(children@),
                })
            },
            Err(error) => {
                ||| (exists|i: int| #![trigger ids@[i]]
                    0 <= i < ids@.len() && !union_id_known(ids@, children@, i)) && error_text(error)
                    == "Invalid argument error: Type Ids values must match one of the field type ids"@
                ||| (forall|i: int| #![trigger ids@[i]]
                    0 <= i < ids@.len() ==> union_id_known(ids@, children@, i)) && (exists|i: int|
                    #![trigger ids@[i]]
                    0 <= i < ids@.len() && !union_offset_inside(ids@, offsets@, children@, i))
                    && error_text(error)
                    == "Invalid argument error: Offsets must be non-negative and within the length of the Array"@
            },
        },
{
    let children = children.into_iter().map(|c| c.array).collect();
    let ids = ScalarBuffer::from(ids);
    let offsets = Some(ScalarBuffer::from(offsets));
    UnionArray::try_new(fields, ids, offsets, children).map(|a| Column { array: Arc::new(a) })
}

/// `RecordBatch::try_new`: a batch of these columns, as they are, under this
/// schema. The call fails where the columns do not match the fields of the schema.
#[verifier::external_body]
pub(crate) fn new_batch(schema: Arc<Schema>, columns: Vec<Column>) -> (r: Result<
    Batch,
    ArrowError,
>)
    ensures
        r is Ok <==> batch_columns_match(schema_tree(*schema).fields, columns@),
        r matches Ok(batch) ==> {
            &&& batch_schema(batch) == schema_tree(*schema)
            &&& batch_cells(batch) == cells_of(columns@)
            &&& batch_layout(batch) == layouts_of(columns@)
        },
{
    let arrays = columns.into_iter().map(|c| c.array).collect();
    RecordBatch::try_new(schema, arrays).map(|inner| Batch { inner })
}

/// `RecordBatch::schema`: the schema of the batch.
#[verifier::external_body]
pub(crate) fn schema_of(batch: &Batch) -> (r: Arc<Schema>)
    ensures
        schema_tree(*r) == batch_schema(*batch),
{
    batch.inner.schema()
}

} // verus!
