//! The mathematical model of Arrow data: logical values, data types, fields
//! and schemas.
//!
//! Contracts speak of an array as the sequence of its logical values and of a
//! data type as a tree, whatever the buffers behind them look like.

use arrow_schema::DataType;
use vstd::prelude::*;
use vstd::utf8::encode_utf8;

verus! {

/// One logical value of an array.
///
/// A 64-bit float is the pattern of its bits. A map is the sequence of its
/// entries. A union value carries the type id of the variant it belongs to.
#[verifier::ext_equal]
pub enum Cell {
    Null,
    Boolean(bool),
    Int16(i16),
    Int32(i32),
    Int64(i64),
    UInt32(u32),
    UInt64(u64),
    Float64(u64),
    Utf8(Seq<char>),
    Binary(Seq<u8>),
    List(Seq<Cell>),
    Struct(Seq<Cell>),
    Entries(Seq<(Cell, Cell)>),
    Union(i8, Box<Cell>),
}

/// A data type. Those that this library does not build are told apart by
/// themselves.
#[verifier::ext_equal]
pub enum Ty {
    Boolean,
    Int16,
    Int32,
    Int64,
    UInt32,
    UInt64,
    Float64,
    Utf8,
    Binary,
    List(Box<FieldTy>),
    Struct(Seq<FieldTy>),
    /// The field of the entries, and whether the keys are sorted.
    Entries(Box<FieldTy>, bool),
    /// A dense union: the type id and the field of each variant.
    DenseUnion(Seq<(i8, FieldTy)>),
    Other(DataType),
}

/// How an array stores its values, as far as contracts speak of it.
#[verifier::ext_equal]
pub enum Layout {
    /// An array of lists: where each list begins and ends among the items, and how
    /// the items are stored.
    List { offsets: Seq<i32>, items: Box<Layout> },
    /// An array of structs: how each field is stored.
    Struct(Seq<Layout>),
    /// An array of dense unions: for each row its variant, and the place of its
    /// value among the values of that variant, and the values that each variant
    /// holds.
    Union { type_ids: Seq<i8>, value_offsets: Seq<i32>, children: Seq<Seq<Cell>> },
    /// Any other array.
    Other,
}

/// A named, typed field.
#[verifier::ext_equal]
pub struct FieldTy {
    pub name: Seq<char>,
    pub ty: Ty,
    pub nullable: bool,
    pub metadata: Map<Seq<char>, Seq<char>>,
}

/// The schema of a record batch.
#[verifier::ext_equal]
pub struct SchemaTy {
    pub fields: Seq<FieldTy>,
    pub metadata: Map<Seq<char>, Seq<char>>,
}

/// A field without metadata.
pub open spec fn field(name: Seq<char>, ty: Ty, nullable: bool) -> FieldTy {
    FieldTy { name, ty, nullable, metadata: Map::empty() }
}

/// A schema without metadata.
pub open spec fn schema(fields: Seq<FieldTy>) -> SchemaTy {
    SchemaTy { fields, metadata: Map::empty() }
}

/// A list whose items are nullable and named `item`.
pub open spec fn list_of(ty: Ty) -> Ty {
    Ty::List(Box::new(field("item"@, ty, true)))
}

/// Whether a value counts as null in a column that allows none.
pub open spec fn is_null(cell: Cell) -> bool
    decreases cell,
{
    match cell {
        Cell::Null => true,
        Cell::Union(_, value) => is_null(*value),
        _ => false,
    }
}

/// Whether no value of a column counts as null.
pub open spec fn no_nulls(cells: Seq<Cell>) -> bool {
    forall|i: int| 0 <= i < cells.len() ==> !is_null(#[trigger] cells[i])
}

/// The text of an optional string.
pub open spec fn text(value: Option<String>) -> Option<Seq<char>> {
    match value {
        Some(s) => Some(s@),
        None => None,
    }
}

/// An optional text as a value: nothing is null.
pub open spec fn utf8_cell(value: Option<Seq<char>>) -> Cell {
    match value {
        Some(s) => Cell::Utf8(s),
        None => Cell::Null,
    }
}

/// An optional 16-bit integer as a value.
pub open spec fn int16_cell(value: Option<i16>) -> Cell {
    match value {
        Some(v) => Cell::Int16(v),
        None => Cell::Null,
    }
}

/// An optional 32-bit integer as a value.
pub open spec fn int32_cell(value: Option<i32>) -> Cell {
    match value {
        Some(v) => Cell::Int32(v),
        None => Cell::Null,
    }
}

/// An optional boolean as a value.
pub open spec fn boolean_cell(value: Option<bool>) -> Cell {
    match value {
        Some(v) => Cell::Boolean(v),
        None => Cell::Null,
    }
}

/// The bytes that a value takes up in the data buffer of a string or binary
/// array.
pub open spec fn data_len(cell: Cell) -> nat {
    match cell {
        Cell::Utf8(s) => encode_utf8(s).len(),
        Cell::Binary(b) => b.len(),
        _ => 0,
    }
}

/// The bytes that a column of strings or byte strings takes up.
pub open spec fn data_bytes(cells: Seq<Cell>) -> nat
    decreases cells.len(),
{
    if cells.len() == 0 {
        0
    } else {
        data_bytes(cells.drop_last()) + data_len(cells.last())
    }
}

/// The bytes that the items of a column of lists take up.
pub open spec fn list_bytes(rows: Seq<Cell>) -> nat
    decreases rows.len(),
{
    if rows.len() == 0 {
        0
    } else {
        list_bytes(rows.drop_last()) + match rows.last() {
            Cell::List(items) => data_bytes(items),
            _ => 0,
        }
    }
}

/// The number of items in a column of lists.
pub open spec fn list_items(rows: Seq<Cell>) -> nat
    decreases rows.len(),
{
    if rows.len() == 0 {
        0
    } else {
        list_items(rows.drop_last()) + match rows.last() {
            Cell::List(items) => items.len(),
            _ => 0,
        }
    }
}

/// The number of entries in a column of maps.
pub open spec fn map_entries(rows: Seq<Cell>) -> nat
    decreases rows.len(),
{
    if rows.len() == 0 {
        0
    } else {
        map_entries(rows.drop_last()) + match rows.last() {
            Cell::Entries(entries) => entries.len(),
            _ => 0,
        }
    }
}

/// The values of the entries of a map.
pub open spec fn entry_values(entries: Seq<(Cell, Cell)>) -> Seq<Cell> {
    Seq::new(entries.len(), |i: int| entries[i].1)
}

/// The number of list items that the entries in a column of maps hold.
pub open spec fn map_items(rows: Seq<Cell>) -> nat
    decreases rows.len(),
{
    if rows.len() == 0 {
        0
    } else {
        map_items(rows.drop_last()) + match rows.last() {
            Cell::Entries(entries) => list_items(entry_values(entries)),
            _ => 0,
        }
    }
}

/// The values of a column of lists with the given offsets into the items.
pub open spec fn list_cells(offsets: Seq<i32>, items: Seq<Cell>) -> Seq<Cell> {
    Seq::new(
        (offsets.len() - 1) as nat,
        |i: int| Cell::List(items.subrange(offsets[i] as int, offsets[i + 1] as int)),
    )
}

/// The number of items of a list. A null has none.
pub open spec fn list_len(cell: Cell) -> nat {
    match cell {
        Cell::List(items) => items.len(),
        _ => 0,
    }
}

/// Whether an array of these lists stores their items one list after the other,
/// from the first item on and without gaps.
pub open spec fn lists_packed(layout: Layout, lists: Seq<Cell>) -> bool {
    &&& layout matches Layout::List { offsets, .. }
    &&& offsets.len() == lists.len() + 1
    &&& offsets[0] == 0
    &&& forall|i: int| #![trigger lists[i]]
        0 <= i < lists.len() ==> offsets[i + 1] - offsets[i] == list_len(lists[i])
}

/// The values of a column of structs with the given columns as fields.
pub open spec fn struct_cells(len: nat, columns: Seq<Seq<Cell>>) -> Seq<Cell> {
    Seq::new(
        len,
        |i: int| Cell::Struct(Seq::new(columns.len(), |j: int| columns[j][i])),
    )
}

/// One field of a column of structs.
pub open spec fn field_cells(structs: Seq<Cell>, field: int) -> Seq<Cell> {
    Seq::new(structs.len(), |i: int| structs[i]->Struct_0[field])
}

/// Whether a value takes few bytes.
pub open spec fn brief(cell: Cell) -> bool {
    match cell {
        Cell::Utf8(s) => s.len() <= 64,
        Cell::Binary(b) => b.len() <= 64,
        _ => true,
    }
}

/// Whether a 32-bit offset can count the bytes of a column. It can where the values
/// are not too many and take few bytes each.
pub open spec fn bytes_fit(cells: Seq<Cell>) -> bool {
    ||| cells.len() < 0x80_0000 && forall|i: int|
        0 <= i < cells.len() ==> brief(#[trigger] cells[i])
    ||| data_bytes(cells) <= i32::MAX
}

/// Whether 32-bit offsets can count the bytes of each of the first fields of a
/// column of structs.
pub open spec fn fields_fit(structs: Seq<Cell>, width: int) -> bool {
    forall|j: int| 0 <= j < width ==> bytes_fit(#[trigger] field_cells(structs, j))
}

/// The length of the first column.
pub open spec fn rows(columns: Seq<Seq<Cell>>) -> nat {
    columns[0].len()
}

/// Columns that hold the fields of structs make up these structs.
pub proof fn lemma_structs(columns: Seq<Seq<Cell>>, structs: Seq<Cell>)
    requires
        forall|i: int| #![trigger structs[i]]
            0 <= i < structs.len() ==> {
                &&& structs[i] is Struct
                &&& structs[i]->Struct_0.len() == columns.len()
            },
        forall|j: int| 0 <= j < columns.len() ==> #[trigger] columns[j] == field_cells(structs, j),
    ensures
        struct_cells(structs.len(), columns) == structs,
{
    assert forall|i: int| 0 <= i < structs.len() implies struct_cells(structs.len(), columns)[i]
        == structs[i] by {
        assert(Seq::new(columns.len(), |j: int| columns[j][i]) =~= structs[i]->Struct_0) by {
            assert forall|j: int| 0 <= j < columns.len() implies columns[j][i]
                == structs[i]->Struct_0[j] by {
                assert(columns[j] == field_cells(structs, j));
            }
        }
    }
    assert(struct_cells(structs.len(), columns) =~= structs);
}

/// A text takes at most four bytes for each character.
pub proof fn lemma_utf8_len(s: Seq<char>)
    ensures
        encode_utf8(s).len() <= 4 * s.len(),
    decreases s.len(),
{
    if s.len() > 0 {
        lemma_utf8_len(s.drop_first());
    }
}

/// A few values that take few bytes each take few bytes.
pub proof fn lemma_brief(cells: Seq<Cell>)
    requires
        forall|i: int| 0 <= i < cells.len() ==> brief(#[trigger] cells[i]),
    ensures
        data_bytes(cells) <= 256 * cells.len(),
    decreases cells.len(),
{
    if cells.len() > 0 {
        lemma_brief(cells.drop_last());
        assert(brief(cells[cells.len() - 1]));
        match cells.last() {
            Cell::Utf8(s) => {
                lemma_utf8_len(s);
            },
            _ => {},
        }
    }
}

/// A column that fits takes no more bytes than a 32-bit offset can count.
pub proof fn lemma_bytes_fit(cells: Seq<Cell>)
    ensures
        bytes_fit(cells) <==> data_bytes(cells) <= i32::MAX,
{
    if data_bytes(cells) > i32::MAX && bytes_fit(cells) {
        lemma_brief(cells);
    }
}

/// Fields that fit take no more bytes than 32-bit offsets can count.
pub proof fn lemma_fields_fit(structs: Seq<Cell>, width: int)
    requires
        fields_fit(structs, width),
    ensures
        forall|j: int|
            0 <= j < width ==> data_bytes(#[trigger] field_cells(structs, j)) <= i32::MAX,
{
    assert forall|j: int| 0 <= j < width implies data_bytes(#[trigger] field_cells(structs, j))
        <= i32::MAX by {
        lemma_bytes_fit(field_cells(structs, j));
    }
}

} // verus!
