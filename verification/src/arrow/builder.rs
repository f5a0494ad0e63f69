//! Array builders of `arrow_array::builder`.
//!
//! Most of these builders are generic over traits of Arrow; each is held here in
//! a struct of its own, which only the functions below make and change.

use crate::arrow::{column_cells, column_type, Column};
use crate::model::{
    data_bytes, field, list_bytes, list_items, list_of, map_entries, map_items, Cell, Ty,
};
use arrow_array::builder::{
    ArrayBuilder, BinaryBuilder, BooleanBuilder, Int32Builder, Int64Builder, ListBuilder,
    MapBuilder, MapFieldNames, StringBuilder, UInt32Builder, UInt64Builder,
};
use arrow_schema::ArrowError;
use std::sync::Arc;
use vstd::prelude::*;
use vstd::utf8::encode_utf8;

verus! {

/// `arrow_array::builder::BooleanBuilder`.
#[verifier::external_type_specification]
#[verifier::external_body]
pub struct ExBooleanBuilder(BooleanBuilder);

/// The values appended to a builder of booleans.
pub uninterp spec fn boolean_cells(builder: BooleanBuilder) -> Seq<Cell>;

/// `BooleanBuilder::new`: a builder without values.
#[verifier::external_body]
pub(crate) fn new_booleans() -> (r: BooleanBuilder)
    ensures
        boolean_cells(r) == Seq::<Cell>::empty(),
{
    BooleanBuilder::new()
}

/// `BooleanBuilder::append_value`: appends one value.
#[verifier::external_body]
pub(crate) fn append_boolean(builder: &mut BooleanBuilder, value: bool)
    ensures
        boolean_cells(*final(builder)) == boolean_cells(*old(builder)).push(Cell::Boolean(value)),
{
    builder.append_value(value);
}

/// `ArrayBuilder::len` of `BooleanBuilder`: the number of values.
#[verifier::external_body]
pub(crate) fn count_booleans(builder: &BooleanBuilder) -> (r: usize)
    ensures
        r == boolean_cells(*builder).len(),
{
    builder.len()
}

/// `BooleanBuilder::finish`: an array of the values, which leaves the builder
/// without any.
#[verifier::external_body]
pub(crate) fn finish_booleans(builder: &mut BooleanBuilder) -> (r: Column)
    ensures
        column_type(r) == Ty::Boolean,
        column_cells(r) == boolean_cells(*old(builder)),
        boolean_cells(*final(builder)) == Seq::<Cell>::empty(),
{
    Column { array: Arc::new(builder.finish()) }
}

/// An `arrow_array::builder::Int64Builder`.
#[verifier::external_body]
pub struct Int64Values {
    inner: Int64Builder,
}

/// The values appended to a builder of 64-bit integers.
pub uninterp spec fn int64_cells(builder: Int64Values) -> Seq<Cell>;

impl Int64Values {
    /// `Int64Builder::new`: a builder without values.
    #[verifier::external_body]
    pub(crate) fn new() -> (r: Self)
        ensures
            int64_cells(r) == Seq::<Cell>::empty(),
    {
        Int64Values { inner: Int64Builder::new() }
    }

    /// `Int64Builder::append_value`: appends one value.
    #[verifier::external_body]
    pub(crate) fn append_value(&mut self, value: i64)
        ensures
            int64_cells(*final(self)) == int64_cells(*old(self)).push(Cell::Int64(value)),
    {
        self.inner.append_value(value);
    }

    /// `ArrayBuilder::len` of `Int64Builder`: the number of values.
    #[verifier::external_body]
    pub(crate) fn len(&self) -> (r: usize)
        ensures
            r == int64_cells(*self).len(),
    {
        self.inner.len()
    }

    /// `Int64Builder::finish`: an array of the values, which leaves the builder
    /// without any.
    #[verifier::external_body]
    pub(crate) fn finish(&mut self) -> (r: Column)
        ensures
            column_type(r) == Ty::Int64,
            column_cells(r) == int64_cells(*old(self)),
            int64_cells(*final(self)) == Seq::<Cell>::empty(),
    {
        Column { array: Arc::new(self.inner.finish()) }
    }
}

/// An `arrow_array::builder::Int32Builder`.
#[verifier::external_body]
pub struct Int32Values {
    inner: Int32Builder,
}

/// The values appended to a builder of 32-bit integers.
pub uninterp spec fn int32_cells(builder: Int32Values) -> Seq<Cell>;

impl Int32Values {
    /// `Int32Builder::new`: a builder without values.
    #[verifier::external_body]
    pub(crate) fn new() -> (r: Self)
        ensures
            int32_cells(r) == Seq::<Cell>::empty(),
    {
        Int32Values { inner: Int32Builder::new() }
    }

    /// `Int32Builder::append_value`: appends one value.
    #[verifier::external_body]
    pub(crate) fn append_value(&mut self, value: i32)
        ensures
            int32_cells(*final(self)) == int32_cells(*old(self)).push(Cell::Int32(value)),
    {
        self.inner.append_value(value);
    }

    /// `ArrayBuilder::len` of `Int32Builder`: the number of values.
    #[verifier::external_body]
    pub(crate) fn len(&self) -> (r: usize)
        ensures
            r == int32_cells(*self).len(),
    {
        self.inner.len()
    }

    /// `Int32Builder::finish`: an array of the values, which leaves the builder
    /// without any.
    #[verifier::external_body]
    pub(crate) fn finish(&mut self) -> (r: Column)
        ensures
            column_type(r) == Ty::Int32,
            column_cells(r) == int32_cells(*old(self)),
            int32_cells(*final(self)) == Seq::<Cell>::empty(),
    {
        Column { array: Arc::new(self.inner.finish()) }
    }
}

/// An `arrow_array::builder::UInt32Builder`.
#[verifier::external_body]
pub struct UInt32Values {
    inner: UInt32Builder,
}

/// The values appended to a builder of unsigned 32-bit integers.
pub uninterp spec fn uint32_cells(builder: UInt32Values) -> Seq<Cell>;

impl UInt32Values {
    /// `UInt32Builder::new`: a builder without values.
    #[verifier::external_body]
    pub(crate) fn new() -> (r: Self)
        ensures
            uint32_cells(r) == Seq::<Cell>::empty(),
    {
        UInt32Values { inner: UInt32Builder::new() }
    }

    /// `UInt32Builder::append_value`: appends one value.
    #[verifier::external_body]
    pub(crate) fn append_value(&mut self, value: u32)
        ensures
            uint32_cells(*final(self)) == uint32_cells(*old(self)).push(Cell::UInt32(value)),
    {
        self.inner.append_value(value);
    }

    /// `UInt32Builder::finish`: an array of the values, which leaves the builder
    /// without any.
    #[verifier::external_body]
    pub(crate) fn finish(&mut self) -> (r: Column)
        ensures
            column_type(r) == Ty::UInt32,
            column_cells(r) == uint32_cells(*old(self)),
            uint32_cells(*final(self)) == Seq::<Cell>::empty(),
    {
        Column { array: Arc::new(self.inner.finish()) }
    }
}

/// An `arrow_array::builder::UInt64Builder`.
#[verifier::external_body]
pub struct UInt64Values {
    inner: UInt64Builder,
}

/// The values appended to a builder of unsigned 64-bit integers.
pub uninterp spec fn uint64_cells(builder: UInt64Values) -> Seq<Cell>;

impl UInt64Values {
    /// `UInt64Builder::new`: a builder without values.
    #[verifier::external_body]
    pub(crate) fn new() -> (r: Self)
        ensures
            uint64_cells(r) == Seq::<Cell>::empty(),
    {
        UInt64Values { inner: UInt64Builder::new() }
    }

    /// `UInt64Builder::append_value`: appends one value.
    #[verifier::external_body]
    pub(crate) fn append_value(&mut self, value: u64)
        ensures
            uint64_cells(*final(self)) == uint64_cells(*old(self)).push(Cell::UInt64(value)),
    {
        self.inner.append_value(value);
    }

    /// `ArrayBuilder::len` of `UInt64Builder`: the number of values.
    #[verifier::external_body]
    pub(crate) fn len(&self) -> (r: usize)
        ensures
            r == uint64_cells(*self).len(),
    {
        self.inner.len()
    }

    /// `UInt64Builder::finish`: an array of the values, which leaves the builder
    /// without any.
    #[verifier::external_body]
    pub(crate) fn finish(&mut self) -> (r: Column)
        ensures
            column_type(r) == Ty::UInt64,
            column_cells(r) == uint64_cells(*old(self)),
            uint64_cells(*final(self)) == Seq::<Cell>::empty(),
    {
        Column { array: Arc::new(self.inner.finish()) }
    }
}

/// An `arrow_array::builder::StringBuilder`.
#[verifier::external_body]
pub struct Utf8Values {
    inner: StringBuilder,
}

/// The values appended to a builder of strings.
pub uninterp spec fn utf8_cells(builder: Utf8Values) -> Seq<Cell>;

impl Utf8Values {
    /// `StringBuilder::new`: a builder without values.
    #[verifier::external_body]
    pub(crate) fn new() -> (r: Self)
        ensures
            utf8_cells(r) == Seq::<Cell>::empty(),
    {
        Utf8Values { inner: StringBuilder::new() }
    }

    /// `StringBuilder::append_value`: appends one value. The call panics where
    /// the values would take more bytes than a 32-bit offset can count.
    #[verifier::external_body]
    pub(crate) fn append_value(&mut self, value: &str)
        requires
            data_bytes(utf8_cells(*old(self))) + encode_utf8(value@).len() <= i32::MAX,
        ensures
            utf8_cells(*final(self)) == utf8_cells(*old(self)).push(Cell::Utf8(value@)),
    {
        self.inner.append_value(value);
    }

    /// `ArrayBuilder::len` of `StringBuilder`: the number of values.
    #[verifier::external_body]
    pub(crate) fn len(&self) -> (r: usize)
        ensures
            r == utf8_cells(*self).len(),
    {
        self.inner.len()
    }

    /// `StringBuilder::finish`: an array of the values, which leaves the builder
    /// without any.
    #[verifier::external_body]
    pub(crate) fn finish(&mut self) -> (r: Column)
        ensures
            column_type(r) == Ty::Utf8,
            column_cells(r) == utf8_cells(*old(self)),
            utf8_cells(*final(self)) == Seq::<Cell>::empty(),
    {
        Column { array: Arc::new(self.inner.finish()) }
    }
}

/// An `arrow_array::builder::BinaryBuilder`.
#[verifier::external_body]
pub struct BinaryValues {
    inner: BinaryBuilder,
}

/// The values appended to a builder of byte strings.
pub uninterp spec fn binary_cells(builder: BinaryValues) -> Seq<Cell>;

impl BinaryValues {
    /// `BinaryBuilder::new`: a builder without values.
    #[verifier::external_body]
    pub(crate) fn new() -> (r: Self)
        ensures
            binary_cells(r) == Seq::<Cell>::empty(),
    {
        BinaryValues { inner: BinaryBuilder::new() }
    }

    /// `BinaryBuilder::append_value`: appends one value. The call panics where
    /// the values would take more bytes than a 32-bit offset can count.
    #[verifier::external_body]
    pub(crate) fn append_value(&mut self, value: &[u8])
        requires
            data_bytes(binary_cells(*old(self))) + value@.len() <= i32::MAX,
        ensures
            binary_cells(*final(self)) == binary_cells(*old(self)).push(Cell::Binary(value@)),
    {
        self.inner.append_value(value);
    }

    /// `ArrayBuilder::len` of `BinaryBuilder`: the number of values.
    #[verifier::external_body]
    pub(crate) fn len(&self) -> (r: usize)
        ensures
            r == binary_cells(*self).len(),
    {
        self.inner.len()
    }

    /// `BinaryBuilder::finish`: an array of the values, which leaves the builder
    /// without any.
    #[verifier::external_body]
    pub(crate) fn finish(&mut self) -> (r: Column)
        ensures
            column_type(r) == Ty::Binary,
            column_cells(r) == binary_cells(*old(self)),
            binary_cells(*final(self)) == Seq::<Cell>::empty(),
    {
        Column { array: Arc::new(self.inner.finish()) }
    }
}

/// An `arrow_array::builder::ListBuilder` over a `StringBuilder`.
#[verifier::external_body]
pub struct Utf8ListValues {
    inner: ListBuilder<StringBuilder>,
}

/// The lists that a builder of string lists has finished.
pub uninterp spec fn utf8_list_rows(builder: Utf8ListValues) -> Seq<Cell>;

/// The items that a builder of string lists holds for the next list.
pub uninterp spec fn utf8_list_open(builder: Utf8ListValues) -> Seq<Cell>;

impl Utf8ListValues {
    /// `ListBuilder::new` on `StringBuilder::new`: a builder without lists or
    /// items.
    #[verifier::external_body]
    pub(crate) fn new() -> (r: Self)
        ensures
            utf8_list_rows(r) == Seq::<Cell>::empty(),
            utf8_list_open(r) == Seq::<Cell>::empty(),
    {
        Utf8ListValues { inner: ListBuilder::new(StringBuilder::new()) }
    }

    /// `ListBuilder::values` and `StringBuilder::append_value`: appends one item
    /// for the next list. The call panics where the items of all lists would take
    /// more bytes than a 32-bit offset can count.
    #[verifier::external_body]
    pub(crate) fn append_item(&mut self, item: &str)
        requires
            list_bytes(utf8_list_rows(*old(self))) + data_bytes(utf8_list_open(*old(self)))
                + encode_utf8(item@).len() <= i32::MAX,
        ensures
            utf8_list_rows(*final(self)) == utf8_list_rows(*old(self)),
            utf8_list_open(*final(self)) == utf8_list_open(*old(self)).push(Cell::Utf8(item@)),
    {
        self.inner.values().append_value(item);
    }

    /// `ListBuilder::append` of a list that is not null: finishes a list of the
    /// open items. The call panics where there are more items in all lists than a
    /// 32-bit offset can count.
    #[verifier::external_body]
    pub(crate) fn append(&mut self)
        requires
            list_items(utf8_list_rows(*old(self))) + utf8_list_open(*old(self)).len() <= i32::MAX,
        ensures
            utf8_list_rows(*final(self)) == utf8_list_rows(*old(self)).push(
                Cell::List(utf8_list_open(*old(self))),
            ),
            utf8_list_open(*final(self)) == Seq::<Cell>::empty(),
    {
        self.inner.append(true);
    }

    /// `ArrayBuilder::len` of `ListBuilder`: the number of finished lists.
    #[verifier::external_body]
    pub(crate) fn len(&self) -> (r: usize)
        ensures
            r == utf8_list_rows(*self).len(),
    {
        self.inner.len()
    }

    /// `ListBuilder::finish`: an array of the finished lists, which leaves the
    /// builder without lists or items.
    #[verifier::external_body]
    pub(crate) fn finish(&mut self) -> (r: Column)
        ensures
            column_type(r) == list_of(Ty::Utf8),
            column_cells(r) == utf8_list_rows(*old(self)),
            utf8_list_rows(*final(self)) == Seq::<Cell>::empty(),
            utf8_list_open(*final(self)) == Seq::<Cell>::empty(),
    {
        Column { array: Arc::new(self.inner.finish()) }
    }
}

/// An `arrow_array::builder::MapBuilder` from 32-bit integers to lists of 32-bit
/// integers.
#[verifier::external_body]
pub struct Int32ListMapValues {
    inner: MapBuilder<Int32Builder, ListBuilder<Int32Builder>>,
}

/// The maps that a builder of maps has finished.
pub uninterp spec fn map_rows(builder: Int32ListMapValues) -> Seq<Cell>;

/// The keys that a builder of maps holds for the next map.
pub uninterp spec fn map_open_keys(builder: Int32ListMapValues) -> Seq<Cell>;

/// The lists that a builder of maps holds as values for the next map.
pub uninterp spec fn map_open_values(builder: Int32ListMapValues) -> Seq<Cell>;

/// The items that a builder of maps holds for the next list.
pub uninterp spec fn map_open_items(builder: Int32ListMapValues) -> Seq<Cell>;

/// The type of the arrays that a builder of maps gives.
pub uninterp spec fn map_builder_type(builder: Int32ListMapValues) -> Ty;

/// The type of maps from 32-bit integers to lists of 32-bit integers, with these
/// names for the entries, their keys and their values.
pub open spec fn int32_list_map(entry: Seq<char>, key: Seq<char>, value: Seq<char>) -> Ty {
    Ty::Entries(
        Box::new(
            field(
                entry,
                Ty::Struct(
                    seq![field(key, Ty::Int32, false), field(value, list_of(Ty::Int32), true)],
                ),
                false,
            ),
        ),
        false,
    )
}

/// Pairs keys with values.
pub open spec fn paired(keys: Seq<Cell>, values: Seq<Cell>) -> Seq<(Cell, Cell)> {
    Seq::new(keys.len(), |i: int| (keys[i], values[i]))
}

impl Int32ListMapValues {
    /// `MapBuilder::new` with these field names on empty builders: a builder
    /// without maps, keys, values or items.
    #[verifier::external_body]
    pub(crate) fn new(entry: String, key: String, value: String) -> (r: Self)
        ensures
            map_rows(r) == Seq::<Cell>::empty(),
            map_open_keys(r) == Seq::<Cell>::empty(),
            map_open_values(r) == Seq::<Cell>::empty(),
            map_open_items(r) == Seq::<Cell>::empty(),
            map_builder_type(r) == int32_list_map(entry@, key@, value@),
    {
        let names = Some(MapFieldNames { entry, key, value });
        let values = ListBuilder::new(Int32Builder::new());
        Int32ListMapValues { inner: MapBuilder::new(names, Int32Builder::new(), values) }
    }

    /// `MapBuilder::keys` and `Int32Builder::append_value`: appends one key for
    /// the next map.
    #[verifier::external_body]
    pub(crate) fn append_key(&mut self, key: i32)
        ensures
            map_rows(*final(self)) == map_rows(*old(self)),
            map_open_keys(*final(self)) == map_open_keys(*old(self)).push(Cell::Int32(key)),
            map_open_values(*final(self)) == map_open_values(*old(self)),
            map_open_items(*final(self)) == map_open_items(*old(self)),
            map_builder_type(*final(self)) == map_builder_type(*old(self)),
    {
        self.inner.keys().append_value(key);
    }

    /// `MapBuilder::values`, `ListBuilder::values` and
    /// `Int32Builder::append_value`: appends one item for the next list.
    #[verifier::external_body]
    pub(crate) fn append_item(&mut self, item: i32)
        ensures
            map_rows(*final(self)) == map_rows(*old(self)),
            map_open_keys(*final(self)) == map_open_keys(*old(self)),
            map_open_values(*final(self)) == map_open_values(*old(self)),
            map_open_items(*final(self)) == map_open_items(*old(self)).push(Cell::Int32(item)),
            map_builder_type(*final(self)) == map_builder_type(*old(self)),
    {
        self.inner.values().values().append_value(item);
    }

    /// `MapBuilder::values` and `ListBuilder::append` of a list that is not null:
    /// finishes a list of the open items, as a value for the next map. The call
    /// panics where there are more items in all lists than a 32-bit offset can
    /// count.
    #[verifier::external_body]
    pub(crate) fn append_list(&mut self)
        requires
            map_items(map_rows(*old(self))) + list_items(map_open_values(*old(self)))
                + map_open_items(*old(self)).len() <= i32::MAX,
        ensures
            map_rows(*final(self)) == map_rows(*old(self)),
            map_open_keys(*final(self)) == map_open_keys(*old(self)),
            map_open_values(*final(self)) == map_open_values(*old(self)).push(
                Cell::List(map_open_items(*old(self))),
            ),
            map_open_items(*final(self)) == Seq::<Cell>::empty(),
            map_builder_type(*final(self)) == map_builder_type(*old(self)),
    {
        self.inner.values().append(true);
    }

    /// `MapBuilder::append` of a map that is not null: finishes a map of the open
    /// keys and values, or fails where there are not as many of each. More
    /// entries in all maps than a 32-bit offset can count would spoil the
    /// offsets.
    #[verifier::external_body]
    pub(crate) fn append(&mut self) -> (r: Result<(), ArrowError>)
        requires
            map_entries(map_rows(*old(self))) + map_open_keys(*old(self)).len() <= i32::MAX,
        ensures
            r is Ok <==> map_open_keys(*old(self)).len() == map_open_values(*old(self)).len(),
            r is Ok ==> {
                &&& map_rows(*final(self)) == map_rows(*old(self)).push(
                    Cell::Entries(
                        paired(map_open_keys(*old(self)), map_open_values(*old(self))),
                    ),
                )
                &&& map_open_keys(*final(self)) == Seq::<Cell>::empty()
                &&& map_open_values(*final(self)) == Seq::<Cell>::empty()
                &&& map_open_items(*final(self)) == map_open_items(*old(self))
                &&& map_builder_type(*final(self)) == map_builder_type(*old(self))
            },
            r is Err ==> *final(self) == *old(self),
    {
        self.inner.append(true)
    }

    /// `ArrayBuilder::len` of `MapBuilder`: the number of finished maps.
    #[verifier::external_body]
    pub(crate) fn len(&self) -> (r: usize)
        ensures
            r == map_rows(*self).len(),
    {
        self.inner.len()
    }

    /// `MapBuilder::finish`: an array of the finished maps, which leaves the
    /// builder without maps. The call panics where there are not as many open
    /// values as open keys.
    #[verifier::external_body]
    pub(crate) fn finish(&mut self) -> (r: Column)
        requires
            map_open_keys(*old(self)).len() == map_open_values(*old(self)).len(),
        ensures
            column_type(r) == map_builder_type(*old(self)),
            column_cells(r) == map_rows(*old(self)),
            map_rows(*final(self)) == Seq::<Cell>::empty(),
            map_builder_type(*final(self)) == map_builder_type(*old(self)),
    {
        Column { array: Arc::new(self.inner.finish()) }
    }
}

} // verus!
