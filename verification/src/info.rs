//! The builder of the result set of info codes.

use crate::arrow::array::{batch_columns_match, new_batch};
use crate::arrow::builder::{
    append_boolean, boolean_cells, count_booleans, finish_booleans, int32_cells, int32_list_map,
    int64_cells, map_builder_type, map_open_items, map_open_keys, map_open_values, map_rows,
    new_booleans, paired, uint32_cells, utf8_cells, utf8_list_open, utf8_list_rows,
    Int32ListMapValues, Int32Values, Int64Values, UInt32Values, Utf8ListValues, Utf8Values,
};
use crate::arrow::schema::union_fields;
use crate::arrow::{batch_cells, batch_layout, batch_schema, cells_of, Batch};
use crate::conform::{
    all_conform, columns_conform, conforms, fits_field, lemma_list_conforms,
};
use crate::dense::{
    dense_cells, dense_failure, dense_fits, dense_valid, finish_union, laid_out, lemma_add_row,
    lemma_dense_conforms, lemma_dense_storable, lemma_few_rows_fit, lemma_variants, of_variant,
    storable, variants_of,
};
use crate::error::{Error, Result, Status};
use crate::model::{
    brief, data_bytes, entry_values, field, lemma_brief, lemma_utf8_len, list_bytes, list_items,
    list_of, map_entries, map_items, Cell, Ty,
};
use crate::options::InfoCode;
use crate::schemas::{
    get_info_schema, get_info_type, info_value_fields, info_value_schema, numbered,
};
use arrow_array::builder::BooleanBuilder;
use vstd::prelude::*;

verus! {

/// The value of an info code.
#[verifier::ext_equal]
pub struct InfoRow {
    /// The number of the code.
    pub code: u32,
    /// The value, in the variant of its type.
    pub value: Cell,
}

/// A row with a value of the given variant.
pub open spec fn info_row(code: InfoCode, variant: i8, value: Cell) -> InfoRow {
    InfoRow { code: code.number(), value: Cell::Union(variant, Box::new(value)) }
}

/// The texts as values.
pub open spec fn str_cells(values: Seq<&str>) -> Seq<Cell> {
    Seq::new(values.len(), |i: int| Cell::Utf8(values[i]@))
}

/// The numbers as values.
pub open spec fn number_cells(values: Seq<i32>) -> Seq<Cell> {
    Seq::new(values.len(), |i: int| Cell::Int32(values[i]))
}

/// The entries of a map as values.
pub open spec fn entry_cells(entries: Seq<(i32, Vec<i32>)>) -> Seq<(Cell, Cell)> {
    Seq::new(
        entries.len(),
        |i: int| (Cell::Int32(entries[i].0), Cell::List(number_cells(entries[i].1@))),
    )
}

/// Whether a list has few items.
pub open spec fn short_list(cell: Cell) -> bool {
    cell matches Cell::List(items) ==> items.len() <= 64
}

/// Whether a value of an info code takes little space.
pub open spec fn small(cell: Cell) -> bool {
    cell matches Cell::Union(_, value) ==> match *value {
        Cell::List(items) => {
            &&& items.len() <= 64
            &&& forall|i: int| 0 <= i < items.len() ==> brief(#[trigger] items[i])
        },
        Cell::Entries(entries) => {
            &&& entries.len() <= 64
            &&& forall|i: int|
                0 <= i < entries.len() ==> short_list((#[trigger] entries[i]).1)
        },
        other => brief(other),
    }
}

/// What was appended to a builder of info codes.
#[verifier::ext_equal]
pub struct InfoModel {
    pub rows: Seq<InfoRow>,
}

impl InfoModel {
    /// Nothing.
    pub open spec fn empty() -> Self {
        InfoModel { rows: Seq::empty() }
    }

    /// One more row.
    pub open spec fn with_row(self, row: InfoRow) -> Self {
        InfoModel { rows: self.rows.push(row) }
    }

    /// The numbers of the codes.
    pub open spec fn names(self) -> Seq<Cell> {
        Seq::new(self.rows.len(), |i: int| Cell::UInt32(self.rows[i].code))
    }

    /// The values of the codes.
    pub open spec fn values(self) -> Seq<Cell> {
        Seq::new(self.rows.len(), |i: int| self.rows[i].value)
    }

    /// The values of the codes, by variant.
    pub open spec fn variants(self) -> Seq<Seq<Cell>> {
        variants_of(self.values(), 6)
    }

    /// The columns of the result set.
    pub open spec fn cells(self) -> Seq<Seq<Cell>> {
        seq![self.names(), self.values()]
    }

    /// Whether 32-bit offsets can count the bytes of the strings, the bytes and
    /// the items of the lists, and the entries and the items of the maps. They can
    /// where the rows are not too many and their values are small.
    pub open spec fn fits(self) -> bool {
        ||| self.rows.len() < 0x1_0000 && forall|i: int|
            0 <= i < self.rows.len() ==> small((#[trigger] self.rows[i]).value)
        ||| variants_fit(self.variants())
    }
}

/// Each value that is appended adds one row at the end, with its code and its value,
/// and changes no other row.
pub proof fn law_one_row_appended(model: InfoModel, row: InfoRow)
    ensures
        model.with_row(row).rows.len() == model.rows.len() + 1,
        model.with_row(row).cells() == seq![
            model.cells()[0].push(Cell::UInt32(row.code)),
            model.cells()[1].push(row.value),
        ],
{
    assert(model.with_row(row).cells() =~~= seq![
        model.cells()[0].push(Cell::UInt32(row.code)),
        model.cells()[1].push(row.value),
    ]);
}

/// A value that is appended joins the values of its variant at the end, and the
/// values of the other variants stay as they are.
pub proof fn law_value_joins_variant(model: InfoModel, code: InfoCode, variant: i8, value: Cell)
    requires
        0 <= variant < 6,
    ensures
        model.with_row(info_row(code, variant, value)).variants() == model.variants().update(
            variant as int,
            model.variants()[variant as int].push(value),
        ),
{
    let row = info_row(code, variant, value);
    assert(model.with_row(row).values() =~= model.values().push(row.value));
    assert(model.values().push(row.value).drop_last() =~= model.values());
    assert(model.with_row(row).variants() =~= model.variants().update(
        variant as int,
        model.variants()[variant as int].push(value),
    ));
}

/// A few short lists hold few items.
proof fn lemma_short_lists(lists: Seq<Cell>)
    requires
        forall|i: int| 0 <= i < lists.len() ==> short_list(#[trigger] lists[i]),
    ensures
        list_items(lists) <= 64 * lists.len(),
    decreases lists.len(),
{
    if lists.len() > 0 {
        lemma_short_lists(lists.drop_last());
        assert(short_list(lists[lists.len() - 1]));
    }
}

/// Small values take little space in each variant.
proof fn lemma_small_values(values: Seq<Cell>)
    requires
        forall|i: int| 0 <= i < values.len() ==> small(#[trigger] values[i]),
    ensures
        data_bytes(of_variant(values, 0)) <= 256 * values.len(),
        list_bytes(of_variant(values, 4)) <= 16384 * values.len(),
        list_items(of_variant(values, 4)) <= 64 * values.len(),
        map_entries(of_variant(values, 5)) <= 64 * values.len(),
        map_items(of_variant(values, 5)) <= 4096 * values.len(),
    decreases values.len(),
{
    if values.len() > 0 {
        let front = values.drop_last();
        lemma_small_values(front);
        let last = values[values.len() - 1];
        assert(small(last));
        assert(front.push(last) =~= values);
        if last is Union {
            let id = last->Union_0;
            let value = *last->Union_1;
            let held = of_variant(front, id as int);
            lemma_push_variant(front, last, id as int);
            assert(held.push(value).drop_last() =~= held);
            match value {
                Cell::Utf8(s) => {
                    lemma_utf8_len(s);
                },
                Cell::List(items) => {
                    lemma_brief(items);
                },
                Cell::Entries(entries) => {
                    assert forall|i: int| 0 <= i < entries.len() implies short_list(
                        #[trigger] entry_values(entries)[i],
                    ) by {
                        assert(short_list(entries[i].1));
                    }
                    lemma_short_lists(entry_values(entries));
                },
                _ => {},
            }
        }
    }
}

/// Where the values fit, 32-bit offsets can count what the variants hold.
proof fn lemma_fits(model: InfoModel)
    ensures
        model.fits() <==> variants_fit(model.variants()),
{
    if model.fits() && !variants_fit(model.variants()) {
        assert forall|i: int| 0 <= i < model.values().len() implies small(
            #[trigger] model.values()[i],
        ) by {
            assert(small(model.rows[i].value));
        }
        lemma_small_values(model.values());
    }
}

/// Whether the values of each variant are of its type.
pub open spec fn variants_typed(variants: Seq<Seq<Cell>>) -> bool {
    forall|t: int|
        0 <= t < 6 ==> all_conform(#[trigger] variants[t], info_value_fields()[t].ty)
}

/// Whether 32-bit offsets can count what the variants hold.
pub open spec fn variants_fit(variants: Seq<Seq<Cell>>) -> bool {
    &&& data_bytes(variants[0]) <= i32::MAX
    &&& list_bytes(variants[4]) <= i32::MAX
    &&& list_items(variants[4]) <= i32::MAX
    &&& map_entries(variants[5]) <= i32::MAX
    &&& map_items(variants[5]) <= i32::MAX
}

/// Builder of the result set of info codes.
///
/// Each value that is appended makes one row, which pairs a code with a value of
/// the matching variant.
pub struct GetInfoBuilder {
    names: UInt32Values,
    type_ids: Vec<i8>,
    offsets: Vec<i32>,
    string_values: Utf8Values,
    bool_values: BooleanBuilder,
    int64_values: Int64Values,
    int32_values: Int32Values,
    string_list_values: Utf8ListValues,
    map_values: Int32ListMapValues,
}

impl Default for GetInfoBuilder {
    fn default() -> (r: Self)
        ensures
            r.wf(),
            r@ == InfoModel::empty(),
    {
        let r = GetInfoBuilder {
            names: UInt32Values::new(),
            type_ids: Vec::new(),
            offsets: Vec::new(),
            string_values: Utf8Values::new(),
            bool_values: new_booleans(),
            int64_values: Int64Values::new(),
            int32_values: Int32Values::new(),
            string_list_values: Utf8ListValues::new(),
            map_values: Int32ListMapValues::new(
                "entries".to_string(),
                "key".to_string(),
                "value".to_string(),
            ),
        };
        assert(r@ =~= InfoModel::empty());
        r
    }
}

impl View for GetInfoBuilder {
    type V = InfoModel;

    closed spec fn view(&self) -> InfoModel {
        InfoModel {
            rows: Seq::new(
                self.type_ids@.len(),
                |i: int|
                    InfoRow {
                        code: uint32_cells(self.names)[i]->UInt32_0,
                        value: dense_cells(self.type_ids@, self.variants())[i],
                    },
            ),
        }
    }
}

impl GetInfoBuilder {
    /// The values of each variant.
    spec fn variants(&self) -> Seq<Seq<Cell>> {
        seq![
            utf8_cells(self.string_values),
            boolean_cells(self.bool_values),
            int64_cells(self.int64_values),
            int32_cells(self.int32_values),
            utf8_list_rows(self.string_list_values),
            map_rows(self.map_values),
        ]
    }

    /// Whether each code has a value, no list or map is left open, and 32-bit
    /// offsets can count what the values hold.
    pub closed spec fn wf(&self) -> bool {
        &&& uint32_cells(self.names).len() == self.type_ids@.len()
        &&& forall|i: int|
            0 <= i < self.type_ids@.len() ==> #[trigger] uint32_cells(self.names)[i] is UInt32
        &&& dense_valid(self.type_ids@, self.offsets@, self.variants())
        &&& variants_typed(self.variants())
        &&& variants_fit(self.variants())
        &&& utf8_list_open(self.string_list_values).len() == 0
        &&& map_open_keys(self.map_values).len() == 0
        &&& map_open_values(self.map_values).len() == 0
        &&& map_open_items(self.map_values).len() == 0
        &&& map_builder_type(self.map_values) == int32_list_map("entries"@, "key"@, "value"@)
    }

    /// The variants are those of the rows.
    proof fn lemma_variants(&self)
        requires
            self.wf(),
        ensures
            self@.variants() == self.variants(),
            self@.values() == dense_cells(self.type_ids@, self.variants()),
    {
        assert(self@.values() =~= dense_cells(self.type_ids@, self.variants()));
        lemma_variants(self.type_ids@, self.offsets@, self.variants());
    }

    /// There are type ids and offsets by which the values of the variants are the
    /// values of the rows: each row names its variant, its offset is the number of the
    /// earlier rows of that variant, taken as 32 bits, and each variant holds as many
    /// values as rows name it.
    pub proof fn law_values_dense(&self)
        requires
            self.wf(),
        ensures
            storable(self@.values(), 6),
            exists|ids: Seq<i8>, offsets: Seq<i32>| #[trigger]
                dense_valid(ids, offsets, self@.variants()) && self@.values() == dense_cells(
                    ids,
                    self@.variants(),
                ),
    {
        self.lemma_variants();
        lemma_dense_storable(self.type_ids@, self.offsets@, self.variants());
        assert(dense_valid(self.type_ids@, self.offsets@, self@.variants()));
    }

    /// Creates an empty builder.
    pub fn new() -> (r: Self)
        ensures
            r.wf(),
            r@ == InfoModel::empty(),
    {
        Self::default()
    }

    /// Begins a row: notes its code, its variant and the place of its value.
    fn push(&mut self, code: InfoCode, type_id: i8, offset: i32)
        ensures
            uint32_cells(final(self).names) == uint32_cells(old(self).names).push(
                Cell::UInt32(code.number()),
            ),
            final(self).type_ids@ == old(self).type_ids@.push(type_id),
            final(self).offsets@ == old(self).offsets@.push(offset),
            final(self).string_values == old(self).string_values,
            final(self).bool_values == old(self).bool_values,
            final(self).int64_values == old(self).int64_values,
            final(self).int32_values == old(self).int32_values,
            final(self).string_list_values == old(self).string_list_values,
            final(self).map_values == old(self).map_values,
    {
        self.names.append_value(u32::from(&code));
        self.type_ids.push(type_id);
        self.offsets.push(offset);
    }

    /// What a row adds, where the value has been appended to its variant.
    proof fn lemma_row(&self, after: &Self, code: InfoCode, variant: i8, value: Cell)
        requires
            self.wf(),
            0 <= variant < 6,
            conforms(value, info_value_fields()[variant as int].ty),
            uint32_cells(after.names) == uint32_cells(self.names).push(
                Cell::UInt32(code.number()),
            ),
            after.type_ids@ == self.type_ids@.push(variant),
            after.offsets@ == self.offsets@.push(self.variants()[variant as int].len() as i32),
            after.variants() == self.variants().update(
                variant as int,
                self.variants()[variant as int].push(value),
            ),
        ensures
            dense_valid(after.type_ids@, after.offsets@, after.variants()),
            variants_typed(after.variants()),
            uint32_cells(after.names).len() == after.type_ids@.len(),
            forall|i: int|
                0 <= i < after.type_ids@.len() ==> #[trigger] uint32_cells(after.names)[i] is UInt32,
            after@ == self@.with_row(info_row(code, variant, value)),
            self@.with_row(info_row(code, variant, value)).variants() == after.variants(),
    {
        lemma_add_row(self.type_ids@, self.offsets@, self.variants(), variant, value);
        let row = info_row(code, variant, value);
        assert(after@.rows =~= self@.rows.push(row));
        assert(after@ =~= self@.with_row(row));
        assert(after@.values() =~= dense_cells(after.type_ids@, after.variants()));
        lemma_variants(after.type_ids@, after.offsets@, after.variants());
        assert forall|t: int| 0 <= t < 6 implies all_conform(
            #[trigger] after.variants()[t],
            info_value_fields()[t].ty,
        ) by {
            assert(all_conform(self.variants()[t], info_value_fields()[t].ty));
        }
    }

    /// Appends a string, in variant 0.
    pub fn append_string(&mut self, code: InfoCode, value: &str) -> (r: &mut Self)
        requires
            old(self).wf(),
            old(self)@.with_row(info_row(code, 0, Cell::Utf8(value@))).fits(),
        ensures
            r.wf(),
            r@ == old(self)@.with_row(info_row(code, 0, Cell::Utf8(value@))),
            *final(self) == *final(r),
    {
        let ghost cell = Cell::Utf8(value@);
        let ghost held = self.variants()[0];
        proof {
            self.lemma_variants();
            assert(self@.with_row(info_row(code, 0, cell)).values() =~= self@.values().push(
                info_row(code, 0, cell).value,
            ));
            lemma_push_variant(self@.values(), info_row(code, 0, cell).value, 0);
            lemma_fits(self@.with_row(info_row(code, 0, cell)));
            assert(held.push(cell).drop_last() =~= held);
        }
        let offset: i32 = self.string_values.len() as i32;
        self.push(code, 0, offset);
        self.string_values.append_value(value);
        proof {
            assert(self.variants() =~= old(self).variants().update(0, held.push(cell)));
            old(self).lemma_row(self, code, 0, cell);
        }
        self
    }

    /// Appends a boolean, in variant 1.
    pub fn append_bool(&mut self, code: InfoCode, value: bool) -> (r: &mut Self)
        requires
            old(self).wf(),
        ensures
            r.wf(),
            r@ == old(self)@.with_row(info_row(code, 1, Cell::Boolean(value))),
            *final(self) == *final(r),
    {
        let offset: i32 = count_booleans(&self.bool_values) as i32;
        self.push(code, 1, offset);
        append_boolean(&mut self.bool_values, value);
        proof {
            let cell = Cell::Boolean(value);
            assert(self.variants() =~= old(self).variants().update(
                1,
                old(self).variants()[1].push(cell),
            ));
            old(self).lemma_row(self, code, 1, cell);
        }
        self
    }

    /// Appends a 64-bit integer, in variant 2.
    pub fn append_int64(&mut self, code: InfoCode, value: i64) -> (r: &mut Self)
        requires
            old(self).wf(),
        ensures
            r.wf(),
            r@ == old(self)@.with_row(info_row(code, 2, Cell::Int64(value))),
            *final(self) == *final(r),
    {
        let offset: i32 = self.int64_values.len() as i32;
        self.push(code, 2, offset);
        self.int64_values.append_value(value);
        proof {
            let cell = Cell::Int64(value);
            assert(self.variants() =~= old(self).variants().update(
                2,
                old(self).variants()[2].push(cell),
            ));
            old(self).lemma_row(self, code, 2, cell);
        }
        self
    }

    /// Appends a 32-bit mask, in variant 3.
    pub fn append_int32_bitmask(&mut self, code: InfoCode, value: i32) -> (r: &mut Self)
        requires
            old(self).wf(),
        ensures
            r.wf(),
            r@ == old(self)@.with_row(info_row(code, 3, Cell::Int32(value))),
            *final(self) == *final(r),
    {
        let offset: i32 = self.int32_values.len() as i32;
        self.push(code, 3, offset);
        self.int32_values.append_value(value);
        proof {
            let cell = Cell::Int32(value);
            assert(self.variants() =~= old(self).variants().update(
                3,
                old(self).variants()[3].push(cell),
            ));
            old(self).lemma_row(self, code, 3, cell);
        }
        self
    }

    /// Appends a list of strings, in variant 4.
    pub fn append_string_list(&mut self, code: InfoCode, values: &[&str]) -> (r: &mut Self)
        requires
            old(self).wf(),
            old(self)@.with_row(info_row(code, 4, Cell::List(str_cells(values@)))).fits(),
        ensures
            r.wf(),
            r@ == old(self)@.with_row(info_row(code, 4, Cell::List(str_cells(values@)))),
            *final(self) == *final(r),
    {
        let ghost items = str_cells(values@);
        let ghost cell = Cell::List(items);
        let ghost held = self.variants()[4];
        proof {
            self.lemma_variants();
            assert(self@.with_row(info_row(code, 4, cell)).values() =~= self@.values().push(
                info_row(code, 4, cell).value,
            ));
            lemma_push_variant(self@.values(), info_row(code, 4, cell).value, 4);
            lemma_fits(self@.with_row(info_row(code, 4, cell)));
            assert(held.push(cell).drop_last() =~= held);
        }
        let offset: i32 = self.string_list_values.len() as i32;
        self.push(code, 4, offset);
        let ghost begun = *self;
        let mut k: usize = 0;
        while k < values.len()
            invariant
                k <= values@.len(),
                items == str_cells(values@),
                list_bytes(held) + data_bytes(items) <= i32::MAX,
                utf8_list_rows(self.string_list_values) == held,
                utf8_list_open(self.string_list_values) == items.take(k as int),
                self.names == begun.names,
                self.type_ids == begun.type_ids,
                self.offsets == begun.offsets,
                self.string_values == begun.string_values,
                self.bool_values == begun.bool_values,
                self.int64_values == begun.int64_values,
                self.int32_values == begun.int32_values,
                self.map_values == begun.map_values,
            decreases values@.len() - k,
        {
            proof {
                lemma_bytes_prefix(items, k + 1);
                assert(items.take(k + 1).drop_last() =~= items.take(k as int));
            }
            self.string_list_values.append_item(values[k]);
            assert(items.take(k + 1) =~= items.take(k as int).push(items[k as int]));
            k = k + 1;
        }
        assert(items.take(items.len() as int) =~= items);
        self.string_list_values.append();
        proof {
            assert(self.variants() =~= old(self).variants().update(4, held.push(cell)));
            lemma_list_conforms(items, Ty::Utf8);
            old(self).lemma_row(self, code, 4, cell);
        }
        self
    }

    /// Appends a map from integers to lists of integers, in variant 5.
    pub fn append_int32_to_int32_list_map(
        &mut self,
        code: InfoCode,
        entries: &[(i32, Vec<i32>)],
    ) -> (r: &mut Self)
        requires
            old(self).wf(),
            old(self)@.with_row(info_row(code, 5, Cell::Entries(entry_cells(entries@)))).fits(),
        ensures
            r.wf(),
            r@ == old(self)@.with_row(info_row(code, 5, Cell::Entries(entry_cells(entries@)))),
            *final(self) == *final(r),
    {
        let ghost cells = entry_cells(entries@);
        let ghost lists = entry_values(cells);
        let ghost cell = Cell::Entries(cells);
        let ghost held = self.variants()[5];
        proof {
            self.lemma_variants();
            assert(self@.with_row(info_row(code, 5, cell)).values() =~= self@.values().push(
                info_row(code, 5, cell).value,
            ));
            lemma_push_variant(self@.values(), info_row(code, 5, cell).value, 5);
            lemma_fits(self@.with_row(info_row(code, 5, cell)));
            assert(held.push(cell).drop_last() =~= held);
        }
        let offset: i32 = self.map_values.len() as i32;
        self.push(code, 5, offset);
        let ghost begun = *self;
        let mut k: usize = 0;
        while k < entries.len()
            invariant
                k <= entries@.len(),
                cells == entry_cells(entries@),
                lists == entry_values(cells),
                map_items(held) + list_items(lists) <= i32::MAX,
                map_rows(self.map_values) == held,
                map_open_keys(self.map_values) == Seq::new(k as nat, |i: int| cells[i].0),
                map_open_values(self.map_values) == lists.take(k as int),
                map_open_items(self.map_values).len() == 0,
                map_builder_type(self.map_values) == map_builder_type(begun.map_values),
                self.names == begun.names,
                self.type_ids == begun.type_ids,
                self.offsets == begun.offsets,
                self.string_values == begun.string_values,
                self.bool_values == begun.bool_values,
                self.int64_values == begun.int64_values,
                self.int32_values == begun.int32_values,
                self.string_list_values == begun.string_list_values,
            decreases entries@.len() - k,
        {
            let ghost numbers = number_cells(entries@[k as int].1@);
            self.map_values.append_key(entries[k].0);
            let items = &entries[k].1;
            let mut m: usize = 0;
            while m < items.len()
                invariant
                    m <= items@.len(),
                    numbers == number_cells(items@),
                    map_rows(self.map_values) == held,
                    map_open_keys(self.map_values) == Seq::new((k + 1) as nat, |i: int| cells[i].0),
                    map_open_values(self.map_values) == lists.take(k as int),
                    map_open_items(self.map_values) == numbers.take(m as int),
                    map_builder_type(self.map_values) == map_builder_type(begun.map_values),
                    self.names == begun.names,
                    self.type_ids == begun.type_ids,
                    self.offsets == begun.offsets,
                    self.string_values == begun.string_values,
                    self.bool_values == begun.bool_values,
                    self.int64_values == begun.int64_values,
                    self.int32_values == begun.int32_values,
                    self.string_list_values == begun.string_list_values,
                decreases items@.len() - m,
            {
                self.map_values.append_item(items[m]);
                assert(numbers.take(m + 1) =~= numbers.take(m as int).push(numbers[m as int]));
                m = m + 1;
            }
            proof {
                assert(numbers.take(numbers.len() as int) =~= numbers);
                lemma_items_prefix(lists, k + 1);
                assert(lists.take(k + 1).drop_last() =~= lists.take(k as int));
                assert(lists.take(k + 1) =~= lists.take(k as int).push(lists[k as int]));
            }
            self.map_values.append_list();
            k = k + 1;
        }
        proof {
            assert(lists.take(lists.len() as int) =~= lists);
            assert(paired(map_open_keys(self.map_values), map_open_values(self.map_values))
                =~= cells);
        }
        self.map_values.append().expect("map key and value builders are kept in sync");
        proof {
            assert(self.variants() =~= old(self).variants().update(5, held.push(cell)));
            lemma_entries_conform(entries@);
            old(self).lemma_row(self, code, 5, cell);
        }
        self
    }

    /// Finishes building, and gives a batch with the schema of the result set of
    /// info codes.
    pub fn finish(self) -> (r: Result<Batch>)
        requires
            self.wf(),
        ensures
            match r {
                Ok(batch) => {
                    &&& dense_fits(self@.variants())
                    &&& batch_schema(batch) == get_info_type()
                    &&& batch_cells(batch) == self@.cells()
                    &&& columns_conform(batch_cells(batch), batch_schema(batch))
                    &&& storable(self@.values(), 6)
                    &&& laid_out(batch_layout(batch)[1], self@.values(), 6)
                },
                Err(error) => {
                    &&& !dense_fits(self@.variants())
                    &&& error.says(dense_failure(self@.variants()), Status::Internal)
                },
            },
            self@.rows.len() <= i32::MAX ==> r is Ok,
    {
        let ghost model = self@;
        let ghost variants = self.variants();
        proof {
            self.lemma_variants();
            lemma_dense_conforms(
                self.type_ids@,
                self.offsets@,
                variants,
                numbered(info_value_fields()),
            );
            lemma_few_rows_fit(model.values(), 6);
            lemma_dense_storable(self.type_ids@, self.offsets@, variants);
            assert(uint32_cells(self.names) =~= model.names());
        }
        let mut builder = self;
        let children = vec![
            builder.string_values.finish(),
            finish_booleans(&mut builder.bool_values),
            builder.int64_values.finish(),
            builder.int32_values.finish(),
            builder.string_list_values.finish(),
            builder.map_values.finish(),
        ];
        proof {
            assert(cells_of(children@) =~= variants);
        }
        let values = match finish_union(
            union_fields(&info_value_schema()),
            builder.type_ids,
            builder.offsets,
            children,
        ) {
            Ok(column) => column,
            Err(error) => {
                return Err(error);
            },
        };
        let columns = vec![builder.names.finish(), values];
        let ghost held = columns@;
        match new_batch(get_info_schema(), columns) {
            Ok(batch) => {
                proof {
                    assert(batch_cells(batch) =~= model.cells());
                    assert(columns_conform(model.cells(), get_info_type()));
                }
                Ok(batch)
            },
            Err(error) => {
                proof {
                    assert(batch_columns_match(get_info_type().fields, held));
                }
                Err(Error::from_arrow(error))
            },
        }
    }
}

/// The entries of a map are of the type of the maps.
proof fn lemma_entries_conform(entries: Seq<(i32, Vec<i32>)>)
    ensures
        conforms(Cell::Entries(entry_cells(entries)), info_value_fields()[5].ty),
{
    let cells = entry_cells(entries);
    let entry = field(
        "entries"@,
        Ty::Struct(
            seq![field("key"@, Ty::Int32, false), field("value"@, list_of(Ty::Int32), true)],
        ),
        false,
    );
    assert forall|i: int| #![trigger cells[i]] 0 <= i < cells.len() implies fits_field(
        cells[i].0,
        entry.ty->Struct_0[0],
    ) && fits_field(cells[i].1, entry.ty->Struct_0[1]) by {
        lemma_list_conforms(number_cells(entries[i].1@), Ty::Int32);
    }
    assert(info_value_fields()[5].ty == Ty::Entries(Box::new(entry), false));
}

/// A value that is added stands last in its variant.
proof fn lemma_push_variant(rows: Seq<Cell>, row: Cell, variant: int)
    requires
        row is Union,
        row->Union_0 == variant,
    ensures
        of_variant(rows.push(row), variant) == of_variant(rows, variant).push(*row->Union_1),
{
    assert(rows.push(row).drop_last() =~= rows);
}

/// The first items take no more bytes than all.
proof fn lemma_bytes_prefix(cells: Seq<Cell>, n: int)
    requires
        0 <= n <= cells.len(),
    ensures
        data_bytes(cells.take(n)) <= data_bytes(cells),
    decreases cells.len(),
{
    if n < cells.len() {
        lemma_bytes_prefix(cells.drop_last(), n);
        assert(cells.drop_last().take(n) =~= cells.take(n));
    } else {
        assert(cells.take(n) =~= cells);
    }
}

/// The first lists hold no more items than all.
proof fn lemma_items_prefix(lists: Seq<Cell>, n: int)
    requires
        0 <= n <= lists.len(),
    ensures
        list_items(lists.take(n)) <= list_items(lists),
    decreases lists.len(),
{
    if n < lists.len() {
        lemma_items_prefix(lists.drop_last(), n);
        assert(lists.drop_last().take(n) =~= lists.take(n));
    } else {
        assert(lists.take(n) =~= lists);
    }
}

} // verus!
