//! The builder of the result set of statistics.

use crate::arrow::array::{
    batch_columns_match, new_batch, required_boolean_column, required_float64_column,
    required_int16_column, required_utf8_cells, required_utf8_column, struct_column, utf8_cells,
    utf8_column,
};
use crate::arrow::builder::{
    binary_cells, int64_cells, uint64_cells, BinaryValues, Int64Values, UInt64Values,
};
use crate::arrow::schema::{struct_fields, union_fields};
use crate::arrow::{batch_cells, batch_layout, batch_schema, cells_of, column_cells, Batch};
use crate::conform::{all_conform, columns_conform, conforms, fits_field, lemma_list_conforms};
use crate::dense::{
    dense_cells, dense_failure, dense_fits, dense_valid, finish_union, laid_out, lemma_add_row,
    lemma_dense_conforms, lemma_dense_no_nulls, lemma_dense_storable, lemma_few_rows_fit,
    lemma_variants, of_variant, storable, variants_of,
};
use crate::error::{Error, Result, Status};
use crate::groups::{
    child_lists, children, count_child, count_parent, counts_valid, joined, law_child_appended,
    law_children_kept, lemma_last_count, lemma_of_owner_subset, lemma_own_child, lemma_own_parent,
    lemma_owned_ordered, list_of_children, of_owner, ordered, owned, room, unowned,
};
use crate::model::{
    brief, bytes_fit, data_bytes, field_cells, fields_fit, lemma_brief, lemma_bytes_fit,
    lemma_fields_fit, lemma_structs, lists_packed, no_nulls, text, utf8_cell, Cell, Layout,
};
use crate::names::{given, name_texts, own_name};
use crate::options::StatisticKey;
use crate::schemas::{
    get_statistics_schema, get_statistics_type, list_item, numbered, statistic_value_fields,
    statistic_value_schema, statistic_value_type, statistics_db_schema_fields,
    statistics_db_schema_schema, statistics_db_schema_type, statistics_fields, statistics_schema,
    statistics_type,
};
use vstd::prelude::*;

verus! {

/// The value of a statistic.
#[derive(Debug, Clone)]
pub enum StatisticValue {
    /// A 64-bit integer.
    Int64(i64),
    /// An unsigned 64-bit integer.
    UInt64(u64),
    /// The bits of a double-precision number.
    Float64(u64),
    /// A byte string.
    Binary(Vec<u8>),
}

impl StatisticValue {
    /// The variant of the union that holds the value.
    pub open spec fn variant(self) -> i8 {
        match self {
            StatisticValue::Int64(_) => 0,
            StatisticValue::UInt64(_) => 1,
            StatisticValue::Float64(_) => 2,
            StatisticValue::Binary(_) => 3,
        }
    }

    /// The value by itself.
    pub open spec fn plain(self) -> Cell {
        match self {
            StatisticValue::Int64(v) => Cell::Int64(v),
            StatisticValue::UInt64(v) => Cell::UInt64(v),
            StatisticValue::Float64(v) => Cell::Float64(v),
            StatisticValue::Binary(v) => Cell::Binary(v@),
        }
    }

    /// The value as a value of the result set.
    pub open spec fn cell(self) -> Cell {
        Cell::Union(self.variant(), Box::new(self.plain()))
    }
}

/// A statistic about a table, or about a column of it.
#[verifier::ext_equal]
pub struct StatisticRow {
    pub table_name: Seq<char>,
    pub column_name: Option<Seq<char>>,
    pub key: i16,
    pub value: Cell,
    pub is_approximate: bool,
}

impl StatisticRow {
    /// The statistic as a value of the result set.
    pub open spec fn cell(self) -> Cell {
        Cell::Struct(
            seq![
                Cell::Utf8(self.table_name),
                utf8_cell(self.column_name),
                Cell::Int16(self.key),
                self.value,
                Cell::Boolean(self.is_approximate),
            ],
        )
    }
}

/// What was appended to a builder of statistics. Each entry below the catalogs
/// comes with the position of its parent.
#[verifier::ext_equal]
pub struct StatisticsModel {
    pub catalogs: Seq<Option<Seq<char>>>,
    pub db_schemas: Seq<(int, Option<Seq<char>>)>,
    pub statistics: Seq<(int, StatisticRow)>,
}

impl StatisticsModel {
    /// Nothing.
    pub open spec fn empty() -> Self {
        StatisticsModel {
            catalogs: Seq::empty(),
            db_schemas: Seq::empty(),
            statistics: Seq::empty(),
        }
    }

    /// One more catalog.
    pub open spec fn with_catalog(self, name: Option<Seq<char>>) -> Self {
        StatisticsModel { catalogs: self.catalogs.push(name), ..self }
    }

    /// One more schema, of the last catalog.
    pub open spec fn with_db_schema(self, name: Option<Seq<char>>) -> Self {
        StatisticsModel {
            db_schemas: self.db_schemas.push((self.catalogs.len() - 1, name)),
            ..self
        }
    }

    /// One more statistic, of the last schema.
    pub open spec fn with_statistic(self, statistic: StatisticRow) -> Self {
        StatisticsModel {
            statistics: self.statistics.push((self.db_schemas.len() - 1, statistic)),
            ..self
        }
    }

    /// Whether each entry below the catalogs has a parent that there is, and stands
    /// in the order of the parents.
    pub open spec fn valid(self) -> bool {
        &&& ordered(self.catalogs.len(), self.db_schemas)
        &&& ordered(self.db_schemas.len(), self.statistics)
    }

    /// The values of the statistics.
    pub open spec fn values(self) -> Seq<Cell> {
        Seq::new(self.statistics.len(), |i: int| self.statistics[i].1.value)
    }

    /// The values of the statistics, by variant.
    pub open spec fn variants(self) -> Seq<Seq<Cell>> {
        variants_of(self.values(), 4)
    }

    /// The statistics as values of the result set.
    pub open spec fn statistic_cells(self) -> Seq<Cell> {
        Seq::new(self.statistics.len(), |i: int| self.statistics[i].1.cell())
    }

    /// The statistics as values of the result set, each with its schema.
    pub open spec fn statistic_rows(self) -> Seq<(int, Cell)> {
        Seq::new(
            self.statistics.len(),
            |i: int| (self.statistics[i].0, self.statistics[i].1.cell()),
        )
    }

    /// One schema as a value of the result set.
    pub open spec fn db_schema_cell(self, db_schema: int) -> Cell {
        Cell::Struct(
            seq![
                utf8_cell(self.db_schemas[db_schema].1),
                Cell::List(of_owner(self.statistic_rows(), db_schema)),
            ],
        )
    }

    /// The schemas as values of the result set.
    pub open spec fn db_schema_cells(self) -> Seq<Cell> {
        Seq::new(self.db_schemas.len(), |s: int| self.db_schema_cell(s))
    }

    /// The schemas as values of the result set, each with its catalog.
    pub open spec fn db_schema_rows(self) -> Seq<(int, Cell)> {
        Seq::new(self.db_schemas.len(), |s: int| (self.db_schemas[s].0, self.db_schema_cell(s)))
    }

    /// The names of the catalogs.
    pub open spec fn catalog_names(self) -> Seq<Cell> {
        Seq::new(self.catalogs.len(), |c: int| utf8_cell(self.catalogs[c]))
    }

    /// The lists of the schemas of the catalogs.
    pub open spec fn catalog_db_schemas(self) -> Seq<Cell> {
        Seq::new(
            self.catalogs.len(),
            |c: int| Cell::List(of_owner(self.db_schema_rows(), c)),
        )
    }

    /// The columns of the result set.
    pub open spec fn cells(self) -> Seq<Seq<Cell>> {
        seq![self.catalog_names(), self.catalog_db_schemas()]
    }

    /// Whether the columns of the result set store the lists of schemas and of
    /// statistics without gaps, and the values of the statistics densely.
    pub open spec fn stored(self, layouts: Seq<Layout>) -> bool {
        let db_schemas = *layouts[1]->items;
        let statistics = *db_schemas->Struct_0[1]->items;
        &&& lists_packed(layouts[1], self.catalog_db_schemas())
        &&& db_schemas is Struct
        &&& lists_packed(db_schemas->Struct_0[1], field_cells(self.db_schema_cells(), 1))
        &&& statistics is Struct
        &&& laid_out(statistics->Struct_0[3], self.values(), 4)
    }

    /// Whether 32-bit offsets can count the schemas, the statistics, and the
    /// bytes of each kind of name.
    pub open spec fn fits(self) -> bool {
        &&& bytes_fit(self.catalog_names())
        &&& self.db_schemas.len() <= i32::MAX
        &&& fields_fit(self.db_schema_cells(), 1)
        &&& self.statistics.len() <= i32::MAX
        &&& fields_fit(self.statistic_cells(), 2)
    }
}

/// Whether a 32-bit offset can count the bytes of the byte strings among these
/// values. It can where the values are not too many and take few bytes each.
pub open spec fn binaries_fit(values: Seq<Cell>) -> bool {
    ||| values.len() < 0x80_0000 && forall|i: int|
        0 <= i < values.len() ==> brief_value(#[trigger] values[i])
    ||| data_bytes(of_variant(values, 3)) <= i32::MAX
}

/// Whether the value of a statistic takes few bytes.
pub open spec fn brief_value(cell: Cell) -> bool {
    cell matches Cell::Union(_, value) ==> brief(*value)
}

/// Values that take few bytes each are few bytes in one variant.
proof fn lemma_brief_values(values: Seq<Cell>, id: int)
    requires
        forall|i: int| 0 <= i < values.len() ==> brief_value(#[trigger] values[i]),
    ensures
        of_variant(values, id).len() <= values.len(),
        forall|i: int|
            0 <= i < of_variant(values, id).len() ==> brief(#[trigger] of_variant(values, id)[i]),
    decreases values.len(),
{
    if values.len() > 0 {
        lemma_brief_values(values.drop_last(), id);
        assert(brief_value(values[values.len() - 1]));
    }
}

/// Where the byte strings fit, a 32-bit offset can count their bytes.
proof fn lemma_binaries_fit(values: Seq<Cell>)
    ensures
        binaries_fit(values) <==> data_bytes(of_variant(values, 3)) <= i32::MAX,
{
    if binaries_fit(values) && data_bytes(of_variant(values, 3)) > i32::MAX {
        lemma_brief_values(values, 3);
        lemma_brief(of_variant(values, 3));
    }
}

/// Whether the values of each variant are of its type.
pub open spec fn variants_typed(variants: Seq<Seq<Cell>>) -> bool {
    forall|t: int|
        0 <= t < 4 ==> all_conform(#[trigger] variants[t], statistic_value_fields()[t].ty)
}

/// The statistics of a model whose values are of the type of such values conform
/// to the schema of the result set.
proof fn lemma_statistics_conform(model: StatisticsModel)
    requires
        all_conform(model.values(), statistic_value_type()),
    ensures
        columns_conform(model.cells(), get_statistics_type()),
{
    assert forall|i: int| 0 <= i < model.statistics.len() implies conforms(
        (#[trigger] model.statistics[i]).1.cell(),
        statistics_type(),
    ) by {
        assert(conforms(model.values()[i], statistic_value_type()));
        let values = model.statistics[i].1.cell()->Struct_0;
        assert forall|j: int| 0 <= j < values.len() implies fits_field(
            #[trigger] values[j],
            statistics_fields()[j],
        ) by {}
    }
    assert forall|s: int| 0 <= s < model.db_schemas.len() implies conforms(
        #[trigger] model.db_schema_cell(s),
        statistics_db_schema_type(),
    ) by {
        let items = of_owner(model.statistic_rows(), s);
        lemma_of_owner_subset(model.statistic_rows(), s);
        assert(all_conform(items, statistics_type()));
        lemma_list_conforms(items, statistics_type());
        let values = model.db_schema_cell(s)->Struct_0;
        assert forall|j: int| 0 <= j < values.len() implies fits_field(
            #[trigger] values[j],
            statistics_db_schema_fields()[j],
        ) by {}
    }
    assert forall|c: int| 0 <= c < model.catalogs.len() implies conforms(
        #[trigger] model.catalog_db_schemas()[c],
        get_statistics_type().fields[1].ty,
    ) by {
        let items = of_owner(model.db_schema_rows(), c);
        lemma_of_owner_subset(model.db_schema_rows(), c);
        assert(all_conform(items, statistics_db_schema_type()));
        lemma_list_conforms(items, statistics_db_schema_type());
    }
}

/// A statistic that is appended is the last of the latest schema, and the
/// statistics of the other schemas stay as they are.
pub proof fn law_statistic_joins_latest(model: StatisticsModel, statistic: StatisticRow)
    ensures
        ({
            let more = model.with_statistic(statistic);
            let latest = model.db_schemas.len() - 1;
            &&& of_owner(more.statistics, latest) == of_owner(model.statistics, latest).push(
                statistic,
            )
            &&& forall|s: int|
                s != latest ==> #[trigger] of_owner(more.statistics, s) == of_owner(
                    model.statistics,
                    s,
                )
        }),
{
    law_child_appended(model.statistics, model.db_schemas.len() - 1, statistic);
}

/// The result set holds every schema and every statistic, in the order in which
/// they were appended, and nothing else.
pub proof fn law_statistics_kept(model: StatisticsModel)
    requires
        model.valid(),
    ensures
        joined(child_lists(model.catalogs.len(), model.db_schema_rows()))
            == model.db_schema_cells(),
        joined(child_lists(model.db_schemas.len(), model.statistic_rows()))
            == model.statistic_cells(),
        forall|c: int| 0 <= c < model.catalogs.len() ==> #[trigger] model.cells()[1][c]
            == Cell::List(child_lists(model.catalogs.len(), model.db_schema_rows())[c]),
        forall|s: int| 0 <= s < model.db_schemas.len() ==> (#[trigger] model.db_schema_cell(
            s,
        ))->Struct_0[1] == Cell::List(
            child_lists(model.db_schemas.len(), model.statistic_rows())[s],
        ),
{
    law_children_kept(model.catalogs.len(), model.db_schema_rows());
    assert(unowned(model.db_schema_rows()) =~= model.db_schema_cells());
    law_children_kept(model.db_schemas.len(), model.statistic_rows());
    assert(unowned(model.statistic_rows()) =~= model.statistic_cells());
}

/// Builder of the result set of statistics.
///
/// The hierarchy is built by appending in order: a catalog, then each of its
/// schemas, each followed by its statistics.
pub struct GetStatisticsBuilder {
    catalog_names: Vec<Option<String>>,
    catalog_schema_counts: Vec<i32>,
    db_schema_names: Vec<Option<String>>,
    schema_statistic_counts: Vec<i32>,
    table_names: Vec<String>,
    column_names: Vec<Option<String>>,
    statistic_keys: Vec<i16>,
    is_approximate: Vec<bool>,
    value_type_ids: Vec<i8>,
    value_offsets: Vec<i32>,
    int64_values: Int64Values,
    uint64_values: UInt64Values,
    float64_values: Vec<u64>,
    binary_values: BinaryValues,
}

impl GetStatisticsBuilder {
    /// The values of each variant.
    spec fn variants(&self) -> Seq<Seq<Cell>> {
        seq![
            int64_cells(self.int64_values),
            uint64_cells(self.uint64_values),
            self.float64_values@.map_values(|v: u64| Cell::Float64(v)),
            binary_cells(self.binary_values),
        ]
    }

    /// The statistics, in order.
    spec fn rows(&self) -> Seq<StatisticRow> {
        Seq::new(
            self.table_names@.len(),
            |i: int|
                StatisticRow {
                    table_name: self.table_names@[i]@,
                    column_name: text(self.column_names@[i]),
                    key: self.statistic_keys@[i],
                    value: dense_cells(self.value_type_ids@, self.variants())[i],
                    is_approximate: self.is_approximate@[i],
                },
        )
    }

    /// Whether the children counted for the parents are those that are held, and
    /// each statistic has a value.
    pub closed spec fn wf(&self) -> bool {
        &&& counts_valid(self.catalog_schema_counts@)
        &&& counts_valid(self.schema_statistic_counts@)
        &&& self.catalog_schema_counts@.len() == self.catalog_names@.len()
        &&& self.schema_statistic_counts@.len() == self.db_schema_names@.len()
        &&& children(self.catalog_schema_counts@) == self.db_schema_names@.len()
        &&& children(self.schema_statistic_counts@) == self.table_names@.len()
        &&& self.column_names@.len() == self.table_names@.len()
        &&& self.statistic_keys@.len() == self.table_names@.len()
        &&& self.is_approximate@.len() == self.table_names@.len()
        &&& self.value_type_ids@.len() == self.table_names@.len()
        &&& dense_valid(self.value_type_ids@, self.value_offsets@, self.variants())
        &&& variants_typed(self.variants())
    }

    /// What was appended is in the order of the hierarchy.
    pub proof fn law_valid(&self)
        requires
            self.wf(),
        ensures
            self@.valid(),
    {
        lemma_owned_ordered(self.catalog_schema_counts@, name_texts(self.db_schema_names@));
        lemma_owned_ordered(self.schema_statistic_counts@, self.rows());
    }

    /// There are type ids and offsets by which the values of the variants are the
    /// values of the statistics: each statistic names its variant, its offset is the
    /// number of the earlier statistics of that variant, taken as 32 bits, and each
    /// variant holds as many values as statistics name it.
    pub proof fn law_values_dense(&self)
        requires
            self.wf(),
        ensures
            storable(self@.values(), 4),
            exists|ids: Seq<i8>, offsets: Seq<i32>| #[trigger]
                dense_valid(ids, offsets, self@.variants()) && self@.values() == dense_cells(
                    ids,
                    self@.variants(),
                ),
    {
        let ids = self.value_type_ids@;
        assert(self@.values() =~= dense_cells(ids, self.variants()));
        lemma_variants(ids, self.value_offsets@, self.variants());
        lemma_dense_storable(ids, self.value_offsets@, self.variants());
        assert(dense_valid(ids, self.value_offsets@, self@.variants()));
    }

    /// Creates an empty builder.
    pub fn new() -> (r: Self)
        ensures
            r.wf(),
            r@ == StatisticsModel::empty(),
    {
        Self::default()
    }

    /// Begins a new catalog.
    pub fn append_catalog(&mut self, name: Option<&str>) -> (r: &mut Self)
        requires
            old(self).wf(),
        ensures
            r.wf(),
            r@ == old(self)@.with_catalog(given(name)),
            *final(self) == *final(r),
    {
        proof {
            lemma_own_parent(self.catalog_schema_counts@, name_texts(self.db_schema_names@));
        }
        self.catalog_names.push(own_name(name));
        count_parent(&mut self.catalog_schema_counts);
        proof {
            assert(self.variants() =~= old(self).variants());
            assert(self.rows() =~= old(self).rows());
            assert(self@ =~= old(self)@.with_catalog(given(name)));
        }
        self
    }

    /// Begins a new schema within the most recently appended catalog.
    pub fn append_db_schema(&mut self, name: Option<&str>) -> (r: &mut Self)
        requires
            old(self).wf(),
            room(old(self)@.catalogs.len(), old(self)@.db_schemas),
        ensures
            r.wf(),
            r@ == old(self)@.with_db_schema(given(name)),
            *final(self) == *final(r),
    {
        proof {
            let names = name_texts(self.db_schema_names@);
            lemma_last_count(self.catalog_schema_counts@, names);
            lemma_own_child(self.catalog_schema_counts@, names, given(name));
            lemma_own_parent(self.schema_statistic_counts@, self.rows());
        }
        self.db_schema_names.push(own_name(name));
        count_parent(&mut self.schema_statistic_counts);
        count_child(&mut self.catalog_schema_counts);
        proof {
            assert(name_texts(self.db_schema_names@) =~= name_texts(
                old(self).db_schema_names@,
            ).push(given(name)));
            assert(self.variants() =~= old(self).variants());
            assert(self.rows() =~= old(self).rows());
            assert(self@ =~= old(self)@.with_db_schema(given(name)));
        }
        self
    }

    /// Appends the value of a statistic.
    fn push_value(&mut self, value: StatisticValue)
        requires
            dense_valid(old(self).value_type_ids@, old(self).value_offsets@, old(self).variants()),
            variants_typed(old(self).variants()),
            value matches StatisticValue::Binary(v) ==> data_bytes(old(self).variants()[3])
                + v@.len() <= i32::MAX,
        ensures
            dense_valid(
                final(self).value_type_ids@,
                final(self).value_offsets@,
                final(self).variants(),
            ),
            variants_typed(final(self).variants()),
            dense_cells(final(self).value_type_ids@, final(self).variants()) == dense_cells(
                old(self).value_type_ids@,
                old(self).variants(),
            ).push(value.cell()),
            final(self).value_type_ids@.len() == old(self).value_type_ids@.len() + 1,
            final(self).catalog_names == old(self).catalog_names,
            final(self).catalog_schema_counts == old(self).catalog_schema_counts,
            final(self).db_schema_names == old(self).db_schema_names,
            final(self).schema_statistic_counts == old(self).schema_statistic_counts,
            final(self).table_names == old(self).table_names,
            final(self).column_names == old(self).column_names,
            final(self).statistic_keys == old(self).statistic_keys,
            final(self).is_approximate == old(self).is_approximate,
    {
        let ghost variants = self.variants();
        let ghost kind = value.variant();
        let ghost plain = value.plain();
        proof {
            lemma_add_row(self.value_type_ids@, self.value_offsets@, variants, kind, plain);
        }
        match value {
            StatisticValue::Int64(v) => {
                self.value_type_ids.push(0);
                self.value_offsets.push(self.int64_values.len() as i32);
                self.int64_values.append_value(v);
            },
            StatisticValue::UInt64(v) => {
                self.value_type_ids.push(1);
                self.value_offsets.push(self.uint64_values.len() as i32);
                self.uint64_values.append_value(v);
            },
            StatisticValue::Float64(v) => {
                self.value_type_ids.push(2);
                self.value_offsets.push(self.float64_values.len() as i32);
                self.float64_values.push(v);
                assert(self.variants()[2] =~= variants[2].push(plain));
            },
            StatisticValue::Binary(v) => {
                self.value_type_ids.push(3);
                self.value_offsets.push(self.binary_values.len() as i32);
                self.binary_values.append_value(v.as_slice());
            },
        }
        proof {
            assert(self.variants() =~= variants.update(
                kind as int,
                variants[kind as int].push(plain),
            ));
            assert forall|t: int| 0 <= t < 4 implies all_conform(
                #[trigger] self.variants()[t],
                statistic_value_fields()[t].ty,
            ) by {
                assert(all_conform(variants[t], statistic_value_fields()[t].ty));
            }
        }
    }

    /// Adds a statistic to the most recently appended schema.
    pub fn append_statistic<K: StatisticKey>(
        &mut self,
        table_name: &str,
        column_name: Option<&str>,
        key: K,
        value: StatisticValue,
        is_approximate: bool,
    ) -> (r: &mut Self)
        requires
            old(self).wf(),
            room(old(self)@.db_schemas.len(), old(self)@.statistics),
            value is Binary ==> binaries_fit(old(self)@.values().push(value.cell())),
        ensures
            r.wf(),
            r@ == old(self)@.with_statistic(
                statistic_row(
                    table_name@,
                    given(column_name),
                    key.number(),
                    value,
                    is_approximate,
                ),
            ),
            *final(self) == *final(r),
    {
        let key: i16 = key.into_key();
        let ghost row = statistic_row(
            table_name@,
            given(column_name),
            key,
            value,
            is_approximate,
        );
        proof {
            assert(self@.values() =~= dense_cells(self.value_type_ids@, self.variants()));
            lemma_variants(self.value_type_ids@, self.value_offsets@, self.variants());
            if value is Binary {
                let values = self@.values();
                lemma_binaries_fit(values.push(value.cell()));
                assert(values.push(value.cell()).drop_last() =~= values);
                assert(of_variant(values, 3) == self.variants()[3]);
                assert(self.variants()[3].push(value.plain()).drop_last() =~= self.variants()[3]);
            }
            lemma_last_count(self.schema_statistic_counts@, self.rows());
            lemma_own_child(self.schema_statistic_counts@, self.rows(), row);
        }
        self.table_names.push(table_name.to_string());
        self.column_names.push(own_name(column_name));
        self.statistic_keys.push(key);
        self.is_approximate.push(is_approximate);
        assert(self.variants() =~= old(self).variants());
        self.push_value(value);
        count_child(&mut self.schema_statistic_counts);
        proof {
            assert(self.rows() =~= old(self).rows().push(row));
            assert(self@ =~= old(self)@.with_statistic(row));
        }
        self
    }

    /// Finishes building, and gives a batch with the schema of the result set of
    /// statistics.
    pub fn finish(self) -> (r: Result<Batch>)
        requires
            self.wf(),
            dense_fits(self@.variants()) ==> self@.fits(),
        ensures
            match r {
                Ok(batch) => {
                    &&& dense_fits(self@.variants())
                    &&& batch_schema(batch) == get_statistics_type()
                    &&& batch_cells(batch) == self@.cells()
                    &&& columns_conform(batch_cells(batch), batch_schema(batch))
                    &&& storable(self@.values(), 4)
                    &&& self@.stored(batch_layout(batch))
                },
                Err(error) => {
                    &&& !dense_fits(self@.variants())
                    &&& error.says(dense_failure(self@.variants()), Status::Internal)
                },
            },
            self@.statistics.len() <= i32::MAX ==> r is Ok,
    {
        let ghost model = self@;
        let ghost parts = self;
        let ghost ids = self.value_type_ids@;
        let ghost variants = self.variants();
        proof {
            assert(model.values() =~= dense_cells(ids, variants));
            lemma_variants(ids, self.value_offsets@, variants);
            let fields = numbered(statistic_value_fields());
            lemma_dense_conforms(ids, self.value_offsets@, variants, fields);
            assert forall|t: int| 0 <= t < 4 implies no_nulls(#[trigger] variants[t]) by {
                assert(all_conform(variants[t], statistic_value_fields()[t].ty));
            }
            lemma_dense_no_nulls(ids, self.value_offsets@, variants);
            lemma_statistics_conform(model);
            lemma_few_rows_fit(model.values(), 4);
            lemma_dense_storable(ids, self.value_offsets@, variants);
        }
        let mut builder = self;
        let children = vec![
            builder.int64_values.finish(),
            builder.uint64_values.finish(),
            required_float64_column(builder.float64_values),
            builder.binary_values.finish(),
        ];
        proof {
            assert(cells_of(children@) =~= variants);
        }
        let statistic_value = match finish_union(
            union_fields(&statistic_value_schema()),
            builder.value_type_ids,
            builder.value_offsets,
            children,
        ) {
            Ok(column) => column,
            Err(error) => {
                return Err(error);
            },
        };
        proof {
            let cells = model.statistic_cells();
            lemma_fields_fit(cells, 2);
            assert(required_utf8_cells(builder.table_names@) =~= field_cells(cells, 0));
            assert(utf8_cells(builder.column_names@) =~= field_cells(cells, 1));
            assert(builder.statistic_keys@.map_values(|v: i16| Cell::Int16(v)) =~= field_cells(
                cells,
                2,
            ));
            assert(column_cells(statistic_value) =~= field_cells(cells, 3));
            assert(builder.is_approximate@.map_values(|v: bool| Cell::Boolean(v)) =~= field_cells(
                cells,
                4,
            ));
        }
        let arrays = vec![
            required_utf8_column(builder.table_names),
            utf8_column(builder.column_names),
            required_int16_column(builder.statistic_keys),
            statistic_value,
            required_boolean_column(builder.is_approximate),
        ];
        proof {
            lemma_structs(cells_of(arrays@), model.statistic_cells());
        }
        let statistics_struct = struct_column(struct_fields(&statistics_schema()), arrays);
        proof {
            assert(owned(parts.schema_statistic_counts@, model.statistic_cells())
                =~= model.statistic_rows());
        }
        let db_schema_statistics = list_of_children(
            list_item(statistics_schema()),
            &builder.schema_statistic_counts,
            statistics_struct,
        );
        proof {
            let cells = model.db_schema_cells();
            lemma_fields_fit(cells, 1);
            assert(utf8_cells(builder.db_schema_names@) =~= field_cells(cells, 0));
            assert(column_cells(db_schema_statistics) =~= field_cells(cells, 1));
        }
        let arrays = vec![utf8_column(builder.db_schema_names), db_schema_statistics];
        proof {
            lemma_structs(cells_of(arrays@), model.db_schema_cells());
        }
        let db_schemas_struct = struct_column(
            struct_fields(&statistics_db_schema_schema()),
            arrays,
        );
        proof {
            assert(owned(parts.catalog_schema_counts@, model.db_schema_cells())
                =~= model.db_schema_rows());
        }
        let catalog_db_schemas = list_of_children(
            list_item(statistics_db_schema_schema()),
            &builder.catalog_schema_counts,
            db_schemas_struct,
        );
        proof {
            lemma_bytes_fit(model.catalog_names());
            assert(utf8_cells(builder.catalog_names@) =~= model.catalog_names());
            assert(column_cells(catalog_db_schemas) =~= model.catalog_db_schemas());
        }
        let columns = vec![utf8_column(builder.catalog_names), catalog_db_schemas];
        let ghost held = columns@;
        match new_batch(get_statistics_schema(), columns) {
            Ok(batch) => {
                proof {
                    assert(batch_cells(batch) =~= model.cells());
                }
                Ok(batch)
            },
            Err(error) => {
                proof {
                    assert(batch_columns_match(get_statistics_type().fields, held));
                }
                Err(Error::from_arrow(error))
            },
        }
    }
}

/// A statistic with this value.
pub open spec fn statistic_row(
    table_name: Seq<char>,
    column_name: Option<Seq<char>>,
    key: i16,
    value: StatisticValue,
    is_approximate: bool,
) -> StatisticRow {
    StatisticRow { table_name, column_name, key, value: value.cell(), is_approximate }
}

impl Default for GetStatisticsBuilder {
    fn default() -> (r: Self)
        ensures
            r.wf(),
            r@ == StatisticsModel::empty(),
    {
        let r = GetStatisticsBuilder {
            catalog_names: Vec::new(),
            catalog_schema_counts: Vec::new(),
            db_schema_names: Vec::new(),
            schema_statistic_counts: Vec::new(),
            table_names: Vec::new(),
            column_names: Vec::new(),
            statistic_keys: Vec::new(),
            is_approximate: Vec::new(),
            value_type_ids: Vec::new(),
            value_offsets: Vec::new(),
            int64_values: Int64Values::new(),
            uint64_values: UInt64Values::new(),
            float64_values: Vec::new(),
            binary_values: BinaryValues::new(),
        };
        proof {
            assert(r@ =~= StatisticsModel::empty());
        }
        r
    }
}

impl View for GetStatisticsBuilder {
    type V = StatisticsModel;

    closed spec fn view(&self) -> StatisticsModel {
        StatisticsModel {
            catalogs: name_texts(self.catalog_names@),
            db_schemas: owned(self.catalog_schema_counts@, name_texts(self.db_schema_names@)),
            statistics: owned(self.schema_statistic_counts@, self.rows()),
        }
    }
}

} // verus!
