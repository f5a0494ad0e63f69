//! What the builder of statistics does.

use crate::arrow::schema::schema_tree;
use crate::arrow::{batch_cells, batch_layout, batch_schema, Batch};
use crate::dense::{law_rows_find_their_values, occurrences};
use crate::error::{Result, Status};
use crate::laws::{
    child_count, child_counts, lemma_child_count, lemma_lengths, lemma_place, lemma_same_before,
    lemma_same_parents, lengths_stored, name_chars, place, same_before, written,
};
use crate::model::{field_cells, list_len, Cell};
use crate::options::{StatisticKey, Statistics};
use crate::schemas::get_statistics_schema;
use crate::statistics::{GetStatisticsBuilder, StatisticValue, StatisticsModel};
use arrow_schema::Schema;
use std::sync::Arc;
use vstd::prelude::*;

verus! {

/// A new builder holds nothing.
pub proof fn law_new_statistics(r: GetStatisticsBuilder)
    requires
        call_ensures(GetStatisticsBuilder::new, (), r),
    ensures
        r@.catalogs.len() == 0,
        r@.db_schemas.len() == 0,
        r@.statistics.len() == 0,
{
}

/// Appending a catalog adds its name at the end, and changes nothing else.
pub proof fn law_append_catalog(
    b: &mut GetStatisticsBuilder,
    name: Option<&str>,
    r: &mut GetStatisticsBuilder,
)
    requires
        call_ensures(GetStatisticsBuilder::append_catalog, (b, name), r),
    ensures
        old(r)@.catalogs == old(b)@.catalogs.push(name_chars(name)),
        old(r)@.db_schemas == old(b)@.db_schemas,
        old(r)@.statistics == old(b)@.statistics,
{
}

/// Appending a schema adds its name at the end, as a child of the last catalog, and
/// changes nothing else.
pub proof fn law_append_db_schema(
    b: &mut GetStatisticsBuilder,
    name: Option<&str>,
    r: &mut GetStatisticsBuilder,
)
    requires
        call_ensures(GetStatisticsBuilder::append_db_schema, (b, name), r),
    ensures
        old(r)@.db_schemas == old(b)@.db_schemas.push(
            (old(b)@.catalogs.len() - 1, name_chars(name)),
        ),
        old(r)@.catalogs == old(b)@.catalogs,
        old(r)@.statistics == old(b)@.statistics,
{
}

/// Appending a statistic adds it at the end, as a child of the last schema, with
/// everything that was given, and changes nothing else.
pub proof fn law_append_statistic<K: StatisticKey>(
    b: &mut GetStatisticsBuilder,
    table_name: &str,
    column_name: Option<&str>,
    key: K,
    value: StatisticValue,
    is_approximate: bool,
    r: &mut GetStatisticsBuilder,
)
    requires
        call_ensures(
            GetStatisticsBuilder::append_statistic::<K>,
            (b, table_name, column_name, key, value, is_approximate),
            r,
        ),
    ensures
        old(r)@.statistics.len() == old(b)@.statistics.len() + 1,
        old(r)@.statistics.drop_last() == old(b)@.statistics,
        old(r)@.statistics.last().0 == old(b)@.db_schemas.len() - 1,
        old(r)@.statistics.last().1.table_name == table_name@,
        old(r)@.statistics.last().1.column_name == name_chars(column_name),
        old(r)@.statistics.last().1.key == key.number(),
        ({
            let value_cell = old(r)@.statistics.last().1.value;
            &&& value_cell is Union
            &&& value matches StatisticValue::Int64(v) ==> value_cell->Union_0 == 0
                && *value_cell->Union_1 == Cell::Int64(v)
            &&& value matches StatisticValue::UInt64(v) ==> value_cell->Union_0 == 1
                && *value_cell->Union_1 == Cell::UInt64(v)
            &&& value matches StatisticValue::Float64(bits) ==> value_cell->Union_0 == 2
                && *value_cell->Union_1 == Cell::Float64(bits)
            &&& value matches StatisticValue::Binary(v) ==> value_cell->Union_0 == 3
                && *value_cell->Union_1 == Cell::Binary(v@)
        }),
        old(r)@.statistics.last().1.is_approximate == is_approximate,
        old(r)@.catalogs == old(b)@.catalogs,
        old(r)@.db_schemas == old(b)@.db_schemas,
{
    assert(old(r)@.statistics.drop_last() =~= old(b)@.statistics);
}

/// The key of a statistic is its number, and a number that is given as a key is the
/// key.
pub proof fn law_statistic_keys(wide: i16, narrow: i8, byte: u8, bit: bool, statistic: Statistics)
    ensures
        wide.number() == wide,
        narrow.number() == narrow,
        byte.number() == byte,
        bit.number() == if bit {
            1int
        } else {
            0
        },
        statistic.number() == match statistic {
            Statistics::AverageByteWidth => 0,
            Statistics::DistinctCount => 1,
            Statistics::MaxByteWidth => 2,
            Statistics::MaxValue => 3,
            Statistics::MinValue => 4,
            Statistics::NullCount => 5,
            Statistics::RowCount => 6,
            Statistics::Other { key, name } => key as int,
        },
{
}

/// The result set has one row for each catalog, in order, with its name, null where it
/// is missing, and a list with as many items as the catalog has schemas.
pub proof fn law_catalogs_shown(b: GetStatisticsBuilder, r: Result<Batch>)
    requires
        call_ensures(GetStatisticsBuilder::finish, (b,), r),
        r is Ok,
    ensures
        batch_cells(r->Ok_0).len() == 2,
        batch_cells(r->Ok_0)[0].len() == b@.catalogs.len(),
        batch_cells(r->Ok_0)[1].len() == b@.catalogs.len(),
        forall|c: int|
            0 <= c < b@.catalogs.len() ==> #[trigger] batch_cells(r->Ok_0)[0][c] == written(
                b@.catalogs[c],
            ),
        forall|c: int| #![trigger batch_cells(r->Ok_0)[1][c]]
            0 <= c < b@.catalogs.len() ==> {
                &&& batch_cells(r->Ok_0)[1][c] is List
                &&& batch_cells(r->Ok_0)[1][c]->List_0.len() == child_count(b@.db_schemas, c)
            },
{
    let cells = batch_cells(r->Ok_0);
    assert forall|c: int| #![trigger cells[1][c]] 0 <= c < b@.catalogs.len() implies {
        &&& cells[1][c] is List
        &&& cells[1][c]->List_0.len() == child_count(b@.db_schemas, c)
    } by {
        let rows = b@.db_schema_rows();
        lemma_child_count(rows, c);
        lemma_same_parents(rows, b@.db_schemas, c, rows.len() as int);
    }
}

/// Where the schema `s` of the builder is in a result set: in the row of its catalog,
/// at its place among the schemas of that catalog.
pub open spec fn shown_db_schema(b: StatisticsModel, cells: Seq<Seq<Cell>>, s: int) -> Cell {
    cells[1][b.db_schemas[s].0]->List_0[place(b.db_schemas, s)]
}

/// Each schema is in the row of its catalog, in order, with its name, null where it is
/// missing, and a list with as many items as it has statistics.
pub proof fn law_db_schema_shown(b: GetStatisticsBuilder, r: Result<Batch>, s: int)
    requires
        call_ensures(GetStatisticsBuilder::finish, (b,), r),
        r is Ok,
        b.wf(),
        0 <= s < b@.db_schemas.len(),
    ensures
        0 <= b@.db_schemas[s].0 < batch_cells(r->Ok_0)[1].len(),
        0 <= place(b@.db_schemas, s)
            < batch_cells(r->Ok_0)[1][b@.db_schemas[s].0]->List_0.len(),
        ({
            let cell = shown_db_schema(b@, batch_cells(r->Ok_0), s);
            &&& cell is Struct
            &&& cell->Struct_0.len() == 2
            &&& cell->Struct_0[0] == written(b@.db_schemas[s].1)
            &&& cell->Struct_0[1] is List
            &&& cell->Struct_0[1]->List_0.len() == child_count(b@.statistics, s)
        }),
{
    b.law_valid();
    let rows = b@.db_schema_rows();
    lemma_place(rows, s);
    lemma_same_parents(rows, b@.db_schemas, b@.db_schemas[s].0, s);
    let statistics = b@.statistic_rows();
    lemma_child_count(statistics, s);
    lemma_same_parents(statistics, b@.statistics, s, statistics.len() as int);
}

/// Where the statistic `i` of the builder is in a result set: in its schema, at its
/// place among the statistics of that schema.
pub open spec fn shown_statistic(b: StatisticsModel, cells: Seq<Seq<Cell>>, i: int) -> Cell {
    shown_db_schema(b, cells, b.statistics[i].0)->Struct_0[1]->List_0[place(b.statistics, i)]
}

/// Each statistic is in its schema, in order, with its table, its column, null where it
/// is missing, its key, its value, and whether it is approximate.
pub proof fn law_statistic_shown(b: GetStatisticsBuilder, r: Result<Batch>, i: int)
    requires
        call_ensures(GetStatisticsBuilder::finish, (b,), r),
        r is Ok,
        b.wf(),
        0 <= i < b@.statistics.len(),
    ensures
        0 <= b@.statistics[i].0 < b@.db_schemas.len(),
        0 <= place(b@.statistics, i) < shown_db_schema(
            b@,
            batch_cells(r->Ok_0),
            b@.statistics[i].0,
        )->Struct_0[1]->List_0.len(),
        ({
            let cell = shown_statistic(b@, batch_cells(r->Ok_0), i);
            &&& cell is Struct
            &&& cell->Struct_0.len() == 5
            &&& cell->Struct_0[0] == Cell::Utf8(b@.statistics[i].1.table_name)
            &&& cell->Struct_0[1] == written(b@.statistics[i].1.column_name)
            &&& cell->Struct_0[2] == Cell::Int16(b@.statistics[i].1.key)
            &&& cell->Struct_0[3] == b@.statistics[i].1.value
            &&& cell->Struct_0[4] == Cell::Boolean(b@.statistics[i].1.is_approximate)
        }),
{
    b.law_valid();
    let s = b@.statistics[i].0;
    law_db_schema_shown(b, r, s);
    lemma_place(b@.db_schema_rows(), s);
    lemma_same_parents(b@.db_schema_rows(), b@.db_schemas, b@.db_schemas[s].0, s);
    lemma_place(b@.statistic_rows(), i);
    lemma_same_parents(b@.statistic_rows(), b@.statistics, s, i);
}

/// A statistic that was just appended is the last of its schema in the result set, and
/// reads back as it was given: its table, its column, its key, the very number or bytes
/// of its value, and whether it is approximate.
pub proof fn law_appended_statistic_shown<K: StatisticKey>(
    b: &mut GetStatisticsBuilder,
    table_name: &str,
    column_name: Option<&str>,
    key: K,
    value: StatisticValue,
    is_approximate: bool,
    r: &mut GetStatisticsBuilder,
    done: Result<Batch>,
)
    requires
        call_ensures(
            GetStatisticsBuilder::append_statistic::<K>,
            (b, table_name, column_name, key, value, is_approximate),
            r,
        ),
        call_ensures(GetStatisticsBuilder::finish, (*old(r),), done),
        done is Ok,
        old(r).wf(),
    ensures
        ({
            let list = shown_db_schema(
                old(r)@,
                batch_cells(done->Ok_0),
                old(b)@.db_schemas.len() - 1,
            )->Struct_0[1]->List_0;
            let fields = list.last()->Struct_0;
            &&& list.len() > 0
            &&& fields.len() == 5
            &&& fields[0] == Cell::Utf8(table_name@)
            &&& fields[1] == written(name_chars(column_name))
            &&& fields[2] == Cell::Int16(key.number())
            &&& fields[3] is Union
            &&& value matches StatisticValue::Int64(v) ==> fields[3]->Union_0 == 0
                && *fields[3]->Union_1 == Cell::Int64(v)
            &&& value matches StatisticValue::UInt64(v) ==> fields[3]->Union_0 == 1
                && *fields[3]->Union_1 == Cell::UInt64(v)
            &&& value matches StatisticValue::Float64(bits) ==> fields[3]->Union_0 == 2
                && *fields[3]->Union_1 == Cell::Float64(bits)
            &&& value matches StatisticValue::Binary(v) ==> fields[3]->Union_0 == 3
                && *fields[3]->Union_1 == Cell::Binary(v@)
            &&& fields[4] == Cell::Boolean(is_approximate)
        }),
{
    let n = old(b)@.statistics.len() as int;
    law_append_statistic(b, table_name, column_name, key, value, is_approximate, r);
    law_statistic_shown(*old(r), done, n);
    law_db_schema_shown(*old(r), done, old(b)@.db_schemas.len() - 1);
}

/// Different values stay different: where two statistics that were appended have the
/// same value in the result set, the same number or bytes were given, as the same type.
pub proof fn law_values_told_apart<K: StatisticKey, L: StatisticKey>(
    b: &mut GetStatisticsBuilder,
    c: &mut GetStatisticsBuilder,
    table_name: &str,
    column_name: Option<&str>,
    key: K,
    other_key: L,
    value: StatisticValue,
    other: StatisticValue,
    is_approximate: bool,
    r: &mut GetStatisticsBuilder,
    q: &mut GetStatisticsBuilder,
)
    requires
        call_ensures(
            GetStatisticsBuilder::append_statistic::<K>,
            (b, table_name, column_name, key, value, is_approximate),
            r,
        ),
        call_ensures(
            GetStatisticsBuilder::append_statistic::<L>,
            (c, table_name, column_name, other_key, other, is_approximate),
            q,
        ),
        old(r)@.statistics.last().1.value == old(q)@.statistics.last().1.value,
    ensures
        match (value, other) {
            (StatisticValue::Int64(x), StatisticValue::Int64(y)) => x == y,
            (StatisticValue::UInt64(x), StatisticValue::UInt64(y)) => x == y,
            (StatisticValue::Float64(x), StatisticValue::Float64(y)) => x == y,
            (StatisticValue::Binary(x), StatisticValue::Binary(y)) => x@ == y@,
            _ => false,
        },
{
    law_append_statistic(b, table_name, column_name, key, value, is_approximate, r);
    law_append_statistic(c, table_name, column_name, other_key, other, is_approximate, q);
}

/// The key that a statistic, or a number, is turned into is its own.
pub proof fn law_keys_are_taken_over(
    statistic: Statistics,
    wide: i16,
    narrow: i8,
    byte: u8,
    flag: bool,
    from_statistic: i16,
    key: i16,
    from_wide: i16,
    from_narrow: i16,
    from_byte: i16,
    from_flag: i16,
)
    requires
        call_ensures(<i16 as From<Statistics>>::from, (statistic,), from_statistic),
        call_ensures(<Statistics as StatisticKey>::into_key, (statistic,), key),
        call_ensures(<i16 as StatisticKey>::into_key, (wide,), from_wide),
        call_ensures(<i8 as StatisticKey>::into_key, (narrow,), from_narrow),
        call_ensures(<u8 as StatisticKey>::into_key, (byte,), from_byte),
        call_ensures(<bool as StatisticKey>::into_key, (flag,), from_flag),
    ensures
        from_statistic == key,
        statistic matches Statistics::Other { key: own, name } ==> key == own,
        from_wide == wide,
        from_narrow == narrow,
        from_byte == byte,
        from_flag == if flag {
            1int
        } else {
            0
        },
{
}

/// Every result set has the schema of the result set of statistics.
pub proof fn law_statistics_schema(
    b: GetStatisticsBuilder,
    r: Result<Batch>,
    schema: Arc<Schema>,
)
    requires
        call_ensures(GetStatisticsBuilder::finish, (b,), r),
        r is Ok,
        call_ensures(get_statistics_schema, (), schema),
    ensures
        batch_schema(r->Ok_0) == schema_tree(*schema),
{
}

/// A result set fails to be built only where a variant has more values than a 32-bit
/// offset can count, and then as an internal error.
pub proof fn law_statistics_fail_only_on_size(b: GetStatisticsBuilder, r: Result<Batch>)
    requires
        call_ensures(GetStatisticsBuilder::finish, (b,), r),
    ensures
        b@.statistics.len() <= i32::MAX ==> r is Ok,
        r matches Err(error) ==> {
            &&& error.status == Status::Internal
            &&& error.vendor_code == 0
            &&& error.details is None
            &&& error.message@
                == "Invalid argument error: Type Ids values must match one of the field type ids"@
                || error.message@
                == "Invalid argument error: Offsets must be non-negative and within the length of the Array"@
        },
{
}

/// The offsets of the lists in the result set begin at zero and grow by the number of
/// the children of each parent.
pub proof fn law_statistics_offsets(b: GetStatisticsBuilder, r: Result<Batch>)
    requires
        call_ensures(GetStatisticsBuilder::finish, (b,), r),
        r is Ok,
    ensures
        ({
            let db_schemas = batch_layout(r->Ok_0)[1];
            let statistics = (*db_schemas->items)->Struct_0[1];
            &&& lengths_stored(db_schemas, child_counts(b@.db_schemas, b@.catalogs.len()))
            &&& lengths_stored(statistics, child_counts(b@.statistics, b@.db_schemas.len()))
        }),
{
    let db_schemas = batch_layout(r->Ok_0)[1];
    let statistics = (*db_schemas->items)->Struct_0[1];
    let cells = b@.catalog_db_schemas();
    assert forall|c: int| 0 <= c < cells.len() implies #[trigger] list_len(cells[c])
        == child_counts(b@.db_schemas, b@.catalogs.len())[c] by {
        let rows = b@.db_schema_rows();
        lemma_child_count(rows, c);
        lemma_same_parents(rows, b@.db_schemas, c, rows.len() as int);
    }
    lemma_lengths(db_schemas, cells, child_counts(b@.db_schemas, b@.catalogs.len()));
    let schemas = field_cells(b@.db_schema_cells(), 1);
    assert forall|s: int| 0 <= s < schemas.len() implies #[trigger] list_len(schemas[s])
        == child_counts(b@.statistics, b@.db_schemas.len())[s] by {
        let rows = b@.statistic_rows();
        lemma_child_count(rows, s);
        lemma_same_parents(rows, b@.statistics, s, rows.len() as int);
    }
    lemma_lengths(statistics, schemas, child_counts(b@.statistics, b@.db_schemas.len()));
}

/// The union of the values is stored densely: a statistic has the type id of its value;
/// its offset is the number of the earlier statistics with the same type id; the child
/// of that type holds the value there; and a child has as many values as statistics
/// have its type.
pub proof fn law_statistics_stored(b: GetStatisticsBuilder, r: Result<Batch>)
    requires
        call_ensures(GetStatisticsBuilder::finish, (b,), r),
        r is Ok,
    ensures
        ({
            let rows = b@.statistics;
            let db_schemas = *batch_layout(r->Ok_0)[1]->items;
            let union = (*db_schemas->Struct_0[1]->items)->Struct_0[3];
            &&& union is Union
            &&& union->type_ids.len() == rows.len()
            &&& union->value_offsets.len() == rows.len()
            &&& union->children.len() == 4
            &&& forall|i: int| #![trigger rows[i]]
                0 <= i < rows.len() ==> {
                    let value = rows[i].1.value;
                    &&& union->type_ids[i] == value->Union_0
                    &&& union->value_offsets[i] == same_before(union->type_ids, value->Union_0, i)
                    &&& union->children[value->Union_0 as int][union->value_offsets[i] as int]
                        == *value->Union_1
                }
            &&& forall|k: int| #![trigger union->children[k]]
                0 <= k < 4 ==> union->children[k].len() == same_before(
                    union->type_ids,
                    k as i8,
                    rows.len() as int,
                )
        }),
{
    let rows = b@.statistics;
    let values = b@.values();
    let db_schemas = *batch_layout(r->Ok_0)[1]->items;
    let union = (*db_schemas->Struct_0[1]->items)->Struct_0[3];
    law_rows_find_their_values(union, values, 4);
    assert forall|i: int| #![trigger rows[i]] 0 <= i < rows.len() implies {
        let value = rows[i].1.value;
        &&& union->type_ids[i] == value->Union_0
        &&& union->value_offsets[i] == same_before(union->type_ids, value->Union_0, i)
        &&& union->children[value->Union_0 as int][union->value_offsets[i] as int]
            == *value->Union_1
    } by {
        assert(values[i] == rows[i].1.value);
        assert(union->value_offsets[i] == occurrences(
            union->type_ids.take(i),
            union->type_ids[i] as int,
        ));
        lemma_same_before(union->type_ids, values[i]->Union_0, i);
    }
    assert forall|k: int| #![trigger union->children[k]] 0 <= k < 4 implies
        union->children[k].len() == same_before(union->type_ids, k as i8, rows.len() as int) by {
        lemma_same_before(union->type_ids, k as i8, rows.len() as int);
        assert(union->type_ids.take(rows.len() as int) =~= union->type_ids);
    }
}

} // verus!
