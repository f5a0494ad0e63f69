//! What the builder of info codes does.

use crate::arrow::schema::schema_tree;
use crate::arrow::{batch_cells, batch_layout, batch_schema, Batch};
use crate::dense::{law_rows_find_their_values, occurrences};
use crate::error::{Result, Status};
use crate::info::GetInfoBuilder;
use crate::laws::{lemma_same_before, same_before};
use crate::model::Cell;
use crate::options::InfoCode;
use crate::schemas::get_info_schema;
use arrow_schema::Schema;
use std::sync::Arc;
use vstd::prelude::*;

verus! {

/// The number of an info code.
pub open spec fn code_number(code: InfoCode) -> u32 {
    match code {
        InfoCode::VendorName => 0,
        InfoCode::VendorVersion => 1,
        InfoCode::VendorArrowVersion => 2,
        InfoCode::VendorSql => 3,
        InfoCode::VendorSubstrait => 4,
        InfoCode::VendorSubstraitMinVersion => 5,
        InfoCode::VendorSubstraitMaxVersion => 6,
        InfoCode::DriverName => 100,
        InfoCode::DriverVersion => 101,
        InfoCode::DriverArrowVersion => 102,
        InfoCode::DriverAdbcVersion => 103,
    }
}

/// An info code is turned into its number, and different codes into different numbers.
pub proof fn law_codes_are_told_apart(code: &InfoCode, r: u32, other: &InfoCode, q: u32)
    requires
        call_ensures(<u32 as From<&InfoCode>>::from, (code,), r),
        call_ensures(<u32 as From<&InfoCode>>::from, (other,), q),
    ensures
        r == code_number(*code),
        r == q ==> *code == *other,
{
}

/// A new builder gives a result set without rows.
pub proof fn law_new_info(b: GetInfoBuilder, r: Result<Batch>)
    requires
        call_ensures(GetInfoBuilder::new, (), b),
        call_ensures(GetInfoBuilder::finish, (b,), r),
    ensures
        b@.rows.len() == 0,
        r is Ok,
        batch_cells(r->Ok_0).len() == 2,
        batch_cells(r->Ok_0)[0].len() == 0,
        batch_cells(r->Ok_0)[1].len() == 0,
{
}

/// Whether a result set is another one with one more row at the end, for this code and
/// in this variant.
pub open spec fn one_more_row(before: Batch, after: Batch, code: InfoCode, variant: i8) -> bool {
    let names = batch_cells(after)[0];
    let values = batch_cells(after)[1];
    &&& batch_cells(after).len() == 2
    &&& names == batch_cells(before)[0].push(Cell::UInt32(code_number(code)))
    &&& values.len() == batch_cells(before)[1].len() + 1
    &&& values.drop_last() == batch_cells(before)[1]
    &&& values.last() is Union
    &&& values.last()->Union_0 == variant
    &&& batch_schema(after) == batch_schema(before)
}

/// Appending a string adds one row to the result set: the code, and the string.
pub proof fn law_append_string(
    b: &mut GetInfoBuilder,
    code: InfoCode,
    value: &str,
    r: &mut GetInfoBuilder,
    before: Result<Batch>,
    after: Result<Batch>,
)
    requires
        call_ensures(GetInfoBuilder::append_string, (b, code, value), r),
        call_ensures(GetInfoBuilder::finish, (*old(b),), before),
        call_ensures(GetInfoBuilder::finish, (*old(r),), after),
        before is Ok,
        after is Ok,
    ensures
        old(r)@.rows.len() == old(b)@.rows.len() + 1,
        one_more_row(before->Ok_0, after->Ok_0, code, 0),
        *batch_cells(after->Ok_0)[1].last()->Union_1 == Cell::Utf8(value@),
{
    lemma_one_more_row(before->Ok_0, after->Ok_0, Cell::UInt32(code_number(code)));
}

/// Appending a boolean adds one row to the result set: the code, and the boolean.
pub proof fn law_append_bool(
    b: &mut GetInfoBuilder,
    code: InfoCode,
    value: bool,
    r: &mut GetInfoBuilder,
    before: Result<Batch>,
    after: Result<Batch>,
)
    requires
        call_ensures(GetInfoBuilder::append_bool, (b, code, value), r),
        call_ensures(GetInfoBuilder::finish, (*old(b),), before),
        call_ensures(GetInfoBuilder::finish, (*old(r),), after),
        before is Ok,
        after is Ok,
    ensures
        old(r)@.rows.len() == old(b)@.rows.len() + 1,
        one_more_row(before->Ok_0, after->Ok_0, code, 1),
        *batch_cells(after->Ok_0)[1].last()->Union_1 == Cell::Boolean(value),
{
    lemma_one_more_row(before->Ok_0, after->Ok_0, Cell::UInt32(code_number(code)));
}

/// Appending a 64-bit integer adds one row to the result set: the code, and the
/// integer.
pub proof fn law_append_int64(
    b: &mut GetInfoBuilder,
    code: InfoCode,
    value: i64,
    r: &mut GetInfoBuilder,
    before: Result<Batch>,
    after: Result<Batch>,
)
    requires
        call_ensures(GetInfoBuilder::append_int64, (b, code, value), r),
        call_ensures(GetInfoBuilder::finish, (*old(b),), before),
        call_ensures(GetInfoBuilder::finish, (*old(r),), after),
        before is Ok,
        after is Ok,
    ensures
        old(r)@.rows.len() == old(b)@.rows.len() + 1,
        one_more_row(before->Ok_0, after->Ok_0, code, 2),
        *batch_cells(after->Ok_0)[1].last()->Union_1 == Cell::Int64(value),
{
    lemma_one_more_row(before->Ok_0, after->Ok_0, Cell::UInt32(code_number(code)));
}

/// Appending a 32-bit mask adds one row to the result set: the code, and the mask.
pub proof fn law_append_int32_bitmask(
    b: &mut GetInfoBuilder,
    code: InfoCode,
    value: i32,
    r: &mut GetInfoBuilder,
    before: Result<Batch>,
    after: Result<Batch>,
)
    requires
        call_ensures(GetInfoBuilder::append_int32_bitmask, (b, code, value), r),
        call_ensures(GetInfoBuilder::finish, (*old(b),), before),
        call_ensures(GetInfoBuilder::finish, (*old(r),), after),
        before is Ok,
        after is Ok,
    ensures
        old(r)@.rows.len() == old(b)@.rows.len() + 1,
        one_more_row(before->Ok_0, after->Ok_0, code, 3),
        *batch_cells(after->Ok_0)[1].last()->Union_1 == Cell::Int32(value),
{
    lemma_one_more_row(before->Ok_0, after->Ok_0, Cell::UInt32(code_number(code)));
}

/// Appending a list of strings adds one row to the result set: the code, and a list
/// with as many items as were given, each the given string at its place.
pub proof fn law_append_string_list(
    b: &mut GetInfoBuilder,
    code: InfoCode,
    values: &[&str],
    r: &mut GetInfoBuilder,
    before: Result<Batch>,
    after: Result<Batch>,
)
    requires
        call_ensures(GetInfoBuilder::append_string_list, (b, code, values), r),
        call_ensures(GetInfoBuilder::finish, (*old(b),), before),
        call_ensures(GetInfoBuilder::finish, (*old(r),), after),
        before is Ok,
        after is Ok,
    ensures
        old(r)@.rows.len() == old(b)@.rows.len() + 1,
        one_more_row(before->Ok_0, after->Ok_0, code, 4),
        ({
            let value = *batch_cells(after->Ok_0)[1].last()->Union_1;
            &&& value is List
            &&& value->List_0.len() == values@.len()
            &&& forall|i: int|
                0 <= i < values@.len() ==> #[trigger] value->List_0[i] == Cell::Utf8(values@[i]@)
        }),
{
    lemma_one_more_row(before->Ok_0, after->Ok_0, Cell::UInt32(code_number(code)));
}

/// Appending a map adds one row to the result set: the code, and a map with as many
/// entries as were given, each with the given key at its place and a list of the given
/// numbers.
pub proof fn law_append_int32_to_int32_list_map(
    b: &mut GetInfoBuilder,
    code: InfoCode,
    entries: &[(i32, Vec<i32>)],
    r: &mut GetInfoBuilder,
    before: Result<Batch>,
    after: Result<Batch>,
)
    requires
        call_ensures(GetInfoBuilder::append_int32_to_int32_list_map, (b, code, entries), r),
        call_ensures(GetInfoBuilder::finish, (*old(b),), before),
        call_ensures(GetInfoBuilder::finish, (*old(r),), after),
        before is Ok,
        after is Ok,
    ensures
        old(r)@.rows.len() == old(b)@.rows.len() + 1,
        one_more_row(before->Ok_0, after->Ok_0, code, 5),
        ({
            let value = *batch_cells(after->Ok_0)[1].last()->Union_1;
            &&& value is Entries
            &&& value->Entries_0.len() == entries@.len()
            &&& forall|i: int|
                0 <= i < entries@.len() ==> (#[trigger] value->Entries_0[i]).0 == Cell::Int32(
                    entries@[i].0,
                )
            &&& forall|i: int|
                0 <= i < entries@.len() ==> {
                    &&& (#[trigger] value->Entries_0[i]).1 is List
                    &&& value->Entries_0[i].1->List_0.len() == entries@[i].1@.len()
                }
            &&& forall|i: int, j: int|
                0 <= i < entries@.len() && 0 <= j < entries@[i].1@.len()
                    ==> #[trigger] value->Entries_0[i].1->List_0[j] == Cell::Int32(
                    entries@[i].1@[j],
                )
        }),
{
    lemma_one_more_row(before->Ok_0, after->Ok_0, Cell::UInt32(code_number(code)));
}

/// Both columns of a result set have been extended at the end.
proof fn lemma_one_more_row(before: Batch, after: Batch, name: Cell)
    requires
        batch_cells(before).len() == 2,
        batch_cells(after).len() == 2,
        batch_cells(after)[0].len() == batch_cells(before)[0].len() + 1,
        batch_cells(after)[1].len() == batch_cells(before)[1].len() + 1,
        batch_cells(after)[0].last() == name,
        forall|i: int|
            0 <= i < batch_cells(before)[0].len() ==> batch_cells(after)[0][i]
                == #[trigger] batch_cells(before)[0][i],
        forall|i: int|
            0 <= i < batch_cells(before)[1].len() ==> batch_cells(after)[1][i]
                == #[trigger] batch_cells(before)[1][i],
    ensures
        batch_cells(after)[0] == batch_cells(before)[0].push(name),
        batch_cells(after)[1].drop_last() == batch_cells(before)[1],
{
    assert(batch_cells(after)[0] =~= batch_cells(before)[0].push(name));
    assert(batch_cells(after)[1].drop_last() =~= batch_cells(before)[1]);
}

/// A result set fails to be built only where a variant has more rows than a 32-bit
/// offset can count, and then as an internal error.
pub proof fn law_info_fails_only_on_size(b: GetInfoBuilder, r: Result<Batch>)
    requires
        call_ensures(GetInfoBuilder::finish, (b,), r),
    ensures
        b@.rows.len() <= i32::MAX ==> r is Ok,
        r matches Err(error) ==> {
            &&& error.status == Status::Internal
            &&& error.vendor_code == 0
            &&& error.details is None
            &&& error.message@
                == "Invalid argument error: Type Ids values must match one of the field type ids"@
                || error.message@
                == "Invalid argument error: Offsets must be non-negative and within the length of the Array"@
        },
{
}

/// Every result set has the schema of the result set of info codes.
pub proof fn law_info_schema(b: GetInfoBuilder, r: Result<Batch>, schema: Arc<Schema>)
    requires
        call_ensures(GetInfoBuilder::finish, (b,), r),
        r is Ok,
        call_ensures(get_info_schema, (), schema),
    ensures
        batch_schema(r->Ok_0) == schema_tree(*schema),
{
}

/// The union of the values is stored densely: a row has the type id of its value; its
/// offset is the number of the earlier rows with the same type id; the child of that
/// type holds the value there; and a child has as many values as rows have its type.
pub proof fn law_info_stored(b: GetInfoBuilder, r: Result<Batch>)
    requires
        call_ensures(GetInfoBuilder::finish, (b,), r),
        r is Ok,
    ensures
        ({
            let values = batch_cells(r->Ok_0)[1];
            let union = batch_layout(r->Ok_0)[1];
            &&& union is Union
            &&& union->type_ids.len() == values.len()
            &&& union->value_offsets.len() == values.len()
            &&& union->children.len() == 6
            &&& forall|i: int| #![trigger values[i]]
                0 <= i < values.len() ==> {
                    &&& union->type_ids[i] == values[i]->Union_0
                    &&& union->value_offsets[i] == same_before(union->type_ids, values[i]->Union_0, i)
                    &&& union->children[values[i]->Union_0 as int][union->value_offsets[i] as int]
                        == *values[i]->Union_1
                }
            &&& forall|k: int| #![trigger union->children[k]]
                0 <= k < 6 ==> union->children[k].len() == same_before(
                    union->type_ids,
                    k as i8,
                    values.len() as int,
                )
        }),
{
    let values = batch_cells(r->Ok_0)[1];
    let union = batch_layout(r->Ok_0)[1];
    law_rows_find_their_values(union, values, 6);
    assert forall|i: int| #![trigger values[i]] 0 <= i < values.len() implies {
        &&& union->type_ids[i] == values[i]->Union_0
        &&& union->value_offsets[i] == same_before(union->type_ids, values[i]->Union_0, i)
        &&& union->children[values[i]->Union_0 as int][union->value_offsets[i] as int]
            == *values[i]->Union_1
    } by {
        assert(union->value_offsets[i] == occurrences(
            union->type_ids.take(i),
            union->type_ids[i] as int,
        ));
        lemma_same_before(union->type_ids, values[i]->Union_0, i);
    }
    assert forall|k: int| #![trigger union->children[k]] 0 <= k < 6 implies
        union->children[k].len() == same_before(union->type_ids, k as i8, values.len() as int) by {
        lemma_same_before(union->type_ids, k as i8, values.len() as int);
        assert(union->type_ids.take(values.len() as int) =~= union->type_ids);
    }
}

} // verus!
