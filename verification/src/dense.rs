//! Dense unions: the values of each variant stored by themselves, and for each
//! row the variant and the place of its value among the values of that variant.

use crate::arrow::array::{union_column, union_id_known, union_offset_inside};
use crate::arrow::schema::union_fields_held;
use crate::arrow::{cells_of, column_cells, column_layout, column_type, Column};
use crate::conform::{all_conform, conforms, lemma_union_conforms};
use crate::error::{Error, Result, Status};
use crate::model::{is_null, no_nulls, Cell, FieldTy, Layout, Ty};
use arrow_schema::UnionFields;
use vstd::prelude::*;

verus! {

/// How often a type id occurs.
pub open spec fn occurrences(ids: Seq<i8>, id: int) -> nat
    decreases ids.len(),
{
    if ids.len() == 0 {
        0
    } else {
        occurrences(ids.drop_last(), id) + if ids.last() == id {
            1nat
        } else {
            0
        }
    }
}

/// The place of the value of row `i` among the values of its variant.
pub open spec fn rank(ids: Seq<i8>, i: int) -> nat {
    occurrences(ids.take(i), ids[i] as int)
}

/// Whether each row names a variant, each variant has as many values as rows name
/// it, and each offset is the place of the value of its row, taken as 32 bits.
pub open spec fn dense_valid(ids: Seq<i8>, offsets: Seq<i32>, variants: Seq<Seq<Cell>>) -> bool {
    &&& ids.len() == offsets.len()
    &&& forall|i: int| 0 <= i < ids.len() ==> 0 <= #[trigger] ids[i] < variants.len()
    &&& forall|i: int| 0 <= i < ids.len() ==> #[trigger] offsets[i] == rank(ids, i) as i32
    &&& forall|t: int|
        0 <= t < variants.len() ==> (#[trigger] variants[t]).len() == occurrences(ids, t)
}

/// The values of the rows.
pub open spec fn dense_cells(ids: Seq<i8>, variants: Seq<Seq<Cell>>) -> Seq<Cell> {
    Seq::new(
        ids.len(),
        |i: int|
            Cell::Union(ids[i], Box::new(variants[ids[i] as int][rank(ids, i) as int])),
    )
}

/// The values of one variant, in the order of the rows.
pub open spec fn of_variant(rows: Seq<Cell>, id: int) -> Seq<Cell>
    decreases rows.len(),
{
    if rows.len() == 0 {
        Seq::empty()
    } else {
        match rows.last() {
            Cell::Union(row_id, value) if row_id == id => of_variant(rows.drop_last(), id).push(
                *value,
            ),
            _ => of_variant(rows.drop_last(), id),
        }
    }
}

/// The values of each variant.
pub open spec fn variants_of(rows: Seq<Cell>, variants: nat) -> Seq<Seq<Cell>> {
    Seq::new(variants, |t: int| of_variant(rows, t))
}

/// The variants of the rows.
pub open spec fn ids_of(rows: Seq<Cell>) -> Seq<i8> {
    Seq::new(rows.len(), |i: int| rows[i]->Union_0)
}

/// Whether an array of unions stores these rows densely: the offset of a row is the
/// number of the earlier rows of its variant, and each variant holds the values of
/// its rows, in order and nothing else.
pub open spec fn laid_out(layout: Layout, rows: Seq<Cell>, variants: nat) -> bool {
    &&& layout matches Layout::Union { type_ids, value_offsets, children }
    &&& type_ids == ids_of(rows)
    &&& value_offsets.len() == rows.len()
    &&& forall|i: int|
        0 <= i < rows.len() ==> #[trigger] value_offsets[i] == rank(ids_of(rows), i)
    &&& children == variants_of(rows, variants)
}

/// Whether these rows can be stored densely, in variants that are as many.
pub open spec fn storable(rows: Seq<Cell>, variants: nat) -> bool {
    forall|i: int|
        0 <= i < rows.len() ==> (#[trigger] rows[i]) is Union && 0 <= rows[i]->Union_0 < variants
}

/// Whether 32-bit offsets can count the values of each variant.
pub open spec fn dense_fits(variants: Seq<Seq<Cell>>) -> bool {
    forall|t: int| 0 <= t < variants.len() ==> (#[trigger] variants[t]).len() <= i32::MAX
}

/// The text of the failure where 32-bit offsets cannot count the values.
pub open spec fn dense_failure(variants: Seq<Seq<Cell>>) -> Seq<char> {
    if exists|t: int|
        0 <= t < variants.len() && (#[trigger] variants[t]).len() as i32 == i32::MIN {
        "Invalid argument error: Type Ids values must match one of the field type ids"@
    } else {
        "Invalid argument error: Offsets must be non-negative and within the length of the Array"@
    }
}

/// Each row's value is one that its variant has.
pub proof fn lemma_rank(ids: Seq<i8>, i: int)
    requires
        0 <= i < ids.len(),
    ensures
        rank(ids, i) < occurrences(ids, ids[i] as int),
    decreases ids.len(),
{
    if i == ids.len() - 1 {
        assert(ids.take(i) =~= ids.drop_last());
    } else {
        let front = ids.drop_last();
        lemma_rank(front, i);
        assert(front.take(i) =~= ids.take(i));
    }
}

/// For each value of a variant there is a row whose value it is.
pub proof fn lemma_row_of(ids: Seq<i8>, id: int, k: int) -> (i: int)
    requires
        0 <= k < occurrences(ids, id),
    ensures
        0 <= i < ids.len(),
        ids[i] == id,
        rank(ids, i) == k,
    decreases ids.len(),
{
    let front = ids.drop_last();
    if k < occurrences(front, id) {
        let i = lemma_row_of(front, id, k);
        assert(front.take(i) =~= ids.take(i));
        i
    } else {
        let i = ids.len() - 1;
        assert(ids.take(i) =~= front);
        i
    }
}

/// What a row that is added changes.
pub proof fn lemma_add_row(
    ids: Seq<i8>,
    offsets: Seq<i32>,
    variants: Seq<Seq<Cell>>,
    id: i8,
    cell: Cell,
)
    requires
        dense_valid(ids, offsets, variants),
        0 <= id < variants.len(),
    ensures
        ({
            let more = variants.update(id as int, variants[id as int].push(cell));
            &&& dense_valid(ids.push(id), offsets.push(variants[id as int].len() as i32), more)
            &&& dense_cells(ids.push(id), more) == dense_cells(ids, variants).push(
                Cell::Union(id, Box::new(cell)),
            )
        }),
{
    let more = variants.update(id as int, variants[id as int].push(cell));
    let ids2 = ids.push(id);
    let offsets2 = offsets.push(variants[id as int].len() as i32);
    assert(ids2.drop_last() =~= ids);
    assert(ids2.take(ids.len() as int) =~= ids);
    assert forall|i: int| 0 <= i < ids.len() implies rank(ids2, i) == rank(ids, i) by {
        assert(ids2.take(i) =~= ids.take(i));
    }
    assert forall|t: int| 0 <= t < more.len() implies (#[trigger] more[t]).len() == occurrences(
        ids2,
        t,
    ) by {
        assert(variants[t].len() == occurrences(ids, t));
    }
    assert forall|i: int| 0 <= i < ids2.len() implies #[trigger] offsets2[i] == rank(
        ids2,
        i,
    ) as i32 by {
        if i < ids.len() {
            assert(offsets[i] == rank(ids, i) as i32);
            assert(rank(ids2, i) == rank(ids, i));
        }
    }
    assert forall|i: int| 0 <= i < ids2.len() implies dense_cells(ids2, more)[i] == dense_cells(
        ids,
        variants,
    ).push(Cell::Union(id, Box::new(cell)))[i] by {
        if i < ids.len() {
            assert(rank(ids2, i) == rank(ids, i));
            assert(0 <= ids[i] < variants.len());
            lemma_rank(ids, i);
        }
    }
    assert(dense_cells(ids2, more) =~= dense_cells(ids, variants).push(
        Cell::Union(id, Box::new(cell)),
    ));
}

/// The rows hold the values of each variant, in order.
pub proof fn lemma_variants(ids: Seq<i8>, offsets: Seq<i32>, variants: Seq<Seq<Cell>>)
    requires
        dense_valid(ids, offsets, variants),
    ensures
        variants_of(dense_cells(ids, variants), variants.len()) == variants,
{
    let rows = dense_cells(ids, variants);
    assert forall|t: int| 0 <= t < variants.len() implies of_variant(rows, t) == variants[t] by {
        lemma_variant_prefix(ids, offsets, variants, t, ids.len() as int);
        assert(rows.take(ids.len() as int) =~= rows);
        assert(ids.take(ids.len() as int) =~= ids);
        assert(variants[t].take(variants[t].len() as int) =~= variants[t]);
    }
    assert(variants_of(rows, variants.len()) =~= variants);
}

proof fn lemma_variant_prefix(
    ids: Seq<i8>,
    offsets: Seq<i32>,
    variants: Seq<Seq<Cell>>,
    t: int,
    n: int,
)
    requires
        dense_valid(ids, offsets, variants),
        0 <= t < variants.len(),
        0 <= n <= ids.len(),
    ensures
        occurrences(ids.take(n), t) <= variants[t].len(),
        of_variant(dense_cells(ids, variants).take(n), t) == variants[t].take(
            occurrences(ids.take(n), t) as int,
        ),
    decreases n,
{
    let rows = dense_cells(ids, variants);
    if n > 0 {
        lemma_variant_prefix(ids, offsets, variants, t, n - 1);
        assert(rows.take(n).drop_last() =~= rows.take(n - 1));
        assert(ids.take(n).drop_last() =~= ids.take(n - 1));
        assert(rows.take(n).last() == rows[n - 1]);
        assert(ids.take(n).last() == ids[n - 1]);
        if ids[n - 1] == t {
            let k = occurrences(ids.take(n - 1), t) as int;
            lemma_rank(ids, n - 1);
            assert(variants[t].take(k + 1) =~= variants[t].take(k).push(variants[t][k]));
        }
    } else {
        assert(rows.take(0).len() == 0);
        assert(variants[t].take(0) =~= Seq::<Cell>::empty());
    }
}

/// A variant has as many values as rows name it.
proof fn lemma_variant_count(rows: Seq<Cell>, variants: nat, id: int)
    requires
        storable(rows, variants),
    ensures
        of_variant(rows, id).len() == occurrences(ids_of(rows), id),
    decreases rows.len(),
{
    if rows.len() > 0 {
        let front = rows.drop_last();
        assert forall|i: int| 0 <= i < front.len() implies (#[trigger] front[i]) is Union && 0
            <= front[i]->Union_0 < variants by {
            assert(rows[i] is Union);
        }
        lemma_variant_count(front, variants, id);
        assert(ids_of(rows).drop_last() =~= ids_of(front));
        assert(rows[rows.len() - 1] is Union);
    }
}

/// The value of a row stands in its variant at the rank of the row.
proof fn lemma_variant_at(rows: Seq<Cell>, variants: nat, i: int)
    requires
        storable(rows, variants),
        0 <= i < rows.len(),
    ensures
        rank(ids_of(rows), i) < of_variant(rows, rows[i]->Union_0 as int).len(),
        of_variant(rows, rows[i]->Union_0 as int)[rank(ids_of(rows), i) as int]
            == *rows[i]->Union_1,
    decreases rows.len(),
{
    let front = rows.drop_last();
    let id = rows[i]->Union_0 as int;
    assert forall|k: int| 0 <= k < front.len() implies (#[trigger] front[k]) is Union && 0
        <= front[k]->Union_0 < variants by {
        assert(rows[k] is Union);
    }
    lemma_variant_count(front, variants, id);
    assert(ids_of(rows).drop_last() =~= ids_of(front));
    assert(rows[rows.len() - 1] is Union);
    if i < rows.len() - 1 {
        lemma_variant_at(front, variants, i);
        assert(ids_of(rows).take(i) =~= ids_of(front).take(i));
    } else {
        assert(ids_of(rows).take(i) =~= ids_of(front));
    }
}

/// An array that stores rows densely has one type id and one offset for each row; the
/// offset of a row is the number of the earlier rows of its variant, and finds the
/// value of the row among the values of that variant; and each variant holds as many
/// values as there are rows of it.
pub proof fn law_rows_find_their_values(layout: Layout, rows: Seq<Cell>, variants: nat)
    requires
        laid_out(layout, rows, variants),
        storable(rows, variants),
    ensures
        layout->type_ids.len() == rows.len(),
        dense_valid(layout->type_ids, layout->value_offsets, layout->children),
        dense_cells(layout->type_ids, layout->children) == rows,
        forall|i: int| #![trigger layout->value_offsets[i]]
            0 <= i < rows.len() ==> {
                &&& layout->value_offsets[i] == occurrences(
                    layout->type_ids.take(i),
                    layout->type_ids[i] as int,
                )
                &&& layout->value_offsets[i] < layout->children[layout->type_ids[i] as int].len()
                &&& layout->children[layout->type_ids[i] as int][layout->value_offsets[i] as int]
                    == *rows[i]->Union_1
            },
        forall|k: int|
            0 <= k < variants ==> (#[trigger] layout->children[k]).len() == occurrences(
                layout->type_ids,
                k,
            ),
{
    let ids = ids_of(rows);
    assert forall|k: int| 0 <= k < variants implies (#[trigger] layout->children[k]).len()
        == occurrences(ids, k) by {
        lemma_variant_count(rows, variants, k);
    }
    assert forall|i: int| #![trigger layout->value_offsets[i]]
        0 <= i < rows.len() implies {
        &&& layout->value_offsets[i] == rank(ids, i)
        &&& layout->value_offsets[i] < layout->children[ids[i] as int].len()
        &&& layout->children[ids[i] as int][layout->value_offsets[i] as int] == *rows[i]->Union_1
    } by {
        assert(rows[i] is Union);
        lemma_variant_at(rows, variants, i);
    }
    assert forall|i: int| 0 <= i < ids.len() implies 0 <= #[trigger] ids[i] < variants by {
        assert(rows[i] is Union);
    }
    assert forall|i: int| 0 <= i < rows.len() implies dense_cells(ids, layout->children)[i]
        == rows[i] by {
        assert(rows[i] is Union);
        assert(layout->value_offsets[i] == rank(ids, i));
    }
    assert(dense_cells(ids, layout->children) =~= rows);
}

/// In an array that stores rows densely, every value of every variant belongs to
/// exactly one row.
pub proof fn law_values_have_one_row(
    layout: Layout,
    rows: Seq<Cell>,
    variants: nat,
    variant: int,
    place: int,
)
    requires
        laid_out(layout, rows, variants),
        storable(rows, variants),
        0 <= variant < variants,
        0 <= place < layout->children[variant].len(),
    ensures
        exists|i: int| #[trigger] refers(layout, i, variant, place),
        forall|i: int, j: int| #[trigger]
            refers(layout, i, variant, place) && #[trigger] refers(layout, j, variant, place)
                ==> i == j,
{
    let ids = ids_of(rows);
    lemma_variant_count(rows, variants, variant);
    let i = lemma_row_of(ids, variant, place);
    assert(layout->value_offsets[i] == rank(ids, i));
    assert(refers(layout, i, variant, place));
    assert forall|i: int, j: int| #[trigger]
        refers(layout, i, variant, place) && #[trigger] refers(layout, j, variant, place) implies i
        == j by {
        assert(layout->value_offsets[i] == rank(ids, i));
        assert(layout->value_offsets[j] == rank(ids, j));
        if i < j {
            lemma_rank_grows(ids, i, j);
        } else if j < i {
            lemma_rank_grows(ids, j, i);
        }
    }
}

/// Whether a row refers to the value at a place of a variant.
pub open spec fn refers(layout: Layout, row: int, variant: int, place: int) -> bool {
    &&& 0 <= row < layout->type_ids.len()
    &&& layout->type_ids[row] == variant
    &&& layout->value_offsets[row] == place
}

/// Of two rows of one variant, the later one has the greater rank.
proof fn lemma_rank_grows(ids: Seq<i8>, i: int, j: int)
    requires
        0 <= i < j < ids.len(),
        ids[i] == ids[j],
    ensures
        rank(ids, i) < rank(ids, j),
{
    let before = ids.take(j);
    lemma_rank(before, i);
    assert(before.take(i) =~= ids.take(i));
}

/// A variant has no more values than there are rows.
proof fn lemma_variant_len(rows: Seq<Cell>, id: int)
    ensures
        of_variant(rows, id).len() <= rows.len(),
    decreases rows.len(),
{
    if rows.len() > 0 {
        lemma_variant_len(rows.drop_last(), id);
    }
}

/// Where 32-bit offsets can count the rows, they can count the values of each
/// variant.
pub proof fn lemma_few_rows_fit(rows: Seq<Cell>, variants: nat)
    ensures
        rows.len() <= i32::MAX ==> dense_fits(variants_of(rows, variants)),
{
    assert forall|t: int| 0 <= t < variants implies (#[trigger] variants_of(rows, variants)[t]).len()
        <= rows.len() by {
        lemma_variant_len(rows, t);
    }
}

/// Rows whose values are of the types of their variants are of the union type.
pub proof fn lemma_dense_conforms(
    ids: Seq<i8>,
    offsets: Seq<i32>,
    variants: Seq<Seq<Cell>>,
    fields: Seq<(i8, FieldTy)>,
)
    requires
        dense_valid(ids, offsets, variants),
        fields.len() == variants.len(),
        forall|t: int| #![trigger variants[t]]
            0 <= t < variants.len() ==> fields[t].0 == t && all_conform(
                variants[t],
                fields[t].1.ty,
            ),
    ensures
        all_conform(dense_cells(ids, variants), Ty::DenseUnion(fields)),
{
    let rows = dense_cells(ids, variants);
    assert forall|i: int| 0 <= i < rows.len() implies conforms(
        #[trigger] rows[i],
        Ty::DenseUnion(fields),
    ) by {
        lemma_rank(ids, i);
        let t = ids[i] as int;
        assert(0 <= ids[i] < variants.len());
        let value = variants[t][rank(ids, i) as int];
        assert(conforms(value, fields[t].1.ty));
        lemma_union_conforms(ids[i], value, fields, t);
    }
}

/// Rows of these variants can be stored densely.
pub proof fn lemma_dense_storable(ids: Seq<i8>, offsets: Seq<i32>, variants: Seq<Seq<Cell>>)
    requires
        dense_valid(ids, offsets, variants),
    ensures
        storable(dense_cells(ids, variants), variants.len()),
{
    let rows = dense_cells(ids, variants);
    assert forall|i: int| 0 <= i < rows.len() implies (#[trigger] rows[i]) is Union && 0
        <= rows[i]->Union_0 < variants.len() by {
        assert(0 <= ids[i] < variants.len());
    }
}

/// Where no variant holds a null, no row counts as null.
pub proof fn lemma_dense_no_nulls(ids: Seq<i8>, offsets: Seq<i32>, variants: Seq<Seq<Cell>>)
    requires
        dense_valid(ids, offsets, variants),
        forall|t: int| 0 <= t < variants.len() ==> no_nulls(#[trigger] variants[t]),
    ensures
        no_nulls(dense_cells(ids, variants)),
{
    let rows = dense_cells(ids, variants);
    assert forall|i: int| 0 <= i < rows.len() implies !is_null(#[trigger] rows[i]) by {
        lemma_rank(ids, i);
        assert(0 <= ids[i] < variants.len());
        assert(no_nulls(variants[ids[i] as int]));
        assert(!is_null(variants[ids[i] as int][rank(ids, i) as int]));
        reveal_with_fuel(is_null, 2);
    }
}

/// Makes a union column of rows and of the columns of the variants.
pub(crate) fn finish_union(
    fields: UnionFields,
    ids: Vec<i8>,
    offsets: Vec<i32>,
    variants: Vec<Column>,
) -> (r: Result<Column>)
    requires
        dense_valid(ids@, offsets@, cells_of(variants@)),
        union_fields_held(fields).len() == variants@.len(),
        forall|i: int| #![trigger variants@[i]]
            0 <= i < variants@.len() ==> {
                &&& union_fields_held(fields)[i].0 == i
                &&& union_fields_held(fields)[i].1.ty == column_type(variants@[i])
            },
    ensures
        match r {
            Ok(column) => {
                &&& dense_fits(cells_of(variants@))
                &&& column_type(column) == Ty::DenseUnion(union_fields_held(fields))
                &&& column_cells(column) == dense_cells(ids@, cells_of(variants@))
                &&& laid_out(column_layout(column), column_cells(column), variants@.len())
            },
            Err(error) => {
                &&& !dense_fits(cells_of(variants@))
                &&& error.says(dense_failure(cells_of(variants@)), Status::Internal)
            },
        },
{
    let ghost cells = cells_of(variants@);
    let ghost columns = variants@;
    let ghost id = ids@;
    let ghost at = offsets@;
    match union_column(fields, ids, offsets, variants) {
        Ok(column) => {
            proof {
                assert forall|t: int| 0 <= t < cells.len() implies (#[trigger] cells[t]).len()
                    <= i32::MAX by {
                    let n = cells[t].len();
                    if n > i32::MAX {
                        let cut = n as i32;
                        let k: int = if cut > 0 {
                            cut as int
                        } else {
                            0
                        };
                        let i = lemma_row_of(id, t, k);
                        assert(union_id_known(id, columns, i));
                        assert(union_offset_inside(id, at, columns, i));
                        assert(at[i] == rank(id, i) as i32);
                        assert(false);
                    }
                }
                assert forall|i: int| 0 <= i < id.len() implies at[i] == rank(id, i) by {
                    lemma_rank(id, i);
                    assert(0 <= id[i] < cells.len());
                    assert(cells[id[i] as int].len() <= i32::MAX);
                }
                assert(column_cells(column) =~= dense_cells(id, cells));
                assert(ids_of(dense_cells(id, cells)) =~= id);
                lemma_variants(id, at, cells);
            }
            Ok(column)
        },
        Err(error) => {
            proof {
                if dense_fits(cells) {
                    assert forall|i: int| #![trigger id[i]] 0 <= i < id.len() implies union_id_known(
                        id,
                        columns,
                        i,
                    ) && union_offset_inside(id, at, columns, i) by {
                        lemma_rank(id, i);
                        assert(0 <= id[i] < cells.len());
                        assert(cells[id[i] as int].len() <= i32::MAX);
                        assert(at[i] == rank(id, i) as i32);
                    }
                }
                if exists|t: int|
                    0 <= t < cells.len() && (#[trigger] cells[t]).len() as i32 == i32::MIN {
                    let t = choose|t: int|
                        0 <= t < cells.len() && (#[trigger] cells[t]).len() as i32 == i32::MIN;
                    let i = lemma_row_of(id, t, 0);
                    assert(!union_id_known(id, columns, i));
                } else {
                    assert forall|i: int| #![trigger id[i]] 0 <= i < id.len() implies union_id_known(
                        id,
                        columns,
                        i,
                    ) by {
                        assert(0 <= id[i] < cells.len());
                        assert(cells[id[i] as int].len() as i32 != i32::MIN);
                    }
                }
            }
            Err(Error::from_arrow(error))
        },
    }
}

} // verus!
