//! Children stored flat, with the number of children of each parent beside them.

use crate::arrow::array::list_column;
use crate::arrow::schema::field_tree;
use crate::arrow::{column_cells, column_layout, column_type, Column};
use crate::model::{
    field_cells, list_cells, list_items, list_len, lists_packed, Cell, Layout, Ty,
};
use arrow_schema::Field;
use std::sync::Arc;
use vstd::prelude::*;

verus! {

/// The number of children of the first `n` parents.
pub open spec fn children_before(counts: Seq<i32>, n: int) -> int
    decreases n,
{
    if n <= 0 {
        0
    } else {
        children_before(counts, n - 1) + counts[n - 1]
    }
}

/// The number of children of all parents.
pub open spec fn children(counts: Seq<i32>) -> int {
    children_before(counts, counts.len() as int)
}

/// Whether no count is negative.
pub open spec fn counts_valid(counts: Seq<i32>) -> bool {
    forall|i: int| 0 <= i < counts.len() ==> 0 <= #[trigger] counts[i]
}

/// The parent of each child, in the order of the children.
pub open spec fn owners(counts: Seq<i32>) -> Seq<int>
    decreases counts.len(),
{
    if counts.len() == 0 {
        Seq::empty()
    } else {
        owners(counts.drop_last()) + Seq::new(
            counts.last() as nat,
            |i: int| counts.len() - 1,
        )
    }
}

/// Pairs each child with its parent.
pub open spec fn owned<T>(counts: Seq<i32>, items: Seq<T>) -> Seq<(int, T)> {
    Seq::new(items.len(), |i: int| (owners(counts)[i], items[i]))
}

/// The children of one parent, in order.
pub open spec fn of_owner<T>(rows: Seq<(int, T)>, owner: int) -> Seq<T>
    decreases rows.len(),
{
    if rows.len() == 0 {
        Seq::empty()
    } else if rows.last().0 == owner {
        of_owner(rows.drop_last(), owner).push(rows.last().1)
    } else {
        of_owner(rows.drop_last(), owner)
    }
}

proof fn lemma_before_prefix(a: Seq<i32>, b: Seq<i32>, n: int)
    requires
        n <= a.len(),
        n <= b.len(),
        forall|i: int| 0 <= i < n ==> a[i] == b[i],
    ensures
        children_before(a, n) == children_before(b, n),
    decreases n,
{
    if n > 0 {
        lemma_before_prefix(a, b, n - 1);
    }
}

/// More parents have no fewer children.
pub proof fn lemma_before_monotone(counts: Seq<i32>, i: int, j: int)
    requires
        counts_valid(counts),
        0 <= i <= j <= counts.len(),
    ensures
        0 <= children_before(counts, i) <= children_before(counts, j),
    decreases j,
{
    if i < j {
        lemma_before_monotone(counts, i, j - 1);
    } else if i > 0 {
        lemma_before_monotone(counts, i - 1, i - 1);
    }
}

/// The parents of the children, by position.
proof fn lemma_owners(counts: Seq<i32>)
    requires
        counts_valid(counts),
    ensures
        owners(counts).len() == children(counts),
        forall|i: int, k: int| #![trigger owners(counts)[k], children_before(counts, i)]
            0 <= i < counts.len() && 0 <= k < children(counts) ==> (owners(counts)[k] == i
                <==> children_before(counts, i) <= k < children_before(counts, i + 1)),
    decreases counts.len(),
{
    if counts.len() > 0 {
        let front = counts.drop_last();
        let last = counts.len() - 1;
        lemma_owners(front);
        lemma_before_prefix(front, counts, last);
        lemma_before_monotone(counts, last, last);
        assert(children(front) == children_before(counts, last));
        assert forall|i: int, k: int| #![trigger owners(counts)[k], children_before(counts, i)]
            0 <= i < counts.len() && 0 <= k < children(counts) implies (owners(counts)[k] == i
            <==> children_before(counts, i) <= k < children_before(counts, i + 1)) by {
            if k < children(front) {
                assert(owners(counts)[k] == owners(front)[k]);
                if i < last {
                    lemma_before_prefix(front, counts, i);
                    lemma_before_prefix(front, counts, i + 1);
                    assert(children_before(front, i) == children_before(counts, i));
                } else {
                    lemma_owner_range(front, k);
                }
            } else {
                assert(owners(counts)[k] == last);
                if i < last {
                    lemma_before_monotone(counts, i + 1, last);
                }
            }
        }
    }
}

/// Each child has a parent that there is.
pub proof fn lemma_owner_range(counts: Seq<i32>, k: int)
    requires
        counts_valid(counts),
        0 <= k < owners(counts).len(),
    ensures
        0 <= owners(counts)[k] < counts.len(),
    decreases counts.len(),
{
    if counts.len() > 0 {
        let front = counts.drop_last();
        if k < owners(front).len() {
            lemma_owner_range(front, k);
        }
    }
}

/// The number of parents named by the counts.
pub proof fn lemma_owners_len(counts: Seq<i32>)
    requires
        counts_valid(counts),
    ensures
        owners(counts).len() == children(counts),
{
    lemma_owners(counts);
}

/// A parent that is added has no children, and takes none from others.
pub proof fn lemma_add_parent(counts: Seq<i32>)
    ensures
        owners(counts.push(0)) == owners(counts),
        counts_valid(counts) ==> counts_valid(counts.push(0)),
        counts_valid(counts) ==> children(counts.push(0)) == children(counts),
{
    assert(counts.push(0).drop_last() =~= counts);
    assert(owners(counts.push(0)) =~= owners(counts));
    lemma_before_prefix(counts, counts.push(0), counts.len() as int);
}

/// A child that is added belongs to the last parent.
pub proof fn lemma_add_child(counts: Seq<i32>)
    requires
        counts_valid(counts),
        counts.len() > 0,
        counts.last() < i32::MAX,
    ensures
        ({
            let more = counts.update(counts.len() - 1, (counts.last() + 1) as i32);
            &&& counts_valid(more)
            &&& owners(more) == owners(counts).push(counts.len() - 1)
            &&& children(more) == children(counts) + 1
        }),
{
    let last = counts.len() - 1;
    let more = counts.update(last, (counts.last() + 1) as i32);
    assert(more.drop_last() =~= counts.drop_last());
    assert(owners(more) =~= owners(counts).push(last));
    lemma_before_prefix(counts, more, last);
}

/// The children of a parent are those between its offset and the next.
pub proof fn lemma_of_owner<T>(counts: Seq<i32>, items: Seq<T>, owner: int)
    requires
        counts_valid(counts),
        items.len() == children(counts),
        0 <= owner < counts.len(),
    ensures
        0 <= children_before(counts, owner) <= children_before(counts, owner + 1) <= items.len(),
        of_owner(owned(counts, items), owner) == items.subrange(
            children_before(counts, owner),
            children_before(counts, owner + 1),
        ),
{
    lemma_before_monotone(counts, owner, owner + 1);
    lemma_before_monotone(counts, owner + 1, counts.len() as int);
    lemma_of_owner_prefix(counts, items, owner, items.len() as int);
    let rows = owned(counts, items);
    assert(rows.take(items.len() as int) =~= rows);
}

proof fn lemma_of_owner_prefix<T>(counts: Seq<i32>, items: Seq<T>, owner: int, n: int)
    requires
        counts_valid(counts),
        items.len() == children(counts),
        0 <= owner < counts.len(),
        0 <= n <= items.len(),
        0 <= children_before(counts, owner) <= children_before(counts, owner + 1) <= items.len(),
    ensures
        ({
            let lo = children_before(counts, owner);
            let hi = children_before(counts, owner + 1);
            of_owner(owned(counts, items).take(n), owner) == if n <= lo {
                Seq::empty()
            } else if n <= hi {
                items.subrange(lo, n)
            } else {
                items.subrange(lo, hi)
            }
        }),
    decreases n,
{
    let rows = owned(counts, items);
    let lo = children_before(counts, owner);
    let hi = children_before(counts, owner + 1);
    if n > 0 {
        lemma_of_owner_prefix(counts, items, owner, n - 1);
        lemma_owners(counts);
        assert(rows.take(n).drop_last() =~= rows.take(n - 1));
        assert(rows.take(n).last() == (owners(counts)[n - 1], items[n - 1]));
        assert(owners(counts)[n - 1] == owner <==> lo <= n - 1 < hi);
        if lo < n <= hi {
            if n - 1 == lo {
                assert(items.subrange(lo, n) =~= Seq::<T>::empty().push(items[n - 1]));
            } else {
                assert(items.subrange(lo, n) =~= items.subrange(lo, n - 1).push(items[n - 1]));
            }
        } else if n == hi + 1 && lo < hi {
            assert(items.subrange(lo, n - 1) =~= items.subrange(lo, hi));
        }
        if lo == hi {
            assert(items.subrange(lo, hi) =~= Seq::<T>::empty());
        }
    } else {
        assert(rows.take(0).len() == 0);
    }
}

/// The children of a parent are among all children.
pub proof fn lemma_of_owner_subset<T>(rows: Seq<(int, T)>, owner: int)
    ensures
        forall|k: int| #![trigger of_owner(rows, owner)[k]]
            0 <= k < of_owner(rows, owner).len() ==> exists|i: int|
                0 <= i < rows.len() && #[trigger] rows[i] == (owner, of_owner(rows, owner)[k]),
    decreases rows.len(),
{
    if rows.len() > 0 {
        let front = rows.drop_last();
        lemma_of_owner_subset(front, owner);
        assert forall|k: int| #![trigger of_owner(rows, owner)[k]]
            0 <= k < of_owner(rows, owner).len() implies exists|i: int|
            0 <= i < rows.len() && #[trigger] rows[i] == (owner, of_owner(rows, owner)[k]) by {
            if k < of_owner(front, owner).len() {
                let child = of_owner(front, owner)[k];
                let i = choose|i: int| 0 <= i < front.len() && #[trigger] front[i] == (owner, child);
                assert(rows[i] == (owner, child));
            } else {
                assert(rows[rows.len() - 1] == (owner, of_owner(rows, owner)[k]));
            }
        }
    }
}

/// Lists cut out of the children by their offsets are the lists of the children
/// of each parent.
pub proof fn lemma_lists(counts: Seq<i32>, at: Seq<i32>, items: Seq<Cell>)
    requires
        counts_valid(counts),
        items.len() == children(counts),
        at.len() == counts.len() + 1,
        forall|i: int| 0 <= i < at.len() ==> #[trigger] at[i] == children_before(counts, i),
    ensures
        list_cells(at, items) == Seq::new(
            counts.len(),
            |i: int| Cell::List(of_owner(owned(counts, items), i)),
        ),
{
    assert forall|i: int| 0 <= i < counts.len() implies list_cells(at, items)[i] == Cell::List(
        of_owner(owned(counts, items), i),
    ) by {
        lemma_of_owner(counts, items, i);
        assert(at[i] == children_before(counts, i));
        assert(at[i + 1] == children_before(counts, i + 1));
    }
    assert(list_cells(at, items) =~= Seq::new(
        counts.len(),
        |i: int| Cell::List(of_owner(owned(counts, items), i)),
    ));
}

/// Lists of children by parent, cut out of the values of the children by the
/// offsets.
pub(crate) fn list_of_children(
    item: Arc<Field>,
    counts: &Vec<i32>,
    items: Column,
) -> (r: Column)
    requires
        counts_valid(counts@),
        children(counts@) == column_cells(items).len(),
        children(counts@) <= i32::MAX,
        field_tree(*item).ty == column_type(items),
        field_tree(*item).nullable,
    ensures
        column_type(r) == Ty::List(Box::new(field_tree(*item))),
        column_cells(r) == Seq::new(
            counts@.len(),
            |i: int| Cell::List(of_owner(owned(counts@, column_cells(items)), i)),
        ),
        lists_packed(column_layout(r), column_cells(r)),
        *column_layout(r)->items == column_layout(items),
{
    let offsets = offsets_from_counts(counts.as_slice());
    proof {
        let cells = list_cells(offsets@, column_cells(items));
        lemma_lists(counts@, offsets@, column_cells(items));
        assert forall|i: int| #![trigger cells[i]] 0 <= i < cells.len() implies offsets@[i + 1]
            - offsets@[i] == list_len(cells[i]) by {
            lemma_of_owner(counts@, column_cells(items), i);
            assert(offsets@[i] == children_before(counts@, i));
            assert(offsets@[i + 1] == children_before(counts@, i + 1));
        }
    }
    list_column(item, offsets, items)
}

/// A parent that is added takes no child from another.
pub proof fn lemma_own_parent<T>(counts: Seq<i32>, items: Seq<T>)
    ensures
        owned(counts.push(0), items) == owned(counts, items),
{
    lemma_add_parent(counts);
}

/// A child that is added belongs to the last parent.
pub proof fn lemma_own_child<T>(counts: Seq<i32>, items: Seq<T>, item: T)
    requires
        counts_valid(counts),
        items.len() == children(counts),
        counts.len() > 0,
        counts.last() < i32::MAX,
    ensures
        owned(
            counts.update(counts.len() - 1, (counts.last() + 1) as i32),
            items.push(item),
        ) == owned(counts, items).push((counts.len() - 1, item)),
{
    let more = counts.update(counts.len() - 1, (counts.last() + 1) as i32);
    lemma_add_child(counts);
    lemma_owners_len(counts);
    assert(owned(more, items.push(item)) =~= owned(counts, items).push((counts.len() - 1, item)));
}

/// The last parent has as many children as are counted for it.
pub proof fn lemma_last_count<T>(counts: Seq<i32>, items: Seq<T>)
    requires
        counts_valid(counts),
        items.len() == children(counts),
        counts.len() > 0,
    ensures
        of_owner(owned(counts, items), counts.len() - 1).len() == counts.last(),
        counts.last() <= items.len(),
{
    lemma_of_owner(counts, items, counts.len() - 1);
}

/// Whether there is a last parent, and it can take one more child, where 32 bits
/// count the children of each parent.
pub open spec fn room<T>(parents: nat, rows: Seq<(int, T)>) -> bool {
    &&& parents > 0
    &&& rows.len() < i32::MAX || of_owner(rows, parents - 1).len() < i32::MAX
}

/// Counts one more child of the last parent.
pub(crate) fn count_child(counts: &mut Vec<i32>)
    requires
        counts_valid(old(counts)@),
        old(counts)@.len() > 0,
        old(counts)@.last() < i32::MAX,
    ensures
        final(counts)@ == old(counts)@.update(
            old(counts)@.len() - 1,
            (old(counts)@.last() + 1) as i32,
        ),
        counts_valid(final(counts)@),
        children(final(counts)@) == children(old(counts)@) + 1,
{
    proof {
        lemma_add_child(counts@);
    }
    let last: usize = counts.len() - 1;
    let more: i32 = counts[last] + 1;
    counts.set(last, more);
}

/// Counts the children of one more parent, which has none yet.
pub(crate) fn count_parent(counts: &mut Vec<i32>)
    requires
        counts_valid(old(counts)@),
    ensures
        final(counts)@ == old(counts)@.push(0),
        counts_valid(final(counts)@),
        children(final(counts)@) == children(old(counts)@),
{
    proof {
        lemma_add_parent(counts@);
    }
    counts.push(0);
}

/// The items of all lists, one list after the other.
pub open spec fn joined<T>(lists: Seq<Seq<T>>) -> Seq<T>
    decreases lists.len(),
{
    if lists.len() == 0 {
        Seq::empty()
    } else {
        joined(lists.drop_last()) + lists.last()
    }
}

/// No list is longer than all of them together.
pub proof fn lemma_joined_len<T>(lists: Seq<Seq<T>>, i: int)
    requires
        0 <= i < lists.len(),
    ensures
        lists[i].len() <= joined(lists).len(),
    decreases lists.len(),
{
    if i < lists.len() - 1 {
        lemma_joined_len(lists.drop_last(), i);
    }
}

/// Each list stands between its offset and the next.
pub proof fn lemma_joined<T>(counts: Seq<i32>, lists: Seq<Seq<T>>)
    requires
        counts.len() == lists.len(),
        forall|i: int| 0 <= i < counts.len() ==> #[trigger] counts[i] == lists[i].len(),
    ensures
        counts_valid(counts),
        children(counts) == joined(lists).len(),
        forall|i: int| #![trigger lists[i]]
            0 <= i < lists.len() ==> {
                &&& 0 <= children_before(counts, i) <= children_before(counts, i + 1)
                &&& children_before(counts, i + 1) <= joined(lists).len()
                &&& children_before(counts, i + 1) - children_before(counts, i) == lists[i].len()
                &&& joined(lists).subrange(
                    children_before(counts, i),
                    children_before(counts, i + 1),
                ) == lists[i]
            },
    decreases lists.len(),
{
    if lists.len() > 0 {
        let last = lists.len() - 1;
        let front = lists.drop_last();
        lemma_joined(counts.drop_last(), front);
        lemma_before_prefix(counts.drop_last(), counts, last);
        assert forall|i: int| #![trigger lists[i]] 0 <= i < lists.len() implies {
            &&& 0 <= children_before(counts, i) <= children_before(counts, i + 1)
            &&& children_before(counts, i + 1) <= joined(lists).len()
            &&& children_before(counts, i + 1) - children_before(counts, i) == lists[i].len()
            &&& joined(lists).subrange(
                children_before(counts, i),
                children_before(counts, i + 1),
            ) == lists[i]
        } by {
            if i < last {
                assert(front[i] == lists[i]);
                lemma_before_prefix(counts.drop_last(), counts, i);
                lemma_before_prefix(counts.drop_last(), counts, i + 1);
                let lo = children_before(counts, i);
                let hi = children_before(counts, i + 1);
                assert(joined(lists).subrange(lo, hi) =~= joined(front).subrange(lo, hi));
            } else {
                assert(joined(lists).subrange(
                    children_before(counts, i),
                    children_before(counts, i + 1),
                ) =~= lists[i]);
            }
        }
    }
}

/// Whether the children stand in the order of their parents, and each has a parent
/// that there is.
pub open spec fn ordered<T>(parents: nat, rows: Seq<(int, T)>) -> bool {
    &&& forall|i: int| 0 <= i < rows.len() ==> 0 <= (#[trigger] rows[i]).0 < parents
    &&& forall|i: int, j: int|
        0 <= i < j < rows.len() ==> (#[trigger] rows[i]).0 <= (#[trigger] rows[j]).0
}

/// The children without their parents.
pub open spec fn unowned<T>(rows: Seq<(int, T)>) -> Seq<T> {
    Seq::new(rows.len(), |i: int| rows[i].1)
}

/// The lists of the children of each parent.
pub open spec fn child_lists<T>(parents: nat, rows: Seq<(int, T)>) -> Seq<Seq<T>> {
    Seq::new(parents, |p: int| of_owner(rows, p))
}

/// Children counted by parent stand in the order of their parents.
pub proof fn lemma_owned_ordered<T>(counts: Seq<i32>, items: Seq<T>)
    requires
        counts_valid(counts),
        items.len() == children(counts),
    ensures
        ordered(counts.len(), owned(counts, items)),
{
    lemma_owners_sorted(counts);
    lemma_owners_len(counts);
    assert forall|i: int| 0 <= i < items.len() implies 0 <= (#[trigger] owned(
        counts,
        items,
    )[i]).0 < counts.len() by {
        lemma_owner_range(counts, i);
    }
}

proof fn lemma_owners_sorted(counts: Seq<i32>)
    requires
        counts_valid(counts),
    ensures
        forall|i: int, j: int|
            0 <= i < j < owners(counts).len() ==> #[trigger] owners(counts)[i]
                <= #[trigger] owners(counts)[j],
    decreases counts.len(),
{
    if counts.len() > 0 {
        let front = counts.drop_last();
        lemma_owners_sorted(front);
        assert forall|i: int, j: int| 0 <= i < j < owners(counts).len() implies
            #[trigger] owners(counts)[i] <= #[trigger] owners(counts)[j] by {
            if i < owners(front).len() {
                lemma_owner_range(front, i);
            }
            if j < owners(front).len() {
                assert(owners(front)[i] <= owners(front)[j]);
            }
        }
    }
}

proof fn lemma_joined_push<T>(lists: Seq<Seq<T>>, at: int, item: T)
    requires
        0 <= at < lists.len(),
        forall|i: int| at < i < lists.len() ==> (#[trigger] lists[i]).len() == 0,
    ensures
        joined(lists.update(at, lists[at].push(item))) == joined(lists).push(item),
    decreases lists.len(),
{
    let more = lists.update(at, lists[at].push(item));
    let last = lists.len() - 1;
    if at < last {
        lemma_joined_push(lists.drop_last(), at, item);
        assert(more.drop_last() =~= lists.drop_last().update(at, lists[at].push(item)));
        assert(lists[last].len() == 0);
        assert(joined(more) =~= joined(more.drop_last()));
        assert(joined(lists) =~= joined(lists.drop_last()));
    } else {
        assert(more.drop_last() =~= lists.drop_last());
        assert(joined(more) =~= joined(lists).push(item));
    }
}

proof fn lemma_joined_empty<T>(lists: Seq<Seq<T>>)
    requires
        forall|i: int| 0 <= i < lists.len() ==> (#[trigger] lists[i]).len() == 0,
    ensures
        joined(lists) == Seq::<T>::empty(),
    decreases lists.len(),
{
    if lists.len() > 0 {
        lemma_joined_empty(lists.drop_last());
        assert(lists[lists.len() - 1].len() == 0);
        assert(joined(lists) =~= Seq::<T>::empty());
    }
}

/// No child is lost, added or moved: the lists of the children of each parent, one
/// after the other, are all children in their order.
pub proof fn law_children_kept<T>(parents: nat, rows: Seq<(int, T)>)
    requires
        ordered(parents, rows),
    ensures
        joined(child_lists(parents, rows)) == unowned(rows),
    decreases rows.len(),
{
    let lists = child_lists(parents, rows);
    if rows.len() == 0 {
        lemma_joined_empty(lists);
        assert(unowned(rows) =~= Seq::<T>::empty());
    } else {
        let front = rows.drop_last();
        let at = rows.last().0;
        let item = rows.last().1;
        assert(rows[rows.len() - 1] == rows.last());
        law_children_kept(parents, front);
        let before = child_lists(parents, front);
        assert forall|p: int| at < p < before.len() implies (#[trigger] before[p]).len() == 0 by {
            lemma_of_owner_subset(front, p);
            if before[p].len() > 0 {
                let child = of_owner(front, p)[0];
                let i = choose|i: int| 0 <= i < front.len() && #[trigger] front[i] == (p, child);
                assert(rows[i] == (p, child));
                assert(rows[i].0 <= rows[rows.len() - 1].0);
            }
        }
        lemma_joined_push(before, at, item);
        assert(lists =~= before.update(at, before[at].push(item)));
        assert(unowned(rows) =~= unowned(front).push(item));
    }
}

/// A child that is appended is the last child of its parent, and the children of
/// the other parents stay as they are.
pub proof fn law_child_appended<T>(rows: Seq<(int, T)>, parent: int, item: T)
    ensures
        of_owner(rows.push((parent, item)), parent) == of_owner(rows, parent).push(item),
        forall|other: int|
            other != parent ==> #[trigger] of_owner(rows.push((parent, item)), other) == of_owner(
                rows,
                other,
            ),
{
    assert(rows.push((parent, item)).drop_last() =~= rows);
}

/// Children of the same parents that agree in one field agree in it parent by parent.
pub proof fn lemma_of_owner_field(
    rows: Seq<(int, Cell)>,
    others: Seq<(int, Cell)>,
    owner: int,
    field: int,
)
    requires
        rows.len() == others.len(),
        forall|i: int| #![trigger rows[i]]
            0 <= i < rows.len() ==> {
                &&& rows[i].0 == others[i].0
                &&& rows[i].1->Struct_0[field] == others[i].1->Struct_0[field]
            },
    ensures
        field_cells(of_owner(rows, owner), field) == field_cells(of_owner(others, owner), field),
    decreases rows.len(),
{
    if rows.len() > 0 {
        let front = rows.drop_last();
        let others_front = others.drop_last();
        assert forall|i: int| #![trigger front[i]] 0 <= i < front.len() implies {
            &&& front[i].0 == others_front[i].0
            &&& front[i].1->Struct_0[field] == others_front[i].1->Struct_0[field]
        } by {
            assert(rows[i].0 == others[i].0);
        }
        lemma_of_owner_field(front, others_front, owner, field);
        assert(rows[rows.len() - 1].0 == others[rows.len() - 1].0);
        let some = field_cells(of_owner(front, owner), field);
        let other = field_cells(of_owner(others_front, owner), field);
        if rows.last().0 == owner {
            assert(field_cells(of_owner(rows, owner), field) =~= some.push(
                rows.last().1->Struct_0[field],
            ));
            assert(field_cells(of_owner(others, owner), field) =~= other.push(
                others.last().1->Struct_0[field],
            ));
        }
    }
}

/// Where lists are stored without gaps, the offset of a list is the number of the
/// items of the earlier lists, and the last offset is the number of all items.
pub proof fn law_offsets_count_items(layout: Layout, lists: Seq<Cell>, i: int)
    requires
        lists_packed(layout, lists),
        0 <= i <= lists.len(),
    ensures
        layout->offsets[i] == list_items(lists.take(i)),
    decreases i,
{
    if i > 0 {
        law_offsets_count_items(layout, lists, i - 1);
        assert(lists.take(i).drop_last() =~= lists.take(i - 1));
        assert(lists.take(i).last() == lists[i - 1]);
    }
}

/// Builds list offsets from the number of items of each list.
///
/// Lists of 2, 0 and 1 items have the offsets 0, 2, 2 and 3.
pub fn offsets_from_counts(counts: &[i32]) -> (r: Vec<i32>)
    requires
        counts_valid(counts@),
        children(counts@) <= i32::MAX,
    ensures
        r@.len() == counts@.len() + 1,
        forall|i: int| 0 <= i < r@.len() ==> #[trigger] r@[i] == children_before(counts@, i),
        r@[0] == 0,
        r@.last() == children(counts@),
        forall|i: int, j: int| 0 <= i <= j < r@.len() ==> r@[i] <= r@[j],
{
    let mut offsets: Vec<i32> = Vec::new();
    let mut total: i32 = 0;
    offsets.push(total);
    let mut k: usize = 0;
    while k < counts.len()
        invariant
            k <= counts@.len(),
            counts_valid(counts@),
            children(counts@) <= i32::MAX,
            total == children_before(counts@, k as int),
            offsets@.len() == k + 1,
            forall|i: int|
                0 <= i < offsets@.len() ==> #[trigger] offsets@[i] == children_before(counts@, i),
        decreases counts@.len() - k,
    {
        proof {
            lemma_before_monotone(counts@, k as int, k + 1);
            lemma_before_monotone(counts@, k + 1, counts@.len() as int);
        }
        total = total + counts[k];
        offsets.push(total);
        k = k + 1;
    }
    proof {
        assert forall|i: int, j: int| 0 <= i <= j < offsets@.len() implies offsets@[i]
            <= offsets@[j] by {
            lemma_before_monotone(counts@, i, j);
        }
    }
    offsets
}

} // verus!
