//! What the operations of the library do, stated of their calls.
//!
//! Each law takes the arguments of calls and what the calls gave, and says what the
//! results hold of the arguments: value by value, or how the results of two calls
//! relate. In a law about a call that takes a mutable reference, `old` of the
//! reference is what it referred to before the call, and `final` what it referred to
//! in the end; `old` of a reference that a call gave is what the call left there.

use crate::dense::occurrences;
use crate::groups::of_owner;
use crate::model::{list_len, lists_packed, Cell, Layout};
use vstd::prelude::*;

pub mod driver;
pub mod info;
pub mod objects;
pub mod options;
pub mod statistics;

verus! {

/// The value that a text is in a result set, where a missing text is null.
pub open spec fn written(value: Option<Seq<char>>) -> Cell {
    match value {
        Some(s) => Cell::Utf8(s),
        None => Cell::Null,
    }
}

/// The characters of a string that may be missing.
pub open spec fn string_chars(value: Option<String>) -> Option<Seq<char>> {
    match value {
        Some(s) => Some(s@),
        None => None,
    }
}

/// The characters of a name that may be missing.
pub open spec fn name_chars(value: Option<&str>) -> Option<Seq<char>> {
    match value {
        Some(s) => Some(s@),
        None => None,
    }
}

/// A text is written as it is, whatever it holds, and only a missing one is null; and
/// strings and names are written by their characters.
pub proof fn law_texts_are_written(text: Seq<char>, string: String, name: &str)
    ensures
        written(Some(text)) == Cell::Utf8(text),
        written(None) == Cell::Null,
        written(string_chars(Some(string))) == Cell::Utf8(string@),
        written(string_chars(None)) == Cell::Null,
        written(name_chars(Some(name))) == Cell::Utf8(name@),
        written(name_chars(None)) == Cell::Null,
{
}

/// How many of the first `n` children have this parent.
pub open spec fn siblings_before<T>(rows: Seq<(int, T)>, parent: int, n: int) -> int
    decreases n,
{
    if n <= 0 {
        0
    } else {
        siblings_before(rows, parent, n - 1) + if rows[n - 1].0 == parent {
            1int
        } else {
            0
        }
    }
}

/// The place of a child among the children of its parent.
pub open spec fn place<T>(rows: Seq<(int, T)>, i: int) -> int {
    siblings_before(rows, rows[i].0, i)
}

/// How many children a parent has.
pub open spec fn child_count<T>(rows: Seq<(int, T)>, parent: int) -> int {
    siblings_before(rows, parent, rows.len() as int)
}

/// The first child of a parent stands at place 0; a child that is appended stands
/// behind all children that its parent had, and is one more of them; it moves no other
/// child, and is none of another parent.
pub proof fn law_places<T>(rows: Seq<(int, T)>, row: (int, T), i: int, other: int)
    requires
        0 <= i < rows.len(),
        other != row.0,
    ensures
        child_count(Seq::<(int, T)>::empty(), other) == 0,
        place(rows.push(row), rows.len() as int) == child_count(rows, row.0),
        place(rows.push(row), i) == place(rows, i),
        child_count(rows.push(row), row.0) == child_count(rows, row.0) + 1,
        child_count(rows.push(row), other) == child_count(rows, other),
{
    let more = rows.push(row);
    lemma_siblings_prefix(rows, more, row.0, rows.len() as int);
    lemma_siblings_prefix(rows, more, other, rows.len() as int);
    lemma_siblings_prefix(rows, more, rows[i].0, i);
}

/// How many of the first `n` type ids are this one.
pub open spec fn same_before(ids: Seq<i8>, id: i8, n: int) -> int
    decreases n,
{
    if n <= 0 {
        0
    } else {
        same_before(ids, id, n - 1) + if ids[n - 1] == id {
            1int
        } else {
            0
        }
    }
}

/// Counting type ids from the front and from the back comes to the same.
pub(crate) proof fn lemma_same_before(ids: Seq<i8>, id: i8, n: int)
    requires
        0 <= n <= ids.len(),
    ensures
        same_before(ids, id, n) == occurrences(ids.take(n), id as int),
    decreases n,
{
    if n > 0 {
        lemma_same_before(ids, id, n - 1);
        assert(ids.take(n).drop_last() =~= ids.take(n - 1));
        assert(ids.take(n).last() == ids[n - 1]);
    }
}

/// How many children each of these parents has.
pub open spec fn child_counts<T>(rows: Seq<(int, T)>, parents: nat) -> Seq<int> {
    Seq::new(parents, |p: int| child_count(rows, p))
}

/// No children for any of these parents.
pub open spec fn no_children(parents: nat) -> Seq<int> {
    Seq::new(parents, |p: int| 0int)
}

/// Whether an array stores lists of these lengths one after the other, from the first
/// item on and without gaps.
pub open spec fn lengths_stored(layout: Layout, lengths: Seq<int>) -> bool {
    &&& layout is List
    &&& layout->offsets.len() == lengths.len() + 1
    &&& layout->offsets[0] == 0
    &&& forall|i: int|
        0 <= i < lengths.len() ==> layout->offsets[i + 1] - layout->offsets[i]
            == #[trigger] lengths[i]
}

/// Lists that are stored without gaps are stored with their lengths.
pub(crate) proof fn lemma_lengths(layout: Layout, lists: Seq<Cell>, lengths: Seq<int>)
    requires
        lists_packed(layout, lists),
        lists.len() == lengths.len(),
        forall|i: int| 0 <= i < lists.len() ==> #[trigger] list_len(lists[i]) == lengths[i],
    ensures
        lengths_stored(layout, lengths),
{
    assert forall|i: int| 0 <= i < lengths.len() implies layout->offsets[i + 1]
        - layout->offsets[i] == #[trigger] lengths[i] by {
        assert(list_len(lists[i]) == lengths[i]);
    }
}

proof fn lemma_siblings_prefix<T>(rows: Seq<(int, T)>, more: Seq<(int, T)>, parent: int, n: int)
    requires
        n <= rows.len(),
        n <= more.len(),
        forall|i: int| 0 <= i < n ==> rows[i] == more[i],
    ensures
        siblings_before(rows, parent, n) == siblings_before(more, parent, n),
    decreases n,
{
    if n > 0 {
        lemma_siblings_prefix(rows, more, parent, n - 1);
    }
}

/// Children picked out by parent are as many as the parent has.
pub(crate) proof fn lemma_child_count<T>(rows: Seq<(int, T)>, parent: int)
    ensures
        of_owner(rows, parent).len() == child_count(rows, parent),
    decreases rows.len(),
{
    if rows.len() > 0 {
        let front = rows.drop_last();
        lemma_child_count(front, parent);
        lemma_siblings_prefix(front, rows, parent, front.len() as int);
    }
}

/// A child picked out by parent stands at its place.
pub(crate) proof fn lemma_place<T>(rows: Seq<(int, T)>, i: int)
    requires
        0 <= i < rows.len(),
    ensures
        0 <= place(rows, i) < of_owner(rows, rows[i].0).len(),
        of_owner(rows, rows[i].0)[place(rows, i)] == rows[i].1,
    decreases rows.len(),
{
    let front = rows.drop_last();
    let parent = rows[i].0;
    lemma_child_count(front, parent);
    if i < rows.len() - 1 {
        lemma_place(front, i);
        lemma_siblings_prefix(front, rows, parent, i);
    } else {
        lemma_siblings_prefix(front, rows, parent, i);
    }
}

/// Places and counts go by the parents alone.
pub(crate) proof fn lemma_same_parents<T, U>(
    rows: Seq<(int, T)>,
    others: Seq<(int, U)>,
    parent: int,
    n: int,
)
    requires
        n <= rows.len(),
        n <= others.len(),
        forall|i: int| #![trigger rows[i]] #![trigger others[i]]
            0 <= i < n ==> rows[i].0 == others[i].0,
    ensures
        siblings_before(rows, parent, n) == siblings_before(others, parent, n),
    decreases n,
{
    if n > 0 {
        lemma_same_parents(rows, others, parent, n - 1);
        assert(rows[n - 1].0 == others[n - 1].0);
    }
}

} // verus!
