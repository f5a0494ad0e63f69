//! Optional names.

use crate::model::text;
use vstd::prelude::*;

verus! {

/// The texts of these names.
pub open spec fn name_texts(names: Seq<Option<String>>) -> Seq<Option<Seq<char>>> {
    Seq::new(names.len(), |i: int| text(names[i]))
}

/// The text of an optional name.
pub open spec fn given(name: Option<&str>) -> Option<Seq<char>> {
    match name {
        Some(s) => Some(s@),
        None => None,
    }
}

/// The name as a string of its own.
pub(crate) fn own_name(name: Option<&str>) -> (r: Option<String>)
    ensures
        text(r) == given(name),
{
    match name {
        Some(s) => Some(s.to_string()),
        None => None,
    }
}

/// The same text.
pub(crate) fn copy_text(value: &Option<String>) -> (r: Option<String>)
    ensures
        text(r) == text(*value),
{
    match value {
        Some(s) => Some(s.clone()),
        None => None,
    }
}

} // verus!
