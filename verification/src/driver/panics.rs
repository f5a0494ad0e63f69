//! Panics on demand.

use crate::option_map::same_text;
use vstd::prelude::*;

verus! {

/// The message to panic with in the function `fnname`, if it is the one that is
/// asked to panic: the given message, or one that names the function.
pub fn maybe_panic(
    fnname: &str,
    func: Option<String>,
    message: Option<String>,
) -> (r: Option<String>)
    ensures
        match r {
            Some(text) => {
                &&& func matches Some(asked) && asked@ == fnname@
                &&& text@ == match message {
                    Some(given) => given@,
                    None => "We panicked in "@ + fnname@ + "!"@,
                }
            },
            None => func matches Some(asked) ==> asked@ != fnname@,
        },
{
    match func {
        Some(asked) => {
            if same_text(fnname, asked.as_str()) {
                match message {
                    Some(given) => Some(given),
                    None => {
                        let mut text = "We panicked in ".to_string();
                        text.append(fnname);
                        text.append("!");
                        Some(text)
                    },
                }
            } else {
                None
            }
        },
        None => None,
    }
}

} // verus!
