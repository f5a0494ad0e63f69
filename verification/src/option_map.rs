//! The options that a database, a connection or a statement holds.

use crate::error::{Error, Result, Status};
use crate::options::{KeyModel, OptionKey, OptionValue};
use vstd::prelude::*;

verus! {

/// Options by name. No name occurs twice.
pub struct OptionMap<K> {
    entries: Vec<(K, OptionValue)>,
}

/// The text that `Debug` gives for a string, in quotes and with escapes.
pub uninterp spec fn debug_str(text: Seq<char>) -> Seq<char>;

/// `format!` with `{:?}` on a string: its `Debug` text.
#[verifier::external_body]
fn format_debug(text: &String) -> (r: String)
    ensures
        r@ == debug_str(text@),
{
    format!("{:?}", text)
}

/// The text that `Debug` gives for an option.
pub open spec fn debug_key(key: KeyModel) -> Seq<char> {
    match key.other {
        Some(other) => key.variant + "("@ + debug_str(other) + ")"@,
        None => key.variant,
    }
}

/// The message about an option that is not set.
pub open spec fn unrecognized(kind: Seq<char>, key: KeyModel) -> Seq<char> {
    "Unrecognized "@ + kind + " option: "@ + debug_key(key)
}

/// The message about an option whose value is of another type.
pub open spec fn incorrect(kind: Seq<char>, key: KeyModel) -> Seq<char> {
    "Incorrect value for "@ + kind + " option: "@ + debug_key(key)
}

/// Whether two texts are equal.
pub fn same_text(a: &str, b: &str) -> (r: bool)
    ensures
        r == (a@ == b@),
{
    a.to_string() == b.to_string()
}

/// Whether two options are the same.
fn same_key<K: OptionKey>(a: &K, b: &K) -> (r: bool)
    ensures
        r == (a.key() == b.key()),
{
    if !same_text(a.variant(), b.variant()) {
        return false;
    }
    match (a.other(), b.other()) {
        (Some(x), Some(y)) => same_text(x.as_str(), y.as_str()),
        (None, None) => true,
        _ => false,
    }
}

/// The text that `Debug` gives for an option.
fn format_key<K: OptionKey>(key: &K) -> (r: String)
    ensures
        r@ == debug_key(key.key()),
{
    let mut r = key.variant().to_string();
    match key.other() {
        Some(other) => {
            r.append("(");
            r.append(format_debug(other).as_str());
            r.append(")");
        },
        None => {},
    }
    r
}

/// The error for an option that is not set.
fn unrecognized_error<K: OptionKey>(kind: &str, key: &K) -> (r: Error)
    ensures
        r.says(unrecognized(kind@, key.key()), Status::NotFound),
{
    let mut message = "Unrecognized ".to_string();
    message.append(kind);
    message.append(" option: ");
    message.append(format_key(key).as_str());
    Error::with_message_and_status(message, Status::NotFound)
}

/// The error for an option whose value is of another type.
fn incorrect_error<K: OptionKey>(kind: &str, key: &K) -> (r: Error)
    ensures
        r.says(incorrect(kind@, key.key()), Status::InvalidData),
{
    let mut message = "Incorrect value for ".to_string();
    message.append(kind);
    message.append(" option: ");
    message.append(format_key(key).as_str());
    Error::with_message_and_status(message, Status::InvalidData)
}

impl<K: OptionKey> OptionMap<K> {
    /// Whether an entry is about this option.
    spec fn holds(&self, i: int, key: KeyModel) -> bool {
        0 <= i < self.entries@.len() && self.entries@[i].0.key() == key
    }

    /// Whether no option occurs twice.
    pub closed spec fn wf(&self) -> bool {
        forall|i: int, j: int|
            0 <= i < j < self.entries@.len() ==> (#[trigger] self.entries@[i]).0.key() != (
            #[trigger] self.entries@[j]).0.key()
    }

    /// An entry gives the value of its option.
    proof fn lemma_holds(&self, i: int, key: KeyModel)
        requires
            self.wf(),
            self.holds(i, key),
        ensures
            self@.contains_key(key),
            self@[key] == self.entries@[i].1,
    {
        let j = choose|j: int| self.holds(j, key);
        assert(self.holds(j, key));
        assert(i == j);
    }

    /// Entries about other options that stay where they are give the same values.
    proof fn lemma_other_keys(&self, before: &Self, name: KeyModel)
        requires
            self.wf(),
            before.wf(),
            forall|j: int, k: KeyModel|
                k != name ==> (#[trigger] self.holds(j, k) <==> before.holds(j, k)),
            forall|j: int|
                0 <= j < before.entries@.len() && before.entries@[j].0.key() != name
                    ==> self.entries@[j] == #[trigger] before.entries@[j],
        ensures
            forall|k: KeyModel| #![trigger self@.contains_key(k)]
                k != name ==> {
                    &&& self@.contains_key(k) <==> before@.contains_key(k)
                    &&& self@.contains_key(k) ==> self@[k] == before@[k]
                },
    {
        assert forall|k: KeyModel| #![trigger self@.contains_key(k)] k != name implies {
            &&& self@.contains_key(k) <==> before@.contains_key(k)
            &&& self@.contains_key(k) ==> self@[k] == before@[k]
        } by {
            if self@.contains_key(k) {
                let j = choose|j: int| self.holds(j, k);
                self.lemma_holds(j, k);
                before.lemma_holds(j, k);
            } else if before@.contains_key(k) {
                let j = choose|j: int| before.holds(j, k);
                assert(self.holds(j, k));
            }
        }
    }

    /// No options.
    pub fn new() -> (r: Self)
        ensures
            r.wf(),
            r@ == Map::<KeyModel, OptionValue>::empty(),
    {
        let r = OptionMap { entries: Vec::new() };
        assert(r@ =~= Map::<KeyModel, OptionValue>::empty());
        r
    }

    /// Where the entry about an option is.
    fn find(&self, key: &K) -> (r: Option<usize>)
        requires
            self.wf(),
        ensures
            match r {
                Some(i) => {
                    &&& self.holds(i as int, key.key())
                    &&& self@.contains_key(key.key())
                    &&& self@[key.key()] == self.entries@[i as int].1
                },
                None => !self@.contains_key(key.key()),
            },
    {
        let mut k: usize = 0;
        while k < self.entries.len()
            invariant
                k <= self.entries@.len(),
                self.wf(),
                forall|i: int| 0 <= i < k ==> !self.holds(i, key.key()),
            decreases self.entries@.len() - k,
        {
            if same_key(&self.entries[k].0, key) {
                proof {
                    self.lemma_holds(k as int, key.key());
                }
                return Some(k);
            }
            k = k + 1;
        }
        None
    }

    /// The value of an option.
    pub fn get(&self, key: &K) -> (r: Option<&OptionValue>)
        requires
            self.wf(),
        ensures
            match r {
                Some(value) => self@.contains_key(key.key()) && self@[key.key()] == *value,
                None => !self@.contains_key(key.key()),
            },
    {
        match self.find(key) {
            Some(i) => Some(&self.entries[i].1),
            None => None,
        }
    }

    /// Sets the value of an option.
    pub fn insert(&mut self, key: K, value: OptionValue)
        requires
            old(self).wf(),
        ensures
            final(self).wf(),
            final(self)@ == old(self)@.insert(key.key(), value),
    {
        let ghost name = key.key();
        match self.find(&key) {
            Some(i) => {
                self.entries.set(i, (key, value));
                proof {
                    assert(self.wf());
                    self.lemma_holds(i as int, name);
                    self.lemma_other_keys(old(self), name);
                    assert(self@ =~= old(self)@.insert(name, value));
                }
            },
            None => {
                proof {
                    assert forall|j: int| 0 <= j < self.entries@.len() implies (
                    #[trigger] self.entries@[j]).0.key() != name by {
                        assert(!self.holds(j, name));
                    }
                }
                self.entries.push((key, value));
                proof {
                    assert(self.wf());
                    self.lemma_holds(old(self).entries@.len() as int, name);
                    self.lemma_other_keys(old(self), name);
                    assert(self@ =~= old(self)@.insert(name, value));
                }
            },
        }
    }
}

impl<K: OptionKey> View for OptionMap<K> {
    type V = Map<KeyModel, OptionValue>;

    closed spec fn view(&self) -> Map<KeyModel, OptionValue> {
        Map::new(
            |key: KeyModel| exists|i: int| self.holds(i, key),
            |key: KeyModel| self.entries@[choose|i: int| self.holds(i, key)].1,
        )
    }
}

/// Sets the value of an option.
pub fn set_option<K: OptionKey>(
    options: &mut OptionMap<K>,
    key: K,
    value: OptionValue,
) -> (r: Result<()>)
    requires
        old(options).wf(),
    ensures
        r is Ok,
        final(options).wf(),
        final(options)@ == old(options)@.insert(key.key(), value),
{
    options.insert(key, value);
    Ok(())
}

/// The options after these are set, one after the other.
pub open spec fn with_options<K: OptionKey>(
    options: Map<KeyModel, OptionValue>,
    opts: Seq<(K, OptionValue)>,
) -> Map<KeyModel, OptionValue>
    decreases opts.len(),
{
    if opts.len() == 0 {
        options
    } else {
        with_options(options, opts.drop_last()).insert(opts.last().0.key(), opts.last().1)
    }
}

/// What reading an option as a byte string gives.
pub open spec fn reads_bytes(
    options: Map<KeyModel, OptionValue>,
    key: KeyModel,
    kind: Seq<char>,
    r: Result<Vec<u8>>,
) -> bool {
    if !options.contains_key(key) {
        r matches Err(error) && error.says(unrecognized(kind, key), Status::NotFound)
    } else {
        match options[key] {
            OptionValue::Bytes(value) => r matches Ok(bytes) && bytes@ == value@,
            _ => r matches Err(error) && error.says(incorrect(kind, key), Status::InvalidData),
        }
    }
}

/// What reading an option as a double-precision number gives.
pub open spec fn reads_double(
    options: Map<KeyModel, OptionValue>,
    key: KeyModel,
    kind: Seq<char>,
    r: Result<u64>,
) -> bool {
    if !options.contains_key(key) {
        r matches Err(error) && error.says(unrecognized(kind, key), Status::NotFound)
    } else {
        match options[key] {
            OptionValue::Double(value) => r == Ok::<u64, Error>(value),
            _ => r matches Err(error) && error.says(incorrect(kind, key), Status::InvalidData),
        }
    }
}

/// What reading an option as an integer gives.
pub open spec fn reads_int(
    options: Map<KeyModel, OptionValue>,
    key: KeyModel,
    kind: Seq<char>,
    r: Result<i64>,
) -> bool {
    if !options.contains_key(key) {
        r matches Err(error) && error.says(unrecognized(kind, key), Status::NotFound)
    } else {
        match options[key] {
            OptionValue::Int(value) => r == Ok::<i64, Error>(value),
            _ => r matches Err(error) && error.says(incorrect(kind, key), Status::InvalidData),
        }
    }
}

/// What reading an option as a text gives.
pub open spec fn reads_string(
    options: Map<KeyModel, OptionValue>,
    key: KeyModel,
    kind: Seq<char>,
    r: Result<String>,
) -> bool {
    if !options.contains_key(key) {
        r matches Err(error) && error.says(unrecognized(kind, key), Status::NotFound)
    } else {
        match options[key] {
            OptionValue::String(value) => r matches Ok(s) && s@ == value@,
            _ => r matches Err(error) && error.says(incorrect(kind, key), Status::InvalidData),
        }
    }
}

/// Reads an option as a byte string.
pub fn get_option_bytes<K: OptionKey>(options: &OptionMap<K>, key: K, kind: &str) -> (r: Result<
    Vec<u8>,
>)
    requires
        options.wf(),
    ensures
        reads_bytes(options@, key.key(), kind@, r),
{
    match options.get(&key) {
        None => Err(unrecognized_error(kind, &key)),
        Some(value) => match value {
            OptionValue::Bytes(value) => Ok(value.clone()),
            _ => Err(incorrect_error(kind, &key)),
        },
    }
}

/// Reads an option as the bits of a double-precision number.
pub fn get_option_double<K: OptionKey>(options: &OptionMap<K>, key: K, kind: &str) -> (r: Result<
    u64,
>)
    requires
        options.wf(),
    ensures
        reads_double(options@, key.key(), kind@, r),
{
    match options.get(&key) {
        None => Err(unrecognized_error(kind, &key)),
        Some(value) => match value {
            OptionValue::Double(value) => Ok(*value),
            _ => Err(incorrect_error(kind, &key)),
        },
    }
}

/// Reads an option as an integer.
pub fn get_option_int<K: OptionKey>(options: &OptionMap<K>, key: K, kind: &str) -> (r: Result<i64>)
    requires
        options.wf(),
    ensures
        reads_int(options@, key.key(), kind@, r),
{
    match options.get(&key) {
        None => Err(unrecognized_error(kind, &key)),
        Some(value) => match value {
            OptionValue::Int(value) => Ok(*value),
            _ => Err(incorrect_error(kind, &key)),
        },
    }
}

/// Reads an option as a text.
pub fn get_option_string<K: OptionKey>(options: &OptionMap<K>, key: K, kind: &str) -> (r: Result<
    String,
>)
    requires
        options.wf(),
    ensures
        reads_string(options@, key.key(), kind@, r),
{
    match options.get(&key) {
        None => Err(unrecognized_error(kind, &key)),
        Some(value) => match value {
            OptionValue::String(value) => Ok(value.clone()),
            _ => Err(incorrect_error(kind, &key)),
        },
    }
}

/// An option that was set to a text reads back as that text.
pub proof fn law_string_reads_back(
    options: Map<KeyModel, OptionValue>,
    key: KeyModel,
    value: String,
    kind: Seq<char>,
    r: Result<String>,
)
    requires
        reads_string(options.insert(key, OptionValue::String(value)), key, kind, r),
    ensures
        r matches Ok(s) && s@ == value@,
{
}

/// An option that was set to a byte string reads back as that byte string.
pub proof fn law_bytes_read_back(
    options: Map<KeyModel, OptionValue>,
    key: KeyModel,
    value: Vec<u8>,
    kind: Seq<char>,
    r: Result<Vec<u8>>,
)
    requires
        reads_bytes(options.insert(key, OptionValue::Bytes(value)), key, kind, r),
    ensures
        r matches Ok(bytes) && bytes@ == value@,
{
}

/// An option that was set to an integer reads back as that integer.
pub proof fn law_int_reads_back(
    options: Map<KeyModel, OptionValue>,
    key: KeyModel,
    value: i64,
    kind: Seq<char>,
    r: Result<i64>,
)
    requires
        reads_int(options.insert(key, OptionValue::Int(value)), key, kind, r),
    ensures
        r == Ok::<i64, Error>(value),
{
}

/// An option that was set to a double-precision number reads back as that number.
pub proof fn law_double_reads_back(
    options: Map<KeyModel, OptionValue>,
    key: KeyModel,
    value: u64,
    kind: Seq<char>,
    r: Result<u64>,
)
    requires
        reads_double(options.insert(key, OptionValue::Double(value)), key, kind, r),
    ensures
        r == Ok::<u64, Error>(value),
{
}

/// Setting an option changes nothing about what other options read as.
pub proof fn law_other_options_kept(
    options: Map<KeyModel, OptionValue>,
    key: KeyModel,
    value: OptionValue,
    other: KeyModel,
    kind: Seq<char>,
)
    requires
        other != key,
    ensures
        forall|r: Result<String>|
            reads_string(options.insert(key, value), other, kind, r) == #[trigger] reads_string(
                options,
                other,
                kind,
                r,
            ),
        forall|r: Result<Vec<u8>>|
            reads_bytes(options.insert(key, value), other, kind, r) == #[trigger] reads_bytes(
                options,
                other,
                kind,
                r,
            ),
        forall|r: Result<i64>|
            reads_int(options.insert(key, value), other, kind, r) == #[trigger] reads_int(
                options,
                other,
                kind,
                r,
            ),
        forall|r: Result<u64>|
            reads_double(options.insert(key, value), other, kind, r) == #[trigger] reads_double(
                options,
                other,
                kind,
                r,
            ),
{
}

/// Of several values that are set for one option, the last one counts, whatever is
/// set for other options.
pub proof fn law_last_value_counts<K: OptionKey>(
    options: Map<KeyModel, OptionValue>,
    opts: Seq<(K, OptionValue)>,
    i: int,
)
    requires
        0 <= i < opts.len(),
        forall|j: int| i < j < opts.len() ==> (#[trigger] opts[j]).0.key() != opts[i].0.key(),
    ensures
        with_options(options, opts).contains_key(opts[i].0.key()),
        with_options(options, opts)[opts[i].0.key()] == opts[i].1,
    decreases opts.len(),
{
    if i < opts.len() - 1 {
        let front = opts.drop_last();
        assert forall|j: int| i < j < front.len() implies (#[trigger] front[j]).0.key()
            != front[i].0.key() by {
            assert(front[j] == opts[j]);
        }
        law_last_value_counts(options, front, i);
        assert(opts[opts.len() - 1].0.key() != opts[i].0.key());
    }
}

/// An option that is not among those that are set keeps what it had.
pub proof fn law_unset_option_kept<K: OptionKey>(
    options: Map<KeyModel, OptionValue>,
    opts: Seq<(K, OptionValue)>,
    key: KeyModel,
)
    requires
        forall|j: int| 0 <= j < opts.len() ==> (#[trigger] opts[j]).0.key() != key,
    ensures
        with_options(options, opts).contains_key(key) == options.contains_key(key),
        options.contains_key(key) ==> with_options(options, opts)[key] == options[key],
    decreases opts.len(),
{
    if opts.len() > 0 {
        let front = opts.drop_last();
        assert forall|j: int| 0 <= j < front.len() implies (#[trigger] front[j]).0.key()
            != key by {
            assert(front[j] == opts[j]);
        }
        law_unset_option_kept(options, front, key);
        assert(opts[opts.len() - 1].0.key() != key);
    }
}

} // verus!
