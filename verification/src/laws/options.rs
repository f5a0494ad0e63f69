//! What setting and reading options does.

use crate::driver::connection::DummyConnection;
use crate::driver::database::DummyDatabase;
use crate::driver::statement::DummyStatement;
use crate::driver::DummyDriver;
use crate::error::{Error, Result, Status};
use crate::option_map::{
    debug_str, get_option_bytes, get_option_double, get_option_int, get_option_string,
    law_last_value_counts, law_unset_option_kept, set_option, OptionMap,
};
use crate::options::{
    law_connection_options_differ, law_database_options_differ, law_statement_options_differ,
    KeyModel, OptionConnection, OptionDatabase, OptionKey, OptionStatement, OptionValue,
};
use vstd::prelude::*;

verus! {

/// Whether an error says this, with nothing beyond it.
pub open spec fn plain_error(error: Error, status: Status, message: Seq<char>) -> bool {
    &&& error.status == status
    &&& error.message@ == message
    &&& error.vendor_code == 0
    &&& error.sqlstate@.len() == 5
    &&& forall|i: int| 0 <= i < 5 ==> #[trigger] error.sqlstate@[i] == 0
    &&& error.details is None
}

/// Whether this is what reading an option as a byte string gives, where the option has this
/// value or none: the value where it is a byte string, and an error of the status that fits
/// otherwise.
pub open spec fn answers_bytes(
    set: Option<OptionValue>,
    kind: Seq<char>,
    name: Seq<char>,
    r: Result<Vec<u8>>,
) -> bool {
    match set {
        None => r matches Err(error) && plain_error(
            error,
            Status::NotFound,
            "Unrecognized "@ + kind + " option: "@ + name,
        ),
        Some(OptionValue::Bytes(value)) => r matches Ok(ok) && ok@ == value@,
        Some(_) => r matches Err(error) && plain_error(
            error,
            Status::InvalidData,
            "Incorrect value for "@ + kind + " option: "@ + name,
        ),
    }
}

/// Whether this is what reading an option as a double-precision number gives, where the option has this
/// value or none: the value where it is a double-precision number, and an error of the status that fits
/// otherwise.
pub open spec fn answers_double(
    set: Option<OptionValue>,
    kind: Seq<char>,
    name: Seq<char>,
    r: Result<u64>,
) -> bool {
    match set {
        None => r matches Err(error) && plain_error(
            error,
            Status::NotFound,
            "Unrecognized "@ + kind + " option: "@ + name,
        ),
        Some(OptionValue::Double(value)) => r matches Ok(ok) && ok == value,
        Some(_) => r matches Err(error) && plain_error(
            error,
            Status::InvalidData,
            "Incorrect value for "@ + kind + " option: "@ + name,
        ),
    }
}

/// Whether this is what reading an option as an integer gives, where the option has this
/// value or none: the value where it is an integer, and an error of the status that fits
/// otherwise.
pub open spec fn answers_int(
    set: Option<OptionValue>,
    kind: Seq<char>,
    name: Seq<char>,
    r: Result<i64>,
) -> bool {
    match set {
        None => r matches Err(error) && plain_error(
            error,
            Status::NotFound,
            "Unrecognized "@ + kind + " option: "@ + name,
        ),
        Some(OptionValue::Int(value)) => r matches Ok(ok) && ok == value,
        Some(_) => r matches Err(error) && plain_error(
            error,
            Status::InvalidData,
            "Incorrect value for "@ + kind + " option: "@ + name,
        ),
    }
}

/// Whether this is what reading an option as a text gives, where the option has this
/// value or none: the value where it is a text, and an error of the status that fits
/// otherwise.
pub open spec fn answers_string(
    set: Option<OptionValue>,
    kind: Seq<char>,
    name: Seq<char>,
    r: Result<String>,
) -> bool {
    match set {
        None => r matches Err(error) && plain_error(
            error,
            Status::NotFound,
            "Unrecognized "@ + kind + " option: "@ + name,
        ),
        Some(OptionValue::String(value)) => r matches Ok(ok) && ok@ == value@,
        Some(_) => r matches Err(error) && plain_error(
            error,
            Status::InvalidData,
            "Incorrect value for "@ + kind + " option: "@ + name,
        ),
    }
}

/// The value that an option has, if any.
pub open spec fn value_of(options: Map<KeyModel, OptionValue>, key: KeyModel) -> Option<
    OptionValue,
> {
    if options.contains_key(key) {
        Some(options[key])
    } else {
        None
    }
}

/// The text of an option in messages.
pub open spec fn key_text(key: KeyModel) -> Seq<char> {
    match key.other {
        None => key.variant,
        Some(other) => key.variant + "("@ + debug_str(other) + ")"@,
    }
}

/// Reading an option as a byte string succeeds just where the option is set to a byte string,
/// and then gives it.
pub proof fn law_get_option_bytes<K: OptionKey>(
    options: &OptionMap<K>,
    key: K,
    kind: &str,
    r: Result<Vec<u8>>,
)
    requires
        call_ensures(get_option_bytes::<K>, (options, key, kind), r),
    ensures
        r is Ok <==> options@.contains_key(key.key()) && options@[key.key()] is Bytes,
        r is Ok ==> r->Ok_0@ == options@[key.key()]->Bytes_0@,
        r is Err && !options@.contains_key(key.key()) ==> r->Err_0.status == Status::NotFound,
        r is Err && options@.contains_key(key.key()) ==> r->Err_0.status
            == Status::InvalidData,
        answers_bytes(value_of(options@, key.key()), kind@, key_text(key.key()), r),
{
}

/// Reading an option as a double-precision number succeeds just where the option is set to a double-precision number,
/// and then gives it.
pub proof fn law_get_option_double<K: OptionKey>(
    options: &OptionMap<K>,
    key: K,
    kind: &str,
    r: Result<u64>,
)
    requires
        call_ensures(get_option_double::<K>, (options, key, kind), r),
    ensures
        r is Ok <==> options@.contains_key(key.key()) && options@[key.key()] is Double,
        r is Ok ==> r->Ok_0 == options@[key.key()]->Double_0,
        r is Err && !options@.contains_key(key.key()) ==> r->Err_0.status == Status::NotFound,
        r is Err && options@.contains_key(key.key()) ==> r->Err_0.status
            == Status::InvalidData,
        answers_double(value_of(options@, key.key()), kind@, key_text(key.key()), r),
{
}

/// Reading an option as an integer succeeds just where the option is set to an integer,
/// and then gives it.
pub proof fn law_get_option_int<K: OptionKey>(
    options: &OptionMap<K>,
    key: K,
    kind: &str,
    r: Result<i64>,
)
    requires
        call_ensures(get_option_int::<K>, (options, key, kind), r),
    ensures
        r is Ok <==> options@.contains_key(key.key()) && options@[key.key()] is Int,
        r is Ok ==> r->Ok_0 == options@[key.key()]->Int_0,
        r is Err && !options@.contains_key(key.key()) ==> r->Err_0.status == Status::NotFound,
        r is Err && options@.contains_key(key.key()) ==> r->Err_0.status
            == Status::InvalidData,
        answers_int(value_of(options@, key.key()), kind@, key_text(key.key()), r),
{
}

/// Reading an option as a text succeeds just where the option is set to a text,
/// and then gives it.
pub proof fn law_get_option_string<K: OptionKey>(
    options: &OptionMap<K>,
    key: K,
    kind: &str,
    r: Result<String>,
)
    requires
        call_ensures(get_option_string::<K>, (options, key, kind), r),
    ensures
        r is Ok <==> options@.contains_key(key.key()) && options@[key.key()] is String,
        r is Ok ==> r->Ok_0@ == options@[key.key()]->String_0@,
        r is Err && !options@.contains_key(key.key()) ==> r->Err_0.status == Status::NotFound,
        r is Err && options@.contains_key(key.key()) ==> r->Err_0.status
            == Status::InvalidData,
        answers_string(value_of(options@, key.key()), kind@, key_text(key.key()), r),
{
}

/// What is put into a map of options is found under its option, and only there: the
/// other options are found as before, and in a new map nothing is found.
pub proof fn law_map_finds_what_was_put<K: OptionKey>(
    options: &mut OptionMap<K>,
    key: K,
    value: OptionValue,
    asked: &K,
    found_before: Option<&OptionValue>,
    found: Option<&OptionValue>,
    empty: &OptionMap<K>,
    found_in_empty: Option<&OptionValue>,
)
    requires
        call_ensures(OptionMap::<K>::get, (&*old(options), asked), found_before),
        call_ensures(OptionMap::<K>::insert, (options, key, value), ()),
        call_ensures(OptionMap::<K>::get, (&*final(options), asked), found),
        call_ensures(OptionMap::<K>::new, (), *empty),
        call_ensures(OptionMap::<K>::get, (empty, asked), found_in_empty),
    ensures
        asked.key() == key.key() ==> found == Some(&value),
        asked.key() != key.key() ==> found == found_before,
        found_in_empty is None,
{
}

/// Setting an option gives it the value, and leaves the other options as they are.
pub proof fn law_set_option<K: OptionKey>(
    options: &mut OptionMap<K>,
    key: K,
    value: OptionValue,
    r: Result<()>,
    other: KeyModel,
)
    requires
        call_ensures(set_option::<K>, (options, key, value), r),
        other != key.key(),
    ensures
        r is Ok,
        final(options)@.contains_key(key.key()),
        final(options)@[key.key()] == value,
        final(options)@.contains_key(other) == old(options)@.contains_key(other),
        old(options)@.contains_key(other) ==> final(options)@[other] == old(options)@[other],
{
}

/// The name of an option of a database, as messages give it.
pub open spec fn database_option_name(key: OptionDatabase) -> Seq<char> {
    match key {
        OptionDatabase::Uri => "Uri"@,
        OptionDatabase::Username => "Username"@,
        OptionDatabase::Password => "Password"@,
        OptionDatabase::Other(other) => "Other("@ + debug_str(other@) + ")"@,
    }
}

/// Whether two options of a database are the same.
pub open spec fn same_database(a: OptionDatabase, b: OptionDatabase) -> bool {
    match (a, b) {
        (OptionDatabase::Uri, OptionDatabase::Uri) => true,
        (OptionDatabase::Username, OptionDatabase::Username) => true,
        (OptionDatabase::Password, OptionDatabase::Password) => true,
        (OptionDatabase::Other(x), OptionDatabase::Other(y)) => x@ == y@,
        _ => false,
    }
}

/// The text of an option of a database in messages is its name.
proof fn lemma_database_option_name(key: OptionDatabase)
    ensures
        key_text(key.key()) == database_option_name(key),
{
    reveal_strlit("Other");
    reveal_strlit("(");
    reveal_strlit("Other(");
    match key {
        OptionDatabase::Other(other) => {
            assert("Other"@ + "("@ =~= "Other("@);
        },
        _ => {},
    }
}

/// Reading an option of a database as a byte string succeeds just where the option is set to
/// a byte string, and then gives it; the errors name the option.
pub proof fn law_database_get_option_bytes(d: &DummyDatabase, key: OptionDatabase, r: Result<Vec<u8>>)
    requires
        call_ensures(DummyDatabase::get_option_bytes, (d, key), r),
    ensures
        r is Ok <==> d.options().contains_key(key.key()) && d.options()[key.key()] is Bytes,
        r is Ok ==> r->Ok_0@ == d.options()[key.key()]->Bytes_0@,
        r is Err && !d.options().contains_key(key.key()) ==> r->Err_0.status
            == Status::NotFound,
        r is Err && d.options().contains_key(key.key()) ==> r->Err_0.status
            == Status::InvalidData,
        answers_bytes(
            value_of(d.options(), key.key()),
            "database"@,
            database_option_name(key),
            r,
        ),
{
    lemma_database_option_name(key);
}

/// An option of a database that was set reads as a byte string just where it was set to a byte string,
/// and then as the one it was set to. What other options read as stays the same.
pub proof fn law_database_set_then_get_bytes(
    d: &mut DummyDatabase,
    key: OptionDatabase,
    value: OptionValue,
    done: Result<()>,
    asked: OptionDatabase,
    before: Result<Vec<u8>>,
    after: Result<Vec<u8>>,
)
    requires
        call_ensures(DummyDatabase::set_option, (d, key, value), done),
        call_ensures(DummyDatabase::get_option_bytes, (&*old(d), asked), before),
        call_ensures(DummyDatabase::get_option_bytes, (&*final(d), asked), after),
    ensures
        done is Ok,
        same_database(key, asked) ==> (after is Ok <==> value is Bytes),
        same_database(key, asked) && value is Bytes ==> after->Ok_0@ == value->Bytes_0@,
        same_database(key, asked) && !(value is Bytes) ==> after->Err_0.status
            == Status::InvalidData,
        same_database(key, asked) ==> answers_bytes(
            Some(value),
            "database"@,
            database_option_name(asked),
            after,
        ),
        !same_database(key, asked) ==> match (before, after) {
            (Ok(x), Ok(y)) => x@ == y@,
            (Err(x), Err(y)) => x.status == y.status && x.message@ == y.message@,
            _ => false,
        },
{
    law_database_options_differ(key, asked);
    lemma_database_option_name(asked);
}

/// Reading an option of a database as a double-precision number succeeds just where the option is set to
/// a double-precision number, and then gives it; the errors name the option.
pub proof fn law_database_get_option_double(d: &DummyDatabase, key: OptionDatabase, r: Result<u64>)
    requires
        call_ensures(DummyDatabase::get_option_double, (d, key), r),
    ensures
        r is Ok <==> d.options().contains_key(key.key()) && d.options()[key.key()] is Double,
        r is Ok ==> r->Ok_0 == d.options()[key.key()]->Double_0,
        r is Err && !d.options().contains_key(key.key()) ==> r->Err_0.status
            == Status::NotFound,
        r is Err && d.options().contains_key(key.key()) ==> r->Err_0.status
            == Status::InvalidData,
        answers_double(
            value_of(d.options(), key.key()),
            "database"@,
            database_option_name(key),
            r,
        ),
{
    lemma_database_option_name(key);
}

/// An option of a database that was set reads as a double-precision number just where it was set to a double-precision number,
/// and then as the one it was set to. What other options read as stays the same.
pub proof fn law_database_set_then_get_double(
    d: &mut DummyDatabase,
    key: OptionDatabase,
    value: OptionValue,
    done: Result<()>,
    asked: OptionDatabase,
    before: Result<u64>,
    after: Result<u64>,
)
    requires
        call_ensures(DummyDatabase::set_option, (d, key, value), done),
        call_ensures(DummyDatabase::get_option_double, (&*old(d), asked), before),
        call_ensures(DummyDatabase::get_option_double, (&*final(d), asked), after),
    ensures
        done is Ok,
        same_database(key, asked) ==> (after is Ok <==> value is Double),
        same_database(key, asked) && value is Double ==> after->Ok_0 == value->Double_0,
        same_database(key, asked) && !(value is Double) ==> after->Err_0.status
            == Status::InvalidData,
        same_database(key, asked) ==> answers_double(
            Some(value),
            "database"@,
            database_option_name(asked),
            after,
        ),
        !same_database(key, asked) ==> match (before, after) {
            (Ok(x), Ok(y)) => x == y,
            (Err(x), Err(y)) => x.status == y.status && x.message@ == y.message@,
            _ => false,
        },
{
    law_database_options_differ(key, asked);
    lemma_database_option_name(asked);
}

/// Reading an option of a database as an integer succeeds just where the option is set to
/// an integer, and then gives it; the errors name the option.
pub proof fn law_database_get_option_int(d: &DummyDatabase, key: OptionDatabase, r: Result<i64>)
    requires
        call_ensures(DummyDatabase::get_option_int, (d, key), r),
    ensures
        r is Ok <==> d.options().contains_key(key.key()) && d.options()[key.key()] is Int,
        r is Ok ==> r->Ok_0 == d.options()[key.key()]->Int_0,
        r is Err && !d.options().contains_key(key.key()) ==> r->Err_0.status
            == Status::NotFound,
        r is Err && d.options().contains_key(key.key()) ==> r->Err_0.status
            == Status::InvalidData,
        answers_int(
            value_of(d.options(), key.key()),
            "database"@,
            database_option_name(key),
            r,
        ),
{
    lemma_database_option_name(key);
}

/// An option of a database that was set reads as an integer just where it was set to an integer,
/// and then as the one it was set to. What other options read as stays the same.
pub proof fn law_database_set_then_get_int(
    d: &mut DummyDatabase,
    key: OptionDatabase,
    value: OptionValue,
    done: Result<()>,
    asked: OptionDatabase,
    before: Result<i64>,
    after: Result<i64>,
)
    requires
        call_ensures(DummyDatabase::set_option, (d, key, value), done),
        call_ensures(DummyDatabase::get_option_int, (&*old(d), asked), before),
        call_ensures(DummyDatabase::get_option_int, (&*final(d), asked), after),
    ensures
        done is Ok,
        same_database(key, asked) ==> (after is Ok <==> value is Int),
        same_database(key, asked) && value is Int ==> after->Ok_0 == value->Int_0,
        same_database(key, asked) && !(value is Int) ==> after->Err_0.status
            == Status::InvalidData,
        same_database(key, asked) ==> answers_int(
            Some(value),
            "database"@,
            database_option_name(asked),
            after,
        ),
        !same_database(key, asked) ==> match (before, after) {
            (Ok(x), Ok(y)) => x == y,
            (Err(x), Err(y)) => x.status == y.status && x.message@ == y.message@,
            _ => false,
        },
{
    law_database_options_differ(key, asked);
    lemma_database_option_name(asked);
}

/// Reading an option of a database as a text succeeds just where the option is set to
/// a text, and then gives it; the errors name the option.
pub proof fn law_database_get_option_string(d: &DummyDatabase, key: OptionDatabase, r: Result<String>)
    requires
        call_ensures(DummyDatabase::get_option_string, (d, key), r),
    ensures
        r is Ok <==> d.options().contains_key(key.key()) && d.options()[key.key()] is String,
        r is Ok ==> r->Ok_0@ == d.options()[key.key()]->String_0@,
        r is Err && !d.options().contains_key(key.key()) ==> r->Err_0.status
            == Status::NotFound,
        r is Err && d.options().contains_key(key.key()) ==> r->Err_0.status
            == Status::InvalidData,
        answers_string(
            value_of(d.options(), key.key()),
            "database"@,
            database_option_name(key),
            r,
        ),
{
    lemma_database_option_name(key);
}

/// An option of a database that was set reads as a text just where it was set to a text,
/// and then as the one it was set to. What other options read as stays the same.
pub proof fn law_database_set_then_get_string(
    d: &mut DummyDatabase,
    key: OptionDatabase,
    value: OptionValue,
    done: Result<()>,
    asked: OptionDatabase,
    before: Result<String>,
    after: Result<String>,
)
    requires
        call_ensures(DummyDatabase::set_option, (d, key, value), done),
        call_ensures(DummyDatabase::get_option_string, (&*old(d), asked), before),
        call_ensures(DummyDatabase::get_option_string, (&*final(d), asked), after),
    ensures
        done is Ok,
        same_database(key, asked) ==> (after is Ok <==> value is String),
        same_database(key, asked) && value is String ==> after->Ok_0@ == value->String_0@,
        same_database(key, asked) && !(value is String) ==> after->Err_0.status
            == Status::InvalidData,
        same_database(key, asked) ==> answers_string(
            Some(value),
            "database"@,
            database_option_name(asked),
            after,
        ),
        !same_database(key, asked) ==> match (before, after) {
            (Ok(x), Ok(y)) => x@ == y@,
            (Err(x), Err(y)) => x.status == y.status && x.message@ == y.message@,
            _ => false,
        },
{
    law_database_options_differ(key, asked);
    lemma_database_option_name(asked);
}

/// The name of an option of a connection, as messages give it.
pub open spec fn connection_option_name(key: OptionConnection) -> Seq<char> {
    match key {
        OptionConnection::AutoCommit => "AutoCommit"@,
        OptionConnection::ReadOnly => "ReadOnly"@,
        OptionConnection::CurrentCatalog => "CurrentCatalog"@,
        OptionConnection::CurrentSchema => "CurrentSchema"@,
        OptionConnection::IsolationLevel => "IsolationLevel"@,
        OptionConnection::Other(other) => "Other("@ + debug_str(other@) + ")"@,
    }
}

/// Whether two options of a connection are the same.
pub open spec fn same_connection(a: OptionConnection, b: OptionConnection) -> bool {
    match (a, b) {
        (OptionConnection::AutoCommit, OptionConnection::AutoCommit) => true,
        (OptionConnection::ReadOnly, OptionConnection::ReadOnly) => true,
        (OptionConnection::CurrentCatalog, OptionConnection::CurrentCatalog) => true,
        (OptionConnection::CurrentSchema, OptionConnection::CurrentSchema) => true,
        (OptionConnection::IsolationLevel, OptionConnection::IsolationLevel) => true,
        (OptionConnection::Other(x), OptionConnection::Other(y)) => x@ == y@,
        _ => false,
    }
}

/// The text of an option of a connection in messages is its name.
proof fn lemma_connection_option_name(key: OptionConnection)
    ensures
        key_text(key.key()) == connection_option_name(key),
{
    reveal_strlit("Other");
    reveal_strlit("(");
    reveal_strlit("Other(");
    match key {
        OptionConnection::Other(other) => {
            assert("Other"@ + "("@ =~= "Other("@);
        },
        _ => {},
    }
}

/// Reading an option of a connection as a byte string succeeds just where the option is set to
/// a byte string, and then gives it; the errors name the option.
pub proof fn law_connection_get_option_bytes(d: &DummyConnection, key: OptionConnection, r: Result<Vec<u8>>)
    requires
        call_ensures(DummyConnection::get_option_bytes, (d, key), r),
    ensures
        r is Ok <==> d.options().contains_key(key.key()) && d.options()[key.key()] is Bytes,
        r is Ok ==> r->Ok_0@ == d.options()[key.key()]->Bytes_0@,
        r is Err && !d.options().contains_key(key.key()) ==> r->Err_0.status
            == Status::NotFound,
        r is Err && d.options().contains_key(key.key()) ==> r->Err_0.status
            == Status::InvalidData,
        answers_bytes(
            value_of(d.options(), key.key()),
            "connection"@,
            connection_option_name(key),
            r,
        ),
{
    lemma_connection_option_name(key);
}

/// An option of a connection that was set reads as a byte string just where it was set to a byte string,
/// and then as the one it was set to. What other options read as stays the same.
pub proof fn law_connection_set_then_get_bytes(
    d: &mut DummyConnection,
    key: OptionConnection,
    value: OptionValue,
    done: Result<()>,
    asked: OptionConnection,
    before: Result<Vec<u8>>,
    after: Result<Vec<u8>>,
)
    requires
        call_ensures(DummyConnection::set_option, (d, key, value), done),
        call_ensures(DummyConnection::get_option_bytes, (&*old(d), asked), before),
        call_ensures(DummyConnection::get_option_bytes, (&*final(d), asked), after),
    ensures
        done is Ok,
        same_connection(key, asked) ==> (after is Ok <==> value is Bytes),
        same_connection(key, asked) && value is Bytes ==> after->Ok_0@ == value->Bytes_0@,
        same_connection(key, asked) && !(value is Bytes) ==> after->Err_0.status
            == Status::InvalidData,
        same_connection(key, asked) ==> answers_bytes(
            Some(value),
            "connection"@,
            connection_option_name(asked),
            after,
        ),
        !same_connection(key, asked) ==> match (before, after) {
            (Ok(x), Ok(y)) => x@ == y@,
            (Err(x), Err(y)) => x.status == y.status && x.message@ == y.message@,
            _ => false,
        },
{
    law_connection_options_differ(key, asked);
    lemma_connection_option_name(asked);
}

/// Reading an option of a connection as a double-precision number succeeds just where the option is set to
/// a double-precision number, and then gives it; the errors name the option.
pub proof fn law_connection_get_option_double(d: &DummyConnection, key: OptionConnection, r: Result<u64>)
    requires
        call_ensures(DummyConnection::get_option_double, (d, key), r),
    ensures
        r is Ok <==> d.options().contains_key(key.key()) && d.options()[key.key()] is Double,
        r is Ok ==> r->Ok_0 == d.options()[key.key()]->Double_0,
        r is Err && !d.options().contains_key(key.key()) ==> r->Err_0.status
            == Status::NotFound,
        r is Err && d.options().contains_key(key.key()) ==> r->Err_0.status
            == Status::InvalidData,
        answers_double(
            value_of(d.options(), key.key()),
            "connection"@,
            connection_option_name(key),
            r,
        ),
{
    lemma_connection_option_name(key);
}

/// An option of a connection that was set reads as a double-precision number just where it was set to a double-precision number,
/// and then as the one it was set to. What other options read as stays the same.
pub proof fn law_connection_set_then_get_double(
    d: &mut DummyConnection,
    key: OptionConnection,
    value: OptionValue,
    done: Result<()>,
    asked: OptionConnection,
    before: Result<u64>,
    after: Result<u64>,
)
    requires
        call_ensures(DummyConnection::set_option, (d, key, value), done),
        call_ensures(DummyConnection::get_option_double, (&*old(d), asked), before),
        call_ensures(DummyConnection::get_option_double, (&*final(d), asked), after),
    ensures
        done is Ok,
        same_connection(key, asked) ==> (after is Ok <==> value is Double),
        same_connection(key, asked) && value is Double ==> after->Ok_0 == value->Double_0,
        same_connection(key, asked) && !(value is Double) ==> after->Err_0.status
            == Status::InvalidData,
        same_connection(key, asked) ==> answers_double(
            Some(value),
            "connection"@,
            connection_option_name(asked),
            after,
        ),
        !same_connection(key, asked) ==> match (before, after) {
            (Ok(x), Ok(y)) => x == y,
            (Err(x), Err(y)) => x.status == y.status && x.message@ == y.message@,
            _ => false,
        },
{
    law_connection_options_differ(key, asked);
    lemma_connection_option_name(asked);
}

/// Reading an option of a connection as an integer succeeds just where the option is set to
/// an integer, and then gives it; the errors name the option.
pub proof fn law_connection_get_option_int(d: &DummyConnection, key: OptionConnection, r: Result<i64>)
    requires
        call_ensures(DummyConnection::get_option_int, (d, key), r),
    ensures
        r is Ok <==> d.options().contains_key(key.key()) && d.options()[key.key()] is Int,
        r is Ok ==> r->Ok_0 == d.options()[key.key()]->Int_0,
        r is Err && !d.options().contains_key(key.key()) ==> r->Err_0.status
            == Status::NotFound,
        r is Err && d.options().contains_key(key.key()) ==> r->Err_0.status
            == Status::InvalidData,
        answers_int(
            value_of(d.options(), key.key()),
            "connection"@,
            connection_option_name(key),
            r,
        ),
{
    lemma_connection_option_name(key);
}

/// An option of a connection that was set reads as an integer just where it was set to an integer,
/// and then as the one it was set to. What other options read as stays the same.
pub proof fn law_connection_set_then_get_int(
    d: &mut DummyConnection,
    key: OptionConnection,
    value: OptionValue,
    done: Result<()>,
    asked: OptionConnection,
    before: Result<i64>,
    after: Result<i64>,
)
    requires
        call_ensures(DummyConnection::set_option, (d, key, value), done),
        call_ensures(DummyConnection::get_option_int, (&*old(d), asked), before),
        call_ensures(DummyConnection::get_option_int, (&*final(d), asked), after),
    ensures
        done is Ok,
        same_connection(key, asked) ==> (after is Ok <==> value is Int),
        same_connection(key, asked) && value is Int ==> after->Ok_0 == value->Int_0,
        same_connection(key, asked) && !(value is Int) ==> after->Err_0.status
            == Status::InvalidData,
        same_connection(key, asked) ==> answers_int(
            Some(value),
            "connection"@,
            connection_option_name(asked),
            after,
        ),
        !same_connection(key, asked) ==> match (before, after) {
            (Ok(x), Ok(y)) => x == y,
            (Err(x), Err(y)) => x.status == y.status && x.message@ == y.message@,
            _ => false,
        },
{
    law_connection_options_differ(key, asked);
    lemma_connection_option_name(asked);
}

/// Reading an option of a connection as a text succeeds just where the option is set to
/// a text, and then gives it; the errors name the option.
pub proof fn law_connection_get_option_string(d: &DummyConnection, key: OptionConnection, r: Result<String>)
    requires
        call_ensures(DummyConnection::get_option_string, (d, key), r),
    ensures
        r is Ok <==> d.options().contains_key(key.key()) && d.options()[key.key()] is String,
        r is Ok ==> r->Ok_0@ == d.options()[key.key()]->String_0@,
        r is Err && !d.options().contains_key(key.key()) ==> r->Err_0.status
            == Status::NotFound,
        r is Err && d.options().contains_key(key.key()) ==> r->Err_0.status
            == Status::InvalidData,
        answers_string(
            value_of(d.options(), key.key()),
            "connection"@,
            connection_option_name(key),
            r,
        ),
{
    lemma_connection_option_name(key);
}

/// An option of a connection that was set reads as a text just where it was set to a text,
/// and then as the one it was set to. What other options read as stays the same.
pub proof fn law_connection_set_then_get_string(
    d: &mut DummyConnection,
    key: OptionConnection,
    value: OptionValue,
    done: Result<()>,
    asked: OptionConnection,
    before: Result<String>,
    after: Result<String>,
)
    requires
        call_ensures(DummyConnection::set_option, (d, key, value), done),
        call_ensures(DummyConnection::get_option_string, (&*old(d), asked), before),
        call_ensures(DummyConnection::get_option_string, (&*final(d), asked), after),
    ensures
        done is Ok,
        same_connection(key, asked) ==> (after is Ok <==> value is String),
        same_connection(key, asked) && value is String ==> after->Ok_0@ == value->String_0@,
        same_connection(key, asked) && !(value is String) ==> after->Err_0.status
            == Status::InvalidData,
        same_connection(key, asked) ==> answers_string(
            Some(value),
            "connection"@,
            connection_option_name(asked),
            after,
        ),
        !same_connection(key, asked) ==> match (before, after) {
            (Ok(x), Ok(y)) => x@ == y@,
            (Err(x), Err(y)) => x.status == y.status && x.message@ == y.message@,
            _ => false,
        },
{
    law_connection_options_differ(key, asked);
    lemma_connection_option_name(asked);
}

/// The name of an option of a statement, as messages give it.
pub open spec fn statement_option_name(key: OptionStatement) -> Seq<char> {
    match key {
        OptionStatement::IngestMode => "IngestMode"@,
        OptionStatement::TargetTable => "TargetTable"@,
        OptionStatement::TargetCatalog => "TargetCatalog"@,
        OptionStatement::TargetDbSchema => "TargetDbSchema"@,
        OptionStatement::Temporary => "Temporary"@,
        OptionStatement::Incremental => "Incremental"@,
        OptionStatement::Progress => "Progress"@,
        OptionStatement::MaxProgress => "MaxProgress"@,
        OptionStatement::Other(other) => "Other("@ + debug_str(other@) + ")"@,
    }
}

/// Whether two options of a statement are the same.
pub open spec fn same_statement(a: OptionStatement, b: OptionStatement) -> bool {
    match (a, b) {
        (OptionStatement::IngestMode, OptionStatement::IngestMode) => true,
        (OptionStatement::TargetTable, OptionStatement::TargetTable) => true,
        (OptionStatement::TargetCatalog, OptionStatement::TargetCatalog) => true,
        (OptionStatement::TargetDbSchema, OptionStatement::TargetDbSchema) => true,
        (OptionStatement::Temporary, OptionStatement::Temporary) => true,
        (OptionStatement::Incremental, OptionStatement::Incremental) => true,
        (OptionStatement::Progress, OptionStatement::Progress) => true,
        (OptionStatement::MaxProgress, OptionStatement::MaxProgress) => true,
        (OptionStatement::Other(x), OptionStatement::Other(y)) => x@ == y@,
        _ => false,
    }
}

/// The text of an option of a statement in messages is its name.
proof fn lemma_statement_option_name(key: OptionStatement)
    ensures
        key_text(key.key()) == statement_option_name(key),
{
    reveal_strlit("Other");
    reveal_strlit("(");
    reveal_strlit("Other(");
    match key {
        OptionStatement::Other(other) => {
            assert("Other"@ + "("@ =~= "Other("@);
        },
        _ => {},
    }
}

/// Reading an option of a statement as a byte string succeeds just where the option is set to
/// a byte string, and then gives it; the errors name the option.
pub proof fn law_statement_get_option_bytes(d: &DummyStatement, key: OptionStatement, r: Result<Vec<u8>>)
    requires
        call_ensures(DummyStatement::get_option_bytes, (d, key), r),
    ensures
        r is Ok <==> d.options().contains_key(key.key()) && d.options()[key.key()] is Bytes,
        r is Ok ==> r->Ok_0@ == d.options()[key.key()]->Bytes_0@,
        r is Err && !d.options().contains_key(key.key()) ==> r->Err_0.status
            == Status::NotFound,
        r is Err && d.options().contains_key(key.key()) ==> r->Err_0.status
            == Status::InvalidData,
        answers_bytes(
            value_of(d.options(), key.key()),
            "statement"@,
            statement_option_name(key),
            r,
        ),
{
    lemma_statement_option_name(key);
}

/// An option of a statement that was set reads as a byte string just where it was set to a byte string,
/// and then as the one it was set to. What other options read as stays the same.
pub proof fn law_statement_set_then_get_bytes(
    d: &mut DummyStatement,
    key: OptionStatement,
    value: OptionValue,
    done: Result<()>,
    asked: OptionStatement,
    before: Result<Vec<u8>>,
    after: Result<Vec<u8>>,
)
    requires
        call_ensures(DummyStatement::set_option, (d, key, value), done),
        call_ensures(DummyStatement::get_option_bytes, (&*old(d), asked), before),
        call_ensures(DummyStatement::get_option_bytes, (&*final(d), asked), after),
    ensures
        done is Ok,
        same_statement(key, asked) ==> (after is Ok <==> value is Bytes),
        same_statement(key, asked) && value is Bytes ==> after->Ok_0@ == value->Bytes_0@,
        same_statement(key, asked) && !(value is Bytes) ==> after->Err_0.status
            == Status::InvalidData,
        same_statement(key, asked) ==> answers_bytes(
            Some(value),
            "statement"@,
            statement_option_name(asked),
            after,
        ),
        !same_statement(key, asked) ==> match (before, after) {
            (Ok(x), Ok(y)) => x@ == y@,
            (Err(x), Err(y)) => x.status == y.status && x.message@ == y.message@,
            _ => false,
        },
{
    law_statement_options_differ(key, asked);
    lemma_statement_option_name(asked);
}

/// Reading an option of a statement as a double-precision number succeeds just where the option is set to
/// a double-precision number, and then gives it; the errors name the option.
pub proof fn law_statement_get_option_double(d: &DummyStatement, key: OptionStatement, r: Result<u64>)
    requires
        call_ensures(DummyStatement::get_option_double, (d, key), r),
    ensures
        r is Ok <==> d.options().contains_key(key.key()) && d.options()[key.key()] is Double,
        r is Ok ==> r->Ok_0 == d.options()[key.key()]->Double_0,
        r is Err && !d.options().contains_key(key.key()) ==> r->Err_0.status
            == Status::NotFound,
        r is Err && d.options().contains_key(key.key()) ==> r->Err_0.status
            == Status::InvalidData,
        answers_double(
            value_of(d.options(), key.key()),
            "statement"@,
            statement_option_name(key),
            r,
        ),
{
    lemma_statement_option_name(key);
}

/// An option of a statement that was set reads as a double-precision number just where it was set to a double-precision number,
/// and then as the one it was set to. What other options read as stays the same.
pub proof fn law_statement_set_then_get_double(
    d: &mut DummyStatement,
    key: OptionStatement,
    value: OptionValue,
    done: Result<()>,
    asked: OptionStatement,
    before: Result<u64>,
    after: Result<u64>,
)
    requires
        call_ensures(DummyStatement::set_option, (d, key, value), done),
        call_ensures(DummyStatement::get_option_double, (&*old(d), asked), before),
        call_ensures(DummyStatement::get_option_double, (&*final(d), asked), after),
    ensures
        done is Ok,
        same_statement(key, asked) ==> (after is Ok <==> value is Double),
        same_statement(key, asked) && value is Double ==> after->Ok_0 == value->Double_0,
        same_statement(key, asked) && !(value is Double) ==> after->Err_0.status
            == Status::InvalidData,
        same_statement(key, asked) ==> answers_double(
            Some(value),
            "statement"@,
            statement_option_name(asked),
            after,
        ),
        !same_statement(key, asked) ==> match (before, after) {
            (Ok(x), Ok(y)) => x == y,
            (Err(x), Err(y)) => x.status == y.status && x.message@ == y.message@,
            _ => false,
        },
{
    law_statement_options_differ(key, asked);
    lemma_statement_option_name(asked);
}

/// Reading an option of a statement as an integer succeeds just where the option is set to
/// an integer, and then gives it; the errors name the option.
pub proof fn law_statement_get_option_int(d: &DummyStatement, key: OptionStatement, r: Result<i64>)
    requires
        call_ensures(DummyStatement::get_option_int, (d, key), r),
    ensures
        r is Ok <==> d.options().contains_key(key.key()) && d.options()[key.key()] is Int,
        r is Ok ==> r->Ok_0 == d.options()[key.key()]->Int_0,
        r is Err && !d.options().contains_key(key.key()) ==> r->Err_0.status
            == Status::NotFound,
        r is Err && d.options().contains_key(key.key()) ==> r->Err_0.status
            == Status::InvalidData,
        answers_int(
            value_of(d.options(), key.key()),
            "statement"@,
            statement_option_name(key),
            r,
        ),
{
    lemma_statement_option_name(key);
}

/// An option of a statement that was set reads as an integer just where it was set to an integer,
/// and then as the one it was set to. What other options read as stays the same.
pub proof fn law_statement_set_then_get_int(
    d: &mut DummyStatement,
    key: OptionStatement,
    value: OptionValue,
    done: Result<()>,
    asked: OptionStatement,
    before: Result<i64>,
    after: Result<i64>,
)
    requires
        call_ensures(DummyStatement::set_option, (d, key, value), done),
        call_ensures(DummyStatement::get_option_int, (&*old(d), asked), before),
        call_ensures(DummyStatement::get_option_int, (&*final(d), asked), after),
    ensures
        done is Ok,
        same_statement(key, asked) ==> (after is Ok <==> value is Int),
        same_statement(key, asked) && value is Int ==> after->Ok_0 == value->Int_0,
        same_statement(key, asked) && !(value is Int) ==> after->Err_0.status
            == Status::InvalidData,
        same_statement(key, asked) ==> answers_int(
            Some(value),
            "statement"@,
            statement_option_name(asked),
            after,
        ),
        !same_statement(key, asked) ==> match (before, after) {
            (Ok(x), Ok(y)) => x == y,
            (Err(x), Err(y)) => x.status == y.status && x.message@ == y.message@,
            _ => false,
        },
{
    law_statement_options_differ(key, asked);
    lemma_statement_option_name(asked);
}

/// Reading an option of a statement as a text succeeds just where the option is set to
/// a text, and then gives it; the errors name the option.
pub proof fn law_statement_get_option_string(d: &DummyStatement, key: OptionStatement, r: Result<String>)
    requires
        call_ensures(DummyStatement::get_option_string, (d, key), r),
    ensures
        r is Ok <==> d.options().contains_key(key.key()) && d.options()[key.key()] is String,
        r is Ok ==> r->Ok_0@ == d.options()[key.key()]->String_0@,
        r is Err && !d.options().contains_key(key.key()) ==> r->Err_0.status
            == Status::NotFound,
        r is Err && d.options().contains_key(key.key()) ==> r->Err_0.status
            == Status::InvalidData,
        answers_string(
            value_of(d.options(), key.key()),
            "statement"@,
            statement_option_name(key),
            r,
        ),
{
    lemma_statement_option_name(key);
}

/// An option of a statement that was set reads as a text just where it was set to a text,
/// and then as the one it was set to. What other options read as stays the same.
pub proof fn law_statement_set_then_get_string(
    d: &mut DummyStatement,
    key: OptionStatement,
    value: OptionValue,
    done: Result<()>,
    asked: OptionStatement,
    before: Result<String>,
    after: Result<String>,
)
    requires
        call_ensures(DummyStatement::set_option, (d, key, value), done),
        call_ensures(DummyStatement::get_option_string, (&*old(d), asked), before),
        call_ensures(DummyStatement::get_option_string, (&*final(d), asked), after),
    ensures
        done is Ok,
        same_statement(key, asked) ==> (after is Ok <==> value is String),
        same_statement(key, asked) && value is String ==> after->Ok_0@ == value->String_0@,
        same_statement(key, asked) && !(value is String) ==> after->Err_0.status
            == Status::InvalidData,
        same_statement(key, asked) ==> answers_string(
            Some(value),
            "statement"@,
            statement_option_name(asked),
            after,
        ),
        !same_statement(key, asked) ==> match (before, after) {
            (Ok(x), Ok(y)) => x@ == y@,
            (Err(x), Err(y)) => x.status == y.status && x.message@ == y.message@,
            _ => false,
        },
{
    law_statement_options_differ(key, asked);
    lemma_statement_option_name(asked);
}

/// A new database has no option: whatever is read is not found.
pub proof fn law_new_database(d: &mut DummyDriver, r: Result<DummyDatabase>, key: OptionDatabase, read: Result<String>)
    requires
        call_ensures(DummyDriver::new_database, (d,), r),
        call_ensures(DummyDatabase::get_option_string, (&r->Ok_0, key), read),
    ensures
        r is Ok,
        answers_string(None, "database"@, database_option_name(key), read),
        r->Ok_0.options().dom() == Set::<KeyModel>::empty(),
{
    lemma_database_option_name(key);
}

/// A database that is made with options has the last value that is given for each
/// option, and no option beyond those.
pub proof fn law_new_database_with_opts(
    d: &mut DummyDriver,
    opts: Vec<(OptionDatabase, OptionValue)>,
    r: Result<DummyDatabase>,
    key: OptionDatabase,
    read: Result<String>,
)
    requires
        call_ensures(DummyDriver::new_database_with_opts, (d, opts), r),
        call_ensures(DummyDatabase::get_option_string, (&r->Ok_0, key), read),
    ensures
        r is Ok,
        forall|i: int| #![trigger opts@[i]]
            0 <= i < opts@.len() && same_database(opts@[i].0, key) && (forall|j: int|
                i < j < opts@.len() ==> !same_database((#[trigger] opts@[j]).0, key))
                ==> value_of(r->Ok_0.options(), key.key()) == Some(opts@[i].1) && answers_string(
                Some(opts@[i].1),
                "database"@,
                database_option_name(key),
                read,
            ),
        (forall|j: int| 0 <= j < opts@.len() ==> !same_database((#[trigger] opts@[j]).0, key))
            ==> value_of(r->Ok_0.options(), key.key()) is None && answers_string(
            None,
            "database"@,
            database_option_name(key),
            read,
        ),
{
    let none = Map::<KeyModel, OptionValue>::empty();
    lemma_database_option_name(key);
    assert forall|j: int| 0 <= j < opts@.len() implies (same_database((#[trigger] opts@[j]).0, key)
        <==> opts@[j].0.key() == key.key()) by {
        law_database_options_differ(opts@[j].0, key);
    }
    assert forall|i: int| #![trigger opts@[i]]
        0 <= i < opts@.len() && same_database(opts@[i].0, key) && (forall|j: int|
            i < j < opts@.len() ==> !same_database((#[trigger] opts@[j]).0, key)) implies value_of(
        r->Ok_0.options(),
        key.key(),
    ) == Some(opts@[i].1) by {
        law_last_value_counts(none, opts@, i);
    }
    if forall|j: int| 0 <= j < opts@.len() ==> !same_database((#[trigger] opts@[j]).0, key) {
        law_unset_option_kept(none, opts@, key.key());
    }
}

/// A new connection has no option: whatever is read is not found.
pub proof fn law_new_connection(d: &DummyDatabase, r: Result<DummyConnection>, key: OptionConnection, read: Result<String>)
    requires
        call_ensures(DummyDatabase::new_connection, (d,), r),
        call_ensures(DummyConnection::get_option_string, (&r->Ok_0, key), read),
    ensures
        r is Ok,
        answers_string(None, "connection"@, connection_option_name(key), read),
        r->Ok_0.options().dom() == Set::<KeyModel>::empty(),
{
    lemma_connection_option_name(key);
}

/// A connection that is made with options has the last value that is given for each
/// option, and no option beyond those.
pub proof fn law_new_connection_with_opts(
    d: &DummyDatabase,
    opts: Vec<(OptionConnection, OptionValue)>,
    r: Result<DummyConnection>,
    key: OptionConnection,
    read: Result<String>,
)
    requires
        call_ensures(DummyDatabase::new_connection_with_opts, (d, opts), r),
        call_ensures(DummyConnection::get_option_string, (&r->Ok_0, key), read),
    ensures
        r is Ok,
        forall|i: int| #![trigger opts@[i]]
            0 <= i < opts@.len() && same_connection(opts@[i].0, key) && (forall|j: int|
                i < j < opts@.len() ==> !same_connection((#[trigger] opts@[j]).0, key))
                ==> value_of(r->Ok_0.options(), key.key()) == Some(opts@[i].1) && answers_string(
                Some(opts@[i].1),
                "connection"@,
                connection_option_name(key),
                read,
            ),
        (forall|j: int| 0 <= j < opts@.len() ==> !same_connection((#[trigger] opts@[j]).0, key))
            ==> value_of(r->Ok_0.options(), key.key()) is None && answers_string(
            None,
            "connection"@,
            connection_option_name(key),
            read,
        ),
{
    let none = Map::<KeyModel, OptionValue>::empty();
    lemma_connection_option_name(key);
    assert forall|j: int| 0 <= j < opts@.len() implies (same_connection((#[trigger] opts@[j]).0, key)
        <==> opts@[j].0.key() == key.key()) by {
        law_connection_options_differ(opts@[j].0, key);
    }
    assert forall|i: int| #![trigger opts@[i]]
        0 <= i < opts@.len() && same_connection(opts@[i].0, key) && (forall|j: int|
            i < j < opts@.len() ==> !same_connection((#[trigger] opts@[j]).0, key)) implies value_of(
        r->Ok_0.options(),
        key.key(),
    ) == Some(opts@[i].1) by {
        law_last_value_counts(none, opts@, i);
    }
    if forall|j: int| 0 <= j < opts@.len() ==> !same_connection((#[trigger] opts@[j]).0, key) {
        law_unset_option_kept(none, opts@, key.key());
    }
}

/// A new statement has no option: whatever is read is not found.
pub proof fn law_new_statement(d: &mut DummyConnection, r: Result<DummyStatement>, key: OptionStatement, read: Result<String>)
    requires
        call_ensures(DummyConnection::new_statement, (d,), r),
        call_ensures(DummyStatement::get_option_string, (&r->Ok_0, key), read),
    ensures
        r is Ok,
        answers_string(None, "statement"@, statement_option_name(key), read),
        r->Ok_0.options().dom() == Set::<KeyModel>::empty(),
{
    lemma_statement_option_name(key);
}

} // verus!
