//! What the dummy driver, its reader and its helpers do.

use crate::arrow::schema::{error_text, schema_tree};
use crate::arrow::{batch_cells, batch_schema, Batch};
use crate::driver::connection::DummyConnection;
use crate::driver::panics::maybe_panic;
use crate::driver::statement::{DummyStatement, PartitionedResult};
use crate::driver::table::{get_table_data, get_table_schema};
use crate::error::{Error, Result, Status};
use crate::groups::offsets_from_counts;
use crate::laws::options::plain_error;
use crate::option_map::same_text;
use crate::options::{InfoCode, ObjectDepth};
use crate::reader::SingleBatchReader;
use arrow_schema::{ArrowError, Schema};
use std::collections::HashSet;
use std::sync::Arc;
use vstd::prelude::*;

verus! {

/// The name that a missing name stands for, or the name itself.
pub open spec fn meant(name: Option<&str>) -> Seq<char> {
    match name {
        Some(s) => s@,
        None => "default"@,
    }
}

/// The schema of a table is found just where the table name is the default one, the
/// catalog is missing or the default one, and the schema name is missing or the default
/// one, each whatever the others are. Otherwise the table is not found, and the message
/// names all three.
pub proof fn law_table_schema_found(
    c: &DummyConnection,
    catalog: Option<&str>,
    db_schema: Option<&str>,
    table_name: &str,
    r: Result<Schema>,
)
    requires
        call_ensures(DummyConnection::get_table_schema, (c, catalog, db_schema, table_name), r),
    ensures
        r is Ok <==> (catalog is None || catalog->Some_0@ == "default"@) && (db_schema is None
            || db_schema->Some_0@ == "default"@) && table_name@ == "default"@,
        r matches Err(error) ==> error.status == Status::NotFound,
        r matches Err(error) ==> plain_error(
            error,
            Status::NotFound,
            "Table "@ + meant(catalog) + "."@ + meant(db_schema) + "."@ + table_name@
                + " does not exist"@,
        ),
{
}

/// A catalog that is left out means the same as the default name, whether or not a
/// schema is named.
pub proof fn law_missing_catalog_is_default(
    c: &DummyConnection,
    default: &str,
    db_schema: Option<&str>,
    table_name: &str,
    left_out: Result<Schema>,
    named: Result<Schema>,
)
    requires
        default@ == "default"@,
        call_ensures(
            DummyConnection::get_table_schema,
            (c, None, db_schema, table_name),
            left_out,
        ),
        call_ensures(
            DummyConnection::get_table_schema,
            (c, Some(default), db_schema, table_name),
            named,
        ),
    ensures
        left_out is Ok <==> named is Ok,
        left_out is Err ==> left_out->Err_0.message@ == named->Err_0.message@,
        left_out is Ok ==> schema_tree(left_out->Ok_0) == schema_tree(named->Ok_0),
{
}

/// A schema name that is left out means the same as the default name, whether or not a
/// catalog is named.
pub proof fn law_missing_schema_is_default(
    c: &DummyConnection,
    default: &str,
    catalog: Option<&str>,
    table_name: &str,
    left_out: Result<Schema>,
    named: Result<Schema>,
)
    requires
        default@ == "default"@,
        call_ensures(
            DummyConnection::get_table_schema,
            (c, catalog, None, table_name),
            left_out,
        ),
        call_ensures(
            DummyConnection::get_table_schema,
            (c, catalog, Some(default), table_name),
            named,
        ),
    ensures
        left_out is Ok <==> named is Ok,
        left_out is Err ==> left_out->Err_0.message@ == named->Err_0.message@,
        left_out is Ok ==> schema_tree(left_out->Ok_0) == schema_tree(named->Ok_0),
{
}

/// Wherever a schema of the table is given out, it is the same one: by the connection,
/// by a statement, and with the rows of the table.
pub proof fn law_table_schemas_agree(
    c: &DummyConnection,
    table_name: &str,
    found: Result<Schema>,
    s: &mut DummyStatement,
    executed: Result<Schema>,
    parameters: Result<Schema>,
    e: &mut DummyStatement,
    rows: Result<SingleBatchReader>,
    partition: &[u8],
    part: Result<SingleBatchReader>,
    table: Schema,
)
    requires
        table_name@ == "default"@,
        call_ensures(DummyConnection::get_table_schema, (c, None, None, table_name), found),
        call_ensures(DummyStatement::execute_schema, (s,), executed),
        call_ensures(DummyStatement::get_parameter_schema, (&*old(s),), parameters),
        call_ensures(DummyStatement::execute, (e,), rows),
        call_ensures(DummyConnection::read_partition, (c, partition), part),
        call_ensures(get_table_schema, (), table),
    ensures
        found is Ok,
        executed is Ok,
        parameters is Ok,
        rows is Ok,
        part is Ok,
        schema_tree(found->Ok_0) == schema_tree(table),
        schema_tree(executed->Ok_0) == schema_tree(table),
        schema_tree(parameters->Ok_0) == schema_tree(table),
        batch_schema(rows->Ok_0.pending()->Some_0) == schema_tree(table),
        batch_schema(part->Ok_0.pending()->Some_0) == schema_tree(table),
        batch_cells(rows->Ok_0.pending()->Some_0) == batch_cells(part->Ok_0.pending()->Some_0),
{
}

/// Whether two calls gave readers over the same rows, of the same schema.
pub open spec fn same_rows(a: Result<SingleBatchReader>, b: Result<SingleBatchReader>) -> bool {
    &&& a is Ok
    &&& b is Ok
    &&& a->Ok_0.pending() is Some
    &&& b->Ok_0.pending() is Some
    &&& batch_cells(a->Ok_0.pending()->Some_0) == batch_cells(b->Ok_0.pending()->Some_0)
    &&& batch_schema(a->Ok_0.pending()->Some_0) == batch_schema(b->Ok_0.pending()->Some_0)
}

/// The info codes and their values are the same whatever codes are asked for, and
/// whatever options the connection holds.
pub proof fn law_codes_make_no_difference(
    c: &DummyConnection,
    codes: Option<HashSet<InfoCode>>,
    r: Result<SingleBatchReader>,
    other: &DummyConnection,
    other_codes: Option<HashSet<InfoCode>>,
    q: Result<SingleBatchReader>,
)
    requires
        call_ensures(DummyConnection::get_info, (c, codes), r),
        call_ensures(DummyConnection::get_info, (other, other_codes), q),
    ensures
        same_rows(r, q),
{
}

/// The statistics are the same whatever names are asked for, whether or not they may be
/// approximate, and whatever options the connection holds.
pub proof fn law_names_make_no_difference(
    c: &DummyConnection,
    catalog: Option<&str>,
    db_schema: Option<&str>,
    table_name: Option<&str>,
    approximate: bool,
    r: Result<SingleBatchReader>,
    other: &DummyConnection,
    other_catalog: Option<&str>,
    other_db_schema: Option<&str>,
    other_table_name: Option<&str>,
    other_approximate: bool,
    q: Result<SingleBatchReader>,
)
    requires
        call_ensures(
            DummyConnection::get_statistics,
            (c, catalog, db_schema, table_name, approximate),
            r,
        ),
        call_ensures(
            DummyConnection::get_statistics,
            (other, other_catalog, other_db_schema, other_table_name, other_approximate),
            q,
        ),
    ensures
        same_rows(r, q),
{
}

/// The objects are the same whatever depth, names and types are asked for, and whatever
/// options the connection holds.
pub proof fn law_depth_makes_no_difference(
    c: &DummyConnection,
    depth: ObjectDepth,
    catalog: Option<&str>,
    db_schema: Option<&str>,
    table_name: Option<&str>,
    table_type: Option<Vec<&str>>,
    column_name: Option<&str>,
    r: Result<SingleBatchReader>,
    other: &DummyConnection,
    other_depth: ObjectDepth,
    other_catalog: Option<&str>,
    other_db_schema: Option<&str>,
    other_table_name: Option<&str>,
    other_table_type: Option<Vec<&str>>,
    other_column_name: Option<&str>,
    q: Result<SingleBatchReader>,
)
    requires
        call_ensures(
            DummyConnection::get_objects,
            (c, depth, catalog, db_schema, table_name, table_type, column_name),
            r,
        ),
        call_ensures(
            DummyConnection::get_objects,
            (
                other,
                other_depth,
                other_catalog,
                other_db_schema,
                other_table_name,
                other_table_type,
                other_column_name,
            ),
            q,
        ),
    ensures
        same_rows(r, q),
{
}

/// Table types and the names of statistics are the same for every connection.
pub proof fn law_connections_are_alike(
    c: &DummyConnection,
    types: Result<SingleBatchReader>,
    names: Result<SingleBatchReader>,
    other: &DummyConnection,
    other_types: Result<SingleBatchReader>,
    other_names: Result<SingleBatchReader>,
)
    requires
        call_ensures(DummyConnection::get_table_types, (c,), types),
        call_ensures(DummyConnection::get_statistic_names, (c,), names),
        call_ensures(DummyConnection::get_table_types, (other,), other_types),
        call_ensures(DummyConnection::get_statistic_names, (other,), other_names),
    ensures
        same_rows(types, other_types),
        same_rows(names, other_names),
{
}

/// A statement gives the rows of the table, and a connection gives the same ones for
/// every partition.
pub proof fn law_rows_are_the_table(
    s: &mut DummyStatement,
    rows: Result<SingleBatchReader>,
    c: &DummyConnection,
    partition: &[u8],
    part: Result<SingleBatchReader>,
    table: Batch,
)
    requires
        call_ensures(DummyStatement::execute, (s,), rows),
        call_ensures(DummyConnection::read_partition, (c, partition), part),
        call_ensures(get_table_data, (), table),
    ensures
        same_rows(rows, part),
        batch_cells(rows->Ok_0.pending()->Some_0) == batch_cells(table),
        batch_schema(rows->Ok_0.pending()->Some_0) == batch_schema(table),
{
}

/// A reader gives out its batch at the first call, and nothing at any later one.
pub proof fn law_reader_gives_once(
    batch: Batch,
    made: SingleBatchReader,
    first: &mut SingleBatchReader,
    given: Option<core::result::Result<Batch, ArrowError>>,
    later: &mut SingleBatchReader,
    rest: Option<core::result::Result<Batch, ArrowError>>,
)
    requires
        call_ensures(SingleBatchReader::new, (batch,), made),
        *old(first) == made,
        call_ensures(SingleBatchReader::next, (first,), given),
        *old(later) == *final(first),
        call_ensures(SingleBatchReader::next, (later,), rest),
    ensures
        given == Some(Ok::<Batch, ArrowError>(batch)),
        rest is None,
        final(later).pending() is None,
{
}

/// A reader has the schema of its batch, before and after the batch was given out.
pub proof fn law_reader_keeps_schema(
    batch: Batch,
    made: SingleBatchReader,
    before: Arc<Schema>,
    reader: &mut SingleBatchReader,
    given: Option<core::result::Result<Batch, ArrowError>>,
    after: Arc<Schema>,
)
    requires
        call_ensures(SingleBatchReader::new, (batch,), made),
        call_ensures(SingleBatchReader::schema, (&made,), before),
        *old(reader) == made,
        call_ensures(SingleBatchReader::next, (reader,), given),
        call_ensures(SingleBatchReader::schema, (&*final(reader),), after),
    ensures
        schema_tree(*before) == batch_schema(batch),
        schema_tree(*after) == batch_schema(batch),
{
}

/// A statement takes whatever it is given, changes no row, and stays as it is.
pub proof fn law_statement_takes_anything<R>(
    a: &mut DummyStatement,
    batch: Batch,
    bound: Result<()>,
    b: &mut DummyStatement,
    reader: R,
    streamed: Result<()>,
    c: &mut DummyStatement,
    query: &str,
    asked: Result<()>,
    d: &mut DummyStatement,
    plan: &[u8],
    planned: Result<()>,
    e: &mut DummyStatement,
    updated: Result<Option<i64>>,
)
    requires
        call_ensures(DummyStatement::bind, (a, batch), bound),
        call_ensures(DummyStatement::bind_stream::<R>, (b, reader), streamed),
        call_ensures(DummyStatement::set_sql_query, (c, query), asked),
        call_ensures(DummyStatement::set_substrait_plan, (d, plan), planned),
        call_ensures(DummyStatement::execute_update, (e,), updated),
    ensures
        bound is Ok && *final(a) == *old(a),
        streamed is Ok && *final(b) == *old(b),
        asked is Ok && *final(c) == *old(c),
        planned is Ok && *final(d) == *old(d),
        updated is Ok && updated->Ok_0 == Some(0i64) && *final(e) == *old(e),
{
}

/// A statement can always be prepared, cancelled and executed, and stays as it is.
pub proof fn law_statement_always_runs(
    a: &mut DummyStatement,
    prepared: Result<()>,
    b: &mut DummyStatement,
    cancelled: Result<()>,
    c: &mut DummyStatement,
    rows: Result<SingleBatchReader>,
    d: &mut DummyStatement,
    parts: Result<PartitionedResult>,
)
    requires
        call_ensures(DummyStatement::prepare, (a,), prepared),
        call_ensures(DummyStatement::cancel, (b,), cancelled),
        call_ensures(DummyStatement::execute, (c,), rows),
        call_ensures(DummyStatement::execute_partitions, (d,), parts),
    ensures
        prepared is Ok && *final(a) == *old(a),
        cancelled is Ok && *final(b) == *old(b),
        rows is Ok && rows->Ok_0.pending() is Some && *final(c) == *old(c),
        parts is Ok && parts->Ok_0.rows_affected == 0 && *final(d) == *old(d),
{
}

/// A connection commits and rolls back, never cancels, and stays as it is.
pub proof fn law_connection_stays(
    a: &mut DummyConnection,
    committed: Result<()>,
    b: &mut DummyConnection,
    rolled_back: Result<()>,
    c: &mut DummyConnection,
    cancelled: Result<()>,
)
    requires
        call_ensures(DummyConnection::commit, (a,), committed),
        call_ensures(DummyConnection::rollback, (b,), rolled_back),
        call_ensures(DummyConnection::cancel, (c,), cancelled),
    ensures
        committed is Ok && *final(a) == *old(a),
        rolled_back is Ok && *final(b) == *old(b),
        cancelled is Err && cancelled->Err_0.status == Status::Cancelled && *final(c) == *old(c),
{
}

/// A function panics just where it is the one that is asked to, with the message that
/// is given, or with one that names the function.
pub proof fn law_panics_where_asked(
    fnname: &str,
    func: Option<String>,
    message: Option<String>,
    r: Option<String>,
)
    requires
        call_ensures(maybe_panic, (fnname, func, message), r),
    ensures
        r is Some <==> func is Some && func->Some_0@ == fnname@,
        r is Some && message is Some ==> r->Some_0@ == message->Some_0@,
        r is Some && message is None ==> r->Some_0@ == "We panicked in "@ + fnname@ + "!"@,
{
}

/// Offsets begin at zero and grow by each count.
pub proof fn law_offsets_grow_by_counts(counts: &[i32], r: Vec<i32>)
    requires
        call_ensures(offsets_from_counts, (counts,), r),
    ensures
        r@.len() == counts@.len() + 1,
        r@[0] == 0,
        forall|i: int| 0 <= i < counts@.len() ==> r@[i + 1] - r@[i] == #[trigger] counts@[i],
{
}

/// What an error is said to be is what it holds.
pub proof fn law_plain_errors(error: Error, status: Status, message: Seq<char>)
    ensures
        plain_error(error, status, message) <==> {
            &&& error.status == status
            &&& error.message@ == message
            &&& error.vendor_code == 0
            &&& error.sqlstate@ == seq![0i8, 0i8, 0i8, 0i8, 0i8]
            &&& error.details is None
        },
{
    if plain_error(error, status, message) {
        assert(error.sqlstate@ =~= seq![0i8, 0i8, 0i8, 0i8, 0i8]);
    }
}

/// An error that is made of a message and a status says these and nothing else.
pub proof fn law_error_says_what_it_is_given(message: String, status: Status, r: Error)
    requires
        call_ensures(Error::with_message_and_status, (message, status), r),
    ensures
        plain_error(r, status, message@),
{
}

/// An error of Arrow becomes an internal error with the same text.
pub proof fn law_arrow_errors_are_internal(error: ArrowError, r: Error)
    requires
        call_ensures(Error::from_arrow, (error,), r),
    ensures
        plain_error(r, Status::Internal, error_text(error)),
{
}

/// Texts are the same just where their characters are.
pub proof fn law_same_text(a: &str, b: &str, r: bool)
    requires
        call_ensures(same_text, (a, b), r),
    ensures
        r <==> a@ == b@,
{
}

} // verus!
