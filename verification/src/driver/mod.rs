//! A driver for tests: it has one table, and gives the same result sets whatever
//! it is asked.

use crate::driver::database::DummyDatabase;
use crate::error::Result;
use crate::option_map::with_options;
use crate::options::{KeyModel, OptionDatabase, OptionValue};
use vstd::prelude::*;

pub mod connection;
pub mod database;
pub mod panics;
pub mod results;
pub mod statement;
pub mod table;

verus! {

/// A dummy driver used for testing purposes.
pub struct DummyDriver {}

impl Default for DummyDriver {
    fn default() -> (r: Self) {
        DummyDriver {}
    }
}

impl DummyDriver {
    /// A database without options.
    pub fn new_database(&mut self) -> (r: Result<DummyDatabase>)
        ensures
            r is Ok,
            r->Ok_0.wf(),
            r->Ok_0.options() == Map::<KeyModel, OptionValue>::empty(),
    {
        Ok(DummyDatabase::default())
    }

    /// A database with the given options, set one after the other.
    pub fn new_database_with_opts(
        &mut self,
        opts: Vec<(OptionDatabase, OptionValue)>,
    ) -> (r: Result<DummyDatabase>)
        ensures
            r is Ok,
            r->Ok_0.wf(),
            r->Ok_0.options() == with_options(Map::<KeyModel, OptionValue>::empty(), opts@),
    {
        let mut database = DummyDatabase::default();
        for (key, value) in it: opts
            invariant
                database.wf(),
                database.options() == with_options(
                    Map::<KeyModel, OptionValue>::empty(),
                    it.seq().take(it.index() as int),
                ),
                it.seq() == opts@,
        {
            proof {
                let n = it.index() as int;
                assert(opts@.take(n + 1).drop_last() =~= opts@.take(n));
            }
            database.set_option(key, value)?;
        }
        assert(opts@.take(opts@.len() as int) =~= opts@);
        Ok(database)
    }
}

} // verus!
