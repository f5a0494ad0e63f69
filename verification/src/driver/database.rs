//! The database of the driver.

use crate::driver::connection::DummyConnection;
use crate::error::Result;
use crate::option_map::{
    get_option_bytes, get_option_double, get_option_int, get_option_string, reads_bytes,
    reads_double, reads_int, reads_string, set_option, with_options, OptionMap,
};
use crate::options::{KeyModel, OptionConnection, OptionDatabase, OptionKey, OptionValue};
use vstd::prelude::*;

verus! {

/// A database that only holds its options.
pub struct DummyDatabase {
    options: OptionMap<OptionDatabase>,
}

impl Default for DummyDatabase {
    fn default() -> (r: Self)
        ensures
            r.wf(),
            r.options() == Map::<KeyModel, OptionValue>::empty(),
    {
        DummyDatabase { options: OptionMap::new() }
    }
}

impl DummyDatabase {
    /// The options that are set.
    pub closed spec fn options(&self) -> Map<KeyModel, OptionValue> {
        self.options@
    }

    /// Whether no option is held twice.
    pub closed spec fn wf(&self) -> bool {
        self.options.wf()
    }

    /// Sets an option.
    pub fn set_option(&mut self, key: OptionDatabase, value: OptionValue) -> (r: Result<()>)
        requires
            old(self).wf(),
        ensures
            r is Ok,
            final(self).wf(),
            final(self).options() == old(self).options().insert(key.key(), value),
    {
        set_option(&mut self.options, key, value)
    }

    /// Reads an option as a byte string.
    pub fn get_option_bytes(&self, key: OptionDatabase) -> (r: Result<Vec<u8>>)
        requires
            self.wf(),
        ensures
            reads_bytes(self.options(), key.key(), "database"@, r),
    {
        get_option_bytes(&self.options, key, "database")
    }

    /// Reads an option as the bits of a double-precision number.
    pub fn get_option_double(&self, key: OptionDatabase) -> (r: Result<u64>)
        requires
            self.wf(),
        ensures
            reads_double(self.options(), key.key(), "database"@, r),
    {
        get_option_double(&self.options, key, "database")
    }

    /// Reads an option as an integer.
    pub fn get_option_int(&self, key: OptionDatabase) -> (r: Result<i64>)
        requires
            self.wf(),
        ensures
            reads_int(self.options(), key.key(), "database"@, r),
    {
        get_option_int(&self.options, key, "database")
    }

    /// Reads an option as a text.
    pub fn get_option_string(&self, key: OptionDatabase) -> (r: Result<String>)
        requires
            self.wf(),
        ensures
            reads_string(self.options(), key.key(), "database"@, r),
    {
        get_option_string(&self.options, key, "database")
    }

    /// A connection without options.
    pub fn new_connection(&self) -> (r: Result<DummyConnection>)
        ensures
            r is Ok,
            r->Ok_0.wf(),
            r->Ok_0.options() == Map::<KeyModel, OptionValue>::empty(),
    {
        Ok(DummyConnection::default())
    }

    /// A connection with the given options, set one after the other.
    pub fn new_connection_with_opts(
        &self,
        opts: Vec<(OptionConnection, OptionValue)>,
    ) -> (r: Result<DummyConnection>)
        ensures
            r is Ok,
            r->Ok_0.wf(),
            r->Ok_0.options() == with_options(Map::<KeyModel, OptionValue>::empty(), opts@),
    {
        let mut connection = DummyConnection::default();
        for (key, value) in it: opts
            invariant
                connection.wf(),
                connection.options() == with_options(
                    Map::<KeyModel, OptionValue>::empty(),
                    it.seq().take(it.index() as int),
                ),
                it.seq() == opts@,
        {
            proof {
                let n = it.index() as int;
                assert(opts@.take(n + 1).drop_last() =~= opts@.take(n));
            }
            connection.set_option(key, value)?;
        }
        assert(opts@.take(opts@.len() as int) =~= opts@);
        Ok(connection)
    }
}

} // verus!
