//! Option keys and values, info codes, statistics and object depths.

use vstd::prelude::*;

verus! {

/// A kind of information about a vendor or a driver.
#[derive(Debug, Clone, Copy, PartialEq, Eq, Hash, Structural)]
pub enum InfoCode {
    /// The name of the database vendor or product.
    VendorName,
    /// The version of the database.
    VendorVersion,
    /// The version of the Arrow library of the database.
    VendorArrowVersion,
    /// Whether SQL queries are supported.
    VendorSql,
    /// Whether Substrait queries are supported.
    VendorSubstrait,
    /// The lowest Substrait version that is supported.
    VendorSubstraitMinVersion,
    /// The highest Substrait version that is supported.
    VendorSubstraitMaxVersion,
    /// The name of the driver.
    DriverName,
    /// The version of the driver.
    DriverVersion,
    /// The version of the Arrow library of the driver.
    DriverArrowVersion,
    /// The version of the driver interface.
    DriverAdbcVersion,
}

impl InfoCode {
    /// The number of the info code.
    pub open spec fn number(self) -> u32 {
        match self {
            InfoCode::VendorName => 0,
            InfoCode::VendorVersion => 1,
            InfoCode::VendorArrowVersion => 2,
            InfoCode::VendorSql => 3,
            InfoCode::VendorSubstrait => 4,
            InfoCode::VendorSubstraitMinVersion => 5,
            InfoCode::VendorSubstraitMaxVersion => 6,
            InfoCode::DriverName => 100,
            InfoCode::DriverVersion => 101,
            InfoCode::DriverArrowVersion => 102,
            InfoCode::DriverAdbcVersion => 103,
        }
    }
}

impl vstd::std_specs::convert::FromSpecImpl<&InfoCode> for u32 {
    open spec fn obeys_from_spec() -> bool {
        true
    }

    open spec fn from_spec(code: &InfoCode) -> u32 {
        code.number()
    }
}

impl From<&InfoCode> for u32 {
    fn from(code: &InfoCode) -> (r: u32) {
        match code {
            InfoCode::VendorName => 0,
            InfoCode::VendorVersion => 1,
            InfoCode::VendorArrowVersion => 2,
            InfoCode::VendorSql => 3,
            InfoCode::VendorSubstrait => 4,
            InfoCode::VendorSubstraitMinVersion => 5,
            InfoCode::VendorSubstraitMaxVersion => 6,
            InfoCode::DriverName => 100,
            InfoCode::DriverVersion => 101,
            InfoCode::DriverArrowVersion => 102,
            InfoCode::DriverAdbcVersion => 103,
        }
    }
}

/// How much of the hierarchy of objects is asked for.
#[derive(Debug, Clone, Copy, PartialEq, Eq, Hash, Structural)]
pub enum ObjectDepth {
    /// Catalogs, schemas, tables and columns.
    All,
    /// Catalogs only.
    Catalogs,
    /// Catalogs and schemas.
    Schemas,
    /// Catalogs, schemas and tables.
    Tables,
    /// Catalogs, schemas, tables and columns.
    Columns,
}

/// A statistic about a table or a column.
#[derive(Debug, Clone, PartialEq, Eq, Hash)]
pub enum Statistics {
    /// The average width of a row of a column, in bytes.
    AverageByteWidth,
    /// The number of distinct values.
    DistinctCount,
    /// The greatest width of a row of a column, in bytes.
    MaxByteWidth,
    /// The greatest value.
    MaxValue,
    /// The least value.
    MinValue,
    /// The number of nulls.
    NullCount,
    /// The number of rows.
    RowCount,
    /// A statistic of the driver's own.
    Other {
        /// Its key.
        key: i16,
        /// Its name.
        name: String,
    },
}

impl Statistics {
    /// The key of the statistic.
    pub open spec fn key(self) -> i16 {
        match self {
            Statistics::AverageByteWidth => 0,
            Statistics::DistinctCount => 1,
            Statistics::MaxByteWidth => 2,
            Statistics::MaxValue => 3,
            Statistics::MinValue => 4,
            Statistics::NullCount => 5,
            Statistics::RowCount => 6,
            Statistics::Other { key, name } => key,
        }
    }
}

impl vstd::std_specs::convert::FromSpecImpl<Statistics> for i16 {
    open spec fn obeys_from_spec() -> bool {
        true
    }

    open spec fn from_spec(statistic: Statistics) -> i16 {
        statistic.key()
    }
}

impl From<Statistics> for i16 {
    fn from(statistic: Statistics) -> (r: i16) {
        match statistic {
            Statistics::AverageByteWidth => 0,
            Statistics::DistinctCount => 1,
            Statistics::MaxByteWidth => 2,
            Statistics::MaxValue => 3,
            Statistics::MinValue => 4,
            Statistics::NullCount => 5,
            Statistics::RowCount => 6,
            Statistics::Other { key, .. } => key,
        }
    }
}

/// What can be the key of a statistic.
pub trait StatisticKey: Sized {
    /// The key.
    spec fn number(self) -> i16;

    /// The key.
    fn into_key(self) -> (r: i16)
        ensures
            r == self.number(),
    ;
}

impl StatisticKey for Statistics {
    open spec fn number(self) -> i16 {
        self.key()
    }

    fn into_key(self) -> (r: i16) {
        i16::from(self)
    }
}

impl StatisticKey for i16 {
    open spec fn number(self) -> i16 {
        self
    }

    fn into_key(self) -> (r: i16) {
        self
    }
}

impl StatisticKey for i8 {
    open spec fn number(self) -> i16 {
        self as i16
    }

    fn into_key(self) -> (r: i16) {
        self as i16
    }
}

impl StatisticKey for u8 {
    open spec fn number(self) -> i16 {
        self as i16
    }

    fn into_key(self) -> (r: i16) {
        self as i16
    }
}

impl StatisticKey for bool {
    open spec fn number(self) -> i16 {
        if self {
            1
        } else {
            0
        }
    }

    fn into_key(self) -> (r: i16) {
        if self {
            1
        } else {
            0
        }
    }
}

/// What tells an option apart from others of its kind: its variant, and the name
/// of an option of the driver's own.
#[verifier::ext_equal]
pub struct KeyModel {
    pub variant: Seq<char>,
    pub other: Option<Seq<char>>,
}

/// The name of an option.
pub trait OptionKey: Sized {
    /// What tells the option apart from others.
    spec fn key(&self) -> KeyModel;

    /// The name of the variant.
    fn variant(&self) -> (r: &'static str)
        ensures
            r@ == self.key().variant,
    ;

    /// The name of an option of the driver's own.
    fn other(&self) -> (r: Option<&String>)
        ensures
            match r {
                Some(other) => self.key().other == Some(other@),
                None => self.key().other is None,
            },
    ;
}

/// The value of an option.
#[derive(Debug, Clone, PartialEq, Eq)]
pub enum OptionValue {
    /// A text.
    String(String),
    /// A byte string.
    Bytes(Vec<u8>),
    /// A 64-bit integer.
    Int(i64),
    /// The bits of a double-precision number.
    Double(u64),
}

/// An option of a database.
#[derive(Debug, Clone, PartialEq, Eq, Hash)]
pub enum OptionDatabase {
    /// Where the database is.
    Uri,
    /// Who connects.
    Username,
    /// The password of who connects.
    Password,
    /// An option of the driver's own.
    Other(String),
}

impl OptionKey for OptionDatabase {
    open spec fn key(&self) -> KeyModel {
        match self {
            OptionDatabase::Uri => KeyModel { variant: "Uri"@, other: None },
            OptionDatabase::Username => KeyModel { variant: "Username"@, other: None },
            OptionDatabase::Password => KeyModel { variant: "Password"@, other: None },
            OptionDatabase::Other(other) => KeyModel { variant: "Other"@, other: Some(other@) },
        }
    }

    fn variant(&self) -> (r: &'static str) {
        match self {
            OptionDatabase::Uri => "Uri",
            OptionDatabase::Username => "Username",
            OptionDatabase::Password => "Password",
            OptionDatabase::Other(_) => "Other",
        }
    }

    fn other(&self) -> (r: Option<&String>) {
        match self {
            OptionDatabase::Other(other) => Some(other),
            _ => None,
        }
    }
}

/// An option of a connection.
#[derive(Debug, Clone, PartialEq, Eq, Hash)]
pub enum OptionConnection {
    /// Whether each statement is committed by itself.
    AutoCommit,
    /// Whether nothing may be written.
    ReadOnly,
    /// The current catalog.
    CurrentCatalog,
    /// The current schema.
    CurrentSchema,
    /// How transactions are kept apart.
    IsolationLevel,
    /// An option of the driver's own.
    Other(String),
}

impl OptionKey for OptionConnection {
    open spec fn key(&self) -> KeyModel {
        match self {
            OptionConnection::AutoCommit => KeyModel { variant: "AutoCommit"@, other: None },
            OptionConnection::ReadOnly => KeyModel { variant: "ReadOnly"@, other: None },
            OptionConnection::CurrentCatalog => KeyModel { variant: "CurrentCatalog"@, other: None },
            OptionConnection::CurrentSchema => KeyModel { variant: "CurrentSchema"@, other: None },
            OptionConnection::IsolationLevel => KeyModel { variant: "IsolationLevel"@, other: None },
            OptionConnection::Other(other) => KeyModel { variant: "Other"@, other: Some(other@) },
        }
    }

    fn variant(&self) -> (r: &'static str) {
        match self {
            OptionConnection::AutoCommit => "AutoCommit",
            OptionConnection::ReadOnly => "ReadOnly",
            OptionConnection::CurrentCatalog => "CurrentCatalog",
            OptionConnection::CurrentSchema => "CurrentSchema",
            OptionConnection::IsolationLevel => "IsolationLevel",
            OptionConnection::Other(_) => "Other",
        }
    }

    fn other(&self) -> (r: Option<&String>) {
        match self {
            OptionConnection::Other(other) => Some(other),
            _ => None,
        }
    }
}

/// An option of a statement.
#[derive(Debug, Clone, PartialEq, Eq, Hash)]
pub enum OptionStatement {
    /// How bulk data is taken in.
    IngestMode,
    /// The table that bulk data goes to.
    TargetTable,
    /// The catalog that bulk data goes to.
    TargetCatalog,
    /// The schema that bulk data goes to.
    TargetDbSchema,
    /// Whether bulk data goes to a temporary table.
    Temporary,
    /// Whether partitions are given out one by one.
    Incremental,
    /// How far the statement has come.
    Progress,
    /// How far the statement has to go.
    MaxProgress,
    /// An option of the driver's own.
    Other(String),
}

impl OptionKey for OptionStatement {
    open spec fn key(&self) -> KeyModel {
        match self {
            OptionStatement::IngestMode => KeyModel { variant: "IngestMode"@, other: None },
            OptionStatement::TargetTable => KeyModel { variant: "TargetTable"@, other: None },
            OptionStatement::TargetCatalog => KeyModel { variant: "TargetCatalog"@, other: None },
            OptionStatement::TargetDbSchema => KeyModel { variant: "TargetDbSchema"@, other: None },
            OptionStatement::Temporary => KeyModel { variant: "Temporary"@, other: None },
            OptionStatement::Incremental => KeyModel { variant: "Incremental"@, other: None },
            OptionStatement::Progress => KeyModel { variant: "Progress"@, other: None },
            OptionStatement::MaxProgress => KeyModel { variant: "MaxProgress"@, other: None },
            OptionStatement::Other(other) => KeyModel { variant: "Other"@, other: Some(other@) },
        }
    }

    fn variant(&self) -> (r: &'static str) {
        match self {
            OptionStatement::IngestMode => "IngestMode",
            OptionStatement::TargetTable => "TargetTable",
            OptionStatement::TargetCatalog => "TargetCatalog",
            OptionStatement::TargetDbSchema => "TargetDbSchema",
            OptionStatement::Temporary => "Temporary",
            OptionStatement::Incremental => "Incremental",
            OptionStatement::Progress => "Progress",
            OptionStatement::MaxProgress => "MaxProgress",
            OptionStatement::Other(_) => "Other",
        }
    }

    fn other(&self) -> (r: Option<&String>) {
        match self {
            OptionStatement::Other(other) => Some(other),
            _ => None,
        }
    }
}

/// Whether two options are the same: of the same variant, and of the same name
/// where they are the driver's own.
pub open spec fn same_database_option(a: OptionDatabase, b: OptionDatabase) -> bool {
    match (a, b) {
        (OptionDatabase::Uri, OptionDatabase::Uri) => true,
        (OptionDatabase::Username, OptionDatabase::Username) => true,
        (OptionDatabase::Password, OptionDatabase::Password) => true,
        (OptionDatabase::Other(x), OptionDatabase::Other(y)) => x@ == y@,
        _ => false,
    }
}

/// Two options of this kind have the same model just where they are the same option.
pub proof fn law_database_options_differ(a: OptionDatabase, b: OptionDatabase)
    ensures
        a.key() == b.key() <==> same_database_option(a, b),
{
    reveal_strlit("Uri");
    assert("Uri"@.len() == 3);
    reveal_strlit("Username");
    assert("Username"@.len() == 8);
    reveal_strlit("Password");
    assert("Password"@.len() == 8);
    reveal_strlit("Other");
    assert("Other"@.len() == 5);
    assert("Username"@[0] != "Password"@[0]);
}

/// Whether two options are the same: of the same variant, and of the same name
/// where they are the driver's own.
pub open spec fn same_connection_option(a: OptionConnection, b: OptionConnection) -> bool {
    match (a, b) {
        (OptionConnection::AutoCommit, OptionConnection::AutoCommit) => true,
        (OptionConnection::ReadOnly, OptionConnection::ReadOnly) => true,
        (OptionConnection::CurrentCatalog, OptionConnection::CurrentCatalog) => true,
        (OptionConnection::CurrentSchema, OptionConnection::CurrentSchema) => true,
        (OptionConnection::IsolationLevel, OptionConnection::IsolationLevel) => true,
        (OptionConnection::Other(x), OptionConnection::Other(y)) => x@ == y@,
        _ => false,
    }
}

/// Two options of this kind have the same model just where they are the same option.
pub proof fn law_connection_options_differ(a: OptionConnection, b: OptionConnection)
    ensures
        a.key() == b.key() <==> same_connection_option(a, b),
{
    reveal_strlit("AutoCommit");
    assert("AutoCommit"@.len() == 10);
    reveal_strlit("ReadOnly");
    assert("ReadOnly"@.len() == 8);
    reveal_strlit("CurrentCatalog");
    assert("CurrentCatalog"@.len() == 14);
    reveal_strlit("CurrentSchema");
    assert("CurrentSchema"@.len() == 13);
    reveal_strlit("IsolationLevel");
    assert("IsolationLevel"@.len() == 14);
    reveal_strlit("Other");
    assert("Other"@.len() == 5);
    assert("CurrentCatalog"@[0] != "IsolationLevel"@[0]);
}

/// Whether two options are the same: of the same variant, and of the same name
/// where they are the driver's own.
pub open spec fn same_statement_option(a: OptionStatement, b: OptionStatement) -> bool {
    match (a, b) {
        (OptionStatement::IngestMode, OptionStatement::IngestMode) => true,
        (OptionStatement::TargetTable, OptionStatement::TargetTable) => true,
        (OptionStatement::TargetCatalog, OptionStatement::TargetCatalog) => true,
        (OptionStatement::TargetDbSchema, OptionStatement::TargetDbSchema) => true,
        (OptionStatement::Temporary, OptionStatement::Temporary) => true,
        (OptionStatement::Incremental, OptionStatement::Incremental) => true,
        (OptionStatement::Progress, OptionStatement::Progress) => true,
        (OptionStatement::MaxProgress, OptionStatement::MaxProgress) => true,
        (OptionStatement::Other(x), OptionStatement::Other(y)) => x@ == y@,
        _ => false,
    }
}

/// Two options of this kind have the same model just where they are the same option.
pub proof fn law_statement_options_differ(a: OptionStatement, b: OptionStatement)
    ensures
        a.key() == b.key() <==> same_statement_option(a, b),
{
    reveal_strlit("IngestMode");
    assert("IngestMode"@.len() == 10);
    reveal_strlit("TargetTable");
    assert("TargetTable"@.len() == 11);
    reveal_strlit("TargetCatalog");
    assert("TargetCatalog"@.len() == 13);
    reveal_strlit("TargetDbSchema");
    assert("TargetDbSchema"@.len() == 14);
    reveal_strlit("Temporary");
    assert("Temporary"@.len() == 9);
    reveal_strlit("Incremental");
    assert("Incremental"@.len() == 11);
    reveal_strlit("Progress");
    assert("Progress"@.len() == 8);
    reveal_strlit("MaxProgress");
    assert("MaxProgress"@.len() == 11);
    reveal_strlit("Other");
    assert("Other"@.len() == 5);
    assert("TargetTable"@[0] != "Incremental"@[0]);
    assert("TargetTable"@[0] != "MaxProgress"@[0]);
    assert("Incremental"@[0] != "MaxProgress"@[0]);
}

} // verus!
