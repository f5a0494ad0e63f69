//! Errors of the driver interface.

use crate::arrow::schema::{display_error, error_text};
use arrow_schema::ArrowError;
use vstd::prelude::*;

verus! {

/// The kind of a failure.
#[derive(Debug, Clone, Copy, PartialEq, Eq, Structural)]
pub enum Status {
    /// An unknown error.
    Unknown,
    /// The operation is not implemented or supported.
    NotImplemented,
    /// A requested resource was not found.
    NotFound,
    /// A requested resource already exists.
    AlreadyExists,
    /// The arguments are invalid.
    InvalidArguments,
    /// The preconditions of the operation are not met.
    InvalidState,
    /// Data was not valid.
    InvalidData,
    /// The integrity of the database was violated.
    Integrity,
    /// An error internal to the driver or the database.
    Internal,
    /// An error in input or output.
    IO,
    /// The operation was cancelled.
    Cancelled,
    /// The operation took too long.
    Timeout,
    /// Authentication failed.
    Unauthenticated,
    /// The client may not do this.
    Unauthorized,
}

/// The vendor code that says that an error carries driver-specific details.
pub const ADBC_ERROR_VENDOR_CODE_PRIVATE_DATA: i32 = i32::MIN;

/// A failure of an operation of the driver.
#[derive(Debug, Clone, PartialEq, Eq)]
pub struct Error {
    /// A text for people.
    pub message: String,
    /// The kind of the failure.
    pub status: Status,
    /// A code that means something to the vendor.
    pub vendor_code: i32,
    /// The five characters of an SQLSTATE.
    pub sqlstate: [i8; 5],
    /// Named details.
    pub details: Option<Vec<(String, Vec<u8>)>>,
}

/// The result of an operation of the driver.
pub type Result<T> = core::result::Result<T, Error>;

impl Error {
    /// Whether the error says this and nothing beyond it.
    pub open spec fn says(&self, message: Seq<char>, status: Status) -> bool {
        &&& self.message@ == message
        &&& self.status == status
        &&& self.vendor_code == 0
        &&& self.sqlstate@ == seq![0i8, 0i8, 0i8, 0i8, 0i8]
        &&& self.details is None
    }

    /// An error with a message and a status, and nothing beyond them.
    pub fn with_message_and_status(message: String, status: Status) -> (r: Self)
        ensures
            r.says(message@, status),
    {
        let r = Error { message, status, vendor_code: 0, sqlstate: [0, 0, 0, 0, 0], details: None };
        assert(r.sqlstate@ =~= seq![0i8, 0i8, 0i8, 0i8, 0i8]);
        r
    }

    /// An error of Arrow, as an internal error with the same text.
    pub fn from_arrow(error: ArrowError) -> (r: Self)
        ensures
            r.says(error_text(error), Status::Internal),
    {
        Error::with_message_and_status(display_error(&error), Status::Internal)
    }
}

} // verus!
