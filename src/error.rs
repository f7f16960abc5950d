//! The application's error type.

use vstd::prelude::*;
use crate::schema::MappingError;
use crate::text::{decimal, push_decimal};
use crate::value::sql_type_text;

verus! {

/// An error of the application, carrying its message.
#[derive(Debug, Clone)]
#[non_exhaustive]
pub enum BlueScoutError {
    /// A server function could not be run.
    ServerFn(String),
    /// A database operation failed.
    DatabaseError(String),
    /// A call to the competition-data service failed.
    ApiError(String),
    /// Any other failure.
    Custom(String),
}

/// The text of an error, as it is shown to the user.
pub open spec fn error_text(e: BlueScoutError) -> Seq<char> {
    match e {
        BlueScoutError::ServerFn(m) => "Server Error: "@ + m@,
        BlueScoutError::DatabaseError(m) => "Database Error: "@ + m@,
        BlueScoutError::ApiError(m) => "API Error: "@ + m@,
        BlueScoutError::Custom(m) => "Error: "@ + m@,
    }
}

/// The message of a row that does not map onto the record.
pub open spec fn mapping_text(e: MappingError) -> Seq<char> {
    match e {
        MappingError::MissingColumn(i) => "Invalid column index: "@ + decimal(i as nat),
        MappingError::InvalidType(i, t) => "Invalid column type "@ + sql_type_text(t)
            + " at index: "@ + decimal(i as nat),
    }
}

impl BlueScoutError {
    /// A server-function error with message `err`.
    pub fn server_fn(err: String) -> (r: BlueScoutError)
        ensures
            r == BlueScoutError::ServerFn(err),
    {
        BlueScoutError::ServerFn(err)
    }

    /// A database error with message `err`.
    pub fn database_error(err: String) -> (r: BlueScoutError)
        ensures
            r == BlueScoutError::DatabaseError(err),
    {
        BlueScoutError::DatabaseError(err)
    }

    /// A service error with message `err`.
    pub fn api_error(err: String) -> (r: BlueScoutError)
        ensures
            r == BlueScoutError::ApiError(err),
    {
        BlueScoutError::ApiError(err)
    }

    /// Any other error, with message `err`.
    pub fn custom(err: String) -> (r: BlueScoutError)
        ensures
            r == BlueScoutError::Custom(err),
    {
        BlueScoutError::Custom(err)
    }

    /// A stored row that does not map onto the record: a failed read.
    pub fn from_mapping(e: MappingError) -> (r: BlueScoutError)
        ensures
            r matches BlueScoutError::DatabaseError(m) && m@ == mapping_text(e),
    {
        let mut m = String::new();
        match e {
            MappingError::MissingColumn(i) => {
                m.append("Invalid column index: ");
                push_decimal(&mut m, i as u128);
            },
            MappingError::InvalidType(i, t) => {
                m.append("Invalid column type ");
                m.append(t.sql_type());
                m.append(" at index: ");
                push_decimal(&mut m, i as u128);
            },
        }
        proof {
            assert(m@ =~= mapping_text(e));
        }
        BlueScoutError::DatabaseError(m)
    }

    /// The text of this error, as it is shown to the user.
    pub fn message(&self) -> (r: String)
        ensures
            r@ == error_text(*self),
    {
        let (mut s, m) = match self {
            BlueScoutError::ServerFn(m) => (String::from_str("Server Error: "), m),
            BlueScoutError::DatabaseError(m) => (String::from_str("Database Error: "), m),
            BlueScoutError::ApiError(m) => (String::from_str("API Error: "), m),
            BlueScoutError::Custom(m) => (String::from_str("Error: "), m),
        };
        s.append(m.as_str());
        s
    }
}

} // verus!
