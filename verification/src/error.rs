//! Failure taxonomy of the export pipeline.
//!
//! Connection, query, transaction and conversion failures are kept apart so
//! that callers can log and act on them differently; a conversion failure
//! additionally carries the column it happened on.

use vstd::prelude::*;
use vstd::string::StringExecFns;

verus! {

/// One error class per way the store client or the transcoder can fail.
#[derive(Debug)]
pub enum DatabaseError {
    ConnectionError { message: String },
    QueryExecutionError { message: String },
    PrepareQueryError { message: String },
    TransactionError { message: String },
    ConversionError { message: String, column: String },
    TimeParseError { message: String },
    ColumnNotExists,
}

pub type DatabaseResult<T> = Result<T, DatabaseError>;

impl DatabaseError {
    pub fn connection_error(message: String) -> (e: DatabaseError)
        ensures
            e == (DatabaseError::ConnectionError { message }),
    {
        DatabaseError::ConnectionError { message }
    }

    pub fn query_execution_error(message: String) -> (e: DatabaseError)
        ensures
            e == (DatabaseError::QueryExecutionError { message }),
    {
        DatabaseError::QueryExecutionError { message }
    }

    pub fn prepare_query_error(message: String) -> (e: DatabaseError)
        ensures
            e == (DatabaseError::PrepareQueryError { message }),
    {
        DatabaseError::PrepareQueryError { message }
    }

    pub fn transaction_error(message: String) -> (e: DatabaseError)
        ensures
            e == (DatabaseError::TransactionError { message }),
    {
        DatabaseError::TransactionError { message }
    }

    pub fn conversion_error(message: String, column: String) -> (e: DatabaseError)
        ensures
            e == (DatabaseError::ConversionError { message, column }),
    {
        DatabaseError::ConversionError { message, column }
    }

    pub fn time_parse_error(message: String) -> (e: DatabaseError)
        ensures
            e == (DatabaseError::TimeParseError { message }),
    {
        DatabaseError::TimeParseError { message }
    }

    pub fn column_not_exists() -> (e: DatabaseError)
        ensures
            e == DatabaseError::ColumnNotExists,
    {
        DatabaseError::ColumnNotExists
    }

    /// The text this error describes itself with: the carried message,
    /// prefixed with the column for a conversion failure.
    pub open spec fn describe_spec(self) -> Seq<char> {
        match self {
            DatabaseError::ConnectionError { message } => message@,
            DatabaseError::QueryExecutionError { message } => message@,
            DatabaseError::PrepareQueryError { message } => message@,
            DatabaseError::TransactionError { message } => message@,
            DatabaseError::ConversionError { message, column } => "Conversion error for column `"@
                + column@ + "`: "@ + message@,
            DatabaseError::TimeParseError { message } => message@,
            DatabaseError::ColumnNotExists => "Column does not exists"@,
        }
    }

    /// Renders the error for logs and responses.
    pub fn describe(&self) -> (r: String)
        ensures
            r@ == self.describe_spec(),
    {
        match self {
            DatabaseError::ConnectionError { message } => message.clone(),
            DatabaseError::QueryExecutionError { message } => message.clone(),
            DatabaseError::PrepareQueryError { message } => message.clone(),
            DatabaseError::TransactionError { message } => message.clone(),
            DatabaseError::ConversionError { message, column } => {
                let mut out = "Conversion error for column `".to_owned();
                out.append(column.as_str());
                out.append("`: ");
                out.append(message.as_str());
                out
            },
            DatabaseError::TimeParseError { message } => message.clone(),
            DatabaseError::ColumnNotExists => "Column does not exists".to_owned(),
        }
    }
}

} // verus!
