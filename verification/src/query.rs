//! What a statement gives back once the driver has run it.

use vstd::prelude::*;
use crate::marshal::{
    decode_message, marshal_rows, marshaled, record_views, DecodeError, RawRow,
};
use crate::record::Record;
use crate::value::ValueView;

verus! {

/// Why a statement gave no result.
#[derive(Clone, Debug, PartialEq)]
pub enum QueryError {
    /// Connecting, binding or running the statement failed; the driver's
    /// message.
    Database(String),
    /// The statement ran, and a cell of its result could not be read.
    Decode(DecodeError),
}

/// The message of a query error: the driver's own message, or that of the
/// decode error.
pub open spec fn query_message(error: QueryError) -> Seq<char> {
    match error {
        QueryError::Database(message) => message@,
        QueryError::Decode(error) => decode_message(error),
    }
}

impl QueryError {
    /// The error in words.
    pub fn message(&self) -> (text: String)
        ensures
            text@ == query_message(*self),
    {
        match self {
            QueryError::Database(message) => message.clone(),
            QueryError::Decode(error) => error.message(),
        }
    }
}

/// The result of a statement that reads, from what the driver returned for
/// it.
pub open spec fn query_result(outcome: Result<Vec<RawRow>, String>) -> Result<
    Seq<Seq<(Seq<char>, ValueView)>>,
    QueryError,
> {
    match outcome {
        Err(message) => Err(QueryError::Database(message)),
        Ok(rows) => match marshaled(rows@) {
            Ok(records) => Ok(records),
            Err(error) => Err(QueryError::Decode(error)),
        },
    }
}

/// Finishes a statement that changes rows: the number of rows affected, or
/// the failure of the database.
pub fn complete_mutation(outcome: Result<u64, String>) -> (affected: Result<u64, QueryError>)
    ensures
        affected == match outcome {
            Ok(count) => Ok::<u64, QueryError>(count),
            Err(message) => Err::<u64, QueryError>(QueryError::Database(message)),
        },
{
    match outcome {
        Ok(count) => Ok(count),
        Err(message) => Err(QueryError::Database(message)),
    }
}

/// Finishes a statement that reads rows: the records of the rows that the
/// driver returned, or the failure of the database, or the first cell that
/// could not be read.
pub fn complete_query(outcome: Result<Vec<RawRow>, String>) -> (records: Result<
    Vec<Record>,
    QueryError,
>)
    ensures
        match records {
            Ok(made) => query_result(outcome) == Ok::<
                Seq<Seq<(Seq<char>, ValueView)>>,
                QueryError,
            >(record_views(made@)),
            Err(error) => query_result(outcome) == Err::<
                Seq<Seq<(Seq<char>, ValueView)>>,
                QueryError,
            >(error),
        },
{
    match outcome {
        Err(message) => Err(QueryError::Database(message)),
        Ok(rows) => match marshal_rows(&rows) {
            Ok(records) => Ok(records),
            Err(error) => Err(QueryError::Decode(error)),
        },
    }
}

} // verus!
