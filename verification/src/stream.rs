//! The stream of records that a query returns.

use crate::error::{Error, InternalError};
use crate::json::json_of;
use crate::parse::{column_records, parse_change_stream_records};
use crate::record::{ChangeStreamRecord, RecordView};
use vstd::prelude::*;

verus! {

/// The position of the `ChangeRecord` column, the only one that a change stream query returns.
pub const CHANGE_RECORD_COLUMN: usize = 0;

/// What came of asking the service for the next row; `S` is the error type of the service.
#[derive(Debug)]
pub enum FetchedRow<S> {
    /// There are no more rows.
    Exhausted,
    /// The row could not be fetched.
    RowError(S),
    /// The row has come, but its `ChangeRecord` column could not be read.
    ColumnError(S),
    /// The `ChangeRecord` column of the row.
    Column(serde_json::Value),
}

/// A stream of [`ChangeStreamRecord`] values from a change stream query.
///
/// `R` is the result set that the rows are pulled from.
///
/// The stream may return [`PartitionStartRecord`](crate::record::PartitionStartRecord)s that
/// contain tokens for child partitions. Callers should spawn new queries for those tokens to read
/// the full change stream.
#[derive(Debug)]
pub struct ChangeStreamRecordStream<R> {
    pub result_set: R,
}

impl<R> ChangeStreamRecordStream<R> {
    /// The stream over the result set that the service returned, or the service's error.
    pub fn open<S>(reply: Result<R, S>) -> (stream: Result<Self, Error<S>>)
        ensures
            stream == match reply {
                Ok(result_set) => Ok::<Self, Error<S>>(ChangeStreamRecordStream { result_set }),
                Err(error) => Err::<Self, Error<S>>(Error::Service(error)),
            },
    {
        match reply {
            Ok(result_set) => Ok(ChangeStreamRecordStream { result_set }),
            Err(error) => Err(Error::Service(error)),
        }
    }

    /// Returns the next batch of [`ChangeStreamRecord`] values, given the row that was pulled from
    /// the result set.
    ///
    /// Each row contains an array in its single `ChangeRecord` column. Per the Spanner docs the
    /// array always contains exactly one element, but this method returns a `Vec` for forward
    /// compatibility.
    ///
    /// Returns `None` when the stream is exhausted.
    pub fn next<S>(&mut self, row: FetchedRow<S>) -> (records: Option<
        Result<Vec<ChangeStreamRecord>, Error<S>>,
    >)
        ensures
            *final(self) == *old(self),
            match row {
                FetchedRow::Exhausted => records is None,
                FetchedRow::RowError(error) | FetchedRow::ColumnError(error) => records == Some(
                    Err::<Vec<ChangeStreamRecord>, Error<S>>(Error::Service(error)),
                ),
                FetchedRow::Column(value) => match records {
                    Some(Ok(records)) => column_records(json_of(value)) == Ok::<
                        Seq<Option<RecordView>>,
                        Seq<char>,
                    >(records.deep_view()),
                    Some(Err(Error::Internal(error))) => column_records(json_of(value)) == Err::<
                        Seq<Option<RecordView>>,
                        Seq<char>,
                    >(error.deep_view()),
                    _ => false,
                },
            },
    {
        let value = match row {
            FetchedRow::Exhausted => return None,
            FetchedRow::RowError(error) => return Some(Err(Error::Service(error))),
            FetchedRow::ColumnError(error) => return Some(Err(Error::Service(error))),
            FetchedRow::Column(value) => value,
        };
        match parse_change_stream_records(&value) {
            Ok(records) => Some(Ok(records)),
            Err(error) => Some(Err(Error::Internal(error))),
        }
    }
}

/// The column that is read is the one that a query selects, which is the first and only one.
pub proof fn law_the_only_column_is_read()
    ensures
        CHANGE_RECORD_COLUMN < 1,
{
}

} // verus!
