//! Rules of the temperature store: which analysis requests it refuses, and
//! the text of its errors. The database work itself is the application's.
use vstd::prelude::*;
use vstd::string::StringExecFns;
use crate::config::MAX_ANALYSIS_ROWS;
use crate::text::{decimal_string, decimal_text};
use crate::time::{instant_lt, Timestamp};

verus! {

/// Why the store refused or failed a request.
#[derive(Debug, Clone, PartialEq, Eq)]
pub enum StoreError {
    /// The database reported an error; its message.
    Db(String),
    /// The start of the range is not before its end.
    InvalidRange,
    /// The range covers more rows than one analysis may.
    RowLimitExceeded,
}

/// The text of a store error.
pub open spec fn store_error_text(e: StoreError) -> Seq<char> {
    match e {
        StoreError::Db(m) => "database error: "@ + m@,
        StoreError::InvalidRange => "invalid time range: start must be before end"@,
        StoreError::RowLimitExceeded => "row limit exceeded (max "@ + decimal_text(
            MAX_ANALYSIS_ROWS as nat,
        ) + ")"@,
    }
}

impl StoreError {
    /// The error's message.
    pub fn message(&self) -> (s: String)
        ensures
            s@ == store_error_text(*self),
    {
        match self {
            StoreError::Db(m) => String::from_str("database error: ").concat(m.as_str()),
            StoreError::InvalidRange => String::from_str(
                "invalid time range: start must be before end",
            ),
            StoreError::RowLimitExceeded => String::from_str("row limit exceeded (max ").concat(
                decimal_string(MAX_ANALYSIS_ROWS).as_str(),
            ).concat(")"),
        }
    }
}

/// An analysis range is accepted only when its start is strictly before its end.
pub fn check_range(from: &Timestamp, to: &Timestamp) -> (r: Result<(), StoreError>)
    ensures
        r is Ok <==> instant_lt(from@, to@),
        r is Err ==> r == Err::<(), StoreError>(StoreError::InvalidRange),
{
    if !from.is_before(to) {
        return Err(StoreError::InvalidRange);
    }
    Ok(())
}

/// An analysis is refused when the count of matching rows, taken as a
/// `usize`, exceeds the row limit.
pub fn check_row_count(count: i64) -> (r: Result<(), StoreError>)
    ensures
        r is Ok <==> (count as usize) <= MAX_ANALYSIS_ROWS,
        r is Err ==> r == Err::<(), StoreError>(StoreError::RowLimitExceeded),
{
    if count as usize > MAX_ANALYSIS_ROWS {
        return Err(StoreError::RowLimitExceeded);
    }
    Ok(())
}

} // verus!
