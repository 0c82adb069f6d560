//! Rules of the web UI's JSON endpoints: the history window and the status
//! of each failure. Serving HTTP is the application's.
use vstd::prelude::*;
use vstd::string::StringExecFns;
use crate::collector::{collector_error_text, CollectorError};
use crate::storage::{store_error_text, StoreError};
use crate::time::{clock_gave, instant_lt, minus_hours_spec, Timestamp, MIN_TIMESTAMP_SECS};

verus! {

/// Hours of history shown when none are asked for.
pub const DEFAULT_HISTORY_HOURS: i64 = 24;

/// Most hours of history one request may ask for (30 days).
pub const MAX_HISTORY_HOURS: i64 = 720;

/// The HTTP status of a failed request.
#[derive(Debug, Clone, Copy, PartialEq, Eq, Structural)]
pub enum ApiStatus {
    /// 400: the request is at fault.
    BadRequest,
    /// 500: the server failed.
    InternalServerError,
}

/// A failed request: its status and the message of its JSON body.
#[derive(Debug, Clone, PartialEq, Eq)]
pub struct ApiError {
    pub status: ApiStatus,
    pub message: String,
}

/// The hours a history request covers: 24 unless given; given hours must lie
/// between 1 and 720.
pub open spec fn history_hours(hours: Option<i64>) -> Option<int> {
    let h = match hours {
        Some(h) => h as int,
        None => DEFAULT_HISTORY_HOURS as int,
    };
    if 1 <= h <= MAX_HISTORY_HOURS {
        Some(h)
    } else {
        None
    }
}

/// The history window at time `now`: from `hours` hours before now until now.
/// Hours outside 1..=720 are a bad request with the message `hours must be
/// between 1 and 720`.
pub fn history_window(hours: Option<i64>, now: Timestamp) -> (r: Result<
    (Timestamp, Timestamp),
    ApiError,
>)
    requires
        now@.0 > MIN_TIMESTAMP_SECS + MAX_HISTORY_HOURS * 3600,
    ensures
        history_hours(hours) matches Some(h) ==> (r matches Ok((from, to)) && to == now && from@
            == minus_hours_spec(now@, h)),
        history_hours(hours) is None ==> (r matches Err(e) && e.status == ApiStatus::BadRequest
            && e.message@ == "hours must be between 1 and 720"@),
{
    let h = match hours {
        Some(h) => h,
        None => DEFAULT_HISTORY_HOURS,
    };
    if h < 1 || h > MAX_HISTORY_HOURS {
        return Err(
            ApiError {
                status: ApiStatus::BadRequest,
                message: String::from_str("hours must be between 1 and 720"),
            },
        );
    }
    Ok((now.minus_hours(h), now))
}

/// What a history request answers: hours outside 1..=720 are a bad request;
/// otherwise the window ends at the reading of the system clock taken for the
/// request (`clock_gave`) and starts the asked hours before it, or, when the
/// clock gives no current time, the request fails with a server error
/// `system time unavailable`.
pub open spec fn history_answer(hours: Option<i64>, r: Result<(Timestamp, Timestamp), ApiError>) -> bool {
    match history_hours(hours) {
        None => r matches Err(e) && e.status == ApiStatus::BadRequest && e.message@
            == "hours must be between 1 and 720"@,
        Some(h) => (r matches Ok((from, to)) && clock_gave(to) && to@.0 >= 0 && from@
            == minus_hours_spec(to@, h) && instant_lt(from@, to@))
            || (r matches Err(e) && e.status == ApiStatus::InternalServerError && e.message@
            == "system time unavailable"@),
    }
}

/// The history window ending at the current time (see `history_answer` and
/// `history_window`). Hours outside 1..=720 are refused before the clock is
/// read.
pub fn history_request(hours: Option<i64>) -> (r: Result<(Timestamp, Timestamp), ApiError>)
    ensures
        history_answer(hours, r),
{
    let h = match hours {
        Some(h) => h,
        None => DEFAULT_HISTORY_HOURS,
    };
    if h < 1 || h > MAX_HISTORY_HOURS {
        return Err(
            ApiError {
                status: ApiStatus::BadRequest,
                message: String::from_str("hours must be between 1 and 720"),
            },
        );
    }
    match Timestamp::now() {
        Some(now) => history_window(hours, now),
        None => Err(
            ApiError {
                status: ApiStatus::InternalServerError,
                message: String::from_str("system time unavailable"),
            },
        ),
    }
}

/// An accepted history request ends at the time of the request (the reading
/// of the system clock taken for it) and starts the asked hours before it,
/// 24 when none are asked; the start is before the end.
pub proof fn lemma_history_ends_at_request_time(
    hours: Option<i64>,
    r: Result<(Timestamp, Timestamp), ApiError>,
)
    requires
        history_answer(hours, r),
        r is Ok,
    ensures
        clock_gave(r->Ok_0.1),
        hours matches Some(k) ==> 1 <= k <= 720 && r->Ok_0.0@ == minus_hours_spec(r->Ok_0.1@, k as int),
        hours is None ==> r->Ok_0.0@ == minus_hours_spec(r->Ok_0.1@, 24),
        instant_lt(r->Ok_0.0@, r->Ok_0.1@),
{
}

/// The response to a store failure: a bad request for an invalid range or
/// too many rows, a server error for a database error; the message is the
/// error's text, or for a database error its own message.
pub fn map_store_error(e: StoreError) -> (a: ApiError)
    ensures
        e matches StoreError::Db(m) ==> a.status == ApiStatus::InternalServerError && a.message@
            == m@,
        !(e is Db) ==> a.status == ApiStatus::BadRequest && a.message@ == store_error_text(e),
{
    match e {
        StoreError::Db(m) => ApiError { status: ApiStatus::InternalServerError, message: m },
        StoreError::InvalidRange => ApiError {
            status: ApiStatus::BadRequest,
            message: StoreError::InvalidRange.message(),
        },
        StoreError::RowLimitExceeded => ApiError {
            status: ApiStatus::BadRequest,
            message: StoreError::RowLimitExceeded.message(),
        },
    }
}

/// The response to a sensor failure: a server error with the error's text.
pub fn map_collector_error(e: &CollectorError) -> (a: ApiError)
    ensures
        a.status == ApiStatus::InternalServerError,
        a.message@ == collector_error_text(*e),
{
    ApiError { status: ApiStatus::InternalServerError, message: e.message() }
}

} // verus!
