//! The errors that API handlers answer with.
use vstd::prelude::*;

use crate::shared::queries::{QueryError, QueryErrorModel};
use crate::shared::types::{
    BoundingBoxError, BoundingBoxErrorModel, FlightPathError, TimeRangeError,
};
use crate::text::concat2;

verus! {

/// The unified error type returned by all API handlers.
///
/// Each variant maps to an appropriate HTTP status code and a JSON body of
/// the form `{ "error": "<message>" }`.
#[derive(Debug)]
pub enum AppError {
    // --- 400 Bad Request ---
    InvalidBoundingBox(BoundingBoxError),
    InvalidTimeRange(TimeRangeError),
    Validation(String),
    // --- 401 Unauthorized ---
    Unauthorized,
    // --- 403 Forbidden ---
    TierLimitExceeded(String),
    // --- 404 Not Found ---
    JobNotFound,
    ResultNotFound(String),
    CodeNotFound,
    // --- 409 Conflict ---
    InvalidPrepaidCode,
    CodeExhausted,
    // --- 422 Unprocessable ---
    NoImagesFound,
    FlightPath(FlightPathError),
    // --- 500 Internal Server Error ---
    /// The database reported an error, described by this text.
    Database(String),
    Query(QueryError),
    /// The file system reported an error, described by this text.
    Io(String),
    Internal(String),
}

/// What an `AppError` says.
pub enum AppErrorModel {
    InvalidBoundingBox(BoundingBoxErrorModel),
    InvalidTimeRange(TimeRangeError),
    Validation(Seq<char>),
    Unauthorized,
    TierLimitExceeded(Seq<char>),
    JobNotFound,
    ResultNotFound(Seq<char>),
    CodeNotFound,
    InvalidPrepaidCode,
    CodeExhausted,
    NoImagesFound,
    FlightPath(FlightPathError),
    Database(Seq<char>),
    Query(QueryErrorModel),
    Io(Seq<char>),
    Internal(Seq<char>),
}

impl View for AppError {
    type V = AppErrorModel;

    open spec fn view(&self) -> AppErrorModel {
        match *self {
            AppError::InvalidBoundingBox(error) => AppErrorModel::InvalidBoundingBox(error@),
            AppError::InvalidTimeRange(error) => AppErrorModel::InvalidTimeRange(error),
            AppError::Validation(m) => AppErrorModel::Validation(m@),
            AppError::Unauthorized => AppErrorModel::Unauthorized,
            AppError::TierLimitExceeded(m) => AppErrorModel::TierLimitExceeded(m@),
            AppError::JobNotFound => AppErrorModel::JobNotFound,
            AppError::ResultNotFound(m) => AppErrorModel::ResultNotFound(m@),
            AppError::CodeNotFound => AppErrorModel::CodeNotFound,
            AppError::InvalidPrepaidCode => AppErrorModel::InvalidPrepaidCode,
            AppError::CodeExhausted => AppErrorModel::CodeExhausted,
            AppError::NoImagesFound => AppErrorModel::NoImagesFound,
            AppError::FlightPath(error) => AppErrorModel::FlightPath(error),
            AppError::Database(m) => AppErrorModel::Database(m@),
            AppError::Query(error) => AppErrorModel::Query(error@),
            AppError::Io(m) => AppErrorModel::Io(m@),
            AppError::Internal(m) => AppErrorModel::Internal(m@),
        }
    }
}

impl AppErrorModel {
    /// Whether the error is the server's own.
    pub open spec fn is_internal(self) -> bool {
        self is Database || self is Query || self is Io || self is Internal
    }

    /// The HTTP status code that answers the error.
    pub open spec fn status(self) -> u16 {
        match self {
            Self::InvalidBoundingBox(_) | Self::InvalidTimeRange(_) => 400,
            Self::Validation(_) => 400,
            Self::Unauthorized => 401,
            Self::TierLimitExceeded(_) => 403,
            Self::JobNotFound | Self::CodeNotFound => 404,
            Self::ResultNotFound(_) => 404,
            Self::InvalidPrepaidCode | Self::CodeExhausted => 409,
            Self::NoImagesFound => 422,
            Self::FlightPath(_) => 422,
            _ => 500,
        }
    }

    /// The message that the answer holds. What went wrong inside the server is
    /// not told.
    pub open spec fn message(self) -> Seq<char> {
        match self {
            Self::InvalidBoundingBox(error) => "invalid bounding box: "@ + error.text(),
            Self::InvalidTimeRange(error) => "invalid time range: "@ + error.text(),
            Self::Validation(m) => m,
            Self::Unauthorized => "missing or invalid bearer token"@,
            Self::TierLimitExceeded(m) => m,
            Self::JobNotFound => "job not found"@,
            Self::ResultNotFound(m) => m,
            Self::CodeNotFound => "prepaid code not found"@,
            Self::InvalidPrepaidCode => "prepaid code already redeemed or invalid"@,
            Self::CodeExhausted => "prepaid code has no remaining uses"@,
            Self::NoImagesFound => "no SAR images found for the given bounds and time range"@,
            Self::FlightPath(error) => "flight path error: "@ + error.text(),
            _ => "internal server error"@,
        }
    }
}

/// The answer to a failed request.
#[derive(Debug)]
pub struct ErrorResponse {
    /// The HTTP status code.
    pub status: u16,
    /// The value under `error` in the JSON body.
    pub error: String,
}

impl AppError {
    /// The answer that the error is turned into.
    pub fn into_response(&self) -> (r: ErrorResponse)
        ensures
            r.status == self@.status(),
            r.error@ == self@.message(),
    {
        match self {
            Self::InvalidBoundingBox(error) => ErrorResponse {
                status: 400,
                error: concat2("invalid bounding box: ", error.message().as_str()),
            },
            Self::InvalidTimeRange(error) => ErrorResponse {
                status: 400,
                error: concat2("invalid time range: ", error.message()),
            },
            Self::Validation(m) => ErrorResponse { status: 400, error: m.clone() },
            Self::Unauthorized => ErrorResponse {
                status: 401,
                error: "missing or invalid bearer token".to_owned(),
            },
            Self::TierLimitExceeded(m) => ErrorResponse { status: 403, error: m.clone() },
            Self::JobNotFound => ErrorResponse { status: 404, error: "job not found".to_owned() },
            Self::ResultNotFound(m) => ErrorResponse { status: 404, error: m.clone() },
            Self::CodeNotFound => ErrorResponse {
                status: 404,
                error: "prepaid code not found".to_owned(),
            },
            Self::InvalidPrepaidCode => ErrorResponse {
                status: 409,
                error: "prepaid code already redeemed or invalid".to_owned(),
            },
            Self::CodeExhausted => ErrorResponse {
                status: 409,
                error: "prepaid code has no remaining uses".to_owned(),
            },
            Self::NoImagesFound => ErrorResponse {
                status: 422,
                error: "no SAR images found for the given bounds and time range".to_owned(),
            },
            Self::FlightPath(error) => ErrorResponse {
                status: 422,
                error: concat2("flight path error: ", error.message()),
            },
            _ => ErrorResponse { status: 500, error: "internal server error".to_owned() },
        }
    }
}

/// Errors inside the server are all answered alike: their details stay inside.
pub proof fn internal_errors_tell_nothing(a: AppErrorModel, b: AppErrorModel)
    requires
        a.is_internal(),
        b.is_internal(),
    ensures
        a.status() == b.status(),
        a.message() == b.message(),
{
}

/// Only errors inside the server are answered with a status above 499.
pub proof fn client_errors_are_below_500(error: AppErrorModel)
    ensures
        400 <= error.status() <= 500,
        error.status() == 500 <==> error.is_internal(),
{
}

/// The status tells what kind of error it is: 404 that something asked for is not
/// there, 401 that the token is none, 403 that a limit of the tier is passed, 409 that
/// a code cannot be used, 422 that there are no images to use, 400 that the request
/// itself is wrong.
pub proof fn statuses_tell_errors_apart(error: AppErrorModel)
    ensures
        error.status() == 400 <==> error is InvalidBoundingBox || error is InvalidTimeRange
            || error is Validation,
        error.status() == 401 <==> error is Unauthorized,
        error.status() == 403 <==> error is TierLimitExceeded,
        error.status() == 404 <==> error is JobNotFound || error is CodeNotFound
            || error is ResultNotFound,
        error.status() == 409 <==> error is InvalidPrepaidCode || error is CodeExhausted,
        error.status() == 422 <==> error is NoImagesFound || error is FlightPath,
{
}

} // verus!
