use vstd::prelude::*;

verus! {

/// What every answer of the ride API wraps: the data on success, or an
/// error with a message.
#[derive(Debug, PartialEq, Clone)]
pub enum ApiResponse<T> {
    Success { data: T },
    Error { error: ApiError },
}

/// The message of a failed API answer.
#[derive(Debug, PartialEq, Clone)]
pub struct ApiError {
    pub message: String,
}

/// A ride as stored in the `rides` table. `created_date` counts
/// microseconds since the Unix epoch, in UTC (the database keeps it at
/// that precision).
#[derive(Debug, PartialEq, Clone)]
pub struct Ride {
    pub id: i32,
    pub title: String,
    pub description: String,
    pub created_date: i64,
}

/// A file attached to a ride, as stored in the `ride_files` table.
/// `created_date` counts microseconds since the Unix epoch, in UTC.
#[derive(Debug, PartialEq, Clone)]
pub struct RideFile {
    pub id: i32,
    pub created_date: i64,
    pub description: String,
    pub rides_id: i32,
    pub file_name: String,
    pub file_type: String,
}

/// The fields a client gives to create a ride.
#[derive(Debug, PartialEq, Clone)]
pub struct InsertableRide {
    pub title: String,
    pub description: String,
}

/// The fields of a new row of the `ride_files` table.
#[derive(Debug, PartialEq, Clone)]
pub struct InsertableRideFile {
    pub description: String,
    pub rides_id: i32,
    pub file_name: String,
    pub file_type: String,
}

/// A ride together with every file attached to it.
#[derive(Debug, PartialEq, Clone)]
pub struct RideWithFiles {
    pub id: i32,
    pub title: String,
    pub description: String,
    pub created_date: i64,
    pub ride_files: Vec<RideFile>,
}

/// What the upload form carries: a new ride and, optionally, files.
#[derive(Debug, PartialEq, Clone)]
pub struct RideData {
    pub title: String,
    pub description: String,
    pub data: Option<Vec<UploadedFile>>,
}

/// What the service reads of one uploaded file: the sanitized name the
/// client gave it (without extension), if any, and what is known of its
/// content type, if it has one.
#[derive(Debug, PartialEq, Clone)]
pub struct UploadedFile {
    pub name: Option<String>,
    pub content_type: Option<ContentKind>,
}

/// What the service reads of a content type: the file extension that
/// belongs to it, if it is a known media type, and whether it is PNG or
/// JPEG.
#[derive(Debug, PartialEq, Clone)]
pub struct ContentKind {
    pub extension: Option<String>,
    pub is_png: bool,
    pub is_jpeg: bool,
}

/// A failed database operation, with the database's message.
#[derive(Debug, PartialEq, Clone)]
pub struct DbError {
    pub message: String,
}

/// The HTTP status of an answer that the ride API gives.
#[derive(Debug, PartialEq, Eq, Structural, Clone, Copy)]
pub enum ResponseStatus {
    Success,
    NotFound,
    ServiceUnavailable,
    InternalServerError,
}

/// The numeric HTTP status code of each answer status.
pub open spec fn status_code(s: ResponseStatus) -> u16 {
    match s {
        ResponseStatus::Success => 200,
        ResponseStatus::NotFound => 404,
        ResponseStatus::ServiceUnavailable => 503,
        ResponseStatus::InternalServerError => 500,
    }
}

impl ResponseStatus {
    /// The numeric HTTP status code.
    pub fn code(&self) -> (c: u16)
        ensures
            c == status_code(*self),
    {
        match self {
            ResponseStatus::Success => 200,
            ResponseStatus::NotFound => 404,
            ResponseStatus::ServiceUnavailable => 503,
            ResponseStatus::InternalServerError => 500,
        }
    }
}

} // verus!
