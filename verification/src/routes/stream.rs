//! Streaming an object back out.

use crate::instant::Instant;
use crate::object_id::ObjectId;
use crate::routes::get_named_expiration;
use crate::routes::named_expiration;
use crate::routes::named_id;
use crate::routes::parse_file_name;
use crate::routes::FileNameError;
use crate::routes::StorageError;
use crate::text::as_text;
use crate::util::get_object_path;
use crate::util::object_path;
use vstd::prelude::*;
use vstd::string::StringExecFns;

verus! {

/// Why an object is not streamed.
#[derive(Clone, Debug, PartialEq, Eq)]
pub enum GetStreamError {
    /// The file name does not start with an identifier.
    InvalidFileName,
    /// The identifier is of another version or variant.
    InvalidUUIDVersion,
    /// The timestamp of the identifier is that of no calendar date.
    InvalidUUIDTimestamp,
    /// The object has expired, or the backend holds none at its path.
    NotFound,
    /// The backend failed, with its own words.
    Unkown(String),
}

/// The storage path to stream from at the time `now` for a file name and the
/// identifier that it names, or the reason why nothing is streamed. An
/// object that has expired is not found, whatever the backend still holds.
pub open spec fn stream_source(id: Option<ObjectId>, file_name: Seq<char>, now: Instant) -> Result<
    Seq<char>,
    GetStreamError,
> {
    match named_expiration(id) {
        Err(error) => Err(GetStreamError::of_file_name(error)),
        Ok(expiration) => if expiration.reached_at(now) {
            Err(GetStreamError::NotFound)
        } else {
            Ok(object_path(expiration, file_name))
        },
    }
}

/// The storage path to stream from at the time `now`, for a file name and
/// the identifier that it names.
pub fn get_stream_source(id: Option<ObjectId>, file_name: &str, now: Instant) -> (source: Result<
    String,
    GetStreamError,
>)
    ensures
        as_text(source) == stream_source(id, file_name@, now),
{
    match get_named_expiration(id) {
        Err(error) => Err(GetStreamError::from_file_name(error)),
        Ok(expiration) => if expiration.has_passed(&now) {
            Err(GetStreamError::NotFound)
        } else {
            Ok(get_object_path(expiration, file_name))
        },
    }
}

/// The storage path to stream the file named `file_name` from at the time
/// `now`.
pub fn get_stream(file_name: &str, now: Instant) -> (source: Result<String, GetStreamError>)
    ensures
        as_text(source) == stream_source(named_id(file_name@), file_name@, now),
{
    get_stream_source(parse_file_name(file_name), file_name, now)
}

impl GetStreamError {
    /// The error that stands for a file name that gives no expiration.
    pub open spec fn of_file_name(error: FileNameError) -> GetStreamError {
        match error {
            FileNameError::InvalidFileName => GetStreamError::InvalidFileName,
            FileNameError::InvalidUUIDVersion => GetStreamError::InvalidUUIDVersion,
            FileNameError::InvalidUUIDTimestamp => GetStreamError::InvalidUUIDTimestamp,
        }
    }

    /// The error that stands for a file name that gives no expiration.
    pub fn from_file_name(error: FileNameError) -> (answer: GetStreamError)
        ensures
            answer == GetStreamError::of_file_name(error),
    {
        match error {
            FileNameError::InvalidFileName => GetStreamError::InvalidFileName,
            FileNameError::InvalidUUIDVersion => GetStreamError::InvalidUUIDVersion,
            FileNameError::InvalidUUIDTimestamp => GetStreamError::InvalidUUIDTimestamp,
        }
    }

    /// The error that a failure of the backend is answered with: a missing
    /// object is not found, like an expired one; any other failure is
    /// unknown.
    pub open spec fn of_storage(error: StorageError) -> GetStreamError {
        match error {
            StorageError::NotFound => GetStreamError::NotFound,
            StorageError::Unexpected(words) => GetStreamError::Unkown(words),
        }
    }

    /// The error that a failure of the backend is answered with.
    pub fn from_storage(error: StorageError) -> (answer: GetStreamError)
        ensures
            answer == GetStreamError::of_storage(error),
    {
        match error {
            StorageError::NotFound => GetStreamError::NotFound,
            StorageError::Unexpected(words) => GetStreamError::Unkown(words),
        }
    }

    /// The HTTP status that the error is answered with.
    pub open spec fn status(self) -> int {
        match self {
            GetStreamError::InvalidFileName => 400,
            GetStreamError::InvalidUUIDVersion => 400,
            GetStreamError::InvalidUUIDTimestamp => 400,
            GetStreamError::NotFound => 404,
            GetStreamError::Unkown(_) => 500,
        }
    }

    /// The HTTP status that the error is answered with.
    pub fn status_code(&self) -> (code: u16)
        ensures
            code == self.status(),
    {
        match self {
            GetStreamError::InvalidFileName => 400,
            GetStreamError::InvalidUUIDVersion => 400,
            GetStreamError::InvalidUUIDTimestamp => 400,
            GetStreamError::NotFound => 404,
            GetStreamError::Unkown(_) => 500,
        }
    }

    /// What the sender of the request is told: the error in words, but of a
    /// failure of the backend no more than that there was one, so that
    /// nothing of the storage shows.
    pub fn response_text(&self) -> (words: String)
        ensures
            words@ == match *self {
                GetStreamError::InvalidFileName => "Invalid filename is not UUID.EXT."@,
                GetStreamError::InvalidUUIDVersion => "UUID needs to be v7."@,
                GetStreamError::InvalidUUIDTimestamp => "UUID has an invalid timestamp."@,
                GetStreamError::NotFound => "File not found."@,
                GetStreamError::Unkown(_) => "Unkown error."@,
            },
    {
        match self {
            GetStreamError::Unkown(_) => String::from_str("Unkown error."),
            _ => self.message(),
        }
    }

    /// The error in words, for the log: a failure of the backend in the
    /// backend's own words.
    pub fn message(&self) -> (words: String)
        ensures
            words@ == match *self {
                GetStreamError::InvalidFileName => "Invalid filename is not UUID.EXT."@,
                GetStreamError::InvalidUUIDVersion => "UUID needs to be v7."@,
                GetStreamError::InvalidUUIDTimestamp => "UUID has an invalid timestamp."@,
                GetStreamError::NotFound => "File not found."@,
                GetStreamError::Unkown(words) => words@,
            },
    {
        match self {
            GetStreamError::InvalidFileName => String::from_str("Invalid filename is not UUID.EXT."),
            GetStreamError::InvalidUUIDVersion => String::from_str("UUID needs to be v7."),
            GetStreamError::InvalidUUIDTimestamp => String::from_str("UUID has an invalid timestamp."),
            GetStreamError::NotFound => String::from_str("File not found."),
            GetStreamError::Unkown(words) => words.clone(),
        }
    }
}

/// An expired object and a missing one are told apart by nobody outside: at
/// a time at which its expiration has been reached, an object is answered
/// for with the error and the status that an object is answered for which
/// the backend does not hold, and the backend is not a party to the answer.
pub proof fn lemma_expired_is_missing(id: ObjectId, file_name: Seq<char>, now: Instant)
    requires
        id.well_formed(),
        id.decoded()->Ok_0.reached_at(now),
    ensures
        stream_source(Some(id), file_name, now) == Err::<Seq<char>, GetStreamError>(
            GetStreamError::of_storage(StorageError::NotFound),
        ),
        GetStreamError::of_storage(StorageError::NotFound) == GetStreamError::NotFound,
        GetStreamError::NotFound.status() == 404,
{
}

} // verus!
