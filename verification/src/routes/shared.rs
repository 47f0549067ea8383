//! The page of a file that was uploaded in one piece.

use crate::instant::Instant;
use crate::object_id::ObjectId;
use crate::routes::file_page;
use crate::routes::get_named_expiration;
use crate::routes::is_page_of;
use crate::routes::named_expiration;
use crate::routes::named_id;
use crate::routes::parse_file_name;
use crate::routes::FileNameError;
use crate::routes::FilePage;
use crate::routes::StorageError;
use vstd::prelude::*;
use vstd::string::StringExecFns;

verus! {

/// Why the page of a file is not shown.
#[derive(Clone, Debug, PartialEq, Eq)]
pub enum GetSharedError {
    /// The file name does not start with an identifier.
    InvalidFileName,
    /// The identifier is of another version or variant.
    InvalidUUIDVersion,
    /// The timestamp of the identifier is that of no calendar date.
    InvalidUUIDTimestamp,
    /// The backend failed, with its own words.
    Unkown(String),
}

/// The page that is shown in place of the page of a file.
#[derive(Clone, Copy, Debug, PartialEq, Eq, Structural)]
pub enum ErrorPage {
    NotFound,
    InternalServerError,
}

/// Whether `page` is what is shown at the time `now` for a file name and the
/// identifier that it names: the page of the file, whose content is had
/// under `/stream/` and which the backend is asked for under its own name,
/// or the reason why none is shown. The page of an expired file is shown
/// too; it says that the file is gone.
pub open spec fn is_shared_page(
    page: Result<FilePage, GetSharedError>,
    id: Option<ObjectId>,
    file_name: Seq<char>,
    now: Instant,
) -> bool {
    match named_expiration(id) {
        Err(error) => page == Err::<FilePage, GetSharedError>(GetSharedError::of_file_name(error)),
        Ok(expiration) => page matches Ok(shown) && is_page_of(
            shown,
            expiration,
            file_name,
            now,
            "/stream/"@,
            file_name,
        ),
    }
}

/// What is shown at the time `now` for a file name and the identifier that
/// it names.
pub fn get_shared_page(id: Option<ObjectId>, file_name: &str, now: Instant) -> (page: Result<
    FilePage,
    GetSharedError,
>)
    ensures
        is_shared_page(page, id, file_name@, now),
{
    match get_named_expiration(id) {
        Err(error) => Err(GetSharedError::from_file_name(error)),
        Ok(expiration) => Ok(file_page(expiration, file_name, now, "/stream/", file_name)),
    }
}

/// What is shown at the time `now` for the file named `file_name`.
pub fn get_shared(file_name: &str, now: Instant) -> (page: Result<FilePage, GetSharedError>)
    ensures
        is_shared_page(page, named_id(file_name@), file_name@, now),
{
    get_shared_page(parse_file_name(file_name), file_name, now)
}

/// Whether the file is there, where `found` is what the backend said when
/// asked whether it holds the file, and `None` where it was not asked
/// because the file has expired: an expired file is not there, whatever the
/// backend holds.
pub fn file_exists(found: Option<Result<bool, StorageError>>) -> (exists: Result<
    bool,
    GetSharedError,
>)
    ensures
        exists == match found {
            None => Ok::<bool, GetSharedError>(false),
            Some(Ok(held)) => Ok(held),
            Some(Err(StorageError::NotFound)) => Ok(false),
            Some(Err(StorageError::Unexpected(words))) => Err(GetSharedError::Unkown(words)),
        },
{
    match found {
        None => Ok(false),
        Some(Ok(held)) => Ok(held),
        Some(Err(StorageError::NotFound)) => Ok(false),
        Some(Err(StorageError::Unexpected(words))) => Err(GetSharedError::Unkown(words)),
    }
}

impl GetSharedError {
    /// The error that stands for a file name that gives no expiration.
    pub open spec fn of_file_name(error: FileNameError) -> GetSharedError {
        match error {
            FileNameError::InvalidFileName => GetSharedError::InvalidFileName,
            FileNameError::InvalidUUIDVersion => GetSharedError::InvalidUUIDVersion,
            FileNameError::InvalidUUIDTimestamp => GetSharedError::InvalidUUIDTimestamp,
        }
    }

    /// The error that stands for a file name that gives no expiration.
    pub fn from_file_name(error: FileNameError) -> (answer: GetSharedError)
        ensures
            answer == GetSharedError::of_file_name(error),
    {
        match error {
            FileNameError::InvalidFileName => GetSharedError::InvalidFileName,
            FileNameError::InvalidUUIDVersion => GetSharedError::InvalidUUIDVersion,
            FileNameError::InvalidUUIDTimestamp => GetSharedError::InvalidUUIDTimestamp,
        }
    }

    /// The page that the error is answered with: a file name that names
    /// no file is not found; a failure of the backend is an error of the
    /// server.
    pub fn error_page(&self) -> (page: ErrorPage)
        ensures
            page == if *self is Unkown {
                ErrorPage::InternalServerError
            } else {
                ErrorPage::NotFound
            },
    {
        match self {
            GetSharedError::Unkown(_) => ErrorPage::InternalServerError,
            _ => ErrorPage::NotFound,
        }
    }

    /// The error in words.
    pub fn message(&self) -> (words: String)
        ensures
            words@ == match *self {
                GetSharedError::InvalidFileName => "Invalid filename is not UUID.EXT."@,
                GetSharedError::InvalidUUIDVersion => "UUID needs to be v7."@,
                GetSharedError::InvalidUUIDTimestamp => "UUID has an invalid timestamp."@,
                GetSharedError::Unkown(words) => words@,
            },
    {
        match self {
            GetSharedError::InvalidFileName => String::from_str("Invalid filename is not UUID.EXT."),
            GetSharedError::InvalidUUIDVersion => String::from_str("UUID needs to be v7."),
            GetSharedError::InvalidUUIDTimestamp => String::from_str("UUID has an invalid timestamp."),
            GetSharedError::Unkown(words) => words.clone(),
        }
    }
}

} // verus!
