//! The page of a file under the address of files in parts, whether the file
//! came in parts or in one piece.

use crate::instant::Instant;
use crate::object_id::ObjectId;
use crate::routes::file::index::Held;
use crate::routes::file_page;
use crate::routes::get_named_expiration;
use crate::routes::is_page_of;
use crate::routes::named_expiration;
use crate::routes::named_id;
use crate::routes::parse_file_name;
use crate::routes::FileNameError;
use crate::routes::FilePage;
use crate::routes::StorageError;
use vstd::prelude::*;
use vstd::string::StringExecFns;

verus! {

/// Why the page of a file is not shown.
#[derive(Clone, Debug, PartialEq, Eq)]
pub enum GetError {
    /// The file name does not start with an identifier.
    InvalidFileName,
    /// The identifier is of another version or variant.
    InvalidUUIDVersion,
    /// The timestamp of the identifier is that of no calendar date.
    InvalidUUIDTimestamp,
    /// The backend failed, with its own words.
    Unkown(String),
}

/// The name under which the backend is asked for a file, where `held` is
/// what it holds under the name of the file: the name itself for a file in
/// one piece, and the name with a `/` behind it, which is the directory of
/// the parts, for a file in parts.
pub open spec fn lookup_name(file_name: Seq<char>, held: Held) -> Seq<char> {
    if held is Object {
        file_name
    } else {
        file_name + "/"@
    }
}

/// Whether `page` is what is shown at the time `now` for a file name and the
/// identifier that it names, where `held` is what the backend holds under
/// the name: the page of the file, whose content is had under `/file/` and
/// which the backend is asked for where its content or its parts lie, or
/// the reason why none is shown. The page of an expired file is shown too;
/// it says that the file is gone.
pub open spec fn is_view_page(
    page: Result<FilePage, GetError>,
    id: Option<ObjectId>,
    file_name: Seq<char>,
    now: Instant,
    held: Held,
) -> bool {
    match named_expiration(id) {
        Err(error) => page == Err::<FilePage, GetError>(GetError::of_file_name(error)),
        Ok(expiration) => page matches Ok(shown) && is_page_of(
            shown,
            expiration,
            file_name,
            now,
            "/file/"@,
            lookup_name(file_name, held),
        ),
    }
}

/// What is shown at the time `now` for a file name and the identifier that
/// it names, where `held` is what the backend holds under the name.
pub fn get_page(id: Option<ObjectId>, file_name: &str, now: Instant, held: Held) -> (page: Result<
    FilePage,
    GetError,
>)
    ensures
        is_view_page(page, id, file_name@, now, held),
{
    match get_named_expiration(id) {
        Err(error) => Err(GetError::from_file_name(error)),
        Ok(expiration) => match held {
            Held::Object => Ok(file_page(expiration, file_name, now, "/file/", file_name)),
            Held::Parts => {
                let parts = String::from_str(file_name).concat("/");
                Ok(file_page(expiration, file_name, now, "/file/", parts.as_str()))
            },
        },
    }
}

/// What is shown at the time `now` for the file named `file_name`, where
/// `held` is what the backend holds under the name.
pub fn get(file_name: &str, now: Instant, held: Held) -> (page: Result<FilePage, GetError>)
    ensures
        is_view_page(page, named_id(file_name@), file_name@, now, held),
{
    get_page(parse_file_name(file_name), file_name, now, held)
}

/// Whether the file is there, where `found` is what the backend said when
/// asked for its content or the directory of its parts, and `None` where it
/// was not asked because the file has expired: an expired file is not there,
/// whatever the backend holds, and neither is one that the backend does not
/// find.
pub fn file_exists(found: Option<Result<(), StorageError>>) -> (exists: Result<bool, GetError>)
    ensures
        exists == match found {
            None => Ok::<bool, GetError>(false),
            Some(Ok(_)) => Ok(true),
            Some(Err(StorageError::NotFound)) => Ok(false),
            Some(Err(StorageError::Unexpected(words))) => Err(GetError::Unkown(words)),
        },
{
    match found {
        None => Ok(false),
        Some(Ok(_)) => Ok(true),
        Some(Err(StorageError::NotFound)) => Ok(false),
        Some(Err(StorageError::Unexpected(words))) => Err(GetError::Unkown(words)),
    }
}

impl GetError {
    /// The error that stands for a file name that gives no expiration.
    pub open spec fn of_file_name(error: FileNameError) -> GetError {
        match error {
            FileNameError::InvalidFileName => GetError::InvalidFileName,
            FileNameError::InvalidUUIDVersion => GetError::InvalidUUIDVersion,
            FileNameError::InvalidUUIDTimestamp => GetError::InvalidUUIDTimestamp,
        }
    }

    /// The error that stands for a file name that gives no expiration.
    pub fn from_file_name(error: FileNameError) -> (answer: GetError)
        ensures
            answer == GetError::of_file_name(error),
    {
        match error {
            FileNameError::InvalidFileName => GetError::InvalidFileName,
            FileNameError::InvalidUUIDVersion => GetError::InvalidUUIDVersion,
            FileNameError::InvalidUUIDTimestamp => GetError::InvalidUUIDTimestamp,
        }
    }

    /// The HTTP status that the error is answered with: a file name that
    /// names no file is not found; a failure of the backend is an error of
    /// the server.
    pub fn status_code(&self) -> (code: u16)
        ensures
            code == if *self is Unkown {
                500int
            } else {
                404int
            },
    {
        match self {
            GetError::Unkown(_) => 500,
            _ => 404,
        }
    }

    /// What the page that answers the error says.
    pub fn page_text(&self) -> (words: String)
        ensures
            words@ == if *self is Unkown {
                "An unknown error occured when trying view file."@
            } else {
                "File name is invalid and therefore could not be found."@
            },
    {
        match self {
            GetError::Unkown(_) => String::from_str("An unknown error occured when trying view file."),
            _ => String::from_str("File name is invalid and therefore could not be found."),
        }
    }

    /// The error in words.
    pub fn message(&self) -> (words: String)
        ensures
            words@ == match *self {
                GetError::InvalidFileName => "Invalid filename is not UUID.EXT."@,
                GetError::InvalidUUIDVersion => "UUID needs to be v7."@,
                GetError::InvalidUUIDTimestamp => "UUID has an invalid timestamp."@,
                GetError::Unkown(words) => words@,
            },
    {
        match self {
            GetError::InvalidFileName => String::from_str("Invalid filename is not UUID.EXT."),
            GetError::InvalidUUIDVersion => String::from_str("UUID needs to be v7."),
            GetError::InvalidUUIDTimestamp => String::from_str("UUID has an invalid timestamp."),
            GetError::Unkown(words) => words.clone(),
        }
    }
}

} // verus!
