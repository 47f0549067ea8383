//! What the handlers of requests decide: which object a request names,
//! whether it may still be had, where it lies in storage, and what is
//! answered when it cannot be had.

use crate::instant::Instant;
use crate::media::duration_in_words;
use crate::media::duration_words;
use crate::media::file_viewer;
use crate::media::guessed_media_type;
use crate::media::media_type_of;
use crate::media::viewer_for;
use crate::media::Viewer;
use crate::object_id::lemma_uuid_text_is_plain;
use crate::object_id::uuid_parse;
use crate::object_id::uuid_text;
use crate::object_id::InvalidIdentifier;
use crate::object_id::ObjectId;
use crate::paths::is_plain;
use crate::paths::lemma_stem_and_extension;
use crate::paths::relative_extension;
use crate::paths::relative_file_stem;
use crate::paths::relative_path_extension;
use crate::paths::relative_path_file_stem;
use crate::util::get_object_path;
use crate::util::object_path;
use vstd::prelude::*;
use vstd::string::StringExecFns;

pub mod file;
pub mod index;
pub mod shared;
pub mod stream;

verus! {

/// Why the storage backend did not do what it was asked to.
#[derive(Clone, Debug, PartialEq, Eq)]
pub enum StorageError {
    /// There is nothing at the path.
    NotFound,
    /// Anything else, with the backend's own words.
    Unexpected(String),
}

/// The identifier that a file name `id.extension` names: what its stem
/// spells, where it spells an identifier.
pub open spec fn named_id(file_name: Seq<char>) -> Option<ObjectId> {
    match relative_file_stem(file_name) {
        Some(stem) => match uuid_parse(stem) {
            Some(bits) => Some(ObjectId { bits }),
            None => None,
        },
        None => None,
    }
}

/// A name that is made of the text of an identifier, a `.` and a plain
/// extension names that identifier, where the text of the identifier spells
/// the identifier.
pub proof fn lemma_stored_name_leads_back(id: ObjectId, extension: Seq<char>)
    requires
        id.reads_back(),
        is_plain(extension),
    ensures
        named_id(uuid_text(id.bits) + seq!['.'] + extension) == Some(id),
{
    lemma_uuid_text_is_plain(id.bits);
    lemma_stem_and_extension(uuid_text(id.bits), extension);
}

/// Why a file name gives no expiration instant.
#[derive(Clone, Copy, Debug, PartialEq, Eq, Structural)]
pub enum FileNameError {
    /// The file name does not start with an identifier.
    InvalidFileName,
    /// The identifier is of another version or variant.
    InvalidUUIDVersion,
    /// The timestamp of the identifier is that of no calendar date.
    InvalidUUIDTimestamp,
}

/// The expiration of the object that a file name names, where `id` is the
/// identifier that it names, or the reason why there is none.
pub open spec fn named_expiration(id: Option<ObjectId>) -> Result<Instant, FileNameError> {
    match id {
        None => Err(FileNameError::InvalidFileName),
        Some(id) => match id.decoded() {
            Err(InvalidIdentifier::Version) => Err(FileNameError::InvalidUUIDVersion),
            Err(InvalidIdentifier::Timestamp) => Err(FileNameError::InvalidUUIDTimestamp),
            Ok(expiration) => Ok(expiration),
        },
    }
}

/// The identifier that a file name `id.extension` names.
pub fn parse_file_name(file_name: &str) -> (id: Option<ObjectId>)
    ensures
        id == named_id(file_name@),
{
    match relative_path_file_stem(file_name) {
        Some(stem) => ObjectId::from_text(stem.as_str()),
        None => None,
    }
}

/// The expiration of the object that a file name names, where `id` is the
/// identifier that it names.
pub fn get_named_expiration(id: Option<ObjectId>) -> (expiration: Result<Instant, FileNameError>)
    ensures
        expiration == named_expiration(id),
{
    match id {
        None => Err(FileNameError::InvalidFileName),
        Some(id) => match id.decode_expiration() {
            Err(InvalidIdentifier::Version) => Err(FileNameError::InvalidUUIDVersion),
            Err(InvalidIdentifier::Timestamp) => Err(FileNameError::InvalidUUIDTimestamp),
            Ok(expiration) => Ok(expiration),
        },
    }
}

/// What the page of a file shows.
#[derive(Clone, Debug, PartialEq, Eq)]
pub struct FilePage {
    /// When the file expires.
    pub expiration: Instant,
    /// The storage path at which the backend is asked for the file; `None`
    /// once the file has expired, when the backend is not asked.
    pub lookup: Option<String>,
    /// The address that the content of the file is had from.
    pub file_source: String,
    /// The time that is left to the file, in words.
    pub expires_in: String,
    /// The viewer that suits the file, if any does.
    pub viewer: Option<Viewer>,
}

/// The time that is left at `now` until `expiration`, in words; and words
/// to the effect that there is none once `expiration` has passed.
pub open spec fn time_left(now: Instant, expiration: Instant) -> Seq<char> {
    if now.nanos_until(expiration) < 0 {
        "UNABLE TO PARSE"@
    } else {
        duration_words((now.nanos_until(expiration) / 1_000_000_000) as u64)
    }
}

/// Whether `viewer` is the viewer that suits the file named `file_name`,
/// which expires at `expiration`: that of the media type that its extension
/// suggests, and none where it has no extension or the extension suggests
/// nothing.
pub open spec fn suits(viewer: Option<Viewer>, file_name: Seq<char>, expiration: Instant) -> bool {
    match relative_extension(file_name) {
        None => viewer is None,
        Some(extension) => match guessed_media_type(extension) {
            None => viewer is None,
            Some((kind, text)) => viewer_for(kind, text, object_path(expiration, file_name), viewer),
        },
    }
}

/// Whether `page` is the page at the time `now` of the file named
/// `file_name`, which expires at `expiration`, where the content is had from
/// the address `source_prefix` and then the file name, and the backend is
/// asked for `lookup_name` in the bucket of the file.
pub open spec fn is_page_of(
    page: FilePage,
    expiration: Instant,
    file_name: Seq<char>,
    now: Instant,
    source_prefix: Seq<char>,
    lookup_name: Seq<char>,
) -> bool {
    &&& page.expiration == expiration
    &&& match page.lookup {
        Some(path) => now.precedes(expiration) && path@ == object_path(expiration, lookup_name),
        None => !now.precedes(expiration),
    }
    &&& page.file_source@ == source_prefix + file_name
    &&& page.expires_in@ == time_left(now, expiration)
    &&& suits(page.viewer, file_name, expiration)
}

/// The time that is left at `now` until `expiration`, in words.
pub fn expires_in(now: Instant, expiration: Instant) -> (words: String)
    ensures
        words@ == time_left(now, expiration),
{
    match now.whole_seconds_until(&expiration) {
        Some(seconds) => duration_in_words(seconds),
        None => String::from_str("UNABLE TO PARSE"),
    }
}

/// The viewer that suits the file named `file_name`, which expires at
/// `expiration`.
pub fn viewer_of(file_name: &str, expiration: Instant) -> (viewer: Option<Viewer>)
    ensures
        suits(viewer, file_name@, expiration),
{
    let extension = match relative_path_extension(file_name) {
        Some(extension) => extension,
        None => {
            return None;
        },
    };
    match media_type_of(extension.as_str()) {
        Some(media_type) => file_viewer(media_type, get_object_path(expiration, file_name)),
        None => None,
    }
}

/// The page at the time `now` of the file named `file_name`, which expires
/// at `expiration`.
pub fn file_page(
    expiration: Instant,
    file_name: &str,
    now: Instant,
    source_prefix: &str,
    lookup_name: &str,
) -> (page: FilePage)
    ensures
        is_page_of(page, expiration, file_name@, now, source_prefix@, lookup_name@),
{
    let lookup = if now.is_before(&expiration) {
        Some(get_object_path(expiration, lookup_name))
    } else {
        None
    };
    FilePage {
        expiration,
        lookup,
        file_source: String::from_str(source_prefix).concat(file_name),
        expires_in: expires_in(now, expiration),
        viewer: viewer_of(file_name, expiration),
    }
}

} // verus!
