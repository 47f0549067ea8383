//! Reading back an object under the address of objects in parts, whether it
//! came in parts or in one piece, and writing one part of an object.

use crate::decimal::parse_decimal_usize;
use crate::decimal::parse_usize;
use crate::instant::Instant;
use crate::object_id::ObjectId;
use crate::routes::get_named_expiration;
use crate::routes::named_expiration;
use crate::routes::named_id;
use crate::routes::parse_file_name;
use crate::routes::FileNameError;
use crate::routes::StorageError;
use crate::text::as_text;
use crate::text::text_of;
use crate::util::get_and_validate_multipart_field;
use crate::util::get_object_path;
use crate::util::get_part_path;
use crate::util::object_path;
use crate::util::part_path;
use crate::util::required_field;
use crate::util::FieldHead;
use crate::util::MultipartError;
use vstd::prelude::*;
use vstd::std_specs::convert::FromSpecImpl;
use vstd::string::StringExecFns;

verus! {

/// Why an object is not read back.
#[derive(Clone, Debug, PartialEq, Eq)]
pub enum GetError {
    /// The file name does not start with an identifier.
    InvalidFileName,
    /// The identifier is of another version or variant.
    InvalidUUIDVersion,
    /// The timestamp of the identifier is that of no calendar date.
    InvalidUUIDTimestamp,
    /// The object has expired, or the backend holds none at its path.
    NotFound,
    /// The backend failed, with its own words.
    Unkown(String),
}

/// Why a part of an object is not written.
#[derive(Clone, Debug, PartialEq, Eq)]
pub enum PostError {
    /// The form lacks the field of this name.
    MissingField(&'static str),
    /// The field that numbers the part holds no number.
    InvalidPartField,
    /// The file name does not start with an identifier.
    InvalidFileName,
    /// The identifier is of another version or variant.
    InvalidUUIDVersion,
    /// The timestamp of the identifier is that of no calendar date.
    InvalidUUIDTimestamp,
    /// The form or the backend failed, with its own words.
    Unkown(String),
}

/// The part that an object in parts is read back from. Parts of any number
/// are written, but reading does not put them together: it hands out this
/// one part and no other. Whoever comes to read objects of several parts has
/// this one place to change.
pub const FIRST_PART: usize = 0;

/// What the backend holds under the name of an object.
#[derive(Clone, Copy, Debug, PartialEq, Eq, Structural)]
pub enum Held {
    /// The object itself, which came in one piece.
    Object,
    /// The parts of the object, each under its number, or nothing at all.
    Parts,
}

/// The storage path at which the backend is asked at the time `now` what it
/// holds of an object, for a file name and the identifier that it names, or
/// the reason why it is not asked: the path of the object in its bucket. Of
/// an object that has expired the backend is not asked; it is not found.
pub open spec fn probe_path(id: Option<ObjectId>, file_name: Seq<char>, now: Instant) -> Result<
    Seq<char>,
    GetError,
> {
    match named_expiration(id) {
        Err(error) => Err(GetError::of_file_name(error)),
        Ok(expiration) => if expiration.reached_at(now) {
            Err(GetError::NotFound)
        } else {
            Ok(object_path(expiration, file_name))
        },
    }
}

/// What the backend holds under the name of an object, where `found` is what
/// it said when asked at the path of the object, and `None` where it was not
/// asked: where it was not asked or finds nothing there, the object lies in
/// parts if it lies anywhere; where it fails otherwise, its own words are
/// all that is known.
pub open spec fn held_of(found: Option<Result<Held, StorageError>>) -> Result<Held, String> {
    match found {
        None => Ok(Held::Parts),
        Some(Ok(held)) => Ok(held),
        Some(Err(StorageError::NotFound)) => Ok(Held::Parts),
        Some(Err(StorageError::Unexpected(words))) => Err(words),
    }
}

/// The storage path to read from at the time `now` for a file name and the
/// identifier that it names, or the reason why nothing is read, where `held`
/// is what the backend holds under the name: the path of the object where it
/// holds the object itself, which is the path that an object in one piece is
/// written to, and the path of the first part where it holds parts. An
/// object that has expired is not found, whatever the backend still holds.
pub open spec fn read_source(
    id: Option<ObjectId>,
    file_name: Seq<char>,
    now: Instant,
    held: Held,
) -> Result<Seq<char>, GetError> {
    match named_expiration(id) {
        Err(error) => Err(GetError::of_file_name(error)),
        Ok(expiration) => if expiration.reached_at(now) {
            Err(GetError::NotFound)
        } else if held is Object {
            Ok(object_path(expiration, file_name))
        } else {
            Ok(part_path(expiration, file_name, FIRST_PART as int))
        },
    }
}

/// The storage path that a part is written to, for a file name, the
/// identifier that it names, and the content of the field that numbers the
/// part (`None` where the field could not be read as text), or the reason why
/// nothing is written. The number is looked at first. Whether the object has
/// expired is not asked.
pub open spec fn write_target(
    id: Option<ObjectId>,
    file_name: Seq<char>,
    part: Option<Seq<char>>,
) -> Result<Seq<char>, PostError> {
    match part {
        None => Err(PostError::InvalidPartField),
        Some(number) => match parse_usize(number) {
            None => Err(PostError::InvalidPartField),
            Some(part) => match named_expiration(id) {
                Err(error) => Err(PostError::of_file_name(error)),
                Ok(expiration) => Ok(part_path(expiration, file_name, part as int)),
            },
        },
    }
}

/// The storage path at which the backend is asked at the time `now` what it
/// holds of an object, for a file name and the identifier that it names.
pub fn get_probe_path(id: Option<ObjectId>, file_name: &str, now: Instant) -> (probe: Result<
    String,
    GetError,
>)
    ensures
        as_text(probe) == probe_path(id, file_name@, now),
{
    match get_named_expiration(id) {
        Err(error) => Err(GetError::from_file_name(error)),
        Ok(expiration) => if expiration.has_passed(&now) {
            Err(GetError::NotFound)
        } else {
            Ok(get_object_path(expiration, file_name))
        },
    }
}

/// The storage path at which the backend is asked at the time `now` what it
/// holds of the file named `file_name`.
pub fn probe(file_name: &str, now: Instant) -> (probe: Result<String, GetError>)
    ensures
        as_text(probe) == probe_path(named_id(file_name@), file_name@, now),
{
    get_probe_path(parse_file_name(file_name), file_name, now)
}

impl Held {
    /// What the backend holds under the name of an object, where `found` is
    /// what it said when asked at the path of the object, and `None` where
    /// it was not asked.
    pub fn of(found: Option<Result<Held, StorageError>>) -> (held: Result<Held, String>)
        ensures
            held == held_of(found),
    {
        match found {
            None => Ok(Held::Parts),
            Some(Ok(held)) => Ok(held),
            Some(Err(StorageError::NotFound)) => Ok(Held::Parts),
            Some(Err(StorageError::Unexpected(words))) => Err(words),
        }
    }
}

/// The storage path to read from at the time `now`, for a file name and the
/// identifier that it names, where `held` is what the backend holds under
/// the name.
pub fn get_source(id: Option<ObjectId>, file_name: &str, now: Instant, held: Held) -> (source:
    Result<String, GetError>)
    ensures
        as_text(source) == read_source(id, file_name@, now, held),
{
    match get_named_expiration(id) {
        Err(error) => Err(GetError::from_file_name(error)),
        Ok(expiration) => if expiration.has_passed(&now) {
            Err(GetError::NotFound)
        } else {
            match held {
                Held::Object => Ok(get_object_path(expiration, file_name)),
                Held::Parts => Ok(get_part_path(expiration, file_name, FIRST_PART)),
            }
        },
    }
}

/// The storage path to read the file named `file_name` from at the time
/// `now`, where `held` is what the backend holds under the name.
pub fn get(file_name: &str, now: Instant, held: Held) -> (source: Result<String, GetError>)
    ensures
        as_text(source) == read_source(named_id(file_name@), file_name@, now, held),
{
    get_source(parse_file_name(file_name), file_name, now, held)
}

/// The storage path that a part is written to, for a file name, the
/// identifier that it names, and the content of the field that numbers the
/// part.
pub fn post_target(id: Option<ObjectId>, file_name: &str, part: Option<&str>) -> (target: Result<
    String,
    PostError,
>)
    ensures
        as_text(target) == write_target(id, file_name@, text_of(part)),
{
    let number = match part {
        Some(number) => number,
        None => {
            return Err(PostError::InvalidPartField);
        },
    };
    let part = match parse_decimal_usize(number) {
        Some(part) => part,
        None => {
            return Err(PostError::InvalidPartField);
        },
    };
    match get_named_expiration(id) {
        Err(error) => Err(PostError::from_file_name(error)),
        Ok(expiration) => Ok(get_part_path(expiration, file_name, part)),
    }
}

/// The storage path that a part of the file named `file_name` is written
/// to, where `part` is the content of the field that numbers the part.
pub fn post(file_name: &str, part: Option<&str>) -> (target: Result<String, PostError>)
    ensures
        as_text(target) == write_target(named_id(file_name@), file_name@, text_of(part)),
{
    post_target(parse_file_name(file_name), file_name, part)
}

/// A form that carries one part of a file, of which nothing has been read.
/// The form is read field by field, and each step takes what reading on gave
/// and tells what the form has to go on with: first the field `Part` and its
/// text, which numbers the part; then the field `File`, which carries the
/// content.
#[derive(Clone, Copy, Debug, PartialEq, Eq)]
pub struct PartIntake {}

/// A form whose field `Part` has been found and is read.
#[derive(Clone, Copy, Debug, PartialEq, Eq)]
pub struct PartFound {}

/// A form of which it is known where its part is written to.
#[derive(Clone, Debug, PartialEq, Eq)]
pub struct AwaitingContent {
    /// The storage path that the part is written to.
    pub target: String,
}

/// A form whose field `File` has been found: its content is written to
/// `target`.
#[derive(Clone, Debug, PartialEq, Eq)]
pub struct Content {
    /// The storage path that the part is written to.
    pub target: String,
}

impl PartIntake {
    /// The form before it is read.
    pub fn begin() -> (form: PartIntake)
        ensures
            form == (PartIntake {  }),
    {
        PartIntake {  }
    }

    /// The form has to start with the field `Part`.
    pub fn part_field(self, next: Result<Option<FieldHead>, String>) -> (step: Result<
        PartFound,
        PostError,
    >)
        ensures
            step == match required_field("Part", next) {
                Ok(_) => Ok::<PartFound, PostError>(PartFound {  }),
                Err(error) => Err(PostError::of_form(error)),
            },
    {
        match get_and_validate_multipart_field("Part", next) {
            Ok(_) => Ok(PartFound {  }),
            Err(error) => Err(PostError::from(error)),
        }
    }
}

impl PartFound {
    /// The text of the field `Part` numbers the part, and with the name of
    /// the file says where the part is written to; `None` stands for a text
    /// that could not be read.
    pub fn part_text(self, file_name: &str, text: Option<&str>) -> (step: Result<
        AwaitingContent,
        PostError,
    >)
        ensures
            match write_target(named_id(file_name@), file_name@, text_of(text)) {
                Ok(target) => step matches Ok(found) && found.target@ == target,
                Err(error) => step == Err::<AwaitingContent, PostError>(error),
            },
    {
        match post(file_name, text) {
            Ok(target) => Ok(AwaitingContent { target }),
            Err(error) => Err(error),
        }
    }
}

impl AwaitingContent {
    /// After the number of the part the form has to go on with the field
    /// `File`.
    pub fn file_field(self, next: Result<Option<FieldHead>, String>) -> (step: Result<
        Content,
        PostError,
    >)
        ensures
            step == match required_field("File", next) {
                Ok(_) => Ok::<Content, PostError>(Content { target: self.target }),
                Err(error) => Err(PostError::of_form(error)),
            },
    {
        match get_and_validate_multipart_field("File", next) {
            Ok(_) => Ok(Content { target: self.target }),
            Err(error) => Err(PostError::from(error)),
        }
    }
}

impl Content {
    /// What becomes of the part, where `written` tells how writing its
    /// content went.
    pub fn written(self, written: Result<(), String>) -> (done: Result<(), PostError>)
        ensures
            done == match written {
                Ok(_) => Ok::<(), PostError>(()),
                Err(words) => Err(PostError::Unkown(words)),
            },
    {
        match written {
            Ok(_) => Ok(()),
            Err(words) => Err(PostError::Unkown(words)),
        }
    }
}

impl GetError {
    /// The error that stands for a file name that gives no expiration.
    pub open spec fn of_file_name(error: FileNameError) -> GetError {
        match error {
            FileNameError::InvalidFileName => GetError::InvalidFileName,
            FileNameError::InvalidUUIDVersion => GetError::InvalidUUIDVersion,
            FileNameError::InvalidUUIDTimestamp => GetError::InvalidUUIDTimestamp,
        }
    }

    /// The error that stands for a file name that gives no expiration.
    pub fn from_file_name(error: FileNameError) -> (answer: GetError)
        ensures
            answer == GetError::of_file_name(error),
    {
        match error {
            FileNameError::InvalidFileName => GetError::InvalidFileName,
            FileNameError::InvalidUUIDVersion => GetError::InvalidUUIDVersion,
            FileNameError::InvalidUUIDTimestamp => GetError::InvalidUUIDTimestamp,
        }
    }

    /// The error that a failure of the backend is answered with: a missing
    /// object is not found, like an expired one; any other failure is
    /// unknown.
    pub open spec fn of_storage(error: StorageError) -> GetError {
        match error {
            StorageError::NotFound => GetError::NotFound,
            StorageError::Unexpected(words) => GetError::Unkown(words),
        }
    }

    /// The error that a failure of the backend is answered with.
    pub fn from_storage(error: StorageError) -> (answer: GetError)
        ensures
            answer == GetError::of_storage(error),
    {
        match error {
            StorageError::NotFound => GetError::NotFound,
            StorageError::Unexpected(words) => GetError::Unkown(words),
        }
    }

    /// The HTTP status that the error is answered with.
    pub open spec fn status(self) -> int {
        match self {
            GetError::InvalidFileName => 400,
            GetError::InvalidUUIDVersion => 400,
            GetError::InvalidUUIDTimestamp => 400,
            GetError::NotFound => 404,
            GetError::Unkown(_) => 500,
        }
    }

    /// The HTTP status that the error is answered with.
    pub fn status_code(&self) -> (code: u16)
        ensures
            code == self.status(),
    {
        match self {
            GetError::InvalidFileName => 400,
            GetError::InvalidUUIDVersion => 400,
            GetError::InvalidUUIDTimestamp => 400,
            GetError::NotFound => 404,
            GetError::Unkown(_) => 500,
        }
    }

    /// What the sender of the request is told: the error in words, but of a
    /// failure of the backend no more than that there was one, so that
    /// nothing of the storage shows.
    pub fn response_text(&self) -> (words: String)
        ensures
            words@ == match *self {
                GetError::InvalidFileName => "Invalid filename is not UUID.EXT."@,
                GetError::InvalidUUIDVersion => "UUID needs to be v7."@,
                GetError::InvalidUUIDTimestamp => "UUID has an invalid timestamp."@,
                GetError::NotFound => "File not found."@,
                GetError::Unkown(_) => "Unkown error."@,
            },
    {
        match self {
            GetError::Unkown(_) => String::from_str("Unkown error."),
            _ => self.message(),
        }
    }

    /// The error in words, for the log: a failure of the backend in the
    /// backend's own words.
    pub fn message(&self) -> (words: String)
        ensures
            words@ == match *self {
                GetError::InvalidFileName => "Invalid filename is not UUID.EXT."@,
                GetError::InvalidUUIDVersion => "UUID needs to be v7."@,
                GetError::InvalidUUIDTimestamp => "UUID has an invalid timestamp."@,
                GetError::NotFound => "File not found."@,
                GetError::Unkown(words) => words@,
            },
    {
        match self {
            GetError::InvalidFileName => String::from_str("Invalid filename is not UUID.EXT."),
            GetError::InvalidUUIDVersion => String::from_str("UUID needs to be v7."),
            GetError::InvalidUUIDTimestamp => String::from_str("UUID has an invalid timestamp."),
            GetError::NotFound => String::from_str("File not found."),
            GetError::Unkown(words) => words.clone(),
        }
    }
}

impl PostError {
    /// The error of the handler that stands for an error of the form.
    pub open spec fn of_form(error: MultipartError) -> PostError {
        match error {
            MultipartError::MissingField(field) => PostError::MissingField(field),
            MultipartError::Unkown(words) => PostError::Unkown(words),
        }
    }

    /// The error that stands for a file name that gives no expiration.
    pub open spec fn of_file_name(error: FileNameError) -> PostError {
        match error {
            FileNameError::InvalidFileName => PostError::InvalidFileName,
            FileNameError::InvalidUUIDVersion => PostError::InvalidUUIDVersion,
            FileNameError::InvalidUUIDTimestamp => PostError::InvalidUUIDTimestamp,
        }
    }

    /// The error that stands for a file name that gives no expiration.
    pub fn from_file_name(error: FileNameError) -> (answer: PostError)
        ensures
            answer == PostError::of_file_name(error),
    {
        match error {
            FileNameError::InvalidFileName => PostError::InvalidFileName,
            FileNameError::InvalidUUIDVersion => PostError::InvalidUUIDVersion,
            FileNameError::InvalidUUIDTimestamp => PostError::InvalidUUIDTimestamp,
        }
    }

    /// Whether the error is one of the form or the backend, and none of
    /// what was sent.
    pub open spec fn is_unknown(self) -> bool {
        self is Unkown
    }

    /// The HTTP status that the error is answered with: 500 for a failure
    /// of the form or the backend, 400 for anything wrong with what was
    /// sent.
    pub fn status_code(&self) -> (code: u16)
        ensures
            code == if self.is_unknown() {
                500int
            } else {
                400int
            },
    {
        match self {
            PostError::Unkown(_) => 500,
            _ => 400,
        }
    }

    /// Whether the answer offers to try again: it does after a failure of
    /// the form or the backend, which another try may not meet.
    pub fn include_retry_button(&self) -> (offered: bool)
        ensures
            offered == self.is_unknown(),
    {
        match self {
            PostError::Unkown(_) => true,
            _ => false,
        }
    }

    /// What the sender of the request is told: the error in words, but of a
    /// failure of the form or the backend no more than that there was one,
    /// so that nothing of the storage shows.
    pub fn response_text(&self) -> (words: String)
        ensures
            words@ == match *self {
                PostError::MissingField(field_name) => "'"@ + field_name@ + "' is required!"@,
                PostError::InvalidPartField => "Invalid part field."@,
                PostError::InvalidFileName => "Missing file name."@,
                PostError::InvalidUUIDVersion => "UUID needs to be v7."@,
                PostError::InvalidUUIDTimestamp => "UUID has an invalid timestamp."@,
                PostError::Unkown(_) => "Unexpected error."@,
            },
    {
        match self {
            PostError::Unkown(_) => String::from_str("Unexpected error."),
            _ => self.message(),
        }
    }

    /// The error in words, for the log: a failure of the form or the
    /// backend in the words of whoever failed.
    pub fn message(&self) -> (words: String)
        ensures
            words@ == match *self {
                PostError::MissingField(field_name) => "'"@ + field_name@ + "' is required!"@,
                PostError::InvalidPartField => "Invalid part field."@,
                PostError::InvalidFileName => "Missing file name."@,
                PostError::InvalidUUIDVersion => "UUID needs to be v7."@,
                PostError::InvalidUUIDTimestamp => "UUID has an invalid timestamp."@,
                PostError::Unkown(words) => "Unexpected error: "@ + words@,
            },
    {
        match self {
            PostError::MissingField(field_name) => String::from_str("'").concat(field_name).concat(
                "' is required!",
            ),
            PostError::InvalidPartField => String::from_str("Invalid part field."),
            PostError::InvalidFileName => String::from_str("Missing file name."),
            PostError::InvalidUUIDVersion => String::from_str("UUID needs to be v7."),
            PostError::InvalidUUIDTimestamp => String::from_str("UUID has an invalid timestamp."),
            PostError::Unkown(words) => String::from_str("Unexpected error: ").concat(
                words.as_str(),
            ),
        }
    }
}

impl From<MultipartError> for PostError {
    fn from(error: MultipartError) -> (answer: PostError) {
        match error {
            MultipartError::MissingField(field) => PostError::MissingField(field),
            MultipartError::Unkown(words) => PostError::Unkown(words),
        }
    }
}

impl FromSpecImpl<MultipartError> for PostError {
    open spec fn obeys_from_spec() -> bool {
        true
    }

    open spec fn from_spec(error: MultipartError) -> PostError {
        PostError::of_form(error)
    }
}

/// An expired object and a missing one are told apart by nobody outside: at
/// a time at which its expiration has been reached, an object is answered
/// for with the error and the status that an object is answered for which
/// the backend does not hold, and the backend is not a party to the answer.
pub proof fn lemma_expired_is_missing(
    id: ObjectId,
    file_name: Seq<char>,
    now: Instant,
    held: Held,
)
    requires
        id.well_formed(),
        id.decoded()->Ok_0.reached_at(now),
    ensures
        read_source(Some(id), file_name, now, held) == Err::<Seq<char>, GetError>(
            GetError::of_storage(StorageError::NotFound),
        ),
        probe_path(Some(id), file_name, now) == Err::<Seq<char>, GetError>(GetError::NotFound),
        GetError::of_storage(StorageError::NotFound) == GetError::NotFound,
        GetError::NotFound.status() == 404,
{
}

} // verus!
