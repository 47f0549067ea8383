//! The bucket directory scheme: which storage directory holds the objects
//! that expire at a given instant, and when a directory expires.

use crate::decimal::decimal;
use crate::decimal::format_decimal;
use crate::decimal::lemma_parse_decimal;
use crate::decimal::parse_decimal;
use crate::decimal::parse_i64;
use crate::instant::representable;
use crate::instant::Instant;
use crate::instant::MAX_SECONDS;
use crate::object_id::encodable;
use crate::object_id::unix_millis;
use crate::object_id::ObjectId;
use crate::paths::joined;
use crate::paths::relative_join;
use vstd::prelude::*;
use vstd::string::StringExecFns;

verus! {

/// The width of one bucket, in seconds: an hour.
pub const BUCKET_SECONDS: i64 = 3600;

/// Whether `t` lies exactly on an hour boundary.
pub open spec fn hour_aligned(t: Instant) -> bool {
    t.secs as int % BUCKET_SECONDS as int == 0 && t.nanos == 0
}

/// The Unix second at which the bucket of `t` ends: `t` itself where it lies
/// on an hour boundary, and the next hour boundary after `t` where it does
/// not.
pub open spec fn bucket_seconds(t: Instant) -> int {
    if hour_aligned(t) {
        t.secs as int
    } else {
        t.secs - t.secs as int % BUCKET_SECONDS as int + BUCKET_SECONDS
    }
}

/// Why a directory name gives no expiration instant.
#[derive(Clone, Copy, Debug, PartialEq, Eq, Structural)]
pub enum GetDirectoryExpirationError {
    /// The name is not the decimal text of a 64-bit integer.
    InvalidUUIDTimestamp,
    /// The number in the name is the Unix second of no calendar date.
    InvalidTimestamp,
}

impl GetDirectoryExpirationError {
    /// The error in words.
    pub open spec fn words(self) -> Seq<char> {
        match self {
            GetDirectoryExpirationError::InvalidUUIDTimestamp => "Invalid UUID timestamp."@,
            GetDirectoryExpirationError::InvalidTimestamp => "Invalid Timestamp."@,
        }
    }

    /// The error in words.
    pub fn message(&self) -> (words: String)
        ensures
            words@ == self.words(),
    {
        match self {
            GetDirectoryExpirationError::InvalidUUIDTimestamp => String::from_str(
                "Invalid UUID timestamp.",
            ),
            GetDirectoryExpirationError::InvalidTimestamp => String::from_str("Invalid Timestamp."),
        }
    }
}

/// The expiration instant that a directory name stands for, or the reason
/// why it stands for none.
pub open spec fn expiration_of_directory(name: Seq<char>) -> Result<
    Instant,
    GetDirectoryExpirationError,
> {
    match parse_i64(name) {
        None => Err(GetDirectoryExpirationError::InvalidUUIDTimestamp),
        Some(secs) => if representable(secs as int, 0) {
            Ok(Instant { secs, nanos: 0 })
        } else {
            Err(GetDirectoryExpirationError::InvalidTimestamp)
        },
    }
}

/// The name of the directory that holds the objects expiring at `datetime`:
/// the decimal text of the Unix second at which its bucket ends.
pub fn get_directory_for_expiration(datetime: Instant) -> (directory: String)
    ensures
        directory@ == decimal(bucket_seconds(datetime)),
{
    let secs: i128 = datetime.secs as i128;
    let width: i128 = BUCKET_SECONDS as i128;
    let remainder: i128 = secs % width;
    let past_hour: i128 = if remainder < 0 {
        remainder + width
    } else {
        remainder
    };
    let boundary: i128 = if past_hour == 0 && datetime.nanos == 0 {
        secs
    } else {
        secs - past_hour + width
    };
    format_decimal(boundary)
}

/// The instant at which the directory named `directory` expires.
pub fn get_expiration_for_directory(directory: &str) -> (expiration: Result<
    Instant,
    GetDirectoryExpirationError,
>)
    ensures
        expiration == expiration_of_directory(directory@),
{
    match parse_decimal(directory) {
        None => Err(GetDirectoryExpirationError::InvalidUUIDTimestamp),
        Some(secs) => match Instant::from_timestamp(secs, 0) {
            Some(datetime) => Ok(datetime),
            None => Err(GetDirectoryExpirationError::InvalidTimestamp),
        },
    }
}

/// The storage path of the object that is named `name` and expires at
/// `expiration`: its bucket directory, and the name in it.
pub open spec fn object_path(expiration: Instant, name: Seq<char>) -> Seq<char> {
    joined(decimal(bucket_seconds(expiration)), name)
}

/// The storage path of one part of an object that was uploaded in parts:
/// the path of the object, and in it the number of the part, in decimal and
/// counted from 0.
pub open spec fn part_path(expiration: Instant, name: Seq<char>, part: int) -> Seq<char> {
    joined(object_path(expiration, name), decimal(part))
}

/// The storage path of the object that is named `name` and expires at
/// `expiration`.
pub fn get_object_path(expiration: Instant, name: &str) -> (path: String)
    ensures
        path@ == object_path(expiration, name@),
{
    let directory = get_directory_for_expiration(expiration);
    relative_join(directory.as_str(), name)
}

/// The storage path of part number `part` of the object that is named `name`
/// and expires at `expiration`.
pub fn get_part_path(expiration: Instant, name: &str, part: usize) -> (path: String)
    ensures
        path@ == part_path(expiration, name@, part as int),
{
    let object = get_object_path(expiration, name);
    let number = format_decimal(part as i128);
    relative_join(object.as_str(), number.as_str())
}

/// Minting identifiers that expire at a date and time.
pub trait DatetimeUUIDv7GeneratorExt {
    /// The date and time that `self` stands for.
    spec fn instant(&self) -> Instant;

    /// A new identifier that expires at this date and time, cut down to
    /// whole milliseconds. `None` where no identifier can hold it: before the
    /// Unix epoch, or 2 to the power 48 milliseconds or more after it.
    fn generate_uuidv7(&self) -> (id: Option<ObjectId>)
        ensures
            id is Some <==> encodable(self.instant()),
            id matches Some(minted) ==> minted.well_formed() && minted.millis() == unix_millis(
                self.instant(),
            ),
    ;
}

impl DatetimeUUIDv7GeneratorExt for Instant {
    open spec fn instant(&self) -> Instant {
        *self
    }

    fn generate_uuidv7(&self) -> (id: Option<ObjectId>) {
        ObjectId::generate(*self)
    }
}

/// What a multipart form says of one of its fields before the content of the
/// field is read.
#[derive(Clone, Debug, PartialEq, Eq)]
pub struct FieldHead {
    /// The name of the field, if the form gives one.
    pub name: Option<String>,
    /// The name of the file that the field carries, if the form gives one.
    pub file_name: Option<String>,
}

/// Why a multipart form does not give the field that is asked for.
#[derive(Clone, Debug, PartialEq, Eq)]
pub enum MultipartError {
    /// The form ends, or goes on with a field of another name.
    MissingField(&'static str),
    /// The form cannot be read, with the reader's own words.
    Unkown(String),
}

/// Whether a field bears the name `field_name`.
pub open spec fn field_is_named(field: FieldHead, field_name: Seq<char>) -> bool {
    field.name matches Some(name) && name@ == field_name
}

/// The next field of a form, where `next` is what reading on gave: the head
/// of a field, the end of the form (`None`), or the reader's words on why it
/// failed.
pub fn get_next_multipart_field(next: Result<Option<FieldHead>, String>) -> (field: Result<
    Option<FieldHead>,
    MultipartError,
>)
    ensures
        field == match next {
            Ok(head) => Ok::<Option<FieldHead>, MultipartError>(head),
            Err(words) => Err(MultipartError::Unkown(words)),
        },
{
    match next {
        Ok(head) => Ok(head),
        Err(words) => Err(MultipartError::Unkown(words)),
    }
}

/// The field that a form has to go on with, which is the one named
/// `field_name`, where `next` is what reading on gave: a form that ends, or
/// goes on with another field, misses the field.
pub open spec fn required_field(
    field_name: &'static str,
    next: Result<Option<FieldHead>, String>,
) -> Result<FieldHead, MultipartError> {
    match next {
        Err(words) => Err(MultipartError::Unkown(words)),
        Ok(None) => Err(MultipartError::MissingField(field_name)),
        Ok(Some(head)) => if field_is_named(head, field_name@) {
            Ok(head)
        } else {
            Err(MultipartError::MissingField(field_name))
        },
    }
}

/// The next field of a form, which has to bear the name `field_name`.
pub fn get_and_validate_multipart_field(
    field_name: &'static str,
    next: Result<Option<FieldHead>, String>,
) -> (field: Result<FieldHead, MultipartError>)
    ensures
        field == required_field(field_name, next),
{
    let head = match get_next_multipart_field(next) {
        Err(error) => {
            return Err(error);
        },
        Ok(None) => {
            return Err(MultipartError::MissingField(field_name));
        },
        Ok(Some(head)) => head,
    };
    let named = match &head.name {
        Some(name) => name.as_str().eq(field_name),
        None => false,
    };
    if named {
        Ok(head)
    } else {
        Err(MultipartError::MissingField(field_name))
    }
}

impl MultipartError {
    /// The error in words.
    pub fn message(&self) -> (words: String)
        ensures
            words@ == match *self {
                MultipartError::MissingField(field_name) => "'"@ + field_name@ + "' is required!"@,
                MultipartError::Unkown(_) => "Unkown error."@,
            },
    {
        match self {
            MultipartError::MissingField(field_name) => String::from_str("'").concat(
                field_name,
            ).concat("' is required!"),
            MultipartError::Unkown(_) => String::from_str("Unkown error."),
        }
    }
}

/// The size of the buffer that uploads are written through, in bytes.
pub const WRITE_BUFFER_BYTES: usize = 625000;

/// How many chunks of one upload are sent to the backend at a time.
pub const WRITE_CONCURRENCY: usize = 1;

/// What a write comes to, where `sink_result` tells how feeding the content
/// to the writer went and `close_result` how closing the writer went. The
/// writer is closed whatever became of the content, so both are known. The
/// write succeeds only if both did. A failure of the content is reported as
/// it is, also where closing failed after it; a failure to close is reported
/// where the content went through.
pub fn write_file<T, E>(sink_result: Result<T, E>, close_result: Result<(), E>) -> (written: Result<
    (),
    E,
>)
    ensures
        written == match sink_result {
            Err(error) => Err::<(), E>(error),
            Ok(_) => close_result,
        },
{
    match sink_result {
        Err(error) => Err(error),
        Ok(_) => close_result,
    }
}

/// The instant at which the bucket of `t` ends.
pub open spec fn bucket_end(t: Instant) -> Instant {
    Instant { secs: bucket_seconds(t) as i64, nanos: 0 }
}

/// The bucket of an instant ends on an hour boundary that is not before the
/// instant, while the hour boundary before that one is: so it ends on the
/// first hour boundary at or after the instant. An instant on an hour
/// boundary is the end of its own bucket.
pub proof fn lemma_bucket_is_hour_ceiling(t: Instant)
    ensures
        bucket_seconds(t) % 3600 == 0,
        t.secs <= bucket_seconds(t) <= t.secs + 3600,
        bucket_seconds(t) - 3600 < t.secs || (bucket_seconds(t) - 3600 == t.secs && 0 < t.nanos),
        hour_aligned(t) <==> bucket_seconds(t) == t.secs && t.nanos == 0,
{
}

/// A directory does not expire before any object that was placed in it: read
/// back from the name of its directory, the bucket of `t` ends at `t` or
/// later, and at `t` exactly where `t` lies on an hour boundary. Directory
/// names are written for every instant, but only those up to the last
/// calendar second are read back: an instant in the last, unfinished hour of
/// the calendar has a bucket whose end has no calendar date.
pub proof fn lemma_directory_outlives_expiration(t: Instant)
    requires
        t.valid(),
        bucket_seconds(t) <= MAX_SECONDS,
    ensures
        expiration_of_directory(decimal(bucket_seconds(t))) == Ok::<
            Instant,
            GetDirectoryExpirationError,
        >(bucket_end(t)),
        !bucket_end(t).precedes(t),
        hour_aligned(t) ==> bucket_end(t) == t,
{
    lemma_parse_decimal(bucket_seconds(t));
    lemma_bucket_is_hour_ceiling(t);
}

/// The end of a bucket is its own bucket: placing is idempotent on instants
/// that lie on an hour boundary.
pub proof fn lemma_bucket_idempotent(t: Instant)
    requires
        i64::MIN <= bucket_seconds(t) <= i64::MAX,
    ensures
        hour_aligned(bucket_end(t)),
        bucket_seconds(bucket_end(t)) == bucket_seconds(t),
{
    lemma_bucket_is_hour_ceiling(t);
}

/// A later instant never falls into an earlier bucket.
pub proof fn lemma_bucket_monotonic(t1: Instant, t2: Instant)
    requires
        t1.precedes(t2),
    ensures
        bucket_seconds(t1) <= bucket_seconds(t2),
{
    lemma_bucket_is_hour_ceiling(t1);
    lemma_bucket_is_hour_ceiling(t2);
}

} // verus!
