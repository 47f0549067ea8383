//! Taking in an upload: how long it is kept, under which name and where it
//! is stored, and where the sender is sent on to.

use crate::decimal::decimal;
use crate::decimal::lemma_digits_are_digits;
use crate::decimal::lemma_parse_decimal;
use crate::decimal::parse_decimal_usize;
use crate::decimal::parse_usize;
use crate::instant::representable;
use crate::instant::Instant;
use crate::object_id::encodable;
use crate::object_id::instant_of_millis;
use crate::object_id::unix_millis;
use crate::object_id::uuid_text;
use crate::object_id::ObjectId;
use crate::paths::lemma_extension_is_plain;
use crate::paths::relative_extension;
use crate::paths::relative_path_extension;
use crate::routes::file::index::probe_path;
use crate::routes::file::index::read_source;
use crate::routes::file::index::write_target;
use crate::routes::file::index::GetError;
use crate::routes::file::index::Held;
use crate::routes::file::view::is_view_page;
use crate::routes::lemma_stored_name_leads_back;
use crate::routes::named_id;
use crate::routes::parse_file_name;
use crate::routes::shared::is_shared_page;
use crate::routes::stream::stream_source;
use crate::routes::stream::GetStreamError;
use crate::routes::FilePage;
use crate::text::optional_text;
use crate::text::text_of;
use crate::util::field_is_named;
use crate::util::get_and_validate_multipart_field;
use crate::util::get_next_multipart_field;
use crate::util::get_object_path;
use crate::util::object_path;
use crate::util::part_path;
use crate::util::required_field;
use crate::util::DatetimeUUIDv7GeneratorExt;
use crate::util::FieldHead;
use crate::util::MultipartError;
use vstd::prelude::*;
use vstd::std_specs::convert::FromSpecImpl;
use vstd::string::StringExecFns;

verus! {

/// Why an upload is not taken in.
#[derive(Clone, Debug, PartialEq, Eq)]
pub enum PostError {
    /// The form lacks the field of this name.
    MissingField(&'static str),
    /// The file comes without a name.
    MissingFileName,
    /// The name of the file has no extension.
    UnknownFileType,
    /// The form or the backend failed, or the upload cannot be given an
    /// identifier, with the words of whoever failed.
    Unkown(String),
}

/// How long an upload is kept, in seconds, for each of the choices that the
/// form offers; a choice that the form does not offer counts as the first
/// one.
pub open spec fn share_for_seconds(choice: Seq<char>) -> int {
    if choice == "30 minutes"@ {
        1_800
    } else if choice == "1 hour"@ {
        3_600
    } else if choice == "6 hours"@ {
        21_600
    } else if choice == "12 hours"@ {
        43_200
    } else if choice == "1 day"@ {
        86_400
    } else if choice == "3 days"@ {
        259_200
    } else {
        1_800
    }
}

/// The choices that the form offers for how long an upload is kept, in the
/// order in which it offers them.
pub fn share_for_options() -> (choices: Vec<&'static str>)
    ensures
        choices@.len() == 6,
        choices@[0]@ == "30 minutes"@,
        choices@[1]@ == "1 hour"@,
        choices@[2]@ == "6 hours"@,
        choices@[3]@ == "12 hours"@,
        choices@[4]@ == "1 day"@,
        choices@[5]@ == "3 days"@,
{
    let mut choices: Vec<&'static str> = Vec::new();
    choices.push("30 minutes");
    choices.push("1 hour");
    choices.push("6 hours");
    choices.push("12 hours");
    choices.push("1 day");
    choices.push("3 days");
    choices
}

/// How long an upload is kept, in seconds, where `choice` is what the form
/// holds in its field for that.
pub fn share_for(choice: &str) -> (seconds: i64)
    ensures
        seconds == share_for_seconds(choice@),
{
    if choice.eq("30 minutes") {
        1_800
    } else if choice.eq("1 hour") {
        3_600
    } else if choice.eq("6 hours") {
        21_600
    } else if choice.eq("12 hours") {
        43_200
    } else if choice.eq("1 day") {
        86_400
    } else if choice.eq("3 days") {
        259_200
    } else {
        1_800
    }
}

/// When an upload that is taken in at the time `now` expires, where
/// `choice` is what the form holds in its field for how long it is kept;
/// `None` where the calendar ends before that.
pub open spec fn expiration_after(now: Instant, choice: Seq<char>) -> Option<Instant> {
    if representable(now.secs + share_for_seconds(choice), now.nanos as int) {
        Some(Instant { secs: (now.secs + share_for_seconds(choice)) as i64, nanos: now.nanos })
    } else {
        None
    }
}

/// Whether `error` is the error of an upload that would expire after the
/// end of the calendar, or that no identifier can hold the expiration of.
pub open spec fn is_out_of_range(error: PostError) -> bool {
    error matches PostError::Unkown(words) && words@ == "expiration is out of range"@
}

/// When an upload that is taken in at the time `now` expires, where
/// `choice` is what the form holds in its field for how long it is kept.
pub fn expiration_datetime(now: Instant, choice: &str) -> (expiration: Result<Instant, PostError>)
    ensures
        match expiration_after(now, choice@) {
            Some(instant) => expiration == Ok::<Instant, PostError>(instant),
            None => expiration is Err && is_out_of_range(expiration->Err_0),
        },
{
    match now.checked_add_seconds(share_for(choice)) {
        Some(expiration) => Ok(expiration),
        None => Err(PostError::Unkown(String::from_str("expiration is out of range"))),
    }
}

/// What a form sends after the field for how long the upload is kept.
#[derive(Clone, Debug, PartialEq, Eq)]
pub enum Upload {
    /// The file itself, under the name that the form gives for it.
    File { file_name: Option<String> },
    /// The number of parts in which the file is going to be sent.
    Parts,
}

/// What the form goes on with, or the reason why the upload is not taken
/// in, where `next` is what reading on gave: the head of a field, the end of
/// the form (`None`), or the reader's words on why it failed.
pub open spec fn upload_of(next: Result<Option<FieldHead>, String>) -> Result<Upload, PostError> {
    match next {
        Err(words) => Err(PostError::Unkown(words)),
        Ok(None) => Err(PostError::MissingField("File or Parts")),
        Ok(Some(head)) => if field_is_named(head, "File"@) {
            Ok(Upload::File { file_name: head.file_name })
        } else if field_is_named(head, "Parts"@) {
            Ok(Upload::Parts)
        } else {
            Err(PostError::MissingField("File or Parts"))
        },
    }
}

/// What the form goes on with, where `next` is what reading on gave.
pub fn upload_kind(next: Result<Option<FieldHead>, String>) -> (upload: Result<Upload, PostError>)
    ensures
        upload == upload_of(next),
{
    let head = match get_next_multipart_field(next) {
        Err(error) => {
            return Err(PostError::from(error));
        },
        Ok(None) => {
            return Err(PostError::MissingField("File or Parts"));
        },
        Ok(Some(head)) => head,
    };
    let is_file = match &head.name {
        Some(name) => name.as_str().eq("File"),
        None => false,
    };
    let is_parts = match &head.name {
        Some(name) => name.as_str().eq("Parts"),
        None => false,
    };
    if is_file {
        Ok(Upload::File { file_name: head.file_name })
    } else if is_parts {
        Ok(Upload::Parts)
    } else {
        Err(PostError::MissingField("File or Parts"))
    }
}

/// In how many parts a file is sent, where `text` is what the form holds in
/// its field for that: the number that the text stands for, and one part
/// where it stands for none at all; `None` where it stands for no number.
pub open spec fn parts_of(text: Seq<char>) -> Option<usize> {
    match parse_usize(text) {
        Some(number) => if number == 0 {
            Some(1usize)
        } else {
            Some(number)
        },
        None => None,
    }
}

/// In how many parts a file is sent, where `text` is what the form holds in
/// its field for that.
pub fn parse_parts(text: &str) -> (parts: Result<usize, PostError>)
    ensures
        match parts_of(text@) {
            Some(number) => parts == Ok::<usize, PostError>(number),
            None => parts matches Err(PostError::Unkown(words)) && words@
                == "invalid number of parts"@,
        },
{
    match parse_decimal_usize(text) {
        Some(0) => Ok(1),
        Some(number) => Ok(number),
        None => Err(PostError::Unkown(String::from_str("invalid number of parts"))),
    }
}

/// The extension under which a file is stored, where `file_name` is the name
/// that the form gives for it, or the reason why the file is not taken in: a
/// file needs a name, and the name an extension.
pub open spec fn upload_extension(file_name: Option<Seq<char>>) -> Result<Seq<char>, PostError> {
    match file_name {
        None => Err(PostError::MissingFileName),
        Some(name) => if name.len() == 0 {
            Err(PostError::MissingFileName)
        } else {
            match relative_extension(name) {
                None => Err(PostError::UnknownFileType),
                Some(extension) => Ok(extension),
            }
        },
    }
}

/// The name under which the object with the identifier `id` is stored and
/// referred to: the identifier as text, a `.`, and the extension.
pub open spec fn stored_name(id: ObjectId, extension: Seq<char>) -> Seq<char> {
    uuid_text(id.bits) + "."@ + extension
}

/// Where the sender of an upload is sent on to, for a file in parts after
/// the last part: the page of the file that is stored under `name`.
pub open spec fn view_address(name: Seq<char>) -> Seq<char> {
    "/file/"@ + name + "/view"@
}

/// What is done with a file that comes in one piece.
#[derive(Clone, Debug, PartialEq, Eq)]
pub struct SinglePartUpload {
    /// The identifier that was made for the file.
    pub id: ObjectId,
    /// The name under which the file is stored and referred to.
    pub file_name: String,
    /// The storage path that the content is written to.
    pub file_path: String,
    /// The address that the sender is sent on to.
    pub redirect: String,
}

/// What is done with a file that comes in parts.
#[derive(Clone, Debug, PartialEq, Eq)]
pub struct PartsUpload {
    /// The identifier that was made for the file.
    pub id: ObjectId,
    /// The name under which the file is stored and referred to.
    pub file_name: String,
    /// The storage path of the directory that is made for the parts.
    pub directory: String,
    /// The address that each part is sent to.
    pub post_to: String,
    /// The address that the sender is sent on to after the last part.
    pub redirect: String,
    /// The number of parts.
    pub parts: usize,
}

/// Whether `upload` is what is done with a file that comes in one piece
/// and was given the identifier `id` and the extension `extension`. The file
/// is placed by the expiration that its identifier carries, and its content
/// is written under its name in its bucket. The name leads back to the
/// identifier. The sender is sent on to the same page as the sender of a
/// file in parts.
pub open spec fn is_single_part_upload(
    upload: SinglePartUpload,
    id: ObjectId,
    extension: Seq<char>,
) -> bool {
    &&& upload.id == id
    &&& named_id(upload.file_name@) == Some(id)
    &&& upload.file_name@ == stored_name(id, extension)
    &&& upload.file_path@ == object_path(instant_of_millis(id.millis()), stored_name(id, extension))
    &&& upload.redirect@ == view_address(stored_name(id, extension))
}

/// Whether `upload` is what is done with a file that comes in `parts`
/// parts and was given the identifier `id` and the extension `extension`.
/// The file is placed by the expiration that its identifier carries. The
/// name leads back to the identifier.
pub open spec fn is_parts_upload(
    upload: PartsUpload,
    id: ObjectId,
    extension: Seq<char>,
    parts: usize,
) -> bool {
    &&& upload.id == id
    &&& named_id(upload.file_name@) == Some(id)
    &&& upload.file_name@ == stored_name(id, extension)
    &&& upload.directory@ == object_path(
        instant_of_millis(id.millis()),
        stored_name(id, extension) + "/"@,
    )
    &&& upload.post_to@ == "/file/"@ + stored_name(id, extension)
    &&& upload.redirect@ == view_address(stored_name(id, extension))
    &&& upload.parts == parts
}

/// The name under which the object with the identifier `id` is stored.
fn get_stored_name(id: ObjectId, extension: &str) -> (name: String)
    ensures
        name@ == stored_name(id, extension@),
        id.reads_back(),
{
    id.to_text().concat(".").concat(extension)
}

/// The address of the page of the file that is stored under `name`.
fn get_view_address(name: &str) -> (address: String)
    ensures
        address@ == view_address(name@),
{
    String::from_str("/file/").concat(name).concat("/view")
}

/// Whether the name under which the object with the identifier `id` and the
/// extension `extension` is stored leads back to the identifier: a request
/// under that name is a request for that object.
pub open spec fn leads_back(id: ObjectId, extension: Seq<char>) -> bool {
    named_id(stored_name(id, extension)) == Some(id)
}

/// Whether `error` is the error of an upload whose identifier and extension
/// cannot be placed: an identifier of another version or variant carries no
/// expiration, and a name that does not lead back to its identifier, as one
/// does whose extension holds a `/`, is a name for nothing.
pub open spec fn is_unplaced(error: PostError, id: ObjectId, extension: Seq<char>) -> bool {
    &&& error matches PostError::Unkown(words)
    &&& if !id.well_formed() {
        words@ == "identifier carries no expiration"@
    } else {
        !leads_back(id, extension) && words@ == "name does not lead back to its identifier"@
    }
}

/// The name under which the object with the identifier `id` and the
/// extension `extension` is stored, where that name leads back to the
/// identifier.
fn get_name_that_leads_back(id: ObjectId, extension: &str) -> (name: Option<String>)
    ensures
        id.reads_back(),
        match name {
            Some(name) => leads_back(id, extension@) && name@ == stored_name(id, extension@),
            None => !leads_back(id, extension@),
        },
{
    let name = get_stored_name(id, extension);
    let leads = match parse_file_name(name.as_str()) {
        Some(found) => found.bits == id.bits,
        None => false,
    };
    if leads {
        Some(name)
    } else {
        None
    }
}

/// What is done with a file that comes in one piece and was given the
/// identifier `id` and the extension `extension`. Nothing is done with an
/// identifier of another version or variant, which carries no expiration,
/// nor where the name that the file would be stored under does not lead back
/// to the identifier.
pub fn single_part_upload(id: ObjectId, extension: &str) -> (upload: Result<
    SinglePartUpload,
    PostError,
>)
    ensures
        id.reads_back(),
        match upload {
            Ok(upload) => id.well_formed() && leads_back(id, extension@) && is_single_part_upload(
                upload,
                id,
                extension@,
            ),
            Err(error) => is_unplaced(error, id, extension@),
        },
{
    let named = get_name_that_leads_back(id, extension);
    let expiration = match id.decode_expiration() {
        Ok(expiration) => expiration,
        Err(_) => {
            return Err(PostError::Unkown(String::from_str("identifier carries no expiration")));
        },
    };
    let file_name = match named {
        Some(file_name) => file_name,
        None => {
            return Err(
                PostError::Unkown(String::from_str("name does not lead back to its identifier")),
            );
        },
    };
    let file_path = get_object_path(expiration, file_name.as_str());
    let redirect = get_view_address(file_name.as_str());
    Ok(SinglePartUpload { id, file_name, file_path, redirect })
}

/// What is done with a file that comes in `parts` parts and was given the
/// identifier `id` and the extension `extension`. Nothing is done with an
/// identifier of another version or variant, which carries no expiration,
/// nor where the name that the file would be stored under does not lead back
/// to the identifier.
pub fn parts_upload(id: ObjectId, extension: &str, parts: usize) -> (upload: Result<
    PartsUpload,
    PostError,
>)
    ensures
        id.reads_back(),
        match upload {
            Ok(upload) => id.well_formed() && leads_back(id, extension@) && is_parts_upload(
                upload,
                id,
                extension@,
                parts,
            ),
            Err(error) => is_unplaced(error, id, extension@),
        },
{
    let named = get_name_that_leads_back(id, extension);
    let expiration = match id.decode_expiration() {
        Ok(expiration) => expiration,
        Err(_) => {
            return Err(PostError::Unkown(String::from_str("identifier carries no expiration")));
        },
    };
    let file_name = match named {
        Some(file_name) => file_name,
        None => {
            return Err(
                PostError::Unkown(String::from_str("name does not lead back to its identifier")),
            );
        },
    };
    let parts_name = file_name.clone().concat("/");
    let directory = get_object_path(expiration, parts_name.as_str());
    let post_to = String::from_str("/file/").concat(file_name.as_str());
    let redirect = get_view_address(file_name.as_str());
    Ok(PartsUpload { id, file_name, directory, post_to, redirect, parts })
}

/// What is done with a file that comes in one piece under the name
/// `file_name` and expires at `expiration`: it is given a new identifier,
/// which carries the expiration cut down to whole milliseconds, and is
/// stored under the identifier and its own extension. A file without a name
/// or an extension is refused, and so is one whose expiration no identifier
/// can hold.
pub fn upload_file_in_single_part_and_redirect(
    file_name: Option<&str>,
    expiration: Instant,
) -> (upload: Result<SinglePartUpload, PostError>)
    ensures
        single_part_outcome(upload, text_of(file_name), expiration),
{
    let file_name = match file_name {
        Some(file_name) => file_name,
        None => {
            return Err(PostError::MissingFileName);
        },
    };
    if file_name.is_empty() {
        return Err(PostError::MissingFileName);
    }
    let extension = match relative_path_extension(file_name) {
        Some(extension) => extension,
        None => {
            return Err(PostError::UnknownFileType);
        },
    };
    match expiration.generate_uuidv7() {
        Some(id) => {
            let upload = single_part_upload(id, extension.as_str());
            proof {
                lemma_extension_leads_back(file_name@, id);
            }
            upload
        },
        None => Err(PostError::Unkown(String::from_str("expiration is out of range"))),
    }
}

/// What is done with a file that comes in `parts` parts under the name
/// `file_name` and expires at `expiration`: it is given a new identifier,
/// which carries the expiration cut down to whole milliseconds, and a
/// directory for its parts, named by the identifier and its own extension. A
/// file without an extension is refused, and so is one whose expiration no
/// identifier can hold.
pub fn upload_file_in_parts_and_redirect(
    file_name: &str,
    parts: usize,
    expiration: Instant,
) -> (upload: Result<PartsUpload, PostError>)
    ensures
        parts_outcome(upload, file_name@, parts, expiration),
{
    let extension = match relative_path_extension(file_name) {
        Some(extension) => extension,
        None => {
            return Err(PostError::UnknownFileType);
        },
    };
    match expiration.generate_uuidv7() {
        Some(id) => {
            let upload = parts_upload(id, extension.as_str(), parts);
            proof {
                lemma_extension_leads_back(file_name@, id);
            }
            upload
        },
        None => Err(PostError::Unkown(String::from_str("expiration is out of range"))),
    }
}

/// The name under which a file is stored leads back to the identifier of
/// the file, where the extension is the extension of a file name and the
/// text of the identifier spells the identifier: an extension is plain, and
/// so is the text of an identifier.
pub proof fn lemma_extension_leads_back(file_name: Seq<char>, id: ObjectId)
    requires
        id.reads_back(),
        relative_extension(file_name) is Some,
    ensures
        leads_back(id, relative_extension(file_name)->Some_0),
{
    lemma_extension_is_plain(file_name);
    lemma_stored_name_leads_back(id, relative_extension(file_name)->Some_0);
    reveal_strlit(".");
    assert("."@ =~= seq!['.']);
}

/// A file in one piece is read back from where it was written, as long as
/// it has not expired, and is not found from then on. Asked for under the
/// name that it was stored under, the backend is asked what it holds at the
/// very path that the content was written to; holding the object there, it is
/// read from that path, and the page that the sender was sent on to looks it
/// up at that path. Streaming and the page of a shared file look there too.
pub proof fn lemma_read_back_where_written(
    upload: SinglePartUpload,
    id: ObjectId,
    extension: Seq<char>,
    now: Instant,
)
    requires
        id.well_formed(),
        is_single_part_upload(upload, id, extension),
    ensures
        named_id(upload.file_name@) == Some(id),
        upload.redirect@ == "/file/"@ + upload.file_name@ + "/view"@,
        probe_path(named_id(upload.file_name@), upload.file_name@, now) == if now.precedes(
            instant_of_millis(id.millis()),
        ) {
            Ok::<Seq<char>, GetError>(upload.file_path@)
        } else {
            Err::<Seq<char>, GetError>(GetError::NotFound)
        },
        read_source(named_id(upload.file_name@), upload.file_name@, now, Held::Object)
            == if now.precedes(instant_of_millis(id.millis())) {
            Ok::<Seq<char>, GetError>(upload.file_path@)
        } else {
            Err::<Seq<char>, GetError>(GetError::NotFound)
        },
        stream_source(named_id(upload.file_name@), upload.file_name@, now) == if now.precedes(
            instant_of_millis(id.millis()),
        ) {
            Ok::<Seq<char>, GetStreamError>(upload.file_path@)
        } else {
            Err::<Seq<char>, GetStreamError>(GetStreamError::NotFound)
        },
        forall|page: FilePage| #[trigger]
            is_view_page(
                Ok(page),
                named_id(upload.file_name@),
                upload.file_name@,
                now,
                Held::Object,
            ) ==> page.file_source@ == "/file/"@ + upload.file_name@ && match page.lookup {
                Some(path) => now.precedes(instant_of_millis(id.millis())) && path@
                    == upload.file_path@,
                None => !now.precedes(instant_of_millis(id.millis())),
            },
        forall|page: FilePage| #[trigger]
            is_shared_page(Ok(page), named_id(upload.file_name@), upload.file_name@, now)
                ==> match page.lookup {
                Some(path) => now.precedes(instant_of_millis(id.millis())) && path@
                    == upload.file_path@,
                None => !now.precedes(instant_of_millis(id.millis())),
            },
{
}

/// A file in parts is read back from its first part in the directory that
/// was made for its parts, and each of its parts is written into that
/// directory under its number. For a part that is sent under the name that
/// the file was stored under, the path that the part is written to is the
/// number of the part adjoined to the path of the directory less its closing
/// `/`; holding parts, the backend is read from at the path of part 0, and
/// the page that the sender is sent on to looks the directory up.
pub proof fn lemma_parts_land_in_their_directory(
    upload: PartsUpload,
    id: ObjectId,
    extension: Seq<char>,
    part: usize,
    now: Instant,
)
    requires
        id.well_formed(),
        is_parts_upload(upload, id, extension, upload.parts),
    ensures
        named_id(upload.file_name@) == Some(id),
        upload.directory@ == object_path(instant_of_millis(id.millis()), upload.file_name@) + "/"@,
        write_target(
            named_id(upload.file_name@),
            upload.file_name@,
            Some(decimal(part as int)),
        ) == Ok::<Seq<char>, crate::routes::file::index::PostError>(
            part_path(instant_of_millis(id.millis()), upload.file_name@, part as int),
        ),
        read_source(named_id(upload.file_name@), upload.file_name@, now, Held::Parts)
            == if now.precedes(instant_of_millis(id.millis())) {
            Ok::<Seq<char>, GetError>(
                part_path(instant_of_millis(id.millis()), upload.file_name@, 0),
            )
        } else {
            Err::<Seq<char>, GetError>(GetError::NotFound)
        },
        forall|page: FilePage| #[trigger]
            is_view_page(Ok(page), named_id(upload.file_name@), upload.file_name@, now, Held::Parts)
                ==> match page.lookup {
                Some(path) => now.precedes(instant_of_millis(id.millis())) && path@
                    == upload.directory@,
                None => !now.precedes(instant_of_millis(id.millis())),
            },
{
    lemma_parse_decimal(part as int);
    lemma_digits_are_digits(part as nat);
    reveal_strlit("/");
    reveal_strlit(".");
}

/// Whether `upload` is what becomes of a file that comes in one piece under
/// the name `file_name` and expires at `expiration`.
pub open spec fn single_part_outcome(
    upload: Result<SinglePartUpload, PostError>,
    file_name: Option<Seq<char>>,
    expiration: Instant,
) -> bool {
    match upload_extension(file_name) {
        Err(error) => upload == Err::<SinglePartUpload, PostError>(error),
        Ok(extension) => match upload {
            Ok(upload) => encodable(expiration) && upload.id.well_formed() && upload.id.millis()
                == unix_millis(expiration) && is_single_part_upload(upload, upload.id, extension),
            Err(error) => !encodable(expiration) && is_out_of_range(error),
        },
    }
}

/// Whether `upload` is what becomes of a file that comes in `parts` parts
/// under the name `file_name` and expires at `expiration`.
pub open spec fn parts_outcome(
    upload: Result<PartsUpload, PostError>,
    file_name: Seq<char>,
    parts: usize,
    expiration: Instant,
) -> bool {
    match relative_extension(file_name) {
        None => upload == Err::<PartsUpload, PostError>(PostError::UnknownFileType),
        Some(extension) => match upload {
            Ok(upload) => encodable(expiration) && upload.id.well_formed() && upload.id.millis()
                == unix_millis(expiration) && is_parts_upload(upload, upload.id, extension, parts),
            Err(error) => !encodable(expiration) && is_out_of_range(error),
        },
    }
}

/// An upload form of which nothing has been read. The form is read field by
/// field, and each step takes what reading on gave and tells what the form
/// has to go on with: first the field `Share for` and its text; then either
/// the field `File`, which carries a file in one piece, or the field `Parts`
/// and its text, followed by the field `Filename` and its text, for a file
/// that is going to come in parts.
#[derive(Clone, Copy, Debug, PartialEq, Eq)]
pub struct Intake {
    /// When the form came in.
    pub now: Instant,
}

/// An upload form whose field `Share for` has been found and is read.
#[derive(Clone, Copy, Debug, PartialEq, Eq)]
pub struct ShareForFound {
    /// When the form came in.
    pub now: Instant,
}

/// An upload form of which it is known when the upload expires.
#[derive(Clone, Copy, Debug, PartialEq, Eq)]
pub struct AwaitingUpload {
    /// When the upload expires.
    pub expiration: Instant,
}

/// An upload form whose field `Parts` has been found and is read.
#[derive(Clone, Copy, Debug, PartialEq, Eq)]
pub struct PartsFound {
    /// When the upload expires.
    pub expiration: Instant,
}

/// An upload form of which it is known in how many parts the file comes.
#[derive(Clone, Copy, Debug, PartialEq, Eq)]
pub struct AwaitingFilename {
    /// When the upload expires.
    pub expiration: Instant,
    /// The number of parts.
    pub parts: usize,
}

/// An upload form whose field `Filename` has been found and is read.
#[derive(Clone, Copy, Debug, PartialEq, Eq)]
pub struct FilenameFound {
    /// When the upload expires.
    pub expiration: Instant,
    /// The number of parts.
    pub parts: usize,
}

/// How an upload form goes on once it is known when the upload expires.
#[derive(Clone, Debug, PartialEq, Eq)]
pub enum UploadStep {
    /// With the file in one piece, whose content is written where the
    /// upload says.
    File(SinglePartUpload),
    /// With the number of parts, which is read next.
    Parts(PartsFound),
}

impl Intake {
    /// The form that came in at the time `now`, before it is read.
    pub fn begin(now: Instant) -> (form: Intake)
        ensures
            form.now == now,
    {
        Intake { now }
    }

    /// The form has to start with the field `Share for`.
    pub fn share_for_field(self, next: Result<Option<FieldHead>, String>) -> (step: Result<
        ShareForFound,
        PostError,
    >)
        ensures
            step == match required_field("Share for", next) {
                Ok(_) => Ok::<ShareForFound, PostError>(ShareForFound { now: self.now }),
                Err(error) => Err(PostError::of_form(error)),
            },
    {
        match get_and_validate_multipart_field("Share for", next) {
            Ok(_) => Ok(ShareForFound { now: self.now }),
            Err(error) => Err(PostError::from(error)),
        }
    }
}

impl ShareForFound {
    /// The text of the field `Share for` says how long the upload is kept,
    /// and so when it expires.
    pub fn share_for_text(self, text: Result<String, String>) -> (step: Result<
        AwaitingUpload,
        PostError,
    >)
        ensures
            match text {
                Err(words) => step == Err::<AwaitingUpload, PostError>(PostError::Unkown(words)),
                Ok(choice) => match expiration_after(self.now, choice@) {
                    Some(expiration) => step == Ok::<AwaitingUpload, PostError>(
                        AwaitingUpload { expiration },
                    ),
                    None => step is Err && is_out_of_range(step->Err_0),
                },
            },
    {
        match text {
            Err(words) => Err(PostError::Unkown(words)),
            Ok(choice) => match expiration_datetime(self.now, choice.as_str()) {
                Ok(expiration) => Ok(AwaitingUpload { expiration }),
                Err(error) => Err(error),
            },
        }
    }
}

impl AwaitingUpload {
    /// The form goes on with the file in one piece or with the number of
    /// parts. A file in one piece is given its identifier and its place
    /// here, before its content is read.
    pub fn upload_field(self, next: Result<Option<FieldHead>, String>) -> (step: Result<
        UploadStep,
        PostError,
    >)
        ensures
            match upload_of(next) {
                Err(error) => step == Err::<UploadStep, PostError>(error),
                Ok(Upload::Parts) => step == Ok::<UploadStep, PostError>(
                    UploadStep::Parts(PartsFound { expiration: self.expiration }),
                ),
                Ok(Upload::File { file_name }) => match step {
                    Ok(UploadStep::File(upload)) => single_part_outcome(
                        Ok(upload),
                        optional_text(file_name),
                        self.expiration,
                    ),
                    Ok(UploadStep::Parts(_)) => false,
                    Err(error) => single_part_outcome(
                        Err(error),
                        optional_text(file_name),
                        self.expiration,
                    ),
                },
            },
    {
        match upload_kind(next) {
            Err(error) => Err(error),
            Ok(Upload::Parts) => Ok(UploadStep::Parts(PartsFound { expiration: self.expiration })),
            Ok(Upload::File { file_name }) => {
                let upload = match &file_name {
                    Some(name) => upload_file_in_single_part_and_redirect(
                        Some(name.as_str()),
                        self.expiration,
                    ),
                    None => upload_file_in_single_part_and_redirect(None, self.expiration),
                };
                match upload {
                    Ok(upload) => Ok(UploadStep::File(upload)),
                    Err(error) => Err(error),
                }
            },
        }
    }
}

impl PartsFound {
    /// The text of the field `Parts` says in how many parts the file comes.
    pub fn parts_text(self, text: Result<String, String>) -> (step: Result<
        AwaitingFilename,
        PostError,
    >)
        ensures
            match text {
                Err(words) => step == Err::<AwaitingFilename, PostError>(PostError::Unkown(words)),
                Ok(number) => match parts_of(number@) {
                    Some(parts) => step == Ok::<AwaitingFilename, PostError>(
                        AwaitingFilename { expiration: self.expiration, parts },
                    ),
                    None => step matches Err(PostError::Unkown(words)) && words@
                        == "invalid number of parts"@,
                },
            },
    {
        match text {
            Err(words) => Err(PostError::Unkown(words)),
            Ok(number) => match parse_parts(number.as_str()) {
                Ok(parts) => Ok(AwaitingFilename { expiration: self.expiration, parts }),
                Err(error) => Err(error),
            },
        }
    }
}

impl AwaitingFilename {
    /// After the number of parts the form has to go on with the field
    /// `Filename`.
    pub fn filename_field(self, next: Result<Option<FieldHead>, String>) -> (step: Result<
        FilenameFound,
        PostError,
    >)
        ensures
            step == match required_field("Filename", next) {
                Ok(_) => Ok::<FilenameFound, PostError>(
                    FilenameFound { expiration: self.expiration, parts: self.parts },
                ),
                Err(error) => Err(PostError::of_form(error)),
            },
    {
        match get_and_validate_multipart_field("Filename", next) {
            Ok(_) => Ok(FilenameFound { expiration: self.expiration, parts: self.parts }),
            Err(error) => Err(PostError::from(error)),
        }
    }
}

impl FilenameFound {
    /// The text of the field `Filename` is the name of the file that is
    /// going to come in parts: the file is given its identifier and the
    /// directory for its parts.
    pub fn filename_text(self, text: Result<String, String>) -> (upload: Result<
        PartsUpload,
        PostError,
    >)
        ensures
            match text {
                Err(words) => upload == Err::<PartsUpload, PostError>(PostError::Unkown(words)),
                Ok(file_name) => parts_outcome(upload, file_name@, self.parts, self.expiration),
            },
    {
        match text {
            Err(words) => Err(PostError::Unkown(words)),
            Ok(file_name) => upload_file_in_parts_and_redirect(
                file_name.as_str(),
                self.parts,
                self.expiration,
            ),
        }
    }
}

impl SinglePartUpload {
    /// Where the sender is sent on to once the content has been written,
    /// where `written` tells how writing went.
    pub fn written(self, written: Result<(), String>) -> (redirect: Result<String, PostError>)
        ensures
            redirect == match written {
                Ok(_) => Ok::<String, PostError>(self.redirect),
                Err(words) => Err(PostError::Unkown(words)),
            },
    {
        match written {
            Ok(_) => Ok(self.redirect),
            Err(words) => Err(PostError::Unkown(words)),
        }
    }
}

impl PartsUpload {
    /// What the sender is told to send the parts by once the directory for
    /// them has been made, where `created` tells how making it went.
    pub fn created(self, created: Result<(), String>) -> (upload: Result<PartsUpload, PostError>)
        ensures
            upload == match created {
                Ok(_) => Ok::<PartsUpload, PostError>(self),
                Err(words) => Err(PostError::Unkown(words)),
            },
    {
        match created {
            Ok(_) => Ok(self),
            Err(words) => Err(PostError::Unkown(words)),
        }
    }
}

impl PostError {
    /// The error of the handler that stands for an error of the form.
    pub open spec fn of_form(error: MultipartError) -> PostError {
        match error {
            MultipartError::MissingField(field) => PostError::MissingField(field),
            MultipartError::Unkown(words) => PostError::Unkown(words),
        }
    }

    /// The error in words.
    pub fn message(&self) -> (words: String)
        ensures
            words@ == match *self {
                PostError::MissingField(field_name) => "'"@ + field_name@ + "' is required!"@,
                PostError::MissingFileName => "Missing file name."@,
                PostError::UnknownFileType => "Unkown file type."@,
                PostError::Unkown(_) => "Unkown error."@,
            },
    {
        match self {
            PostError::MissingField(field_name) => String::from_str("'").concat(field_name).concat(
                "' is required!",
            ),
            PostError::MissingFileName => String::from_str("Missing file name."),
            PostError::UnknownFileType => String::from_str("Unkown file type."),
            PostError::Unkown(_) => String::from_str("Unkown error."),
        }
    }
}

impl From<MultipartError> for PostError {
    fn from(error: MultipartError) -> (answer: PostError) {
        match error {
            MultipartError::MissingField(field) => PostError::MissingField(field),
            MultipartError::Unkown(words) => PostError::Unkown(words),
        }
    }
}

impl FromSpecImpl<MultipartError> for PostError {
    open spec fn obeys_from_spec() -> bool {
        true
    }

    open spec fn from_spec(error: MultipartError) -> PostError {
        PostError::of_form(error)
    }
}

} // verus!
