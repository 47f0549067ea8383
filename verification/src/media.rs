//! What a page shows of a file beside its name: the time that is left to
//! it, in words, and a viewer that suits its kind.

use std::time::Duration;
use vstd::prelude::*;

verus! {

/// The words in which `format_duration` of humantime puts a number of whole
/// seconds, such as `2h 37m`.
pub uninterp spec fn duration_words(seconds: u64) -> Seq<char>;

/// The media type that mime_guess holds first for a file extension, as the
/// pair of its top-level type (`video` in `video/mp4`) and its full text;
/// `None` for an extension that it knows no media type for.
pub uninterp spec fn guessed_media_type(extension: Seq<char>) -> Option<(Seq<char>, Seq<char>)>;

/// `format_duration` of humantime on a `Duration` of whole seconds, written
/// out through its `Display`.
#[verifier::external_body]
pub(crate) fn duration_in_words(seconds: u64) -> (words: String)
    ensures
        words@ == duration_words(seconds),
{
    humantime::format_duration(Duration::from_secs(seconds)).to_string()
}

/// `MimeGuess::first` of mime_guess on the guess that `from_ext` makes for
/// an extension, read through `Mime::type_` and the `Display` of `Mime`.
#[verifier::external_body]
pub(crate) fn guess_media_type(extension: &str) -> (guess: Option<(String, String)>)
    ensures
        guessed_media_type(extension@) == match guess {
            Some((kind, text)) => Some((kind@, text@)),
            None => None::<(Seq<char>, Seq<char>)>,
        },
{
    match mime_guess::from_ext(extension).first() {
        Some(mime) => Some((mime.type_().as_str().to_string(), mime.to_string())),
        None => None,
    }
}

/// A media type: its top-level type and its full text.
#[derive(Clone, Debug, PartialEq, Eq)]
pub struct MediaType {
    /// The top-level type, such as `video`.
    pub kind: String,
    /// The full text, such as `video/mp4`.
    pub text: String,
}

/// How a page shows the content of a file.
#[derive(Clone, Debug, PartialEq, Eq)]
pub enum Viewer {
    /// A video player, told the media type.
    Video { media_type: String },
    /// The image itself.
    Image,
    /// An audio player, told the media type.
    Audio { media_type: String },
    /// The text itself, read from the storage path `path`.
    Text { path: String },
}

/// The kinds of content that a page can show.
#[derive(Clone, Copy, Debug, PartialEq, Eq, Structural)]
pub enum ViewerKind {
    Video,
    Image,
    Audio,
    Text,
}

/// The kind of viewer that suits a top-level media type, if any does.
pub open spec fn viewer_kind(kind: Seq<char>) -> Option<ViewerKind> {
    if kind == "video"@ {
        Some(ViewerKind::Video)
    } else if kind == "image"@ {
        Some(ViewerKind::Image)
    } else if kind == "audio"@ {
        Some(ViewerKind::Audio)
    } else if kind == "text"@ {
        Some(ViewerKind::Text)
    } else {
        None
    }
}

/// The viewer that suits a media type, if any does: a player or the image
/// for video, image and audio, and for text the content itself, which lies
/// at `path`.
pub open spec fn viewer_for(kind: Seq<char>, text: Seq<char>, path: Seq<char>, viewer: Option<
    Viewer,
>) -> bool {
    match viewer_kind(kind) {
        None => viewer is None,
        Some(ViewerKind::Video) => viewer matches Some(Viewer::Video { media_type })
            && media_type@ == text,
        Some(ViewerKind::Image) => viewer == Some(Viewer::Image),
        Some(ViewerKind::Audio) => viewer matches Some(Viewer::Audio { media_type })
            && media_type@ == text,
        Some(ViewerKind::Text) => viewer matches Some(Viewer::Text { path: from }) && from@ == path,
    }
}

/// The viewer that suits a media type, where `path` is the storage path of
/// the file.
pub fn file_viewer(media_type: MediaType, path: String) -> (viewer: Option<Viewer>)
    ensures
        viewer_for(media_type.kind@, media_type.text@, path@, viewer),
{
    let kind = media_type.kind.as_str();
    if kind.eq("video") {
        Some(Viewer::Video { media_type: media_type.text })
    } else if kind.eq("image") {
        Some(Viewer::Image)
    } else if kind.eq("audio") {
        Some(Viewer::Audio { media_type: media_type.text })
    } else if kind.eq("text") {
        Some(Viewer::Text { path })
    } else {
        None
    }
}

/// The media type that the extension of a file suggests.
pub fn media_type_of(extension: &str) -> (media_type: Option<MediaType>)
    ensures
        guessed_media_type(extension@) == match media_type {
            Some(found) => Some((found.kind@, found.text@)),
            None => None::<(Seq<char>, Seq<char>)>,
        },
{
    match guess_media_type(extension) {
        Some((kind, text)) => Some(MediaType { kind, text }),
        None => None,
    }
}

} // verus!
