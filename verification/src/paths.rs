//! Relative storage paths: texts whose parts are set apart by `/`.

use relative_path::Component;
use relative_path::RelativePath;
use vstd::prelude::*;

verus! {

/// The path `base` with `other` adjoined: one `/` at the head of `other` is
/// dropped, and a `/` is put between the two unless `base` is empty or ends
/// in one.
pub open spec fn joined(base: Seq<char>, other: Seq<char>) -> Seq<char> {
    let tail = if other.len() > 0 && other[0] == '/' {
        other.drop_first()
    } else {
        other
    };
    if base.len() > 0 && base.last() != '/' {
        base + seq!['/'] + tail
    } else {
        base + tail
    }
}

/// What stands in a text behind the last `mark`: all of it where it holds
/// none.
pub open spec fn after_last(text: Seq<char>, mark: char) -> Seq<char>
    decreases text.len(),
{
    if text.len() == 0 || text.last() == mark {
        Seq::<char>::empty()
    } else {
        after_last(text.drop_last(), mark).push(text.last())
    }
}

/// The file name of a path: its last part, where `/` at the end of the path
/// and parts `.` at its end do not count. `None` where no part is left, or
/// the last part that counts is `..`.
pub open spec fn relative_file_name(path: Seq<char>) -> Option<Seq<char>>
    decreases path.len(),
{
    if path.len() == 0 {
        None
    } else if path.last() == '/' {
        relative_file_name(path.drop_last())
    } else if after_last(path, '/') == seq!['.'] {
        relative_file_name(path.drop_last())
    } else if after_last(path, '/') == seq!['.', '.'] {
        None
    } else {
        Some(after_last(path, '/'))
    }
}

/// Whether a file name has an extension: it holds a `.` that does not lead
/// it, and is not `..`.
pub open spec fn has_extension(name: Seq<char>) -> bool {
    name != seq!['.', '.'] && after_last(name, '.').len() + 1 < name.len()
}

/// The stem of a path: its file name up to the last `.` where the file name
/// has an extension, and all of its file name where it has none.
pub open spec fn relative_file_stem(path: Seq<char>) -> Option<Seq<char>> {
    match relative_file_name(path) {
        None => None,
        Some(name) => if has_extension(name) {
            Some(name.subrange(0, name.len() - after_last(name, '.').len() - 1))
        } else {
            Some(name)
        },
    }
}

/// The extension of a path: what stands behind the last `.` of its file
/// name, where the file name has an extension.
pub open spec fn relative_extension(path: Seq<char>) -> Option<Seq<char>> {
    match relative_file_name(path) {
        None => None,
        Some(name) => if has_extension(name) {
            Some(after_last(name, '.'))
        } else {
            None
        },
    }
}

/// A path without the `/` at its head, however many there are.
pub open spec fn without_leading_separators(path: Seq<char>) -> Seq<char>
    decreases path.len(),
{
    if path.len() > 0 && path[0] == '/' {
        without_leading_separators(path.drop_first())
    } else {
        path
    }
}

/// What stands in a path before its first `/`: all of it where it has none.
pub open spec fn up_to_separator(path: Seq<char>) -> Seq<char>
    decreases path.len(),
{
    if path.len() == 0 || path[0] == '/' {
        Seq::<char>::empty()
    } else {
        seq![path[0]] + up_to_separator(path.drop_first())
    }
}

/// The first part of a path, where that part is a name: what stands between
/// the `/` at the head of the path, if there are any, and the next `/`.
/// `None` where nothing stands there, or `.` or `..`, which are no names.
pub open spec fn first_normal_component(path: Seq<char>) -> Option<Seq<char>> {
    let first = up_to_separator(without_leading_separators(path));
    if first.len() == 0 || first == seq!['.'] || first == seq!['.', '.'] {
        None
    } else {
        Some(first)
    }
}

/// `RelativePath::join` of relative-path, on paths given and handed out as
/// text. The contract claims what `RelativePathBuf::push` does to the text.
#[verifier::external_body]
pub(crate) fn relative_join(base: &str, other: &str) -> (path: String)
    ensures
        path@ == joined(base@, other@),
{
    RelativePath::new(base).join(other).into_string()
}

/// `RelativePath::file_stem` of relative-path. The contract claims that the
/// file name is the last part of the path that is not `.`, that a path whose
/// last such part is `..` has none, and that the stem is the file name up to
/// its last `.`, or all of it where it holds no `.`, is `..`, or holds its
/// only `.` at its head.
#[verifier::external_body]
pub(crate) fn relative_path_file_stem(path: &str) -> (stem: Option<String>)
    ensures
        relative_file_stem(path@) == match stem {
            Some(text) => Some(text@),
            None => None::<Seq<char>>,
        },
{
    match RelativePath::new(path).file_stem() {
        Some(stem) => Some(stem.to_string()),
        None => None,
    }
}

/// `RelativePath::extension` of relative-path. The contract claims that the
/// extension is what stands behind the last `.` of the file name, and that
/// there is none where the file name holds no `.`, is `..`, or holds its only
/// `.` at its head.
#[verifier::external_body]
pub(crate) fn relative_path_extension(path: &str) -> (extension: Option<String>)
    ensures
        relative_extension(path@) == match extension {
            Some(text) => Some(text@),
            None => None::<Seq<char>>,
        },
{
    match RelativePath::new(path).extension() {
        Some(extension) => Some(extension.to_string()),
        None => None,
    }
}

/// The first item of `RelativePath::components` of relative-path, where it
/// is a `Component::Normal`. The contract claims that the iterator drops
/// every `/` at the head of the path, cuts at the next one, and takes what
/// it has cut off for a name unless that is empty, `.` or `..`.
#[verifier::external_body]
pub(crate) fn relative_path_first_normal(path: &str) -> (name: Option<String>)
    ensures
        first_normal_component(path@) == match name {
            Some(text) => Some(text@),
            None => None::<Seq<char>>,
        },
{
    match RelativePath::new(path).components().next() {
        Some(Component::Normal(name)) => Some(name.to_string()),
        Some(Component::CurDir) => None,
        Some(Component::ParentDir) => None,
        None => None,
    }
}

/// Whether a text holds neither `.` nor `/`.
pub open spec fn is_plain(text: Seq<char>) -> bool {
    forall|i: int| 0 <= i < text.len() ==> #[trigger] text[i] != '.' && text[i] != '/'
}

/// What stands behind the last mark of a text is an end of the text and
/// holds no mark.
pub proof fn lemma_after_last(text: Seq<char>, mark: char)
    ensures
        after_last(text, mark).len() <= text.len(),
        forall|i: int|
            0 <= i < after_last(text, mark).len() ==> #[trigger] after_last(text, mark)[i]
                == text[text.len() - after_last(text, mark).len() + i],
        forall|i: int|
            0 <= i < after_last(text, mark).len() ==> #[trigger] after_last(text, mark)[i] != mark,
        after_last(text, mark).len() < text.len() ==> text[text.len() - after_last(
            text,
            mark,
        ).len() - 1] == mark,
    decreases text.len(),
{
    if text.len() > 0 && text.last() != mark {
        lemma_after_last(text.drop_last(), mark);
    }
}

/// Behind a mark that is followed by no other stands all that follows it.
pub proof fn lemma_after_last_of_marked(head: Seq<char>, mark: char, tail: Seq<char>)
    requires
        forall|i: int| 0 <= i < tail.len() ==> tail[i] != mark,
    ensures
        after_last(head + seq![mark] + tail, mark) == tail,
    decreases tail.len(),
{
    let text = head + seq![mark] + tail;
    if tail.len() > 0 {
        lemma_after_last_of_marked(head, mark, tail.drop_last());
        assert(text.drop_last() =~= head + seq![mark] + tail.drop_last());
        assert(after_last(text, mark) =~= tail);
    } else {
        assert(after_last(text, mark) =~= tail);
    }
}

/// A text without a mark stands behind its last mark as a whole.
pub proof fn lemma_after_last_of_unmarked(text: Seq<char>, mark: char)
    requires
        forall|i: int| 0 <= i < text.len() ==> text[i] != mark,
    ensures
        after_last(text, mark) == text,
    decreases text.len(),
{
    if text.len() > 0 {
        lemma_after_last_of_unmarked(text.drop_last(), mark);
        assert(after_last(text, mark) =~= text);
    } else {
        assert(after_last(text, mark) =~= text);
    }
}

/// The file name of a path holds no `/`, and at least one character.
pub proof fn lemma_file_name_is_one_part(path: Seq<char>)
    ensures
        relative_file_name(path) matches Some(name) ==> name.len() > 0 && forall|i: int|
            0 <= i < name.len() ==> name[i] != '/',
    decreases path.len(),
{
    if path.len() > 0 {
        lemma_file_name_is_one_part(path.drop_last());
        lemma_after_last(path, '/');
    }
}

/// The extension of a path is plain: it holds neither `.` nor `/`.
pub proof fn lemma_extension_is_plain(path: Seq<char>)
    ensures
        relative_extension(path) matches Some(extension) ==> is_plain(extension),
{
    lemma_file_name_is_one_part(path);
    if relative_file_name(path) is Some {
        lemma_after_last(relative_file_name(path)->Some_0, '.');
    }
}

/// A plain stem, a `.` and a plain extension make a path whose stem and
/// extension they are.
pub proof fn lemma_stem_and_extension(stem: Seq<char>, extension: Seq<char>)
    requires
        stem.len() > 0,
        is_plain(stem),
        is_plain(extension),
    ensures
        relative_file_stem(stem + seq!['.'] + extension) == Some(stem),
        relative_extension(stem + seq!['.'] + extension) == Some(extension),
{
    let name = stem + seq!['.'] + extension;
    assert(name[0] == stem[0]);
    assert forall|i: int| 0 <= i < name.len() implies name[i] != '/' by {
        if i < stem.len() {
            assert(name[i] == stem[i]);
        } else if i > stem.len() {
            assert(name[i] == extension[i - stem.len() - 1]);
        }
    }
    lemma_after_last_of_unmarked(name, '/');
    lemma_after_last_of_marked(stem, '.', extension);
    assert(name.subrange(0, name.len() - extension.len() - 1) =~= stem);
}

} // verus!
