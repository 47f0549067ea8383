//! The sweep: which of the entries under the storage root are buckets whose
//! hour has passed, and so are removed with all they hold.
//!
//! The sweep keeps no state. It reads the first part of each entry's path as
//! the name of a bucket directory; an entry whose name is none is reported
//! and left alone, and no entry bears on what becomes of another.

use crate::decimal::decimal;
use crate::instant::Instant;
use crate::paths::first_normal_component;
use crate::paths::relative_path_first_normal;
use crate::text::optional_text;
use crate::util::bucket_seconds;
use crate::util::expiration_of_directory;
use crate::util::get_expiration_for_directory;
use crate::util::lemma_directory_outlives_expiration;
use crate::util::GetDirectoryExpirationError;
use vstd::prelude::*;
use vstd::string::StringExecFns;

verus! {

/// Why the sweep did not run.
#[derive(Clone, Debug, PartialEq, Eq)]
pub enum CleanupError {
    /// The storage root could not be listed, with the backend's own words.
    UnableToListDirectories(String),
}

/// Why the sweep passed over an entry.
#[derive(Clone, Debug, PartialEq, Eq)]
pub enum CleanupEntryError {
    /// The path of the entry, which does not start with a name.
    UnableToParseDirectory(String),
    /// The name of the entry, and why it names no bucket.
    UnableToParseDirectoryExpiration(String, GetDirectoryExpirationError),
    /// The name of the bucket that the backend failed to remove, and the
    /// backend's own words.
    UnableToRemoveDirectory(String, String),
}

/// What the sweep does with a bucket.
#[derive(Clone, Debug, PartialEq, Eq)]
pub enum EntryAction {
    /// The bucket has expired: all that lies under `target` is removed.
    Remove { directory: String, target: String, expiration: Instant },
    /// The bucket lives on until `expiration`.
    Keep { directory: String, expiration: Instant },
}

/// What becomes of an entry in the sweep, over texts.
pub enum Fate {
    /// The bucket `directory` expired at `expiration`, which has been
    /// reached: all that lies under `target` is removed.
    Remove { directory: Seq<char>, target: Seq<char>, expiration: Instant },
    /// The bucket `directory` lives on until `expiration`.
    Keep { directory: Seq<char>, expiration: Instant },
    /// The path does not start with a name: the entry is left alone.
    NoDirectory { path: Seq<char> },
    /// The name is that of no bucket: the entry is left alone.
    NoExpiration { directory: Seq<char>, error: GetDirectoryExpirationError },
}

/// The storage path under which all of a bucket lies: its name and a `/`.
pub open spec fn removal_target(directory: Seq<char>) -> Seq<char> {
    directory + seq!['/']
}

/// What becomes at the time `now` of the entry at `path`, whose first part
/// is `directory` where it is a name. A bucket is removed once its
/// expiration has been reached, so at that very instant too.
pub open spec fn fate_of_directory(directory: Option<Seq<char>>, path: Seq<char>, now: Instant) -> Fate {
    match directory {
        None => Fate::NoDirectory { path },
        Some(directory) => match expiration_of_directory(directory) {
            Err(error) => Fate::NoExpiration { directory, error },
            Ok(expiration) => if expiration.reached_at(now) {
                Fate::Remove { directory, target: removal_target(directory), expiration }
            } else {
                Fate::Keep { directory, expiration }
            },
        },
    }
}

/// What becomes at the time `now` of the entry at `path`.
pub open spec fn fate(path: Seq<char>, now: Instant) -> Fate {
    fate_of_directory(first_normal_component(path), path, now)
}

/// The fate that an outcome of the sweep reports; `None` for a failure of
/// the backend, which is no decision of the sweep.
pub open spec fn reported_fate(outcome: Result<EntryAction, CleanupEntryError>) -> Option<Fate> {
    match outcome {
        Ok(EntryAction::Remove { directory, target, expiration }) => Some(
            Fate::Remove { directory: directory@, target: target@, expiration },
        ),
        Ok(EntryAction::Keep { directory, expiration }) => Some(
            Fate::Keep { directory: directory@, expiration },
        ),
        Err(CleanupEntryError::UnableToParseDirectory(path)) => Some(
            Fate::NoDirectory { path: path@ },
        ),
        Err(CleanupEntryError::UnableToParseDirectoryExpiration(directory, error)) => Some(
            Fate::NoExpiration { directory: directory@, error },
        ),
        Err(CleanupEntryError::UnableToRemoveDirectory(_, _)) => None,
    }
}

/// What the sweep does at the time `now` with the entry at `path`, whose
/// first part is `directory` where it is a name.
pub fn cleanup_directory(directory: Option<String>, path: &str, now: Instant) -> (outcome: Result<
    EntryAction,
    CleanupEntryError,
>)
    ensures
        reported_fate(outcome) == Some(fate_of_directory(optional_text(directory), path@, now)),
{
    let directory = match directory {
        Some(directory) => directory,
        None => {
            return Err(CleanupEntryError::UnableToParseDirectory(String::from_str(path)));
        },
    };
    let expiration = match get_expiration_for_directory(directory.as_str()) {
        Ok(expiration) => expiration,
        Err(error) => {
            return Err(CleanupEntryError::UnableToParseDirectoryExpiration(directory, error));
        },
    };
    if expiration.has_passed(&now) {
        let target = directory.clone().concat("/");
        proof {
            reveal_strlit("/");
            assert("/"@ =~= seq!['/']);
        }
        Ok(EntryAction::Remove { directory, target, expiration })
    } else {
        Ok(EntryAction::Keep { directory, expiration })
    }
}

/// What the sweep does at the time `now` with the entry at `path`.
pub fn cleanup_entry(path: &str, now: Instant) -> (outcome: Result<EntryAction, CleanupEntryError>)
    ensures
        reported_fate(outcome) == Some(fate(path@, now)),
{
    cleanup_directory(relative_path_first_normal(path), path, now)
}

/// What a sweep found: for each entry that was listed, in the order of the
/// listing, what is done with it or why it is passed over.
#[derive(Clone, Debug, PartialEq, Eq)]
pub struct SweepReport {
    pub outcomes: Vec<Result<EntryAction, CleanupEntryError>>,
}

/// The sweep at the time `now` over the entries that lie at `entries` under
/// the storage root. Each entry is judged by itself.
pub fn cleanup(entries: &Vec<String>, now: Instant) -> (report: SweepReport)
    ensures
        report.outcomes@.len() == entries@.len(),
        forall|i: int|
            0 <= i < entries@.len() ==> reported_fate(#[trigger] report.outcomes@[i]) == Some(
                fate(entries@[i]@, now),
            ),
{
    let mut outcomes: Vec<Result<EntryAction, CleanupEntryError>> = Vec::new();
    let mut i: usize = 0;
    while i < entries.len()
        invariant
            i <= entries@.len(),
            outcomes@.len() == i,
            forall|j: int|
                0 <= j < i ==> reported_fate(#[trigger] outcomes@[j]) == Some(
                    fate(entries@[j]@, now),
                ),
        decreases entries@.len() - i,
    {
        let outcome = cleanup_entry(entries[i].as_str(), now);
        outcomes.push(outcome);
        i += 1;
    }
    SweepReport { outcomes }
}

impl EntryAction {
    /// What became of the bucket, where `removed` tells how the backend
    /// fared with removing what it was asked to remove, and `None` where it
    /// was asked nothing because the bucket lives on. A failure of the
    /// backend is an error of this entry and of no other.
    pub fn done(self, removed: Option<Result<(), String>>) -> (outcome: Result<
        EntryAction,
        CleanupEntryError,
    >)
        ensures
            outcome == match removed {
                Some(Err(words)) => Err::<EntryAction, CleanupEntryError>(
                    CleanupEntryError::UnableToRemoveDirectory(self.directory_name(), words),
                ),
                _ => Ok(self),
            },
    {
        match removed {
            Some(Err(words)) => {
                let directory = match &self {
                    EntryAction::Remove { directory, .. } => directory.clone(),
                    EntryAction::Keep { directory, .. } => directory.clone(),
                };
                Err(CleanupEntryError::UnableToRemoveDirectory(directory, words))
            },
            _ => Ok(self),
        }
    }

    /// The name of the bucket.
    pub open spec fn directory_name(self) -> String {
        match self {
            EntryAction::Remove { directory, .. } => directory,
            EntryAction::Keep { directory, .. } => directory,
        }
    }
}

impl CleanupError {
    /// The error in words.
    pub fn message(&self) -> (words: String)
        ensures
            words@ == match *self {
                CleanupError::UnableToListDirectories(backend) => "Unable to list directories: "@
                    + backend@,
            },
    {
        match self {
            CleanupError::UnableToListDirectories(backend) => String::from_str(
                "Unable to list directories: ",
            ).concat(backend.as_str()),
        }
    }
}

impl CleanupEntryError {
    /// The error in words.
    pub fn message(&self) -> (words: String)
        ensures
            words@ == match *self {
                CleanupEntryError::UnableToParseDirectory(path) => "Issue reading directory from entry path: "@
                    + path@,
                CleanupEntryError::UnableToParseDirectoryExpiration(directory, error) => "Unable to parse directory expiration for '"@
                    + directory@ + "': "@ + error.words(),
                CleanupEntryError::UnableToRemoveDirectory(directory, backend) => "Unable to remove directory '"@
                    + directory@ + "': "@ + backend@,
            },
    {
        match self {
            CleanupEntryError::UnableToParseDirectory(path) => String::from_str(
                "Issue reading directory from entry path: ",
            ).concat(path.as_str()),
            CleanupEntryError::UnableToParseDirectoryExpiration(directory, error) => {
                let reason = error.message();
                String::from_str("Unable to parse directory expiration for '").concat(
                    directory.as_str(),
                ).concat("': ").concat(reason.as_str())
            },
            CleanupEntryError::UnableToRemoveDirectory(directory, backend) => String::from_str(
                "Unable to remove directory '",
            ).concat(directory.as_str()).concat("': ").concat(backend.as_str()),
        }
    }
}

/// Whether the sweep at the time `now` removes the entry at `path`.
pub open spec fn is_removed(path: Seq<char>, now: Instant) -> bool {
    fate(path, now) is Remove
}

/// The entries that a sweep at the time `now` leaves under the storage root,
/// where the backend removes what it is asked to and nothing else comes or
/// goes.
pub open spec fn left_behind(paths: Seq<Seq<char>>, now: Instant) -> Seq<Seq<char>> {
    paths.filter(|path: Seq<char>| !is_removed(path, now))
}

/// A second sweep right after a first one removes nothing: of what the first
/// left behind, nothing is removed at the same time `now`.
pub proof fn lemma_sweep_is_idempotent(paths: Seq<Seq<char>>, now: Instant)
    ensures
        forall|i: int|
            0 <= i < left_behind(paths, now).len() ==> !is_removed(
                #[trigger] left_behind(paths, now)[i],
                now,
            ),
        left_behind(left_behind(paths, now), now) == left_behind(paths, now),
{
    let keep = |path: Seq<char>| !is_removed(path, now);
    let rest = left_behind(paths, now);
    assert forall|i: int| 0 <= i < rest.len() implies !is_removed(#[trigger] rest[i], now) by {
        paths.lemma_filter_pred(keep, i);
    }
    lemma_filter_of_all(rest, keep);
}

/// Filtering keeps a sequence as it is where all its items pass.
proof fn lemma_filter_of_all<A>(items: Seq<A>, pred: spec_fn(A) -> bool)
    requires
        forall|i: int| 0 <= i < items.len() ==> pred(#[trigger] items[i]),
    ensures
        items.filter(pred) == items,
    decreases items.len(),
{
    reveal(Seq::filter);
    if items.len() > 0 {
        lemma_filter_of_all(items.drop_last(), pred);
    }
}

/// What the sweep once removes it removes ever after: a bucket that has
/// expired stays expired.
pub proof fn lemma_removed_for_good(path: Seq<char>, now: Instant, later: Instant)
    requires
        !later.precedes(now),
        is_removed(path, now),
    ensures
        is_removed(path, later),
{
}

/// The sweep never removes a bucket while an object in it may still be had:
/// where it removes the directory that an object expiring at `t` was placed
/// in, `t` has been reached.
pub proof fn lemma_sweep_spares_the_living(t: Instant, path: Seq<char>, now: Instant)
    requires
        t.valid(),
        fate_of_directory(Some(decimal(bucket_seconds(t))), path, now) is Remove,
    ensures
        t.reached_at(now),
{
    if bucket_seconds(t) <= crate::instant::MAX_SECONDS {
        lemma_directory_outlives_expiration(t);
    } else {
        crate::decimal::lemma_parse_decimal(bucket_seconds(t));
    }
}

} // verus!
