//! The decisions of archive extraction: which unpacker a downloaded file needs, how the
//! unpacked content is laid out at its destination, and when a move falls back to a copy.
use vstd::prelude::*;
use crate::text::{ends_with_seq, ends_with_str, str_equal};

verus! {

/// How a downloaded file is unpacked.
#[derive(Debug, Clone, Copy, PartialEq, Eq, Structural)]
pub enum ArchiveKind {
    /// A zip archive, unpacked entry by entry.
    Zip,
    /// A gzip-compressed tar archive (`.tar.gz`, `.tgz`).
    TarGz,
    /// Anything else: the file is copied as it is.
    Plain,
}

/// How unpacked content reaches its final place.
#[derive(Debug, Clone, Copy, PartialEq, Eq, Structural)]
pub enum FinalizePlan {
    /// The archive held a single folder: its contents are merged into `<destination>/<repo>`.
    MergeFolder,
    /// Anything else: each entry is moved into the destination itself.
    MoveEntries,
}

/// The unpacker for a file at `path` whose extension (the part of its file name after the
/// last dot) is `extension`: `zip` is a zip archive; `gz`, or a path ending in `.tgz`, a
/// tar.gz archive; anything else is copied.
pub open spec fn spec_archive_kind(extension: Option<Seq<char>>, path: Seq<char>) -> ArchiveKind {
    if extension == Some("zip"@) {
        ArchiveKind::Zip
    } else if extension == Some("gz"@) || ends_with_seq(path, ".tgz"@) {
        ArchiveKind::TarGz
    } else {
        ArchiveKind::Plain
    }
}

/// The plan for content whose top-level entries are directories as `entry_is_dir` says.
pub open spec fn spec_finalize_plan(entry_is_dir: Seq<bool>) -> FinalizePlan {
    if entry_is_dir.len() == 1 && entry_is_dir[0] {
        FinalizePlan::MergeFolder
    } else {
        FinalizePlan::MoveEntries
    }
}

/// A rename that failed with this OS error code is done as copy-then-delete instead:
/// 17 (the target exists) and 18 (the target is on another device).
pub open spec fn spec_rename_falls_back(raw_os_error: Option<i32>) -> bool {
    raw_os_error == Some(17i32) || raw_os_error == Some(18i32)
}

/// Only a `zip` extension makes a zip archive; only a `gz` extension or a path whose last
/// four characters are `.tgz` make a tar.gz archive; every other file (whatever else its
/// name holds) is copied as it is.
pub proof fn law_archive_kind(extension: Option<Seq<char>>, path: Seq<char>)
    ensures
        (spec_archive_kind(extension, path) == ArchiveKind::Zip) == (extension == Some("zip"@)),
        (spec_archive_kind(extension, path) == ArchiveKind::TarGz) == (extension != Some("zip"@) && (
        extension == Some("gz"@) || (path.len() >= 4 && path.subrange(path.len() - 4, path.len() as int)
            == ".tgz"@))),
        (spec_archive_kind(extension, path) == ArchiveKind::Plain) == (extension != Some("zip"@)
            && extension != Some("gz"@) && !(path.len() >= 4 && path.subrange(
            path.len() - 4,
            path.len() as int,
        ) == ".tgz"@)),
{
    reveal_strlit(".tgz");
}

/// Content is merged as a single folder exactly when it consists of one top-level entry
/// and that entry is a directory; whenever there are several entries, or the only one is a
/// file, or there are none, every entry is moved.
pub proof fn law_finalize_plan(entry_is_dir: Seq<bool>)
    ensures
        (spec_finalize_plan(entry_is_dir) == FinalizePlan::MergeFolder) == (entry_is_dir.len() == 1
            && entry_is_dir[0]),
        entry_is_dir.len() != 1 ==> spec_finalize_plan(entry_is_dir) == FinalizePlan::MoveEntries,
{
}

/// A failed rename is retried as copy-then-delete exactly for OS error codes 17 and 18;
/// any other code, or none, is a failure.
pub proof fn law_rename_fallback(raw_os_error: Option<i32>)
    ensures
        spec_rename_falls_back(raw_os_error) == (raw_os_error matches Some(code) && (code == 17
            || code == 18)),
{
}

/// Unpacks downloaded releases.
pub struct ArchiveManager;

impl ArchiveManager {
    /// Which unpacker the file at `path`, with file-name extension `extension`, needs.
    pub fn archive_kind(extension: Option<&str>, path: &str) -> (k: ArchiveKind)
        ensures
            k == spec_archive_kind(
                match extension {
                    Some(e) => Some(e@),
                    None => None,
                },
                path@,
            ),
    {
        let (is_zip, is_gz) = match extension {
            Some(e) => (str_equal(e, "zip"), str_equal(e, "gz")),
            None => (false, false),
        };
        if is_zip {
            ArchiveKind::Zip
        } else if is_gz || ends_with_str(path, ".tgz") {
            ArchiveKind::TarGz
        } else {
            ArchiveKind::Plain
        }
    }

    /// How to lay out unpacked content whose top-level entries are directories as
    /// `entry_is_dir` says.
    pub fn finalize_plan(entry_is_dir: &Vec<bool>) -> (p: FinalizePlan)
        ensures
            p == spec_finalize_plan(entry_is_dir@),
    {
        if entry_is_dir.len() == 1 && entry_is_dir[0] {
            FinalizePlan::MergeFolder
        } else {
            FinalizePlan::MoveEntries
        }
    }

    /// Whether a rename that failed with `raw_os_error` is to be done as copy-then-delete.
    pub fn rename_falls_back(raw_os_error: Option<i32>) -> (r: bool)
        ensures
            r == spec_rename_falls_back(raw_os_error),
    {
        match raw_os_error {
            Some(code) => code == 17 || code == 18,
            None => false,
        }
    }
}

} // verus!
