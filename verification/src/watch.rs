//! The file-watch filter: which filesystem notifications the editor is
//! told about. Only content changes count — creations and modifications of
//! ordinary files — while hidden files, editor backup and temporary files,
//! and directories are noise.

use vstd::prelude::*;

use crate::strutil::{ends_with, has_substring, str_contains, str_ends_with};

verus! {

/// The kind of a filesystem notification, as the watching backend
/// classifies it.
#[derive(Clone, Copy, PartialEq, Eq, Structural, Debug)]
pub enum WatchEventKind {
    Any,
    Access,
    Create,
    Modify,
    Remove,
    Other,
}

/// Only creations and modifications are content changes.
pub open spec fn relevant_kind(k: WatchEventKind) -> bool {
    k == WatchEventKind::Create || k == WatchEventKind::Modify
}

/// Noise paths: anything inside or named as a hidden entry, editor backup
/// files, and temporary files.
pub open spec fn noisy_path(p: Seq<char>) -> bool {
    ||| has_substring(p, "/."@)
    ||| ends_with(p, "~"@)
    ||| ends_with(p, ".tmp"@)
}

/// Whether a notification is forwarded to the editor: a creation or
/// modification of an ordinary, non-hidden, non-temporary file.
pub open spec fn should_emit(k: WatchEventKind, p: Seq<char>, is_dir: bool) -> bool {
    relevant_kind(k) && !noisy_path(p) && !is_dir
}

/// Decides whether one filesystem notification is forwarded.
pub fn watch_event_emits(kind: WatchEventKind, path: &str, is_dir: bool) -> (r: bool)
    ensures
        r == should_emit(kind, path@, is_dir),
{
    if !matches!(kind, WatchEventKind::Create | WatchEventKind::Modify) {
        return false;
    }
    if str_contains(path, "/.") || str_ends_with(path, "~") || str_ends_with(path, ".tmp") {
        return false;
    }
    !is_dir
}

} // verus!
