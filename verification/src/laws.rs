//! The laws of the file operations, proved over the same map model that the
//! operations' contracts speak of: `write_file` inserts at the written path,
//! `backup_file` inserts at the derived backup path, `restore_file` inserts
//! the backup's content at the original path, and `read_file` returns
//! `fs_lookup` of the store.

use vstd::prelude::*;
use crate::system::{backup_path, fs_lookup};

verus! {

/// Writing `content` to `path` and then reading `path` yields exactly
/// `content`.
pub proof fn lemma_write_then_read(
    files: Map<Seq<char>, Seq<char>>,
    path: Seq<char>,
    content: Seq<char>,
)
    ensures
        fs_lookup(files.insert(path, content), path) == Some(content),
{
}

/// A path never written does not exist, and a path exists immediately after
/// a write to it succeeds.
pub proof fn lemma_exists_after_write(
    files: Map<Seq<char>, Seq<char>>,
    path: Seq<char>,
    content: Seq<char>,
)
    ensures
        !Map::<Seq<char>, Seq<char>>::empty().contains_key(path),
        files.insert(path, content).contains_key(path),
{
}

/// The backup path of `path` is a different path than `path` itself, so a
/// backup never clobbers its own source.
pub proof fn lemma_backup_path_distinct(path: Seq<char>)
    ensures
        backup_path(path) != path,
{
    reveal_strlit(".backup");
    assert(backup_path(path).len() == path.len() + 7);
}

/// Backing up `path`, overwriting it, and restoring it from the backup path
/// brings back the content from before the overwrite: reading `path` after
/// the three steps yields what it held at the start.
pub proof fn lemma_backup_restore_round_trip(
    files: Map<Seq<char>, Seq<char>>,
    path: Seq<char>,
    altered: Seq<char>,
)
    requires
        files.contains_key(path),
    ensures
        ({
            let b = backup_path(path);
            let after_backup = files.insert(b, files[path]);
            let after_overwrite = after_backup.insert(path, altered);
            let after_restore = after_overwrite.insert(path, after_overwrite[b]);
            fs_lookup(after_restore, path) == Some(files[path])
        }),
{
    lemma_backup_path_distinct(path);
}

} // verus!
