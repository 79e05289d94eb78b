//! The guarded access layer itself: file operations, host reporting, and the
//! home-directory lookup.
//!
//! `SystemService` carries a store of files so that each operation's effect
//! can be stated and proved over the map of paths to contents.  The
//! host-facing shell performs the same operations against the real file
//! system, reusing this crate's path derivations, policy checks and message
//! formats; the contracts here are the reference semantics of the layer.

use vstd::prelude::*;
use vstd::map::*;
use vstd::hash_map::StringHashMap;
use crate::errors::{ErrorKind, SystemError, with_context};
use crate::release::version_text;

verus! {

/// Static description of the host platform.
#[derive(Clone, Debug)]
pub struct SystemInfo {
    pub os: String,
    pub arch: String,
    pub os_version: String,
}

/// The content found at `path`, if any.
pub open spec fn fs_lookup(files: Map<Seq<char>, Seq<char>>, path: Seq<char>) -> Option<
    Seq<char>,
> {
    if files.contains_key(path) {
        Some(files[path])
    } else {
        None
    }
}

/// The fixed, non-unique path a backup of `path` is written to.
pub open spec fn backup_path(path: Seq<char>) -> Seq<char> {
    path + ".backup"@
}

/// The size reported for a file with content `content`: the byte length of
/// its UTF-8 encoding.
pub open spec fn content_size(content: Seq<char>) -> u64 {
    (vstd::utf8::encode_utf8(content).len() as usize) as u64
}

/// Derives the path a backup of `path` is written to.
pub fn backup_path_of(path: &str) -> (r: String)
    ensures
        r@ == backup_path(path@),
{
    String::from_str(path).concat(".backup")
}

/// The guarded system access layer, holding the store of files its
/// operations act on.
pub struct SystemService {
    files: StringHashMap<String>,
}

impl View for SystemService {
    type V = Map<Seq<char>, Seq<char>>;

    /// The files the service holds: a map from path to content.
    closed spec fn view(&self) -> Map<Seq<char>, Seq<char>> {
        Map::new(
            |p: Seq<char>| self.files@.contains_key(p),
            |p: Seq<char>| self.files@[p]@,
        )
    }
}

impl SystemService {
    /// A service holding no files.
    pub fn new() -> (s: Self)
        ensures
            s@ == Map::<Seq<char>, Seq<char>>::empty(),
    {
        let s = SystemService { files: StringHashMap::new() };
        proof {
            assert(s@ =~= Map::<Seq<char>, Seq<char>>::empty());
        }
        s
    }

    /// Whether a file exists at `path`.  Never fails: a path that cannot be
    /// found reads as absent.
    pub fn file_exists(&self, path: &str) -> (r: bool)
        ensures
            r == self@.contains_key(path@),
    {
        self.files.contains_key(path)
    }

    /// Reads the file at `path`; fails with an I/O error when there is none.
    pub fn read_file(&self, path: &str) -> (r: Result<String, SystemError>)
        ensures
            self@.contains_key(path@) ==> (r matches Ok(c) && Some(c@) == fs_lookup(
                self@,
                path@,
            )),
            !self@.contains_key(path@) ==> (r matches Err(e) && e.kind == ErrorKind::IoError
                && e.message@ == with_context("Failed to read file"@, path@)),
    {
        match self.files.get(path) {
            Some(content) => Ok(content.clone()),
            None => Err(SystemError::with_detail(ErrorKind::IoError, "Failed to read file", path)),
        }
    }

    /// Writes `content` to `path`, overwriting unconditionally; no backup is
    /// taken implicitly.
    pub fn write_file(&mut self, path: &str, content: &str) -> (r: Result<(), SystemError>)
        ensures
            r is Ok,
            final(self)@ == old(self)@.insert(path@, content@),
    {
        self.files.insert(String::from_str(path), String::from_str(content));
        proof {
            assert_maps_equal!(self@, old(self)@.insert(path@, content@));
        }
        Ok(())
    }

    /// Copies the file at `path` to `path + ".backup"`, overwriting any
    /// prior backup at that fixed suffix, and returns the backup path.
    /// Fails with a not-found error — and leaves every file untouched, the
    /// backup path included — when `path` holds no file.
    pub fn backup_file(&mut self, path: &str) -> (r: Result<String, SystemError>)
        ensures
            old(self)@.contains_key(path@) ==> (r matches Ok(b) && b@ == backup_path(path@)
                && final(self)@ == old(self)@.insert(backup_path(path@), old(self)@[path@])),
            !old(self)@.contains_key(path@) ==> (r matches Err(e) && e.kind
                == ErrorKind::NotFoundError && e.message@ == with_context(
                "File not found"@,
                path@,
            ) && final(self)@ == old(self)@),
    {
        let found: Option<String> = match self.files.get(path) {
            Some(content) => Some(content.clone()),
            None => None,
        };
        match found {
            Some(content) => {
                let bpath = backup_path_of(path);
                self.files.insert(bpath.clone(), content);
                proof {
                    assert_maps_equal!(
                        self@,
                        old(self)@.insert(backup_path(path@), old(self)@[path@])
                    );
                }
                Ok(bpath)
            },
            None => Err(
                SystemError::with_detail(ErrorKind::NotFoundError, "File not found", path),
            ),
        }
    }

    /// Copies the file at `backup` over `original` unconditionally; any
    /// readable file serves as a restore source.  Fails with an I/O error —
    /// leaving every file untouched — when `backup` holds no file.
    pub fn restore_file(&mut self, backup: &str, original: &str) -> (r: Result<
        (),
        SystemError,
    >)
        ensures
            old(self)@.contains_key(backup@) ==> (r is Ok && final(self)@ == old(self)@.insert(
                original@,
                old(self)@[backup@],
            )),
            !old(self)@.contains_key(backup@) ==> (r matches Err(e) && e.kind == ErrorKind::IoError
                && e.message@ == with_context("Failed to restore file"@, backup@) && final(self)@
                == old(self)@),
    {
        let found: Option<String> = match self.files.get(backup) {
            Some(content) => Some(content.clone()),
            None => None,
        };
        match found {
            Some(content) => {
                self.files.insert(String::from_str(original), content);
                proof {
                    assert_maps_equal!(
                        self@,
                        old(self)@.insert(original@, old(self)@[backup@])
                    );
                }
                Ok(())
            },
            None => Err(
                SystemError::with_detail(ErrorKind::IoError, "Failed to restore file", backup),
            ),
        }
    }

    /// The size in bytes of the file at `path`; fails with an I/O error when
    /// there is none.
    pub fn get_file_size(&self, path: &str) -> (r: Result<u64, SystemError>)
        ensures
            self@.contains_key(path@) ==> (r matches Ok(n) && n == content_size(self@[path@])),
            !self@.contains_key(path@) ==> (r matches Err(e) && e.kind == ErrorKind::IoError
                && e.message@ == with_context("Failed to get file size"@, path@)),
    {
        match self.files.get(path) {
            Some(content) => {
                let n = content.as_str().len();
                Ok(n as u64)
            },
            None => Err(
                SystemError::with_detail(ErrorKind::IoError, "Failed to get file size", path),
            ),
        }
    }
}

/// The home directory as the environment reports it: the variable's value
/// when set, an environment error carrying the lookup's failure text when
/// not.
pub fn get_home_dir(lookup: Result<String, String>) -> (r: Result<String, SystemError>)
    ensures
        lookup matches Ok(v) ==> (r matches Ok(h) && h@ == v@),
        lookup matches Err(d) ==> (r matches Err(e) && e.kind == ErrorKind::EnvironmentError
            && e.message@ == with_context("Failed to get home directory"@, d@)),
{
    match lookup {
        Ok(v) => Ok(v),
        Err(d) => Err(
            SystemError::with_detail(
                ErrorKind::EnvironmentError,
                "Failed to get home directory",
                d.as_str(),
            ),
        ),
    }
}

/// Assembles the host description: the host's own system and architecture
/// names pass through unchanged, and the version falls back to `"Unknown"`
/// on probe failure, so no field is ever empty.
pub fn get_system_info(os: String, arch: String, probe: Option<String>) -> (r: SystemInfo)
    requires
        os@.len() > 0,
        arch@.len() > 0,
    ensures
        r.os@ == os@,
        r.arch@ == arch@,
        r.os_version@ == version_text(probe.deep_view()),
        r.os@.len() > 0,
        r.arch@.len() > 0,
        r.os_version@.len() > 0,
{
    let os_version = crate::release::os_version_from_probe(probe);
    SystemInfo { os, arch, os_version }
}

} // verus!
