//! Where the transient files of a workspace live, and what the
//! `last-touched` file says.
//!
//! Paths are texts with `/` between their parts.

use vstd::prelude::*;
use crate::error::BeadsError;
use crate::text::{trim, trimmed};

verus! {

pub const LAST_TOUCHED_FILE: &'static str = "last-touched";

/// What follows the prefix of a workspace in the name of its database.
pub const DB_EXTENSION: &'static str = ".db";

/// What follows the prefix of a workspace in the name of its export.
pub const EXPORT_EXTENSION: &'static str = ".jsonl";

/// Environment variable for overriding the cache directory location.
///
/// When set, transient files like `last-touched` will be stored in this
/// directory instead of the `.beads` directory.
pub const BEADS_CACHE_DIR_ENV: &'static str = "BEADS_CACHE_DIR";

/// The directory for transient files: the override where one is set and not
/// empty, the `.beads` directory otherwise.
pub open spec fn cache_dir(beads_dir: Seq<char>, cache_dir_override: Option<Seq<char>>) -> Seq<char> {
    match cache_dir_override {
        Some(dir) => if dir.len() > 0 {
            dir
        } else {
            beads_dir
        },
        None => beads_dir,
    }
}

/// The path of the file `name` in the directory `dir`: the two with one `/`
/// between them; `name` alone where `dir` is empty.
pub open spec fn joined(dir: Seq<char>, name: Seq<char>) -> Seq<char> {
    if dir.len() == 0 {
        name
    } else if dir.last() == '/' {
        dir + name
    } else {
        dir + "/"@ + name
    }
}

/// Resolve the effective cache directory for transient files.
///
/// `cache_dir_override` is the value of `BEADS_CACHE_DIR`, if it is set.
#[must_use]
pub fn resolve_cache_dir(beads_dir: &str, cache_dir_override: Option<&str>) -> (r: String)
    ensures
        r@ == cache_dir(beads_dir@, match cache_dir_override { Some(d) => Some(d@), None => None }),
{
    match cache_dir_override {
        Some(dir) => if dir.unicode_len() > 0 {
            dir.to_owned()
        } else {
            beads_dir.to_owned()
        },
        None => beads_dir.to_owned(),
    }
}

/// The path of the file `name` in the directory `dir`.
pub fn join_path(dir: &str, name: &str) -> (r: String)
    ensures
        r@ == joined(dir@, name@),
{
    let n: usize = dir.unicode_len();
    if n == 0 {
        name.to_owned()
    } else {
        let mut r: String = dir.to_owned();
        if dir.get_char(n - 1) != '/' {
            r.append("/");
        }
        r.append(name);
        r
    }
}

/// Build the path to the `last-touched` file: in the cache directory.
#[must_use]
pub fn last_touched_path(beads_dir: &str, cache_dir_override: Option<&str>) -> (r: String)
    ensures
        r@ == joined(
            cache_dir(beads_dir@, match cache_dir_override { Some(d) => Some(d@), None => None }),
            LAST_TOUCHED_FILE@,
        ),
{
    let dir: String = resolve_cache_dir(beads_dir, cache_dir_override);
    join_path(dir.as_str(), LAST_TOUCHED_FILE)
}

/// Build the path to the SQLite database file: the file `<prefix>.db` in the
/// cache directory, where the prefix is that of the workspace.
#[must_use]
pub fn db_path(beads_dir: &str, cache_dir_override: Option<&str>, prefix: &str) -> (r: String)
    ensures
        r@ == joined(
            cache_dir(beads_dir@, match cache_dir_override { Some(d) => Some(d@), None => None }),
            prefix@ + DB_EXTENSION@,
        ),
{
    let dir: String = resolve_cache_dir(beads_dir, cache_dir_override);
    let mut name: String = prefix.to_owned();
    name.append(DB_EXTENSION);
    join_path(dir.as_str(), name.as_str())
}

/// Build the path to the export: the file `<prefix>.jsonl` in the `.beads`
/// directory, whatever the cache directory is.
#[must_use]
pub fn export_path(beads_dir: &str, prefix: &str) -> (r: String)
    ensures
        r@ == joined(beads_dir@, prefix@ + EXPORT_EXTENSION@),
{
    let mut name: String = prefix.to_owned();
    name.append(EXPORT_EXTENSION);
    join_path(beads_dir, name.as_str())
}

/// The number of characters before the first line feed; the length of the
/// text where it has none.
pub open spec fn line_end(text: Seq<char>) -> nat
    decreases text.len(),
{
    if text.len() == 0 || text[0] == '\n' {
        0
    } else {
        1 + line_end(text.drop_first())
    }
}

/// The first line of a text, without its line feed.
pub open spec fn first_line(text: Seq<char>) -> Seq<char> {
    text.take(line_end(text) as int)
}

proof fn line_end_found(text: Seq<char>, i: int)
    requires
        0 <= i <= text.len(),
        forall|j: int| 0 <= j < i ==> text[j] != '\n',
        i == text.len() || text[i] == '\n',
    ensures
        line_end(text) == i,
    decreases text.len(),
{
    if i > 0 {
        let rest = text.drop_first();
        assert forall|j: int| 0 <= j < i - 1 implies rest[j] != '\n' by {
            assert(rest[j] == text[j + 1]);
        }
        line_end_found(rest, i - 1);
    }
}

/// The id that the contents of the `last-touched` file name: the first line,
/// trimmed.
pub fn last_touched_id_in(contents: &str) -> (r: String)
    ensures
        r@ == trimmed(first_line(contents@)),
{
    let n: usize = contents.unicode_len();
    let mut i: usize = 0;
    while i < n && contents.get_char(i) != '\n'
        invariant
            i <= n,
            n == contents@.len(),
            forall|j: int| 0 <= j < i ==> contents@[j] != '\n',
        decreases n - i,
    {
        i = i + 1;
    }
    proof {
        line_end_found(contents@, i as int);
    }
    let line: &str = contents.substring_char(0, i);
    trim(line).to_owned()
}

/// Whether a workspace may be made in a directory: one that holds a
/// workspace already is `AlreadyInitialized`, unless the old one is to be
/// replaced.
pub fn check_init(initialized: bool, force: bool) -> (r: Result<(), BeadsError>)
    ensures
        initialized && !force ==> r matches Err(BeadsError::AlreadyInitialized),
        !initialized || force ==> r is Ok,
{
    if initialized && !force {
        Err(BeadsError::AlreadyInitialized)
    } else {
        Ok(())
    }
}

} // verus!
