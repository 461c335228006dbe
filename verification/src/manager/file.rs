//! The path model: which paths count as absolute and how a relative path is
//! joined onto the working directory.

use vstd::prelude::*;
use vstd::string::*;

verus! {

/// A path separator character.
pub open spec fn is_sep_char(c: char) -> bool {
    c == '/' || c == '\\'
}

/// An ASCII drive letter.
pub open spec fn is_drive_letter(c: char) -> bool {
    ('a' <= c && c <= 'z') || ('A' <= c && c <= 'Z')
}

/// A path is absolute when it names a drive: a letter, a colon, and a
/// separator.  A path that merely starts with a separator is rooted on the
/// current drive, not absolute.
pub open spec fn is_absolute_path(p: Seq<char>) -> bool {
    p.len() >= 3 && is_drive_letter(p[0]) && p[1] == ':' && is_sep_char(p[2])
}

/// A relative path joined onto a working directory: the two are
/// concatenated, with a separator inserted unless the directory already ends
/// in one.  An empty working directory leaves the path as it is.
pub open spec fn joined_path(cwd: Seq<char>, p: Seq<char>) -> Seq<char> {
    if cwd.len() == 0 {
        p
    } else if is_sep_char(cwd.last()) {
        cwd + p
    } else {
        cwd + "/"@ + p
    }
}

/// How a path handed to a command names a place in the filesystem: an
/// absolute path stands alone, a relative one resolves against the working
/// directory.
pub open spec fn resolved_path(cwd: Seq<char>, p: Seq<char>) -> Seq<char> {
    if is_absolute_path(p) {
        p
    } else {
        joined_path(cwd, p)
    }
}

/// The directory substituted for a missing optional argument never names a
/// drive, so it always resolves against the working directory.
pub proof fn lemma_default_directory_is_relative()
    ensures
        !is_absolute_path("./"@),
{
    reveal_strlit("./");
}

/// FileHandler holds the path bookkeeping that file operations share.
pub struct FileHandler;

impl FileHandler {
    /// Whether a path names a drive and is therefore taken verbatim.
    pub fn is_absolute(path: &str) -> (r: bool)
        ensures
            r == is_absolute_path(path@),
    {
        let n = path.unicode_len();
        if n < 3 {
            return false;
        }
        let c0 = path.get_char(0);
        let c1 = path.get_char(1);
        let c2 = path.get_char(2);
        (('a' <= c0 && c0 <= 'z') || ('A' <= c0 && c0 <= 'Z')) && c1 == ':' && (c2 == '/'
            || c2 == '\\')
    }

    /// The resolved form of a path: absolute paths pass through, relative
    /// ones are joined onto the given working directory.
    pub fn path_check(file_name: &str, current_dir: &str) -> (r: String)
        ensures
            r@ == resolved_path(current_dir@, file_name@),
    {
        if Self::is_absolute(file_name) {
            return file_name.to_owned();
        }
        let n = current_dir.unicode_len();
        if n == 0 {
            return file_name.to_owned();
        }
        let mut r = current_dir.to_owned();
        let last = current_dir.get_char(n - 1);
        if !(last == '/' || last == '\\') {
            r.append("/");
        }
        r.append(file_name);
        proof {
            assert(r@ =~= resolved_path(current_dir@, file_name@));
        }
        r
    }
}

} // verus!
