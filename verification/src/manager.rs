//! The session model: the filesystem primitives as an enumeration and the
//! working directory that relative paths resolve against.

pub mod file;

use vstd::prelude::*;

verus! {

/// The filesystem primitives a command can be bound to.  Each dispatch
/// outcome that asks for work names exactly one of these.
#[derive(Clone, Copy, Debug, PartialEq, Eq, Structural)]
pub enum Operation {
    ListFiles,
    CreateFile,
    CreateDirectory,
    ReadFile,
    WriteFile,
    CopyFile,
    RenameOrMoveFile,
    DeleteFile,
    DeleteDirectory,
    ChangeDirectory,
}

/// The one piece of session state: the working directory that relative
/// paths resolve against.  The host process's actual directory is kept in
/// step with this value by whoever runs the commands.
pub struct FileManager {
    pub cwd: String,
}

impl FileManager {
    pub fn new(cwd: String) -> (r: Self)
        ensures
            r.cwd@ == cwd@,
    {
        FileManager { cwd }
    }

    /// Where a path handed to a command points, given the current working
    /// directory.
    pub fn resolve(&self, path: &str) -> (r: String)
        ensures
            r@ == file::resolved_path(self.cwd@, path@),
    {
        file::FileHandler::path_check(path, self.cwd.as_str())
    }

    /// Record a successful change of directory: the working directory
    /// becomes the place the requested directory resolved to.
    pub fn change_directory(&mut self, dir: &str)
        ensures
            final(self).cwd@ == file::resolved_path(old(self).cwd@, dir@),
    {
        let new_cwd = file::FileHandler::path_check(dir, self.cwd.as_str());
        self.cwd = new_cwd;
    }
}

/// After a successful change of directory, every relative path resolves
/// against the new working directory: its resolved form is the join of the
/// directory the change led to with the path, and that directory is a prefix
/// of the resolved form.
pub proof fn lemma_relative_resolution_after_cd(cwd: Seq<char>, d: Seq<char>, p: Seq<char>)
    requires
        !file::is_absolute_path(p),
    ensures
        ({
            let new_cwd = file::resolved_path(cwd, d);
            &&& file::resolved_path(new_cwd, p) == file::joined_path(new_cwd, p)
            &&& file::joined_path(new_cwd, p).take(new_cwd.len() as int) == new_cwd
        }),
{
    let new_cwd = file::resolved_path(cwd, d);
    assert(file::joined_path(new_cwd, p).take(new_cwd.len() as int) =~= new_cwd);
}

} // verus!
