//! The file that holds the user's own templates.

use vstd::prelude::*;
use vstd::string::StringExecFns;

use std::path::PathBuf;

verus! {

/// `Path::join` (std): the path `dir` with the component `file` appended.
pub uninterp spec fn joined_path(dir: PathBuf, file: Seq<char>) -> PathBuf;

/// `Path::join` (std): `dir` with the component `file` appended, named
/// `joined_path`; the result depends on the two arguments alone. How paths
/// are joined is not restated.
#[verifier::external_body]
fn join_path(dir: &PathBuf, file: &str) -> (r: PathBuf)
    ensures
        r == joined_path(*dir, file@),
{
    dir.join(file)
}

/// Reads and writes the custom templates, kept as `templates.json` in a
/// directory.
pub struct CustomTemplateStore {
    dir: PathBuf,
    file_name: String,
}

impl CustomTemplateStore {
    /// The directory the templates file lives in.
    pub closed spec fn dir(&self) -> PathBuf {
        self.dir
    }

    /// The name of the templates file within [`CustomTemplateStore::dir`].
    pub closed spec fn file_name(&self) -> Seq<char> {
        self.file_name@
    }

    /// A store for `templates.json` in `dir`.
    pub fn new(dir: PathBuf) -> (r: Self)
        ensures
            r.dir() == dir,
            r.file_name() == "templates.json"@,
    {
        CustomTemplateStore { dir, file_name: String::from_str("templates.json") }
    }

    /// The file this store reads and writes: its file name joined to its
    /// directory.
    pub fn path(&self) -> (r: PathBuf)
        ensures
            r == joined_path(self.dir(), self.file_name()),
    {
        join_path(&self.dir, self.file_name.as_str())
    }
}

} // verus!
