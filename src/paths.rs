//! A repository and the fixed layout of its directory tree.
//!
//! Paths are strings whose components are separated by `/`.

use vstd::prelude::*;

verus! {

/// `name` placed inside the directory `base`.
pub open spec fn joined(base: Seq<char>, name: Seq<char>) -> Seq<char> {
    base + seq!['/'] + name
}

/// Joins a name to a directory path.
pub fn join(base: &str, name: &str) -> (r: String)
    ensures
        r@ == joined(base@, name@),
{
    let mut r = String::from_str(base);
    r.append("/");
    r.append(name);
    proof {
        reveal_strlit("/");
    }
    r
}

/// An F-Droid repository, identified by the path of its root directory.
///
/// Operations on one repository are not synchronised: callers run them one
/// at a time.
#[derive(Debug, Clone)]
pub struct Repository {
    path: String,
}

impl View for Repository {
    type V = Seq<char>;

    /// The path of the root directory.
    closed spec fn view(&self) -> Seq<char> {
        self.path@
    }
}

impl Repository {
    /// The repository rooted at `path`, with nothing checked yet.
    pub fn at_root(path: String) -> (r: Repository)
        ensures
            r@ == path@,
    {
        Repository { path }
    }

    /// Another handle on the same repository.
    pub fn clone_root(&self) -> (r: Repository)
        ensures
            r == *self,
    {
        Repository { path: self.path.clone() }
    }

    /// The path of the root directory.
    pub fn root(&self) -> (r: &str)
        ensures
            r@ == self@,
    {
        self.path.as_str()
    }

    /// The keystore file.
    pub fn keystore_path(&self) -> (r: String)
        ensures
            r@ == joined(self@, "keystore.p12"@),
    {
        join(self.path.as_str(), "keystore.p12")
    }

    /// The configuration file.
    pub fn config_path(&self) -> (r: String)
        ensures
            r@ == joined(self@, "config.yml"@),
    {
        join(self.path.as_str(), "config.yml")
    }

    /// The directory of the per-app metadata records.
    pub fn metadata_path(&self) -> (r: String)
        ensures
            r@ == joined(self@, "metadata"@),
    {
        join(self.path.as_str(), "metadata")
    }

    /// The intake directory of artifacts that wait to be signed.
    pub fn unsigned_dir(&self) -> (r: String)
        ensures
            r@ == joined(self@, "unsigned"@),
    {
        join(self.path.as_str(), "unsigned")
    }

    /// The directory of the artifacts and the generated index.
    pub fn repo_path(&self) -> (r: String)
        ensures
            r@ == joined(self@, "repo"@),
    {
        join(self.path.as_str(), "repo")
    }

    /// The generated index document.
    pub fn index_path(&self) -> (r: String)
        ensures
            r@ == joined(joined(self@, "repo"@), "index-v1.json"@),
    {
        join(self.repo_path().as_str(), "index-v1.json")
    }
}

} // verus!
