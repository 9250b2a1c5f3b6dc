//! Which repository a request is about, and with which credential.

use vstd::prelude::*;
use vstd::string::*;

verus! {

/// A repository: the account that owns it and its name.
#[derive(Clone, Debug)]
pub struct Repo {
    pub repo_owner: String,
    pub repo_name: String,
}

/// The path of a repository, `owner/name`.
pub open spec fn repo_path(owner: Seq<char>, name: Seq<char>) -> Seq<char> {
    owner + "/"@ + name
}

impl Repo {
    pub fn new(repo_owner: &str, repo_name: &str) -> (r: Repo)
        ensures
            r.repo_owner@ == repo_owner@,
            r.repo_name@ == repo_name@,
    {
        Repo { repo_owner: String::from_str(repo_owner), repo_name: String::from_str(repo_name) }
    }

    /// The repository as `owner/name`.
    pub fn path(&self) -> (r: String)
        ensures
            r@ == repo_path(self.repo_owner@, self.repo_name@),
    {
        self.repo_owner.clone().concat("/").concat(self.repo_name.as_str())
    }
}

/// A repository together with the credential that every request about it
/// carries.
#[derive(Clone, Debug)]
pub struct RepoRequest(pub Repo, pub String);

} // verus!
