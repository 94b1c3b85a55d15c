//! The settings naming the repository the platform's user interface is built from.
use vstd::prelude::*;

verus! {

/// A git repository and the branch to build from.
#[derive(Debug, PartialEq, Eq)]
pub struct Config {
    pub git_username: String,
    pub repo_name: String,
    pub build_branch: String,
}

} // verus!
