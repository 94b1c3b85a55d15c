//! A GitHub client that reads repository urls from any host.
pub use crate::platform_executor::orchestration_executor::github_api::{
    Branch, Commit, FileData, GitUrl,
};
use crate::text::split_char;
use crate::text::split_on;
use vstd::prelude::*;

verus! {

/// A GitHub client.
pub struct GitApi {}

/// The user and repository a candidate url names: the url is cut at `/`; five pieces
/// (`https:`, ``, host, user, repo) lose the first two; three pieces must remain.
pub open spec fn any_git_url_parts(url: Seq<char>) -> Option<(Seq<char>, Seq<char>)> {
    let all = split_on(url, '/');
    let parts = if all.len() == 5 {
        all.subrange(2, 5)
    } else {
        all
    };
    if parts.len() != 3 {
        None
    } else {
        Some((parts[1], parts[2]))
    }
}

impl GitApi {
    /// Pulls the user name and repository name from a candidate git url.
    pub fn parse_git_url(git_url: &str) -> (res: Option<GitUrl>)
        ensures
            match res {
                Some(u) => any_git_url_parts(git_url@) == Some((u.user@, u.repo@)),
                None => any_git_url_parts(git_url@) is None,
            },
    {
        let url_vec = split_char(git_url, '/');
        let start: usize = if url_vec.len() == 5 {
            2
        } else {
            0
        };
        if url_vec.len() - start != 3 {
            return None;
        }
        Some(GitUrl { user: url_vec[start + 1].clone(), repo: url_vec[start + 2].clone() })
    }
}

} // verus!
