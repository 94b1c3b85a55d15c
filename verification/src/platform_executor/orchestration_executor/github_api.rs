//! What the platform reads from the GitHub API: repository urls, branches with their last
//! commit, and the content of files.
use crate::text::{has_substring, owned, push_str, split_char, split_on, text_contains_str, text_eq, text_from_bytes};
use b64::FromBase64;
use vstd::prelude::*;
use vstd::utf8::*;

verus! {

/// A commit as the GitHub API reports it.
#[derive(Debug, PartialEq, Eq)]
pub struct Commit {
    pub sha: String,
    pub url: String,
}

/// A branch as the GitHub API reports it, with its most recent commit.
#[derive(Debug, PartialEq, Eq)]
pub struct Branch {
    pub name: String,
    pub commit: Commit,
    pub protected: bool,
}

/// The content of a file as the GitHub API reports it; `content` is base64 encoded.
#[derive(Debug, PartialEq, Eq)]
pub struct FileData {
    pub name: String,
    pub sha: String,
    pub content: String,
}

/// The owner and repository named by a GitHub url.
#[derive(Debug, PartialEq, Eq)]
pub struct GitUrl {
    pub user: String,
    pub repo: String,
}

/// The user and repository a candidate url names: the url is cut at `/`; five pieces
/// (`https:`, ``, host, user, repo) lose the first two; three pieces remain, the first
/// of which names `github.com`.
pub open spec fn git_url_parts(url: Seq<char>) -> Option<(Seq<char>, Seq<char>)> {
    let all = split_on(url, '/');
    let parts = if all.len() == 5 {
        all.subrange(2, 5)
    } else {
        all
    };
    if parts.len() != 3 {
        None
    } else if !has_substring(parts[0], "github.com"@) {
        None
    } else {
        Some((parts[1], parts[2]))
    }
}

/// Pulls the user name and repository name from a candidate GitHub url.
pub fn parse_git_url(git_url: &str) -> (res: Option<GitUrl>)
    ensures
        match res {
            Some(u) => git_url_parts(git_url@) == Some((u.user@, u.repo@)),
            None => git_url_parts(git_url@) is None,
        },
{
    let url_vec = split_char(git_url, '/');
    let start: usize = if url_vec.len() == 5 {
        2
    } else {
        0
    };
    let ghost all = split_on(git_url@, '/');
    let ghost parts = if all.len() == 5 {
        all.subrange(2, 5)
    } else {
        all
    };
    if url_vec.len() - start != 3 {
        return None;
    }
    proof {
        assert(parts[0] == url_vec@[start as int]@);
        assert(parts[1] == url_vec@[start + 1]@);
        assert(parts[2] == url_vec@[start + 2]@);
    }
    if !text_contains_str(url_vec[start].as_str(), "github.com") {
        return None;
    }
    Some(GitUrl { user: url_vec[start + 1].clone(), repo: url_vec[start + 2].clone() })
}

/// The sha of the most recent commit of the first branch named `branch_name`.
pub open spec fn branch_commit_sha(branches: Seq<Branch>, branch_name: Seq<char>) -> Option<Seq<char>>
    decreases branches.len(),
{
    if branches.len() == 0 {
        None
    } else if branches[0].name@ == branch_name {
        Some(branches[0].commit.sha@)
    } else {
        branch_commit_sha(branches.drop_first(), branch_name)
    }
}

/// Finds the most recent commit of the branch named `branch_name`, the first such branch
/// in the list.
pub fn find_branch_commit(branches: &Vec<Branch>, branch_name: &str) -> (res: Option<String>)
    ensures
        match res {
            Some(c) => branch_commit_sha(branches@, branch_name@) == Some(c@),
            None => branch_commit_sha(branches@, branch_name@) is None,
        },
{
    let mut i: usize = 0;
    proof {
        assert(branches@.skip(0) =~= branches@);
    }
    while i < branches.len()
        invariant
            i <= branches.len(),
            branch_commit_sha(branches@, branch_name@) == branch_commit_sha(
                branches@.skip(i as int),
                branch_name@,
            ),
        decreases branches.len() - i,
    {
        proof {
            assert(branches@.skip(i as int).drop_first() =~= branches@.skip(i + 1));
            assert(branches@.skip(i as int)[0] == branches@[i as int]);
        }
        if text_eq(branches[i].name.as_str(), branch_name) {
            return Some(branches[i].commit.sha.clone());
        }
        i = i + 1;
    }
    None
}

/// The bytes the base64 text `text` decodes to as `FromBase64::from_base64` of the `b64`
/// crate reads it, or `None` where it reports an error.
pub uninterp spec fn base64_decoded(text: Seq<char>) -> Option<Seq<u8>>;

/// Calls `FromBase64::from_base64` of the `b64` crate on a text: it decodes MIME base64,
/// skipping line breaks, and fails on other characters or a bad length. The result is a
/// function of the text alone, named `base64_decoded`.
#[verifier::external_body]
fn decode_base64(text: &str) -> (res: Option<Vec<u8>>)
    ensures
        match res {
            Some(v) => base64_decoded(text@) == Some(v@),
            None => base64_decoded(text@) is None,
        },
{
    match text.from_base64() {
        Ok(v) => Some(v),
        Err(_) => None,
    }
}

/// Whether the content of a file reported by the GitHub API decodes to text: it is valid
/// base64 of valid UTF-8.
pub open spec fn content_decodes(content: Seq<char>) -> bool {
    base64_decoded(content) matches Some(b) && valid_utf8(b)
}

/// The text of a file whose content decodes.
pub open spec fn decoded_content(content: Seq<char>) -> Seq<char> {
    decode_utf8(base64_decoded(content)->0)
}

/// Decodes the base64 content of a file reported by the GitHub API into its text.
pub fn decode_file_content(content: &str) -> (res: String)
    requires
        content_decodes(content@),
    ensures
        res@ == decoded_content(content@),
{
    let bytes = match decode_base64(content) {
        Some(b) => b,
        None => {
            proof {
                assert(false);
            }
            Vec::new()
        },
    };
    match text_from_bytes(bytes) {
        Some(s) => s,
        None => {
            proof {
                assert(false);
            }
            String::new()
        },
    }
}

/// Decodes the content of a file of any content: `None` when it is not base64 of UTF-8 text.
pub fn try_decode_file_content(content: &str) -> (res: Option<String>)
    ensures
        res is Some <==> content_decodes(content@),
        res matches Some(s) ==> s@ == decoded_content(content@),
{
    match decode_base64(content) {
        Some(b) => {
            if text_from_bytes(b.clone()).is_some() {
                Some(decode_file_content(content))
            } else {
                None
            }
        },
        None => None,
    }
}

/// The GitHub API address listing the branches of a repository, with their last commits.
pub fn branches_url(user: &str, repo: &str) -> (res: String)
    ensures
        res@ == "https://api.github.com/repos/"@ + user@ + "/"@ + repo@ + "/branches"@,
{
    let mut s = owned("https://api.github.com/repos/");
    push_str(&mut s, user);
    push_str(&mut s, "/");
    push_str(&mut s, repo);
    push_str(&mut s, "/branches");
    s
}

/// The GitHub API address of a file in a repository.
pub fn file_contents_url(user: &str, repo: &str, file_path: &str) -> (res: String)
    ensures
        res@ == "https://api.github.com/repos/"@ + user@ + "/"@ + repo@ + "/contents/"@ + file_path@,
{
    let mut s = owned("https://api.github.com/repos/");
    push_str(&mut s, user);
    push_str(&mut s, "/");
    push_str(&mut s, repo);
    push_str(&mut s, "/contents/");
    push_str(&mut s, file_path);
    s
}

} // verus!
