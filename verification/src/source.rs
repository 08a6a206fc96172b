//! Where the sources of a package come from.

use vstd::prelude::*;
use vstd::string::StringExecFns;
use crate::error::BundlerError;
use crate::error::CliError;
use crate::paths::join_path;
use crate::paths::path_join;
use crate::text::chars_contain;
use crate::text::chars_start_with;
use crate::text::contains;
use crate::text::split;
use crate::text::split_chars;
use crate::text::starts_with;
use crate::text::to_chars;

verus! {

/// The source of a package.
#[derive(Debug)]
pub enum RepositorySource {
    /// A directory on this machine.
    Local(String),
    /// A repository on GitHub, by organisation and name.
    GitHub { org: String, repo: String },
    /// A repository by its address.
    GitHubUrl(String),
}

/// What a source text looks like.
#[derive(PartialEq, Eq, Structural)]
pub enum SourceKind {
    /// `org/repo`.
    GitHub,
    /// An address that begins with `http://` or `https://`.
    Url,
    /// Anything else: a path.
    Local,
}

/// A text is an organisation and a repository name where it holds exactly
/// one `/`, is no address, and does not begin like a path.
pub open spec fn kind_of_source(source: Seq<char>) -> SourceKind {
    if contains(source, seq!['/']) && !contains(source, "://"@) && !starts_with(source, seq!['.'])
        && !starts_with(source, seq!['/']) && split(source, '/').len() == 2 {
        SourceKind::GitHub
    } else if starts_with(source, "http://"@) || starts_with(source, "https://"@) {
        SourceKind::Url
    } else {
        SourceKind::Local
    }
}

/// The address from which a GitHub repository is cloned.
pub open spec fn github_url(org: Seq<char>, repo: Seq<char>) -> Seq<char> {
    "https://github.com/"@ + org + "/"@ + repo + ".git"@
}

impl RepositorySource {
    /// Reads a source text. Every text is a source of some kind.
    pub fn parse(source: &str) -> (r: Result<Self, BundlerError>)
        ensures
            r is Ok,
            match r->Ok_0 {
                RepositorySource::GitHub { org, repo } => kind_of_source(source@)
                    == SourceKind::GitHub && org@ == split(source@, '/')[0] && repo@ == split(
                    source@,
                    '/',
                )[1],
                RepositorySource::GitHubUrl(url) => kind_of_source(source@) == SourceKind::Url
                    && url@ == source@,
                RepositorySource::Local(path) => kind_of_source(source@) == SourceKind::Local
                    && path@ == source@,
            },
    {
        let v = to_chars(source);
        let slash = to_chars("/");
        let dot = to_chars(".");
        proof {
            reveal_strlit("/");
            reveal_strlit(".");
            assert(slash@ =~= seq!['/']);
            assert(dot@ =~= seq!['.']);
        }
        if chars_contain(&v, &slash) && !chars_contain(&v, &to_chars("://")) && !chars_start_with(
            &v,
            &dot,
        ) && !chars_start_with(&v, &slash) {
            let mut parts = split_chars(&v, '/');
            if parts.len() == 2 {
                let repo = parts.pop().unwrap();
                let org = parts.pop().unwrap();
                return Ok(RepositorySource::GitHub { org, repo });
            }
        }
        if chars_start_with(&v, &to_chars("http://")) || chars_start_with(
            &v,
            &to_chars("https://"),
        ) {
            return Ok(RepositorySource::GitHubUrl(String::from_str(source)));
        }
        Ok(RepositorySource::Local(String::from_str(source)))
    }

    /// The address to clone from, where the source itself names one. A local
    /// directory does not: its manifest names the repository.
    pub fn clone_url(&self) -> (r: Option<String>)
        ensures
            match (*self, r) {
                (RepositorySource::GitHub { org, repo }, Some(url)) => url@ == github_url(
                    org@,
                    repo@,
                ),
                (RepositorySource::GitHubUrl(address), Some(url)) => url@ == address@,
                (RepositorySource::Local(_), None) => true,
                _ => false,
            },
    {
        match self {
            RepositorySource::GitHub { org, repo } => {
                let mut url = String::from_str("https://github.com/");
                url.append(org.as_str());
                url.append("/");
                url.append(repo.as_str());
                url.append(".git");
                Some(url)
            },
            RepositorySource::GitHubUrl(address) => Some(String::from_str(address.as_str())),
            RepositorySource::Local(_) => None,
        }
    }
}

/// The address to clone a local source from: the repository that its
/// manifest names. A path that does not exist, a directory without a
/// manifest and a manifest without a repository are refused.
pub fn resolve_local(path: &str, path_exists: bool, manifest_exists: bool, repository: Option<String>) -> (r:
    Result<String, BundlerError>)
    ensures
        match r {
            Ok(url) => path_exists && manifest_exists && repository == Some(url),
            Err(e) => {
                &&& !(path_exists && manifest_exists && repository is Some)
                &&& e matches BundlerError::Cli(CliError::InvalidArguments { reason }) && reason@
                    == if !path_exists {
                    "Path does not exist: "@ + path@
                } else if !manifest_exists {
                    "Cargo.toml not found at "@ + path_join(path@, "Cargo.toml"@)
                } else {
                    "No repository field in Cargo.toml at "@ + path_join(path@, "Cargo.toml"@)
                        + ". Bundler requires a GitHub repository URL to clone from."@
                }
            },
        },
{
    if !path_exists {
        let mut reason = String::from_str("Path does not exist: ");
        reason.append(path);
        return Err(BundlerError::Cli(CliError::InvalidArguments { reason }));
    }
    let manifest = join_path(path, "Cargo.toml");
    if !manifest_exists {
        let mut reason = String::from_str("Cargo.toml not found at ");
        reason.append(manifest.as_str());
        return Err(BundlerError::Cli(CliError::InvalidArguments { reason }));
    }
    match repository {
        Some(url) => Ok(url),
        None => {
            let mut reason = String::from_str("No repository field in Cargo.toml at ");
            reason.append(manifest.as_str());
            reason.append(". Bundler requires a GitHub repository URL to clone from.");
            Err(BundlerError::Cli(CliError::InvalidArguments { reason }))
        },
    }
}

/// The arguments of `git` that clone a repository into a directory.
pub fn clone_args(url: &str, directory: &str) -> (r: Vec<String>)
    ensures
        r.deep_view() == seq!["clone"@, "--depth=1"@, url@, directory@],
{
    let mut r: Vec<String> = Vec::new();
    r.push(String::from_str("clone"));
    r.push(String::from_str("--depth=1"));
    r.push(String::from_str(url));
    r.push(String::from_str(directory));
    proof {
        assert(r.deep_view() =~= seq!["clone"@, "--depth=1"@, url@, directory@]);
    }
    r
}

} // verus!
