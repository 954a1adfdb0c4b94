//! The configuration values the tool runs with: where the mirror repository
//! lives and which file inside it holds the packages.

use vstd::prelude::*;
use vstd::string::StringExecFns;
use vstd::string::StrSliceExecFns;

verus! {

/// Repository specific configuration.
#[derive(Debug, Clone)]
pub struct RepoConfig {
    pub url: String,
    pub branch: String,
    pub file: String,
}

/// The whole configuration.
#[derive(Debug, Clone)]
pub struct Config {
    pub repo_directory: String,
    pub repo: RepoConfig,
}

/// A directory and a file name joined into one path: an absolute file name
/// stands alone, otherwise the two are joined with a single separator.
pub open spec fn joined_path(dir: Seq<char>, file: Seq<char>) -> Seq<char> {
    if file.len() > 0 && file[0] == '/' {
        file
    } else if dir.len() == 0 {
        file
    } else if dir[dir.len() - 1] == '/' {
        dir + file
    } else {
        dir + seq!['/'] + file
    }
}

impl RepoConfig {
    /// A configuration for a repository URL, with the default branch and
    /// mirror file name.
    pub fn new(url: String) -> (r: RepoConfig)
        ensures
            r.url@ == url@,
            r.branch@ == "master"@,
            r.file@ == ".emplace"@,
    {
        RepoConfig { url, branch: "master".to_owned(), file: ".emplace".to_owned() }
    }

    /// The path of the mirror file, relative to the repository.
    pub fn path(&self) -> (r: String)
        ensures
            r@ == self.file@,
    {
        self.file.clone()
    }
}

impl Config {
    /// Build a configuration from its parts.
    pub fn new(repo_directory: String, repo: RepoConfig) -> (r: Config)
        ensures
            r.repo_directory@ == repo_directory@,
            r.repo.url@ == repo.url@,
            r.repo.branch@ == repo.branch@,
            r.repo.file@ == repo.file@,
    {
        Config { repo_directory, repo }
    }

    /// The path of the mirror file.
    pub fn full_file_path(&self) -> (r: String)
        ensures
            r@ == joined_path(self.repo_directory@, self.repo.file@),
    {
        let file_len = self.repo.file.as_str().unicode_len();
        if file_len > 0 && self.repo.file.as_str().get_char(0) == '/' {
            return self.repo.file.clone();
        }
        let dir_len = self.repo_directory.as_str().unicode_len();
        if dir_len == 0 {
            return self.repo.file.clone();
        }
        let mut out = self.repo_directory.clone();
        if self.repo_directory.as_str().get_char(dir_len - 1) == '/' {
            out.append(self.repo.file.as_str());
        } else {
            out.append("/");
            out.append(self.repo.file.as_str());
            proof {
                reveal_strlit("/");
                assert("/"@ =~= seq!['/']);
            }
        }
        out
    }
}

} // verus!
