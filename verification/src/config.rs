//! The per-invocation configuration: what the command line asked for and
//! what the environment supplies.

use crate::git::Git;
use vstd::prelude::*;
use vstd::string::StringExecFns;

verus! {

/// What the environment supplies: the git command to run, the host and port
/// overrides, the API tokens and the proxy, and an optional command that
/// opens a URL.
#[derive(Debug, Clone, PartialEq)]
pub struct EnvConfig {
    pub git_command: String,
    pub ghe_ssh_port: Option<u16>,
    pub ghe_url_host: Option<String>,
    pub gitlab_ssh_port: Option<u16>,
    pub github_token: Option<String>,
    pub ghe_token: Option<String>,
    pub https_proxy: Option<String>,
    pub browse_command: Option<String>,
}

/// One invocation's request: the repository, the optional branch, the local
/// git directory if any, the positional arguments, and the output flags.
#[derive(Debug, Clone)]
pub struct Config {
    pub repo: String,
    pub branch: Option<String>,
    pub git_dir: Option<String>,
    pub args: Vec<String>,
    pub stdout: bool,
    pub pull_request: bool,
    pub website: bool,
    pub env: EnvConfig,
}

impl Config {
    /// A git handle on the local repository, when one was found.
    pub fn git(&self) -> (r: Option<Git>)
        ensures
            match self.git_dir {
                Some(d) => r matches Some(g) && g.git_dir@ == d@ && g.command@
                    == self.env.git_command@,
                None => r is None,
            },
    {
        match &self.git_dir {
            Some(d) => Some(Git::new(d.as_str(), self.env.git_command.as_str())),
            None => None,
        }
    }
}

/// The git command used when the environment names none.
pub fn default_git_command() -> (r: String)
    ensures
        r@ == "git"@,
{
    String::from_str("git")
}

/// An environment that supplies nothing: the default git command and no
/// override, token, proxy or browse command.
pub fn empty_env() -> (r: EnvConfig)
    ensures
        r.git_command@ == "git"@,
        r.ghe_ssh_port is None,
        r.ghe_url_host is None,
        r.gitlab_ssh_port is None,
        r.github_token is None,
        r.ghe_token is None,
        r.https_proxy is None,
        r.browse_command is None,
{
    EnvConfig {
        git_command: default_git_command(),
        ghe_ssh_port: None,
        ghe_url_host: None,
        gitlab_ssh_port: None,
        github_token: None,
        ghe_token: None,
        https_proxy: None,
        browse_command: None,
    }
}

} // verus!
