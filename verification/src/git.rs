//! The git collaborator, split into what can be decided without running
//! anything: each operation has a function that states the exact argument
//! list of the git command to run, and a method that interprets the outcome
//! of that command. The caller runs the command (that is the only part that
//! touches the outside world) and hands the outcome back as a plain value:
//! `Ok` carries the trimmed standard output, `Err` the trimmed standard
//! error.

use crate::error::{spec_git_command_message, Error};
use crate::strutil::{contains_seq, contains_sub, find_char, find_char_at, rfind_char, rfind_char_in};
use vstd::prelude::*;
use vstd::string::StrSliceExecFns;
use vstd::string::StringExecFns;

verus! {

/// A handle on one local repository: the git command to use and the
/// repository's git directory.
#[derive(Debug, Clone)]
pub struct Git {
    pub command: String,
    pub git_dir: String,
}

/// The arguments of `git rev-parse <commit>`.
pub open spec fn spec_hash_args(commit: Seq<char>) -> Seq<Seq<char>> {
    seq!["rev-parse"@, commit]
}

/// The arguments of `git show-ref --tags <tag> --`.
pub open spec fn spec_tag_hash_args(tag: Seq<char>) -> Seq<Seq<char>> {
    seq!["show-ref"@, "--tags"@, tag, "--"@]
}

/// The arguments of `git config --get remote.<name>.url`.
pub open spec fn spec_remote_url_args(name: Seq<char>) -> Seq<Seq<char>> {
    seq!["config"@, "--get"@, "remote."@ + name + ".url"@]
}

/// The revision whose tracking remote is asked for: `<branch>@{u}`, or
/// `@{u}` for the checked-out branch.
pub open spec fn spec_tracking_rev(branch: Option<Seq<char>>) -> Seq<char> {
    match branch {
        Some(b) => b + "@{u}"@,
        None => "@{u}"@,
    }
}

/// The arguments of `git rev-parse --abbrev-ref --symbolic <rev>`.
pub open spec fn spec_abbrev_ref_args(rev: Seq<char>) -> Seq<Seq<char>> {
    seq!["rev-parse"@, "--abbrev-ref"@, "--symbolic"@, rev]
}

/// The arguments of `git branch --remote <remote-branch> --contains <target>`.
pub open spec fn spec_remote_contains_args(target: Seq<char>, remote_branch: Seq<char>) -> Seq<
    Seq<char>,
> {
    seq!["branch"@, "--remote"@, remote_branch, "--contains"@, target]
}

/// The revision `<branch>@<remote>` that names a remote branch; the branch
/// defaults to the empty name and the remote to `{u}`.
pub open spec fn spec_remote_branch_rev(
    remote_name: Option<Seq<char>>,
    local_branch: Option<Seq<char>>,
) -> Seq<char> {
    (match local_branch {
        Some(b) => b,
        None => Seq::empty(),
    }) + "@"@ + (match remote_name {
        Some(r) => r,
        None => "{u}"@,
    })
}

/// The prefix of `s` up to its first occurrence of `c`, or all of `s`.
pub open spec fn spec_before_char(s: Seq<char>, c: char) -> Seq<char> {
    match find_char(s, c) {
        Some(i) => s.take(i),
        None => s,
    }
}

/// The stderr text by which git reports that a revision tracks no remote
/// branch.
pub open spec fn spec_no_upstream_marker() -> Seq<char> {
    "does not point to a branch"@
}

/// Appends clones of `items` to `acc`.
fn extend_strings(acc: &mut Vec<String>, items: &Vec<String>)
    ensures
        final(acc).deep_view() == old(acc).deep_view() + items.deep_view(),
{
    let n = items.len();
    let mut i: usize = 0;
    while i < n
        invariant
            i <= n,
            n == items@.len(),
            acc.deep_view() == old(acc).deep_view() + items.deep_view().take(i as int),
        decreases n - i,
    {
        let ghost before = acc.deep_view();
        acc.push(items[i].clone());
        proof {
            assert(acc.deep_view() =~= before.push(items@[i as int]@));
            assert(old(acc).deep_view() + items.deep_view().take(i + 1) =~= (old(
                acc,
            ).deep_view() + items.deep_view().take(i as int)).push(items@[i as int]@));
        }
        i += 1;
    }
    proof {
        assert(items.deep_view().take(n as int) =~= items.deep_view());
    }
}

impl Git {
    /// A handle for the repository whose git directory is `dir`, run through
    /// the git command `command`.
    pub fn new(dir: &str, command: &str) -> (g: Git)
        ensures
            g.git_dir@ == dir@,
            g.command@ == command@,
    {
        Git { command: String::from_str(command), git_dir: String::from_str(dir) }
    }

    /// The full command line of one git operation: the configured command,
    /// `--git-dir` with the git directory, then the operation's arguments.
    pub fn command_line(&self, args: &Vec<String>) -> (c: Vec<String>)
        ensures
            c.deep_view() == seq![self.command@, "--git-dir"@, self.git_dir@] + args.deep_view(),
    {
        let mut c: Vec<String> = Vec::new();
        c.push(self.command.clone());
        c.push(String::from_str("--git-dir"));
        c.push(self.git_dir.clone());
        proof {
            assert(c.deep_view() =~= seq![self.command@, "--git-dir"@, self.git_dir@]);
        }
        extend_strings(&mut c, args);
        c
    }

    /// The arguments that resolve `commit` to a hash.
    pub fn hash_args(commit: &str) -> (a: Vec<String>)
        ensures
            a.deep_view() == spec_hash_args(commit@),
    {
        let mut a: Vec<String> = Vec::new();
        a.push(String::from_str("rev-parse"));
        a.push(String::from_str(commit));
        proof {
            assert(a.deep_view() =~= spec_hash_args(commit@));
        }
        a
    }

    /// Interprets the outcome of `git rev-parse <commit>`: the trimmed
    /// output is the hash; a failure means the commit was not found.
    pub fn hash(&self, commit: &str, output: Result<String, String>) -> (r: Result<String, Error>)
        ensures
            match output {
                Ok(stdout) => r == Ok::<String, Error>(stdout),
                Err(stderr) => r matches Err(e) && e matches Error::GitObjectNotFound {
                    kind,
                    object,
                    msg,
                } && kind@ == "commit"@ && object@ == commit@ && msg@ == spec_git_command_message(
                    stderr@,
                    spec_hash_args(commit@),
                ),
            },
    {
        match output {
            Ok(stdout) => Ok(stdout),
            Err(stderr) => {
                let failure = Error::GitCommandError { stderr, args: Self::hash_args(commit) };
                let msg = failure.message();
                Err(
                    Error::GitObjectNotFound {
                        kind: String::from_str("commit"),
                        object: String::from_str(commit),
                        msg,
                    },
                )
            },
        }
    }

    /// The arguments that list the refs of `tag`.
    pub fn tag_hash_args(tag: &str) -> (a: Vec<String>)
        ensures
            a.deep_view() == spec_tag_hash_args(tag@),
    {
        let mut a: Vec<String> = Vec::new();
        a.push(String::from_str("show-ref"));
        a.push(String::from_str("--tags"));
        a.push(String::from_str(tag));
        a.push(String::from_str("--"));
        proof {
            assert(a.deep_view() =~= spec_tag_hash_args(tag@));
        }
        a
    }

    /// Interprets the outcome of `git show-ref --tags <tag> --`: the output
    /// is `<hash> <ref name>`, of which the hash is kept; a failure means
    /// the tag was not found.
    pub fn tag_hash(&self, tag: &str, output: Result<String, String>) -> (r: Result<
        String,
        Error,
    >)
        ensures
            match output {
                Ok(stdout) => r matches Ok(h) && h@ == spec_before_char(stdout@, ' '),
                Err(stderr) => r matches Err(e) && e matches Error::GitObjectNotFound {
                    kind,
                    object,
                    msg,
                } && kind@ == "tag name"@ && object@ == tag@ && msg@ == spec_git_command_message(
                    stderr@,
                    spec_tag_hash_args(tag@),
                ),
            },
    {
        match output {
            Ok(stdout) => {
                proof {
                    crate::strutil::lemma_find_char_from(stdout@, ' ', 0);
                }
                let r = match find_char_at(stdout.as_str(), ' ', 0) {
                    Some(i) => String::from_str(stdout.as_str().substring_char(0, i)),
                    None => stdout,
                };
                Ok(r)
            },
            Err(stderr) => {
                let failure = Error::GitCommandError { stderr, args: Self::tag_hash_args(tag) };
                let msg = failure.message();
                Err(
                    Error::GitObjectNotFound {
                        kind: String::from_str("tag name"),
                        object: String::from_str(tag),
                        msg,
                    },
                )
            },
        }
    }

    /// The arguments that read the URL of the remote `name` from the git
    /// configuration.
    pub fn remote_url_args(name: &str) -> (a: Vec<String>)
        ensures
            a.deep_view() == spec_remote_url_args(name@),
    {
        let mut a: Vec<String> = Vec::new();
        a.push(String::from_str("config"));
        a.push(String::from_str("--get"));
        let mut key = String::from_str("remote.");
        key.append(name);
        key.append(".url");
        a.push(key);
        proof {
            assert(a.deep_view() =~= spec_remote_url_args(name@));
        }
        a
    }

    /// Interprets the outcome of `git config --get remote.<name>.url`: the
    /// output is the URL; a failure means the remote was not found.
    pub fn remote_url(&self, name: &str, output: Result<String, String>) -> (r: Result<
        String,
        Error,
    >)
        ensures
            match output {
                Ok(stdout) => r == Ok::<String, Error>(stdout),
                Err(stderr) => r matches Err(e) && e matches Error::GitObjectNotFound {
                    kind,
                    object,
                    msg,
                } && kind@ == "remote"@ && object@ == name@ && msg@ == spec_git_command_message(
                    stderr@,
                    spec_remote_url_args(name@),
                ),
            },
    {
        match output {
            Ok(stdout) => Ok(stdout),
            Err(stderr) => {
                let failure = Error::GitCommandError { stderr, args: Self::remote_url_args(name) };
                let msg = failure.message();
                Err(
                    Error::GitObjectNotFound {
                        kind: String::from_str("remote"),
                        object: String::from_str(name),
                        msg,
                    },
                )
            },
        }
    }

    /// The arguments that resolve the tracking remote of `branch` to its
    /// symbolic `<remote>/<branch>` name.
    pub fn tracking_remote_url_args(branch: &Option<String>) -> (a: Vec<String>)
        ensures
            a.deep_view() == spec_abbrev_ref_args(
                spec_tracking_rev(
                    match branch {
                        Some(b) => Some(b@),
                        None => None,
                    },
                ),
            ),
    {
        let rev = match branch {
            Some(b) => {
                let mut r = String::from_str(b.as_str());
                r.append("@{u}");
                r
            },
            None => String::from_str("@{u}"),
        };
        let mut a: Vec<String> = Vec::new();
        a.push(String::from_str("rev-parse"));
        a.push(String::from_str("--abbrev-ref"));
        a.push(String::from_str("--symbolic"));
        a.push(rev);
        proof {
            assert(a.deep_view() =~= spec_abbrev_ref_args(
                spec_tracking_rev(
                    match branch {
                        Some(b) => Some(b@),
                        None => None,
                    },
                ),
            ));
        }
        a
    }

    /// Decides which remote the tracking lookup settles on. The outcome of
    /// the symbolic rev-parse is `<remote>/<branch>`, of which the remote
    /// name is kept; when git reports that the revision tracks no remote
    /// branch, the lookup falls back to `origin`; any other failure is the
    /// command's error. The caller then reads that remote's URL with
    /// `remote_url_args` and `remote_url`.
    pub fn tracking_remote_url(&self, branch: &Option<String>, output: Result<String, String>) -> (r:
        Result<String, Error>)
        ensures
            match output {
                Ok(stdout) => r matches Ok(u) && u@ == spec_before_char(stdout@, '/'),
                Err(stderr) => {
                    if contains_seq(stderr@, spec_no_upstream_marker()) {
                        r matches Ok(u) && u@ == "origin"@
                    } else {
                        r matches Err(e) && e matches Error::GitCommandError {
                            stderr: st,
                            args,
                        } && st@ == stderr@ && args.deep_view() == spec_abbrev_ref_args(
                            spec_tracking_rev(
                                match branch {
                                    Some(b) => Some(b@),
                                    None => None,
                                },
                            ),
                        )
                    }
                },
            },
    {
        match output {
            Ok(stdout) => {
                proof {
                    crate::strutil::lemma_find_char_from(stdout@, '/', 0);
                }
                let r = match find_char_at(stdout.as_str(), '/', 0) {
                    Some(i) => String::from_str(stdout.as_str().substring_char(0, i)),
                    None => stdout,
                };
                Ok(r)
            },
            Err(stderr) => {
                if contains_sub(stderr.as_str(), "does not point to a branch") {
                    Ok(String::from_str("origin"))
                } else {
                    Err(
                        Error::GitCommandError {
                            stderr,
                            args: Self::tracking_remote_url_args(branch),
                        },
                    )
                }
            },
        }
    }

    /// The parent directory of the git directory is the repository's root.
    pub fn root_dir(&self) -> (r: Result<String, Error>)
        ensures
            match rfind_char(self.git_dir@, '/') {
                Some(i) => r matches Ok(p) && p@ == self.git_dir@.take(i),
                None => {
                    if self.git_dir@.len() > 0 {
                        r matches Ok(p) && p@ == Seq::<char>::empty()
                    } else {
                        r matches Err(e) && e matches Error::GitRootDirNotFound { git_dir }
                            && git_dir@ == self.git_dir@
                    }
                },
            },
    {
        proof {
            crate::strutil::lemma_rfind_char(self.git_dir@, '/');
        }
        match rfind_char_in(self.git_dir.as_str(), '/') {
            Some(i) => Ok(String::from_str(self.git_dir.as_str().substring_char(0, i))),
            None => {
                if self.git_dir.as_str().unicode_len() > 0 {
                    Ok(String::new())
                } else {
                    Err(Error::GitRootDirNotFound { git_dir: self.git_dir.clone() })
                }
            },
        }
    }

    /// The arguments that name the checked-out branch.
    pub fn current_branch_args() -> (a: Vec<String>)
        ensures
            a.deep_view() == spec_abbrev_ref_args("HEAD"@),
    {
        let mut a: Vec<String> = Vec::new();
        a.push(String::from_str("rev-parse"));
        a.push(String::from_str("--abbrev-ref"));
        a.push(String::from_str("--symbolic"));
        a.push(String::from_str("HEAD"));
        proof {
            assert(a.deep_view() =~= spec_abbrev_ref_args("HEAD"@));
        }
        a
    }

    /// Interprets the outcome of the symbolic rev-parse of `HEAD`: the
    /// output is the branch name.
    pub fn current_branch(&self, output: Result<String, String>) -> (r: Result<String, Error>)
        ensures
            match output {
                Ok(stdout) => r == Ok::<String, Error>(stdout),
                Err(stderr) => r matches Err(e) && e matches Error::GitCommandError {
                    stderr: st,
                    args,
                } && st@ == stderr@ && args.deep_view() == spec_abbrev_ref_args("HEAD"@),
            },
    {
        match output {
            Ok(stdout) => Ok(stdout),
            Err(stderr) => Err(
                Error::GitCommandError { stderr, args: Self::current_branch_args() },
            ),
        }
    }

    /// The arguments that list the remote branches of `remote_branch` that
    /// contain `target`.
    pub fn remote_contains_args(target: &str, remote_branch: &str) -> (a: Vec<String>)
        ensures
            a.deep_view() == spec_remote_contains_args(target@, remote_branch@),
    {
        let mut a: Vec<String> = Vec::new();
        a.push(String::from_str("branch"));
        a.push(String::from_str("--remote"));
        a.push(String::from_str(remote_branch));
        a.push(String::from_str("--contains"));
        a.push(String::from_str(target));
        proof {
            assert(a.deep_view() =~= spec_remote_contains_args(target@, remote_branch@));
        }
        a
    }

    /// Interprets the outcome of the containment listing: a non-empty
    /// output means the remote branch contains the target.
    pub fn remote_contains(
        &self,
        target: &str,
        remote_branch: &str,
        output: Result<String, String>,
    ) -> (r: Result<bool, Error>)
        ensures
            match output {
                Ok(stdout) => r matches Ok(b) && b == (stdout@.len() != 0),
                Err(stderr) => r matches Err(e) && e matches Error::GitCommandError {
                    stderr: st,
                    args,
                } && st@ == stderr@ && args.deep_view() == spec_remote_contains_args(
                    target@,
                    remote_branch@,
                ),
            },
    {
        match output {
            Ok(stdout) => Ok(stdout.as_str().unicode_len() != 0),
            Err(stderr) => Err(
                Error::GitCommandError {
                    stderr,
                    args: Self::remote_contains_args(target, remote_branch),
                },
            ),
        }
    }

    /// The arguments that resolve `<branch>@<remote>` to its symbolic
    /// `<remote>/<branch>` name.
    pub fn remote_branch_args(remote_name: &Option<String>, local_branch: &Option<String>) -> (a:
        Vec<String>)
        ensures
            a.deep_view() == spec_abbrev_ref_args(
                spec_remote_branch_rev(
                    match remote_name {
                        Some(r) => Some(r@),
                        None => None,
                    },
                    match local_branch {
                        Some(b) => Some(b@),
                        None => None,
                    },
                ),
            ),
    {
        let mut rev = match local_branch {
            Some(b) => String::from_str(b.as_str()),
            None => String::new(),
        };
        rev.append("@");
        match remote_name {
            Some(r) => rev.append(r.as_str()),
            None => rev.append("{u}"),
        }
        let mut a: Vec<String> = Vec::new();
        a.push(String::from_str("rev-parse"));
        a.push(String::from_str("--abbrev-ref"));
        a.push(String::from_str("--symbolic"));
        a.push(rev);
        proof {
            assert(a.deep_view() =~= spec_abbrev_ref_args(
                spec_remote_branch_rev(
                    match remote_name {
                        Some(r) => Some(r@),
                        None => None,
                    },
                    match local_branch {
                        Some(b) => Some(b@),
                        None => None,
                    },
                ),
            ));
        }
        a
    }

    /// Interprets the outcome of the symbolic rev-parse of
    /// `<branch>@<remote>`: the output is the `<remote>/<branch>` name.
    pub fn remote_branch(
        &self,
        remote_name: &Option<String>,
        local_branch: &Option<String>,
        output: Result<String, String>,
    ) -> (r: Result<String, Error>)
        ensures
            match output {
                Ok(stdout) => r == Ok::<String, Error>(stdout),
                Err(stderr) => r matches Err(e) && e matches Error::GitCommandError {
                    stderr: st,
                    args,
                } && st@ == stderr@ && args.deep_view() == spec_abbrev_ref_args(
                    spec_remote_branch_rev(
                        match remote_name {
                            Some(r) => Some(r@),
                            None => None,
                        },
                        match local_branch {
                            Some(b) => Some(b@),
                            None => None,
                        },
                    ),
                ),
            },
    {
        match output {
            Ok(stdout) => Ok(stdout),
            Err(stderr) => Err(
                Error::GitCommandError {
                    stderr,
                    args: Self::remote_branch_args(remote_name, local_branch),
                },
            ),
        }
    }
}

} // verus!
