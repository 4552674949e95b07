//! The library's error type. Every failure of the core carries the offending
//! input, and `message` renders the human-readable text, whose exact content
//! is specified by `spec_message`.

use vstd::prelude::*;
use vstd::string::StringExecFns;

verus! {

/// Every failure the core can report, with the structured context each one
/// carries.
#[derive(Debug, Clone, PartialEq, Eq)]
pub enum Error {
    /// The repository argument fits none of the accepted shapes.
    BrokenRepoFormat { input: String },
    /// A two-dot diff was asked of GitLab, which only renders three-dot diffs.
    GitLabDiffNotSupported,
    /// A diff page was asked of Bitbucket, which has none.
    BitbucketDiffNotSupported,
    /// The repository URL's path has no owner segment.
    NoUserInPath { path: String },
    /// The repository URL's path has an owner but no repository segment.
    NoRepoInPath { path: String },
    /// The host belongs to no known or configured hosting service.
    UnknownHostingService { url: String },
    /// The repository URL could not be read at all.
    BrokenUrl { url: String, msg: String },
    /// A pull-request page was asked of a service without pull requests.
    PullReqNotSupported { service: String },
    /// A request against a GitHub Enterprise API host needs its own token.
    GheTokenRequired,
    /// Searching repositories by name found nothing.
    NoSearchResult { query: String },
    /// A git object (a remote, a commit, a tag) was not found.
    GitObjectNotFound { kind: String, object: String, msg: String },
    /// The git command exited with a non-zero status.
    GitCommandError { stderr: String, args: Vec<String> },
    /// No root directory lies above the given git directory.
    GitRootDirNotFound { git_dir: String },
    /// A tracking name did not have the `remote/branch` shape.
    UnexpectedRemoteName { name: String },
    /// A diff argument holds neither `..` nor `...`.
    DiffDotsNotFound,
    /// A diff argument has an empty left- or right-hand side.
    DiffHandIsEmpty { input: String },
    /// A file path does not stay inside the repository root.
    FileDirNotInRepo { repo_root: String, path: String },
    /// An operation needs a local repository and none was found.
    NoLocalRepoFound { operation: String },
}

/// The arguments of a git command as they appear inside an error message:
/// each argument quoted, the whole list comma-separated.
pub open spec fn spec_quoted_args(args: Seq<Seq<char>>) -> Seq<char>
    decreases args.len(),
{
    if args.len() == 0 {
        Seq::empty()
    } else if args.len() == 1 {
        "\""@ + args[0] + "\""@
    } else {
        spec_quoted_args(args.drop_last()) + ", \""@ + args.last() + "\""@
    }
}

/// The text of the message a `GitCommandError` renders to.
pub open spec fn spec_git_command_message(stderr: Seq<char>, args: Seq<Seq<char>>) -> Seq<char> {
    "Git command ["@ + spec_quoted_args(args) + "] exited with non-zero status: "@ + stderr
}

/// The text of the message a `GitObjectNotFound` renders to.
pub open spec fn spec_git_object_message(kind: Seq<char>, object: Seq<char>, msg: Seq<char>) -> Seq<char> {
    "Git "@ + kind + " '"@ + object + "' was not found: "@ + msg
}

/// The text each error renders to.
pub open spec fn spec_message(e: Error) -> Seq<char> {
    match e {
        Error::BrokenRepoFormat { input } => "Invalid repository format '"@ + input@
            + "'. Format must be one of 'user/repo', 'service/user/repo', remote name or Git URL"@,
        Error::GitLabDiffNotSupported =>
            "GitLab does not support '..' for comparing diff between commits. Please use '...'"@,
        Error::BitbucketDiffNotSupported =>
            "BitBucket does not support diff between commits (see https://bitbucket.org/site/master/issues/4779/ability-to-diff-between-any-two-commits)"@,
        Error::NoUserInPath { path } => "Can't detect user name from path "@ + path@,
        Error::NoRepoInPath { path } => "Can't detect repository name from path "@ + path@,
        Error::UnknownHostingService { url } => "Unknown hosting service for URL "@ + url@
            + ". If you want to use custom URL for GitHub Enterprise, please set $GIT_BRWS_GHE_URL_HOST"@,
        Error::BrokenUrl { url, msg } => "Broken URL '"@ + url@ + "': "@ + msg@,
        Error::PullReqNotSupported { service } => "--pr or -p does not support the service "@
            + service@,
        Error::GheTokenRequired =>
            "GitHub Enterprise API token is required. Please set $GIT_BRWS_GHE_TOKEN"@,
        Error::NoSearchResult { query } => "No repository was found by the search query: "@
            + query@,
        Error::GitObjectNotFound { kind, object, msg } => spec_git_object_message(
            kind@,
            object@,
            msg@,
        ),
        Error::GitCommandError { stderr, args } => spec_git_command_message(
            stderr@,
            args.deep_view(),
        ),
        Error::GitRootDirNotFound { git_dir } => "Cannot locate root directory from GIT_DIR '"@
            + git_dir@ + "'"@,
        Error::UnexpectedRemoteName { name } => "Tracking name must be remote-url/branch-name: "@
            + name@,
        Error::DiffDotsNotFound => "'..' or '...' must be contained for diff"@,
        Error::DiffHandIsEmpty { input } => "Not a diff format since LHS and/or RHS is empty "@
            + input@,
        Error::FileDirNotInRepo { repo_root, path } => "Given path '"@ + path@
            + "' is not in repository '"@ + repo_root@ + "'"@,
        Error::NoLocalRepoFound { operation } => "No local repository was found for "@
            + operation@,
    }
}

/// Renders the bracketed, quoted argument list of a git command.
fn quoted_args(args: &Vec<String>) -> (r: String)
    ensures
        r@ == spec_quoted_args(args.deep_view()),
{
    let mut r = String::new();
    let n = args.len();
    let mut i: usize = 0;
    while i < n
        invariant
            i <= n,
            n == args@.len(),
            r@ == spec_quoted_args(args.deep_view().take(i as int)),
        decreases n - i,
    {
        proof {
            assert(args.deep_view().take(i + 1).drop_last() =~= args.deep_view().take(i as int));
            assert(args.deep_view().take(i + 1).last() == args@[i as int]@);
        }
        if i == 0 {
            r.append("\"");
        } else {
            r.append(", \"");
        }
        r.append(args[i].as_str());
        r.append("\"");
        i += 1;
    }
    proof {
        assert(args.deep_view().take(n as int) =~= args.deep_view());
    }
    r
}

impl Error {
    /// The human-readable text of this error.
    pub fn message(&self) -> (r: String)
        ensures
            r@ == spec_message(*self),
    {
        match self {
            Error::BrokenRepoFormat { input } => {
                let mut s = String::from_str("Invalid repository format '");
                s.append(input.as_str());
                s.append(
                    "'. Format must be one of 'user/repo', 'service/user/repo', remote name or Git URL",
                );
                s
            },
            Error::GitLabDiffNotSupported => String::from_str(
                "GitLab does not support '..' for comparing diff between commits. Please use '...'",
            ),
            Error::BitbucketDiffNotSupported => String::from_str(
                "BitBucket does not support diff between commits (see https://bitbucket.org/site/master/issues/4779/ability-to-diff-between-any-two-commits)",
            ),
            Error::NoUserInPath { path } => {
                let mut s = String::from_str("Can't detect user name from path ");
                s.append(path.as_str());
                s
            },
            Error::NoRepoInPath { path } => {
                let mut s = String::from_str("Can't detect repository name from path ");
                s.append(path.as_str());
                s
            },
            Error::UnknownHostingService { url } => {
                let mut s = String::from_str("Unknown hosting service for URL ");
                s.append(url.as_str());
                s.append(
                    ". If you want to use custom URL for GitHub Enterprise, please set $GIT_BRWS_GHE_URL_HOST",
                );
                s
            },
            Error::BrokenUrl { url, msg } => {
                let mut s = String::from_str("Broken URL '");
                s.append(url.as_str());
                s.append("': ");
                s.append(msg.as_str());
                s
            },
            Error::PullReqNotSupported { service } => {
                let mut s = String::from_str("--pr or -p does not support the service ");
                s.append(service.as_str());
                s
            },
            Error::GheTokenRequired => String::from_str(
                "GitHub Enterprise API token is required. Please set $GIT_BRWS_GHE_TOKEN",
            ),
            Error::NoSearchResult { query } => {
                let mut s = String::from_str("No repository was found by the search query: ");
                s.append(query.as_str());
                s
            },
            Error::GitObjectNotFound { kind, object, msg } => {
                let mut s = String::from_str("Git ");
                s.append(kind.as_str());
                s.append(" '");
                s.append(object.as_str());
                s.append("' was not found: ");
                s.append(msg.as_str());
                s
            },
            Error::GitCommandError { stderr, args } => {
                let mut s = String::from_str("Git command [");
                s.append(quoted_args(args).as_str());
                s.append("] exited with non-zero status: ");
                s.append(stderr.as_str());
                s
            },
            Error::GitRootDirNotFound { git_dir } => {
                let mut s = String::from_str("Cannot locate root directory from GIT_DIR '");
                s.append(git_dir.as_str());
                s.append("'");
                s
            },
            Error::UnexpectedRemoteName { name } => {
                let mut s = String::from_str("Tracking name must be remote-url/branch-name: ");
                s.append(name.as_str());
                s
            },
            Error::DiffDotsNotFound => String::from_str("'..' or '...' must be contained for diff"),
            Error::DiffHandIsEmpty { input } => {
                let mut s = String::from_str("Not a diff format since LHS and/or RHS is empty ");
                s.append(input.as_str());
                s
            },
            Error::FileDirNotInRepo { repo_root, path } => {
                let mut s = String::from_str("Given path '");
                s.append(path.as_str());
                s.append("' is not in repository '");
                s.append(repo_root.as_str());
                s.append("'");
                s
            },
            Error::NoLocalRepoFound { operation } => {
                let mut s = String::from_str("No local repository was found for ");
                s.append(operation.as_str());
                s
            },
        }
    }
}

} // verus!
