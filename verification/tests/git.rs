use git_brws::config::{empty_env, Config};
use git_brws::error::Error;
use git_brws::git::Git;

#[test]
fn git_from_config() {
    let cfg = Config {
        repo: "https://github.com/user/repo.git".to_string(),
        branch: None,
        git_dir: Some("/work/repo/.git".to_string()),
        args: vec![],
        stdout: false,
        pull_request: false,
        website: false,
        env: empty_env(),
    };
    let git = cfg.git().unwrap();
    assert_eq!(git.git_dir, "/work/repo/.git");
    assert_eq!(git.command, "git");

    let without = Config { git_dir: None, ..cfg };
    assert!(without.git().is_none());
}

#[test]
fn command_line_assembly() {
    let git = Git::new("/work/repo/.git", "git");
    let line = git.command_line(&Git::hash_args("HEAD"));
    assert_eq!(
        line,
        vec![
            "git".to_string(),
            "--git-dir".to_string(),
            "/work/repo/.git".to_string(),
            "rev-parse".to_string(),
            "HEAD".to_string(),
        ]
    );
}

#[test]
fn hash_interprets_output() {
    let git = Git::new("/work/repo/.git", "git");
    assert_eq!(
        git.hash("HEAD", Ok("90601f10".to_string())),
        Ok("90601f10".to_string())
    );
    match git.hash("HEAD~100", Err("fatal: bad revision".to_string())) {
        Err(Error::GitObjectNotFound { kind, object, msg }) => {
            assert_eq!(kind, "commit");
            assert_eq!(object, "HEAD~100");
            assert_eq!(
                msg,
                "Git command [\"rev-parse\", \"HEAD~100\"] exited with non-zero status: fatal: bad revision"
            );
        }
        r => panic!("unexpected result: {:?}", r),
    }
}

#[test]
fn tag_hash_keeps_first_token() {
    let git = Git::new("/work/repo/.git", "git");
    assert_eq!(
        git.tag_hash("v1.0", Ok("90601f10 refs/tags/v1.0".to_string())),
        Ok("90601f10".to_string())
    );
    match git.tag_hash("nope", Err("error".to_string())) {
        Err(Error::GitObjectNotFound { kind, object, .. }) => {
            assert_eq!(kind, "tag name");
            assert_eq!(object, "nope");
        }
        r => panic!("unexpected result: {:?}", r),
    }
}

#[test]
fn remote_url_interprets_output() {
    let git = Git::new("/work/repo/.git", "git");
    assert_eq!(
        Git::remote_url_args("origin"),
        vec![
            "config".to_string(),
            "--get".to_string(),
            "remote.origin.url".to_string(),
        ]
    );
    assert_eq!(
        git.remote_url("origin", Ok("https://github.com/u/r.git".to_string())),
        Ok("https://github.com/u/r.git".to_string())
    );
    match git.remote_url("missing", Err("error".to_string())) {
        Err(Error::GitObjectNotFound { kind, object, .. }) => {
            assert_eq!(kind, "remote");
            assert_eq!(object, "missing");
        }
        r => panic!("unexpected result: {:?}", r),
    }
}

#[test]
fn tracking_remote_decision() {
    let git = Git::new("/work/repo/.git", "git");
    // The symbolic name `origin/dev` names the remote to read.
    assert_eq!(
        git.tracking_remote_url(&None, Ok("origin/dev".to_string())),
        Ok("origin".to_string())
    );
    // A revision that tracks no remote branch falls back to origin.
    assert_eq!(
        git.tracking_remote_url(
            &Some("dev".to_string()),
            Err("fatal: HEAD does not point to a branch".to_string())
        ),
        Ok("origin".to_string())
    );
    // Any other failure is the command's error.
    match git.tracking_remote_url(&None, Err("fatal: not a git repository".to_string())) {
        Err(Error::GitCommandError { stderr, args }) => {
            assert_eq!(stderr, "fatal: not a git repository");
            assert_eq!(
                args,
                vec![
                    "rev-parse".to_string(),
                    "--abbrev-ref".to_string(),
                    "--symbolic".to_string(),
                    "@{u}".to_string(),
                ]
            );
        }
        r => panic!("unexpected result: {:?}", r),
    }
}

#[test]
fn current_branch_interprets_output() {
    let git = Git::new("/work/repo/.git", "git");
    assert_eq!(
        git.current_branch(Ok("dev".to_string())),
        Ok("dev".to_string())
    );
    assert!(git.current_branch(Err("error".to_string())).is_err());
}

#[test]
fn remote_contains_is_non_empty_output() {
    let git = Git::new("/work/repo/.git", "git");
    assert_eq!(
        git.remote_contains("90601f10", "origin/dev", Ok("  origin/dev".to_string())),
        Ok(true)
    );
    assert_eq!(
        git.remote_contains("90601f10", "origin/dev", Ok("".to_string())),
        Ok(false)
    );
}

#[test]
fn remote_branch_builds_rev() {
    assert_eq!(
        Git::remote_branch_args(&Some("origin".to_string()), &Some("dev".to_string())),
        vec![
            "rev-parse".to_string(),
            "--abbrev-ref".to_string(),
            "--symbolic".to_string(),
            "dev@origin".to_string(),
        ]
    );
    assert_eq!(
        Git::remote_branch_args(&None, &None),
        vec![
            "rev-parse".to_string(),
            "--abbrev-ref".to_string(),
            "--symbolic".to_string(),
            "@{u}".to_string(),
        ]
    );
    let git = Git::new("/work/repo/.git", "git");
    assert_eq!(
        git.remote_branch(&None, &None, Ok("origin/dev".to_string())),
        Ok("origin/dev".to_string())
    );
}

#[test]
fn root_dir_is_parent_of_git_dir() {
    let git = Git::new("/work/repo/.git", "git");
    assert_eq!(git.root_dir(), Ok("/work/repo".to_string()));
    let bare = Git::new(".git", "git");
    assert_eq!(bare.root_dir(), Ok("".to_string()));
    let empty = Git::new("", "git");
    match empty.root_dir() {
        Err(Error::GitRootDirNotFound { git_dir }) => assert_eq!(git_dir, ""),
        r => panic!("unexpected result: {:?}", r),
    }
}
