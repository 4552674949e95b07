use git_brws::config::empty_env;
use git_brws::error::Error;
use git_brws::page::Page;
use git_brws::service::{classify_service, parse_and_build_page_url, ServiceKind};

#[test]
fn broken_repo_format_message() {
    let e = Error::BrokenRepoFormat { input: "a/b/c/d".to_string() };
    assert_eq!(
        e.message(),
        "Invalid repository format 'a/b/c/d'. Format must be one of 'user/repo', 'service/user/repo', remote name or Git URL"
    );
}

#[test]
fn gitlab_diff_message() {
    assert_eq!(
        Error::GitLabDiffNotSupported.message(),
        "GitLab does not support '..' for comparing diff between commits. Please use '...'"
    );
}

#[test]
fn git_command_message_quotes_arguments() {
    let e = Error::GitCommandError {
        stderr: "fatal: oops".to_string(),
        args: vec!["rev-parse".to_string(), "HEAD".to_string()],
    };
    assert_eq!(
        e.message(),
        "Git command [\"rev-parse\", \"HEAD\"] exited with non-zero status: fatal: oops"
    );
}

#[test]
fn unknown_hosting_service_error() {
    match parse_and_build_page_url(
        "https://unknown.hosting_service.com/user/repo.git",
        &Page::Open,
        &None,
        &empty_env(),
    ) {
        Err(Error::UnknownHostingService { url }) => {
            assert_eq!(url, "https://unknown.hosting_service.com/user/repo.git");
        }
        r => panic!("unexpected result: {:?}", r),
    }
}

#[test]
fn path_errors_name_the_path() {
    match parse_and_build_page_url("https://github.com.git", &Page::Open, &None, &empty_env()) {
        Err(Error::NoUserInPath { path }) => assert_eq!(path, ""),
        r => panic!("unexpected result: {:?}", r),
    }
    match parse_and_build_page_url(
        "https://github.com/user.git",
        &Page::Open,
        &None,
        &empty_env(),
    ) {
        Err(Error::NoRepoInPath { path }) => assert_eq!(path, "/user.git"),
        r => panic!("unexpected result: {:?}", r),
    }
}

#[test]
fn url_without_scheme_is_broken() {
    match parse_and_build_page_url("github.com/user/repo", &Page::Open, &None, &empty_env()) {
        Err(Error::BrokenUrl { url, msg }) => {
            assert_eq!(url, "github.com/user/repo");
            assert_eq!(msg, "the scheme separator '://' is missing");
        }
        r => panic!("unexpected result: {:?}", r),
    }
}

#[test]
fn classification_is_case_insensitive_for_github() {
    // The host comparison lowercases before matching: an upper-case
    // spelling still names the public service.
    let env = empty_env();
    assert_eq!(classify_service("GitHub.Com", &env), Some(ServiceKind::GitHub));
    assert_eq!(classify_service("github.com", &env), Some(ServiceKind::GitHub));
    assert_eq!(classify_service("gitlab.com", &env), Some(ServiceKind::GitLab));
    assert_eq!(
        classify_service("bitbucket.org", &env),
        Some(ServiceKind::Bitbucket)
    );
    assert_eq!(
        classify_service("github.company.com", &env),
        Some(ServiceKind::GitHubEnterprise)
    );
    assert_eq!(
        classify_service("gitlab.company.com", &env),
        Some(ServiceKind::GitLabSelfHosted)
    );
    assert_eq!(classify_service("example.com", &env), None);
}
