use git_brws::argv::{convert_ssh_url, normalize_repo_format, NormalizedRepo};
use git_brws::config::empty_env;
use git_brws::error::Error;
use git_brws::page::Page;
use git_brws::service::parse_and_build_page_url;

#[test]
fn repo_formatting() {
    assert_eq!(
        normalize_repo_format("bitbucket.org/foo/bar".to_string()),
        Ok(NormalizedRepo::Url("https://bitbucket.org/foo/bar.git".to_string()))
    );
    assert_eq!(
        normalize_repo_format("https://gitlab.com/foo/bar".to_string()),
        Ok(NormalizedRepo::Url("https://gitlab.com/foo/bar.git".to_string()))
    );
    assert_eq!(
        normalize_repo_format("foo/bar".to_string()),
        Ok(NormalizedRepo::Url("https://github.com/foo/bar.git".to_string()))
    );
}

#[test]
fn normalize_full_url_keeps_git_suffix() {
    assert_eq!(
        normalize_repo_format("https://github.com/foo/bar.git".to_string()),
        Ok(NormalizedRepo::Url("https://github.com/foo/bar.git".to_string()))
    );
}

#[test]
fn normalize_bare_name_searches() {
    assert_eq!(
        normalize_repo_format("git-brws".to_string()),
        Ok(NormalizedRepo::SearchByName("git-brws".to_string()))
    );
}

#[test]
fn normalize_broken_format() {
    match normalize_repo_format("".to_string()) {
        Err(Error::BrokenRepoFormat { input }) => assert_eq!(input, ""),
        r => panic!("unexpected result: {:?}", r),
    }
    match normalize_repo_format("a/b/c/d".to_string()) {
        Err(Error::BrokenRepoFormat { input }) => assert_eq!(input, "a/b/c/d"),
        r => panic!("unexpected result: {:?}", r),
    }
}

#[test]
fn convert_scp_style_ssh_url() {
    assert_eq!(
        convert_ssh_url("git@github.com:user/repo.git".to_string()),
        "ssh://git@github.com:22/user/repo.git"
    );
}

#[test]
fn convert_scp_style_keeps_embedded_port() {
    assert_eq!(
        convert_ssh_url("git@github.somewhere.com:123/user/repo.git".to_string()),
        "ssh://git@github.somewhere.com:123/user/repo.git"
    );
}

#[test]
fn convert_leaves_other_urls_alone() {
    assert_eq!(
        convert_ssh_url("https://github.com/user/repo.git".to_string()),
        "https://github.com/user/repo.git"
    );
    assert_eq!(
        convert_ssh_url("ssh://git@github.com:22/user/repo.git".to_string()),
        "ssh://git@github.com:22/user/repo.git"
    );
}

#[test]
fn shorthand_round_trip_to_open_page() {
    // The stored identity carries `.git`, the rendered page does not.
    let normalized = normalize_repo_format("foo/bar".to_string()).unwrap();
    let url = match normalized {
        NormalizedRepo::Url(u) => u,
        r => panic!("unexpected result: {:?}", r),
    };
    assert_eq!(url, "https://github.com/foo/bar.git");
    assert_eq!(
        parse_and_build_page_url(&url, &Page::Open, &None, &empty_env()).unwrap(),
        "https://github.com/foo/bar"
    );
}
