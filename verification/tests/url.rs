use git_brws::config::{empty_env, Config};
use git_brws::page::Page;
use git_brws::url::build_url;

fn config_for(repo: &str) -> Config {
    Config {
        repo: repo.to_string(),
        branch: None,
        git_dir: None,
        args: vec![],
        stdout: false,
        pull_request: false,
        website: false,
        env: empty_env(),
    }
}

#[test]
fn commit_round_trip() {
    // The identity carries `.git`; the rendered commit page does not.
    let cfg = config_for("https://github.com/user/repo.git");
    let page = Page::Commit { hash: "abc123".to_string() };
    assert_eq!(
        build_url(&cfg, &page).unwrap(),
        "https://github.com/user/repo/commit/abc123"
    );
}

#[test]
fn branch_page_round_trip() {
    let mut cfg = config_for("https://github.com/user/repo.git");
    cfg.branch = Some("dev".to_string());
    assert_eq!(
        build_url(&cfg, &Page::Open).unwrap(),
        "https://github.com/user/repo/tree/dev"
    );
    assert_eq!(
        build_url(&cfg, &Page::Branch { name: "topic".to_string() }).unwrap(),
        "https://github.com/user/repo/tree/topic"
    );
}

#[test]
fn gitlab_three_dot_diff_renders_the_same_twice() {
    let cfg = config_for("https://gitlab.com/user/repo.git");
    let page = Page::Diff {
        lhs: "aaa".to_string(),
        rhs: "bbb".to_string(),
        op: git_brws::page::DiffOp::ThreeDots,
    };
    let first = build_url(&cfg, &page).unwrap();
    let second = build_url(&cfg, &page).unwrap();
    assert_eq!(first, "https://gitlab.com/user/repo/compare/aaa...bbb");
    assert_eq!(first, second);
}

#[test]
fn empty_env_supplies_nothing() {
    let env = empty_env();
    assert_eq!(env.git_command, "git");
    assert_eq!(env.ghe_ssh_port, None);
    assert_eq!(env.ghe_url_host, None);
    assert_eq!(env.gitlab_ssh_port, None);
    assert_eq!(env.github_token, None);
    assert_eq!(env.ghe_token, None);
    assert_eq!(env.https_proxy, None);
    assert_eq!(env.browse_command, None);
}
