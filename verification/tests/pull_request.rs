use git_brws::config::{empty_env, Config};
use git_brws::error::Error;
use git_brws::pull_request::{
    find_github_pr_url_for_branch, find_url, pr_endpoint, select_token, ApiRequest, ApiResponse,
    PrLookup, PrResolver, PullRequestOutcome,
};
use git_brws::service::ServiceKind;

fn config(branch: Option<&str>, git_dir: Option<&str>) -> Config {
    Config {
        repo: "dummy url not used".to_string(),
        branch: branch.map(|s| s.to_string()),
        git_dir: git_dir.map(|s| s.to_string()),
        args: vec![],
        stdout: false,
        pull_request: true,
        website: false,
        env: empty_env(),
    }
}

// A stub collaborator: a scripted list of answers, counting how many
// requests it served.
fn run_resolver(
    mut resolver: PrResolver,
    answers: &[ApiResponse],
) -> (PullRequestOutcome, usize, Vec<ApiRequest>) {
    let mut calls = 0usize;
    let mut seen = Vec::new();
    loop {
        match resolver.current_request() {
            Some(req) => {
                seen.push(req);
                let answer = answers[calls].clone();
                calls += 1;
                if let Some(outcome) = resolver.advance(&answer) {
                    assert!(resolver.current_request().is_none());
                    return (outcome, calls, seen);
                }
            }
            None => panic!("resolver finished without an outcome"),
        }
    }
}

#[test]
fn pr_found_at_own_repo_stops_after_one_call() {
    let resolver = PrResolver::new("rhysd", "vim.wasm", "async-eventloop");
    let url = "https://github.com/rhysd/vim.wasm/pull/10".to_string();
    let (outcome, calls, seen) = run_resolver(
        resolver,
        &[ApiResponse::PrUrl { url: Some(url.clone()) }],
    );
    assert_eq!(outcome, PullRequestOutcome::Existing { url });
    // Monotonic in lookup order: the parent lookups were never invoked.
    assert_eq!(calls, 1);
    assert_eq!(
        seen[0],
        ApiRequest::FindPrUrl {
            owner: "rhysd".to_string(),
            repo: "vim.wasm".to_string(),
            branch: "async-eventloop".to_string(),
            author_filter: None,
        }
    );
}

#[test]
fn pr_found_at_parent_repo() {
    // The fork chain of rust.vim: the branch has no pull request against
    // the fork itself, the parent lookup names rust-lang, and the filtered
    // lookup there finds the pull request.
    let resolver = PrResolver::new("rhysd", "rust.vim", "async-contextual-keyword");
    let url = "https://github.com/rust-lang/rust.vim/pull/290".to_string();
    let (outcome, calls, seen) = run_resolver(
        resolver,
        &[
            ApiResponse::PrUrl { url: None },
            ApiResponse::Parent {
                parent: Some(("rust-lang".to_string(), "rust.vim".to_string())),
            },
            ApiResponse::PrUrl { url: Some(url.clone()) },
        ],
    );
    assert_eq!(outcome, PullRequestOutcome::Existing { url });
    assert_eq!(calls, 3);
    assert_eq!(
        seen[2],
        ApiRequest::FindPrUrl {
            owner: "rust-lang".to_string(),
            repo: "rust.vim".to_string(),
            branch: "async-contextual-keyword".to_string(),
            author_filter: Some("rhysd".to_string()),
        }
    );
}

#[test]
fn no_pr_anywhere_on_forked_repo() {
    let resolver = PrResolver::new("rhysd", "rust.vim", "unknown-branch");
    let (outcome, calls, _) = run_resolver(
        resolver,
        &[
            ApiResponse::PrUrl { url: None },
            ApiResponse::Parent {
                parent: Some(("rust-lang".to_string(), "rust.vim".to_string())),
            },
            ApiResponse::PrUrl { url: None },
        ],
    );
    assert_eq!(
        outcome,
        PullRequestOutcome::NewAtParent {
            author: "rust-lang".to_string(),
            repo: "rust.vim".to_string(),
            fork_author: "rhysd".to_string(),
            branch: "unknown-branch".to_string(),
        }
    );
    assert_eq!(calls, 3);
}

#[test]
fn no_pr_and_no_parent() {
    let resolver = PrResolver::new("rhysd", "git-brws", "unknown-branch");
    let (outcome, calls, seen) = run_resolver(
        resolver,
        &[
            ApiResponse::PrUrl { url: None },
            ApiResponse::Parent { parent: None },
        ],
    );
    assert_eq!(
        outcome,
        PullRequestOutcome::New {
            author: "rhysd".to_string(),
            repo: "git-brws".to_string(),
            branch: "unknown-branch".to_string(),
        }
    );
    assert_eq!(calls, 2);
    assert_eq!(
        seen[1],
        ApiRequest::ParentRepo {
            owner: "rhysd".to_string(),
            repo: "git-brws".to_string(),
        }
    );
}

#[test]
fn token_for_public_api_host() {
    let mut env = empty_env();
    env.github_token = Some("PUBLIC".to_string());
    env.ghe_token = Some("ENTERPRISE".to_string());
    assert_eq!(
        select_token("api.github.com", &env),
        Ok(Some("PUBLIC".to_string()))
    );
    assert_eq!(
        select_token("ghe.company.com/api/v3", &env),
        Ok(Some("ENTERPRISE".to_string()))
    );
}

#[test]
fn enterprise_token_is_required() {
    let mut env = empty_env();
    env.github_token = Some("PUBLIC".to_string());
    assert_eq!(
        select_token("ghe.company.com/api/v3", &env),
        Err(Error::GheTokenRequired)
    );
    match find_github_pr_url_for_branch("dev", "ghe.company.com/api/v3", "me", "repo", &env) {
        Err(Error::GheTokenRequired) => {}
        r => panic!("unexpected result: {:?}", r),
    }
}

#[test]
fn started_lookup_carries_first_request() {
    let env = empty_env();
    let (resolver, request, token) =
        find_github_pr_url_for_branch("dev", "api.github.com", "me", "repo", &env).unwrap();
    assert_eq!(token, None);
    assert_eq!(resolver.current_request(), Some(request.clone()));
    assert_eq!(
        request,
        ApiRequest::FindPrUrl {
            owner: "me".to_string(),
            repo: "repo".to_string(),
            branch: "dev".to_string(),
            author_filter: None,
        }
    );
}

#[test]
fn find_url_with_branch_starts_resolving() {
    let cfg = config(Some("dev"), None);
    match find_url("api.github.com", "me", "repo", &cfg) {
        Ok(PrLookup::Resolve { resolver, request, token }) => {
            assert_eq!(token, None);
            assert_eq!(resolver.current_request(), Some(request));
        }
        r => panic!("unexpected result: {:?}", r),
    }
}

#[test]
fn find_url_without_branch_asks_git() {
    let cfg = config(None, Some("/work/repo/.git"));
    match find_url("api.github.com", "me", "repo", &cfg) {
        Ok(PrLookup::ResolveAtCurrentBranch { git }) => {
            assert_eq!(git.git_dir, "/work/repo/.git");
            assert_eq!(git.command, "git");
        }
        r => panic!("unexpected result: {:?}", r),
    }
}

#[test]
fn find_url_without_branch_or_repo_fails() {
    let cfg = config(None, None);
    match find_url("api.github.com", "me", "repo", &cfg) {
        Err(Error::NoLocalRepoFound { operation }) => {
            assert_eq!(operation, "opening a pull request without specifying branch");
        }
        r => panic!("unexpected result: {:?}", r),
    }
}

#[test]
fn outcome_page_urls() {
    let existing = PullRequestOutcome::Existing {
        url: "https://github.com/rust-lang/rust.vim/pull/290".to_string(),
    };
    assert_eq!(
        existing.page_url("github.com"),
        "https://github.com/rust-lang/rust.vim/pull/290"
    );
    let new = PullRequestOutcome::New {
        author: "rhysd".to_string(),
        repo: "git-brws".to_string(),
        branch: "dev".to_string(),
    };
    assert_eq!(
        new.page_url("github.com"),
        "https://github.com/rhysd/git-brws/pull/new/dev"
    );
    let at_parent = PullRequestOutcome::NewAtParent {
        author: "rust-lang".to_string(),
        repo: "rust.vim".to_string(),
        fork_author: "rhysd".to_string(),
        branch: "dev".to_string(),
    };
    assert_eq!(
        at_parent.page_url("github.com"),
        "https://github.com/rust-lang/rust.vim/compare/HEAD...rhysd:dev?expand=1"
    );
}

#[test]
fn started_lookup_succeeds_with_enterprise_token() {
    let mut env = empty_env();
    env.ghe_token = Some("ENTERPRISE".to_string());
    let (resolver, _, token) =
        find_github_pr_url_for_branch("dev", "ghe.company.com/api/v3", "me", "repo", &env)
            .unwrap();
    assert_eq!(token, Some("ENTERPRISE".to_string()));
    assert!(resolver.current_request().is_some());

    let mut cfg = config(Some("dev"), None);
    cfg.env = env;
    assert!(find_url("ghe.company.com/api/v3", "me", "repo", &cfg).is_ok());
}

#[test]
fn pr_endpoint_per_service() {
    assert_eq!(
        pr_endpoint(ServiceKind::GitHub, "github.com"),
        Ok("api.github.com".to_string())
    );
    assert_eq!(
        pr_endpoint(ServiceKind::GitHubEnterprise, "ghe.company.com"),
        Ok("ghe.company.com/api/v3".to_string())
    );
    match pr_endpoint(ServiceKind::GitLab, "gitlab.com") {
        Err(Error::PullReqNotSupported { service }) => assert_eq!(service, "GitLab"),
        r => panic!("unexpected result: {:?}", r),
    }
    match pr_endpoint(ServiceKind::Bitbucket, "bitbucket.org") {
        Err(Error::PullReqNotSupported { service }) => assert_eq!(service, "Bitbucket"),
        r => panic!("unexpected result: {:?}", r),
    }
}
