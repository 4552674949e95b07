//! The pull-request resolver: an ordered decision procedure over two API
//! lookups. It first asks whether the branch already has a pull request
//! against the repository itself; only if not does it ask for the
//! repository's parent, and only with a parent does it ask again there,
//! now filtered by the fork's author. The caller performs each issued
//! request against the hosting API and hands the answer back; every
//! decision between the calls is made here.

use crate::config::{Config, EnvConfig};
use crate::error::Error;
use crate::git::Git;
use crate::service::ServiceKind;
use vstd::prelude::*;
use vstd::string::StringExecFns;

verus! {

/// How a pull-request request resolves: an existing pull request's URL, or
/// what a new one would be — against the repository itself, or against its
/// parent when the repository is a fork.
#[derive(Debug, Clone, PartialEq, Eq)]
pub enum PullRequestOutcome {
    Existing { url: String },
    New { author: String, repo: String, branch: String },
    NewAtParent { author: String, repo: String, fork_author: String, branch: String },
}

/// The mathematical shape of an outcome.
pub enum OutcomeModel {
    Existing { url: Seq<char> },
    New { author: Seq<char>, repo: Seq<char>, branch: Seq<char> },
    NewAtParent { author: Seq<char>, repo: Seq<char>, fork_author: Seq<char>, branch: Seq<char> },
}

impl View for PullRequestOutcome {
    type V = OutcomeModel;

    open spec fn view(&self) -> OutcomeModel {
        match self {
            PullRequestOutcome::Existing { url } => OutcomeModel::Existing { url: url@ },
            PullRequestOutcome::New { author, repo, branch } => OutcomeModel::New {
                author: author@,
                repo: repo@,
                branch: branch@,
            },
            PullRequestOutcome::NewAtParent { author, repo, fork_author, branch } =>
                OutcomeModel::NewAtParent {
                author: author@,
                repo: repo@,
                fork_author: fork_author@,
                branch: branch@,
            },
        }
    }
}

impl PullRequestOutcome {
    /// The page a browser opens for this outcome: the existing pull
    /// request's own URL, or the page on `host` where the new pull request
    /// would be opened — `/pull/new/<branch>` against the repository
    /// itself, or the compare page against the parent with the fork's
    /// branch on the right-hand side.
    pub fn page_url(&self, host: &str) -> (r: String)
        ensures
            match self {
                PullRequestOutcome::Existing { url } => r@ == url@,
                PullRequestOutcome::New { author, repo, branch } => r@ == "https://"@ + host@
                    + "/"@ + author@ + "/"@ + repo@ + "/pull/new/"@ + branch@,
                PullRequestOutcome::NewAtParent { author, repo, fork_author, branch } => r@
                    == "https://"@ + host@ + "/"@ + author@ + "/"@ + repo@ + "/compare/HEAD..."@
                    + fork_author@ + ":"@ + branch@ + "?expand=1"@,
            },
    {
        match self {
            PullRequestOutcome::Existing { url } => url.clone(),
            PullRequestOutcome::New { author, repo, branch } => {
                let mut r = String::from_str("https://");
                r.append(host);
                r.append("/");
                r.append(author.as_str());
                r.append("/");
                r.append(repo.as_str());
                r.append("/pull/new/");
                r.append(branch.as_str());
                r
            },
            PullRequestOutcome::NewAtParent { author, repo, fork_author, branch } => {
                let mut r = String::from_str("https://");
                r.append(host);
                r.append("/");
                r.append(author.as_str());
                r.append("/");
                r.append(repo.as_str());
                r.append("/compare/HEAD...");
                r.append(fork_author.as_str());
                r.append(":");
                r.append(branch.as_str());
                r.append("?expand=1");
                r
            },
        }
    }
}

/// One request to the hosting API: the pull request open for a branch, or
/// a repository's parent.
#[derive(Debug, Clone, PartialEq, Eq)]
pub enum ApiRequest {
    FindPrUrl { owner: String, repo: String, branch: String, author_filter: Option<String> },
    ParentRepo { owner: String, repo: String },
}

/// The mathematical shape of a request.
pub enum RequestModel {
    FindPrUrl {
        owner: Seq<char>,
        repo: Seq<char>,
        branch: Seq<char>,
        author_filter: Option<Seq<char>>,
    },
    ParentRepo { owner: Seq<char>, repo: Seq<char> },
}

impl View for ApiRequest {
    type V = RequestModel;

    open spec fn view(&self) -> RequestModel {
        match self {
            ApiRequest::FindPrUrl { owner, repo, branch, author_filter } =>
                RequestModel::FindPrUrl {
                owner: owner@,
                repo: repo@,
                branch: branch@,
                author_filter: match author_filter {
                    Some(a) => Some(a@),
                    None => None,
                },
            },
            ApiRequest::ParentRepo { owner, repo } => RequestModel::ParentRepo {
                owner: owner@,
                repo: repo@,
            },
        }
    }
}

/// One answer from the hosting API.
#[derive(Debug, Clone, PartialEq, Eq)]
pub enum ApiResponse {
    PrUrl { url: Option<String> },
    Parent { parent: Option<(String, String)> },
}

/// The mathematical shape of an answer.
pub enum ResponseModel {
    PrUrl { url: Option<Seq<char>> },
    Parent { parent: Option<(Seq<char>, Seq<char>)> },
}

impl View for ApiResponse {
    type V = ResponseModel;

    open spec fn view(&self) -> ResponseModel {
        match self {
            ApiResponse::PrUrl { url } => ResponseModel::PrUrl {
                url: match url {
                    Some(u) => Some(u@),
                    None => None,
                },
            },
            ApiResponse::Parent { parent } => ResponseModel::Parent {
                parent: match parent {
                    Some(p) => Some((p.0@, p.1@)),
                    None => None,
                },
            },
        }
    }
}

/// Where the resolution stands.
#[derive(Debug, Clone, PartialEq, Eq)]
pub enum ResolverStage {
    OwnLookup,
    ParentLookup,
    ParentPrLookup { parent_owner: String, parent_repo: String },
    Finished,
}

/// The mathematical shape of a stage.
pub enum StageModel {
    OwnLookup,
    ParentLookup,
    ParentPrLookup { parent_owner: Seq<char>, parent_repo: Seq<char> },
    Finished,
}

impl View for ResolverStage {
    type V = StageModel;

    open spec fn view(&self) -> StageModel {
        match self {
            ResolverStage::OwnLookup => StageModel::OwnLookup,
            ResolverStage::ParentLookup => StageModel::ParentLookup,
            ResolverStage::ParentPrLookup { parent_owner, parent_repo } =>
                StageModel::ParentPrLookup {
                parent_owner: parent_owner@,
                parent_repo: parent_repo@,
            },
            ResolverStage::Finished => StageModel::Finished,
        }
    }
}

/// The resolver for one pull-request request: whose repository and branch
/// it concerns, and where the resolution stands.
#[derive(Debug, Clone)]
pub struct PrResolver {
    pub author: String,
    pub repo: String,
    pub branch: String,
    pub stage: ResolverStage,
}

/// The mathematical shape of a resolver.
pub struct ResolverModel {
    pub author: Seq<char>,
    pub repo: Seq<char>,
    pub branch: Seq<char>,
    pub stage: StageModel,
}

impl View for PrResolver {
    type V = ResolverModel;

    open spec fn view(&self) -> ResolverModel {
        ResolverModel {
            author: self.author@,
            repo: self.repo@,
            branch: self.branch@,
            stage: self.stage@,
        }
    }
}

/// The request the resolver waits on in each stage. The first lookup
/// carries no author filter: the repository may be organization-owned, its
/// pull request authored by someone else, and a repository cannot hold two
/// open pull requests with the same source branch. The lookup at the
/// parent carries the fork's author, since several forks may submit
/// same-named branches.
pub open spec fn spec_resolver_request(m: ResolverModel) -> Option<RequestModel> {
    match m.stage {
        StageModel::OwnLookup => Some(
            RequestModel::FindPrUrl {
                owner: m.author,
                repo: m.repo,
                branch: m.branch,
                author_filter: None,
            },
        ),
        StageModel::ParentLookup => Some(RequestModel::ParentRepo { owner: m.author, repo: m.repo }),
        StageModel::ParentPrLookup { parent_owner, parent_repo } => Some(
            RequestModel::FindPrUrl {
                owner: parent_owner,
                repo: parent_repo,
                branch: m.branch,
                author_filter: Some(m.author),
            },
        ),
        StageModel::Finished => None,
    }
}

/// Whether `resp` answers the request the resolver waits on.
pub open spec fn spec_answers(m: ResolverModel, resp: ResponseModel) -> bool {
    match m.stage {
        StageModel::OwnLookup => resp is PrUrl,
        StageModel::ParentLookup => resp is Parent,
        StageModel::ParentPrLookup { .. } => resp is PrUrl,
        StageModel::Finished => false,
    }
}

/// The resolver with another stage.
pub open spec fn spec_with_stage(m: ResolverModel, stage: StageModel) -> ResolverModel {
    ResolverModel { stage, ..m }
}

/// One step of the resolution: what the answer to the pending request does
/// to the stage, and which outcome, if any, it settles.
pub open spec fn spec_advance(m: ResolverModel, resp: ResponseModel) -> (
    ResolverModel,
    Option<OutcomeModel>,
) {
    match m.stage {
        StageModel::OwnLookup => match resp {
            ResponseModel::PrUrl { url: Some(u) } => (
                spec_with_stage(m, StageModel::Finished),
                Some(OutcomeModel::Existing { url: u }),
            ),
            ResponseModel::PrUrl { url: None } => (
                spec_with_stage(m, StageModel::ParentLookup),
                None,
            ),
            _ => (m, None),
        },
        StageModel::ParentLookup => match resp {
            ResponseModel::Parent { parent: Some(p) } => (
                spec_with_stage(
                    m,
                    StageModel::ParentPrLookup { parent_owner: p.0, parent_repo: p.1 },
                ),
                None,
            ),
            ResponseModel::Parent { parent: None } => (
                spec_with_stage(m, StageModel::Finished),
                Some(OutcomeModel::New { author: m.author, repo: m.repo, branch: m.branch }),
            ),
            _ => (m, None),
        },
        StageModel::ParentPrLookup { parent_owner, parent_repo } => match resp {
            ResponseModel::PrUrl { url: Some(u) } => (
                spec_with_stage(m, StageModel::Finished),
                Some(OutcomeModel::Existing { url: u }),
            ),
            ResponseModel::PrUrl { url: None } => (
                spec_with_stage(m, StageModel::Finished),
                Some(
                    OutcomeModel::NewAtParent {
                        author: parent_owner,
                        repo: parent_repo,
                        fork_author: m.author,
                        branch: m.branch,
                    },
                ),
            ),
            _ => (m, None),
        },
        StageModel::Finished => (m, None),
    }
}

impl PrResolver {
    /// A fresh resolver for `branch` of `author`'s `repo`, waiting on the
    /// first lookup.
    pub fn new(author: &str, repo: &str, branch: &str) -> (r: PrResolver)
        ensures
            r@.author == author@,
            r@.repo == repo@,
            r@.branch == branch@,
            r@.stage is OwnLookup,
    {
        PrResolver {
            author: String::from_str(author),
            repo: String::from_str(repo),
            branch: String::from_str(branch),
            stage: ResolverStage::OwnLookup,
        }
    }

    /// The request the resolver waits on, `None` once resolution finished.
    pub fn current_request(&self) -> (r: Option<ApiRequest>)
        ensures
            match r {
                Some(req) => spec_resolver_request(self@) == Some(req@),
                None => spec_resolver_request(self@) is None,
            },
    {
        match &self.stage {
            ResolverStage::OwnLookup => Some(
                ApiRequest::FindPrUrl {
                    owner: self.author.clone(),
                    repo: self.repo.clone(),
                    branch: self.branch.clone(),
                    author_filter: None,
                },
            ),
            ResolverStage::ParentLookup => Some(
                ApiRequest::ParentRepo { owner: self.author.clone(), repo: self.repo.clone() },
            ),
            ResolverStage::ParentPrLookup { parent_owner, parent_repo } => Some(
                ApiRequest::FindPrUrl {
                    owner: parent_owner.clone(),
                    repo: parent_repo.clone(),
                    branch: self.branch.clone(),
                    author_filter: Some(self.author.clone()),
                },
            ),
            ResolverStage::Finished => None,
        }
    }

    /// Takes the answer to the pending request and steps the resolution.
    pub fn advance(&mut self, resp: &ApiResponse) -> (r: Option<PullRequestOutcome>)
        requires
            spec_answers(old(self)@, resp@),
        ensures
            final(self)@ == spec_advance(old(self)@, resp@).0,
            match r {
                Some(o) => spec_advance(old(self)@, resp@).1 == Some(o@),
                None => spec_advance(old(self)@, resp@).1 is None,
            },
    {
        let (next, out): (ResolverStage, Option<PullRequestOutcome>) = match (&self.stage, resp) {
            (ResolverStage::OwnLookup, ApiResponse::PrUrl { url }) => match url {
                Some(u) => (
                    ResolverStage::Finished,
                    Some(PullRequestOutcome::Existing { url: u.clone() }),
                ),
                None => (ResolverStage::ParentLookup, None),
            },
            (ResolverStage::ParentLookup, ApiResponse::Parent { parent }) => match parent {
                Some(p) => (
                    ResolverStage::ParentPrLookup {
                        parent_owner: p.0.clone(),
                        parent_repo: p.1.clone(),
                    },
                    None,
                ),
                None => (
                    ResolverStage::Finished,
                    Some(
                        PullRequestOutcome::New {
                            author: self.author.clone(),
                            repo: self.repo.clone(),
                            branch: self.branch.clone(),
                        },
                    ),
                ),
            },
            (
                ResolverStage::ParentPrLookup { parent_owner, parent_repo },
                ApiResponse::PrUrl { url },
            ) => match url {
                Some(u) => (
                    ResolverStage::Finished,
                    Some(PullRequestOutcome::Existing { url: u.clone() }),
                ),
                None => (
                    ResolverStage::Finished,
                    Some(
                        PullRequestOutcome::NewAtParent {
                            author: parent_owner.clone(),
                            repo: parent_repo.clone(),
                            fork_author: self.author.clone(),
                            branch: self.branch.clone(),
                        },
                    ),
                ),
            },
            _ => {
                proof {
                    assert(false);
                }
                (ResolverStage::Finished, None)
            },
        };
        self.stage = next;
        out
    }
}

/// Resolution is monotonic in lookup order: when the very first lookup —
/// the one without an author filter — already names a pull request, the
/// resolution is that existing pull request, the resolver is finished, and
/// no further request is issued: neither the parent lookup nor the
/// filtered lookup at the parent ever happens.
pub proof fn lemma_resolution_monotonic(m: ResolverModel, url: Seq<char>)
    requires
        m.stage is OwnLookup,
    ensures
        spec_advance(m, ResponseModel::PrUrl { url: Some(url) }).1 == Some(
            OutcomeModel::Existing { url },
        ),
        spec_advance(m, ResponseModel::PrUrl { url: Some(url) }).0.stage is Finished,
        spec_resolver_request(spec_advance(m, ResponseModel::PrUrl { url: Some(url) }).0) is None,
{
}

/// The token for requests against `endpoint`: the public API host uses the
/// public token, any other host needs the Enterprise token and fails
/// without it. The two are never interchanged.
pub fn select_token(endpoint: &str, env: &EnvConfig) -> (r: Result<Option<String>, Error>)
    ensures
        endpoint@ == "api.github.com"@ ==> (r matches Ok(t) && t == env.github_token),
        endpoint@ != "api.github.com"@ && env.ghe_token is Some ==> (r matches Ok(t) && t
            == env.ghe_token),
        endpoint@ != "api.github.com"@ && env.ghe_token is None ==> r == Err::<
            Option<String>,
            Error,
        >(Error::GheTokenRequired),
{
    if crate::strutil::str_eq(endpoint, "api.github.com") {
        match &env.github_token {
            Some(t) => Ok(Some(t.clone())),
            None => Ok(None),
        }
    } else {
        match &env.ghe_token {
            Some(t) => Ok(Some(t.clone())),
            None => Err(Error::GheTokenRequired),
        }
    }
}

/// Readies the search for the pull request of `branch` on `author`'s
/// `repo`: picks the token owed to `endpoint` and hands back the fresh
/// resolver with its first request. It fails exactly when the endpoint is
/// an Enterprise host and no Enterprise token is set. The caller performs
/// each request and feeds the answer to `advance`.
pub fn find_github_pr_url_for_branch(
    branch: &str,
    endpoint: &str,
    author: &str,
    repo: &str,
    env: &EnvConfig,
) -> (r: Result<(PrResolver, ApiRequest, Option<String>), Error>)
    ensures
        endpoint@ != "api.github.com"@ && env.ghe_token is None ==> r == Err::<
            (PrResolver, ApiRequest, Option<String>),
            Error,
        >(Error::GheTokenRequired),
        endpoint@ == "api.github.com"@ || env.ghe_token is Some ==> r is Ok,
        r matches Ok(started) ==> {
            &&& started.0@.author == author@
            &&& started.0@.repo == repo@
            &&& started.0@.branch == branch@
            &&& started.0@.stage is OwnLookup
            &&& Some(started.1@) == spec_resolver_request(started.0@)
            &&& (endpoint@ == "api.github.com"@ ==> started.2 == env.github_token)
            &&& (endpoint@ != "api.github.com"@ ==> started.2 == env.ghe_token)
        },
{
    let token = match select_token(endpoint, env) {
        Ok(t) => t,
        Err(e) => {
            return Err(e);
        },
    };
    let resolver = PrResolver::new(author, repo, branch);
    let request = resolver.current_request().unwrap();
    Ok((resolver, request, token))
}

/// The API endpoint that serves pull requests for a service: the public
/// host for GitHub, `<host>/api/v3` for Enterprise; the other services
/// have no pull-request page here.
pub fn pr_endpoint(kind: ServiceKind, host: &str) -> (r: Result<String, Error>)
    ensures
        match kind {
            ServiceKind::GitHub => r matches Ok(s) && s@ == "api.github.com"@,
            ServiceKind::GitHubEnterprise => r matches Ok(s) && s@ == host@ + "/api/v3"@,
            ServiceKind::GitLab | ServiceKind::GitLabSelfHosted => r matches Err(e)
                && e matches Error::PullReqNotSupported { service } && service@ == "GitLab"@,
            ServiceKind::Bitbucket => r matches Err(e) && e matches Error::PullReqNotSupported {
                service,
            } && service@ == "Bitbucket"@,
        },
{
    match kind {
        ServiceKind::GitHub => Ok(String::from_str("api.github.com")),
        ServiceKind::GitHubEnterprise => {
            let mut s = String::from_str(host);
            s.append("/api/v3");
            Ok(s)
        },
        ServiceKind::GitLab | ServiceKind::GitLabSelfHosted => Err(
            Error::PullReqNotSupported { service: String::from_str("GitLab") },
        ),
        ServiceKind::Bitbucket => Err(
            Error::PullReqNotSupported { service: String::from_str("Bitbucket") },
        ),
    }
}

/// What the pull-request lookup needs next.
#[derive(Debug)]
pub enum PrLookup {
    /// The branch is known: resolve with this resolver, first request and
    /// token.
    Resolve { resolver: PrResolver, request: ApiRequest, token: Option<String> },
    /// No branch was given: ask this git handle for the checked-out branch
    /// first, then ready the resolver for it.
    ResolveAtCurrentBranch { git: Git },
}

/// Decides how the pull-request page of `author`'s `repo` is found: with
/// the configured branch the resolver starts at once; without one the
/// checked-out branch must be read from the local repository, and without
/// a local repository the request fails.
pub fn find_url(endpoint: &str, author: &str, repo: &str, cfg: &Config) -> (r: Result<
    PrLookup,
    Error,
>)
    ensures
        match cfg.branch {
            Some(b) => {
                &&& (endpoint@ != "api.github.com"@ && cfg.env.ghe_token is None ==> r == Err::<
                    PrLookup,
                    Error,
                >(Error::GheTokenRequired))
                &&& (endpoint@ == "api.github.com"@ || cfg.env.ghe_token is Some ==> r is Ok)
                &&& (r matches Ok(l) ==> l matches PrLookup::Resolve { resolver, request, token }
                    && resolver@.author == author@ && resolver@.repo == repo@ && resolver@.branch
                    == b@ && resolver@.stage is OwnLookup && Some(request@)
                    == spec_resolver_request(resolver@))
            },
            None => match cfg.git_dir {
                Some(d) => r matches Ok(l) && l matches PrLookup::ResolveAtCurrentBranch { git }
                    && git.git_dir@ == d@ && git.command@ == cfg.env.git_command@,
                None => r matches Err(e) && e matches Error::NoLocalRepoFound { operation }
                    && operation@ == "opening a pull request without specifying branch"@,
            },
        },
{
    match &cfg.branch {
        Some(b) => {
            match find_github_pr_url_for_branch(b.as_str(), endpoint, author, repo, &cfg.env) {
                Ok(started) => Ok(
                    PrLookup::Resolve {
                        resolver: started.0,
                        request: started.1,
                        token: started.2,
                    },
                ),
                Err(e) => Err(e),
            }
        },
        None => match cfg.git() {
            Some(git) => Ok(PrLookup::ResolveAtCurrentBranch { git }),
            None => Err(
                Error::NoLocalRepoFound {
                    operation: String::from_str(
                        "opening a pull request without specifying branch",
                    ),
                },
            ),
        },
    }
}

} // verus!

