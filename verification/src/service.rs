//! The hosting-service side of the library: reading a repository URL into
//! its identity (host, owner, name), classifying which service owns that
//! host, and rendering a page intent into the exact URL of the page under
//! each service's quirks.

use crate::config::{Config, EnvConfig};
use crate::error::Error;
use crate::page::{diff_op_str, spec_diff_op, DiffOp, Line, Page};
use crate::strutil::{
    contains_seq, contains_sub, find_char, find_char_at, find_seq, find_sub,
    lemma_find_char_from, lemma_find_seq_from, matches_at, push_char, rfind_char, rfind_char_in,
    spec_decimal, spec_segments, split_segments, str_eq, u64_to_dec_string,
};
use vstd::prelude::*;
use vstd::string::StrSliceExecFns;
use vstd::string::StringExecFns;

verus! {

/// The closed set of hosting services a repository can live on.
#[derive(Debug, Clone, Copy, PartialEq, Eq)]
pub enum ServiceKind {
    GitHub,
    GitHubEnterprise,
    GitLab,
    GitLabSelfHosted,
    Bitbucket,
}

/// A repository's identity: where it lives and what it is called.
#[derive(Debug, Clone, PartialEq, Eq)]
pub struct RepoIdentity {
    pub host: String,
    pub owner: String,
    pub name: String,
}

/// The ASCII lowercase of one character.
pub open spec fn spec_lower_char(c: char) -> char {
    if c == 'A' {
        'a'
    } else if c == 'B' {
        'b'
    } else if c == 'C' {
        'c'
    } else if c == 'D' {
        'd'
    } else if c == 'E' {
        'e'
    } else if c == 'F' {
        'f'
    } else if c == 'G' {
        'g'
    } else if c == 'H' {
        'h'
    } else if c == 'I' {
        'i'
    } else if c == 'J' {
        'j'
    } else if c == 'K' {
        'k'
    } else if c == 'L' {
        'l'
    } else if c == 'M' {
        'm'
    } else if c == 'N' {
        'n'
    } else if c == 'O' {
        'o'
    } else if c == 'P' {
        'p'
    } else if c == 'Q' {
        'q'
    } else if c == 'R' {
        'r'
    } else if c == 'S' {
        's'
    } else if c == 'T' {
        't'
    } else if c == 'U' {
        'u'
    } else if c == 'V' {
        'v'
    } else if c == 'W' {
        'w'
    } else if c == 'X' {
        'x'
    } else if c == 'Y' {
        'y'
    } else if c == 'Z' {
        'z'
    } else {
        c
    }
}

/// The ASCII lowercase of a string.
pub open spec fn spec_lower(s: Seq<char>) -> Seq<char> {
    s.map_values(|c: char| spec_lower_char(c))
}

/// The ASCII lowercase of one character.
fn lower_char(c: char) -> (r: char)
    ensures
        r == spec_lower_char(c),
{
    match c {
        'A' => 'a',
        'B' => 'b',
        'C' => 'c',
        'D' => 'd',
        'E' => 'e',
        'F' => 'f',
        'G' => 'g',
        'H' => 'h',
        'I' => 'i',
        'J' => 'j',
        'K' => 'k',
        'L' => 'l',
        'M' => 'm',
        'N' => 'n',
        'O' => 'o',
        'P' => 'p',
        'Q' => 'q',
        'R' => 'r',
        'S' => 's',
        'T' => 't',
        'U' => 'u',
        'V' => 'v',
        'W' => 'w',
        'X' => 'x',
        'Y' => 'y',
        'Z' => 'z',
        _ => c,
    }
}

/// The ASCII lowercase of a string.
fn to_lower(s: &str) -> (r: String)
    ensures
        r@ == spec_lower(s@),
{
    let m = s.unicode_len();
    let mut r = String::new();
    let mut i: usize = 0;
    while i < m
        invariant
            i <= m,
            m == s@.len(),
            r@ == spec_lower(s@).take(i as int),
        decreases m - i,
    {
        let c = s.get_char(i);
        push_char(&mut r, lower_char(c));
        proof {
            assert(r@ =~= spec_lower(s@).take(i + 1));
        }
        i += 1;
    }
    proof {
        assert(spec_lower(s@).take(m as int) =~= spec_lower(s@));
    }
    r
}

/// The host inside an authority: what stands after the userinfo and before
/// the port.
pub open spec fn spec_host_of_authority(auth: Seq<char>) -> Seq<char> {
    let h = match find_char(auth, '@') {
        Some(k) => auth.skip(k + 1),
        None => auth,
    };
    match find_char(h, ':') {
        Some(p) => h.take(p),
        None => h,
    }
}

/// A repository name with a trailing `.git` loses it.
pub open spec fn spec_strip_git_suffix(name: Seq<char>) -> Seq<char> {
    if ".git"@.is_suffix_of(name) {
        name.take(name.len() - 4)
    } else {
        name
    }
}

/// The outcome of reading a repository URL.
pub enum SpecRepoParse {
    Parts { host: Seq<char>, owner: Seq<char>, name: Seq<char> },
    NoScheme,
    NoUser { path: Seq<char> },
    NoRepo { path: Seq<char> },
}

/// How a repository URL is read: the authority stands between `://` and the
/// next slash, the host inside it; the owner and the name are the last two
/// non-empty path segments, the name stripped of a trailing `.git`.
pub open spec fn spec_parse_repo(url: Seq<char>) -> SpecRepoParse {
    match find_seq(url, "://"@) {
        None => SpecRepoParse::NoScheme,
        Some(i) => {
            let after = url.skip(i + 3);
            let auth = match find_char(after, '/') {
                Some(j) => after.take(j),
                None => after,
            };
            let path = match find_char(after, '/') {
                Some(j) => after.skip(j),
                None => Seq::empty(),
            };
            let segs = spec_segments(path);
            if segs.len() == 0 {
                SpecRepoParse::NoUser { path }
            } else if segs.len() == 1 {
                SpecRepoParse::NoRepo { path }
            } else {
                SpecRepoParse::Parts {
                    host: spec_host_of_authority(auth),
                    owner: segs[segs.len() - 2],
                    name: spec_strip_git_suffix(segs.last()),
                }
            }
        },
    }
}

/// A well-formed `https://<host>/<owner>/<name>.git` URL parses back into
/// exactly that host, owner and name: the grammar and the rendering of
/// identities are inverse on such URLs.
#[verifier::rlimit(100)]
pub proof fn lemma_parse_https_url(host: Seq<char>, owner: Seq<char>, name: Seq<char>)
    requires
        host.len() > 0,
        owner.len() > 0,
        name.len() > 0,
        forall|i: int|
            0 <= i < host.len() ==> host[i] != '/' && host[i] != ':' && host[i] != '@',
        forall|i: int| 0 <= i < owner.len() ==> owner[i] != '/',
        forall|i: int| 0 <= i < name.len() ==> name[i] != '/',
    ensures
        spec_parse_repo("https://"@ + host + "/"@ + owner + "/"@ + name + ".git"@)
            == (SpecRepoParse::Parts { host, owner, name }),
{
    reveal_strlit("https://");
    reveal_strlit("://");
    reveal_strlit("/");
    reveal_strlit(".git");
    let u = "https://"@ + host + "/"@ + owner + "/"@ + name + ".git"@;
    let n = host.len() as int;
    assert(matches_at(u, "://"@, 5)) by {
        assert(u.subrange(5, 8) =~= "://"@);
    }
    assert forall|j: int| 0 <= j < 5 implies !matches_at(u, "://"@, j) by {
        if matches_at(u, "://"@, j) {
            assert(u.subrange(j, j + 3)[0] == u[j]);
        }
    }
    crate::strutil::lemma_find_seq_from(u, "://"@, 0);
    assert(find_seq(u, "://"@) == Some(5int));
    let after = u.skip(8);
    assert(after =~= host + "/"@ + owner + "/"@ + name + ".git"@);
    assert(after[n] == '/');
    assert(forall|j: int| 0 <= j < n ==> after[j] == host[j]);
    crate::strutil::lemma_find_char_from(after, '/', 0);
    assert(find_char(after, '/') == Some(n));
    let auth = after.take(n);
    assert(auth =~= host);
    let path = after.skip(n);
    let tailseg = name + ".git"@;
    assert(forall|i: int| 0 <= i < tailseg.len() ==> tailseg[i] != '/');
    crate::strutil::lemma_segments_no_slash(tailseg);
    crate::strutil::lemma_segments_cons(owner, tailseg);
    crate::strutil::lemma_segments_leading_slash(owner + "/"@ + tailseg);
    assert(path =~= "/"@ + (owner + "/"@ + tailseg));
    assert(spec_segments(path) == seq![owner] + spec_segments(tailseg));
    let segs = spec_segments(path);
    assert(segs.len() == 2);
    assert(segs[0] == owner);
    assert(segs[1] == tailseg);
    assert(".git"@.is_suffix_of(tailseg)) by {
        assert(tailseg.subrange(tailseg.len() - 4, tailseg.len() as int) =~= ".git"@);
    }
    assert(spec_strip_git_suffix(tailseg) =~= name);
    crate::strutil::lemma_find_char_from(auth, '@', 0);
    assert(find_char(auth, '@') is None);
    crate::strutil::lemma_find_char_from(auth, ':', 0);
    assert(find_char(auth, ':') is None);
    assert(spec_host_of_authority(auth) == auth);
}

/// Without an Enterprise-host override, `github.com` classifies as the
/// public GitHub service.
pub proof fn lemma_classify_public_github(env: EnvConfig)
    requires
        env.ghe_url_host is None,
    ensures
        spec_classify("github.com"@, env) == Some(ServiceKind::GitHub),
{
    reveal_strlit("github.com");
    assert(spec_lower("github.com"@) =~= "github.com"@);
}

/// Without an Enterprise-host override, `gitlab.com` classifies as the
/// public GitLab service.
pub proof fn lemma_classify_public_gitlab(env: EnvConfig)
    requires
        env.ghe_url_host is None,
    ensures
        spec_classify("gitlab.com"@, env) == Some(ServiceKind::GitLab),
{
    reveal_strlit("gitlab.com");
    reveal_strlit("github.com");
    assert(spec_lower("gitlab.com"@)[3] == spec_lower_char('l'));
    assert(spec_lower("gitlab.com"@) != "github.com"@);
}

/// Without an Enterprise-host override, `bitbucket.org` classifies as
/// Bitbucket.
pub proof fn lemma_classify_public_bitbucket(env: EnvConfig)
    requires
        env.ghe_url_host is None,
    ensures
        spec_classify("bitbucket.org"@, env) == Some(ServiceKind::Bitbucket),
{
    reveal_strlit("bitbucket.org");
    reveal_strlit("github.com");
    reveal_strlit("gitlab.com");
    assert(spec_lower("bitbucket.org"@).len() == 13);
}

/// A parsed identity keeps the invariant that its owner is a non-empty
/// path segment. The name is the last segment stripped of a trailing
/// `.git`, so it too is non-empty except for a path whose last segment is
/// the bare `.git`.
pub proof fn lemma_identity_owner_non_empty(url: Seq<char>)
    ensures
        spec_parse_repo(url) matches SpecRepoParse::Parts { host, owner, name } ==> owner.len()
            > 0,
{
    crate::strutil::lemma_find_seq_from(url, "://"@, 0);
    match find_seq(url, "://"@) {
        None => {},
        Some(i) => {
            let after = url.skip(i + 3);
            crate::strutil::lemma_find_char_from(after, '/', 0);
            let path = match find_char(after, '/') {
                Some(j) => after.skip(j),
                None => Seq::<char>::empty(),
            };
            crate::strutil::lemma_segments_all_non_empty(path);
        },
    }
}

/// The complaint of a URL without a scheme.
pub open spec fn spec_missing_scheme_msg() -> Seq<char> {
    "the scheme separator '://' is missing"@
}

/// The host part of an authority.
fn host_of_authority(auth: &str) -> (r: String)
    ensures
        r@ == spec_host_of_authority(auth@),
{
    let n = auth.unicode_len();
    proof {
        lemma_find_char_from(auth@, '@', 0);
    }
    let h = match find_char_at(auth, '@', 0) {
        Some(k) => auth.substring_char(k + 1, n),
        None => auth,
    };
    proof {
        assert(h@ == match find_char(auth@, '@') {
            Some(k) => auth@.skip(k + 1),
            None => auth@,
        });
        lemma_find_char_from(h@, ':', 0);
    }
    let hn = h.unicode_len();
    match find_char_at(h, ':', 0) {
        Some(p) => String::from_str(h.substring_char(0, p)),
        None => String::from_str(h),
    }
}

/// Reads a repository URL into its identity.
pub fn parse_repo_identity(url: &str) -> (r: Result<RepoIdentity, Error>)
    ensures
        match spec_parse_repo(url@) {
            SpecRepoParse::Parts { host, owner, name } => r matches Ok(id) && id.host@ == host
                && id.owner@ == owner && id.name@ == name,
            SpecRepoParse::NoScheme => r matches Err(e) && e matches Error::BrokenUrl {
                url: u,
                msg,
            } && u@ == url@ && msg@ == spec_missing_scheme_msg(),
            SpecRepoParse::NoUser { path } => r matches Err(e) && e matches Error::NoUserInPath {
                path: p,
            } && p@ == path,
            SpecRepoParse::NoRepo { path } => r matches Err(e) && e matches Error::NoRepoInPath {
                path: p,
            } && p@ == path,
        },
{
    let m = url.unicode_len();
    proof {
        lemma_find_seq_from(url@, "://"@, 0);
        reveal_strlit("://");
    }
    match find_sub(url, "://") {
        None => Err(
            Error::BrokenUrl {
                url: String::from_str(url),
                msg: String::from_str("the scheme separator '://' is missing"),
            },
        ),
        Some(i) => {
            let after = url.substring_char(i + 3, m);
            proof {
                assert(after@ =~= url@.skip(i + 3));
                lemma_find_char_from(after@, '/', 0);
                reveal_strlit("");
            }
            let an = after.unicode_len();
            let (auth, path) = match find_char_at(after, '/', 0) {
                Some(j) => (after.substring_char(0, j), after.substring_char(j, an)),
                None => (after, ""),
            };
            proof {
                assert(auth@ == match find_char(after@, '/') {
                    Some(j) => after@.take(j),
                    None => after@,
                });
                assert(path@ =~= match find_char(after@, '/') {
                    Some(j) => after@.skip(j),
                    None => Seq::<char>::empty(),
                });
            }
            let segs = split_segments(path);
            let count = segs.len();
            if count == 0 {
                Err(Error::NoUserInPath { path: String::from_str(path) })
            } else if count == 1 {
                Err(Error::NoRepoInPath { path: String::from_str(path) })
            } else {
                let owner = segs[count - 2].clone();
                let last = &segs[count - 1];
                let ln = last.as_str().unicode_len();
                let name = if crate::strutil::ends_with(last.as_str(), ".git") {
                    proof {
                        reveal_strlit(".git");
                    }
                    String::from_str(last.as_str().substring_char(0, ln - 4))
                } else {
                    last.clone()
                };
                proof {
                    assert(owner@ == spec_segments(path@)[count - 2]);
                    assert(last@ == spec_segments(path@).last());
                }
                let host = host_of_authority(auth);
                Ok(RepoIdentity { host, owner, name })
            }
        },
    }
}

/// Which service owns a host. The configured Enterprise host wins first;
/// then the public hosts; then, as a heuristic for self-hosted instances,
/// any host whose name holds `github` or `gitlab`.
pub open spec fn spec_classify(host: Seq<char>, env: EnvConfig) -> Option<ServiceKind> {
    if env.ghe_url_host matches Some(h) && h@ == host {
        Some(ServiceKind::GitHubEnterprise)
    } else if spec_lower(host) == "github.com"@ {
        Some(ServiceKind::GitHub)
    } else if host == "gitlab.com"@ {
        Some(ServiceKind::GitLab)
    } else if host == "bitbucket.org"@ {
        Some(ServiceKind::Bitbucket)
    } else if contains_seq(host, "github"@) {
        Some(ServiceKind::GitHubEnterprise)
    } else if contains_seq(host, "gitlab"@) {
        Some(ServiceKind::GitLabSelfHosted)
    } else {
        None
    }
}

/// Classifies a host, `None` when no service owns it.
pub fn classify_service(host: &str, env: &EnvConfig) -> (r: Option<ServiceKind>)
    ensures
        r == spec_classify(host@, *env),
{
    let ghe_matches = match &env.ghe_url_host {
        Some(h) => str_eq(h.as_str(), host),
        None => false,
    };
    if ghe_matches {
        return Some(ServiceKind::GitHubEnterprise);
    }
    let low = to_lower(host);
    if str_eq(low.as_str(), "github.com") {
        return Some(ServiceKind::GitHub);
    }
    if str_eq(host, "gitlab.com") {
        return Some(ServiceKind::GitLab);
    }
    if str_eq(host, "bitbucket.org") {
        return Some(ServiceKind::Bitbucket);
    }
    if contains_sub(host, "github") {
        return Some(ServiceKind::GitHubEnterprise);
    }
    if contains_sub(host, "gitlab") {
        return Some(ServiceKind::GitLabSelfHosted);
    }
    None
}

/// The path of a branch page: `/tree/` everywhere but Bitbucket, which uses
/// `/branch/`.
pub open spec fn spec_branch_path(kind: ServiceKind, b: Seq<char>) -> Seq<char> {
    match kind {
        ServiceKind::Bitbucket => "/branch/"@ + b,
        _ => "/tree/"@ + b,
    }
}

/// The line anchor GitHub appends to a file URL.
pub open spec fn spec_line_anchor_github(line: Option<Line>) -> Seq<char> {
    match line {
        None => Seq::empty(),
        Some(Line::At(n)) => "#L"@ + spec_decimal(n as int),
        Some(Line::Range(a, b)) => "#L"@ + spec_decimal(a as int) + "-L"@ + spec_decimal(b as int),
    }
}

/// The line anchor GitLab appends to a file URL.
pub open spec fn spec_line_anchor_gitlab(line: Option<Line>) -> Seq<char> {
    match line {
        None => Seq::empty(),
        Some(Line::At(n)) => "#L"@ + spec_decimal(n as int),
        Some(Line::Range(a, b)) => "#L"@ + spec_decimal(a as int) + "-"@ + spec_decimal(b as int),
    }
}

/// The last `/`-separated component of a path.
pub open spec fn spec_basename(p: Seq<char>) -> Seq<char> {
    match rfind_char(p, '/') {
        Some(i) => p.skip(i + 1),
        None => p,
    }
}

/// The line anchor Bitbucket appends to a file URL: the file's basename and
/// the line, not an `L` marker.
pub open spec fn spec_line_anchor_bitbucket(p: Seq<char>, line: Option<Line>) -> Seq<char> {
    match line {
        None => Seq::empty(),
        Some(Line::At(n)) => "#"@ + spec_basename(p) + "-"@ + spec_decimal(n as int),
        Some(Line::Range(a, b)) => "#"@ + spec_basename(p) + "-"@ + spec_decimal(a as int) + ":"@
            + spec_decimal(b as int),
    }
}

/// The outcome of rendering a page intent for one service.
pub enum SpecRender {
    Path(Seq<char>),
    GitLabTwoDots,
    BitbucketDiff,
}

/// The path each page renders to, after the `/owner/name` stem. A branch
/// given beside an `Open` intent renders the branch page. GitLab refuses
/// two-dot diffs, Bitbucket every diff.
pub open spec fn spec_page_path(kind: ServiceKind, page: Page, branch: Option<String>) -> SpecRender {
    match page {
        Page::Open => match branch {
            None => SpecRender::Path(Seq::empty()),
            Some(b) => SpecRender::Path(spec_branch_path(kind, b@)),
        },
        Page::Branch { name } => SpecRender::Path(spec_branch_path(kind, name@)),
        Page::Commit { hash } => match kind {
            ServiceKind::Bitbucket => SpecRender::Path("/commits/"@ + hash@),
            _ => SpecRender::Path("/commit/"@ + hash@),
        },
        Page::Diff { lhs, rhs, op } => match kind {
            ServiceKind::Bitbucket => SpecRender::BitbucketDiff,
            ServiceKind::GitLab | ServiceKind::GitLabSelfHosted => match op {
                DiffOp::TwoDots => SpecRender::GitLabTwoDots,
                DiffOp::ThreeDots => SpecRender::Path(
                    "/compare/"@ + lhs@ + spec_diff_op(op) + rhs@,
                ),
            },
            _ => SpecRender::Path("/compare/"@ + lhs@ + spec_diff_op(op) + rhs@),
        },
        Page::FileOrDir { relative_path, hash, line } => match kind {
            ServiceKind::Bitbucket => SpecRender::Path(
                "/src/"@ + hash@ + "/"@ + relative_path@ + spec_line_anchor_bitbucket(
                    relative_path@,
                    line,
                ),
            ),
            ServiceKind::GitLab | ServiceKind::GitLabSelfHosted => SpecRender::Path(
                "/blob/"@ + hash@ + "/"@ + relative_path@ + spec_line_anchor_gitlab(line),
            ),
            _ => SpecRender::Path(
                "/blob/"@ + hash@ + "/"@ + relative_path@ + spec_line_anchor_github(line),
            ),
        },
    }
}

/// The host as it stands inside the final URL: Enterprise and self-hosted
/// GitLab hosts carry the configured SSH-derived port; a public default
/// host never does, not even when the configured Enterprise host names one
/// (the same case-insensitive reading of `github.com` as in the
/// classifier, the exact `gitlab.com`).
pub open spec fn spec_host_with_port(kind: ServiceKind, host: Seq<char>, env: EnvConfig) -> Seq<
    char,
> {
    match kind {
        ServiceKind::GitHubEnterprise => match env.ghe_ssh_port {
            Some(p) => if spec_lower(host) == "github.com"@ {
                host
            } else {
                host + ":"@ + spec_decimal(p as int)
            },
            None => host,
        },
        ServiceKind::GitLabSelfHosted => match env.gitlab_ssh_port {
            Some(p) => if host == "gitlab.com"@ {
                host
            } else {
                host + ":"@ + spec_decimal(p as int)
            },
            None => host,
        },
        _ => host,
    }
}

/// The outcome of building a page URL.
pub enum SpecBuild {
    Url(Seq<char>),
    NoScheme,
    NoUser(Seq<char>),
    NoRepo(Seq<char>),
    UnknownHost,
    GitLabTwoDots,
    BitbucketDiff,
}

/// How a page URL is built: the repository URL is read into host, owner and
/// name; the host is classified; the page path is rendered; and the result
/// is `https://` before the ported host, the owner, the name and the path.
pub open spec fn spec_build_page_url(
    repo: Seq<char>,
    page: Page,
    branch: Option<String>,
    env: EnvConfig,
) -> SpecBuild {
    match spec_parse_repo(repo) {
        SpecRepoParse::NoScheme => SpecBuild::NoScheme,
        SpecRepoParse::NoUser { path } => SpecBuild::NoUser(path),
        SpecRepoParse::NoRepo { path } => SpecBuild::NoRepo(path),
        SpecRepoParse::Parts { host, owner, name } => match spec_classify(host, env) {
            None => SpecBuild::UnknownHost,
            Some(kind) => match spec_page_path(kind, page, branch) {
                SpecRender::GitLabTwoDots => SpecBuild::GitLabTwoDots,
                SpecRender::BitbucketDiff => SpecBuild::BitbucketDiff,
                SpecRender::Path(p) => SpecBuild::Url(
                    "https://"@ + spec_host_with_port(kind, host, env) + "/"@ + owner + "/"@ + name
                        + p,
                ),
            },
        },
    }
}

/// The path of a branch page.
fn branch_path(kind: ServiceKind, b: &str) -> (r: String)
    ensures
        r@ == spec_branch_path(kind, b@),
{
    let mut r = match kind {
        ServiceKind::Bitbucket => String::from_str("/branch/"),
        _ => String::from_str("/tree/"),
    };
    r.append(b);
    r
}

/// The basename of a path.
fn basename(p: &str) -> (r: &str)
    ensures
        r@ == spec_basename(p@),
{
    let m = p.unicode_len();
    proof {
        crate::strutil::lemma_rfind_char(p@, '/');
    }
    match rfind_char_in(p, '/') {
        Some(i) => p.substring_char(i + 1, m),
        None => p,
    }
}

/// The GitHub line anchor.
fn line_anchor_github(line: &Option<Line>) -> (r: String)
    ensures
        r@ == spec_line_anchor_github(*line),
{
    match line {
        None => String::new(),
        Some(Line::At(n)) => {
            let mut r = String::from_str("#L");
            r.append(u64_to_dec_string(*n as u64).as_str());
            r
        },
        Some(Line::Range(a, b)) => {
            let mut r = String::from_str("#L");
            r.append(u64_to_dec_string(*a as u64).as_str());
            r.append("-L");
            r.append(u64_to_dec_string(*b as u64).as_str());
            r
        },
    }
}

/// The GitLab line anchor.
fn line_anchor_gitlab(line: &Option<Line>) -> (r: String)
    ensures
        r@ == spec_line_anchor_gitlab(*line),
{
    match line {
        None => String::new(),
        Some(Line::At(n)) => {
            let mut r = String::from_str("#L");
            r.append(u64_to_dec_string(*n as u64).as_str());
            r
        },
        Some(Line::Range(a, b)) => {
            let mut r = String::from_str("#L");
            r.append(u64_to_dec_string(*a as u64).as_str());
            r.append("-");
            r.append(u64_to_dec_string(*b as u64).as_str());
            r
        },
    }
}

/// The Bitbucket line anchor.
fn line_anchor_bitbucket(p: &str, line: &Option<Line>) -> (r: String)
    ensures
        r@ == spec_line_anchor_bitbucket(p@, *line),
{
    match line {
        None => String::new(),
        Some(Line::At(n)) => {
            let mut r = String::from_str("#");
            r.append(basename(p));
            r.append("-");
            r.append(u64_to_dec_string(*n as u64).as_str());
            r
        },
        Some(Line::Range(a, b)) => {
            let mut r = String::from_str("#");
            r.append(basename(p));
            r.append("-");
            r.append(u64_to_dec_string(*a as u64).as_str());
            r.append(":");
            r.append(u64_to_dec_string(*b as u64).as_str());
            r
        },
    }
}

/// Renders the page path after the `/owner/name` stem.
fn page_path(kind: ServiceKind, page: &Page, branch: &Option<String>) -> (r: Result<String, Error>)
    ensures
        match spec_page_path(kind, *page, *branch) {
            SpecRender::Path(p) => r matches Ok(s) && s@ == p,
            SpecRender::GitLabTwoDots => r == Err::<String, Error>(Error::GitLabDiffNotSupported),
            SpecRender::BitbucketDiff => r == Err::<String, Error>(
                Error::BitbucketDiffNotSupported,
            ),
        },
{
    match page {
        Page::Open => match branch {
            None => Ok(String::new()),
            Some(b) => Ok(branch_path(kind, b.as_str())),
        },
        Page::Branch { name } => Ok(branch_path(kind, name.as_str())),
        Page::Commit { hash } => {
            let mut r = match kind {
                ServiceKind::Bitbucket => String::from_str("/commits/"),
                _ => String::from_str("/commit/"),
            };
            r.append(hash.as_str());
            Ok(r)
        },
        Page::Diff { lhs, rhs, op } => match kind {
            ServiceKind::Bitbucket => Err(Error::BitbucketDiffNotSupported),
            ServiceKind::GitLab | ServiceKind::GitLabSelfHosted => match op {
                DiffOp::TwoDots => Err(Error::GitLabDiffNotSupported),
                DiffOp::ThreeDots => {
                    let mut r = String::from_str("/compare/");
                    r.append(lhs.as_str());
                    r.append(diff_op_str(*op));
                    r.append(rhs.as_str());
                    Ok(r)
                },
            },
            _ => {
                let mut r = String::from_str("/compare/");
                r.append(lhs.as_str());
                r.append(diff_op_str(*op));
                r.append(rhs.as_str());
                Ok(r)
            },
        },
        Page::FileOrDir { relative_path, hash, line } => {
            let (stem, anchor) = match kind {
                ServiceKind::Bitbucket => (
                    String::from_str("/src/"),
                    line_anchor_bitbucket(relative_path.as_str(), line),
                ),
                ServiceKind::GitLab | ServiceKind::GitLabSelfHosted => (
                    String::from_str("/blob/"),
                    line_anchor_gitlab(line),
                ),
                _ => (String::from_str("/blob/"), line_anchor_github(line)),
            };
            let mut r = stem;
            r.append(hash.as_str());
            r.append("/");
            r.append(relative_path.as_str());
            r.append(anchor.as_str());
            Ok(r)
        },
    }
}

/// The host as it stands inside the final URL.
fn host_with_port(kind: ServiceKind, host: &str, env: &EnvConfig) -> (r: String)
    ensures
        r@ == spec_host_with_port(kind, host@, *env),
{
    let port = match kind {
        ServiceKind::GitHubEnterprise => {
            if str_eq(to_lower(host).as_str(), "github.com") {
                None
            } else {
                env.ghe_ssh_port
            }
        },
        ServiceKind::GitLabSelfHosted => {
            if str_eq(host, "gitlab.com") {
                None
            } else {
                env.gitlab_ssh_port
            }
        },
        _ => None,
    };
    match port {
        Some(p) => {
            let mut r = String::from_str(host);
            r.append(":");
            r.append(u64_to_dec_string(p as u64).as_str());
            r
        },
        None => String::from_str(host),
    }
}

/// Reads a repository URL, classifies its host and renders the page's URL:
/// `https://` before the ported host, the owner, the name and the page
/// path.
pub fn parse_and_build_page_url(
    repo: &str,
    page: &Page,
    branch: &Option<String>,
    env: &EnvConfig,
) -> (r: Result<String, Error>)
    ensures
        match spec_build_page_url(repo@, *page, *branch, *env) {
            SpecBuild::Url(u) => r matches Ok(s) && s@ == u,
            SpecBuild::NoScheme => r matches Err(e) && e matches Error::BrokenUrl {
                url,
                msg,
            } && url@ == repo@ && msg@ == spec_missing_scheme_msg(),
            SpecBuild::NoUser(p) => r matches Err(e) && e matches Error::NoUserInPath { path }
                && path@ == p,
            SpecBuild::NoRepo(p) => r matches Err(e) && e matches Error::NoRepoInPath { path }
                && path@ == p,
            SpecBuild::UnknownHost => r matches Err(e) && e matches Error::UnknownHostingService {
                url,
            } && url@ == repo@,
            SpecBuild::GitLabTwoDots => r == Err::<String, Error>(Error::GitLabDiffNotSupported),
            SpecBuild::BitbucketDiff => r == Err::<String, Error>(
                Error::BitbucketDiffNotSupported,
            ),
        },
{
    let id = match parse_repo_identity(repo) {
        Ok(id) => id,
        Err(e) => {
            return Err(e);
        },
    };
    let kind = match classify_service(id.host.as_str(), env) {
        Some(k) => k,
        None => {
            return Err(Error::UnknownHostingService { url: String::from_str(repo) });
        },
    };
    let path = match page_path(kind, page, branch) {
        Ok(p) => p,
        Err(e) => {
            return Err(e);
        },
    };
    let mut r = String::from_str("https://");
    r.append(host_with_port(kind, id.host.as_str(), env).as_str());
    r.append("/");
    r.append(id.owner.as_str());
    r.append("/");
    r.append(id.name.as_str());
    r.append(path.as_str());
    Ok(r)
}

/// GitLab diff rendering is a function of its inputs alone — rendering the
/// same three-dot diff twice gives the same path both times — and, whatever
/// the two commits are, a three-dot diff always renders while a two-dot
/// diff always fails.
pub proof fn lemma_gitlab_diff(lhs: String, rhs: String, branch: Option<String>)
    ensures
        spec_page_path(
            ServiceKind::GitLab,
            Page::Diff { lhs, rhs, op: DiffOp::ThreeDots },
            branch,
        ) == SpecRender::Path("/compare/"@ + lhs@ + "..."@ + rhs@),
        spec_page_path(
            ServiceKind::GitLabSelfHosted,
            Page::Diff { lhs, rhs, op: DiffOp::ThreeDots },
            branch,
        ) == SpecRender::Path("/compare/"@ + lhs@ + "..."@ + rhs@),
        spec_page_path(
            ServiceKind::GitLab,
            Page::Diff { lhs, rhs, op: DiffOp::TwoDots },
            branch,
        ) is GitLabTwoDots,
        spec_page_path(
            ServiceKind::GitLabSelfHosted,
            Page::Diff { lhs, rhs, op: DiffOp::TwoDots },
            branch,
        ) is GitLabTwoDots,
{
}

/// For every repository `https://gitlab.com/<owner>/<name>.git` and any
/// two commits, the three-dot diff page is exactly
/// `https://gitlab.com/<owner>/<name>/compare/<lhs>...<rhs>` — and, the
/// building being a function of its inputs, a second build of the same
/// diff gives the identical string — while the two-dot diff always fails,
/// whatever the commits. The one hypothesis is that no Enterprise-host
/// override is configured: an override naming `gitlab.com` itself would
/// reclassify the host.
#[verifier::rlimit(100)]
pub proof fn lemma_gitlab_diff_page_url(
    owner: Seq<char>,
    name: Seq<char>,
    lhs: String,
    rhs: String,
    env: EnvConfig,
)
    requires
        owner.len() > 0,
        name.len() > 0,
        forall|i: int| 0 <= i < owner.len() ==> owner[i] != '/',
        forall|i: int| 0 <= i < name.len() ==> name[i] != '/',
        env.ghe_url_host is None,
    ensures
        ({
            let repo = "https://gitlab.com/"@ + owner + "/"@ + name + ".git"@;
            &&& spec_build_page_url(
                repo,
                Page::Diff { lhs, rhs, op: DiffOp::ThreeDots },
                None,
                env,
            ) == SpecBuild::Url(
                "https://gitlab.com/"@ + owner + "/"@ + name + "/compare/"@ + lhs@ + "..."@
                    + rhs@,
            )
            &&& spec_build_page_url(
                repo,
                Page::Diff { lhs, rhs, op: DiffOp::TwoDots },
                None,
                env,
            ) == SpecBuild::GitLabTwoDots
        }),
{
    reveal_strlit("https://gitlab.com/");
    reveal_strlit("https://");
    reveal_strlit("gitlab.com");
    reveal_strlit("/");
    reveal_strlit("/compare/");
    reveal_strlit("...");
    let repo = "https://gitlab.com/"@ + owner + "/"@ + name + ".git"@;
    assert(forall|i: int|
        0 <= i < "gitlab.com"@.len() ==> "gitlab.com"@[i] != '/' && "gitlab.com"@[i] != ':'
            && "gitlab.com"@[i] != '@');
    lemma_parse_https_url("gitlab.com"@, owner, name);
    assert(repo =~= "https://"@ + "gitlab.com"@ + "/"@ + owner + "/"@ + name + ".git"@);
    lemma_classify_public_gitlab(env);
    assert("https://"@ + "gitlab.com"@ + "/"@ + owner + "/"@ + name + ("/compare/"@ + lhs@
        + "..."@ + rhs@) =~= "https://gitlab.com/"@ + owner + "/"@ + name + "/compare/"@ + lhs@
        + "..."@ + rhs@);
}

/// For every repository `https://bitbucket.org/<owner>/<name>.git`, the
/// diff page fails under both operators and for every pair of commits,
/// and the file page with a line anchors with the file's basename and the
/// line number, never with `#L`. The one hypothesis is that no
/// Enterprise-host override is configured: an override naming
/// `bitbucket.org` itself would reclassify the host.
#[verifier::rlimit(100)]
pub proof fn lemma_bitbucket_page_urls(
    owner: Seq<char>,
    name: Seq<char>,
    lhs: String,
    rhs: String,
    op: DiffOp,
    relative_path: String,
    hash: String,
    n: usize,
    env: EnvConfig,
)
    requires
        owner.len() > 0,
        name.len() > 0,
        forall|i: int| 0 <= i < owner.len() ==> owner[i] != '/',
        forall|i: int| 0 <= i < name.len() ==> name[i] != '/',
        env.ghe_url_host is None,
    ensures
        ({
            let repo = "https://bitbucket.org/"@ + owner + "/"@ + name + ".git"@;
            &&& spec_build_page_url(repo, Page::Diff { lhs, rhs, op }, None, env)
                == SpecBuild::BitbucketDiff
            &&& spec_build_page_url(
                repo,
                Page::FileOrDir { relative_path, hash, line: Some(Line::At(n)) },
                None,
                env,
            ) == SpecBuild::Url(
                "https://bitbucket.org/"@ + owner + "/"@ + name + "/src/"@ + hash@ + "/"@
                    + relative_path@ + "#"@ + spec_basename(relative_path@) + "-"@
                    + spec_decimal(n as int),
            )
        }),
{
    reveal_strlit("https://bitbucket.org/");
    reveal_strlit("https://");
    reveal_strlit("bitbucket.org");
    reveal_strlit("/");
    reveal_strlit("/src/");
    reveal_strlit("#");
    reveal_strlit("-");
    let repo = "https://bitbucket.org/"@ + owner + "/"@ + name + ".git"@;
    assert(forall|i: int|
        0 <= i < "bitbucket.org"@.len() ==> "bitbucket.org"@[i] != '/' && "bitbucket.org"@[i]
            != ':' && "bitbucket.org"@[i] != '@');
    lemma_parse_https_url("bitbucket.org"@, owner, name);
    assert(repo =~= "https://"@ + "bitbucket.org"@ + "/"@ + owner + "/"@ + name + ".git"@);
    lemma_classify_public_bitbucket(env);
    assert("https://"@ + "bitbucket.org"@ + "/"@ + owner + "/"@ + name + ("/src/"@ + hash@ + "/"@
        + relative_path@ + ("#"@ + spec_basename(relative_path@) + "-"@ + spec_decimal(
        n as int,
    ))) =~= "https://bitbucket.org/"@ + owner + "/"@ + name + "/src/"@ + hash@ + "/"@
        + relative_path@ + "#"@ + spec_basename(relative_path@) + "-"@ + spec_decimal(n as int));
}

/// Bitbucket diff rendering fails for every input, and Bitbucket
/// file-with-line rendering anchors with the file's basename and the line
/// number, not with an `L` marker.
pub proof fn lemma_bitbucket_rendering(
    lhs: String,
    rhs: String,
    op: DiffOp,
    branch: Option<String>,
    relative_path: String,
    hash: String,
    n: usize,
)
    ensures
        spec_page_path(
            ServiceKind::Bitbucket,
            Page::Diff { lhs, rhs, op },
            branch,
        ) is BitbucketDiff,
        spec_page_path(
            ServiceKind::Bitbucket,
            Page::FileOrDir { relative_path, hash, line: Some(Line::At(n)) },
            branch,
        ) == SpecRender::Path(
            "/src/"@ + hash@ + "/"@ + relative_path@ + "#"@ + spec_basename(relative_path@) + "-"@
                + spec_decimal(n as int),
        ),
{
    assert("/src/"@ + hash@ + "/"@ + relative_path@ + spec_line_anchor_bitbucket(
        relative_path@,
        Some(Line::At(n)),
    ) =~= "/src/"@ + hash@ + "/"@ + relative_path@ + "#"@ + spec_basename(relative_path@) + "-"@
        + spec_decimal(n as int));
}

/// Builds the URL of `page` for the repository and environment of `cfg`.
pub fn build_page_url(page: &Page, cfg: &Config) -> (r: Result<String, Error>)
    ensures
        match spec_build_page_url(cfg.repo@, *page, cfg.branch, cfg.env) {
            SpecBuild::Url(u) => r matches Ok(s) && s@ == u,
            SpecBuild::NoScheme => r matches Err(e) && e matches Error::BrokenUrl {
                url,
                msg,
            } && url@ == cfg.repo@ && msg@ == spec_missing_scheme_msg(),
            SpecBuild::NoUser(p) => r matches Err(e) && e matches Error::NoUserInPath { path }
                && path@ == p,
            SpecBuild::NoRepo(p) => r matches Err(e) && e matches Error::NoRepoInPath { path }
                && path@ == p,
            SpecBuild::UnknownHost => r matches Err(e) && e matches Error::UnknownHostingService {
                url,
            } && url@ == cfg.repo@,
            SpecBuild::GitLabTwoDots => r == Err::<String, Error>(Error::GitLabDiffNotSupported),
            SpecBuild::BitbucketDiff => r == Err::<String, Error>(
                Error::BitbucketDiffNotSupported,
            ),
        },
{
    parse_and_build_page_url(cfg.repo.as_str(), page, &cfg.branch, &cfg.env)
}

} // verus!
