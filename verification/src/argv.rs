//! What the command line amounts to, and the two normalizations applied to
//! the repository argument before anything else looks at it: expanding a
//! shorthand such as `owner/name` into a full Git URL, and rewriting an
//! SCP-style SSH remote into a canonical `ssh://` URL.

use crate::config::{Config, EnvConfig};
use crate::error::Error;
use crate::page::Page;
use crate::service::{
    spec_build_page_url, spec_host_with_port, spec_page_path, spec_parse_repo, ServiceKind,
    SpecBuild, SpecRender, SpecRepoParse,
};
use crate::strutil::{
    all_digits, count_char, count_char_occurrences, find_char, find_char_at, is_all_digits,
    lemma_count_char_concat, lemma_count_char_zero, lemma_find_char_from,
};
use vstd::prelude::*;
use vstd::string::StrSliceExecFns;
use vstd::string::StringExecFns;

verus! {

/// What the command line amounts to: a help text, a version, or a request
/// to open a page.
#[derive(Debug)]
pub enum Parsed {
    Help(String),
    Version(&'static str),
    OpenPage(Config),
}

/// True when digits stand between the colon of an SCP-style remote and the
/// next slash: an embedded port, to be preserved.
pub open spec fn spec_port_embedded(rest: Seq<char>) -> bool {
    let p = match find_char(rest, '/') {
        Some(j) => rest.take(j),
        None => rest,
    };
    p.len() > 0 && all_digits(p)
}

/// How an SCP-style SSH remote is rewritten: `git@host:owner/name.git`
/// becomes `ssh://git@host:22/owner/name.git`; when a port already stands
/// after the colon it is preserved and only the scheme is added; anything
/// not starting with `git@` is left alone.
pub open spec fn spec_convert_ssh_url(url: Seq<char>) -> Seq<char> {
    if !"git@"@.is_prefix_of(url) {
        url
    } else {
        match find_char(url, ':') {
            None => "ssh://"@ + url,
            Some(i) => if spec_port_embedded(url.skip(i + 1)) {
                "ssh://"@ + url
            } else {
                "ssh://"@ + url.take(i + 1) + "22/"@ + url.skip(i + 1)
            },
        }
    }
}

/// Whether `rest` starts with an embedded port.
fn port_embedded(rest: &str) -> (r: bool)
    ensures
        r == spec_port_embedded(rest@),
{
    let n = rest.unicode_len();
    proof {
        lemma_find_char_from(rest@, '/', 0);
    }
    let p = match find_char_at(rest, '/', 0) {
        Some(j) => rest.substring_char(0, j),
        None => rest,
    };
    p.unicode_len() != 0 && is_all_digits(p)
}

/// Rewrites an SCP-style SSH remote into a canonical `ssh://` URL, giving
/// it the default SSH port when none is embedded.
pub fn convert_ssh_url(url: String) -> (r: String)
    ensures
        r@ == spec_convert_ssh_url(url@),
{
    if !crate::strutil::starts_with(url.as_str(), "git@") {
        return url;
    }
    let m = url.as_str().unicode_len();
    proof {
        lemma_find_char_from(url@, ':', 0);
    }
    match find_char_at(url.as_str(), ':', 0) {
        None => {
            let mut r = String::from_str("ssh://");
            r.append(url.as_str());
            r
        },
        Some(i) => {
            let rest = url.as_str().substring_char(i + 1, m);
            proof {
                assert(rest@ =~= url@.skip(i + 1));
            }
            if port_embedded(rest) {
                let mut r = String::from_str("ssh://");
                r.append(url.as_str());
                r
            } else {
                let mut r = String::from_str("ssh://");
                r.append(url.as_str().substring_char(0, i + 1));
                r.append("22/");
                r.append(rest);
                r
            }
        },
    }
}

/// An SCP-style SSH remote `git@host:rest` without an embedded port gains
/// the scheme and the default SSH port: it becomes `ssh://git@host:22/rest`.
pub proof fn lemma_scp_normalization(host: Seq<char>, rest: Seq<char>)
    requires
        host.len() > 0,
        forall|i: int| 0 <= i < host.len() ==> host[i] != ':',
        !spec_port_embedded(rest),
    ensures
        spec_convert_ssh_url("git@"@ + host + ":"@ + rest) == "ssh://git@"@ + host + ":22/"@
            + rest,
{
    reveal_strlit("git@");
    reveal_strlit("ssh://");
    reveal_strlit("ssh://git@");
    reveal_strlit(":");
    reveal_strlit("22/");
    reveal_strlit(":22/");
    let url = "git@"@ + host + ":"@ + rest;
    let n = host.len() as int;
    assert(url.subrange(0, 4) =~= "git@"@);
    assert("git@"@.is_prefix_of(url));
    assert(url[4 + n] == ':');
    assert(forall|j: int| 0 <= j < 4 ==> url[j] == "git@"@[j]);
    assert(forall|j: int| 4 <= j < 4 + n ==> url[j] == host[j - 4]);
    lemma_find_char_from(url, ':', 0);
    assert(find_char(url, ':') == Some(4 + n));
    assert(url.skip(4 + n + 1) =~= rest);
    assert(url.take(4 + n + 1) =~= "git@"@ + host + ":"@);
    assert("ssh://"@ + ("git@"@ + host + ":"@) + "22/"@ + rest =~= "ssh://git@"@ + host + ":22/"@
        + rest);
}

/// An SCP-style SSH remote with an embedded port, `git@host:port/rest`,
/// keeps the port verbatim and only gains the scheme.
pub proof fn lemma_scp_port_preserved(host: Seq<char>, port: Seq<char>, rest: Seq<char>)
    requires
        host.len() > 0,
        forall|i: int| 0 <= i < host.len() ==> host[i] != ':',
        port.len() > 0,
        all_digits(port),
    ensures
        spec_convert_ssh_url("git@"@ + host + ":"@ + port + "/"@ + rest) == "ssh://git@"@ + host
            + ":"@ + port + "/"@ + rest,
{
    reveal_strlit("git@");
    reveal_strlit("ssh://");
    reveal_strlit("ssh://git@");
    reveal_strlit(":");
    reveal_strlit("/");
    let url = "git@"@ + host + ":"@ + port + "/"@ + rest;
    let n = host.len() as int;
    let p = port.len() as int;
    assert(url.subrange(0, 4) =~= "git@"@);
    assert("git@"@.is_prefix_of(url));
    assert(url[4 + n] == ':');
    assert(forall|j: int| 0 <= j < 4 ==> url[j] == "git@"@[j]);
    assert(forall|j: int| 4 <= j < 4 + n ==> url[j] == host[j - 4]);
    lemma_find_char_from(url, ':', 0);
    assert(find_char(url, ':') == Some(4 + n));
    let tail = url.skip(4 + n + 1);
    assert(tail =~= port + "/"@ + rest);
    assert(tail[p] == '/');
    assert(forall|j: int| 0 <= j < p ==> tail[j] == port[j]);
    assert(forall|j: int| 0 <= j < p ==> tail[j] != '/');
    lemma_find_char_from(tail, '/', 0);
    assert(find_char(tail, '/') == Some(p));
    assert(tail.take(p) =~= port);
    assert(spec_port_embedded(tail));
    assert("ssh://"@ + url =~= "ssh://git@"@ + host + ":"@ + port + "/"@ + rest);
}

/// The expanded form of an `owner/name` shorthand parses back into the
/// public GitHub host, the owner and the name.
proof fn lemma_parse_shorthand_url(owner: Seq<char>, name: Seq<char>)
    requires
        owner.len() > 0,
        name.len() > 0,
        forall|i: int| 0 <= i < owner.len() ==> owner[i] != '/',
        forall|i: int| 0 <= i < name.len() ==> name[i] != '/',
    ensures
        spec_parse_repo("https://github.com/"@ + (owner + "/"@ + name) + ".git"@)
            == (SpecRepoParse::Parts { host: "github.com"@, owner, name }),
{
    reveal_strlit("/");
    reveal_strlit("https://github.com/");
    reveal_strlit("https://");
    reveal_strlit("github.com");
    reveal_strlit(".git");
    assert(forall|i: int|
        0 <= i < "github.com"@.len() ==> "github.com"@[i] != '/' && "github.com"@[i] != ':'
            && "github.com"@[i] != '@');
    crate::service::lemma_parse_https_url("github.com"@, owner, name);
    assert("https://github.com/"@ + (owner + "/"@ + name) + ".git"@ =~= "https://"@
        + "github.com"@ + "/"@ + owner + "/"@ + name + ".git"@);
}

/// For every valid `owner/name` shorthand — both parts non-empty and free
/// of slashes, the whole not shaped like a URL — the normalized repository
/// carries `.git`, and yet the rendered `Open` page URL is exactly
/// `https://github.com/owner/name`, without the suffix.
#[verifier::rlimit(100)]
pub proof fn lemma_shorthand_open_url(owner: Seq<char>, name: Seq<char>, env: EnvConfig)
    requires
        owner.len() > 0,
        name.len() > 0,
        forall|i: int| 0 <= i < owner.len() ==> owner[i] != '/',
        forall|i: int| 0 <= i < name.len() ==> name[i] != '/',
        !"git@"@.is_prefix_of(owner + "/"@ + name),
        !"https://"@.is_prefix_of(owner + "/"@ + name),
        !"http://"@.is_prefix_of(owner + "/"@ + name),
        env.ghe_url_host is None,
    ensures
        ({
            let slug = owner + "/"@ + name;
            &&& spec_normalize_repo_format(slug) matches SpecNormalized::Url(u)
            &&& spec_normalize_repo_format(slug) matches SpecNormalized::Url(u)
                ==> spec_build_page_url(u, Page::Open, None, env) == SpecBuild::Url(
                    "https://github.com/"@ + owner + "/"@ + name,
                )
        }),
{
    reveal_strlit("/");
    reveal_strlit("https://github.com/");
    reveal_strlit("https://");
    reveal_strlit("github.com");
    let slug = owner + "/"@ + name;
    lemma_count_char_zero(owner, '/');
    lemma_count_char_zero(name, '/');
    lemma_count_char_concat(owner, "/"@, '/');
    lemma_count_char_concat(owner + "/"@, name, '/');
    assert(count_char("/"@, '/') == 1) by {
        assert("/"@.last() == '/');
        assert("/"@.drop_last() =~= Seq::<char>::empty());
        assert(count_char(Seq::<char>::empty(), '/') == 0);
    }
    assert(count_char(slug, '/') == 1);
    let u = "https://github.com/"@ + slug + ".git"@;
    assert(spec_normalize_repo_format(slug) == SpecNormalized::Url(u));
    lemma_parse_shorthand_url(owner, name);
    crate::service::lemma_classify_public_github(env);
    assert(spec_page_path(ServiceKind::GitHub, Page::Open, None) == SpecRender::Path(
        Seq::<char>::empty(),
    ));
    assert(spec_host_with_port(ServiceKind::GitHub, "github.com"@, env) == "github.com"@);
    assert("https://"@ + "github.com"@ + "/"@ + owner + "/"@ + name + Seq::<char>::empty()
        =~= "https://github.com/"@ + owner + "/"@ + name);
    assert(spec_build_page_url(u, Page::Open, None, env) == SpecBuild::Url(
        "https://github.com/"@ + owner + "/"@ + name,
    ));
}

/// A normalized repository argument: either a full Git URL, or a bare name
/// to be answered by the hosting service's most-starred search.
#[derive(Debug, Clone, PartialEq, Eq)]
pub enum NormalizedRepo {
    Url(String),
    SearchByName(String),
}

/// The outcome of normalizing a repository argument.
pub enum SpecNormalized {
    Url(Seq<char>),
    Search(Seq<char>),
    Broken,
}

/// How a repository argument is normalized: a full URL keeps its text and
/// gains `.git` if absent; `owner/name` expands under `github.com`;
/// `host/owner/name` keeps its host; a bare name is searched for; anything
/// else is broken.
pub open spec fn spec_normalize_repo_format(slug: Seq<char>) -> SpecNormalized {
    if slug.len() == 0 {
        SpecNormalized::Broken
    } else if "git@"@.is_prefix_of(slug) || "https://"@.is_prefix_of(slug)
        || "http://"@.is_prefix_of(slug) {
        SpecNormalized::Url(
            if ".git"@.is_suffix_of(slug) {
                slug
            } else {
                slug + ".git"@
            },
        )
    } else if count_char(slug, '/') == 1 {
        SpecNormalized::Url("https://github.com/"@ + slug + ".git"@)
    } else if count_char(slug, '/') == 2 {
        SpecNormalized::Url("https://"@ + slug + ".git"@)
    } else if count_char(slug, '/') == 0 {
        SpecNormalized::Search(slug)
    } else {
        SpecNormalized::Broken
    }
}

/// Normalizes the repository argument. A bare name is handed back as a
/// search request; the caller asks the hosting service for the most-starred
/// repository of that name and adopts its clone URL.
pub fn normalize_repo_format(slug: String) -> (r: Result<NormalizedRepo, Error>)
    ensures
        match spec_normalize_repo_format(slug@) {
            SpecNormalized::Url(u) => r matches Ok(NormalizedRepo::Url(x)) && x@ == u,
            SpecNormalized::Search(q) => r matches Ok(NormalizedRepo::SearchByName(x)) && x@ == q,
            SpecNormalized::Broken => r matches Err(e) && e matches Error::BrokenRepoFormat {
                input,
            } && input@ == slug@,
        },
{
    if slug.as_str().unicode_len() == 0 {
        return Err(Error::BrokenRepoFormat { input: slug });
    }
    if crate::strutil::starts_with(slug.as_str(), "git@") || crate::strutil::starts_with(
        slug.as_str(),
        "https://",
    ) || crate::strutil::starts_with(slug.as_str(), "http://") {
        if crate::strutil::ends_with(slug.as_str(), ".git") {
            return Ok(NormalizedRepo::Url(slug));
        }
        let mut u = slug;
        u.append(".git");
        return Ok(NormalizedRepo::Url(u));
    }
    let slashes = count_char_occurrences(slug.as_str(), '/');
    if slashes == 1 {
        let mut u = String::from_str("https://github.com/");
        u.append(slug.as_str());
        u.append(".git");
        Ok(NormalizedRepo::Url(u))
    } else if slashes == 2 {
        let mut u = String::from_str("https://");
        u.append(slug.as_str());
        u.append(".git");
        Ok(NormalizedRepo::Url(u))
    } else if slashes == 0 {
        Ok(NormalizedRepo::SearchByName(slug))
    } else {
        Err(Error::BrokenRepoFormat { input: slug })
    }
}

} // verus!
