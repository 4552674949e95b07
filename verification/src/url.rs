//! The entry that turns a settled page intent into its URL for the
//! configured repository. Launching the URL in a browser is the caller's
//! work.

use crate::config::Config;
use crate::error::Error;
use crate::page::Page;
use crate::service::{build_page_url, spec_build_page_url, spec_missing_scheme_msg, SpecBuild};
use vstd::prelude::*;

verus! {

/// Builds the URL of `page` for the repository, branch and environment of
/// `cfg`. The page intent is parsed beforehand, since revisions in it need
/// the git collaborator.
pub fn build_url(cfg: &Config, page: &Page) -> (r: Result<String, Error>)
    ensures
        match spec_build_page_url(cfg.repo@, *page, cfg.branch, cfg.env) {
            SpecBuild::Url(u) => r matches Ok(s) && s@ == u,
            SpecBuild::NoScheme => r matches Err(e) && e matches Error::BrokenUrl {
                url,
                msg,
            } && url@ == cfg.repo@ && msg@ == spec_missing_scheme_msg(),
            SpecBuild::NoUser(p) => r matches Err(e) && e matches Error::NoUserInPath { path }
                && path@ == p,
            SpecBuild::NoRepo(p) => r matches Err(e) && e matches Error::NoRepoInPath { path }
                && path@ == p,
            SpecBuild::UnknownHost => r matches Err(e) && e matches Error::UnknownHostingService {
                url,
            } && url@ == cfg.repo@,
            SpecBuild::GitLabTwoDots => r == Err::<String, Error>(Error::GitLabDiffNotSupported),
            SpecBuild::BitbucketDiff => r == Err::<String, Error>(
                Error::BitbucketDiffNotSupported,
            ),
        },
{
    build_page_url(page, cfg)
}

} // verus!
