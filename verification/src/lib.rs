//! Open a repository, file, commit, diff or pull request of a Git hosting
//! service in a web browser: the library turns a repository remote string and
//! a requested page into the exact URL of that page, and decides, for pull
//! requests, which ordered API lookups settle between an existing pull
//! request and a would-be one.

pub mod argv;
pub mod config;
pub mod error;
pub mod git;
pub mod page;
pub mod pull_request;
pub mod service;
pub mod strutil;
pub mod url;
