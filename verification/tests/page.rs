use git_brws::error::Error;
use git_brws::page::{
    parse_diff_arg, parse_file_arg, path_stays_inside, DiffOp, Line, Page, PageResolver,
};

#[test]
fn diff_arg_with_two_dots() {
    assert_eq!(
        parse_diff_arg("HEAD~3..HEAD"),
        Ok(("HEAD~3".to_string(), "HEAD".to_string(), DiffOp::TwoDots))
    );
}

#[test]
fn diff_arg_with_three_dots() {
    assert_eq!(
        parse_diff_arg("master...topic"),
        Ok(("master".to_string(), "topic".to_string(), DiffOp::ThreeDots))
    );
}

#[test]
fn diff_arg_without_dots() {
    assert_eq!(parse_diff_arg("HEAD"), Err(Error::DiffDotsNotFound));
}

#[test]
fn diff_arg_with_empty_hand() {
    match parse_diff_arg("..HEAD") {
        Err(Error::DiffHandIsEmpty { input }) => assert_eq!(input, "..HEAD"),
        r => panic!("unexpected result: {:?}", r),
    }
    match parse_diff_arg("HEAD...") {
        Err(Error::DiffHandIsEmpty { input }) => assert_eq!(input, "HEAD..."),
        r => panic!("unexpected result: {:?}", r),
    }
}

#[test]
fn file_arg_without_line() {
    assert_eq!(
        parse_file_arg("some/file.txt"),
        ("some/file.txt".to_string(), None)
    );
}

#[test]
fn file_arg_with_line() {
    assert_eq!(
        parse_file_arg("some/file.txt#L123"),
        ("some/file.txt".to_string(), Some(Line::At(123)))
    );
}

#[test]
fn file_arg_with_line_range() {
    assert_eq!(
        parse_file_arg("some/file.txt#L123-L126"),
        ("some/file.txt".to_string(), Some(Line::Range(123, 126)))
    );
    assert_eq!(
        parse_file_arg("some/file.txt#L123-126"),
        ("some/file.txt".to_string(), Some(Line::Range(123, 126)))
    );
}

#[test]
fn file_arg_with_unreadable_fragment_is_all_path() {
    assert_eq!(
        parse_file_arg("some/file.txt#readme"),
        ("some/file.txt#readme".to_string(), None)
    );
}

#[test]
fn path_escape_check() {
    assert!(path_stays_inside("src/main.rs"));
    assert!(!path_stays_inside("/etc/passwd"));
    assert!(!path_stays_inside("src/../../secret"));
}

#[test]
fn resolver_reads_a_diff_argument() {
    let mut r = PageResolver::new("HEAD~3..HEAD", &None, "/work/repo");
    assert_eq!(r.current_rev().as_deref(), Some("HEAD~3"));
    assert_eq!(r.advance(Ok("aaa".to_string())), None);
    assert_eq!(r.current_rev().as_deref(), Some("HEAD"));
    assert_eq!(
        r.advance(Ok("bbb".to_string())),
        Some(Ok(Page::Diff {
            lhs: "aaa".to_string(),
            rhs: "bbb".to_string(),
            op: DiffOp::TwoDots,
        }))
    );
    assert_eq!(r.current_rev(), None);
}

#[test]
fn resolver_fails_a_diff_on_an_unknown_revision() {
    let mut r = PageResolver::new("master...topic", &None, "/work/repo");
    assert_eq!(r.current_rev().as_deref(), Some("master"));
    let missing = Error::GitObjectNotFound {
        kind: "commit".to_string(),
        object: "master".to_string(),
        msg: "not found".to_string(),
    };
    assert_eq!(r.advance(Err(missing.clone())), Some(Err(missing)));
    assert_eq!(r.current_rev(), None);
}

#[test]
fn resolver_reads_a_commit_argument() {
    let mut r = PageResolver::new("HEAD~3", &None, "/work/repo");
    assert_eq!(r.current_rev().as_deref(), Some("HEAD~3"));
    assert_eq!(
        r.advance(Ok("90601f10".to_string())),
        Some(Ok(Page::Commit { hash: "90601f10".to_string() }))
    );
}

#[test]
fn resolver_falls_back_to_a_file_under_the_branch() {
    let missing = Error::GitObjectNotFound {
        kind: "commit".to_string(),
        object: "src/main.rs#L12".to_string(),
        msg: "not found".to_string(),
    };
    let mut r = PageResolver::new("src/main.rs#L12", &Some("dev".to_string()), "/work/repo");
    assert_eq!(r.current_rev().as_deref(), Some("src/main.rs#L12"));
    assert_eq!(r.advance(Err(missing.clone())), None);
    // The file page shows the named branch's revision.
    assert_eq!(r.current_rev().as_deref(), Some("dev"));
    assert_eq!(
        r.advance(Ok("aaa".to_string())),
        Some(Ok(Page::FileOrDir {
            relative_path: "src/main.rs".to_string(),
            hash: "aaa".to_string(),
            line: Some(Line::At(12)),
        }))
    );

    // Without a branch the checked-out revision is asked for instead.
    let mut r = PageResolver::new("README.md", &None, "/work/repo");
    assert_eq!(r.advance(Err(missing)), None);
    assert_eq!(r.current_rev().as_deref(), Some("HEAD"));
}

#[test]
fn resolver_rejects_a_file_outside_the_repository() {
    let missing = Error::GitObjectNotFound {
        kind: "commit".to_string(),
        object: "../secret".to_string(),
        msg: "not found".to_string(),
    };
    let mut r = PageResolver::new("../secret", &None, "/work/repo");
    assert_eq!(r.current_rev().as_deref(), Some("../secret"));
    assert_eq!(
        r.advance(Err(missing)),
        Some(Err(Error::FileDirNotInRepo {
            repo_root: "/work/repo".to_string(),
            path: "../secret".to_string(),
        }))
    );
}
